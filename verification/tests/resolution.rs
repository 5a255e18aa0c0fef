use datum_revisions::datum::{
    create_datum, delete_datum, get_all_deletes_for_datum, get_all_revisions_for_datum,
    get_latest_datum, get_oldest_delete_for_datum, get_original_datum, update_datum,
    UpdateDatumInput,
};
use datum_revisions::hash::{ActionHash, AnyLinkableHash, EntryHash, ExternalHash};
use datum_revisions::record::{
    ActionKind, Datum, DatumError, DeleteMarker, Details, Link, Record, RecordDetails,
    RecordEntry,
};
use datum_revisions::resolve::{
    assemble_revisions, deletes_from_details, original_from_details, require_record,
    resolve_latest, revision_targets, select_latest_link, select_latest_target,
    select_oldest_delete,
};
use datum_revisions::store::Store;

fn action(n: u8) -> ActionHash {
    let mut raw = [n; 39];
    raw[0] = 0x84;
    raw[1] = 0x29;
    raw[2] = 0x24;
    ActionHash { raw }
}

fn datum(value: &str) -> Datum {
    Datum {
        name: String::from("temperature"),
        dtype: String::from("number"),
        value: String::from(value),
        uuid: String::from("7f1c"),
    }
}

fn record(n: u8, timestamp: i64, value: &str) -> Record {
    Record {
        hash: action(n),
        timestamp,
        kind: ActionKind::Create,
        entry: RecordEntry::Datum(datum(value)),
    }
}

fn link(base: u8, target: u8, timestamp: i64) -> Link {
    Link { base: action(base), target: AnyLinkableHash::Action(action(target)), timestamp }
}

fn marker(n: u8, deletes: u8, timestamp: i64) -> DeleteMarker {
    DeleteMarker { hash: action(n), deletes: action(deletes), timestamp }
}

fn update(store: &mut Store, original: u8, previous: u8, n: u8, timestamp: i64, value: &str) -> Record {
    let input = UpdateDatumInput {
        original_datum_hash: action(original),
        previous_datum_hash: action(previous),
        updated_datum: datum(value),
    };
    update_datum(store, input, action(n), timestamp).unwrap()
}

#[test]
fn hashes_compare_byte_by_byte() {
    assert!(action(1).same_as(&action(1)));
    assert!(!action(1).same_as(&action(2)));
    let mut other = action(1);
    other.raw[38] = 9;
    assert!(!action(1).same_as(&other));
}

#[test]
fn only_an_action_address_yields_an_action_hash() {
    assert_eq!(AnyLinkableHash::Action(action(4)).into_action_hash(), Some(action(4)));
    assert_eq!(AnyLinkableHash::Entry(EntryHash { raw: [1; 39] }).into_action_hash(), None);
    assert_eq!(AnyLinkableHash::External(ExternalHash { raw: [2; 39] }).into_action_hash(), None);
}

#[test]
fn create_stores_and_returns_the_record() {
    let mut store = Store::new();
    let created = create_datum(&mut store, datum("20"), action(1), 10).unwrap();
    assert_eq!(created, record(1, 10, "20"));
    assert_eq!(store.records, vec![record(1, 10, "20")]);
    assert!(store.links.is_empty());
    assert!(store.deletes.is_empty());
    assert_eq!(store.get(&action(1)), Some(record(1, 10, "20")));
    assert_eq!(store.get(&action(2)), None);
}

#[test]
fn latest_is_idempotent() {
    let mut store = Store::new();
    create_datum(&mut store, datum("20"), action(1), 10).unwrap();
    update(&mut store, 1, 1, 2, 11, "21");
    let first = get_latest_datum(&store, action(1));
    let second = get_latest_datum(&store, action(1));
    assert_eq!(first, second);
    assert_eq!(first.unwrap().unwrap().hash, action(2));
}

#[test]
fn latest_falls_back_to_the_original() {
    let mut store = Store::new();
    create_datum(&mut store, datum("20"), action(1), 10).unwrap();
    let latest = get_latest_datum(&store, action(1));
    assert_eq!(latest, get_original_datum(&store, action(1)));
    assert_eq!(latest, Ok(Some(record(1, 10, "20"))));
}

#[test]
fn latest_of_a_missing_entity_is_not_found() {
    let store = Store::new();
    assert_eq!(get_latest_datum(&store, action(1)), Err(DatumError::NotFound));
    assert_eq!(get_original_datum(&store, action(1)), Ok(None));
}

#[test]
fn latest_picks_the_greatest_timestamp_in_every_order() {
    let stamps: [[i64; 3]; 6] =
        [[5, 9, 3], [5, 3, 9], [9, 5, 3], [9, 3, 5], [3, 5, 9], [3, 9, 5]];
    for order in stamps.iter() {
        let mut store = Store::new();
        create_datum(&mut store, datum("0"), action(1), 1).unwrap();
        for t in order.iter() {
            update(&mut store, 1, 1, 10 + (*t as u8), *t, "x");
        }
        let latest = get_latest_datum(&store, action(1)).unwrap().unwrap();
        assert_eq!(latest.hash, action(19));
        assert_eq!(latest.timestamp, 9);
    }
}

#[test]
fn select_latest_link_breaks_ties_by_last_position() {
    let links = vec![link(1, 2, 7), link(1, 3, 9), link(1, 4, 9), link(1, 5, 1)];
    assert_eq!(select_latest_link(&links), Some(2));
    assert_eq!(select_latest_target(action(1), &links), Ok(action(4)));
    assert_eq!(select_latest_link(&Vec::new()), None);
    assert_eq!(select_latest_target(action(1), &Vec::new()), Ok(action(1)));
}

#[test]
fn latest_rejects_a_target_that_is_no_action() {
    let mut store = Store::new();
    create_datum(&mut store, datum("0"), action(1), 1).unwrap();
    store.links.push(Link {
        base: action(1),
        target: AnyLinkableHash::Entry(EntryHash { raw: [7; 39] }),
        timestamp: 50,
    });
    assert_eq!(get_latest_datum(&store, action(1)), Err(DatumError::MalformedEdge));
    assert_eq!(get_all_revisions_for_datum(&store, action(1)), Err(DatumError::MalformedEdge));
}

#[test]
fn latest_ignores_a_malformed_link_that_is_not_selected() {
    let links = vec![
        Link {
            base: action(1),
            target: AnyLinkableHash::External(ExternalHash { raw: [7; 39] }),
            timestamp: 2,
        },
        link(1, 3, 8),
    ];
    assert_eq!(select_latest_target(action(1), &links), Ok(action(3)));
    assert_eq!(revision_targets(&links), Err(DatumError::MalformedEdge));
}

#[test]
fn latest_of_a_target_not_yet_stored_is_none() {
    let mut store = Store::new();
    create_datum(&mut store, datum("0"), action(1), 1).unwrap();
    store.links.push(link(1, 9, 5));
    assert_eq!(get_latest_datum(&store, action(1)), Ok(None));
}

#[test]
fn links_of_other_entities_are_ignored() {
    let mut store = Store::new();
    create_datum(&mut store, datum("a"), action(1), 1).unwrap();
    create_datum(&mut store, datum("b"), action(2), 2).unwrap();
    update(&mut store, 2, 2, 3, 99, "b2");
    assert_eq!(get_latest_datum(&store, action(1)), Ok(Some(record(1, 1, "a"))));
    assert_eq!(store.get_links(&action(1)), Vec::new());
    assert_eq!(store.get_links(&action(2)), vec![link(2, 3, 99)]);
}

#[test]
fn history_starts_with_the_original() {
    let mut store = Store::new();
    create_datum(&mut store, datum("20"), action(1), 10).unwrap();
    assert_eq!(get_all_revisions_for_datum(&store, action(1)), Ok(vec![record(1, 10, "20")]));
    assert_eq!(get_all_revisions_for_datum(&store, action(2)), Ok(Vec::new()));
}

#[test]
fn history_drops_revisions_that_are_not_stored() {
    let mut store = Store::new();
    create_datum(&mut store, datum("20"), action(1), 10).unwrap();
    let second = update(&mut store, 1, 1, 2, 30, "21");
    store.links.push(link(1, 9, 20));
    let third = update(&mut store, 1, 2, 3, 15, "22");
    assert_eq!(
        get_all_revisions_for_datum(&store, action(1)),
        Ok(vec![record(1, 10, "20"), second, third])
    );
}

#[test]
fn revision_targets_keep_link_order() {
    let links = vec![link(1, 4, 3), link(1, 2, 9), link(1, 3, 1)];
    assert_eq!(revision_targets(&links), Ok(vec![action(4), action(2), action(3)]));
    assert_eq!(revision_targets(&Vec::new()), Ok(Vec::new()));
}

#[test]
fn assemble_puts_the_original_first_and_skips_gaps() {
    let fetched = vec![None, Some(record(2, 5, "b")), None, Some(record(3, 4, "c"))];
    assert_eq!(
        assemble_revisions(record(1, 1, "a"), fetched),
        vec![record(1, 1, "a"), record(2, 5, "b"), record(3, 4, "c")]
    );
    assert_eq!(assemble_revisions(record(1, 1, "a"), Vec::new()), vec![record(1, 1, "a")]);
}

#[test]
fn update_links_from_the_original_hash() {
    let mut store = Store::new();
    create_datum(&mut store, datum("20"), action(1), 10).unwrap();
    update(&mut store, 1, 1, 2, 11, "21");
    let third = update(&mut store, 1, 2, 3, 12, "22");
    assert_eq!(third.kind, ActionKind::Update(action(2)));
    assert_eq!(third.entry, RecordEntry::Datum(datum("22")));
    assert_eq!(store.links, vec![link(1, 2, 11), link(1, 3, 12)]);
    assert_eq!(get_latest_datum(&store, action(1)), Ok(Some(third)));
}

#[test]
fn concurrent_updates_resolve_to_the_later_one() {
    let mut store = Store::new();
    let h0 = create_datum(&mut store, datum("v0"), action(1), 100).unwrap();
    let h1 = update(&mut store, 1, 1, 2, 200, "v1");
    let h2 = update(&mut store, 1, 1, 3, 300, "v2");
    assert_eq!(get_latest_datum(&store, action(1)), Ok(Some(h2.clone())));
    let revisions = get_all_revisions_for_datum(&store, action(1)).unwrap();
    assert_eq!(revisions.len(), 3);
    assert_eq!(revisions[0], h0);
    assert!(revisions.contains(&h1));
    assert!(revisions.contains(&h2));
}

#[test]
fn oldest_delete_is_the_least_timestamp() {
    let mut store = Store::new();
    create_datum(&mut store, datum("20"), action(1), 10).unwrap();
    assert_eq!(delete_datum(&mut store, action(1), action(50), 100), Ok(marker(50, 1, 100)));
    delete_datum(&mut store, action(1), action(51), 20).unwrap();
    delete_datum(&mut store, action(1), action(52), 77).unwrap();
    assert_eq!(get_oldest_delete_for_datum(&store, action(1)), Ok(Some(marker(51, 1, 20))));
    assert_eq!(
        get_all_deletes_for_datum(&store, action(1)),
        Ok(Some(vec![marker(50, 1, 100), marker(51, 1, 20), marker(52, 1, 77)]))
    );
    assert_eq!(store.records.len(), 1);
}

#[test]
fn select_oldest_delete_breaks_ties_by_first_position() {
    let deletes = vec![marker(5, 1, 40), marker(6, 1, 20), marker(7, 1, 20), marker(8, 1, 30)];
    assert_eq!(select_oldest_delete(&deletes), Some(1));
    assert_eq!(select_oldest_delete(&vec![marker(5, 1, 100), marker(6, 1, 20), marker(7, 1, 77)]), Some(1));
    assert_eq!(select_oldest_delete(&vec![marker(5, 1, 3)]), Some(0));
    assert_eq!(select_oldest_delete(&Vec::new()), None);
}

#[test]
fn no_deletes_differs_from_no_entity() {
    let mut store = Store::new();
    create_datum(&mut store, datum("20"), action(1), 10).unwrap();
    delete_datum(&mut store, action(3), action(50), 5).unwrap();
    let existing = get_all_deletes_for_datum(&store, action(1));
    let missing = get_all_deletes_for_datum(&store, action(2));
    assert_eq!(existing, Ok(Some(Vec::new())));
    assert_eq!(missing, Ok(None));
    assert_ne!(existing, missing);
    assert_eq!(get_oldest_delete_for_datum(&store, action(1)), Ok(None));
    assert_eq!(get_oldest_delete_for_datum(&store, action(2)), Ok(None));
}

#[test]
fn details_of_a_record_carry_its_deletes() {
    let mut store = Store::new();
    create_datum(&mut store, datum("20"), action(1), 10).unwrap();
    delete_datum(&mut store, action(1), action(50), 5).unwrap();
    assert_eq!(
        store.get_details(&action(1)),
        Some(Details::Record(RecordDetails {
            record: record(1, 10, "20"),
            deletes: vec![marker(50, 1, 5)],
        }))
    );
    assert_eq!(store.get_details(&action(2)), None);
}

#[test]
fn entry_details_are_malformed() {
    let entry_only: Option<Details<Record, DeleteMarker>> = Some(Details::Entry);
    assert_eq!(original_from_details(entry_only), Err(DatumError::MalformedDetails));
    let entry_only: Option<Details<Record, DeleteMarker>> = Some(Details::Entry);
    assert_eq!(deletes_from_details(entry_only), Err(DatumError::MalformedDetails));
    let nothing: Option<Details<Record, DeleteMarker>> = None;
    assert_eq!(original_from_details(nothing), Ok(None));
    let nothing: Option<Details<Record, DeleteMarker>> = None;
    assert_eq!(deletes_from_details(nothing), Ok(None));
    let details = RecordDetails { record: record(1, 1, "a"), deletes: vec![marker(2, 1, 3)] };
    assert_eq!(original_from_details(Some(Details::Record(details))), Ok(Some(record(1, 1, "a"))));
    let details = RecordDetails { record: record(1, 1, "a"), deletes: vec![marker(2, 1, 3)] };
    assert_eq!(deletes_from_details(Some(Details::Record(details))), Ok(Some(vec![marker(2, 1, 3)])));
}

#[test]
fn a_record_that_cannot_be_read_back_is_not_found() {
    let nothing: Option<Record> = None;
    assert_eq!(require_record(nothing), Err(DatumError::NotFound));
    assert_eq!(require_record(Some(record(1, 1, "a"))), Ok(record(1, 1, "a")));
}

#[test]
fn a_missing_record_is_an_error_only_without_links() {
    let nothing: Option<Record> = None;
    assert_eq!(resolve_latest(0, nothing), Err(DatumError::NotFound));
    let nothing: Option<Record> = None;
    assert_eq!(resolve_latest(2, nothing), Ok(None));
    assert_eq!(resolve_latest(0, Some(record(1, 1, "a"))), Ok(Some(record(1, 1, "a"))));
    assert_eq!(resolve_latest(3, Some(7u8)), Ok(Some(7u8)));
}

#[test]
fn a_hash_stored_twice_reads_the_first_record() {
    let mut store = Store::new();
    create_datum(&mut store, datum("a"), action(1), 1).unwrap();
    let again = create_datum(&mut store, datum("b"), action(1), 2).unwrap();
    assert_eq!(again, record(1, 1, "a"));
    assert_eq!(store.records.len(), 2);
}
