//! The operations on an entity: create, update, delete, and the three reads
//! that recover its current revision, its history and its deletion state.
//!
//! Every operation works on a [`Store`]. Hashes and timestamps of new records
//! are assigned by whoever owns the log and are passed in.

use vstd::prelude::*;
use crate::hash::{ActionHash, AnyLinkableHash};
use crate::record::{
    ActionKind, Datum, DatumError, DeleteMarker, Link, Record, RecordEntry,
};
use crate::resolve::{
    all_targets_are_actions, assemble_revisions, deletes_from_details, latest_outcome,
    latest_target, oldest_of, original_from_details, present, require_record, resolve_latest,
    revision_targets, select_latest_target, select_oldest_delete, targets_of,
};
use crate::store::{lemma_record_at_push, Store};

verus! {

/// What an update needs: the entity, the revision being superseded, and the
/// new payload.
#[derive(Debug)]
pub struct UpdateDatumInput {
    pub original_datum_hash: ActionHash,
    pub previous_datum_hash: ActionHash,
    pub updated_datum: Datum,
}

/// The current revision of the entity rooted at `original`.
///
/// With no update link the entity's own record is current, and its absence
/// is an error. Otherwise the record at the latest link's target is current;
/// it may not have arrived yet, which is no error.
pub open spec fn latest_datum(store: Store, original: ActionHash) -> Result<
    Option<Record>,
    DatumError,
> {
    let links = store.update_links(original);
    match latest_target(original, links) {
        Ok(target) => latest_outcome(links.len(), store.record(target)),
        Err(e) => Err(e),
    }
}

/// The first record of the entity rooted at `original`.
pub open spec fn original_datum(store: Store, original: ActionHash) -> Result<
    Option<Record>,
    DatumError,
> {
    Ok(store.record(original))
}

/// What the store holds under each of `targets`, in order.
pub open spec fn records_of(store: Store, targets: Seq<ActionHash>) -> Seq<Option<Record>> {
    Seq::new(targets.len(), |i: int| store.record(targets[i]))
}

/// Every revision of the entity rooted at `original`: the original first,
/// then the targets of its update links in link order, those that are not
/// stored left out. Empty where the original itself is not stored.
pub open spec fn all_revisions(store: Store, original: ActionHash) -> Result<
    Seq<Record>,
    DatumError,
> {
    match store.record(original) {
        None => Ok(Seq::empty()),
        Some(first) => {
            let links = store.update_links(original);
            if all_targets_are_actions(links) {
                Ok(seq![first] + present(records_of(store, targets_of(links))))
            } else {
                Err(DatumError::MalformedEdge)
            }
        },
    }
}

/// The deletion markers of the entity rooted at `original`; `None` where the
/// original is not stored.
pub open spec fn all_deletes(store: Store, original: ActionHash) -> Result<
    Option<Seq<DeleteMarker>>,
    DatumError,
> {
    match store.record(original) {
        None => Ok(None),
        Some(_) => Ok(Some(store.delete_markers(original))),
    }
}

/// The earliest deletion marker of the entity rooted at `original`.
pub open spec fn oldest_delete(store: Store, original: ActionHash) -> Result<
    Option<DeleteMarker>,
    DatumError,
> {
    match store.record(original) {
        None => Ok(None),
        Some(_) => Ok(oldest_of(store.delete_markers(original))),
    }
}

/// The markers of a result, as a sequence.
pub open spec fn markers_view(r: Result<Option<Vec<DeleteMarker>>, DatumError>) -> Result<
    Option<Seq<DeleteMarker>>,
    DatumError,
> {
    match r {
        Ok(Some(v)) => Ok(Some(v@)),
        Ok(None) => Ok(None),
        Err(e) => Err(e),
    }
}

/// The records of a result, as a sequence.
pub open spec fn records_view(r: Result<Vec<Record>, DatumError>) -> Result<
    Seq<Record>,
    DatumError,
> {
    match r {
        Ok(v) => Ok(v@),
        Err(e) => Err(e),
    }
}

/// Stores a new entity under `hash` and reads it back.
pub fn create_datum(store: &mut Store, datum: Datum, hash: ActionHash, timestamp: i64) -> (r:
    Result<Record, DatumError>)
    ensures
        final(store).records@ == old(store).records@.push(
            Record { hash, timestamp, kind: ActionKind::Create, entry: RecordEntry::Datum(datum) },
        ),
        final(store).links@ == old(store).links@,
        final(store).deletes@ == old(store).deletes@,
        r is Ok,
        Some(r->Ok_0) == final(store).record(hash),
        old(store).record(hash) is None ==> r->Ok_0 == (Record {
            hash,
            timestamp,
            kind: ActionKind::Create,
            entry: RecordEntry::Datum(datum),
        }),
{
    let record = Record { hash, timestamp, kind: ActionKind::Create, entry: RecordEntry::Datum(datum) };
    proof {
        lemma_record_at_push(store.records@, record, hash);
    }
    store.records.push(record);
    let fetched = store.get(&hash);
    require_record(fetched)
}

/// The current revision of the entity rooted at `original_datum_hash`.
pub fn get_latest_datum(store: &Store, original_datum_hash: ActionHash) -> (r: Result<
    Option<Record>,
    DatumError,
>)
    ensures
        r == latest_datum(*store, original_datum_hash),
{
    let links = store.get_links(&original_datum_hash);
    let target = select_latest_target(original_datum_hash, &links)?;
    let fetched = store.get(&target);
    resolve_latest(links.len(), fetched)
}

/// The first record of the entity rooted at `original_datum_hash`.
pub fn get_original_datum(store: &Store, original_datum_hash: ActionHash) -> (r: Result<
    Option<Record>,
    DatumError,
>)
    ensures
        r == original_datum(*store, original_datum_hash),
{
    let details = store.get_details(&original_datum_hash);
    original_from_details(details)
}

/// Every revision of the entity rooted at `original_datum_hash`.
pub fn get_all_revisions_for_datum(store: &Store, original_datum_hash: ActionHash) -> (r: Result<
    Vec<Record>,
    DatumError,
>)
    ensures
        records_view(r) == all_revisions(*store, original_datum_hash),
{
    let first = match get_original_datum(store, original_datum_hash)? {
        Some(first) => first,
        None => {
            return Ok(Vec::new());
        },
    };
    let links = store.get_links(&original_datum_hash);
    let targets = revision_targets(&links)?;
    let mut fetched: Vec<Option<Record>> = Vec::new();
    let mut i: usize = 0;
    while i < targets.len()
        invariant
            i <= targets.len(),
            fetched@ == records_of(*store, targets@.take(i as int)),
        decreases targets.len() - i,
    {
        let one = store.get(&targets[i]);
        fetched.push(one);
        assert(fetched@ =~= records_of(*store, targets@.take(i as int + 1)));
        i = i + 1;
    }
    assert(targets@.take(i as int) =~= targets@);
    Ok(assemble_revisions(first, fetched))
}

/// Stores a new revision under `hash`, links it to the entity's original
/// hash, and reads it back.
pub fn update_datum(store: &mut Store, input: UpdateDatumInput, hash: ActionHash, timestamp: i64)
    -> (r: Result<Record, DatumError>)
    ensures
        final(store).records@ == old(store).records@.push(
            Record {
                hash,
                timestamp,
                kind: ActionKind::Update(input.previous_datum_hash),
                entry: RecordEntry::Datum(input.updated_datum),
            },
        ),
        final(store).links@ == old(store).links@.push(
            Link {
                base: input.original_datum_hash,
                target: AnyLinkableHash::Action(hash),
                timestamp,
            },
        ),
        final(store).deletes@ == old(store).deletes@,
        r is Ok,
        Some(r->Ok_0) == final(store).record(hash),
        old(store).record(hash) is None ==> r->Ok_0 == (Record {
            hash,
            timestamp,
            kind: ActionKind::Update(input.previous_datum_hash),
            entry: RecordEntry::Datum(input.updated_datum),
        }),
{
    let record = Record {
        hash,
        timestamp,
        kind: ActionKind::Update(input.previous_datum_hash),
        entry: RecordEntry::Datum(input.updated_datum),
    };
    proof {
        lemma_record_at_push(store.records@, record, hash);
    }
    store.records.push(record);
    store.links.push(
        Link { base: input.original_datum_hash, target: AnyLinkableHash::Action(hash), timestamp },
    );
    let fetched = store.get(&hash);
    require_record(fetched)
}

/// Appends a deletion marker, stored under `hash`, aimed at the entity
/// rooted at `original_datum_hash`, and returns it. Nothing is removed.
pub fn delete_datum(
    store: &mut Store,
    original_datum_hash: ActionHash,
    hash: ActionHash,
    timestamp: i64,
) -> (r: Result<DeleteMarker, DatumError>)
    ensures
        final(store).records@ == old(store).records@,
        final(store).links@ == old(store).links@,
        final(store).deletes@ == old(store).deletes@.push(
            DeleteMarker { hash, deletes: original_datum_hash, timestamp },
        ),
        r == Ok::<DeleteMarker, DatumError>(
            DeleteMarker { hash, deletes: original_datum_hash, timestamp },
        ),
{
    let marker = DeleteMarker { hash, deletes: original_datum_hash, timestamp };
    store.deletes.push(marker);
    Ok(marker)
}

/// The deletion markers of the entity rooted at `original_datum_hash`.
pub fn get_all_deletes_for_datum(store: &Store, original_datum_hash: ActionHash) -> (r: Result<
    Option<Vec<DeleteMarker>>,
    DatumError,
>)
    ensures
        markers_view(r) == all_deletes(*store, original_datum_hash),
{
    let details = store.get_details(&original_datum_hash);
    deletes_from_details(details)
}

/// The earliest deletion marker of the entity rooted at `original_datum_hash`.
pub fn get_oldest_delete_for_datum(store: &Store, original_datum_hash: ActionHash) -> (r: Result<
    Option<DeleteMarker>,
    DatumError,
>)
    ensures
        r == oldest_delete(*store, original_datum_hash),
{
    match get_all_deletes_for_datum(store, original_datum_hash)? {
        None => Ok(None),
        Some(deletes) => match select_oldest_delete(&deletes) {
            Some(i) => Ok(Some(deletes[i])),
            None => Ok(None),
        },
    }
}

} // verus!
