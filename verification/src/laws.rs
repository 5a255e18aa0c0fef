//! Properties that relate the operations to one another.

use vstd::prelude::*;
use crate::datum::{all_deletes, all_revisions, latest_datum, original_datum, records_of};
use crate::hash::{ActionHash, AnyLinkableHash};
use crate::record::{DatumError, DeleteMarker, Link, Record};
use crate::resolve::{
    is_latest_link, is_oldest_delete, latest_link, lemma_latest_link_unique,
    lemma_oldest_delete_unique, oldest_of, targets_of,
};
use crate::store::{
    lemma_deletes_aimed_at_push, lemma_links_from_push, lemma_record_at_push, links_from, Store,
};

verus! {

/// Resolution reads the tables and nothing else: as long as no record and
/// no link is written, asking again gives the same answer.
pub proof fn lemma_latest_is_repeatable(first: Store, second: Store, original: ActionHash)
    requires
        second.records@ == first.records@,
        second.links@ == first.links@,
    ensures
        latest_datum(second, original) == latest_datum(first, original),
{
}

/// A link that is strictly newer than every other link is the latest one,
/// wherever it stands among them.
pub proof fn lemma_unique_newest_link_wins(links: Seq<Link>, i: int)
    requires
        0 <= i < links.len(),
        forall|j: int| 0 <= j < links.len() && j != i ==> links[j].timestamp < links[i].timestamp,
    ensures
        latest_link(links) == Some(i),
{
    assert(is_latest_link(links, i));
    let c = choose|k: int| is_latest_link(links, k);
    lemma_latest_link_unique(links, c, i);
}

/// A marker that is strictly older than every other marker is the oldest
/// one, wherever it stands among them.
pub proof fn lemma_unique_oldest_delete_wins(deletes: Seq<DeleteMarker>, i: int)
    requires
        0 <= i < deletes.len(),
        forall|j: int|
            0 <= j < deletes.len() && j != i ==> deletes[i].timestamp < deletes[j].timestamp,
    ensures
        oldest_of(deletes) == Some(deletes[i]),
{
    assert(is_oldest_delete(deletes, i));
    let c = choose|k: int| is_oldest_delete(deletes, k);
    lemma_oldest_delete_unique(deletes, c, i);
}

/// For a stored entity with no update link, the latest revision is the
/// original record.
pub proof fn lemma_latest_falls_back_to_original(store: Store, original: ActionHash)
    requires
        store.record(original) is Some,
        store.update_links(original).len() == 0,
    ensures
        latest_datum(store, original) == original_datum(store, original),
{
}

/// The history of a stored entity begins with its original record, so it is
/// never empty; the history of an entity that is not stored is empty.
pub proof fn lemma_revisions_start_with_original(store: Store, original: ActionHash)
    ensures
        match (store.record(original), all_revisions(store, original)) {
            (Some(first), Ok(revisions)) => revisions.len() >= 1 && revisions[0] == first,
            (Some(_), Err(e)) => e == DatumError::MalformedEdge,
            (None, r) => r == Ok::<Seq<Record>, DatumError>(Seq::empty()),
        },
{
}

/// An entity that is stored and carries no deletion marker reports an empty
/// list of markers, while an entity that is not stored reports no list at
/// all; the two answers differ.
pub proof fn lemma_deletes_tell_missing_from_undeleted(
    store: Store,
    stored: ActionHash,
    missing: ActionHash,
)
    requires
        store.record(stored) is Some,
        store.delete_markers(stored).len() == 0,
        store.record(missing) is None,
    ensures
        all_deletes(store, stored) == Ok::<Option<Seq<DeleteMarker>>, DatumError>(
            Some(Seq::empty()),
        ),
        all_deletes(store, missing) == Ok::<Option<Seq<DeleteMarker>>, DatumError>(None),
        all_deletes(store, stored) != all_deletes(store, missing),
{
    assert(store.delete_markers(stored) =~= Seq::empty());
}

/// A link appended with a timestamp no smaller than that of any link before
/// it is the latest link.
pub proof fn lemma_newest_appended_link_is_latest(links: Seq<Link>, added: Link)
    requires
        forall|j: int| 0 <= j < links.len() ==> links[j].timestamp <= added.timestamp,
    ensures
        latest_link(links.push(added)) == Some(links.len() as int),
{
    let all = links.push(added);
    assert(is_latest_link(all, links.len() as int));
    let c = choose|i: int| is_latest_link(all, i);
    lemma_latest_link_unique(all, c, links.len() as int);
}

/// After an update whose timestamp is no smaller than that of any earlier
/// update of the same entity, and whose hash is new to the store, the latest
/// revision of the entity is the record just written.
pub proof fn lemma_update_becomes_latest(
    before: Store,
    after: Store,
    original: ActionHash,
    written: Record,
)
    requires
        before.record(written.hash) is None,
        forall|j: int|
            0 <= j < before.update_links(original).len() ==> before.update_links(
                original,
            )[j].timestamp <= written.timestamp,
        after.records@ == before.records@.push(written),
        after.links@ == before.links@.push(
            Link {
                base: original,
                target: AnyLinkableHash::Action(written.hash),
                timestamp: written.timestamp,
            },
        ),
    ensures
        latest_datum(after, original) == Ok::<Option<Record>, DatumError>(Some(written)),
{
    let link = Link {
        base: original,
        target: AnyLinkableHash::Action(written.hash),
        timestamp: written.timestamp,
    };
    lemma_links_from_push(before.links@, link, original);
    lemma_record_at_push(before.records@, written, written.hash);
    let earlier = links_from(before.links@, original);
    assert forall|j: int| 0 <= j < earlier.len() implies earlier[j].timestamp
        <= link.timestamp by {
        assert(before.update_links(original)[j].timestamp <= written.timestamp);
    }
    lemma_newest_appended_link_is_latest(earlier, link);
}

/// A deletion adds a marker and destroys nothing: the entity's markers grow
/// by the new one, and its latest revision and its history stay as they were.
pub proof fn lemma_delete_only_adds_a_marker(
    before: Store,
    after: Store,
    original: ActionHash,
    marker: DeleteMarker,
)
    requires
        before.record(original) is Some,
        marker.deletes == original,
        after.records@ == before.records@,
        after.links@ == before.links@,
        after.deletes@ == before.deletes@.push(marker),
    ensures
        all_deletes(after, original) == Ok::<Option<Seq<DeleteMarker>>, DatumError>(
            Some(before.delete_markers(original).push(marker)),
        ),
        latest_datum(after, original) == latest_datum(before, original),
        all_revisions(after, original) == all_revisions(before, original),
{
    lemma_deletes_aimed_at_push(before.deletes@, marker, original);
    assert(records_of(after, targets_of(after.update_links(original))) =~= records_of(
        before,
        targets_of(before.update_links(original)),
    ));
}

} // verus!
