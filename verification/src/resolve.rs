//! Selection rules over data already fetched from the log: which update link
//! is the latest, which deletion marker is the oldest, and how a revision
//! history is put together.
//!
//! Ties are broken by position. Among update links of equal, greatest
//! timestamp the one returned last by the link index wins; among deletion
//! markers of equal, least timestamp the one returned first wins.

use vstd::prelude::*;
use crate::hash::{ActionHash, AnyLinkableHash};
use crate::record::{DatumError, DeleteMarker, Details, Link};

verus! {

/// `i` is the position of the latest link: no link is newer, and every link
/// after it is strictly older.
pub open spec fn is_latest_link(links: Seq<Link>, i: int) -> bool {
    &&& 0 <= i < links.len()
    &&& forall|j: int| 0 <= j < links.len() ==> links[j].timestamp <= links[i].timestamp
    &&& forall|j: int| i < j < links.len() ==> links[j].timestamp < links[i].timestamp
}

/// Position of the latest link, if there is any link.
pub open spec fn latest_link(links: Seq<Link>) -> Option<int> {
    if links.len() == 0 {
        None
    } else {
        Some(choose|i: int| is_latest_link(links, i))
    }
}

/// `i` is the position of the oldest marker: no marker is older, and every
/// marker before it is strictly newer.
pub open spec fn is_oldest_delete(deletes: Seq<DeleteMarker>, i: int) -> bool {
    &&& 0 <= i < deletes.len()
    &&& forall|j: int| 0 <= j < deletes.len() ==> deletes[i].timestamp <= deletes[j].timestamp
    &&& forall|j: int| 0 <= j < i ==> deletes[i].timestamp < deletes[j].timestamp
}

/// Position of the oldest marker, if there is any marker.
pub open spec fn oldest_delete_position(deletes: Seq<DeleteMarker>) -> Option<int> {
    if deletes.len() == 0 {
        None
    } else {
        Some(choose|i: int| is_oldest_delete(deletes, i))
    }
}

/// The oldest marker, if there is any marker.
pub open spec fn oldest_of(deletes: Seq<DeleteMarker>) -> Option<DeleteMarker> {
    match oldest_delete_position(deletes) {
        Some(i) => Some(deletes[i]),
        None => None,
    }
}

/// What resolution returns once the chosen hash has been fetched. With no
/// update link the entity's own record was asked for, and its absence is an
/// error; with links, a target that has not arrived yet is no error.
pub open spec fn latest_outcome<T>(link_count: nat, fetched: Option<T>) -> Result<
    Option<T>,
    DatumError,
> {
    if link_count == 0 && fetched is None {
        Err(DatumError::NotFound)
    } else {
        Ok(fetched)
    }
}

/// The hash whose record is the current revision: the target of the latest
/// link, or the original hash where there is no link.
pub open spec fn latest_target(original: ActionHash, links: Seq<Link>) -> Result<
    ActionHash,
    DatumError,
> {
    match latest_link(links) {
        None => Ok(original),
        Some(i) => match links[i].target.action_hash() {
            Some(h) => Ok(h),
            None => Err(DatumError::MalformedEdge),
        },
    }
}

/// Every link points at an action.
pub open spec fn all_targets_are_actions(links: Seq<Link>) -> bool {
    forall|i: int| 0 <= i < links.len() ==> (#[trigger] links[i]).target is Action
}

/// The action hashes that the links point at, in link order.
pub open spec fn targets_of(links: Seq<Link>) -> Seq<ActionHash> {
    Seq::new(links.len(), |i: int| links[i].target->Action_0)
}

/// The records that are present, in order, with the absent ones left out.
pub open spec fn present<T>(fetched: Seq<Option<T>>) -> Seq<T>
    decreases fetched.len(),
{
    if fetched.len() == 0 {
        Seq::empty()
    } else if let Some(r) = fetched.last() {
        present(fetched.drop_last()).push(r)
    } else {
        present(fetched.drop_last())
    }
}

/// The original record of an entity, read off a details response.
pub open spec fn original_of<R, D>(details: Option<Details<R, D>>) -> Result<
    Option<R>,
    DatumError,
> {
    match details {
        None => Ok(None),
        Some(Details::Record(d)) => Ok(Some(d.record)),
        Some(Details::Entry) => Err(DatumError::MalformedDetails),
    }
}

/// The deletion markers of an entity, read off a details response.
pub open spec fn deletes_of<R, D>(details: Option<Details<R, D>>) -> Result<
    Option<Seq<D>>,
    DatumError,
> {
    match details {
        None => Ok(None),
        Some(Details::Record(d)) => Ok(Some(d.deletes@)),
        Some(Details::Entry) => Err(DatumError::MalformedDetails),
    }
}

/// Two positions that both qualify as the latest link are the same position.
pub proof fn lemma_latest_link_unique(links: Seq<Link>, i: int, j: int)
    requires
        is_latest_link(links, i),
        is_latest_link(links, j),
    ensures
        i == j,
{
    if i < j {
        assert(links[j].timestamp < links[i].timestamp);
    } else if j < i {
        assert(links[i].timestamp < links[j].timestamp);
    }
}

/// Two positions that both qualify as the oldest marker are the same position.
pub proof fn lemma_oldest_delete_unique(deletes: Seq<DeleteMarker>, i: int, j: int)
    requires
        is_oldest_delete(deletes, i),
        is_oldest_delete(deletes, j),
    ensures
        i == j,
{
    if i < j {
        assert(deletes[j].timestamp < deletes[i].timestamp);
    } else if j < i {
        assert(deletes[i].timestamp < deletes[j].timestamp);
    }
}

/// Finds the link with the greatest timestamp; of several such links, the last.
pub fn select_latest_link(links: &Vec<Link>) -> (r: Option<usize>)
    ensures
        r is Some <==> links.len() > 0,
        r matches Some(i) ==> is_latest_link(links@, i as int),
        r matches Some(i) ==> latest_link(links@) == Some(i as int),
        r is None ==> latest_link(links@) is None,
{
    if links.len() == 0 {
        return None;
    }
    let mut best: usize = 0;
    let mut i: usize = 1;
    while i < links.len()
        invariant
            1 <= i <= links.len(),
            is_latest_link(links@.take(i as int), best as int),
        decreases links.len() - i,
    {
        if links[i].timestamp >= links[best].timestamp {
            best = i;
        }
        i = i + 1;
    }
    proof {
        assert(links@.take(i as int) =~= links@);
        let c = choose|k: int| is_latest_link(links@, k);
        lemma_latest_link_unique(links@, best as int, c);
    }
    Some(best)
}

/// Decides which hash to fetch as the current revision of `original`, given
/// the update links that start at it.
pub fn select_latest_target(original: ActionHash, links: &Vec<Link>) -> (r: Result<
    ActionHash,
    DatumError,
>)
    ensures
        r == latest_target(original, links@),
{
    match select_latest_link(links) {
        None => Ok(original),
        Some(i) => match links[i].target.into_action_hash() {
            Some(h) => Ok(h),
            None => Err(DatumError::MalformedEdge),
        },
    }
}

/// Turns update links into the action hashes to fetch, in link order; fails
/// on the first link that does not point at an action.
pub fn revision_targets(links: &Vec<Link>) -> (r: Result<Vec<ActionHash>, DatumError>)
    ensures
        all_targets_are_actions(links@) ==> r is Ok && r->Ok_0@ == targets_of(links@),
        !all_targets_are_actions(links@) ==> r == Err::<Vec<ActionHash>, DatumError>(
            DatumError::MalformedEdge,
        ),
{
    let mut out: Vec<ActionHash> = Vec::new();
    let mut i: usize = 0;
    while i < links.len()
        invariant
            i <= links.len(),
            out.len() == i,
            forall|j: int| 0 <= j < i ==> (#[trigger] links@[j]).target == AnyLinkableHash::Action(out@[j]),
        decreases links.len() - i,
    {
        match links[i].target.into_action_hash() {
            Some(h) => {
                out.push(h);
            },
            None => {
                assert(!(links@[i as int].target is Action));
                return Err(DatumError::MalformedEdge);
            },
        }
        i = i + 1;
    }
    assert(out@ =~= targets_of(links@));
    Ok(out)
}

/// Builds a revision history: the original first, then the fetched revisions
/// in order, leaving out those that could not be found.
pub fn assemble_revisions<T>(original: T, fetched: Vec<Option<T>>) -> (r: Vec<T>)
    ensures
        r@ == seq![original] + present(fetched@),
{
    let mut out: Vec<T> = Vec::new();
    out.push(original);
    let ghost all = fetched@;
    for item in iter: fetched.into_iter()
        invariant
            iter.seq() == all,
            out@ == seq![original] + present(all.take(iter.index() as int)),
    {
        proof {
            let k = iter.index() as int;
            assert(all.take(k + 1).drop_last() =~= all.take(k));
            assert(all.take(k + 1).last() == all[k]);
        }
        if let Some(revision) = item {
            out.push(revision);
            assert(out@ =~= seq![original] + present(all.take(iter.index() as int + 1)));
        }
    }
    assert(all.take(all.len() as int) =~= all);
    out
}

/// Reads the original record off a details response.
pub fn original_from_details<R, D>(details: Option<Details<R, D>>) -> (r: Result<
    Option<R>,
    DatumError,
>)
    ensures
        r == original_of(details),
{
    match details {
        None => Ok(None),
        Some(Details::Record(d)) => Ok(Some(d.record)),
        Some(Details::Entry) => Err(DatumError::MalformedDetails),
    }
}

/// Reads the deletion markers off a details response.
pub fn deletes_from_details<R, D>(details: Option<Details<R, D>>) -> (r: Result<
    Option<Vec<D>>,
    DatumError,
>)
    ensures
        match r {
            Ok(Some(v)) => deletes_of(details) == Ok::<Option<Seq<D>>, DatumError>(Some(v@)),
            Ok(None) => deletes_of(details) == Ok::<Option<Seq<D>>, DatumError>(None),
            Err(e) => deletes_of(details) == Err::<Option<Seq<D>>, DatumError>(e),
        },
{
    match details {
        None => Ok(None),
        Some(Details::Record(d)) => Ok(Some(d.deletes)),
        Some(Details::Entry) => Err(DatumError::MalformedDetails),
    }
}

/// Finds the marker with the least timestamp; of several such markers, the first.
pub fn select_oldest_delete(deletes: &Vec<DeleteMarker>) -> (r: Option<usize>)
    ensures
        r is Some <==> deletes.len() > 0,
        r matches Some(i) ==> is_oldest_delete(deletes@, i as int),
        r matches Some(i) ==> oldest_delete_position(deletes@) == Some(i as int),
        r is None ==> oldest_delete_position(deletes@) is None,
{
    if deletes.len() == 0 {
        return None;
    }
    let mut best: usize = 0;
    let mut i: usize = 1;
    while i < deletes.len()
        invariant
            1 <= i <= deletes.len(),
            is_oldest_delete(deletes@.take(i as int), best as int),
        decreases deletes.len() - i,
    {
        if deletes[i].timestamp < deletes[best].timestamp {
            best = i;
        }
        i = i + 1;
    }
    proof {
        assert(deletes@.take(i as int) =~= deletes@);
        let c = choose|k: int| is_oldest_delete(deletes@, k);
        lemma_oldest_delete_unique(deletes@, best as int, c);
    }
    Some(best)
}

/// Insists that a record just written can be read back.
pub fn require_record<T>(fetched: Option<T>) -> (r: Result<T, DatumError>)
    ensures
        r == match fetched {
            Some(rec) => Ok::<T, DatumError>(rec),
            None => Err::<T, DatumError>(DatumError::NotFound),
        },
{
    match fetched {
        Some(rec) => Ok(rec),
        None => Err(DatumError::NotFound),
    }
}

/// Settles what resolution returns once the chosen hash has been fetched,
/// given how many update links the entity has.
pub fn resolve_latest<T>(link_count: usize, fetched: Option<T>) -> (r: Result<
    Option<T>,
    DatumError,
>)
    ensures
        r == latest_outcome(link_count as nat, fetched),
{
    if link_count == 0 {
        match fetched {
            Some(rec) => Ok(Some(rec)),
            None => Err(DatumError::NotFound),
        }
    } else {
        Ok(fetched)
    }
}

} // verus!
