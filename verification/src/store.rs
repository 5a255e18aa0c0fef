//! An in-memory model of the log: a table of records keyed by hash, a table
//! of update links and a table of deletion markers. Nothing is ever removed
//! from any of them.

use vstd::prelude::*;
use crate::hash::ActionHash;
use crate::record::{DeleteMarker, Details, Link, Record, RecordDetails};

verus! {

/// The first record in `records` stored under `hash`.
pub open spec fn record_at(records: Seq<Record>, hash: ActionHash) -> Option<Record>
    decreases records.len(),
{
    if records.len() == 0 {
        None
    } else {
        match record_at(records.drop_last(), hash) {
            Some(r) => Some(r),
            None => if records.last().hash == hash {
                Some(records.last())
            } else {
                None
            },
        }
    }
}

/// The links in `links` that start at `base`, in their stored order.
pub open spec fn links_from(links: Seq<Link>, base: ActionHash) -> Seq<Link>
    decreases links.len(),
{
    if links.len() == 0 {
        Seq::empty()
    } else if links.last().base == base {
        links_from(links.drop_last(), base).push(links.last())
    } else {
        links_from(links.drop_last(), base)
    }
}

/// The markers in `deletes` aimed at `hash`, in their stored order.
pub open spec fn deletes_aimed_at(deletes: Seq<DeleteMarker>, hash: ActionHash) -> Seq<
    DeleteMarker,
>
    decreases deletes.len(),
{
    if deletes.len() == 0 {
        Seq::empty()
    } else if deletes.last().deletes == hash {
        deletes_aimed_at(deletes.drop_last(), hash).push(deletes.last())
    } else {
        deletes_aimed_at(deletes.drop_last(), hash)
    }
}

/// The content store and link index, as plain tables in insertion order.
#[derive(Debug)]
pub struct Store {
    pub records: Vec<Record>,
    pub links: Vec<Link>,
    pub deletes: Vec<DeleteMarker>,
}

impl Store {
    /// The record stored under `hash`, if any.
    pub open spec fn record(self, hash: ActionHash) -> Option<Record> {
        record_at(self.records@, hash)
    }

    /// The update links that start at `base`.
    pub open spec fn update_links(self, base: ActionHash) -> Seq<Link> {
        links_from(self.links@, base)
    }

    /// The deletion markers aimed at `hash`.
    pub open spec fn delete_markers(self, hash: ActionHash) -> Seq<DeleteMarker> {
        deletes_aimed_at(self.deletes@, hash)
    }

    /// An empty store.
    pub fn new() -> (s: Store)
        ensures
            s.records@.len() == 0,
            s.links@.len() == 0,
            s.deletes@.len() == 0,
    {
        Store { records: Vec::new(), links: Vec::new(), deletes: Vec::new() }
    }

    /// Fetches the record stored under `hash`.
    pub fn get(&self, hash: &ActionHash) -> (r: Option<Record>)
        ensures
            r == self.record(*hash),
    {
        let mut found: Option<Record> = None;
        let mut i: usize = 0;
        while i < self.records.len()
            invariant
                i <= self.records.len(),
                found == record_at(self.records@.take(i as int), *hash),
            decreases self.records.len() - i,
        {
            proof {
                assert(self.records@.take(i as int + 1).drop_last() =~= self.records@.take(
                    i as int,
                ));
            }
            if found.is_none() && self.records[i].hash.same_as(hash) {
                found = Some(self.records[i].clone());
            }
            i = i + 1;
        }
        assert(self.records@.take(i as int) =~= self.records@);
        found
    }

    /// Fetches every update link that starts at `base`, in stored order.
    pub fn get_links(&self, base: &ActionHash) -> (r: Vec<Link>)
        ensures
            r@ == self.update_links(*base),
    {
        let mut out: Vec<Link> = Vec::new();
        let mut i: usize = 0;
        while i < self.links.len()
            invariant
                i <= self.links.len(),
                out@ == links_from(self.links@.take(i as int), *base),
            decreases self.links.len() - i,
        {
            proof {
                assert(self.links@.take(i as int + 1).drop_last() =~= self.links@.take(i as int));
            }
            if self.links[i].base.same_as(base) {
                out.push(self.links[i]);
            }
            i = i + 1;
        }
        assert(self.links@.take(i as int) =~= self.links@);
        out
    }

    /// Fetches every deletion marker aimed at `hash`, in stored order.
    pub fn get_deletes(&self, hash: &ActionHash) -> (r: Vec<DeleteMarker>)
        ensures
            r@ == self.delete_markers(*hash),
    {
        let mut out: Vec<DeleteMarker> = Vec::new();
        let mut i: usize = 0;
        while i < self.deletes.len()
            invariant
                i <= self.deletes.len(),
                out@ == deletes_aimed_at(self.deletes@.take(i as int), *hash),
            decreases self.deletes.len() - i,
        {
            proof {
                assert(self.deletes@.take(i as int + 1).drop_last() =~= self.deletes@.take(
                    i as int,
                ));
            }
            if self.deletes[i].deletes.same_as(hash) {
                out.push(self.deletes[i]);
            }
            i = i + 1;
        }
        assert(self.deletes@.take(i as int) =~= self.deletes@);
        out
    }

    /// Fetches the details of the record stored under `hash`: the record
    /// together with the deletion markers aimed at it.
    pub fn get_details(&self, hash: &ActionHash) -> (r: Option<Details<Record, DeleteMarker>>)
        ensures
            r is None <==> self.record(*hash) is None,
            r matches Some(d) ==> d matches Details::Record(rd) && Some(rd.record) == self.record(
                *hash,
            ) && rd.deletes@ == self.delete_markers(*hash),
    {
        match self.get(hash) {
            None => None,
            Some(record) => {
                let deletes = self.get_deletes(hash);
                Some(Details::Record(RecordDetails { record, deletes }))
            },
        }
    }
}

/// A record appended under its own hash can be read back, unless an earlier
/// record already holds that hash, in which case that one is read.
pub proof fn lemma_record_at_push(records: Seq<Record>, added: Record, hash: ActionHash)
    ensures
        record_at(records.push(added), hash) == match record_at(records, hash) {
            Some(r) => Some(r),
            None => if added.hash == hash {
                Some(added)
            } else {
                None
            },
        },
{
    assert(records.push(added).drop_last() =~= records);
}

/// Appending a link extends the links of its base and of no other base.
pub proof fn lemma_links_from_push(links: Seq<Link>, added: Link, base: ActionHash)
    ensures
        links_from(links.push(added), base) == if added.base == base {
            links_from(links, base).push(added)
        } else {
            links_from(links, base)
        },
{
    assert(links.push(added).drop_last() =~= links);
}

/// Appending a marker extends the markers of its target and of no other hash.
pub proof fn lemma_deletes_aimed_at_push(
    deletes: Seq<DeleteMarker>,
    added: DeleteMarker,
    hash: ActionHash,
)
    ensures
        deletes_aimed_at(deletes.push(added), hash) == if added.deletes == hash {
            deletes_aimed_at(deletes, hash).push(added)
        } else {
            deletes_aimed_at(deletes, hash)
        },
{
    assert(deletes.push(added).drop_last() =~= deletes);
}

} // verus!
