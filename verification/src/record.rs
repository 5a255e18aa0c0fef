//! The values the log hands out: records, update links, deletion markers,
//! detail responses, and the errors of this crate.

use vstd::prelude::*;
use crate::hash::{ActionHash, AnyLinkableHash};

verus! {

/// Payload of an entity. Its fields are domain data and are never inspected.
#[derive(Debug, PartialEq, Eq)]
pub struct Datum {
    pub name: String,
    pub dtype: String,
    pub value: String,
    pub uuid: String,
}

impl Clone for Datum {
    fn clone(&self) -> (r: Self)
        ensures
            r == *self,
    {
        Datum {
            name: self.name.clone(),
            dtype: self.dtype.clone(),
            value: self.value.clone(),
            uuid: self.uuid.clone(),
        }
    }
}

/// What a record carries as its entry.
#[derive(Debug, PartialEq, Eq)]
pub enum RecordEntry {
    /// An entry that decodes as a datum.
    Datum(Datum),
    /// No application entry at all.
    Absent,
    /// An entry that is not a datum.
    Unrelated,
}

impl Clone for RecordEntry {
    fn clone(&self) -> (r: Self)
        ensures
            r == *self,
    {
        match self {
            RecordEntry::Datum(d) => RecordEntry::Datum(d.clone()),
            RecordEntry::Absent => RecordEntry::Absent,
            RecordEntry::Unrelated => RecordEntry::Unrelated,
        }
    }
}

/// What kind of action wrote a record.
#[derive(Clone, Copy, Debug, PartialEq, Eq)]
pub enum ActionKind {
    /// First record of an entity.
    Create,
    /// A revision; carries the hash of the record it supersedes.
    Update(ActionHash),
}

/// An immutable, content-addressed revision of an entity.
#[derive(Debug, PartialEq, Eq)]
pub struct Record {
    pub hash: ActionHash,
    pub timestamp: i64,
    pub kind: ActionKind,
    pub entry: RecordEntry,
}

impl Clone for Record {
    fn clone(&self) -> (r: Self)
        ensures
            r == *self,
    {
        Record {
            hash: self.hash,
            timestamp: self.timestamp,
            kind: self.kind,
            entry: self.entry.clone(),
        }
    }
}

/// An update link: from the entity's original hash to one of its revisions.
#[derive(Clone, Copy, Debug, PartialEq, Eq)]
pub struct Link {
    pub base: ActionHash,
    pub target: AnyLinkableHash,
    pub timestamp: i64,
}

/// A deletion marker: a delete action aimed at a record.
#[derive(Clone, Copy, Debug, PartialEq, Eq)]
pub struct DeleteMarker {
    pub hash: ActionHash,
    pub deletes: ActionHash,
    pub timestamp: i64,
}

/// Full details of a record: the record and every deletion marker aimed at
/// it. The record type `R` and the marker type `D` are carried, never read.
#[derive(Debug, PartialEq, Eq)]
pub struct RecordDetails<R, D> {
    pub record: R,
    pub deletes: Vec<D>,
}

/// A details response: either about a record or about an entry alone.
#[derive(Debug, PartialEq, Eq)]
pub enum Details<R, D> {
    /// Details of a record, as returned for an action hash.
    Record(RecordDetails<R, D>),
    /// Details of an entry alone, as returned for an entry hash.
    Entry,
}

/// The errors of this crate.
#[derive(Clone, Copy, Debug, PartialEq, Eq, Structural)]
pub enum DatumError {
    /// A referenced hash has no record in the store as currently observed.
    NotFound,
    /// A link's target is not the address of an action.
    MalformedEdge,
    /// A details response has neither of the expected shapes.
    MalformedDetails,
    /// A structural change violates an invariant of the update chain.
    ValidationRejected,
}

impl DatumError {
    /// Human-readable description of the error.
    pub fn message(&self) -> (r: &'static str)
        ensures
            r@ == self.message_text(),
    {
        match self {
            DatumError::NotFound => "Could not find the requested Datum",
            DatumError::MalformedEdge => "No action hash associated with link",
            DatumError::MalformedDetails => "Malformed get details response",
            DatumError::ValidationRejected => "Rejected by the DatumUpdates link rules",
        }
    }

    /// The text that [`DatumError::message`] returns.
    pub open spec fn message_text(self) -> Seq<char> {
        match self {
            DatumError::NotFound => "Could not find the requested Datum"@,
            DatumError::MalformedEdge => "No action hash associated with link"@,
            DatumError::MalformedDetails => "Malformed get details response"@,
            DatumError::ValidationRejected => "Rejected by the DatumUpdates link rules"@,
        }
    }
}

} // verus!
