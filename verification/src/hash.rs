//! Content addresses: 39-byte hashes and the composite hash a link may point at.

use vstd::prelude::*;

verus! {

/// Address of an action (a create, update or delete) in the log.
#[derive(Clone, Copy, Debug, PartialEq, Eq, Hash)]
pub struct ActionHash {
    pub raw: [u8; 39],
}

/// Address of an entry's content.
#[derive(Clone, Copy, Debug, PartialEq, Eq, Hash)]
pub struct EntryHash {
    pub raw: [u8; 39],
}

/// Address of something that lives outside the log.
#[derive(Clone, Copy, Debug, PartialEq, Eq, Hash)]
pub struct ExternalHash {
    pub raw: [u8; 39],
}

/// Any address a link can start from or point at.
#[derive(Clone, Copy, Debug, PartialEq, Eq, Hash)]
pub enum AnyLinkableHash {
    Entry(EntryHash),
    Action(ActionHash),
    External(ExternalHash),
}

impl ActionHash {
    /// Byte-wise comparison of two action hashes.
    pub fn same_as(&self, other: &ActionHash) -> (r: bool)
        ensures
            r == (*self == *other),
    {
        let mut i: usize = 0;
        while i < 39
            invariant
                i <= 39,
                forall|j: int| 0 <= j < i ==> self.raw[j] == other.raw[j],
            decreases 39 - i,
        {
            if self.raw[i] != other.raw[i] {
                return false;
            }
            i = i + 1;
        }
        assert(self.raw =~= other.raw);
        true
    }
}

impl AnyLinkableHash {
    /// The action hash this address stands for, if it addresses an action.
    pub fn into_action_hash(self) -> (r: Option<ActionHash>)
        ensures
            r == self.action_hash(),
    {
        match self {
            AnyLinkableHash::Action(h) => Some(h),
            _ => None,
        }
    }

    /// Spec counterpart of [`AnyLinkableHash::into_action_hash`].
    pub open spec fn action_hash(self) -> Option<ActionHash> {
        match self {
            AnyLinkableHash::Action(h) => Some(h),
            _ => None,
        }
    }
}

} // verus!
