//! Capability flags: a fixed-width bitset of tags attached to an entity.

use vstd::prelude::*;

verus! {

/// A set of capability tags, as a fixed-width bitset. Multiple tags may
/// be set simultaneously.
#[derive(Clone, Copy, Debug, PartialEq, Eq, Structural)]
pub struct Flags {
    pub bits: u32,
}

impl Flags {
    /// The tag of the (unique) player-controlled entity.
    pub fn player() -> (r: Flags)
        ensures
            r.bits == 1u32,
    {
        Flags { bits: 1 }
    }

    /// The empty set of tags.
    pub fn none() -> (r: Flags)
        ensures
            r.bits == 0u32,
    {
        Flags { bits: 0 }
    }

    /// The intersection of two flag sets.
    pub fn and(self, other: Flags) -> (r: Flags)
        ensures
            r.bits == (self.bits & other.bits),
    {
        Flags { bits: self.bits & other.bits }
    }

    /// Is the set of tags empty?
    pub fn is_empty(self) -> (r: bool)
        ensures
            r == (self.bits == 0),
    {
        self.bits == 0
    }
}

} // verus!
