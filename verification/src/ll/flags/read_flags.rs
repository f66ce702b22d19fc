//! Flags of a read.

use vstd::prelude::*;

verus! {

/// Read flags.
#[derive(Clone, Copy, Debug, PartialEq, Eq, Hash, Structural)]
pub struct ReadFlags {
    /// The bits that are set, known ones and others.
    pub bits: u32,
}

impl ReadFlags {
    /// Indicates that `fuse_read_in.lock_owner` contains lock owner.
    /// Users typically do not need to check this flag.
    pub const FUSE_READ_LOCKOWNER: u32 = 0x2;

    /// The flags with exactly these bits set.
    pub fn from_bits_retain(bits: u32) -> (r: Self)
        ensures
            r.bits == bits,
    {
        ReadFlags { bits }
    }

    /// The bits that are set.
    pub fn bits(self) -> (r: u32)
        ensures
            r == self.bits,
    {
        self.bits
    }

    /// Whether all of `flags` are set.
    pub fn contains(self, flags: u32) -> (r: bool)
        ensures
            r == (self.bits & flags == flags),
    {
        self.bits & flags == flags
    }
}

} // verus!
