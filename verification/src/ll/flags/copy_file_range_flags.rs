//! Flags of a copy of a range.

use vstd::prelude::*;

verus! {

/// Flags of `copy_file_range`.
#[derive(Clone, Copy, Debug, PartialEq, Eq, Hash, Structural)]
pub struct CopyFileRangeFlags {
    /// The bits that are set, known ones and others.
    pub bits: u64,
}

impl CopyFileRangeFlags {
    /// The flags with exactly these bits set.
    pub fn from_bits_retain(bits: u64) -> (r: Self)
        ensures
            r.bits == bits,
    {
        CopyFileRangeFlags { bits }
    }

    /// The bits that are set.
    pub fn bits(self) -> (r: u64)
        ensures
            r == self.bits,
    {
        self.bits
    }

    /// Whether all of `flags` are set.
    pub fn contains(self, flags: u64) -> (r: bool)
        ensures
            r == (self.bits & flags == flags),
    {
        self.bits & flags == flags
    }
}

} // verus!
