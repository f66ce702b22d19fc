//! Flags of a synchronization.

use vstd::prelude::*;

use crate::text::{decimal, to_decimal};

verus! {

/// Fsync flags.
#[derive(Clone, Copy, Debug, PartialEq, Eq, Hash, Structural)]
pub struct FsyncFlags {
    /// The bits that are set, known ones and others.
    pub bits: u32,
}

impl FsyncFlags {
    /// Sync data only, not metadata.
    pub const FUSE_FSYNC_FDATASYNC: u32 = 0x1;

    /// The flags with exactly these bits set.
    pub fn from_bits_retain(bits: u32) -> (r: Self)
        ensures
            r.bits == bits,
    {
        FsyncFlags { bits }
    }

    /// The bits that are set.
    pub fn bits(self) -> (r: u32)
        ensures
            r == self.bits,
    {
        self.bits
    }

    /// Whether all of `flags` are set.
    pub fn contains(self, flags: u32) -> (r: bool)
        ensures
            r == (self.bits & flags == flags),
    {
        self.bits & flags == flags
    }

    /// The bits as a decimal number.
    pub fn text(&self) -> (r: String)
        ensures
            r@ == decimal(self.bits as int),
    {
        to_decimal(self.bits as u64)
    }
}

} // verus!
