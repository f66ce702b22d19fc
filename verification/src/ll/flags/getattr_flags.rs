//! Flags of a query of attributes.

use vstd::prelude::*;

verus! {

/// Getattr flags.
#[derive(Clone, Copy, Debug, PartialEq, Eq, Hash, Structural)]
pub struct GetattrFlags {
    /// The bits that are set, known ones and others.
    pub bits: u32,
}

impl GetattrFlags {
    /// Indicates that `fuse_getattr_in.fh` contains a valid file handle.
    pub const FUSE_GETATTR_FH: u32 = 0x1;

    /// The flags with exactly these bits set.
    pub fn from_bits_retain(bits: u32) -> (r: Self)
        ensures
            r.bits == bits,
    {
        GetattrFlags { bits }
    }

    /// The bits that are set.
    pub fn bits(self) -> (r: u32)
        ensures
            r == self.bits,
    {
        self.bits
    }

    /// Whether all of `flags` are set.
    pub fn contains(self, flags: u32) -> (r: bool)
        ensures
            r == (self.bits & flags == flags),
    {
        self.bits & flags == flags
    }
}

} // verus!
