//! The file flags of BSD, which have no meaning on Linux.

use vstd::prelude::*;

verus! {

/// `chflags(2)`, only used on macOS.
#[derive(Clone, Copy, Debug, PartialEq, Eq, Hash, Structural)]
pub struct BsdFileFlags {
    /// The bits that are set, known ones and others.
    pub bits: u32,
}

impl BsdFileFlags {
    /// The flags with exactly these bits set.
    pub fn from_bits_retain(bits: u32) -> (r: Self)
        ensures
            r.bits == bits,
    {
        BsdFileFlags { bits }
    }

    /// The bits that are set.
    pub fn bits(self) -> (r: u32)
        ensures
            r == self.bits,
    {
        self.bits
    }

    /// Whether all of `flags` are set.
    pub fn contains(self, flags: u32) -> (r: bool)
        ensures
            r == (self.bits & flags == flags),
    {
        self.bits & flags == flags
    }
}

} // verus!
