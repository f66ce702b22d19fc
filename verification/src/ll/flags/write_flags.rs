//! Flags of a write.

use vstd::prelude::*;

verus! {

/// Write flags.
#[derive(Clone, Copy, Debug, PartialEq, Eq, Hash, Structural)]
pub struct WriteFlags {
    /// The bits that are set, known ones and others.
    pub bits: u32,
}

impl WriteFlags {
    /// Delayed write from page cache, file handle is guessed.
    pub const WRITE_CACHE: u32 = 0x1;

    /// Lock_owner field is valid.
    pub const WRITE_LOCKOWNER: u32 = 0x2;

    /// Kill suid and sgid bits.
    pub const WRITE_KILL_SUIDGID: u32 = 0x4;

    /// The flags with exactly these bits set.
    pub fn from_bits_retain(bits: u32) -> (r: Self)
        ensures
            r.bits == bits,
    {
        WriteFlags { bits }
    }

    /// The bits that are set.
    pub fn bits(self) -> (r: u32)
        ensures
            r == self.bits,
    {
        self.bits
    }

    /// Whether all of `flags` are set.
    pub fn contains(self, flags: u32) -> (r: bool)
        ensures
            r == (self.bits & flags == flags),
    {
        self.bits & flags == flags
    }
}

} // verus!
