//! Flags the kernel sends with an open or create request.

use vstd::prelude::*;

verus! {

/// Flags in the `open_flags` field of `fuse_open_in` and `fuse_create_in`.
#[derive(Clone, Copy, Debug, PartialEq, Eq, Hash, Structural)]
pub struct OpenInFlags {
    /// The bits that are set, known ones and others.
    pub bits: u32,
}

impl OpenInFlags {
    /// The open truncates the file and the caller lacks `CAP_FSETID`, so the filesystem
    /// must clear suid and sgid. Only sent once `FUSE_HANDLE_KILLPRIV_V2` has been
    /// negotiated
    pub const FUSE_OPEN_KILL_SUIDGID: u32 = 0x1;

    /// The flags with exactly these bits set.
    pub fn from_bits_retain(bits: u32) -> (r: Self)
        ensures
            r.bits == bits,
    {
        OpenInFlags { bits }
    }

    /// The bits that are set.
    pub fn bits(self) -> (r: u32)
        ensures
            r == self.bits,
    {
        self.bits
    }

    /// Whether all of `flags` are set.
    pub fn contains(self, flags: u32) -> (r: bool)
        ensures
            r == (self.bits & flags == flags),
    {
        self.bits & flags == flags
    }
}

} // verus!
