//! What is answered of an open file.

use vstd::prelude::*;

verus! {

/// Flags returned in open response.
#[derive(Clone, Copy, Debug, PartialEq, Eq, Hash, Structural)]
pub struct FopenFlags {
    /// The bits that are set, known ones and others.
    pub bits: u32,
}

impl FopenFlags {
    /// Bypass page cache for this open file.
    pub const FOPEN_DIRECT_IO: u32 = 0x1;

    /// Don't invalidate the data cache on open.
    pub const FOPEN_KEEP_CACHE: u32 = 0x2;

    /// The file is not seekable.
    pub const FOPEN_NONSEEKABLE: u32 = 0x4;

    /// Allow caching this directory.
    pub const FOPEN_CACHE_DIR: u32 = 0x8;

    /// The file is stream-like (no file position at all).
    pub const FOPEN_STREAM: u32 = 0x10;

    /// Kernel skips sending FUSE_FLUSH on close.
    pub const FOPEN_NOFLUSH: u32 = 0x20;

    /// Allow multiple concurrent writes on the same direct-IO file.
    pub const FOPEN_PARALLEL_DIRECT_WRITES: u32 = 0x40;

    /// The file is fd-backed (via the backing_id field).
    pub const FOPEN_PASSTHROUGH: u32 = 0x80;

    /// The flags with exactly these bits set.
    pub fn from_bits_retain(bits: u32) -> (r: Self)
        ensures
            r.bits == bits,
    {
        FopenFlags { bits }
    }

    /// The bits that are set.
    pub fn bits(self) -> (r: u32)
        ensures
            r == self.bits,
    {
        self.bits
    }

    /// Whether all of `flags` are set.
    pub fn contains(self, flags: u32) -> (r: bool)
        ensures
            r == (self.bits & flags == flags),
    {
        self.bits & flags == flags
    }
}

} // verus!
