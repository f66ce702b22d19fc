//! Which attributes are set.

use vstd::prelude::*;

verus! {

/// Flags for setattr operations (fuse_setattr_in.valid bitmask).
#[derive(Clone, Copy, Debug, PartialEq, Eq, Hash, Structural)]
pub struct FattrFlags {
    /// The bits that are set, known ones and others.
    pub bits: u32,
}

impl FattrFlags {
    /// The mode is set.
    pub const FATTR_MODE: u32 = 0x1;

    /// The owner is set.
    pub const FATTR_UID: u32 = 0x2;

    /// The group is set.
    pub const FATTR_GID: u32 = 0x4;

    /// The size is set.
    pub const FATTR_SIZE: u32 = 0x8;

    /// The access time is set.
    pub const FATTR_ATIME: u32 = 0x10;

    /// The modification time is set.
    pub const FATTR_MTIME: u32 = 0x20;

    /// The handle of an open file is given.
    pub const FATTR_FH: u32 = 0x40;

    /// The access time is set to the current time.
    pub const FATTR_ATIME_NOW: u32 = 0x80;

    /// The modification time is set to the current time.
    pub const FATTR_MTIME_NOW: u32 = 0x100;

    /// The owner of the lock is given.
    pub const FATTR_LOCKOWNER: u32 = 0x200;

    /// The change time is set.
    pub const FATTR_CTIME: u32 = 0x400;

    /// The flags with exactly these bits set.
    pub fn from_bits_retain(bits: u32) -> (r: Self)
        ensures
            r.bits == bits,
    {
        FattrFlags { bits }
    }

    /// The bits that are set.
    pub fn bits(self) -> (r: u32)
        ensures
            r == self.bits,
    {
        self.bits
    }

    /// Whether all of `flags` are set.
    pub fn contains(self, flags: u32) -> (r: bool)
        ensures
            r == (self.bits & flags == flags),
    {
        self.bits & flags == flags
    }
}

} // verus!
