//! Flags of an extended query of attributes.

use vstd::prelude::*;

verus! {

/// Which fields of a `statx` reply are filled in, as `struct statx`'s `stx_mask`.
///
/// A filesystem does not choose these: they follow from what it answered with, and
/// `StatxAttr` derives them. The caller's own request is a separate mask, which
/// reaches `Filesystem::statx` as `mask`.
#[derive(Clone, Copy, Debug, PartialEq, Eq, Hash, Structural)]
pub struct StatxMask {
    /// The bits that are set, known ones and others.
    pub bits: u32,
}

impl StatxMask {
    /// `stx_mode` & `S_IFMT` is filled in.
    pub const TYPE: u32 = 0x1;

    /// `stx_mode` & `!S_IFMT` is filled in.
    pub const MODE: u32 = 0x2;

    /// `stx_nlink` is filled in.
    pub const NLINK: u32 = 0x4;

    /// `stx_uid` is filled in.
    pub const UID: u32 = 0x8;

    /// `stx_gid` is filled in.
    pub const GID: u32 = 0x10;

    /// `stx_atime` is filled in.
    pub const ATIME: u32 = 0x20;

    /// `stx_mtime` is filled in.
    pub const MTIME: u32 = 0x40;

    /// `stx_ctime` is filled in.
    pub const CTIME: u32 = 0x80;

    /// `stx_ino` is filled in.
    pub const INO: u32 = 0x100;

    /// `stx_size` is filled in.
    pub const SIZE: u32 = 0x200;

    /// `stx_blocks` is filled in.
    pub const BLOCKS: u32 = 0x400;

    /// Everything a plain `stat(2)` also reports.
    pub const BASIC_STATS: u32 = 0x0000_07ff;

    /// `stx_btime` is filled in.
    pub const BTIME: u32 = 0x800;

    /// The flags with exactly these bits set.
    pub fn from_bits_retain(bits: u32) -> (r: Self)
        ensures
            r.bits == bits,
    {
        StatxMask { bits }
    }

    /// The bits that are set.
    pub fn bits(self) -> (r: u32)
        ensures
            r == self.bits,
    {
        self.bits
    }

    /// Whether all of `flags` are set.
    pub fn contains(self, flags: u32) -> (r: bool)
        ensures
            r == (self.bits & flags == flags),
    {
        self.bits & flags == flags
    }
}

/// Properties of a file that `statx(2)` reports beyond `stat(2)`, as `stx_attributes`.
///
/// The kernel has no way to learn these from a FUSE filesystem other than being told: it
/// fills `stx_attributes` from its own inode flags, which a FUSE filesystem's flags are
/// not. Answering `FUSE_STATX` is what makes `chattr +i` and friends visible to
/// `statx(2)`.
///
/// Whatever is reported here counts only where the matching bit is also set in
/// `StatxAttr::attributes_mask`, which is how a caller tells "not set" from
/// "not supported".
#[derive(Clone, Copy, Debug, PartialEq, Eq, Hash, Structural)]
pub struct StatxAttributes {
    /// The bits that are set, known ones and others.
    pub bits: u64,
}

impl StatxAttributes {
    /// The file is compressed by the filesystem.
    pub const COMPRESSED: u64 = 0x4;

    /// The file is marked immutable, as `chattr +i` sets.
    pub const IMMUTABLE: u64 = 0x10;

    /// The file is append-only, as `chattr +a` sets.
    pub const APPEND: u64 = 0x20;

    /// The file is not to be dumped, as `chattr +d` sets.
    pub const NODUMP: u64 = 0x40;

    /// The file needs a key to be decrypted by the filesystem.
    pub const ENCRYPTED: u64 = 0x800;

    /// The directory is an automount trigger.
    pub const AUTOMOUNT: u64 = 0x1000;

    /// The entry is the root of a mount.
    pub const MOUNT_ROOT: u64 = 0x2000;

    /// The file is protected by fs-verity.
    pub const VERITY: u64 = 0x10_0000;

    /// The file is in the DAX state, mapped directly from persistent memory.
    pub const DAX: u64 = 0x20_0000;

    /// The flags with exactly these bits set.
    pub fn from_bits_retain(bits: u64) -> (r: Self)
        ensures
            r.bits == bits,
    {
        StatxAttributes { bits }
    }

    /// The bits that are set.
    pub fn bits(self) -> (r: u64)
        ensures
            r == self.bits,
    {
        self.bits
    }

    /// Whether all of `flags` are set.
    pub fn contains(self, flags: u64) -> (r: bool)
        ensures
            r == (self.bits & flags == flags),
    {
        self.bits & flags == flags
    }
}

} // verus!
