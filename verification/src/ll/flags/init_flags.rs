//! What kernel and filesystem agree on when a session starts.

use vstd::prelude::*;

verus! {

/// The capabilities of a session: what the kernel offers, or what the filesystem asks for.
#[derive(Clone, Copy, Debug, PartialEq, Eq, Hash, Structural)]
pub struct InitFlags {
    /// The bits that are set, known ones and others.
    pub bits: u64,
}

impl InitFlags {
    /// Asynchronous read requests.
    pub const FUSE_ASYNC_READ: u64 = 0x1;

    /// Remote locking for POSIX file locks.
    pub const FUSE_POSIX_LOCKS: u64 = 0x2;

    /// Kernel sends file handle for fstat, etc...
    pub const FUSE_FILE_OPS: u64 = 0x4;

    /// Handles the O_TRUNC open flag in the filesystem.
    pub const FUSE_ATOMIC_O_TRUNC: u64 = 0x8;

    /// Filesystem handles lookups of "." and "..".
    pub const FUSE_EXPORT_SUPPORT: u64 = 0x10;

    /// Filesystem can handle write size larger than 4kB.
    pub const FUSE_BIG_WRITES: u64 = 0x20;

    /// Don't apply umask to file mode on create operations.
    pub const FUSE_DONT_MASK: u64 = 0x40;

    /// Kernel supports splice write on the device.
    pub const FUSE_SPLICE_WRITE: u64 = 0x80;

    /// Kernel supports splice move on the device.
    pub const FUSE_SPLICE_MOVE: u64 = 0x100;

    /// Kernel supports splice read on the device.
    pub const FUSE_SPLICE_READ: u64 = 0x200;

    /// Remote locking for BSD style file locks.
    pub const FUSE_FLOCK_LOCKS: u64 = 0x400;

    /// Kernel supports ioctl on directories.
    pub const FUSE_HAS_IOCTL_DIR: u64 = 0x800;

    /// Automatically invalidate cached pages.
    pub const FUSE_AUTO_INVAL_DATA: u64 = 0x1000;

    /// Do READDIRPLUS (READDIR+LOOKUP in one).
    pub const FUSE_DO_READDIRPLUS: u64 = 0x2000;

    /// Adaptive readdirplus.
    pub const FUSE_READDIRPLUS_AUTO: u64 = 0x4000;

    /// Asynchronous direct I/O submission.
    pub const FUSE_ASYNC_DIO: u64 = 0x8000;

    /// Use writeback cache for buffered writes.
    pub const FUSE_WRITEBACK_CACHE: u64 = 0x1_0000;

    /// Kernel supports zero-message opens.
    pub const FUSE_NO_OPEN_SUPPORT: u64 = 0x2_0000;

    /// Allow parallel lookups and readdir.
    pub const FUSE_PARALLEL_DIROPS: u64 = 0x4_0000;

    /// Fs handles killing suid/sgid/cap on write/chown/trunc.
    pub const FUSE_HANDLE_KILLPRIV: u64 = 0x8_0000;

    /// Filesystem supports posix acls.
    pub const FUSE_POSIX_ACL: u64 = 0x10_0000;

    /// Reading the device after abort returns ECONNABORTED.
    pub const FUSE_ABORT_ERROR: u64 = 0x20_0000;

    /// Init_out.max_pages contains the max number of req pages.
    pub const FUSE_MAX_PAGES: u64 = 0x40_0000;

    /// Cache READLINK responses.
    pub const FUSE_CACHE_SYMLINKS: u64 = 0x80_0000;

    /// Kernel supports zero-message opendir.
    pub const FUSE_NO_OPENDIR_SUPPORT: u64 = 0x100_0000;

    /// Only invalidate cached pages on explicit request.
    pub const FUSE_EXPLICIT_INVAL_DATA: u64 = 0x200_0000;

    /// Map_alignment field is valid.
    pub const FUSE_MAP_ALIGNMENT: u64 = 0x400_0000;

    /// Filesystem supports submounts.
    pub const FUSE_SUBMOUNTS: u64 = 0x800_0000;

    /// Fs handles killing suid/sgid/cap on write/chown/trunc (v2).
    pub const FUSE_HANDLE_KILLPRIV_V2: u64 = 0x1000_0000;

    /// Extended setxattr support.
    pub const FUSE_SETXATTR_EXT: u64 = 0x2000_0000;

    /// Extended fuse_init_in request.
    pub const FUSE_INIT_EXT: u64 = 0x4000_0000;

    /// Reserved, do not use.
    pub const FUSE_INIT_RESERVED: u64 = 0x8000_0000;

    /// Add security context to create/mkdir/symlink/mknod.
    pub const FUSE_SECURITY_CTX: u64 = 0x1_0000_0000;

    /// Filesystem supports per-inode DAX.
    pub const FUSE_HAS_INODE_DAX: u64 = 0x2_0000_0000;

    /// Create with supplementary group.
    pub const FUSE_CREATE_SUPP_GROUP: u64 = 0x4_0000_0000;

    /// Kernel supports expire-only invalidation.
    pub const FUSE_HAS_EXPIRE_ONLY: u64 = 0x8_0000_0000;

    /// Allow mmap for direct I/O files.
    pub const FUSE_DIRECT_IO_ALLOW_MMAP: u64 = 0x10_0000_0000;

    /// Filesystem wants to use passthrough files.
    pub const FUSE_PASSTHROUGH: u64 = 0x20_0000_0000;

    /// Filesystem does not support export.
    pub const FUSE_NO_EXPORT_SUPPORT: u64 = 0x40_0000_0000;

    /// Kernel supports resend requests.
    pub const FUSE_HAS_RESEND: u64 = 0x80_0000_0000;

    /// Allow idmapped mounts.
    pub const FUSE_ALLOW_IDMAP: u64 = 0x100_0000_0000;

    /// Kernel supports io_uring for communication.
    pub const FUSE_OVER_IO_URING: u64 = 0x200_0000_0000;

    /// Kernel supports request timeout.
    pub const FUSE_REQUEST_TIMEOUT: u64 = 0x400_0000_0000;

    /// The flags with exactly these bits set.
    pub fn from_bits_retain(bits: u64) -> (r: Self)
        ensures
            r.bits == bits,
    {
        InitFlags { bits }
    }

    /// The bits that are set.
    pub fn bits(self) -> (r: u64)
        ensures
            r == self.bits,
    {
        self.bits
    }

    /// Whether all of `flags` are set.
    pub fn contains(self, flags: u64) -> (r: bool)
        ensures
            r == (self.bits & flags == flags),
    {
        self.bits & flags == flags
    }

    /// Every bit that has a name.
    pub const ALL: u64 = 0x7ff_ffff_ffff;

    /// No flag at all.
    pub fn empty() -> (r: Self)
        ensures
            r.bits == 0,
    {
        InitFlags { bits: 0 }
    }

    /// Every flag that has a name.
    pub fn all() -> (r: Self)
        ensures
            r.bits == InitFlags::ALL,
    {
        InitFlags { bits: InitFlags::ALL }
    }

    /// Whether no bit is set.
    pub fn is_empty(self) -> (r: bool)
        ensures
            r == (self.bits == 0),
    {
        self.bits == 0
    }

    /// The flags that are in either.
    pub fn union(self, other: Self) -> (r: Self)
        ensures
            r.bits == self.bits | other.bits,
    {
        InitFlags { bits: self.bits | other.bits }
    }

    /// The flags that are in both.
    pub fn intersection(self, other: Self) -> (r: Self)
        ensures
            r.bits == self.bits & other.bits,
    {
        InitFlags { bits: self.bits & other.bits }
    }

    /// The flags of `self` that are not in `other`.
    pub fn difference(self, other: Self) -> (r: Self)
        ensures
            r.bits == self.bits & !other.bits,
    {
        InitFlags { bits: self.bits & !other.bits }
    }

    /// The named flags that are not in `self`.
    pub fn complement(self) -> (r: Self)
        ensures
            r.bits == !self.bits & InitFlags::ALL,
    {
        InitFlags { bits: !self.bits & InitFlags::ALL }
    }

    /// The low and the high half, as the two flag words of the protocol hold them.
    pub fn pair(self) -> (r: (u32, u32))
        ensures
            r.0 + r.1 * 0x1_0000_0000 == self.bits,
    {
        let bits: u64 = self.bits;
        assert((bits as u32) + ((bits >> 32) as u32) * 0x1_0000_0000 == bits) by (bit_vector);
        (#[verifier::truncate] (bits as u32), (bits >> 32) as u32)
    }
}

} // verus!
