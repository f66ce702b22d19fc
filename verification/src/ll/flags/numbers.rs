//! The numbers that flags have in the protocol and in the calls of the system.

use vstd::prelude::*;

use crate::access_flags::AccessFlags;
use crate::ll::flags::cuse_init_flags::CuseInitFlags;
use crate::ll::flags::fattr_flags::FattrFlags;
use crate::ll::flags::fopen_flags::FopenFlags;
use crate::ll::flags::fsync_flags::FsyncFlags;
use crate::ll::flags::getattr_flags::GetattrFlags;
use crate::ll::flags::init_flags::InitFlags;
use crate::ll::flags::ioctl_flags::IoctlFlags;
use crate::ll::flags::open_in_flags::OpenInFlags;
use crate::ll::flags::poll_flags::PollFlags;
use crate::ll::flags::read_flags::ReadFlags;
use crate::ll::flags::release_flags::ReleaseFlags;
use crate::ll::flags::statx_flags::{StatxAttributes, StatxMask};
use crate::ll::flags::write_flags::WriteFlags;
use crate::poll_events::PollEvents;
use crate::rename_flags::RenameFlags;

verus! {

/// What may be asked of a file: to be there, to be run, to be written and to be read.
pub proof fn lemma_access_flags_numbers()
    ensures
        0x0 == AccessFlags::F_OK,
        0x4 == AccessFlags::R_OK,
        0x2 == AccessFlags::W_OK,
        0x1 == AccessFlags::X_OK,
{
}

/// The bits of `CuseInitFlags`.
pub proof fn lemma_cuse_init_flags_numbers()
    ensures
        0x1 == CuseInitFlags::CUSE_UNRESTRICTED_IOCTL,
{
}

/// The bits of `FattrFlags`.
pub proof fn lemma_fattr_flags_numbers()
    ensures
        0x1 == FattrFlags::FATTR_MODE,
        0x2 == FattrFlags::FATTR_UID,
        0x4 == FattrFlags::FATTR_GID,
        0x8 == FattrFlags::FATTR_SIZE,
        0x10 == FattrFlags::FATTR_ATIME,
        0x20 == FattrFlags::FATTR_MTIME,
        0x40 == FattrFlags::FATTR_FH,
        0x80 == FattrFlags::FATTR_ATIME_NOW,
        0x100 == FattrFlags::FATTR_MTIME_NOW,
        0x200 == FattrFlags::FATTR_LOCKOWNER,
        0x400 == FattrFlags::FATTR_CTIME,
{
}

/// The bits of `FopenFlags`.
pub proof fn lemma_fopen_flags_numbers()
    ensures
        0x1 == FopenFlags::FOPEN_DIRECT_IO,
        0x2 == FopenFlags::FOPEN_KEEP_CACHE,
        0x4 == FopenFlags::FOPEN_NONSEEKABLE,
        0x8 == FopenFlags::FOPEN_CACHE_DIR,
        0x10 == FopenFlags::FOPEN_STREAM,
        0x20 == FopenFlags::FOPEN_NOFLUSH,
        0x40 == FopenFlags::FOPEN_PARALLEL_DIRECT_WRITES,
        0x80 == FopenFlags::FOPEN_PASSTHROUGH,
{
}

/// The bits of `FsyncFlags`.
pub proof fn lemma_fsync_flags_numbers()
    ensures
        0x1 == FsyncFlags::FUSE_FSYNC_FDATASYNC,
{
}

/// The bits of `GetattrFlags`.
pub proof fn lemma_getattr_flags_numbers()
    ensures
        0x1 == GetattrFlags::FUSE_GETATTR_FH,
{
}

/// The bits of `InitFlags`.
pub proof fn lemma_init_flags_numbers()
    ensures
        0x1 == InitFlags::FUSE_ASYNC_READ,
        0x2 == InitFlags::FUSE_POSIX_LOCKS,
        0x4 == InitFlags::FUSE_FILE_OPS,
        0x8 == InitFlags::FUSE_ATOMIC_O_TRUNC,
        0x10 == InitFlags::FUSE_EXPORT_SUPPORT,
        0x20 == InitFlags::FUSE_BIG_WRITES,
        0x40 == InitFlags::FUSE_DONT_MASK,
        0x80 == InitFlags::FUSE_SPLICE_WRITE,
        0x100 == InitFlags::FUSE_SPLICE_MOVE,
        0x200 == InitFlags::FUSE_SPLICE_READ,
        0x400 == InitFlags::FUSE_FLOCK_LOCKS,
        0x800 == InitFlags::FUSE_HAS_IOCTL_DIR,
        0x1000 == InitFlags::FUSE_AUTO_INVAL_DATA,
        0x2000 == InitFlags::FUSE_DO_READDIRPLUS,
        0x4000 == InitFlags::FUSE_READDIRPLUS_AUTO,
        0x8000 == InitFlags::FUSE_ASYNC_DIO,
        0x10000 == InitFlags::FUSE_WRITEBACK_CACHE,
        0x20000 == InitFlags::FUSE_NO_OPEN_SUPPORT,
        0x40000 == InitFlags::FUSE_PARALLEL_DIROPS,
        0x80000 == InitFlags::FUSE_HANDLE_KILLPRIV,
        0x100000 == InitFlags::FUSE_POSIX_ACL,
        0x200000 == InitFlags::FUSE_ABORT_ERROR,
        0x400000 == InitFlags::FUSE_MAX_PAGES,
        0x800000 == InitFlags::FUSE_CACHE_SYMLINKS,
        0x1000000 == InitFlags::FUSE_NO_OPENDIR_SUPPORT,
        0x2000000 == InitFlags::FUSE_EXPLICIT_INVAL_DATA,
        0x4000000 == InitFlags::FUSE_MAP_ALIGNMENT,
        0x8000000 == InitFlags::FUSE_SUBMOUNTS,
        0x10000000 == InitFlags::FUSE_HANDLE_KILLPRIV_V2,
        0x20000000 == InitFlags::FUSE_SETXATTR_EXT,
        0x40000000 == InitFlags::FUSE_INIT_EXT,
        0x80000000 == InitFlags::FUSE_INIT_RESERVED,
        0x100000000 == InitFlags::FUSE_SECURITY_CTX,
        0x200000000 == InitFlags::FUSE_HAS_INODE_DAX,
        0x400000000 == InitFlags::FUSE_CREATE_SUPP_GROUP,
        0x800000000 == InitFlags::FUSE_HAS_EXPIRE_ONLY,
        0x1000000000 == InitFlags::FUSE_DIRECT_IO_ALLOW_MMAP,
        0x2000000000 == InitFlags::FUSE_PASSTHROUGH,
        0x4000000000 == InitFlags::FUSE_NO_EXPORT_SUPPORT,
        0x8000000000 == InitFlags::FUSE_HAS_RESEND,
        0x10000000000 == InitFlags::FUSE_ALLOW_IDMAP,
        0x20000000000 == InitFlags::FUSE_OVER_IO_URING,
        0x40000000000 == InitFlags::FUSE_REQUEST_TIMEOUT,
        0x7ffffffffff == InitFlags::ALL,
{
}

/// The bits of `IoctlFlags`.
pub proof fn lemma_ioctl_flags_numbers()
    ensures
        0x1 == IoctlFlags::FUSE_IOCTL_COMPAT,
        0x2 == IoctlFlags::FUSE_IOCTL_UNRESTRICTED,
        0x4 == IoctlFlags::FUSE_IOCTL_RETRY,
        0x8 == IoctlFlags::FUSE_IOCTL_32BIT,
        0x10 == IoctlFlags::FUSE_IOCTL_DIR,
        0x20 == IoctlFlags::FUSE_IOCTL_COMPAT_X32,
{
}

/// The bits of `OpenInFlags`.
pub proof fn lemma_open_in_flags_numbers()
    ensures
        0x1 == OpenInFlags::FUSE_OPEN_KILL_SUIDGID,
{
}

/// The bits of `PollFlags`.
pub proof fn lemma_poll_flags_numbers()
    ensures
        0x1 == PollFlags::FUSE_POLL_SCHEDULE_NOTIFY,
{
}

/// The bits of `ReadFlags`.
pub proof fn lemma_read_flags_numbers()
    ensures
        0x2 == ReadFlags::FUSE_READ_LOCKOWNER,
{
}

/// The bits of `ReleaseFlags`.
pub proof fn lemma_release_flags_numbers()
    ensures
        0x1 == ReleaseFlags::FUSE_RELEASE_FLUSH,
        0x2 == ReleaseFlags::FUSE_RELEASE_FLOCK_UNLOCK,
{
}

/// The bits of `StatxAttributes`.
pub proof fn lemma_statx_attributes_numbers()
    ensures
        0x4 == StatxAttributes::COMPRESSED,
        0x10 == StatxAttributes::IMMUTABLE,
        0x20 == StatxAttributes::APPEND,
        0x40 == StatxAttributes::NODUMP,
        0x800 == StatxAttributes::ENCRYPTED,
        0x1000 == StatxAttributes::AUTOMOUNT,
        0x2000 == StatxAttributes::MOUNT_ROOT,
        0x100000 == StatxAttributes::VERITY,
        0x200000 == StatxAttributes::DAX,
{
}

/// The bits of `StatxMask`.
pub proof fn lemma_statx_mask_numbers()
    ensures
        0x1 == StatxMask::TYPE,
        0x2 == StatxMask::MODE,
        0x4 == StatxMask::NLINK,
        0x8 == StatxMask::UID,
        0x10 == StatxMask::GID,
        0x20 == StatxMask::ATIME,
        0x40 == StatxMask::MTIME,
        0x80 == StatxMask::CTIME,
        0x100 == StatxMask::INO,
        0x200 == StatxMask::SIZE,
        0x400 == StatxMask::BLOCKS,
        0x7ff == StatxMask::BASIC_STATS,
        0x800 == StatxMask::BTIME,
{
}

/// The bits of `WriteFlags`.
pub proof fn lemma_write_flags_numbers()
    ensures
        0x1 == WriteFlags::WRITE_CACHE,
        0x2 == WriteFlags::WRITE_LOCKOWNER,
        0x4 == WriteFlags::WRITE_KILL_SUIDGID,
{
}

/// What a file may be ready for.
pub proof fn lemma_poll_events_numbers()
    ensures
        0x1 == PollEvents::POLLIN,
        0x2 == PollEvents::POLLPRI,
        0x4 == PollEvents::POLLOUT,
        0x8 == PollEvents::POLLERR,
        0x10 == PollEvents::POLLHUP,
        0x20 == PollEvents::POLLNVAL,
        0x40 == PollEvents::POLLRDNORM,
        0x80 == PollEvents::POLLRDBAND,
        0x100 == PollEvents::POLLWRNORM,
        0x200 == PollEvents::POLLWRBAND,
{
}

/// How a file may be renamed.
pub proof fn lemma_rename_flags_numbers()
    ensures
        0x1 == RenameFlags::RENAME_NOREPLACE,
        0x2 == RenameFlags::RENAME_EXCHANGE,
        0x4 == RenameFlags::RENAME_WHITEOUT,
{
}

} // verus!
