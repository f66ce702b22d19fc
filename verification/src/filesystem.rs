//! What a filesystem is asked, and what one answers that does nothing.

use vstd::prelude::*;

use crate::access_flags::AccessFlags;
use crate::bsd_file_flags::BsdFileFlags;
use crate::experimental::RequestContext;
use crate::ids::{Errno, FileHandle, INodeNo, LockOwner};
use crate::kernel_config::KernelConfig;
use crate::ll::flags::copy_file_range_flags::CopyFileRangeFlags;
use crate::ll::flags::fopen_flags::FopenFlags;
use crate::ll::flags::ioctl_flags::IoctlFlags;
use crate::ll::flags::poll_flags::PollFlags;
use crate::ll::flags::statx_flags::StatxMask;
use crate::ll::flags::write_flags::WriteFlags;
use crate::ll::fuse_abi::{fuse_forget_one, fuse_kstatfs, fuse_open_out, fuse_statfs_out};
use crate::ll::reply::Response;
use crate::ll::wire::IntoBytes;
use crate::notify::PollNotifier;
use crate::open_flags::OpenFlags;
use crate::poll_events::PollEvents;
use crate::rename_flags::RenameFlags;
use crate::time::{SystemTime, TimeOrNow};

verus! {

/// Whether `r` answers with a file handle of zero, without flags.
pub open spec fn opened_nothing(r: Response) -> bool {
    r is Data && r.payload() == (fuse_open_out {
        fh: 0,
        open_flags: 0,
        backing_id: 0,
    }).spec_bytes()
}

/// Whether `r` answers with a filesystem that holds nothing.
pub open spec fn counts_nothing(r: Response) -> bool {
    r is Data && r.payload() == (fuse_statfs_out {
        st: fuse_kstatfs {
            blocks: 0,
            bfree: 0,
            bavail: 0,
            files: 0,
            ffree: 0,
            bsize: 512,
            namelen: 255,
            frsize: 0,
            padding: 0,
            spare: [0, 0, 0, 0, 0, 0],
        },
    }).spec_bytes()
}

/// Filesystem trait.
///
/// This trait must be implemented to provide a userspace filesystem via FUSE.
/// These methods correspond to `fuse_lowlevel_ops` in libfuse. Reasonable default
/// implementations are provided here to get a mountable filesystem that does
/// nothing.
pub trait Filesystem: Send + Sync + 'static {
    /// Initialize filesystem.
    /// Called before any other filesystem method.
    /// The kernel module connection can be configured using the `KernelConfig` object
    fn init(&mut self, req: &RequestContext, config: &mut KernelConfig) -> (r: Result<(), Errno>)
        default_ensures
            r == Ok::<(), Errno>(()),
            *final(config) == *old(config),
    {
        Ok(())
    }

    /// Clean up filesystem.
    /// Called on filesystem exit.
    fn destroy(&mut self) {
    }

    /// Forget about an inode.
    /// The nlookup parameter indicates the number of lookups previously performed on
    /// this inode. If the filesystem implements inode lifetimes, it is recommended that
    /// inodes acquire a single reference on each lookup, and lose nlookup references on
    /// each forget. The filesystem may ignore forget calls, if the inodes don't need to
    /// have a limited lifetime. On unmount it is not guaranteed, that all referenced
    /// inodes will receive a forget message.
    fn forget(&self, req: &RequestContext, ino: INodeNo, nlookup: u64) {
    }

    /// Like [`forget`](Self::forget), but take multiple forget requests at once for performance.
    /// The default implementation will fallback to `forget`.
    fn batch_forget(&self, req: &RequestContext, nodes: &[fuse_forget_one]) {
        let mut i: usize = 0;
        while i < nodes.len()
            invariant
                i <= nodes@.len(),
            decreases nodes.len() - i,
        {
            self.forget(req, INodeNo(nodes[i].nodeid), nodes[i].nlookup);
            i += 1;
        }
    }

    /// Look up a directory entry by name and get its attributes.
    fn lookup(&self, req: &RequestContext, parent: INodeNo, name: &[u8]) -> (r: Response<'_>)
        default_ensures
            r == Response::Error(Some(Errno(Errno::ENOSYS))),
    {
        Response::new_error(Errno(Errno::ENOSYS))
    }

    /// Get file attributes.
    fn getattr(&self, req: &RequestContext, ino: INodeNo, fh: Option<FileHandle>) -> (r: Response<'_>)
        default_ensures
            r == Response::Error(Some(Errno(Errno::ENOSYS))),
    {
        Response::new_error(Errno(Errno::ENOSYS))
    }

    /// Get extended file attributes, for `statx(2)`.
    ///
    /// Answering this rather than leaving it to [`Self::getattr`] lets a filesystem
    /// report a creation time, which no other request can carry: `fuse_attr` has a field for
    /// it on macOS alone, and `statx(2)` otherwise reports whatever the kernel last cached.
    ///
    /// It does not, despite the wire format having room for them, make the `STATX_ATTR_*`
    /// properties reportable - see `StatxAttr::attributes`.
    ///
    /// `mask` is what the caller asked for. It is a request rather than an obligation:
    /// answering with more costs nothing, and what the reply actually carries is described by
    /// the reply itself.
    ///
    /// Answering `ENOSYS`, which is the default, is permanent: the kernel stops sending
    /// `FUSE_STATX` on this connection and serves `statx(2)` out of [`Self::getattr`].
    fn statx(
        &self,
        req: &RequestContext,
        ino: INodeNo,
        fh: Option<FileHandle>,
        flags: u32,
        mask: StatxMask,
    ) -> (r: Response<'_>)
        default_ensures
            r == Response::Error(Some(Errno(Errno::ENOSYS))),
    {
        Response::new_error(Errno(Errno::ENOSYS))
    }

    /// Set file attributes.
    ///
    /// `kill_suid_gid` asks the filesystem to clear the suid and sgid bits of the file as part
    /// of this request, because the caller lacks `CAP_FSETID`. It is only ever set once
    /// `FUSE_HANDLE_KILLPRIV_V2` has been negotiated, since the kernel otherwise
    /// clears them itself.
    ///
    /// Honoring it is necessary but not sufficient: that capability also makes clearing the
    /// `security.capability` xattr on every write, chown and truncate the filesystem's job,
    /// and no argument reports that. See `FUSE_HANDLE_KILLPRIV_V2`.
    fn setattr(
        &self,
        req: &RequestContext,
        ino: INodeNo,
        mode: Option<u32>,
        uid: Option<u32>,
        gid: Option<u32>,
        size: Option<u64>,
        atime: Option<TimeOrNow>,
        mtime: Option<TimeOrNow>,
        ctime: Option<SystemTime>,
        fh: Option<FileHandle>,
        crtime: Option<SystemTime>,
        chgtime: Option<SystemTime>,
        bkuptime: Option<SystemTime>,
        flags: Option<BsdFileFlags>,
        kill_suid_gid: bool,
    ) -> (r: Response<'_>)
        default_ensures
            r == Response::Error(Some(Errno(Errno::ENOSYS))),
    {
        Response::new_error(Errno(Errno::ENOSYS))
    }

    /// Read symbolic link.
    fn readlink(&self, req: &RequestContext, ino: INodeNo) -> (r: Response<'_>)
        default_ensures
            r == Response::Error(Some(Errno(Errno::ENOSYS))),
    {
        Response::new_error(Errno(Errno::ENOSYS))
    }

    /// Create file node.
    /// Create a regular file, character device, block device, fifo or socket node.
    fn mknod(
        &self,
        req: &RequestContext,
        parent: INodeNo,
        name: &[u8],
        mode: u32,
        umask: u32,
        rdev: u32,
    ) -> (r: Response<'_>)
        default_ensures
            r == Response::Error(Some(Errno(Errno::ENOSYS))),
    {
        Response::new_error(Errno(Errno::ENOSYS))
    }

    /// Create a directory.
    fn mkdir(
        &self,
        req: &RequestContext,
        parent: INodeNo,
        name: &[u8],
        mode: u32,
        umask: u32,
    ) -> (r: Response<'_>)
        default_ensures
            r == Response::Error(Some(Errno(Errno::ENOSYS))),
    {
        Response::new_error(Errno(Errno::ENOSYS))
    }

    /// Remove a file.
    fn unlink(&self, req: &RequestContext, parent: INodeNo, name: &[u8]) -> (r: Response<'_>)
        default_ensures
            r == Response::Error(Some(Errno(Errno::ENOSYS))),
    {
        Response::new_error(Errno(Errno::ENOSYS))
    }

    /// Remove a directory.
    fn rmdir(&self, req: &RequestContext, parent: INodeNo, name: &[u8]) -> (r: Response<'_>)
        default_ensures
            r == Response::Error(Some(Errno(Errno::ENOSYS))),
    {
        Response::new_error(Errno(Errno::ENOSYS))
    }

    /// Create a symbolic link.
    fn symlink(
        &self,
        req: &RequestContext,
        parent: INodeNo,
        link_name: &[u8],
        target: &[u8],
    ) -> (r: Response<'_>)
        default_ensures
            r == Response::Error(Some(Errno(Errno::EPERM))),
    {
        Response::new_error(Errno(Errno::EPERM))
    }

    /// Rename a file.
    ///
    /// `flags` are the `renameat2` flags on Linux and the `renamex_np` flags on macOS. Reply
    /// with EINVAL for any flag that isn't handled.
    fn rename(
        &self,
        req: &RequestContext,
        parent: INodeNo,
        name: &[u8],
        newparent: INodeNo,
        newname: &[u8],
        flags: RenameFlags,
    ) -> (r: Response<'_>)
        default_ensures
            r == Response::Error(Some(Errno(Errno::ENOSYS))),
    {
        Response::new_error(Errno(Errno::ENOSYS))
    }

    /// Create a hard link.
    fn link(
        &self,
        req: &RequestContext,
        ino: INodeNo,
        newparent: INodeNo,
        newname: &[u8],
    ) -> (r: Response<'_>)
        default_ensures
            r == Response::Error(Some(Errno(Errno::EPERM))),
    {
        Response::new_error(Errno(Errno::EPERM))
    }

    /// Open a file.
    /// Open flags (with the exception of `O_CREAT`, `O_EXCL`, `O_NOCTTY` and `O_TRUNC`) are
    /// available in flags. Filesystem may store an arbitrary file handle (pointer, index,
    /// etc) in fh, and use this in other all other file operations (read, write, flush,
    /// release, fsync). Filesystem may also implement stateless file I/O and not store
    /// anything in fh. There are also some flags (`direct_io`, `keep_cache`) which the
    /// filesystem may set, to change the way the file is opened. See `fuse_file_info`
    /// structure in <`fuse_common.h`> for more details.
    ///
    /// `kill_suid_gid` asks the filesystem to clear the suid and sgid bits of the file, because
    /// the open truncates it and the caller lacks `CAP_FSETID`. It is only ever set once
    /// `FUSE_HANDLE_KILLPRIV_V2` has been negotiated, since the kernel otherwise
    /// clears them itself.
    ///
    /// Honoring it is necessary but not sufficient: that capability also makes clearing the
    /// `security.capability` xattr on every write, chown and truncate the filesystem's job,
    /// and no argument reports that. See `FUSE_HANDLE_KILLPRIV_V2`.
    fn open(
        &self,
        req: &RequestContext,
        ino: INodeNo,
        flags: OpenFlags,
        kill_suid_gid: bool,
    ) -> (r: Response<'_>)
        default_ensures
            opened_nothing(r),
    {
        Response::new_open(FileHandle(0), FopenFlags::from_bits_retain(0), 0)
    }

    /// Read data.
    /// The answer should be exactly the number of bytes requested except on EOF or error,
    /// otherwise the rest of the data will be substituted with zeroes. An exception to
    /// this is when the file has been opened in `direct_io` mode, in which case the
    /// return value of the read system call will reflect the return value of this
    /// operation. fh will contain the value set by the open method, or will be undefined
    /// if the open method didn't set any value.
    ///
    /// flags: these are the file flags, such as `O_SYNC`. Only supported with ABI >= 7.9
    /// `lock_owner`: only supported with ABI >= 7.9
    fn read(
        &self,
        req: &RequestContext,
        ino: INodeNo,
        fh: FileHandle,
        offset: u64,
        size: u32,
        flags: OpenFlags,
        lock_owner: Option<LockOwner>,
    ) -> (r: Response<'_>)
        default_ensures
            r == Response::Error(Some(Errno(Errno::ENOSYS))),
    {
        Response::new_error(Errno(Errno::ENOSYS))
    }

    /// Write data.
    /// Write should return exactly the number of bytes requested except on error. An
    /// exception to this is when the file has been opened in `direct_io` mode, in
    /// which case the return value of the write system call will reflect the return
    /// value of this operation. fh will contain the value set by the open method, or
    /// will be undefined if the open method didn't set any value.
    ///
    /// `write_flags`: will contain `FUSE_WRITE_CACHE`, if this write is from the page cache. If
    /// set, the pid, uid, gid, and fh may not match the value that would have been sent if write
    /// cachin is disabled flags: these are the file flags, such as `O_SYNC`. Only supported with
    /// ABI >= 7.9 `lock_owner`: only supported with ABI >= 7.9
    fn write(
        &self,
        req: &RequestContext,
        ino: INodeNo,
        fh: FileHandle,
        offset: u64,
        data: &[u8],
        write_flags: WriteFlags,
        flags: OpenFlags,
        lock_owner: Option<LockOwner>,
    ) -> (r: Response<'_>)
        default_ensures
            r == Response::Error(Some(Errno(Errno::ENOSYS))),
    {
        Response::new_error(Errno(Errno::ENOSYS))
    }

    /// Flush method.
    /// This is called on each `close()` of the opened file. Since file descriptors can
    /// be duplicated (dup, dup2, fork), for one open call there may be many flush
    /// calls. Filesystems shouldn't assume that flush will always be called after some
    /// writes, or that if will be called at all. fh will contain the value set by the
    /// open method, or will be undefined if the open method didn't set any value.
    /// NOTE: the name of the method is misleading, since (unlike fsync) the filesystem
    /// is not forced to flush pending writes. One reason to flush data, is if the
    /// filesystem wants to return write errors. If the filesystem supports file locking
    /// operations (`setlk`, `getlk`) it should remove all locks belonging to `lock_owner`.
    fn flush(
        &self,
        req: &RequestContext,
        ino: INodeNo,
        fh: FileHandle,
        lock_owner: LockOwner,
    ) -> (r: Response<'_>)
        default_ensures
            r == Response::Error(Some(Errno(Errno::ENOSYS))),
    {
        Response::new_error(Errno(Errno::ENOSYS))
    }

    /// Release an open file.
    /// Release is called when there are no more references to an open file: all file
    /// descriptors are closed and all memory mappings are unmapped. For every open
    /// call there will be exactly one release call. The filesystem may reply with an
    /// error, but error values are not returned to `close()` or `munmap()` which triggered
    /// the release. fh will contain the value set by the open method, or will be undefined
    /// if the open method didn't set any value. flags will contain the same flags as for
    /// open.
    fn release(
        &self,
        req: &RequestContext,
        ino: INodeNo,
        fh: FileHandle,
        flags: OpenFlags,
        lock_owner: Option<LockOwner>,
        flush: bool,
    ) -> (r: Response<'_>)
        default_ensures
            r == Response::Error(None),
    {
        Response::new_empty()
    }

    /// Synchronize file contents.
    /// If the datasync parameter is non-zero, then only the user data should be flushed,
    /// not the meta data.
    fn fsync(
        &self,
        req: &RequestContext,
        ino: INodeNo,
        fh: FileHandle,
        datasync: bool,
    ) -> (r: Response<'_>)
        default_ensures
            r == Response::Error(Some(Errno(Errno::ENOSYS))),
    {
        Response::new_error(Errno(Errno::ENOSYS))
    }

    /// Open a directory.
    /// Filesystem may store an arbitrary file handle (pointer, index, etc) in fh, and
    /// use this in other all other directory stream operations (readdir, releasedir,
    /// fsyncdir). Filesystem may also implement stateless directory I/O and not store
    /// anything in fh, though that makes it impossible to implement standard conforming
    /// directory stream operations in case the contents of the directory can change
    /// between opendir and releasedir.
    fn opendir(&self, req: &RequestContext, ino: INodeNo, flags: OpenFlags) -> (r: Response<'_>)
        default_ensures
            opened_nothing(r),
    {
        Response::new_open(FileHandle(0), FopenFlags::from_bits_retain(0), 0)
    }

    /// Read directory.
    /// Send a buffer filled using `buffer.fill()`, with size not exceeding the
    /// requested size. Send an empty buffer on end of stream. fh will contain the
    /// value set by the opendir method, or will be undefined if the opendir method
    /// didn't set any value.
    fn readdir(
        &self,
        req: &RequestContext,
        ino: INodeNo,
        fh: FileHandle,
        offset: u64,
        size: u32,
    ) -> (r: Response<'_>)
        default_ensures
            r == Response::Error(Some(Errno(Errno::ENOSYS))),
    {
        Response::new_error(Errno(Errno::ENOSYS))
    }

    /// Read directory.
    /// Send a buffer filled using `buffer.fill()`, with size not exceeding the
    /// requested size. Send an empty buffer on end of stream. fh will contain the
    /// value set by the opendir method, or will be undefined if the opendir method
    /// didn't set any value.
    fn readdirplus(
        &self,
        req: &RequestContext,
        ino: INodeNo,
        fh: FileHandle,
        offset: u64,
        size: u32,
    ) -> (r: Response<'_>)
        default_ensures
            r == Response::Error(Some(Errno(Errno::ENOSYS))),
    {
        Response::new_error(Errno(Errno::ENOSYS))
    }

    /// Release an open directory.
    /// For every opendir call there will be exactly one releasedir call. fh will
    /// contain the value set by the opendir method, or will be undefined if the
    /// opendir method didn't set any value.
    fn releasedir(
        &self,
        req: &RequestContext,
        ino: INodeNo,
        fh: FileHandle,
        flags: OpenFlags,
    ) -> (r: Response<'_>)
        default_ensures
            r == Response::Error(None),
    {
        Response::new_empty()
    }

    /// Synchronize directory contents.
    /// If the datasync parameter is set, then only the directory contents should
    /// be flushed, not the meta data. fh will contain the value set by the opendir
    /// method, or will be undefined if the opendir method didn't set any value.
    fn fsyncdir(
        &self,
        req: &RequestContext,
        ino: INodeNo,
        fh: FileHandle,
        datasync: bool,
    ) -> (r: Response<'_>)
        default_ensures
            r == Response::Error(Some(Errno(Errno::ENOSYS))),
    {
        Response::new_error(Errno(Errno::ENOSYS))
    }

    /// Get file system statistics.
    fn statfs(&self, req: &RequestContext, ino: INodeNo) -> (r: Response<'_>)
        default_ensures
            counts_nothing(r),
    {
        Response::new_statfs(0, 0, 0, 0, 0, 512, 255, 0)
    }

    /// Set an extended attribute.
    fn setxattr(
        &self,
        req: &RequestContext,
        ino: INodeNo,
        name: &[u8],
        value: &[u8],
        flags: i32,
        position: u32,
    ) -> (r: Response<'_>)
        default_ensures
            r == Response::Error(Some(Errno(Errno::ENOSYS))),
    {
        Response::new_error(Errno(Errno::ENOSYS))
    }

    /// Get an extended attribute.
    /// If `size` is 0, the size of the value should be sent with `Response::new_xattr_size`.
    /// If `size` is not 0, and the value fits, send it with `Response::new_data`, or
    /// the error `ERANGE` if it doesn't.
    fn getxattr(&self, req: &RequestContext, ino: INodeNo, name: &[u8], size: u32) -> (r: Response<'_>)
        default_ensures
            r == Response::Error(Some(Errno(Errno::ENOSYS))),
    {
        Response::new_error(Errno(Errno::ENOSYS))
    }

    /// List extended attribute names.
    /// If `size` is 0, the size of the value should be sent with `Response::new_xattr_size`.
    /// If `size` is not 0, and the value fits, send it with `Response::new_data`, or
    /// the error `ERANGE` if it doesn't.
    fn listxattr(&self, req: &RequestContext, ino: INodeNo, size: u32) -> (r: Response<'_>)
        default_ensures
            r == Response::Error(Some(Errno(Errno::ENOSYS))),
    {
        Response::new_error(Errno(Errno::ENOSYS))
    }

    /// Remove an extended attribute.
    fn removexattr(&self, req: &RequestContext, ino: INodeNo, name: &[u8]) -> (r: Response<'_>)
        default_ensures
            r == Response::Error(Some(Errno(Errno::ENOSYS))),
    {
        Response::new_error(Errno(Errno::ENOSYS))
    }

    /// Check file access permissions.
    /// This will be called for the `access()` system call. If the `default_permissions`
    /// mount option is given, this method is not called. This method is not called
    /// under Linux kernel versions 2.4.x
    fn access(&self, req: &RequestContext, ino: INodeNo, mask: AccessFlags) -> (r: Response<'_>)
        default_ensures
            r == Response::Error(Some(Errno(Errno::ENOSYS))),
    {
        Response::new_error(Errno(Errno::ENOSYS))
    }

    /// Create and open a file.
    /// If the file does not exist, first create it with the specified mode, and then
    /// open it. You can use any open flags in the flags parameter except `O_NOCTTY`.
    /// The filesystem can store any type of file handle (such as a pointer or index)
    /// in fh, which can then be used across all subsequent file operations including
    /// read, write, flush, release, and fsync. Additionally, the filesystem may set
    /// certain flags like `direct_io` and `keep_cache` to change the way the file is
    /// opened. See `fuse_file_info` structure in <`fuse_common.h`> for more details. If
    /// this method is not implemented or under Linux kernel versions earlier than
    /// 2.6.15, the `mknod()` and `open()` methods will be called instead.
    ///
    /// `kill_suid_gid` asks the filesystem to clear the suid and sgid bits of an existing file,
    /// because the open truncates it and the caller lacks `CAP_FSETID`. It is only ever set once
    /// `FUSE_HANDLE_KILLPRIV_V2` has been negotiated, since the kernel otherwise
    /// clears them itself.
    ///
    /// Honoring it is necessary but not sufficient: that capability also makes clearing the
    /// `security.capability` xattr on every write, chown and truncate the filesystem's job,
    /// and no argument reports that. See `FUSE_HANDLE_KILLPRIV_V2`.
    fn create(
        &self,
        req: &RequestContext,
        parent: INodeNo,
        name: &[u8],
        mode: u32,
        umask: u32,
        flags: i32,
        kill_suid_gid: bool,
    ) -> (r: Response<'_>)
        default_ensures
            r == Response::Error(Some(Errno(Errno::ENOSYS))),
    {
        Response::new_error(Errno(Errno::ENOSYS))
    }

    /// Test for a POSIX file lock.
    fn getlk(
        &self,
        req: &RequestContext,
        ino: INodeNo,
        fh: FileHandle,
        lock_owner: LockOwner,
        start: u64,
        end: u64,
        typ: i32,
        pid: u32,
    ) -> (r: Response<'_>)
        default_ensures
            r == Response::Error(Some(Errno(Errno::ENOSYS))),
    {
        Response::new_error(Errno(Errno::ENOSYS))
    }

    /// Acquire, modify or release a POSIX file lock.
    /// For POSIX threads (NPTL) there's a 1-1 relation between pid and owner, but
    /// otherwise this is not always the case.  For checking lock ownership,
    /// 'fi->owner' must be used. The `l_pid` field in 'struct flock' should only be
    /// used to fill in this field in `getlk()`. Note: if the locking methods are not
    /// implemented, the kernel will still allow file locking to work locally.
    /// Hence these are only interesting for network filesystems and similar.
    fn setlk(
        &self,
        req: &RequestContext,
        ino: INodeNo,
        fh: FileHandle,
        lock_owner: LockOwner,
        start: u64,
        end: u64,
        typ: i32,
        pid: u32,
        sleep: bool,
    ) -> (r: Response<'_>)
        default_ensures
            r == Response::Error(Some(Errno(Errno::ENOSYS))),
    {
        Response::new_error(Errno(Errno::ENOSYS))
    }

    /// Map block index within file to block index within device.
    /// Note: This makes sense only for block device backed filesystems mounted
    /// with the 'blkdev' option
    fn bmap(&self, req: &RequestContext, ino: INodeNo, blocksize: u32, idx: u64) -> (r: Response<'_>)
        default_ensures
            r == Response::Error(Some(Errno(Errno::ENOSYS))),
    {
        Response::new_error(Errno(Errno::ENOSYS))
    }

    /// control device
    fn ioctl(
        &self,
        req: &RequestContext,
        ino: INodeNo,
        fh: FileHandle,
        flags: IoctlFlags,
        cmd: u32,
        in_data: &[u8],
        out_size: u32,
    ) -> (r: Response<'_>)
        default_ensures
            r == Response::Error(Some(Errno(Errno::ENOSYS))),
    {
        Response::new_error(Errno(Errno::ENOSYS))
    }

    /// Poll for events
    fn poll(
        &self,
        req: &RequestContext,
        ino: INodeNo,
        fh: FileHandle,
        ph: PollNotifier,
        events: PollEvents,
        flags: PollFlags,
    ) -> (r: Response<'_>)
        default_ensures
            r == Response::Error(Some(Errno(Errno::ENOSYS))),
    {
        Response::new_error(Errno(Errno::ENOSYS))
    }

    /// Preallocate or deallocate space to a file
    fn fallocate(
        &self,
        req: &RequestContext,
        ino: INodeNo,
        fh: FileHandle,
        offset: u64,
        length: u64,
        mode: i32,
    ) -> (r: Response<'_>)
        default_ensures
            r == Response::Error(Some(Errno(Errno::ENOSYS))),
    {
        Response::new_error(Errno(Errno::ENOSYS))
    }

    /// Reposition read/write file offset
    fn lseek(
        &self,
        req: &RequestContext,
        ino: INodeNo,
        fh: FileHandle,
        offset: i64,
        whence: i32,
    ) -> (r: Response<'_>)
        default_ensures
            r == Response::Error(Some(Errno(Errno::ENOSYS))),
    {
        Response::new_error(Errno(Errno::ENOSYS))
    }

    /// Copy the specified range from the source inode to the destination inode
    fn copy_file_range(
        &self,
        req: &RequestContext,
        ino_in: INodeNo,
        fh_in: FileHandle,
        offset_in: u64,
        ino_out: INodeNo,
        fh_out: FileHandle,
        offset_out: u64,
        len: u64,
        flags: CopyFileRangeFlags,
    ) -> (r: Response<'_>)
        default_ensures
            r == Response::Error(Some(Errno(Errno::ENOSYS))),
    {
        Response::new_error(Errno(Errno::ENOSYS))
    }

    /// Create an anonymous file, for `open()` with `O_TMPFILE`.
    ///
    /// The file has no name and belongs to no directory. `parent` is the directory it was
    /// created in, which is where it will live if it is later given a name with `linkat()`;
    /// until then nothing can reach it by path. Reply as for [`Filesystem::create`], with
    /// an inode and an open file handle.
    ///
    /// Answering `ENOSYS`, which is the default, is permanent: the kernel stops offering
    /// `O_TMPFILE` on this connection and reports `EOPNOTSUPP` to the caller without
    /// asking again.
    fn tmpfile(
        &self,
        req: &RequestContext,
        parent: INodeNo,
        mode: u32,
        umask: u32,
        flags: i32,
        kill_suid_gid: bool,
    ) -> (r: Response<'_>)
        default_ensures
            r == Response::Error(Some(Errno(Errno::ENOSYS))),
    {
        Response::new_error(Errno(Errno::ENOSYS))
    }

    /// Synchronize the whole filesystem, for the `syncfs(2)` system call.
    ///
    /// `ino` is the root inode. Replying before everything the filesystem holds is durable
    /// defeats the point of the call, so a filesystem that cannot make that guarantee is
    /// better off leaving this unimplemented, which reports `ENOSYS` and makes the kernel
    /// stop asking for the lifetime of the connection.
    ///
    /// Note that the kernel only propagates `syncfs(2)` on `fuseblk` and virtiofs
    /// connections. A filesystem mounted by fuser is neither, so this is reachable only
    /// for a session that is given the descriptor of such a connection. Everywhere else
    /// `syncfs(2)` succeeds without asking the filesystem anything.
    fn syncfs(&self, req: &RequestContext, ino: INodeNo) -> (r: Response<'_>)
        default_ensures
            r == Response::Error(Some(Errno(Errno::ENOSYS))),
    {
        Response::new_error(Errno(Errno::ENOSYS))
    }
}

} // verus!
