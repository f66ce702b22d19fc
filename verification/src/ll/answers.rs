//! What is said in an answer or a notification, field by field, where the kernel reads it.

use vstd::prelude::*;

use crate::experimental;
use crate::file_attr::{FileAttr, FileType};
use crate::ids::{Errno, FileHandle, Generation, INodeNo, Lock, RequestId};
use crate::ll::flags::fopen_flags::FopenFlags;
use crate::ll::fuse_abi::{
    fuse_attr, fuse_attr_out, fuse_bmap_out, fuse_create_out, fuse_dirent,
    fuse_entry_out, fuse_file_lock, fuse_getxattr_out, fuse_ioctl_out, fuse_kstatfs, fuse_lk_out,
    fuse_lseek_out, fuse_notify_code, fuse_notify_delete_out, fuse_notify_inval_entry_out,
    fuse_notify_inval_inode_out, fuse_notify_poll_wakeup_out, fuse_notify_store_out, fuse_open_out,
    fuse_poll_out, fuse_setattr_in, fuse_statfs_out, fuse_write_out,
};
use crate::ll::layout::{
    lemma_fuse_attr_out_is_written, lemma_fuse_bmap_out_is_written,
    lemma_fuse_create_out_is_written, lemma_fuse_dirent_is_written,
    lemma_fuse_direntplus_is_written, lemma_fuse_entry_out_is_written,
    lemma_fuse_getxattr_out_is_written, lemma_fuse_ioctl_out_is_written,
    lemma_fuse_lk_out_is_written, lemma_fuse_lseek_out_is_written,
    lemma_fuse_notify_delete_out_is_written, lemma_fuse_notify_inval_entry_out_is_written,
    lemma_fuse_notify_inval_inode_out_is_written, lemma_fuse_notify_poll_wakeup_out_is_written,
    lemma_fuse_notify_store_out_is_written, lemma_fuse_open_out_is_written,
    lemma_fuse_out_header_is_written, lemma_fuse_poll_out_is_written,
    lemma_fuse_statfs_out_is_written, lemma_fuse_write_out_is_written, lemma_within,
};
use crate::ll::notify::{Notification, TooBig};
use crate::ll::reply::{
    attr_matches, fuse_attr_from_attr, mode_from_kind_and_perm, Attr, DirEntOffset,
    DirEntry, DirEntryPlus, EntListBuf, Response,
};
use crate::ll::reply_async;
use crate::ll::response_buf::{joined, slices_of};
use crate::ll::wire::{
    group_lengths, i32_at, i64_at, u32_at, u32_bytes, u64_at, u64_bytes, IntoBytes,
};
use crate::notify::{Notifier, NotifyError, Outgoing, PollHandle};
use crate::poll_events::PollEvents;
use crate::time::{time_from_system_time, Duration, SystemTime};

verus! {

/// Whether `secs` seconds and `nanos` nanoseconds are how far `time` lies from the epoch: both
/// after it, or both before it, with less than a second of nanoseconds.
pub open spec fn stands_for(secs: i64, nanos: u32, time: SystemTime) -> bool {
    let n = time.secs * 1_000_000_000 + time.nanos;
    &&& nanos < 1_000_000_000
    &&& n >= 0 ==> secs >= 0 && secs * 1_000_000_000 + nanos == n
    &&& n < 0 ==> secs <= 0 && secs * 1_000_000_000 - nanos == n
}

/// The mode of a file: a number for its kind, and its permissions.
pub open spec fn mode_of(kind: FileType, perm: u16) -> u32 {
    (match kind {
        FileType::NamedPipe => 0o010000u32,
        FileType::CharDevice => 0o020000u32,
        FileType::Directory => 0o040000u32,
        FileType::BlockDevice => 0o060000u32,
        FileType::RegularFile => 0o100000u32,
        FileType::Symlink => 0o120000u32,
        FileType::Socket => 0o140000u32,
    }) | perm as u32
}

/// A time that is written stands for the time that it is written of.
pub proof fn lemma_time_is_written(time: SystemTime, r: (i64, u32))
    requires
        call_ensures(time_from_system_time, (&time,), r),
        time.nanos < 1_000_000_000,
    ensures
        stands_for(r.0, r.1, time),
{
}

/// The mode of a file is that of its kind and permissions.
pub proof fn lemma_mode_is_written(kind: FileType, perm: u16, r: u32)
    requires
        call_ensures(mode_from_kind_and_perm, (kind, perm), r),
    ensures
        r == mode_of(kind, perm),
{
}

/// Of a file that is described its own number, sizes, times, kind, permissions and owners are
/// written, each where it belongs.
pub proof fn lemma_attributes_are_written(attr: FileAttr, r: fuse_attr)
    requires
        call_ensures(fuse_attr_from_attr, (&attr,), r),
        attr.atime.nanos < 1_000_000_000,
        attr.mtime.nanos < 1_000_000_000,
        attr.ctime.nanos < 1_000_000_000,
    ensures
        r.ino == attr.ino.0,
        r.size == attr.size,
        r.blocks == attr.blocks,
        stands_for(r.atime, r.atimensec, attr.atime),
        stands_for(r.mtime, r.mtimensec, attr.mtime),
        stands_for(r.ctime, r.ctimensec, attr.ctime),
        r.mode == mode_of(attr.kind, attr.perm),
        r.nlink == attr.nlink,
        r.uid == attr.uid,
        r.gid == attr.gid,
        r.rdev == attr.rdev,
        r.blksize == attr.blksize,
        r.padding == 0,
{
}

/// What is sent of a file that is described stands where the kernel reads it.
proof fn lemma_described(attr: FileAttr, f: fuse_attr)
    requires
        attr_matches(attr, f),
        attr.atime.nanos < 1_000_000_000,
        attr.mtime.nanos < 1_000_000_000,
        attr.ctime.nanos < 1_000_000_000,
    ensures
        f.ino == attr.ino.0,
        f.size == attr.size,
        f.blocks == attr.blocks,
        stands_for(f.atime, f.atimensec, attr.atime),
        stands_for(f.mtime, f.mtimensec, attr.mtime),
        stands_for(f.ctime, f.ctimensec, attr.ctime),
        f.mode == mode_of(attr.kind, attr.perm),
        f.nlink == attr.nlink,
        f.uid == attr.uid,
        f.gid == attr.gid,
        f.rdev == attr.rdev,
        f.blksize == attr.blksize,
{
}

/// An answer with attributes says how long they are valid and describes the file.
pub proof fn lemma_attr_answer(attr: FileAttr, made: Attr, ttl: Duration, r: Response)
    requires
        call_ensures(Attr::from, (&attr,), made),
        call_ensures(Response::new_attr, (&ttl, &made), r),
        attr.atime.nanos < 1_000_000_000,
        attr.mtime.nanos < 1_000_000_000,
        attr.ctime.nanos < 1_000_000_000,
    ensures
        r is Data,
        r.payload().len() == 104,
        u64_at(r.payload(), 0) == ttl.secs,
        u32_at(r.payload(), 8) == ttl.nanos,
        u64_at(r.payload(), 16) == attr.ino.0,
        u64_at(r.payload(), 24) == attr.size,
        u64_at(r.payload(), 32) == attr.blocks,
        stands_for(i64_at(r.payload(), 40), u32_at(r.payload(), 64), attr.atime),
        stands_for(i64_at(r.payload(), 48), u32_at(r.payload(), 68), attr.mtime),
        stands_for(i64_at(r.payload(), 56), u32_at(r.payload(), 72), attr.ctime),
        u32_at(r.payload(), 76) == mode_of(attr.kind, attr.perm),
        u32_at(r.payload(), 80) == attr.nlink,
        u32_at(r.payload(), 84) == attr.uid,
        u32_at(r.payload(), 88) == attr.gid,
        u32_at(r.payload(), 92) == attr.rdev,
        u32_at(r.payload(), 96) == attr.blksize,
{
    lemma_described(attr, made.attr);
    lemma_fuse_attr_out_is_written(
        fuse_attr_out { attr_valid: ttl.secs, attr_valid_nsec: ttl.nanos, dummy: 0,
            attr: made.attr },
    );
}

/// An answer with an inode names it and its generation, says how long its name and how long its
/// attributes are valid, and describes the file.
pub proof fn lemma_entry_answer(ino: INodeNo,
    generation: Generation,
    attr: FileAttr,
    made: Attr,
    attr_ttl: Duration,
    entry_ttl: Duration,
    r: Response,
)
    requires
        call_ensures(Attr::from, (&attr,), made),
        call_ensures(Response::new_entry, (ino, generation, &made, attr_ttl, entry_ttl), r),
        attr.atime.nanos < 1_000_000_000,
        attr.mtime.nanos < 1_000_000_000,
        attr.ctime.nanos < 1_000_000_000,
    ensures
        r is Data,
        r.payload().len() == 128,
        u64_at(r.payload(), 0) == ino.0,
        u64_at(r.payload(), 8) == generation.0,
        u64_at(r.payload(), 16) == entry_ttl.secs,
        u64_at(r.payload(), 24) == attr_ttl.secs,
        u32_at(r.payload(), 32) == entry_ttl.nanos,
        u32_at(r.payload(), 36) == attr_ttl.nanos,
        u64_at(r.payload(), 40) == attr.ino.0,
        u64_at(r.payload(), 48) == attr.size,
        u64_at(r.payload(), 56) == attr.blocks,
        stands_for(i64_at(r.payload(), 64), u32_at(r.payload(), 88), attr.atime),
        stands_for(i64_at(r.payload(), 72), u32_at(r.payload(), 92), attr.mtime),
        stands_for(i64_at(r.payload(), 80), u32_at(r.payload(), 96), attr.ctime),
        u32_at(r.payload(), 100) == mode_of(attr.kind, attr.perm),
        u32_at(r.payload(), 104) == attr.nlink,
        u32_at(r.payload(), 108) == attr.uid,
        u32_at(r.payload(), 112) == attr.gid,
        u32_at(r.payload(), 116) == attr.rdev,
        u32_at(r.payload(), 120) == attr.blksize,
{
    lemma_described(attr, made.attr);
    lemma_fuse_entry_out_is_written(
        fuse_entry_out {
            nodeid: ino.0,
            generation: generation.0,
            entry_valid: entry_ttl.secs,
            attr_valid: attr_ttl.secs,
            entry_valid_nsec: entry_ttl.nanos,
            attr_valid_nsec: attr_ttl.nanos,
            attr: made.attr,
        },
    );
}

/// An answer with a file that was made names and describes it, and says how it was opened.
#[verifier::rlimit(40)]
pub proof fn lemma_create_answer(ttl: Duration,
    attr: FileAttr,
    made: Attr,
    generation: Generation,
    fh: FileHandle,
    flags: FopenFlags,
    backing_id: u32,
    r: Response,
)
    requires
        call_ensures(Attr::from, (&attr,), made),
        call_ensures(Response::new_create, (&ttl, &made, generation, fh, flags, backing_id), r),
        attr.atime.nanos < 1_000_000_000,
        attr.mtime.nanos < 1_000_000_000,
        attr.ctime.nanos < 1_000_000_000,
    ensures
        r is Data,
        r.payload().len() == 144,
        u64_at(r.payload(), 0) == attr.ino.0,
        u64_at(r.payload(), 8) == generation.0,
        u64_at(r.payload(), 16) == ttl.secs,
        u64_at(r.payload(), 24) == ttl.secs,
        u32_at(r.payload(), 32) == ttl.nanos,
        u32_at(r.payload(), 36) == ttl.nanos,
        u64_at(r.payload(), 40) == attr.ino.0,
        u64_at(r.payload(), 48) == attr.size,
        u64_at(r.payload(), 56) == attr.blocks,
        stands_for(i64_at(r.payload(), 64), u32_at(r.payload(), 88), attr.atime),
        stands_for(i64_at(r.payload(), 72), u32_at(r.payload(), 92), attr.mtime),
        stands_for(i64_at(r.payload(), 80), u32_at(r.payload(), 96), attr.ctime),
        u32_at(r.payload(), 100) == mode_of(attr.kind, attr.perm),
        u32_at(r.payload(), 104) == attr.nlink,
        u32_at(r.payload(), 108) == attr.uid,
        u32_at(r.payload(), 112) == attr.gid,
        u32_at(r.payload(), 116) == attr.rdev,
        u32_at(r.payload(), 120) == attr.blksize,
        u64_at(r.payload(), 128) == fh.0,
        u32_at(r.payload(), 136) == flags.bits,
        u32_at(r.payload(), 140) == backing_id,
{
    lemma_described(attr, made.attr);
    lemma_fuse_create_out_is_written(
        fuse_create_out {
        entry: fuse_entry_out {
            nodeid: made.attr.ino,
            generation: generation.0,
            entry_valid: ttl.secs,
            attr_valid: ttl.secs,
            entry_valid_nsec: ttl.nanos,
            attr_valid_nsec: ttl.nanos,
            attr: made.attr,
        },
        open: fuse_open_out { fh: fh.0, open_flags: flags.bits, backing_id },
        },
    );
}

/// An answer with an open file holds its handle, flags and backing.
pub proof fn lemma_open_answer(fh: FileHandle, flags: FopenFlags, backing_id: u32, r: Response)
    requires
        call_ensures(Response::new_open, (fh, flags, backing_id), r),
    ensures
        r is Data,
        r.payload().len() == 16,
        u64_at(r.payload(), 0) == fh.0,
        u32_at(r.payload(), 8) == flags.bits,
        u32_at(r.payload(), 12) == backing_id,
{
    lemma_fuse_open_out_is_written(fuse_open_out { fh: fh.0, open_flags: flags.bits, backing_id });
}

/// An answer with a lock holds its range, its type and who holds it.
pub proof fn lemma_lock_answer(lock: Lock, r: Response)
    requires
        call_ensures(Response::new_lock, (&lock,), r),
    ensures
        r is Data,
        r.payload().len() == 24,
        u64_at(r.payload(), 0) == lock.range.0,
        u64_at(r.payload(), 8) == lock.range.1,
        i32_at(r.payload(), 16) == lock.typ,
        u32_at(r.payload(), 20) == lock.pid,
{
    lemma_fuse_lk_out_is_written(fuse_lk_out { lk: fuse_file_lock { start: lock.range.0,
        end: lock.range.1, typ: lock.typ, pid: lock.pid } });
}

/// An answer with a block holds its number.
pub proof fn lemma_bmap_answer(block: u64, r: Response)
    requires
        call_ensures(Response::new_bmap, (block,), r),
    ensures
        r is Data,
        r.payload().len() == 8,
        u64_at(r.payload(), 0) == block,
{
    lemma_fuse_bmap_out_is_written(fuse_bmap_out { block });
}

/// An answer to a write says how much was written.
pub proof fn lemma_write_answer(written: u32, r: Response)
    requires
        call_ensures(Response::new_write, (written,), r),
    ensures
        r is Data,
        r.payload().len() == 8,
        u32_at(r.payload(), 0) == written,
        u32_at(r.payload(), 4) == 0,
{
    lemma_fuse_write_out_is_written(fuse_write_out { size: written, padding: 0 });
}

/// An answer with pending events holds them.
pub proof fn lemma_poll_answer(revents: PollEvents, r: Response)
    requires
        call_ensures(Response::new_poll, (revents,), r),
    ensures
        r is Data,
        r.payload().len() == 8,
        u32_at(r.payload(), 0) == revents.bits,
        u32_at(r.payload(), 4) == 0,
{
    lemma_fuse_poll_out_is_written(fuse_poll_out { revents: revents.bits, padding: 0 });
}

/// An answer with the size of an attribute holds it.
pub proof fn lemma_xattr_size_answer(size: u32, r: Response)
    requires
        call_ensures(Response::new_xattr_size, (size,), r),
    ensures
        r is Data,
        r.payload().len() == 8,
        u32_at(r.payload(), 0) == size,
        u32_at(r.payload(), 4) == 0,
{
    lemma_fuse_getxattr_out_is_written(fuse_getxattr_out { size, padding: 0 });
}

/// An answer with an offset holds it.
pub proof fn lemma_lseek_answer(offset: i64, r: Response)
    requires
        call_ensures(Response::new_lseek, (offset,), r),
    ensures
        r is Data,
        r.payload().len() == 8,
        i64_at(r.payload(), 0) == offset,
{
    lemma_fuse_lseek_out_is_written(fuse_lseek_out { offset });
}

/// An answer with the figures of a filesystem holds each of them.
pub proof fn lemma_statfs_answer(
    blocks: u64,
    bfree: u64,
    bavail: u64,
    files: u64,
    ffree: u64,
    bsize: u32,
    namelen: u32,
    frsize: u32,
    r: Response,
)
    requires
        call_ensures(
            Response::new_statfs,
            (blocks, bfree, bavail, files, ffree, bsize, namelen, frsize),
            r,
        ),
    ensures
        r is Data,
        r.payload().len() == 80,
        u64_at(r.payload(), 0) == blocks,
        u64_at(r.payload(), 8) == bfree,
        u64_at(r.payload(), 16) == bavail,
        u64_at(r.payload(), 24) == files,
        u64_at(r.payload(), 32) == ffree,
        u32_at(r.payload(), 40) == bsize,
        u32_at(r.payload(), 44) == namelen,
        u32_at(r.payload(), 48) == frsize,
{
    lemma_fuse_statfs_out_is_written(fuse_statfs_out { st: fuse_kstatfs { blocks, bfree, bavail,
        files, ffree, bsize, namelen, frsize, padding: 0, spare: [0, 0, 0, 0, 0, 0] } });
}

/// An answer to a control operation holds its result, and behind that the data that it gives.
pub proof fn lemma_ioctl_answer(result: i32, data: &[&[u8]], r: Response)
    requires
        call_ensures(Response::new_ioctl, (result, data), r),
    ensures
        r is Data,
        i32_at(r.payload(), 0) == result,
        r.payload().skip(16) == joined(slices_of(data@)),
        u32_at(r.payload(), 12) == (if data@.len() > 0 { 1u32 } else { 0u32 }),
{
    let out = fuse_ioctl_out {
        result,
        flags: 0,
        in_iovs: 1,
        out_iovs: if data@.len() > 0 {
            1
        } else {
            0
        },
    };
    lemma_fuse_ioctl_out_is_written(out);
    let b = r.payload();
    assert(b.subrange(0, 16) =~= out.spec_bytes());
    lemma_within(b, 0, out.spec_bytes());
    assert(i32_at(out.spec_bytes(), 0) == i32_at(b, 0));
    assert(u32_at(out.spec_bytes(), 12) == u32_at(b, 12));
    assert(b.skip(16) =~= joined(slices_of(data@)));
}

/// What is sent for a request begins with the length of it all, the error as a negative number or
/// zero, and the number of the request, and ends with the data.
pub proof fn lemma_answer_is_framed(response: Response, unique: RequestId)
    requires
        response.wf(),
    ensures
        u32_at(joined(response.spec_iovec(unique)), 0) == joined(response.spec_iovec(unique)).len(),
        i32_at(joined(response.spec_iovec(unique)), 4) == (match response {
            Response::Error(Some(errno)) => -errno.0,
            _ => 0int,
        }),
        u64_at(joined(response.spec_iovec(unique)), 8) == unique.0,
        joined(response.spec_iovec(unique)).skip(16) == (match response {
            Response::Error(_) => Seq::<u8>::empty(),
            Response::Data(data) => data@,
            Response::Slice(data) => data@,
        }),
{
    let iov = response.spec_iovec(unique);
    let head = response.spec_header(unique);
    let header = head.spec_bytes();
    lemma_fuse_out_header_is_written(head);
    reveal_with_fuel(joined, 3);
    if response is Error {
        assert(iov.drop_last() =~= Seq::<Seq<u8>>::empty());
        assert(joined(iov) =~= header);
    } else {
        assert(iov.drop_last() =~= seq![header]);
        assert(seq![header].drop_last() =~= Seq::<Seq<u8>>::empty());
        assert(joined(iov) =~= header + response.payload());
    }
    let b = joined(iov);
    assert(b.subrange(0, 16) =~= header);
    lemma_within(b, 0, header);
    assert(u32_at(header, 0) == u32_at(b, 0));
    assert(i32_at(header, 4) == i32_at(b, 4));
    assert(u64_at(header, 8) == u64_at(b, 8));
    assert(b.skip(16) =~= response.payload());
}

/// What a filesystem answers to a lookup is sent as an inode whose name and attributes are valid
/// for the same time.
pub proof fn lemma_lookup_is_answered(found: reply_async::lookup::LookupResponse, r: Response)
    requires
        call_ensures(reply_async::lookup::LookupResponse::payload, (&found,), r),
        found.attr.atime.nanos < 1_000_000_000,
        found.attr.mtime.nanos < 1_000_000_000,
        found.attr.ctime.nanos < 1_000_000_000,
    ensures
        r is Data,
        r.payload().len() == 128,
        u64_at(r.payload(), 0) == found.attr.ino.0,
        u64_at(r.payload(), 8) == found.generation.0,
        u64_at(r.payload(), 16) == found.ttl.secs,
        u64_at(r.payload(), 24) == found.ttl.secs,
        u32_at(r.payload(), 32) == found.ttl.nanos,
        u32_at(r.payload(), 36) == found.ttl.nanos,
        u64_at(r.payload(), 40) == found.attr.ino.0,
        u64_at(r.payload(), 48) == found.attr.size,
        u64_at(r.payload(), 56) == found.attr.blocks,
        stands_for(i64_at(r.payload(), 64), u32_at(r.payload(), 88), found.attr.atime),
        stands_for(i64_at(r.payload(), 72), u32_at(r.payload(), 92), found.attr.mtime),
        stands_for(i64_at(r.payload(), 80), u32_at(r.payload(), 96), found.attr.ctime),
        u32_at(r.payload(), 100) == mode_of(found.attr.kind, found.attr.perm),
        u32_at(r.payload(), 104) == found.attr.nlink,
        u32_at(r.payload(), 108) == found.attr.uid,
        u32_at(r.payload(), 112) == found.attr.gid,
        u32_at(r.payload(), 116) == found.attr.rdev,
        u32_at(r.payload(), 120) == found.attr.blksize,
{
    let f = choose|f: fuse_attr| #[trigger]
        attr_matches(found.attr, f) && r.payload() == (fuse_entry_out {
            nodeid: found.attr.ino.0,
            generation: found.generation.0,
            entry_valid: found.ttl.secs,
            attr_valid: found.ttl.secs,
            entry_valid_nsec: found.ttl.nanos,
            attr_valid_nsec: found.ttl.nanos,
            attr: f,
        }).spec_bytes();
    lemma_described(found.attr, f);
    lemma_fuse_entry_out_is_written(
        fuse_entry_out {
            nodeid: found.attr.ino.0,
            generation: found.generation.0,
            entry_valid: found.ttl.secs,
            attr_valid: found.ttl.secs,
            entry_valid_nsec: found.ttl.nanos,
            attr_valid_nsec: found.ttl.nanos,
            attr: f,
        },
    );
}

/// What a filesystem answers to a request for attributes is sent as that.
pub proof fn lemma_getattr_is_answered(found: reply_async::getattr::GetAttrResponse, r: Response)
    requires
        call_ensures(reply_async::getattr::GetAttrResponse::payload, (&found,), r),
        found.attr.atime.nanos < 1_000_000_000,
        found.attr.mtime.nanos < 1_000_000_000,
        found.attr.ctime.nanos < 1_000_000_000,
    ensures
        r is Data,
        r.payload().len() == 104,
        u64_at(r.payload(), 0) == found.ttl.secs,
        u32_at(r.payload(), 8) == found.ttl.nanos,
        u64_at(r.payload(), 16) == found.attr.ino.0,
        u64_at(r.payload(), 24) == found.attr.size,
        u64_at(r.payload(), 32) == found.attr.blocks,
        stands_for(i64_at(r.payload(), 40), u32_at(r.payload(), 64), found.attr.atime),
        stands_for(i64_at(r.payload(), 48), u32_at(r.payload(), 68), found.attr.mtime),
        stands_for(i64_at(r.payload(), 56), u32_at(r.payload(), 72), found.attr.ctime),
        u32_at(r.payload(), 76) == mode_of(found.attr.kind, found.attr.perm),
        u32_at(r.payload(), 80) == found.attr.nlink,
        u32_at(r.payload(), 84) == found.attr.uid,
        u32_at(r.payload(), 88) == found.attr.gid,
        u32_at(r.payload(), 92) == found.attr.rdev,
        u32_at(r.payload(), 96) == found.attr.blksize,
{
    let f = choose|f: fuse_attr| #[trigger]
        attr_matches(found.attr, f) && r.payload() == (fuse_attr_out {
            attr_valid: found.ttl.secs,
            attr_valid_nsec: found.ttl.nanos,
            dummy: 0,
            attr: f,
        }).spec_bytes();
    lemma_described(found.attr, f);
    lemma_fuse_attr_out_is_written(
        fuse_attr_out {
            attr_valid: found.ttl.secs,
            attr_valid_nsec: found.ttl.nanos,
            dummy: 0,
            attr: f,
        },
    );
}

/// What comes of a lookup that is answered apart from the session is the same, or the error.
pub proof fn lemma_lookup_reply_says(answer: Result<experimental::LookupResponse, Errno>,
    r: Response)
    requires
        call_ensures(experimental::lookup_reply, (answer,), r),
        answer matches Ok(found) ==> found.attr.atime.nanos < 1_000_000_000
            && found.attr.mtime.nanos < 1_000_000_000 && found.attr.ctime.nanos < 1_000_000_000,
    ensures
        answer matches Ok(found) ==> {
            &&& r is Data
            &&& r.payload().len() == 128
            &&& u64_at(r.payload(), 0) == found.attr.ino.0
            &&& u64_at(r.payload(), 8) == found.generation.0
            &&& u64_at(r.payload(), 16) == found.ttl.secs
            &&& u64_at(r.payload(), 24) == found.ttl.secs
            &&& u32_at(r.payload(), 32) == found.ttl.nanos
            &&& u32_at(r.payload(), 36) == found.ttl.nanos
            &&& u64_at(r.payload(), 40) == found.attr.ino.0
            &&& u64_at(r.payload(), 48) == found.attr.size
            &&& u64_at(r.payload(), 56) == found.attr.blocks
            &&& stands_for(i64_at(r.payload(), 64), u32_at(r.payload(), 88), found.attr.atime)
            &&& stands_for(i64_at(r.payload(), 72), u32_at(r.payload(), 92), found.attr.mtime)
            &&& stands_for(i64_at(r.payload(), 80), u32_at(r.payload(), 96), found.attr.ctime)
            &&& u32_at(r.payload(), 100) == mode_of(found.attr.kind, found.attr.perm)
            &&& u32_at(r.payload(), 104) == found.attr.nlink
            &&& u32_at(r.payload(), 108) == found.attr.uid
            &&& u32_at(r.payload(), 112) == found.attr.gid
            &&& u32_at(r.payload(), 116) == found.attr.rdev
            &&& u32_at(r.payload(), 120) == found.attr.blksize
        },
        answer matches Err(e) ==> r == Response::Error(Some(e)),
{
    if let Ok(found) = answer {
        let f = choose|f: fuse_attr| #[trigger]
            attr_matches(found.attr, f) && r.payload() == (fuse_entry_out {
                    nodeid: found.attr.ino.0,
                    generation: found.generation.0,
                    entry_valid: found.ttl.secs,
                    attr_valid: found.ttl.secs,
                    entry_valid_nsec: found.ttl.nanos,
                    attr_valid_nsec: found.ttl.nanos,
                    attr: f,
                }).spec_bytes();
        lemma_described(found.attr, f);
        lemma_fuse_entry_out_is_written(fuse_entry_out {
                    nodeid: found.attr.ino.0,
                    generation: found.generation.0,
                    entry_valid: found.ttl.secs,
                    attr_valid: found.ttl.secs,
                    entry_valid_nsec: found.ttl.nanos,
                    attr_valid_nsec: found.ttl.nanos,
                    attr: f,
                });
    }
}

/// What comes of a request for attributes that is answered apart from the session is the same, or
/// the error.
pub proof fn lemma_getattr_reply_says(answer: Result<experimental::GetAttrResponse, Errno>,
    r: Response)
    requires
        call_ensures(experimental::getattr_reply, (answer,), r),
        answer matches Ok(found) ==> found.attr.atime.nanos < 1_000_000_000
            && found.attr.mtime.nanos < 1_000_000_000 && found.attr.ctime.nanos < 1_000_000_000,
    ensures
        answer matches Ok(found) ==> {
            &&& r is Data
            &&& r.payload().len() == 104
            &&& u64_at(r.payload(), 0) == found.ttl.secs
            &&& u32_at(r.payload(), 8) == found.ttl.nanos
            &&& u64_at(r.payload(), 16) == found.attr.ino.0
            &&& u64_at(r.payload(), 24) == found.attr.size
            &&& u64_at(r.payload(), 32) == found.attr.blocks
            &&& stands_for(i64_at(r.payload(), 40), u32_at(r.payload(), 64), found.attr.atime)
            &&& stands_for(i64_at(r.payload(), 48), u32_at(r.payload(), 68), found.attr.mtime)
            &&& stands_for(i64_at(r.payload(), 56), u32_at(r.payload(), 72), found.attr.ctime)
            &&& u32_at(r.payload(), 76) == mode_of(found.attr.kind, found.attr.perm)
            &&& u32_at(r.payload(), 80) == found.attr.nlink
            &&& u32_at(r.payload(), 84) == found.attr.uid
            &&& u32_at(r.payload(), 88) == found.attr.gid
            &&& u32_at(r.payload(), 92) == found.attr.rdev
            &&& u32_at(r.payload(), 96) == found.attr.blksize
        },
        answer matches Err(e) ==> r == Response::Error(Some(e)),
{
    if let Ok(found) = answer {
        let f = choose|f: fuse_attr| #[trigger]
            attr_matches(found.attr, f) && r.payload() == (fuse_attr_out {
                    attr_valid: found.ttl.secs,
                    attr_valid_nsec: found.ttl.nanos,
                    dummy: 0,
                    attr: f,
                }).spec_bytes();
        lemma_described(found.attr, f);
        lemma_fuse_attr_out_is_written(fuse_attr_out {
                    attr_valid: found.ttl.secs,
                    attr_valid_nsec: found.ttl.nanos,
                    dummy: 0,
                    attr: f,
                });
    }
}

/// An entry that was added to a directory stands behind those before it: the number of its inode,
/// the position that the kernel goes on from, the length of its name, its kind, its name, and zero
/// bytes up to a multiple of eight. One for which there is no room changes nothing.
pub proof fn lemma_entry_is_added(before: EntListBuf, entry: DirEntry, after: EntListBuf)
    requires
        before.buf@.len() % 8 == 0,
        entry.name@.len() <= u32::MAX,
        EntListBuf::pushed(before, entry.spec_bytes(), after),
    ensures
        ({
            let at = before.buf@.len() as int;
            let size = 24 + entry.name@.len();
            let end = at + (size + 7) / 8 * 8;
            if end > before.max_size {
                after == before
            } else {
                &&& after.max_size == before.max_size
                &&& after.buf@.len() == end
                &&& after.buf@.len() % 8 == 0
                &&& after.buf@.take(at) == before.buf@
                &&& u64_at(after.buf@, at) == entry.ino.0
                &&& u64_at(after.buf@, at + 8) == entry.offset.0
                &&& u32_at(after.buf@, at + 16) == entry.name@.len()
                &&& u32_at(after.buf@, at + 20) == (match entry.kind {
                    FileType::NamedPipe => 1u32,
                    FileType::CharDevice => 2u32,
                    FileType::Directory => 4u32,
                    FileType::BlockDevice => 6u32,
                    FileType::RegularFile => 8u32,
                    FileType::Symlink => 10u32,
                    FileType::Socket => 12u32,
                })
                &&& after.buf@.subrange(at + 24, at + size) == entry.name@
                &&& forall|k: int| at + size <= k < end ==> after.buf@[k] == 0
            }
        }),
{
    let at = before.buf@.len() as int;
    let size = 24 + entry.name@.len();
    let end = at + (size + 7) / 8 * 8;
    let d = fuse_dirent {
        ino: entry.ino.0,
        off: entry.offset.0,
        namelen: entry.name@.len() as u32,
        typ: crate::ll::reply::dirent_type(entry.kind),
    };
    lemma_fuse_dirent_is_written(d);
    assert(entry.spec_bytes() =~= d.spec_bytes() + entry.name@);
    if end <= before.max_size {
        let b = after.buf@;
        assert(b.take(at) =~= before.buf@);
        assert(b.subrange(at, at + 24) =~= d.spec_bytes());
        lemma_within(b, at, d.spec_bytes());
        assert(u64_at(d.spec_bytes(), 0) == u64_at(b, at));
        assert(u64_at(d.spec_bytes(), 8) == u64_at(b, at + 8));
        assert(u32_at(d.spec_bytes(), 16) == u32_at(b, at + 16));
        assert(u32_at(d.spec_bytes(), 20) == u32_at(b, at + 20));
        assert(b.subrange(at + 24, at + size) =~= entry.name@);
    }
}

/// An entry that was added to a directory with its attributes stands behind those before it: its
/// inode, how long its name and how long its attributes are valid, its attributes, the position
/// that the kernel goes on from, its name, and zero bytes up to a multiple of eight.
#[verifier::rlimit(40)]
pub proof fn lemma_entry_plus_is_added(before: EntListBuf, entry: DirEntryPlus, after: EntListBuf)
    requires
        before.buf@.len() % 8 == 0,
        entry.name@.len() <= u32::MAX,
        EntListBuf::pushed(before, entry.spec_bytes(), after),
    ensures
        ({
            let at = before.buf@.len() as int;
            let size = 152 + entry.name@.len();
            let end = at + (size + 7) / 8 * 8;
            if end > before.max_size {
                after == before
            } else {
                &&& after.max_size == before.max_size
                &&& after.buf@.len() == end
                &&& after.buf@.take(at) == before.buf@
                &&& u64_at(after.buf@, at) == entry.attr.attr.ino
                &&& u64_at(after.buf@, at + 8) == entry.generation.0
                &&& u64_at(after.buf@, at + 16) == entry.entry_valid.secs
                &&& u64_at(after.buf@, at + 24) == entry.attr_valid.secs
                &&& u32_at(after.buf@, at + 32) == entry.entry_valid.nanos
                &&& u32_at(after.buf@, at + 36) == entry.attr_valid.nanos
                &&& u64_at(after.buf@, at + 40) == entry.attr.attr.ino
                &&& u64_at(after.buf@, at + 48) == entry.attr.attr.size
                &&& u64_at(after.buf@, at + 56) == entry.attr.attr.blocks
                &&& i64_at(after.buf@, at + 64) == entry.attr.attr.atime
                &&& i64_at(after.buf@, at + 72) == entry.attr.attr.mtime
                &&& i64_at(after.buf@, at + 80) == entry.attr.attr.ctime
                &&& u32_at(after.buf@, at + 88) == entry.attr.attr.atimensec
                &&& u32_at(after.buf@, at + 92) == entry.attr.attr.mtimensec
                &&& u32_at(after.buf@, at + 96) == entry.attr.attr.ctimensec
                &&& u32_at(after.buf@, at + 100) == entry.attr.attr.mode
                &&& u32_at(after.buf@, at + 104) == entry.attr.attr.nlink
                &&& u32_at(after.buf@, at + 108) == entry.attr.attr.uid
                &&& u32_at(after.buf@, at + 112) == entry.attr.attr.gid
                &&& u32_at(after.buf@, at + 116) == entry.attr.attr.rdev
                &&& u32_at(after.buf@, at + 120) == entry.attr.attr.blksize
                &&& u64_at(after.buf@, at + 128) == entry.attr.attr.ino
                &&& u64_at(after.buf@, at + 136) == entry.offset.0
                &&& u32_at(after.buf@, at + 144) == entry.name@.len()
                &&& u32_at(after.buf@, at + 148) == entry.attr.attr.mode >> 12
                &&& after.buf@.subrange(at + 152, at + size) == entry.name@
                &&& forall|k: int| at + size <= k < end ==> after.buf@[k] == 0
            }
        }),
{
    let at = before.buf@.len() as int;
    let size = 152 + entry.name@.len();
    let end = at + (size + 7) / 8 * 8;
    let d = entry.spec_header();
    lemma_fuse_direntplus_is_written(d);
    assert(entry.spec_bytes() =~= d.spec_bytes() + entry.name@);
    if end <= before.max_size {
        let b = after.buf@;
        assert(b.take(at) =~= before.buf@);
        assert(b.subrange(at, at + 152) =~= d.spec_bytes());
        lemma_within(b, at, d.spec_bytes());
        assert(u64_at(d.spec_bytes(), 0) == u64_at(b, at + 0));
        assert(u64_at(d.spec_bytes(), 8) == u64_at(b, at + 8));
        assert(u64_at(d.spec_bytes(), 16) == u64_at(b, at + 16));
        assert(u64_at(d.spec_bytes(), 24) == u64_at(b, at + 24));
        assert(u32_at(d.spec_bytes(), 32) == u32_at(b, at + 32));
        assert(u32_at(d.spec_bytes(), 36) == u32_at(b, at + 36));
        assert(u64_at(d.spec_bytes(), 40) == u64_at(b, at + 40));
        assert(u64_at(d.spec_bytes(), 48) == u64_at(b, at + 48));
        assert(u64_at(d.spec_bytes(), 56) == u64_at(b, at + 56));
        assert(i64_at(d.spec_bytes(), 64) == i64_at(b, at + 64));
        assert(i64_at(d.spec_bytes(), 72) == i64_at(b, at + 72));
        assert(i64_at(d.spec_bytes(), 80) == i64_at(b, at + 80));
        assert(u32_at(d.spec_bytes(), 88) == u32_at(b, at + 88));
        assert(u32_at(d.spec_bytes(), 92) == u32_at(b, at + 92));
        assert(u32_at(d.spec_bytes(), 96) == u32_at(b, at + 96));
        assert(u32_at(d.spec_bytes(), 100) == u32_at(b, at + 100));
        assert(u32_at(d.spec_bytes(), 104) == u32_at(b, at + 104));
        assert(u32_at(d.spec_bytes(), 108) == u32_at(b, at + 108));
        assert(u32_at(d.spec_bytes(), 112) == u32_at(b, at + 112));
        assert(u32_at(d.spec_bytes(), 116) == u32_at(b, at + 116));
        assert(u32_at(d.spec_bytes(), 120) == u32_at(b, at + 120));
        assert(u64_at(d.spec_bytes(), 128) == u64_at(b, at + 128));
        assert(u64_at(d.spec_bytes(), 136) == u64_at(b, at + 136));
        assert(u32_at(d.spec_bytes(), 144) == u32_at(b, at + 144));
        assert(u32_at(d.spec_bytes(), 148) == u32_at(b, at + 148));
        assert(b.subrange(at + 152, at + size) =~= entry.name@);
    }
}

/// How long an entry is valid and how long its attributes are is told apart, in seconds and in
/// nanoseconds.
pub proof fn lemma_lifetimes_are_told_apart(entry: DirEntryPlus)
    ensures
        entry.spec_bytes().subrange(16, 24) == u64_bytes(entry.entry_valid.secs),
        entry.spec_bytes().subrange(24, 32) == u64_bytes(entry.attr_valid.secs),
        entry.spec_bytes().subrange(32, 36) == u32_bytes(entry.entry_valid.nanos),
        entry.spec_bytes().subrange(36, 40) == u32_bytes(entry.attr_valid.nanos),
{
    broadcast use group_lengths;

    let d = entry.spec_header();
    let b = entry.spec_bytes();
    lemma_fuse_direntplus_is_written(d);
    assert(b.subrange(0, 128) =~= d.entry_out.spec_bytes());
    assert(b.subrange(16, 24) =~= u64_bytes(d.entry_out.entry_valid));
    assert(b.subrange(24, 32) =~= u64_bytes(d.entry_out.attr_valid));
    assert(b.subrange(32, 36) =~= u32_bytes(d.entry_out.entry_valid_nsec));
    assert(b.subrange(36, 40) =~= u32_bytes(d.entry_out.attr_valid_nsec));
}

/// The numbers by which notifications are told apart.
pub proof fn lemma_notify_numbers(code: fuse_notify_code)
    ensures
        code.spec_number() == 1 <==> code is FUSE_POLL,
        code.spec_number() == 2 <==> code is FUSE_NOTIFY_INVAL_INODE,
        code.spec_number() == 3 <==> code is FUSE_NOTIFY_INVAL_ENTRY,
        code.spec_number() == 4 <==> code is FUSE_NOTIFY_STORE,
        code.spec_number() == 5 <==> code is FUSE_NOTIFY_RETRIEVE,
        code.spec_number() == 6 <==> code is FUSE_NOTIFY_DELETE,
        code.spec_number() == 8 <==> code is FUSE_NOTIFY_INC_EPOCH,
{
}

/// What is sent as a notification begins with the length of it all, its number in place of an
/// error, and zero in place of a request, and goes on with what it says. A name has a zero byte
/// behind it.
pub proof fn lemma_notification_is_framed(notification: Notification, code: fuse_notify_code)
    requires
        16 + notification.head@.len() + notification.data@.len() + 1 <= u32::MAX,
    ensures
        u32_at(joined(notification.spec_iovec(code)), 0) == joined(
            notification.spec_iovec(code),
        ).len(),
        i32_at(joined(notification.spec_iovec(code)), 4) == code.spec_number(),
        u64_at(joined(notification.spec_iovec(code)), 8) == 0,
        joined(notification.spec_iovec(code)).skip(16) == notification.head@ + notification.data@
            + (if notification.terminated {
            seq![0u8]
        } else {
            Seq::<u8>::empty()
        }),
{
    let iov = notification.spec_iovec(code);
    let head = notification.spec_header(code);
    let header = head.spec_bytes();
    lemma_fuse_out_header_is_written(head);
    lemma_notify_numbers(code);
    reveal_with_fuel(joined, 5);
    let b = joined(iov);
    let none = Seq::<Seq<u8>>::empty();
    if notification.terminated {
        assert(iov.drop_last() =~= seq![header, notification.head@, notification.data@]);
        assert(iov.drop_last().drop_last() =~= seq![header, notification.head@]);
    } else if notification.data@.len() > 0 {
        assert(iov.drop_last() =~= seq![header, notification.head@]);
    } else {
        assert(iov =~= seq![header, notification.head@]);
    }
    assert(seq![header, notification.head@].drop_last() =~= seq![header]);
    assert(seq![header].drop_last() =~= none);
    assert(joined(none) =~= Seq::<u8>::empty());
    assert(joined(seq![header]) =~= header);
    assert(joined(seq![header, notification.head@]) =~= header + notification.head@);
    assert(b =~= header + (notification.head@ + notification.data@ + (if notification.terminated {
        seq![0u8]
    } else {
        Seq::<u8>::empty()
    })));
    assert(b.subrange(0, 16) =~= header);
    lemma_within(b, 0, header);
    assert(u32_at(header, 0) == u32_at(b, 0));
    assert(i32_at(header, 4) == i32_at(b, 4));
    assert(u64_at(header, 8) == u64_at(b, 8));
    assert(b.skip(16) =~= notification.head@ + notification.data@ + (if notification.terminated {
        seq![0u8]
    } else {
        Seq::<u8>::empty()
    }));
}

/// A notification that a poll is ready holds the handle of the poll.
pub proof fn lemma_poll_notification(notifier: Notifier, kh: PollHandle, r: Outgoing)
    requires
        call_ensures(Notifier::poll, (&notifier, kh), r),
    ensures
        r.code.spec_number() == 1,
        r.notification.head@.len() == 8,
        u64_at(r.notification.head@, 0) == kh.0,
        r.notification.data@.len() == 0,
        !r.notification.terminated,
        !r.ignore_not_found,
{
    lemma_fuse_notify_poll_wakeup_out_is_written(fuse_notify_poll_wakeup_out { kh: kh.0 });
}

/// A notification that an inode is stale names it and the range that is. That the kernel does not
/// know it is no error.
pub proof fn lemma_inval_inode_notification(notifier: Notifier, ino: INodeNo, offset: i64, len: i64,
    r: Outgoing)
    requires
        call_ensures(Notifier::inval_inode, (&notifier, ino, offset, len), r),
    ensures
        r.code.spec_number() == 2,
        r.notification.head@.len() == 24,
        u64_at(r.notification.head@, 0) == ino.0,
        i64_at(r.notification.head@, 8) == offset,
        i64_at(r.notification.head@, 16) == len,
        r.notification.data@.len() == 0,
        !r.notification.terminated,
        r.ignore_not_found,
{
    lemma_fuse_notify_inval_inode_out_is_written(
        fuse_notify_inval_inode_out { ino: ino.0, off: offset, len },
    );
}

/// A notification that an entry is stale names its directory and the entry.
pub proof fn lemma_inval_entry_notification(notifier: Notifier, parent: INodeNo, name: &[u8],
    r: Result<Outgoing, NotifyError>)
    requires
        call_ensures(Notifier::inval_entry, (&notifier, parent, name), r),
    ensures
        r is Ok <==> name@.len() <= u32::MAX,
        r matches Ok(m) ==> {
            &&& m.code.spec_number() == 3
            &&& m.notification.head@.len() == 16
            &&& u64_at(m.notification.head@, 0) == parent.0
            &&& u32_at(m.notification.head@, 8) == name@.len()
            &&& u32_at(m.notification.head@, 12) == 0
            &&& m.notification.data@ == name@
            &&& m.notification.terminated
            &&& m.ignore_not_found
        },
        r matches Err(e) ==> e is TooBig,
{
    if r is Ok {
        lemma_fuse_notify_inval_entry_out_is_written(fuse_notify_inval_entry_out { parent: parent.0,
            namelen: name@.len() as u32, padding: 0 });
    }
}

/// A notification that holds data names the inode that it is of and where it begins.
pub proof fn lemma_store_notification(notifier: Notifier, ino: INodeNo, offset: u64, data: &[u8],
    r: Result<Outgoing, NotifyError>)
    requires
        call_ensures(Notifier::store, (&notifier, ino, offset, data), r),
    ensures
        r is Ok <==> data@.len() <= u32::MAX,
        r matches Ok(m) ==> {
            &&& m.code.spec_number() == 4
            &&& m.notification.head@.len() == 24
            &&& u64_at(m.notification.head@, 0) == ino.0
            &&& u64_at(m.notification.head@, 8) == offset
            &&& u32_at(m.notification.head@, 16) == data@.len()
            &&& u32_at(m.notification.head@, 20) == 0
            &&& m.notification.data@ == data@
            &&& !m.notification.terminated
            &&& m.ignore_not_found
        },
        r matches Err(e) ==> e is TooBig,
{
    if r is Ok {
        lemma_fuse_notify_store_out_is_written(fuse_notify_store_out { nodeid: ino.0, offset,
            size: data@.len() as u32, padding: 0 });
    }
}

/// A notification that an entry is gone names its directory, what it led to, and the entry.
pub proof fn lemma_delete_notification(notifier: Notifier, parent: INodeNo, child: INodeNo,
    name: &[u8], r: Result<Outgoing, NotifyError>)
    requires
        call_ensures(Notifier::delete, (&notifier, parent, child, name), r),
    ensures
        r is Ok <==> name@.len() <= u32::MAX,
        r matches Ok(m) ==> {
            &&& m.code.spec_number() == 6
            &&& m.notification.head@.len() == 24
            &&& u64_at(m.notification.head@, 0) == parent.0
            &&& u64_at(m.notification.head@, 8) == child.0
            &&& u32_at(m.notification.head@, 16) == name@.len()
            &&& u32_at(m.notification.head@, 20) == 0
            &&& m.notification.data@ == name@
            &&& m.notification.terminated
            &&& m.ignore_not_found
        },
        r matches Err(e) ==> e is TooBig,
{
    if r is Ok {
        lemma_fuse_notify_delete_out_is_written(fuse_notify_delete_out { parent: parent.0,
            child: child.0, namelen: name@.len() as u32, padding: 0 });
    }
}

/// An entry is expired by the same notification as one that is stale, with a flag, and only where
/// the kernel offers that: bit 35 of what it offers.
pub proof fn lemma_expire_entry_notification(
    notifier: Notifier,
    parent: INodeNo,
    name: &[u8],
    r: Result<Outgoing, NotifyError>,
)
    requires
        call_ensures(Notifier::expire_entry, (&notifier, parent, name), r),
    ensures
        r is Ok <==> notifier.kernel_capabilities.bits & 0x8_0000_0000 != 0 && name@.len()
            <= u32::MAX,
        r matches Err(NotifyError::NotSupported) <==> notifier.kernel_capabilities.bits
            & 0x8_0000_0000 == 0,
        r matches Ok(m) ==> {
            &&& m.code.spec_number() == 3
            &&& m.notification.head@.len() == 16
            &&& u64_at(m.notification.head@, 0) == parent.0
            &&& u32_at(m.notification.head@, 8) == name@.len()
            &&& u32_at(m.notification.head@, 12) == 1
            &&& m.notification.data@ == name@
            &&& m.notification.terminated
            &&& m.ignore_not_found
        },
{
    let bits = notifier.kernel_capabilities.bits;
    assert(bits & 0x8_0000_0000 == 0x8_0000_0000 || bits & 0x8_0000_0000 == 0) by (bit_vector);
    if r is Ok {
        lemma_fuse_notify_inval_entry_out_is_written(
            fuse_notify_inval_entry_out {
                parent: parent.0,
                namelen: name@.len() as u32,
                padding: 1,
            },
        );
    }
}

/// An entry holds what it is made of: how long the entry and how long its attributes are valid are
/// told apart.
pub proof fn lemma_entry_is_made<'a>(
    ino: INodeNo,
    generation: Generation,
    offset: DirEntOffset,
    name: &'a [u8],
    entry_valid: Duration,
    attr: Attr,
    attr_valid: Duration,
    r: DirEntryPlus<'a>,
)
    requires
        call_ensures(
            DirEntryPlus::new,
            (ino, generation, offset, name, entry_valid, attr, attr_valid),
            r,
        ),
    ensures
        entry_valid == r.entry_valid,
        attr_valid == r.attr_valid,
        ino == r.ino,
        generation == r.generation,
        offset == r.offset,
        name == r.name,
        attr == r.attr,
{
}

/// The bits of a request that sets attributes tell which times are to be those of now.
pub proof fn lemma_times_of_now(x: fuse_setattr_in, atime: bool, mtime: bool)
    requires
        call_ensures(fuse_setattr_in::atime_now, (&x,), atime),
        call_ensures(fuse_setattr_in::mtime_now, (&x,), mtime),
    ensures
        atime <==> (x.valid >> 7) & 1 == 1,
        mtime <==> (x.valid >> 8) & 1 == 1,
{
    let v: u32 = x.valid;
    assert({
        &&& v & 0x80 == 0x80 <==> (v >> 7) & 1 == 1
        &&& v & 0x100 == 0x100 <==> (v >> 8) & 1 == 1
    }) by (bit_vector);
}

} // verus!
