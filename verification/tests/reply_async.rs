//! Answers that are returned, and the replies they come to.

use std::sync::Arc;

use fuser::experimental::{
    getattr_reply, lookup_reply, read_reply, readdir_reply, DirEntListBuilder, GetAttrResponse,
    LookupResponse, RequestContext,
};
use fuser::file_attr::{FileAttr, FileType};
use fuser::filesystem::Filesystem;
use fuser::ids::{Errno, FileHandle, Generation, INodeNo, LockOwner, RequestId, Version};
use fuser::kernel_config::{KernelConfig, SessionACL};
use fuser::ll::flags::init_flags::InitFlags;
use fuser::ll::fuse_abi::fuse_forget_one;
use fuser::ll::reply::{Attr, DirEntList, Response};
use fuser::ll::reply_async::getattr;
use fuser::ll::reply_async::lookup;
use fuser::ll::reply_async::read::ReadResponse;
use fuser::ll::reply_async::readdir::DirectoryResponse;
use fuser::ll::reply_async::write::WriteResponse;
use fuser::open_flags::OpenFlags;
use fuser::time::{Duration, SystemTime};

fn sent(response: Response<'_>) -> Vec<u8> {
    response.with_iovec(RequestId(1), |slices: &[&[u8]]| slices.concat())
}

fn some_attr() -> FileAttr {
    let time = SystemTime { secs: 12, nanos: 34 };
    FileAttr {
        ino: INodeNo(5),
        size: 1,
        blocks: 2,
        atime: time,
        mtime: time,
        ctime: time,
        crtime: time,
        kind: FileType::RegularFile,
        perm: 0o644,
        nlink: 3,
        uid: 4,
        gid: 5,
        rdev: 6,
        blksize: 7,
        flags: 8,
    }
}

#[test]
fn shared_slice_clamps_to_bounds() {
    let response = ReadResponse::from_shared_slice(Arc::from(&b"abcdef"[..]), 2, 99);
    assert_eq!(response.bytes(), b"cdef");
}

#[test]
fn shared_slice_handles_offset_past_end() {
    let response = ReadResponse::from_shared_slice(Arc::from(&b"abcdef"[..]), 99, 4);
    assert_eq!(response.bytes(), b"");
}

#[test]
fn shared_slice_takes_the_middle() {
    let response = ReadResponse::from_shared_slice(Arc::from(&b"abcdef"[..]), 1, 3);
    assert_eq!(response.bytes(), b"bcd");
    let response = ReadResponse::from_shared_slice(Arc::from(&b"abcdef"[..]), 1, usize::MAX);
    assert_eq!(sent(response.payload())[16..], b"bcdef"[..]);
    assert_eq!(ReadResponse::new(b"abc".to_vec()).bytes(), b"abc");
}

#[test]
fn answers_are_sent_like_replies() {
    let ttl = Duration::new(1, 2);
    let attr = some_attr();
    let expected = sent(Response::new_entry(
        INodeNo(5),
        Generation(9),
        &Attr::from(&attr),
        ttl,
        ttl,
    ));
    assert_eq!(
        sent(lookup::LookupResponse::new(ttl, attr, Generation(9)).payload()),
        expected
    );
    assert_eq!(
        sent(lookup_reply(Ok(LookupResponse::new(ttl, attr, Generation(9))))),
        expected
    );
    let expected = sent(Response::new_attr(&ttl, &Attr::from(&attr)));
    assert_eq!(sent(getattr::GetAttrResponse::new(ttl, attr).payload()), expected);
    assert_eq!(sent(getattr_reply(Ok(GetAttrResponse::new(ttl, attr)))), expected);
    assert_eq!(sent(WriteResponse::new(7).payload())[16..], [7, 0, 0, 0, 0, 0, 0, 0]);
    assert_eq!(sent(read_reply(Ok(()), b"xyz"))[16..], b"xyz"[..]);
}

#[test]
fn errors_are_sent_as_errors() {
    let expected = sent(Response::new_error(Errno(Errno::ENOENT)));
    assert_eq!(sent(lookup_reply(Err(Errno(Errno::ENOENT)))), expected);
    assert_eq!(sent(getattr_reply(Err(Errno(Errno::ENOENT)))), expected);
    assert_eq!(sent(read_reply(Err(Errno(Errno::ENOENT)), b"xyz")), expected);
    assert_eq!(
        sent(readdir_reply(Err(Errno(Errno::ENOENT)), DirEntList::new(100))),
        expected
    );
}

#[test]
fn directories_are_filled() {
    let mut response = DirectoryResponse::new(40);
    assert!(!response.add(INodeNo(1), 1, FileType::Directory, b"a"));
    assert!(response.add(INodeNo(2), 2, FileType::Directory, b"b"));
    let expected = sent(response.payload());
    assert_eq!(expected.len(), 48);

    let mut list = DirEntList::new(40);
    let mut builder = DirEntListBuilder { entries: &mut list };
    assert!(!builder.add(INodeNo(1), 1, FileType::Directory, b"a"));
    assert!(builder.add(INodeNo(2), 2, FileType::Directory, b"b"));
    assert_eq!(sent(readdir_reply(Ok(()), list)), expected);
}

/// A filesystem that does nothing but count what it is told to forget.
struct Idle {
    forgotten: std::sync::Mutex<Vec<(u64, u64)>>,
}

impl Filesystem for Idle {
    fn forget(&self, _req: &RequestContext, ino: INodeNo, nlookup: u64) {
        self.forgotten.lock().unwrap().push((ino.0, nlookup));
    }
}

#[test]
fn an_idle_filesystem_answers() {
    let req = RequestContext::new(1, 2, 3, RequestId(4));
    let mut fs = Idle { forgotten: Default::default() };
    let mut config =
        KernelConfig::new(InitFlags::all(), 65536, Version(7, 31), true, SessionACL::All);
    assert_eq!(fs.init(&req, &mut config), Ok(()));
    let enosys = sent(Response::new_error(Errno(libc::ENOSYS)));
    let eperm = sent(Response::new_error(Errno(libc::EPERM)));
    let empty = sent(Response::new_empty());
    assert_eq!(sent(fs.lookup(&req, INodeNo(1), b"x")), enosys);
    assert_eq!(sent(fs.getattr(&req, INodeNo(1), None)), enosys);
    assert_eq!(sent(fs.symlink(&req, INodeNo(1), b"x", b"y")), eperm);
    assert_eq!(sent(fs.link(&req, INodeNo(1), INodeNo(1), b"y")), eperm);
    assert_eq!(
        sent(fs.open(&req, INodeNo(1), OpenFlags(0), false))[16..],
        [0u8; 16]
    );
    assert_eq!(sent(fs.opendir(&req, INodeNo(1), OpenFlags(0)))[16..], [0u8; 16]);
    assert_eq!(
        sent(fs.release(&req, INodeNo(1), FileHandle(0), OpenFlags(0), None, false)),
        empty
    );
    assert_eq!(
        sent(fs.releasedir(&req, INodeNo(1), FileHandle(0), OpenFlags(0))),
        empty
    );
    assert_eq!(
        sent(fs.flush(&req, INodeNo(1), FileHandle(0), LockOwner(0))),
        enosys
    );
    let statfs = sent(fs.statfs(&req, INodeNo(1)));
    assert_eq!(statfs, sent(Response::new_statfs(0, 0, 0, 0, 0, 512, 255, 0)));
    fs.batch_forget(
        &req,
        &[
            fuse_forget_one { nodeid: 7, nlookup: 1 },
            fuse_forget_one { nodeid: 8, nlookup: 2 },
        ],
    );
    assert_eq!(*fs.forgotten.lock().unwrap(), vec![(7, 1), (8, 2)]);
    fs.destroy();
}
