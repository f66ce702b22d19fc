//! Replies, byte by byte.

use fuser::file_attr::{FileAttr, FileType};
use fuser::ids::{Errno, FileHandle, Generation, INodeNo, Lock, RequestId};
use fuser::ll::flags::fopen_flags::FopenFlags;
use fuser::ll::reply::{
    mode_from_kind_and_perm, Attr, DirEntList, DirEntOffset, DirEntPlusList, DirEntry, DirEntryPlus,
    Response,
};
use fuser::poll_events::PollEvents;
use fuser::time::{Duration, SystemTime};

fn ioslice_to_vec(slices: &[&[u8]]) -> Vec<u8> {
    slices.concat()
}

#[test]
fn reply_empty() {
    let r = Response::new_empty();
    assert_eq!(
        r.with_iovec(RequestId(0xdeadbeef), ioslice_to_vec),
        vec![
            0x10, 0x00, 0x00, 0x00, 0x00, 0x00, 0x00, 0x00, 0xef, 0xbe, 0xad, 0xde, 0x00, 0x00,
            0x00, 0x00,
        ],
    );
}

#[test]
fn reply_error() {
    let r = Response::new_error(Errno(66));
    assert_eq!(
        r.with_iovec(RequestId(0xdeadbeef), ioslice_to_vec),
        vec![
            0x10, 0x00, 0x00, 0x00, 0xbe, 0xff, 0xff, 0xff, 0xef, 0xbe, 0xad, 0xde, 0x00, 0x00,
            0x00, 0x00,
        ],
    );
}

#[test]
fn reply_data() {
    let r = Response::new_data([0xde, 0xad, 0xbe, 0xef].to_vec());
    assert_eq!(
        r.with_iovec(RequestId(0xdeadbeef), ioslice_to_vec),
        vec![
            0x14, 0x00, 0x00, 0x00, 0x00, 0x00, 0x00, 0x00, 0xef, 0xbe, 0xad, 0xde, 0x00, 0x00,
            0x00, 0x00, 0xde, 0xad, 0xbe, 0xef,
        ],
    );
}

#[test]
fn reply_entry() {
    let mut expected = vec![
        0x88, 0x00, 0x00, 0x00, 0x00, 0x00, 0x00, 0x00, 0xef, 0xbe, 0xad, 0xde, 0x00, 0x00,
        0x00, 0x00, 0x11, 0x00, 0x00, 0x00, 0x00, 0x00, 0x00, 0x00, 0xaa, 0x00, 0x00, 0x00,
        0x00, 0x00, 0x00, 0x00, 0x65, 0x87, 0x00, 0x00, 0x00, 0x00, 0x00, 0x00, 0x65, 0x87,
        0x00, 0x00, 0x00, 0x00, 0x00, 0x00, 0x21, 0x43, 0x00, 0x00, 0x21, 0x43, 0x00, 0x00,
        0x11, 0x00, 0x00, 0x00, 0x00, 0x00, 0x00, 0x00, 0x22, 0x00, 0x00, 0x00, 0x00, 0x00,
        0x00, 0x00, 0x33, 0x00, 0x00, 0x00, 0x00, 0x00, 0x00, 0x00, 0x34, 0x12, 0x00, 0x00,
        0x00, 0x00, 0x00, 0x00, 0x34, 0x12, 0x00, 0x00, 0x00, 0x00, 0x00, 0x00, 0x34, 0x12,
        0x00, 0x00, 0x00, 0x00, 0x00, 0x00, 0x78, 0x56, 0x00, 0x00, 0x78, 0x56, 0x00, 0x00,
        0x78, 0x56, 0x00, 0x00, 0xa4, 0x81, 0x00, 0x00, 0x55, 0x00, 0x00, 0x00, 0x66, 0x00,
        0x00, 0x00, 0x77, 0x00, 0x00, 0x00, 0x88, 0x00, 0x00, 0x00,
    ];

    expected.extend(vec![0xbb, 0x00, 0x00, 0x00, 0x00, 0x00, 0x00, 0x00]);
    expected[0] = (expected.len()) as u8;

    let time = SystemTime { secs: 0x1234, nanos: 0x5678 };
    let ttl = Duration::new(0x8765, 0x4321);
    let attr = FileAttr {
        ino: INodeNo(0x11),
        size: 0x22,
        blocks: 0x33,
        atime: time,
        mtime: time,
        ctime: time,
        crtime: time,
        kind: FileType::RegularFile,
        perm: 0o644,
        nlink: 0x55,
        uid: 0x66,
        gid: 0x77,
        rdev: 0x88,
        flags: 0x99,
        blksize: 0xbb,
    };
    let r = Response::new_entry(INodeNo(0x11), Generation(0xaa), &Attr::from(&attr), ttl, ttl);
    assert_eq!(
        r.with_iovec(RequestId(0xdeadbeef), ioslice_to_vec),
        expected
    );
}

#[test]
fn reply_attr() {
    let mut expected = vec![
        0x70, 0x00, 0x00, 0x00, 0x00, 0x00, 0x00, 0x00, 0xef, 0xbe, 0xad, 0xde, 0x00, 0x00,
        0x00, 0x00, 0x65, 0x87, 0x00, 0x00, 0x00, 0x00, 0x00, 0x00, 0x21, 0x43, 0x00, 0x00,
        0x00, 0x00, 0x00, 0x00, 0x11, 0x00, 0x00, 0x00, 0x00, 0x00, 0x00, 0x00, 0x22, 0x00,
        0x00, 0x00, 0x00, 0x00, 0x00, 0x00, 0x33, 0x00, 0x00, 0x00, 0x00, 0x00, 0x00, 0x00,
        0x34, 0x12, 0x00, 0x00, 0x00, 0x00, 0x00, 0x00, 0x34, 0x12, 0x00, 0x00, 0x00, 0x00,
        0x00, 0x00, 0x34, 0x12, 0x00, 0x00, 0x00, 0x00, 0x00, 0x00, 0x78, 0x56, 0x00, 0x00,
        0x78, 0x56, 0x00, 0x00, 0x78, 0x56, 0x00, 0x00, 0xa4, 0x81, 0x00, 0x00, 0x55, 0x00,
        0x00, 0x00, 0x66, 0x00, 0x00, 0x00, 0x77, 0x00, 0x00, 0x00, 0x88, 0x00, 0x00, 0x00,
    ];

    expected.extend_from_slice(&[0xbb, 0x00, 0x00, 0x00, 0x00, 0x00, 0x00, 0x00]);
    expected[0] = expected.len() as u8;

    let time = SystemTime { secs: 0x1234, nanos: 0x5678 };
    let ttl = Duration::new(0x8765, 0x4321);
    let attr = FileAttr {
        ino: INodeNo(0x11),
        size: 0x22,
        blocks: 0x33,
        atime: time,
        mtime: time,
        ctime: time,
        crtime: time,
        kind: FileType::RegularFile,
        perm: 0o644,
        nlink: 0x55,
        uid: 0x66,
        gid: 0x77,
        rdev: 0x88,
        flags: 0x99,
        blksize: 0xbb,
    };
    let r = Response::new_attr(&ttl, &Attr::from(&attr));
    assert_eq!(
        r.with_iovec(RequestId(0xdeadbeef), ioslice_to_vec),
        expected
    );
}

#[test]
fn reply_open() {
    let expected = vec![
        0x20, 0x00, 0x00, 0x00, 0x00, 0x00, 0x00, 0x00, 0xef, 0xbe, 0xad, 0xde, 0x00, 0x00,
        0x00, 0x00, 0x22, 0x11, 0x00, 0x00, 0x00, 0x00, 0x00, 0x00, 0x33, 0x00, 0x00, 0x00,
        0x00, 0x00, 0x00, 0x00,
    ];
    let r = Response::new_open(FileHandle(0x1122), FopenFlags::from_bits_retain(0x33), 0);
    assert_eq!(
        r.with_iovec(RequestId(0xdeadbeef), ioslice_to_vec),
        expected
    );
}

#[test]
fn reply_write() {
    let expected = vec![
        0x18, 0x00, 0x00, 0x00, 0x00, 0x00, 0x00, 0x00, 0xef, 0xbe, 0xad, 0xde, 0x00, 0x00,
        0x00, 0x00, 0x22, 0x11, 0x00, 0x00, 0x00, 0x00, 0x00, 0x00,
    ];
    let r = Response::new_write(0x1122);
    assert_eq!(
        r.with_iovec(RequestId(0xdeadbeef), ioslice_to_vec),
        expected
    );
}

#[test]
fn reply_statfs() {
    let expected = vec![
        0x60, 0x00, 0x00, 0x00, 0x00, 0x00, 0x00, 0x00, 0xef, 0xbe, 0xad, 0xde, 0x00, 0x00,
        0x00, 0x00, 0x11, 0x00, 0x00, 0x00, 0x00, 0x00, 0x00, 0x00, 0x22, 0x00, 0x00, 0x00,
        0x00, 0x00, 0x00, 0x00, 0x33, 0x00, 0x00, 0x00, 0x00, 0x00, 0x00, 0x00, 0x44, 0x00,
        0x00, 0x00, 0x00, 0x00, 0x00, 0x00, 0x55, 0x00, 0x00, 0x00, 0x00, 0x00, 0x00, 0x00,
        0x66, 0x00, 0x00, 0x00, 0x77, 0x00, 0x00, 0x00, 0x88, 0x00, 0x00, 0x00, 0x00, 0x00,
        0x00, 0x00, 0x00, 0x00, 0x00, 0x00, 0x00, 0x00, 0x00, 0x00, 0x00, 0x00, 0x00, 0x00,
        0x00, 0x00, 0x00, 0x00, 0x00, 0x00, 0x00, 0x00, 0x00, 0x00, 0x00, 0x00,
    ];
    let r = Response::new_statfs(0x11, 0x22, 0x33, 0x44, 0x55, 0x66, 0x77, 0x88);
    assert_eq!(
        r.with_iovec(RequestId(0xdeadbeef), ioslice_to_vec),
        expected
    );
}

#[test]
fn reply_create() {
    let mut expected = vec![
        0x98, 0x00, 0x00, 0x00, 0x00, 0x00, 0x00, 0x00, 0xef, 0xbe, 0xad, 0xde, 0x00, 0x00,
        0x00, 0x00, 0x11, 0x00, 0x00, 0x00, 0x00, 0x00, 0x00, 0x00, 0xaa, 0x00, 0x00, 0x00,
        0x00, 0x00, 0x00, 0x00, 0x65, 0x87, 0x00, 0x00, 0x00, 0x00, 0x00, 0x00, 0x65, 0x87,
        0x00, 0x00, 0x00, 0x00, 0x00, 0x00, 0x21, 0x43, 0x00, 0x00, 0x21, 0x43, 0x00, 0x00,
        0x11, 0x00, 0x00, 0x00, 0x00, 0x00, 0x00, 0x00, 0x22, 0x00, 0x00, 0x00, 0x00, 0x00,
        0x00, 0x00, 0x33, 0x00, 0x00, 0x00, 0x00, 0x00, 0x00, 0x00, 0x34, 0x12, 0x00, 0x00,
        0x00, 0x00, 0x00, 0x00, 0x34, 0x12, 0x00, 0x00, 0x00, 0x00, 0x00, 0x00, 0x34, 0x12,
        0x00, 0x00, 0x00, 0x00, 0x00, 0x00, 0x78, 0x56, 0x00, 0x00, 0x78, 0x56, 0x00, 0x00,
        0x78, 0x56, 0x00, 0x00, 0xa4, 0x81, 0x00, 0x00, 0x55, 0x00, 0x00, 0x00, 0x66, 0x00,
        0x00, 0x00, 0x77, 0x00, 0x00, 0x00, 0x88, 0x00, 0x00, 0x00, 0xbb, 0x00, 0x00, 0x00,
        0x00, 0x00, 0x00, 0x00, 0xcc, 0x00, 0x00, 0x00, 0x00, 0x00, 0x00, 0x00,
    ];

    let insert_at = expected.len() - 16;
    expected.splice(
        insert_at..insert_at,
        vec![0xdd, 0x00, 0x00, 0x00, 0x00, 0x00, 0x00, 0x00],
    );
    expected[0] = (expected.len()) as u8;

    let time = SystemTime { secs: 0x1234, nanos: 0x5678 };
    let ttl = Duration::new(0x8765, 0x4321);
    let attr = FileAttr {
        ino: INodeNo(0x11),
        size: 0x22,
        blocks: 0x33,
        atime: time,
        mtime: time,
        ctime: time,
        crtime: time,
        kind: FileType::RegularFile,
        perm: 0o644,
        nlink: 0x55,
        uid: 0x66,
        gid: 0x77,
        rdev: 0x88,
        flags: 0x99,
        blksize: 0xdd,
    };
    let r = Response::new_create(
        &ttl,
        &Attr::from(&attr),
        Generation(0xaa),
        FileHandle(0xbb),
        FopenFlags::from_bits_retain(0xcc),
        0,
    );
    assert_eq!(
        r.with_iovec(RequestId(0xdeadbeef), ioslice_to_vec),
        expected
    );
}

#[test]
fn reply_lock() {
    let expected = vec![
        0x28, 0x00, 0x00, 0x00, 0x00, 0x00, 0x00, 0x00, 0xef, 0xbe, 0xad, 0xde, 0x00, 0x00,
        0x00, 0x00, 0x11, 0x00, 0x00, 0x00, 0x00, 0x00, 0x00, 0x00, 0x22, 0x00, 0x00, 0x00,
        0x00, 0x00, 0x00, 0x00, 0x33, 0x00, 0x00, 0x00, 0x44, 0x00, 0x00, 0x00,
    ];
    let r = Response::new_lock(&Lock {
        range: (0x11, 0x22),
        typ: 0x33,
        pid: 0x44,
    });
    assert_eq!(
        r.with_iovec(RequestId(0xdeadbeef), ioslice_to_vec),
        expected
    );
}

#[test]
fn reply_bmap() {
    let expected = vec![
        0x18, 0x00, 0x00, 0x00, 0x00, 0x00, 0x00, 0x00, 0xef, 0xbe, 0xad, 0xde, 0x00, 0x00,
        0x00, 0x00, 0x34, 0x12, 0x00, 0x00, 0x00, 0x00, 0x00, 0x00,
    ];
    let r = Response::new_bmap(0x1234);
    assert_eq!(
        r.with_iovec(RequestId(0xdeadbeef), ioslice_to_vec),
        expected
    );
}

#[test]
fn reply_xattr_size() {
    let expected = vec![
        0x18, 0x00, 0x00, 0x00, 0x00, 0x00, 0x00, 0x00, 0xEF, 0xBE, 0xAD, 0xDE, 0x00, 0x00,
        0x00, 0x00, 0x78, 0x56, 0x34, 0x12, 0x00, 0x00, 0x00, 0x00,
    ];
    let r = Response::new_xattr_size(0x12345678);
    assert_eq!(
        r.with_iovec(RequestId(0xdeadbeef), ioslice_to_vec),
        expected
    );
}

#[test]
fn reply_xattr_data() {
    let expected = vec![
        0x14, 0x00, 0x00, 0x00, 0x00, 0x00, 0x00, 0x00, 0xEF, 0xBE, 0xAD, 0xDE, 0x00, 0x00,
        0x00, 0x00, 0x11, 0x22, 0x33, 0x44,
    ];
    let r = Response::new_data([0x11, 0x22, 0x33, 0x44].to_vec());
    assert_eq!(
        r.with_iovec(RequestId(0xdeadbeef), ioslice_to_vec),
        expected
    );
}

#[test]
fn reply_directory() {
    let expected = vec![
        0x50, 0x00, 0x00, 0x00, 0x00, 0x00, 0x00, 0x00, 0xef, 0xbe, 0xad, 0xde, 0x00, 0x00,
        0x00, 0x00, 0xbb, 0xaa, 0x00, 0x00, 0x00, 0x00, 0x00, 0x00, 0x01, 0x00, 0x00, 0x00,
        0x00, 0x00, 0x00, 0x00, 0x05, 0x00, 0x00, 0x00, 0x04, 0x00, 0x00, 0x00, 0x68, 0x65,
        0x6c, 0x6c, 0x6f, 0x00, 0x00, 0x00, 0xdd, 0xcc, 0x00, 0x00, 0x00, 0x00, 0x00, 0x00,
        0x02, 0x00, 0x00, 0x00, 0x00, 0x00, 0x00, 0x00, 0x08, 0x00, 0x00, 0x00, 0x08, 0x00,
        0x00, 0x00, 0x77, 0x6f, 0x72, 0x6c, 0x64, 0x2e, 0x72, 0x73,
    ];
    let mut buf = DirEntList::new(4096);
    assert!(!buf.push(&DirEntry::new(
        INodeNo(0xaabb),
        DirEntOffset(1),
        FileType::Directory,
        b"hello"
    )));
    assert!(!buf.push(&DirEntry::new(
        INodeNo(0xccdd),
        DirEntOffset(2),
        FileType::RegularFile,
        b"world.rs"
    )));
    let r: Response<'_> = buf.into_response();
    assert_eq!(
        r.with_iovec(RequestId(0xdeadbeef), ioslice_to_vec),
        expected
    );
}

fn some_attr(ino: u64, kind: FileType) -> FileAttr {
    let time = SystemTime { secs: -2, nanos: 500_000_000 };
    FileAttr {
        ino: INodeNo(ino),
        size: 1,
        blocks: 2,
        atime: time,
        mtime: time,
        ctime: time,
        crtime: time,
        kind,
        perm: 0o755,
        nlink: 3,
        uid: 4,
        gid: 5,
        rdev: 6,
        blksize: 7,
        flags: 8,
    }
}

#[test]
fn reply_long_data_is_kept() {
    let data: Vec<u8> = (0..100u8).collect();
    let sent = Response::new_data(data.clone()).with_iovec(RequestId(1), ioslice_to_vec);
    assert_eq!(sent[0..4], [116, 0, 0, 0]);
    assert_eq!(sent[16..], data[..]);
    let sent = Response::new_slice(&data).with_iovec(RequestId(1), ioslice_to_vec);
    assert_eq!(sent[16..], data[..]);
}

#[test]
fn reply_slices_are_header_and_data() {
    let r = Response::new_slice(b"abc");
    assert_eq!(r.with_iovec(RequestId(1), |iov| iov.len()), 2);
    let r = Response::new_slice(b"");
    assert_eq!(r.with_iovec(RequestId(1), |iov| iov.len()), 2);
    assert_eq!(Response::new_empty().with_iovec(RequestId(1), |iov| iov.len()), 1);
}

#[test]
fn reply_ioctl_joins_its_data() {
    let sent = Response::new_ioctl(-1, &[&b"ab"[..], &b"c"[..]])
        .with_iovec(RequestId(1), ioslice_to_vec);
    assert_eq!(
        sent[16..],
        [
            0xff, 0xff, 0xff, 0xff, 0, 0, 0, 0, 1, 0, 0, 0, 1, 0, 0, 0, b'a', b'b', b'c'
        ]
    );
}

#[test]
fn reply_poll_and_lseek() {
    let sent = Response::new_poll(PollEvents::from_bits_retain(5))
        .with_iovec(RequestId(1), ioslice_to_vec);
    assert_eq!(sent[16..], [5, 0, 0, 0, 0, 0, 0, 0]);
    let sent = Response::new_lseek(-2).with_iovec(RequestId(1), ioslice_to_vec);
    assert_eq!(sent[16..], [0xfe, 0xff, 0xff, 0xff, 0xff, 0xff, 0xff, 0xff]);
}

#[test]
fn replies_that_can_be_sent() {
    assert!(Response::new_empty().fits());
    assert!(Response::new_error(Errno(66)).fits());
    assert!(!Response::new_error(Errno(0)).fits());
    assert!(Response::new_slice(b"abc").fits());
}

#[test]
fn times_before_the_epoch_are_negative() {
    let attr = Attr::from(&some_attr(1, FileType::Socket)).attr;
    // a second and a half before the epoch
    assert_eq!((attr.atime, attr.atimensec), (-1, 500_000_000));
}

#[test]
fn modes_hold_the_kind() {
    for (kind, bits) in [
        (FileType::NamedPipe, libc::S_IFIFO),
        (FileType::CharDevice, libc::S_IFCHR),
        (FileType::BlockDevice, libc::S_IFBLK),
        (FileType::Directory, libc::S_IFDIR),
        (FileType::RegularFile, libc::S_IFREG),
        (FileType::Symlink, libc::S_IFLNK),
        (FileType::Socket, libc::S_IFSOCK),
    ] {
        assert_eq!(mode_from_kind_and_perm(kind, 0o640), bits | 0o640);
    }
}

#[test]
fn full_directory_stays_as_it_was() {
    let mut buf = DirEntList::new(40);
    let entry = DirEntry::new(INodeNo(1), DirEntOffset(1), FileType::Directory, b"a");
    assert!(!buf.push(&entry));
    assert!(buf.push(&entry));
    let sent = buf.into_response().with_iovec(RequestId(1), ioslice_to_vec);
    assert_eq!(sent.len(), 16 + 32);
    // an entry fills the buffer to the last byte
    let mut buf = DirEntList::new(32);
    assert!(!buf.push(&entry));
    assert!(buf.push(&entry));
}

#[test]
fn a_directory_holds_what_was_taken_in_order() {
    let long = DirEntry::new(INodeNo(1), DirEntOffset(1), FileType::Directory, &[b'x'; 40]);
    let short = DirEntry::new(INodeNo(2), DirEntOffset(2), FileType::RegularFile, b"a");
    let mut buf = DirEntList::new(64);
    assert!(!buf.push(&short));
    assert!(buf.push(&long));
    assert!(!buf.push(&short));
    assert!(buf.push(&short));
    let sent = buf.into_response().with_iovec(RequestId(1), ioslice_to_vec);
    assert_eq!(sent.len(), 16 + 64);
    assert_eq!(sent[16..48], sent[48..80]);
    // there is no room that is too large
    let mut buf = DirEntList::new(usize::MAX);
    assert!(!buf.push(&long));
    assert!(!buf.push(&short));
}

#[test]
fn directory_reads_as_its_entries() {
    let mut buf = DirEntPlusList::new(4096);
    let names: [&[u8]; 3] = [b"a", b"long-name", b"12345678"];
    for (i, name) in names.iter().enumerate() {
        let attr = some_attr(10 + i as u64, FileType::Directory);
        assert!(!buf.push(&DirEntryPlus::new(
            attr.ino,
            Generation(9),
            DirEntOffset(i as u64 + 1),
            name,
            Duration::new(1, 2),
            Attr::from(&attr),
            Duration::new(3, 4),
        )));
    }
    let sent = buf.into_response().with_iovec(RequestId(1), ioslice_to_vec);
    let mut at = 16;
    for (i, name) in names.iter().enumerate() {
        let dirent = at + 128;
        assert_eq!(sent[at..at + 8], (10 + i as u64).to_le_bytes());
        assert_eq!(sent[dirent..dirent + 8], (10 + i as u64).to_le_bytes());
        assert_eq!(sent[dirent + 8..dirent + 16], (i as u64 + 1).to_le_bytes());
        assert_eq!(sent[dirent + 16..dirent + 20], (name.len() as u32).to_le_bytes());
        assert_eq!(sent[dirent + 20..dirent + 24], 4u32.to_le_bytes());
        assert_eq!(&sent[dirent + 24..dirent + 24 + name.len()], *name);
        at = dirent + 24 + name.len();
        at += (8 - (at - 16) % 8) % 8;
    }
    assert_eq!(at, sent.len());
}
