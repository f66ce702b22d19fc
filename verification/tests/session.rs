//! Sessions, descriptors and what else is kept of them.

use fuser::async_session::{SessionConfiguration, TokioSession, WorkerIsTerminated};
use fuser::channel::{check_call, clone_request, wrote_all};
use fuser::dev_fuse::{async_error, device_path, open_error, set_nonblocking, AsyncStep, IoError};
use fuser::file_attr::{AttrError, FileAttr, FileType, Metadata, StatxAttr, StdFileType};
use fuser::ids::{INodeNo, Version};
use fuser::io_ops::{
    blocking_receive, do_receive, send, FileDescriptorRawHandle, ReceiveEvent, ReceiveStep,
    SendEvent, SendStep,
};
use fuser::ll::ioctl::{fuse_backing_map, request_code, IOC_WRITE};
use fuser::mnt::mount::{ErrorKind, OsError};
use fuser::open_flags::{OpenAccMode, OpenFlags};
use fuser::passthrough::{backing_map, BackingId};
use fuser::time::{
    system_time_from_time, time_can_be_held, time_from_system_time, unix_epoch, Duration,
    SystemTime,
};

/// Opening the FUSE device cannot be made to fail on demand, so check the reporting
/// itself: which file is missing, and how to get it, must both survive
#[test]
fn open_failures_name_the_device() {
    let err = open_error(IoError {
        kind: ErrorKind::NotFound,
        text: "entity not found".to_owned(),
    });
    assert_eq!(err.kind, ErrorKind::NotFound);
    assert!(err.text.contains(device_path()), "{}", err.text);
    assert!(err.text.contains("modprobe fuse"), "{}", err.text);

    // Anything else is reported as it came, with the device named
    let err = open_error(IoError {
        kind: ErrorKind::PermissionDenied,
        text: "permission denied".to_owned(),
    });
    assert_eq!(err.kind, ErrorKind::PermissionDenied);
    assert!(err.text.contains(device_path()), "{}", err.text);
    // Advice for getting the device belongs only on the branch where it is absent
    assert!(!err.text.contains("not found"), "{}", err.text);
    assert_eq!(err.text, "opening /dev/fuse: permission denied");
}

#[test]
fn waiting_failures_name_the_step() {
    let error = IoError {
        kind: ErrorKind::Other,
        text: "bad".to_owned(),
    };
    assert_eq!(
        async_error(AsyncStep::SetNonblocking, error.clone()).text,
        "set_nonblocking: bad"
    );
    assert_eq!(async_error(AsyncStep::Watch, error).text, "AsyncFd::new: bad");
    assert_eq!(set_nonblocking(libc::O_RDWR), libc::O_RDWR | libc::O_NONBLOCK);
    assert_eq!(
        set_nonblocking(libc::O_RDWR | libc::O_NONBLOCK),
        libc::O_RDWR | libc::O_NONBLOCK
    );
}

#[test]
fn access_modes_are_those_of_the_system() {
    assert_eq!(OpenFlags(libc::O_RDONLY | libc::O_CREAT).acc_mode(), OpenAccMode::O_RDONLY);
    assert_eq!(OpenFlags(libc::O_WRONLY).acc_mode(), OpenAccMode::O_WRONLY);
    assert_eq!(OpenFlags(libc::O_RDWR | libc::O_APPEND).acc_mode(), OpenAccMode::O_RDWR);
    // Impossible combination of flags.
    assert_eq!(OpenFlags(libc::O_ACCMODE).acc_mode(), OpenAccMode::O_RDONLY);
    assert_eq!(OpenFlags(0x1ab).lower_hex(), format!("{:x}", 0x1ab));
    assert_eq!(OpenFlags(-1).upper_hex(), format!("{:X}", -1));
}

#[test]
fn requests_of_the_device_have_numbers() {
    assert_eq!(clone_request(), 0x8004e500);
    // direction, size, magic number and number
    assert_eq!(request_code(IOC_WRITE, 16, 229, 1), 0x4010e501);
    assert_eq!(request_code(IOC_WRITE, 4, 229, 2), 0x4004e502);
}

#[test]
fn calls_fail_below_zero() {
    assert_eq!(check_call(-1, libc::EIO), Err(libc::EIO));
    assert_eq!(check_call(0, libc::EIO), Ok(0));
    assert!(wrote_all(&[&b"ab"[..], &b"c"[..]], 3));
    assert!(!wrote_all(&[&b"ab"[..], &b"c"[..]], 2));
}

#[test]
fn backing_files() {
    assert_eq!(backing_map(7), fuse_backing_map { fd: 7, flags: 0, padding: 0 });
    let id = BackingId::create("channel", Ok::<i32, i32>(5)).unwrap();
    assert_eq!(id.let_go(true), Some(5));
    assert_eq!(BackingId::wrap_raw("channel", 6).let_go(false), None);
    assert_eq!(BackingId::wrap_raw("channel", 6).into_raw(), 6);
    assert!(BackingId::create("channel", Err::<i32, i32>(libc::EPERM)).is_err());
}

#[test]
fn descriptors_are_closed_once() {
    let mut handle = FileDescriptorRawHandle::new(9);
    assert_eq!(handle.as_raw_fd(), 9);
    assert_eq!(handle.close(), Some(9));
    assert_eq!(handle.close(), None);
    assert_eq!(handle.close(), None);
}

fn os_error(kind: ErrorKind, raw: i32) -> OsError {
    OsError { kind, raw: Some(raw) }
}

#[test]
fn requests_are_waited_for() {
    let blocked = os_error(ErrorKind::WouldBlock, libc::EAGAIN);
    let gone = os_error(ErrorKind::Other, libc::ENODEV);
    assert_eq!(blocking_receive(-1, gone), Err(gone));
    assert_eq!(blocking_receive(80, gone), Ok(Some(80)));
    assert!(matches!(
        do_receive(ReceiveEvent::NotWatched(gone)),
        ReceiveStep::Return(Err(_))
    ));
    assert!(matches!(
        do_receive(ReceiveEvent::Ready(Some(Ok(Some(80))))),
        ReceiveStep::Return(Ok(Some(80)))
    ));
    assert!(matches!(
        do_receive(ReceiveEvent::Ready(None)),
        ReceiveStep::Return(Ok(None))
    ));
    assert!(matches!(
        do_receive(ReceiveEvent::TimedOut(Err(blocked))),
        ReceiveStep::Again
    ));
    assert!(matches!(
        do_receive(ReceiveEvent::TimedOut(Err(gone))),
        ReceiveStep::Return(Err(_))
    ));
    assert!(matches!(
        do_receive(ReceiveEvent::TimedOut(Ok(Some(8)))),
        ReceiveStep::Return(Ok(Some(8)))
    ));
    assert!(matches!(send(SendEvent::Ready(None)), SendStep::Again));
    assert!(matches!(
        send(SendEvent::Ready(Some(Ok(())))),
        SendStep::Return(Ok(()))
    ));
    assert!(matches!(
        send(SendEvent::NotWatched(gone)),
        SendStep::Return(Err(_))
    ));
}

#[test]
fn sessions_begin_and_end() {
    let mut session: TokioSession<u8, u8, &str> = TokioSession::new("channel");
    assert!(!session.initialized());
    assert_eq!(session.session_configuration(), None);
    session.register_destroy(1);
    session.register_destroy(2);
    session.join_handles.push(3);
    session.initialize(Version(7, 31));
    assert!(session.initialized());
    assert_eq!(
        session.session_configuration(),
        Some(SessionConfiguration { proto_major: 7, proto_minor: 31 })
    );
    assert!(!session.destroyed());
    assert_eq!(session.destroy(), (vec![1, 2], Some("channel")));
    assert!(session.destroyed());
    assert_eq!(session.destroy(), (vec![], None));
    assert_eq!(session.wait_worker_shutdown(), vec![3]);
    assert_eq!(session.wait_worker_shutdown(), vec![]);
}

#[test]
fn all_that_wait_for_a_session_are_told() {
    let mut session: TokioSession<u8, u8, &str> = TokioSession::spawn_run("c", 1, vec![2, 3]);
    assert!(!session.destroyed());
    session.register_destroy(4);
    assert_eq!(session.destroy(), (vec![1, 2, 3, 4], Some("c")));
}

#[test]
fn workers_are_told_to_end() {
    let mut terminated = WorkerIsTerminated(Some("receiver"));
    let receiver = terminated.begin_poll().unwrap();
    assert!(!terminated.end_poll(receiver, true));
    let receiver = terminated.begin_poll().unwrap();
    assert!(terminated.end_poll(receiver, false));
    assert_eq!(terminated.begin_poll(), None);
}

#[test]
fn times_are_counted_from_the_epoch() {
    assert_eq!(time_from_system_time(&unix_epoch()), (0, 0));
    let before = SystemTime { secs: -2, nanos: 500_000_000 };
    assert_eq!(time_from_system_time(&before), (-1, 500_000_000));
    assert_eq!(system_time_from_time(-1, 500_000_000), before);
    let after = SystemTime { secs: 5, nanos: 6 };
    assert_eq!(time_from_system_time(&after), (5, 6));
    assert_eq!(system_time_from_time(5, 6), after);
    assert_eq!(Duration::new(1, 2_000_000_003), Duration { secs: 3, nanos: 3 });
    assert_eq!(Duration::new(1, 2).as_nanos(), 1_000_000_002);
}

fn no_type() -> StdFileType {
    StdFileType {
        is_file: false,
        is_dir: false,
        is_symlink: false,
        is_fifo: false,
        is_socket: false,
        is_char_device: false,
        is_block_device: false,
    }
}

fn metadata(file_type: StdFileType) -> Metadata {
    Metadata {
        file_type,
        ino: 1,
        size: 10,
        blocks: 8,
        atime: 3,
        atime_nsec: 4,
        mtime: 5,
        mtime_nsec: 6,
        ctime: 7,
        ctime_nsec: 8,
        created: None,
        mode: 0o100640,
        nlink: 1,
        uid: 2,
        gid: 3,
        rdev: 0x1_0000_0000,
        blksize: 4096,
    }
}

#[test]
fn attributes_of_a_file() {
    let file = metadata(StdFileType { is_file: true, ..no_type() });
    let attr = FileAttr::try_from(&file).unwrap();
    assert_eq!(attr.ino, INodeNo(1));
    assert_eq!(attr.kind, FileType::RegularFile);
    assert_eq!(attr.perm, 0o640);
    // The rest of a file is no device, so that its rdev says nothing
    assert_eq!(attr.rdev, 0);
    assert_eq!(attr.flags, 0);
    assert_eq!(attr.mtime, SystemTime { secs: 5, nanos: 6 });
    assert_eq!(attr.crtime, unix_epoch());
    assert_eq!(StatxAttr::from(attr).btime, None);
}

#[test]
fn attributes_that_do_not_fit() {
    let device = metadata(StdFileType { is_char_device: true, ..no_type() });
    let err = FileAttr::try_from(&device).unwrap_err();
    assert_eq!(
        err.text("FileType"),
        "rdev is 4294967296, which does not fit the FUSE protocol's u32"
    );
    let links = Metadata { nlink: u64::MAX, ..metadata(StdFileType { is_dir: true, ..no_type() }) };
    assert!(matches!(
        FileAttr::try_from(&links),
        Err(AttrError::NlinkTooLarge(u64::MAX))
    ));
    let blocks = Metadata {
        blksize: 1 << 40,
        ..metadata(StdFileType { is_symlink: true, ..no_type() })
    };
    assert!(matches!(
        FileAttr::try_from(&blocks),
        Err(AttrError::BlksizeTooLarge(_))
    ));
    assert!(matches!(
        FileAttr::try_from(&metadata(no_type())),
        Err(AttrError::UnsupportedType(_))
    ));
    assert_eq!(
        AttrError::UnsupportedType(no_type()).text("FileType { .. }"),
        "unsupported file type FileType { .. }"
    );
    assert_eq!(
        FileType::from_std(StdFileType { is_fifo: true, ..no_type() }),
        Some(FileType::NamedPipe)
    );
}

#[test]
fn times_matter_only_where_the_rest_fits() {
    let early = Metadata {
        atime: i64::MIN,
        ..metadata(StdFileType { is_file: true, ..no_type() })
    };
    assert!(!early.is_wf());
    assert_eq!(early.check(), Ok(FileType::RegularFile));
    let links = Metadata { nlink: u64::MAX, ..early };
    assert!(matches!(
        FileAttr::try_from(&links),
        Err(AttrError::NlinkTooLarge(u64::MAX))
    ));
    assert!(metadata(no_type()).is_wf());
    assert!(time_can_be_held(i64::MAX, 999_999_999));
    assert!(!time_can_be_held(i64::MAX, 1_000_000_000));
    assert!(time_can_be_held(i64::MIN + 1, 999_999_999));
    assert!(!time_can_be_held(i64::MIN + 1, 1_000_000_001));
    assert!(!SystemTime { secs: i64::MIN, nanos: 0 }.is_writable());
    assert!(SystemTime { secs: i64::MIN, nanos: 1 }.is_writable());
    assert!(!SystemTime { secs: 0, nanos: 1_000_000_000 }.is_writable());
}
