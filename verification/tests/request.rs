//! Requests, byte by byte.

use fuser::async_session::read_single_request;
use fuser::experimental::RequestContext;
use fuser::ids::RequestId;
use fuser::ll::request::{Operation, Piece, Request, RequestError};
use fuser::mnt::mount::{ErrorKind, OsError};

const INIT_REQUEST: [u8; 56] = [
    0x38, 0x00, 0x00, 0x00, 0x1a, 0x00, 0x00, 0x00, // len, opcode
    0x0d, 0xf0, 0xad, 0xba, 0xef, 0xbe, 0xad, 0xde, // unique
    0x88, 0x77, 0x66, 0x55, 0x44, 0x33, 0x22, 0x11, // nodeid
    0x0d, 0xd0, 0x01, 0xc0, 0xfe, 0xca, 0x01, 0xc0, // uid, gid
    0x5e, 0xba, 0xde, 0xc0, 0x00, 0x00, 0x00, 0x00, // pid, padding
    0x07, 0x00, 0x00, 0x00, 0x08, 0x00, 0x00, 0x00, // major, minor
    0x00, 0x10, 0x00, 0x00, 0x00, 0x00, 0x00, 0x00, // max_readahead, flags
];

const MKNOD_REQUEST: [u8; 64] = [
    0x38, 0x00, 0x00, 0x00, 0x08, 0x00, 0x00, 0x00, // len, opcode
    0x0d, 0xf0, 0xad, 0xba, 0xef, 0xbe, 0xad, 0xde, // unique
    0x88, 0x77, 0x66, 0x55, 0x44, 0x33, 0x22, 0x11, // nodeid
    0x0d, 0xd0, 0x01, 0xc0, 0xfe, 0xca, 0x01, 0xc0, // uid, gid
    0x5e, 0xba, 0xde, 0xc0, 0x00, 0x00, 0x00, 0x00, // pid, padding
    0xa4, 0x01, 0x00, 0x00, 0x00, 0x00, 0x00, 0x00, // mode, rdev
    0xed, 0x01, 0x00, 0x00, 0xe7, 0x03, 0x00, 0x00, // umask, padding
    0x66, 0x6f, 0x6f, 0x2e, 0x74, 0x78, 0x74, 0x00, // name
];

#[test]
fn short_read_header() {
    match Request::try_from(&INIT_REQUEST[..20]) {
        Err(RequestError::ShortReadHeader(20)) => (),
        _ => panic!("Unexpected request parsing result"),
    }
}

#[test]
fn short_read() {
    match Request::try_from(&INIT_REQUEST[..48]) {
        Err(RequestError::ShortRead(48, 56)) => (),
        _ => panic!("Unexpected request parsing result"),
    }
}

#[test]
fn init() {
    let req = Request::try_from(&INIT_REQUEST[..]).unwrap();
    assert_eq!(req.header.len, 56);
    assert_eq!(req.header.opcode, 26);
    assert_eq!(req.unique(), 0xdead_beef_baad_f00d);
    assert_eq!(req.nodeid(), 0x1122_3344_5566_7788);
    assert_eq!(req.uid(), 0xc001_d00d);
    assert_eq!(req.gid(), 0xc001_cafe);
    assert_eq!(req.pid(), 0xc0de_ba5e);
    match req.operation() {
        Operation::Init(x) => {
            assert_eq!(x.arg.major, 7);
            assert_eq!(x.arg.minor, 8);
            assert_eq!(x.arg.max_readahead, 4096);
        }
        _ => panic!("Unexpected request operation"),
    }
}

#[test]
fn mknod() {
    let req = Request::try_from(&MKNOD_REQUEST[..]).unwrap();
    assert_eq!(req.header.len, 56);
    assert_eq!(req.header.opcode, 8);
    assert_eq!(req.unique(), 0xdead_beef_baad_f00d);
    assert_eq!(req.nodeid(), 0x1122_3344_5566_7788);
    assert_eq!(req.uid(), 0xc001_d00d);
    assert_eq!(req.gid(), 0xc001_cafe);
    assert_eq!(req.pid(), 0xc0de_ba5e);
    match req.operation() {
        Operation::MkNod(x) => {
            assert_eq!(x.arg.mode, 0o644);
            assert_eq!(x.arg.umask, 0o755);
            assert_eq!(x.arg.padding, 999);
            assert_eq!(x.name, b"foo.txt");
        }
        _ => panic!("Unexpected request operation"),
    }
}

/// A request with these arguments.
fn packet(opcode: u32, args: &[u8]) -> Vec<u8> {
    let mut data = Vec::new();
    data.extend_from_slice(&(40 + args.len() as u32).to_le_bytes());
    data.extend_from_slice(&opcode.to_le_bytes());
    data.extend_from_slice(&77u64.to_le_bytes());
    data.extend_from_slice(&1u64.to_le_bytes());
    for number in [1000u32, 100, 42, 0] {
        data.extend_from_slice(&number.to_le_bytes());
    }
    data.extend_from_slice(args);
    data
}

#[test]
fn unknown_operations_are_told() {
    let data = packet(4999, &[]);
    let err = Request::try_from(&data).unwrap_err();
    assert!(matches!(err, RequestError::UnknownOperation(4999)));
    assert_eq!(err.text(), "Unknown FUSE opcode (4999)");
}

#[test]
fn missing_arguments_are_told() {
    // a name without the byte that ends it
    let data = packet(1, b"name");
    let err = Request::try_from(&data).unwrap_err();
    assert!(matches!(err, RequestError::InsufficientData));
    assert_eq!(err.text(), "Insufficient argument data");
}

#[test]
fn only_the_init_of_a_filesystem_may_be_short() {
    let mut args = Vec::new();
    for number in [7u32, 31, 4096, 1] {
        args.extend_from_slice(&number.to_le_bytes());
    }
    assert!(matches!(
        Request::try_from(&packet(26, &args)).unwrap().operation(),
        Operation::Init(_)
    ));
    let short = packet(4096, &args);
    assert!(matches!(
        Request::try_from(&short),
        Err(RequestError::InsufficientData)
    ));
    args.resize(63, 0);
    let short = packet(4096, &args);
    assert!(matches!(
        Request::try_from(&short),
        Err(RequestError::InsufficientData)
    ));
    args.push(0);
    let full = packet(4096, &args);
    match Request::try_from(&full).unwrap().operation() {
        Operation::CuseInit(x) => {
            assert_eq!((x.arg.major, x.arg.minor, x.arg.max_readahead), (7, 31, 4096))
        }
        _ => panic!("Unexpected request operation"),
    }
}

#[test]
fn request_errors_say_how_short() {
    assert_eq!(
        RequestError::ShortReadHeader(20).text(),
        "Short read of FUSE request header (20 < 40)"
    );
    assert_eq!(RequestError::ShortRead(48, 56).text(), "Short read of FUSE request (48 < 56)");
}

#[test]
fn an_unknown_operation_is_told_before_a_short_packet() {
    let mut data = packet(4999, &[]);
    data[0] = 99;
    assert!(matches!(
        Request::try_from(&data),
        Err(RequestError::UnknownOperation(4999))
    ));
}

#[test]
fn names_and_data_are_read() {
    let data = packet(1, b"name\0");
    match Request::try_from(&data).unwrap().operation() {
        Operation::Lookup(x) => assert_eq!(x.name, b"name"),
        _ => panic!("Unexpected request operation"),
    }
    // symlink: the name, then what it points to
    let data = packet(6, b"name\0target\0");
    match Request::try_from(&data).unwrap().operation() {
        Operation::SymLink(x) => {
            assert_eq!(x.name, b"name");
            assert_eq!(x.link, b"target");
        }
        _ => panic!("Unexpected request operation"),
    }
    // write: handle, offset, size, flags, lock owner, flags, padding, then the data
    let mut args = Vec::new();
    args.extend_from_slice(&5u64.to_le_bytes());
    args.extend_from_slice(&6u64.to_le_bytes());
    args.extend_from_slice(&3u32.to_le_bytes());
    args.extend_from_slice(&0u32.to_le_bytes());
    args.extend_from_slice(&8u64.to_le_bytes());
    args.extend_from_slice(&9u32.to_le_bytes());
    args.extend_from_slice(&0u32.to_le_bytes());
    args.extend_from_slice(b"abc");
    let data = packet(16, &args);
    match Request::try_from(&data).unwrap().operation() {
        Operation::Write(x) => {
            assert_eq!(x.arg.fh, 5);
            assert_eq!(x.arg.offset, 6);
            assert_eq!(x.data, b"abc");
        }
        _ => panic!("Unexpected request operation"),
    }
}

fn shown(request: &Request<'_>) -> String {
    request
        .pieces()
        .iter()
        .map(|piece| match piece {
            Piece::Text(text) => text.clone(),
            Piece::Name(name) => format!("{:?}", std::str::from_utf8(name).unwrap()),
        })
        .collect()
}

#[test]
fn requests_are_described() {
    let data = packet(1, b"name\0");
    let request = Request::try_from(&data).unwrap();
    assert_eq!(shown(&request), "FUSE( 77) ino 0x0000000000000001: LOOKUP name \"name\"");
    let data = packet(17, &[]);
    let request = Request::try_from(&data).unwrap();
    assert_eq!(shown(&request), "FUSE( 77) ino 0x0000000000000001: STATFS");
}

#[test]
fn the_context_of_a_request() {
    let data = packet(17, &[]);
    let context = RequestContext::from(&Request::try_from(&data).unwrap());
    assert_eq!(context.user_id(), 1000);
    assert_eq!(context.group_id(), 100);
    assert_eq!(context.process_id(), 42);
    assert_eq!(context.request_id(), RequestId(77));
}

fn os_error(raw: i32) -> OsError {
    OsError {
        kind: ErrorKind::Other,
        raw: Some(raw),
    }
}

#[test]
fn a_worker_reads_requests() {
    let mut buffer = packet(17, &[]);
    let size = buffer.len();
    buffer.extend_from_slice(&[0xff; 10]);
    let request = read_single_request(Ok(Some(size)), &buffer).unwrap().unwrap();
    assert_eq!(request.unique(), 77);
    assert!(read_single_request(Ok(Some(10)), &buffer).is_none());
    assert!(read_single_request(Ok(None), &buffer).is_none());
    for raw in [libc::ENOENT, libc::EINTR, libc::EAGAIN] {
        assert!(read_single_request(Err(os_error(raw)), &buffer).is_none());
    }
    for raw in [libc::ENODEV, libc::EIO] {
        match read_single_request(Err(os_error(raw)), &buffer) {
            Some(Err(error)) => assert_eq!(error.raw, Some(raw)),
            _ => panic!("Unexpected result"),
        }
    }
}
