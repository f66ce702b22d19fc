//! Low-level filesystem operation request.
//!
//! A request represents information about a filesystem operation the kernel driver wants us to
//! perform.

use vstd::prelude::*;

use crate::ll::argument::{arg_at, lemma_name_at_terminated, name_at, ArgumentIterator};
use crate::ll::fuse_abi::{
    decode_init_in, fuse_access_in, fuse_bmap_in, fuse_copy_file_range_in, fuse_create_in,
    fuse_fallocate_in, fuse_flush_in, fuse_forget_in, fuse_forget_one, fuse_fsync_in,
    fuse_getxattr_in, fuse_in_header, fuse_init_in, fuse_interrupt_in, fuse_ioctl_in, fuse_link_in,
    fuse_lk_in, fuse_lseek_in, fuse_mkdir_in, fuse_mknod_in, fuse_opcode, fuse_open_in,
    fuse_poll_in, fuse_read_in, fuse_release_in, fuse_rename2_in, fuse_rename_in, fuse_setattr_in,
    fuse_setxattr_in, fuse_write_in, init_in_at,
};
use crate::ll::wire::FromBytes;
use crate::text::{
    decimal, hex, hex16, octal3, padded, to_decimal, to_hex, to_hex16, to_octal3, to_padded,
    to_signed_decimal,
};

verus! {

/// Error that may occur while reading and parsing a request from the kernel driver.
#[derive(Clone, Copy, Debug, PartialEq, Eq, Structural)]
pub enum RequestError {
    /// Not enough data for parsing header (short read).
    ShortReadHeader(usize),
    /// Kernel requested an unknown operation.
    UnknownOperation(u32),
    /// Not enough data for arguments (short read).
    ShortRead(usize, usize),
    /// Insufficient argument data.
    InsufficientData,
}

impl RequestError {
    /// What is said of the error.
    pub open spec fn spec_text(self) -> Seq<char> {
        match self {
            RequestError::ShortReadHeader(len) => "Short read of FUSE request header ("@ + decimal(
                len as int,
            ) + " < 40)"@,
            RequestError::UnknownOperation(opcode) => "Unknown FUSE opcode ("@ + decimal(
                opcode as int,
            ) + ")"@,
            RequestError::ShortRead(len, total) => "Short read of FUSE request ("@ + decimal(
                len as int,
            ) + " < "@ + decimal(total as int) + ")"@,
            RequestError::InsufficientData => "Insufficient argument data"@,
        }
    }

    /// What is said of the error.
    pub fn text(&self) -> (r: String)
        ensures
            r@ == self.spec_text(),
    {
        match self {
            RequestError::ShortReadHeader(len) => String::from_str(
                "Short read of FUSE request header (",
            ).concat(to_decimal(*len as u64).as_str()).concat(" < 40)"),
            RequestError::UnknownOperation(opcode) => String::from_str(
                "Unknown FUSE opcode (",
            ).concat(to_decimal(*opcode as u64).as_str()).concat(")"),
            RequestError::ShortRead(len, total) => String::from_str(
                "Short read of FUSE request (",
            ).concat(to_decimal(*len as u64).as_str()).concat(" < ").concat(
                to_decimal(*total as u64).as_str(),
            ).concat(")"),
            RequestError::InsufficientData => String::from_str("Insufficient argument data"),
        }
    }
}

/// Look up a directory entry by name.
#[derive(Clone, Copy, Debug)]
pub struct Lookup<'a> {
    pub name: &'a [u8],
}

/// Forget about an inode.
#[derive(Clone, Copy, Debug)]
pub struct Forget {
    pub arg: fuse_forget_in,
}

/// Get file attributes.
#[derive(Clone, Copy, Debug)]
pub struct GetAttr {}

/// Set file attributes.
#[derive(Clone, Copy, Debug)]
pub struct SetAttr {
    pub arg: fuse_setattr_in,
}

/// Read symbolic link.
#[derive(Clone, Copy, Debug)]
pub struct ReadLink {}

/// Create a symbolic link.
#[derive(Clone, Copy, Debug)]
pub struct SymLink<'a> {
    pub name: &'a [u8],
    pub link: &'a [u8],
}

/// Create file node.
#[derive(Clone, Copy, Debug)]
pub struct MkNod<'a> {
    pub arg: fuse_mknod_in,
    pub name: &'a [u8],
}

/// Create a directory.
#[derive(Clone, Copy, Debug)]
pub struct MkDir<'a> {
    pub arg: fuse_mkdir_in,
    pub name: &'a [u8],
}

/// Remove a file.
#[derive(Clone, Copy, Debug)]
pub struct Unlink<'a> {
    pub name: &'a [u8],
}

/// Remove a directory.
#[derive(Clone, Copy, Debug)]
pub struct RmDir<'a> {
    pub name: &'a [u8],
}

/// Rename a file.
#[derive(Clone, Copy, Debug)]
pub struct Rename<'a> {
    pub arg: fuse_rename_in,
    pub name: &'a [u8],
    pub newname: &'a [u8],
}

/// Create a hard link.
#[derive(Clone, Copy, Debug)]
pub struct Link<'a> {
    pub arg: fuse_link_in,
    pub name: &'a [u8],
}

/// Open a file.
#[derive(Clone, Copy, Debug)]
pub struct Open {
    pub arg: fuse_open_in,
}

/// Read data.
#[derive(Clone, Copy, Debug)]
pub struct Read {
    pub arg: fuse_read_in,
}

/// Write data.
#[derive(Clone, Copy, Debug)]
pub struct Write<'a> {
    pub arg: fuse_write_in,
    pub data: &'a [u8],
}

/// Get file system statistics.
#[derive(Clone, Copy, Debug)]
pub struct StatFs {}

/// Release an open file.
#[derive(Clone, Copy, Debug)]
pub struct Release {
    pub arg: fuse_release_in,
}

/// Synchronize file contents.
#[derive(Clone, Copy, Debug)]
pub struct FSync {
    pub arg: fuse_fsync_in,
}

/// Set an extended attribute.
#[derive(Clone, Copy, Debug)]
pub struct SetXAttr<'a> {
    pub arg: fuse_setxattr_in,
    pub name: &'a [u8],
    pub value: &'a [u8],
}

/// Get an extended attribute.
#[derive(Clone, Copy, Debug)]
pub struct GetXAttr<'a> {
    pub arg: fuse_getxattr_in,
    pub name: &'a [u8],
}

/// List extended attribute names.
#[derive(Clone, Copy, Debug)]
pub struct ListXAttr {
    pub arg: fuse_getxattr_in,
}

/// Remove an extended attribute.
#[derive(Clone, Copy, Debug)]
pub struct RemoveXAttr<'a> {
    pub name: &'a [u8],
}

/// Flush an open file.
#[derive(Clone, Copy, Debug)]
pub struct Flush {
    pub arg: fuse_flush_in,
}

/// Start a session.
#[derive(Clone, Copy, Debug)]
pub struct Init {
    pub arg: fuse_init_in,
}

/// Open a directory.
#[derive(Clone, Copy, Debug)]
pub struct OpenDir {
    pub arg: fuse_open_in,
}

/// Read directory.
#[derive(Clone, Copy, Debug)]
pub struct ReadDir {
    pub arg: fuse_read_in,
}

/// Release an open directory.
#[derive(Clone, Copy, Debug)]
pub struct ReleaseDir {
    pub arg: fuse_release_in,
}

/// Synchronize directory contents.
#[derive(Clone, Copy, Debug)]
pub struct FSyncDir {
    pub arg: fuse_fsync_in,
}

/// Test for a POSIX file lock.
#[derive(Clone, Copy, Debug)]
pub struct GetLk {
    pub arg: fuse_lk_in,
}

/// Acquire, modify or release a POSIX file lock.
#[derive(Clone, Copy, Debug)]
pub struct SetLk {
    pub arg: fuse_lk_in,
}

/// The same, waiting for the lock.
#[derive(Clone, Copy, Debug)]
pub struct SetLkW {
    pub arg: fuse_lk_in,
}

/// Check file access permissions.
#[derive(Clone, Copy, Debug)]
pub struct Access {
    pub arg: fuse_access_in,
}

/// Create and open a file.
#[derive(Clone, Copy, Debug)]
pub struct Create<'a> {
    pub arg: fuse_create_in,
    pub name: &'a [u8],
}

/// Interrupt another request.
#[derive(Clone, Copy, Debug)]
pub struct Interrupt {
    pub arg: fuse_interrupt_in,
}

/// Map a block index within a file to one within the device.
#[derive(Clone, Copy, Debug)]
pub struct BMap {
    pub arg: fuse_bmap_in,
}

/// End a session.
#[derive(Clone, Copy, Debug)]
pub struct Destroy {}

/// Control device.
#[derive(Clone, Copy, Debug)]
pub struct IoCtl<'a> {
    pub arg: fuse_ioctl_in,
    pub data: &'a [u8],
}

/// Poll for events.
#[derive(Clone, Copy, Debug)]
pub struct Poll {
    pub arg: fuse_poll_in,
}

/// The answer to a notification.
#[derive(Clone, Copy, Debug)]
pub struct NotifyReply<'a> {
    pub data: &'a [u8],
}

/// Forget about several inodes. The nodes themselves are not read.
#[derive(Clone, Copy, Debug)]
pub struct BatchForget<'a> {
    pub arg: fuse_forget_in,
    pub nodes: &'a [fuse_forget_one],
}

/// Preallocate or deallocate space to a file.
#[derive(Clone, Copy, Debug)]
pub struct FAllocate {
    pub arg: fuse_fallocate_in,
}

/// Read directory, with the attributes of its entries.
#[derive(Clone, Copy, Debug)]
pub struct ReadDirPlus {
    pub arg: fuse_read_in,
}

/// Rename a file, with flags.
#[derive(Clone, Copy, Debug)]
pub struct Rename2<'a> {
    pub arg: fuse_rename2_in,
    pub name: &'a [u8],
    pub newname: &'a [u8],
}

/// Reposition read/write file offset.
#[derive(Clone, Copy, Debug)]
pub struct Lseek {
    pub arg: fuse_lseek_in,
}

/// Copy a range from one file to another.
#[derive(Clone, Copy, Debug)]
pub struct CopyFileRange {
    pub arg: fuse_copy_file_range_in,
}

/// Start a session of a character device.
#[derive(Clone, Copy, Debug)]
pub struct CuseInit {
    pub arg: fuse_init_in,
}

/// Filesystem operation (and arguments) the kernel driver wants us to perform. The fields of each
/// variant match the arguments the kernel driver sends for the specific operation.
#[derive(Clone, Copy, Debug)]
pub enum Operation<'a> {
    Lookup(Lookup<'a>),
    Forget(Forget),
    GetAttr(GetAttr),
    SetAttr(SetAttr),
    ReadLink(ReadLink),
    SymLink(SymLink<'a>),
    MkNod(MkNod<'a>),
    MkDir(MkDir<'a>),
    Unlink(Unlink<'a>),
    RmDir(RmDir<'a>),
    Rename(Rename<'a>),
    Link(Link<'a>),
    Open(Open),
    Read(Read),
    Write(Write<'a>),
    StatFs(StatFs),
    Release(Release),
    FSync(FSync),
    SetXAttr(SetXAttr<'a>),
    GetXAttr(GetXAttr<'a>),
    ListXAttr(ListXAttr),
    RemoveXAttr(RemoveXAttr<'a>),
    Flush(Flush),
    Init(Init),
    OpenDir(OpenDir),
    ReadDir(ReadDir),
    ReleaseDir(ReleaseDir),
    FSyncDir(FSyncDir),
    GetLk(GetLk),
    SetLk(SetLk),
    SetLkW(SetLkW),
    Access(Access),
    Create(Create<'a>),
    Interrupt(Interrupt),
    BMap(BMap),
    Destroy(Destroy),
    IoCtl(IoCtl<'a>),
    Poll(Poll),
    NotifyReply(NotifyReply<'a>),
    BatchForget(BatchForget<'a>),
    FAllocate(FAllocate),
    ReadDirPlus(ReadDirPlus),
    Rename2(Rename2<'a>),
    Lseek(Lseek),
    CopyFileRange(CopyFileRange),
    CuseInit(CuseInit),
}

/// A piece of the text that describes an operation.
#[derive(Clone, Debug)]
pub enum Piece<'a> {
    /// Text as it stands.
    Text(String),
    /// A name, which is shown between quotes.
    Name(&'a [u8]),
}

/// What a piece holds.
pub enum PieceView {
    Text(Seq<char>),
    Name(Seq<u8>),
}

impl<'a> View for Piece<'a> {
    type V = PieceView;

    open spec fn view(&self) -> PieceView {
        match self {
            Piece::Text(s) => PieceView::Text(s@),
            Piece::Name(n) => PieceView::Name(n@),
        }
    }
}

/// What the pieces hold, in order.
pub open spec fn piece_views(pieces: Seq<Piece>) -> Seq<PieceView> {
    pieces.map_values(|p: Piece| p@)
}

/// What parsing the arguments `s` of an operation gives: each argument follows the one before it;
/// where one is missing there is no operation.
pub open spec fn parses(opcode: fuse_opcode, s: Seq<u8>, r: Option<Operation>) -> bool {
    match opcode {
        fuse_opcode::FUSE_LOOKUP => match name_at(s) {
                Some((name, _)) => r matches Some(Operation::Lookup(x)) && x.name@ == name,
                None => r is None,
            },
        fuse_opcode::FUSE_FORGET => match arg_at::<fuse_forget_in>(s) {
                Some((arg, _)) => r matches Some(Operation::Forget(x)) && x.arg == arg,
                None => r is None,
            },
        fuse_opcode::FUSE_GETATTR => r matches Some(Operation::GetAttr(x)),
        fuse_opcode::FUSE_SETATTR => match arg_at::<fuse_setattr_in>(s) {
                Some((arg, _)) => r matches Some(Operation::SetAttr(x)) && x.arg == arg,
                None => r is None,
            },
        fuse_opcode::FUSE_READLINK => r matches Some(Operation::ReadLink(x)),
        fuse_opcode::FUSE_SYMLINK => match name_at(s) {
                Some((name, s1)) => match name_at(s1) {
                    Some((link, _)) => r matches Some(Operation::SymLink(x)) && x.name@ == name && x.link@ == link,
                    None => r is None,
                },
                None => r is None,
            },
        fuse_opcode::FUSE_MKNOD => match arg_at::<fuse_mknod_in>(s) {
                Some((arg, s1)) => match name_at(s1) {
                    Some((name, _)) => r matches Some(Operation::MkNod(x)) && x.arg == arg && x.name@ == name,
                    None => r is None,
                },
                None => r is None,
            },
        fuse_opcode::FUSE_MKDIR => match arg_at::<fuse_mkdir_in>(s) {
                Some((arg, s1)) => match name_at(s1) {
                    Some((name, _)) => r matches Some(Operation::MkDir(x)) && x.arg == arg && x.name@ == name,
                    None => r is None,
                },
                None => r is None,
            },
        fuse_opcode::FUSE_UNLINK => match name_at(s) {
                Some((name, _)) => r matches Some(Operation::Unlink(x)) && x.name@ == name,
                None => r is None,
            },
        fuse_opcode::FUSE_RMDIR => match name_at(s) {
                Some((name, _)) => r matches Some(Operation::RmDir(x)) && x.name@ == name,
                None => r is None,
            },
        fuse_opcode::FUSE_RENAME => match arg_at::<fuse_rename_in>(s) {
                Some((arg, s1)) => match name_at(s1) {
                    Some((name, s2)) => match name_at(s2) {
                        Some((newname, _)) => r matches Some(Operation::Rename(x)) && x.arg == arg && x.name@ == name && x.newname@ == newname,
                        None => r is None,
                    },
                    None => r is None,
                },
                None => r is None,
            },
        fuse_opcode::FUSE_LINK => match arg_at::<fuse_link_in>(s) {
                Some((arg, s1)) => match name_at(s1) {
                    Some((name, _)) => r matches Some(Operation::Link(x)) && x.arg == arg && x.name@ == name,
                    None => r is None,
                },
                None => r is None,
            },
        fuse_opcode::FUSE_OPEN => match arg_at::<fuse_open_in>(s) {
                Some((arg, _)) => r matches Some(Operation::Open(x)) && x.arg == arg,
                None => r is None,
            },
        fuse_opcode::FUSE_READ => match arg_at::<fuse_read_in>(s) {
                Some((arg, _)) => r matches Some(Operation::Read(x)) && x.arg == arg,
                None => r is None,
            },
        fuse_opcode::FUSE_WRITE => match arg_at::<fuse_write_in>(s) {
                Some((arg, s1)) => r matches Some(Operation::Write(x)) && x.arg == arg && x.data@ == s1,
                None => r is None,
            },
        fuse_opcode::FUSE_STATFS => r matches Some(Operation::StatFs(x)),
        fuse_opcode::FUSE_RELEASE => match arg_at::<fuse_release_in>(s) {
                Some((arg, _)) => r matches Some(Operation::Release(x)) && x.arg == arg,
                None => r is None,
            },
        fuse_opcode::FUSE_FSYNC => match arg_at::<fuse_fsync_in>(s) {
                Some((arg, _)) => r matches Some(Operation::FSync(x)) && x.arg == arg,
                None => r is None,
            },
        fuse_opcode::FUSE_SETXATTR => match arg_at::<fuse_setxattr_in>(s) {
                Some((arg, s1)) => match name_at(s1) {
                    Some((name, s2)) => r matches Some(Operation::SetXAttr(x)) && x.arg == arg && x.name@ == name && x.value@ == s2,
                    None => r is None,
                },
                None => r is None,
            },
        fuse_opcode::FUSE_GETXATTR => match arg_at::<fuse_getxattr_in>(s) {
                Some((arg, s1)) => match name_at(s1) {
                    Some((name, _)) => r matches Some(Operation::GetXAttr(x)) && x.arg == arg && x.name@ == name,
                    None => r is None,
                },
                None => r is None,
            },
        fuse_opcode::FUSE_LISTXATTR => match arg_at::<fuse_getxattr_in>(s) {
                Some((arg, _)) => r matches Some(Operation::ListXAttr(x)) && x.arg == arg,
                None => r is None,
            },
        fuse_opcode::FUSE_REMOVEXATTR => match name_at(s) {
                Some((name, _)) => r matches Some(Operation::RemoveXAttr(x)) && x.name@ == name,
                None => r is None,
            },
        fuse_opcode::FUSE_FLUSH => match arg_at::<fuse_flush_in>(s) {
                Some((arg, _)) => r matches Some(Operation::Flush(x)) && x.arg == arg,
                None => r is None,
            },
        fuse_opcode::FUSE_INIT => if s.len() >= 16 {
                r matches Some(Operation::Init(x)) && x.arg == init_in_at(s)
            } else {
                r is None
            },
        fuse_opcode::FUSE_OPENDIR => match arg_at::<fuse_open_in>(s) {
                Some((arg, _)) => r matches Some(Operation::OpenDir(x)) && x.arg == arg,
                None => r is None,
            },
        fuse_opcode::FUSE_READDIR => match arg_at::<fuse_read_in>(s) {
                Some((arg, _)) => r matches Some(Operation::ReadDir(x)) && x.arg == arg,
                None => r is None,
            },
        fuse_opcode::FUSE_RELEASEDIR => match arg_at::<fuse_release_in>(s) {
                Some((arg, _)) => r matches Some(Operation::ReleaseDir(x)) && x.arg == arg,
                None => r is None,
            },
        fuse_opcode::FUSE_FSYNCDIR => match arg_at::<fuse_fsync_in>(s) {
                Some((arg, _)) => r matches Some(Operation::FSyncDir(x)) && x.arg == arg,
                None => r is None,
            },
        fuse_opcode::FUSE_GETLK => match arg_at::<fuse_lk_in>(s) {
                Some((arg, _)) => r matches Some(Operation::GetLk(x)) && x.arg == arg,
                None => r is None,
            },
        fuse_opcode::FUSE_SETLK => match arg_at::<fuse_lk_in>(s) {
                Some((arg, _)) => r matches Some(Operation::SetLk(x)) && x.arg == arg,
                None => r is None,
            },
        fuse_opcode::FUSE_SETLKW => match arg_at::<fuse_lk_in>(s) {
                Some((arg, _)) => r matches Some(Operation::SetLkW(x)) && x.arg == arg,
                None => r is None,
            },
        fuse_opcode::FUSE_ACCESS => match arg_at::<fuse_access_in>(s) {
                Some((arg, _)) => r matches Some(Operation::Access(x)) && x.arg == arg,
                None => r is None,
            },
        fuse_opcode::FUSE_CREATE => match arg_at::<fuse_create_in>(s) {
                Some((arg, s1)) => match name_at(s1) {
                    Some((name, _)) => r matches Some(Operation::Create(x)) && x.arg == arg && x.name@ == name,
                    None => r is None,
                },
                None => r is None,
            },
        fuse_opcode::FUSE_INTERRUPT => match arg_at::<fuse_interrupt_in>(s) {
                Some((arg, _)) => r matches Some(Operation::Interrupt(x)) && x.arg == arg,
                None => r is None,
            },
        fuse_opcode::FUSE_BMAP => match arg_at::<fuse_bmap_in>(s) {
                Some((arg, _)) => r matches Some(Operation::BMap(x)) && x.arg == arg,
                None => r is None,
            },
        fuse_opcode::FUSE_DESTROY => r matches Some(Operation::Destroy(x)),
        fuse_opcode::FUSE_IOCTL => match arg_at::<fuse_ioctl_in>(s) {
                Some((arg, s1)) => r matches Some(Operation::IoCtl(x)) && x.arg == arg && x.data@ == s1,
                None => r is None,
            },
        fuse_opcode::FUSE_POLL => match arg_at::<fuse_poll_in>(s) {
                Some((arg, _)) => r matches Some(Operation::Poll(x)) && x.arg == arg,
                None => r is None,
            },
        fuse_opcode::FUSE_NOTIFY_REPLY => r matches Some(Operation::NotifyReply(x)) && x.data@ == s,
        fuse_opcode::FUSE_BATCH_FORGET => match arg_at::<fuse_forget_in>(s) {
                Some((arg, _)) => r matches Some(Operation::BatchForget(x)) && x.arg == arg && x.nodes@ == Seq::<fuse_forget_one>::empty(),
                None => r is None,
            },
        fuse_opcode::FUSE_FALLOCATE => match arg_at::<fuse_fallocate_in>(s) {
                Some((arg, _)) => r matches Some(Operation::FAllocate(x)) && x.arg == arg,
                None => r is None,
            },
        fuse_opcode::FUSE_READDIRPLUS => match arg_at::<fuse_read_in>(s) {
                Some((arg, _)) => r matches Some(Operation::ReadDirPlus(x)) && x.arg == arg,
                None => r is None,
            },
        fuse_opcode::FUSE_RENAME2 => match arg_at::<fuse_rename2_in>(s) {
                Some((arg, s1)) => match name_at(s1) {
                    Some((name, s2)) => match name_at(s2) {
                        Some((newname, _)) => r matches Some(Operation::Rename2(x)) && x.arg == arg && x.name@ == name && x.newname@ == newname,
                        None => r is None,
                    },
                    None => r is None,
                },
                None => r is None,
            },
        fuse_opcode::FUSE_LSEEK => match arg_at::<fuse_lseek_in>(s) {
                Some((arg, _)) => r matches Some(Operation::Lseek(x)) && x.arg == arg,
                None => r is None,
            },
        fuse_opcode::FUSE_COPY_FILE_RANGE => match arg_at::<fuse_copy_file_range_in>(s) {
                Some((arg, _)) => r matches Some(Operation::CopyFileRange(x)) && x.arg == arg,
                None => r is None,
            },
        fuse_opcode::CUSE_INIT => if s.len() >= 64 {
                r matches Some(Operation::CuseInit(x)) && x.arg == init_in_at(s)
            } else {
                r is None
            },
    }
}

impl<'a> Operation<'a> {
    /// The opcode of the operation.
    pub open spec fn spec_opcode(self) -> fuse_opcode {
        match self {
            Operation::Lookup(_) => fuse_opcode::FUSE_LOOKUP,
            Operation::Forget(_) => fuse_opcode::FUSE_FORGET,
            Operation::GetAttr(_) => fuse_opcode::FUSE_GETATTR,
            Operation::SetAttr(_) => fuse_opcode::FUSE_SETATTR,
            Operation::ReadLink(_) => fuse_opcode::FUSE_READLINK,
            Operation::SymLink(_) => fuse_opcode::FUSE_SYMLINK,
            Operation::MkNod(_) => fuse_opcode::FUSE_MKNOD,
            Operation::MkDir(_) => fuse_opcode::FUSE_MKDIR,
            Operation::Unlink(_) => fuse_opcode::FUSE_UNLINK,
            Operation::RmDir(_) => fuse_opcode::FUSE_RMDIR,
            Operation::Rename(_) => fuse_opcode::FUSE_RENAME,
            Operation::Link(_) => fuse_opcode::FUSE_LINK,
            Operation::Open(_) => fuse_opcode::FUSE_OPEN,
            Operation::Read(_) => fuse_opcode::FUSE_READ,
            Operation::Write(_) => fuse_opcode::FUSE_WRITE,
            Operation::StatFs(_) => fuse_opcode::FUSE_STATFS,
            Operation::Release(_) => fuse_opcode::FUSE_RELEASE,
            Operation::FSync(_) => fuse_opcode::FUSE_FSYNC,
            Operation::SetXAttr(_) => fuse_opcode::FUSE_SETXATTR,
            Operation::GetXAttr(_) => fuse_opcode::FUSE_GETXATTR,
            Operation::ListXAttr(_) => fuse_opcode::FUSE_LISTXATTR,
            Operation::RemoveXAttr(_) => fuse_opcode::FUSE_REMOVEXATTR,
            Operation::Flush(_) => fuse_opcode::FUSE_FLUSH,
            Operation::Init(_) => fuse_opcode::FUSE_INIT,
            Operation::OpenDir(_) => fuse_opcode::FUSE_OPENDIR,
            Operation::ReadDir(_) => fuse_opcode::FUSE_READDIR,
            Operation::ReleaseDir(_) => fuse_opcode::FUSE_RELEASEDIR,
            Operation::FSyncDir(_) => fuse_opcode::FUSE_FSYNCDIR,
            Operation::GetLk(_) => fuse_opcode::FUSE_GETLK,
            Operation::SetLk(_) => fuse_opcode::FUSE_SETLK,
            Operation::SetLkW(_) => fuse_opcode::FUSE_SETLKW,
            Operation::Access(_) => fuse_opcode::FUSE_ACCESS,
            Operation::Create(_) => fuse_opcode::FUSE_CREATE,
            Operation::Interrupt(_) => fuse_opcode::FUSE_INTERRUPT,
            Operation::BMap(_) => fuse_opcode::FUSE_BMAP,
            Operation::Destroy(_) => fuse_opcode::FUSE_DESTROY,
            Operation::IoCtl(_) => fuse_opcode::FUSE_IOCTL,
            Operation::Poll(_) => fuse_opcode::FUSE_POLL,
            Operation::NotifyReply(_) => fuse_opcode::FUSE_NOTIFY_REPLY,
            Operation::BatchForget(_) => fuse_opcode::FUSE_BATCH_FORGET,
            Operation::FAllocate(_) => fuse_opcode::FUSE_FALLOCATE,
            Operation::ReadDirPlus(_) => fuse_opcode::FUSE_READDIRPLUS,
            Operation::Rename2(_) => fuse_opcode::FUSE_RENAME2,
            Operation::Lseek(_) => fuse_opcode::FUSE_LSEEK,
            Operation::CopyFileRange(_) => fuse_opcode::FUSE_COPY_FILE_RANGE,
            Operation::CuseInit(_) => fuse_opcode::CUSE_INIT,
        }
    }

    /// The arguments of the operation, as the kernel driver sends them.
    pub open spec fn spec_args(self) -> Seq<u8> {
        match self {
            Operation::Lookup(x) => x.name@ + (seq![0u8] + Seq::empty()),
            Operation::Forget(x) => x.arg.spec_encode(Seq::empty()),
            Operation::GetAttr(_) => Seq::empty(),
            Operation::SetAttr(x) => x.arg.spec_encode(Seq::empty()),
            Operation::ReadLink(_) => Seq::empty(),
            Operation::SymLink(x) => x.name@ + (seq![0u8] + (x.link@ + (seq![0u8] + Seq::empty()))),
            Operation::MkNod(x) => x.arg.spec_encode(x.name@ + (seq![0u8] + Seq::empty())),
            Operation::MkDir(x) => x.arg.spec_encode(x.name@ + (seq![0u8] + Seq::empty())),
            Operation::Unlink(x) => x.name@ + (seq![0u8] + Seq::empty()),
            Operation::RmDir(x) => x.name@ + (seq![0u8] + Seq::empty()),
            Operation::Rename(x) => x.arg.spec_encode(x.name@ + (seq![0u8] + (x.newname@ + (seq![0u8] + Seq::empty())))),
            Operation::Link(x) => x.arg.spec_encode(x.name@ + (seq![0u8] + Seq::empty())),
            Operation::Open(x) => x.arg.spec_encode(Seq::empty()),
            Operation::Read(x) => x.arg.spec_encode(Seq::empty()),
            Operation::Write(x) => x.arg.spec_encode(x.data@),
            Operation::StatFs(_) => Seq::empty(),
            Operation::Release(x) => x.arg.spec_encode(Seq::empty()),
            Operation::FSync(x) => x.arg.spec_encode(Seq::empty()),
            Operation::SetXAttr(x) => x.arg.spec_encode(x.name@ + (seq![0u8] + x.value@)),
            Operation::GetXAttr(x) => x.arg.spec_encode(x.name@ + (seq![0u8] + Seq::empty())),
            Operation::ListXAttr(x) => x.arg.spec_encode(Seq::empty()),
            Operation::RemoveXAttr(x) => x.name@ + (seq![0u8] + Seq::empty()),
            Operation::Flush(x) => x.arg.spec_encode(Seq::empty()),
            Operation::Init(x) => x.arg.spec_encode(Seq::empty()),
            Operation::OpenDir(x) => x.arg.spec_encode(Seq::empty()),
            Operation::ReadDir(x) => x.arg.spec_encode(Seq::empty()),
            Operation::ReleaseDir(x) => x.arg.spec_encode(Seq::empty()),
            Operation::FSyncDir(x) => x.arg.spec_encode(Seq::empty()),
            Operation::GetLk(x) => x.arg.spec_encode(Seq::empty()),
            Operation::SetLk(x) => x.arg.spec_encode(Seq::empty()),
            Operation::SetLkW(x) => x.arg.spec_encode(Seq::empty()),
            Operation::Access(x) => x.arg.spec_encode(Seq::empty()),
            Operation::Create(x) => x.arg.spec_encode(x.name@ + (seq![0u8] + Seq::empty())),
            Operation::Interrupt(x) => x.arg.spec_encode(Seq::empty()),
            Operation::BMap(x) => x.arg.spec_encode(Seq::empty()),
            Operation::Destroy(_) => Seq::empty(),
            Operation::IoCtl(x) => x.arg.spec_encode(x.data@),
            Operation::Poll(x) => x.arg.spec_encode(Seq::empty()),
            Operation::NotifyReply(x) => x.data@,
            Operation::BatchForget(x) => x.arg.spec_encode(Seq::empty()),
            Operation::FAllocate(x) => x.arg.spec_encode(Seq::empty()),
            Operation::ReadDirPlus(x) => x.arg.spec_encode(Seq::empty()),
            Operation::Rename2(x) => x.arg.spec_encode(x.name@ + (seq![0u8] + (x.newname@ + (seq![0u8] + Seq::empty())))),
            Operation::Lseek(x) => x.arg.spec_encode(Seq::empty()),
            Operation::CopyFileRange(x) => x.arg.spec_encode(Seq::empty()),
            Operation::CuseInit(x) => x.arg.spec_encode(Seq::empty()),
        }
    }

    /// Whether the operation is one that can be sent: no name holds a zero byte.
    pub open spec fn sendable(self) -> bool {
        match self {
            Operation::Lookup(x) => no_zero(x.name@),
            Operation::SymLink(x) => no_zero(x.name@) && no_zero(x.link@),
            Operation::MkNod(x) => no_zero(x.name@),
            Operation::MkDir(x) => no_zero(x.name@),
            Operation::Unlink(x) => no_zero(x.name@),
            Operation::RmDir(x) => no_zero(x.name@),
            Operation::Rename(x) => no_zero(x.name@) && no_zero(x.newname@),
            Operation::Link(x) => no_zero(x.name@),
            Operation::SetXAttr(x) => no_zero(x.name@),
            Operation::GetXAttr(x) => no_zero(x.name@),
            Operation::RemoveXAttr(x) => no_zero(x.name@),
            Operation::Create(x) => no_zero(x.name@),
            Operation::BatchForget(x) => x.nodes@.len() == 0,
            Operation::Rename2(x) => no_zero(x.name@) && no_zero(x.newname@),
            _ => true,
        }
    }

    /// The text that describes the operation.
    pub open spec fn spec_pieces(self) -> Seq<PieceView> {
        match self {
            Operation::Lookup(x) => seq![
                PieceView::Text("LOOKUP name "@),
                PieceView::Name(x.name@),
            ],
            Operation::Forget(x) => seq![
                PieceView::Text("FORGET nlookup "@),
                PieceView::Text(decimal(x.arg.nlookup as int)),
            ],
            Operation::GetAttr(_) => seq![PieceView::Text("GETATTR"@)],
            Operation::SetAttr(x) => seq![
                PieceView::Text("SETATTR valid "@),
                PieceView::Text(hex(x.arg.valid as nat)),
            ],
            Operation::ReadLink(_) => seq![PieceView::Text("READLINK"@)],
            Operation::SymLink(x) => seq![
                PieceView::Text("SYMLINK name "@),
                PieceView::Name(x.name@),
                PieceView::Text(", link "@),
                PieceView::Name(x.link@),
            ],
            Operation::MkNod(x) => seq![
                PieceView::Text("MKNOD name "@),
                PieceView::Name(x.name@),
                PieceView::Text(", mode "@),
                PieceView::Text(octal3(x.arg.mode as nat)),
                PieceView::Text(", rdev "@),
                PieceView::Text(decimal(x.arg.rdev as int)),
            ],
            Operation::MkDir(x) => seq![
                PieceView::Text("MKDIR name "@),
                PieceView::Name(x.name@),
                PieceView::Text(", mode "@),
                PieceView::Text(octal3(x.arg.mode as nat)),
            ],
            Operation::Unlink(x) => seq![
                PieceView::Text("UNLINK name "@),
                PieceView::Name(x.name@),
            ],
            Operation::RmDir(x) => seq![
                PieceView::Text("RMDIR name "@),
                PieceView::Name(x.name@),
            ],
            Operation::Rename(x) => seq![
                PieceView::Text("RENAME name "@),
                PieceView::Name(x.name@),
                PieceView::Text(", newdir "@),
                PieceView::Text(hex16(x.arg.newdir as nat)),
                PieceView::Text(", newname "@),
                PieceView::Name(x.newname@),
            ],
            Operation::Link(x) => seq![
                PieceView::Text("LINK name "@),
                PieceView::Name(x.name@),
                PieceView::Text(", oldnodeid "@),
                PieceView::Text(hex16(x.arg.oldnodeid as nat)),
            ],
            Operation::Open(x) => seq![
                PieceView::Text("OPEN flags "@),
                PieceView::Text(hex((x.arg.flags as u32) as nat)),
            ],
            Operation::Read(x) => seq![
                PieceView::Text("READ fh "@),
                PieceView::Text(decimal(x.arg.fh as int)),
                PieceView::Text(", offset "@),
                PieceView::Text(decimal(x.arg.offset as int)),
                PieceView::Text(", size "@),
                PieceView::Text(decimal(x.arg.size as int)),
            ],
            Operation::Write(x) => seq![
                PieceView::Text("WRITE fh "@),
                PieceView::Text(decimal(x.arg.fh as int)),
                PieceView::Text(", offset "@),
                PieceView::Text(decimal(x.arg.offset as int)),
                PieceView::Text(", size "@),
                PieceView::Text(decimal(x.arg.size as int)),
                PieceView::Text(", write flags "@),
                PieceView::Text(hex(x.arg.write_flags as nat)),
            ],
            Operation::StatFs(_) => seq![PieceView::Text("STATFS"@)],
            Operation::Release(x) => seq![
                PieceView::Text("RELEASE fh "@),
                PieceView::Text(decimal(x.arg.fh as int)),
                PieceView::Text(", flags "@),
                PieceView::Text(hex((x.arg.flags as u32) as nat)),
                PieceView::Text(", release flags "@),
                PieceView::Text(hex(x.arg.release_flags as nat)),
                PieceView::Text(", lock owner "@),
                PieceView::Text(decimal(x.arg.lock_owner as int)),
            ],
            Operation::FSync(x) => seq![
                PieceView::Text("FSYNC fh "@),
                PieceView::Text(decimal(x.arg.fh as int)),
                PieceView::Text(", fsync flags "@),
                PieceView::Text(hex(x.arg.fsync_flags as nat)),
            ],
            Operation::SetXAttr(x) => seq![
                PieceView::Text("SETXATTR name "@),
                PieceView::Name(x.name@),
                PieceView::Text(", size "@),
                PieceView::Text(decimal(x.arg.size as int)),
                PieceView::Text(", flags "@),
                PieceView::Text(hex((x.arg.flags as u32) as nat)),
            ],
            Operation::GetXAttr(x) => seq![
                PieceView::Text("GETXATTR name "@),
                PieceView::Name(x.name@),
                PieceView::Text(", size "@),
                PieceView::Text(decimal(x.arg.size as int)),
            ],
            Operation::ListXAttr(x) => seq![
                PieceView::Text("LISTXATTR size "@),
                PieceView::Text(decimal(x.arg.size as int)),
            ],
            Operation::RemoveXAttr(x) => seq![
                PieceView::Text("REMOVEXATTR name "@),
                PieceView::Name(x.name@),
            ],
            Operation::Flush(x) => seq![
                PieceView::Text("FLUSH fh "@),
                PieceView::Text(decimal(x.arg.fh as int)),
                PieceView::Text(", lock owner "@),
                PieceView::Text(decimal(x.arg.lock_owner as int)),
            ],
            Operation::Init(x) => seq![
                PieceView::Text("INIT kernel ABI "@),
                PieceView::Text(decimal(x.arg.major as int)),
                PieceView::Text("."@),
                PieceView::Text(decimal(x.arg.minor as int)),
                PieceView::Text(", flags "@),
                PieceView::Text(hex(x.arg.flags as nat)),
                PieceView::Text(", max readahead "@),
                PieceView::Text(decimal(x.arg.max_readahead as int)),
            ],
            Operation::OpenDir(x) => seq![
                PieceView::Text("OPENDIR flags "@),
                PieceView::Text(hex((x.arg.flags as u32) as nat)),
            ],
            Operation::ReadDir(x) => seq![
                PieceView::Text("READDIR fh "@),
                PieceView::Text(decimal(x.arg.fh as int)),
                PieceView::Text(", offset "@),
                PieceView::Text(decimal(x.arg.offset as int)),
                PieceView::Text(", size "@),
                PieceView::Text(decimal(x.arg.size as int)),
            ],
            Operation::ReleaseDir(x) => seq![
                PieceView::Text("RELEASEDIR fh "@),
                PieceView::Text(decimal(x.arg.fh as int)),
                PieceView::Text(", flags "@),
                PieceView::Text(hex((x.arg.flags as u32) as nat)),
                PieceView::Text(", release flags "@),
                PieceView::Text(hex(x.arg.release_flags as nat)),
                PieceView::Text(", lock owner "@),
                PieceView::Text(decimal(x.arg.lock_owner as int)),
            ],
            Operation::FSyncDir(x) => seq![
                PieceView::Text("FSYNCDIR fh "@),
                PieceView::Text(decimal(x.arg.fh as int)),
                PieceView::Text(", fsync flags "@),
                PieceView::Text(hex(x.arg.fsync_flags as nat)),
            ],
            Operation::GetLk(x) => seq![
                PieceView::Text("GETLK fh "@),
                PieceView::Text(decimal(x.arg.fh as int)),
                PieceView::Text(", lock owner "@),
                PieceView::Text(decimal(x.arg.owner as int)),
            ],
            Operation::SetLk(x) => seq![
                PieceView::Text("SETLK fh "@),
                PieceView::Text(decimal(x.arg.fh as int)),
                PieceView::Text(", lock owner "@),
                PieceView::Text(decimal(x.arg.owner as int)),
            ],
            Operation::SetLkW(x) => seq![
                PieceView::Text("SETLKW fh "@),
                PieceView::Text(decimal(x.arg.fh as int)),
                PieceView::Text(", lock owner "@),
                PieceView::Text(decimal(x.arg.owner as int)),
            ],
            Operation::Access(x) => seq![
                PieceView::Text("ACCESS mask "@),
                PieceView::Text(octal3((x.arg.mask as u32) as nat)),
            ],
            Operation::Create(x) => seq![
                PieceView::Text("CREATE name "@),
                PieceView::Name(x.name@),
                PieceView::Text(", mode "@),
                PieceView::Text(octal3(x.arg.mode as nat)),
                PieceView::Text(", flags "@),
                PieceView::Text(hex((x.arg.flags as u32) as nat)),
            ],
            Operation::Interrupt(x) => seq![
                PieceView::Text("INTERRUPT unique "@),
                PieceView::Text(decimal(x.arg.unique as int)),
            ],
            Operation::BMap(x) => seq![
                PieceView::Text("BMAP blocksize "@),
                PieceView::Text(decimal(x.arg.blocksize as int)),
                PieceView::Text(", ids "@),
                PieceView::Text(decimal(x.arg.block as int)),
            ],
            Operation::Destroy(_) => seq![PieceView::Text("DESTROY"@)],
            Operation::IoCtl(x) => seq![
                PieceView::Text("IOCTL fh "@),
                PieceView::Text(decimal(x.arg.fh as int)),
                PieceView::Text(", cmd "@),
                PieceView::Text(decimal(x.arg.cmd as int)),
                PieceView::Text(", data size "@),
                PieceView::Text(decimal(x.data@.len() as int)),
                PieceView::Text(", flags "@),
                PieceView::Text(hex(x.arg.flags as nat)),
            ],
            Operation::Poll(x) => seq![
                PieceView::Text("POLL fh "@),
                PieceView::Text(decimal(x.arg.fh as int)),
                PieceView::Text(", flags "@),
                PieceView::Text(hex(x.arg.flags as nat)),
            ],
            Operation::NotifyReply(x) => seq![
                PieceView::Text("NOTIFYREPLY data len "@),
                PieceView::Text(decimal(x.data@.len() as int)),
            ],
            Operation::BatchForget(x) => seq![
                PieceView::Text("BATCHFORGET nodes "@),
                PieceView::Text(decimal(x.nodes@.len() as int)),
                PieceView::Text(", nlookup "@),
                PieceView::Text(decimal(x.arg.nlookup as int)),
            ],
            Operation::FAllocate(_) => seq![PieceView::Text("FALLOCATE"@)],
            Operation::ReadDirPlus(x) => seq![
                PieceView::Text("READDIRPLUS fh "@),
                PieceView::Text(decimal(x.arg.fh as int)),
                PieceView::Text(", offset "@),
                PieceView::Text(decimal(x.arg.offset as int)),
                PieceView::Text(", size "@),
                PieceView::Text(decimal(x.arg.size as int)),
            ],
            Operation::Rename2(x) => seq![
                PieceView::Text("RENAME2 name "@),
                PieceView::Name(x.name@),
                PieceView::Text(", newdir "@),
                PieceView::Text(hex16(x.arg.newdir as nat)),
                PieceView::Text(", newname "@),
                PieceView::Name(x.newname@),
            ],
            Operation::Lseek(x) => seq![
                PieceView::Text("LSEEK fh "@),
                PieceView::Text(decimal(x.arg.fh as int)),
                PieceView::Text(", offset "@),
                PieceView::Text(decimal(x.arg.offset as int)),
                PieceView::Text(", whence "@),
                PieceView::Text(decimal(x.arg.whence as int)),
            ],
            Operation::CopyFileRange(x) => seq![
                PieceView::Text("COPY_FILE_RANGE fh_in "@),
                PieceView::Text(decimal(x.arg.fh_in as int)),
                PieceView::Text(", offset_in "@),
                PieceView::Text(decimal(x.arg.off_in as int)),
                PieceView::Text(", fh_out "@),
                PieceView::Text(decimal(x.arg.fh_out as int)),
                PieceView::Text(", offset_out "@),
                PieceView::Text(decimal(x.arg.off_out as int)),
                PieceView::Text(", inode_out "@),
                PieceView::Text(decimal(x.arg.nodeid_out as int)),
                PieceView::Text(", len "@),
                PieceView::Text(decimal(x.arg.len as int)),
            ],
            Operation::CuseInit(x) => seq![
                PieceView::Text("CUSE_INIT kernel ABI "@),
                PieceView::Text(decimal(x.arg.major as int)),
                PieceView::Text("."@),
                PieceView::Text(decimal(x.arg.minor as int)),
                PieceView::Text(", flags "@),
                PieceView::Text(hex(x.arg.flags as nat)),
                PieceView::Text(", max readahead "@),
                PieceView::Text(decimal(x.arg.max_readahead as int)),
            ],
        }
    }

    /// The text that describes the operation.
    pub fn pieces(&self) -> (r: Vec<Piece<'a>>)
        ensures
            piece_views(r@) == self.spec_pieces(),
    {
        let r = match self {
            Operation::Lookup(x) => vec![
                Piece::Text(String::from_str("LOOKUP name ")),
                Piece::Name(x.name),
            ],
            Operation::Forget(x) => vec![
                Piece::Text(String::from_str("FORGET nlookup ")),
                Piece::Text(to_decimal(x.arg.nlookup as u64)),
            ],
            Operation::GetAttr(_) => vec![Piece::Text(String::from_str("GETATTR"))],
            Operation::SetAttr(x) => vec![
                Piece::Text(String::from_str("SETATTR valid ")),
                Piece::Text(to_hex(x.arg.valid as u64)),
            ],
            Operation::ReadLink(_) => vec![Piece::Text(String::from_str("READLINK"))],
            Operation::SymLink(x) => vec![
                Piece::Text(String::from_str("SYMLINK name ")),
                Piece::Name(x.name),
                Piece::Text(String::from_str(", link ")),
                Piece::Name(x.link),
            ],
            Operation::MkNod(x) => vec![
                Piece::Text(String::from_str("MKNOD name ")),
                Piece::Name(x.name),
                Piece::Text(String::from_str(", mode ")),
                Piece::Text(to_octal3(x.arg.mode as u64)),
                Piece::Text(String::from_str(", rdev ")),
                Piece::Text(to_decimal(x.arg.rdev as u64)),
            ],
            Operation::MkDir(x) => vec![
                Piece::Text(String::from_str("MKDIR name ")),
                Piece::Name(x.name),
                Piece::Text(String::from_str(", mode ")),
                Piece::Text(to_octal3(x.arg.mode as u64)),
            ],
            Operation::Unlink(x) => vec![
                Piece::Text(String::from_str("UNLINK name ")),
                Piece::Name(x.name),
            ],
            Operation::RmDir(x) => vec![
                Piece::Text(String::from_str("RMDIR name ")),
                Piece::Name(x.name),
            ],
            Operation::Rename(x) => vec![
                Piece::Text(String::from_str("RENAME name ")),
                Piece::Name(x.name),
                Piece::Text(String::from_str(", newdir ")),
                Piece::Text(to_hex16(x.arg.newdir as u64)),
                Piece::Text(String::from_str(", newname ")),
                Piece::Name(x.newname),
            ],
            Operation::Link(x) => vec![
                Piece::Text(String::from_str("LINK name ")),
                Piece::Name(x.name),
                Piece::Text(String::from_str(", oldnodeid ")),
                Piece::Text(to_hex16(x.arg.oldnodeid as u64)),
            ],
            Operation::Open(x) => vec![
                Piece::Text(String::from_str("OPEN flags ")),
                Piece::Text(to_hex(#[verifier::truncate] (x.arg.flags as u32) as u64)),
            ],
            Operation::Read(x) => vec![
                Piece::Text(String::from_str("READ fh ")),
                Piece::Text(to_decimal(x.arg.fh as u64)),
                Piece::Text(String::from_str(", offset ")),
                Piece::Text(to_decimal(x.arg.offset as u64)),
                Piece::Text(String::from_str(", size ")),
                Piece::Text(to_decimal(x.arg.size as u64)),
            ],
            Operation::Write(x) => vec![
                Piece::Text(String::from_str("WRITE fh ")),
                Piece::Text(to_decimal(x.arg.fh as u64)),
                Piece::Text(String::from_str(", offset ")),
                Piece::Text(to_signed_decimal(x.arg.offset as i64)),
                Piece::Text(String::from_str(", size ")),
                Piece::Text(to_decimal(x.arg.size as u64)),
                Piece::Text(String::from_str(", write flags ")),
                Piece::Text(to_hex(x.arg.write_flags as u64)),
            ],
            Operation::StatFs(_) => vec![Piece::Text(String::from_str("STATFS"))],
            Operation::Release(x) => vec![
                Piece::Text(String::from_str("RELEASE fh ")),
                Piece::Text(to_decimal(x.arg.fh as u64)),
                Piece::Text(String::from_str(", flags ")),
                Piece::Text(to_hex(#[verifier::truncate] (x.arg.flags as u32) as u64)),
                Piece::Text(String::from_str(", release flags ")),
                Piece::Text(to_hex(x.arg.release_flags as u64)),
                Piece::Text(String::from_str(", lock owner ")),
                Piece::Text(to_decimal(x.arg.lock_owner as u64)),
            ],
            Operation::FSync(x) => vec![
                Piece::Text(String::from_str("FSYNC fh ")),
                Piece::Text(to_decimal(x.arg.fh as u64)),
                Piece::Text(String::from_str(", fsync flags ")),
                Piece::Text(to_hex(x.arg.fsync_flags as u64)),
            ],
            Operation::SetXAttr(x) => vec![
                Piece::Text(String::from_str("SETXATTR name ")),
                Piece::Name(x.name),
                Piece::Text(String::from_str(", size ")),
                Piece::Text(to_decimal(x.arg.size as u64)),
                Piece::Text(String::from_str(", flags ")),
                Piece::Text(to_hex(#[verifier::truncate] (x.arg.flags as u32) as u64)),
            ],
            Operation::GetXAttr(x) => vec![
                Piece::Text(String::from_str("GETXATTR name ")),
                Piece::Name(x.name),
                Piece::Text(String::from_str(", size ")),
                Piece::Text(to_decimal(x.arg.size as u64)),
            ],
            Operation::ListXAttr(x) => vec![
                Piece::Text(String::from_str("LISTXATTR size ")),
                Piece::Text(to_decimal(x.arg.size as u64)),
            ],
            Operation::RemoveXAttr(x) => vec![
                Piece::Text(String::from_str("REMOVEXATTR name ")),
                Piece::Name(x.name),
            ],
            Operation::Flush(x) => vec![
                Piece::Text(String::from_str("FLUSH fh ")),
                Piece::Text(to_decimal(x.arg.fh as u64)),
                Piece::Text(String::from_str(", lock owner ")),
                Piece::Text(to_decimal(x.arg.lock_owner as u64)),
            ],
            Operation::Init(x) => vec![
                Piece::Text(String::from_str("INIT kernel ABI ")),
                Piece::Text(to_decimal(x.arg.major as u64)),
                Piece::Text(String::from_str(".")),
                Piece::Text(to_decimal(x.arg.minor as u64)),
                Piece::Text(String::from_str(", flags ")),
                Piece::Text(to_hex(x.arg.flags as u64)),
                Piece::Text(String::from_str(", max readahead ")),
                Piece::Text(to_decimal(x.arg.max_readahead as u64)),
            ],
            Operation::OpenDir(x) => vec![
                Piece::Text(String::from_str("OPENDIR flags ")),
                Piece::Text(to_hex(#[verifier::truncate] (x.arg.flags as u32) as u64)),
            ],
            Operation::ReadDir(x) => vec![
                Piece::Text(String::from_str("READDIR fh ")),
                Piece::Text(to_decimal(x.arg.fh as u64)),
                Piece::Text(String::from_str(", offset ")),
                Piece::Text(to_decimal(x.arg.offset as u64)),
                Piece::Text(String::from_str(", size ")),
                Piece::Text(to_decimal(x.arg.size as u64)),
            ],
            Operation::ReleaseDir(x) => vec![
                Piece::Text(String::from_str("RELEASEDIR fh ")),
                Piece::Text(to_decimal(x.arg.fh as u64)),
                Piece::Text(String::from_str(", flags ")),
                Piece::Text(to_hex(#[verifier::truncate] (x.arg.flags as u32) as u64)),
                Piece::Text(String::from_str(", release flags ")),
                Piece::Text(to_hex(x.arg.release_flags as u64)),
                Piece::Text(String::from_str(", lock owner ")),
                Piece::Text(to_decimal(x.arg.lock_owner as u64)),
            ],
            Operation::FSyncDir(x) => vec![
                Piece::Text(String::from_str("FSYNCDIR fh ")),
                Piece::Text(to_decimal(x.arg.fh as u64)),
                Piece::Text(String::from_str(", fsync flags ")),
                Piece::Text(to_hex(x.arg.fsync_flags as u64)),
            ],
            Operation::GetLk(x) => vec![
                Piece::Text(String::from_str("GETLK fh ")),
                Piece::Text(to_decimal(x.arg.fh as u64)),
                Piece::Text(String::from_str(", lock owner ")),
                Piece::Text(to_decimal(x.arg.owner as u64)),
            ],
            Operation::SetLk(x) => vec![
                Piece::Text(String::from_str("SETLK fh ")),
                Piece::Text(to_decimal(x.arg.fh as u64)),
                Piece::Text(String::from_str(", lock owner ")),
                Piece::Text(to_decimal(x.arg.owner as u64)),
            ],
            Operation::SetLkW(x) => vec![
                Piece::Text(String::from_str("SETLKW fh ")),
                Piece::Text(to_decimal(x.arg.fh as u64)),
                Piece::Text(String::from_str(", lock owner ")),
                Piece::Text(to_decimal(x.arg.owner as u64)),
            ],
            Operation::Access(x) => vec![
                Piece::Text(String::from_str("ACCESS mask ")),
                Piece::Text(to_octal3(#[verifier::truncate] (x.arg.mask as u32) as u64)),
            ],
            Operation::Create(x) => vec![
                Piece::Text(String::from_str("CREATE name ")),
                Piece::Name(x.name),
                Piece::Text(String::from_str(", mode ")),
                Piece::Text(to_octal3(x.arg.mode as u64)),
                Piece::Text(String::from_str(", flags ")),
                Piece::Text(to_hex(#[verifier::truncate] (x.arg.flags as u32) as u64)),
            ],
            Operation::Interrupt(x) => vec![
                Piece::Text(String::from_str("INTERRUPT unique ")),
                Piece::Text(to_decimal(x.arg.unique as u64)),
            ],
            Operation::BMap(x) => vec![
                Piece::Text(String::from_str("BMAP blocksize ")),
                Piece::Text(to_decimal(x.arg.blocksize as u64)),
                Piece::Text(String::from_str(", ids ")),
                Piece::Text(to_decimal(x.arg.block as u64)),
            ],
            Operation::Destroy(_) => vec![Piece::Text(String::from_str("DESTROY"))],
            Operation::IoCtl(x) => vec![
                Piece::Text(String::from_str("IOCTL fh ")),
                Piece::Text(to_decimal(x.arg.fh as u64)),
                Piece::Text(String::from_str(", cmd ")),
                Piece::Text(to_decimal(x.arg.cmd as u64)),
                Piece::Text(String::from_str(", data size ")),
                Piece::Text(to_decimal(x.data.len() as u64)),
                Piece::Text(String::from_str(", flags ")),
                Piece::Text(to_hex(x.arg.flags as u64)),
            ],
            Operation::Poll(x) => vec![
                Piece::Text(String::from_str("POLL fh ")),
                Piece::Text(to_decimal(x.arg.fh as u64)),
                Piece::Text(String::from_str(", flags ")),
                Piece::Text(to_hex(x.arg.flags as u64)),
            ],
            Operation::NotifyReply(x) => vec![
                Piece::Text(String::from_str("NOTIFYREPLY data len ")),
                Piece::Text(to_decimal(x.data.len() as u64)),
            ],
            Operation::BatchForget(x) => vec![
                Piece::Text(String::from_str("BATCHFORGET nodes ")),
                Piece::Text(to_decimal(x.nodes.len() as u64)),
                Piece::Text(String::from_str(", nlookup ")),
                Piece::Text(to_decimal(x.arg.nlookup as u64)),
            ],
            Operation::FAllocate(_) => vec![Piece::Text(String::from_str("FALLOCATE"))],
            Operation::ReadDirPlus(x) => vec![
                Piece::Text(String::from_str("READDIRPLUS fh ")),
                Piece::Text(to_decimal(x.arg.fh as u64)),
                Piece::Text(String::from_str(", offset ")),
                Piece::Text(to_decimal(x.arg.offset as u64)),
                Piece::Text(String::from_str(", size ")),
                Piece::Text(to_decimal(x.arg.size as u64)),
            ],
            Operation::Rename2(x) => vec![
                Piece::Text(String::from_str("RENAME2 name ")),
                Piece::Name(x.name),
                Piece::Text(String::from_str(", newdir ")),
                Piece::Text(to_hex16(x.arg.newdir as u64)),
                Piece::Text(String::from_str(", newname ")),
                Piece::Name(x.newname),
            ],
            Operation::Lseek(x) => vec![
                Piece::Text(String::from_str("LSEEK fh ")),
                Piece::Text(to_decimal(x.arg.fh as u64)),
                Piece::Text(String::from_str(", offset ")),
                Piece::Text(to_signed_decimal(x.arg.offset as i64)),
                Piece::Text(String::from_str(", whence ")),
                Piece::Text(to_signed_decimal(x.arg.whence as i64)),
            ],
            Operation::CopyFileRange(x) => vec![
                Piece::Text(String::from_str("COPY_FILE_RANGE fh_in ")),
                Piece::Text(to_decimal(x.arg.fh_in as u64)),
                Piece::Text(String::from_str(", offset_in ")),
                Piece::Text(to_signed_decimal(x.arg.off_in as i64)),
                Piece::Text(String::from_str(", fh_out ")),
                Piece::Text(to_decimal(x.arg.fh_out as u64)),
                Piece::Text(String::from_str(", offset_out ")),
                Piece::Text(to_signed_decimal(x.arg.off_out as i64)),
                Piece::Text(String::from_str(", inode_out ")),
                Piece::Text(to_decimal(x.arg.nodeid_out as u64)),
                Piece::Text(String::from_str(", len ")),
                Piece::Text(to_decimal(x.arg.len as u64)),
            ],
            Operation::CuseInit(x) => vec![
                Piece::Text(String::from_str("CUSE_INIT kernel ABI ")),
                Piece::Text(to_decimal(x.arg.major as u64)),
                Piece::Text(String::from_str(".")),
                Piece::Text(to_decimal(x.arg.minor as u64)),
                Piece::Text(String::from_str(", flags ")),
                Piece::Text(to_hex(x.arg.flags as u64)),
                Piece::Text(String::from_str(", max readahead ")),
                Piece::Text(to_decimal(x.arg.max_readahead as u64)),
            ],
        };
        assert(piece_views(r@) =~= self.spec_pieces());
        r
    }

    /// Parses the arguments of an operation.
    pub fn parse(opcode: &fuse_opcode, data: ArgumentIterator<'a>) -> (r: Option<Operation<'a>>)
        ensures
            parses(*opcode, data@, r),
    {
        let mut data = data;
        Some(match opcode {
            fuse_opcode::FUSE_LOOKUP => Operation::Lookup(Lookup { name: data.fetch_str()? }),
            fuse_opcode::FUSE_FORGET => Operation::Forget(Forget { arg: data.fetch()? }),
            fuse_opcode::FUSE_GETATTR => Operation::GetAttr(GetAttr {}),
            fuse_opcode::FUSE_SETATTR => Operation::SetAttr(SetAttr { arg: data.fetch()? }),
            fuse_opcode::FUSE_READLINK => Operation::ReadLink(ReadLink {}),
            fuse_opcode::FUSE_SYMLINK => Operation::SymLink(
                SymLink { name: data.fetch_str()?, link: data.fetch_str()? },
            ),
            fuse_opcode::FUSE_MKNOD => Operation::MkNod(
                MkNod { arg: data.fetch()?, name: data.fetch_str()? },
            ),
            fuse_opcode::FUSE_MKDIR => Operation::MkDir(
                MkDir { arg: data.fetch()?, name: data.fetch_str()? },
            ),
            fuse_opcode::FUSE_UNLINK => Operation::Unlink(Unlink { name: data.fetch_str()? }),
            fuse_opcode::FUSE_RMDIR => Operation::RmDir(RmDir { name: data.fetch_str()? }),
            fuse_opcode::FUSE_RENAME => Operation::Rename(
                Rename { arg: data.fetch()?, name: data.fetch_str()?, newname: data.fetch_str()? },
            ),
            fuse_opcode::FUSE_LINK => Operation::Link(
                Link { arg: data.fetch()?, name: data.fetch_str()? },
            ),
            fuse_opcode::FUSE_OPEN => Operation::Open(Open { arg: data.fetch()? }),
            fuse_opcode::FUSE_READ => Operation::Read(Read { arg: data.fetch()? }),
            fuse_opcode::FUSE_WRITE => Operation::Write(
                Write { arg: data.fetch()?, data: data.fetch_all() },
            ),
            fuse_opcode::FUSE_STATFS => Operation::StatFs(StatFs {}),
            fuse_opcode::FUSE_RELEASE => Operation::Release(Release { arg: data.fetch()? }),
            fuse_opcode::FUSE_FSYNC => Operation::FSync(FSync { arg: data.fetch()? }),
            fuse_opcode::FUSE_SETXATTR => Operation::SetXAttr(
                SetXAttr { arg: data.fetch()?, name: data.fetch_str()?, value: data.fetch_all() },
            ),
            fuse_opcode::FUSE_GETXATTR => Operation::GetXAttr(
                GetXAttr { arg: data.fetch()?, name: data.fetch_str()? },
            ),
            fuse_opcode::FUSE_LISTXATTR => Operation::ListXAttr(ListXAttr { arg: data.fetch()? }),
            fuse_opcode::FUSE_REMOVEXATTR => Operation::RemoveXAttr(
                RemoveXAttr { name: data.fetch_str()? },
            ),
            fuse_opcode::FUSE_FLUSH => Operation::Flush(Flush { arg: data.fetch()? }),
            fuse_opcode::FUSE_INIT => {
                if data.len() < 16 {
                    return None;
                }
                Operation::Init(Init { arg: decode_init_in(data.peek()) })
            },
            fuse_opcode::FUSE_OPENDIR => Operation::OpenDir(OpenDir { arg: data.fetch()? }),
            fuse_opcode::FUSE_READDIR => Operation::ReadDir(ReadDir { arg: data.fetch()? }),
            fuse_opcode::FUSE_RELEASEDIR => Operation::ReleaseDir(
                ReleaseDir { arg: data.fetch()? },
            ),
            fuse_opcode::FUSE_FSYNCDIR => Operation::FSyncDir(FSyncDir { arg: data.fetch()? }),
            fuse_opcode::FUSE_GETLK => Operation::GetLk(GetLk { arg: data.fetch()? }),
            fuse_opcode::FUSE_SETLK => Operation::SetLk(SetLk { arg: data.fetch()? }),
            fuse_opcode::FUSE_SETLKW => Operation::SetLkW(SetLkW { arg: data.fetch()? }),
            fuse_opcode::FUSE_ACCESS => Operation::Access(Access { arg: data.fetch()? }),
            fuse_opcode::FUSE_CREATE => Operation::Create(
                Create { arg: data.fetch()?, name: data.fetch_str()? },
            ),
            fuse_opcode::FUSE_INTERRUPT => Operation::Interrupt(Interrupt { arg: data.fetch()? }),
            fuse_opcode::FUSE_BMAP => Operation::BMap(BMap { arg: data.fetch()? }),
            fuse_opcode::FUSE_DESTROY => Operation::Destroy(Destroy {}),
            fuse_opcode::FUSE_IOCTL => Operation::IoCtl(
                IoCtl { arg: data.fetch()?, data: data.fetch_all() },
            ),
            fuse_opcode::FUSE_POLL => Operation::Poll(Poll { arg: data.fetch()? }),
            fuse_opcode::FUSE_NOTIFY_REPLY => Operation::NotifyReply(
                NotifyReply { data: data.fetch_all() },
            ),
            fuse_opcode::FUSE_BATCH_FORGET => Operation::BatchForget(
                BatchForget { arg: data.fetch()?, nodes: no_nodes() },
            ),
            fuse_opcode::FUSE_FALLOCATE => Operation::FAllocate(FAllocate { arg: data.fetch()? }),
            fuse_opcode::FUSE_READDIRPLUS => Operation::ReadDirPlus(
                ReadDirPlus { arg: data.fetch()? },
            ),
            fuse_opcode::FUSE_RENAME2 => Operation::Rename2(
                Rename2 { arg: data.fetch()?, name: data.fetch_str()?, newname: data.fetch_str()? },
            ),
            fuse_opcode::FUSE_LSEEK => Operation::Lseek(Lseek { arg: data.fetch()? }),
            fuse_opcode::FUSE_COPY_FILE_RANGE => Operation::CopyFileRange(
                CopyFileRange { arg: data.fetch()? },
            ),
            fuse_opcode::CUSE_INIT => {
                if data.len() < 64 {
                    return None;
                }
                Operation::CuseInit(CuseInit { arg: decode_init_in(data.peek()) })
            },
        })
    }
}

/// Whether `s` holds no zero byte.
pub open spec fn no_zero(s: Seq<u8>) -> bool {
    forall|k: int| 0 <= k < s.len() ==> s[k] != 0
}

/// No nodes.
fn no_nodes<'a>() -> (r: &'a [fuse_forget_one])
    ensures
        r@ == Seq::<fuse_forget_one>::empty(),
{
    &[]
}

/// Parsing the arguments that the kernel driver sends for an operation gives that operation.
#[verifier::rlimit(60)]
pub proof fn lemma_parse_args(op: Operation, r: Option<Operation>)
    requires
        op.sendable(),
        parses(op.spec_opcode(), op.spec_args(), r),
    ensures
        r == Some(op),
{
    let none = Seq::<u8>::empty();
    match op {
        Operation::Lookup(x) => {
            lemma_name_at_terminated(x.name@, none);
            assert(r->0->Lookup_0.name =~= x.name);
        },
        Operation::Forget(x) => {
            x.arg.lemma_decode_encode(none);
        },
        Operation::GetAttr(_) => {},
        Operation::SetAttr(x) => {
            x.arg.lemma_decode_encode(none);
        },
        Operation::ReadLink(_) => {},
        Operation::SymLink(x) => {
            lemma_name_at_terminated(x.name@, x.link@ + (seq![0u8] + none));
            lemma_name_at_terminated(x.link@, none);
            assert(r->0->SymLink_0.name =~= x.name);
            assert(r->0->SymLink_0.link =~= x.link);
        },
        Operation::MkNod(x) => {
            x.arg.lemma_decode_encode(x.name@ + (seq![0u8] + none));
            lemma_name_at_terminated(x.name@, none);
            assert(r->0->MkNod_0.name =~= x.name);
        },
        Operation::MkDir(x) => {
            x.arg.lemma_decode_encode(x.name@ + (seq![0u8] + none));
            lemma_name_at_terminated(x.name@, none);
            assert(r->0->MkDir_0.name =~= x.name);
        },
        Operation::Unlink(x) => {
            lemma_name_at_terminated(x.name@, none);
            assert(r->0->Unlink_0.name =~= x.name);
        },
        Operation::RmDir(x) => {
            lemma_name_at_terminated(x.name@, none);
            assert(r->0->RmDir_0.name =~= x.name);
        },
        Operation::Rename(x) => {
            x.arg.lemma_decode_encode(x.name@ + (seq![0u8] + (x.newname@ + (seq![0u8] + none))));
            lemma_name_at_terminated(x.name@, x.newname@ + (seq![0u8] + none));
            lemma_name_at_terminated(x.newname@, none);
            assert(r->0->Rename_0.name =~= x.name);
            assert(r->0->Rename_0.newname =~= x.newname);
        },
        Operation::Link(x) => {
            x.arg.lemma_decode_encode(x.name@ + (seq![0u8] + none));
            lemma_name_at_terminated(x.name@, none);
            assert(r->0->Link_0.name =~= x.name);
        },
        Operation::Open(x) => {
            x.arg.lemma_decode_encode(none);
        },
        Operation::Read(x) => {
            x.arg.lemma_decode_encode(none);
        },
        Operation::Write(x) => {
            x.arg.lemma_decode_encode(x.data@);
            assert(r->0->Write_0.data =~= x.data);
        },
        Operation::StatFs(_) => {},
        Operation::Release(x) => {
            x.arg.lemma_decode_encode(none);
        },
        Operation::FSync(x) => {
            x.arg.lemma_decode_encode(none);
        },
        Operation::SetXAttr(x) => {
            x.arg.lemma_decode_encode(x.name@ + (seq![0u8] + x.value@));
            lemma_name_at_terminated(x.name@, x.value@);
            assert(r->0->SetXAttr_0.name =~= x.name);
            assert(r->0->SetXAttr_0.value =~= x.value);
        },
        Operation::GetXAttr(x) => {
            x.arg.lemma_decode_encode(x.name@ + (seq![0u8] + none));
            lemma_name_at_terminated(x.name@, none);
            assert(r->0->GetXAttr_0.name =~= x.name);
        },
        Operation::ListXAttr(x) => {
            x.arg.lemma_decode_encode(none);
        },
        Operation::RemoveXAttr(x) => {
            lemma_name_at_terminated(x.name@, none);
            assert(r->0->RemoveXAttr_0.name =~= x.name);
        },
        Operation::Flush(x) => {
            x.arg.lemma_decode_encode(none);
        },
        Operation::Init(x) => {
            x.arg.lemma_decode_encode(none);
        },
        Operation::OpenDir(x) => {
            x.arg.lemma_decode_encode(none);
        },
        Operation::ReadDir(x) => {
            x.arg.lemma_decode_encode(none);
        },
        Operation::ReleaseDir(x) => {
            x.arg.lemma_decode_encode(none);
        },
        Operation::FSyncDir(x) => {
            x.arg.lemma_decode_encode(none);
        },
        Operation::GetLk(x) => {
            x.arg.lemma_decode_encode(none);
        },
        Operation::SetLk(x) => {
            x.arg.lemma_decode_encode(none);
        },
        Operation::SetLkW(x) => {
            x.arg.lemma_decode_encode(none);
        },
        Operation::Access(x) => {
            x.arg.lemma_decode_encode(none);
        },
        Operation::Create(x) => {
            x.arg.lemma_decode_encode(x.name@ + (seq![0u8] + none));
            lemma_name_at_terminated(x.name@, none);
            assert(r->0->Create_0.name =~= x.name);
        },
        Operation::Interrupt(x) => {
            x.arg.lemma_decode_encode(none);
        },
        Operation::BMap(x) => {
            x.arg.lemma_decode_encode(none);
        },
        Operation::Destroy(_) => {},
        Operation::IoCtl(x) => {
            x.arg.lemma_decode_encode(x.data@);
            assert(r->0->IoCtl_0.data =~= x.data);
        },
        Operation::Poll(x) => {
            x.arg.lemma_decode_encode(none);
        },
        Operation::NotifyReply(x) => {
            assert(r->0->NotifyReply_0.data =~= x.data);
        },
        Operation::BatchForget(x) => {
            x.arg.lemma_decode_encode(none);
            assert(r->0->BatchForget_0.nodes =~= x.nodes);
        },
        Operation::FAllocate(x) => {
            x.arg.lemma_decode_encode(none);
        },
        Operation::ReadDirPlus(x) => {
            x.arg.lemma_decode_encode(none);
        },
        Operation::Rename2(x) => {
            x.arg.lemma_decode_encode(x.name@ + (seq![0u8] + (x.newname@ + (seq![0u8] + none))));
            lemma_name_at_terminated(x.name@, x.newname@ + (seq![0u8] + none));
            lemma_name_at_terminated(x.newname@, none);
            assert(r->0->Rename2_0.name =~= x.name);
            assert(r->0->Rename2_0.newname =~= x.newname);
        },
        Operation::Lseek(x) => {
            x.arg.lemma_decode_encode(none);
        },
        Operation::CopyFileRange(x) => {
            x.arg.lemma_decode_encode(none);
        },
        Operation::CuseInit(x) => {
            x.arg.lemma_decode_encode(none);
        },
    }
}

/// Low-level request of a filesystem operation the kernel driver wants to perform.
#[derive(Clone, Copy, Debug)]
pub struct Request<'a> {
    pub header: fuse_in_header,
    pub operation: Operation<'a>,
}

/// What parsing a raw packet gives. The packet begins with the header, and the arguments that the
/// opcode asks for follow it. The first of these that fails says what is wrong: the header is
/// there, the opcode is known, the packet is as long as the header says, the arguments are there.
pub open spec fn parses_request(data: Seq<u8>, r: Result<Request, RequestError>) -> bool {
    match arg_at::<fuse_in_header>(data) {
        None => r == Err::<Request, RequestError>(
            RequestError::ShortReadHeader(data.len() as usize),
        ),
        Some((header, args)) => {
            if forall|code: fuse_opcode| #[trigger] code.spec_number() != header.opcode {
                r == Err::<Request, RequestError>(RequestError::UnknownOperation(header.opcode))
            } else if data.len() < header.len {
                r == Err::<Request, RequestError>(
                    RequestError::ShortRead(data.len() as usize, header.len as usize),
                )
            } else {
                exists|code: fuse_opcode| #[trigger]
                    code.spec_number() == header.opcode && match r {
                        Ok(request) => request.header == header && parses(
                            code,
                            args,
                            Some(request.operation),
                        ),
                        Err(e) => e is InsufficientData && parses(code, args, None),
                    }
            }
        },
    }
}

impl<'a> Request<'a> {
    /// Parses a raw packet as sent by the kernel driver into typed data.
    pub fn try_from(data: &'a [u8]) -> (r: Result<Request<'a>, RequestError>)
        ensures
            parses_request(data@, r),
    {
        let data_len: usize = data.len();
        let mut data = ArgumentIterator::new(data);
        // Parse header
        let header: fuse_in_header = match data.fetch() {
            Some(header) => header,
            None => return Err(RequestError::ShortReadHeader(data.len())),
        };
        // Parse/check opcode
        let opcode = match fuse_opcode::try_from(header.opcode) {
            Ok(opcode) => opcode,
            Err(_) => return Err(RequestError::UnknownOperation(header.opcode)),
        };
        assert(opcode.spec_number() == header.opcode);
        // Check data size
        if data_len < header.len as usize {
            return Err(RequestError::ShortRead(data_len, header.len as usize));
        }
        // Parse/check operation arguments
        match Operation::parse(&opcode, data) {
            Some(operation) => Ok(Request { header, operation }),
            None => Err(RequestError::InsufficientData),
        }
    }

    /// The packet in which the kernel driver sends the request.
    pub open spec fn spec_packet(self) -> Seq<u8> {
        self.header.spec_encode(self.operation.spec_args())
    }

    /// Returns the unique identifier of this request.
    ///
    /// The FUSE kernel driver assigns a unique id to every concurrent request. This allows to
    /// distinguish between multiple concurrent requests. The unique id of a request may be
    /// reused in later requests after it has completed.
    pub fn unique(&self) -> (r: u64)
        ensures
            r == self.header.unique,
    {
        self.header.unique
    }

    /// Returns the node id of the inode this request is targeted to.
    pub fn nodeid(&self) -> (r: u64)
        ensures
            r == self.header.nodeid,
    {
        self.header.nodeid
    }

    /// Returns the UID that the process that triggered this request runs under.
    pub fn uid(&self) -> (r: u32)
        ensures
            r == self.header.uid,
    {
        self.header.uid
    }

    /// Returns the GID that the process that triggered this request runs under.
    pub fn gid(&self) -> (r: u32)
        ensures
            r == self.header.gid,
    {
        self.header.gid
    }

    /// Returns the PID of the process that triggered this request.
    pub fn pid(&self) -> (r: u32)
        ensures
            r == self.header.pid,
    {
        self.header.pid
    }

    /// Returns the filesystem operation (and its arguments) of this request.
    pub fn operation(&self) -> (r: &Operation<'a>)
        ensures
            *r == self.operation,
    {
        &self.operation
    }

    /// The text that describes the request.
    pub open spec fn spec_pieces(self) -> Seq<PieceView> {
        seq![
            PieceView::Text("FUSE("@),
            PieceView::Text(padded(decimal(self.header.unique as int), 3, ' ')),
            PieceView::Text(") ino "@),
            PieceView::Text(hex16(self.header.nodeid as nat)),
            PieceView::Text(": "@),
        ] + self.operation.spec_pieces()
    }

    /// The text that describes the request.
    pub fn pieces(&self) -> (r: Vec<Piece<'a>>)
        ensures
            piece_views(r@) == self.spec_pieces(),
    {
        let mut r = vec![
            Piece::Text(String::from_str("FUSE(")),
            Piece::Text(to_padded(to_decimal(self.header.unique), 3, ' ')),
            Piece::Text(String::from_str(") ino ")),
            Piece::Text(to_hex16(self.header.nodeid)),
            Piece::Text(String::from_str(": ")),
        ];
        let ghost front = r@;
        let mut rest = self.operation.pieces();
        let ghost back = rest@;
        r.append(&mut rest);
        assert(piece_views(r@) =~= piece_views(front) + piece_views(back));
        assert(piece_views(r@) =~= self.spec_pieces());
        r
    }
}

/// Parsing the packet in which the kernel driver sends a request gives that request.
pub proof fn lemma_parse_packet(request: Request, r: Result<Request, RequestError>)
    requires
        request.operation.sendable(),
        request.header.opcode == request.operation.spec_opcode().spec_number(),
        request.header.len <= request.spec_packet().len(),
        parses_request(request.spec_packet(), r),
    ensures
        r == Ok::<Request, RequestError>(request),
{
    let args = request.operation.spec_args();
    request.header.lemma_decode_encode(args);
    assert(arg_at::<fuse_in_header>(request.spec_packet()) == Some((request.header, args)));
    assert forall|code: fuse_opcode| #[trigger]
        code.spec_number() == request.header.opcode implies code
        == request.operation.spec_opcode() by {
        crate::ll::fuse_abi::lemma_fuse_opcode_numbers_differ(
            code,
            request.operation.spec_opcode(),
        );
    }
    match r {
        Ok(got) => lemma_parse_args(request.operation, Some(got.operation)),
        Err(_) => lemma_parse_args(request.operation, None),
    }
}

} // verus!
