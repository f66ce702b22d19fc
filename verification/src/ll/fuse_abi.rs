//! The kernel interface: opcodes, notification codes, and the structures of requests and replies.
//!
//! The structures are those of ABI 7.40 on Linux, in the order in which the kernel lays their
//! fields out. Items without a version remark are valid with ABI 7.8 and later.

use vstd::prelude::*;

use crate::ll::flags::fattr_flags::FattrFlags;
use crate::ll::wire::{
    get_i32, get_i64, get_u32, get_u64, group_fields, holds_from, i32_at, i32_bytes, i64_at,
    i64_bytes, put_i32, put_i64, put_u16, put_u32, put_u64, u16_bytes, u32_at, u32_bytes, u64_at,
    u64_bytes, FromBytes, IntoBytes,
};

verus! {

/// The major version of the protocol that is spoken.
pub const FUSE_KERNEL_VERSION: u32 = 7;

/// The minor version of the protocol that is spoken.
pub const FUSE_KERNEL_MINOR_VERSION: u32 = 40;

/// Set in `lk_flags` for a lock of the `flock` kind.
pub const FUSE_LK_FLOCK: u32 = 1;

/// The most in and out vectors that a control operation has together.
pub const FUSE_IOCTL_MAX_IOV: u32 = 256;

/// The least size of the buffer that requests are read into.
pub const FUSE_MIN_READ_BUFFER: usize = 8192;

/// The size of the reply to `FUSE_INIT` before ABI 7.5.
pub const FUSE_COMPAT_INIT_OUT_SIZE: usize = 8;

/// The size of the reply to `FUSE_INIT` before ABI 7.23.
pub const FUSE_COMPAT_22_INIT_OUT_SIZE: usize = 24;

/// A number that stands for no opcode.
#[derive(Clone, Copy, Debug, PartialEq, Eq, Structural)]
pub struct InvalidOpcodeError {
    pub number: u32,
}

/// What a request asks for.
#[allow(non_camel_case_types)]
#[derive(Clone, Copy, Debug, PartialEq, Eq, Structural)]
pub enum fuse_opcode {
    FUSE_LOOKUP,
    FUSE_FORGET,
    FUSE_GETATTR,
    FUSE_SETATTR,
    FUSE_READLINK,
    FUSE_SYMLINK,
    FUSE_MKNOD,
    FUSE_MKDIR,
    FUSE_UNLINK,
    FUSE_RMDIR,
    FUSE_RENAME,
    FUSE_LINK,
    FUSE_OPEN,
    FUSE_READ,
    FUSE_WRITE,
    FUSE_STATFS,
    FUSE_RELEASE,
    FUSE_FSYNC,
    FUSE_SETXATTR,
    FUSE_GETXATTR,
    FUSE_LISTXATTR,
    FUSE_REMOVEXATTR,
    FUSE_FLUSH,
    FUSE_INIT,
    FUSE_OPENDIR,
    FUSE_READDIR,
    FUSE_RELEASEDIR,
    FUSE_FSYNCDIR,
    FUSE_GETLK,
    FUSE_SETLK,
    FUSE_SETLKW,
    FUSE_ACCESS,
    FUSE_CREATE,
    FUSE_INTERRUPT,
    FUSE_BMAP,
    FUSE_DESTROY,
    FUSE_IOCTL,
    FUSE_POLL,
    FUSE_NOTIFY_REPLY,
    FUSE_BATCH_FORGET,
    FUSE_FALLOCATE,
    FUSE_READDIRPLUS,
    FUSE_RENAME2,
    FUSE_LSEEK,
    FUSE_COPY_FILE_RANGE,
    CUSE_INIT,
}

impl fuse_opcode {
    /// The number that stands for it in the protocol.
    pub open spec fn spec_number(self) -> u32 {
        match self {
            fuse_opcode::FUSE_LOOKUP => 1,
            fuse_opcode::FUSE_FORGET => 2,
            fuse_opcode::FUSE_GETATTR => 3,
            fuse_opcode::FUSE_SETATTR => 4,
            fuse_opcode::FUSE_READLINK => 5,
            fuse_opcode::FUSE_SYMLINK => 6,
            fuse_opcode::FUSE_MKNOD => 8,
            fuse_opcode::FUSE_MKDIR => 9,
            fuse_opcode::FUSE_UNLINK => 10,
            fuse_opcode::FUSE_RMDIR => 11,
            fuse_opcode::FUSE_RENAME => 12,
            fuse_opcode::FUSE_LINK => 13,
            fuse_opcode::FUSE_OPEN => 14,
            fuse_opcode::FUSE_READ => 15,
            fuse_opcode::FUSE_WRITE => 16,
            fuse_opcode::FUSE_STATFS => 17,
            fuse_opcode::FUSE_RELEASE => 18,
            fuse_opcode::FUSE_FSYNC => 20,
            fuse_opcode::FUSE_SETXATTR => 21,
            fuse_opcode::FUSE_GETXATTR => 22,
            fuse_opcode::FUSE_LISTXATTR => 23,
            fuse_opcode::FUSE_REMOVEXATTR => 24,
            fuse_opcode::FUSE_FLUSH => 25,
            fuse_opcode::FUSE_INIT => 26,
            fuse_opcode::FUSE_OPENDIR => 27,
            fuse_opcode::FUSE_READDIR => 28,
            fuse_opcode::FUSE_RELEASEDIR => 29,
            fuse_opcode::FUSE_FSYNCDIR => 30,
            fuse_opcode::FUSE_GETLK => 31,
            fuse_opcode::FUSE_SETLK => 32,
            fuse_opcode::FUSE_SETLKW => 33,
            fuse_opcode::FUSE_ACCESS => 34,
            fuse_opcode::FUSE_CREATE => 35,
            fuse_opcode::FUSE_INTERRUPT => 36,
            fuse_opcode::FUSE_BMAP => 37,
            fuse_opcode::FUSE_DESTROY => 38,
            fuse_opcode::FUSE_IOCTL => 39,
            fuse_opcode::FUSE_POLL => 40,
            fuse_opcode::FUSE_NOTIFY_REPLY => 41,
            fuse_opcode::FUSE_BATCH_FORGET => 42,
            fuse_opcode::FUSE_FALLOCATE => 43,
            fuse_opcode::FUSE_READDIRPLUS => 44,
            fuse_opcode::FUSE_RENAME2 => 45,
            fuse_opcode::FUSE_LSEEK => 46,
            fuse_opcode::FUSE_COPY_FILE_RANGE => 47,
            fuse_opcode::CUSE_INIT => 4096,
        }
    }

    /// The number that stands for it in the protocol.
    pub fn number(self) -> (n: u32)
        ensures
            n == self.spec_number(),
    {
        match self {
            fuse_opcode::FUSE_LOOKUP => 1,
            fuse_opcode::FUSE_FORGET => 2,
            fuse_opcode::FUSE_GETATTR => 3,
            fuse_opcode::FUSE_SETATTR => 4,
            fuse_opcode::FUSE_READLINK => 5,
            fuse_opcode::FUSE_SYMLINK => 6,
            fuse_opcode::FUSE_MKNOD => 8,
            fuse_opcode::FUSE_MKDIR => 9,
            fuse_opcode::FUSE_UNLINK => 10,
            fuse_opcode::FUSE_RMDIR => 11,
            fuse_opcode::FUSE_RENAME => 12,
            fuse_opcode::FUSE_LINK => 13,
            fuse_opcode::FUSE_OPEN => 14,
            fuse_opcode::FUSE_READ => 15,
            fuse_opcode::FUSE_WRITE => 16,
            fuse_opcode::FUSE_STATFS => 17,
            fuse_opcode::FUSE_RELEASE => 18,
            fuse_opcode::FUSE_FSYNC => 20,
            fuse_opcode::FUSE_SETXATTR => 21,
            fuse_opcode::FUSE_GETXATTR => 22,
            fuse_opcode::FUSE_LISTXATTR => 23,
            fuse_opcode::FUSE_REMOVEXATTR => 24,
            fuse_opcode::FUSE_FLUSH => 25,
            fuse_opcode::FUSE_INIT => 26,
            fuse_opcode::FUSE_OPENDIR => 27,
            fuse_opcode::FUSE_READDIR => 28,
            fuse_opcode::FUSE_RELEASEDIR => 29,
            fuse_opcode::FUSE_FSYNCDIR => 30,
            fuse_opcode::FUSE_GETLK => 31,
            fuse_opcode::FUSE_SETLK => 32,
            fuse_opcode::FUSE_SETLKW => 33,
            fuse_opcode::FUSE_ACCESS => 34,
            fuse_opcode::FUSE_CREATE => 35,
            fuse_opcode::FUSE_INTERRUPT => 36,
            fuse_opcode::FUSE_BMAP => 37,
            fuse_opcode::FUSE_DESTROY => 38,
            fuse_opcode::FUSE_IOCTL => 39,
            fuse_opcode::FUSE_POLL => 40,
            fuse_opcode::FUSE_NOTIFY_REPLY => 41,
            fuse_opcode::FUSE_BATCH_FORGET => 42,
            fuse_opcode::FUSE_FALLOCATE => 43,
            fuse_opcode::FUSE_READDIRPLUS => 44,
            fuse_opcode::FUSE_RENAME2 => 45,
            fuse_opcode::FUSE_LSEEK => 46,
            fuse_opcode::FUSE_COPY_FILE_RANGE => 47,
            fuse_opcode::CUSE_INIT => 4096,
        }
    }

    /// The one that `n` stands for.
    pub fn try_from(n: u32) -> (r: Result<Self, InvalidOpcodeError>)
        ensures
            match r {
                Ok(code) => code.spec_number() == n,
                Err(e) => e.number == n && forall|code: fuse_opcode| #[trigger] code.spec_number() != n,
            },
    {
        match n {
            1 => Ok(fuse_opcode::FUSE_LOOKUP),
            2 => Ok(fuse_opcode::FUSE_FORGET),
            3 => Ok(fuse_opcode::FUSE_GETATTR),
            4 => Ok(fuse_opcode::FUSE_SETATTR),
            5 => Ok(fuse_opcode::FUSE_READLINK),
            6 => Ok(fuse_opcode::FUSE_SYMLINK),
            8 => Ok(fuse_opcode::FUSE_MKNOD),
            9 => Ok(fuse_opcode::FUSE_MKDIR),
            10 => Ok(fuse_opcode::FUSE_UNLINK),
            11 => Ok(fuse_opcode::FUSE_RMDIR),
            12 => Ok(fuse_opcode::FUSE_RENAME),
            13 => Ok(fuse_opcode::FUSE_LINK),
            14 => Ok(fuse_opcode::FUSE_OPEN),
            15 => Ok(fuse_opcode::FUSE_READ),
            16 => Ok(fuse_opcode::FUSE_WRITE),
            17 => Ok(fuse_opcode::FUSE_STATFS),
            18 => Ok(fuse_opcode::FUSE_RELEASE),
            20 => Ok(fuse_opcode::FUSE_FSYNC),
            21 => Ok(fuse_opcode::FUSE_SETXATTR),
            22 => Ok(fuse_opcode::FUSE_GETXATTR),
            23 => Ok(fuse_opcode::FUSE_LISTXATTR),
            24 => Ok(fuse_opcode::FUSE_REMOVEXATTR),
            25 => Ok(fuse_opcode::FUSE_FLUSH),
            26 => Ok(fuse_opcode::FUSE_INIT),
            27 => Ok(fuse_opcode::FUSE_OPENDIR),
            28 => Ok(fuse_opcode::FUSE_READDIR),
            29 => Ok(fuse_opcode::FUSE_RELEASEDIR),
            30 => Ok(fuse_opcode::FUSE_FSYNCDIR),
            31 => Ok(fuse_opcode::FUSE_GETLK),
            32 => Ok(fuse_opcode::FUSE_SETLK),
            33 => Ok(fuse_opcode::FUSE_SETLKW),
            34 => Ok(fuse_opcode::FUSE_ACCESS),
            35 => Ok(fuse_opcode::FUSE_CREATE),
            36 => Ok(fuse_opcode::FUSE_INTERRUPT),
            37 => Ok(fuse_opcode::FUSE_BMAP),
            38 => Ok(fuse_opcode::FUSE_DESTROY),
            39 => Ok(fuse_opcode::FUSE_IOCTL),
            40 => Ok(fuse_opcode::FUSE_POLL),
            41 => Ok(fuse_opcode::FUSE_NOTIFY_REPLY),
            42 => Ok(fuse_opcode::FUSE_BATCH_FORGET),
            43 => Ok(fuse_opcode::FUSE_FALLOCATE),
            44 => Ok(fuse_opcode::FUSE_READDIRPLUS),
            45 => Ok(fuse_opcode::FUSE_RENAME2),
            46 => Ok(fuse_opcode::FUSE_LSEEK),
            47 => Ok(fuse_opcode::FUSE_COPY_FILE_RANGE),
            4096 => Ok(fuse_opcode::CUSE_INIT),
            _ => Err(InvalidOpcodeError { number: n }),
        }
    }
}

/// No number stands for two of them.
pub proof fn lemma_fuse_opcode_numbers_differ(a: fuse_opcode, b: fuse_opcode)
    requires
        a.spec_number() == b.spec_number(),
    ensures
        a == b,
{
}

/// A number that stands for no notification.
#[derive(Clone, Copy, Debug, PartialEq, Eq, Structural)]
pub struct InvalidNotifyCodeError {
    pub number: u32,
}

/// What a notification tells the kernel.
#[allow(non_camel_case_types)]
#[derive(Clone, Copy, Debug, PartialEq, Eq, Structural)]
pub enum fuse_notify_code {
    FUSE_POLL,
    FUSE_NOTIFY_INVAL_INODE,
    FUSE_NOTIFY_INVAL_ENTRY,
    FUSE_NOTIFY_STORE,
    FUSE_NOTIFY_RETRIEVE,
    FUSE_NOTIFY_DELETE,
    FUSE_NOTIFY_INC_EPOCH,
}

impl fuse_notify_code {
    /// The number that stands for it in the protocol.
    pub open spec fn spec_number(self) -> u32 {
        match self {
            fuse_notify_code::FUSE_POLL => 1,
            fuse_notify_code::FUSE_NOTIFY_INVAL_INODE => 2,
            fuse_notify_code::FUSE_NOTIFY_INVAL_ENTRY => 3,
            fuse_notify_code::FUSE_NOTIFY_STORE => 4,
            fuse_notify_code::FUSE_NOTIFY_RETRIEVE => 5,
            fuse_notify_code::FUSE_NOTIFY_DELETE => 6,
            fuse_notify_code::FUSE_NOTIFY_INC_EPOCH => 8,
        }
    }

    /// The number that stands for it in the protocol.
    pub fn number(self) -> (n: u32)
        ensures
            n == self.spec_number(),
    {
        match self {
            fuse_notify_code::FUSE_POLL => 1,
            fuse_notify_code::FUSE_NOTIFY_INVAL_INODE => 2,
            fuse_notify_code::FUSE_NOTIFY_INVAL_ENTRY => 3,
            fuse_notify_code::FUSE_NOTIFY_STORE => 4,
            fuse_notify_code::FUSE_NOTIFY_RETRIEVE => 5,
            fuse_notify_code::FUSE_NOTIFY_DELETE => 6,
            fuse_notify_code::FUSE_NOTIFY_INC_EPOCH => 8,
        }
    }

    /// The one that `n` stands for.
    pub fn try_from(n: u32) -> (r: Result<Self, InvalidNotifyCodeError>)
        ensures
            match r {
                Ok(code) => code.spec_number() == n,
                Err(e) => e.number == n && forall|code: fuse_notify_code| #[trigger] code.spec_number() != n,
            },
    {
        match n {
            1 => Ok(fuse_notify_code::FUSE_POLL),
            2 => Ok(fuse_notify_code::FUSE_NOTIFY_INVAL_INODE),
            3 => Ok(fuse_notify_code::FUSE_NOTIFY_INVAL_ENTRY),
            4 => Ok(fuse_notify_code::FUSE_NOTIFY_STORE),
            5 => Ok(fuse_notify_code::FUSE_NOTIFY_RETRIEVE),
            6 => Ok(fuse_notify_code::FUSE_NOTIFY_DELETE),
            8 => Ok(fuse_notify_code::FUSE_NOTIFY_INC_EPOCH),
            _ => Err(InvalidNotifyCodeError { number: n }),
        }
    }
}

/// No number stands for two of them.
pub proof fn lemma_fuse_notify_code_numbers_differ(a: fuse_notify_code, b: fuse_notify_code)
    requires
        a.spec_number() == b.spec_number(),
    ensures
        a == b,
{
}

/// The header that every request begins with.
#[allow(non_camel_case_types)]
#[derive(Clone, Copy, Debug, PartialEq, Eq, Structural)]
pub struct fuse_in_header {
    pub len: u32,
    pub opcode: u32,
    pub unique: u64,
    pub nodeid: u64,
    pub uid: u32,
    pub gid: u32,
    pub pid: u32,
    pub padding: u32,
}

impl FromBytes for fuse_in_header {
    open spec fn spec_size() -> nat {
        40
    }

    open spec fn spec_decode(s: Seq<u8>) -> Self {
        fuse_in_header {
            len: u32_at(s, 0),
            opcode: u32_at(s, 4),
            unique: u64_at(s, 8),
            nodeid: u64_at(s, 16),
            uid: u32_at(s, 24),
            gid: u32_at(s, 28),
            pid: u32_at(s, 32),
            padding: u32_at(s, 36),
        }
    }

    closed spec fn spec_encode(self, tail: Seq<u8>) -> Seq<u8> {
        u32_bytes(self.len) + (u32_bytes(self.opcode) + (u64_bytes(self.unique) + (
            u64_bytes(self.nodeid) + (u32_bytes(self.uid) + (u32_bytes(self.gid) + (
            u32_bytes(self.pid) + (u32_bytes(self.padding) + tail)))))))
    }

    proof fn lemma_decode_encode(self, tail: Seq<u8>) {
        broadcast use group_fields;

        let s = self.spec_encode(tail);
        assert(s.skip(0) =~= s);
        assert(holds_from(s, 0, s));
    }

    fn size() -> (n: usize) {
        40
    }

    fn decode(data: &[u8]) -> (r: Self) {
        fuse_in_header {
            len: get_u32(data, 0),
            opcode: get_u32(data, 4),
            unique: get_u64(data, 8),
            nodeid: get_u64(data, 16),
            uid: get_u32(data, 24),
            gid: get_u32(data, 28),
            pid: get_u32(data, 32),
            padding: get_u32(data, 36),
        }
    }
}

/// How many lookups of an inode are to be forgotten.
#[allow(non_camel_case_types)]
#[derive(Clone, Copy, Debug, PartialEq, Eq, Structural)]
pub struct fuse_forget_in {
    pub nlookup: u64,
}

impl FromBytes for fuse_forget_in {
    open spec fn spec_size() -> nat {
        8
    }

    open spec fn spec_decode(s: Seq<u8>) -> Self {
        fuse_forget_in {
            nlookup: u64_at(s, 0),
        }
    }

    closed spec fn spec_encode(self, tail: Seq<u8>) -> Seq<u8> {
        u64_bytes(self.nlookup) + tail
    }

    proof fn lemma_decode_encode(self, tail: Seq<u8>) {
        broadcast use group_fields;

        let s = self.spec_encode(tail);
        assert(s.skip(0) =~= s);
        assert(holds_from(s, 0, s));
    }

    fn size() -> (n: usize) {
        8
    }

    fn decode(data: &[u8]) -> (r: Self) {
        fuse_forget_in {
            nlookup: get_u64(data, 0),
        }
    }
}

/// One inode of a batch to be forgotten.
#[allow(non_camel_case_types)]
#[derive(Clone, Copy, Debug, PartialEq, Eq, Structural)]
pub struct fuse_forget_one {
    pub nodeid: u64,
    pub nlookup: u64,
}

impl FromBytes for fuse_forget_one {
    open spec fn spec_size() -> nat {
        16
    }

    open spec fn spec_decode(s: Seq<u8>) -> Self {
        fuse_forget_one {
            nodeid: u64_at(s, 0),
            nlookup: u64_at(s, 8),
        }
    }

    closed spec fn spec_encode(self, tail: Seq<u8>) -> Seq<u8> {
        u64_bytes(self.nodeid) + (u64_bytes(self.nlookup) + tail)
    }

    proof fn lemma_decode_encode(self, tail: Seq<u8>) {
        broadcast use group_fields;

        let s = self.spec_encode(tail);
        assert(s.skip(0) =~= s);
        assert(holds_from(s, 0, s));
    }

    fn size() -> (n: usize) {
        16
    }

    fn decode(data: &[u8]) -> (r: Self) {
        fuse_forget_one {
            nodeid: get_u64(data, 0),
            nlookup: get_u64(data, 8),
        }
    }
}

/// How many inodes a batch names.
#[allow(non_camel_case_types)]
#[derive(Clone, Copy, Debug, PartialEq, Eq, Structural)]
pub struct fuse_batch_forget_in {
    pub count: u32,
    pub dummy: u32,
}

impl FromBytes for fuse_batch_forget_in {
    open spec fn spec_size() -> nat {
        8
    }

    open spec fn spec_decode(s: Seq<u8>) -> Self {
        fuse_batch_forget_in {
            count: u32_at(s, 0),
            dummy: u32_at(s, 4),
        }
    }

    closed spec fn spec_encode(self, tail: Seq<u8>) -> Seq<u8> {
        u32_bytes(self.count) + (u32_bytes(self.dummy) + tail)
    }

    proof fn lemma_decode_encode(self, tail: Seq<u8>) {
        broadcast use group_fields;

        let s = self.spec_encode(tail);
        assert(s.skip(0) =~= s);
        assert(holds_from(s, 0, s));
    }

    fn size() -> (n: usize) {
        8
    }

    fn decode(data: &[u8]) -> (r: Self) {
        fuse_batch_forget_in {
            count: get_u32(data, 0),
            dummy: get_u32(data, 4),
        }
    }
}

/// Which attributes are asked for.
#[allow(non_camel_case_types)]
#[derive(Clone, Copy, Debug, PartialEq, Eq, Structural)]
pub struct fuse_getattr_in {
    pub getattr_flags: u32,
    pub dummy: u32,
    pub fh: u64,
}

impl FromBytes for fuse_getattr_in {
    open spec fn spec_size() -> nat {
        16
    }

    open spec fn spec_decode(s: Seq<u8>) -> Self {
        fuse_getattr_in {
            getattr_flags: u32_at(s, 0),
            dummy: u32_at(s, 4),
            fh: u64_at(s, 8),
        }
    }

    closed spec fn spec_encode(self, tail: Seq<u8>) -> Seq<u8> {
        u32_bytes(self.getattr_flags) + (u32_bytes(self.dummy) + (u64_bytes(self.fh) + tail))
    }

    proof fn lemma_decode_encode(self, tail: Seq<u8>) {
        broadcast use group_fields;

        let s = self.spec_encode(tail);
        assert(s.skip(0) =~= s);
        assert(holds_from(s, 0, s));
    }

    fn size() -> (n: usize) {
        16
    }

    fn decode(data: &[u8]) -> (r: Self) {
        fuse_getattr_in {
            getattr_flags: get_u32(data, 0),
            dummy: get_u32(data, 4),
            fh: get_u64(data, 8),
        }
    }
}

/// The node to be made.
#[allow(non_camel_case_types)]
#[derive(Clone, Copy, Debug, PartialEq, Eq, Structural)]
pub struct fuse_mknod_in {
    pub mode: u32,
    pub rdev: u32,
    pub umask: u32,
    pub padding: u32,
}

impl FromBytes for fuse_mknod_in {
    open spec fn spec_size() -> nat {
        16
    }

    open spec fn spec_decode(s: Seq<u8>) -> Self {
        fuse_mknod_in {
            mode: u32_at(s, 0),
            rdev: u32_at(s, 4),
            umask: u32_at(s, 8),
            padding: u32_at(s, 12),
        }
    }

    closed spec fn spec_encode(self, tail: Seq<u8>) -> Seq<u8> {
        u32_bytes(self.mode) + (u32_bytes(self.rdev) + (u32_bytes(self.umask) + (
            u32_bytes(self.padding) + tail)))
    }

    proof fn lemma_decode_encode(self, tail: Seq<u8>) {
        broadcast use group_fields;

        let s = self.spec_encode(tail);
        assert(s.skip(0) =~= s);
        assert(holds_from(s, 0, s));
    }

    fn size() -> (n: usize) {
        16
    }

    fn decode(data: &[u8]) -> (r: Self) {
        fuse_mknod_in {
            mode: get_u32(data, 0),
            rdev: get_u32(data, 4),
            umask: get_u32(data, 8),
            padding: get_u32(data, 12),
        }
    }
}

/// The directory to be made.
#[allow(non_camel_case_types)]
#[derive(Clone, Copy, Debug, PartialEq, Eq, Structural)]
pub struct fuse_mkdir_in {
    pub mode: u32,
    pub umask: u32,
}

impl FromBytes for fuse_mkdir_in {
    open spec fn spec_size() -> nat {
        8
    }

    open spec fn spec_decode(s: Seq<u8>) -> Self {
        fuse_mkdir_in {
            mode: u32_at(s, 0),
            umask: u32_at(s, 4),
        }
    }

    closed spec fn spec_encode(self, tail: Seq<u8>) -> Seq<u8> {
        u32_bytes(self.mode) + (u32_bytes(self.umask) + tail)
    }

    proof fn lemma_decode_encode(self, tail: Seq<u8>) {
        broadcast use group_fields;

        let s = self.spec_encode(tail);
        assert(s.skip(0) =~= s);
        assert(holds_from(s, 0, s));
    }

    fn size() -> (n: usize) {
        8
    }

    fn decode(data: &[u8]) -> (r: Self) {
        fuse_mkdir_in {
            mode: get_u32(data, 0),
            umask: get_u32(data, 4),
        }
    }
}

/// Where an entry is moved.
#[allow(non_camel_case_types)]
#[derive(Clone, Copy, Debug, PartialEq, Eq, Structural)]
pub struct fuse_rename_in {
    pub newdir: u64,
}

impl FromBytes for fuse_rename_in {
    open spec fn spec_size() -> nat {
        8
    }

    open spec fn spec_decode(s: Seq<u8>) -> Self {
        fuse_rename_in {
            newdir: u64_at(s, 0),
        }
    }

    closed spec fn spec_encode(self, tail: Seq<u8>) -> Seq<u8> {
        u64_bytes(self.newdir) + tail
    }

    proof fn lemma_decode_encode(self, tail: Seq<u8>) {
        broadcast use group_fields;

        let s = self.spec_encode(tail);
        assert(s.skip(0) =~= s);
        assert(holds_from(s, 0, s));
    }

    fn size() -> (n: usize) {
        8
    }

    fn decode(data: &[u8]) -> (r: Self) {
        fuse_rename_in {
            newdir: get_u64(data, 0),
        }
    }
}

/// Where an entry is moved, and how.
#[allow(non_camel_case_types)]
#[derive(Clone, Copy, Debug, PartialEq, Eq, Structural)]
pub struct fuse_rename2_in {
    pub newdir: u64,
    pub flags: u32,
    pub padding: u32,
}

impl FromBytes for fuse_rename2_in {
    open spec fn spec_size() -> nat {
        16
    }

    open spec fn spec_decode(s: Seq<u8>) -> Self {
        fuse_rename2_in {
            newdir: u64_at(s, 0),
            flags: u32_at(s, 8),
            padding: u32_at(s, 12),
        }
    }

    closed spec fn spec_encode(self, tail: Seq<u8>) -> Seq<u8> {
        u64_bytes(self.newdir) + (u32_bytes(self.flags) + (u32_bytes(self.padding) + tail))
    }

    proof fn lemma_decode_encode(self, tail: Seq<u8>) {
        broadcast use group_fields;

        let s = self.spec_encode(tail);
        assert(s.skip(0) =~= s);
        assert(holds_from(s, 0, s));
    }

    fn size() -> (n: usize) {
        16
    }

    fn decode(data: &[u8]) -> (r: Self) {
        fuse_rename2_in {
            newdir: get_u64(data, 0),
            flags: get_u32(data, 8),
            padding: get_u32(data, 12),
        }
    }
}

/// The inode that gets a further name.
#[allow(non_camel_case_types)]
#[derive(Clone, Copy, Debug, PartialEq, Eq, Structural)]
pub struct fuse_link_in {
    pub oldnodeid: u64,
}

impl FromBytes for fuse_link_in {
    open spec fn spec_size() -> nat {
        8
    }

    open spec fn spec_decode(s: Seq<u8>) -> Self {
        fuse_link_in {
            oldnodeid: u64_at(s, 0),
        }
    }

    closed spec fn spec_encode(self, tail: Seq<u8>) -> Seq<u8> {
        u64_bytes(self.oldnodeid) + tail
    }

    proof fn lemma_decode_encode(self, tail: Seq<u8>) {
        broadcast use group_fields;

        let s = self.spec_encode(tail);
        assert(s.skip(0) =~= s);
        assert(holds_from(s, 0, s));
    }

    fn size() -> (n: usize) {
        8
    }

    fn decode(data: &[u8]) -> (r: Self) {
        fuse_link_in {
            oldnodeid: get_u64(data, 0),
        }
    }
}

/// The attributes to be set. The times are signed, to match those of `stat`.
#[allow(non_camel_case_types)]
#[derive(Clone, Copy, Debug, PartialEq, Eq, Structural)]
pub struct fuse_setattr_in {
    pub valid: u32,
    pub padding: u32,
    pub fh: u64,
    pub size: u64,
    pub lock_owner: u64,
    pub atime: i64,
    pub mtime: i64,
    /// Used since ABI 7.23.
    pub ctime: i64,
    pub atimensec: u32,
    pub mtimensec: u32,
    /// Used since ABI 7.23.
    pub ctimensec: u32,
    pub mode: u32,
    pub unused4: u32,
    pub uid: u32,
    pub gid: u32,
    pub unused5: u32,
}

impl FromBytes for fuse_setattr_in {
    open spec fn spec_size() -> nat {
        88
    }

    open spec fn spec_decode(s: Seq<u8>) -> Self {
        fuse_setattr_in {
            valid: u32_at(s, 0),
            padding: u32_at(s, 4),
            fh: u64_at(s, 8),
            size: u64_at(s, 16),
            lock_owner: u64_at(s, 24),
            atime: i64_at(s, 32),
            mtime: i64_at(s, 40),
            ctime: i64_at(s, 48),
            atimensec: u32_at(s, 56),
            mtimensec: u32_at(s, 60),
            ctimensec: u32_at(s, 64),
            mode: u32_at(s, 68),
            unused4: u32_at(s, 72),
            uid: u32_at(s, 76),
            gid: u32_at(s, 80),
            unused5: u32_at(s, 84),
        }
    }

    closed spec fn spec_encode(self, tail: Seq<u8>) -> Seq<u8> {
        u32_bytes(self.valid) + (u32_bytes(self.padding) + (u64_bytes(self.fh) + (
            u64_bytes(self.size) + (u64_bytes(self.lock_owner) + (i64_bytes(self.atime) + (
            i64_bytes(self.mtime) + (i64_bytes(self.ctime) + (u32_bytes(self.atimensec) + (
            u32_bytes(self.mtimensec) + (u32_bytes(self.ctimensec) + (u32_bytes(self.mode) + (
            u32_bytes(self.unused4) + (u32_bytes(self.uid) + (u32_bytes(self.gid) + (
            u32_bytes(self.unused5) + tail)))))))))))))))
    }

    proof fn lemma_decode_encode(self, tail: Seq<u8>) {
        broadcast use group_fields;

        let s = self.spec_encode(tail);
        assert(s.skip(0) =~= s);
        assert(holds_from(s, 0, s));
    }

    fn size() -> (n: usize) {
        88
    }

    fn decode(data: &[u8]) -> (r: Self) {
        fuse_setattr_in {
            valid: get_u32(data, 0),
            padding: get_u32(data, 4),
            fh: get_u64(data, 8),
            size: get_u64(data, 16),
            lock_owner: get_u64(data, 24),
            atime: get_i64(data, 32),
            mtime: get_i64(data, 40),
            ctime: get_i64(data, 48),
            atimensec: get_u32(data, 56),
            mtimensec: get_u32(data, 60),
            ctimensec: get_u32(data, 64),
            mode: get_u32(data, 68),
            unused4: get_u32(data, 72),
            uid: get_u32(data, 76),
            gid: get_u32(data, 80),
            unused5: get_u32(data, 84),
        }
    }
}

impl fuse_setattr_in {
    /// Whether the access time is to be set to the current time.
    pub fn atime_now(&self) -> (r: bool)
        ensures
            r == (self.valid & 0x80 == 0x80),
    {
        FattrFlags::from_bits_retain(self.valid).contains(FattrFlags::FATTR_ATIME_NOW)
    }

    /// Whether the modification time is to be set to the current time.
    pub fn mtime_now(&self) -> (r: bool)
        ensures
            r == (self.valid & 0x100 == 0x100),
    {
        FattrFlags::from_bits_retain(self.valid).contains(FattrFlags::FATTR_MTIME_NOW)
    }
}

/// How a file is opened. The flags are signed, to match those of `open`.
#[allow(non_camel_case_types)]
#[derive(Clone, Copy, Debug, PartialEq, Eq, Structural)]
pub struct fuse_open_in {
    pub flags: i32,
    pub unused: u32,
}

impl FromBytes for fuse_open_in {
    open spec fn spec_size() -> nat {
        8
    }

    open spec fn spec_decode(s: Seq<u8>) -> Self {
        fuse_open_in {
            flags: i32_at(s, 0),
            unused: u32_at(s, 4),
        }
    }

    closed spec fn spec_encode(self, tail: Seq<u8>) -> Seq<u8> {
        i32_bytes(self.flags) + (u32_bytes(self.unused) + tail)
    }

    proof fn lemma_decode_encode(self, tail: Seq<u8>) {
        broadcast use group_fields;

        let s = self.spec_encode(tail);
        assert(s.skip(0) =~= s);
        assert(holds_from(s, 0, s));
    }

    fn size() -> (n: usize) {
        8
    }

    fn decode(data: &[u8]) -> (r: Self) {
        fuse_open_in {
            flags: get_i32(data, 0),
            unused: get_u32(data, 4),
        }
    }
}

/// How a file is made and opened.
#[allow(non_camel_case_types)]
#[derive(Clone, Copy, Debug, PartialEq, Eq, Structural)]
pub struct fuse_create_in {
    pub flags: i32,
    pub mode: u32,
    pub umask: u32,
    pub padding: u32,
}

impl FromBytes for fuse_create_in {
    open spec fn spec_size() -> nat {
        16
    }

    open spec fn spec_decode(s: Seq<u8>) -> Self {
        fuse_create_in {
            flags: i32_at(s, 0),
            mode: u32_at(s, 4),
            umask: u32_at(s, 8),
            padding: u32_at(s, 12),
        }
    }

    closed spec fn spec_encode(self, tail: Seq<u8>) -> Seq<u8> {
        i32_bytes(self.flags) + (u32_bytes(self.mode) + (u32_bytes(self.umask) + (
            u32_bytes(self.padding) + tail)))
    }

    proof fn lemma_decode_encode(self, tail: Seq<u8>) {
        broadcast use group_fields;

        let s = self.spec_encode(tail);
        assert(s.skip(0) =~= s);
        assert(holds_from(s, 0, s));
    }

    fn size() -> (n: usize) {
        16
    }

    fn decode(data: &[u8]) -> (r: Self) {
        fuse_create_in {
            flags: get_i32(data, 0),
            mode: get_u32(data, 4),
            umask: get_u32(data, 8),
            padding: get_u32(data, 12),
        }
    }
}

/// The open file to be released.
#[allow(non_camel_case_types)]
#[derive(Clone, Copy, Debug, PartialEq, Eq, Structural)]
pub struct fuse_release_in {
    pub fh: u64,
    pub flags: i32,
    pub release_flags: u32,
    pub lock_owner: u64,
}

impl FromBytes for fuse_release_in {
    open spec fn spec_size() -> nat {
        24
    }

    open spec fn spec_decode(s: Seq<u8>) -> Self {
        fuse_release_in {
            fh: u64_at(s, 0),
            flags: i32_at(s, 8),
            release_flags: u32_at(s, 12),
            lock_owner: u64_at(s, 16),
        }
    }

    closed spec fn spec_encode(self, tail: Seq<u8>) -> Seq<u8> {
        u64_bytes(self.fh) + (i32_bytes(self.flags) + (u32_bytes(self.release_flags) + (
            u64_bytes(self.lock_owner) + tail)))
    }

    proof fn lemma_decode_encode(self, tail: Seq<u8>) {
        broadcast use group_fields;

        let s = self.spec_encode(tail);
        assert(s.skip(0) =~= s);
        assert(holds_from(s, 0, s));
    }

    fn size() -> (n: usize) {
        24
    }

    fn decode(data: &[u8]) -> (r: Self) {
        fuse_release_in {
            fh: get_u64(data, 0),
            flags: get_i32(data, 8),
            release_flags: get_u32(data, 12),
            lock_owner: get_u64(data, 16),
        }
    }
}

/// The open file to be flushed.
#[allow(non_camel_case_types)]
#[derive(Clone, Copy, Debug, PartialEq, Eq, Structural)]
pub struct fuse_flush_in {
    pub fh: u64,
    pub unused: u32,
    pub padding: u32,
    pub lock_owner: u64,
}

impl FromBytes for fuse_flush_in {
    open spec fn spec_size() -> nat {
        24
    }

    open spec fn spec_decode(s: Seq<u8>) -> Self {
        fuse_flush_in {
            fh: u64_at(s, 0),
            unused: u32_at(s, 8),
            padding: u32_at(s, 12),
            lock_owner: u64_at(s, 16),
        }
    }

    closed spec fn spec_encode(self, tail: Seq<u8>) -> Seq<u8> {
        u64_bytes(self.fh) + (u32_bytes(self.unused) + (u32_bytes(self.padding) + (
            u64_bytes(self.lock_owner) + tail)))
    }

    proof fn lemma_decode_encode(self, tail: Seq<u8>) {
        broadcast use group_fields;

        let s = self.spec_encode(tail);
        assert(s.skip(0) =~= s);
        assert(holds_from(s, 0, s));
    }

    fn size() -> (n: usize) {
        24
    }

    fn decode(data: &[u8]) -> (r: Self) {
        fuse_flush_in {
            fh: get_u64(data, 0),
            unused: get_u32(data, 8),
            padding: get_u32(data, 12),
            lock_owner: get_u64(data, 16),
        }
    }
}

/// What is to be read.
#[allow(non_camel_case_types)]
#[derive(Clone, Copy, Debug, PartialEq, Eq, Structural)]
pub struct fuse_read_in {
    pub fh: u64,
    pub offset: u64,
    pub size: u32,
    pub read_flags: u32,
    pub lock_owner: u64,
    pub flags: u32,
    pub padding: u32,
}

impl FromBytes for fuse_read_in {
    open spec fn spec_size() -> nat {
        40
    }

    open spec fn spec_decode(s: Seq<u8>) -> Self {
        fuse_read_in {
            fh: u64_at(s, 0),
            offset: u64_at(s, 8),
            size: u32_at(s, 16),
            read_flags: u32_at(s, 20),
            lock_owner: u64_at(s, 24),
            flags: u32_at(s, 32),
            padding: u32_at(s, 36),
        }
    }

    closed spec fn spec_encode(self, tail: Seq<u8>) -> Seq<u8> {
        u64_bytes(self.fh) + (u64_bytes(self.offset) + (u32_bytes(self.size) + (
            u32_bytes(self.read_flags) + (u64_bytes(self.lock_owner) + (u32_bytes(self.flags) + (
            u32_bytes(self.padding) + tail))))))
    }

    proof fn lemma_decode_encode(self, tail: Seq<u8>) {
        broadcast use group_fields;

        let s = self.spec_encode(tail);
        assert(s.skip(0) =~= s);
        assert(holds_from(s, 0, s));
    }

    fn size() -> (n: usize) {
        40
    }

    fn decode(data: &[u8]) -> (r: Self) {
        fuse_read_in {
            fh: get_u64(data, 0),
            offset: get_u64(data, 8),
            size: get_u32(data, 16),
            read_flags: get_u32(data, 20),
            lock_owner: get_u64(data, 24),
            flags: get_u32(data, 32),
            padding: get_u32(data, 36),
        }
    }
}

/// What is to be written. The bytes follow.
#[allow(non_camel_case_types)]
#[derive(Clone, Copy, Debug, PartialEq, Eq, Structural)]
pub struct fuse_write_in {
    pub fh: u64,
    pub offset: i64,
    pub size: u32,
    pub write_flags: u32,
    pub lock_owner: u64,
    pub flags: i32,
    pub padding: u32,
}

impl FromBytes for fuse_write_in {
    open spec fn spec_size() -> nat {
        40
    }

    open spec fn spec_decode(s: Seq<u8>) -> Self {
        fuse_write_in {
            fh: u64_at(s, 0),
            offset: i64_at(s, 8),
            size: u32_at(s, 16),
            write_flags: u32_at(s, 20),
            lock_owner: u64_at(s, 24),
            flags: i32_at(s, 32),
            padding: u32_at(s, 36),
        }
    }

    closed spec fn spec_encode(self, tail: Seq<u8>) -> Seq<u8> {
        u64_bytes(self.fh) + (i64_bytes(self.offset) + (u32_bytes(self.size) + (
            u32_bytes(self.write_flags) + (u64_bytes(self.lock_owner) + (i32_bytes(self.flags) + (
            u32_bytes(self.padding) + tail))))))
    }

    proof fn lemma_decode_encode(self, tail: Seq<u8>) {
        broadcast use group_fields;

        let s = self.spec_encode(tail);
        assert(s.skip(0) =~= s);
        assert(holds_from(s, 0, s));
    }

    fn size() -> (n: usize) {
        40
    }

    fn decode(data: &[u8]) -> (r: Self) {
        fuse_write_in {
            fh: get_u64(data, 0),
            offset: get_i64(data, 8),
            size: get_u32(data, 16),
            write_flags: get_u32(data, 20),
            lock_owner: get_u64(data, 24),
            flags: get_i32(data, 32),
            padding: get_u32(data, 36),
        }
    }
}

/// The open file to be synchronized.
#[allow(non_camel_case_types)]
#[derive(Clone, Copy, Debug, PartialEq, Eq, Structural)]
pub struct fuse_fsync_in {
    pub fh: u64,
    pub fsync_flags: u32,
    pub padding: u32,
}

impl FromBytes for fuse_fsync_in {
    open spec fn spec_size() -> nat {
        16
    }

    open spec fn spec_decode(s: Seq<u8>) -> Self {
        fuse_fsync_in {
            fh: u64_at(s, 0),
            fsync_flags: u32_at(s, 8),
            padding: u32_at(s, 12),
        }
    }

    closed spec fn spec_encode(self, tail: Seq<u8>) -> Seq<u8> {
        u64_bytes(self.fh) + (u32_bytes(self.fsync_flags) + (u32_bytes(self.padding) + tail))
    }

    proof fn lemma_decode_encode(self, tail: Seq<u8>) {
        broadcast use group_fields;

        let s = self.spec_encode(tail);
        assert(s.skip(0) =~= s);
        assert(holds_from(s, 0, s));
    }

    fn size() -> (n: usize) {
        16
    }

    fn decode(data: &[u8]) -> (r: Self) {
        fuse_fsync_in {
            fh: get_u64(data, 0),
            fsync_flags: get_u32(data, 8),
            padding: get_u32(data, 12),
        }
    }
}

/// The extended attribute to be set. Its name and value follow.
#[allow(non_camel_case_types)]
#[derive(Clone, Copy, Debug, PartialEq, Eq, Structural)]
pub struct fuse_setxattr_in {
    pub size: u32,
    pub flags: i32,
}

impl FromBytes for fuse_setxattr_in {
    open spec fn spec_size() -> nat {
        8
    }

    open spec fn spec_decode(s: Seq<u8>) -> Self {
        fuse_setxattr_in {
            size: u32_at(s, 0),
            flags: i32_at(s, 4),
        }
    }

    closed spec fn spec_encode(self, tail: Seq<u8>) -> Seq<u8> {
        u32_bytes(self.size) + (i32_bytes(self.flags) + tail)
    }

    proof fn lemma_decode_encode(self, tail: Seq<u8>) {
        broadcast use group_fields;

        let s = self.spec_encode(tail);
        assert(s.skip(0) =~= s);
        assert(holds_from(s, 0, s));
    }

    fn size() -> (n: usize) {
        8
    }

    fn decode(data: &[u8]) -> (r: Self) {
        fuse_setxattr_in {
            size: get_u32(data, 0),
            flags: get_i32(data, 4),
        }
    }
}

/// How much of an extended attribute is asked for.
#[allow(non_camel_case_types)]
#[derive(Clone, Copy, Debug, PartialEq, Eq, Structural)]
pub struct fuse_getxattr_in {
    pub size: u32,
    pub padding: u32,
}

impl FromBytes for fuse_getxattr_in {
    open spec fn spec_size() -> nat {
        8
    }

    open spec fn spec_decode(s: Seq<u8>) -> Self {
        fuse_getxattr_in {
            size: u32_at(s, 0),
            padding: u32_at(s, 4),
        }
    }

    closed spec fn spec_encode(self, tail: Seq<u8>) -> Seq<u8> {
        u32_bytes(self.size) + (u32_bytes(self.padding) + tail)
    }

    proof fn lemma_decode_encode(self, tail: Seq<u8>) {
        broadcast use group_fields;

        let s = self.spec_encode(tail);
        assert(s.skip(0) =~= s);
        assert(holds_from(s, 0, s));
    }

    fn size() -> (n: usize) {
        8
    }

    fn decode(data: &[u8]) -> (r: Self) {
        fuse_getxattr_in {
            size: get_u32(data, 0),
            padding: get_u32(data, 4),
        }
    }
}

/// A lock on a range of a file.
#[allow(non_camel_case_types)]
#[derive(Clone, Copy, Debug, PartialEq, Eq, Structural)]
pub struct fuse_file_lock {
    pub start: u64,
    pub end: u64,
    pub typ: i32,
    pub pid: u32,
}

impl FromBytes for fuse_file_lock {
    open spec fn spec_size() -> nat {
        24
    }

    open spec fn spec_decode(s: Seq<u8>) -> Self {
        fuse_file_lock {
            start: u64_at(s, 0),
            end: u64_at(s, 8),
            typ: i32_at(s, 16),
            pid: u32_at(s, 20),
        }
    }

    closed spec fn spec_encode(self, tail: Seq<u8>) -> Seq<u8> {
        u64_bytes(self.start) + (u64_bytes(self.end) + (i32_bytes(self.typ) + (
            u32_bytes(self.pid) + tail)))
    }

    proof fn lemma_decode_encode(self, tail: Seq<u8>) {
        broadcast use group_fields;

        let s = self.spec_encode(tail);
        assert(s.skip(0) =~= s);
        assert(holds_from(s, 0, s));
    }

    fn size() -> (n: usize) {
        24
    }

    fn decode(data: &[u8]) -> (r: Self) {
        fuse_file_lock {
            start: get_u64(data, 0),
            end: get_u64(data, 8),
            typ: get_i32(data, 16),
            pid: get_u32(data, 20),
        }
    }
}

/// The lock to be tested or set.
#[allow(non_camel_case_types)]
#[derive(Clone, Copy, Debug, PartialEq, Eq, Structural)]
pub struct fuse_lk_in {
    pub fh: u64,
    pub owner: u64,
    pub lk: fuse_file_lock,
    pub lk_flags: u32,
    pub padding: u32,
}

impl FromBytes for fuse_lk_in {
    open spec fn spec_size() -> nat {
        48
    }

    open spec fn spec_decode(s: Seq<u8>) -> Self {
        fuse_lk_in {
            fh: u64_at(s, 0),
            owner: u64_at(s, 8),
            lk: fuse_file_lock {
                start: u64_at(s, 16),
                end: u64_at(s, 24),
                typ: i32_at(s, 32),
                pid: u32_at(s, 36),
            },
            lk_flags: u32_at(s, 40),
            padding: u32_at(s, 44),
        }
    }

    closed spec fn spec_encode(self, tail: Seq<u8>) -> Seq<u8> {
        u64_bytes(self.fh) + (u64_bytes(self.owner) + (u64_bytes(self.lk.start) + (
            u64_bytes(self.lk.end) + (i32_bytes(self.lk.typ) + (u32_bytes(self.lk.pid) + (
            u32_bytes(self.lk_flags) + (u32_bytes(self.padding) + tail)))))))
    }

    proof fn lemma_decode_encode(self, tail: Seq<u8>) {
        broadcast use group_fields;

        let s = self.spec_encode(tail);
        assert(s.skip(0) =~= s);
        assert(holds_from(s, 0, s));
    }

    fn size() -> (n: usize) {
        48
    }

    fn decode(data: &[u8]) -> (r: Self) {
        fuse_lk_in {
            fh: get_u64(data, 0),
            owner: get_u64(data, 8),
            lk: fuse_file_lock {
                start: get_u64(data, 16),
                end: get_u64(data, 24),
                typ: get_i32(data, 32),
                pid: get_u32(data, 36),
            },
            lk_flags: get_u32(data, 40),
            padding: get_u32(data, 44),
        }
    }
}

/// The access to be tested.
#[allow(non_camel_case_types)]
#[derive(Clone, Copy, Debug, PartialEq, Eq, Structural)]
pub struct fuse_access_in {
    pub mask: i32,
    pub padding: u32,
}

impl FromBytes for fuse_access_in {
    open spec fn spec_size() -> nat {
        8
    }

    open spec fn spec_decode(s: Seq<u8>) -> Self {
        fuse_access_in {
            mask: i32_at(s, 0),
            padding: u32_at(s, 4),
        }
    }

    closed spec fn spec_encode(self, tail: Seq<u8>) -> Seq<u8> {
        i32_bytes(self.mask) + (u32_bytes(self.padding) + tail)
    }

    proof fn lemma_decode_encode(self, tail: Seq<u8>) {
        broadcast use group_fields;

        let s = self.spec_encode(tail);
        assert(s.skip(0) =~= s);
        assert(holds_from(s, 0, s));
    }

    fn size() -> (n: usize) {
        8
    }

    fn decode(data: &[u8]) -> (r: Self) {
        fuse_access_in {
            mask: get_i32(data, 0),
            padding: get_u32(data, 4),
        }
    }
}

/// What the kernel offers. A kernel before ABI 7.36 sends the first four fields only.
#[allow(non_camel_case_types)]
#[derive(Clone, Copy, Debug)]
pub struct fuse_init_in {
    pub major: u32,
    pub minor: u32,
    pub max_readahead: u32,
    pub flags: u32,
    pub flags2: u32,
    pub unused: [u32; 11],
}

/// The array that is read is the one whose elements are read.
proof fn lemma_fuse_init_in_unused(s: Seq<u8>, x: fuse_init_in)
    requires
        u32_at(s, 20) == x.unused[0],
        u32_at(s, 24) == x.unused[1],
        u32_at(s, 28) == x.unused[2],
        u32_at(s, 32) == x.unused[3],
        u32_at(s, 36) == x.unused[4],
        u32_at(s, 40) == x.unused[5],
        u32_at(s, 44) == x.unused[6],
        u32_at(s, 48) == x.unused[7],
        u32_at(s, 52) == x.unused[8],
        u32_at(s, 56) == x.unused[9],
        u32_at(s, 60) == x.unused[10],
    ensures
        fuse_init_in::spec_decode(s).unused == x.unused,
{
    assert(fuse_init_in::spec_decode(s).unused@ =~= x.unused@);
    assert(fuse_init_in::spec_decode(s).unused =~= x.unused);
}

impl FromBytes for fuse_init_in {
    open spec fn spec_size() -> nat {
        64
    }

    open spec fn spec_decode(s: Seq<u8>) -> Self {
        fuse_init_in {
            major: u32_at(s, 0),
            minor: u32_at(s, 4),
            max_readahead: u32_at(s, 8),
            flags: u32_at(s, 12),
            flags2: u32_at(s, 16),
            unused: [
                u32_at(s, 20),
                u32_at(s, 24),
                u32_at(s, 28),
                u32_at(s, 32),
                u32_at(s, 36),
                u32_at(s, 40),
                u32_at(s, 44),
                u32_at(s, 48),
                u32_at(s, 52),
                u32_at(s, 56),
                u32_at(s, 60),
            ],
        }
    }

    closed spec fn spec_encode(self, tail: Seq<u8>) -> Seq<u8> {
        u32_bytes(self.major) + (u32_bytes(self.minor) + (u32_bytes(self.max_readahead) + (
            u32_bytes(self.flags) + (u32_bytes(self.flags2) + (u32_bytes(self.unused[0]) + (
            u32_bytes(self.unused[1]) + (u32_bytes(self.unused[2]) + (u32_bytes(self.unused[3]) + (
            u32_bytes(self.unused[4]) + (u32_bytes(self.unused[5]) + (u32_bytes(self.unused[6]) + (
            u32_bytes(self.unused[7]) + (u32_bytes(self.unused[8]) + (u32_bytes(self.unused[9]) + (
            u32_bytes(self.unused[10]) + tail)))))))))))))))
    }

    proof fn lemma_decode_encode(self, tail: Seq<u8>) {
        broadcast use group_fields;

        let s = self.spec_encode(tail);
        assert(s.skip(0) =~= s);
        assert(holds_from(s, 0, s));
        assert(u32_at(s, 20) == self.unused[0]);
        assert(u32_at(s, 24) == self.unused[1]);
        assert(u32_at(s, 28) == self.unused[2]);
        assert(u32_at(s, 32) == self.unused[3]);
        assert(u32_at(s, 36) == self.unused[4]);
        assert(u32_at(s, 40) == self.unused[5]);
        assert(u32_at(s, 44) == self.unused[6]);
        assert(u32_at(s, 48) == self.unused[7]);
        assert(u32_at(s, 52) == self.unused[8]);
        assert(u32_at(s, 56) == self.unused[9]);
        assert(u32_at(s, 60) == self.unused[10]);
        lemma_fuse_init_in_unused(s, self);
    }

    fn size() -> (n: usize) {
        64
    }

    fn decode(data: &[u8]) -> (r: Self) {
        fuse_init_in {
            major: get_u32(data, 0),
            minor: get_u32(data, 4),
            max_readahead: get_u32(data, 8),
            flags: get_u32(data, 12),
            flags2: get_u32(data, 16),
            unused: [
                get_u32(data, 20),
                get_u32(data, 24),
                get_u32(data, 28),
                get_u32(data, 32),
                get_u32(data, 36),
                get_u32(data, 40),
                get_u32(data, 44),
                get_u32(data, 48),
                get_u32(data, 52),
                get_u32(data, 56),
                get_u32(data, 60),
            ],
        }
    }
}

/// What the kernel sends with `FUSE_INIT`: all of the structure, or its first four fields, which
/// is all that there was before ABI 7.36; what is not sent is zero.
pub open spec fn init_in_at(s: Seq<u8>) -> fuse_init_in {
    if s.len() >= 64 {
        <fuse_init_in as FromBytes>::spec_decode(s)
    } else {
        fuse_init_in {
            major: u32_at(s, 0),
            minor: u32_at(s, 4),
            max_readahead: u32_at(s, 8),
            flags: u32_at(s, 12),
            flags2: 0,
            unused: [0, 0, 0, 0, 0, 0, 0, 0, 0, 0, 0],
        }
    }
}

/// Reads what the kernel sends with `FUSE_INIT`.
pub fn decode_init_in(data: &[u8]) -> (r: fuse_init_in)
    requires
        data@.len() >= 16,
    ensures
        r == init_in_at(data@),
{
    if data.len() >= 64 {
        fuse_init_in::decode(data)
    } else {
        fuse_init_in {
            major: get_u32(data, 0),
            minor: get_u32(data, 4),
            max_readahead: get_u32(data, 8),
            flags: get_u32(data, 12),
            flags2: 0,
            unused: [0, 0, 0, 0, 0, 0, 0, 0, 0, 0, 0],
        }
    }
}

/// What the kernel offers a character device.
#[allow(non_camel_case_types)]
#[derive(Clone, Copy, Debug, PartialEq, Eq, Structural)]
pub struct cuse_init_in {
    pub major: u32,
    pub minor: u32,
    pub unused: u32,
    pub flags: u32,
}

impl FromBytes for cuse_init_in {
    open spec fn spec_size() -> nat {
        16
    }

    open spec fn spec_decode(s: Seq<u8>) -> Self {
        cuse_init_in {
            major: u32_at(s, 0),
            minor: u32_at(s, 4),
            unused: u32_at(s, 8),
            flags: u32_at(s, 12),
        }
    }

    closed spec fn spec_encode(self, tail: Seq<u8>) -> Seq<u8> {
        u32_bytes(self.major) + (u32_bytes(self.minor) + (u32_bytes(self.unused) + (
            u32_bytes(self.flags) + tail)))
    }

    proof fn lemma_decode_encode(self, tail: Seq<u8>) {
        broadcast use group_fields;

        let s = self.spec_encode(tail);
        assert(s.skip(0) =~= s);
        assert(holds_from(s, 0, s));
    }

    fn size() -> (n: usize) {
        16
    }

    fn decode(data: &[u8]) -> (r: Self) {
        cuse_init_in {
            major: get_u32(data, 0),
            minor: get_u32(data, 4),
            unused: get_u32(data, 8),
            flags: get_u32(data, 12),
        }
    }
}

/// The request to be interrupted.
#[allow(non_camel_case_types)]
#[derive(Clone, Copy, Debug, PartialEq, Eq, Structural)]
pub struct fuse_interrupt_in {
    pub unique: u64,
}

impl FromBytes for fuse_interrupt_in {
    open spec fn spec_size() -> nat {
        8
    }

    open spec fn spec_decode(s: Seq<u8>) -> Self {
        fuse_interrupt_in {
            unique: u64_at(s, 0),
        }
    }

    closed spec fn spec_encode(self, tail: Seq<u8>) -> Seq<u8> {
        u64_bytes(self.unique) + tail
    }

    proof fn lemma_decode_encode(self, tail: Seq<u8>) {
        broadcast use group_fields;

        let s = self.spec_encode(tail);
        assert(s.skip(0) =~= s);
        assert(holds_from(s, 0, s));
    }

    fn size() -> (n: usize) {
        8
    }

    fn decode(data: &[u8]) -> (r: Self) {
        fuse_interrupt_in {
            unique: get_u64(data, 0),
        }
    }
}

/// The block to be mapped.
#[allow(non_camel_case_types)]
#[derive(Clone, Copy, Debug, PartialEq, Eq, Structural)]
pub struct fuse_bmap_in {
    pub block: u64,
    pub blocksize: u32,
    pub padding: u32,
}

impl FromBytes for fuse_bmap_in {
    open spec fn spec_size() -> nat {
        16
    }

    open spec fn spec_decode(s: Seq<u8>) -> Self {
        fuse_bmap_in {
            block: u64_at(s, 0),
            blocksize: u32_at(s, 8),
            padding: u32_at(s, 12),
        }
    }

    closed spec fn spec_encode(self, tail: Seq<u8>) -> Seq<u8> {
        u64_bytes(self.block) + (u32_bytes(self.blocksize) + (u32_bytes(self.padding) + tail))
    }

    proof fn lemma_decode_encode(self, tail: Seq<u8>) {
        broadcast use group_fields;

        let s = self.spec_encode(tail);
        assert(s.skip(0) =~= s);
        assert(holds_from(s, 0, s));
    }

    fn size() -> (n: usize) {
        16
    }

    fn decode(data: &[u8]) -> (r: Self) {
        fuse_bmap_in {
            block: get_u64(data, 0),
            blocksize: get_u32(data, 8),
            padding: get_u32(data, 12),
        }
    }
}

/// The control operation. Its data follows.
#[allow(non_camel_case_types)]
#[derive(Clone, Copy, Debug, PartialEq, Eq, Structural)]
pub struct fuse_ioctl_in {
    pub fh: u64,
    pub flags: u32,
    pub cmd: u32,
    pub arg: u64,
    pub in_size: u32,
    pub out_size: u32,
}

impl FromBytes for fuse_ioctl_in {
    open spec fn spec_size() -> nat {
        32
    }

    open spec fn spec_decode(s: Seq<u8>) -> Self {
        fuse_ioctl_in {
            fh: u64_at(s, 0),
            flags: u32_at(s, 8),
            cmd: u32_at(s, 12),
            arg: u64_at(s, 16),
            in_size: u32_at(s, 24),
            out_size: u32_at(s, 28),
        }
    }

    closed spec fn spec_encode(self, tail: Seq<u8>) -> Seq<u8> {
        u64_bytes(self.fh) + (u32_bytes(self.flags) + (u32_bytes(self.cmd) + (
            u64_bytes(self.arg) + (u32_bytes(self.in_size) + (u32_bytes(self.out_size) + tail)))))
    }

    proof fn lemma_decode_encode(self, tail: Seq<u8>) {
        broadcast use group_fields;

        let s = self.spec_encode(tail);
        assert(s.skip(0) =~= s);
        assert(holds_from(s, 0, s));
    }

    fn size() -> (n: usize) {
        32
    }

    fn decode(data: &[u8]) -> (r: Self) {
        fuse_ioctl_in {
            fh: get_u64(data, 0),
            flags: get_u32(data, 8),
            cmd: get_u32(data, 12),
            arg: get_u64(data, 16),
            in_size: get_u32(data, 24),
            out_size: get_u32(data, 28),
        }
    }
}

/// The events that are polled for.
#[allow(non_camel_case_types)]
#[derive(Clone, Copy, Debug, PartialEq, Eq, Structural)]
pub struct fuse_poll_in {
    pub fh: u64,
    pub kh: u64,
    pub flags: u32,
    /// Used since ABI 7.21.
    pub events: u32,
}

impl FromBytes for fuse_poll_in {
    open spec fn spec_size() -> nat {
        24
    }

    open spec fn spec_decode(s: Seq<u8>) -> Self {
        fuse_poll_in {
            fh: u64_at(s, 0),
            kh: u64_at(s, 8),
            flags: u32_at(s, 16),
            events: u32_at(s, 20),
        }
    }

    closed spec fn spec_encode(self, tail: Seq<u8>) -> Seq<u8> {
        u64_bytes(self.fh) + (u64_bytes(self.kh) + (u32_bytes(self.flags) + (
            u32_bytes(self.events) + tail)))
    }

    proof fn lemma_decode_encode(self, tail: Seq<u8>) {
        broadcast use group_fields;

        let s = self.spec_encode(tail);
        assert(s.skip(0) =~= s);
        assert(holds_from(s, 0, s));
    }

    fn size() -> (n: usize) {
        24
    }

    fn decode(data: &[u8]) -> (r: Self) {
        fuse_poll_in {
            fh: get_u64(data, 0),
            kh: get_u64(data, 8),
            flags: get_u32(data, 16),
            events: get_u32(data, 20),
        }
    }
}

/// The range to be allocated.
#[allow(non_camel_case_types)]
#[derive(Clone, Copy, Debug, PartialEq, Eq, Structural)]
pub struct fuse_fallocate_in {
    pub fh: u64,
    pub offset: i64,
    pub length: i64,
    pub mode: i32,
    pub padding: u32,
}

impl FromBytes for fuse_fallocate_in {
    open spec fn spec_size() -> nat {
        32
    }

    open spec fn spec_decode(s: Seq<u8>) -> Self {
        fuse_fallocate_in {
            fh: u64_at(s, 0),
            offset: i64_at(s, 8),
            length: i64_at(s, 16),
            mode: i32_at(s, 24),
            padding: u32_at(s, 28),
        }
    }

    closed spec fn spec_encode(self, tail: Seq<u8>) -> Seq<u8> {
        u64_bytes(self.fh) + (i64_bytes(self.offset) + (i64_bytes(self.length) + (
            i32_bytes(self.mode) + (u32_bytes(self.padding) + tail))))
    }

    proof fn lemma_decode_encode(self, tail: Seq<u8>) {
        broadcast use group_fields;

        let s = self.spec_encode(tail);
        assert(s.skip(0) =~= s);
        assert(holds_from(s, 0, s));
    }

    fn size() -> (n: usize) {
        32
    }

    fn decode(data: &[u8]) -> (r: Self) {
        fuse_fallocate_in {
            fh: get_u64(data, 0),
            offset: get_i64(data, 8),
            length: get_i64(data, 16),
            mode: get_i32(data, 24),
            padding: get_u32(data, 28),
        }
    }
}

/// What was retrieved from the page cache. It is as long as `fuse_write_in`.
#[allow(non_camel_case_types)]
#[derive(Clone, Copy, Debug, PartialEq, Eq, Structural)]
pub struct fuse_notify_retrieve_in {
    pub dummy1: u64,
    pub offset: u64,
    pub size: u32,
    pub dummy2: u32,
    pub dummy3: u64,
    pub dummy4: u64,
}

impl FromBytes for fuse_notify_retrieve_in {
    open spec fn spec_size() -> nat {
        40
    }

    open spec fn spec_decode(s: Seq<u8>) -> Self {
        fuse_notify_retrieve_in {
            dummy1: u64_at(s, 0),
            offset: u64_at(s, 8),
            size: u32_at(s, 16),
            dummy2: u32_at(s, 20),
            dummy3: u64_at(s, 24),
            dummy4: u64_at(s, 32),
        }
    }

    closed spec fn spec_encode(self, tail: Seq<u8>) -> Seq<u8> {
        u64_bytes(self.dummy1) + (u64_bytes(self.offset) + (u32_bytes(self.size) + (
            u32_bytes(self.dummy2) + (u64_bytes(self.dummy3) + (u64_bytes(self.dummy4) + tail)))))
    }

    proof fn lemma_decode_encode(self, tail: Seq<u8>) {
        broadcast use group_fields;

        let s = self.spec_encode(tail);
        assert(s.skip(0) =~= s);
        assert(holds_from(s, 0, s));
    }

    fn size() -> (n: usize) {
        40
    }

    fn decode(data: &[u8]) -> (r: Self) {
        fuse_notify_retrieve_in {
            dummy1: get_u64(data, 0),
            offset: get_u64(data, 8),
            size: get_u32(data, 16),
            dummy2: get_u32(data, 20),
            dummy3: get_u64(data, 24),
            dummy4: get_u64(data, 32),
        }
    }
}

/// The offset that is sought.
#[allow(non_camel_case_types)]
#[derive(Clone, Copy, Debug, PartialEq, Eq, Structural)]
pub struct fuse_lseek_in {
    pub fh: u64,
    pub offset: i64,
    pub whence: i32,
    pub padding: u32,
}

impl FromBytes for fuse_lseek_in {
    open spec fn spec_size() -> nat {
        24
    }

    open spec fn spec_decode(s: Seq<u8>) -> Self {
        fuse_lseek_in {
            fh: u64_at(s, 0),
            offset: i64_at(s, 8),
            whence: i32_at(s, 16),
            padding: u32_at(s, 20),
        }
    }

    closed spec fn spec_encode(self, tail: Seq<u8>) -> Seq<u8> {
        u64_bytes(self.fh) + (i64_bytes(self.offset) + (i32_bytes(self.whence) + (
            u32_bytes(self.padding) + tail)))
    }

    proof fn lemma_decode_encode(self, tail: Seq<u8>) {
        broadcast use group_fields;

        let s = self.spec_encode(tail);
        assert(s.skip(0) =~= s);
        assert(holds_from(s, 0, s));
    }

    fn size() -> (n: usize) {
        24
    }

    fn decode(data: &[u8]) -> (r: Self) {
        fuse_lseek_in {
            fh: get_u64(data, 0),
            offset: get_i64(data, 8),
            whence: get_i32(data, 16),
            padding: get_u32(data, 20),
        }
    }
}

/// The range to be copied, and where.
#[allow(non_camel_case_types)]
#[derive(Clone, Copy, Debug, PartialEq, Eq, Structural)]
pub struct fuse_copy_file_range_in {
    pub fh_in: u64,
    pub off_in: i64,
    pub nodeid_out: u64,
    pub fh_out: u64,
    pub off_out: i64,
    pub len: u64,
    pub flags: u64,
}

impl FromBytes for fuse_copy_file_range_in {
    open spec fn spec_size() -> nat {
        56
    }

    open spec fn spec_decode(s: Seq<u8>) -> Self {
        fuse_copy_file_range_in {
            fh_in: u64_at(s, 0),
            off_in: i64_at(s, 8),
            nodeid_out: u64_at(s, 16),
            fh_out: u64_at(s, 24),
            off_out: i64_at(s, 32),
            len: u64_at(s, 40),
            flags: u64_at(s, 48),
        }
    }

    closed spec fn spec_encode(self, tail: Seq<u8>) -> Seq<u8> {
        u64_bytes(self.fh_in) + (i64_bytes(self.off_in) + (u64_bytes(self.nodeid_out) + (
            u64_bytes(self.fh_out) + (i64_bytes(self.off_out) + (u64_bytes(self.len) + (
            u64_bytes(self.flags) + tail))))))
    }

    proof fn lemma_decode_encode(self, tail: Seq<u8>) {
        broadcast use group_fields;

        let s = self.spec_encode(tail);
        assert(s.skip(0) =~= s);
        assert(holds_from(s, 0, s));
    }

    fn size() -> (n: usize) {
        56
    }

    fn decode(data: &[u8]) -> (r: Self) {
        fuse_copy_file_range_in {
            fh_in: get_u64(data, 0),
            off_in: get_i64(data, 8),
            nodeid_out: get_u64(data, 16),
            fh_out: get_u64(data, 24),
            off_out: get_i64(data, 32),
            len: get_u64(data, 40),
            flags: get_u64(data, 48),
        }
    }
}

/// The header that every reply begins with. `len` counts it too.
#[allow(non_camel_case_types)]
#[derive(Clone, Copy, Debug, PartialEq, Eq, Structural)]
pub struct fuse_out_header {
    pub len: u32,
    pub error: i32,
    pub unique: u64,
}

impl IntoBytes for fuse_out_header {
    open spec fn spec_bytes(&self) -> Seq<u8> {
        u32_bytes(self.len) + i32_bytes(self.error) + u64_bytes(self.unique)
    }

    fn as_bytes(&self) -> (r: Vec<u8>) {
        let mut buf: Vec<u8> = Vec::new();
        put_u32(&mut buf, self.len);
        assert(buf@ =~= u32_bytes(self.len));
        put_i32(&mut buf, self.error);
        put_u64(&mut buf, self.unique);
        buf
    }
}

/// The attributes of an inode. The times are signed, to match those of `stat`.
#[allow(non_camel_case_types)]
#[derive(Clone, Copy, Debug, PartialEq, Eq, Structural)]
pub struct fuse_attr {
    pub ino: u64,
    pub size: u64,
    pub blocks: u64,
    pub atime: i64,
    pub mtime: i64,
    pub ctime: i64,
    pub atimensec: u32,
    pub mtimensec: u32,
    pub ctimensec: u32,
    pub mode: u32,
    pub nlink: u32,
    pub uid: u32,
    pub gid: u32,
    pub rdev: u32,
    pub blksize: u32,
    pub padding: u32,
}

impl IntoBytes for fuse_attr {
    open spec fn spec_bytes(&self) -> Seq<u8> {
        u64_bytes(self.ino) + u64_bytes(self.size) + u64_bytes(self.blocks) + i64_bytes(self.atime)
            + i64_bytes(self.mtime) + i64_bytes(self.ctime) + u32_bytes(self.atimensec)
            + u32_bytes(self.mtimensec) + u32_bytes(self.ctimensec) + u32_bytes(self.mode)
            + u32_bytes(self.nlink) + u32_bytes(self.uid) + u32_bytes(self.gid) + u32_bytes(self.rdev)
            + u32_bytes(self.blksize) + u32_bytes(self.padding)
    }

    fn as_bytes(&self) -> (r: Vec<u8>) {
        let mut buf: Vec<u8> = Vec::new();
        put_u64(&mut buf, self.ino);
        assert(buf@ =~= u64_bytes(self.ino));
        put_u64(&mut buf, self.size);
        put_u64(&mut buf, self.blocks);
        put_i64(&mut buf, self.atime);
        put_i64(&mut buf, self.mtime);
        put_i64(&mut buf, self.ctime);
        put_u32(&mut buf, self.atimensec);
        put_u32(&mut buf, self.mtimensec);
        put_u32(&mut buf, self.ctimensec);
        put_u32(&mut buf, self.mode);
        put_u32(&mut buf, self.nlink);
        put_u32(&mut buf, self.uid);
        put_u32(&mut buf, self.gid);
        put_u32(&mut buf, self.rdev);
        put_u32(&mut buf, self.blksize);
        put_u32(&mut buf, self.padding);
        buf
    }
}

/// The figures of a filesystem.
#[allow(non_camel_case_types)]
#[derive(Clone, Copy, Debug)]
pub struct fuse_kstatfs {
    /// Total blocks, in units of `frsize`.
    pub blocks: u64,
    /// Free blocks.
    pub bfree: u64,
    /// Free blocks for unprivileged users.
    pub bavail: u64,
    /// Total inodes.
    pub files: u64,
    /// Free inodes.
    pub ffree: u64,
    /// Filesystem block size.
    pub bsize: u32,
    /// Maximum filename length.
    pub namelen: u32,
    /// Fundamental block size.
    pub frsize: u32,
    pub padding: u32,
    pub spare: [u32; 6],
}

impl IntoBytes for fuse_kstatfs {
    open spec fn spec_bytes(&self) -> Seq<u8> {
        u64_bytes(self.blocks) + u64_bytes(self.bfree) + u64_bytes(self.bavail)
            + u64_bytes(self.files) + u64_bytes(self.ffree) + u32_bytes(self.bsize)
            + u32_bytes(self.namelen) + u32_bytes(self.frsize) + u32_bytes(self.padding)
            + u32_bytes(self.spare[0]) + u32_bytes(self.spare[1]) + u32_bytes(self.spare[2])
            + u32_bytes(self.spare[3]) + u32_bytes(self.spare[4]) + u32_bytes(self.spare[5])
    }

    fn as_bytes(&self) -> (r: Vec<u8>) {
        let mut buf: Vec<u8> = Vec::new();
        put_u64(&mut buf, self.blocks);
        assert(buf@ =~= u64_bytes(self.blocks));
        put_u64(&mut buf, self.bfree);
        put_u64(&mut buf, self.bavail);
        put_u64(&mut buf, self.files);
        put_u64(&mut buf, self.ffree);
        put_u32(&mut buf, self.bsize);
        put_u32(&mut buf, self.namelen);
        put_u32(&mut buf, self.frsize);
        put_u32(&mut buf, self.padding);
        put_u32(&mut buf, self.spare[0]);
        put_u32(&mut buf, self.spare[1]);
        put_u32(&mut buf, self.spare[2]);
        put_u32(&mut buf, self.spare[3]);
        put_u32(&mut buf, self.spare[4]);
        put_u32(&mut buf, self.spare[5]);
        buf
    }
}

impl IntoBytes for fuse_file_lock {
    open spec fn spec_bytes(&self) -> Seq<u8> {
        u64_bytes(self.start) + u64_bytes(self.end) + i32_bytes(self.typ) + u32_bytes(self.pid)
    }

    fn as_bytes(&self) -> (r: Vec<u8>) {
        let mut buf: Vec<u8> = Vec::new();
        put_u64(&mut buf, self.start);
        assert(buf@ =~= u64_bytes(self.start));
        put_u64(&mut buf, self.end);
        put_i32(&mut buf, self.typ);
        put_u32(&mut buf, self.pid);
        buf
    }
}

/// An inode that was looked up or made.
#[allow(non_camel_case_types)]
#[derive(Clone, Copy, Debug, PartialEq, Eq, Structural)]
pub struct fuse_entry_out {
    pub nodeid: u64,
    pub generation: u64,
    pub entry_valid: u64,
    pub attr_valid: u64,
    pub entry_valid_nsec: u32,
    pub attr_valid_nsec: u32,
    pub attr: fuse_attr,
}

impl IntoBytes for fuse_entry_out {
    open spec fn spec_bytes(&self) -> Seq<u8> {
        u64_bytes(self.nodeid) + u64_bytes(self.generation) + u64_bytes(self.entry_valid)
            + u64_bytes(self.attr_valid) + u32_bytes(self.entry_valid_nsec)
            + u32_bytes(self.attr_valid_nsec) + self.attr.spec_bytes()
    }

    fn as_bytes(&self) -> (r: Vec<u8>) {
        let mut buf: Vec<u8> = Vec::new();
        put_u64(&mut buf, self.nodeid);
        assert(buf@ =~= u64_bytes(self.nodeid));
        put_u64(&mut buf, self.generation);
        put_u64(&mut buf, self.entry_valid);
        put_u64(&mut buf, self.attr_valid);
        put_u32(&mut buf, self.entry_valid_nsec);
        put_u32(&mut buf, self.attr_valid_nsec);
        buf.append(&mut self.attr.as_bytes());
        buf
    }
}

/// The attributes that were asked for.
#[allow(non_camel_case_types)]
#[derive(Clone, Copy, Debug, PartialEq, Eq, Structural)]
pub struct fuse_attr_out {
    pub attr_valid: u64,
    pub attr_valid_nsec: u32,
    pub dummy: u32,
    pub attr: fuse_attr,
}

impl IntoBytes for fuse_attr_out {
    open spec fn spec_bytes(&self) -> Seq<u8> {
        u64_bytes(self.attr_valid) + u32_bytes(self.attr_valid_nsec) + u32_bytes(self.dummy)
            + self.attr.spec_bytes()
    }

    fn as_bytes(&self) -> (r: Vec<u8>) {
        let mut buf: Vec<u8> = Vec::new();
        put_u64(&mut buf, self.attr_valid);
        assert(buf@ =~= u64_bytes(self.attr_valid));
        put_u32(&mut buf, self.attr_valid_nsec);
        put_u32(&mut buf, self.dummy);
        buf.append(&mut self.attr.as_bytes());
        buf
    }
}

/// A file that was opened.
#[allow(non_camel_case_types)]
#[derive(Clone, Copy, Debug, PartialEq, Eq, Structural)]
pub struct fuse_open_out {
    pub fh: u64,
    pub open_flags: u32,
    /// Used since ABI 7.40.
    pub backing_id: u32,
}

impl IntoBytes for fuse_open_out {
    open spec fn spec_bytes(&self) -> Seq<u8> {
        u64_bytes(self.fh) + u32_bytes(self.open_flags) + u32_bytes(self.backing_id)
    }

    fn as_bytes(&self) -> (r: Vec<u8>) {
        let mut buf: Vec<u8> = Vec::new();
        put_u64(&mut buf, self.fh);
        assert(buf@ =~= u64_bytes(self.fh));
        put_u32(&mut buf, self.open_flags);
        put_u32(&mut buf, self.backing_id);
        buf
    }
}

/// A file that was made and opened.
#[allow(non_camel_case_types)]
#[derive(Clone, Copy, Debug, PartialEq, Eq, Structural)]
pub struct fuse_create_out {
    pub entry: fuse_entry_out,
    pub open: fuse_open_out,
}

impl IntoBytes for fuse_create_out {
    open spec fn spec_bytes(&self) -> Seq<u8> {
        self.entry.spec_bytes() + self.open.spec_bytes()
    }

    fn as_bytes(&self) -> (r: Vec<u8>) {
        let mut buf: Vec<u8> = Vec::new();
        buf.append(&mut self.entry.as_bytes());
        assert(buf@ =~= self.entry.spec_bytes());
        buf.append(&mut self.open.as_bytes());
        buf
    }
}

/// How much was written.
#[allow(non_camel_case_types)]
#[derive(Clone, Copy, Debug, PartialEq, Eq, Structural)]
pub struct fuse_write_out {
    pub size: u32,
    pub padding: u32,
}

impl IntoBytes for fuse_write_out {
    open spec fn spec_bytes(&self) -> Seq<u8> {
        u32_bytes(self.size) + u32_bytes(self.padding)
    }

    fn as_bytes(&self) -> (r: Vec<u8>) {
        let mut buf: Vec<u8> = Vec::new();
        put_u32(&mut buf, self.size);
        assert(buf@ =~= u32_bytes(self.size));
        put_u32(&mut buf, self.padding);
        buf
    }
}

/// The figures that were asked for.
#[allow(non_camel_case_types)]
#[derive(Clone, Copy, Debug)]
pub struct fuse_statfs_out {
    pub st: fuse_kstatfs,
}

impl IntoBytes for fuse_statfs_out {
    open spec fn spec_bytes(&self) -> Seq<u8> {
        self.st.spec_bytes()
    }

    fn as_bytes(&self) -> (r: Vec<u8>) {
        self.st.as_bytes()
    }
}

/// The size of an extended attribute.
#[allow(non_camel_case_types)]
#[derive(Clone, Copy, Debug, PartialEq, Eq, Structural)]
pub struct fuse_getxattr_out {
    pub size: u32,
    pub padding: u32,
}

impl IntoBytes for fuse_getxattr_out {
    open spec fn spec_bytes(&self) -> Seq<u8> {
        u32_bytes(self.size) + u32_bytes(self.padding)
    }

    fn as_bytes(&self) -> (r: Vec<u8>) {
        let mut buf: Vec<u8> = Vec::new();
        put_u32(&mut buf, self.size);
        assert(buf@ =~= u32_bytes(self.size));
        put_u32(&mut buf, self.padding);
        buf
    }
}

/// The lock that was found.
#[allow(non_camel_case_types)]
#[derive(Clone, Copy, Debug, PartialEq, Eq, Structural)]
pub struct fuse_lk_out {
    pub lk: fuse_file_lock,
}

impl IntoBytes for fuse_lk_out {
    open spec fn spec_bytes(&self) -> Seq<u8> {
        self.lk.spec_bytes()
    }

    fn as_bytes(&self) -> (r: Vec<u8>) {
        self.lk.as_bytes()
    }
}

/// What the filesystem takes of what the kernel offers.
#[allow(non_camel_case_types)]
#[derive(Clone, Copy, Debug)]
pub struct fuse_init_out {
    pub major: u32,
    pub minor: u32,
    pub max_readahead: u32,
    pub flags: u32,
    pub max_background: u16,
    pub congestion_threshold: u16,
    pub max_write: u32,
    pub time_gran: u32,
    pub max_pages: u16,
    pub unused2: u16,
    pub flags2: u32,
    pub max_stack_depth: u32,
    pub reserved: [u32; 6],
}

impl IntoBytes for fuse_init_out {
    open spec fn spec_bytes(&self) -> Seq<u8> {
        u32_bytes(self.major) + u32_bytes(self.minor) + u32_bytes(self.max_readahead)
            + u32_bytes(self.flags) + u16_bytes(self.max_background)
            + u16_bytes(self.congestion_threshold) + u32_bytes(self.max_write)
            + u32_bytes(self.time_gran) + u16_bytes(self.max_pages) + u16_bytes(self.unused2)
            + u32_bytes(self.flags2) + u32_bytes(self.max_stack_depth) + u32_bytes(self.reserved[0])
            + u32_bytes(self.reserved[1]) + u32_bytes(self.reserved[2]) + u32_bytes(self.reserved[3])
            + u32_bytes(self.reserved[4]) + u32_bytes(self.reserved[5])
    }

    fn as_bytes(&self) -> (r: Vec<u8>) {
        let mut buf: Vec<u8> = Vec::new();
        put_u32(&mut buf, self.major);
        assert(buf@ =~= u32_bytes(self.major));
        put_u32(&mut buf, self.minor);
        put_u32(&mut buf, self.max_readahead);
        put_u32(&mut buf, self.flags);
        put_u16(&mut buf, self.max_background);
        put_u16(&mut buf, self.congestion_threshold);
        put_u32(&mut buf, self.max_write);
        put_u32(&mut buf, self.time_gran);
        put_u16(&mut buf, self.max_pages);
        put_u16(&mut buf, self.unused2);
        put_u32(&mut buf, self.flags2);
        put_u32(&mut buf, self.max_stack_depth);
        put_u32(&mut buf, self.reserved[0]);
        put_u32(&mut buf, self.reserved[1]);
        put_u32(&mut buf, self.reserved[2]);
        put_u32(&mut buf, self.reserved[3]);
        put_u32(&mut buf, self.reserved[4]);
        put_u32(&mut buf, self.reserved[5]);
        buf
    }
}

/// The block that was found.
#[allow(non_camel_case_types)]
#[derive(Clone, Copy, Debug, PartialEq, Eq, Structural)]
pub struct fuse_bmap_out {
    pub block: u64,
}

impl IntoBytes for fuse_bmap_out {
    open spec fn spec_bytes(&self) -> Seq<u8> {
        u64_bytes(self.block)
    }

    fn as_bytes(&self) -> (r: Vec<u8>) {
        let mut buf: Vec<u8> = Vec::new();
        put_u64(&mut buf, self.block);
        assert(buf@ =~= u64_bytes(self.block));
        buf
    }
}

/// The outcome of a control operation.
#[allow(non_camel_case_types)]
#[derive(Clone, Copy, Debug, PartialEq, Eq, Structural)]
pub struct fuse_ioctl_out {
    pub result: i32,
    pub flags: u32,
    pub in_iovs: u32,
    pub out_iovs: u32,
}

impl IntoBytes for fuse_ioctl_out {
    open spec fn spec_bytes(&self) -> Seq<u8> {
        i32_bytes(self.result) + u32_bytes(self.flags) + u32_bytes(self.in_iovs)
            + u32_bytes(self.out_iovs)
    }

    fn as_bytes(&self) -> (r: Vec<u8>) {
        let mut buf: Vec<u8> = Vec::new();
        put_i32(&mut buf, self.result);
        assert(buf@ =~= i32_bytes(self.result));
        put_u32(&mut buf, self.flags);
        put_u32(&mut buf, self.in_iovs);
        put_u32(&mut buf, self.out_iovs);
        buf
    }
}

/// The events that are pending.
#[allow(non_camel_case_types)]
#[derive(Clone, Copy, Debug, PartialEq, Eq, Structural)]
pub struct fuse_poll_out {
    pub revents: u32,
    pub padding: u32,
}

impl IntoBytes for fuse_poll_out {
    open spec fn spec_bytes(&self) -> Seq<u8> {
        u32_bytes(self.revents) + u32_bytes(self.padding)
    }

    fn as_bytes(&self) -> (r: Vec<u8>) {
        let mut buf: Vec<u8> = Vec::new();
        put_u32(&mut buf, self.revents);
        assert(buf@ =~= u32_bytes(self.revents));
        put_u32(&mut buf, self.padding);
        buf
    }
}

/// Whom to wake.
#[allow(non_camel_case_types)]
#[derive(Clone, Copy, Debug, PartialEq, Eq, Structural)]
pub struct fuse_notify_poll_wakeup_out {
    pub kh: u64,
}

impl IntoBytes for fuse_notify_poll_wakeup_out {
    open spec fn spec_bytes(&self) -> Seq<u8> {
        u64_bytes(self.kh)
    }

    fn as_bytes(&self) -> (r: Vec<u8>) {
        let mut buf: Vec<u8> = Vec::new();
        put_u64(&mut buf, self.kh);
        assert(buf@ =~= u64_bytes(self.kh));
        buf
    }
}

/// The offset that was found.
#[allow(non_camel_case_types)]
#[derive(Clone, Copy, Debug, PartialEq, Eq, Structural)]
pub struct fuse_lseek_out {
    pub offset: i64,
}

impl IntoBytes for fuse_lseek_out {
    open spec fn spec_bytes(&self) -> Seq<u8> {
        i64_bytes(self.offset)
    }

    fn as_bytes(&self) -> (r: Vec<u8>) {
        let mut buf: Vec<u8> = Vec::new();
        put_i64(&mut buf, self.offset);
        assert(buf@ =~= i64_bytes(self.offset));
        buf
    }
}

/// A directory entry. A name of `namelen` bytes follows.
#[allow(non_camel_case_types)]
#[derive(Clone, Copy, Debug, PartialEq, Eq, Structural)]
pub struct fuse_dirent {
    pub ino: u64,
    pub off: u64,
    pub namelen: u32,
    pub typ: u32,
}

impl IntoBytes for fuse_dirent {
    open spec fn spec_bytes(&self) -> Seq<u8> {
        u64_bytes(self.ino) + u64_bytes(self.off) + u32_bytes(self.namelen) + u32_bytes(self.typ)
    }

    fn as_bytes(&self) -> (r: Vec<u8>) {
        let mut buf: Vec<u8> = Vec::new();
        put_u64(&mut buf, self.ino);
        assert(buf@ =~= u64_bytes(self.ino));
        put_u64(&mut buf, self.off);
        put_u32(&mut buf, self.namelen);
        put_u32(&mut buf, self.typ);
        buf
    }
}

/// A directory entry with its attributes.
#[allow(non_camel_case_types)]
#[derive(Clone, Copy, Debug, PartialEq, Eq, Structural)]
pub struct fuse_direntplus {
    pub entry_out: fuse_entry_out,
    pub dirent: fuse_dirent,
}

impl IntoBytes for fuse_direntplus {
    open spec fn spec_bytes(&self) -> Seq<u8> {
        self.entry_out.spec_bytes() + self.dirent.spec_bytes()
    }

    fn as_bytes(&self) -> (r: Vec<u8>) {
        let mut buf: Vec<u8> = Vec::new();
        buf.append(&mut self.entry_out.as_bytes());
        assert(buf@ =~= self.entry_out.spec_bytes());
        buf.append(&mut self.dirent.as_bytes());
        buf
    }
}

/// The range of an inode that is stale.
#[allow(non_camel_case_types)]
#[derive(Clone, Copy, Debug, PartialEq, Eq, Structural)]
pub struct fuse_notify_inval_inode_out {
    pub ino: u64,
    pub off: i64,
    pub len: i64,
}

impl IntoBytes for fuse_notify_inval_inode_out {
    open spec fn spec_bytes(&self) -> Seq<u8> {
        u64_bytes(self.ino) + i64_bytes(self.off) + i64_bytes(self.len)
    }

    fn as_bytes(&self) -> (r: Vec<u8>) {
        let mut buf: Vec<u8> = Vec::new();
        put_u64(&mut buf, self.ino);
        assert(buf@ =~= u64_bytes(self.ino));
        put_i64(&mut buf, self.off);
        put_i64(&mut buf, self.len);
        buf
    }
}

/// The directory entry that is stale. Its name follows.
#[allow(non_camel_case_types)]
#[derive(Clone, Copy, Debug, PartialEq, Eq, Structural)]
pub struct fuse_notify_inval_entry_out {
    pub parent: u64,
    pub namelen: u32,
    pub padding: u32,
}

impl IntoBytes for fuse_notify_inval_entry_out {
    open spec fn spec_bytes(&self) -> Seq<u8> {
        u64_bytes(self.parent) + u32_bytes(self.namelen) + u32_bytes(self.padding)
    }

    fn as_bytes(&self) -> (r: Vec<u8>) {
        let mut buf: Vec<u8> = Vec::new();
        put_u64(&mut buf, self.parent);
        assert(buf@ =~= u64_bytes(self.parent));
        put_u32(&mut buf, self.namelen);
        put_u32(&mut buf, self.padding);
        buf
    }
}

/// The directory entry that is gone. Its name follows.
#[allow(non_camel_case_types)]
#[derive(Clone, Copy, Debug, PartialEq, Eq, Structural)]
pub struct fuse_notify_delete_out {
    pub parent: u64,
    pub child: u64,
    pub namelen: u32,
    pub padding: u32,
}

impl IntoBytes for fuse_notify_delete_out {
    open spec fn spec_bytes(&self) -> Seq<u8> {
        u64_bytes(self.parent) + u64_bytes(self.child) + u32_bytes(self.namelen)
            + u32_bytes(self.padding)
    }

    fn as_bytes(&self) -> (r: Vec<u8>) {
        let mut buf: Vec<u8> = Vec::new();
        put_u64(&mut buf, self.parent);
        assert(buf@ =~= u64_bytes(self.parent));
        put_u64(&mut buf, self.child);
        put_u32(&mut buf, self.namelen);
        put_u32(&mut buf, self.padding);
        buf
    }
}

/// Where data goes in the page cache. The data follows.
#[allow(non_camel_case_types)]
#[derive(Clone, Copy, Debug, PartialEq, Eq, Structural)]
pub struct fuse_notify_store_out {
    pub nodeid: u64,
    pub offset: u64,
    pub size: u32,
    pub padding: u32,
}

impl IntoBytes for fuse_notify_store_out {
    open spec fn spec_bytes(&self) -> Seq<u8> {
        u64_bytes(self.nodeid) + u64_bytes(self.offset) + u32_bytes(self.size)
            + u32_bytes(self.padding)
    }

    fn as_bytes(&self) -> (r: Vec<u8>) {
        let mut buf: Vec<u8> = Vec::new();
        put_u64(&mut buf, self.nodeid);
        assert(buf@ =~= u64_bytes(self.nodeid));
        put_u64(&mut buf, self.offset);
        put_u32(&mut buf, self.size);
        put_u32(&mut buf, self.padding);
        buf
    }
}

} // verus!
