//! The attributes of a file.

use vstd::prelude::*;
use vstd::std_specs::convert::FromSpecImpl;
use vstd::string::StringExecFns;

use crate::ids::INodeNo;
use crate::ll::flags::statx_flags::StatxAttributes;
use crate::text::{decimal, to_decimal};
use crate::time::{
    signed_nanos, system_time_from_time, time_can_be_held, time_fits, unix_epoch, SystemTime,
};

verus! {

/// File types
#[derive(Clone, Copy, Debug, PartialEq, Eq, Hash, Structural)]
pub enum FileType {
    /// Named pipe (`S_IFIFO`)
    NamedPipe,
    /// Character device (`S_IFCHR`)
    CharDevice,
    /// Block device (`S_IFBLK`)
    BlockDevice,
    /// Directory (`S_IFDIR`)
    Directory,
    /// Regular file (`S_IFREG`)
    RegularFile,
    /// Symbolic link (`S_IFLNK`)
    Symlink,
    /// Unix domain socket (`S_IFSOCK`)
    Socket,
}

/// What the system says of the kind of a file: the answers of `std::fs::FileType`.
#[derive(Clone, Copy, Debug, PartialEq, Eq, Structural)]
pub struct StdFileType {
    pub is_file: bool,
    pub is_dir: bool,
    pub is_symlink: bool,
    pub is_fifo: bool,
    pub is_socket: bool,
    pub is_char_device: bool,
    pub is_block_device: bool,
}

impl FileType {
    /// The kind that the first of the answers in the order file, directory, symbolic link, pipe,
    /// socket, character device, block device gives.
    pub open spec fn spec_from_std(file_type: StdFileType) -> Option<FileType> {
        if file_type.is_file {
            Some(FileType::RegularFile)
        } else if file_type.is_dir {
            Some(FileType::Directory)
        } else if file_type.is_symlink {
            Some(FileType::Symlink)
        } else if file_type.is_fifo {
            Some(FileType::NamedPipe)
        } else if file_type.is_socket {
            Some(FileType::Socket)
        } else if file_type.is_char_device {
            Some(FileType::CharDevice)
        } else if file_type.is_block_device {
            Some(FileType::BlockDevice)
        } else {
            None
        }
    }

    /// Converts what the system says of the kind of a file.
    pub fn from_std(file_type: StdFileType) -> (r: Option<FileType>)
        ensures
            r == FileType::spec_from_std(file_type),
    {
        if file_type.is_file {
            Some(FileType::RegularFile)
        } else if file_type.is_dir {
            Some(FileType::Directory)
        } else if file_type.is_symlink {
            Some(FileType::Symlink)
        } else if file_type.is_fifo {
            Some(FileType::NamedPipe)
        } else if file_type.is_socket {
            Some(FileType::Socket)
        } else if file_type.is_char_device {
            Some(FileType::CharDevice)
        } else if file_type.is_block_device {
            Some(FileType::BlockDevice)
        } else {
            None
        }
    }
}

/// File attributes
#[derive(Clone, Copy, Debug, PartialEq, Eq, Structural)]
pub struct FileAttr {
    /// Inode number
    pub ino: INodeNo,
    /// Size in bytes
    pub size: u64,
    /// Allocated size in 512-byte blocks. May be smaller than the actual file size
    /// if the file is compressed, for example.
    pub blocks: u64,
    /// Time of last access
    pub atime: SystemTime,
    /// Time of last modification
    pub mtime: SystemTime,
    /// Time of last change
    pub ctime: SystemTime,
    /// Time of creation (macOS only)
    pub crtime: SystemTime,
    /// Kind of file (directory, file, pipe, etc)
    pub kind: FileType,
    /// Permissions
    pub perm: u16,
    /// Number of hard links
    pub nlink: u32,
    /// User id
    pub uid: u32,
    /// Group id
    pub gid: u32,
    /// Rdev
    pub rdev: u32,
    /// Block size to be reported by `stat()`. If unsure, set to 4096.
    pub blksize: u32,
    /// Flags (macOS only, see chflags(2))
    pub flags: u32,
}

/// What `statx(2)` reports, which is `FileAttr` plus the fields `stat(2)` has no room for.
#[derive(Clone, Copy, Debug, PartialEq, Eq, Structural)]
pub struct StatxAttr {
    /// Everything `stat(2)` also reports
    pub attr: FileAttr,
    /// Time of creation, reported to the caller only when this is `Some`.
    pub btime: Option<SystemTime>,
    /// Properties of the file that are set, such as immutable or append-only. They are part of the
    /// wire format; the kernel does not read them.
    pub attributes: StatxAttributes,
    /// Properties this filesystem knows about at all, set or not, distinguishing "not set"
    /// from "cannot say".
    pub attributes_mask: StatxAttributes,
}

impl From<FileAttr> for StatxAttr {
    /// Reports what `stat(2)` would, and nothing beyond it
    fn from(attr: FileAttr) -> (r: Self) {
        StatxAttr {
            attr,
            btime: None,
            attributes: StatxAttributes::from_bits_retain(0),
            attributes_mask: StatxAttributes::from_bits_retain(0),
        }
    }
}

impl FromSpecImpl<FileAttr> for StatxAttr {
    open spec fn obeys_from_spec() -> bool {
        true
    }

    open spec fn from_spec(attr: FileAttr) -> Self {
        StatxAttr {
            attr,
            btime: None,
            attributes: StatxAttributes { bits: 0 },
            attributes_mask: StatxAttributes { bits: 0 },
        }
    }
}

/// The metadata of a local file: the answers of `std::fs::Metadata`.
#[derive(Clone, Copy, Debug, PartialEq, Eq, Structural)]
pub struct Metadata {
    pub file_type: StdFileType,
    pub ino: u64,
    pub size: u64,
    pub blocks: u64,
    pub atime: i64,
    pub atime_nsec: i64,
    pub mtime: i64,
    pub mtime_nsec: i64,
    pub ctime: i64,
    pub ctime_nsec: i64,
    /// When the file was made, where that is recorded.
    pub created: Option<SystemTime>,
    pub mode: u32,
    pub nlink: u64,
    pub uid: u32,
    pub gid: u32,
    pub rdev: u64,
    pub blksize: u64,
}

/// Why metadata cannot be converted.
#[derive(Clone, Copy, Debug, PartialEq, Eq, Structural)]
pub enum AttrError {
    /// The file is of a kind that `FileType` cannot represent.
    UnsupportedType(StdFileType),
    /// The number of links does not fit.
    NlinkTooLarge(u64),
    /// The device number does not fit.
    RdevTooLarge(u64),
    /// The block size does not fit.
    BlksizeTooLarge(u64),
}

impl AttrError {
    /// What is said of the error, where `file_type` describes the type of the file.
    pub open spec fn spec_text(self, file_type: Seq<char>) -> Seq<char> {
        match self {
            AttrError::UnsupportedType(_) => "unsupported file type "@ + file_type,
            AttrError::NlinkTooLarge(value) => "nlink is "@ + decimal(value as int)
                + ", which does not fit the FUSE protocol's u32"@,
            AttrError::RdevTooLarge(value) => "rdev is "@ + decimal(value as int)
                + ", which does not fit the FUSE protocol's u32"@,
            AttrError::BlksizeTooLarge(value) => "blksize is "@ + decimal(value as int)
                + ", which does not fit the FUSE protocol's u32"@,
        }
    }

    /// What is said of the error, where `file_type` describes the type of the file.
    pub fn text(&self, file_type: &str) -> (r: String)
        ensures
            r@ == self.spec_text(file_type@),
    {
        match self {
            AttrError::UnsupportedType(_) => String::from_str("unsupported file type ").concat(
                file_type,
            ),
            AttrError::NlinkTooLarge(value) => String::from_str("nlink is ").concat(
                to_decimal(*value).as_str(),
            ).concat(", which does not fit the FUSE protocol's u32"),
            AttrError::RdevTooLarge(value) => String::from_str("rdev is ").concat(
                to_decimal(*value).as_str(),
            ).concat(", which does not fit the FUSE protocol's u32"),
            AttrError::BlksizeTooLarge(value) => String::from_str("blksize is ").concat(
                to_decimal(*value).as_str(),
            ).concat(", which does not fit the FUSE protocol's u32"),
        }
    }
}

impl Metadata {
    /// The device number where the file is a device, and zero otherwise: for other files the
    /// system leaves it open.
    pub open spec fn device(self, kind: FileType) -> u64 {
        match kind {
            FileType::CharDevice | FileType::BlockDevice => self.rdev,
            _ => 0,
        }
    }

    /// The kind of the file, where there is a name for it and what is counted fits; the first field
    /// that does not is the error.
    pub open spec fn spec_check(self) -> Result<FileType, AttrError> {
        match FileType::spec_from_std(self.file_type) {
            None => Err(AttrError::UnsupportedType(self.file_type)),
            Some(kind) => if self.nlink > u32::MAX {
                Err(AttrError::NlinkTooLarge(self.nlink))
            } else if self.device(kind) > u32::MAX {
                Err(AttrError::RdevTooLarge(self.rdev))
            } else if self.blksize > u32::MAX {
                Err(AttrError::BlksizeTooLarge(self.blksize))
            } else {
                Ok(kind)
            },
        }
    }

    /// The kind of the file, where there is a name for it and what is counted fits.
    pub fn check(&self) -> (r: Result<FileType, AttrError>)
        ensures
            r == self.spec_check(),
    {
        let kind = match FileType::from_std(self.file_type) {
            Some(kind) => kind,
            None => return Err(AttrError::UnsupportedType(self.file_type)),
        };
        if self.nlink > u32::MAX as u64 {
            return Err(AttrError::NlinkTooLarge(self.nlink));
        }
        let rdev: u64 = match kind {
            FileType::CharDevice | FileType::BlockDevice => self.rdev,
            _ => 0,
        };
        if rdev > u32::MAX as u64 {
            return Err(AttrError::RdevTooLarge(self.rdev));
        }
        if self.blksize > u32::MAX as u64 {
            return Err(AttrError::BlksizeTooLarge(self.blksize));
        }
        Ok(kind)
    }

    /// The times can be held.
    pub open spec fn wf(self) -> bool {
        &&& time_fits(self.atime, self.atime_nsec as u32)
        &&& time_fits(self.mtime, self.mtime_nsec as u32)
        &&& time_fits(self.ctime, self.ctime_nsec as u32)
    }

    /// Whether the times can be held.
    pub fn is_wf(&self) -> (r: bool)
        ensures
            r == self.wf(),
    {
        let atime: u32 = #[verifier::truncate] (self.atime_nsec as u32);
        let mtime: u32 = #[verifier::truncate] (self.mtime_nsec as u32);
        let ctime: u32 = #[verifier::truncate] (self.ctime_nsec as u32);
        time_can_be_held(self.atime, atime) && time_can_be_held(self.mtime, mtime)
            && time_can_be_held(self.ctime, ctime)
    }
}

/// What converting metadata gives.
pub open spec fn converts(m: Metadata, r: Result<FileAttr, AttrError>) -> bool {
    match m.spec_check() {
        Err(e) => r == Err::<FileAttr, AttrError>(e),
        Ok(kind) => {
            &&& r matches Ok(a)
            &&& a.ino == INodeNo(m.ino)
            &&& a.size == m.size
            &&& a.blocks == m.blocks
            &&& a.atime.wf()
            &&& a.atime.since_epoch() == signed_nanos(
                m.atime as int,
                (m.atime_nsec as u32) as int,
            )
            &&& a.mtime.wf()
            &&& a.mtime.since_epoch() == signed_nanos(
                m.mtime as int,
                (m.mtime_nsec as u32) as int,
            )
            &&& a.ctime.wf()
            &&& a.ctime.since_epoch() == signed_nanos(
                m.ctime as int,
                (m.ctime_nsec as u32) as int,
            )
            &&& a.crtime == (match m.created {
                Some(t) => t,
                None => SystemTime { secs: 0, nanos: 0 },
            })
            &&& a.kind == kind
            &&& a.perm == m.mode & 0o7777
            &&& a.nlink == m.nlink
            &&& a.uid == m.uid
            &&& a.gid == m.gid
            &&& a.rdev == m.device(kind)
            &&& a.blksize == m.blksize
            &&& a.flags == 0
        },
    }
}

impl FileAttr {
    /// Convert the metadata of a local file.
    ///
    /// This suits a filesystem backed by files on disk, which can answer `getattr` and `lookup`
    /// largely by passing the underlying file's metadata through. Note that `ino` is the
    /// inode number of that underlying file, which a filesystem assigning its own inode
    /// numbers will want to overwrite.
    pub fn try_from(metadata: &Metadata) -> (r: Result<FileAttr, AttrError>)
        requires
            metadata.spec_check() is Ok ==> metadata.wf(),
        ensures
            converts(*metadata, r),
    {
        let kind = match metadata.check() {
            Ok(kind) => kind,
            Err(e) => return Err(e),
        };
        let rdev: u64 = match kind {
            FileType::CharDevice | FileType::BlockDevice => metadata.rdev,
            _ => 0,
        };
        let mode: u32 = metadata.mode;
        assert(mode & 0o7777 <= 0o7777) by (bit_vector);
        Ok(
            FileAttr {
                ino: INodeNo(metadata.ino),
                size: metadata.size,
                blocks: metadata.blocks,
                atime: system_time_from_time(
                    metadata.atime,
                    #[verifier::truncate] (metadata.atime_nsec as u32),
                ),
                mtime: system_time_from_time(
                    metadata.mtime,
                    #[verifier::truncate] (metadata.mtime_nsec as u32),
                ),
                ctime: system_time_from_time(
                    metadata.ctime,
                    #[verifier::truncate] (metadata.ctime_nsec as u32),
                ),
                crtime: match metadata.created {
                    Some(t) => t,
                    None => unix_epoch(),
                },
                kind,
                perm: (mode & 0o7777) as u16,
                nlink: metadata.nlink as u32,
                uid: metadata.uid,
                gid: metadata.gid,
                rdev: rdev as u32,
                blksize: metadata.blksize as u32,
                flags: 0,
            },
        )
    }
}

/// The attributes of a local file are its own: each number, time and owner is that of the metadata,
/// a device number only where the file is a device, and the permissions are the last twelve bits of
/// the mode. A kind without a name is refused, and so is a number that does not fit.
pub proof fn lemma_metadata_is_kept(m: Metadata, r: Result<FileAttr, AttrError>)
    requires
        call_ensures(FileAttr::try_from, (&m,), r),
    ensures
        r matches Ok(a) ==> {
            &&& m.ino == a.ino.0
            &&& m.size == a.size
            &&& m.blocks == a.blocks
            &&& m.atime >= 0 ==> a.atime.secs * 1_000_000_000 + a.atime.nanos == m.atime
                * 1_000_000_000 + m.atime_nsec as u32
            &&& m.mtime >= 0 ==> a.mtime.secs * 1_000_000_000 + a.mtime.nanos == m.mtime
                * 1_000_000_000 + m.mtime_nsec as u32
            &&& m.ctime >= 0 ==> a.ctime.secs * 1_000_000_000 + a.ctime.nanos == m.ctime
                * 1_000_000_000 + m.ctime_nsec as u32
            &&& m.atime < 0 ==> a.atime.secs * 1_000_000_000 + a.atime.nanos == m.atime
                * 1_000_000_000 - m.atime_nsec as u32
            &&& m.mtime < 0 ==> a.mtime.secs * 1_000_000_000 + a.mtime.nanos == m.mtime
                * 1_000_000_000 - m.mtime_nsec as u32
            &&& m.ctime < 0 ==> a.ctime.secs * 1_000_000_000 + a.ctime.nanos == m.ctime
                * 1_000_000_000 - m.ctime_nsec as u32
            &&& a.atime.nanos < 1_000_000_000 && a.mtime.nanos < 1_000_000_000 && a.ctime.nanos
                < 1_000_000_000
            &&& m.created matches Some(t) ==> a.crtime == t
            &&& m.created is None ==> a.crtime.secs == 0 && a.crtime.nanos == 0
            &&& a.perm == m.mode % 4096
            &&& m.nlink == a.nlink
            &&& m.uid == a.uid
            &&& m.gid == a.gid
            &&& a.rdev == (if a.kind is CharDevice || a.kind is BlockDevice {
                m.rdev as int
            } else {
                0
            })
            &&& m.blksize == a.blksize
            &&& 0 == a.flags
            &&& a.kind is RegularFile ==> m.file_type.is_file
            &&& a.kind is Directory ==> m.file_type.is_dir
            &&& a.kind is Symlink ==> m.file_type.is_symlink
            &&& a.kind is NamedPipe ==> m.file_type.is_fifo
            &&& a.kind is Socket ==> m.file_type.is_socket
            &&& a.kind is CharDevice ==> m.file_type.is_char_device
            &&& a.kind is BlockDevice ==> m.file_type.is_block_device
        },
        r matches Err(AttrError::UnsupportedType(t)) ==> t == m.file_type,
        r matches Err(AttrError::UnsupportedType(_)) <==> !m.file_type.is_file
            && !m.file_type.is_dir && !m.file_type.is_symlink && !m.file_type.is_fifo
            && !m.file_type.is_socket && !m.file_type.is_char_device
            && !m.file_type.is_block_device,
        r matches Err(AttrError::NlinkTooLarge(n)) ==> n == m.nlink && n > u32::MAX,
        r matches Err(AttrError::RdevTooLarge(n)) ==> n == m.rdev && n > u32::MAX && (
        m.file_type.is_char_device || m.file_type.is_block_device),
        r matches Err(AttrError::BlksizeTooLarge(n)) ==> n == m.blksize && n > u32::MAX,
        r is Ok ==> m.nlink <= u32::MAX && m.blksize <= u32::MAX,
{
    let mode = m.mode;
    assert(mode & 0o7777 == mode % 4096) by (bit_vector);
}

/// Each answer of the system alone gives the kind of that name.
pub proof fn lemma_kind_of_one_answer(t: StdFileType, r: Option<FileType>)
    requires
        call_ensures(FileType::from_std, (t,), r),
    ensures
        r matches Some(kind) ==> match kind {
            FileType::RegularFile => t.is_file,
            FileType::Directory => t.is_dir,
            FileType::Symlink => t.is_symlink,
            FileType::NamedPipe => t.is_fifo,
            FileType::Socket => t.is_socket,
            FileType::CharDevice => t.is_char_device,
            FileType::BlockDevice => t.is_block_device,
        },
        r is None <==> !(t.is_file || t.is_dir || t.is_symlink || t.is_fifo || t.is_socket
            || t.is_char_device || t.is_block_device),
{
}

/// Where the system gives several answers, the first counts: file, directory, symbolic link, pipe,
/// socket, character device and then block device.
pub proof fn lemma_first_answer_counts(t: StdFileType, r: Option<FileType>)
    requires
        call_ensures(FileType::from_std, (t,), r),
    ensures
        t.is_file ==> r == Some(FileType::RegularFile),
        r == Some(FileType::Directory) <==> t.is_dir && !t.is_file,
        r == Some(FileType::Symlink) <==> t.is_symlink && !t.is_file && !t.is_dir,
        r == Some(FileType::NamedPipe) <==> t.is_fifo && !t.is_file && !t.is_dir && !t.is_symlink,
        r == Some(FileType::Socket) ==> !t.is_fifo,
        r == Some(FileType::CharDevice) ==> !t.is_socket,
        r == Some(FileType::BlockDevice) ==> !t.is_char_device,
{
}

/// What is checked of metadata: the first of kind, links, device and block size that the protocol
/// cannot hold is told. The device counts for devices alone.
pub proof fn lemma_metadata_is_checked(m: Metadata, r: Result<FileType, AttrError>)
    requires
        call_ensures(Metadata::check, (&m,), r),
    ensures
        ({
            let device = m.file_type.is_char_device || m.file_type.is_block_device;
            let other = m.file_type.is_file || m.file_type.is_dir || m.file_type.is_symlink
                || m.file_type.is_fifo || m.file_type.is_socket;
            let wide_device = device && !other && m.rdev > 0xffff_ffff;
            &&& r matches Err(AttrError::UnsupportedType(t)) ==> t == m.file_type
            &&& r matches Err(AttrError::NlinkTooLarge(n)) ==> n == m.nlink
            &&& r matches Err(AttrError::RdevTooLarge(n)) ==> n == m.rdev
            &&& r matches Err(AttrError::BlksizeTooLarge(n)) ==> n == m.blksize
            &&& (r is Err && r->Err_0 is UnsupportedType) <==> !device && !other
            &&& (r is Err && r->Err_0 is NlinkTooLarge) <==> (device || other) && m.nlink
                > 0xffff_ffff
            &&& (r is Err && r->Err_0 is RdevTooLarge) <==> wide_device && m.nlink <= 0xffff_ffff
            &&& (r is Err && r->Err_0 is BlksizeTooLarge) <==> (device || other) && m.nlink
                <= 0xffff_ffff && !wide_device && m.blksize > 0xffff_ffff
        }),
{
}

/// What is said of metadata that the protocol cannot hold.
pub proof fn lemma_attribute_is_named(e: AttrError, file_type: &str, r: String)
    requires
        call_ensures(AttrError::text, (&e, file_type), r),
    ensures
        e is UnsupportedType ==> "unsupported file type "@ + file_type@ == r@,
        e matches AttrError::NlinkTooLarge(n) ==> "nlink is "@ + decimal(n as int)
            + ", which does not fit the FUSE protocol's u32"@ == r@,
        e matches AttrError::RdevTooLarge(n) ==> "rdev is "@ + decimal(n as int)
            + ", which does not fit the FUSE protocol's u32"@ == r@,
        e matches AttrError::BlksizeTooLarge(n) ==> "blksize is "@ + decimal(n as int)
            + ", which does not fit the FUSE protocol's u32"@ == r@,
{
}

} // verus!
