//! Low-level replies, and the bytes in which they are sent to the kernel driver.

use vstd::prelude::*;

use crate::file_attr::{FileAttr, FileType};
use crate::ids::{Errno, FileHandle, Generation, INodeNo, Lock, RequestId};
use crate::ll::flags::fopen_flags::FopenFlags;
use crate::ll::fuse_abi::{
    fuse_attr, fuse_attr_out, fuse_bmap_out, fuse_create_out, fuse_dirent, fuse_direntplus,
    fuse_entry_out, fuse_file_lock, fuse_getxattr_out, fuse_ioctl_out, fuse_kstatfs, fuse_lk_out,
    fuse_lseek_out, fuse_open_out, fuse_out_header, fuse_poll_out, fuse_statfs_out, fuse_write_out,
};
use crate::ll::ioslice_concat::lemma_joined_grows;
use crate::ll::response_buf::{joined, slices_of, IoVec, ResponseBuf};
use crate::ll::wire::{group_lengths, u32_at, u32_bytes, IntoBytes};
use crate::poll_events::PollEvents;
use crate::time::{signed_parts, time_from_system_time, Duration, NANOS_PER_SEC};

verus! {

broadcast use group_lengths;

/// Up to how many bytes data is copied into a reply.
pub const INLINE_DATA_THRESHOLD: usize = 32;

pub const S_IFIFO: u32 = 0o010000;

pub const S_IFCHR: u32 = 0o020000;

pub const S_IFDIR: u32 = 0o040000;

pub const S_IFBLK: u32 = 0o060000;

pub const S_IFREG: u32 = 0o100000;

pub const S_IFLNK: u32 = 0o120000;

pub const S_IFSOCK: u32 = 0o140000;

/// What a request is answered with.
#[derive(Debug)]
pub enum Response<'a> {
    /// An error, or success without data.
    Error(Option<Errno>),
    /// Data of the reply's own.
    Data(ResponseBuf),
    /// Data that stands elsewhere.
    Slice(&'a [u8]),
}

impl<'a> Response<'a> {
    /// The data that is sent behind the header. An error has none: its number stands in the header.
    pub open spec fn payload(self) -> Seq<u8> {
        match self {
            Response::Error(_) => Seq::empty(),
            Response::Data(d) => d@,
            Response::Slice(d) => d@,
        }
    }

    /// The header that is sent for the request `unique`.
    pub open spec fn spec_header(self, unique: RequestId) -> fuse_out_header {
        fuse_out_header {
            len: (16 + self.payload().len()) as u32,
            error: match self {
                Response::Error(Some(errno)) => (-errno.0) as i32,
                _ => 0,
            },
            unique: unique.0,
        }
    }

    /// The slices that are sent for the request `unique`: the header and, unless the reply is an
    /// error or empty, the data.
    pub open spec fn spec_iovec(self, unique: RequestId) -> Seq<Seq<u8>> {
        match self {
            Response::Error(_) => seq![self.spec_header(unique).spec_bytes()],
            _ => seq![self.spec_header(unique).spec_bytes(), self.payload()],
        }
    }

    /// The reply can be sent: its length fits the header, and so does the negated error number.
    pub open spec fn wf(self) -> bool {
        &&& 16 + self.payload().len() <= u32::MAX
        &&& self matches Response::Error(Some(errno)) ==> errno.wf()
    }

    /// Whether the reply can be sent.
    pub fn fits(&self) -> (r: bool)
        ensures
            r == self.wf(),
    {
        match self {
            Response::Error(Some(errno)) => errno.0 != 0 && errno.0 != i32::MIN,
            Response::Error(None) => true,
            Response::Data(d) => d.as_slice().len() <= 0xffff_ffef,
            Response::Slice(d) => d.len() <= 0xffff_ffef,
        }
    }

    /// Hands the slices that are sent for the request `unique` to `f`.
    pub fn with_iovec<F: FnOnce(&[&[u8]]) -> T, T>(&self, unique: RequestId, f: F) -> (r: T)
        requires
            self.wf(),
            forall|iov: &[&[u8]]|
                slices_of(iov@) == self.spec_iovec(unique) ==> #[trigger] call_requires(f, (iov,)),
        ensures
            exists|iov: &[&[u8]]|
                slices_of(iov@) == self.spec_iovec(unique) && #[trigger] call_ensures(
                    f,
                    (iov,),
                    r,
                ),
    {
        let datalen: usize = match self {
            Response::Error(_) => 0,
            Response::Data(v) => v.as_slice().len(),
            Response::Slice(d) => d.len(),
        };
        let header = fuse_out_header {
            len: (16 + datalen) as u32,
            error: match self {
                Response::Error(Some(errno)) => -errno.0,
                _ => 0,
            },
            unique: unique.0,
        };
        let bytes: Vec<u8> = header.as_bytes();
        let mut v = IoVec::new();
        v.push(bytes.as_slice());
        match self {
            Response::Error(_) => {},
            Response::Data(d) => v.push(d.as_slice()),
            Response::Slice(d) => v.push(d),
        }
        assert(v@ =~= self.spec_iovec(unique));
        f(v.as_slice())
    }

    /// Success without data.
    pub fn new_empty() -> (r: Response<'a>)
        ensures
            r == Response::Error(None),
    {
        Response::Error(None)
    }

    /// An error.
    pub fn new_error(error: Errno) -> (r: Response<'a>)
        ensures
            r == Response::Error(Some(error)),
    {
        Response::Error(Some(error))
    }

    /// Data, which is copied where it is short and kept where it is long.
    pub fn new_data(data: Vec<u8>) -> (r: Response<'a>)
        ensures
            r is Data,
            r.payload() == data@,
    {
        Response::Data(
            if data.len() <= INLINE_DATA_THRESHOLD {
                ResponseBuf::from_slice(data.as_slice())
            } else {
                ResponseBuf::from_vec(data)
            },
        )
    }

    /// Data that stands elsewhere.
    pub fn new_slice(data: &'a [u8]) -> (r: Response<'a>)
        ensures
            r == Response::Slice(data),
    {
        Response::Slice(data)
    }

    /// An inode that was looked up or made.
    pub fn new_entry(
        ino: INodeNo,
        generation: Generation,
        attr: &Attr,
        attr_ttl: Duration,
        entry_ttl: Duration,
    ) -> (r: Response<'a>)
        ensures
            r is Data,
            r.payload() == (fuse_entry_out {
                nodeid: ino.0,
                generation: generation.0,
                entry_valid: entry_ttl.secs,
                attr_valid: attr_ttl.secs,
                entry_valid_nsec: entry_ttl.nanos,
                attr_valid_nsec: attr_ttl.nanos,
                attr: attr.attr,
            }).spec_bytes(),
    {
        let d = fuse_entry_out {
            nodeid: ino.0,
            generation: generation.0,
            entry_valid: entry_ttl.as_secs(),
            attr_valid: attr_ttl.as_secs(),
            entry_valid_nsec: entry_ttl.subsec_nanos(),
            attr_valid_nsec: attr_ttl.subsec_nanos(),
            attr: attr.attr,
        };
        Self::from_struct(&d)
    }

    /// Attributes.
    pub fn new_attr(ttl: &Duration, attr: &Attr) -> (r: Response<'a>)
        ensures
            r is Data,
            r.payload() == (fuse_attr_out {
                attr_valid: ttl.secs,
                attr_valid_nsec: ttl.nanos,
                dummy: 0,
                attr: attr.attr,
            }).spec_bytes(),
    {
        let d = fuse_attr_out {
            attr_valid: ttl.as_secs(),
            attr_valid_nsec: ttl.subsec_nanos(),
            dummy: 0,
            attr: attr.attr,
        };
        Self::from_struct(&d)
    }

    /// A file that was opened.
    pub fn new_open(fh: FileHandle, flags: FopenFlags, backing_id: u32) -> (r: Response<'a>)
        ensures
            r is Data,
            r.payload() == (fuse_open_out {
                fh: fh.0,
                open_flags: flags.bits,
                backing_id,
            }).spec_bytes(),
    {
        let d = fuse_open_out { fh: fh.0, open_flags: flags.bits(), backing_id };
        Self::from_struct(&d)
    }

    /// A lock that was found.
    pub fn new_lock(lock: &Lock) -> (r: Response<'a>)
        ensures
            r is Data,
            r.payload() == (fuse_lk_out {
                lk: fuse_file_lock {
                    start: lock.range.0,
                    end: lock.range.1,
                    typ: lock.typ,
                    pid: lock.pid,
                },
            }).spec_bytes(),
    {
        let d = fuse_lk_out {
            lk: fuse_file_lock {
                start: lock.range.0,
                end: lock.range.1,
                typ: lock.typ,
                pid: lock.pid,
            },
        };
        Self::from_struct(&d)
    }

    /// A block that was found.
    pub fn new_bmap(block: u64) -> (r: Response<'a>)
        ensures
            r is Data,
            r.payload() == (fuse_bmap_out { block }).spec_bytes(),
    {
        Self::from_struct(&fuse_bmap_out { block })
    }

    /// How much was written.
    pub fn new_write(written: u32) -> (r: Response<'a>)
        ensures
            r is Data,
            r.payload() == (fuse_write_out { size: written, padding: 0 }).spec_bytes(),
    {
        Self::from_struct(&fuse_write_out { size: written, padding: 0 })
    }

    /// The figures of the filesystem.
    pub fn new_statfs(
        blocks: u64,
        bfree: u64,
        bavail: u64,
        files: u64,
        ffree: u64,
        bsize: u32,
        namelen: u32,
        frsize: u32,
    ) -> (r: Response<'a>)
        ensures
            r is Data,
            r.payload() == (fuse_statfs_out {
                st: fuse_kstatfs {
                    blocks,
                    bfree,
                    bavail,
                    files,
                    ffree,
                    bsize,
                    namelen,
                    frsize,
                    padding: 0,
                    spare: [0, 0, 0, 0, 0, 0],
                },
            }).spec_bytes(),
    {
        let d = fuse_statfs_out {
            st: fuse_kstatfs {
                blocks,
                bfree,
                bavail,
                files,
                ffree,
                bsize,
                namelen,
                frsize,
                padding: 0,
                spare: [0, 0, 0, 0, 0, 0],
            },
        };
        Self::from_struct(&d)
    }

    /// A file that was made and opened.
    pub fn new_create(
        ttl: &Duration,
        attr: &Attr,
        generation: Generation,
        fh: FileHandle,
        flags: FopenFlags,
        backing_id: u32,
    ) -> (r: Response<'a>)
        ensures
            r is Data,
            r.payload() == (fuse_create_out {
                entry: fuse_entry_out {
                    nodeid: attr.attr.ino,
                    generation: generation.0,
                    entry_valid: ttl.secs,
                    attr_valid: ttl.secs,
                    entry_valid_nsec: ttl.nanos,
                    attr_valid_nsec: ttl.nanos,
                    attr: attr.attr,
                },
                open: fuse_open_out { fh: fh.0, open_flags: flags.bits, backing_id },
            }).spec_bytes(),
    {
        let d = fuse_create_out {
            entry: fuse_entry_out {
                nodeid: attr.attr.ino,
                generation: generation.0,
                entry_valid: ttl.as_secs(),
                attr_valid: ttl.as_secs(),
                entry_valid_nsec: ttl.subsec_nanos(),
                attr_valid_nsec: ttl.subsec_nanos(),
                attr: attr.attr,
            },
            open: fuse_open_out { fh: fh.0, open_flags: flags.bits(), backing_id },
        };
        Self::from_struct(&d)
    }

    /// The outcome of a control operation, with the data that it gives.
    pub fn new_ioctl(result: i32, data: &[&[u8]]) -> (r: Response<'a>)
        requires
            16 + joined(slices_of(data@)).len() <= usize::MAX / 4,
        ensures
            r is Data,
            r.payload() == (fuse_ioctl_out {
                result,
                flags: 0,
                in_iovs: 1,
                out_iovs: if data@.len() > 0 {
                    1
                } else {
                    0
                },
            }).spec_bytes() + joined(slices_of(data@)),
    {
        let d = fuse_ioctl_out {
            result,
            // these fields are only needed for unrestricted ioctls
            flags: 0,
            in_iovs: 1,
            out_iovs: if data.len() > 0 {
                1
            } else {
                0
            },
        };
        let ghost all = slices_of(data@);
        let mut v = ResponseBuf::from_slice(d.as_bytes().as_slice());
        let mut i: usize = 0;
        assert(all.take(0) =~= Seq::<Seq<u8>>::empty());
        assert(v@ =~= d.spec_bytes() + joined(all.take(0)));
        while i < data.len()
            invariant
                i <= data@.len(),
                all == slices_of(data@),
                d.spec_bytes().len() == 16,
                16 + joined(all).len() <= usize::MAX / 4,
                v@ == d.spec_bytes() + joined(all.take(i as int)),
            decreases data.len() - i,
        {
            proof {
                lemma_joined_grows(all, i as int);
            }
            v.extend_from_slice(data[i]);
            i += 1;
            assert(v@ =~= d.spec_bytes() + joined(all.take(i as int)));
        }
        assert(all.take(i as int) =~= all);
        Response::Data(v)
    }

    /// The events that are pending.
    pub fn new_poll(revents: PollEvents) -> (r: Response<'a>)
        ensures
            r is Data,
            r.payload() == (fuse_poll_out { revents: revents.bits, padding: 0 }).spec_bytes(),
    {
        Self::from_struct(&fuse_poll_out { revents: revents.bits(), padding: 0 })
    }

    /// A list of directory entries.
    pub fn new_directory(list: EntListBuf) -> (r: Response<'a>)
        requires
            list.wf(),
        ensures
            r == Response::Data(list.buf),
    {
        Response::Data(list.buf)
    }

    /// The size of an extended attribute.
    pub fn new_xattr_size(size: u32) -> (r: Response<'a>)
        ensures
            r is Data,
            r.payload() == (fuse_getxattr_out { size, padding: 0 }).spec_bytes(),
    {
        Self::from_struct(&fuse_getxattr_out { size, padding: 0 })
    }

    /// An offset that was found.
    pub fn new_lseek(offset: i64) -> (r: Response<'a>)
        ensures
            r is Data,
            r.payload() == (fuse_lseek_out { offset }).spec_bytes(),
    {
        Self::from_struct(&fuse_lseek_out { offset })
    }

    /// A structure of the protocol.
    pub fn from_struct<T: IntoBytes>(data: &T) -> (r: Response<'a>)
        ensures
            r is Data,
            r.payload() == data.spec_bytes(),
    {
        Response::Data(ResponseBuf::from_slice(data.as_bytes().as_slice()))
    }
}

/// A reply that is sent says in its first four bytes how long it is in all.
pub proof fn lemma_response_length(response: Response, unique: RequestId)
    requires
        response.wf(),
    ensures
        u32_at(joined(response.spec_iovec(unique)), 0) == joined(
            response.spec_iovec(unique),
        ).len(),
{
    let iov = response.spec_iovec(unique);
    let header = response.spec_header(unique).spec_bytes();
    assert(header.len() == 16);
    reveal(u32_bytes);
    reveal_with_fuel(joined, 3);
    if response is Error {
        assert(iov.drop_last() =~= Seq::<Seq<u8>>::empty());
        assert(joined(iov) =~= header);
    } else {
        assert(iov.drop_last() =~= seq![header]);
        assert(seq![header].drop_last() =~= Seq::<Seq<u8>>::empty());
        assert(joined(iov) =~= header + response.payload());
    }
}

/// The file type bits of a mode.
pub open spec fn kind_bits(kind: FileType) -> u32 {
    match kind {
        FileType::NamedPipe => S_IFIFO,
        FileType::CharDevice => S_IFCHR,
        FileType::BlockDevice => S_IFBLK,
        FileType::Directory => S_IFDIR,
        FileType::RegularFile => S_IFREG,
        FileType::Symlink => S_IFLNK,
        FileType::Socket => S_IFSOCK,
    }
}

/// Returns the mode for a given file kind and permission
pub fn mode_from_kind_and_perm(kind: FileType, perm: u16) -> (r: u32)
    ensures
        r == kind_bits(kind) | perm as u32,
{
    (match kind {
        FileType::NamedPipe => S_IFIFO,
        FileType::CharDevice => S_IFCHR,
        FileType::BlockDevice => S_IFBLK,
        FileType::Directory => S_IFDIR,
        FileType::RegularFile => S_IFREG,
        FileType::Symlink => S_IFLNK,
        FileType::Socket => S_IFSOCK,
    }) | perm as u32
}

/// Whether the times of `attr` can be written.
pub open spec fn times_fit(attr: FileAttr) -> bool {
    attr.atime.writable() && attr.mtime.writable() && attr.ctime.writable()
}

/// Whether the times of `attr` can be written.
pub fn has_writable_times(attr: &FileAttr) -> (r: bool)
    ensures
        r == times_fit(*attr),
{
    attr.atime.is_writable() && attr.mtime.is_writable() && attr.ctime.is_writable()
}

/// Whether `f` says of an inode what `attr` says.
pub open spec fn attr_matches(attr: FileAttr, f: fuse_attr) -> bool {
    &&& f.ino == attr.ino.0
    &&& f.size == attr.size
    &&& f.blocks == attr.blocks
    &&& (f.atime as int, f.atimensec as int) == signed_parts(attr.atime.since_epoch())
    &&& (f.mtime as int, f.mtimensec as int) == signed_parts(attr.mtime.since_epoch())
    &&& (f.ctime as int, f.ctimensec as int) == signed_parts(attr.ctime.since_epoch())
    &&& f.mode == kind_bits(attr.kind) | attr.perm as u32
    &&& f.nlink == attr.nlink
    &&& f.uid == attr.uid
    &&& f.gid == attr.gid
    &&& f.rdev == attr.rdev
    &&& f.blksize == attr.blksize
    &&& f.padding == 0
}

/// Returns a `fuse_attr` from `FileAttr`
pub fn fuse_attr_from_attr(attr: &FileAttr) -> (r: fuse_attr)
    requires
        times_fit(*attr),
    ensures
        attr_matches(*attr, r),
{
    let (atime_secs, atime_nanos): (i64, u32) = time_from_system_time(&attr.atime);
    let (mtime_secs, mtime_nanos): (i64, u32) = time_from_system_time(&attr.mtime);
    let (ctime_secs, ctime_nanos): (i64, u32) = time_from_system_time(&attr.ctime);
    fuse_attr {
        ino: attr.ino.0,
        size: attr.size,
        blocks: attr.blocks,
        atime: atime_secs,
        mtime: mtime_secs,
        ctime: ctime_secs,
        atimensec: atime_nanos,
        mtimensec: mtime_nanos,
        ctimensec: ctime_nanos,
        mode: mode_from_kind_and_perm(attr.kind, attr.perm),
        nlink: attr.nlink,
        uid: attr.uid,
        gid: attr.gid,
        rdev: attr.rdev,
        blksize: attr.blksize,
        padding: 0,
    }
}

/// Attributes as they are sent.
#[derive(Clone, Copy, Debug)]
pub struct Attr {
    pub attr: fuse_attr,
}

impl Attr {
    /// What is sent of `attr`.
    pub fn from(attr: &FileAttr) -> (r: Attr)
        requires
            times_fit(*attr),
        ensures
            attr_matches(*attr, r.attr),
    {
        Attr { attr: fuse_attr_from_attr(attr) }
    }
}

/// The least multiple of eight that is not less than `n`.
pub open spec fn aligned(n: int) -> int {
    (n + 7) / 8 * 8
}

/// An entry with as many zero bytes behind it as it needs to end at a multiple of eight.
pub open spec fn aligned_entry(entry: Seq<u8>) -> Seq<u8> {
    entry + Seq::new((aligned(entry.len() as int) - entry.len()) as nat, |i: int| 0u8)
}

/// A buffer for entries, each of which ends at a multiple of eight.
#[derive(Debug)]
pub struct EntListBuf {
    /// How much the buffer may hold.
    pub max_size: usize,
    /// The entries so far.
    pub buf: ResponseBuf,
}

impl EntListBuf {
    /// The buffer holds no more than it may, and the next entry begins at a multiple of eight.
    pub open spec fn wf(self) -> bool {
        self.buf@.len() <= self.max_size && self.buf@.len() % 8 == 0
    }

    /// Whether `entry` no longer fits.
    pub open spec fn full_for(self, entry: Seq<u8>) -> bool {
        self.buf@.len() + aligned(entry.len() as int) > self.max_size
    }

    /// Whether the sizes that pushing `entry` comes to can be counted and, where it fits, the
    /// buffer can grow so far.
    pub open spec fn pushable(self, entry: Seq<u8>) -> bool {
        &&& self.buf@.len() + aligned(entry.len() as int) <= usize::MAX
        &&& !self.full_for(entry) ==> self.buf@.len() + aligned(entry.len() as int) <= usize::MAX
            / 4
    }

    /// What pushing `entry` onto `before` does.
    pub open spec fn pushed(before: EntListBuf, entry: Seq<u8>, after: EntListBuf) -> bool {
        if before.full_for(entry) {
            after == before
        } else {
            after.max_size == before.max_size && after.buf@ == before.buf@ + aligned_entry(entry)
        }
    }

    /// An empty buffer.
    pub fn new(max_size: usize) -> (r: EntListBuf)
        ensures
            r.wf(),
            r.max_size == max_size,
            r.buf@ == Seq::<u8>::empty(),
    {
        EntListBuf { max_size, buf: ResponseBuf::new() }
    }

    /// Add an entry to the directory reply buffer. Returns true if the buffer is full, and then
    /// leaves it as it was.
    pub fn push(&mut self, ent: [&[u8]; 2]) -> (full: bool)
        requires
            old(self).wf(),
            old(self).pushable(ent[0]@ + ent[1]@),
        ensures
            final(self).wf(),
            full == old(self).full_for(ent[0]@ + ent[1]@),
            EntListBuf::pushed(*old(self), ent[0]@ + ent[1]@, *final(self)),
    {
        let entlen: usize = ent[0].len() + ent[1].len();
        let entsize: usize = (entlen + 7) / 8 * 8;  // 64 bit align
        let len: usize = self.buf.as_slice().len();
        if len + entsize > self.max_size {
            return true;
        }
        let ghost before = self.buf@;
        self.buf.extend_from_slice(ent[0]);
        self.buf.extend_from_slice(ent[1]);
        let padlen: usize = entsize - entlen;
        self.buf.resize(len + entlen + padlen, 0);
        assert(self.buf@ =~= before + aligned_entry(ent[0]@ + ent[1]@));
        false
    }
}

/// What a buffer for `max_size` bytes holds when `entries` were pushed in order: those for which
/// there was room when their turn came, each padded.
pub open spec fn taken(max_size: usize, entries: Seq<Seq<u8>>) -> Seq<u8>
    decreases entries.len(),
{
    if entries.len() == 0 {
        Seq::empty()
    } else {
        let before = taken(max_size, entries.drop_last());
        if before.len() + aligned(entries.last().len() as int) > max_size {
            before
        } else {
            before + aligned_entry(entries.last())
        }
    }
}

/// After any pushes a buffer that was empty holds the entries that were taken, in order, ends at a
/// multiple of eight, and holds no more than it may. `states` are the buffer before each push and
/// after the last.
pub proof fn lemma_pushes_accumulate(states: Seq<EntListBuf>, entries: Seq<Seq<u8>>)
    requires
        states.len() == entries.len() + 1,
        states[0].buf@ == Seq::<u8>::empty(),
        forall|i: int|
            0 <= i < entries.len() ==> EntListBuf::pushed(
                states[i],
                #[trigger] entries[i],
                states[i + 1],
            ),
    ensures
        states.last().max_size == states[0].max_size,
        states.last().buf@ == taken(states[0].max_size, entries),
        states.last().wf(),
    decreases entries.len(),
{
    if entries.len() > 0 {
        let n = entries.len() - 1;
        let front = states.drop_last();
        assert forall|i: int| 0 <= i < entries.drop_last().len() implies EntListBuf::pushed(
            front[i],
            #[trigger] entries.drop_last()[i],
            front[i + 1],
        ) by {
            assert(entries[i] == entries.drop_last()[i]);
        }
        lemma_pushes_accumulate(front, entries.drop_last());
        assert(EntListBuf::pushed(states[n], entries[n], states[n + 1]));
    }
}

/// A position in a directory, which the kernel hands back to go on from there.
#[derive(Clone, Copy, Debug, PartialEq, Eq, PartialOrd, Ord, Structural)]
pub struct DirEntOffset(pub u64);

/// A directory entry.
#[derive(Clone, Copy, Debug)]
pub struct DirEntry<'a> {
    pub ino: INodeNo,
    pub offset: DirEntOffset,
    pub kind: FileType,
    pub name: &'a [u8],
}

/// The number by which a directory entry names a file kind.
pub open spec fn dirent_type(kind: FileType) -> u32 {
    match kind {
        FileType::NamedPipe => 1,
        FileType::CharDevice => 2,
        FileType::Directory => 4,
        FileType::BlockDevice => 6,
        FileType::RegularFile => 8,
        FileType::Symlink => 10,
        FileType::Socket => 12,
    }
}

/// The number is the file type bits without the bits below them.
proof fn lemma_dirent_type(kind: FileType)
    ensures
        (kind_bits(kind) | 0u16 as u32) >> 12 == dirent_type(kind),
{
    assert({
        &&& (0o010000u32 | 0u16 as u32) >> 12 == 1
        &&& (0o020000u32 | 0u16 as u32) >> 12 == 2
        &&& (0o040000u32 | 0u16 as u32) >> 12 == 4
        &&& (0o060000u32 | 0u16 as u32) >> 12 == 6
        &&& (0o100000u32 | 0u16 as u32) >> 12 == 8
        &&& (0o120000u32 | 0u16 as u32) >> 12 == 10
        &&& (0o140000u32 | 0u16 as u32) >> 12 == 12
    }) by (bit_vector);
}

impl<'a> DirEntry<'a> {
    /// A directory entry.
    pub fn new(ino: INodeNo, offset: DirEntOffset, kind: FileType, name: &'a [u8]) -> (r: DirEntry<
        'a,
    >)
        ensures
            r == (DirEntry { ino, offset, kind, name }),
    {
        DirEntry { ino, offset, kind, name }
    }

    /// The bytes of the entry: what is said of it, and its name.
    pub open spec fn spec_bytes(self) -> Seq<u8> {
        (fuse_dirent {
            ino: self.ino.0,
            off: self.offset.0,
            namelen: self.name@.len() as u32,
            typ: dirent_type(self.kind),
        }).spec_bytes() + self.name@
    }
}

/// Data buffer used to respond to `Readdir` requests.
#[derive(Debug)]
pub struct DirEntList(pub EntListBuf);

impl DirEntList {
    /// A list without entries.
    pub fn new(max_size: usize) -> (r: DirEntList)
        ensures
            r.0.wf(),
            r.0.max_size == max_size,
            r.0.buf@ == Seq::<u8>::empty(),
    {
        DirEntList(EntListBuf::new(max_size))
    }

    /// Add an entry to the directory reply buffer. Returns true if the buffer is full.
    /// A transparent offset value can be provided for each entry. The kernel uses these
    /// value to request the next entries in further readdir calls
    pub fn push(&mut self, ent: &DirEntry) -> (full: bool)
        requires
            old(self).0.wf(),
            ent.name@.len() <= u32::MAX,
            old(self).0.pushable(ent.spec_bytes()),
        ensures
            final(self).0.wf(),
            full == old(self).0.full_for(ent.spec_bytes()),
            EntListBuf::pushed(old(self).0, ent.spec_bytes(), final(self).0),
    {
        let header = fuse_dirent {
            ino: ent.ino.0,
            off: ent.offset.0,
            namelen: ent.name.len() as u32,
            typ: mode_from_kind_and_perm(ent.kind, 0) >> 12,
        };
        proof {
            lemma_dirent_type(ent.kind);
        }
        let bytes: Vec<u8> = header.as_bytes();
        self.0.push([bytes.as_slice(), ent.name])
    }

    /// The reply with these entries.
    pub fn into_response<'b>(self) -> (r: Response<'b>)
        requires
            self.0.wf(),
        ensures
            r == Response::Data(self.0.buf),
    {
        Response::new_directory(self.0)
    }
}

/// A directory entry with its attributes.
#[derive(Clone, Copy, Debug)]
pub struct DirEntryPlus<'a> {
    /// The inode; what is sent is the one that the attributes name.
    pub ino: INodeNo,
    pub generation: Generation,
    pub offset: DirEntOffset,
    pub name: &'a [u8],
    pub entry_valid: Duration,
    pub attr: Attr,
    pub attr_valid: Duration,
}

impl<'a> DirEntryPlus<'a> {
    /// A directory entry with its attributes.
    pub fn new(
        ino: INodeNo,
        generation: Generation,
        offset: DirEntOffset,
        name: &'a [u8],
        entry_valid: Duration,
        attr: Attr,
        attr_valid: Duration,
    ) -> (r: DirEntryPlus<'a>)
        ensures
            r == (DirEntryPlus { ino, generation, offset, name, entry_valid, attr, attr_valid }),
    {
        DirEntryPlus { ino, generation, offset, name, entry_valid, attr, attr_valid }
    }

    /// What is said of the entry.
    pub open spec fn spec_header(self) -> fuse_direntplus {
        fuse_direntplus {
            entry_out: fuse_entry_out {
                nodeid: self.attr.attr.ino,
                generation: self.generation.0,
                entry_valid: self.entry_valid.secs,
                attr_valid: self.attr_valid.secs,
                entry_valid_nsec: self.entry_valid.nanos,
                attr_valid_nsec: self.attr_valid.nanos,
                attr: self.attr.attr,
            },
            dirent: fuse_dirent {
                ino: self.attr.attr.ino,
                off: self.offset.0,
                namelen: self.name@.len() as u32,
                typ: self.attr.attr.mode >> 12,
            },
        }
    }

    /// The bytes of the entry: what is said of it, and its name.
    pub open spec fn spec_bytes(self) -> Seq<u8> {
        self.spec_header().spec_bytes() + self.name@
    }

    /// The bytes of what is said of the entry.
    fn header_bytes(&self) -> (r: Vec<u8>)
        requires
            self.name@.len() <= u32::MAX,
        ensures
            r@ == self.spec_header().spec_bytes(),
            r@.len() == 152,
    {
        let header = fuse_direntplus {
            entry_out: fuse_entry_out {
                nodeid: self.attr.attr.ino,
                generation: self.generation.0,
                entry_valid: self.entry_valid.as_secs(),
                attr_valid: self.attr_valid.as_secs(),
                entry_valid_nsec: self.entry_valid.subsec_nanos(),
                attr_valid_nsec: self.attr_valid.subsec_nanos(),
                attr: self.attr.attr,
            },
            dirent: fuse_dirent {
                ino: self.attr.attr.ino,
                off: self.offset.0,
                namelen: self.name.len() as u32,
                typ: self.attr.attr.mode >> 12,
            },
        };
        proof {
            lemma_direntplus_len(header);
        }
        header.as_bytes()
    }
}

/// Attributes take 88 bytes.
proof fn lemma_attr_len(attr: fuse_attr)
    ensures
        attr.spec_bytes().len() == 88,
{
}

/// An inode with its attributes takes 128 bytes.
pub proof fn lemma_entry_len(entry: fuse_entry_out)
    ensures
        entry.spec_bytes().len() == 128,
{
    lemma_attr_len(entry.attr);
}

/// What is said of an entry with its attributes takes 152 bytes.
proof fn lemma_direntplus_len(header: fuse_direntplus)
    ensures
        header.spec_bytes().len() == 152,
{
    lemma_entry_len(header.entry_out);
    assert(header.dirent.spec_bytes().len() == 24);
}

/// Data buffer used to respond to `ReaddirPlus` requests.
#[derive(Debug)]
pub struct DirEntPlusList(pub EntListBuf);

impl DirEntPlusList {
    /// A list without entries.
    pub fn new(max_size: usize) -> (r: DirEntPlusList)
        ensures
            r.0.wf(),
            r.0.max_size == max_size,
            r.0.buf@ == Seq::<u8>::empty(),
    {
        DirEntPlusList(EntListBuf::new(max_size))
    }

    /// Add an entry to the directory reply buffer. Returns true if the buffer is full.
    /// A transparent offset value can be provided for each entry. The kernel uses these
    /// value to request the next entries in further readdir calls
    pub fn push(&mut self, x: &DirEntryPlus) -> (full: bool)
        requires
            old(self).0.wf(),
            x.name@.len() <= u32::MAX,
            old(self).0.pushable(x.spec_bytes()),
        ensures
            final(self).0.wf(),
            full == old(self).0.full_for(x.spec_bytes()),
            EntListBuf::pushed(old(self).0, x.spec_bytes(), final(self).0),
    {
        let bytes: Vec<u8> = x.header_bytes();
        self.0.push([bytes.as_slice(), x.name])
    }

    /// The reply with these entries.
    pub fn into_response<'b>(self) -> (r: Response<'b>)
        requires
            self.0.wf(),
        ensures
            r == Response::Data(self.0.buf),
    {
        Response::new_directory(self.0)
    }
}

} // verus!
