//! The numbers that name things in the protocol.

use vstd::prelude::*;

verus! {

/// An inode.
#[derive(Clone, Copy, Debug, PartialEq, Eq, Hash, Structural)]
pub struct INodeNo(pub u64);

impl INodeNo {
    /// The number of the root of every filesystem.
    pub const ROOT: u64 = 1;
}

/// A handle of an open file, which the filesystem chooses.
#[derive(Clone, Copy, Debug, PartialEq, Eq, Hash, Structural)]
pub struct FileHandle(pub u64);

/// The generation of an inode: inode and generation together are never used twice.
#[derive(Clone, Copy, Debug, PartialEq, Eq, Hash, Structural)]
pub struct Generation(pub u64);

/// A request that waits for its reply.
#[derive(Clone, Copy, Debug, PartialEq, Eq, Hash, Structural)]
pub struct RequestId(pub u64);

/// An owner of a file lock.
#[derive(Clone, Copy, Debug, PartialEq, Eq, Hash, Structural)]
pub struct LockOwner(pub u64);

/// A version of the protocol, major before minor.
#[derive(Clone, Copy, Debug, PartialEq, Eq, Hash, Structural)]
pub struct Version(pub u32, pub u32);

impl Version {
    /// Whether `self` comes before `other`.
    pub open spec fn spec_before(self, other: Version) -> bool {
        self.0 < other.0 || (self.0 == other.0 && self.1 < other.1)
    }

    /// Whether `self` comes before `other`.
    pub fn before(self, other: Version) -> (r: bool)
        ensures
            r == self.spec_before(other),
    {
        self.0 < other.0 || (self.0 == other.0 && self.1 < other.1)
    }

    /// The lower of the two.
    pub open spec fn spec_lower(self, other: Version) -> Version {
        if self.spec_before(other) {
            self
        } else {
            other
        }
    }

    /// The lower of the two.
    pub fn lower(self, other: Version) -> (r: Version)
        ensures
            r == self.spec_lower(other),
    {
        if self.before(other) {
            self
        } else {
            other
        }
    }
}

/// A lock on a range of a file.
#[derive(Clone, Copy, Debug, PartialEq, Eq)]
pub struct Lock {
    /// The first and the last byte of the range.
    pub range: (u64, u64),
    /// The type of the lock.
    pub typ: i32,
    /// The process that holds it.
    pub pid: u32,
}

/// An error number of the system.
#[derive(Clone, Copy, Debug, PartialEq, Eq, Hash, Structural)]
pub struct Errno(pub i32);

impl Errno {
    pub const EPERM: i32 = 1;

    pub const ENOENT: i32 = 2;

    pub const EINTR: i32 = 4;

    pub const EIO: i32 = 5;

    pub const EAGAIN: i32 = 11;

    pub const EBUSY: i32 = 16;

    pub const ENODEV: i32 = 19;

    pub const EINVAL: i32 = 22;

    pub const ERANGE: i32 = 34;

    pub const ENOSYS: i32 = 38;

    pub const ENOTSUP: i32 = 95;

    pub const ENOTCONN: i32 = 107;

    /// The number of an error is not zero, and its negative can be written.
    pub open spec fn wf(self) -> bool {
        self.0 != 0 && self.0 != i32::MIN
    }
}

/// The lower of two versions is one of them, and neither comes before it: the major numbers count
/// first.
pub proof fn lemma_lower_of_two(a: Version, b: Version, r: Version, before: bool)
    requires
        call_ensures(Version::lower, (a, b), r),
        call_ensures(Version::before, (a, b), before),
    ensures
        r == a || r == b,
        r.0 <= a.0 && r.0 <= b.0,
        a.0 == b.0 ==> r.1 <= a.1 && r.1 <= b.1,
        a.0 < b.0 ==> before && r == a,
        a.0 > b.0 ==> !before && r == b,
        a.0 == b.0 ==> (before <==> a.1 < b.1),
{
}

/// The numbers of errors in the system, and that of the root.
pub proof fn lemma_numbers_of_the_system()
    ensures
        0x1 == Errno::EPERM,
        0x2 == Errno::ENOENT,
        0x4 == Errno::EINTR,
        0x5 == Errno::EIO,
        0xb == Errno::EAGAIN,
        0x10 == Errno::EBUSY,
        0x13 == Errno::ENODEV,
        0x16 == Errno::EINVAL,
        0x22 == Errno::ERANGE,
        0x26 == Errno::ENOSYS,
        0x5f == Errno::ENOTSUP,
        0x6b == Errno::ENOTCONN,
        0x1 == INodeNo::ROOT,
{
}

} // verus!
