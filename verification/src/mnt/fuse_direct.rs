//! Mounting by the system call alone, with the attempts that it takes.

use vstd::prelude::*;
use vstd::string::StringExecFns;

use crate::ids::Errno;
use crate::kernel_config::SessionACL;
use crate::mnt::mount_options::MountOption;
use crate::mnt::system_mount::{
    contains_auto_unmount, default_flags, dev_fuse_path, find_last_fsname, find_last_subtype,
    has_auto_unmount, last_fsname, last_subtype, leading_options, leading_string, mount_flags,
    option_flags, text_of, MountIds,
};
use crate::mnt::unmount_options::MNT_DETACH;

verus! {

/// The bits of a mode that say what kind of file it is of.
pub const S_IFMT: u32 = 0o170000;

/// The arguments of a `mount` system call, but for the mountpoint.
#[derive(Clone, Debug, PartialEq, Eq)]
pub struct MountCall {
    pub source: String,
    pub fstype: String,
    pub flags: u64,
    pub options: String,
}

/// What the arguments hold.
#[verifier::ext_equal]
pub struct MountCallView {
    pub source: Seq<char>,
    pub fstype: Seq<char>,
    pub flags: u64,
    pub options: Seq<char>,
}

impl View for MountCall {
    type V = MountCallView;

    open spec fn view(&self) -> MountCallView {
        MountCallView {
            source: self.source@,
            fstype: self.fstype@,
            flags: self.flags,
            options: self.options@,
        }
    }
}

/// Which attempt it is.
#[derive(Clone, Copy, Debug, PartialEq, Eq, Structural)]
pub enum Attempt {
    /// The first.
    First,
    /// The one for a kernel that does not know subtypes.
    NoSubtype,
    /// The one for a kernel that does not know the group, after either of the others.
    NoGroup {
        /// Whether the attempt without the subtype came before.
        no_subtype: bool,
    },
}

/// What comes after an attempt.
#[derive(Clone, Copy, Debug, PartialEq, Eq, Structural)]
pub enum AfterAttempt {
    /// Another attempt.
    Try(Attempt),
    /// The filesystem is mounted.
    Mounted,
    /// The mount failed.
    Failed(i32),
}

/// What a mount at a mountpoint takes.
#[derive(Debug)]
pub struct DirectMount {
    pub flags: u64,
    pub fsname: Option<String>,
    pub subtype: Option<String>,
    pub auto_unmount: bool,
    /// The options before those that the mount itself adds.
    pub options: String,
    pub ids: MountIds,
}

/// The options before those that a mount itself adds.
pub open spec fn own_options(options: Seq<MountOption>, acl: SessionACL) -> Seq<char> {
    match acl.spec_mount_option() {
        Some(s) => leading_options(options) + s + seq![','],
        None => leading_options(options),
    }
}

impl DirectMount {
    /// What the options amount to, for the user `ids.uid`. Only the kind of the mountpoint's mode
    /// counts.
    pub fn new(options: &[MountOption], acl: SessionACL, ids: MountIds) -> (r: DirectMount)
        ensures
            r.flags == default_flags(options@, ids.uid == 0) | option_flags(options@),
            text_of(r.fsname) == last_fsname(options@),
            text_of(r.subtype) == last_subtype(options@),
            r.auto_unmount == has_auto_unmount(options@),
            r.options@ == own_options(options@, acl),
            r.ids == (MountIds { root_mode: ids.root_mode & S_IFMT, ..ids }),
    {
        let mut own: String = leading_string(options);
        if let Some(opt) = acl.to_mount_option() {
            own.append(opt);
            own.push(',');
        }
        assert(own@ =~= own_options(options@, acl));
        DirectMount {
            flags: mount_flags(options, ids.uid == 0),
            fsname: find_last_fsname(options),
            subtype: find_last_subtype(options),
            auto_unmount: contains_auto_unmount(options),
            options: own,
            ids: MountIds { fd: ids.fd, root_mode: ids.root_mode & S_IFMT, uid: ids.uid,
                gid: ids.gid },
        }
    }

    /// The arguments of an attempt. The source is the given name or else the subtype or else the
    /// device; without the subtype in the type, the source names it, before the given name.
    pub open spec fn spec_call(self, attempt: Attempt) -> MountCallView {
        let no_subtype = match attempt {
            Attempt::First => false,
            Attempt::NoSubtype => true,
            Attempt::NoGroup { no_subtype } => no_subtype,
        };
        MountCallView {
            source: match (text_of(self.fsname), text_of(self.subtype)) {
                (Some(fsname), Some(subtype)) => if no_subtype {
                    subtype + "#"@ + fsname
                } else {
                    fsname
                },
                (Some(fsname), None) => if no_subtype {
                    "fuse"@
                } else {
                    fsname
                },
                (None, Some(subtype)) => if no_subtype {
                    "fuse"@
                } else {
                    subtype
                },
                (None, None) => if no_subtype {
                    "fuse"@
                } else {
                    dev_fuse_path()
                },
            },
            fstype: match text_of(self.subtype) {
                Some(subtype) => if no_subtype {
                    "fuse"@
                } else {
                    "fuse."@ + subtype
                },
                None => "fuse"@,
            },
            flags: self.flags,
            options: self.options@ + (if attempt is NoGroup {
                self.ids.user_text()
            } else {
                self.ids.full_text()
            }),
        }
    }

    /// The arguments of an attempt.
    pub fn call(&self, attempt: Attempt) -> (r: MountCall)
        ensures
            r@ == self.spec_call(attempt),
    {
        let (no_subtype, no_group): (bool, bool) = match attempt {
            Attempt::First => (false, false),
            Attempt::NoSubtype => (true, false),
            Attempt::NoGroup { no_subtype } => (no_subtype, true),
        };
        let source = match (&self.fsname, &self.subtype) {
            (Some(fsname), Some(subtype)) => if no_subtype {
                subtype.clone().concat("#").concat(fsname.as_str())
            } else {
                fsname.clone()
            },
            (Some(fsname), None) => if no_subtype {
                String::from_str("fuse")
            } else {
                fsname.clone()
            },
            (None, Some(subtype)) => if no_subtype {
                String::from_str("fuse")
            } else {
                subtype.clone()
            },
            (None, None) => if no_subtype {
                String::from_str("fuse")
            } else {
                String::from_str("/dev/fuse")
            },
        };
        let fstype = match &self.subtype {
            Some(subtype) => if no_subtype {
                String::from_str("fuse")
            } else {
                String::from_str("fuse.").concat(subtype.as_str())
            },
            None => String::from_str("fuse"),
        };
        let tail = if no_group {
            self.ids.user_string()
        } else {
            self.ids.full_string()
        };
        let options: String = self.options.clone().concat(tail.as_str());
        MountCall { source, fstype, flags: self.flags, options }
    }

    /// What comes after an attempt with a result: a kernel that does not know the type is tried
    /// without the subtype, where there is one, and one that does not take the options without the
    /// group; nothing is tried twice.
    pub open spec fn spec_after(self, attempt: Attempt, result: Result<(), i32>) -> AfterAttempt {
        match result {
            Ok(_) => AfterAttempt::Mounted,
            Err(e) => match attempt {
                Attempt::First => if e == Errno::ENODEV && self.subtype is Some {
                    AfterAttempt::Try(Attempt::NoSubtype)
                } else if e == Errno::EINVAL {
                    AfterAttempt::Try(Attempt::NoGroup { no_subtype: false })
                } else {
                    AfterAttempt::Failed(e)
                },
                Attempt::NoSubtype => if e == Errno::EINVAL {
                    AfterAttempt::Try(Attempt::NoGroup { no_subtype: true })
                } else {
                    AfterAttempt::Failed(e)
                },
                Attempt::NoGroup { .. } => AfterAttempt::Failed(e),
            },
        }
    }

    /// What comes after an attempt with a result.
    pub fn after(&self, attempt: Attempt, result: Result<(), i32>) -> (r: AfterAttempt)
        ensures
            r == self.spec_after(attempt, result),
    {
        match result {
            Ok(_) => AfterAttempt::Mounted,
            Err(e) => match attempt {
                Attempt::First => if e == Errno::ENODEV && self.subtype.is_some() {
                    AfterAttempt::Try(Attempt::NoSubtype)
                } else if e == Errno::EINVAL {
                    AfterAttempt::Try(Attempt::NoGroup { no_subtype: false })
                } else {
                    AfterAttempt::Failed(e)
                },
                Attempt::NoSubtype => if e == Errno::EINVAL {
                    AfterAttempt::Try(Attempt::NoGroup { no_subtype: true })
                } else {
                    AfterAttempt::Failed(e)
                },
                Attempt::NoGroup { .. } => AfterAttempt::Failed(e),
            },
        }
    }

    /// How much room the options have: less than a page, where the size of a page is known.
    pub open spec fn options_room(page_size: Option<i64>) -> int {
        match page_size {
            Some(size) => if 0 <= size <= usize::MAX {
                size - 1
            } else {
                usize::MAX - 1
            },
            None => usize::MAX - 1,
        }
    }

    /// Whether the options of the first attempt have room.
    pub fn options_fit(&self, page_size: Option<i64>) -> (r: bool)
        requires
            page_size != Some(0i64),
        ensures
            r == (vstd::utf8::encode_utf8(self.spec_call(Attempt::First).options).len()
                <= DirectMount::options_room(page_size)),
    {
        let room: usize = match page_size {
            Some(size) => if 0 <= size && (size as u64) <= usize::MAX as u64 {
                size as usize - 1
            } else {
                usize::MAX - 1
            },
            None => usize::MAX - 1,
        };
        let call = self.call(Attempt::First);
        call.options.as_str().as_bytes().len() <= room
    }
}

/// How many attempts there can still be after one.
pub open spec fn attempts_left(attempt: Attempt) -> nat {
    match attempt {
        Attempt::First => 2,
        Attempt::NoSubtype => 1,
        Attempt::NoGroup { .. } => 0,
    }
}

/// There are never more than three attempts.
pub proof fn lemma_attempts_end(mount: DirectMount, attempt: Attempt, result: Result<(), i32>)
    ensures
        mount.spec_after(attempt, result) matches AfterAttempt::Try(next) ==> attempts_left(next)
            < attempts_left(attempt),
{
}

/// Without a subtype no attempt is made without it.
pub proof fn lemma_subtype_left_out_only_where_given(
    mount: DirectMount,
    attempt: Attempt,
    result: Result<(), i32>,
)
    ensures
        mount.spec_after(attempt, result) == AfterAttempt::Try(Attempt::NoSubtype)
            ==> mount.subtype is Some,
{
}

/// The flags of an unmount.
pub fn unmount_flags(lazy: bool) -> (r: i32)
    ensures
        r == (if lazy {
            MNT_DETACH
        } else {
            0
        }),
{
    if lazy {
        MNT_DETACH
    } else {
        0
    }
}

/// What a read from the socket that ends with the mounting process says.
#[derive(Clone, Copy, Debug, PartialEq, Eq, Structural)]
pub enum SocketRead {
    /// So many bytes were read.
    Read(usize),
    /// The read was interrupted.
    Interrupted,
    /// The read failed otherwise.
    Failed,
}

/// Whether the mounting process is still there, as far as a read says.
pub fn still_mounted_by(read: SocketRead) -> (r: bool)
    ensures
        r == (match read {
            SocketRead::Read(n) => n != 0,
            SocketRead::Interrupted => true,
            SocketRead::Failed => false,
        }),
{
    match read {
        SocketRead::Read(n) => n != 0,
        SocketRead::Interrupted => true,
        SocketRead::Failed => false,
    }
}

/// The last descriptor that may be open, given the soft and the hard limit.
pub fn last_descriptor(limits: Option<(u64, u64)>) -> (r: i32)
    ensures
        match limits {
            Some((soft, hard)) => {
                let lower = if soft <= hard {
                    soft
                } else {
                    hard
                };
                r == (if lower <= i32::MAX {
                    lower as int
                } else {
                    i32::MAX as int
                })
            },
            None => r == i32::MAX,
        },
{
    match limits {
        Some((soft, hard)) => {
            let lower: u64 = if soft <= hard {
                soft
            } else {
                hard
            };
            if lower <= 0x7fff_ffff {
                lower as i32
            } else {
                i32::MAX
            }
        },
        None => i32::MAX,
    }
}

/// Whether an inherited descriptor is closed: all are but those of standard input and output and
/// the one that is kept.
pub fn closes_descriptor(fd: i32, keep: i32, last: i32) -> (r: bool)
    ensures
        r == (3 <= fd <= last && fd != keep),
{
    3 <= fd && fd <= last && fd != keep
}

/// What comes after an attempt: a kernel that knows no subtypes (19) is tried without one, where
/// one was given, and one that takes the options for wrong (22) without the group. Anything else
/// has failed.
pub proof fn lemma_attempts_follow(
    mount: DirectMount,
    attempt: Attempt,
    result: Result<(), i32>,
    r: AfterAttempt,
)
    requires
        call_ensures(DirectMount::after, (&mount, attempt, result), r),
    ensures
        r is Mounted <==> result is Ok,
        r == AfterAttempt::Try(Attempt::NoSubtype) <==> attempt is First && mount.subtype is Some
            && result == Err::<(), i32>(19),
        r == AfterAttempt::Try(Attempt::NoGroup { no_subtype: false }) <==> attempt is First
            && result == Err::<(), i32>(22),
        r == AfterAttempt::Try(Attempt::NoGroup { no_subtype: true }) <==> attempt is NoSubtype
            && result == Err::<(), i32>(22),
        r != AfterAttempt::Try(Attempt::First),
        r matches AfterAttempt::Failed(e) ==> result == Err::<(), i32>(e),
{
}

/// What an attempt tells the kernel. The type names the subtype, unless that is left out; then the
/// source does, before the name that was given. The group is left out where the kernel does not
/// know it.
pub proof fn lemma_attempt_tells(mount: DirectMount, attempt: Attempt, r: MountCall)
    requires
        call_ensures(DirectMount::call, (&mount, attempt), r),
    ensures
        ({
            let named = attempt is First || attempt == (Attempt::NoGroup { no_subtype: false });
            &&& r.flags == mount.flags
            &&& named && mount.subtype is Some ==> r.fstype@ == "fuse."@ + mount.subtype->0@
            &&& mount.subtype is None || !named ==> r.fstype@ == "fuse"@
            &&& named && mount.fsname is Some ==> r.source@ == mount.fsname->0@
            &&& named && mount.fsname is None && mount.subtype is Some ==> r.source@
                == mount.subtype->0@
            &&& named && mount.fsname is None && mount.subtype is None ==> r.source@
                == "/dev/fuse"@
            &&& !named && mount.fsname is Some && mount.subtype is Some ==> r.source@
                == mount.subtype->0@ + "#"@ + mount.fsname->0@
            &&& !named && (mount.fsname is None || mount.subtype is None) ==> r.source@ == "fuse"@
            &&& attempt is NoGroup ==> r.options@ == mount.options@ + mount.ids.user_text()
            &&& !(attempt is NoGroup) ==> r.options@ == mount.options@ + mount.ids.full_text()
        }),
{
    let view = r@;
    let told = mount.spec_call(attempt);
    assert(view == told);
}

/// What a mount takes follows from the options: the last name and the last subtype count, the
/// mounter is trusted where it is root, and of the mode of the mountpoint only the kind is told.
pub proof fn lemma_direct_mount_takes(
    options: &[MountOption],
    acl: SessionACL,
    ids: MountIds,
    r: DirectMount,
)
    requires
        call_ensures(DirectMount::new, (options, acl, ids), r),
    ensures
        text_of(r.fsname) == last_fsname(options@),
        text_of(r.subtype) == last_subtype(options@),
        r.ids.fd == ids.fd,
        r.ids.uid == ids.uid,
        r.ids.gid == ids.gid,
        r.ids.root_mode == ids.root_mode & 0o170000,
        acl is Owner ==> r.options@ == leading_options(options@),
        !(acl is Owner) ==> r.options@ == leading_options(options@) + "allow_other"@ + seq![','],
        ids.uid == 0 ==> r.flags == default_flags(options@, true) | option_flags(options@),
        ids.uid != 0 ==> r.flags == default_flags(options@, false) | option_flags(options@),
{
}

/// A mount is ended at once, or lazily where that is asked for.
pub proof fn lemma_lazy_unmount(lazy: bool, r: i32)
    requires
        call_ensures(unmount_flags, (lazy,), r),
    ensures
        lazy <==> r == 2,
        !lazy <==> r == 0,
{
}

/// A socket that was closed or fails tells that the mount has ended.
pub proof fn lemma_socket_tells(read: SocketRead, r: bool)
    requires
        call_ensures(still_mounted_by, (read,), r),
    ensures
        !r <==> read is Failed || read == SocketRead::Read(0),
{
}

/// Descriptors are closed but for the standard ones and the one that is kept, up to the lower of
/// the two limits.
pub proof fn lemma_descriptors_are_closed(
    limits: Option<(u64, u64)>,
    last: i32,
    fd: i32,
    keep: i32,
    r: bool,
)
    requires
        call_ensures(last_descriptor, (limits,), last),
        call_ensures(closes_descriptor, (fd, keep, last), r),
    ensures
        fd <= 2 || fd == keep ==> !r,
        limits matches Some((soft, hard)) ==> (fd > 2 && fd != keep ==> (r <==> fd <= soft && fd
            <= hard)),
        limits is None ==> (fd > 2 && fd != keep ==> r),
{
}

/// Options must leave one byte of a page for what ends them; where the size of a page is not known
/// there is room enough.
pub proof fn lemma_options_leave_a_byte(mount: DirectMount, page_size: Option<i64>, r: bool)
    requires
        page_size != Some(0i64),
        call_ensures(DirectMount::options_fit, (&mount, page_size), r),
    ensures
        ({
            let options = mount.options@ + mount.ids.full_text();
            let bytes = vstd::utf8::encode_utf8(options);
            page_size matches Some(n) ==> (0 < n <= usize::MAX ==> (r <==> bytes.len() < n))
        }),
{
}

} // verus!
