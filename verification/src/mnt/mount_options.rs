//! Mount options, where access for other users is a matter of the session.

use vstd::prelude::*;
use vstd::string::{StrSliceExecFns, StringExecFns};

use crate::kernel_config::SessionACL;
use crate::mnt::conflicts::{conflict_free, conflicted, conflicting_options, Conflicting};
use crate::text::{begins_with, same_text, strip_prefix};

verus! {

pub const MS_RDONLY: u64 = 1;

pub const MS_NOSUID: u64 = 2;

pub const MS_NODEV: u64 = 4;

pub const MS_NOEXEC: u64 = 8;

pub const MS_SYNCHRONOUS: u64 = 16;

pub const MS_DIRSYNC: u64 = 128;

pub const MS_NOATIME: u64 = 1024;

/// Session configuration, including mount options.
#[derive(Clone, Debug, PartialEq, Eq)]
pub struct Config {
    /// Mount options.
    pub mount_options: Vec<MountOption>,
    /// Who can access the filesystem.
    pub acl: SessionACL,
    /// Number of event loop threads. If unspecified, one thread is used.
    pub n_threads: Option<usize>,
    /// Use `FUSE_DEV_IOC_CLONE` to give each worker thread its own fd.
    /// This enables more efficient request processing
    /// when multiple threads are used. Requires Linux 4.5+.
    pub clone_fd: bool,
}

impl Default for Config {
    fn default() -> (r: Self)
        ensures
            r.mount_options@ == Seq::<MountOption>::empty(),
            r.acl == SessionACL::Owner,
            r.n_threads is None,
            !r.clone_fd,
    {
        Config {
            mount_options: Vec::new(),
            acl: SessionACL::Owner,
            n_threads: None,
            clone_fd: false,
        }
    }
}

/// Mount options accepted by the FUSE filesystem type
/// See 'man mount.fuse' for details
#[derive(Clone, Debug, PartialEq, Eq, Hash)]
pub enum MountOption {
    /// Set the name of the source in mtab
    ///
    /// The value may contain any character except NUL.
    FSName(String),
    /// Set the filesystem subtype in mtab
    ///
    /// The value may not contain NUL, comma, or backslash.
    Subtype(String),
    /// Allows passing an option which is not otherwise supported in these enums
    ///
    /// The value may not contain NUL, comma, or backslash.
    CUSTOM(String),
    /// Automatically unmount when the mounting process exits
    ///
    /// Unmounting once that process is gone takes something that outlives it: normally the
    /// `fusermount` helper, or, on systems that ship no FUSE userspace, a watcher process,
    /// which takes the privilege to mount directly. With neither available
    /// the mount fails, rather than quietly not honouring the option.
    ///
    /// Requires a `SessionACL` other than `SessionACL::Owner`, because
    /// the helper does its unmount as root, and a filesystem that admits only its owner
    /// refuses root the look at the mountpoint that decides whether to unmount.
    AutoUnmount,
    /// Enable permission checking in the kernel
    DefaultPermissions,
    /// Enable special character and block devices
    Dev,
    /// Disable special character and block devices
    NoDev,
    /// Honor set-user-id and set-groupd-id bits on files
    Suid,
    /// Don't honor set-user-id and set-groupd-id bits on files
    NoSuid,
    /// Read-only filesystem
    RO,
    /// Read-write filesystem
    RW,
    /// Allow execution of binaries
    Exec,
    /// Don't allow execution of binaries
    NoExec,
    /// Support inode access time
    Atime,
    /// Don't update inode access time
    NoAtime,
    /// All modifications to directories will be done synchronously
    DirSync,
    /// All I/O will be done synchronously
    Sync,
    /// All I/O will be done asynchronously
    Async,
}

/// Whether `option` is what `s` is read as.
pub open spec fn reads_as(s: Seq<char>, option: MountOption) -> bool {
    if s == "auto_unmount"@ {
        option is AutoUnmount
    } else if s == "default_permissions"@ {
        option is DefaultPermissions
    } else if s == "dev"@ {
        option is Dev
    } else if s == "nodev"@ {
        option is NoDev
    } else if s == "suid"@ {
        option is Suid
    } else if s == "nosuid"@ {
        option is NoSuid
    } else if s == "ro"@ {
        option is RO
    } else if s == "rw"@ {
        option is RW
    } else if s == "exec"@ {
        option is Exec
    } else if s == "noexec"@ {
        option is NoExec
    } else if s == "atime"@ {
        option is Atime
    } else if s == "noatime"@ {
        option is NoAtime
    } else if s == "dirsync"@ {
        option is DirSync
    } else if s == "sync"@ {
        option is Sync
    } else if s == "async"@ {
        option is Async
    } else if begins_with(s, "fsname="@) {
        option matches MountOption::FSName(v) && v@ == s.skip(7)
    } else if begins_with(s, "subtype="@) {
        option matches MountOption::Subtype(v) && v@ == s.skip(8)
    } else {
        option matches MountOption::CUSTOM(v) && v@ == s
    }
}

impl MountOption {
    /// Reads an option as it stands in an option list.
    pub fn from_str(s: &str) -> (r: MountOption)
        ensures
            reads_as(s@, r),
    {
        proof {
            reveal_strlit("fsname=");
            reveal_strlit("subtype=");
        }
        if same_text(s, "auto_unmount") {
            return MountOption::AutoUnmount;
        }
        if same_text(s, "default_permissions") {
            return MountOption::DefaultPermissions;
        }
        if same_text(s, "dev") {
            return MountOption::Dev;
        }
        if same_text(s, "nodev") {
            return MountOption::NoDev;
        }
        if same_text(s, "suid") {
            return MountOption::Suid;
        }
        if same_text(s, "nosuid") {
            return MountOption::NoSuid;
        }
        if same_text(s, "ro") {
            return MountOption::RO;
        }
        if same_text(s, "rw") {
            return MountOption::RW;
        }
        if same_text(s, "exec") {
            return MountOption::Exec;
        }
        if same_text(s, "noexec") {
            return MountOption::NoExec;
        }
        if same_text(s, "atime") {
            return MountOption::Atime;
        }
        if same_text(s, "noatime") {
            return MountOption::NoAtime;
        }
        if same_text(s, "dirsync") {
            return MountOption::DirSync;
        }
        if same_text(s, "sync") {
            return MountOption::Sync;
        }
        if same_text(s, "async") {
            return MountOption::Async;
        }
        if let Some(rest) = strip_prefix(s, "fsname=") {
            return MountOption::FSName(rest);
        }
        if let Some(rest) = strip_prefix(s, "subtype=") {
            return MountOption::Subtype(rest);
        }
        MountOption::CUSTOM(String::from_str(s))
    }
}

/// Options were given that may not be given together.
#[derive(Clone, Debug, PartialEq, Eq)]
pub struct ConflictError {
    /// The options, each once.
    pub conflicting: Vec<MountOption>,
}

/// Checks that no two options conflict.
pub fn check_option_conflicts(options: &Config) -> (r: Result<(), ConflictError>)
    ensures
        r is Ok <==> conflict_free(options.mount_options@),
        r matches Err(e) ==> {
            &&& e.conflicting@.no_duplicates()
            &&& forall|o: MountOption|
                e.conflicting@.contains(o) <==> #[trigger] conflicted(options.mount_options@, o)
        },
{
    let conflicting: Vec<MountOption> = conflicting_options(options.mount_options.as_slice());
    if conflicting.len() == 0 {
        Ok(())
    } else {
        Err(ConflictError { conflicting })
    }
}

/// An option has a value that it may not have.
#[derive(Clone, Copy, Debug, PartialEq, Eq, Structural)]
pub struct ValueError {
    /// The position of the first such option.
    pub index: usize,
    /// The first character of its value that may not stand there.
    pub invalid: char,
}

/// Whether `c` may not stand in the value of `option`.
pub open spec fn invalid_in(option: MountOption, c: char) -> bool {
    match option {
        MountOption::FSName(_) => c == '\0',
        MountOption::Subtype(_) | MountOption::CUSTOM(_) => c == '\0' || c == ',' || c == '\\',
        _ => false,
    }
}

/// The value of an option; that of an option without one is empty.
pub open spec fn option_value(option: MountOption) -> Seq<char> {
    match option {
        MountOption::FSName(value) => value@,
        MountOption::Subtype(value) => value@,
        MountOption::CUSTOM(value) => value@,
        _ => Seq::empty(),
    }
}

/// Whether every character of the value of `option` may stand there.
pub open spec fn valid_value(option: MountOption) -> bool {
    forall|k: int|
        0 <= k < option_value(option).len() ==> !invalid_in(
            option,
            #[trigger] option_value(option)[k],
        )
}

/// Whether `c` is the first character of the value of `option` that may not stand there.
pub open spec fn first_invalid(option: MountOption, c: char) -> bool {
    exists|n: int|
        #![trigger option_value(option)[n]]
        0 <= n < option_value(option).len() && option_value(option)[n] == c && invalid_in(option, c)
            && forall|k: int|
            0 <= k < n ==> !invalid_in(option, #[trigger] option_value(option)[k])
}

/// Checks the values of options.
///
/// Option values reach the kernel, libfuse, or a fusermount helper inside a comma
/// separated list, so an unescaped comma in a value is read as the start of the next
/// option. libfuse and fusermount decode backslash escapes, but of the values that are sent to
/// them only `fsname` is re-escaped by libfuse when it forwards options to fusermount, so
/// every other value must be free of both characters. NUL terminates the list and can
/// never be represented.
pub fn check_option_values(options: &[MountOption]) -> (r: Result<(), ValueError>)
    ensures
        match r {
            Ok(_) => forall|i: int| 0 <= i < options@.len() ==> valid_value(#[trigger] options@[i]),
            Err(e) => {
                &&& e.index < options@.len()
                &&& first_invalid(options@[e.index as int], e.invalid)
                &&& forall|i: int| 0 <= i < e.index ==> valid_value(#[trigger] options@[i])
            },
        },
{
    let mut i: usize = 0;
    while i < options.len()
        invariant
            i <= options@.len(),
            forall|k: int| 0 <= k < i ==> valid_value(#[trigger] options@[k]),
        decreases options.len() - i,
    {
        if let Some(invalid) = check_option_value(&options[i]) {
            return Err(ValueError { index: i, invalid });
        }
        i += 1;
    }
    Ok(())
}

/// The first character of the value of `option` that may not stand there.
pub fn check_option_value(option: &MountOption) -> (r: Option<char>)
    ensures
        match r {
            Some(c) => first_invalid(*option, c),
            None => valid_value(*option),
        },
{
    let (value, strict): (&str, bool) = match option {
        MountOption::FSName(value) => (value.as_str(), false),
        MountOption::Subtype(value) => (value.as_str(), true),
        MountOption::CUSTOM(value) => (value.as_str(), true),
        _ => return None,
    };
    let len: usize = value.unicode_len();
    let mut k: usize = 0;
    while k < len
        invariant
            k <= len,
            len == value@.len(),
            value@ == option_value(*option),
            forall|c: char|
                invalid_in(*option, c) == (c == '\0' || (strict && (c == ',' || c == '\\'))),
            forall|n: int| 0 <= n < k ==> !invalid_in(*option, #[trigger] option_value(*option)[n]),
        decreases len - k,
    {
        let c = value.get_char(k);
        if c == '\0' || (strict && (c == ',' || c == '\\')) {
            assert(option_value(*option)[k as int] == c);
            return Some(c);
        }
        k += 1;
    }
    None
}

impl Conflicting for MountOption {
    open spec fn plain(self) -> bool {
        !(self is FSName || self is Subtype || self is CUSTOM)
    }

    open spec fn in_conflict(self, other: Self) -> bool {
        ||| self is Dev && other is NoDev
        ||| self is NoDev && other is Dev
        ||| self is Suid && other is NoSuid
        ||| self is NoSuid && other is Suid
        ||| self is RO && other is RW
        ||| self is RW && other is RO
        ||| self is Exec && other is NoExec
        ||| self is NoExec && other is Exec
        ||| self is Atime && other is NoAtime
        ||| self is NoAtime && other is Atime
        ||| self is Sync && other is Async
        ||| self is Async && other is Sync
    }

    proof fn lemma_conflict_is_plain(self, other: Self) {
    }

    proof fn lemma_conflict_is_mutual(self, other: Self) {
    }

    fn conflicts(&self, other: &Self) -> (r: bool) {
        match (self, other) {
            (MountOption::Dev, MountOption::NoDev) => true,
            (MountOption::NoDev, MountOption::Dev) => true,
            (MountOption::Suid, MountOption::NoSuid) => true,
            (MountOption::NoSuid, MountOption::Suid) => true,
            (MountOption::RO, MountOption::RW) => true,
            (MountOption::RW, MountOption::RO) => true,
            (MountOption::Exec, MountOption::NoExec) => true,
            (MountOption::NoExec, MountOption::Exec) => true,
            (MountOption::Atime, MountOption::NoAtime) => true,
            (MountOption::NoAtime, MountOption::Atime) => true,
            (MountOption::Sync, MountOption::Async) => true,
            (MountOption::Async, MountOption::Sync) => true,
            _ => false,
        }
    }

    fn same(&self, other: &Self) -> (r: bool) {
        match (self, other) {
            (MountOption::AutoUnmount, MountOption::AutoUnmount) => true,
            (MountOption::DefaultPermissions, MountOption::DefaultPermissions) => true,
            (MountOption::Dev, MountOption::Dev) => true,
            (MountOption::NoDev, MountOption::NoDev) => true,
            (MountOption::Suid, MountOption::Suid) => true,
            (MountOption::NoSuid, MountOption::NoSuid) => true,
            (MountOption::RO, MountOption::RO) => true,
            (MountOption::RW, MountOption::RW) => true,
            (MountOption::Exec, MountOption::Exec) => true,
            (MountOption::NoExec, MountOption::NoExec) => true,
            (MountOption::Atime, MountOption::Atime) => true,
            (MountOption::NoAtime, MountOption::NoAtime) => true,
            (MountOption::DirSync, MountOption::DirSync) => true,
            (MountOption::Sync, MountOption::Sync) => true,
            (MountOption::Async, MountOption::Async) => true,
            _ => false,
        }
    }

    fn again(&self) -> (r: Self) {
        match self {
            MountOption::FSName(v) => MountOption::FSName(v.clone()),
            MountOption::Subtype(v) => MountOption::Subtype(v.clone()),
            MountOption::CUSTOM(v) => MountOption::CUSTOM(v.clone()),
            MountOption::AutoUnmount => MountOption::AutoUnmount,
            MountOption::DefaultPermissions => MountOption::DefaultPermissions,
            MountOption::Dev => MountOption::Dev,
            MountOption::NoDev => MountOption::NoDev,
            MountOption::Suid => MountOption::Suid,
            MountOption::NoSuid => MountOption::NoSuid,
            MountOption::RO => MountOption::RO,
            MountOption::RW => MountOption::RW,
            MountOption::Exec => MountOption::Exec,
            MountOption::NoExec => MountOption::NoExec,
            MountOption::Atime => MountOption::Atime,
            MountOption::NoAtime => MountOption::NoAtime,
            MountOption::DirSync => MountOption::DirSync,
            MountOption::Sync => MountOption::Sync,
            MountOption::Async => MountOption::Async,
        }
    }
}

/// The options that may not be given with `option`.
pub open spec fn conflict_list(option: MountOption) -> Seq<MountOption> {
    match option {
        MountOption::Dev => seq![MountOption::NoDev],
        MountOption::NoDev => seq![MountOption::Dev],
        MountOption::Suid => seq![MountOption::NoSuid],
        MountOption::NoSuid => seq![MountOption::Suid],
        MountOption::RO => seq![MountOption::RW],
        MountOption::RW => seq![MountOption::RO],
        MountOption::Exec => seq![MountOption::NoExec],
        MountOption::NoExec => seq![MountOption::Exec],
        MountOption::Atime => seq![MountOption::NoAtime],
        MountOption::NoAtime => seq![MountOption::Atime],
        MountOption::Sync => seq![MountOption::Async],
        MountOption::Async => seq![MountOption::Sync],
        _ => Seq::empty(),
    }
}

/// The options that may not be given with `option`.
pub fn conflicts_with(option: &MountOption) -> (r: Vec<MountOption>)
    ensures
        r@ == conflict_list(*option),
        forall|other: MountOption| r@.contains(other) <==> option.in_conflict(other),
{
    let r = match option {
        MountOption::FSName(_) => vec![],
        MountOption::Subtype(_) => vec![],
        MountOption::CUSTOM(_) => vec![],
        MountOption::AutoUnmount => vec![],
        MountOption::DefaultPermissions => vec![],
        MountOption::Dev => vec![MountOption::NoDev],
        MountOption::NoDev => vec![MountOption::Dev],
        MountOption::Suid => vec![MountOption::NoSuid],
        MountOption::NoSuid => vec![MountOption::Suid],
        MountOption::RO => vec![MountOption::RW],
        MountOption::RW => vec![MountOption::RO],
        MountOption::Exec => vec![MountOption::NoExec],
        MountOption::NoExec => vec![MountOption::Exec],
        MountOption::Atime => vec![MountOption::NoAtime],
        MountOption::NoAtime => vec![MountOption::Atime],
        MountOption::DirSync => vec![],
        MountOption::Sync => vec![MountOption::Async],
        MountOption::Async => vec![MountOption::Sync],
    };
    assert(r@ =~= conflict_list(*option));
    proof {
        assert forall|other: MountOption| option.in_conflict(other) implies r@.contains(other) by {
            assert(r@[0] == other);
        }
    }
    r
}

/// Two options that may not be given together may not whichever is looked at, no option conflicts
/// with itself, and each conflicts with at most one other.
pub proof fn lemma_conflicts_are_mutual(a: MountOption, b: MountOption)
    ensures
        conflict_list(a).contains(b) <==> conflict_list(b).contains(a),
        !conflict_list(a).contains(a),
        conflict_list(a).no_duplicates(),
        conflict_list(a).len() <= 1,
{
    if a.in_conflict(b) {
        assert(conflict_list(a)[0] == b);
        assert(conflict_list(b)[0] == a);
    }
}

/// What an option is to whom it is handed.
#[derive(Clone, Copy, Debug, PartialEq, Eq, Structural)]
pub enum MountOptionGroup {
    /// It stands in the option list of the kernel.
    KernelOption,
    /// It is a flag of the system call.
    KernelFlag,
    /// Only a mount helper knows it.
    Fusermount,
}

/// The group of an option.
pub open spec fn spec_option_group(option: MountOption) -> MountOptionGroup {
    match option {
        MountOption::FSName(_) => MountOptionGroup::Fusermount,
        MountOption::Subtype(_) => MountOptionGroup::Fusermount,
        MountOption::CUSTOM(_) => MountOptionGroup::KernelOption,
        MountOption::AutoUnmount => MountOptionGroup::Fusermount,
        MountOption::DefaultPermissions => MountOptionGroup::KernelOption,
        MountOption::Dev => MountOptionGroup::KernelFlag,
        MountOption::NoDev => MountOptionGroup::KernelFlag,
        MountOption::Suid => MountOptionGroup::KernelFlag,
        MountOption::NoSuid => MountOptionGroup::KernelFlag,
        MountOption::RO => MountOptionGroup::KernelFlag,
        MountOption::RW => MountOptionGroup::KernelFlag,
        MountOption::Exec => MountOptionGroup::KernelFlag,
        MountOption::NoExec => MountOptionGroup::KernelFlag,
        MountOption::Atime => MountOptionGroup::KernelFlag,
        MountOption::NoAtime => MountOptionGroup::KernelFlag,
        MountOption::DirSync => MountOptionGroup::KernelFlag,
        MountOption::Sync => MountOptionGroup::KernelFlag,
        MountOption::Async => MountOptionGroup::KernelFlag,
    }
}

/// The group of an option.
pub fn option_group(option: &MountOption) -> (r: MountOptionGroup)
    ensures
        r == spec_option_group(*option),
{
    match option {
        MountOption::FSName(_) => MountOptionGroup::Fusermount,
        MountOption::Subtype(_) => MountOptionGroup::Fusermount,
        MountOption::CUSTOM(_) => MountOptionGroup::KernelOption,
        MountOption::AutoUnmount => MountOptionGroup::Fusermount,
        MountOption::DefaultPermissions => MountOptionGroup::KernelOption,
        MountOption::Dev => MountOptionGroup::KernelFlag,
        MountOption::NoDev => MountOptionGroup::KernelFlag,
        MountOption::Suid => MountOptionGroup::KernelFlag,
        MountOption::NoSuid => MountOptionGroup::KernelFlag,
        MountOption::RO => MountOptionGroup::KernelFlag,
        MountOption::RW => MountOptionGroup::KernelFlag,
        MountOption::Exec => MountOptionGroup::KernelFlag,
        MountOption::NoExec => MountOptionGroup::KernelFlag,
        MountOption::Atime => MountOptionGroup::KernelFlag,
        MountOption::NoAtime => MountOptionGroup::KernelFlag,
        MountOption::DirSync => MountOptionGroup::KernelFlag,
        MountOption::Sync => MountOptionGroup::KernelFlag,
        MountOption::Async => MountOptionGroup::KernelFlag,
    }
}

/// An option as it stands in an option list.
pub open spec fn option_text(option: MountOption) -> Seq<char> {
    match option {
        MountOption::FSName(name) => "fsname="@ + name@,
        MountOption::Subtype(subtype) => "subtype="@ + subtype@,
        MountOption::CUSTOM(value) => value@,
        MountOption::AutoUnmount => "auto_unmount"@,
        MountOption::DefaultPermissions => "default_permissions"@,
        MountOption::Dev => "dev"@,
        MountOption::NoDev => "nodev"@,
        MountOption::Suid => "suid"@,
        MountOption::NoSuid => "nosuid"@,
        MountOption::RO => "ro"@,
        MountOption::RW => "rw"@,
        MountOption::Exec => "exec"@,
        MountOption::NoExec => "noexec"@,
        MountOption::Atime => "atime"@,
        MountOption::NoAtime => "noatime"@,
        MountOption::DirSync => "dirsync"@,
        MountOption::Sync => "sync"@,
        MountOption::Async => "async"@,
    }
}

/// Formats an option to be passed to libfuse or the kernel.
pub fn option_to_string(option: &MountOption) -> (r: String)
    ensures
        r@ == option_text(*option),
{
    match option {
        MountOption::FSName(name) => String::from_str("fsname=").concat(name.as_str()),
        MountOption::Subtype(subtype) => String::from_str("subtype=").concat(subtype.as_str()),
        MountOption::CUSTOM(value) => value.clone(),
        MountOption::AutoUnmount => String::from_str("auto_unmount"),
        MountOption::DefaultPermissions => String::from_str("default_permissions"),
        MountOption::Dev => String::from_str("dev"),
        MountOption::NoDev => String::from_str("nodev"),
        MountOption::Suid => String::from_str("suid"),
        MountOption::NoSuid => String::from_str("nosuid"),
        MountOption::RO => String::from_str("ro"),
        MountOption::RW => String::from_str("rw"),
        MountOption::Exec => String::from_str("exec"),
        MountOption::NoExec => String::from_str("noexec"),
        MountOption::Atime => String::from_str("atime"),
        MountOption::NoAtime => String::from_str("noatime"),
        MountOption::DirSync => String::from_str("dirsync"),
        MountOption::Sync => String::from_str("sync"),
        MountOption::Async => String::from_str("async"),
    }
}

/// A character with a backslash before it where it is a comma or a backslash.
pub open spec fn escaped_char(c: char) -> Seq<char> {
    if c == ',' || c == '\\' {
        seq!['\\', c]
    } else {
        seq![c]
    }
}

/// A value with a backslash before each comma and each backslash.
pub open spec fn escaped(value: Seq<char>) -> Seq<char>
    decreases value.len(),
{
    if value.len() == 0 {
        Seq::empty()
    } else {
        escaped_char(value[0]) + escaped(value.skip(1))
    }
}

/// Escaping goes on at the end as it does at the front.
proof fn lemma_escaped_push(value: Seq<char>, c: char)
    ensures
        escaped(value.push(c)) == escaped(value) + escaped_char(c),
    decreases value.len(),
{
    reveal_with_fuel(escaped, 2);
    if value.len() == 0 {
        assert(value.push(c).skip(1) =~= Seq::<char>::empty());
        assert(escaped(value.push(c)) =~= escaped(value) + escaped_char(c));
    } else {
        lemma_escaped_push(value.skip(1), c);
        assert(value.push(c).skip(1) =~= value.skip(1).push(c));
        assert(escaped(value.push(c)) =~= escaped(value) + escaped_char(c));
    }
}

/// Puts a backslash before each comma and each backslash.
pub fn escape_option_value(value: &str) -> (r: String)
    ensures
        r@ == escaped(value@),
{
    let len: usize = value.unicode_len();
    let mut out = String::new();
    let mut i: usize = 0;
    while i < len
        invariant
            i <= len,
            len == value@.len(),
            out@ == escaped(value@.take(i as int)),
        decreases len - i,
    {
        let c = value.get_char(i);
        proof {
            assert(value@.take(i + 1) =~= value@.take(i as int).push(c));
            lemma_escaped_push(value@.take(i as int), c);
        }
        if c == ',' || c == '\\' {
            out.push('\\');
        }
        out.push(c);
        i += 1;
        assert(out@ =~= escaped(value@.take(i as int)));
    }
    assert(value@.take(i as int) =~= value@);
    out
}

/// An option as it stands in an option list in which backslashes are decoded.
pub open spec fn option_escaped_text(option: MountOption) -> Seq<char> {
    match option {
        MountOption::FSName(name) => "fsname="@ + escaped(name@),
        _ => option_text(option),
    }
}

/// Formats an option to be passed to libfuse or a fusermount helper, both of which split the
/// option list on commas and decode backslash escapes, unlike the kernel, which takes
/// option values verbatim.
pub fn option_to_escaped_string(option: &MountOption) -> (r: String)
    ensures
        r@ == option_escaped_text(*option),
{
    match option {
        // fsname is the only value allowed to contain characters that need escaping,
        // see check_option_values()
        MountOption::FSName(name) => String::from_str("fsname=").concat(
            escape_option_value(name.as_str()).as_str(),
        ),
        _ => option_to_string(option),
    }
}

/// An option that is no flag of the system call.
#[derive(Clone, Copy, Debug, PartialEq, Eq, Structural)]
pub struct NotAFlag {}

/// The flag of the system call that stands for an option. What is the default has none.
pub open spec fn option_flag(option: MountOption) -> u64 {
    match option {
        MountOption::NoDev => MS_NODEV,
        MountOption::NoSuid => MS_NOSUID,
        MountOption::RO => MS_RDONLY,
        MountOption::NoExec => MS_NOEXEC,
        MountOption::NoAtime => MS_NOATIME,
        MountOption::Sync => MS_SYNCHRONOUS,
        MountOption::DirSync => MS_DIRSYNC,
        _ => 0,
    }
}

/// The flag of the system call that stands for an option.
pub fn option_to_flag(option: &MountOption) -> (r: Result<u64, NotAFlag>)
    ensures
        match r {
            Ok(flag) => spec_option_group(*option) is KernelFlag && flag == option_flag(*option),
            Err(_) => !(spec_option_group(*option) is KernelFlag),
        },
{
    match option {
        MountOption::Dev => Ok(0),  // There is no option for dev. It's the absence of NoDev
        MountOption::Suid => Ok(0),
        MountOption::RW => Ok(0),
        MountOption::Exec => Ok(0),
        MountOption::Atime => Ok(0),
        MountOption::Async => Ok(0),
        MountOption::NoDev => Ok(MS_NODEV),
        MountOption::NoSuid => Ok(MS_NOSUID),
        MountOption::RO => Ok(MS_RDONLY),
        MountOption::NoExec => Ok(MS_NOEXEC),
        MountOption::NoAtime => Ok(MS_NOATIME),
        MountOption::Sync => Ok(MS_SYNCHRONOUS),
        MountOption::DirSync => Ok(MS_DIRSYNC),
        _ => Err(NotAFlag {  }),
    }
}

/// Whether `s` is the text of an option without a value, or begins as that of one with a value.
pub open spec fn is_keyword(s: Seq<char>) -> bool {
    ||| s == "auto_unmount"@
    ||| s == "default_permissions"@
    ||| s == "dev"@
    ||| s == "nodev"@
    ||| s == "suid"@
    ||| s == "nosuid"@
    ||| s == "ro"@
    ||| s == "rw"@
    ||| s == "exec"@
    ||| s == "noexec"@
    ||| s == "atime"@
    ||| s == "noatime"@
    ||| s == "dirsync"@
    ||| s == "sync"@
    ||| s == "async"@
    ||| begins_with(s, "fsname="@)
    ||| begins_with(s, "subtype="@)
}

/// Whether two options say the same.
pub open spec fn same_option(a: MountOption, b: MountOption) -> bool {
    match (a, b) {
        (MountOption::FSName(v), MountOption::FSName(w)) => v@ == w@,
        (MountOption::Subtype(v), MountOption::Subtype(w)) => v@ == w@,
        (MountOption::CUSTOM(v), MountOption::CUSTOM(w)) => v@ == w@,
        _ => a == b,
    }
}

/// The text of an option is read as that option, unless it is one of its own that has the text of
/// another.
pub proof fn lemma_option_round_trip(option: MountOption, read: MountOption)
    requires
        reads_as(option_text(option), read),
        option matches MountOption::CUSTOM(value) ==> !is_keyword(value@),
    ensures
        same_option(option, read),
{
    reveal_strlit("auto_unmount");
    reveal_strlit("default_permissions");
    reveal_strlit("dev");
    reveal_strlit("nodev");
    reveal_strlit("suid");
    reveal_strlit("nosuid");
    reveal_strlit("ro");
    reveal_strlit("rw");
    reveal_strlit("exec");
    reveal_strlit("noexec");
    reveal_strlit("atime");
    reveal_strlit("noatime");
    reveal_strlit("dirsync");
    reveal_strlit("sync");
    reveal_strlit("async");
    reveal_strlit("fsname=");
    reveal_strlit("subtype=");
    assert("auto_unmount"@.len() == 12);
    assert("default_permissions"@.len() == 19);
    assert("dev"@.len() == 3);
    assert("nodev"@.len() == 5);
    assert("suid"@.len() == 4);
    assert("nosuid"@.len() == 6);
    assert("ro"@.len() == 2);
    assert("rw"@.len() == 2);
    assert("exec"@.len() == 4);
    assert("noexec"@.len() == 6);
    assert("atime"@.len() == 5);
    assert("noatime"@.len() == 7);
    assert("dirsync"@.len() == 7);
    assert("sync"@.len() == 4);
    assert("async"@.len() == 5);
    assert("ro"@[1] == 'o' && "rw"@[1] == 'w');
    assert("suid"@[1] == 'u' && "exec"@[1] == 'x' && "sync"@[1] == 'y');
    assert("nodev"@[1] == 'o' && "atime"@[1] == 't' && "async"@[1] == 's');
    assert("nosuid"@[2] == 's' && "noexec"@[2] == 'e');
    assert("noatime"@[0] == 'n' && "dirsync"@[0] == 'd');
    assert("auto_unmount"@[0] == 'a' && "default_permissions"@[0] == 'd');
    match option {
        MountOption::FSName(name) => {
            let s = "fsname="@ + name@;
            assert(s[0] == 'f' && s[6] == '=');
            assert(s.take(7) =~= "fsname="@);
            assert(s.skip(7) =~= name@);
        },
        MountOption::Subtype(name) => {
            let s = "subtype="@ + name@;
            assert(s[0] == 's' && s[1] == 'u' && s[2] == 'b');
            assert(s.take(8) =~= "subtype="@);
            assert(s.skip(8) =~= name@);
            assert(s.take(7)[0] == 's');
        },
        _ => {
            assert(option_text(option) == option_text(read));
        },
    }
}

/// What is switched on and what is switched off may not be given together, in any order and among
/// whatever else, and nothing else conflicts. Both options are told.
#[verifier::rlimit(40)]
pub proof fn lemma_opposites_conflict(config: Config, r: Result<(), ConflictError>)
    requires
        call_ensures(check_option_conflicts, (&config,), r),
    ensures
        ({
            let o = config.mount_options@;
            &&& o.contains(MountOption::Dev) && o.contains(MountOption::NoDev) ==> {
                &&& r matches Err(e)
                &&& e.conflicting@.contains(MountOption::Dev)
                &&& e.conflicting@.contains(MountOption::NoDev)
            }
            &&& o.contains(MountOption::Suid) && o.contains(MountOption::NoSuid) ==> {
                &&& r matches Err(e)
                &&& e.conflicting@.contains(MountOption::Suid)
                &&& e.conflicting@.contains(MountOption::NoSuid)
            }
            &&& o.contains(MountOption::RO) && o.contains(MountOption::RW) ==> {
                &&& r matches Err(e)
                &&& e.conflicting@.contains(MountOption::RO)
                &&& e.conflicting@.contains(MountOption::RW)
            }
            &&& o.contains(MountOption::Exec) && o.contains(MountOption::NoExec) ==> {
                &&& r matches Err(e)
                &&& e.conflicting@.contains(MountOption::Exec)
                &&& e.conflicting@.contains(MountOption::NoExec)
            }
            &&& o.contains(MountOption::Atime) && o.contains(MountOption::NoAtime) ==> {
                &&& r matches Err(e)
                &&& e.conflicting@.contains(MountOption::Atime)
                &&& e.conflicting@.contains(MountOption::NoAtime)
            }
            &&& o.contains(MountOption::Sync) && o.contains(MountOption::Async) ==> {
                &&& r matches Err(e)
                &&& e.conflicting@.contains(MountOption::Sync)
                &&& e.conflicting@.contains(MountOption::Async)
            }
            &&& r is Ok <==> {
                &&& !(o.contains(MountOption::Dev) && o.contains(MountOption::NoDev))
                &&& !(o.contains(MountOption::Suid) && o.contains(MountOption::NoSuid))
                &&& !(o.contains(MountOption::RO) && o.contains(MountOption::RW))
                &&& !(o.contains(MountOption::Exec) && o.contains(MountOption::NoExec))
                &&& !(o.contains(MountOption::Atime) && o.contains(MountOption::NoAtime))
                &&& !(o.contains(MountOption::Sync) && o.contains(MountOption::Async))
            }
        }),
{
    let options = config.mount_options@;
    if options.contains(MountOption::Dev) && options.contains(MountOption::NoDev) {
        let i = choose|i: int| 0 <= i < options.len() && options[i] == MountOption::Dev;
        let j = choose|j: int| 0 <= j < options.len() && options[j] == MountOption::NoDev;
        assert(options[i].in_conflict(options[j]) && options[j].in_conflict(options[i]));
        assert(conflicted(options, MountOption::Dev));
        assert(conflicted(options, MountOption::NoDev));
    }
    if options.contains(MountOption::Suid) && options.contains(MountOption::NoSuid) {
        let i = choose|i: int| 0 <= i < options.len() && options[i] == MountOption::Suid;
        let j = choose|j: int| 0 <= j < options.len() && options[j] == MountOption::NoSuid;
        assert(options[i].in_conflict(options[j]) && options[j].in_conflict(options[i]));
        assert(conflicted(options, MountOption::Suid));
        assert(conflicted(options, MountOption::NoSuid));
    }
    if options.contains(MountOption::RO) && options.contains(MountOption::RW) {
        let i = choose|i: int| 0 <= i < options.len() && options[i] == MountOption::RO;
        let j = choose|j: int| 0 <= j < options.len() && options[j] == MountOption::RW;
        assert(options[i].in_conflict(options[j]) && options[j].in_conflict(options[i]));
        assert(conflicted(options, MountOption::RO));
        assert(conflicted(options, MountOption::RW));
    }
    if options.contains(MountOption::Exec) && options.contains(MountOption::NoExec) {
        let i = choose|i: int| 0 <= i < options.len() && options[i] == MountOption::Exec;
        let j = choose|j: int| 0 <= j < options.len() && options[j] == MountOption::NoExec;
        assert(options[i].in_conflict(options[j]) && options[j].in_conflict(options[i]));
        assert(conflicted(options, MountOption::Exec));
        assert(conflicted(options, MountOption::NoExec));
    }
    if options.contains(MountOption::Atime) && options.contains(MountOption::NoAtime) {
        let i = choose|i: int| 0 <= i < options.len() && options[i] == MountOption::Atime;
        let j = choose|j: int| 0 <= j < options.len() && options[j] == MountOption::NoAtime;
        assert(options[i].in_conflict(options[j]) && options[j].in_conflict(options[i]));
        assert(conflicted(options, MountOption::Atime));
        assert(conflicted(options, MountOption::NoAtime));
    }
    if options.contains(MountOption::Sync) && options.contains(MountOption::Async) {
        let i = choose|i: int| 0 <= i < options.len() && options[i] == MountOption::Sync;
        let j = choose|j: int| 0 <= j < options.len() && options[j] == MountOption::Async;
        assert(options[i].in_conflict(options[j]) && options[j].in_conflict(options[i]));
        assert(conflicted(options, MountOption::Sync));
        assert(conflicted(options, MountOption::Async));
    }
    if {
        &&& !(options.contains(MountOption::Dev) && options.contains(MountOption::NoDev))
        &&& !(options.contains(MountOption::Suid) && options.contains(MountOption::NoSuid))
        &&& !(options.contains(MountOption::RO) && options.contains(MountOption::RW))
        &&& !(options.contains(MountOption::Exec) && options.contains(MountOption::NoExec))
        &&& !(options.contains(MountOption::Atime) && options.contains(MountOption::NoAtime))
        &&& !(options.contains(MountOption::Sync) && options.contains(MountOption::Async))
    } {
        assert forall|i: int, j: int| 0 <= i < options.len() && 0 <= j < options.len() implies !(
        #[trigger] options[j]).in_conflict(#[trigger] options[i]) by {
            assert(options.contains(options[i]) && options.contains(options[j]));
        }
    }
}

/// An option is written as the word by which `mount` knows it, and a value behind its name.
pub proof fn lemma_option_is_written(option: MountOption, r: String)
    requires
        call_ensures(option_to_string, (&option,), r),
    ensures
        option is AutoUnmount ==> r@ == "auto_unmount"@,
        option is DefaultPermissions ==> r@ == "default_permissions"@,
        option is Dev ==> r@ == "dev"@,
        option is NoDev ==> r@ == "nodev"@,
        option is Suid ==> r@ == "suid"@,
        option is NoSuid ==> r@ == "nosuid"@,
        option is RO ==> r@ == "ro"@,
        option is RW ==> r@ == "rw"@,
        option is Exec ==> r@ == "exec"@,
        option is NoExec ==> r@ == "noexec"@,
        option is Atime ==> r@ == "atime"@,
        option is NoAtime ==> r@ == "noatime"@,
        option is DirSync ==> r@ == "dirsync"@,
        option is Sync ==> r@ == "sync"@,
        option is Async ==> r@ == "async"@,
        option matches MountOption::FSName(v) ==> r@ == "fsname="@ + v@,
        option matches MountOption::Subtype(v) ==> r@ == "subtype="@ + v@,
        option matches MountOption::CUSTOM(v) ==> r@ == v@,
{
}

/// What can be switched is a flag of the system call, what names the mount or outlives the process
/// is for a mount helper, and the kernel reads the rest.
pub proof fn lemma_option_is_for(option: MountOption, r: MountOptionGroup)
    requires
        call_ensures(option_group, (&option,), r),
    ensures
        r is Fusermount <==> option is FSName || option is Subtype || option is AutoUnmount,
        r is KernelOption <==> option is CUSTOM || option is DefaultPermissions,
        r is KernelFlag <==> option is Dev || option is NoDev || option is Suid || option is NoSuid
            || option is RO || option is RW || option is Exec || option is NoExec || option is Atime
            || option is NoAtime || option is DirSync || option is Sync || option is Async,
{
}

/// The flag of an option is the number by which `mount` knows it; what is the default has none.
pub proof fn lemma_option_flag_number(option: MountOption, r: Result<u64, NotAFlag>)
    requires
        call_ensures(option_to_flag, (&option,), r),
    ensures
        r == Ok::<u64, NotAFlag>(1) <==> option is RO,
        r == Ok::<u64, NotAFlag>(2) <==> option is NoSuid,
        r == Ok::<u64, NotAFlag>(4) <==> option is NoDev,
        r == Ok::<u64, NotAFlag>(8) <==> option is NoExec,
        r == Ok::<u64, NotAFlag>(16) <==> option is Sync,
        r == Ok::<u64, NotAFlag>(128) <==> option is DirSync,
        r == Ok::<u64, NotAFlag>(1024) <==> option is NoAtime,
        r == Ok::<u64, NotAFlag>(0) <==> option is Dev || option is Suid || option is RW
            || option is Exec || option is Atime || option is Async,
        r is Err <==> option is FSName || option is Subtype || option is CUSTOM
            || option is AutoUnmount || option is DefaultPermissions,
{
}

/// A word by which `mount` knows an option is read as that option, and a name with a value as that.
pub proof fn lemma_option_is_read(s: &str, r: MountOption)
    requires
        call_ensures(MountOption::from_str, (s,), r),
    ensures
        s@ == "auto_unmount"@ <==> r is AutoUnmount,
        s@ == "default_permissions"@ <==> r is DefaultPermissions,
        s@ == "dev"@ <==> r is Dev,
        s@ == "nodev"@ <==> r is NoDev,
        s@ == "suid"@ <==> r is Suid,
        s@ == "nosuid"@ <==> r is NoSuid,
        s@ == "ro"@ <==> r is RO,
        s@ == "rw"@ <==> r is RW,
        s@ == "exec"@ <==> r is Exec,
        s@ == "noexec"@ <==> r is NoExec,
        s@ == "atime"@ <==> r is Atime,
        s@ == "noatime"@ <==> r is NoAtime,
        s@ == "dirsync"@ <==> r is DirSync,
        s@ == "sync"@ <==> r is Sync,
        s@ == "async"@ <==> r is Async,
        forall|v: Seq<char>|
            s@ == #[trigger] ("fsname="@ + v) ==> (r matches MountOption::FSName(w) && w@ == v),
        forall|v: Seq<char>|
            s@ == #[trigger] ("subtype="@ + v) ==> (r matches MountOption::Subtype(w) && w@ == v),
        r matches MountOption::CUSTOM(v) ==> v@ == s@,
{
    reveal_strlit("auto_unmount");
    reveal_strlit("default_permissions");
    reveal_strlit("dev");
    reveal_strlit("nodev");
    reveal_strlit("suid");
    reveal_strlit("nosuid");
    reveal_strlit("ro");
    reveal_strlit("rw");
    reveal_strlit("exec");
    reveal_strlit("noexec");
    reveal_strlit("atime");
    reveal_strlit("noatime");
    reveal_strlit("dirsync");
    reveal_strlit("sync");
    reveal_strlit("async");
    reveal_strlit("fsname=");
    reveal_strlit("subtype=");
    assert("auto_unmount"@.len() == 12);
    assert("default_permissions"@.len() == 19);
    assert("dev"@.len() == 3);
    assert("nodev"@.len() == 5);
    assert("suid"@.len() == 4);
    assert("nosuid"@.len() == 6);
    assert("ro"@.len() == 2);
    assert("rw"@.len() == 2);
    assert("exec"@.len() == 4);
    assert("noexec"@.len() == 6);
    assert("atime"@.len() == 5);
    assert("noatime"@.len() == 7);
    assert("dirsync"@.len() == 7);
    assert("sync"@.len() == 4);
    assert("async"@.len() == 5);
    assert("ro"@[1] == 'o' && "rw"@[1] == 'w');
    assert("suid"@[1] == 'u' && "exec"@[1] == 'x' && "sync"@[1] == 'y');
    assert("nodev"@[1] == 'o' && "atime"@[1] == 't' && "async"@[1] == 's');
    assert("nosuid"@[2] == 's' && "noexec"@[2] == 'e');
    assert("noatime"@[0] == 'n' && "dirsync"@[0] == 'd');
    assert("auto_unmount"@[0] == 'a' && "default_permissions"@[0] == 'd');
    assert forall|v: Seq<char>| s@ == #[trigger] ("fsname="@ + v) implies (r matches
        MountOption::FSName(w) && w@ == v) by {
        let t = "fsname="@ + v;
        assert(t[0] == 'f' && t[6] == '=');
        assert(t.take(7) =~= "fsname="@);
        assert(t.skip(7) =~= v);
    }
    assert forall|v: Seq<char>| s@ == #[trigger] ("subtype="@ + v) implies (r matches
        MountOption::Subtype(w) && w@ == v) by {
        let t = "subtype="@ + v;
        assert(t[0] == 's' && t[1] == 'u' && t[2] == 'b');
        assert(t.take(8) =~= "subtype="@);
        assert(t.skip(8) =~= v);
        assert(t.take(7)[0] == 's');
    }
}

/// A value may hold no zero character, and that of anything but the name of the source no comma and
/// no backslash. The character that is told is one of those.
pub proof fn lemma_value_may_hold(option: MountOption, c: char)
    ensures
        valid_value(option) <==> match option {
            MountOption::FSName(v) => !v@.contains('\0'),
            MountOption::Subtype(v) => !v@.contains('\0') && !v@.contains(',')
                && !v@.contains('\\'),
            MountOption::CUSTOM(v) => !v@.contains('\0') && !v@.contains(',') && !v@.contains('\\'),
            _ => true,
        },
        first_invalid(option, c) ==> match option {
            MountOption::FSName(v) => c == '\0' && v@.contains(c),
            MountOption::Subtype(v) => (c == '\0' || c == ',' || c == '\\') && v@.contains(c),
            MountOption::CUSTOM(v) => (c == '\0' || c == ',' || c == '\\') && v@.contains(c),
            _ => false,
        },
{
    let v = option_value(option);
    if valid_value(option) {
        assert forall|d: char| v.contains(d) implies !invalid_in(option, d) by {
            let k = choose|k: int| 0 <= k < v.len() && v[k] == d;
            assert(!invalid_in(option, option_value(option)[k]));
        }
    } else {
        let k = choose|k: int| 0 <= k < v.len() && invalid_in(option,
            #[trigger] option_value(option)[k]);
        assert(v.contains(v[k]));
    }
    if first_invalid(option, c) {
        let n = choose|n: int|
            #![trigger option_value(option)[n]]
            0 <= n < option_value(option).len() && option_value(option)[n] == c && invalid_in(
                option,
                c,
            );
        assert(v.contains(c));
    }
}

/// Only the name of the source is escaped: a comma or a backslash in it has a backslash before it.
pub proof fn lemma_option_is_escaped(option: MountOption, r: String)
    requires
        call_ensures(option_to_escaped_string, (&option,), r),
    ensures
        option matches MountOption::FSName(v) ==> r@.take(7) == "fsname="@ && (!v@.contains(',')
            && !v@.contains('\\') ==> r@ == "fsname="@ + v@),
        option matches MountOption::Subtype(v) ==> r@ == "subtype="@ + v@,
        option matches MountOption::CUSTOM(v) ==> r@ == v@,
        option is RO ==> r@ == "ro"@,
        option is RW ==> r@ == "rw"@,
{
    reveal_strlit("fsname=");
    if let MountOption::FSName(v) = option {
        assert(r@.take(7) =~= "fsname="@);
        if !v@.contains(',') && !v@.contains('\\') {
            lemma_nothing_to_escape(v@);
        }
    }
}

/// What holds neither a comma nor a backslash stays as it is.
pub proof fn lemma_nothing_to_escape(value: Seq<char>)
    requires
        !value.contains(','),
        !value.contains('\\'),
    ensures
        escaped(value) == value,
    decreases value.len(),
{
    if value.len() > 0 {
        let rest = value.skip(1);
        assert(value.contains(value[0]));
        assert forall|c: char| rest.contains(c) implies value.contains(c) by {
            let k = choose|k: int| 0 <= k < rest.len() && rest[k] == c;
            assert(value[k + 1] == c);
        }
        lemma_nothing_to_escape(rest);
        assert(escaped(value) =~= value);
    } else {
        assert(escaped(value) =~= value);
    }
}

} // verus!
