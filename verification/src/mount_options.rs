//! Mount options, access for other users among them.

use vstd::prelude::*;
use vstd::string::StringExecFns;

use crate::mnt::conflicts::{conflict_free, conflicted, conflicting_options, Conflicting};
use crate::mnt::mount_options::{
    MS_DIRSYNC, MS_NOATIME, MS_NODEV, MS_NOEXEC, MS_NOSUID, MS_RDONLY, MS_SYNCHRONOUS,
};

verus! {

/// Mount options accepted by the FUSE filesystem type
/// See 'man mount.fuse' for details
#[derive(Clone, Debug, PartialEq, Eq, Hash)]
pub enum MountOption {
    /// Set the name of the source in mtab
    FSName(String),
    /// Set the filesystem subtype in mtab
    Subtype(String),
    /// Allows passing an option which is not otherwise supported in these enums
    CUSTOM(String),
    /// Allow all users to access files on this filesystem. By default access is restricted to the
    /// user who mounted it
    AllowOther,
    /// Allow the root user to access this filesystem, in addition to the user who mounted it
    AllowRoot,
    /// Automatically unmount when the mounting process exits
    AutoUnmount,
    /// Enable permission checking in the kernel
    DefaultPermissions,
    /// Enable special character and block devices
    Dev,
    /// Disable special character and block devices
    NoDev,
    /// Honor set-user-id and set-groupd-id bits on files
    Suid,
    /// Don't honor set-user-id and set-groupd-id bits on files
    NoSuid,
    /// Read-only filesystem
    RO,
    /// Read-write filesystem
    RW,
    /// Allow execution of binaries
    Exec,
    /// Don't allow execution of binaries
    NoExec,
    /// Support inode access time
    Atime,
    /// Don't update inode access time
    NoAtime,
    /// All modifications to directories will be done synchronously
    DirSync,
    /// All I/O will be done synchronously
    Sync,
    /// All I/O will be done asynchronously
    Async,
}

/// Options were given that may not be given together.
#[derive(Clone, Debug, PartialEq, Eq)]
pub struct ConflictError {
    /// The options, each once.
    pub conflicting: Vec<MountOption>,
}

/// Checks that no two options conflict.
pub fn check_option_conflicts(options: &[MountOption]) -> (r: Result<(), ConflictError>)
    ensures
        r is Ok <==> conflict_free(options@),
        r matches Err(e) ==> {
            &&& e.conflicting@.no_duplicates()
            &&& forall|o: MountOption|
                e.conflicting@.contains(o) <==> #[trigger] conflicted(options@, o)
        },
{
    let conflicting: Vec<MountOption> = conflicting_options(options);
    if conflicting.len() == 0 {
        Ok(())
    } else {
        Err(ConflictError { conflicting })
    }
}

impl Conflicting for MountOption {
    open spec fn plain(self) -> bool {
        !(self is FSName || self is Subtype || self is CUSTOM)
    }

    open spec fn in_conflict(self, other: Self) -> bool {
        ||| self is AllowOther && other is AllowRoot
        ||| self is AllowRoot && other is AllowOther
        ||| self is Dev && other is NoDev
        ||| self is NoDev && other is Dev
        ||| self is Suid && other is NoSuid
        ||| self is NoSuid && other is Suid
        ||| self is RO && other is RW
        ||| self is RW && other is RO
        ||| self is Exec && other is NoExec
        ||| self is NoExec && other is Exec
        ||| self is Atime && other is NoAtime
        ||| self is NoAtime && other is Atime
        ||| self is Sync && other is Async
        ||| self is Async && other is Sync
    }

    proof fn lemma_conflict_is_plain(self, other: Self) {
    }

    proof fn lemma_conflict_is_mutual(self, other: Self) {
    }

    fn conflicts(&self, other: &Self) -> (r: bool) {
        match (self, other) {
            (MountOption::AllowOther, MountOption::AllowRoot) => true,
            (MountOption::AllowRoot, MountOption::AllowOther) => true,
            (MountOption::Dev, MountOption::NoDev) => true,
            (MountOption::NoDev, MountOption::Dev) => true,
            (MountOption::Suid, MountOption::NoSuid) => true,
            (MountOption::NoSuid, MountOption::Suid) => true,
            (MountOption::RO, MountOption::RW) => true,
            (MountOption::RW, MountOption::RO) => true,
            (MountOption::Exec, MountOption::NoExec) => true,
            (MountOption::NoExec, MountOption::Exec) => true,
            (MountOption::Atime, MountOption::NoAtime) => true,
            (MountOption::NoAtime, MountOption::Atime) => true,
            (MountOption::Sync, MountOption::Async) => true,
            (MountOption::Async, MountOption::Sync) => true,
            _ => false,
        }
    }

    fn same(&self, other: &Self) -> (r: bool) {
        match (self, other) {
            (MountOption::AllowOther, MountOption::AllowOther) => true,
            (MountOption::AllowRoot, MountOption::AllowRoot) => true,
            (MountOption::AutoUnmount, MountOption::AutoUnmount) => true,
            (MountOption::DefaultPermissions, MountOption::DefaultPermissions) => true,
            (MountOption::Dev, MountOption::Dev) => true,
            (MountOption::NoDev, MountOption::NoDev) => true,
            (MountOption::Suid, MountOption::Suid) => true,
            (MountOption::NoSuid, MountOption::NoSuid) => true,
            (MountOption::RO, MountOption::RO) => true,
            (MountOption::RW, MountOption::RW) => true,
            (MountOption::Exec, MountOption::Exec) => true,
            (MountOption::NoExec, MountOption::NoExec) => true,
            (MountOption::Atime, MountOption::Atime) => true,
            (MountOption::NoAtime, MountOption::NoAtime) => true,
            (MountOption::DirSync, MountOption::DirSync) => true,
            (MountOption::Sync, MountOption::Sync) => true,
            (MountOption::Async, MountOption::Async) => true,
            _ => false,
        }
    }

    fn again(&self) -> (r: Self) {
        match self {
            MountOption::FSName(v) => MountOption::FSName(v.clone()),
            MountOption::Subtype(v) => MountOption::Subtype(v.clone()),
            MountOption::CUSTOM(v) => MountOption::CUSTOM(v.clone()),
            MountOption::AllowOther => MountOption::AllowOther,
            MountOption::AllowRoot => MountOption::AllowRoot,
            MountOption::AutoUnmount => MountOption::AutoUnmount,
            MountOption::DefaultPermissions => MountOption::DefaultPermissions,
            MountOption::Dev => MountOption::Dev,
            MountOption::NoDev => MountOption::NoDev,
            MountOption::Suid => MountOption::Suid,
            MountOption::NoSuid => MountOption::NoSuid,
            MountOption::RO => MountOption::RO,
            MountOption::RW => MountOption::RW,
            MountOption::Exec => MountOption::Exec,
            MountOption::NoExec => MountOption::NoExec,
            MountOption::Atime => MountOption::Atime,
            MountOption::NoAtime => MountOption::NoAtime,
            MountOption::DirSync => MountOption::DirSync,
            MountOption::Sync => MountOption::Sync,
            MountOption::Async => MountOption::Async,
        }
    }
}

/// The options that may not be given with `option`.
pub open spec fn conflict_list(option: MountOption) -> Seq<MountOption> {
    match option {
        MountOption::AllowOther => seq![MountOption::AllowRoot],
        MountOption::AllowRoot => seq![MountOption::AllowOther],
        MountOption::Dev => seq![MountOption::NoDev],
        MountOption::NoDev => seq![MountOption::Dev],
        MountOption::Suid => seq![MountOption::NoSuid],
        MountOption::NoSuid => seq![MountOption::Suid],
        MountOption::RO => seq![MountOption::RW],
        MountOption::RW => seq![MountOption::RO],
        MountOption::Exec => seq![MountOption::NoExec],
        MountOption::NoExec => seq![MountOption::Exec],
        MountOption::Atime => seq![MountOption::NoAtime],
        MountOption::NoAtime => seq![MountOption::Atime],
        MountOption::Sync => seq![MountOption::Async],
        MountOption::Async => seq![MountOption::Sync],
        _ => Seq::empty(),
    }
}

/// The options that may not be given with `option`.
pub fn conflicts_with(option: &MountOption) -> (r: Vec<MountOption>)
    ensures
        r@ == conflict_list(*option),
        forall|other: MountOption| r@.contains(other) <==> option.in_conflict(other),
{
    let r = match option {
        MountOption::FSName(_) => vec![],
        MountOption::Subtype(_) => vec![],
        MountOption::CUSTOM(_) => vec![],
        MountOption::AllowOther => vec![MountOption::AllowRoot],
        MountOption::AllowRoot => vec![MountOption::AllowOther],
        MountOption::AutoUnmount => vec![],
        MountOption::DefaultPermissions => vec![],
        MountOption::Dev => vec![MountOption::NoDev],
        MountOption::NoDev => vec![MountOption::Dev],
        MountOption::Suid => vec![MountOption::NoSuid],
        MountOption::NoSuid => vec![MountOption::Suid],
        MountOption::RO => vec![MountOption::RW],
        MountOption::RW => vec![MountOption::RO],
        MountOption::Exec => vec![MountOption::NoExec],
        MountOption::NoExec => vec![MountOption::Exec],
        MountOption::Atime => vec![MountOption::NoAtime],
        MountOption::NoAtime => vec![MountOption::Atime],
        MountOption::DirSync => vec![],
        MountOption::Sync => vec![MountOption::Async],
        MountOption::Async => vec![MountOption::Sync],
    };
    assert(r@ =~= conflict_list(*option));
    proof {
        assert forall|other: MountOption| option.in_conflict(other) implies r@.contains(other) by {
            assert(r@[0] == other);
        }
    }
    r
}

/// Two options that may not be given together may not whichever is looked at, no option conflicts
/// with itself, and each conflicts with at most one other.
pub proof fn lemma_conflicts_are_mutual(a: MountOption, b: MountOption)
    ensures
        conflict_list(a).contains(b) <==> conflict_list(b).contains(a),
        !conflict_list(a).contains(a),
        conflict_list(a).no_duplicates(),
        conflict_list(a).len() <= 1,
{
    if a.in_conflict(b) {
        assert(conflict_list(a)[0] == b);
        assert(conflict_list(b)[0] == a);
    }
}

/// What an option is to whom it is handed.
#[derive(Clone, Copy, Debug, PartialEq, Eq, Structural)]
pub enum MountOptionGroup {
    /// It stands in the option list of the kernel.
    KernelOption,
    /// It is a flag of the system call.
    KernelFlag,
    /// Only a mount helper knows it.
    Fusermount,
}

/// The group of an option.
pub open spec fn spec_option_group(option: MountOption) -> MountOptionGroup {
    match option {
        MountOption::FSName(_) => MountOptionGroup::Fusermount,
        MountOption::Subtype(_) => MountOptionGroup::Fusermount,
        MountOption::CUSTOM(_) => MountOptionGroup::KernelOption,
        MountOption::AllowOther => MountOptionGroup::KernelOption,
        MountOption::AllowRoot => MountOptionGroup::KernelOption,
        MountOption::AutoUnmount => MountOptionGroup::Fusermount,
        MountOption::DefaultPermissions => MountOptionGroup::KernelOption,
        MountOption::Dev => MountOptionGroup::KernelFlag,
        MountOption::NoDev => MountOptionGroup::KernelFlag,
        MountOption::Suid => MountOptionGroup::KernelFlag,
        MountOption::NoSuid => MountOptionGroup::KernelFlag,
        MountOption::RO => MountOptionGroup::KernelFlag,
        MountOption::RW => MountOptionGroup::KernelFlag,
        MountOption::Exec => MountOptionGroup::KernelFlag,
        MountOption::NoExec => MountOptionGroup::KernelFlag,
        MountOption::Atime => MountOptionGroup::KernelFlag,
        MountOption::NoAtime => MountOptionGroup::KernelFlag,
        MountOption::DirSync => MountOptionGroup::KernelFlag,
        MountOption::Sync => MountOptionGroup::KernelFlag,
        MountOption::Async => MountOptionGroup::KernelFlag,
    }
}

/// The group of an option.
pub fn option_group(option: &MountOption) -> (r: MountOptionGroup)
    ensures
        r == spec_option_group(*option),
{
    match option {
        MountOption::FSName(_) => MountOptionGroup::Fusermount,
        MountOption::Subtype(_) => MountOptionGroup::Fusermount,
        MountOption::CUSTOM(_) => MountOptionGroup::KernelOption,
        MountOption::AllowOther => MountOptionGroup::KernelOption,
        MountOption::AllowRoot => MountOptionGroup::KernelOption,
        MountOption::AutoUnmount => MountOptionGroup::Fusermount,
        MountOption::DefaultPermissions => MountOptionGroup::KernelOption,
        MountOption::Dev => MountOptionGroup::KernelFlag,
        MountOption::NoDev => MountOptionGroup::KernelFlag,
        MountOption::Suid => MountOptionGroup::KernelFlag,
        MountOption::NoSuid => MountOptionGroup::KernelFlag,
        MountOption::RO => MountOptionGroup::KernelFlag,
        MountOption::RW => MountOptionGroup::KernelFlag,
        MountOption::Exec => MountOptionGroup::KernelFlag,
        MountOption::NoExec => MountOptionGroup::KernelFlag,
        MountOption::Atime => MountOptionGroup::KernelFlag,
        MountOption::NoAtime => MountOptionGroup::KernelFlag,
        MountOption::DirSync => MountOptionGroup::KernelFlag,
        MountOption::Sync => MountOptionGroup::KernelFlag,
        MountOption::Async => MountOptionGroup::KernelFlag,
    }
}

/// An option as it stands in an option list.
pub open spec fn option_text(option: MountOption) -> Seq<char> {
    match option {
        MountOption::FSName(name) => "fsname="@ + name@,
        MountOption::Subtype(subtype) => "subtype="@ + subtype@,
        MountOption::CUSTOM(value) => value@,
        MountOption::AllowOther => "allow_other"@,
        MountOption::AllowRoot => "allow_root"@,
        MountOption::AutoUnmount => "auto_unmount"@,
        MountOption::DefaultPermissions => "default_permissions"@,
        MountOption::Dev => "dev"@,
        MountOption::NoDev => "nodev"@,
        MountOption::Suid => "suid"@,
        MountOption::NoSuid => "nosuid"@,
        MountOption::RO => "ro"@,
        MountOption::RW => "rw"@,
        MountOption::Exec => "exec"@,
        MountOption::NoExec => "noexec"@,
        MountOption::Atime => "atime"@,
        MountOption::NoAtime => "noatime"@,
        MountOption::DirSync => "dirsync"@,
        MountOption::Sync => "sync"@,
        MountOption::Async => "async"@,
    }
}

/// Formats an option to be passed to libfuse or the kernel.
pub fn option_to_string(option: &MountOption) -> (r: String)
    ensures
        r@ == option_text(*option),
{
    match option {
        MountOption::FSName(name) => String::from_str("fsname=").concat(name.as_str()),
        MountOption::Subtype(subtype) => String::from_str("subtype=").concat(subtype.as_str()),
        MountOption::CUSTOM(value) => value.clone(),
        MountOption::AllowOther => String::from_str("allow_other"),
        MountOption::AllowRoot => String::from_str("allow_root"),
        MountOption::AutoUnmount => String::from_str("auto_unmount"),
        MountOption::DefaultPermissions => String::from_str("default_permissions"),
        MountOption::Dev => String::from_str("dev"),
        MountOption::NoDev => String::from_str("nodev"),
        MountOption::Suid => String::from_str("suid"),
        MountOption::NoSuid => String::from_str("nosuid"),
        MountOption::RO => String::from_str("ro"),
        MountOption::RW => String::from_str("rw"),
        MountOption::Exec => String::from_str("exec"),
        MountOption::NoExec => String::from_str("noexec"),
        MountOption::Atime => String::from_str("atime"),
        MountOption::NoAtime => String::from_str("noatime"),
        MountOption::DirSync => String::from_str("dirsync"),
        MountOption::Sync => String::from_str("sync"),
        MountOption::Async => String::from_str("async"),
    }
}

/// The flag of the system call that stands for an option. What is the default has none.
pub open spec fn option_flag(option: MountOption) -> u64 {
    match option {
        MountOption::NoDev => MS_NODEV,
        MountOption::NoSuid => MS_NOSUID,
        MountOption::RO => MS_RDONLY,
        MountOption::NoExec => MS_NOEXEC,
        MountOption::NoAtime => MS_NOATIME,
        MountOption::Sync => MS_SYNCHRONOUS,
        MountOption::DirSync => MS_DIRSYNC,
        _ => 0,
    }
}

/// The flag of the system call that stands for an option that is a flag.
pub fn option_to_flag(option: &MountOption) -> (r: u64)
    requires
        spec_option_group(*option) is KernelFlag,
    ensures
        r == option_flag(*option),
{
    match option {
        MountOption::NoDev => MS_NODEV,
        MountOption::NoSuid => MS_NOSUID,
        MountOption::RO => MS_RDONLY,
        MountOption::NoExec => MS_NOEXEC,
        MountOption::NoAtime => MS_NOATIME,
        MountOption::Sync => MS_SYNCHRONOUS,
        MountOption::DirSync => MS_DIRSYNC,
        // There is no flag for the defaults: each is the absence of another
        _ => 0,
    }
}

/// What is switched on and what is switched off may not be given together, in any order and among
/// whatever else, and nothing else conflicts. Both options are told.
#[verifier::rlimit(40)]
pub proof fn lemma_opposites_conflict(given: &[MountOption], r: Result<(), ConflictError>)
    requires
        call_ensures(check_option_conflicts, (given,), r),
    ensures
        ({
            let o = given@;
            &&& o.contains(MountOption::Dev) && o.contains(MountOption::NoDev) ==> {
                &&& r matches Err(e)
                &&& e.conflicting@.contains(MountOption::Dev)
                &&& e.conflicting@.contains(MountOption::NoDev)
            }
            &&& o.contains(MountOption::Suid) && o.contains(MountOption::NoSuid) ==> {
                &&& r matches Err(e)
                &&& e.conflicting@.contains(MountOption::Suid)
                &&& e.conflicting@.contains(MountOption::NoSuid)
            }
            &&& o.contains(MountOption::RO) && o.contains(MountOption::RW) ==> {
                &&& r matches Err(e)
                &&& e.conflicting@.contains(MountOption::RO)
                &&& e.conflicting@.contains(MountOption::RW)
            }
            &&& o.contains(MountOption::Exec) && o.contains(MountOption::NoExec) ==> {
                &&& r matches Err(e)
                &&& e.conflicting@.contains(MountOption::Exec)
                &&& e.conflicting@.contains(MountOption::NoExec)
            }
            &&& o.contains(MountOption::Atime) && o.contains(MountOption::NoAtime) ==> {
                &&& r matches Err(e)
                &&& e.conflicting@.contains(MountOption::Atime)
                &&& e.conflicting@.contains(MountOption::NoAtime)
            }
            &&& o.contains(MountOption::Sync) && o.contains(MountOption::Async) ==> {
                &&& r matches Err(e)
                &&& e.conflicting@.contains(MountOption::Sync)
                &&& e.conflicting@.contains(MountOption::Async)
            }
            &&& o.contains(MountOption::AllowOther) && o.contains(MountOption::AllowRoot) ==> {
                &&& r matches Err(e)
                &&& e.conflicting@.contains(MountOption::AllowOther)
                &&& e.conflicting@.contains(MountOption::AllowRoot)
            }
            &&& r is Ok <==> {
                &&& !(o.contains(MountOption::Dev) && o.contains(MountOption::NoDev))
                &&& !(o.contains(MountOption::Suid) && o.contains(MountOption::NoSuid))
                &&& !(o.contains(MountOption::RO) && o.contains(MountOption::RW))
                &&& !(o.contains(MountOption::Exec) && o.contains(MountOption::NoExec))
                &&& !(o.contains(MountOption::Atime) && o.contains(MountOption::NoAtime))
                &&& !(o.contains(MountOption::Sync) && o.contains(MountOption::Async))
                &&& !(o.contains(MountOption::AllowOther) && o.contains(MountOption::AllowRoot))
            }
        }),
{
    let options = given@;
    if options.contains(MountOption::Dev) && options.contains(MountOption::NoDev) {
        let i = choose|i: int| 0 <= i < options.len() && options[i] == MountOption::Dev;
        let j = choose|j: int| 0 <= j < options.len() && options[j] == MountOption::NoDev;
        assert(options[i].in_conflict(options[j]) && options[j].in_conflict(options[i]));
        assert(conflicted(options, MountOption::Dev));
        assert(conflicted(options, MountOption::NoDev));
    }
    if options.contains(MountOption::Suid) && options.contains(MountOption::NoSuid) {
        let i = choose|i: int| 0 <= i < options.len() && options[i] == MountOption::Suid;
        let j = choose|j: int| 0 <= j < options.len() && options[j] == MountOption::NoSuid;
        assert(options[i].in_conflict(options[j]) && options[j].in_conflict(options[i]));
        assert(conflicted(options, MountOption::Suid));
        assert(conflicted(options, MountOption::NoSuid));
    }
    if options.contains(MountOption::RO) && options.contains(MountOption::RW) {
        let i = choose|i: int| 0 <= i < options.len() && options[i] == MountOption::RO;
        let j = choose|j: int| 0 <= j < options.len() && options[j] == MountOption::RW;
        assert(options[i].in_conflict(options[j]) && options[j].in_conflict(options[i]));
        assert(conflicted(options, MountOption::RO));
        assert(conflicted(options, MountOption::RW));
    }
    if options.contains(MountOption::Exec) && options.contains(MountOption::NoExec) {
        let i = choose|i: int| 0 <= i < options.len() && options[i] == MountOption::Exec;
        let j = choose|j: int| 0 <= j < options.len() && options[j] == MountOption::NoExec;
        assert(options[i].in_conflict(options[j]) && options[j].in_conflict(options[i]));
        assert(conflicted(options, MountOption::Exec));
        assert(conflicted(options, MountOption::NoExec));
    }
    if options.contains(MountOption::Atime) && options.contains(MountOption::NoAtime) {
        let i = choose|i: int| 0 <= i < options.len() && options[i] == MountOption::Atime;
        let j = choose|j: int| 0 <= j < options.len() && options[j] == MountOption::NoAtime;
        assert(options[i].in_conflict(options[j]) && options[j].in_conflict(options[i]));
        assert(conflicted(options, MountOption::Atime));
        assert(conflicted(options, MountOption::NoAtime));
    }
    if options.contains(MountOption::Sync) && options.contains(MountOption::Async) {
        let i = choose|i: int| 0 <= i < options.len() && options[i] == MountOption::Sync;
        let j = choose|j: int| 0 <= j < options.len() && options[j] == MountOption::Async;
        assert(options[i].in_conflict(options[j]) && options[j].in_conflict(options[i]));
        assert(conflicted(options, MountOption::Sync));
        assert(conflicted(options, MountOption::Async));
    }
    if options.contains(MountOption::AllowOther) && options.contains(MountOption::AllowRoot) {
        let i = choose|i: int| 0 <= i < options.len() && options[i] == MountOption::AllowOther;
        let j = choose|j: int| 0 <= j < options.len() && options[j] == MountOption::AllowRoot;
        assert(options[i].in_conflict(options[j]) && options[j].in_conflict(options[i]));
        assert(conflicted(options, MountOption::AllowOther));
        assert(conflicted(options, MountOption::AllowRoot));
    }
    if {
        &&& !(options.contains(MountOption::Dev) && options.contains(MountOption::NoDev))
        &&& !(options.contains(MountOption::Suid) && options.contains(MountOption::NoSuid))
        &&& !(options.contains(MountOption::RO) && options.contains(MountOption::RW))
        &&& !(options.contains(MountOption::Exec) && options.contains(MountOption::NoExec))
        &&& !(options.contains(MountOption::Atime) && options.contains(MountOption::NoAtime))
        &&& !(options.contains(MountOption::Sync) && options.contains(MountOption::Async))
        &&& !(options.contains(MountOption::AllowOther) && options.contains(MountOption::AllowRoot))
    } {
        assert forall|i: int, j: int| 0 <= i < options.len() && 0 <= j < options.len() implies !(
        #[trigger] options[j]).in_conflict(#[trigger] options[i]) by {
            assert(options.contains(options[i]) && options.contains(options[j]));
        }
    }
}

/// An option is written as the word by which `mount` knows it, and a value behind its name.
pub proof fn lemma_option_is_written(option: MountOption, r: String)
    requires
        call_ensures(option_to_string, (&option,), r),
    ensures
        option is AutoUnmount ==> r@ == "auto_unmount"@,
        option is DefaultPermissions ==> r@ == "default_permissions"@,
        option is Dev ==> r@ == "dev"@,
        option is NoDev ==> r@ == "nodev"@,
        option is Suid ==> r@ == "suid"@,
        option is NoSuid ==> r@ == "nosuid"@,
        option is RO ==> r@ == "ro"@,
        option is RW ==> r@ == "rw"@,
        option is Exec ==> r@ == "exec"@,
        option is NoExec ==> r@ == "noexec"@,
        option is Atime ==> r@ == "atime"@,
        option is NoAtime ==> r@ == "noatime"@,
        option is DirSync ==> r@ == "dirsync"@,
        option is Sync ==> r@ == "sync"@,
        option is Async ==> r@ == "async"@,
        option is AllowOther ==> r@ == "allow_other"@,
        option is AllowRoot ==> r@ == "allow_root"@,
        option matches MountOption::FSName(v) ==> r@ == "fsname="@ + v@,
        option matches MountOption::Subtype(v) ==> r@ == "subtype="@ + v@,
        option matches MountOption::CUSTOM(v) ==> r@ == v@,
{
}

/// What can be switched is a flag of the system call, what names the mount or outlives the process
/// is for a mount helper, and the kernel reads the rest.
pub proof fn lemma_option_is_for(option: MountOption, r: MountOptionGroup)
    requires
        call_ensures(option_group, (&option,), r),
    ensures
        r is Fusermount <==> option is FSName || option is Subtype || option is AutoUnmount,
        r is KernelOption <==> option is CUSTOM || option is DefaultPermissions
            || option is AllowOther
            || option is AllowRoot,
        r is KernelFlag <==> option is Dev || option is NoDev || option is Suid || option is NoSuid
            || option is RO || option is RW || option is Exec || option is NoExec || option is Atime
            || option is NoAtime || option is DirSync || option is Sync || option is Async,
{
}

/// The flag of an option is the number by which `mount` knows it; what is the default has none.
pub proof fn lemma_option_flag_number(option: MountOption, r: u64)
    requires
        call_ensures(option_to_flag, (&option,), r),
    ensures
        r == 1 <==> option is RO,
        r == 2 <==> option is NoSuid,
        r == 4 <==> option is NoDev,
        r == 8 <==> option is NoExec,
        r == 16 <==> option is Sync,
        r == 128 <==> option is DirSync,
        r == 1024 <==> option is NoAtime,
        r == 0 <==> !(option is RO || option is NoSuid || option is NoDev || option is NoExec
            || option is Sync || option is DirSync || option is NoAtime),
{
}

} // verus!
