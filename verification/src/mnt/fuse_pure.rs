//! Mounting by the system call where that is allowed, and else by a mount helper.

use vstd::prelude::*;
use vstd::string::{StrSliceExecFns, StringExecFns};

use crate::ids::Errno;
use crate::kernel_config::SessionACL;
use crate::mnt::fuse_direct::{MountCall, MountCallView};
use crate::mnt::mount_options::MountOption;
use crate::mnt::option_list::{
    comma_joined, escaped_strings, escaped_texts, join, plain_strings, plain_texts, texts_of,
};
use crate::mnt::system_mount::{
    contains_auto_unmount, default_flags, dev_fuse_path, find_first_fsname, find_first_subtype,
    first_fsname, first_subtype, has_auto_unmount, mount_flags, option_flags, text_of,
    trailing_options, trailing_string, MountIds,
};
use crate::text::{decimal, same_text, to_signed_decimal};

verus! {

/// The options of the system call: those of the mount itself, those that the kernel reads, and the
/// access option.
pub open spec fn sys_options(options: Seq<MountOption>, acl: SessionACL, ids: MountIds) -> Seq<
    char,
> {
    let own = ids.full_text() + trailing_options(options);
    match acl.spec_mount_option() {
        Some(s) => own + seq![','] + s,
        None => own,
    }
}

/// The source of the system call: the first name that is given, or else the first subtype, or else
/// the device.
pub open spec fn sys_source(options: Seq<MountOption>) -> Seq<char> {
    match first_fsname(options) {
        Some(name) => name,
        None => match first_subtype(options) {
            Some(subtype) => subtype,
            None => dev_fuse_path(),
        },
    }
}

/// The arguments of the system call. The descriptor must not be one of standard input and output.
pub fn fuse_mount_sys(options: &[MountOption], acl: SessionACL, ids: MountIds) -> (r: MountCall)
    requires
        ids.fd > 2,
    ensures
        r@ == (MountCallView {
            source: sys_source(options@),
            fstype: "fuse"@,
            flags: default_flags(options@, true) | option_flags(options@),
            options: sys_options(options@, acl, ids),
        }),
{
    let mut text: String = ids.full_string().concat(trailing_string(options).as_str());
    if let Some(acl_option) = acl.to_mount_option() {
        text.push(',');
        text.append(acl_option);
    }
    assert(text@ =~= sys_options(options@, acl, ids));
    // Default name is "/dev/fuse", then use the subtype, and lastly prefer the name
    let source: String = match find_first_fsname(options) {
        Some(name) => name,
        None => match find_first_subtype(options) {
            Some(subtype) => subtype,
            None => String::from_str("/dev/fuse"),
        },
    };
    MountCall {
        source,
        fstype: String::from_str("fuse"),
        flags: mount_flags(options, true),
        options: text,
    }
}

/// What follows from the result of the system call.
#[derive(Clone, Copy, Debug, PartialEq, Eq, Structural)]
pub enum AfterSysMount {
    /// The filesystem is mounted.
    Mounted,
    /// The system call is not allowed: a mount helper is to be tried.
    TryHelper,
    /// The mount failed.
    Failed(i32),
}

/// What follows from the result of the system call.
pub fn after_sys_mount(result: Result<(), i32>) -> (r: AfterSysMount)
    ensures
        r == (match result {
            Ok(_) => AfterSysMount::Mounted,
            Err(e) => if e == Errno::EPERM {
                AfterSysMount::TryHelper
            } else {
                AfterSysMount::Failed(e)
            },
        }),
{
    match result {
        Ok(_) => AfterSysMount::Mounted,
        Err(e) => if e == Errno::EPERM {
            AfterSysMount::TryHelper
        } else {
            AfterSysMount::Failed(e)
        },
    }
}

/// What mounting does next.
#[derive(Clone, Copy, Debug, PartialEq, Eq, Structural)]
pub enum MountStep {
    /// Look for a mount helper.
    FindHelper,
    /// Start a process that unmounts when this one is gone.
    StartWatcher,
    /// Make the system call.
    SysMount,
    /// Run the mount helper that was found.
    RunHelper,
    /// The filesystem is mounted.
    Done,
    /// The mount failed: with the error of the last step, or where `no_helper` is set because there
    /// is no mount helper, and without one the system call is not allowed.
    Failed {
        no_helper: bool,
    },
}

/// What a step came to.
#[derive(Clone, Copy, Debug, PartialEq, Eq, Structural)]
pub enum StepResult {
    Succeeded,
    /// The system call is not allowed.
    NotAllowed,
    Failed,
}

/// How far mounting has come.
#[derive(Clone, Copy, Debug, PartialEq, Eq, Structural)]
pub struct MountState {
    /// Whether the filesystem is to be unmounted when this process is gone.
    pub auto_unmount: bool,
    /// What mounting does next.
    pub step: MountStep,
}

impl MountState {
    /// How mounting begins: what outlives this process is looked for first where it is needed.
    pub open spec fn spec_start(options: Seq<MountOption>) -> MountState {
        if has_auto_unmount(options) {
            MountState { auto_unmount: true, step: MountStep::FindHelper }
        } else {
            MountState { auto_unmount: false, step: MountStep::SysMount }
        }
    }

    /// How mounting begins.
    pub fn start(options: &[MountOption]) -> (r: MountState)
        ensures
            r == MountState::spec_start(options@),
    {
        if contains_auto_unmount(options) {
            MountState { auto_unmount: true, step: MountStep::FindHelper }
        } else {
            MountState { auto_unmount: false, step: MountStep::SysMount }
        }
    }

    /// How mounting goes on. With automatic unmount, a helper that is found is run, and without
    /// one a watcher is started before the device is opened. Without it, a helper is looked for
    /// when the system call is not allowed.
    pub open spec fn spec_next(self, result: StepResult) -> MountStep {
        match (self.step, result) {
            (MountStep::FindHelper, StepResult::Succeeded) => MountStep::RunHelper,
            (MountStep::FindHelper, _) => if self.auto_unmount {
                MountStep::StartWatcher
            } else {
                MountStep::Failed { no_helper: false }
            },
            (MountStep::StartWatcher, StepResult::Succeeded) => MountStep::SysMount,
            (MountStep::StartWatcher, _) => MountStep::Failed { no_helper: false },
            (MountStep::SysMount, StepResult::Succeeded) => MountStep::Done,
            (MountStep::SysMount, StepResult::NotAllowed) => if self.auto_unmount {
                MountStep::Failed { no_helper: true }
            } else {
                MountStep::FindHelper
            },
            (MountStep::SysMount, StepResult::Failed) => MountStep::Failed { no_helper: false },
            (MountStep::RunHelper, StepResult::Succeeded) => MountStep::Done,
            (MountStep::RunHelper, _) => MountStep::Failed { no_helper: false },
            (MountStep::Done, _) => MountStep::Done,
            (MountStep::Failed { no_helper }, _) => MountStep::Failed { no_helper },
        }
    }

    /// How mounting goes on.
    pub fn next(self, result: StepResult) -> (r: MountState)
        ensures
            r == (MountState { step: self.spec_next(result), ..self }),
    {
        let step = match (self.step, result) {
            (MountStep::FindHelper, StepResult::Succeeded) => MountStep::RunHelper,
            (MountStep::FindHelper, _) => if self.auto_unmount {
                MountStep::StartWatcher
            } else {
                MountStep::Failed { no_helper: false }
            },
            (MountStep::StartWatcher, StepResult::Succeeded) => MountStep::SysMount,
            (MountStep::StartWatcher, _) => MountStep::Failed { no_helper: false },
            (MountStep::SysMount, StepResult::Succeeded) => MountStep::Done,
            (MountStep::SysMount, StepResult::NotAllowed) => if self.auto_unmount {
                MountStep::Failed { no_helper: true }
            } else {
                MountStep::FindHelper
            },
            (MountStep::SysMount, StepResult::Failed) => MountStep::Failed { no_helper: false },
            (MountStep::RunHelper, StepResult::Succeeded) => MountStep::Done,
            (MountStep::RunHelper, _) => MountStep::Failed { no_helper: false },
            (MountStep::Done, _) => MountStep::Done,
            (MountStep::Failed { no_helper }, _) => MountStep::Failed { no_helper },
        };
        MountState { auto_unmount: self.auto_unmount, step }
    }

    /// How many steps there can still be.
    pub open spec fn steps_left(self) -> nat {
        match (self.step, self.auto_unmount) {
            (MountStep::FindHelper, true) => 4,
            (MountStep::StartWatcher, true) => 3,
            (MountStep::SysMount, true) => 2,
            (MountStep::SysMount, false) => 4,
            (MountStep::StartWatcher, false) => 5,
            (MountStep::FindHelper, false) => 3,
            (MountStep::RunHelper, _) => 1,
            _ => 0,
        }
    }
}

/// Mounting ends: each step leaves fewer, until it is done or has failed.
pub proof fn lemma_mounting_ends(state: MountState, result: StepResult)
    requires
        !(state.step is Done),
        !(state.step is Failed),
    ensures
        (MountState { step: state.spec_next(result), ..state }).steps_left() < state.steps_left(),
{
}

/// With automatic unmount the system call is only made when a watcher was started before it.
pub proof fn lemma_watched_before_mounted(state: MountState, result: StepResult)
    requires
        state.auto_unmount,
        state.spec_next(result) is SysMount,
    ensures
        state.step is StartWatcher && result is Succeeded,
{
}

/// Whether `s` ends with `suffix`.
pub open spec fn ends_with(s: Seq<char>, suffix: Seq<char>) -> bool {
    suffix.len() <= s.len() && s.skip(s.len() - suffix.len()) == suffix
}

/// Whether a helper is the one that takes the descriptor of the device as an argument.
pub fn is_mount_fusefs(bin: &str) -> (r: bool)
    ensures
        r == ends_with(bin@, "mount_fusefs"@),
{
    let suffix: &str = "mount_fusefs";
    let n: usize = suffix.unicode_len();
    let len: usize = bin.unicode_len();
    if len < n {
        return false;
    }
    let tail: &str = bin.substring_char(len - n, len);
    assert(tail@ =~= bin@.skip(len - n));
    same_text(tail, suffix)
}

/// The arguments of a mount helper before the mountpoint.
pub open spec fn helper_args(options: Seq<MountOption>, acl: SessionACL) -> Seq<Seq<char>> {
    let texts = escaped_texts(options, acl);
    if texts.len() > 0 {
        seq!["-o"@, comma_joined(texts), "--"@]
    } else {
        seq!["--"@]
    }
}

/// The arguments of a mount helper before the mountpoint: the options, where there are any, with
/// commas and backslashes in their values escaped.
pub fn fuse_mount_fusermount(options: &[MountOption], acl: SessionACL) -> (r: Vec<String>)
    ensures
        texts_of(r@) == helper_args(options@, acl),
{
    let list: Vec<String> = escaped_strings(options, acl);
    assert(list@.len() == texts_of(list@).len());
    let mut args: Vec<String> = Vec::new();
    if list.len() > 0 {
        args.push(String::from_str("-o"));
        args.push(join(&list));
    }
    args.push(String::from_str("--"));
    assert(texts_of(args@) =~= helper_args(options@, acl));
    args
}

/// The arguments of `mount_fusefs` before the mountpoint.
pub open spec fn fusefs_args(options: Seq<MountOption>, acl: SessionACL, fd: i32) -> Seq<
    Seq<char>,
> {
    let texts = plain_texts(options, acl);
    if texts.len() > 0 {
        seq!["-o"@, comma_joined(texts), decimal(fd as int)]
    } else {
        seq![decimal(fd as int)]
    }
}

/// The arguments of `mount_fusefs` before the mountpoint. It decodes no escapes, so none are made.
pub fn fuse_mount_mount_fusefs(options: &[MountOption], acl: SessionACL, fd: i32) -> (r: Vec<
    String,
>)
    ensures
        texts_of(r@) == fusefs_args(options@, acl, fd),
{
    let list: Vec<String> = plain_strings(options, acl);
    assert(list@.len() == texts_of(list@).len());
    let mut args: Vec<String> = Vec::new();
    if list.len() > 0 {
        args.push(String::from_str("-o"));
        args.push(join(&list));
    }
    args.push(to_signed_decimal(fd as i64));
    assert(texts_of(args@) =~= fusefs_args(options@, acl, fd));
    args
}

/// Whether `part` occurs in `s` at position `i`.
pub open spec fn occurs_at(s: Seq<char>, part: Seq<char>, i: int) -> bool {
    0 <= i && i + part.len() <= s.len() && s.subrange(i, i + part.len()) == part
}

/// Whether `part` occurs in `s`.
pub fn contains_text(s: &str, part: &str) -> (r: bool)
    ensures
        r == exists|i: int| occurs_at(s@, part@, i),
{
    let n: usize = part.unicode_len();
    let len: usize = s.unicode_len();
    if len < n {
        return false;
    }
    let mut i: usize = 0;
    while i <= len - n
        invariant
            n <= len,
            n == part@.len(),
            len == s@.len(),
            i <= len - n + 1,
            forall|k: int| 0 <= k < i ==> !occurs_at(s@, part@, k),
        decreases len - n + 1 - i,
    {
        let here: &str = s.substring_char(i, i + n);
        if same_text(here, part) {
            assert(occurs_at(s@, part@, i as int));
            return true;
        }
        if i == len - n {
            assert forall|k: int| !occurs_at(s@, part@, k) by {
                if occurs_at(s@, part@, k) {
                    assert(0 <= k <= i);
                }
            }
            return false;
        }
        i += 1;
    }
    false
}

/// The kind of error that a mount helper that failed stands for.
#[derive(Clone, Copy, Debug, PartialEq, Eq, Structural)]
pub enum HelperError {
    /// Access for other users is not allowed here.
    PermissionDenied,
    /// Anything else.
    Other,
}

/// Whether `part` stands somewhere in `s`.
pub open spec fn occurs(s: Seq<char>, part: Seq<char>) -> bool {
    exists|i: int| occurs_at(s, part, i)
}

/// The kind of error that the complaints of a mount helper stand for.
pub fn helper_error(stderr: &str) -> (r: HelperError)
    ensures
        (r is PermissionDenied) == exists|i: int|
            occurs_at(stderr@, "only allowed if 'user_allow_other' is set"@, i),
        (r is PermissionDenied) == occurs(stderr@, "only allowed if 'user_allow_other' is set"@),
{
    if contains_text(stderr, "only allowed if 'user_allow_other' is set") {
        HelperError::PermissionDenied
    } else {
        HelperError::Other
    }
}

/// A control message of a mount helper.
#[derive(Clone, Debug, PartialEq, Eq)]
pub enum ControlMessage {
    /// Descriptors that are handed over.
    Rights(Vec<i32>),
    /// Anything else.
    Other,
}

/// Why no descriptor was received.
#[derive(Clone, Copy, Debug, PartialEq, Eq, Structural)]
pub enum ReceiveError {
    /// The helper has closed the socket.
    UnexpectedEof,
    /// The descriptor is none.
    BadDescriptor,
    /// The control message at this position is not known.
    UnknownMessage(usize),
    /// No descriptor was handed over.
    NoDescriptor,
}

impl ReceiveError {
    /// What is said of the error, where it has a text of its own.
    pub fn text(&self) -> (r: Option<String>)
        ensures
            text_of(r) == (match self {
                ReceiveError::UnexpectedEof => Some("Unexpected EOF reading from fusermount"@),
                ReceiveError::NoDescriptor => Some(
                    "No SCM_RIGHTS message received from fusermount"@,
                ),
                _ => None,
            }),
    {
        match self {
            ReceiveError::UnexpectedEof => Some(
                String::from_str("Unexpected EOF reading from fusermount"),
            ),
            ReceiveError::NoDescriptor => Some(
                String::from_str("No SCM_RIGHTS message received from fusermount"),
            ),
            _ => None,
        }
    }
}

/// Whether a control message is passed over: descriptors are handed over, but none.
pub open spec fn passed_over(message: ControlMessage) -> bool {
    message matches ControlMessage::Rights(fds) && fds@.len() == 0
}

/// What is received in a message of `bytes` bytes: the first descriptor of the first control
/// message that is not passed over.
pub open spec fn received(bytes: usize, messages: Seq<ControlMessage>, from: int) -> Result<
    i32,
    ReceiveError,
>
    decreases messages.len() - from,
{
    if bytes == 0 {
        Err(ReceiveError::UnexpectedEof)
    } else if from < 0 || from >= messages.len() {
        Err(ReceiveError::NoDescriptor)
    } else if passed_over(messages[from]) {
        received(bytes, messages, from + 1)
    } else {
        match messages[from] {
            ControlMessage::Rights(fds) => if fds@[0] < 0 {
                Err(ReceiveError::BadDescriptor)
            } else {
                Ok(fds@[0])
            },
            ControlMessage::Other => Err(ReceiveError::UnknownMessage(from as usize)),
        }
    }
}

/// The descriptor of the device that a mount helper hands over in a message.
pub fn receive_fusermount_message(bytes: usize, messages: &[ControlMessage]) -> (r: Result<
    i32,
    ReceiveError,
>)
    ensures
        r == received(bytes, messages@, 0),
{
    if bytes == 0 {
        return Err(ReceiveError::UnexpectedEof);
    }
    let mut i: usize = 0;
    while i < messages.len()
        invariant
            i <= messages@.len(),
            bytes != 0,
            received(bytes, messages@, 0) == received(bytes, messages@, i as int),
        decreases messages.len() - i,
    {
        match &messages[i] {
            ControlMessage::Rights(fds) => if fds.len() > 0 {
                if fds[0] < 0 {
                    return Err(ReceiveError::BadDescriptor);
                }
                return Ok(fds[0]);
            },
            ControlMessage::Other => return Err(ReceiveError::UnknownMessage(i)),
        }
        i += 1;
    }
    Err(ReceiveError::NoDescriptor)
}

/// Whether the socket to a mount helper stays open after the mount: the helper runs on until it is
/// closed where the filesystem is to be unmounted automatically.
pub fn keeps_socket(options: &[MountOption]) -> (r: bool)
    ensures
        r == has_auto_unmount(options@),
{
    contains_auto_unmount(options)
}

/// The descriptors that are closed in one go: above and below the one that is kept.
#[derive(Clone, Copy, Debug)]
pub struct CloseRanges {
    /// The first and the last descriptor above.
    pub above: (u32, u32),
    /// The first and the last descriptor below, where there are any besides standard input and
    /// output.
    pub below: Option<(u32, u32)>,
}

/// The ranges of descriptors around `keep` and above those of standard input and output.
pub fn close_ranges(keep: i32) -> (r: CloseRanges)
    requires
        0 <= keep,
    ensures
        forall|fd: u32|
            #![trigger in_range(r.above, fd)]
            (in_range(r.above, fd) || (r.below matches Some(b) && in_range(b, fd))) <==> (fd >= 3
                && fd != keep) || fd > keep,
{
    CloseRanges {
        above: (keep as u32 + 1, u32::MAX),
        below: if keep <= 3 {
            None
        } else {
            Some((3, keep as u32 - 1))
        },
    }
}

/// Whether `fd` lies in a range.
pub open spec fn in_range(range: (u32, u32), fd: u32) -> bool {
    range.0 <= fd <= range.1
}

/// Up to where descriptors are closed one at a time.
pub const MAX_SWEPT_FD: i32 = 1_048_576;

/// The first descriptor that is not closed any more, given the limit where it is known.
pub fn sweep_end(limit: Option<u64>) -> (r: i32)
    ensures
        r == (match limit {
            Some(n) => if n < MAX_SWEPT_FD {
                n as int
            } else {
                MAX_SWEPT_FD as int
            },
            None => MAX_SWEPT_FD as int,
        }),
{
    match limit {
        Some(n) => if n < 1_048_576 {
            n as i32
        } else {
            MAX_SWEPT_FD
        },
        None => MAX_SWEPT_FD,
    }
}

/// What a watcher does when the mounting process is gone.
#[derive(Clone, Copy, Debug, PartialEq, Eq, Structural)]
pub enum WatcherAction {
    /// Close the descriptor that was opened, and leave the mountpoint alone.
    CloseAndLeave,
    /// Unmount.
    Unmount,
    /// Leave the mountpoint alone.
    Leave,
}

/// What a watcher does, by what opening the mountpoint gave: only a mount that is still there and
/// no longer served cannot be opened because it is not connected.
pub fn watcher_action(opened: Result<i32, i32>) -> (r: WatcherAction)
    ensures
        r == (match opened {
            Ok(_) => WatcherAction::CloseAndLeave,
            Err(e) => if e == Errno::ENOTCONN {
                WatcherAction::Unmount
            } else {
                WatcherAction::Leave
            },
        }),
{
    match opened {
        Ok(_) => WatcherAction::CloseAndLeave,
        Err(e) => if e == Errno::ENOTCONN {
            WatcherAction::Unmount
        } else {
            WatcherAction::Leave
        },
    }
}

/// The names under which a mount helper is looked for, in order.
pub open spec fn candidate_texts() -> Seq<Seq<char>> {
    seq![
        "fusermount3"@,
        "fusermount"@,
        "mount_fusefs"@,
        "/sbin/fusermount3"@,
        "/sbin/fusermount"@,
        "/sbin/mount_fusefs"@,
        "/bin/fusermount3"@,
        "/bin/fusermount"@,
    ]
}

/// The names under which a mount helper is looked for, in order.
pub fn candidates() -> (r: Vec<String>)
    ensures
        texts_of(r@) == candidate_texts(),
{
    let r = vec![
        String::from_str("fusermount3"),
        String::from_str("fusermount"),
        String::from_str("mount_fusefs"),
        String::from_str("/sbin/fusermount3"),
        String::from_str("/sbin/fusermount"),
        String::from_str("/sbin/mount_fusefs"),
        String::from_str("/bin/fusermount3"),
        String::from_str("/bin/fusermount"),
    ];
    assert(texts_of(r@) =~= candidate_texts());
    r
}

/// Whether `r` is the name of the first helper that started, where one did.
pub open spec fn is_first_started(started: Seq<bool>, r: Option<Seq<char>>) -> bool {
    match r {
        Some(name) => exists|i: int|
            0 <= i < started.len() && #[trigger] started[i] && name == candidate_texts()[i]
                && forall|k: int| 0 <= k < i ==> !#[trigger] started[k],
        None => forall|k: int| 0 <= k < started.len() ==> !#[trigger] started[k],
    }
}

/// The mount helper that is used: the one that is set, or else the first candidate that could be
/// started, where `started` says which could.
pub fn detect_fusermount_bin(set: Option<String>, started: &[bool]) -> (r: Option<String>)
    requires
        started@.len() == candidate_texts().len(),
    ensures
        match set {
            Some(bin) => text_of(r) == Some(bin@),
            None => match r {
                Some(bin) => exists|i: int|
                    #![trigger started@[i]]
                    0 <= i < started@.len() && started@[i] && bin@ == candidate_texts()[i]
                        && forall|k: int| 0 <= k < i ==> !started@[k],
                None => forall|k: int| 0 <= k < started@.len() ==> !started@[k],
            },
        },
        set is None ==> is_first_started(started@, text_of(r)),
{
    let ghost given = set;
    if let Some(bin) = set {
        return Some(bin);
    }
    let names: Vec<String> = candidates();
    assert(names@.len() == texts_of(names@).len());
    let mut i: usize = 0;
    while i < started.len()
        invariant
            given is None,
            given == set,
            i <= started@.len(),
            started@.len() == candidate_texts().len(),
            names@.len() == candidate_texts().len(),
            texts_of(names@) == candidate_texts(),
            forall|k: int| 0 <= k < i ==> !started@[k],
        decreases started.len() - i,
    {
        if started[i] {
            assert(texts_of(names@)[i as int] == names@[i as int]@);
            return Some(names[i].clone());
        }
        i += 1;
    }
    None
}

/// The names with a comma and a space between each two.
pub open spec fn listed(texts: Seq<Seq<char>>) -> Seq<char>
    decreases texts.len(),
{
    if texts.len() == 0 {
        Seq::empty()
    } else if texts.len() == 1 {
        texts[0]
    } else {
        listed(texts.drop_last()) + ", "@ + texts.last()
    }
}

/// What is said when no mount helper could be started.
pub fn no_helper_text() -> (r: String)
    ensures
        r@ == "no FUSE mount helper found, tried "@ + listed(candidate_texts())
            + " (set FUSERMOUNT_PATH to override)"@,
{
    let names: Vec<String> = candidates();
    let ghost texts = candidate_texts();
    let mut list = String::new();
    let mut i: usize = 0;
    assert(names@.len() == texts.len());
    assert(texts.take(0) =~= Seq::<Seq<char>>::empty());
    while i < names.len()
        invariant
            i <= names@.len(),
            texts == texts_of(names@),
            list@ == listed(texts.take(i as int)),
        decreases names.len() - i,
    {
        proof {
            assert(texts.take(i + 1).drop_last() =~= texts.take(i as int));
            assert(texts.take(i + 1).last() == texts[i as int]);
        }
        if i > 0 {
            list.append(", ");
        }
        list.append(names[i].as_str());
        i += 1;
        assert(list@ =~= listed(texts.take(i as int)));
    }
    assert(texts.take(i as int) =~= texts);
    String::from_str("no FUSE mount helper found, tried ").concat(list.as_str()).concat(
        " (set FUSERMOUNT_PATH to override)",
    )
}

/// How mounting goes on, step by step. A helper that is found is run. With automatic unmount a
/// watcher is started where there is no helper, before the system call, which then must be allowed;
/// without it a helper is looked for only when the system call is not allowed. Only the system call
/// and a helper mount, and what has ended stays as it is.
pub proof fn lemma_mounting_goes_on(state: MountState, result: StepResult, r: MountState)
    requires
        call_ensures(MountState::next, (state, result), r),
    ensures
        state.auto_unmount == r.auto_unmount,
        !(state.step is Done) ==> (r.step is Done <==> result is Succeeded
            && (state.step is SysMount
            || state.step is RunHelper)),
        r.step is RunHelper <==> state.step is FindHelper && result is Succeeded,
        r.step is StartWatcher <==> state.step is FindHelper && !(result is Succeeded)
            && state.auto_unmount,
        r.step is SysMount <==> state.step is StartWatcher && result is Succeeded,
        r.step is FindHelper <==> state.step is SysMount && result is NotAllowed
            && !state.auto_unmount,
        !(state.step is Failed) ==> (r.step == (MountStep::Failed { no_helper: true })
            <==> state.step is SysMount && result is NotAllowed && state.auto_unmount),
        state.step is Done || state.step is Failed ==> state.step == r.step,
        !(result is Succeeded) && !(state.step is Done) ==> !(r.step is Done),
{
}

/// Mounting begins with the system call, unless the filesystem is to be unmounted automatically:
/// then a helper is looked for first.
pub proof fn lemma_mounting_begins(options: &[MountOption], r: MountState)
    requires
        call_ensures(MountState::start, (options,), r),
    ensures
        r.auto_unmount <==> options@.contains(MountOption::AutoUnmount),
        r.step is FindHelper <==> options@.contains(MountOption::AutoUnmount),
        r.step is SysMount <==> !options@.contains(MountOption::AutoUnmount),
{
    let list = options@;
    if has_auto_unmount(list) {
        let i = choose|i: int| 0 <= i < list.len() && #[trigger] list[i] is AutoUnmount;
        assert(list[i] == MountOption::AutoUnmount);
    }
    if list.contains(MountOption::AutoUnmount) {
        let i = choose|i: int| 0 <= i < list.len() && list[i] == MountOption::AutoUnmount;
        assert(list[i] is AutoUnmount);
    }
}

/// What follows on the system call is told by its error number: only one that is not allowed leads
/// to a helper.
pub proof fn lemma_sys_mount_is_followed(result: Result<(), i32>, r: AfterSysMount)
    requires
        call_ensures(after_sys_mount, (result,), r),
    ensures
        r is Mounted <==> result is Ok,
        r is TryHelper <==> (result matches Err(e) && e == 1),
        r matches AfterSysMount::Failed(e) ==> result == Err::<(), i32>(e),
{
}

/// A watcher unmounts exactly where the mountpoint is not connected.
pub proof fn lemma_watcher_unmounts(opened: Result<i32, i32>, r: WatcherAction)
    requires
        call_ensures(watcher_action, (opened,), r),
    ensures
        r is Unmount <==> (opened matches Err(e) && e == 107),
        r is CloseAndLeave <==> opened is Ok,
{
}

/// The system call is told the name of the source or else the subtype or else the device, and
/// behind who mounts the options that the kernel reads and the access option.
pub proof fn lemma_sys_call_is_told(
    options: &[MountOption],
    acl: SessionACL,
    ids: MountIds,
    r: MountCall,
)
    requires
        call_ensures(fuse_mount_sys, (options, acl, ids), r),
    ensures
        r.fstype@ == "fuse"@,
        r.flags == default_flags(options@, true) | option_flags(options@),
        first_fsname(options@) matches Some(name) ==> r.source@ == name,
        first_fsname(options@) is None && first_subtype(options@) is Some ==> r.source@
            == first_subtype(options@)->0,
        first_fsname(options@) is None && first_subtype(options@) is None ==> r.source@
            == "/dev/fuse"@,
        acl is Owner ==> r.options@ == ids.full_text() + trailing_options(options@),
        !(acl is Owner) ==> r.options@ == ids.full_text() + trailing_options(options@) + seq![',']
            + "allow_other"@,
{
    let view = r@;
}

/// A helper is given the options behind a switch, where there are any, and then the end of options.
pub proof fn lemma_helper_is_given(options: &[MountOption], acl: SessionACL, r: Vec<String>)
    requires
        call_ensures(fuse_mount_fusermount, (options, acl), r),
    ensures
        options@.len() == 0 && acl is Owner ==> texts_of(r@) == seq!["--"@],
        options@.len() > 0 || !(acl is Owner) ==> texts_of(r@) == seq![
            "-o"@,
            comma_joined(escaped_texts(options@, acl)),
            "--"@,
        ],
{
}

/// `mount_fusefs` is given the options as they are behind a switch, where there are any, and then
/// the descriptor.
pub proof fn lemma_mount_fusefs_is_given(
    options: &[MountOption],
    acl: SessionACL,
    fd: i32,
    r: Vec<String>,
)
    requires
        call_ensures(fuse_mount_mount_fusefs, (options, acl, fd), r),
    ensures
        options@.len() == 0 && acl is Owner ==> texts_of(r@) == seq![decimal(fd as int)],
        options@.len() > 0 || !(acl is Owner) ==> texts_of(r@) == seq![
            "-o"@,
            comma_joined(plain_texts(options@, acl)),
            decimal(fd as int),
        ],
{
}

/// Helpers are looked for by name, first along the path, then in `/sbin` and in `/bin`, the newer
/// before the older.
pub proof fn lemma_candidates_in_order(r: Vec<String>)
    requires
        call_ensures(candidates, (), r),
    ensures
        r@.len() == 8,
        r@[0]@ == "fusermount3"@,
        r@[1]@ == "fusermount"@,
        r@[2]@ == "mount_fusefs"@,
        r@[3]@ == "/sbin/fusermount3"@,
        r@[4]@ == "/sbin/fusermount"@,
        r@[5]@ == "/sbin/mount_fusefs"@,
        r@[6]@ == "/bin/fusermount3"@,
        r@[7]@ == "/bin/fusermount"@,
{
    let t = texts_of(r@);
    assert(t.len() == r@.len());
    assert forall|i: int| 0 <= i < 8 implies t[i] == #[trigger] r@[i]@ by {
    }
}

/// What is received of a helper is the first descriptor that it hands over; control messages before
/// it hand over none. One that is not known, or a descriptor that is none, is an error, and so is
/// the end of the stream.
pub proof fn lemma_first_descriptor_is_received(
    bytes: usize,
    messages: Seq<ControlMessage>,
    from: int,
)
    requires
        0 <= from <= messages.len(),
    ensures
        received(bytes, messages, from) == Err::<i32, ReceiveError>(ReceiveError::UnexpectedEof)
            <==> bytes == 0,
        received(bytes, messages, from) matches Ok(fd) ==> fd >= 0 && exists|i: int|
            from <= i < messages.len()
                && (#[trigger] messages[i] matches ControlMessage::Rights(fds)
                && fds@.len() > 0 && fds@[0] == fd) && forall|k: int|
                from <= k < i ==> (#[trigger] messages[k] matches ControlMessage::Rights(fds)
                    && fds@.len() == 0),
        received(bytes, messages, from) == Err::<i32, ReceiveError>(ReceiveError::NoDescriptor)
            ==> forall|k: int|
            from <= k < messages.len() ==> (#[trigger] messages[k] matches ControlMessage::Rights(
                fds,
            ) && fds@.len() == 0),
        received(bytes, messages, from) matches Err(ReceiveError::UnknownMessage(i)) ==> (from <= i
            < messages.len() && messages[i as int] is Other) || messages.len() > usize::MAX,
        received(bytes, messages, from) matches Err(ReceiveError::BadDescriptor) ==> exists|i: int|
            from <= i < messages.len()
                && (#[trigger] messages[i] matches ControlMessage::Rights(fds)
                && fds@.len() > 0 && fds@[0] < 0),
    decreases messages.len() - from,
{
    if bytes != 0 && from < messages.len() {
        if passed_over(messages[from]) {
            lemma_first_descriptor_is_received(bytes, messages, from + 1);
            if let Ok(fd) = received(bytes, messages, from) {
                let i = choose|i: int|
                    from + 1 <= i < messages.len() && (#[trigger] messages[i] matches
                        ControlMessage::Rights(fds) && fds@.len() > 0 && fds@[0] == fd) && forall|k:
                        int|
                        from + 1 <= k < i ==> (#[trigger] messages[k] matches ControlMessage::Rights(fds)
                            && fds@.len() == 0);
                assert(messages[i] is Rights);
            }
        } else {
            assert(messages[from] is Rights || messages[from] is Other);
        }
    }
}

/// A helper for which a name is set is that one; else the first that starts, in the order in which
/// they are looked for.
pub proof fn lemma_first_that_starts(set: Option<String>, started: &[bool], r: Option<String>)
    requires
        started@.len() == 8,
        call_ensures(detect_fusermount_bin, (set, started), r),
    ensures
        set matches Some(bin) ==> (r matches Some(found) && found@ == bin@),
        set is None && started@[0] ==> (r matches Some(found) && found@ == "fusermount3"@),
        set is None && !started@[0] && started@[1] ==> (r matches Some(found) && found@
            == "fusermount"@),
        set is None && !started@[0] && !started@[1] && started@[2] ==> (r matches Some(found)
            && found@ == "mount_fusefs"@),
        set is None && r is None ==> forall|i: int| 0 <= i < 8 ==> !#[trigger] started@[i],
        set is None && r is Some ==> exists|i: int| 0 <= i < 8 && #[trigger] started@[i],
{
}

/// Which program is meant is told by how its name ends.
pub proof fn lemma_name_tells(bin: &str, r: bool)
    requires
        call_ensures(is_mount_fusefs, (bin,), r),
    ensures
        r <==> bin@.len() >= 12 && bin@.subrange(bin@.len() - 12, bin@.len() as int)
            == "mount_fusefs"@,
{
    reveal_strlit("mount_fusefs");
    if bin@.len() >= 12 {
        assert(bin@.subrange(bin@.len() - 12, bin@.len() as int) =~= bin@.skip(bin@.len() - 12));
    }
}

/// What a helper complains of is not permitted exactly where it says somewhere that other users
/// would have to be allowed.
pub proof fn lemma_not_permitted_is_said(
    before: Seq<char>,
    after: Seq<char>,
    stderr: &str,
    r: HelperError,
)
    requires
        call_ensures(helper_error, (stderr,), r),
        stderr@ == before + "only allowed if 'user_allow_other' is set"@ + after,
    ensures
        r is PermissionDenied,
{
    let said = "only allowed if 'user_allow_other' is set"@;
    let i = before.len() as int;
    assert(stderr@.subrange(i, i + said.len()) =~= said);
    assert(occurs_at(stderr@, said, i));
}

/// Descriptors are swept up to the limit, and never further than 1048576.
pub proof fn lemma_sweep_ends(limit: Option<u64>, r: i32)
    requires
        call_ensures(sweep_end, (limit,), r),
    ensures
        0 <= r <= 1_048_576,
        limit matches Some(n) ==> r <= n && (r == n || r == 1_048_576),
        limit is None ==> r == 1_048_576,
{
}

/// The socket of a helper is kept exactly where the filesystem is unmounted automatically.
pub proof fn lemma_socket_is_kept(options: &[MountOption], r: bool)
    requires
        call_ensures(keeps_socket, (options,), r),
    ensures
        r <==> options@.contains(MountOption::AutoUnmount),
{
    let list = options@;
    if has_auto_unmount(list) {
        let i = choose|i: int| 0 <= i < list.len() && #[trigger] list[i] is AutoUnmount;
        assert(list[i] == MountOption::AutoUnmount);
    }
    if list.contains(MountOption::AutoUnmount) {
        let i = choose|i: int| 0 <= i < list.len() && list[i] == MountOption::AutoUnmount;
        assert(list[i] is AutoUnmount);
    }
}

/// Where a helper says no such thing anywhere, its complaint is another.
pub proof fn lemma_other_is_said(stderr: &str, r: HelperError)
    requires
        call_ensures(helper_error, (stderr,), r),
        forall|before: Seq<char>, after: Seq<char>|
            stderr@ != #[trigger] (before + "only allowed if 'user_allow_other' is set"@ + after),
    ensures
        r is Other,
{
    let said = "only allowed if 'user_allow_other' is set"@;
    if r is PermissionDenied {
        let i = choose|i: int| occurs_at(stderr@, said, i);
        let before = stderr@.take(i);
        let after = stderr@.skip(i + said.len());
        assert(stderr@ =~= before + said + after);
    }
}

/// Where no helper could be started, all that were tried are named, in order, and how to name
/// another.
pub proof fn lemma_helpers_that_were_tried(r: String)
    requires
        call_ensures(no_helper_text, (), r),
    ensures
        r@ == "no FUSE mount helper found, tried "@ + "fusermount3"@ + ", "@ + "fusermount"@ + ", "@
            + "mount_fusefs"@ + ", "@ + "/sbin/fusermount3"@ + ", "@ + "/sbin/fusermount"@ + ", "@
            + "/sbin/mount_fusefs"@ + ", "@ + "/bin/fusermount3"@ + ", "@ + "/bin/fusermount"@
            + " (set FUSERMOUNT_PATH to override)"@,
{
    let t = candidate_texts();
    assert(t.drop_last() =~= t.take(7));
    assert(t.take(7).drop_last() =~= t.take(6));
    assert(t.take(6).drop_last() =~= t.take(5));
    assert(t.take(5).drop_last() =~= t.take(4));
    assert(t.take(4).drop_last() =~= t.take(3));
    assert(t.take(3).drop_last() =~= t.take(2));
    assert(t.take(2).drop_last() =~= t.take(1));
    reveal_with_fuel(listed, 9);
    assert(listed(t) == listed(t.take(7)) + ", "@ + t[7]);
    assert(listed(t.take(7)) == listed(t.take(6)) + ", "@ + t[6]);
    assert(listed(t.take(6)) == listed(t.take(5)) + ", "@ + t[5]);
    assert(listed(t.take(5)) == listed(t.take(4)) + ", "@ + t[4]);
    assert(listed(t.take(4)) == listed(t.take(3)) + ", "@ + t[3]);
    assert(listed(t.take(3)) == listed(t.take(2)) + ", "@ + t[2]);
    assert(listed(t.take(2)) == listed(t.take(1)) + ", "@ + t[1]);
    assert(r@ =~= "no FUSE mount helper found, tried "@ + "fusermount3"@ + ", "@ + "fusermount"@
        + ", "@ + "mount_fusefs"@ + ", "@ + "/sbin/fusermount3"@ + ", "@ + "/sbin/fusermount"@
        + ", "@ + "/sbin/mount_fusefs"@ + ", "@ + "/bin/fusermount3"@ + ", "@ + "/bin/fusermount"@
        + " (set FUSERMOUNT_PATH to override)"@);
}

/// What a message that was not received is told by.
pub proof fn lemma_receipt_is_told(e: ReceiveError, r: Option<String>)
    requires
        call_ensures(ReceiveError::text, (&e,), r),
    ensures
        e is UnexpectedEof ==> (r matches Some(t) && "Unexpected EOF reading from fusermount"@
            == t@),
        e is NoDescriptor ==> (r matches Some(t)
            && "No SCM_RIGHTS message received from fusermount"@
            == t@),
        e is BadDescriptor || e is UnknownMessage ==> r is None,
{
}

/// Which descriptor is received of a helper.
pub proof fn lemma_descriptor_is_received(
    bytes: usize,
    messages: &[ControlMessage],
    r: Result<i32, ReceiveError>,
)
    requires
        call_ensures(receive_fusermount_message, (bytes, messages), r),
    ensures
        bytes == 0 <==> r == Err::<i32, ReceiveError>(ReceiveError::UnexpectedEof),
        bytes > 0 && messages@.len() == 0 ==> r == Err::<i32, ReceiveError>(
            ReceiveError::NoDescriptor,
        ),
        bytes > 0 && messages@.len() > 0 ==> (messages@[0] matches ControlMessage::Rights(fds) ==> (
        fds@.len() > 0 && fds@[0] >= 0 ==> r == Ok::<i32, ReceiveError>(fds@[0]))),
        bytes > 0 && messages@.len() > 0 && messages@[0] is Other ==> r == Err::<i32, ReceiveError>(
            ReceiveError::UnknownMessage(0),
        ),
{
    lemma_first_descriptor_is_received(bytes, messages@, 0);
}

} // verus!
