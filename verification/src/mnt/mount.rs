//! Mounts: what they are told, and when they can be kept after a failure.

use vstd::prelude::*;
use vstd::string::StringExecFns;

use crate::kernel_config::SessionACL;
use crate::mnt::conflicts::{conflict_free, conflicted, Conflicting};
use crate::mnt::mount_options::MountOption;
use crate::mnt::option_list::{plain_strings, plain_texts, texts_of};
use crate::mnt::unmount_options::{check_option_conflicts, UnmountConflictError, UnmountOption};

verus! {

/// Texts with `-o` before each.
pub open spec fn with_switches(texts: Seq<Seq<char>>) -> Seq<Seq<char>>
    decreases texts.len(),
{
    if texts.len() == 0 {
        Seq::empty()
    } else {
        with_switches(texts.drop_last()).push("-o"@).push(texts.last())
    }
}

/// Whether a text can be handed over with a zero byte behind it.
pub open spec fn no_zero_char(text: Seq<char>) -> bool {
    forall|k: int| 0 <= k < text.len() ==> text[k] != '\0'
}

/// The arguments that libfuse is given: a program name, and each option behind a switch. No
/// argument may hold a zero character, which would end it.
pub fn with_fuse_args(options: &[MountOption], acl: SessionACL) -> (r: Vec<String>)
    requires
        forall|i: int|
            0 <= i < plain_texts(options@, acl).len() ==> no_zero_char(
                #[trigger] plain_texts(options@, acl)[i],
            ),
    ensures
        texts_of(r@) == seq!["rust-fuse"@] + with_switches(plain_texts(options@, acl)),
{
    let list: Vec<String> = plain_strings(options, acl);
    let ghost texts = texts_of(list@);
    let mut args: Vec<String> = Vec::new();
    args.push(String::from_str("rust-fuse"));
    let mut i: usize = 0;
    assert(texts.take(0) =~= Seq::<Seq<char>>::empty());
    assert(texts_of(args@) =~= seq!["rust-fuse"@] + with_switches(texts.take(0)));
    while i < list.len()
        invariant
            i <= list@.len(),
            texts == texts_of(list@),
            texts_of(args@) == seq!["rust-fuse"@] + with_switches(texts.take(i as int)),
        decreases list.len() - i,
    {
        let ghost before = args@;
        proof {
            assert(texts.take(i + 1).drop_last() =~= texts.take(i as int));
            assert(texts.take(i + 1).last() == list@[i as int]@);
        }
        args.push(String::from_str("-o"));
        args.push(list[i].clone());
        assert(texts_of(args@) =~= texts_of(before).push("-o"@).push(list@[i as int]@));
        i += 1;
        assert(texts_of(args@) =~= seq!["rust-fuse"@] + with_switches(texts.take(i as int)));
    }
    assert(texts.take(i as int) =~= texts);
    args
}

/// The kinds of errors that matter to a mount.
#[derive(Clone, Copy, Debug, PartialEq, Eq, Structural)]
pub enum ErrorKind {
    ResourceBusy,
    WouldBlock,
    InvalidInput,
    PermissionDenied,
    NotFound,
    OutOfMemory,
    /// Any other kind.
    Other,
}

/// An error of the system: its kind, and its number where it has one.
#[derive(Clone, Copy, Debug, PartialEq, Eq, Structural)]
pub struct OsError {
    pub kind: ErrorKind,
    pub raw: Option<i32>,
}

/// Whether a mount can be salvaged after an error. Where the kind decides, the number does not
/// count.
pub open spec fn salvageable(error: OsError) -> bool {
    match error.kind {
        ErrorKind::ResourceBusy => true,
        ErrorKind::WouldBlock => true,
        ErrorKind::InvalidInput => false,
        ErrorKind::PermissionDenied => true,
        ErrorKind::NotFound => false,
        ErrorKind::OutOfMemory => true,
        ErrorKind::Other => match error.raw {
            // EPERM, ENOENT, EAGAIN, ENOMEM, EBUSY
            Some(raw) => raw == 1 || raw == 2 || raw == 11 || raw == 12 || raw == 16,
            None => false,
        },
    }
}

/// Determines whether a mount can be salvaged after an error.
pub fn is_mount_salvageable(error: &OsError) -> (r: bool)
    ensures
        r == salvageable(*error),
{
    match error.kind {
        ErrorKind::ResourceBusy => true,
        ErrorKind::WouldBlock => true,
        ErrorKind::InvalidInput => false,
        ErrorKind::PermissionDenied => true,
        ErrorKind::NotFound => false,
        ErrorKind::OutOfMemory => true,
        ErrorKind::Other => match error.raw {
            Some(raw) => raw == 1 || raw == 2 || raw == 11 || raw == 12 || raw == 16,
            None => false,
        },
    }
}

/// How long an unmount that is repeated waits before the next time, in milliseconds.
#[derive(Clone, Copy, Debug, PartialEq, Eq, Structural)]
pub enum Retry {
    /// It waits so long and is tried again.
    After(u64),
    /// It is not repeated: the error stands.
    Stop,
}

/// What is done when an unmount failed: one that is busy is tried again after a second, and one
/// that would block after a hundredth of it.
pub fn with_retry_on_busy_or_again(kind: ErrorKind) -> (r: Retry)
    ensures
        r == (match kind {
            ErrorKind::ResourceBusy => Retry::After(1000),
            ErrorKind::WouldBlock => Retry::After(10),
            _ => Retry::Stop,
        }),
{
    match kind {
        ErrorKind::ResourceBusy => Retry::After(1000),
        ErrorKind::WouldBlock => Retry::After(10),
        _ => Retry::Stop,
    }
}

/// How a mount that is let go is unmounted.
pub fn drop_umount_flags() -> (r: Vec<UnmountOption>)
    ensures
        r@ == seq![UnmountOption::Detach],
{
    vec![UnmountOption::Detach]
}

/// What a mount is to its owner.
#[derive(Clone, Copy, Debug, PartialEq, Eq, Structural)]
pub enum MountHandle {
    /// The filesystem is mounted.
    Mounted,
    /// The filesystem was unmounted, or the mount was given up.
    Gone,
}

/// What is done when an unmount is asked for.
#[derive(Clone, Debug, PartialEq, Eq)]
pub enum UmountStart {
    /// There is nothing to unmount.
    NothingToDo,
    /// The options conflict; the mount stays.
    Refused(UnmountConflictError),
    /// The unmount is tried.
    Try,
}

impl MountHandle {
    /// What is done when an unmount is asked for.
    pub fn umount(&self, flags: &[UnmountOption]) -> (r: UmountStart)
        ensures
            match r {
                UmountStart::NothingToDo => *self is Gone,
                UmountStart::Refused(e) => {
                    &&& *self is Mounted
                    &&& !conflict_free(flags@)
                    &&& e.conflicting@.no_duplicates()
                    &&& forall|o: UnmountOption|
                        e.conflicting@.contains(o) <==> #[trigger] conflicted(flags@, o)
                },
                UmountStart::Try => *self is Mounted && conflict_free(flags@),
            },
    {
        match self {
            MountHandle::Gone => UmountStart::NothingToDo,
            MountHandle::Mounted => match check_option_conflicts(flags) {
                Ok(_) => UmountStart::Try,
                Err(e) => UmountStart::Refused(e),
            },
        }
    }

    /// What is left after an unmount was tried: a mount that failed to unmount is kept where it can
    /// be salvaged and is still alive.
    pub fn after_umount(self, result: Result<(), OsError>, alive: bool) -> (r: MountHandle)
        ensures
            r == (match result {
                Ok(_) => MountHandle::Gone,
                Err(error) => if salvageable(error) && alive {
                    self
                } else {
                    MountHandle::Gone
                },
            }),
    {
        match result {
            Ok(_) => MountHandle::Gone,
            Err(error) => if is_mount_salvageable(&error) && alive {
                self
            } else {
                MountHandle::Gone
            },
        }
    }
}

/// What polling the device gave.
#[derive(Clone, Copy, Debug, PartialEq, Eq, Structural)]
pub enum PollResult {
    /// No event is pending.
    Quiet,
    /// An event is pending; whether it is an error.
    Event {
        error: bool,
    },
    /// The poll was interrupted.
    Interrupted,
}

/// Whether the filesystem of a device is mounted, as far as a poll tells. It is still so after a
/// lazy unmount that the kernel has not finished.
pub fn is_mounted(poll: PollResult) -> (r: Option<bool>)
    ensures
        r == (match poll {
            PollResult::Quiet => Some(true),
            PollResult::Event { error } => Some(error),
            PollResult::Interrupted => None,
        }),
{
    match poll {
        PollResult::Quiet => Some(true),
        PollResult::Event { error } => Some(error),
        PollResult::Interrupted => None,
    }
}

/// libfuse is given the name of the program, and then a switch and a text for each option, in
/// order.
pub proof fn lemma_switch_before_each(
    options: &[MountOption],
    acl: SessionACL,
    r: Vec<String>,
    i: int,
)
    requires
        call_ensures(with_fuse_args, (options, acl), r),
        0 <= i < plain_texts(options@, acl).len(),
    ensures
        r@.len() == 1 + 2 * plain_texts(options@, acl).len(),
        r@[0]@ == "rust-fuse"@,
        r@[2 * i + 1]@ == "-o"@,
        r@[2 * i + 2]@ == plain_texts(options@, acl)[i],
{
    let texts = plain_texts(options@, acl);
    lemma_switches(texts);
    let all = texts_of(r@);
    assert(all.len() == r@.len());
    assert(all[0] == r@[0]@);
    assert(with_switches(texts)[2 * i] == "-o"@);
    assert(all[2 * i + 1] == with_switches(texts)[2 * i]);
    assert(all[2 * i + 2] == with_switches(texts)[2 * i + 1]);
    assert(all[2 * i + 1] == r@[2 * i + 1]@);
    assert(all[2 * i + 2] == r@[2 * i + 2]@);
}

proof fn lemma_switches(texts: Seq<Seq<char>>)
    ensures
        with_switches(texts).len() == 2 * texts.len(),
        forall|i: int|
            0 <= i < texts.len() ==> #[trigger] with_switches(texts)[2 * i] == "-o"@
                && with_switches(texts)[2 * i + 1] == texts[i],
    decreases texts.len(),
{
    if texts.len() > 0 {
        let front = texts.drop_last();
        lemma_switches(front);
        assert forall|i: int| 0 <= i < texts.len() implies #[trigger] with_switches(texts)[2 * i]
            == "-o"@ && with_switches(texts)[2 * i + 1] == texts[i] by {
            if i < front.len() {
                assert(with_switches(front)[2 * i] == "-o"@);
                assert(with_switches(texts)[2 * i] == with_switches(front)[2 * i]);
                assert(with_switches(texts)[2 * i + 1] == with_switches(front)[2 * i + 1]);
            }
        }
    }
}

/// A mount is kept after an error that may pass: something is in use, must be tried again, is not
/// allowed or lacks memory. One that was not there or was asked for wrongly is not kept.
pub proof fn lemma_what_is_salvaged(error: OsError, r: bool)
    requires
        call_ensures(is_mount_salvageable, (&error,), r),
    ensures
        error.kind is ResourceBusy || error.kind is WouldBlock || error.kind is PermissionDenied
            || error.kind is OutOfMemory ==> r,
        error.kind is InvalidInput || error.kind is NotFound ==> !r,
        error.kind is Other ==> (r <==> (error.raw matches Some(n) && [1i32, 2, 11, 12,
            16]@.contains(
            n,
        ))),
{
    let known = [1i32, 2, 11, 12, 16]@;
    assert(known[0] == 1 && known[1] == 2 && known[2] == 11 && known[3] == 12 && known[4] == 16);
}

/// What is busy is tried again after a second and what would block after ten milliseconds; else
/// there is no more trying.
pub proof fn lemma_tried_again(kind: ErrorKind, r: Retry)
    requires
        call_ensures(with_retry_on_busy_or_again, (kind,), r),
    ensures
        kind is ResourceBusy <==> r == Retry::After(1000),
        kind is WouldBlock <==> r == Retry::After(10),
        r is Stop <==> !(kind is ResourceBusy) && !(kind is WouldBlock),
{
}

/// What is mounted is unmounted unless flags are given that conflict; what is gone needs nothing.
pub proof fn lemma_unmount_is_tried(handle: MountHandle, flags: &[UnmountOption], r: UmountStart)
    requires
        call_ensures(MountHandle::umount, (&handle, flags), r),
    ensures
        r is NothingToDo <==> handle is Gone,
        handle is Mounted && flags@.len() == 0 ==> r is Try,
        handle is Mounted && flags@.contains(UnmountOption::Force) && flags@.contains(
            UnmountOption::Expire,
        ) ==> r is Refused,
        handle is Mounted && flags@.contains(UnmountOption::Detach) && flags@.contains(
            UnmountOption::Expire,
        ) ==> r is Refused,
{
    let list = flags@;
    if list.contains(UnmountOption::Expire) {
        let j = choose|j: int| 0 <= j < list.len() && list[j] == UnmountOption::Expire;
        if list.contains(UnmountOption::Force) {
            let i = choose|i: int| 0 <= i < list.len() && list[i] == UnmountOption::Force;
            assert(list[j].in_conflict(list[i]));
        }
        if list.contains(UnmountOption::Detach) {
            let i = choose|i: int| 0 <= i < list.len() && list[i] == UnmountOption::Detach;
            assert(list[j].in_conflict(list[i]));
        }
    }
}

/// A mount is gone when it was unmounted; it is kept only after an error that may pass, and only
/// while it is alive.
pub proof fn lemma_mount_is_kept(
    handle: MountHandle,
    result: Result<(), OsError>,
    alive: bool,
    r: MountHandle,
)
    requires
        call_ensures(MountHandle::after_umount, (handle, result, alive), r),
    ensures
        result is Ok ==> r is Gone,
        !alive ==> r is Gone,
        result matches Err(e) ==> (e.kind is ResourceBusy || e.kind is PermissionDenied ==> (alive
            ==> r == handle)),
        result matches Err(e) ==> (e.kind is InvalidInput || e.kind is NotFound ==> r is Gone),
{
}

/// A device on which nothing happens is mounted, and so is one that fails; one that is interrupted
/// tells nothing.
pub proof fn lemma_poll_tells(poll: PollResult, r: Option<bool>)
    requires
        call_ensures(is_mounted, (poll,), r),
    ensures
        r is None <==> poll is Interrupted,
        r == Some(false) <==> (poll matches PollResult::Event { error } && !error),
{
}

} // verus!
