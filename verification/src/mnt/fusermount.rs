//! Unmounting by a mount helper, and what its complaints mean.

use regex::bytes::Regex;
use vstd::prelude::*;
use vstd::string::StringExecFns;

use crate::ids::Errno;
use crate::ll::errno::ErrnoLocaleMapping;
use crate::mnt::fuse_pure;
use crate::mnt::fuse_pure::{candidate_texts, is_first_started};
use crate::mnt::option_list::texts_of;
use crate::mnt::unmount_options::{fusermount_option, to_fusermount_option, UnmountOption};

verus! {

/// The complaint of a mount helper: who complains, of what, and why.
pub open spec fn complaint_pattern() -> Seq<char> {
    "([^:]+): failed to unmount ([^:]+): (.+)"@
}

/// What the groups of a match hold; that of the whole match comes first, and a group that took no
/// part in the match is `None`.
pub type Groups = Option<Vec<Option<Vec<u8>>>>;

/// What the groups of a match hold.
pub open spec fn groups_view(groups: Groups) -> Option<Seq<Option<Seq<u8>>>> {
    match groups {
        Some(list) => Some(
            list@.map_values(
                |group: Option<Vec<u8>>|
                    match group {
                        Some(bytes) => Some(bytes@),
                        None => None,
                    },
            ),
        ),
        None => None,
    }
}

/// What matching a pattern against bytes gives: `None` where the pattern is none, and else the
/// groups of the first match, where there is one.
pub uninterp spec fn regex_groups(pattern: Seq<char>, haystack: Seq<u8>) -> Option<
    Option<Seq<Option<Seq<u8>>>>,
>;

/// `regex::bytes::Regex::captures` of the expression that `Regex::new` makes of `pattern`: the
/// groups of the first match. They depend on the pattern and the bytes alone. Not said is what the
/// groups are for given bytes.
#[verifier::external_body]
fn captures(pattern: &str, haystack: &[u8]) -> (r: Option<Groups>)
    ensures
        match r {
            Some(groups) => regex_groups(pattern@, haystack@) == Some(groups_view(groups)),
            None => regex_groups(pattern@, haystack@) is None,
        },
{
    let expression = Regex::new(pattern).ok()?;
    let found = expression.captures(haystack);
    Some(found.map(|c| c.iter().map(|g| g.map(|m| m.as_bytes().to_vec())).collect()))
}

/// What stands in the third group of a match: nothing, where there was a match without it.
pub open spec fn third_group(groups: Option<Seq<Option<Seq<u8>>>>) -> Option<Seq<u8>> {
    match groups {
        Some(list) => if list.len() > 3 && list[3] is Some {
            list[3]
        } else {
            Some(Seq::empty())
        },
        None => None,
    }
}

/// What optional bytes hold.
pub open spec fn bytes_of(bytes: Option<Vec<u8>>) -> Option<Seq<u8>> {
    match bytes {
        Some(bytes) => Some(bytes@),
        None => None,
    }
}

/// The reason for a complaint, in a match with its pattern.
pub fn complaint_reason(groups: Groups) -> (r: Option<Vec<u8>>)
    ensures
        bytes_of(r) == third_group(groups_view(groups)),
{
    match groups {
        Some(list) => {
            let ghost view = groups_view(groups)->0;
            assert(view.len() == list@.len());
            if list.len() > 3 {
                assert(view[3] == bytes_of(list@[3]));
                if let Some(bytes) = &list[3] {
                    let reason: Vec<u8> = bytes.clone();
                    assert(reason@ =~= bytes@);
                    return Some(reason);
                }
            }
            let none: Vec<u8> = Vec::new();
            Some(none)
        },
        None => None,
    }
}

/// The pattern of complaints is none.
#[derive(Clone, Copy, Debug, PartialEq, Eq, Structural)]
pub struct BadPattern {}

/// The reason for which a mount helper complains that it could not unmount.
pub fn parse_fusermount_unmount_stderr(output: &[u8]) -> (r: Result<Option<Vec<u8>>, BadPattern>)
    ensures
        match regex_groups(complaint_pattern(), output@) {
            Some(groups) => r matches Ok(reason) && bytes_of(reason) == third_group(groups),
            None => r is Err,
        },
{
    match captures("([^:]+): failed to unmount ([^:]+): (.+)", output) {
        Some(groups) => Ok(complaint_reason(groups)),
        None => Err(BadPattern {  }),
    }
}

/// The mount helper that unmounts: the one that is set, or else the first candidate that could be
/// started, where `started` says which could, or else `fusermount3`.
pub fn detect_fusermount_bin(set: Option<String>, started: &[bool]) -> (r: String)
    requires
        started@.len() == candidate_texts().len(),
    ensures
        match set {
            Some(bin) => r@ == bin@,
            None => if forall|i: int| 0 <= i < started@.len() ==> !started@[i] {
                r@ == "fusermount3"@
            } else {
                exists|i: int|
                    #![trigger started@[i]]
                    0 <= i < started@.len() && started@[i] && r@ == candidate_texts()[i]
                        && forall|k: int| 0 <= k < i ==> !started@[k]
            },
        },
        set is None ==> is_first_started(started@, Some(r@)) || (is_first_started(started@, None)
            && r@ == "fusermount3"@),
{
    match fuse_pure::detect_fusermount_bin(set, started) {
        Some(bin) => bin,
        // Default to fusermount3
        None => String::from_str("fusermount3"),
    }
}

/// What follows from the result of the unmount system call.
#[derive(Clone, Copy, Debug, PartialEq, Eq, Structural)]
pub enum AfterUnmountCall {
    /// The filesystem is unmounted.
    Unmounted,
    /// The system call is not allowed: a mount helper is to be tried.
    TryHelper,
    /// The unmount failed.
    Failed(i32),
}

/// What follows from the result of the unmount system call.
pub fn after_unmount_call(result: Result<(), i32>) -> (r: AfterUnmountCall)
    ensures
        r == (match result {
            Ok(_) => AfterUnmountCall::Unmounted,
            Err(e) => if e == Errno::EPERM {
                AfterUnmountCall::TryHelper
            } else {
                AfterUnmountCall::Failed(e)
            },
        }),
{
    match result {
        Ok(_) => AfterUnmountCall::Unmounted,
        Err(e) => if e == Errno::EPERM {
            AfterUnmountCall::TryHelper
        } else {
            AfterUnmountCall::Failed(e)
        },
    }
}

/// The arguments that stand for the options, in order.
pub open spec fn flag_args(flags: Seq<UnmountOption>) -> Seq<Seq<char>>
    decreases flags.len(),
{
    if flags.len() == 0 {
        Seq::empty()
    } else {
        match fusermount_option(flags.last()) {
            Some(arg) => flag_args(flags.drop_last()).push(arg),
            None => flag_args(flags.drop_last()),
        }
    }
}

/// The arguments of a mount helper that unmounts, before the mountpoint.
pub fn unmount_args(flags: &[UnmountOption]) -> (r: Vec<String>)
    ensures
        texts_of(r@) == seq!["-u"@] + flag_args(flags@) + seq!["--"@],
{
    let mut args: Vec<String> = Vec::new();
    args.push(String::from_str("-u"));
    let mut i: usize = 0;
    assert(flags@.take(0) =~= Seq::<UnmountOption>::empty());
    assert(texts_of(args@) =~= seq!["-u"@] + flag_args(flags@.take(0)));
    while i < flags.len()
        invariant
            i <= flags@.len(),
            texts_of(args@) == seq!["-u"@] + flag_args(flags@.take(i as int)),
        decreases flags.len() - i,
    {
        let ghost before = args@;
        assert(flags@.take(i + 1).drop_last() =~= flags@.take(i as int));
        if let Some(arg) = to_fusermount_option(&flags[i]) {
            args.push(arg);
            assert(texts_of(args@) =~= texts_of(before).push(arg@));
        }
        i += 1;
        assert(texts_of(args@) =~= seq!["-u"@] + flag_args(flags@.take(i as int)));
    }
    assert(flags@.take(i as int) =~= flags@);
    let ghost before = args@;
    args.push(String::from_str("--"));
    assert(texts_of(args@) =~= texts_of(before).push("--"@));
    assert(texts_of(args@) =~= seq!["-u"@] + flag_args(flags@) + seq!["--"@]);
    args
}

/// Why a mount helper did not unmount.
#[derive(Clone, Copy, Debug, PartialEq, Eq, Structural)]
pub enum HelperUnmountError {
    /// Its complaint cannot be read.
    Unreadable,
    /// The reason that it gives stands for no error number.
    UnknownReason,
    /// The reason that it gives stands for this error number.
    Os(i32),
}

impl HelperUnmountError {
    /// What is said of the error, where it has a text of its own.
    pub fn text(&self) -> (r: Option<String>)
        ensures
            match self {
                HelperUnmountError::Unreadable => r matches Some(s) && s@
                    == "Failed to parse fusermount umount error message"@,
                HelperUnmountError::UnknownReason => r matches Some(s) && s@
                    == "errno not found for fusermount umount message"@,
                HelperUnmountError::Os(_) => r is None,
            },
    {
        match self {
            HelperUnmountError::Unreadable => Some(
                String::from_str("Failed to parse fusermount umount error message"),
            ),
            HelperUnmountError::UnknownReason => Some(
                String::from_str("errno not found for fusermount umount message"),
            ),
            HelperUnmountError::Os(_) => None,
        }
    }
}

/// What the run of a mount helper came to, given whether it succeeded and the reason for which it
/// complained, where that could be read.
pub open spec fn helper_came_to(
    success: bool,
    reason: Option<Seq<u8>>,
    mapping: Map<i32, Seq<u8>>,
    r: Result<(), HelperUnmountError>,
) -> bool {
    if success {
        r is Ok
    } else {
        match reason {
            None => r matches Err(e) && e is Unreadable,
            Some(text) => match r {
                Ok(_) => false,
                Err(HelperUnmountError::Unreadable) => false,
                Err(HelperUnmountError::UnknownReason) => forall|k: i32|
                    mapping.dom().contains(k) ==> mapping[k] != text,
                Err(HelperUnmountError::Os(code)) => {
                    &&& mapping.dom().contains(code)
                    &&& mapping[code] == text
                    &&& forall|k: i32| mapping.dom().contains(k) && mapping[k] == text ==> k == code
                },
            },
        }
    }
}

/// What the run of a mount helper came to, given the reason for which it complained.
pub fn helper_outcome(
    success: bool,
    reason: Option<Vec<u8>>,
    mapping: &ErrnoLocaleMapping,
) -> (r: Result<(), HelperUnmountError>)
    ensures
        helper_came_to(success, bytes_of(reason), mapping@, r),
{
    if success {
        return Ok(());
    }
    match reason {
        None => Err(HelperUnmountError::Unreadable),
        Some(text) => match mapping.get_errno_by_message(&text) {
            Some(errno) => Err(HelperUnmountError::Os(errno.0)),
            None => Err(HelperUnmountError::UnknownReason),
        },
    }
}

/// What the run of a mount helper came to, given what it wrote to its error output. `mapping` holds
/// the messages of the locale `C`, which is the one that a helper speaks.
pub fn fuse_unmount_pure(success: bool, stderr: &[u8], mapping: &ErrnoLocaleMapping) -> (r: Result<
    Result<(), HelperUnmountError>,
    BadPattern,
>)
    ensures
        if success {
            r matches Ok(outcome) && outcome is Ok
        } else {
            match regex_groups(complaint_pattern(), stderr@) {
                Some(groups) => r matches Ok(outcome) && helper_came_to(
                    false,
                    third_group(groups),
                    mapping@,
                    outcome,
                ),
                None => r is Err,
            }
        },
{
    if success {
        return Ok(Ok(()));
    }
    match parse_fusermount_unmount_stderr(stderr) {
        Ok(reason) => Ok(helper_outcome(false, reason, mapping)),
        Err(e) => Err(e),
    }
}

/// A helper is told to unmount first, then to detach as often as that is asked for, and then that
/// no options follow.
pub proof fn lemma_helper_is_told_to_unmount(flags: &[UnmountOption], r: Vec<String>)
    requires
        call_ensures(unmount_args, (flags,), r),
    ensures
        r@.len() >= 2,
        r@[0]@ == "-u"@,
        r@.last()@ == "--"@,
        forall|i: int| 1 <= i < r@.len() - 1 ==> #[trigger] r@[i]@ == "-z"@,
        r@.len() > 2 <==> flags@.contains(UnmountOption::Detach),
{
    let t = texts_of(r@);
    lemma_flag_args(flags@);
    assert(t.len() == r@.len());
    assert forall|i: int| 0 <= i < t.len() implies t[i] == #[trigger] r@[i]@ by {
    }
    assert(t[0] == "-u"@);
    assert(t[t.len() - 1] == "--"@);
    assert forall|i: int| 1 <= i < r@.len() - 1 implies #[trigger] r@[i]@ == "-z"@ by {
        assert(t[i] == flag_args(flags@)[i - 1]);
    }
}

proof fn lemma_flag_args(flags: Seq<UnmountOption>)
    ensures
        forall|i: int| 0 <= i < flag_args(flags).len() ==> #[trigger] flag_args(flags)[i] == "-z"@,
        flag_args(flags).len() > 0 <==> flags.contains(UnmountOption::Detach),
    decreases flags.len(),
{
    if flags.len() > 0 {
        let front = flags.drop_last();
        lemma_flag_args(front);
        if front.contains(UnmountOption::Detach) {
            let k = choose|k: int| 0 <= k < front.len() && front[k] == UnmountOption::Detach;
            assert(flags[k] == UnmountOption::Detach);
        }
        if flags.last() == UnmountOption::Detach {
            assert(flags[flags.len() - 1] == UnmountOption::Detach);
        }
        if flags.contains(UnmountOption::Detach) && flags.last() != UnmountOption::Detach {
            let k = choose|k: int| 0 <= k < flags.len() && flags[k] == UnmountOption::Detach;
            assert(front[k] == UnmountOption::Detach);
        }
    }
}

/// What follows on the unmount system call is told by its error number: only one that is not
/// allowed leads to a helper.
pub proof fn lemma_unmount_call_is_followed(result: Result<(), i32>, r: AfterUnmountCall)
    requires
        call_ensures(after_unmount_call, (result,), r),
    ensures
        r is Unmounted <==> result is Ok,
        r is TryHelper <==> result == Err::<(), i32>(1),
        r matches AfterUnmountCall::Failed(e) ==> result == Err::<(), i32>(e),
{
}

/// The reason for a complaint is the third group of its match; what does not match has none.
pub proof fn lemma_reason_is_third(groups: Groups, r: Option<Vec<u8>>)
    requires
        call_ensures(complaint_reason, (groups,), r),
    ensures
        groups is None <==> r is None,
        groups matches Some(list) ==> (list@.len() > 3 && list@[3] is Some ==> r->0@
            == list@[3]->0@),
        groups matches Some(list) ==> (list@.len() <= 3 || list@[3] is None ==> r->0@.len() == 0),
{
    if let Some(list) = groups {
        let view = groups_view(groups)->0;
        assert(view.len() == list@.len());
        if list@.len() > 3 {
            assert(view[3] == bytes_of(list@[3]));
        }
    }
}

/// What a helper that failed came to: the error number whose message is the reason that it gives.
pub proof fn lemma_helper_error_is_found(
    success: bool,
    reason: Option<Seq<u8>>,
    mapping: Map<i32, Seq<u8>>,
    r: Result<(), HelperUnmountError>,
)
    requires
        helper_came_to(success, reason, mapping, r),
    ensures
        r is Ok <==> success,
        r matches Err(HelperUnmountError::Os(code)) ==> mapping.dom().contains(code)
            && reason == Some(mapping[code]),
        r matches Err(HelperUnmountError::Unreadable) <==> !success && reason is None,
        r matches Err(HelperUnmountError::UnknownReason) ==> reason is Some && forall|k: i32|
            mapping.dom().contains(k) ==> mapping[k] != reason->0,
{
}

/// Where no helper starts, the newest is taken.
pub proof fn lemma_newest_by_default(set: Option<String>, started: &[bool], r: String)
    requires
        started@.len() == 8,
        call_ensures(detect_fusermount_bin, (set, started), r),
    ensures
        set matches Some(bin) ==> r@ == bin@,
        set is None && (forall|i: int| 0 <= i < 8 ==> !#[trigger] started@[i]) ==> r@
            == "fusermount3"@,
        set is None && started@[0] ==> r@ == "fusermount3"@,
        set is None && !started@[0] && started@[1] ==> r@ == "fusermount"@,
{
}

} // verus!
