//! Options of an unmount.

use vstd::prelude::*;
use vstd::string::StringExecFns;

use crate::mnt::conflicts::{conflict_free, conflicted, conflicting_options, Conflicting};

verus! {

pub const MNT_FORCE: i32 = 1;

pub const MNT_DETACH: i32 = 2;

pub const MNT_EXPIRE: i32 = 4;

pub const UMOUNT_NOFOLLOW: i32 = 8;

/// Unmount options accepted by the umount2 or unmount syscall
#[derive(Clone, Copy, Debug, PartialEq, Eq, Hash, Structural)]
pub enum UnmountOption {
    /// Force the unmount
    Force,
    /// Detach the filesystem
    Detach,
    /// Mark the mount as expired
    Expire,
    /// Don't follow symlinks
    NoFollow,
}

impl Conflicting for UnmountOption {
    open spec fn plain(self) -> bool {
        true
    }

    open spec fn in_conflict(self, other: Self) -> bool {
        !(self is NoFollow) && !(other is NoFollow) && self != other
    }

    proof fn lemma_conflict_is_plain(self, other: Self) {
    }

    proof fn lemma_conflict_is_mutual(self, other: Self) {
    }

    fn conflicts(&self, other: &Self) -> (r: bool) {
        *self != UnmountOption::NoFollow && *other != UnmountOption::NoFollow && *self != *other
    }

    fn same(&self, other: &Self) -> (r: bool) {
        *self == *other
    }

    fn again(&self) -> (r: Self) {
        *self
    }
}

/// The options that may not be given with `option`.
pub open spec fn conflict_list(option: UnmountOption) -> Seq<UnmountOption> {
    match option {
        UnmountOption::Force => seq![UnmountOption::Detach, UnmountOption::Expire],
        UnmountOption::Detach => seq![UnmountOption::Force, UnmountOption::Expire],
        UnmountOption::Expire => seq![UnmountOption::Force, UnmountOption::Detach],
        _ => Seq::empty(),
    }
}

/// The options that may not be given with `option`.
pub fn conflicts_with(option: &UnmountOption) -> (r: Vec<UnmountOption>)
    ensures
        r@ == conflict_list(*option),
        forall|other: UnmountOption| r@.contains(other) <==> option.in_conflict(other),
{
    let r = match option {
        UnmountOption::Force => vec![UnmountOption::Detach, UnmountOption::Expire],
        UnmountOption::Detach => vec![UnmountOption::Force, UnmountOption::Expire],
        UnmountOption::Expire => vec![UnmountOption::Force, UnmountOption::Detach],
        UnmountOption::NoFollow => vec![],
    };
    assert(r@ =~= conflict_list(*option));
    proof {
        assert forall|other: UnmountOption| option.in_conflict(other) implies r@.contains(other) by {
            assert(r@[0] == other || r@[1] == other);
        }
    }
    r
}

/// Two options that may not be given together may not whichever is looked at, no option conflicts
/// with itself, and each conflicts with at most two others.
pub proof fn lemma_conflicts_are_mutual(a: UnmountOption, b: UnmountOption)
    ensures
        conflict_list(a).contains(b) <==> conflict_list(b).contains(a),
        !conflict_list(a).contains(a),
        conflict_list(a).no_duplicates(),
        conflict_list(a).len() <= 2,
{
    if a.in_conflict(b) {
        assert(conflict_list(a)[0] == b || conflict_list(a)[1] == b);
        assert(conflict_list(b)[0] == a || conflict_list(b)[1] == a);
    }
}

/// Options were given that may not be given together.
#[derive(Clone, Debug, PartialEq, Eq)]
pub struct UnmountConflictError {
    /// The options, each once.
    pub conflicting: Vec<UnmountOption>,
}

/// Checks that no two options conflict.
pub fn check_option_conflicts(options: &[UnmountOption]) -> (r: Result<(), UnmountConflictError>)
    ensures
        r is Ok <==> conflict_free(options@),
        r matches Err(e) ==> {
            &&& e.conflicting@.no_duplicates()
            &&& forall|o: UnmountOption|
                e.conflicting@.contains(o) <==> #[trigger] conflicted(options@, o)
        },
{
    let conflicting: Vec<UnmountOption> = conflicting_options(options);
    if conflicting.len() == 0 {
        Ok(())
    } else {
        Err(UnmountConflictError { conflicting })
    }
}

/// The argument of a mount helper that stands for an option, where there is one.
pub open spec fn fusermount_option(option: UnmountOption) -> Option<Seq<char>> {
    match option {
        UnmountOption::Detach => Some("-z"@),
        _ => None,
    }
}

/// The argument of a mount helper that stands for an option, where there is one.
pub fn to_fusermount_option(option: &UnmountOption) -> (r: Option<String>)
    ensures
        match r {
            Some(s) => fusermount_option(*option) == Some(s@),
            None => fusermount_option(*option) is None,
        },
{
    match option {
        UnmountOption::Force => None,
        UnmountOption::Detach => Some(String::from_str("-z")),
        UnmountOption::Expire => None,
        UnmountOption::NoFollow => None,
    }
}

/// The flag of the system call that stands for an option.
pub open spec fn unmount_flag(option: UnmountOption) -> i32 {
    match option {
        UnmountOption::Force => MNT_FORCE,
        UnmountOption::Detach => MNT_DETACH,
        UnmountOption::Expire => MNT_EXPIRE,
        UnmountOption::NoFollow => UMOUNT_NOFOLLOW,
    }
}

/// The flags of all options together.
pub open spec fn unmount_flags(options: Seq<UnmountOption>) -> i32
    decreases options.len(),
{
    if options.len() == 0 {
        0
    } else {
        unmount_flags(options.drop_last()) | unmount_flag(options.last())
    }
}

/// The flags of the system call that stand for the options.
pub fn to_unmount_syscall(options: &[UnmountOption]) -> (r: i32)
    ensures
        r == unmount_flags(options@),
{
    let mut res: i32 = 0;
    let mut i: usize = 0;
    while i < options.len()
        invariant
            i <= options@.len(),
            res == unmount_flags(options@.take(i as int)),
        decreases options.len() - i,
    {
        assert(options@.take(i + 1).drop_last() =~= options@.take(i as int));
        let flag: i32 = match options[i] {
            UnmountOption::Force => MNT_FORCE,
            UnmountOption::Detach => MNT_DETACH,
            UnmountOption::Expire => MNT_EXPIRE,
            UnmountOption::NoFollow => UMOUNT_NOFOLLOW,
        };
        res = res | flag;
        i += 1;
    }
    assert(options@.take(i as int) =~= options@);
    res
}

/// The flag of an option is set exactly where the option is given.
pub proof fn lemma_flag_is_set(options: Seq<UnmountOption>, option: UnmountOption)
    ensures
        (unmount_flags(options) & unmount_flag(option) == unmount_flag(option))
            == options.contains(option),
    decreases options.len(),
{
    let flag = unmount_flag(option);
    if options.len() == 0 {
        assert(0i32 & 1 == 0 && 0i32 & 2 == 0 && 0i32 & 4 == 0 && 0i32 & 8 == 0) by (bit_vector);
    } else {
        let front = options.drop_last();
        let before = unmount_flags(front);
        let last = unmount_flag(options.last());
        lemma_flag_is_set(front, option);
        assert(flag == 1 || flag == 2 || flag == 4 || flag == 8);
        assert(last == 1 || last == 2 || last == 4 || last == 8);
        assert(((before | last) & flag == flag) == (before & flag == flag || last == flag))
            by (bit_vector)
            requires
                flag == 1 || flag == 2 || flag == 4 || flag == 8,
                last == 1 || last == 2 || last == 4 || last == 8,
        ;
        assert((last == flag) == (options.last() == option));
        if front.contains(option) {
            let k = choose|k: int| 0 <= k < front.len() && front[k] == option;
            assert(options[k] == option);
        }
        if options.last() == option {
            assert(options[options.len() - 1] == option);
        }
        if options.contains(option) && options.last() != option {
            let k = choose|k: int| 0 <= k < options.len() && options[k] == option;
            assert(front[k] == option);
        }
    }
}

/// Of forcing, detaching and expiring only one may be asked for, and not following links goes with
/// any of them. Those that were asked for together are told.
#[verifier::rlimit(40)]
pub proof fn lemma_one_way_to_unmount(given: &[UnmountOption], r: Result<(), UnmountConflictError>)
    requires
        call_ensures(check_option_conflicts, (given,), r),
    ensures
        r is Ok <==> {
            &&& !(given@.contains(UnmountOption::Force) && given@.contains(UnmountOption::Detach))
            &&& !(given@.contains(UnmountOption::Force) && given@.contains(UnmountOption::Expire))
            &&& !(given@.contains(UnmountOption::Detach) && given@.contains(UnmountOption::Expire))
        },
        r matches Err(e) ==> forall|o: UnmountOption|
            e.conflicting@.contains(o) <==> given@.contains(o) && o != UnmountOption::NoFollow,
{
    let options = given@;
    let f = UnmountOption::Force;
    let d = UnmountOption::Detach;
    let x = UnmountOption::Expire;
    if conflict_free(options) {
        assert forall|a: UnmountOption, b: UnmountOption|
            options.contains(a) && options.contains(b) implies !a.in_conflict(b) by {
            let i = choose|i: int| 0 <= i < options.len() && options[i] == a;
            let j = choose|j: int| 0 <= j < options.len() && options[j] == b;
            assert(!options[i].in_conflict(options[j]));
        }
        assert(f.in_conflict(d) && f.in_conflict(x) && d.in_conflict(x));
    } else {
        let (i, j) = choose|i: int, j: int|
            0 <= i < options.len() && 0 <= j < options.len() && (
            #[trigger] options[j]).in_conflict(#[trigger] options[i]);
        assert(options.contains(options[i]) && options.contains(options[j]));
        assert forall|o: UnmountOption|
            options.contains(o) && o != UnmountOption::NoFollow implies conflicted(options, o) by {
            let k = choose|k: int| 0 <= k < options.len() && options[k] == o;
            if options[i] == o {
                assert(options[j].in_conflict(o));
            } else {
                assert(options[i].in_conflict(o));
            }
            assert(options[k] == o);
        }
        if let Err(e) = r {
            assert forall|o: UnmountOption|
                e.conflicting@.contains(o) <==> options.contains(o) && o
                    != UnmountOption::NoFollow by {
                if e.conflicting@.contains(o) {
                    assert(conflicted(options, o));
                    let (i, j) = choose|i: int, j: int|
                        0 <= i < options.len() && 0 <= j < options.len() && #[trigger] options[i]
                            == o && #[trigger] options[j].in_conflict(o);
                    assert(options[i] == o);
                }
                if options.contains(o) && o != UnmountOption::NoFollow {
                    assert(conflicted(options, o));
                }
            }
        }
    }
}

/// The system call is told by number what was asked for, and nothing else.
pub proof fn lemma_unmount_numbers(options: &[UnmountOption], r: i32)
    requires
        call_ensures(to_unmount_syscall, (options,), r),
    ensures
        (r & 1 == 1) <==> options@.contains(UnmountOption::Force),
        (r & 2 == 2) <==> options@.contains(UnmountOption::Detach),
        (r & 4 == 4) <==> options@.contains(UnmountOption::Expire),
        (r & 8 == 8) <==> options@.contains(UnmountOption::NoFollow),
        0 <= r < 16,
{
    lemma_flag_is_set(options@, UnmountOption::Force);
    lemma_flag_is_set(options@, UnmountOption::Detach);
    lemma_flag_is_set(options@, UnmountOption::Expire);
    lemma_flag_is_set(options@, UnmountOption::NoFollow);
    lemma_flags_are_small(options@);
}

proof fn lemma_flags_are_small(options: Seq<UnmountOption>)
    ensures
        0 <= unmount_flags(options) < 16,
    decreases options.len(),
{
    if options.len() > 0 {
        lemma_flags_are_small(options.drop_last());
        let a = unmount_flags(options.drop_last());
        let b = unmount_flag(options.last());
        assert(0 <= (a | b) < 16) by (bit_vector)
            requires
                0 <= a < 16,
                0 <= b < 16,
        ;
    }
}

/// A mount helper is told only to detach.
pub proof fn lemma_helper_is_told(option: UnmountOption, r: Option<String>)
    requires
        call_ensures(to_fusermount_option, (&option,), r),
    ensures
        option is Detach ==> (r matches Some(s) && s@ == "-z"@),
        !(option is Detach) ==> r is None,
{
}

} // verus!
