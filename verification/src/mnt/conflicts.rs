//! Options of which no two may be given together.

use vstd::prelude::*;

verus! {

/// Options that may conflict.
pub trait Conflicting: Sized {
    /// Whether the option stands alone, without a value.
    spec fn plain(self) -> bool;

    /// Whether the two may not be given together.
    spec fn in_conflict(self, other: Self) -> bool;

    /// Only options without a value conflict.
    proof fn lemma_conflict_is_plain(self, other: Self)
        requires
            self.in_conflict(other),
        ensures
            self.plain(),
            other.plain(),
    ;

    /// The conflict is mutual, and no option conflicts with itself.
    proof fn lemma_conflict_is_mutual(self, other: Self)
        ensures
            self.in_conflict(other) == other.in_conflict(self),
            !self.in_conflict(self),
    ;

    /// Whether the two may not be given together.
    fn conflicts(&self, other: &Self) -> (r: bool)
        ensures
            r == self.in_conflict(*other),
    ;

    /// Whether two options without a value are the same.
    fn same(&self, other: &Self) -> (r: bool)
        requires
            self.plain(),
            other.plain(),
        ensures
            r == (*self == *other),
    ;

    /// The option once more.
    fn again(&self) -> (r: Self)
        requires
            self.plain(),
        ensures
            r == *self,
    ;
}

/// Whether `option` is given, and another that it may not be given with.
pub open spec fn conflicted<T: Conflicting>(options: Seq<T>, option: T) -> bool {
    exists|i: int, j: int|
        0 <= i < options.len() && 0 <= j < options.len() && #[trigger] options[i] == option
            && #[trigger] options[j].in_conflict(option)
}

/// Whether no two options conflict.
pub open spec fn conflict_free<T: Conflicting>(options: Seq<T>) -> bool {
    forall|i: int, j: int|
        0 <= i < options.len() && 0 <= j < options.len() ==> !(#[trigger] options[j]).in_conflict(
            #[trigger] options[i],
        )
}

/// Whether some option among `options` conflicts with `option`.
fn has_conflict<T: Conflicting>(options: &[T], option: &T) -> (r: bool)
    ensures
        r == exists|j: int| 0 <= j < options@.len() && #[trigger] options@[j].in_conflict(*option),
{
    let mut j: usize = 0;
    while j < options.len()
        invariant
            j <= options@.len(),
            forall|k: int| 0 <= k < j ==> !(#[trigger] options@[k]).in_conflict(*option),
        decreases options.len() - j,
    {
        if options[j].conflicts(option) {
            return true;
        }
        j += 1;
    }
    false
}

/// Whether `option` is among `found`.
fn is_among<T: Conflicting>(found: &Vec<T>, option: &T) -> (r: bool)
    requires
        option.plain(),
        forall|k: int| 0 <= k < found@.len() ==> (#[trigger] found@[k]).plain(),
    ensures
        r == found@.contains(*option),
{
    let mut k: usize = 0;
    while k < found.len()
        invariant
            k <= found@.len(),
            option.plain(),
            forall|n: int| 0 <= n < found@.len() ==> (#[trigger] found@[n]).plain(),
            forall|n: int| 0 <= n < k ==> found@[n] != *option,
        decreases found.len() - k,
    {
        if found[k].same(option) {
            return true;
        }
        k += 1;
    }
    false
}

/// The options that are given together with one that they may not be given with, each once.
pub fn conflicting_options<T: Conflicting>(options: &[T]) -> (r: Vec<T>)
    ensures
        r@.no_duplicates(),
        forall|o: T| r@.contains(o) <==> conflicted(options@, o),
        r@.len() == 0 <==> conflict_free(options@),
{
    let mut found: Vec<T> = Vec::new();
    let mut i: usize = 0;
    while i < options.len()
        invariant
            i <= options@.len(),
            found@.no_duplicates(),
            forall|k: int| 0 <= k < found@.len() ==> (#[trigger] found@[k]).plain(),
            forall|k: int| 0 <= k < found@.len() ==> conflicted(options@, #[trigger] found@[k]),
            forall|n: int, j: int|
                0 <= n < i && 0 <= j < options@.len() && (#[trigger] options@[j]).in_conflict(
                    #[trigger] options@[n],
                ) ==> found@.contains(options@[n]),
        decreases options.len() - i,
    {
        let ghost before = found@;
        if has_conflict(options, &options[i]) {
            proof {
                let j = choose|j: int|
                    0 <= j < options@.len() && #[trigger] options@[j].in_conflict(
                        options@[i as int],
                    );
                options@[j].lemma_conflict_is_plain(options@[i as int]);
                assert(conflicted(options@, options@[i as int]));
            }
            if !is_among(&found, &options[i]) {
                found.push(options[i].again());
                assert forall|o: T| before.contains(o) implies found@.contains(o) by {
                    let k = choose|k: int| 0 <= k < before.len() && before[k] == o;
                    assert(found@[k] == o);
                }
                assert(found@[before.len() as int] == options@[i as int]);
            }
        }
        i += 1;
    }
    proof {
        assert forall|o: T| conflicted(options@, o) implies found@.contains(o) by {
            let (n, j) = choose|n: int, j: int|
                0 <= n < options@.len() && 0 <= j < options@.len() && #[trigger] options@[n] == o
                    && #[trigger] options@[j].in_conflict(o);
            assert(options@[j].in_conflict(options@[n]));
        }
        if found@.len() > 0 {
            assert(found@.contains(found@[0]));
            let o = found@[0];
            let (n, j) = choose|n: int, j: int|
                0 <= n < options@.len() && 0 <= j < options@.len() && #[trigger] options@[n] == o
                    && #[trigger] options@[j].in_conflict(o);
            assert(options@[j].in_conflict(options@[n]));
        } else {
            assert forall|n: int, j: int|
                0 <= n < options@.len() && 0 <= j < options@.len() implies !(
            #[trigger] options@[j]).in_conflict(#[trigger] options@[n]) by {
                if options@[j].in_conflict(options@[n]) {
                    assert(found@.contains(options@[n]));
                }
            }
        }
    }
    found
}

/// Of two options that conflict both are named, wherever they stand; an option that conflicts with
/// none is not.
pub proof fn lemma_both_are_named<T: Conflicting>(options: &[T], r: Vec<T>, i: int)
    requires
        call_ensures(conflicting_options::<T>, (options,), r),
        0 <= i < options@.len(),
    ensures
        r@.contains(options@[i]) <==> exists|j: int|
            0 <= j < options@.len() && options@[i].in_conflict(#[trigger] options@[j]),
{
    let list = options@;
    if conflicted(list, list[i]) {
        let (n, j) = choose|n: int, j: int|
            0 <= n < list.len() && 0 <= j < list.len() && #[trigger] list[n] == list[i]
                && #[trigger] list[j].in_conflict(list[i]);
        list[i].lemma_conflict_is_mutual(list[j]);
        assert(list[i].in_conflict(list[j]));
    }
    if exists|j: int| 0 <= j < list.len() && list[i].in_conflict(#[trigger] list[j]) {
        let j = choose|j: int| 0 <= j < list.len() && list[i].in_conflict(#[trigger] list[j]);
        list[i].lemma_conflict_is_mutual(list[j]);
        assert(list[j].in_conflict(list[i]));
        assert(conflicted(list, list[i]));
    }
}

} // verus!
