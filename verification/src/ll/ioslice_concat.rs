//! Slices that stand in several places and are sent as one.

use vstd::prelude::*;

use crate::ll::response_buf::{joined, slices_of, IoVec};

verus! {

/// Values that give slices, in an order.
pub trait IosliceConcat {
    /// What the slices hold, in order.
    spec fn slices(&self) -> Seq<Seq<u8>>;

    /// The slices, in order.
    fn iter_slices(&self) -> (r: Vec<&[u8]>)
        ensures
            slices_of(r@) == self.slices(),
    ;

    /// The length of all slices together, which must be one that can be counted.
    fn sum_len(&self) -> (n: usize)
        requires
            joined(self.slices()).len() <= usize::MAX,
        ensures
            n == joined(self.slices()).len(),
    {
        let v: Vec<&[u8]> = self.iter_slices();
        let ghost all = self.slices();
        let mut n: usize = 0;
        let mut i: usize = 0;
        while i < v.len()
            invariant
                i <= v@.len(),
                slices_of(v@) == all,
                joined(all).len() <= usize::MAX,
                n == joined(all.take(i as int)).len(),
            decreases v.len() - i,
        {
            proof {
                lemma_joined_grows(all, i as int);
            }
            n = n + v[i].len();
            i += 1;
        }
        assert(all.take(i as int) =~= all);
        n
    }

    /// Hands the slices to `f`.
    fn with_ioslice<R, F: FnOnce(&[&[u8]]) -> R>(&self, f: F) -> (r: R)
        requires
            self.slices().len() < usize::MAX / 64,
            forall|iov: &[&[u8]]|
                slices_of(iov@) == self.slices() ==> #[trigger] call_requires(f, (iov,)),
        ensures
            exists|iov: &[&[u8]]|
                slices_of(iov@) == self.slices() && #[trigger] call_ensures(f, (iov,), r),
    {
        let v: Vec<&[u8]> = self.iter_slices();
        let ghost all = self.slices();
        let mut out = IoVec::new();
        let mut i: usize = 0;
        assert(out@ =~= all.take(0));
        while i < v.len()
            invariant
                i <= v@.len(),
                slices_of(v@) == all,
                all.len() < usize::MAX / 64,
                out@ == all.take(i as int),
            decreases v.len() - i,
        {
            assert(all.take(i + 1) =~= all.take(i as int).push(all[i as int]));
            out.push(v[i]);
            i += 1;
        }
        assert(all.take(i as int) =~= all);
        f(out.as_slice())
    }
}

/// One more slice is counted, and all of them are no shorter.
pub proof fn lemma_joined_grows(all: Seq<Seq<u8>>, i: int)
    requires
        0 <= i < all.len(),
    ensures
        joined(all.take(i + 1)) == joined(all.take(i)) + all[i],
        joined(all.take(i + 1)).len() <= joined(all).len(),
    decreases all.len() - i,
{
    assert(all.take(i + 1).drop_last() =~= all.take(i));
    if i + 1 < all.len() {
        lemma_joined_grows(all, i + 1);
    } else {
        assert(all.take(i + 1) =~= all);
    }
}

/// A copy of a list of slices.
fn copied<'a>(list: &[&'a [u8]]) -> (r: Vec<&'a [u8]>)
    ensures
        slices_of(r@) == slices_of(list@),
{
    let mut r: Vec<&'a [u8]> = Vec::new();
    let mut i: usize = 0;
    while i < list.len()
        invariant
            i <= list@.len(),
            r@ == list@.take(i as int),
        decreases list.len() - i,
    {
        assert(list@.take(i + 1) =~= list@.take(i as int).push(list@[i as int]));
        r.push(list[i]);
        i += 1;
    }
    assert(list@.take(i as int) =~= list@);
    r
}

impl<'a> IosliceConcat for &'a [&'a [u8]] {
    open spec fn slices(&self) -> Seq<Seq<u8>> {
        slices_of(self@)
    }

    fn iter_slices(&self) -> (r: Vec<&[u8]>) {
        copied(self)
    }
}

impl<'a, const N: usize> IosliceConcat for [&'a [u8]; N] {
    open spec fn slices(&self) -> Seq<Seq<u8>> {
        slices_of(self@)
    }

    fn iter_slices(&self) -> (r: Vec<&[u8]>) {
        copied(self.as_slice())
    }
}

impl<A: IosliceConcat, B: IosliceConcat> IosliceConcat for (A, B) {
    open spec fn slices(&self) -> Seq<Seq<u8>> {
        self.0.slices() + self.1.slices()
    }

    fn iter_slices(&self) -> (r: Vec<&[u8]>) {
        let mut r: Vec<&[u8]> = self.0.iter_slices();
        let ghost front = r@;
        let mut rest: Vec<&[u8]> = self.1.iter_slices();
        let ghost back = rest@;
        r.append(&mut rest);
        assert(slices_of(r@) =~= slices_of(front) + slices_of(back));
        r
    }
}

impl<A: IosliceConcat> IosliceConcat for Option<A> {
    open spec fn slices(&self) -> Seq<Seq<u8>> {
        match self {
            Some(x) => x.slices(),
            None => Seq::empty(),
        }
    }

    fn iter_slices(&self) -> (r: Vec<&[u8]>) {
        match self {
            Some(x) => x.iter_slices(),
            None => {
                let r: Vec<&[u8]> = Vec::new();
                assert(slices_of(r@) =~= Seq::<Seq<u8>>::empty());
                r
            },
        }
    }
}

/// The slices of a pair are joined as those of its parts are.
pub proof fn lemma_joined_pair(a: Seq<Seq<u8>>, b: Seq<Seq<u8>>)
    ensures
        joined(a + b) == joined(a) + joined(b),
    decreases b.len(),
{
    if b.len() == 0 {
        assert(a + b =~= a);
        assert(joined(a) + joined(b) =~= joined(a));
    } else {
        lemma_joined_pair(a, b.drop_last());
        assert((a + b).drop_last() =~= a + b.drop_last());
        assert(joined(a) + joined(b) =~= joined(a) + joined(b.drop_last()) + b.last());
    }
}

/// The slices of a list stand in its order, each as it is.
pub proof fn lemma_slices_of_a_list<'a>(list: &'a [&'a [u8]], r: Vec<&[u8]>, i: int)
    requires
        call_ensures(<&'a [&'a [u8]] as IosliceConcat>::iter_slices, (&list,), r),
        0 <= i < list@.len(),
    ensures
        r@.len() == list@.len(),
        r@[i]@ == list@[i]@,
{
    assert(slices_of(r@).len() == slices_of(list@).len());
    assert(slices_of(r@)[i] == r@[i]@);
    assert(slices_of(list@)[i] == list@[i]@);
}

/// The slices of a pair are those of its first part and behind them those of its second.
pub proof fn lemma_slices_of_a_pair<A: IosliceConcat, B: IosliceConcat>(
    pair: (A, B),
    r: Vec<&[u8]>,
    a: Vec<&[u8]>,
    b: Vec<&[u8]>,
)
    requires
        call_ensures(<(A, B) as IosliceConcat>::iter_slices, (&pair,), r),
        call_ensures(<A as IosliceConcat>::iter_slices, (&pair.0,), a),
        call_ensures(<B as IosliceConcat>::iter_slices, (&pair.1,), b),
    ensures
        r@.len() == a@.len() + b@.len(),
        forall|i: int| 0 <= i < a@.len() ==> #[trigger] a@[i]@ == r@[i]@,
        forall|i: int| 0 <= i < b@.len() ==> #[trigger] b@[i]@ == r@[a@.len() + i]@,
{
    let all = slices_of(r@);
    assert(all.len() == r@.len());
    assert(slices_of(a@).len() == a@.len());
    assert(slices_of(b@).len() == b@.len());
    assert forall|i: int| 0 <= i < a@.len() implies #[trigger] a@[i]@ == r@[i]@ by {
        assert(slices_of(a@)[i] == a@[i]@);
        assert(all[i] == r@[i]@);
    }
    assert forall|i: int| 0 <= i < b@.len() implies #[trigger] b@[i]@ == r@[a@.len() + i]@ by {
        assert(slices_of(b@)[i] == b@[i]@);
        assert(all[a@.len() + i] == r@[a@.len() + i]@);
    }
}

/// What is there has its slices, and what is not has none.
pub proof fn lemma_slices_of_what_is_there<A: IosliceConcat>(x: Option<A>, r: Vec<&[u8]>)
    requires
        call_ensures(<Option<A> as IosliceConcat>::iter_slices, (&x,), r),
    ensures
        x is None ==> r@.len() == 0,
        x matches Some(a) ==> slices_of(r@) == a.slices(),
{
    assert(slices_of(r@).len() == r@.len());
}

} // verus!
