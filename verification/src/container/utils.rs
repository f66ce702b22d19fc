//! Making containers, copying them, and what they hold.

use std::borrow::Cow;
use std::cell::RefCell;
use std::rc::Rc;
use std::sync::{Arc, Mutex, RwLock};
use vstd::prelude::*;
use vstd::std_specs::convert::{FromSpec, FromSpecImpl};

use crate::container::kinds::{came_of, items_of, Borrow, BorrowError, Container};

verus! {

impl<'a, T: Clone> From<()> for Container<'a, T> {
    fn from(value: ()) -> (r: Self) {
        Container::Empty
    }
}

impl<'a, T: Clone> FromSpecImpl<()> for Container<'a, T> {
    open spec fn obeys_from_spec() -> bool {
        true
    }

    open spec fn from_spec(value: ()) -> Self {
        Container::Empty
    }
}

impl<'a, T: Clone> From<Box<[T]>> for Container<'a, T> {
    fn from(value: Box<[T]>) -> (r: Self) {
        Container::Box(value)
    }
}

impl<'a, T: Clone> FromSpecImpl<Box<[T]>> for Container<'a, T> {
    open spec fn obeys_from_spec() -> bool {
        true
    }

    open spec fn from_spec(value: Box<[T]>) -> Self {
        Container::Box(value)
    }
}

impl<'a, T: Clone> From<Vec<T>> for Container<'a, T> {
    fn from(value: Vec<T>) -> (r: Self) {
        Container::Vec(value)
    }
}

impl<'a, T: Clone> FromSpecImpl<Vec<T>> for Container<'a, T> {
    open spec fn obeys_from_spec() -> bool {
        true
    }

    open spec fn from_spec(value: Vec<T>) -> Self {
        Container::Vec(value)
    }
}

impl<'a, T: Clone> From<&'a [T]> for Container<'a, T> {
    fn from(value: &'a [T]) -> (r: Self) {
        Container::Ref(value)
    }
}

impl<'a, T: Clone> FromSpecImpl<&'a [T]> for Container<'a, T> {
    open spec fn obeys_from_spec() -> bool {
        true
    }

    open spec fn from_spec(value: &'a [T]) -> Self {
        Container::Ref(value)
    }
}

impl<'a, T: Clone> From<Cow<'a, [T]>> for Container<'a, T> {
    fn from(value: Cow<'a, [T]>) -> (r: Self) {
        Container::Cow(value)
    }
}

impl<'a, T: Clone> FromSpecImpl<Cow<'a, [T]>> for Container<'a, T> {
    open spec fn obeys_from_spec() -> bool {
        true
    }

    open spec fn from_spec(value: Cow<'a, [T]>) -> Self {
        Container::Cow(value)
    }
}

impl<'a, T: Clone> From<Rc<[T]>> for Container<'a, T> {
    fn from(value: Rc<[T]>) -> (r: Self) {
        Container::Rc(value)
    }
}

impl<'a, T: Clone> FromSpecImpl<Rc<[T]>> for Container<'a, T> {
    open spec fn obeys_from_spec() -> bool {
        true
    }

    open spec fn from_spec(value: Rc<[T]>) -> Self {
        Container::Rc(value)
    }
}

impl<'a, T: Clone> From<Arc<[T]>> for Container<'a, T> {
    fn from(value: Arc<[T]>) -> (r: Self) {
        Container::Arc(value)
    }
}

impl<'a, T: Clone> FromSpecImpl<Arc<[T]>> for Container<'a, T> {
    open spec fn obeys_from_spec() -> bool {
        true
    }

    open spec fn from_spec(value: Arc<[T]>) -> Self {
        Container::Arc(value)
    }
}

impl<'a, T: Clone> From<&'a Box<[T]>> for Container<'a, T> {
    fn from(value: &'a Box<[T]>) -> (r: Self) {
        Container::RefBox(value)
    }
}

impl<'a, T: Clone> FromSpecImpl<&'a Box<[T]>> for Container<'a, T> {
    open spec fn obeys_from_spec() -> bool {
        true
    }

    open spec fn from_spec(value: &'a Box<[T]>) -> Self {
        Container::RefBox(value)
    }
}

impl<'a, T: Clone> From<&'a Vec<T>> for Container<'a, T> {
    fn from(value: &'a Vec<T>) -> (r: Self) {
        Container::RefVec(value)
    }
}

impl<'a, T: Clone> FromSpecImpl<&'a Vec<T>> for Container<'a, T> {
    open spec fn obeys_from_spec() -> bool {
        true
    }

    open spec fn from_spec(value: &'a Vec<T>) -> Self {
        Container::RefVec(value)
    }
}

impl<'a, T: Clone> From<Cow<'a, Box<[T]>>> for Container<'a, T> {
    fn from(value: Cow<'a, Box<[T]>>) -> (r: Self) {
        Container::CowBox(value)
    }
}

impl<'a, T: Clone> FromSpecImpl<Cow<'a, Box<[T]>>> for Container<'a, T> {
    open spec fn obeys_from_spec() -> bool {
        true
    }

    open spec fn from_spec(value: Cow<'a, Box<[T]>>) -> Self {
        Container::CowBox(value)
    }
}

impl<'a, T: Clone> From<Cow<'a, Vec<T>>> for Container<'a, T> {
    fn from(value: Cow<'a, Vec<T>>) -> (r: Self) {
        Container::CowVec(value)
    }
}

impl<'a, T: Clone> FromSpecImpl<Cow<'a, Vec<T>>> for Container<'a, T> {
    open spec fn obeys_from_spec() -> bool {
        true
    }

    open spec fn from_spec(value: Cow<'a, Vec<T>>) -> Self {
        Container::CowVec(value)
    }
}

impl<'a, T: Clone> From<Rc<Box<[T]>>> for Container<'a, T> {
    fn from(value: Rc<Box<[T]>>) -> (r: Self) {
        Container::RcBox(value)
    }
}

impl<'a, T: Clone> FromSpecImpl<Rc<Box<[T]>>> for Container<'a, T> {
    open spec fn obeys_from_spec() -> bool {
        true
    }

    open spec fn from_spec(value: Rc<Box<[T]>>) -> Self {
        Container::RcBox(value)
    }
}

impl<'a, T: Clone> From<Rc<Vec<T>>> for Container<'a, T> {
    fn from(value: Rc<Vec<T>>) -> (r: Self) {
        Container::RcVec(value)
    }
}

impl<'a, T: Clone> FromSpecImpl<Rc<Vec<T>>> for Container<'a, T> {
    open spec fn obeys_from_spec() -> bool {
        true
    }

    open spec fn from_spec(value: Rc<Vec<T>>) -> Self {
        Container::RcVec(value)
    }
}

impl<'a, T: Clone> From<Arc<Box<[T]>>> for Container<'a, T> {
    fn from(value: Arc<Box<[T]>>) -> (r: Self) {
        Container::ArcBox(value)
    }
}

impl<'a, T: Clone> FromSpecImpl<Arc<Box<[T]>>> for Container<'a, T> {
    open spec fn obeys_from_spec() -> bool {
        true
    }

    open spec fn from_spec(value: Arc<Box<[T]>>) -> Self {
        Container::ArcBox(value)
    }
}

impl<'a, T: Clone> From<Arc<Vec<T>>> for Container<'a, T> {
    fn from(value: Arc<Vec<T>>) -> (r: Self) {
        Container::ArcVec(value)
    }
}

impl<'a, T: Clone> FromSpecImpl<Arc<Vec<T>>> for Container<'a, T> {
    open spec fn obeys_from_spec() -> bool {
        true
    }

    open spec fn from_spec(value: Arc<Vec<T>>) -> Self {
        Container::ArcVec(value)
    }
}

impl<'a, T: Clone> From<Rc<RefCell<Box<[T]>>>> for Container<'a, T> {
    fn from(value: Rc<RefCell<Box<[T]>>>) -> (r: Self) {
        Container::RcRefCellBox(value)
    }
}

impl<'a, T: Clone> FromSpecImpl<Rc<RefCell<Box<[T]>>>> for Container<'a, T> {
    open spec fn obeys_from_spec() -> bool {
        true
    }

    open spec fn from_spec(value: Rc<RefCell<Box<[T]>>>) -> Self {
        Container::RcRefCellBox(value)
    }
}

impl<'a, T: Clone> From<Rc<RefCell<Vec<T>>>> for Container<'a, T> {
    fn from(value: Rc<RefCell<Vec<T>>>) -> (r: Self) {
        Container::RcRefCellVec(value)
    }
}

impl<'a, T: Clone> FromSpecImpl<Rc<RefCell<Vec<T>>>> for Container<'a, T> {
    open spec fn obeys_from_spec() -> bool {
        true
    }

    open spec fn from_spec(value: Rc<RefCell<Vec<T>>>) -> Self {
        Container::RcRefCellVec(value)
    }
}

impl<'a, T: Clone> From<Arc<Mutex<Box<[T]>>>> for Container<'a, T> {
    fn from(value: Arc<Mutex<Box<[T]>>>) -> (r: Self) {
        Container::ArcMutexBox(value)
    }
}

impl<'a, T: Clone> FromSpecImpl<Arc<Mutex<Box<[T]>>>> for Container<'a, T> {
    open spec fn obeys_from_spec() -> bool {
        true
    }

    open spec fn from_spec(value: Arc<Mutex<Box<[T]>>>) -> Self {
        Container::ArcMutexBox(value)
    }
}

impl<'a, T: Clone> From<Arc<Mutex<Vec<T>>>> for Container<'a, T> {
    fn from(value: Arc<Mutex<Vec<T>>>) -> (r: Self) {
        Container::ArcMutexVec(value)
    }
}

impl<'a, T: Clone> FromSpecImpl<Arc<Mutex<Vec<T>>>> for Container<'a, T> {
    open spec fn obeys_from_spec() -> bool {
        true
    }

    open spec fn from_spec(value: Arc<Mutex<Vec<T>>>) -> Self {
        Container::ArcMutexVec(value)
    }
}

impl<'a, T: Clone> From<Arc<RwLock<Box<[T]>>>> for Container<'a, T> {
    fn from(value: Arc<RwLock<Box<[T]>>>) -> (r: Self) {
        Container::ArcRwLockBox(value)
    }
}

impl<'a, T: Clone> FromSpecImpl<Arc<RwLock<Box<[T]>>>> for Container<'a, T> {
    open spec fn obeys_from_spec() -> bool {
        true
    }

    open spec fn from_spec(value: Arc<RwLock<Box<[T]>>>) -> Self {
        Container::ArcRwLockBox(value)
    }
}

impl<'a, T: Clone> From<Arc<RwLock<Vec<T>>>> for Container<'a, T> {
    fn from(value: Arc<RwLock<Vec<T>>>) -> (r: Self) {
        Container::ArcRwLockVec(value)
    }
}

impl<'a, T: Clone> FromSpecImpl<Arc<RwLock<Vec<T>>>> for Container<'a, T> {
    open spec fn obeys_from_spec() -> bool {
        true
    }

    open spec fn from_spec(value: Arc<RwLock<Vec<T>>>) -> Self {
        Container::ArcRwLockVec(value)
    }
}

/// The length of what was borrowed, and zero where nothing was.
pub fn borrowed_len<T: Clone>(borrowed: &Result<Borrow<'_, T>, BorrowError>) -> (n: usize)
    ensures
        n == items_of(*borrowed).len(),
{
    match borrowed {
        Ok(b) => b.as_slice().len(),
        Err(_) => 0,
    }
}

/// A copy of a slice.
fn slice_copy<T: Clone>(slice: &[T]) -> (r: Vec<T>)
    ensures
        r@.len() == slice@.len(),
        forall|i: int| 0 <= i < r@.len() ==> cloned(slice@[i], #[trigger] r@[i]),
{
    let mut out: Vec<T> = Vec::new();
    let mut i: usize = 0;
    while i < slice.len()
        invariant
            i <= slice@.len(),
            out@.len() == i,
            forall|k: int| 0 <= k < i ==> cloned(slice@[k], #[trigger] out@[k]),
        decreases slice.len() - i,
    {
        out.push(slice[i].clone());
        i += 1;
    }
    out
}

/// Whether nothing was borrowed, or nothing of any length.
pub fn borrowed_is_empty<T: Clone>(borrowed: &Result<Borrow<'_, T>, BorrowError>) -> (r: bool)
    ensures
        r == (items_of(*borrowed).len() == 0),
{
    borrowed_len(borrowed) == 0
}

/// A copy of what was borrowed, and no items where nothing was.
pub fn borrowed_to_vec<T: Clone>(borrowed: &Result<Borrow<'_, T>, BorrowError>) -> (r: Vec<T>)
    ensures
        all_cloned(items_of(*borrowed), r@),
{
    match borrowed {
        Ok(b) => slice_copy(b.as_slice()),
        Err(_) => Vec::new(),
    }
}

impl<'a, T: Clone> Container<'a, T> {
    /// Returns the length of the container.
    /// Returns zero if the source data is unavailable.
    pub fn len(&self) -> (n: usize)
        ensures
            exists|b: Result<Borrow<'a, T>, BorrowError>| #[trigger]
                came_of(*self, b) && n == items_of(b).len(),
            !self.is_locking() ==> n == self.items().len(),
    {
        let borrowed = self.try_borrow();
        borrowed_len(&borrowed)
    }

    /// Returns true if the container is empty.
    /// Also returns true if the source data is unavailable.
    pub fn is_empty(&self) -> (r: bool)
        ensures
            exists|b: Result<Borrow<'a, T>, BorrowError>| #[trigger]
                came_of(*self, b) && r == (items_of(b).len() == 0),
            !self.is_locking() ==> r == (self.items().len() == 0),
    {
        let borrowed = self.try_borrow();
        borrowed_is_empty(&borrowed)
    }

    /// Converts the container to an owned `Vec<T>`.
    /// This will most likely be a copy.
    /// Returns an empty vector if the source data is unavailable.
    pub fn to_vec(&self) -> (r: Vec<T>)
        ensures
            exists|b: Result<Borrow<'a, T>, BorrowError>| #[trigger]
                came_of(*self, b) && all_cloned(items_of(b), r@),
            !self.is_locking() ==> all_cloned(self.items(), r@),
    {
        let borrowed = self.try_borrow();
        borrowed_to_vec(&borrowed)
    }
}

/// `Rc::clone`: another pointer to the same value. That both lead to one allocation is not said: an
/// address is no part of what a pointer is taken to be here.
#[verifier::external_body]
fn rc_again<T: ?Sized>(value: &Rc<T>) -> (r: Rc<T>)
    ensures
        r == *value,
{
    Rc::clone(value)
}

/// `Arc::clone`: another pointer to the same value. As for `Rc::clone`, nothing is said of the
/// allocation.
#[verifier::external_body]
fn arc_again<T: ?Sized>(value: &Arc<T>) -> (r: Arc<T>)
    ensures
        r == *value,
{
    Arc::clone(value)
}

/// `Vec::into_boxed_slice`: the items of the vector, in order.
#[verifier::external_body]
fn boxed<T>(value: Vec<T>) -> (r: Box<[T]>)
    ensures
        r@ == value@,
{
    value.into_boxed_slice()
}

/// Whether each item of `b` is a clone of that of `a`.
pub open spec fn all_cloned<T: Clone>(a: Seq<T>, b: Seq<T>) -> bool {
    &&& a.len() == b.len()
    &&& forall|i: int| 0 <= i < b.len() ==> cloned(a[i], #[trigger] b[i])
}

/// Whether `b` is the same kind of container as `a`, and wraps the same object or, where it owns
/// its items, clones of them.
pub open spec fn wraps_the_same<T: Clone>(a: Container<'_, T>, b: Container<'_, T>) -> bool {
    match a {
        Container::Box(v) => b matches Container::Box(w) && all_cloned(v@, w@),
        Container::Vec(v) => b matches Container::Vec(w) && all_cloned(v@, w@),
        Container::Cow(v) => b matches Container::Cow(w) && match v {
            Cow::Borrowed(_) => w == v,
            Cow::Owned(x) => w matches Cow::Owned(y) && all_cloned(x@, y@),
        },
        Container::CowBox(v) => b matches Container::CowBox(w) && match v {
            Cow::Borrowed(_) => w == v,
            Cow::Owned(x) => w matches Cow::Owned(y) && all_cloned(x@, y@),
        },
        Container::CowVec(v) => b matches Container::CowVec(w) && match v {
            Cow::Borrowed(_) => w == v,
            Cow::Owned(x) => w matches Cow::Owned(y) && all_cloned(x@, y@),
        },
        _ => b == a,
    }
}

impl<'a, T: Clone> Clone for Container<'a, T> {
    /// Creates a new container which wraps the same or identical underlying objects.
    /// This method will do its best to avoid a deep copy, but some copies are unavoidable.
    fn clone(&self) -> (r: Self)
        ensures
            wraps_the_same(*self, r),
    {
        match self {
            Container::Empty => Container::Empty,
            Container::Box(value) => Container::Box(boxed(slice_copy(&**value))),
            Container::Vec(value) => Container::Vec(slice_copy(value.as_slice())),
            Container::Ref(value) => Container::Ref(value),
            Container::Cow(value) => match value {
                Cow::Borrowed(b) => Container::Cow(Cow::Borrowed(b)),
                Cow::Owned(o) => Container::Cow(Cow::Owned(slice_copy(o.as_slice()))),
            },
            Container::Rc(value) => Container::Rc(rc_again(value)),
            Container::Arc(value) => Container::Arc(arc_again(value)),
            Container::RefBox(value) => Container::RefBox(value),
            Container::RefVec(value) => Container::RefVec(value),
            Container::CowBox(value) => match value {
                Cow::Borrowed(b) => Container::CowBox(Cow::Borrowed(b)),
                Cow::Owned(o) => Container::CowBox(Cow::Owned(boxed(slice_copy(&**o)))),
            },
            Container::CowVec(value) => match value {
                Cow::Borrowed(b) => Container::CowVec(Cow::Borrowed(b)),
                Cow::Owned(o) => Container::CowVec(Cow::Owned(slice_copy(o.as_slice()))),
            },
            Container::RcBox(value) => Container::RcBox(rc_again(value)),
            Container::RcVec(value) => Container::RcVec(rc_again(value)),
            Container::ArcBox(value) => Container::ArcBox(arc_again(value)),
            Container::ArcVec(value) => Container::ArcVec(arc_again(value)),
            Container::RcRefCellBox(value) => Container::RcRefCellBox(rc_again(value)),
            Container::RcRefCellVec(value) => Container::RcRefCellVec(rc_again(value)),
            Container::ArcMutexBox(value) => Container::ArcMutexBox(arc_again(value)),
            Container::ArcMutexVec(value) => Container::ArcMutexVec(arc_again(value)),
            Container::ArcRwLockBox(value) => Container::ArcRwLockBox(arc_again(value)),
            Container::ArcRwLockVec(value) => Container::ArcRwLockVec(arc_again(value)),
        }
    }
}

/// A clone of a container is of the same kind, and holds as many items as the container: the same
/// or clones of them, in order. What stands behind a cell or a lock stands behind the same one, so
/// that whatever may come of borrowing from the one may come of borrowing from the other.
pub proof fn lemma_clone_keeps_items<'c, T: Clone>(
    a: Container<'_, T>,
    b: Container<'_, T>,
    r: Result<Borrow<'c, T>, BorrowError>,
)
    requires
        wraps_the_same(a, b),
    ensures
        a.is_locking() == b.is_locking(),
        a.is_locking() ==> a == b,
        a.items() == b.items() || all_cloned(a.items(), b.items()),
        a.items().len() == b.items().len(),
        a.is_locking() ==> came_of(a, r) == came_of(b, r),
{
}

/// A container that is made of items holds them, and is not behind a lock.
pub proof fn lemma_made_of_items<'a, T: Clone>(
    vec: Vec<T>,
    boxed: Box<[T]>,
    slice: &'a [T],
    rc: Rc<[T]>,
    arc: Arc<[T]>,
    ref_vec: &'a Vec<T>,
    ref_box: &'a Box<[T]>,
    cow: Cow<'a, [T]>,
    cow_vec: Cow<'a, Vec<T>>,
    cow_box: Cow<'a, Box<[T]>>,
    rc_vec: Rc<Vec<T>>,
    rc_box: Rc<Box<[T]>>,
    arc_vec: Arc<Vec<T>>,
    arc_box: Arc<Box<[T]>>,
)
    ensures
        holds(<Container<'a, T> as FromSpec<()>>::from_spec(()), Seq::<T>::empty()),
        holds(<Container<'a, T> as FromSpec<Vec<T>>>::from_spec(vec), vec@),
        holds(<Container<'a, T> as FromSpec<Box<[T]>>>::from_spec(boxed), boxed@),
        holds(<Container<'a, T> as FromSpec<&'a [T]>>::from_spec(slice), slice@),
        holds(<Container<'a, T> as FromSpec<Rc<[T]>>>::from_spec(rc), rc@),
        holds(<Container<'a, T> as FromSpec<Arc<[T]>>>::from_spec(arc), arc@),
        holds(<Container<'a, T> as FromSpec<&'a Vec<T>>>::from_spec(ref_vec), ref_vec@),
        holds(<Container<'a, T> as FromSpec<&'a Box<[T]>>>::from_spec(ref_box), ref_box@),
        holds(
            <Container<'a, T> as FromSpec<Cow<'a, [T]>>>::from_spec(cow),
            match cow {
                Cow::Borrowed(b) => b@,
                Cow::Owned(o) => o@,
            },
        ),
        holds(
            <Container<'a, T> as FromSpec<Cow<'a, Vec<T>>>>::from_spec(cow_vec),
            match cow_vec {
                Cow::Borrowed(b) => b@,
                Cow::Owned(o) => o@,
            },
        ),
        holds(
            <Container<'a, T> as FromSpec<Cow<'a, Box<[T]>>>>::from_spec(cow_box),
            match cow_box {
                Cow::Borrowed(b) => b@,
                Cow::Owned(o) => o@,
            },
        ),
        holds(<Container<'a, T> as FromSpec<Rc<Vec<T>>>>::from_spec(rc_vec), rc_vec@),
        holds(<Container<'a, T> as FromSpec<Rc<Box<[T]>>>>::from_spec(rc_box), rc_box@),
        holds(<Container<'a, T> as FromSpec<Arc<Vec<T>>>>::from_spec(arc_vec), arc_vec@),
        holds(<Container<'a, T> as FromSpec<Arc<Box<[T]>>>>::from_spec(arc_box), arc_box@),
{
}

/// Whether the container is not behind a lock and holds `items`.
pub open spec fn holds<T: Clone>(container: Container<'_, T>, items: Seq<T>) -> bool {
    !container.is_locking() && container.items() == items
}

/// Length, emptiness and copy of what was borrowed agree, and where nothing was borrowed there is
/// nothing.
pub proof fn lemma_borrowed_agree<T: Clone>(
    borrowed: Result<Borrow<'_, T>, BorrowError>,
    n: usize,
    empty: bool,
    copy: Vec<T>,
)
    requires
        call_ensures(borrowed_len::<T>, (&borrowed,), n),
        call_ensures(borrowed_is_empty::<T>, (&borrowed,), empty),
        call_ensures(borrowed_to_vec::<T>, (&borrowed,), copy),
    ensures
        empty <==> n == 0,
        copy@.len() == n,
        borrowed is Err ==> n == 0,
        borrowed matches Ok(b) ==> n == b.items().len(),
        borrowed matches Ok(b) ==> forall|i: int|
            0 <= i < n ==> cloned(b.items()[i], #[trigger] copy@[i]),
{
}

} // verus!
