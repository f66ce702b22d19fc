//! Containers, and what is borrowed from them.

use std::borrow::Cow;
use std::cell::{Ref, RefCell};
use std::rc::Rc;
use std::sync::{Arc, Mutex, MutexGuard, RwLock, RwLockReadGuard};
use vstd::prelude::*;

verus! {

/// `std::cell::RefCell`. What it holds may change behind a shared reference, so nothing is said of
/// it.
#[verifier::external_type_specification]
#[verifier::external_body]
#[verifier::reject_recursive_types(T)]
pub struct ExRefCell<T: ?Sized>(RefCell<T>);

/// `std::cell::Ref`: what is borrowed from a `RefCell`.
#[verifier::external_type_specification]
#[verifier::external_body]
#[verifier::reject_recursive_types(T)]
pub struct ExRef<'b, T: ?Sized>(Ref<'b, T>);

/// `std::sync::Mutex`. What it holds may change behind a shared reference, so nothing is said of
/// it.
#[verifier::external_type_specification]
#[verifier::external_body]
#[verifier::reject_recursive_types(T)]
pub struct ExMutex<T: ?Sized>(Mutex<T>);

/// `std::sync::MutexGuard`: what is borrowed from a `Mutex`.
#[verifier::external_type_specification]
#[verifier::external_body]
#[verifier::reject_recursive_types(T)]
pub struct ExMutexGuard<'a, T: ?Sized + 'a>(MutexGuard<'a, T>);

/// `std::sync::RwLock`. What it holds may change behind a shared reference, so nothing is said of
/// it.
#[verifier::external_type_specification]
#[verifier::external_body]
#[verifier::reject_recursive_types(T)]
pub struct ExRwLock<T: ?Sized>(RwLock<T>);

/// `std::sync::RwLockReadGuard`: what is borrowed from a `RwLock`.
#[verifier::external_type_specification]
#[verifier::external_body]
#[verifier::reject_recursive_types(T)]
pub struct ExRwLockReadGuard<'a, T: ?Sized>(RwLockReadGuard<'a, T>);

/// A generic container enum that provides flexible ownership models for unsized data types.
/// If there is a borrow, its lifetime is 'a (most likely 'static).
#[derive(Debug)]
#[verifier::reject_recursive_types(T)]
pub enum Container<'a, T: Clone> {
    /// No data.
    Empty,
    /// An owned, fixed-size, heap-allocated slice.
    Box(Box<[T]>),
    /// An owned, growable, heap-allocated vector.
    Vec(Vec<T>),
    /// A borrowed slice.
    Ref(&'a [T]),
    /// A borrowed slice with copy-on-write.
    Cow(Cow<'a, [T]>),
    /// A reusable, fixed-size slice.
    Rc(Rc<[T]>),
    /// A shared, fixed-size slice.
    Arc(Arc<[T]>),
    /// A borrowed, fixed-size, heap-allocated slice.
    RefBox(&'a Box<[T]>),
    /// A borrowed, immutable, heap-allocated vector.
    RefVec(&'a Vec<T>),
    /// A borrowed, fixed-size, heap-allocated vector, with copy-on-write.
    CowBox(Cow<'a, Box<[T]>>),
    /// A borrowed, immutable, heap-allocated vector, with copy-on-write.
    CowVec(Cow<'a, Vec<T>>),
    /// A reusable, fixed-size, heap-allocated slice.
    RcBox(Rc<Box<[T]>>),
    /// A reusable, immutable, heap-allocated vector.
    RcVec(Rc<Vec<T>>),
    /// A shared, fixed-size, heap-allocated slice.
    ArcBox(Arc<Box<[T]>>),
    /// A shared, immutable, heap-allocated vector.
    ArcVec(Arc<Vec<T>>),
    /// A reusable, replaceable, heap-allocated slice.
    RcRefCellBox(Rc<RefCell<Box<[T]>>>),
    /// A reusable, growable, heap-allocated vector.
    RcRefCellVec(Rc<RefCell<Vec<T>>>),
    /// A shared, fixed-size, replaceable, heap-allocated slice.
    ArcMutexBox(Arc<Mutex<Box<[T]>>>),
    /// A shared, growable, heap-allocated vector.
    ArcMutexVec(Arc<Mutex<Vec<T>>>),
    /// A shared, fixed-size, replaceable, heap-allocated slice with multiple readers.
    ArcRwLockBox(Arc<RwLock<Box<[T]>>>),
    /// A shared, growable, heap-allocated vector with multiple readers.
    ArcRwLockVec(Arc<RwLock<Vec<T>>>),
}

/// A value borrowed from a container with flexible ownership models for unsized data types.
#[derive(Debug)]
#[verifier::reject_recursive_types(T)]
pub enum Borrow<'a, T> {
    /// No data.
    Empty,
    /// A borrowed reference to a slice.
    Slice(&'a [T]),
    /// Borrowed from: a reusable, replaceable, heap-allocated slice.
    RcRefCellBox(Ref<'a, Box<[T]>>),
    /// Borrowed from: a reusable, growable, heap-allocated vector.
    RcRefCellVec(Ref<'a, Vec<T>>),
    /// Borrowed from: a shared, fixed-size, replaceable, heap-allocated slice.
    ArcMutexBox(MutexGuard<'a, Box<[T]>>),
    /// Borrowed from: a shared, growable, heap-allocated vector.
    ArcMutexVec(MutexGuard<'a, Vec<T>>),
    /// Borrowed from: a shared, fixed-size, replaceable, heap-allocated slice with multiple
    /// readers.
    ArcRwLockBox(RwLockReadGuard<'a, Box<[T]>>),
    /// Borrowed from: a shared, growable, heap-allocated vector with multiple readers.
    ArcRwLockVec(RwLockReadGuard<'a, Vec<T>>),
}

/// `RefCell::try_borrow`: a borrow, unless the cell is mutably borrowed. Which of the two it is
/// depends on the borrows that are out at that moment.
#[verifier::external_body]
fn cell_borrow<T>(cell: &RefCell<T>) -> Option<Ref<'_, T>> {
    cell.try_borrow().ok()
}

/// `Mutex::lock`: the guard, unless the mutex is poisoned. Which of the two it is depends on what
/// other threads did. A thread that holds the mutex already must not ask for it: nothing here can
/// tell.
#[verifier::external_body]
fn mutex_lock<T>(mutex: &Mutex<T>) -> Option<MutexGuard<'_, T>> {
    mutex.lock().ok()
}

/// `RwLock::read`: the guard, unless the lock is poisoned. Which of the two it is depends on what
/// other threads did. A thread that holds the lock already must not ask for it: nothing here can
/// tell.
#[verifier::external_body]
fn lock_read<T>(lock: &RwLock<T>) -> Option<RwLockReadGuard<'_, T>> {
    lock.read().ok()
}

/// Whether asking this cell may give `r`.
pub closed spec fn cell_gives<'c, T>(cell: RefCell<T>, r: Option<Ref<'c, T>>) -> bool {
    call_ensures(cell_borrow::<T>, (&cell,), r)
}

/// Whether asking this mutex may give `r`.
pub closed spec fn mutex_gives<'c, T>(mutex: Mutex<T>, r: Option<MutexGuard<'c, T>>) -> bool {
    call_ensures(mutex_lock::<T>, (&mutex,), r)
}

/// Whether asking this lock may give `r`.
pub closed spec fn lock_gives<'c, T>(lock: RwLock<T>, r: Option<RwLockReadGuard<'c, T>>) -> bool {
    call_ensures(lock_read::<T>, (&lock,), r)
}

/// `Ref::deref`. What it returns is what `cell_held` names.
#[verifier::external_body]
fn cell_deref<'b, T>(value: &'b Ref<'_, T>) -> &'b T {
    value
}

/// `MutexGuard::deref`. What it returns is what `mutex_held` names.
#[verifier::external_body]
fn mutex_deref<'b, T>(value: &'b MutexGuard<'_, T>) -> &'b T {
    value
}

/// `RwLockReadGuard::deref`. What it returns is what `lock_held` names.
#[verifier::external_body]
fn lock_deref<'b, T>(value: &'b RwLockReadGuard<'_, T>) -> &'b T {
    value
}

/// What is borrowed from a cell.
pub closed spec fn cell_held<'c, T>(guard: Ref<'c, T>) -> T {
    *choose|held: &T| call_ensures(cell_deref::<T>, (&guard,), held)
}

/// What the guard of a mutex holds.
pub closed spec fn mutex_held<'c, T>(guard: MutexGuard<'c, T>) -> T {
    *choose|held: &T| call_ensures(mutex_deref::<T>, (&guard,), held)
}

/// What the guard of a reader holds.
pub closed spec fn lock_held<'c, T>(guard: RwLockReadGuard<'c, T>) -> T {
    *choose|held: &T| call_ensures(lock_deref::<T>, (&guard,), held)
}

/// `Ref::deref`: what is borrowed. As long as it is, nobody else can change it, so that one guard
/// always leads to the same.
#[verifier::external_body]
fn cell_contents<'b, T>(value: &'b Ref<'_, T>) -> (r: &'b T)
    ensures
        *r == cell_held(*value),
{
    value
}

/// `MutexGuard::deref`: what the guard holds. Nobody else can change it meanwhile, so that one
/// guard always leads to the same.
#[verifier::external_body]
fn mutex_contents<'b, T>(value: &'b MutexGuard<'_, T>) -> (r: &'b T)
    ensures
        *r == mutex_held(*value),
{
    value
}

/// `RwLockReadGuard::deref`: what the guard holds. Nobody can change it meanwhile, so that one
/// guard always leads to the same.
#[verifier::external_body]
fn lock_contents<'b, T>(value: &'b RwLockReadGuard<'_, T>) -> (r: &'b T)
    ensures
        *r == lock_held(*value),
{
    value
}

/// Why nothing can be borrowed.
#[derive(Clone, Copy, Debug, PartialEq, Eq, Structural)]
pub enum BorrowError {
    /// A thread panicked while it held the lock.
    Poisoned,
    /// The cell is mutably borrowed.
    MutablyBorrowed,
}

impl<'a, T> Borrow<'a, T> {
    /// What is borrowed.
    pub open spec fn items(self) -> Seq<T> {
        match self {
            Borrow::Empty => Seq::empty(),
            Borrow::Slice(s) => s@,
            Borrow::RcRefCellBox(guard) => cell_held(guard)@,
            Borrow::RcRefCellVec(guard) => cell_held(guard)@,
            Borrow::ArcMutexBox(guard) => mutex_held(guard)@,
            Borrow::ArcMutexVec(guard) => mutex_held(guard)@,
            Borrow::ArcRwLockBox(guard) => lock_held(guard)@,
            Borrow::ArcRwLockVec(guard) => lock_held(guard)@,
        }
    }

    /// The slice that is borrowed.
    pub fn as_slice(&self) -> (r: &[T])
        ensures
            r@ == self.items(),
    {
        match self {
            Borrow::Empty => &[],
            Borrow::Slice(value) => value,
            Borrow::RcRefCellBox(value) => &**cell_contents(value),
            Borrow::RcRefCellVec(value) => cell_contents(value).as_slice(),
            Borrow::ArcMutexBox(value) => &**mutex_contents(value),
            Borrow::ArcMutexVec(value) => mutex_contents(value).as_slice(),
            Borrow::ArcRwLockBox(value) => &**lock_contents(value),
            Borrow::ArcRwLockVec(value) => lock_contents(value).as_slice(),
        }
    }
}

/// Whether `r` may come of borrowing from `container`: what a cell or a lock gives for its data,
/// and the data itself otherwise.
pub open spec fn came_of<'c, T: Clone>(
    container: Container<'_, T>,
    r: Result<Borrow<'c, T>, BorrowError>,
) -> bool {
    match container {
        Container::RcRefCellBox(cell) => match r {
            Ok(b) => b matches Borrow::RcRefCellBox(guard) && cell_gives(*cell, Some(guard)),
            Err(e) => e is MutablyBorrowed && cell_gives(*cell, None),
        },
        Container::RcRefCellVec(cell) => match r {
            Ok(b) => b matches Borrow::RcRefCellVec(guard) && cell_gives(*cell, Some(guard)),
            Err(e) => e is MutablyBorrowed && cell_gives(*cell, None),
        },
        Container::ArcMutexBox(mutex) => match r {
            Ok(b) => b matches Borrow::ArcMutexBox(guard) && mutex_gives(*mutex, Some(guard)),
            Err(e) => e is Poisoned && mutex_gives(*mutex, None),
        },
        Container::ArcMutexVec(mutex) => match r {
            Ok(b) => b matches Borrow::ArcMutexVec(guard) && mutex_gives(*mutex, Some(guard)),
            Err(e) => e is Poisoned && mutex_gives(*mutex, None),
        },
        Container::ArcRwLockBox(lock) => match r {
            Ok(b) => b matches Borrow::ArcRwLockBox(guard) && lock_gives(*lock, Some(guard)),
            Err(e) => e is Poisoned && lock_gives(*lock, None),
        },
        Container::ArcRwLockVec(lock) => match r {
            Ok(b) => b matches Borrow::ArcRwLockVec(guard) && lock_gives(*lock, Some(guard)),
            Err(e) => e is Poisoned && lock_gives(*lock, None),
        },
        Container::Empty => r matches Ok(b) && b is Empty,
        _ => r matches Ok(b) && b is Slice && b.items() == container.items(),
    }
}

/// What is there of a borrow: nothing, where it was refused.
pub open spec fn items_of<'c, T>(r: Result<Borrow<'c, T>, BorrowError>) -> Seq<T> {
    match r {
        Ok(b) => b.items(),
        Err(_) => Seq::empty(),
    }
}

/// A borrow that does not ask a cell or a lock is not refused and gives the data. One that is
/// refused is refused for the reason that the cell or the lock has, and there is nothing of it.
pub proof fn lemma_what_is_borrowed<'c, T: Clone>(
    container: Container<'_, T>,
    r: Result<Borrow<'c, T>, BorrowError>,
)
    requires
        came_of(container, r),
    ensures
        !container.is_locking() ==> r is Ok && items_of(r) == container.items(),
        r matches Err(e) ==> container.may_refuse(e) && items_of(r).len() == 0,
{
}

impl<'a, T: Clone> Container<'a, T> {
    /// Whether the data stands behind a cell or a lock.
    pub open spec fn is_locking(self) -> bool {
        match self {
            Container::RcRefCellBox(_) => true,
            Container::RcRefCellVec(_) => true,
            Container::ArcMutexBox(_) => true,
            Container::ArcMutexVec(_) => true,
            Container::ArcRwLockBox(_) => true,
            Container::ArcRwLockVec(_) => true,
            _ => false,
        }
    }

    /// Whether `error` is the one that comes where the data is not available: a cell may be mutably
    /// borrowed, and a lock poisoned.
    pub open spec fn may_refuse(self, error: BorrowError) -> bool {
        match self {
            Container::RcRefCellBox(_) => error is MutablyBorrowed,
            Container::RcRefCellVec(_) => error is MutablyBorrowed,
            _ => self.is_locking() && error is Poisoned,
        }
    }

    /// Whether no borrow of the data can be refused.
    pub open spec fn is_available(self) -> bool {
        forall|r: Result<Borrow<'a, T>, BorrowError>| #[trigger] came_of(self, r) ==> r is Ok
    }

    /// The data, where it does not stand behind a cell or a lock.
    pub open spec fn items(self) -> Seq<T> {
        match self {
            Container::Box(value) => value@,
            Container::Vec(value) => value@,
            Container::Ref(value) => value@,
            Container::Cow(value) => match value {
                Cow::Borrowed(b) => b@,
                Cow::Owned(o) => o@,
            },
            Container::Rc(value) => value@,
            Container::Arc(value) => value@,
            Container::RefBox(value) => value@,
            Container::RefVec(value) => value@,
            Container::CowBox(value) => match value {
                Cow::Borrowed(b) => b@,
                Cow::Owned(o) => o@,
            },
            Container::CowVec(value) => match value {
                Cow::Borrowed(b) => b@,
                Cow::Owned(o) => o@,
            },
            Container::RcBox(value) => value@,
            Container::RcVec(value) => value@,
            Container::ArcBox(value) => value@,
            Container::ArcVec(value) => value@,
            _ => Seq::empty(),
        }
    }

    /// Borrows a slice-like immutable reference from the container.
    /// Will attempt to gain access to a locking variant, and may fail only there.
    pub fn try_borrow(&self) -> (r: Result<Borrow<'_, T>, BorrowError>)
        ensures
            came_of(*self, r),
    {
        match self {
            Container::Empty => Ok(Borrow::Empty),
            Container::Box(value) => Ok(Borrow::Slice(&**value)),
            Container::Vec(value) => Ok(Borrow::Slice(value.as_slice())),
            Container::Ref(value) => Ok(Borrow::Slice(value)),
            Container::Cow(value) => match value {
                Cow::Borrowed(b) => Ok(Borrow::Slice(b)),
                Cow::Owned(o) => Ok(Borrow::Slice(o.as_slice())),
            },
            Container::Rc(value) => Ok(Borrow::Slice(&**value)),
            Container::Arc(value) => Ok(Borrow::Slice(&**value)),
            Container::RefBox(value) => Ok(Borrow::Slice(&***value)),
            Container::RefVec(value) => Ok(Borrow::Slice(value.as_slice())),
            Container::CowBox(value) => match value {
                Cow::Borrowed(b) => Ok(Borrow::Slice(&***b)),
                Cow::Owned(o) => Ok(Borrow::Slice(&**o)),
            },
            Container::CowVec(value) => match value {
                Cow::Borrowed(b) => Ok(Borrow::Slice(b.as_slice())),
                Cow::Owned(o) => Ok(Borrow::Slice(o.as_slice())),
            },
            Container::RcBox(value) => Ok(Borrow::Slice(&***value)),
            Container::RcVec(value) => Ok(Borrow::Slice(value.as_slice())),
            Container::ArcBox(value) => Ok(Borrow::Slice(&***value)),
            Container::ArcVec(value) => Ok(Borrow::Slice(value.as_slice())),
            Container::RcRefCellBox(value) => match cell_borrow(&**value) {
                Some(guard) => Ok(Borrow::RcRefCellBox(guard)),
                None => Err(BorrowError::MutablyBorrowed),
            },
            Container::RcRefCellVec(value) => match cell_borrow(&**value) {
                Some(guard) => Ok(Borrow::RcRefCellVec(guard)),
                None => Err(BorrowError::MutablyBorrowed),
            },
            Container::ArcMutexBox(value) => match mutex_lock(&**value) {
                Some(guard) => Ok(Borrow::ArcMutexBox(guard)),
                None => Err(BorrowError::Poisoned),
            },
            Container::ArcMutexVec(value) => match mutex_lock(&**value) {
                Some(guard) => Ok(Borrow::ArcMutexVec(guard)),
                None => Err(BorrowError::Poisoned),
            },
            Container::ArcRwLockBox(value) => match lock_read(&**value) {
                Some(guard) => Ok(Borrow::ArcRwLockBox(guard)),
                None => Err(BorrowError::Poisoned),
            },
            Container::ArcRwLockVec(value) => match lock_read(&**value) {
                Some(guard) => Ok(Borrow::ArcRwLockVec(guard)),
                None => Err(BorrowError::Poisoned),
            },
        }
    }

    /// Borrows a slice-like immutable reference from the container, whose data must be available.
    /// It is, unless the container is a locking variant: of such a one only `try_borrow()` can
    /// tell.
    pub fn borrow(&self) -> (r: Borrow<'_, T>)
        requires
            self.is_available(),
        ensures
            came_of(*self, Ok::<Borrow<'_, T>, BorrowError>(r)),
            !self.is_locking() ==> r.items() == self.items(),
    {
        match self.try_borrow() {
            Ok(b) => b,
            Err(_) => Borrow::Empty,
        }
    }

    /// Returns a borrowed slice &[] from the container if it is an immutable variant.
    /// Hint: use `try_borrow()` to handle locking variants.
    pub fn try_as_ref(&self) -> (r: Result<&[T], &'static str>)
        ensures
            match r {
                Ok(s) => !self.is_locking() && s@ == self.items(),
                Err(e) => self.is_locking() && e@
                    == "Attempted to get a reference from a locking container without a lock."@,
            },
    {
        match self {
            Container::Empty => Ok(&[]),
            Container::Box(value) => Ok(&**value),
            Container::Vec(value) => Ok(value.as_slice()),
            Container::Ref(value) => Ok(value),
            Container::Cow(value) => match value {
                Cow::Borrowed(b) => Ok(b),
                Cow::Owned(o) => Ok(o.as_slice()),
            },
            Container::Rc(value) => Ok(&**value),
            Container::Arc(value) => Ok(&**value),
            Container::RefBox(value) => Ok(&***value),
            Container::RefVec(value) => Ok(value.as_slice()),
            Container::CowBox(value) => match value {
                Cow::Borrowed(b) => Ok(&***b),
                Cow::Owned(o) => Ok(&**o),
            },
            Container::CowVec(value) => match value {
                Cow::Borrowed(b) => Ok(b.as_slice()),
                Cow::Owned(o) => Ok(o.as_slice()),
            },
            Container::RcBox(value) => Ok(&***value),
            Container::RcVec(value) => Ok(value.as_slice()),
            Container::ArcBox(value) => Ok(&***value),
            Container::ArcVec(value) => Ok(value.as_slice()),
            _ => Err("Attempted to get a reference from a locking container without a lock."),
        }
    }

    /// Returns a borrowed slice &[] from the container, which must not be a locking variant.
    pub fn as_ref(&self) -> (r: &[T])
        requires
            !self.is_locking(),
        ensures
            r@ == self.items(),
    {
        match self.try_as_ref() {
            Ok(s) => s,
            Err(_) => &[],
        }
    }
}

} // verus!
