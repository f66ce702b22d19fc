//! Slices under various kinds of ownership.

use std::borrow::Cow;
use std::cell::RefCell;
use std::rc::Rc;
use std::sync::{Arc, Mutex, RwLock};

use fuser::container::kinds::{Borrow, BorrowError, Container};
use fuser::container::specialized::{borrowed_to_string, text_of, ToStringError};
use fuser::container::utils::{borrowed_is_empty, borrowed_len, borrowed_to_vec};

/// A container of each kind, with the bytes of `abc`.
fn all_kinds<'a>(vec: &'a Vec<u8>, boxed: &'a Box<[u8]>) -> Vec<Container<'a, u8>> {
    vec![
        Container::Box(boxed.clone()),
        Container::Vec(vec.clone()),
        Container::Ref(vec.as_slice()),
        Container::Cow(Cow::Borrowed(vec.as_slice())),
        Container::Cow(Cow::Owned(vec.clone())),
        Container::Rc(Rc::from(vec.as_slice())),
        Container::Arc(Arc::from(vec.as_slice())),
        Container::RefBox(boxed),
        Container::RefVec(vec),
        Container::CowBox(Cow::Borrowed(boxed)),
        Container::CowBox(Cow::Owned(boxed.clone())),
        Container::CowVec(Cow::Borrowed(vec)),
        Container::CowVec(Cow::Owned(vec.clone())),
        Container::RcBox(Rc::new(boxed.clone())),
        Container::RcVec(Rc::new(vec.clone())),
        Container::ArcBox(Arc::new(boxed.clone())),
        Container::ArcVec(Arc::new(vec.clone())),
        Container::RcRefCellBox(Rc::new(RefCell::new(boxed.clone()))),
        Container::RcRefCellVec(Rc::new(RefCell::new(vec.clone()))),
        Container::ArcMutexBox(Arc::new(Mutex::new(boxed.clone()))),
        Container::ArcMutexVec(Arc::new(Mutex::new(vec.clone()))),
        Container::ArcRwLockBox(Arc::new(RwLock::new(boxed.clone()))),
        Container::ArcRwLockVec(Arc::new(RwLock::new(vec.clone()))),
    ]
}

fn is_locking(container: &Container<'_, u8>) -> bool {
    matches!(
        container,
        Container::RcRefCellBox(_)
            | Container::RcRefCellVec(_)
            | Container::ArcMutexBox(_)
            | Container::ArcMutexVec(_)
            | Container::ArcRwLockBox(_)
            | Container::ArcRwLockVec(_)
    )
}

#[test]
fn every_kind_holds_its_items() {
    let vec = b"abc".to_vec();
    let boxed = vec.clone().into_boxed_slice();
    for container in all_kinds(&vec, &boxed) {
        assert_eq!(container.try_borrow().unwrap().as_slice(), b"abc");
        assert_eq!(container.try_to_string().unwrap(), "abc");
        assert_eq!(container.try_borrow().unwrap().try_to_str().unwrap(), "abc");
        assert_eq!(container.try_as_ref().is_ok(), !is_locking(&container));
        if !is_locking(&container) {
            assert_eq!(container.borrow().as_slice(), b"abc");
            assert_eq!(container.as_ref(), b"abc");
        }
        assert_eq!(container.len(), 3);
        assert!(!container.is_empty());
        assert_eq!(container.to_vec(), b"abc");
    }
}

#[test]
fn the_empty_container_holds_nothing() {
    let container: Container<'_, u8> = Container::Empty;
    assert_eq!(container.borrow().as_slice(), b"");
    assert_eq!(container.len(), 0);
    assert!(container.is_empty());
    assert_eq!(container.to_vec(), b"");
}

#[test]
fn clones_hold_the_same() {
    let vec = b"abc".to_vec();
    let boxed = vec.clone().into_boxed_slice();
    for container in all_kinds(&vec, &boxed) {
        let clone = container.clone();
        assert_eq!(clone.try_borrow().unwrap().as_slice(), b"abc");
        assert_eq!(
            std::mem::discriminant(&clone),
            std::mem::discriminant(&container)
        );
    }
    // what is shared stays shared
    let shared = Rc::new(RefCell::new(vec.clone()));
    let container = Container::RcRefCellVec(shared.clone());
    let clone = container.clone();
    shared.borrow_mut().push(b'd');
    assert_eq!(clone.try_borrow().unwrap().as_slice(), b"abcd");
    match (container, clone) {
        (Container::RcRefCellVec(a), Container::RcRefCellVec(b)) => assert!(Rc::ptr_eq(&a, &b)),
        _ => panic!("Unexpected kind"),
    }
}

#[test]
fn cells_that_are_written_to_are_told() {
    let cell = Rc::new(RefCell::new(b"abc".to_vec()));
    let container = Container::RcRefCellVec(cell.clone());
    let guard = cell.borrow_mut();
    assert!(matches!(
        container.try_borrow(),
        Err(BorrowError::MutablyBorrowed)
    ));
    drop(guard);
    assert!(container.try_borrow().is_ok());
}

#[test]
fn what_cannot_be_borrowed_counts_as_nothing() {
    let cell = Rc::new(RefCell::new(b"abc".to_vec()));
    let container = Container::RcRefCellVec(cell.clone());
    assert_eq!(container.len(), 3);
    assert!(!container.is_empty());
    assert_eq!(container.to_vec(), b"abc");
    let guard = cell.borrow_mut();
    assert_eq!(container.len(), 0);
    assert!(container.is_empty());
    assert_eq!(container.to_vec(), b"");
    assert_eq!(
        container.try_to_string(),
        Err(ToStringError::Lock(BorrowError::MutablyBorrowed))
    );
    drop(guard);
    assert_eq!(container.try_to_string(), Ok("abc".to_string()));
}

#[test]
fn what_came_of_a_borrow_decides() {
    let refused: Result<Borrow<'_, u8>, BorrowError> = Err(BorrowError::Poisoned);
    assert_eq!(borrowed_len(&refused), 0);
    assert!(borrowed_is_empty(&refused));
    assert_eq!(borrowed_to_vec(&refused), b"");
    assert_eq!(
        borrowed_to_string(&refused),
        Err(ToStringError::Lock(BorrowError::Poisoned))
    );
    let borrowed: Result<Borrow<'_, u8>, BorrowError> = Ok(Borrow::Slice(b"ab"));
    assert_eq!(borrowed_len(&borrowed), 2);
    assert!(!borrowed_is_empty(&borrowed));
    assert_eq!(borrowed_to_vec(&borrowed), b"ab");
    assert_eq!(borrowed_to_string(&borrowed), Ok("ab".to_string()));
}

#[test]
fn clones_share_what_can_be_shared() {
    let vec = b"abc".to_vec();
    let boxed = vec.clone().into_boxed_slice();
    for container in all_kinds(&vec, &boxed) {
        match (container.clone(), container) {
            (Container::Rc(a), Container::Rc(b)) => assert!(Rc::ptr_eq(&a, &b)),
            (Container::RcBox(a), Container::RcBox(b)) => assert!(Rc::ptr_eq(&a, &b)),
            (Container::RcVec(a), Container::RcVec(b)) => assert!(Rc::ptr_eq(&a, &b)),
            (Container::RcRefCellBox(a), Container::RcRefCellBox(b)) => {
                assert!(Rc::ptr_eq(&a, &b))
            }
            (Container::RcRefCellVec(a), Container::RcRefCellVec(b)) => {
                assert!(Rc::ptr_eq(&a, &b))
            }
            (Container::Arc(a), Container::Arc(b)) => assert!(Arc::ptr_eq(&a, &b)),
            (Container::ArcBox(a), Container::ArcBox(b)) => assert!(Arc::ptr_eq(&a, &b)),
            (Container::ArcVec(a), Container::ArcVec(b)) => assert!(Arc::ptr_eq(&a, &b)),
            (Container::ArcMutexBox(a), Container::ArcMutexBox(b)) => {
                assert!(Arc::ptr_eq(&a, &b))
            }
            (Container::ArcMutexVec(a), Container::ArcMutexVec(b)) => {
                assert!(Arc::ptr_eq(&a, &b))
            }
            (Container::ArcRwLockBox(a), Container::ArcRwLockBox(b)) => {
                assert!(Arc::ptr_eq(&a, &b))
            }
            (Container::ArcRwLockVec(a), Container::ArcRwLockVec(b)) => {
                assert!(Arc::ptr_eq(&a, &b))
            }
            (a, b) => assert_eq!(a.to_vec(), b.to_vec()),
        }
    }
}

#[test]
fn bytes_that_are_no_text_are_told() {
    let container = Container::from(vec![0x66, 0xff]);
    assert!(matches!(container.try_to_string(), Err(ToStringError::Utf8(_))));
    assert!(matches!(text_of(&[0xc3]), Err(ToStringError::Utf8(_))));
    assert_eq!(text_of("gr\u{fc}n".as_bytes()), Ok("gr\u{fc}n"));
}

#[test]
fn texts_become_their_bytes() {
    let owned = Container::from_string("gr\u{fc}n".to_string());
    assert!(matches!(owned, Container::Vec(_)));
    assert_eq!(owned.to_vec(), b"gr\xc3\xbcn");
    assert_eq!(owned.try_to_string().unwrap(), "gr\u{fc}n");
    let borrowed = Container::from_str("abc");
    assert!(matches!(borrowed, Container::Ref(b"abc")));
}

#[test]
fn what_is_handed_over_decides_the_kind() {
    assert!(matches!(Container::from(vec![1u8]), Container::Vec(_)));
    assert!(matches!(Container::from(vec![1u8].into_boxed_slice()), Container::Box(_)));
    assert!(matches!(Container::from(&[1u8][..]), Container::Ref(_)));
    assert!(matches!(
        Container::from(Arc::new(Mutex::new(vec![1u8]))),
        Container::ArcMutexVec(_)
    ));
    assert!(matches!(Borrow::<'_, u8>::Empty.as_slice(), []));
}

#[test]
fn error_kinds_stay_apart() {
    let bad = String::from_utf8(vec![0xff]).unwrap_err();
    assert!(matches!(ToStringError::from(bad), ToStringError::FromUtf8(_)));
    assert!(matches!(
        ToStringError::from(BorrowError::Poisoned),
        ToStringError::Lock(BorrowError::Poisoned)
    ));
}
