//! Notifications to the kernel.

use fuser::ids::{Errno, INodeNo, Version};
use fuser::ll::flags::init_flags::InitFlags;
use fuser::ll::fuse_abi::{fuse_notify_code, FUSE_KERNEL_MINOR_VERSION, FUSE_KERNEL_VERSION};
use fuser::ll::notify::Notification;
use fuser::notify::{Notifier, NotifyError, PollHandle, PollNotifier, FUSE_NOTIFY_INC_EPOCH_MINOR};

fn notifier(kernel_capabilities: u64) -> Notifier {
    notifier_with_abi(kernel_capabilities, Some(Version(7, FUSE_NOTIFY_INC_EPOCH_MINOR)))
}

fn notifier_with_abi(kernel_capabilities: u64, kernel_abi: Option<Version>) -> Notifier {
    Notifier::new(InitFlags::from_bits_retain(kernel_capabilities), kernel_abi)
}

/// A kernel that never advertised expiring would invalidate the entry and report
/// success, so the request is refused here instead of being sent.
#[test]
fn expire_entry_refused_without_kernel_support() {
    let notifier = notifier(0);
    let err = notifier.expire_entry(INodeNo(INodeNo::ROOT), b"x").unwrap_err();
    assert_eq!(err.raw_os_error(), Some(libc::ENOTSUP));
}

#[test]
fn expire_entry_sent_with_kernel_support() {
    let outgoing = notifier(InitFlags::FUSE_HAS_EXPIRE_ONLY)
        .expire_entry(INodeNo(INodeNo::ROOT), b"x")
        .unwrap();
    outgoing.outcome(Ok(())).unwrap();
}

/// Invalidating is unconditional: it does not depend on the expire capability.
#[test]
fn inval_entry_needs_no_capability() {
    let outgoing = notifier(0).inval_entry(INodeNo(INodeNo::ROOT), b"x").unwrap();
    outgoing.outcome(Ok(())).unwrap();
}

/// Incrementing the epoch keys on the ABI version rather than a capability, since the
/// kernel advertises no bit for it.
#[test]
fn inc_epoch_refused_below_its_abi_version() {
    for abi in [None, Some(Version(7, 43)), Some(Version(7, 6))] {
        let err = notifier_with_abi(InitFlags::ALL, abi).inc_epoch().unwrap_err();
        assert_eq!(err.raw_os_error(), Some(libc::ENOTSUP), "{abi:?}");
    }
}

/// Both sides have to reach 7.44, so what this crate replies with decides it just as much
/// as what the kernel offers.
#[test]
fn inc_epoch_sent_only_when_this_crate_reports_its_abi_version() {
    let reported = Version(FUSE_KERNEL_VERSION, FUSE_KERNEL_MINOR_VERSION);
    let this_crate_reaches_it = !reported.before(Version(7, FUSE_NOTIFY_INC_EPOCH_MINOR));
    for abi in [Version(7, 44), Version(7, 45), Version(7, 99)] {
        let sent = notifier_with_abi(0, Some(abi)).inc_epoch().is_ok();
        assert_eq!(sent, this_crate_reaches_it, "{abi:?}");
    }
}

/// A kernel offering more than this crate replies with does not make the extra versions
/// part of the connection, since the kernel records the reply as its own.
#[test]
fn negotiated_abi_is_capped_by_what_this_crate_replies_with() {
    let notifier = notifier_with_abi(0, Some(Version(7, 99)));
    assert_eq!(
        notifier.negotiated_abi(),
        Some(Version(FUSE_KERNEL_VERSION, FUSE_KERNEL_MINOR_VERSION))
    );
    // ...and a kernel offering less caps it the other way round
    let notifier = notifier_with_abi(0, Some(Version(7, 8)));
    assert_eq!(notifier.negotiated_abi(), Some(Version(7, 8)));
}

/// The lower of two versions is one of them, whatever their minor versions are.
#[test]
fn negotiated_abi_is_one_of_the_two_versions() {
    let replied = Version(FUSE_KERNEL_VERSION, FUSE_KERNEL_MINOR_VERSION);
    let notifier = notifier_with_abi(0, Some(Version(8, 0)));
    assert_eq!(notifier.negotiated_abi(), Some(replied));
    let notifier = notifier_with_abi(0, Some(Version(6, 99)));
    assert_eq!(notifier.negotiated_abi(), Some(Version(6, 99)));
    let notifier = notifier_with_abi(0, Some(replied));
    assert_eq!(notifier.negotiated_abi(), Some(replied));
    assert_eq!(notifier_with_abi(0, None).negotiated_abi(), None);
}

fn sent(notification: &Notification<'_>, code: fuse_notify_code) -> Vec<u8> {
    notification.with_iovec(code, |slices: &[&[u8]]| slices.concat()).unwrap()
}

#[test]
fn notifications_are_written_out() {
    let notifier = notifier(0);
    let poll = notifier.poll(PollHandle(0x42));
    assert_eq!(
        sent(&poll.notification, poll.code),
        vec![
            0x18, 0, 0, 0, 1, 0, 0, 0, 0, 0, 0, 0, 0, 0, 0, 0, // header
            0x42, 0, 0, 0, 0, 0, 0, 0, // handle
        ]
    );
    let entry = notifier.inval_entry(INodeNo(0x42), b"abc").unwrap();
    assert_eq!(
        sent(&entry.notification, entry.code),
        vec![
            0x24, 0, 0, 0, 3, 0, 0, 0, 0, 0, 0, 0, 0, 0, 0, 0, // header
            0x42, 0, 0, 0, 0, 0, 0, 0, // parent
            3, 0, 0, 0, 0, 0, 0, 0, // length of the name, flags
            b'a', b'b', b'c', 0,
        ]
    );
    let inode = notifier.inval_inode(INodeNo(0x42), 200, 100);
    assert_eq!(
        sent(&inode.notification, inode.code),
        vec![
            0x28, 0, 0, 0, 2, 0, 0, 0, 0, 0, 0, 0, 0, 0, 0, 0, // header
            0x42, 0, 0, 0, 0, 0, 0, 0, // inode
            200, 0, 0, 0, 0, 0, 0, 0, // offset
            100, 0, 0, 0, 0, 0, 0, 0, // length
        ]
    );
    let store = notifier.store(INodeNo(0x42), 50, &[0xde, 0xad, 0xbe, 0xef]).unwrap();
    assert_eq!(
        sent(&store.notification, store.code),
        vec![
            0x2c, 0, 0, 0, 4, 0, 0, 0, 0, 0, 0, 0, 0, 0, 0, 0, // header
            0x42, 0, 0, 0, 0, 0, 0, 0, // inode
            50, 0, 0, 0, 0, 0, 0, 0, // offset
            4, 0, 0, 0, 0, 0, 0, 0, // size, padding
            0xde, 0xad, 0xbe, 0xef,
        ]
    );
    let delete = notifier.delete(INodeNo(0x34), INodeNo(0x42), b"abc").unwrap();
    assert_eq!(
        sent(&delete.notification, delete.code),
        vec![
            0x2c, 0, 0, 0, 6, 0, 0, 0, 0, 0, 0, 0, 0, 0, 0, 0, // header
            0x34, 0, 0, 0, 0, 0, 0, 0, // parent
            0x42, 0, 0, 0, 0, 0, 0, 0, // child
            3, 0, 0, 0, 0, 0, 0, 0, // length of the name, padding
            b'a', b'b', b'c', 0,
        ]
    );
}

#[test]
fn an_entry_that_is_not_cached_is_no_failure() {
    let notifier = notifier(0);
    let entry = notifier.inval_entry(INodeNo(1), b"x").unwrap();
    assert_eq!(entry.outcome(Err(Errno(libc::ENOENT))), Ok(()));
    assert_eq!(entry.outcome(Err(Errno(libc::EIO))), Err(Errno(libc::EIO)));
    let poll = notifier.poll(PollHandle(1));
    assert_eq!(poll.outcome(Err(Errno(libc::ENOENT))), Err(Errno(libc::ENOENT)));
}

#[test]
fn refusals_say_why() {
    assert_eq!(NotifyError::NotSupported.raw_os_error(), Some(libc::ENOTSUP));
    assert_eq!(NotifyError::TooBig.raw_os_error(), None);
    assert_eq!(NotifyError::TooBig.text(), "Data too large: TryFromIntError(())");
    assert_eq!(NotifyError::NotSupported.text(), "Operation not supported");
}

#[test]
fn a_poll_is_notified_by_its_handle() {
    let notifier = PollNotifier::new(PollHandle(7), InitFlags::from_bits_retain(0), None);
    assert_eq!(notifier.handle(), PollHandle(7));
    let outgoing = notifier.notify();
    assert_eq!(sent(&outgoing.notification, outgoing.code)[16], 7);
}
