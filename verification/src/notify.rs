//! Notifications that a filesystem sends to the kernel of its own accord.

use vstd::prelude::*;
use vstd::string::StringExecFns;

use crate::ids::{Errno, INodeNo, Version};
use crate::ll::flags::init_flags::InitFlags;
use crate::ll::fuse_abi::{
    fuse_notify_code, fuse_notify_delete_out, fuse_notify_inval_entry_out,
    fuse_notify_inval_inode_out, fuse_notify_poll_wakeup_out, fuse_notify_store_out,
    FUSE_KERNEL_MINOR_VERSION, FUSE_KERNEL_VERSION,
};
use crate::ll::notify::Notification;
use crate::ll::wire::{group_lengths, IntoBytes};

verus! {

broadcast use group_lengths;

/// Marks an entry for revalidation in place of detaching it.
pub const FUSE_EXPIRE_ONLY: u32 = 1;

/// The least minor version of ABI 7 that knows the epoch of a connection.
pub const FUSE_NOTIFY_INC_EPOCH_MINOR: u32 = 44;

/// A handle to a pending `poll()` request.
#[derive(Clone, Copy, Debug, PartialEq, Eq, Structural)]
pub struct PollHandle(pub u64);

/// Why a notification is not sent.
#[derive(Clone, Copy, Debug, PartialEq, Eq, Structural)]
pub enum NotifyError {
    /// The kernel would not do what is asked for.
    NotSupported,
    /// The notification would exceed what its length field can hold.
    TooBig,
}

impl NotifyError {
    /// The error number, where there is one.
    pub fn raw_os_error(&self) -> (r: Option<i32>)
        ensures
            r == (match self {
                NotifyError::NotSupported => Some(Errno::ENOTSUP),
                NotifyError::TooBig => None,
            }),
    {
        match self {
            NotifyError::NotSupported => Some(Errno::ENOTSUP),
            NotifyError::TooBig => None,
        }
    }

    /// What is said of the error.
    pub fn text(&self) -> (r: String)
        ensures
            r@ == (match self {
                NotifyError::NotSupported => "Operation not supported"@,
                NotifyError::TooBig => "Data too large: TryFromIntError(())"@,
            }),
    {
        match self {
            NotifyError::NotSupported => String::from_str("Operation not supported"),
            NotifyError::TooBig => String::from_str("Data too large: TryFromIntError(())"),
        }
    }
}

/// A notification that is ready to be sent.
#[derive(Debug)]
pub struct Outgoing<'a> {
    pub code: fuse_notify_code,
    pub notification: Notification<'a>,
    /// Whether it does no harm that the kernel does not know what the notification is about: it
    /// may have dropped that on its own.
    pub ignore_not_found: bool,
}

impl<'a> Outgoing<'a> {
    /// What the sender is told when the kernel has answered.
    pub fn outcome(&self, sent: Result<(), Errno>) -> (r: Result<(), Errno>)
        ensures
            match sent {
                Err(e) => if self.ignore_not_found && e.0 == Errno::ENOENT {
                    r is Ok
                } else {
                    r == Err::<(), Errno>(e)
                },
                Ok(_) => r is Ok,
            },
    {
        match sent {
            Err(e) => if self.ignore_not_found && e.0 == Errno::ENOENT {
                Ok(())
            } else {
                Err(e)
            },
            Ok(()) => Ok(()),
        }
    }
}

/// A handle by which the application can send notifications to the server
#[derive(Clone, Copy, Debug, PartialEq, Eq, Structural)]
pub struct Notifier {
    /// Everything the kernel advertised during init. Some notifications are only
    /// meaningful on a kernel that supports them, and the kernel reports success
    /// regardless, so they are refused here rather than silently doing something else
    pub kernel_capabilities: InitFlags,
    /// The ABI version the kernel offered during init, or `None` before init has run.
    /// Notifications added after a given version have no capability bit to key on, so the
    /// version is what says whether the kernel will understand them. This is what the kernel
    /// advertised, not what the connection settled on: see `Notifier::negotiated_abi`
    pub kernel_abi: Option<Version>,
}

impl Notifier {
    /// A notifier for a connection.
    pub fn new(kernel_capabilities: InitFlags, kernel_abi: Option<Version>) -> (r: Notifier)
        ensures
            r.kernel_capabilities == kernel_capabilities,
            r.kernel_abi == kernel_abi,
    {
        Notifier { kernel_capabilities, kernel_abi }
    }

    /// Notify poll clients of I/O readiness
    pub fn poll<'a>(&self, kh: PollHandle) -> (r: Outgoing<'a>)
        ensures
            r.code == fuse_notify_code::FUSE_POLL,
            r.notification.head@ == (fuse_notify_poll_wakeup_out { kh: kh.0 }).spec_bytes(),
            r.notification.head@.len() == 8,
            r.notification.data@ == Seq::<u8>::empty(),
            !r.notification.terminated,
            !r.ignore_not_found,
    {
        Outgoing {
            code: fuse_notify_code::FUSE_POLL,
            notification: Notification::new_poll(kh),
            ignore_not_found: false,
        }
    }

    /// What is sent of a stale entry.
    pub open spec fn entry_message(
        parent: INodeNo,
        name: &[u8],
        flags: u32,
        r: Result<Outgoing, NotifyError>,
    ) -> bool {
        match r {
            Ok(m) => {
                &&& name@.len() <= u32::MAX
                &&& m.code == fuse_notify_code::FUSE_NOTIFY_INVAL_ENTRY
                &&& m.notification.head@ == (fuse_notify_inval_entry_out {
                    parent: parent.0,
                    namelen: name@.len() as u32,
                    padding: flags,
                }).spec_bytes()
                &&& m.notification.head@.len() == 16
                &&& m.notification.data == name
                &&& m.notification.terminated
                &&& m.ignore_not_found
            },
            Err(e) => name@.len() > u32::MAX && e is TooBig,
        }
    }

    /// Invalidate the kernel cache for a given directory entry
    pub fn inval_entry<'a>(&self, parent: INodeNo, name: &'a [u8]) -> (r: Result<
        Outgoing<'a>,
        NotifyError,
    >)
        ensures
            Notifier::entry_message(parent, name, 0, r),
    {
        match Notification::new_inval_entry(parent, name, 0) {
            Ok(notification) => Ok(
                Outgoing {
                    code: fuse_notify_code::FUSE_NOTIFY_INVAL_ENTRY,
                    notification,
                    ignore_not_found: true,
                },
            ),
            Err(_) => Err(NotifyError::TooBig),
        }
    }

    /// Expire the kernel cache for a given directory entry, rather than invalidating it.
    ///
    /// The entry is marked for revalidation on next use instead of being forcibly
    /// detached, so anything mounted beneath it stays mounted. Use this in preference to
    /// `inval_entry()` when the entry is merely believed to be stale
    /// rather than known to be gone.
    ///
    /// Refused if the kernel did not advertise `InitFlags::FUSE_HAS_EXPIRE_ONLY`.
    /// Such a kernel reads the flag as the padding it used to be and invalidates the entry,
    /// detaching any submounts, while still reporting success, so this refuses to send
    /// rather than quietly doing the destructive thing this call exists to avoid.
    pub fn expire_entry<'a>(&self, parent: INodeNo, name: &'a [u8]) -> (r: Result<
        Outgoing<'a>,
        NotifyError,
    >)
        ensures
            if self.kernel_capabilities.bits & InitFlags::FUSE_HAS_EXPIRE_ONLY
                == InitFlags::FUSE_HAS_EXPIRE_ONLY {
                Notifier::entry_message(parent, name, FUSE_EXPIRE_ONLY, r)
            } else {
                r == Err::<Outgoing, NotifyError>(NotifyError::NotSupported)
            },
    {
        if !self.kernel_capabilities.contains(InitFlags::FUSE_HAS_EXPIRE_ONLY) {
            return Err(NotifyError::NotSupported);
        }
        match Notification::new_inval_entry(parent, name, FUSE_EXPIRE_ONLY) {
            Ok(notification) => Ok(
                Outgoing {
                    code: fuse_notify_code::FUSE_NOTIFY_INVAL_ENTRY,
                    notification,
                    ignore_not_found: true,
                },
            ),
            Err(_) => Err(NotifyError::TooBig),
        }
    }

    /// Invalidate every cached directory entry at once, by incrementing the connection's
    /// epoch.
    ///
    /// The kernel stamps each dentry with the epoch current when it was looked up, and
    /// treats one stamped with an older epoch as stale. Incrementing therefore invalidates
    /// the whole dentry and readdir cache in constant time, where
    /// `inval_entry()` costs a notification per entry and needs the
    /// filesystem to know the names to begin with.
    ///
    /// Refused if the connection settled on an ABI older than 7.44, which has no
    /// case for this notification, and before the connection has settled on any.
    pub fn inc_epoch<'a>(&self) -> (r: Result<Outgoing<'a>, NotifyError>)
        ensures
            match self.spec_negotiated_abi() {
                Some(abi) if !abi.spec_before(Version(7, FUSE_NOTIFY_INC_EPOCH_MINOR)) => {
                    &&& r matches Ok(m)
                    &&& m.code == fuse_notify_code::FUSE_NOTIFY_INC_EPOCH
                    &&& m.notification.head@ == Seq::<u8>::empty()
                    &&& m.notification.data@ == Seq::<u8>::empty()
                    &&& !m.notification.terminated
                    &&& !m.ignore_not_found
                },
                _ => r == Err::<Outgoing, NotifyError>(NotifyError::NotSupported),
            },
    {
        // None before init has run, which is also a connection nothing can be sent on yet
        match self.negotiated_abi() {
            Some(abi) => if abi.before(Version(7, FUSE_NOTIFY_INC_EPOCH_MINOR)) {
                Err(NotifyError::NotSupported)
            } else {
                Ok(
                    Outgoing {
                        code: fuse_notify_code::FUSE_NOTIFY_INC_EPOCH,
                        notification: Notification::new_inc_epoch(),
                        ignore_not_found: false,
                    },
                )
            },
            None => Err(NotifyError::NotSupported),
        }
    }

    /// The lower of what the kernel offered and what was replied.
    pub open spec fn spec_negotiated_abi(self) -> Option<Version> {
        match self.kernel_abi {
            Some(kernel) => Some(
                kernel.spec_lower(Version(FUSE_KERNEL_VERSION, FUSE_KERNEL_MINOR_VERSION)),
            ),
            None => None,
        }
    }

    /// What the connection actually speaks: the lower of what the kernel offered during init
    /// and what was replied.
    ///
    /// Both halves matter. The kernel dispatches a notification on its code alone, without
    /// consulting the version, so what it offered is what decides whether it has a case for
    /// one at all. But it records the replied version verbatim as the connection's, so
    /// sending something newer than that is out of protocol however tolerant the dispatch
    /// happens to be. Taking the lower keeps to both.
    pub fn negotiated_abi(&self) -> (r: Option<Version>)
        ensures
            r == self.spec_negotiated_abi(),
    {
        match self.kernel_abi {
            Some(kernel) => Some(
                kernel.lower(Version(FUSE_KERNEL_VERSION, FUSE_KERNEL_MINOR_VERSION)),
            ),
            None => None,
        }
    }

    /// Invalidate the kernel cache for a given inode (metadata and
    /// data in the given range)
    pub fn inval_inode<'a>(&self, ino: INodeNo, offset: i64, len: i64) -> (r: Outgoing<'a>)
        ensures
            r.code == fuse_notify_code::FUSE_NOTIFY_INVAL_INODE,
            r.notification.head@ == (fuse_notify_inval_inode_out {
                ino: ino.0,
                off: offset,
                len,
            }).spec_bytes(),
            r.notification.head@.len() == 24,
            r.notification.data@ == Seq::<u8>::empty(),
            !r.notification.terminated,
            r.ignore_not_found,
    {
        Outgoing {
            code: fuse_notify_code::FUSE_NOTIFY_INVAL_INODE,
            notification: Notification::new_inval_inode(ino, offset, len),
            ignore_not_found: true,
        }
    }

    /// Update the kernel's cached copy of a given inode's data
    pub fn store<'a>(&self, ino: INodeNo, offset: u64, data: &'a [u8]) -> (r: Result<
        Outgoing<'a>,
        NotifyError,
    >)
        ensures
            match r {
                Ok(m) => {
                    &&& data@.len() <= u32::MAX
                    &&& m.code == fuse_notify_code::FUSE_NOTIFY_STORE
                    &&& m.notification.head@ == (fuse_notify_store_out {
                        nodeid: ino.0,
                        offset,
                        size: data@.len() as u32,
                        padding: 0,
                    }).spec_bytes()
                    &&& m.notification.head@.len() == 24
                    &&& m.notification.data == data
                    &&& !m.notification.terminated
                    &&& m.ignore_not_found
                },
                Err(e) => data@.len() > u32::MAX && e is TooBig,
            },
    {
        match Notification::new_store(ino, offset, data) {
            // Not strictly an invalidate, but the inode we're operating
            // on may have been evicted anyway, so treat is as such
            Ok(notification) => Ok(
                Outgoing {
                    code: fuse_notify_code::FUSE_NOTIFY_STORE,
                    notification,
                    ignore_not_found: true,
                },
            ),
            Err(_) => Err(NotifyError::TooBig),
        }
    }

    /// Invalidate the kernel cache for a given directory entry and inform
    /// inotify watchers of a file deletion.
    pub fn delete<'a>(&self, parent: INodeNo, child: INodeNo, name: &'a [u8]) -> (r: Result<
        Outgoing<'a>,
        NotifyError,
    >)
        ensures
            match r {
                Ok(m) => {
                    &&& name@.len() <= u32::MAX
                    &&& m.code == fuse_notify_code::FUSE_NOTIFY_DELETE
                    &&& m.notification.head@ == (fuse_notify_delete_out {
                        parent: parent.0,
                        child: child.0,
                        namelen: name@.len() as u32,
                        padding: 0,
                    }).spec_bytes()
                    &&& m.notification.head@.len() == 24
                    &&& m.notification.data == name
                    &&& m.notification.terminated
                    &&& m.ignore_not_found
                },
                Err(e) => name@.len() > u32::MAX && e is TooBig,
            },
    {
        match Notification::new_delete(parent, child, name) {
            Ok(notification) => Ok(
                Outgoing {
                    code: fuse_notify_code::FUSE_NOTIFY_DELETE,
                    notification,
                    ignore_not_found: true,
                },
            ),
            Err(_) => Err(NotifyError::TooBig),
        }
    }
}

/// What a connection speaks is no newer than what either side offered, and is what one of them did.
pub proof fn lemma_negotiated_abi_is_capped(notifier: Notifier)
    ensures
        notifier.spec_negotiated_abi() matches Some(abi) ==> {
            let replied = Version(FUSE_KERNEL_VERSION, FUSE_KERNEL_MINOR_VERSION);
            &&& !notifier.kernel_abi->0.spec_before(abi)
            &&& !replied.spec_before(abi)
            &&& abi == notifier.kernel_abi->0 || abi == replied
        },
        notifier.spec_negotiated_abi() is Some <==> notifier.kernel_abi is Some,
{
}

/// A handle to a pending `poll()` request coupled with notifier reference.
/// Can be saved and used to notify the kernel when a poll is ready.
#[derive(Clone, Copy, Debug, PartialEq, Eq, Structural)]
pub struct PollNotifier {
    pub handle: PollHandle,
    pub notifier: Notifier,
}

impl PollNotifier {
    /// A notifier for a poll.
    pub fn new(
        kh: PollHandle,
        kernel_capabilities: InitFlags,
        kernel_abi: Option<Version>,
    ) -> (r: PollNotifier)
        ensures
            r.handle == kh,
            r.notifier == (Notifier { kernel_capabilities, kernel_abi }),
    {
        PollNotifier { handle: kh, notifier: Notifier::new(kernel_capabilities, kernel_abi) }
    }

    /// Handle associated with this poll notifier.
    pub fn handle(&self) -> (r: PollHandle)
        ensures
            r == self.handle,
    {
        self.handle
    }

    /// Notify the kernel that the associated file handle is ready to be polled.
    pub fn notify<'a>(self) -> (r: Outgoing<'a>)
        ensures
            r.code == fuse_notify_code::FUSE_POLL,
            r.notification.head@ == (fuse_notify_poll_wakeup_out {
                kh: self.handle.0,
            }).spec_bytes(),
            r.notification.head@.len() == 8,
            r.notification.data@ == Seq::<u8>::empty(),
            !r.notification.terminated,
            !r.ignore_not_found,
    {
        self.notifier.poll(self.handle)
    }
}

/// The epoch is incremented only where both sides have reached version 7.44; else this is not
/// supported.
pub proof fn lemma_both_reach_the_epoch<'a>(
    notifier: Notifier,
    r: Result<Outgoing<'a>, NotifyError>,
)
    requires
        call_ensures(Notifier::inc_epoch, (&notifier,), r),
    ensures
        ({
            let replied = FUSE_KERNEL_VERSION > 7 || (FUSE_KERNEL_VERSION == 7
                && FUSE_KERNEL_MINOR_VERSION >= 44);
            let offered = notifier.kernel_abi matches Some(v) && (v.0 > 7 || (v.0 == 7 && v.1
                >= 44));
            r is Ok <==> replied && offered
        }),
        r matches Ok(m) ==> m.code is FUSE_NOTIFY_INC_EPOCH && m.notification.head@.len() == 0
            && m.notification.data@.len() == 0,
        r matches Err(e) ==> e is NotSupported,
{
}

/// What is not supported is told by its error number.
pub proof fn lemma_not_supported_is_told(e: NotifyError, r: Option<i32>)
    requires
        call_ensures(NotifyError::raw_os_error, (&e,), r),
    ensures
        e is NotSupported <==> r == Some(95i32),
        e is TooBig <==> r is None,
{
}

/// Where something to invalidate is not there, nothing is left to do; every other error is told.
pub proof fn lemma_nothing_to_invalidate(
    m: Outgoing,
    sent: Result<(), Errno>,
    r: Result<(), Errno>,
)
    requires
        call_ensures(Outgoing::outcome, (&m, sent), r),
    ensures
        r is Ok <==> sent is Ok || (m.ignore_not_found && sent == Err::<(), Errno>(Errno(2))),
        r is Err ==> r == sent,
{
}

/// What is said of a notification that was not sent.
pub proof fn lemma_failure_is_told(e: NotifyError, r: String)
    requires
        call_ensures(NotifyError::text, (&e,), r),
    ensures
        e is NotSupported ==> "Operation not supported"@ == r@,
        e is TooBig ==> "Data too large: TryFromIntError(())"@ == r@,
{
}

/// A poll is answered under the handle that it came with.
pub proof fn lemma_poll_is_answered<'a>(
    kh: PollHandle,
    kernel_capabilities: InitFlags,
    kernel_abi: Option<Version>,
    notifier: PollNotifier,
    r: Outgoing<'a>,
)
    requires
        call_ensures(PollNotifier::new, (kh, kernel_capabilities, kernel_abi), notifier),
        call_ensures(PollNotifier::notify, (notifier,), r),
    ensures
        notifier.handle == kh,
        notifier.notifier.kernel_capabilities == kernel_capabilities,
        notifier.notifier.kernel_abi == kernel_abi,
        r.code is FUSE_POLL,
        r.notification.head@ == crate::ll::wire::u64_bytes(kh.0),
        r.notification.data@.len() == 0,
{
}

} // verus!
