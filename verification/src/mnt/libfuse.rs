//! Mounts that libfuse makes and ends.

use vstd::prelude::*;

use crate::ids::Errno;

verus! {

/// The calls that make a mount, in the order in which they are made.
#[derive(Clone, Copy, Debug, PartialEq, Eq, Structural)]
pub enum LibfuseCall {
    /// A session is made; its address is returned.
    SessionNew,
    /// The session is mounted; zero is returned.
    SessionMount,
    /// The descriptor of the session is returned.
    SessionFd,
    /// The filesystem is mounted without a session; its descriptor is returned.
    MountCompat25,
}

/// Whether a call of libfuse that returned `result` succeeded.
pub fn call_succeeded(call: LibfuseCall, result: i64) -> (r: bool)
    ensures
        r == (match call {
            LibfuseCall::SessionNew => result != 0,
            LibfuseCall::SessionMount => result == 0,
            LibfuseCall::SessionFd => result >= 0,
            LibfuseCall::MountCompat25 => result >= 0,
        }),
{
    match call {
        LibfuseCall::SessionNew => result != 0,
        LibfuseCall::SessionMount => result == 0,
        LibfuseCall::SessionFd => result >= 0,
        LibfuseCall::MountCompat25 => result >= 0,
    }
}

/// A session of libfuse, as long as it was not destroyed.
#[derive(Clone, Copy, Debug, PartialEq, Eq, Structural)]
pub struct LibfuseSession {
    pub destroyed: bool,
}

/// What is done when the filesystem of a session is unmounted.
#[derive(Clone, Copy, Debug, PartialEq, Eq, Structural)]
pub enum SessionUnmount {
    /// It is unmounted.
    Unmounted,
    /// The system call is not allowed: libfuse unmounts the session, which is then destroyed.
    UnmountAndDestroy,
    /// The unmount failed.
    Failed(i32),
}

impl LibfuseSession {
    /// What follows on the result of the unmount system call. The session must not have been
    /// destroyed.
    pub fn umount_impl(&mut self, result: Result<(), i32>) -> (r: SessionUnmount)
        requires
            !old(self).destroyed,
        ensures
            r == (match result {
                Ok(_) => SessionUnmount::Unmounted,
                Err(e) => if e == Errno::EPERM {
                    SessionUnmount::UnmountAndDestroy
                } else {
                    SessionUnmount::Failed(e)
                },
            }),
            final(self).destroyed == (r is UnmountAndDestroy),
    {
        match result {
            Ok(_) => SessionUnmount::Unmounted,
            Err(e) => if e == Errno::EPERM {
                self.destroyed = true;
                SessionUnmount::UnmountAndDestroy
            } else {
                SessionUnmount::Failed(e)
            },
        }
    }

    /// Whether the session is to be destroyed when it is let go: it is, unless it was before.
    pub fn let_go(&mut self) -> (destroy: bool)
        ensures
            destroy == !old(self).destroyed,
            final(self).destroyed,
    {
        let destroy = !self.destroyed;
        self.destroyed = true;
        destroy
    }
}

/// Which results of libfuse tell of success: a session that is there, a mount without an error, and
/// a descriptor that is one.
pub proof fn lemma_result_tells(call: LibfuseCall, result: i64, r: bool)
    requires
        call_ensures(call_succeeded, (call, result), r),
    ensures
        call is SessionNew && result == 0 ==> !r,
        call is SessionNew && (result > 0 || result < 0) ==> r,
        call is SessionMount ==> (r <==> !(result > 0 || result < 0)),
        call is SessionFd || call is MountCompat25 ==> (r <==> !(result < 0)),
{
}

/// A session is destroyed with its unmount only where unmounting it otherwise is not allowed.
pub proof fn lemma_session_is_unmounted(
    session: &mut LibfuseSession,
    result: Result<(), i32>,
    r: SessionUnmount,
)
    requires
        !old(session).destroyed,
        call_ensures(LibfuseSession::umount_impl, (session, result), r),
    ensures
        r is Unmounted <==> result is Ok,
        r is UnmountAndDestroy <==> result == Err::<(), i32>(1),
        r matches SessionUnmount::Failed(e) ==> result == Err::<(), i32>(e),
        final(session).destroyed <==> result == Err::<(), i32>(1),
{
}

/// A session is destroyed once.
pub proof fn lemma_session_is_destroyed_once(session: &mut LibfuseSession, destroy: bool)
    requires
        call_ensures(LibfuseSession::let_go, (session,), destroy),
    ensures
        destroy <==> !old(session).destroyed,
        final(session).destroyed,
{
}

} // verus!
