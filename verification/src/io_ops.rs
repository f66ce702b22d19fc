//! Reading from and writing to a descriptor of the device.

use vstd::prelude::*;

use crate::mnt::mount::{ErrorKind, OsError};

verus! {

/// A descriptor that is closed once.
#[derive(Debug)]
pub struct FileDescriptorRawHandle {
    pub fd: i32,
    pub is_closed: bool,
}

impl FileDescriptorRawHandle {
    /// A descriptor that is open.
    pub fn new(fd: i32) -> (r: FileDescriptorRawHandle)
        ensures
            r == (FileDescriptorRawHandle { fd, is_closed: false }),
    {
        FileDescriptorRawHandle { fd, is_closed: false }
    }

    /// What closing the descriptor does, and what is to be closed: the descriptor, the first time.
    pub open spec fn closes(
        before: FileDescriptorRawHandle,
        after: FileDescriptorRawHandle,
        r: Option<i32>,
    ) -> bool {
        &&& after == FileDescriptorRawHandle { fd: before.fd, is_closed: true }
        &&& r == if before.is_closed {
            None
        } else {
            Some(before.fd)
        }
    }

    /// Close the descriptor. Returns what is to be closed.
    pub fn close(&mut self) -> (r: Option<i32>)
        ensures
            FileDescriptorRawHandle::closes(*old(self), *final(self), r),
    {
        let already_closed = self.is_closed;
        self.is_closed = true;
        if already_closed {
            None
        } else {
            Some(self.fd)
        }
    }

    /// The descriptor.
    pub fn as_raw_fd(&self) -> (r: i32)
        ensures
            r == self.fd,
    {
        self.fd
    }
}

/// Of any number of times that a descriptor is closed, the system closes it at the first and at no
/// other.
pub proof fn lemma_closed_once(
    states: Seq<FileDescriptorRawHandle>,
    results: Seq<Option<i32>>,
    i: int,
)
    requires
        states.len() == results.len() + 1,
        !states[0].is_closed,
        forall|k: int|
            0 <= k < results.len() ==> FileDescriptorRawHandle::closes(
                states[k],
                #[trigger] states[k + 1],
                results[k],
            ),
        0 <= i < results.len(),
    ensures
        results[i] == (if i == 0 {
            Some(states[0].fd)
        } else {
            None
        }),
    decreases i,
{
    if i > 0 {
        lemma_closed_once(states, results, i - 1);
        assert(FileDescriptorRawHandle::closes(states[i - 1], states[i - 1 + 1], results[i - 1]));
    }
    assert(FileDescriptorRawHandle::closes(states[i], states[i + 1], results[i]));
}

/// What reading from the device came to: how many bytes were read, or the error.
pub fn blocking_receive(rc: isize, error: OsError) -> (r: Result<Option<usize>, OsError>)
    ensures
        r == (if rc < 0 {
            Err::<Option<usize>, OsError>(error)
        } else {
            Ok::<Option<usize>, OsError>(Some(rc as usize))
        }),
{
    if rc < 0 {
        Err(error)
    } else {
        Ok(Some(rc as usize))
    }
}

/// What happened while a request was waited for.
#[derive(Clone, Copy, Debug)]
pub enum ReceiveEvent {
    /// The device cannot be waited on.
    NotWatched(OsError),
    /// The device was ready, and reading from it came to this; nothing where it would block after
    /// all.
    Ready(Option<Result<Option<usize>, OsError>>),
    /// The device was not ready in time. Some ends of a mount do not make it ready, so that it was
    /// read from even so, which came to this.
    TimedOut(Result<Option<usize>, OsError>),
}

/// What follows.
#[derive(Clone, Copy, Debug)]
pub enum ReceiveStep {
    /// The wait is over.
    Return(Result<Option<usize>, OsError>),
    /// The device is waited on again.
    Again,
}

/// How long the device is waited on at a time, in milliseconds.
pub const RECEIVE_TIMEOUT_MS: u64 = 1000;

/// What follows on what happened while a request was waited for.
pub fn do_receive(event: ReceiveEvent) -> (r: ReceiveStep)
    ensures
        r == (match event {
            ReceiveEvent::NotWatched(e) => ReceiveStep::Return(Err(e)),
            ReceiveEvent::Ready(Some(result)) => ReceiveStep::Return(result),
            ReceiveEvent::Ready(None) => ReceiveStep::Return(Ok(None)),
            ReceiveEvent::TimedOut(Ok(n)) => ReceiveStep::Return(Ok(n)),
            ReceiveEvent::TimedOut(Err(e)) => if e.kind is WouldBlock {
                ReceiveStep::Again
            } else {
                ReceiveStep::Return(Err(e))
            },
        }),
{
    match event {
        ReceiveEvent::NotWatched(e) => ReceiveStep::Return(Err(e)),
        ReceiveEvent::Ready(Some(result)) => ReceiveStep::Return(result),
        ReceiveEvent::Ready(None) => ReceiveStep::Return(Ok(None)),
        ReceiveEvent::TimedOut(Ok(n)) => ReceiveStep::Return(Ok(n)),
        ReceiveEvent::TimedOut(Err(e)) => if e.kind == ErrorKind::WouldBlock {
            ReceiveStep::Again
        } else {
            ReceiveStep::Return(Err(e))
        },
    }
}

/// What happened while a reply was to be sent.
#[derive(Clone, Copy, Debug)]
pub enum SendEvent {
    /// The device cannot be waited on.
    NotWatched(OsError),
    /// The device was ready, and writing to it came to this; nothing where it would block after
    /// all.
    Ready(Option<Result<(), OsError>>),
}

/// What follows.
#[derive(Clone, Copy, Debug)]
pub enum SendStep {
    /// The reply was sent, or failed.
    Return(Result<(), OsError>),
    /// The device is waited on again.
    Again,
}

/// What follows on what happened while a reply was to be sent.
pub fn send(event: SendEvent) -> (r: SendStep)
    ensures
        r == (match event {
            SendEvent::NotWatched(e) => SendStep::Return(Err(e)),
            SendEvent::Ready(Some(result)) => SendStep::Return(result),
            SendEvent::Ready(None) => SendStep::Again,
        }),
{
    match event {
        SendEvent::NotWatched(e) => SendStep::Return(Err(e)),
        SendEvent::Ready(Some(result)) => SendStep::Return(result),
        SendEvent::Ready(None) => SendStep::Again,
    }
}

/// A descriptor is handed out to be closed exactly where it was not closed before, and then is
/// closed.
pub proof fn lemma_close_hands_out(handle: &mut FileDescriptorRawHandle, r: Option<i32>)
    requires
        call_ensures(FileDescriptorRawHandle::close, (handle,), r),
    ensures
        final(handle).is_closed,
        final(handle).fd == old(handle).fd,
        old(handle).is_closed ==> r is None,
        !old(handle).is_closed ==> r == Some(old(handle).fd),
{
}

/// A wait ends with what came of it; only one that ran out, with nothing to read even so, goes on.
pub proof fn lemma_wait_goes_on(event: ReceiveEvent, r: ReceiveStep)
    requires
        call_ensures(do_receive, (event,), r),
    ensures
        r is Again <==> (event matches ReceiveEvent::TimedOut(Err(e)) && e.kind is WouldBlock),
        event matches ReceiveEvent::Ready(Some(got)) ==> r == ReceiveStep::Return(got),
        event matches ReceiveEvent::Ready(None) ==> (r matches ReceiveStep::Return(Ok(n))
            && n is None),
        event matches ReceiveEvent::TimedOut(Ok(n)) ==> (r matches ReceiveStep::Return(Ok(m)) && m
            == n),
        event matches ReceiveEvent::TimedOut(Err(e)) ==> (r matches ReceiveStep::Return(Err(f))
            ==> f
            == e),
        event matches ReceiveEvent::NotWatched(e) ==> (r matches ReceiveStep::Return(Err(f)) && f
            == e),
{
}

/// A reply is tried again only where the device would block after all.
pub proof fn lemma_sent_again(event: SendEvent, r: SendStep)
    requires
        call_ensures(send, (event,), r),
    ensures
        r is Again <==> event == SendEvent::Ready(None),
        event matches SendEvent::Ready(Some(came)) ==> r == SendStep::Return(came),
        event matches SendEvent::NotWatched(e) ==> r == SendStep::Return(Err(e)),
{
}

/// What was read is told by its length, and an error by a negative one.
pub proof fn lemma_length_tells(rc: isize, error: OsError, r: Result<Option<usize>, OsError>)
    requires
        call_ensures(blocking_receive, (rc, error), r),
    ensures
        rc >= 0 ==> (r matches Ok(Some(n)) && n == rc),
        rc < 0 ==> (r matches Err(e) && e == error),
{
}

} // verus!
