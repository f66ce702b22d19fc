//! A session whose workers run side by side.

use vstd::prelude::*;
use vstd::slice::slice_subrange;

use crate::ids::{Errno, Version};
use crate::ll::request::{parses_request, Request, RequestError};
use crate::mnt::mount::OsError;

verus! {

/// What a session and the kernel agreed on; zero before they did.
#[derive(Clone, Copy, Debug, PartialEq, Eq, Structural)]
pub struct SessionConfiguration {
    pub proto_major: u32,
    pub proto_minor: u32,
}

/// A session. `S` signals one interested party that it ends, `J` waits for a worker, and `C` is the
/// channel to the kernel.
#[derive(Debug)]
pub struct TokioSession<S, J, C> {
    pub session_configuration: SessionConfiguration,
    /// True if the filesystem is initialized (init operation done)
    pub is_initialized: bool,
    /// True if the filesystem was destroyed (destroy operation done)
    pub is_destroyed: bool,
    /// Pipes to inform all of the child channels/interested parties we are shutting down
    pub destroy_signals: Vec<S>,
    pub join_handles: Vec<J>,
    pub channel: Option<C>,
}

impl<S, J, C> TokioSession<S, J, C> {
    /// A session that has not begun.
    pub fn new(channel: C) -> (r: TokioSession<S, J, C>)
        ensures
            r.session_configuration == (SessionConfiguration { proto_major: 0, proto_minor: 0 }),
            !r.is_initialized,
            !r.is_destroyed,
            r.destroy_signals@ == Seq::<S>::empty(),
            r.join_handles@ == Seq::<J>::empty(),
            r.channel == Some(channel),
    {
        TokioSession {
            session_configuration: SessionConfiguration { proto_major: 0, proto_minor: 0 },
            is_initialized: false,
            is_destroyed: false,
            destroy_signals: Vec::new(),
            join_handles: Vec::new(),
            channel: Some(channel),
        }
    }

    /// A session that begins: `driver` signals the one who waits for the session, and `workers` the
    /// workers, one for each descriptor. All of them are to be told when the session ends.
    pub fn spawn_run(channel: C, driver: S, workers: Vec<S>) -> (r: TokioSession<S, J, C>)
        ensures
            r.destroy_signals@ == seq![driver] + workers@,
            r.session_configuration == (SessionConfiguration { proto_major: 0, proto_minor: 0 }),
            !r.is_initialized,
            !r.is_destroyed,
            r.join_handles@ == Seq::<J>::empty(),
            r.channel == Some(channel),
    {
        let mut session = TokioSession::new(channel);
        session.register_destroy(driver);
        let mut workers: Vec<S> = workers;
        session.destroy_signals.append(&mut workers);
        session
    }

    /// One more party is to be told when the session ends.
    pub fn register_destroy(&mut self, sender: S)
        ensures
            final(self).destroy_signals@ == old(self).destroy_signals@.push(sender),
            final(self).session_configuration == old(self).session_configuration,
            final(self).is_initialized == old(self).is_initialized,
            final(self).is_destroyed == old(self).is_destroyed,
            final(self).join_handles == old(self).join_handles,
            final(self).channel == old(self).channel,
    {
        self.destroy_signals.push(sender);
    }

    /// The session ends. Returns the signals that are to be sent, in the order in which they were
    /// registered, and the channel that is to be closed; both only the first time.
    pub fn destroy(&mut self) -> (r: (Vec<S>, Option<C>))
        ensures
            final(self).is_destroyed,
            r.0@ == old(self).destroy_signals@,
            r.1 == old(self).channel,
            final(self).destroy_signals@ == Seq::<S>::empty(),
            final(self).channel is None,
            final(self).session_configuration == old(self).session_configuration,
            final(self).is_initialized == old(self).is_initialized,
            final(self).join_handles == old(self).join_handles,
    {
        self.is_destroyed = true;
        let mut signals: Vec<S> = Vec::new();
        std::mem::swap(&mut signals, &mut self.destroy_signals);
        let channel = self.channel.take();
        (signals, channel)
    }

    /// Whether the session has ended.
    pub fn destroyed(&self) -> (r: bool)
        ensures
            r == self.is_destroyed,
    {
        self.is_destroyed
    }

    /// Whether the session and the kernel have agreed on a version.
    pub fn initialized(&self) -> (r: bool)
        ensures
            r == self.is_initialized,
    {
        self.is_initialized
    }

    /// The session and the kernel have agreed on `version`.
    pub fn initialize(&mut self, version: Version)
        ensures
            final(self).session_configuration == (SessionConfiguration {
                proto_major: version.0,
                proto_minor: version.1,
            }),
            final(self).is_initialized,
            final(self).is_destroyed == old(self).is_destroyed,
            final(self).destroy_signals == old(self).destroy_signals,
            final(self).join_handles == old(self).join_handles,
            final(self).channel == old(self).channel,
    {
        self.session_configuration = SessionConfiguration {
            proto_major: version.0,
            proto_minor: version.1,
        };
        self.is_initialized = true;
    }

    /// The workers that are to be waited for, each of them once.
    pub fn wait_worker_shutdown(&mut self) -> (r: Vec<J>)
        ensures
            r@ == old(self).join_handles@,
            final(self).join_handles@ == Seq::<J>::empty(),
            final(self).session_configuration == old(self).session_configuration,
            final(self).is_initialized == old(self).is_initialized,
            final(self).is_destroyed == old(self).is_destroyed,
            final(self).destroy_signals == old(self).destroy_signals,
            final(self).channel == old(self).channel,
    {
        let mut handles: Vec<J> = Vec::new();
        std::mem::swap(&mut handles, &mut self.join_handles);
        handles
    }

    /// What the session and the kernel agreed on, once they did.
    pub fn session_configuration(&self) -> (r: Option<SessionConfiguration>)
        ensures
            r == (if self.session_configuration.proto_major > 0 {
                Some(self.session_configuration)
            } else {
                None
            }),
    {
        if self.session_configuration.proto_major > 0 {
            Some(self.session_configuration)
        } else {
            None
        }
    }
}

/// Whether a worker was told to end: what it still waits on, if it does.
#[derive(Debug)]
pub struct WorkerIsTerminated<R>(pub Option<R>);

impl<R> WorkerIsTerminated<R> {
    /// What is to be asked whether the worker was told to end. Without it, it was.
    pub fn begin_poll(&mut self) -> (r: Option<R>)
        ensures
            r == old(self).0,
            final(self).0 is None,
    {
        self.0.take()
    }

    /// What is known once `receiver` was asked: it is asked again only while it is pending. Returns
    /// whether the worker was told to end.
    pub fn end_poll(&mut self, receiver: R, pending: bool) -> (ready: bool)
        requires
            old(self).0 is None,
        ensures
            ready == !pending,
            final(self).0 == (if pending {
                Some(receiver)
            } else {
                None
            }),
    {
        if pending {
            self.0 = Some(receiver);
            false
        } else {
            true
        }
    }
}

/// Whether an error while reading a request says no more than that there is none now.
pub open spec fn is_passing(error: OsError) -> bool {
    error.raw == Some(Errno::ENOENT) || error.raw == Some(Errno::EINTR) || error.raw == Some(
        Errno::EAGAIN,
    )
}

/// The request that was read, of the first bytes of `buffer`. There is none where the worker was
/// told to end or nothing was read, where the error will pass, and where the bytes are no request.
pub fn read_single_request<'b>(received: Result<Option<usize>, OsError>, buffer: &'b [u8]) -> (r:
    Option<Result<Request<'b>, OsError>>)
    requires
        received matches Ok(Some(size)) ==> size <= buffer@.len(),
    ensures
        match received {
            Err(error) => r == (if is_passing(error) {
                None
            } else {
                Some(Err::<Request<'b>, OsError>(error))
            }),
            Ok(None) => r is None,
            Ok(Some(size)) => match r {
                Some(Ok(request)) => parses_request(
                    buffer@.take(size as int),
                    Ok::<Request<'b>, RequestError>(request),
                ),
                Some(Err(_)) => false,
                None => exists|e: RequestError| #[trigger]
                    parses_request(buffer@.take(size as int), Err::<Request<'b>, RequestError>(e)),
            },
        },
{
    match received {
        Err(error) => {
            let passing = match error.raw {
                // Operation interrupted. Accordingly to FUSE, this is safe to retry.
                // Or an interrupted system call, or explicitly try again
                Some(raw) => raw == Errno::ENOENT || raw == Errno::EINTR || raw == Errno::EAGAIN,
                None => false,
            };
            if passing {
                None
            } else {
                // The filesystem was unmounted, or something else is wrong
                Some(Err(error))
            }
        },
        Ok(None) => None,
        Ok(Some(size)) => {
            let data: &'b [u8] = slice_subrange(buffer, 0, size);
            assert(data@ =~= buffer@.take(size as int));
            match Request::try_from(data) {
                Ok(request) => Some(Ok(request)),
                Err(e) => {
                    assert(parses_request(
                        buffer@.take(size as int),
                        Err::<Request<'b>, RequestError>(e),
                    ));
                    None
                },
            }
        },
    }
}

/// A receipt that was interrupted or must be tried again gives nothing, and so does what is no
/// request; every other error is told.
pub proof fn lemma_what_is_received<'b>(
    received: Result<Option<usize>, OsError>,
    buffer: &'b [u8],
    r: Option<Result<Request<'b>, OsError>>,
)
    requires
        call_ensures(read_single_request, (received, buffer), r),
    ensures
        received matches Err(e) ==> (r is None <==> e.raw == Some(2i32) || e.raw == Some(4i32)
            || e.raw == Some(11i32)),
        received matches Err(e) ==> (r matches Some(told) ==> told == Err::<Request<'b>,
            OsError>(e)),
        received matches Ok(None) ==> r is None,
        received is Ok ==> !(r matches Some(told) && told is Err),
{
}

/// A session is told the version that was agreed on, major before minor, and from then on says so.
pub proof fn lemma_version_is_told<S, J, C>(
    session: &mut TokioSession<S, J, C>,
    version: Version,
    told: Option<SessionConfiguration>,
)
    requires
        call_ensures(TokioSession::<S, J, C>::initialize, (session, version), ()),
        call_ensures(TokioSession::<S, J, C>::session_configuration, (&*final(session),), told),
    ensures
        final(session).is_initialized,
        final(session).is_destroyed == old(session).is_destroyed,
        version.0 > 0 ==> (told matches Some(c) && c.proto_major == version.0 && c.proto_minor
            == version.1),
        version.0 == 0 ==> told is None,
{
}

/// A session that is destroyed hands out every signal that was registered, in order, and its
/// channel.
pub proof fn lemma_signals_are_handed_out<S, J, C>(
    session: &mut TokioSession<S, J, C>,
    r: (Vec<S>, Option<C>),
)
    requires
        call_ensures(TokioSession::<S, J, C>::destroy, (session,), r),
    ensures
        final(session).is_destroyed,
        r.0@ == old(session).destroy_signals@,
        r.1 == old(session).channel,
        final(session).destroy_signals@.len() == 0,
        final(session).channel is None,
{
}

} // verus!
