//! Connected pipe instances and the client-side connect future.

use vstd::prelude::*;
use crate::error::IoError;
use crate::handle::PipeHandle;
use crate::readiness::ReadyPoll;

verus! {

/// What a stream is mathematically: the pipe instance it owns and the pipe
/// name that instance was opened under.
pub struct StreamView {
    pub handle: PipeHandle,
    pub path: Seq<char>,
}

/// One connected (or connecting) pipe instance.  A stream owns its handle
/// exclusively: no two streams share one, and a listener never retains the
/// handle of a stream it has handed out.
#[derive(Debug)]
pub struct NamedPipeStream {
    handle: PipeHandle,
    path: String,
}

impl View for NamedPipeStream {
    type V = StreamView;

    closed spec fn view(&self) -> StreamView {
        StreamView { handle: self.handle, path: self.path@ }
    }
}

impl NamedPipeStream {
    /// Wraps a pipe-instance handle opened under `path` into a stream.
    ///
    /// On the server side the handle is the just-connected instance a
    /// listener hands off; on the client side it is a freshly opened handle
    /// to a server's pipe.
    pub fn new_connection(path: String, handle: PipeHandle) -> (s: NamedPipeStream)
        ensures
            s@.handle == handle,
            s@.path == path@,
    {
        NamedPipeStream { handle, path }
    }

    /// The raw OS handle, for diagnostics and aliasing checks.
    pub fn raw_handle(&self) -> (r: u64)
        ensures
            r == self@.handle.id,
    {
        self.handle.id
    }

    /// The pipe name this stream's instance was opened under.
    pub fn path(&self) -> (r: &String)
        ensures
            r@ == self@.path,
    {
        &self.path
    }

    /// Client-side entry point: the runtime has opened `path` for duplex,
    /// overlapped I/O and reports the outcome in `opened`.  The result is
    /// always a future, never a synchronous failure: a successful open
    /// starts in `Waiting` (the handle may still be completing its
    /// handshake), a failed one stores the error, surfaced on first poll.
    pub fn connect(path: String, opened: Result<PipeHandle, IoError>) -> (f: ConnectFuture)
        ensures
            (opened matches Ok(h) ==>
                f.state() matches ConnectState::Waiting(s)
                    && s@.handle == h && s@.path == path@),
            (opened matches Err(e) ==> f.state() == ConnectState::Error(e)),
    {
        match opened {
            Ok(handle) => ConnectFuture {
                inner: ConnectState::Waiting(NamedPipeStream::new_connection(path, handle)),
            },
            Err(e) => ConnectFuture { inner: ConnectState::Error(e) },
        }
    }
}

/// The states of a one-shot connect operation.
///
/// `Waiting` holds the not-yet-writable stream; `Error` holds an open
/// failure not yet surfaced; `Empty` is the tombstone entered exactly when
/// the future resolves, after which polling is a contract violation.
#[derive(Debug)]
pub enum ConnectState {
    Waiting(NamedPipeStream),
    Error(IoError),
    Empty,
}

/// What one poll of a connect future returns.
#[derive(Debug)]
pub enum ConnectPoll {
    /// The handle is not yet writable; the reactor will wake the task.
    NotReady,
    /// The handle became usable; the stream is handed out.
    Ready(NamedPipeStream),
    /// An error is surfaced: the stored open failure, or a readiness error.
    Failed(IoError),
}

/// The state a connect future is in after one poll, given the reactor's
/// answer on write readiness.  Resolution — handing out the stream or
/// surfacing the stored error — is exactly what enters the tombstone;
/// a readiness error while waiting leaves the future pollable.
pub open spec fn connect_next(s: ConnectState, readiness: ReadyPoll) -> ConnectState {
    match s {
        ConnectState::Waiting(stream) => match readiness {
            ReadyPoll::Ready => ConnectState::Empty,
            _ => ConnectState::Waiting(stream),
        },
        ConnectState::Error(_) => ConnectState::Empty,
        ConnectState::Empty => ConnectState::Empty,
    }
}

/// Whether one poll from state `s` resolves the future: yields its stream
/// or surfaces its stored error.
pub open spec fn connect_resolves(s: ConnectState, readiness: ReadyPoll) -> bool {
    match s {
        ConnectState::Waiting(_) => readiness is Ready,
        ConnectState::Error(_) => true,
        ConnectState::Empty => false,
    }
}

/// A one-shot asynchronous connect: waits until the client-side handle
/// becomes usable, then resolves exactly once.
#[derive(Debug)]
pub struct ConnectFuture {
    inner: ConnectState,
}

impl ConnectFuture {
    /// The state this future is in.
    pub closed spec fn state(&self) -> ConnectState {
        self.inner
    }

    /// Whether the future has already resolved.  The runtime must check
    /// this before polling: polling a resolved future is the fatal
    /// contract violation, and is excluded from `poll`'s precondition.
    pub fn is_resolved(&self) -> (r: bool)
        ensures
            r == (self.state() is Empty),
    {
        matches!(self.inner, ConnectState::Empty)
    }

    /// Whether the future still waits on write readiness, so that the
    /// runtime knows to ask the reactor before polling.
    pub fn is_waiting(&self) -> (r: bool)
        ensures
            r == (self.state() is Waiting),
    {
        matches!(self.inner, ConnectState::Waiting(_))
    }

    /// Drives the future one step.  `readiness` is the reactor's answer on
    /// the held handle's write readiness; it is read only in the `Waiting`
    /// state (a stored open error is surfaced without consulting the OS).
    ///
    /// While waiting and not ready, the poll suspends and nothing changes.
    /// Once the handle is writable the stream is extracted and the future
    /// becomes the `Empty` tombstone; a stored error is surfaced the same
    /// way.  Polling after resolution is a programming error, defined as
    /// fatal: the precondition excludes it, and the runtime aborts instead
    /// of calling in.
    pub fn poll(&mut self, readiness: ReadyPoll) -> (r: ConnectPoll)
        requires
            !(old(self).state() is Empty),
        ensures
            final(self).state() == connect_next(old(self).state(), readiness),
            (old(self).state() matches ConnectState::Waiting(w) ==> match readiness {
                ReadyPoll::NotReady => r is NotReady,
                ReadyPoll::Ready => r matches ConnectPoll::Ready(s) && s == w,
                ReadyPoll::Failed(e) => r == ConnectPoll::Failed(e),
            }),
            (old(self).state() matches ConnectState::Error(e) ==>
                r == ConnectPoll::Failed(e)),
    {
        let mut taken = ConnectState::Empty;
        core::mem::swap(&mut self.inner, &mut taken);
        match taken {
            ConnectState::Waiting(stream) => match readiness {
                ReadyPoll::NotReady => {
                    self.inner = ConnectState::Waiting(stream);
                    ConnectPoll::NotReady
                }
                ReadyPoll::Ready => ConnectPoll::Ready(stream),
                ReadyPoll::Failed(e) => {
                    self.inner = ConnectState::Waiting(stream);
                    ConnectPoll::Failed(e)
                }
            },
            ConnectState::Error(e) => ConnectPoll::Failed(e),
            ConnectState::Empty => vstd::pervasive::unreached(),
        }
    }
}

/// Single resolution: a poll that yields the stream or surfaces the stored
/// error leaves the future in the tombstone state, which `poll` refuses;
/// no future can resolve twice.
pub proof fn lemma_single_resolution(s: ConnectState, readiness: ReadyPoll)
    requires
        connect_resolves(s, readiness),
    ensures
        connect_next(s, readiness) is Empty,
{
}

/// A poll that does not resolve the future leaves it exactly as it was,
/// ready to be polled again.
pub proof fn lemma_unresolved_unchanged(s: ConnectState, readiness: ReadyPoll)
    requires
        !connect_resolves(s, readiness),
    ensures
        connect_next(s, readiness) == s,
{
}

/// Would-block transparency, client side: while the future waits, a
/// not-ready answer from the reactor suspends the poll; it is never
/// surfaced as an error and does not resolve the future.
pub proof fn lemma_connect_would_block_transparent(s: ConnectState)
    requires
        s is Waiting,
    ensures
        !connect_resolves(s, ReadyPoll::NotReady),
        connect_next(s, ReadyPoll::NotReady) == s,
{
}

} // verus!
