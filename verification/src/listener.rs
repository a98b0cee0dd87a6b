//! The server side: a listener that accepts repeated client connections on
//! one pipe name by completing a pending connect on its live instance and
//! immediately re-arming itself with a fresh instance.
//!
//! The OS and reactor calls of one accept — polling read readiness,
//! the non-blocking connect, creating the replacement instance, clearing a
//! stale readiness flag — are performed by the surrounding runtime.  The
//! listener names the call that is owed as an [`AcceptAction`], the runtime
//! performs it and feeds the outcome back as an [`AcceptEvent`], and
//! [`NamedPipeListener::poll_accept`] makes every decision in between.

use vstd::prelude::*;
use crate::error::IoError;
use crate::handle::PipeHandle;
use crate::incoming::Incoming;
use crate::readiness::ReadyPoll;
use crate::stream::NamedPipeStream;

verus! {

/// Where the listener stands in the accept protocol: which outcome it
/// waits for.  At every suspension point — after a yielded stream, a
/// suspension or a surfaced error — the listener stands in
/// `AwaitReadiness` again, so each accept starts from scratch.
#[derive(Clone, Copy, Debug, PartialEq, Eq, Structural)]
pub enum AcceptState {
    /// The next step asks the reactor for read readiness.
    AwaitReadiness,
    /// Readiness was signaled; the next step attempts the non-blocking
    /// connect that completes a pending client connection.
    AwaitConnect,
    /// The connect reported would-block; the next step clears the stale
    /// read-readiness flag so the reactor re-arms notification.
    AwaitClear,
    /// The connect succeeded; the next step creates the fresh replacement
    /// instance under the same name.
    AwaitReplacement,
}

/// The OS or reactor call the runtime owes the listener next.
#[derive(Clone, Copy, Debug, PartialEq, Eq, Structural)]
pub enum AcceptAction {
    /// Ask the reactor whether the live instance is read-ready.
    PollReadReady,
    /// Attempt the non-blocking connect on the live instance.
    Connect,
    /// Create a fresh pipe instance under the listener's name, configured
    /// as [`replacement_config`] says.
    CreateInstance,
    /// Clear the read-readiness flag and re-register interest.
    ClearReadReady,
}

/// The outcome of one such call, handed back to the listener.
#[derive(Clone, Copy, Debug)]
pub enum AcceptEvent {
    /// The reactor's answer to `PollReadReady`.
    Readiness(ReadyPoll),
    /// The outcome of `Connect`.
    ConnectDone(Result<(), IoError>),
    /// The outcome of `ClearReadReady`.
    ClearDone(Result<(), IoError>),
    /// The outcome of `CreateInstance`: the fresh instance's handle.
    InstanceDone(Result<PipeHandle, IoError>),
}

/// What one call of `poll_accept` returns.
#[derive(Debug)]
pub enum AcceptStep {
    /// Another call is owed before the poll can settle.
    Pending(AcceptAction),
    /// Suspension point: no client yet; the reactor will wake the task.
    NotReady,
    /// A client connected: its stream, wrapping the instance that was the
    /// listener's live handle until this very step.
    Accepted(NamedPipeStream),
    /// A real OS error, surfaced verbatim and never retried internally.
    Failed(IoError),
}

/// What a step decides, at the specification level: whether it asks for
/// another call, suspends, hands a connection off, or fails.
pub enum AcceptVerdict {
    Continue(AcceptAction),
    Suspend,
    HandOff,
    Fail(IoError),
}

/// How a pipe instance is to be created.
#[derive(Clone, Copy, Debug, PartialEq, Eq, Structural)]
pub struct InstanceConfig {
    /// Whether this is the first instance under its name.
    pub first: bool,
    /// Whether the instance accepts inbound bytes.
    pub inbound: bool,
    /// Whether the instance sends outbound bytes.
    pub outbound: bool,
    /// Capacity of the inbound buffer, in bytes.
    pub in_buffer_size: usize,
    /// Capacity of the outbound buffer, in bytes.
    pub out_buffer_size: usize,
}

/// The fixed configuration of every replacement instance a listener asks
/// for: not the first instance under its name, duplex, with
/// [`crate::channel::PIPE_BUFFER_SIZE`]-byte buffers in each direction.
/// A policy of this crate, not user-configurable.
pub fn replacement_config() -> (c: InstanceConfig)
    ensures
        !c.first,
        c.inbound,
        c.outbound,
        c.in_buffer_size == crate::channel::PIPE_BUFFER_SIZE,
        c.out_buffer_size == crate::channel::PIPE_BUFFER_SIZE,
{
    InstanceConfig {
        first: false,
        inbound: true,
        outbound: true,
        in_buffer_size: crate::channel::PIPE_BUFFER_SIZE,
        out_buffer_size: crate::channel::PIPE_BUFFER_SIZE,
    }
}

/// The call that each protocol state waits for.
pub open spec fn action_of(s: AcceptState) -> AcceptAction {
    match s {
        AcceptState::AwaitReadiness => AcceptAction::PollReadReady,
        AcceptState::AwaitConnect => AcceptAction::Connect,
        AcceptState::AwaitClear => AcceptAction::ClearReadReady,
        AcceptState::AwaitReplacement => AcceptAction::CreateInstance,
    }
}

/// Whether `ev` answers the call that state `s` waits for.
pub open spec fn accept_event_answers(s: AcceptState, ev: AcceptEvent) -> bool {
    match ev {
        AcceptEvent::Readiness(_) => s is AwaitReadiness,
        AcceptEvent::ConnectDone(_) => s is AwaitConnect,
        AcceptEvent::ClearDone(_) => s is AwaitClear,
        AcceptEvent::InstanceDone(_) => s is AwaitReplacement,
    }
}

/// The decision one event forces.  This is the heart of the accept
/// protocol: readiness must be seen before a connect is tried; a connect
/// that reports would-block is benign and leads to a cleared flag and a
/// suspension, never to an error; a successful connect leads to the
/// replacement instance and the hand-off; every other error is surfaced.
pub open spec fn accept_verdict(ev: AcceptEvent) -> AcceptVerdict {
    match ev {
        AcceptEvent::Readiness(r) => match r {
            ReadyPoll::NotReady => AcceptVerdict::Suspend,
            ReadyPoll::Ready => AcceptVerdict::Continue(AcceptAction::Connect),
            ReadyPoll::Failed(e) => AcceptVerdict::Fail(e),
        },
        AcceptEvent::ConnectDone(res) => match res {
            Ok(_) => AcceptVerdict::Continue(AcceptAction::CreateInstance),
            Err(e) => if e.is_would_block() {
                AcceptVerdict::Continue(AcceptAction::ClearReadReady)
            } else {
                AcceptVerdict::Fail(e)
            },
        },
        AcceptEvent::ClearDone(res) => match res {
            Ok(_) => AcceptVerdict::Suspend,
            Err(e) => AcceptVerdict::Fail(e),
        },
        AcceptEvent::InstanceDone(res) => match res {
            Ok(_) => AcceptVerdict::HandOff,
            Err(e) => AcceptVerdict::Fail(e),
        },
    }
}

/// The protocol state after one event.  Every path that settles the poll —
/// suspension, hand-off or error — re-arms the listener in
/// `AwaitReadiness`, so the next accept starts from scratch.
pub open spec fn accept_next_state(ev: AcceptEvent) -> AcceptState {
    match accept_verdict(ev) {
        AcceptVerdict::Continue(a) => match a {
            AcceptAction::PollReadReady => AcceptState::AwaitReadiness,
            AcceptAction::Connect => AcceptState::AwaitConnect,
            AcceptAction::ClearReadReady => AcceptState::AwaitClear,
            AcceptAction::CreateInstance => AcceptState::AwaitReplacement,
        },
        _ => AcceptState::AwaitReadiness,
    }
}

/// What a listener is mathematically: its live pipe instance, the pipe
/// name it creates replacement instances under, and where it stands in
/// the accept protocol.
pub struct ListenerView {
    pub handle: PipeHandle,
    pub path: Seq<char>,
    pub state: AcceptState,
}

/// A pipe server bound to one name.  It owns exactly one live pipe
/// instance at any time; accepting a client hands that instance out and
/// replaces it with a fresh one in the same step.
#[derive(Debug)]
pub struct NamedPipeListener {
    handle: PipeHandle,
    path: String,
    state: AcceptState,
}

impl View for NamedPipeListener {
    type V = ListenerView;

    closed spec fn view(&self) -> ListenerView {
        ListenerView { handle: self.handle, path: self.path@, state: self.state }
    }
}

impl NamedPipeListener {
    /// Binds a listener at `path`.  The runtime has asked the OS for the
    /// first pipe instance under that name and reports the outcome in
    /// `created`: a bind fails exactly when that creation failed, with
    /// the OS error carried verbatim.
    pub fn bind(path: String, created: Result<PipeHandle, IoError>) -> (r: Result<
        NamedPipeListener,
        IoError,
    >)
        ensures
            (created matches Ok(h) ==> r matches Ok(l) && l@.handle == h && l@.path == path@
                && l@.state is AwaitReadiness),
            (created matches Err(e) ==> r matches Err(e2) && e2 == e),
    {
        match created {
            Ok(handle) => Ok(NamedPipeListener::from_pipe(handle, path)),
            Err(e) => Err(e),
        }
    }

    /// Wraps an already-created pipe instance into a listener, in the
    /// initial protocol state.
    pub fn from_pipe(pipe: PipeHandle, path: String) -> (l: NamedPipeListener)
        ensures
            l@.handle == pipe,
            l@.path == path@,
            l@.state is AwaitReadiness,
    {
        NamedPipeListener { handle: pipe, path, state: AcceptState::AwaitReadiness }
    }

    /// The call the runtime owes this listener next.
    pub fn pending_action(&self) -> (a: AcceptAction)
        ensures
            a == action_of(self@.state),
    {
        match self.state {
            AcceptState::AwaitReadiness => AcceptAction::PollReadReady,
            AcceptState::AwaitConnect => AcceptAction::Connect,
            AcceptState::AwaitClear => AcceptAction::ClearReadReady,
            AcceptState::AwaitReplacement => AcceptAction::CreateInstance,
        }
    }

    /// The raw OS handle of the live instance, for diagnostics and
    /// aliasing checks.
    pub fn raw_handle(&self) -> (r: u64)
        ensures
            r == self@.handle.id,
    {
        self.handle.id
    }

    /// The pipe name this listener is bound to.
    pub fn path(&self) -> (r: &String)
        ensures
            r@ == self@.path,
    {
        &self.path
    }

    /// Drives one accept step with the outcome of the call the listener
    /// was waiting for.  The freshness precondition on a created
    /// replacement instance is what the OS guarantees of a handle it has
    /// just handed out: it is distinct from every handle still open.
    ///
    /// On `Accepted`, the hand-off is one uninterruptible step: the
    /// just-connected instance leaves inside the returned stream, the
    /// fresh instance is the live handle from this step on, and the two
    /// never alias — no caller can observe the listener still holding the
    /// handle it gave away.  On every settled outcome the listener stands
    /// re-armed in the initial protocol state; an error is surfaced
    /// verbatim, exactly when the verdict says so, and is not retried
    /// internally.
    pub fn poll_accept(&mut self, ev: AcceptEvent) -> (r: AcceptStep)
        requires
            accept_event_answers(old(self)@.state, ev),
            (ev matches AcceptEvent::InstanceDone(Ok(h)) ==> h.id != old(self)@.handle.id),
        ensures
            final(self)@.state == accept_next_state(ev),
            final(self)@.path == old(self)@.path,
            match accept_verdict(ev) {
                AcceptVerdict::Continue(a) => (r matches AcceptStep::Pending(b) && b == a)
                    && final(self)@.handle == old(self)@.handle,
                AcceptVerdict::Suspend => r is NotReady && final(self)@.handle == old(self)@.handle,
                AcceptVerdict::Fail(e) => (r matches AcceptStep::Failed(e2) && e2 == e) && final(self)@.handle == old(self)@.handle,
                AcceptVerdict::HandOff => {
                    &&& r matches AcceptStep::Accepted(s)
                    &&& s@.handle == old(self)@.handle
                    &&& s@.path == old(self)@.path
                    &&& (ev matches AcceptEvent::InstanceDone(Ok(h)) && final(self)@.handle == h)
                    &&& final(self)@.handle.id != s@.handle.id
                },
            },
    {
        match ev {
            AcceptEvent::Readiness(r) => match r {
                ReadyPoll::NotReady => {
                    self.state = AcceptState::AwaitReadiness;
                    AcceptStep::NotReady
                }
                ReadyPoll::Ready => {
                    self.state = AcceptState::AwaitConnect;
                    AcceptStep::Pending(AcceptAction::Connect)
                }
                ReadyPoll::Failed(e) => {
                    self.state = AcceptState::AwaitReadiness;
                    AcceptStep::Failed(e)
                }
            },
            AcceptEvent::ConnectDone(res) => match res {
                Ok(_) => {
                    self.state = AcceptState::AwaitReplacement;
                    AcceptStep::Pending(AcceptAction::CreateInstance)
                }
                Err(e) => {
                    if e.would_block() {
                        self.state = AcceptState::AwaitClear;
                        AcceptStep::Pending(AcceptAction::ClearReadReady)
                    } else {
                        self.state = AcceptState::AwaitReadiness;
                        AcceptStep::Failed(e)
                    }
                }
            },
            AcceptEvent::ClearDone(res) => match res {
                Ok(_) => {
                    self.state = AcceptState::AwaitReadiness;
                    AcceptStep::NotReady
                }
                Err(e) => {
                    self.state = AcceptState::AwaitReadiness;
                    AcceptStep::Failed(e)
                }
            },
            AcceptEvent::InstanceDone(res) => match res {
                Ok(fresh) => {
                    let connected = self.handle;
                    self.handle = fresh;
                    self.state = AcceptState::AwaitReadiness;
                    AcceptStep::Accepted(NamedPipeStream::new_connection(self.path.clone(), connected))
                }
                Err(e) => {
                    self.state = AcceptState::AwaitReadiness;
                    AcceptStep::Failed(e)
                }
            },
        }
    }

    /// Consumes the listener, producing the never-ending accept sequence.
    pub fn incoming(self) -> (r: Incoming)
        ensures
            r@.handle == self@.handle,
            r@.path == self@.path,
            r@.state == self@.state,
    {
        Incoming::new(self)
    }
}

/// Whether `ev` reports the benign would-block condition: no client has
/// connected yet despite what the readiness machinery suggested.
pub open spec fn reports_would_block(ev: AcceptEvent) -> bool {
    match ev {
        AcceptEvent::Readiness(r) => r is NotReady,
        AcceptEvent::ConnectDone(res) => res matches Err(e) && e.is_would_block(),
        _ => false,
    }
}

/// Would-block transparency: an event that reports would-block — and the
/// successful flag-clearing that the would-block path goes on to ask for —
/// never surfaces an error and never fabricates an accept; the poll either
/// asks for the next call or suspends as `NotReady`.
pub proof fn lemma_would_block_transparent(ev: AcceptEvent)
    requires
        reports_would_block(ev) || ev matches AcceptEvent::ClearDone(Ok(_)),
    ensures
        !(accept_verdict(ev) is Fail),
        !(accept_verdict(ev) is HandOff),
{
}

/// Would-block transparency over whole polling sequences: as long as every
/// outcome the OS hands back reports would-block (or is the successful
/// flag-clearing the would-block path asks for), no step of the sequence
/// surfaces an error — the externally observed outcome is only ever a
/// suspension or a request for the next call.
pub proof fn lemma_would_block_sequence_transparent(evs: Seq<AcceptEvent>)
    requires
        forall|i: int|
            0 <= i < evs.len() ==> reports_would_block(#[trigger] evs[i]) || evs[i] matches AcceptEvent::ClearDone(Ok(_)),
    ensures
        forall|i: int|
            0 <= i < evs.len() ==> !(accept_verdict(#[trigger] evs[i]) is Fail) && !(accept_verdict(
                evs[i],
            ) is HandOff),
{
    assert forall|i: int| 0 <= i < evs.len() implies !(accept_verdict(#[trigger] evs[i]) is Fail)
        && !(accept_verdict(evs[i]) is HandOff) by {
        lemma_would_block_transparent(evs[i]);
    }
}

/// An error is surfaced if and only if the OS reported one that is not
/// would-block: real errors are never swallowed, would-block never leaks.
pub proof fn lemma_error_surfaced_exactly(ev: AcceptEvent)
    ensures
        accept_verdict(ev) is Fail <==> match ev {
            AcceptEvent::Readiness(r) => r matches ReadyPoll::Failed(_),
            AcceptEvent::ConnectDone(res) => res matches Err(e) && !e.is_would_block(),
            AcceptEvent::ClearDone(res) => res is Err,
            AcceptEvent::InstanceDone(res) => res is Err,
        },
{
}

/// Infinite accept: a hand-off re-arms the listener in the initial
/// protocol state, and from there one further client — readiness, a
/// successful connect, a fresh replacement instance — is answered with a
/// further hand-off, which re-arms the listener again.  No outcome ends
/// the accept sequence.
pub proof fn lemma_infinite_accept(first: PipeHandle, second: PipeHandle)
    ensures
        accept_next_state(AcceptEvent::InstanceDone(Ok(first))) is AwaitReadiness,
        accept_event_answers(
            AcceptState::AwaitReadiness,
            AcceptEvent::Readiness(ReadyPoll::Ready),
        ),
        accept_next_state(AcceptEvent::Readiness(ReadyPoll::Ready)) is AwaitConnect,
        accept_event_answers(AcceptState::AwaitConnect, AcceptEvent::ConnectDone(Ok(()))),
        accept_next_state(AcceptEvent::ConnectDone(Ok(()))) is AwaitReplacement,
        accept_event_answers(
            AcceptState::AwaitReplacement,
            AcceptEvent::InstanceDone(Ok(second)),
        ),
        accept_verdict(AcceptEvent::InstanceDone(Ok(second))) is HandOff,
        accept_next_state(AcceptEvent::InstanceDone(Ok(second))) is AwaitReadiness,
{
}

} // verus!
