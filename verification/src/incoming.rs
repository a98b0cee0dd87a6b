//! The accept loop: a listener adapted into a lazy, logically infinite
//! sequence of accepted streams.

use vstd::prelude::*;
use crate::error::IoError;
use crate::listener::accept_event_answers;
use crate::listener::accept_next_state;
use crate::listener::accept_verdict;
use crate::listener::action_of;
use crate::listener::AcceptAction;
use crate::listener::AcceptEvent;
use crate::listener::AcceptStep;
use crate::listener::AcceptVerdict;
use crate::listener::ListenerView;
use crate::listener::NamedPipeListener;
use crate::stream::NamedPipeStream;

verus! {

/// What one pull on the sequence returns.  There is deliberately no
/// end-of-sequence value: the sequence never terminates on its own.  An
/// error is passed through and does not close the sequence either; a
/// caller that wants to stop after one needs logic of its own.
#[derive(Debug)]
pub enum IncomingPoll {
    /// Another OS or reactor call is owed before the pull can settle.
    Pending(AcceptAction),
    /// No client yet; the reactor will wake the task.
    NotReady,
    /// The next accepted connection.
    Item(NamedPipeStream),
    /// An error from the underlying accept, surfaced verbatim.
    Failed(IoError),
}

/// A lazy, never-ending sequence of accepted streams.  It owns its
/// listener for as long as the pipe name is meant to accept; there is no
/// way to reclaim the listener.
#[must_use]
#[derive(Debug)]
pub struct Incoming {
    pipe: NamedPipeListener,
}

impl View for Incoming {
    type V = ListenerView;

    closed spec fn view(&self) -> ListenerView {
        self.pipe@
    }
}

impl Incoming {
    /// Moves a listener into the accept loop.
    pub(crate) fn new(listener: NamedPipeListener) -> (r: Incoming)
        ensures
            r@.handle == listener@.handle,
            r@.path == listener@.path,
            r@.state == listener@.state,
    {
        Incoming { pipe: listener }
    }

    /// The call the runtime owes the underlying listener next.
    pub fn pending_action(&self) -> (a: AcceptAction)
        ensures
            a == action_of(self@.state),
    {
        self.pipe.pending_action()
    }

    /// The raw OS handle of the listener's live instance.
    pub fn raw_handle(&self) -> (r: u64)
        ensures
            r == self@.handle.id,
    {
        self.pipe.raw_handle()
    }

    /// One pull on the sequence: exactly one accept step of the owned
    /// listener.  A suspension propagates as the sequence's own
    /// suspension, a hand-off yields exactly one stream and leaves the
    /// sequence open for further pulls, and an error propagates without
    /// closing the sequence.
    pub fn poll(&mut self, ev: AcceptEvent) -> (r: IncomingPoll)
        requires
            accept_event_answers(old(self)@.state, ev),
            (ev matches AcceptEvent::InstanceDone(Ok(h)) ==> h.id != old(self)@.handle.id),
        ensures
            final(self)@.state == accept_next_state(ev),
            final(self)@.path == old(self)@.path,
            match accept_verdict(ev) {
                AcceptVerdict::Continue(a) => (r matches IncomingPoll::Pending(b) && b == a)
                    && final(self)@.handle == old(self)@.handle,
                AcceptVerdict::Suspend => r is NotReady && final(self)@.handle == old(self)@.handle,
                AcceptVerdict::Fail(e) => (r matches IncomingPoll::Failed(e2) && e2 == e) && final(self)@.handle == old(self)@.handle,
                AcceptVerdict::HandOff => {
                    &&& r matches IncomingPoll::Item(s)
                    &&& s@.handle == old(self)@.handle
                    &&& s@.path == old(self)@.path
                    &&& (ev matches AcceptEvent::InstanceDone(Ok(h)) && final(self)@.handle == h)
                    &&& final(self)@.handle.id != s@.handle.id
                },
            },
    {
        match self.pipe.poll_accept(ev) {
            AcceptStep::Pending(a) => IncomingPoll::Pending(a),
            AcceptStep::NotReady => IncomingPoll::NotReady,
            AcceptStep::Accepted(stream) => IncomingPoll::Item(stream),
            AcceptStep::Failed(e) => IncomingPoll::Failed(e),
        }
    }
}

} // verus!
