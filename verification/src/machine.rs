//! The listener loop as a state machine: bind once, then accept, read and
//! log strictly one connection at a time, and halt on the first I/O error.
//!
//! The machine names the socket action pending in each state and consumes
//! the outcome of that action as an event. No event stands for a timeout:
//! a peer that sends nothing leaves the machine in `Handling` for good,
//! which is the listener's documented blocking behaviour.

use vstd::prelude::*;

use crate::logline::log_line_model;
use crate::logline::render_request;

verus! {

/// Where the listener stands in its loop.
#[derive(Clone, Copy, PartialEq, Eq, Structural, Debug)]
pub enum ListenerState {
    /// No socket is bound yet.
    Unbound,
    /// The socket is bound; the listener waits for a connection.
    Listening,
    /// A connection was accepted; the listener waits for its one read.
    Handling,
    /// A bind, accept or read failed; the process terminates.
    Halted,
}

/// The socket action the caller must perform next.
#[derive(Clone, Copy, PartialEq, Eq, Structural, Debug)]
pub enum PendingAction {
    /// Bind the listening socket.
    Bind,
    /// Block until a peer connects.
    Accept,
    /// Issue the single read on the accepted connection.
    Read,
    /// Abort the process; no further socket work happens.
    Terminate,
}

/// The outcome of the pending socket action.
pub enum Event {
    /// The bind produced a listening socket.
    BindSucceeded,
    /// The bind failed (port in use, permission denied, bad address).
    BindFailed,
    /// A peer connected.
    ConnectionAccepted,
    /// An accept attempt failed.
    AcceptFailed,
    /// The single read returned these bytes.
    BytesRead(Vec<u8>),
    /// The read failed.
    ReadFailed,
}

/// Which outcomes can arrive in which state: exactly those of the action
/// pending there. A halted machine takes no further step.
pub open spec fn event_fits(state: ListenerState, event: Event) -> bool {
    match state {
        ListenerState::Unbound => event is BindSucceeded || event is BindFailed,
        ListenerState::Listening => event is ConnectionAccepted || event is AcceptFailed,
        ListenerState::Handling => event is BytesRead || event is ReadFailed,
        ListenerState::Halted => false,
    }
}

/// The state after `event` arrives in `state`: success moves the loop on,
/// a read's outcome returns it to `Listening`, and every failure halts it.
pub open spec fn next_state(state: ListenerState, event: Event) -> ListenerState {
    match (state, event) {
        (ListenerState::Unbound, Event::BindSucceeded) => ListenerState::Listening,
        (ListenerState::Listening, Event::ConnectionAccepted) => ListenerState::Handling,
        (ListenerState::Handling, Event::BytesRead(_)) => ListenerState::Listening,
        (_, _) => ListenerState::Halted,
    }
}

/// The socket action pending in `state`.
pub open spec fn pending_action(state: ListenerState) -> PendingAction {
    match state {
        ListenerState::Unbound => PendingAction::Bind,
        ListenerState::Listening => PendingAction::Accept,
        ListenerState::Handling => PendingAction::Read,
        ListenerState::Halted => PendingAction::Terminate,
    }
}

/// Tell the caller which socket action to perform in `state`.
pub fn next_action(state: &ListenerState) -> (a: PendingAction)
    ensures
        a == pending_action(*state),
{
    match state {
        ListenerState::Unbound => PendingAction::Bind,
        ListenerState::Listening => PendingAction::Accept,
        ListenerState::Handling => PendingAction::Read,
        ListenerState::Halted => PendingAction::Terminate,
    }
}

/// Advance the machine on the outcome of the pending action. Exactly the
/// step that consumes a read's bytes emits output: the diagnostic line for
/// those bytes. No other step produces any.
pub fn step(state: ListenerState, event: Event) -> (r: (ListenerState, Option<String>))
    requires
        event_fits(state, event),
    ensures
        r.0 == next_state(state, event),
        (event matches Event::BytesRead(data) ==> r.1 matches Some(line) && line@
            == log_line_model(data@)),
        !(event is BytesRead) ==> r.1 is None,
{
    match (state, event) {
        (ListenerState::Unbound, Event::BindSucceeded) => (ListenerState::Listening, None),
        (ListenerState::Listening, Event::ConnectionAccepted) => (ListenerState::Handling, None),
        (ListenerState::Handling, Event::BytesRead(data)) => {
            let line = render_request(data.as_slice());
            (ListenerState::Listening, Some(line))
        },
        (_, _) => (ListenerState::Halted, None),
    }
}

/// Connections are handled strictly one after another: an accept is pending
/// only in `Listening`; an accepted connection moves the machine to
/// `Handling`, where the pending action is the read, never an accept; and
/// only the read's own outcome returns the machine to `Listening`. So a
/// second accept cannot complete before the first connection's read and
/// log have.
pub proof fn lemma_sequential_connections(e: Event)
    ensures
        next_state(ListenerState::Listening, Event::ConnectionAccepted)
            == ListenerState::Handling,
        pending_action(ListenerState::Handling) == PendingAction::Read,
        forall|s: ListenerState|
            pending_action(s) == PendingAction::Accept ==> s == ListenerState::Listening,
        next_state(ListenerState::Handling, e) == ListenerState::Listening ==> e is BytesRead,
{
}

/// A peer that sends nothing stalls the listener: while a connection is
/// being handled, the only admissible events are the outcomes of its one
/// read. No timeout or other event can move the machine on, so it waits
/// until that read returns.
pub proof fn lemma_silent_peer_blocks(e: Event)
    ensures
        event_fits(ListenerState::Handling, e) ==> (e is BytesRead || e is ReadFailed),
{
}

/// A failed bind halts the machine before any connection is accepted: the
/// next state is `Halted`, whose pending action is termination, and a
/// halted machine admits no further event.
pub proof fn lemma_bind_failure_is_fatal(e: Event)
    ensures
        next_state(ListenerState::Unbound, Event::BindFailed) == ListenerState::Halted,
        pending_action(ListenerState::Halted) == PendingAction::Terminate,
        !event_fits(ListenerState::Halted, e),
{
}

} // verus!
