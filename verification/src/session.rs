//! Per-connection session state machine.
//!
//! A session has two independent directions — an outbound relay that
//! forwards fanned-out payloads to the peer, and an inbound reader that
//! drains control messages — sharing a single termination latch: the first
//! failure or explicit close in either direction trips termination, the
//! other direction is cancelled, and the transport is closed. The decision
//! logic is the pure transition function here; the surrounding process runs
//! the two directions concurrently and performs the actions it is handed.

use vstd::prelude::*;

verus! {

/// Lifecycle of one session. Transitions only ever move forward:
/// `Active` -> `Terminating` -> `Closed`, never back.
#[derive(Clone, Copy, Debug, PartialEq, Eq, Structural)]
pub enum SessionState {
    /// Both directions are running.
    Active,
    /// The termination latch has tripped: the other direction is being
    /// cancelled and the transport closed.
    Terminating,
    /// Both directions have stopped and the transport is closed. Terminal.
    Closed,
}

/// One observation made by either direction of a session.
#[derive(Clone, Copy, Debug, PartialEq, Eq, Structural)]
pub enum SessionEvent {
    /// The fan-out channel handed the outbound relay a payload.
    PayloadDelivered,
    /// The fan-out channel reported its terminal signal.
    ChannelTerminal,
    /// Sending a payload to the peer failed.
    SendFailed,
    /// The peer sent a text message (inert: no protocol semantics).
    TextReceived,
    /// The peer sent an explicit close message.
    CloseReceived,
    /// Reading from the peer failed.
    ReadFailed,
    /// The peer's stream ended without a close message.
    PeerGone,
    /// Both directions have been cancelled and the transport closed.
    CleanupDone,
}

/// What the surrounding process must do after a transition.
#[derive(Clone, Copy, Debug, PartialEq, Eq, Structural)]
pub enum SessionAction {
    /// Relay the delivered payload to the peer as one binary message.
    Forward,
    /// Do nothing (inert observation, or a late event after the latch
    /// tripped).
    Ignore,
    /// Trip the termination latch: cancel the other direction and close the
    /// transport.
    Terminate,
}

/// The transition table of the session machine: from a state and an
/// observation to the successor state and the required action.
pub open spec fn session_transition(s: SessionState, e: SessionEvent) -> (SessionState,
    SessionAction) {
    match s {
        SessionState::Active => match e {
            SessionEvent::PayloadDelivered => (SessionState::Active, SessionAction::Forward),
            SessionEvent::TextReceived => (SessionState::Active, SessionAction::Ignore),
            SessionEvent::CleanupDone => (SessionState::Active, SessionAction::Ignore),
            SessionEvent::ChannelTerminal => (SessionState::Terminating, SessionAction::Terminate),
            SessionEvent::SendFailed => (SessionState::Terminating, SessionAction::Terminate),
            SessionEvent::CloseReceived => (SessionState::Terminating, SessionAction::Terminate),
            SessionEvent::ReadFailed => (SessionState::Terminating, SessionAction::Terminate),
            SessionEvent::PeerGone => (SessionState::Terminating, SessionAction::Terminate),
        },
        SessionState::Terminating => match e {
            SessionEvent::CleanupDone => (SessionState::Closed, SessionAction::Ignore),
            _ => (SessionState::Terminating, SessionAction::Ignore),
        },
        SessionState::Closed => (SessionState::Closed, SessionAction::Ignore),
    }
}

/// How far along its lifecycle a state is.
pub open spec fn session_rank(s: SessionState) -> nat {
    match s {
        SessionState::Active => 0,
        SessionState::Terminating => 1,
        SessionState::Closed => 2,
    }
}

/// Advance the session machine by one observation.
pub fn session_step(s: SessionState, e: SessionEvent) -> (r: (SessionState, SessionAction))
    ensures
        r == session_transition(s, e),
{
    match s {
        SessionState::Active => match e {
            SessionEvent::PayloadDelivered => (SessionState::Active, SessionAction::Forward),
            SessionEvent::TextReceived => (SessionState::Active, SessionAction::Ignore),
            SessionEvent::CleanupDone => (SessionState::Active, SessionAction::Ignore),
            SessionEvent::ChannelTerminal => (SessionState::Terminating, SessionAction::Terminate),
            SessionEvent::SendFailed => (SessionState::Terminating, SessionAction::Terminate),
            SessionEvent::CloseReceived => (SessionState::Terminating, SessionAction::Terminate),
            SessionEvent::ReadFailed => (SessionState::Terminating, SessionAction::Terminate),
            SessionEvent::PeerGone => (SessionState::Terminating, SessionAction::Terminate),
        },
        SessionState::Terminating => match e {
            SessionEvent::CleanupDone => (SessionState::Closed, SessionAction::Ignore),
            _ => (SessionState::Terminating, SessionAction::Ignore),
        },
        SessionState::Closed => (SessionState::Closed, SessionAction::Ignore),
    }
}

/// Law: the session lifecycle only moves forward. No observation ever moves
/// a session back toward `Active`, and `Closed` is terminal.
pub proof fn lemma_session_never_reactivates(s: SessionState, e: SessionEvent)
    ensures
        session_rank(session_transition(s, e).0) >= session_rank(s),
        s is Closed ==> session_transition(s, e).0 is Closed,
{
}

/// Law: every failure or close observed by an `Active` session trips the
/// termination latch — the other direction is cancelled exactly then, and
/// payloads are forwarded only while the session is `Active`.
pub proof fn lemma_first_failure_trips_latch(e: SessionEvent)
    ensures
        (e is ChannelTerminal || e is SendFailed || e is CloseReceived || e is ReadFailed
            || e is PeerGone) ==> session_transition(SessionState::Active, e) == (
        SessionState::Terminating,
        SessionAction::Terminate,
        ),
        session_transition(SessionState::Active, e).1 is Forward <==> e is PayloadDelivered,
        !(session_transition(SessionState::Terminating, e).1 is Forward),
        !(session_transition(SessionState::Closed, e).1 is Forward),
{
}

} // verus!
