//! The per-connection state machine a handler walks through:
//! `Accepted → GreetingSent → ComputationDone → CompletionSent → Relaying →
//! Closed`, with `Errored` as an absorbing state reachable from any
//! non-terminal phase on an I/O failure. No phase may be skipped; `Relaying`
//! is the only non-terminal phase of unbounded duration, ended only by the
//! peer. The I/O shell drives the machine with one event per completed step
//! and reports an error locally, never to the acceptor.

use vstd::prelude::*;

verus! {

/// The phase a single connection's handling is in.
#[derive(Clone, Copy, Debug, PartialEq, Eq, Structural)]
pub enum ConnPhase {
    /// The connection was accepted; nothing has been written yet.
    Accepted,
    /// The greeting bytes were written.
    GreetingSent,
    /// The synchronous computation unit finished.
    ComputationDone,
    /// The completion marker was written.
    CompletionSent,
    /// Bytes are being echoed back until the peer closes.
    Relaying,
    /// Both half-streams are closed; terminal.
    Closed,
    /// An I/O failure ended this connection's handling; terminal.
    Errored,
}

/// One completed step of a connection's handling, observed by the handler.
#[derive(Clone, Copy, Debug, PartialEq, Eq, Structural)]
pub enum ConnEvent {
    /// The greeting write completed.
    GreetingWritten,
    /// The inline computation unit completed.
    ComputationFinished,
    /// The completion-marker write completed.
    CompletionWritten,
    /// The handler entered full-duplex relay mode.
    RelayEntered,
    /// A half-stream reached end of stream; both sides are closed.
    PeerClosed,
    /// A read or write failed.
    IoFailed,
}

/// Position of a phase along the protocol's required order; the two terminal
/// phases sit past the end.
pub open spec fn phase_index(p: ConnPhase) -> int {
    match p {
        ConnPhase::Accepted => 0,
        ConnPhase::GreetingSent => 1,
        ConnPhase::ComputationDone => 2,
        ConnPhase::CompletionSent => 3,
        ConnPhase::Relaying => 4,
        ConnPhase::Closed => 5,
        ConnPhase::Errored => 6,
    }
}

/// Whether a phase is terminal: nothing more happens to the connection.
pub open spec fn is_terminal(p: ConnPhase) -> bool {
    p is Closed || p is Errored
}

/// The transition function. Each phase accepts exactly the event that
/// completes its step and moves to the immediate successor; an I/O failure
/// in any non-terminal phase moves to `Errored`; an event out of order is a
/// protocol violation and also ends in `Errored`; terminal phases absorb
/// every event.
pub open spec fn conn_next(p: ConnPhase, e: ConnEvent) -> ConnPhase {
    match (p, e) {
        (ConnPhase::Closed, _) => ConnPhase::Closed,
        (ConnPhase::Errored, _) => ConnPhase::Errored,
        (ConnPhase::Accepted, ConnEvent::GreetingWritten) => ConnPhase::GreetingSent,
        (ConnPhase::GreetingSent, ConnEvent::ComputationFinished) => ConnPhase::ComputationDone,
        (ConnPhase::ComputationDone, ConnEvent::CompletionWritten) => ConnPhase::CompletionSent,
        (ConnPhase::CompletionSent, ConnEvent::RelayEntered) => ConnPhase::Relaying,
        (ConnPhase::Relaying, ConnEvent::PeerClosed) => ConnPhase::Closed,
        (_, _) => ConnPhase::Errored,
    }
}

/// Advances a connection one step.
pub fn advance(p: ConnPhase, e: ConnEvent) -> (next: ConnPhase)
    ensures
        next == conn_next(p, e),
{
    match (p, e) {
        (ConnPhase::Closed, _) => ConnPhase::Closed,
        (ConnPhase::Errored, _) => ConnPhase::Errored,
        (ConnPhase::Accepted, ConnEvent::GreetingWritten) => ConnPhase::GreetingSent,
        (ConnPhase::GreetingSent, ConnEvent::ComputationFinished) => ConnPhase::ComputationDone,
        (ConnPhase::ComputationDone, ConnEvent::CompletionWritten) => ConnPhase::CompletionSent,
        (ConnPhase::CompletionSent, ConnEvent::RelayEntered) => ConnPhase::Relaying,
        (ConnPhase::Relaying, ConnEvent::PeerClosed) => ConnPhase::Closed,
        (_, _) => ConnPhase::Errored,
    }
}

/// No transition may be skipped: every step out of a non-terminal phase
/// either advances to the immediate successor in the protocol order or ends
/// in `Errored` — a connection can never jump ahead.
pub proof fn lemma_no_phase_skipped(p: ConnPhase, e: ConnEvent)
    requires
        !is_terminal(p),
    ensures
        conn_next(p, e) == ConnPhase::Errored || phase_index(conn_next(p, e)) == phase_index(p)
            + 1,
{
}

/// An I/O failure from any non-terminal phase reaches `Errored`.
pub proof fn lemma_io_failure_errors(p: ConnPhase)
    requires
        !is_terminal(p),
    ensures
        conn_next(p, ConnEvent::IoFailed) == ConnPhase::Errored,
{
}

/// The terminal phases absorb every event: a closed or errored connection
/// never changes again.
pub proof fn lemma_terminal_absorbing(p: ConnPhase, e: ConnEvent)
    requires
        is_terminal(p),
    ensures
        conn_next(p, e) == p,
{
}

} // verus!
