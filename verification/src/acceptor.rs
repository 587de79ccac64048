//! The acceptor loop's decisions. The loop itself — bind, accept, await —
//! is I/O and lives outside the library; what is decided here is what the
//! loop does with each accept outcome. The chosen policy for a transient
//! accept failure is to report it and keep accepting rather than stop the
//! server: ending the whole acceptor on one failed accept would contradict
//! the per-connection isolation the design asks for elsewhere. Either way
//! the loop continues: a connection's fate never reaches the acceptor.

use vstd::prelude::*;

verus! {

/// What the acceptor does after one accept attempt.
#[derive(Clone, Copy, Debug, PartialEq, Eq, Structural)]
pub enum AcceptorAction {
    /// Hand the new connection to a handler running independently, then
    /// return to accepting at once — never wait for the handler.
    DispatchHandler,
    /// Report the failed accept and try again.
    RetryAccept,
}

/// Decides the acceptor's next action from one accept attempt's outcome:
/// dispatch exactly when a connection was accepted, retry exactly when the
/// attempt failed. No outcome stops the loop.
pub fn accept_action(accepted: bool) -> (a: AcceptorAction)
    ensures
        a is DispatchHandler <==> accepted,
        a is RetryAccept <==> !accepted,
{
    if accepted {
        AcceptorAction::DispatchHandler
    } else {
        AcceptorAction::RetryAccept
    }
}

} // verus!
