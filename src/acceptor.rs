//! The acceptor's dispatch decision for each accept attempt.
use vstd::prelude::*;

verus! {

/// The result of one accept on the listening socket.
#[derive(PartialEq, Eq, Structural, Clone, Copy, Debug)]
pub enum AcceptOutcome {
    Accepted,
    Failed,
}

/// What the accept loop does next. There is no variant that stops the
/// loop: no accept result ends it.
#[derive(PartialEq, Eq, Structural, Clone, Copy, Debug)]
pub enum AcceptAction {
    /// Start a new session for the accepted client without waiting for it,
    /// then accept again.
    SpawnSession,
    /// Log the failure and accept again.
    LogAndContinue,
}

/// What the acceptor does with each accept result.
pub open spec fn accept_action(outcome: AcceptOutcome) -> AcceptAction {
    match outcome {
        AcceptOutcome::Accepted => AcceptAction::SpawnSession,
        AcceptOutcome::Failed => AcceptAction::LogAndContinue,
    }
}

/// Decides what to do with an accept result: an accepted client gets a
/// session of its own; a failed accept is never fatal.
pub fn on_accept(outcome: AcceptOutcome) -> (r: AcceptAction)
    ensures
        r == accept_action(outcome),
{
    match outcome {
        AcceptOutcome::Accepted => AcceptAction::SpawnSession,
        AcceptOutcome::Failed => AcceptAction::LogAndContinue,
    }
}

} // verus!
