//! The command error taxonomy. Every error is terminal for the command that
//! raised it: the store is left unchanged and the error is the outcome.

use vstd::prelude::*;

verus! {

/// Why a command was refused. Each variant is raised by exactly the
/// conditions stated in the contracts of the command functions.
#[derive(Clone, Copy, Debug, PartialEq, Eq, Structural)]
pub enum ContractError {
    /// The referenced rally or feedback record does not exist.
    NotFound,
    /// The caller lacks the role the command demands (rally creator).
    Unauthorized,
    /// A rally cannot be created with a zero funding goal.
    InvalidGoal,
    /// A rally cannot be created with a deadline at or before the current time.
    InvalidDeadline,
    /// A contribution of zero is refused.
    ZeroAmount,
    /// The native value attached to the call differs from the declared amount.
    AmountMismatch,
    /// The rally has been closed; no contributions or feedback are accepted.
    RallyInactive,
    /// The rally's deadline has passed; no contributions are accepted.
    RallyExpired,
    /// A withdrawal was requested while the raised total is zero.
    NothingToWithdraw,
    /// Feedback is only accepted from accounts that contributed to the rally.
    NotAContributor,
}

} // verus!
