use vstd::prelude::*;

verus! {

/// Failure taxonomy of the lending protocol, surfaced verbatim to the caller.
/// A transition that returns one of these has had no effect: the enclosing
/// transaction either fully applies or applies nothing.
#[derive(Clone, Copy, Debug, PartialEq, Eq, Structural)]
pub enum AgioError {
    IncorrectConfigAccount,
    IncorrectAuthority,
    IncorrectTeamWallet,
    AlreadyLended,
    AlreadyRepaid,
    AlreadyExpired,
    InsufficientFunds,
    InvalidCollateral,
    OverflowOrUnderflowOccurred,
    LoanActivated,
}

} // verus!
