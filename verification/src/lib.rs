//! A peer-to-peer collateralized lending protocol, modelled as deterministic
//! state transitions over plain values.
//!
//! A lender escrows a loan asset; a borrower later claims it against posted
//! collateral; the loan resolves by repayment or by cancellation after its
//! activity window lapses. Each transition validates the current state and
//! timing, moves balances through the loan's escrow vaults under the loan's
//! derived signing authority, and either fully applies or has no effect.

pub mod errors;
pub mod state;
pub mod vault;
pub mod instructions;
pub mod lifecycle;

use vstd::prelude::*;
use crate::errors::AgioError;
use crate::instructions::{BorrowLoan, CancelLoan, Configure, CreateLoan, RepayLoan};
use crate::state::Config;

verus! {

/// Submits a configuration write: the signer must be the stored authority,
/// else `IncorrectAuthority` and the record stands.
pub fn configure(ctx: &mut Configure, new_config: Config) -> (r: Result<(), AgioError>)
    ensures
        (match old(ctx).outcome(new_config) {
            Ok(c) => r is Ok && *final(ctx) == c,
            Err(e) => r == Err::<(), AgioError>(e) && *final(ctx) == *old(ctx),
        }),
{
    ctx.process(new_config)
}

/// Submits a create request: writes the loan record and escrows the loan
/// amount, or fails with `OverflowOrUnderflowOccurred` on day-to-second or
/// expiry arithmetic that leaves the signed 64-bit range, leaving the
/// context untouched.
pub fn create_loan(ctx: &mut CreateLoan, loan_amount: u64, interest_rate: u64, duration: u64, collateral_amount: u64) -> (r: Result<(), AgioError>)
    requires
        old(ctx).wf(),
    ensures
        (match old(ctx).outcome(loan_amount, interest_rate, duration, collateral_amount) {
            Ok(c) => r is Ok && *final(ctx) == c,
            Err(e) => r == Err::<(), AgioError>(e) && *final(ctx) == *old(ctx),
        }),
        final(ctx).wf(),
{
    ctx.process(loan_amount, interest_rate, duration, collateral_amount)
}

/// Submits a borrow request: claims an unclaimed, unexpired loan for the
/// signer, releasing the escrowed loan amount against the posted collateral;
/// else fails with `AlreadyLended`, `AlreadyExpired`, or a transfer fault,
/// leaving the context untouched.
pub fn borrow_loan(ctx: &mut BorrowLoan, collateral_amount: u64) -> (r: Result<(), AgioError>)
    requires
        old(ctx).wf(),
    ensures
        (match old(ctx).outcome(collateral_amount) {
            Ok(c) => r is Ok && *final(ctx) == c,
            Err(e) => r == Err::<(), AgioError>(e) && *final(ctx) == *old(ctx),
        }),
        final(ctx).wf(),
{
    ctx.process(collateral_amount)
}

/// Submits a cancel request: the recorded lender reclaims the escrowed
/// collateral minus the protocol fee, which goes to the fee recipient; else
/// fails with `IncorrectAuthority`, `LoanActivated`, an arithmetic fault or
/// a transfer fault, leaving the context untouched.
pub fn cancel_loan(ctx: &mut CancelLoan) -> (r: Result<(), AgioError>)
    requires
        old(ctx).wf(),
    ensures
        (match old(ctx).outcome() {
            Ok(c) => r is Ok && *final(ctx) == c,
            Err(e) => r == Err::<(), AgioError>(e) && *final(ctx) == *old(ctx),
        }),
        final(ctx).wf(),
{
    ctx.process()
}

/// Submits a repay request: marks the loan repaid once and for all, returns
/// the escrowed collateral to the signer, and pays the lender and the fee
/// recipient out of the signer's loan-asset vault; else fails with
/// `AlreadyRepaid`, an arithmetic fault or a transfer fault, leaving the
/// context untouched.
pub fn repay_loan(ctx: &mut RepayLoan) -> (r: Result<(), AgioError>)
    requires
        old(ctx).wf(),
    ensures
        (match old(ctx).outcome() {
            Ok(c) => r is Ok && *final(ctx) == c,
            Err(e) => r == Err::<(), AgioError>(e) && *final(ctx) == *old(ctx),
        }),
        final(ctx).wf(),
{
    ctx.process()
}

} // verus!
