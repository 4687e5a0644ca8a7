use vstd::prelude::*;

verus! {

/// An identity on the ledger: a wallet, a token mint, or a derived protocol
/// authority. The zero value is the sentinel meaning "unset"; in particular
/// `Loan::borrower` holds it until a borrow transition succeeds.
#[derive(Clone, Copy, Debug, PartialEq, Eq, Structural)]
pub struct AccountId {
    pub value: u64,
}

impl AccountId {
    /// The sentinel identity.
    pub fn unset() -> (r: AccountId)
        ensures
            r.is_unset(),
    {
        AccountId { value: 0 }
    }

    /// Whether this identity is the "unset" sentinel.
    pub open spec fn is_unset(self) -> bool {
        self.value == 0
    }
}

/// Protocol-wide parameters: a singleton record written only by the
/// administration path and read by every lifecycle transition.
///
/// `lend_fee` and `borrow_fee` are integer percentage points. `borrow_fee`
/// is recorded but never read by any transition. `expire_duration` is the
/// default activity window of a new loan, in days.
#[derive(Clone, Copy, Debug, PartialEq, Eq, Structural)]
pub struct Config {
    pub authority: AccountId,
    pub pending_authority: AccountId,
    pub team_wallet: AccountId,
    pub lend_fee: u64,
    pub borrow_fee: u64,
    pub expire_duration: u8,
}

/// One lending offer, tracking its own state through the lifecycle:
/// Created (`borrower` unset) -> Active (`borrower` set) -> Repaid or
/// Cancelled.
///
/// `interest_rate` is recorded at creation and never applied to any transfer.
/// `collateral_amount` holds the lender's advisory figure until a borrow
/// overwrites it with the amount the borrower actually posts. Timestamps are
/// signed 64-bit seconds; `borrow_date` stays zero until a borrow succeeds.
#[derive(Clone, Copy, Debug, PartialEq, Eq, Structural)]
pub struct Loan {
    pub lender: AccountId,
    pub borrower: AccountId,
    pub loan_mint: AccountId,
    pub loan_amount: u64,
    pub interest_rate: u64,
    pub duration: i64,
    pub collateral_mint: AccountId,
    pub collateral_amount: u64,
    pub create_date: i64,
    pub expire_date: i64,
    pub borrow_date: i64,
    pub repaid: bool,
}

} // verus!
