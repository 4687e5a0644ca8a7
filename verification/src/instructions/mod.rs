pub mod configure;
pub use configure::Configure;
pub mod create_loan;
pub use create_loan::CreateLoan;
pub mod borrow_loan;
pub use borrow_loan::BorrowLoan;
pub mod cancel_loan;
pub use cancel_loan::CancelLoan;
pub mod repay_loan;
pub use repay_loan::RepayLoan;

use vstd::prelude::*;

verus! {

/// Whether a mathematical integer fits in a signed 64-bit timestamp or
/// duration field.
pub open spec fn fits_i64(x: int) -> bool {
    i64::MIN <= x <= i64::MAX
}

/// The protocol's percentage cut of `amount` at `rate` percentage points:
/// integer division by 100 first, then scaling. Truncating before scaling is
/// the protocol's rule, so amounts below 100 pay no fee.
pub open spec fn fee_amount(amount: u64, rate: u64) -> int {
    (amount / 100) * rate
}

/// Computes the protocol fee, or `None` where it no longer fits in a 64-bit
/// amount.
pub fn checked_fee(amount: u64, rate: u64) -> (r: Option<u64>)
    ensures
        (r matches Some(f) ==> f == fee_amount(amount, rate)),
        r is None <==> fee_amount(amount, rate) > u64::MAX,
{
    (amount / 100).checked_mul(rate)
}

} // verus!
