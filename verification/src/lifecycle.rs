use vstd::prelude::*;
use crate::instructions::{BorrowLoan, CancelLoan, RepayLoan};
use crate::state::Loan;

verus! {

/// A successful borrow request under context `ctx` carries the loan record
/// `pre` into `post`.
pub open spec fn borrow_step(pre: Loan, post: Loan, ctx: BorrowLoan, collateral_amount: u64) -> bool {
    &&& ctx.loan == pre
    &&& ctx.outcome(collateral_amount) matches Ok(c) && c.loan == post
}

/// A successful cancel request under context `ctx` carries the loan record
/// `pre` into `post`.
pub open spec fn cancel_step(pre: Loan, post: Loan, ctx: CancelLoan) -> bool {
    &&& ctx.loan == pre
    &&& ctx.outcome() matches Ok(c) && c.loan == post
}

/// A successful repay request under context `ctx` carries the loan record
/// `pre` into `post`.
pub open spec fn repay_step(pre: Loan, post: Loan, ctx: RepayLoan) -> bool {
    &&& ctx.loan == pre
    &&& ctx.outcome() matches Ok(c) && c.loan == post
}

/// One loan record follows another when some lifecycle request carries the
/// first into the second: either the request failed — every transition
/// leaves its context untouched on error — or a borrow, cancel or repay
/// succeeded on the first record and wrote the second.
pub open spec fn loan_step(pre: Loan, post: Loan) -> bool {
    ||| post == pre
    ||| exists |ctx: BorrowLoan, collateral_amount: u64| borrow_step(pre, post, ctx, collateral_amount)
    ||| exists |ctx: CancelLoan| cancel_step(pre, post, ctx)
    ||| exists |ctx: RepayLoan| repay_step(pre, post, ctx)
}

/// Law: `repaid` is monotonic — once a loan is marked repaid, no lifecycle
/// request un-marks it. A borrow or cancel never touches the flag, and a
/// repay on a repaid loan fails with `AlreadyRepaid`, so no second repay
/// succeeds.
pub proof fn lemma_step_keeps_repaid(pre: Loan, post: Loan)
    requires
        loan_step(pre, post),
        pre.repaid,
    ensures
        post.repaid,
{
    if post != pre {
        if exists |ctx: BorrowLoan, collateral_amount: u64| borrow_step(pre, post, ctx, collateral_amount) {
            let (ctx, collateral_amount) = choose |ctx: BorrowLoan, collateral_amount: u64|
                borrow_step(pre, post, ctx, collateral_amount);
            assert(post == ctx.activated_loan(collateral_amount));
        } else if exists |ctx: CancelLoan| cancel_step(pre, post, ctx) {
            let ctx = choose |ctx: CancelLoan| cancel_step(pre, post, ctx);
            assert(post == pre);
        } else {
            let ctx = choose |ctx: RepayLoan| repay_step(pre, post, ctx);
            assert(ctx.outcome() is Err);
        }
    }
}

/// Law: a recorded borrower is permanent — no lifecycle request resets
/// `borrower` to the sentinel or replaces it, since a second borrow on a
/// claimed loan fails with `AlreadyLended` and cancel and repay leave the
/// field alone.
pub proof fn lemma_step_keeps_borrower(pre: Loan, post: Loan)
    requires
        loan_step(pre, post),
        !pre.borrower.is_unset(),
    ensures
        post.borrower == pre.borrower,
{
    if post != pre {
        if exists |ctx: BorrowLoan, collateral_amount: u64| borrow_step(pre, post, ctx, collateral_amount) {
            let (ctx, collateral_amount) = choose |ctx: BorrowLoan, collateral_amount: u64|
                borrow_step(pre, post, ctx, collateral_amount);
            assert(ctx.outcome(collateral_amount) is Err);
        } else if exists |ctx: CancelLoan| cancel_step(pre, post, ctx) {
            let ctx = choose |ctx: CancelLoan| cancel_step(pre, post, ctx);
            assert(post == pre);
        } else {
            let ctx = choose |ctx: RepayLoan| repay_step(pre, post, ctx);
            assert(post == ctx.repaid_loan());
        }
    }
}

/// Law: along any chain of lifecycle steps, once `repaid` holds it holds at
/// every later point — no sequence of requests resets the flag or triggers
/// a second successful repay.
pub proof fn lemma_trace_repaid_monotone(trace: Seq<Loan>, i: int, j: int)
    requires
        forall |k: int| 0 <= k < trace.len() - 1 ==> loan_step(trace[k], #[trigger] trace[k + 1]),
        0 <= i <= j < trace.len(),
        trace[i].repaid,
    ensures
        trace[j].repaid,
    decreases j - i,
{
    if i < j {
        lemma_step_keeps_repaid(trace[i], trace[i + 1]);
        lemma_trace_repaid_monotone(trace, i + 1, j);
    }
}

/// Law: along any chain of lifecycle steps, a borrower once recorded is the
/// borrower at every later point.
pub proof fn lemma_trace_borrower_permanent(trace: Seq<Loan>, i: int, j: int)
    requires
        forall |k: int| 0 <= k < trace.len() - 1 ==> loan_step(trace[k], #[trigger] trace[k + 1]),
        0 <= i <= j < trace.len(),
        !trace[i].borrower.is_unset(),
    ensures
        trace[j].borrower == trace[i].borrower,
    decreases j - i,
{
    if i < j {
        lemma_step_keeps_borrower(trace[i], trace[i + 1]);
        lemma_trace_borrower_permanent(trace, i + 1, j);
    }
}

} // verus!
