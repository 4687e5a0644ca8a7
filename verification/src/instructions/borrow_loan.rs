use vstd::prelude::*;
use crate::errors::AgioError;
use crate::state::{AccountId, Loan};
use crate::vault::{loan_authority, transfer_as_escrow, transfer_as_user, transfer_outcome, Vault};

verus! {

/// The accounts a borrow request names, read into plain values: the loan
/// record, its two escrow vaults, and the loan-asset and collateral vaults of
/// the borrower (the signer of the request). `now` is the ledger clock at
/// the instant the request runs.
#[derive(Clone, Copy, Debug, PartialEq, Eq, Structural)]
pub struct BorrowLoan {
    pub loan: Loan,
    pub loan_key: AccountId,
    pub loan_collateral_ata: Vault,
    pub loan_mint_ata: Vault,
    pub borrower_loan_ata: Vault,
    pub borrower_collateral_ata: Vault,
    pub borrower: AccountId,
    pub now: i64,
}

impl BorrowLoan {
    /// A well-formed borrow context: both escrow vaults are owned by the
    /// loan's derived authority, every vault is keyed to its asset and to its
    /// holder, and the signer is a real identity, never the "unset" sentinel.
    pub open spec fn wf(self) -> bool {
        &&& self.loan_collateral_ata.owner == loan_authority(self.loan_key)
        &&& self.loan_collateral_ata.mint == self.loan.collateral_mint
        &&& self.loan_mint_ata.owner == loan_authority(self.loan_key)
        &&& self.loan_mint_ata.mint == self.loan.loan_mint
        &&& self.borrower_loan_ata.owner == self.borrower
        &&& self.borrower_loan_ata.mint == self.loan.loan_mint
        &&& self.borrower_collateral_ata.owner == self.borrower
        &&& self.borrower_collateral_ata.mint == self.loan.collateral_mint
        &&& !self.borrower.is_unset()
    }

    /// Assembles a well-formed borrow context from plain values, building the
    /// four vaults from the given balances. The signer must be a real
    /// identity: the "unset" sentinel cannot sign a request.
    pub fn new(
        loan: Loan,
        loan_key: AccountId,
        borrower: AccountId,
        escrow_loan_balance: u64,
        escrow_collateral_balance: u64,
        borrower_loan_balance: u64,
        borrower_collateral_balance: u64,
        now: i64,
    ) -> (r: Result<BorrowLoan, AgioError>)
        ensures
            borrower.is_unset() ==> r == Err::<BorrowLoan, AgioError>(AgioError::IncorrectAuthority),
            !borrower.is_unset() ==> (r matches Ok(c)
                && c.wf()
                && c.loan == loan
                && c.loan_key == loan_key
                && c.borrower == borrower
                && c.now == now
                && c.loan_mint_ata.balance == escrow_loan_balance
                && c.loan_collateral_ata.balance == escrow_collateral_balance
                && c.borrower_loan_ata.balance == borrower_loan_balance
                && c.borrower_collateral_ata.balance == borrower_collateral_balance),
    {
        if borrower.value == 0 {
            return Err(AgioError::IncorrectAuthority);
        }
        let authority = crate::vault::derive_loan_authority(loan_key);
        Ok(BorrowLoan {
            loan: loan,
            loan_key: loan_key,
            loan_collateral_ata: Vault { owner: authority, mint: loan.collateral_mint, balance: escrow_collateral_balance },
            loan_mint_ata: Vault { owner: authority, mint: loan.loan_mint, balance: escrow_loan_balance },
            borrower_loan_ata: Vault { owner: borrower, mint: loan.loan_mint, balance: borrower_loan_balance },
            borrower_collateral_ata: Vault { owner: borrower, mint: loan.collateral_mint, balance: borrower_collateral_balance },
            borrower: borrower,
            now: now,
        })
    }

    /// The loan record after a successful borrow at clock `now` with posted
    /// collateral `collateral_amount`: the signer is recorded as borrower,
    /// the borrow date is set, and the advisory collateral figure is
    /// overwritten with what was actually posted. No other field changes.
    pub open spec fn activated_loan(self, collateral_amount: u64) -> Loan {
        Loan {
            lender: self.loan.lender,
            borrower: self.borrower,
            loan_mint: self.loan.loan_mint,
            loan_amount: self.loan.loan_amount,
            interest_rate: self.loan.interest_rate,
            duration: self.loan.duration,
            collateral_mint: self.loan.collateral_mint,
            collateral_amount: collateral_amount,
            create_date: self.loan.create_date,
            expire_date: self.loan.expire_date,
            borrow_date: self.now,
            repaid: self.loan.repaid,
        }
    }

    /// The borrow transition as a function of the request context.
    ///
    /// A loan is claimed at most once — a recorded borrower makes any further
    /// request fail with `AlreadyLended` — and only within its activity
    /// window: from `expire_date` on, requests fail with `AlreadyExpired`.
    /// On success the escrow releases the loan amount to the signer and the
    /// signer's collateral moves into escrow. The posted collateral replaces
    /// the lender's advisory figure with no floor or ceiling check against
    /// the loan's value: that is the protocol's accepted risk, reproduced
    /// deliberately.
    pub open spec fn outcome(self, collateral_amount: u64) -> Result<BorrowLoan, AgioError> {
        if !self.loan.borrower.is_unset() {
            Err(AgioError::AlreadyLended)
        } else if !(self.loan.expire_date > self.now) {
            Err(AgioError::AlreadyExpired)
        } else {
            match transfer_outcome(self.loan_mint_ata, self.borrower_loan_ata, self.loan.loan_amount) {
                Err(e) => Err(e),
                Ok(p) => match transfer_outcome(self.borrower_collateral_ata, self.loan_collateral_ata, collateral_amount) {
                    Err(e) => Err(e),
                    Ok(q) => Ok(BorrowLoan {
                        loan: self.activated_loan(collateral_amount),
                        loan_key: self.loan_key,
                        loan_collateral_ata: q.1,
                        loan_mint_ata: p.0,
                        borrower_loan_ata: p.1,
                        borrower_collateral_ata: q.0,
                        borrower: self.borrower,
                        now: self.now,
                    }),
                },
            }
        }
    }

    /// Applies the borrow transition. On success the loan becomes Active:
    /// the signer is recorded as borrower, the escrow pays out the loan
    /// amount, and the posted collateral moves into escrow. On any error the
    /// context is unchanged, as if the request had never run.
    pub fn process(&mut self, collateral_amount: u64) -> (r: Result<(), AgioError>)
        requires
            old(self).wf(),
        ensures
            (match old(self).outcome(collateral_amount) {
                Ok(c) => r is Ok && *final(self) == c,
                Err(e) => r == Err::<(), AgioError>(e) && *final(self) == *old(self),
            }),
            final(self).wf(),
    {
        if self.loan.borrower.value != 0 {
            return Err(AgioError::AlreadyLended);
        }
        if !(self.loan.expire_date > self.now) {
            return Err(AgioError::AlreadyExpired);
        }
        let mut escrow_loan = self.loan_mint_ata;
        let mut borrower_loan = self.borrower_loan_ata;
        match transfer_as_escrow(&mut escrow_loan, &mut borrower_loan, self.loan.loan_amount, self.loan_key) {
            Ok(u) => u,
            Err(e) => {
                return Err(e);
            },
        }
        let mut borrower_collateral = self.borrower_collateral_ata;
        let mut escrow_collateral = self.loan_collateral_ata;
        match transfer_as_user(&mut borrower_collateral, &self.borrower, &mut escrow_collateral, collateral_amount) {
            Ok(u) => u,
            Err(e) => {
                return Err(e);
            },
        }
        self.loan.borrower = self.borrower;
        self.loan.borrow_date = self.now;
        self.loan.collateral_amount = collateral_amount;
        self.loan_mint_ata = escrow_loan;
        self.borrower_loan_ata = borrower_loan;
        self.borrower_collateral_ata = borrower_collateral;
        self.loan_collateral_ata = escrow_collateral;
        Ok(())
    }
}

/// Law: a loan is claimed exclusively — once a borrower is recorded, every
/// further borrow request on the same loan fails with `AlreadyLended`,
/// whoever signs it and whatever it posts.
pub proof fn lemma_borrow_exclusive(ctx: BorrowLoan, collateral_amount: u64)
    requires
        !ctx.loan.borrower.is_unset(),
    ensures
        ctx.outcome(collateral_amount) == Err::<BorrowLoan, AgioError>(AgioError::AlreadyLended),
{
}

/// Law: the activity window gates every claim — a borrow request on an
/// unclaimed loan at or past `expire_date` always fails with
/// `AlreadyExpired`. (On a claimed loan the exclusivity gate answers first,
/// with `AlreadyLended`.)
pub proof fn lemma_borrow_expiry_gate(ctx: BorrowLoan, collateral_amount: u64)
    requires
        ctx.loan.borrower.is_unset(),
        ctx.now >= ctx.loan.expire_date,
    ensures
        ctx.outcome(collateral_amount) == Err::<BorrowLoan, AgioError>(AgioError::AlreadyExpired),
{
}

/// Law: within the activity window a claim on an unclaimed loan succeeds
/// absent other faults, the faults being exactly a short balance on either
/// side or a destination balance that would no longer fit.
pub proof fn lemma_borrow_success(ctx: BorrowLoan, collateral_amount: u64)
    requires
        ctx.loan.borrower.is_unset(),
        ctx.now < ctx.loan.expire_date,
        ctx.loan_mint_ata.balance >= ctx.loan.loan_amount,
        ctx.borrower_loan_ata.balance + ctx.loan.loan_amount <= u64::MAX,
        ctx.borrower_collateral_ata.balance >= collateral_amount,
        ctx.loan_collateral_ata.balance + collateral_amount <= u64::MAX,
    ensures
        ctx.outcome(collateral_amount) is Ok,
{
}

/// Law: a successful borrow records the signer as borrower — never the
/// "unset" sentinel, by well-formedness — sets the borrow date to the clock,
/// overwrites the collateral figure with what was posted, and touches no
/// other field of the loan; in particular `repaid` is untouched.
pub proof fn lemma_borrow_activates(ctx: BorrowLoan, collateral_amount: u64)
    requires
        ctx.wf(),
    ensures
        (match ctx.outcome(collateral_amount) {
            Ok(c) => {
                &&& c.loan == ctx.activated_loan(collateral_amount)
                &&& !c.loan.borrower.is_unset()
                &&& c.loan.borrow_date == ctx.now
                &&& c.loan.repaid == ctx.loan.repaid
            },
            Err(_) => true,
        }),
{
}

/// Law: borrow conserves both assets — the loan-asset total over the escrow
/// and the borrower's loan vault, and the collateral total over the
/// borrower's collateral vault and the collateral escrow, are each unchanged
/// by a successful borrow; a failed borrow returns the context unchanged.
pub proof fn lemma_borrow_conserves_assets(ctx: BorrowLoan, collateral_amount: u64)
    ensures
        (match ctx.outcome(collateral_amount) {
            Ok(c) => {
                &&& c.loan_mint_ata.balance + c.borrower_loan_ata.balance
                    == ctx.loan_mint_ata.balance + ctx.borrower_loan_ata.balance
                &&& c.borrower_collateral_ata.balance + c.loan_collateral_ata.balance
                    == ctx.borrower_collateral_ata.balance + ctx.loan_collateral_ata.balance
            },
            Err(_) => true,
        }),
{
}

} // verus!
