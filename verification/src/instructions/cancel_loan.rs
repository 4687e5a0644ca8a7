use vstd::prelude::*;
use crate::errors::AgioError;
use crate::state::{AccountId, Config, Loan};
use crate::vault::{loan_authority, transfer_as_escrow, transfer_outcome, Vault};
use crate::instructions::{checked_fee, fee_amount, fits_i64};

verus! {

/// The accounts a cancel request names, read into plain values: the global
/// configuration, the loan record, the loan's collateral escrow vault, and
/// the collateral vaults of the lender (the signer of the request) and of the
/// fee recipient. `now` is the ledger clock at the instant the request runs.
#[derive(Clone, Copy, Debug, PartialEq, Eq, Structural)]
pub struct CancelLoan {
    pub global_config: Config,
    pub loan: Loan,
    pub loan_key: AccountId,
    pub loan_collateral_ata: Vault,
    pub team_collateral_ata: Vault,
    pub lender_collateral_ata: Vault,
    pub team_wallet: AccountId,
    pub lender: AccountId,
    pub now: i64,
}

impl CancelLoan {
    /// A well-formed cancel context: the fee recipient is the one on record,
    /// the escrow vault is owned by the loan's derived authority, and every
    /// vault is keyed to the collateral asset and to its holder.
    pub open spec fn wf(self) -> bool {
        &&& self.team_wallet == self.global_config.team_wallet
        &&& self.loan_collateral_ata.owner == loan_authority(self.loan_key)
        &&& self.loan_collateral_ata.mint == self.loan.collateral_mint
        &&& self.lender_collateral_ata.owner == self.lender
        &&& self.lender_collateral_ata.mint == self.loan.collateral_mint
        &&& self.team_collateral_ata.owner == self.team_wallet
        &&& self.team_collateral_ata.mint == self.loan.collateral_mint
    }

    /// Assembles a well-formed cancel context from plain values, building the
    /// three collateral vaults from the given balances. The named fee
    /// recipient must be the one the configuration records.
    pub fn new(
        global_config: Config,
        team_wallet: AccountId,
        loan: Loan,
        loan_key: AccountId,
        lender: AccountId,
        escrow_balance: u64,
        lender_balance: u64,
        team_balance: u64,
        now: i64,
    ) -> (r: Result<CancelLoan, AgioError>)
        ensures
            team_wallet != global_config.team_wallet ==> r == Err::<CancelLoan, AgioError>(AgioError::IncorrectAuthority),
            team_wallet == global_config.team_wallet ==> (r matches Ok(c)
                && c.wf()
                && c.global_config == global_config
                && c.loan == loan
                && c.loan_key == loan_key
                && c.lender == lender
                && c.now == now
                && c.loan_collateral_ata.balance == escrow_balance
                && c.lender_collateral_ata.balance == lender_balance
                && c.team_collateral_ata.balance == team_balance),
    {
        if team_wallet != global_config.team_wallet {
            return Err(AgioError::IncorrectAuthority);
        }
        let authority = crate::vault::derive_loan_authority(loan_key);
        Ok(CancelLoan {
            global_config: global_config,
            loan: loan,
            loan_key: loan_key,
            loan_collateral_ata: Vault { owner: authority, mint: loan.collateral_mint, balance: escrow_balance },
            team_collateral_ata: Vault { owner: team_wallet, mint: loan.collateral_mint, balance: team_balance },
            lender_collateral_ata: Vault { owner: lender, mint: loan.collateral_mint, balance: lender_balance },
            team_wallet: team_wallet,
            lender: lender,
            now: now,
        })
    }

    /// The cancel transition as a function of the request context.
    ///
    /// Only the recorded lender may cancel. The transition is then permitted
    /// when either a borrower is already recorded or the loan's activity
    /// window, counted from `borrow_date`, has lapsed — since `borrow_date`
    /// is zero until a borrow succeeds, a never-borrowed loan is cancellable
    /// under any realistic clock; this disjunction is the protocol's rule,
    /// reproduced deliberately. The fee recipient receives the protocol cut
    /// of the posted collateral and the lender the rest.
    pub open spec fn outcome(self) -> Result<CancelLoan, AgioError> {
        let loan = self.loan;
        let fee = fee_amount(loan.collateral_amount, self.global_config.lend_fee);
        if self.lender != loan.lender {
            Err(AgioError::IncorrectAuthority)
        } else if !fits_i64(loan.borrow_date + loan.duration) {
            Err(AgioError::OverflowOrUnderflowOccurred)
        } else if loan.borrower.is_unset() && !(loan.borrow_date + loan.duration < self.now) {
            Err(AgioError::LoanActivated)
        } else if fee > u64::MAX || loan.collateral_amount < fee {
            Err(AgioError::OverflowOrUnderflowOccurred)
        } else {
            match transfer_outcome(self.loan_collateral_ata, self.lender_collateral_ata, (loan.collateral_amount - fee) as u64) {
                Err(e) => Err(e),
                Ok(p) => match transfer_outcome(p.0, self.team_collateral_ata, fee as u64) {
                    Err(e) => Err(e),
                    Ok(q) => Ok(CancelLoan {
                        global_config: self.global_config,
                        loan: self.loan,
                        loan_key: self.loan_key,
                        loan_collateral_ata: q.0,
                        team_collateral_ata: q.1,
                        lender_collateral_ata: p.1,
                        team_wallet: self.team_wallet,
                        lender: self.lender,
                        now: self.now,
                    }),
                },
            }
        }
    }

    /// Applies the cancel transition. On success the collateral escrow pays
    /// the lender the posted collateral minus the protocol fee and pays the
    /// fee recipient the fee; on any error the context is unchanged, as if
    /// the request had never run.
    pub fn process(&mut self) -> (r: Result<(), AgioError>)
        requires
            old(self).wf(),
        ensures
            (match old(self).outcome() {
                Ok(c) => r is Ok && *final(self) == c,
                Err(e) => r == Err::<(), AgioError>(e) && *final(self) == *old(self),
            }),
            final(self).wf(),
    {
        if self.lender != self.loan.lender {
            return Err(AgioError::IncorrectAuthority);
        }
        let expire_loan = match self.loan.borrow_date.checked_add(self.loan.duration) {
            Some(v) => v,
            None => {
                return Err(AgioError::OverflowOrUnderflowOccurred);
            },
        };
        if self.loan.borrower.value == 0 && !(expire_loan < self.now) {
            return Err(AgioError::LoanActivated);
        }
        let fee = match checked_fee(self.loan.collateral_amount, self.global_config.lend_fee) {
            Some(f) => f,
            None => {
                return Err(AgioError::OverflowOrUnderflowOccurred);
            },
        };
        let payout = match self.loan.collateral_amount.checked_sub(fee) {
            Some(p) => p,
            None => {
                return Err(AgioError::OverflowOrUnderflowOccurred);
            },
        };
        let mut escrow = self.loan_collateral_ata;
        let mut lender_vault = self.lender_collateral_ata;
        let mut team_vault = self.team_collateral_ata;
        match transfer_as_escrow(&mut escrow, &mut lender_vault, payout, self.loan_key) {
            Ok(u) => u,
            Err(e) => {
                return Err(e);
            },
        }
        match transfer_as_escrow(&mut escrow, &mut team_vault, fee, self.loan_key) {
            Ok(u) => u,
            Err(e) => {
                return Err(e);
            },
        }
        self.loan_collateral_ata = escrow;
        self.lender_collateral_ata = lender_vault;
        self.team_collateral_ata = team_vault;
        Ok(())
    }
}

/// Law: a cancel request signed by any identity other than the loan's
/// recorded lender fails with `IncorrectAuthority`, whatever else the context
/// holds.
pub proof fn lemma_cancel_authority_gate(ctx: CancelLoan)
    requires
        ctx.lender != ctx.loan.lender,
    ensures
        ctx.outcome() == Err::<CancelLoan, AgioError>(AgioError::IncorrectAuthority),
{
}

/// Law: cancel conserves the collateral asset — the total balance of the
/// escrow, lender and fee-recipient vaults is the same before and after a
/// successful cancel, and a failed cancel returns the context unchanged.
pub proof fn lemma_cancel_conserves_collateral(ctx: CancelLoan)
    ensures
        (match ctx.outcome() {
            Ok(c) => c.loan_collateral_ata.balance + c.lender_collateral_ata.balance + c.team_collateral_ata.balance
                == ctx.loan_collateral_ata.balance + ctx.lender_collateral_ata.balance + ctx.team_collateral_ata.balance,
            Err(_) => true,
        }),
{
}

/// Law: on a successful cancel the escrow pays out exactly the posted
/// collateral, split into the protocol fee for the fee recipient and the
/// rest for the lender.
pub proof fn lemma_cancel_fee_split(ctx: CancelLoan)
    ensures
        (match ctx.outcome() {
            Ok(c) => {
                let fee = fee_amount(ctx.loan.collateral_amount, ctx.global_config.lend_fee);
                &&& c.lender_collateral_ata.balance == ctx.lender_collateral_ata.balance + ctx.loan.collateral_amount - fee
                &&& c.team_collateral_ata.balance == ctx.team_collateral_ata.balance + fee
                &&& c.loan_collateral_ata.balance == ctx.loan_collateral_ata.balance - ctx.loan.collateral_amount
            },
            Err(_) => true,
        }),
{
}

/// Law: cancel never touches the loan record itself — in particular it never
/// sets `borrower` or `repaid`, so no cancel re-enters another lifecycle
/// state.
pub proof fn lemma_cancel_preserves_loan(ctx: CancelLoan)
    ensures
        (match ctx.outcome() {
            Ok(c) => c.loan == ctx.loan,
            Err(_) => true,
        }),
{
}

} // verus!
