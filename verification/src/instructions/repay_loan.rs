use vstd::prelude::*;
use crate::errors::AgioError;
use crate::state::{AccountId, Config, Loan};
use crate::vault::{loan_authority, transfer_as_escrow, transfer_as_user, transfer_outcome, Vault};
use crate::instructions::{checked_fee, fee_amount};

verus! {

/// The accounts a repay request names, read into plain values: the global
/// configuration, the loan record, the loan's collateral escrow vault, and
/// the loan-asset vaults of the borrower (the signer of the request), of the
/// loan's lender and of the fee recipient, plus the borrower's collateral
/// vault that the escrow pays back into.
#[derive(Clone, Copy, Debug, PartialEq, Eq, Structural)]
pub struct RepayLoan {
    pub global_config: Config,
    pub loan: Loan,
    pub loan_key: AccountId,
    pub loan_collateral_ata: Vault,
    pub borrower_collateral_ata: Vault,
    pub lender_loan_ata: Vault,
    pub borrower_loan_ata: Vault,
    pub team_loan_ata: Vault,
    pub team_wallet: AccountId,
    pub borrower: AccountId,
}

impl RepayLoan {
    /// A well-formed repay context: the fee recipient is the one on record,
    /// the escrow vault is owned by the loan's derived authority, and every
    /// vault is keyed to its asset and to its holder.
    pub open spec fn wf(self) -> bool {
        &&& self.team_wallet == self.global_config.team_wallet
        &&& self.loan_collateral_ata.owner == loan_authority(self.loan_key)
        &&& self.loan_collateral_ata.mint == self.loan.collateral_mint
        &&& self.borrower_collateral_ata.owner == self.borrower
        &&& self.borrower_collateral_ata.mint == self.loan.collateral_mint
        &&& self.lender_loan_ata.owner == self.loan.lender
        &&& self.lender_loan_ata.mint == self.loan.loan_mint
        &&& self.borrower_loan_ata.owner == self.borrower
        &&& self.borrower_loan_ata.mint == self.loan.loan_mint
        &&& self.team_loan_ata.owner == self.team_wallet
        &&& self.team_loan_ata.mint == self.loan.loan_mint
    }

    /// Assembles a well-formed repay context from plain values, building the
    /// five vaults from the given balances. The named fee recipient must be
    /// the one the configuration records.
    pub fn new(
        global_config: Config,
        team_wallet: AccountId,
        loan: Loan,
        loan_key: AccountId,
        borrower: AccountId,
        escrow_collateral_balance: u64,
        borrower_collateral_balance: u64,
        borrower_loan_balance: u64,
        lender_loan_balance: u64,
        team_loan_balance: u64,
    ) -> (r: Result<RepayLoan, AgioError>)
        ensures
            team_wallet != global_config.team_wallet ==> r == Err::<RepayLoan, AgioError>(AgioError::IncorrectAuthority),
            team_wallet == global_config.team_wallet ==> (r matches Ok(c)
                && c.wf()
                && c.global_config == global_config
                && c.loan == loan
                && c.loan_key == loan_key
                && c.borrower == borrower
                && c.loan_collateral_ata.balance == escrow_collateral_balance
                && c.borrower_collateral_ata.balance == borrower_collateral_balance
                && c.borrower_loan_ata.balance == borrower_loan_balance
                && c.lender_loan_ata.balance == lender_loan_balance
                && c.team_loan_ata.balance == team_loan_balance),
    {
        if team_wallet != global_config.team_wallet {
            return Err(AgioError::IncorrectAuthority);
        }
        let authority = crate::vault::derive_loan_authority(loan_key);
        Ok(RepayLoan {
            global_config: global_config,
            loan: loan,
            loan_key: loan_key,
            loan_collateral_ata: Vault { owner: authority, mint: loan.collateral_mint, balance: escrow_collateral_balance },
            borrower_collateral_ata: Vault { owner: borrower, mint: loan.collateral_mint, balance: borrower_collateral_balance },
            lender_loan_ata: Vault { owner: loan.lender, mint: loan.loan_mint, balance: lender_loan_balance },
            borrower_loan_ata: Vault { owner: borrower, mint: loan.loan_mint, balance: borrower_loan_balance },
            team_loan_ata: Vault { owner: team_wallet, mint: loan.loan_mint, balance: team_loan_balance },
            team_wallet: team_wallet,
            borrower: borrower,
        })
    }

    /// The new loan record after a successful repay: `repaid` set, all other
    /// fields untouched.
    pub open spec fn repaid_loan(self) -> Loan {
        Loan {
            lender: self.loan.lender,
            borrower: self.loan.borrower,
            loan_mint: self.loan.loan_mint,
            loan_amount: self.loan.loan_amount,
            interest_rate: self.loan.interest_rate,
            duration: self.loan.duration,
            collateral_mint: self.loan.collateral_mint,
            collateral_amount: self.loan.collateral_amount,
            create_date: self.loan.create_date,
            expire_date: self.loan.expire_date,
            borrow_date: self.loan.borrow_date,
            repaid: true,
        }
    }

    /// The repay transition as a function of the request context.
    ///
    /// A loan repays at most once: a second request fails with
    /// `AlreadyRepaid`. On success the escrow releases the posted collateral
    /// back to the signer, the signer pays the lender the loan amount minus
    /// the protocol fee, and pays the fee recipient twice that fee — the
    /// doubled share is the protocol's literal rule; `borrow_fee` plays no
    /// part in it.
    pub open spec fn outcome(self) -> Result<RepayLoan, AgioError> {
        let loan = self.loan;
        let fee = fee_amount(loan.loan_amount, self.global_config.lend_fee);
        if loan.repaid {
            Err(AgioError::AlreadyRepaid)
        } else if fee > u64::MAX {
            Err(AgioError::OverflowOrUnderflowOccurred)
        } else {
            match transfer_outcome(self.loan_collateral_ata, self.borrower_collateral_ata, loan.collateral_amount) {
                Err(e) => Err(e),
                Ok(p) => if loan.loan_amount < fee {
                    Err(AgioError::OverflowOrUnderflowOccurred)
                } else {
                    match transfer_outcome(self.borrower_loan_ata, self.lender_loan_ata, (loan.loan_amount - fee) as u64) {
                        Err(e) => Err(e),
                        Ok(q) => if 2 * fee > u64::MAX {
                            Err(AgioError::OverflowOrUnderflowOccurred)
                        } else {
                            match transfer_outcome(q.0, self.team_loan_ata, (2 * fee) as u64) {
                                Err(e) => Err(e),
                                Ok(s) => Ok(RepayLoan {
                                    global_config: self.global_config,
                                    loan: self.repaid_loan(),
                                    loan_key: self.loan_key,
                                    loan_collateral_ata: p.0,
                                    borrower_collateral_ata: p.1,
                                    lender_loan_ata: q.1,
                                    borrower_loan_ata: s.0,
                                    team_loan_ata: s.1,
                                    team_wallet: self.team_wallet,
                                    borrower: self.borrower,
                                }),
                            }
                        },
                    }
                },
            }
        }
    }

    /// Applies the repay transition. On success `repaid` is set once and for
    /// all, the collateral returns to the signer, and the loan asset moves
    /// from the signer to the lender and the fee recipient; on any error the
    /// context is unchanged, as if the request had never run.
    pub fn process(&mut self) -> (r: Result<(), AgioError>)
        requires
            old(self).wf(),
        ensures
            (match old(self).outcome() {
                Ok(c) => r is Ok && *final(self) == c,
                Err(e) => r == Err::<(), AgioError>(e) && *final(self) == *old(self),
            }),
            final(self).wf(),
    {
        if self.loan.repaid {
            return Err(AgioError::AlreadyRepaid);
        }
        let fee = match checked_fee(self.loan.loan_amount, self.global_config.lend_fee) {
            Some(f) => f,
            None => {
                return Err(AgioError::OverflowOrUnderflowOccurred);
            },
        };
        let mut escrow = self.loan_collateral_ata;
        let mut borrower_collateral = self.borrower_collateral_ata;
        match transfer_as_escrow(&mut escrow, &mut borrower_collateral, self.loan.collateral_amount, self.loan_key) {
            Ok(u) => u,
            Err(e) => {
                return Err(e);
            },
        }
        let repay_share = match self.loan.loan_amount.checked_sub(fee) {
            Some(v) => v,
            None => {
                return Err(AgioError::OverflowOrUnderflowOccurred);
            },
        };
        let mut borrower_loan = self.borrower_loan_ata;
        let mut lender_loan = self.lender_loan_ata;
        match transfer_as_user(&mut borrower_loan, &self.borrower, &mut lender_loan, repay_share) {
            Ok(u) => u,
            Err(e) => {
                return Err(e);
            },
        }
        let doubled_fee = match fee.checked_mul(2) {
            Some(v) => v,
            None => {
                return Err(AgioError::OverflowOrUnderflowOccurred);
            },
        };
        let mut team_loan = self.team_loan_ata;
        match transfer_as_user(&mut borrower_loan, &self.borrower, &mut team_loan, doubled_fee) {
            Ok(u) => u,
            Err(e) => {
                return Err(e);
            },
        }
        self.loan.repaid = true;
        self.loan_collateral_ata = escrow;
        self.borrower_collateral_ata = borrower_collateral;
        self.borrower_loan_ata = borrower_loan;
        self.lender_loan_ata = lender_loan;
        self.team_loan_ata = team_loan;
        Ok(())
    }
}

/// Law: `repaid` is final — a repay request on a loan already marked repaid
/// always fails with `AlreadyRepaid`, so no sequence of requests triggers a
/// second successful repay.
pub proof fn lemma_repay_only_once(ctx: RepayLoan)
    requires
        ctx.loan.repaid,
    ensures
        ctx.outcome() == Err::<RepayLoan, AgioError>(AgioError::AlreadyRepaid),
{
}

/// Law: a successful repay starts from a loan not yet repaid and marks it
/// repaid, touching no other field of the record.
pub proof fn lemma_repay_marks_repaid(ctx: RepayLoan)
    ensures
        (match ctx.outcome() {
            Ok(c) => !ctx.loan.repaid && c.loan == ctx.repaid_loan() && c.loan.repaid,
            Err(_) => true,
        }),
{
}

/// Law: repay conserves both assets — the collateral total over the escrow
/// and the borrower's collateral vault, and the loan-asset total over the
/// borrower's, lender's and fee recipient's vaults, are each unchanged by a
/// successful repay; a failed repay returns the context unchanged.
pub proof fn lemma_repay_conserves_assets(ctx: RepayLoan)
    ensures
        (match ctx.outcome() {
            Ok(c) => {
                &&& c.loan_collateral_ata.balance + c.borrower_collateral_ata.balance
                    == ctx.loan_collateral_ata.balance + ctx.borrower_collateral_ata.balance
                &&& c.borrower_loan_ata.balance + c.lender_loan_ata.balance + c.team_loan_ata.balance
                    == ctx.borrower_loan_ata.balance + ctx.lender_loan_ata.balance + ctx.team_loan_ata.balance
            },
            Err(_) => true,
        }),
{
}

/// Law: on a successful repay the borrower regains the full posted
/// collateral, the lender receives the loan amount minus the protocol fee,
/// and the fee recipient receives twice the fee.
pub proof fn lemma_repay_split(ctx: RepayLoan)
    ensures
        (match ctx.outcome() {
            Ok(c) => {
                let fee = fee_amount(ctx.loan.loan_amount, ctx.global_config.lend_fee);
                &&& c.borrower_collateral_ata.balance == ctx.borrower_collateral_ata.balance + ctx.loan.collateral_amount
                &&& c.loan_collateral_ata.balance == ctx.loan_collateral_ata.balance - ctx.loan.collateral_amount
                &&& c.lender_loan_ata.balance == ctx.lender_loan_ata.balance + ctx.loan.loan_amount - fee
                &&& c.team_loan_ata.balance == ctx.team_loan_ata.balance + 2 * fee
                &&& c.borrower_loan_ata.balance == ctx.borrower_loan_ata.balance - ctx.loan.loan_amount - fee
            },
            Err(_) => true,
        }),
{
}

} // verus!
