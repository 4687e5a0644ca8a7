use vstd::prelude::*;
use crate::errors::AgioError;
use crate::state::{AccountId, Config, Loan};
use crate::vault::{loan_authority, transfer_as_user, transfer_outcome, Vault};
use crate::instructions::fits_i64;

verus! {

/// One day in seconds: the unit in which loan durations and the default
/// expiry window are stated.
pub const SECONDS_PER_DAY: u64 = 86_400;

/// Relies on chrono's `TimeDelta::days` and `num_seconds`: a delta of one
/// day counts `86_400` seconds.
#[verifier::external_body]
fn seconds_per_day() -> (r: i64)
    ensures
        r == SECONDS_PER_DAY,
{
    chrono::Duration::days(1).num_seconds()
}

/// The accounts a create request names, read into plain values: the global
/// configuration, the loan record to fill in, the loan's two freshly
/// allocated escrow vaults, and the loan-asset vault of the lender (the
/// signer of the request). `now` is the ledger clock at the instant the
/// request runs.
#[derive(Clone, Copy, Debug, PartialEq, Eq, Structural)]
pub struct CreateLoan {
    pub global_config: Config,
    pub team_wallet: AccountId,
    pub loan: Loan,
    pub loan_key: AccountId,
    pub collateral_mint: AccountId,
    pub loan_mint: AccountId,
    pub loan_collateral_ata: Vault,
    pub loan_mint_ata: Vault,
    pub lender_loan_ata: Vault,
    pub lender: AccountId,
    pub now: i64,
}

impl CreateLoan {
    /// A well-formed create context: the fee recipient is the one on record,
    /// both escrow vaults are owned by the loan's derived authority and keyed
    /// to their assets, the lender's vault is keyed to the loan asset, and
    /// the signer is a real identity, never the "unset" sentinel.
    pub open spec fn wf(self) -> bool {
        &&& self.team_wallet == self.global_config.team_wallet
        &&& self.loan_collateral_ata.owner == loan_authority(self.loan_key)
        &&& self.loan_collateral_ata.mint == self.collateral_mint
        &&& self.loan_mint_ata.owner == loan_authority(self.loan_key)
        &&& self.loan_mint_ata.mint == self.loan_mint
        &&& self.lender_loan_ata.owner == self.lender
        &&& self.lender_loan_ata.mint == self.loan_mint
        &&& !self.lender.is_unset()
    }

    /// Assembles a well-formed create context from plain values, allocating
    /// the two escrow vaults empty, owned by the authority derived from
    /// `loan_key`. The named fee recipient must be the one the configuration
    /// records, and the signer must be a real identity.
    pub fn new(
        global_config: Config,
        team_wallet: AccountId,
        loan_key: AccountId,
        collateral_mint: AccountId,
        loan_mint: AccountId,
        lender: AccountId,
        lender_loan_balance: u64,
        now: i64,
    ) -> (r: Result<CreateLoan, AgioError>)
        ensures
            team_wallet != global_config.team_wallet || lender.is_unset()
                ==> r == Err::<CreateLoan, AgioError>(AgioError::IncorrectAuthority),
            team_wallet == global_config.team_wallet && !lender.is_unset()
                ==> (r matches Ok(c)
                    && c.wf()
                    && c.global_config == global_config
                    && c.loan_key == loan_key
                    && c.collateral_mint == collateral_mint
                    && c.loan_mint == loan_mint
                    && c.lender == lender
                    && c.now == now
                    && c.loan_collateral_ata.balance == 0
                    && c.loan_mint_ata.balance == 0
                    && c.lender_loan_ata.balance == lender_loan_balance),
    {
        if team_wallet != global_config.team_wallet || lender.value == 0 {
            return Err(AgioError::IncorrectAuthority);
        }
        let authority = crate::vault::derive_loan_authority(loan_key);
        Ok(CreateLoan {
            global_config: global_config,
            team_wallet: team_wallet,
            loan: Loan {
                lender: lender,
                borrower: AccountId { value: 0 },
                loan_mint: loan_mint,
                loan_amount: 0,
                interest_rate: 0,
                duration: 0,
                collateral_mint: collateral_mint,
                collateral_amount: 0,
                create_date: 0,
                expire_date: 0,
                borrow_date: 0,
                repaid: false,
            },
            loan_key: loan_key,
            collateral_mint: collateral_mint,
            loan_mint: loan_mint,
            loan_collateral_ata: Vault { owner: authority, mint: collateral_mint, balance: 0 },
            loan_mint_ata: Vault { owner: authority, mint: loan_mint, balance: 0 },
            lender_loan_ata: Vault { owner: lender, mint: loan_mint, balance: lender_loan_balance },
            lender: lender,
            now: now,
        })
    }

    /// The loan record a successful create request writes: the signer as
    /// lender, no borrower yet, the duration and expiry window in seconds,
    /// and the advisory collateral figure as handed in. `interest_rate` is
    /// recorded and never applied to any transfer.
    pub open spec fn created_loan(self, loan_amount: u64, interest_rate: u64, duration: u64, collateral_amount: u64) -> Loan {
        Loan {
            lender: self.lender,
            borrower: AccountId { value: 0 },
            loan_mint: self.loan_mint,
            loan_amount: loan_amount,
            interest_rate: interest_rate,
            duration: (SECONDS_PER_DAY * duration) as i64,
            collateral_mint: self.collateral_mint,
            collateral_amount: collateral_amount,
            create_date: self.now,
            expire_date: (self.now + SECONDS_PER_DAY * self.global_config.expire_duration) as i64,
            borrow_date: 0,
            repaid: false,
        }
    }

    /// The create transition as a function of the request context.
    ///
    /// The day-to-second products and the expiry addition must fit in signed
    /// 64 bits, else the request fails with `OverflowOrUnderflowOccurred`;
    /// on success the loan record is written and the loan amount moves from
    /// the lender's vault into the loan-asset escrow.
    pub open spec fn outcome(self, loan_amount: u64, interest_rate: u64, duration: u64, collateral_amount: u64) -> Result<CreateLoan, AgioError> {
        if SECONDS_PER_DAY * duration > i64::MAX {
            Err(AgioError::OverflowOrUnderflowOccurred)
        } else if !fits_i64(self.now + SECONDS_PER_DAY * self.global_config.expire_duration) {
            Err(AgioError::OverflowOrUnderflowOccurred)
        } else {
            match transfer_outcome(self.lender_loan_ata, self.loan_mint_ata, loan_amount) {
                Err(e) => Err(e),
                Ok(p) => Ok(CreateLoan {
                    global_config: self.global_config,
                    team_wallet: self.team_wallet,
                    loan: self.created_loan(loan_amount, interest_rate, duration, collateral_amount),
                    loan_key: self.loan_key,
                    collateral_mint: self.collateral_mint,
                    loan_mint: self.loan_mint,
                    loan_collateral_ata: self.loan_collateral_ata,
                    loan_mint_ata: p.1,
                    lender_loan_ata: p.0,
                    lender: self.lender,
                    now: self.now,
                }),
            }
        }
    }

    /// Applies the create transition. On success the loan record holds the
    /// computed duration and expiry window and the loan amount sits in
    /// escrow; on any error the context is unchanged, as if the request had
    /// never run.
    pub fn process(&mut self, loan_amount: u64, interest_rate: u64, duration: u64, collateral_amount: u64) -> (r: Result<(), AgioError>)
        requires
            old(self).wf(),
        ensures
            (match old(self).outcome(loan_amount, interest_rate, duration, collateral_amount) {
                Ok(c) => r is Ok && *final(self) == c,
                Err(e) => r == Err::<(), AgioError>(e) && *final(self) == *old(self),
            }),
            final(self).wf(),
    {
        let one_day = seconds_per_day();
        let day_factor: u64 = one_day as u64;
        proof {
            assert(SECONDS_PER_DAY * duration == duration * day_factor) by (nonlinear_arith)
                requires
                    day_factor == SECONDS_PER_DAY,
            ;
        }
        let duration_secs_u64 = match duration.checked_mul(day_factor) {
            Some(v) => v,
            None => {
                return Err(AgioError::OverflowOrUnderflowOccurred);
            },
        };
        if duration_secs_u64 > i64::MAX as u64 {
            return Err(AgioError::OverflowOrUnderflowOccurred);
        }
        let duration_secs: i64 = duration_secs_u64 as i64;
        proof {
            assert(one_day * (self.global_config.expire_duration as i64)
                == SECONDS_PER_DAY * self.global_config.expire_duration
                && 0 <= SECONDS_PER_DAY * self.global_config.expire_duration <= SECONDS_PER_DAY * 255) by (nonlinear_arith)
                requires
                    one_day == SECONDS_PER_DAY,
                    0 <= self.global_config.expire_duration <= 255,
            ;
        }
        let expire_secs: i64 = one_day * (self.global_config.expire_duration as i64);
        let expire_date = match self.now.checked_add(expire_secs) {
            Some(v) => v,
            None => {
                return Err(AgioError::OverflowOrUnderflowOccurred);
            },
        };
        let mut lender_vault = self.lender_loan_ata;
        let mut escrow_loan = self.loan_mint_ata;
        match transfer_as_user(&mut lender_vault, &self.lender, &mut escrow_loan, loan_amount) {
            Ok(u) => u,
            Err(e) => {
                return Err(e);
            },
        }
        self.loan = Loan {
            lender: self.lender,
            borrower: AccountId::unset(),
            loan_mint: self.loan_mint,
            loan_amount: loan_amount,
            interest_rate: interest_rate,
            duration: duration_secs,
            collateral_mint: self.collateral_mint,
            collateral_amount: collateral_amount,
            create_date: self.now,
            expire_date: expire_date,
            borrow_date: 0,
            repaid: false,
        };
        self.lender_loan_ata = lender_vault;
        self.loan_mint_ata = escrow_loan;
        Ok(())
    }
}

/// Law: a duration or expiry window whose day-to-second arithmetic leaves
/// the signed 64-bit range makes create fail with
/// `OverflowOrUnderflowOccurred` — and a failed create writes no loan record
/// and moves no funds, since `process` leaves its context untouched on every
/// error.
pub proof fn lemma_create_overflow_gate(ctx: CreateLoan, loan_amount: u64, interest_rate: u64, duration: u64, collateral_amount: u64)
    requires
        SECONDS_PER_DAY * duration > i64::MAX
            || !fits_i64(ctx.now + SECONDS_PER_DAY * ctx.global_config.expire_duration),
    ensures
        ctx.outcome(loan_amount, interest_rate, duration, collateral_amount)
            == Err::<CreateLoan, AgioError>(AgioError::OverflowOrUnderflowOccurred),
{
}

/// Law: a successful create writes exactly the advertised record — no
/// borrower, not repaid, a zero borrow date, the duration in seconds, and an
/// expiry window of the configured number of days from the clock.
pub proof fn lemma_create_initializes(ctx: CreateLoan, loan_amount: u64, interest_rate: u64, duration: u64, collateral_amount: u64)
    ensures
        (match ctx.outcome(loan_amount, interest_rate, duration, collateral_amount) {
            Ok(c) => {
                &&& c.loan == ctx.created_loan(loan_amount, interest_rate, duration, collateral_amount)
                &&& c.loan.borrower.is_unset()
                &&& !c.loan.repaid
                &&& c.loan.borrow_date == 0
                &&& c.loan.duration == SECONDS_PER_DAY * duration
                &&& c.loan.expire_date == ctx.now + SECONDS_PER_DAY * ctx.global_config.expire_duration
            },
            Err(_) => true,
        }),
{
}

/// Law: create conserves the loan asset — a successful create moves exactly
/// the loan amount from the lender's vault into the loan-asset escrow and
/// touches no collateral; a failed create returns the context unchanged.
pub proof fn lemma_create_escrows_loan_amount(ctx: CreateLoan, loan_amount: u64, interest_rate: u64, duration: u64, collateral_amount: u64)
    ensures
        (match ctx.outcome(loan_amount, interest_rate, duration, collateral_amount) {
            Ok(c) => {
                &&& c.lender_loan_ata.balance + c.loan_mint_ata.balance
                    == ctx.lender_loan_ata.balance + ctx.loan_mint_ata.balance
                &&& c.loan_mint_ata.balance == ctx.loan_mint_ata.balance + loan_amount
                &&& c.lender_loan_ata.balance == ctx.lender_loan_ata.balance - loan_amount
                &&& c.loan_collateral_ata == ctx.loan_collateral_ata
            },
            Err(_) => true,
        }),
{
}

} // verus!
