use lending::errors::AgioError;
use lending::instructions::{BorrowLoan, CancelLoan, Configure, CreateLoan, RepayLoan};
use lending::state::{AccountId, Config, Loan};
use lending::vault::{derive_loan_authority, ensure_vault, transfer_as_user, Vault};
use lending::{borrow_loan, cancel_loan, configure, create_loan, repay_loan};
use lending::instructions::checked_fee;

fn id(value: u64) -> AccountId {
    AccountId { value }
}

fn test_config(lend_fee: u64, expire_duration: u8) -> Config {
    Config {
        authority: id(1),
        pending_authority: id(0),
        team_wallet: id(9),
        lend_fee,
        borrow_fee: 7,
        expire_duration,
    }
}

fn test_loan(collateral_amount: u64, loan_amount: u64) -> Loan {
    Loan {
        lender: id(2),
        borrower: id(0),
        loan_mint: id(11),
        loan_amount,
        interest_rate: 4,
        duration: 86_400,
        collateral_mint: id(12),
        collateral_amount,
        create_date: 0,
        expire_date: 864_000,
        borrow_date: 0,
        repaid: false,
    }
}

#[test]
fn create_loan_initializes_record() {
    let cfg = test_config(5, 10);
    let mut ctx = CreateLoan::new(cfg, id(9), id(77), id(12), id(11), id(2), 5_000, 1_000).unwrap();
    let r = create_loan(&mut ctx, 500, 4, 2, 1_000);
    assert!(r.is_ok());
    assert_eq!(ctx.loan.lender, id(2));
    assert_eq!(ctx.loan.borrower, AccountId::unset());
    assert_eq!(ctx.loan.loan_amount, 500);
    assert_eq!(ctx.loan.interest_rate, 4);
    assert_eq!(ctx.loan.duration, 2 * 86_400);
    assert_eq!(ctx.loan.create_date, 1_000);
    assert_eq!(ctx.loan.expire_date, 1_000 + 10 * 86_400);
    assert_eq!(ctx.loan.borrow_date, 0);
    assert_eq!(ctx.loan.collateral_amount, 1_000);
    assert!(!ctx.loan.repaid);
    assert_eq!(ctx.loan_mint_ata.balance, 500);
    assert_eq!(ctx.lender_loan_ata.balance, 4_500);
    assert_eq!(ctx.loan_collateral_ata.balance, 0);
}

#[test]
fn create_loan_rejects_duration_overflow() {
    let cfg = test_config(5, 10);
    let mut ctx = CreateLoan::new(cfg, id(9), id(77), id(12), id(11), id(2), 5_000, 1_000).unwrap();
    let before = ctx;
    let r = create_loan(&mut ctx, 500, 4, u64::MAX, 1_000);
    assert_eq!(r, Err(AgioError::OverflowOrUnderflowOccurred));
    assert_eq!(ctx, before);
}

#[test]
fn create_loan_rejects_duration_past_signed_range() {
    let cfg = test_config(5, 10);
    let mut ctx = CreateLoan::new(cfg, id(9), id(77), id(12), id(11), id(2), 5_000, 1_000).unwrap();
    // 86_400 * days stays within u64 but leaves the signed 64-bit range
    let days = (i64::MAX as u64) / 86_400 + 1;
    let r = create_loan(&mut ctx, 500, 4, days, 1_000);
    assert_eq!(r, Err(AgioError::OverflowOrUnderflowOccurred));
}

#[test]
fn create_loan_rejects_expiry_overflow() {
    let cfg = test_config(5, 1);
    let mut ctx = CreateLoan::new(cfg, id(9), id(77), id(12), id(11), id(2), 5_000, i64::MAX - 10).unwrap();
    let before = ctx;
    let r = create_loan(&mut ctx, 500, 4, 1, 1_000);
    assert_eq!(r, Err(AgioError::OverflowOrUnderflowOccurred));
    assert_eq!(ctx, before);
}

#[test]
fn create_loan_rejects_short_lender_balance() {
    let cfg = test_config(5, 10);
    let mut ctx = CreateLoan::new(cfg, id(9), id(77), id(12), id(11), id(2), 400, 1_000).unwrap();
    let before = ctx;
    let r = create_loan(&mut ctx, 500, 4, 2, 1_000);
    assert_eq!(r, Err(AgioError::InsufficientFunds));
    assert_eq!(ctx, before);
}

#[test]
fn create_loan_new_rejects_wrong_team_wallet() {
    let cfg = test_config(5, 10);
    let r = CreateLoan::new(cfg, id(8), id(77), id(12), id(11), id(2), 400, 1_000);
    assert_eq!(r, Err(AgioError::IncorrectAuthority));
}

#[test]
fn borrow_loan_claims_within_window() {
    let loan = test_loan(0, 500);
    let mut ctx = BorrowLoan::new(loan, id(77), id(3), 500, 0, 0, 2_000, 100).unwrap();
    let r = borrow_loan(&mut ctx, 800);
    assert!(r.is_ok());
    assert_eq!(ctx.loan.borrower, id(3));
    assert_eq!(ctx.loan.borrow_date, 100);
    assert_eq!(ctx.loan.collateral_amount, 800);
    assert_eq!(ctx.loan_mint_ata.balance, 0);
    assert_eq!(ctx.borrower_loan_ata.balance, 500);
    assert_eq!(ctx.borrower_collateral_ata.balance, 1_200);
    assert_eq!(ctx.loan_collateral_ata.balance, 800);
}

#[test]
fn borrow_loan_rejects_claimed_loan() {
    let mut loan = test_loan(0, 500);
    loan.borrower = id(4);
    let mut ctx = BorrowLoan::new(loan, id(77), id(3), 500, 0, 0, 2_000, 100).unwrap();
    let before = ctx;
    let r = borrow_loan(&mut ctx, 800);
    assert_eq!(r, Err(AgioError::AlreadyLended));
    assert_eq!(ctx, before);
}

#[test]
fn borrow_loan_rejects_at_expiry() {
    let loan = test_loan(0, 500);
    let mut ctx = BorrowLoan::new(loan, id(77), id(3), 500, 0, 0, 2_000, loan.expire_date).unwrap();
    let before = ctx;
    let r = borrow_loan(&mut ctx, 800);
    assert_eq!(r, Err(AgioError::AlreadyExpired));
    assert_eq!(ctx, before);
}

#[test]
fn borrow_loan_succeeds_just_before_expiry() {
    let loan = test_loan(0, 500);
    let mut ctx = BorrowLoan::new(loan, id(77), id(3), 500, 0, 0, 2_000, loan.expire_date - 1).unwrap();
    let r = borrow_loan(&mut ctx, 800);
    assert!(r.is_ok());
    assert_eq!(ctx.loan.borrow_date, loan.expire_date - 1);
}

#[test]
fn borrow_loan_rejects_short_collateral() {
    let loan = test_loan(0, 500);
    let mut ctx = BorrowLoan::new(loan, id(77), id(3), 500, 0, 0, 300, 100).unwrap();
    let before = ctx;
    let r = borrow_loan(&mut ctx, 800);
    assert_eq!(r, Err(AgioError::InsufficientFunds));
    assert_eq!(ctx, before);
}

#[test]
fn cancel_loan_splits_collateral_and_fee() {
    let cfg = test_config(5, 10);
    let mut loan = test_loan(1_000, 500);
    loan.borrower = id(3);
    let mut ctx = CancelLoan::new(cfg, id(9), loan, id(77), id(2), 1_000, 0, 0, 5_000).unwrap();
    let r = cancel_loan(&mut ctx);
    assert!(r.is_ok());
    assert_eq!(ctx.lender_collateral_ata.balance, 950);
    assert_eq!(ctx.team_collateral_ata.balance, 50);
    assert_eq!(ctx.loan_collateral_ata.balance, 0);
}

#[test]
fn cancel_loan_truncates_fee_before_scaling() {
    let cfg = test_config(5, 10);
    let mut loan = test_loan(999, 500);
    loan.borrower = id(3);
    let mut ctx = CancelLoan::new(cfg, id(9), loan, id(77), id(2), 999, 0, 0, 5_000).unwrap();
    let r = cancel_loan(&mut ctx);
    assert!(r.is_ok());
    // (999 / 100) * 5 = 45
    assert_eq!(ctx.team_collateral_ata.balance, 45);
    assert_eq!(ctx.lender_collateral_ata.balance, 954);
}

#[test]
fn cancel_loan_rejects_wrong_signer() {
    let cfg = test_config(5, 10);
    let mut loan = test_loan(1_000, 500);
    loan.borrower = id(3);
    let mut ctx = CancelLoan::new(cfg, id(9), loan, id(77), id(4), 1_000, 0, 0, 5_000).unwrap();
    let before = ctx;
    let r = cancel_loan(&mut ctx);
    assert_eq!(r, Err(AgioError::IncorrectAuthority));
    assert_eq!(ctx, before);
}

#[test]
fn cancel_loan_permitted_before_any_borrow() {
    // borrow_date is zero on a never-claimed loan, so the lapse clause of the
    // disjunction holds under any realistic clock
    let cfg = test_config(5, 10);
    let loan = test_loan(1_000, 500);
    let mut ctx = CancelLoan::new(cfg, id(9), loan, id(77), id(2), 1_000, 0, 0, 5_000_000).unwrap();
    let r = cancel_loan(&mut ctx);
    assert!(r.is_ok());
    assert_eq!(ctx.lender_collateral_ata.balance, 950);
}

#[test]
fn cancel_loan_rejects_inside_activity_window() {
    let cfg = test_config(5, 10);
    let mut loan = test_loan(1_000, 500);
    loan.duration = 100;
    let mut ctx = CancelLoan::new(cfg, id(9), loan, id(77), id(2), 1_000, 0, 0, 50).unwrap();
    let before = ctx;
    let r = cancel_loan(&mut ctx);
    assert_eq!(r, Err(AgioError::LoanActivated));
    assert_eq!(ctx, before);
}

#[test]
fn cancel_loan_rejects_fee_past_collateral() {
    // a fee rate above one hundred percent makes the payout subtraction
    // underflow
    let cfg = test_config(150, 10);
    let loan = test_loan(1_000, 500);
    let mut ctx = CancelLoan::new(cfg, id(9), loan, id(77), id(2), 1_000, 0, 0, 5_000_000).unwrap();
    let before = ctx;
    let r = cancel_loan(&mut ctx);
    assert_eq!(r, Err(AgioError::OverflowOrUnderflowOccurred));
    assert_eq!(ctx, before);
}

#[test]
fn cancel_loan_rejects_fee_computation_overflow() {
    // the truncated collateral share times the rate leaves the 64-bit range
    let cfg = test_config(u64::MAX, 10);
    let loan = test_loan(u64::MAX, 500);
    let mut ctx = CancelLoan::new(cfg, id(9), loan, id(77), id(2), u64::MAX, 0, 0, 5_000_000).unwrap();
    let before = ctx;
    let r = cancel_loan(&mut ctx);
    assert_eq!(r, Err(AgioError::OverflowOrUnderflowOccurred));
    assert_eq!(ctx, before);
}

#[test]
fn repay_loan_rejects_doubled_fee_overflow() {
    // the fee itself fits, but twice the fee does not
    let cfg = test_config(100, 10);
    let mut loan = test_loan(0, u64::MAX);
    loan.borrower = id(3);
    let mut ctx = RepayLoan::new(cfg, id(9), loan, id(77), id(3), 0, 0, 20, 0, 0).unwrap();
    let before = ctx;
    let r = repay_loan(&mut ctx);
    assert_eq!(r, Err(AgioError::OverflowOrUnderflowOccurred));
    assert_eq!(ctx, before);
}

#[test]
fn repay_loan_splits_loan_asset() {
    let cfg = test_config(3, 10);
    let mut loan = test_loan(400, 1_000);
    loan.borrower = id(3);
    let mut ctx = RepayLoan::new(cfg, id(9), loan, id(77), id(3), 400, 0, 2_000, 0, 0).unwrap();
    let r = repay_loan(&mut ctx);
    assert!(r.is_ok());
    assert!(ctx.loan.repaid);
    // fee = (1000 / 100) * 3 = 30; lender gets 970, the recipient twice the fee
    assert_eq!(ctx.lender_loan_ata.balance, 970);
    assert_eq!(ctx.team_loan_ata.balance, 60);
    assert_eq!(ctx.borrower_loan_ata.balance, 970);
    assert_eq!(ctx.borrower_collateral_ata.balance, 400);
    assert_eq!(ctx.loan_collateral_ata.balance, 0);
}

#[test]
fn repay_loan_rejects_second_repay() {
    let cfg = test_config(3, 10);
    let mut loan = test_loan(400, 1_000);
    loan.borrower = id(3);
    loan.repaid = true;
    let mut ctx = RepayLoan::new(cfg, id(9), loan, id(77), id(3), 400, 0, 2_000, 0, 0).unwrap();
    let before = ctx;
    let r = repay_loan(&mut ctx);
    assert_eq!(r, Err(AgioError::AlreadyRepaid));
    assert_eq!(ctx, before);
}

#[test]
fn repay_loan_applies_nothing_on_short_balance() {
    // the borrower cannot cover loan amount plus fee: even the collateral
    // release that comes first in the transition must not stick
    let cfg = test_config(3, 10);
    let mut loan = test_loan(400, 1_000);
    loan.borrower = id(3);
    let mut ctx = RepayLoan::new(cfg, id(9), loan, id(77), id(3), 400, 0, 900, 0, 0).unwrap();
    let before = ctx;
    let r = repay_loan(&mut ctx);
    assert_eq!(r, Err(AgioError::InsufficientFunds));
    assert_eq!(ctx, before);
}

#[test]
fn full_lifecycle_conserves_both_assets() {
    let cfg = test_config(3, 10);
    let mut create_ctx = CreateLoan::new(cfg, id(9), id(77), id(12), id(11), id(2), 5_000, 1_000).unwrap();
    assert!(create_loan(&mut create_ctx, 1_000, 4, 2, 700).is_ok());

    // loan asset total so far: lender vault plus escrow
    assert_eq!(create_ctx.lender_loan_ata.balance + create_ctx.loan_mint_ata.balance, 5_000);

    let mut borrow_ctx = BorrowLoan::new(
        create_ctx.loan,
        id(77),
        id(3),
        create_ctx.loan_mint_ata.balance,
        create_ctx.loan_collateral_ata.balance,
        100,
        2_000,
        2_000,
    )
    .unwrap();
    assert!(borrow_loan(&mut borrow_ctx, 800).is_ok());
    assert_eq!(borrow_ctx.loan_mint_ata.balance + borrow_ctx.borrower_loan_ata.balance, 1_100);
    assert_eq!(borrow_ctx.borrower_collateral_ata.balance + borrow_ctx.loan_collateral_ata.balance, 2_000);

    let mut repay_ctx = RepayLoan::new(
        cfg,
        id(9),
        borrow_ctx.loan,
        id(77),
        id(3),
        borrow_ctx.loan_collateral_ata.balance,
        borrow_ctx.borrower_collateral_ata.balance,
        borrow_ctx.borrower_loan_ata.balance,
        create_ctx.lender_loan_ata.balance,
        0,
    )
    .unwrap();
    assert!(repay_loan(&mut repay_ctx).is_ok());
    // collateral asset: escrow and borrower vault together hold what they did
    assert_eq!(repay_ctx.loan_collateral_ata.balance + repay_ctx.borrower_collateral_ata.balance, 2_000);
    assert_eq!(repay_ctx.borrower_collateral_ata.balance, 2_000);
    // loan asset: borrower, lender and fee recipient vaults together hold what
    // they did, with the fee moved to the recipient
    assert_eq!(
        repay_ctx.borrower_loan_ata.balance + repay_ctx.lender_loan_ata.balance + repay_ctx.team_loan_ata.balance,
        1_100 + 4_000,
    );
    // fee = (1000 / 100) * 3 = 30: the recipient gets 60, the lender 970
    assert_eq!(repay_ctx.team_loan_ata.balance, 60);
    assert_eq!(repay_ctx.lender_loan_ata.balance, 4_000 + 970);
    assert_eq!(repay_ctx.borrower_loan_ata.balance, 70);
}

#[test]
fn configure_replaces_record_under_authority() {
    let cfg = test_config(5, 10);
    let mut ctx = Configure { config: cfg, caller: id(1) };
    let mut next = cfg;
    next.lend_fee = 8;
    next.team_wallet = id(15);
    assert!(configure(&mut ctx, next).is_ok());
    assert_eq!(ctx.config, next);
}

#[test]
fn configure_rejects_other_signers() {
    let cfg = test_config(5, 10);
    let mut ctx = Configure { config: cfg, caller: id(4) };
    let mut next = cfg;
    next.lend_fee = 8;
    let r = configure(&mut ctx, next);
    assert_eq!(r, Err(AgioError::IncorrectAuthority));
    assert_eq!(ctx.config, cfg);
}

#[test]
fn ensure_vault_is_idempotent() {
    let fresh = ensure_vault(None, id(3), id(11));
    assert_eq!(fresh.balance, 0);
    assert_eq!(fresh.owner, id(3));
    assert_eq!(fresh.mint, id(11));
    let again = ensure_vault(Some(fresh), id(3), id(11));
    assert_eq!(again, fresh);
    let funded = Vault { owner: id(3), mint: id(11), balance: 42 };
    assert_eq!(ensure_vault(Some(funded), id(3), id(11)), funded);
}

#[test]
fn loan_authority_is_deterministic_and_distinct() {
    let a = derive_loan_authority(id(77));
    let b = derive_loan_authority(id(77));
    assert_eq!(a, b);
    assert_ne!(a, id(77));
    assert_ne!(derive_loan_authority(id(78)), a);
}

#[test]
fn transfer_as_user_moves_and_rejects() {
    let mut from = Vault { owner: id(2), mint: id(11), balance: 100 };
    let mut to = Vault { owner: id(3), mint: id(11), balance: 7 };
    assert!(transfer_as_user(&mut from, &id(2), &mut to, 40).is_ok());
    assert_eq!(from.balance, 60);
    assert_eq!(to.balance, 47);
    assert_eq!(transfer_as_user(&mut from, &id(2), &mut to, 61), Err(AgioError::InsufficientFunds));
    assert_eq!(from.balance, 60);
    let mut brim = Vault { owner: id(3), mint: id(11), balance: u64::MAX };
    assert_eq!(
        transfer_as_user(&mut from, &id(2), &mut brim, 1),
        Err(AgioError::OverflowOrUnderflowOccurred),
    );
    assert_eq!(from.balance, 60);
    assert_eq!(brim.balance, u64::MAX);
}

#[test]
fn checked_fee_truncates_and_guards() {
    assert_eq!(checked_fee(1_000, 5), Some(50));
    assert_eq!(checked_fee(999, 5), Some(45));
    assert_eq!(checked_fee(99, 5), Some(0));
    assert_eq!(checked_fee(u64::MAX, u64::MAX), None);
}
