use dexloan::error::DexloanError;
use dexloan::key::AccountKey;
use dexloan::loan::{
    handle_close_loan, handle_give_loan, handle_init_loan, handle_repay_loan, handle_repossess,
    Loan, LoanState,
};
use dexloan::token_manager::{
    ClaimKind, DelegationPlan, LockAction, TokenAccountState, TokenManager,
};

fn key(n: u8) -> AccountKey {
    AccountKey::new([n; 32])
}

const MANAGER: u8 = 9;
const BORROWER: u8 = 1;
const LENDER: u8 = 2;
const MINT: u8 = 5;

fn undelegated() -> TokenAccountState {
    TokenAccountState { delegate: None, delegated_amount: 0, is_frozen: false }
}

fn listed_loan(tm: &mut TokenManager) -> Loan {
    let (loan, plan) = handle_init_loan(
        tm,
        &key(MANAGER),
        &undelegated(),
        &key(BORROWER),
        &key(MINT),
        1_000_000,
        1000,
        7_884_000,
        253,
    )
    .unwrap();
    assert_eq!(plan, DelegationPlan::DelegateAndFreeze { revoke_first: false });
    loan
}

#[test]
fn happy_path_loan() {
    let mut tm = TokenManager::new(255);
    let mut loan = listed_loan(&mut tm);
    assert!(loan.state == LoanState::Listed);
    assert!(tm.accounts.loan);

    let start = 1_700_000_000i64;
    let funding = handle_give_loan(&mut loan, &key(LENDER), start).unwrap();
    assert!(funding.from == key(LENDER) && funding.to == key(BORROWER));
    assert_eq!(funding.amount, 1_000_000);
    assert!(loan.state == LoanState::Active);
    assert_eq!(loan.start_date, start);
    assert!(loan.lender == key(LENDER));

    // Repaid by the borrower ten days later.
    let repayment =
        handle_repay_loan(&mut tm, &loan, &key(BORROWER), start + 10 * 86_400, false).unwrap();
    assert_eq!(repayment.payment.amount, 1_025_000);
    assert!(repayment.payment.from == key(BORROWER) && repayment.payment.to == key(LENDER));
    assert_eq!(repayment.lock, LockAction::ThawAndRevoke);
    assert!(!tm.accounts.any_locked());
}

#[test]
fn repayment_keeps_token_frozen_under_hire() {
    let mut tm = TokenManager::new(255);
    let mut loan = listed_loan(&mut tm);
    tm.accounts.hire = true;
    handle_give_loan(&mut loan, &key(LENDER), 0).unwrap();
    let repayment = handle_repay_loan(&mut tm, &loan, &key(BORROWER), 5, false).unwrap();
    assert_eq!(repayment.lock, LockAction::Nothing);
    assert!(tm.accounts.hire && !tm.accounts.loan);
}

#[test]
fn repossess_gated_on_duration() {
    let mut tm = TokenManager::new(255);
    let mut loan = listed_loan(&mut tm);
    let start = 1_000i64;
    handle_give_loan(&mut loan, &key(LENDER), start).unwrap();
    let due = start + 7_884_000;
    assert_eq!(
        handle_repossess(&mut tm, &mut loan, &key(LENDER), due - 1).err(),
        Some(DexloanError::NotOverdue)
    );
    assert!(loan.state == LoanState::Active);
    assert!(tm.accounts.loan);
    let moved = handle_repossess(&mut tm, &mut loan, &key(LENDER), due).unwrap();
    assert!(moved.from == key(BORROWER) && moved.to == key(LENDER));
    assert!(!moved.refreeze);
    assert!(loan.state == LoanState::Defaulted);
    assert!(!tm.accounts.any_locked());
    // The defaulted record is then cleared away with nothing left to thaw.
    assert_eq!(handle_close_loan(&mut tm, &loan, &key(BORROWER)), Ok(LockAction::Nothing));
}

#[test]
fn repossess_by_stranger_refused() {
    let mut tm = TokenManager::new(255);
    let mut loan = listed_loan(&mut tm);
    handle_give_loan(&mut loan, &key(LENDER), 0).unwrap();
    assert_eq!(
        handle_repossess(&mut tm, &mut loan, &key(7), 10_000_000).err(),
        Some(DexloanError::IdentityMismatch)
    );
}

#[test]
fn repay_listed_loan_refused() {
    let mut tm = TokenManager::new(255);
    let loan = listed_loan(&mut tm);
    assert_eq!(
        handle_repay_loan(&mut tm, &loan, &key(BORROWER), 0, true).err(),
        Some(DexloanError::InvalidState)
    );
    assert!(tm.accounts.loan);
}

#[test]
fn repay_by_other_refused() {
    let mut tm = TokenManager::new(255);
    let mut loan = listed_loan(&mut tm);
    handle_give_loan(&mut loan, &key(LENDER), 0).unwrap();
    assert_eq!(
        handle_repay_loan(&mut tm, &loan, &key(LENDER), 0, true).err(),
        Some(DexloanError::IdentityMismatch)
    );
}

#[test]
fn borrower_cannot_fund_own_loan() {
    let mut tm = TokenManager::new(255);
    let mut loan = listed_loan(&mut tm);
    assert_eq!(
        handle_give_loan(&mut loan, &key(BORROWER), 0).err(),
        Some(DexloanError::IdentityMismatch)
    );
    assert!(loan.state == LoanState::Listed);
}

#[test]
fn fund_active_loan_refused() {
    let mut tm = TokenManager::new(255);
    let mut loan = listed_loan(&mut tm);
    handle_give_loan(&mut loan, &key(LENDER), 0).unwrap();
    assert_eq!(handle_give_loan(&mut loan, &key(3), 5).err(), Some(DexloanError::InvalidState));
}

#[test]
fn loan_on_optioned_token_refused() {
    let mut tm = TokenManager::new(255);
    tm.acquire(ClaimKind::CallOption);
    let r = handle_init_loan(
        &mut tm,
        &key(MANAGER),
        &undelegated(),
        &key(BORROWER),
        &key(MINT),
        1,
        1,
        1,
        1,
    );
    assert_eq!(r.err(), Some(DexloanError::ConflictingClaim));
    assert!(!tm.accounts.loan);
}

#[test]
fn loan_with_foreign_frozen_delegate_refused() {
    let mut tm = TokenManager::new(255);
    let account = TokenAccountState { delegate: Some(key(4)), delegated_amount: 1, is_frozen: true };
    let r = handle_init_loan(&mut tm, &key(MANAGER), &account, &key(BORROWER), &key(MINT), 1, 1, 1, 1);
    assert_eq!(r.err(), Some(DexloanError::InvalidDelegate));
    assert!(!tm.accounts.any_locked());
}

#[test]
fn close_listed_loan_thaws() {
    let mut tm = TokenManager::new(255);
    let loan = listed_loan(&mut tm);
    assert_eq!(handle_close_loan(&mut tm, &loan, &key(BORROWER)), Ok(LockAction::ThawAndRevoke));
    assert!(!tm.accounts.any_locked());
}

#[test]
fn close_active_loan_refused() {
    let mut tm = TokenManager::new(255);
    let mut loan = listed_loan(&mut tm);
    handle_give_loan(&mut loan, &key(LENDER), 0).unwrap();
    assert_eq!(
        handle_close_loan(&mut tm, &loan, &key(BORROWER)).err(),
        Some(DexloanError::InvalidState)
    );
}

#[test]
fn space_of_loan() {
    assert_eq!(Loan::space(), 198);
}

#[test]
fn repayment_owes_same_whenever_paid() {
    let mut tm = TokenManager::new(255);
    let mut loan = listed_loan(&mut tm);
    handle_give_loan(&mut loan, &key(LENDER), 0).unwrap();
    let early = handle_repay_loan(&mut tm.clone(), &loan, &key(BORROWER), 1, false).unwrap();
    let last = handle_repay_loan(&mut tm.clone(), &loan, &key(BORROWER), 7_884_000 - 1, false).unwrap();
    assert_eq!(early.payment.amount, 1_025_000);
    assert_eq!(last.payment.amount, 1_025_000);
}

#[test]
fn late_repayment_follows_policy() {
    let mut tm = TokenManager::new(255);
    let mut loan = listed_loan(&mut tm);
    handle_give_loan(&mut loan, &key(LENDER), 0).unwrap();
    assert_eq!(
        handle_repay_loan(&mut tm, &loan, &key(BORROWER), 7_884_000, false).err(),
        Some(DexloanError::RepaymentOverdue)
    );
    assert!(tm.accounts.loan);
    let late = handle_repay_loan(&mut tm, &loan, &key(BORROWER), 7_884_000, true).unwrap();
    assert_eq!(late.payment.amount, 1_025_000);
    assert!(!tm.accounts.loan);
}
