use dexloan::error::DexloanError;
use dexloan::hire::{
    earned_share, handle_close_hire, handle_extend_hire, handle_init_hire, handle_recover_hire,
    handle_take_hire, handle_withdraw_from_hire_escrow, Hire, HireArgs, HireState,
    SECONDS_PER_DAY,
};
use dexloan::key::AccountKey;
use dexloan::token_manager::{DelegationPlan, LockAction, TokenAccountState, TokenManager};

fn key(n: u8) -> AccountKey {
    AccountKey::new([n; 32])
}

const MANAGER: u8 = 9;
const LENDER: u8 = 1;
const BORROWER: u8 = 2;
const MINT: u8 = 5;
const NOW: i64 = 1_000_000;

fn undelegated() -> TokenAccountState {
    TokenAccountState { delegate: None, delegated_amount: 0, is_frozen: false }
}

fn open_hire(tm: &mut TokenManager, amount: u64, borrower: Option<AccountKey>) -> Hire {
    let args = HireArgs { amount, expiry: NOW + 30 * SECONDS_PER_DAY, borrower };
    let (hire, plan) =
        handle_init_hire(tm, &key(MANAGER), &undelegated(), &key(LENDER), &key(MINT), &args, NOW, 7)
            .unwrap();
    assert_eq!(plan, DelegationPlan::DelegateAndFreeze { revoke_first: false });
    hire
}

#[test]
fn hire_take_pays_escrow_up_front() {
    let mut tm = TokenManager::new(1);
    let mut hire = open_hire(&mut tm, 100, None);
    assert!(hire.state == HireState::Listed && tm.accounts.hire);
    let taken = handle_take_hire(&mut hire, &key(BORROWER), 5, NOW).unwrap();
    assert_eq!(taken.escrow_payment, 500);
    assert_eq!(hire.escrow_balance, 500);
    assert!(hire.state == HireState::Hired);
    assert_eq!(hire.current_start, Some(NOW));
    assert_eq!(hire.current_expiry, Some(NOW + 5 * SECONDS_PER_DAY));
    assert!(hire.borrower == Some(key(BORROWER)));
    assert!(taken.token.from == key(LENDER) && taken.token.to == key(BORROWER));
    assert!(taken.token.refreeze);
}

#[test]
fn hire_take_past_expiry_refused() {
    let mut tm = TokenManager::new(1);
    let mut hire = open_hire(&mut tm, 100, None);
    assert_eq!(
        handle_take_hire(&mut hire, &key(BORROWER), 31, NOW).err(),
        Some(DexloanError::InvalidExpiry)
    );
    assert!(hire.state == HireState::Listed && hire.borrower.is_none());
}

#[test]
fn hire_take_by_other_than_named_refused() {
    let mut tm = TokenManager::new(1);
    let mut hire = open_hire(&mut tm, 0, Some(key(BORROWER)));
    assert_eq!(
        handle_take_hire(&mut hire, &key(3), 1, NOW).err(),
        Some(DexloanError::IdentityMismatch)
    );
    let taken = handle_take_hire(&mut hire, &key(BORROWER), 1, NOW).unwrap();
    assert_eq!(taken.escrow_payment, 0);
}

#[test]
fn hire_retake_refused() {
    let mut tm = TokenManager::new(1);
    let mut hire = open_hire(&mut tm, 100, None);
    handle_take_hire(&mut hire, &key(BORROWER), 1, NOW).unwrap();
    assert_eq!(
        handle_take_hire(&mut hire, &key(BORROWER), 1, NOW).err(),
        Some(DexloanError::InvalidState)
    );
}

#[test]
fn free_open_hire_refused() {
    let mut tm = TokenManager::new(1);
    let args = HireArgs { amount: 0, expiry: NOW + 10, borrower: None };
    let r = handle_init_hire(&mut tm, &key(MANAGER), &undelegated(), &key(LENDER), &key(MINT), &args, NOW, 7);
    assert_eq!(r.err(), Some(DexloanError::BorrowerNotSpecified));
    assert!(!tm.accounts.hire);
}

#[test]
fn hire_expiring_now_refused() {
    let mut tm = TokenManager::new(1);
    let args = HireArgs { amount: 5, expiry: NOW, borrower: None };
    let r = handle_init_hire(&mut tm, &key(MANAGER), &undelegated(), &key(LENDER), &key(MINT), &args, NOW, 7);
    assert_eq!(r.err(), Some(DexloanError::InvalidExpiry));
}

#[test]
fn second_hire_refused() {
    let mut tm = TokenManager::new(1);
    open_hire(&mut tm, 100, None);
    let args = HireArgs { amount: 5, expiry: NOW + 100, borrower: None };
    let r = handle_init_hire(&mut tm, &key(MANAGER), &undelegated(), &key(LENDER), &key(MINT), &args, NOW, 7);
    assert_eq!(r.err(), Some(DexloanError::ConflictingClaim));
}

#[test]
fn hire_recover_before_end_refused() {
    let mut tm = TokenManager::new(1);
    let mut hire = open_hire(&mut tm, 100, None);
    handle_take_hire(&mut hire, &key(BORROWER), 2, NOW).unwrap();
    let end = NOW + 2 * SECONDS_PER_DAY;
    assert_eq!(
        handle_recover_hire(&mut hire, &key(LENDER), end - 1).err(),
        Some(DexloanError::NotExpired)
    );
    assert_eq!(hire.escrow_balance, 200);
    let recovered = handle_recover_hire(&mut hire, &key(LENDER), end).unwrap();
    assert_eq!(recovered.escrow_payment, 200);
    assert!(recovered.token.from == key(BORROWER) && recovered.token.to == key(LENDER));
    assert!(hire.state == HireState::Listed && hire.borrower.is_none());
    assert_eq!(hire.escrow_balance, 0);
    assert_eq!(hire.current_start, None);
    assert_eq!(hire.current_expiry, None);
}

#[test]
fn escrow_withdrawals_pay_elapsed_share() {
    let mut tm = TokenManager::new(1);
    let mut hire = open_hire(&mut tm, 100, None);
    handle_take_hire(&mut hire, &key(BORROWER), 7, NOW).unwrap();
    let day = SECONDS_PER_DAY;
    // 700 in escrow over seven days: three days earn 300.
    let first = handle_withdraw_from_hire_escrow(&mut hire, &key(LENDER), NOW + 3 * day).unwrap();
    assert_eq!(first.paid, 300);
    assert_eq!(first.remaining, 400);
    assert_eq!(hire.current_start, Some(NOW + 3 * day));
    // Withdrawing again at once pays nothing more.
    let again = handle_withdraw_from_hire_escrow(&mut hire, &key(LENDER), NOW + 3 * day).unwrap();
    assert_eq!(again.paid, 0);
    let second = handle_withdraw_from_hire_escrow(&mut hire, &key(LENDER), NOW + 5 * day).unwrap();
    assert_eq!(second.paid, 200);
    // One withdrawal at the same moment would have paid the same.
    assert_eq!(earned_share(700, NOW, NOW + 7 * day, NOW + 5 * day), 500);
    // After the end, the rest.
    let last = handle_withdraw_from_hire_escrow(&mut hire, &key(LENDER), NOW + 9 * day).unwrap();
    assert_eq!(last.paid, 200);
    assert_eq!(hire.escrow_balance, 0);
}

#[test]
fn split_withdrawal_within_a_lamport() {
    // 100 over seven seconds: 42 at three seconds, then 29 of the 58 left at five.
    let first = earned_share(100, 0, 7, 3);
    assert_eq!(first, 42);
    let second = earned_share(100 - first, 3, 7, 5);
    assert_eq!(second, 29);
    assert_eq!(earned_share(100, 0, 7, 5), 71);
    // 10 over three seconds: 3 at one second, then 3 of the 7 left at two,
    // the same as a single withdrawal of 6.
    let a = earned_share(10, 0, 3, 1);
    let b = earned_share(10 - a, 1, 3, 2);
    assert_eq!(a + b, 6);
    assert_eq!(earned_share(10, 0, 3, 2), 6);
    assert_eq!(earned_share(10, 0, 3, 0), 0);
    assert_eq!(earned_share(10, 0, 3, 3), 10);
}

#[test]
fn withdraw_by_other_refused() {
    let mut tm = TokenManager::new(1);
    let mut hire = open_hire(&mut tm, 100, None);
    handle_take_hire(&mut hire, &key(BORROWER), 1, NOW).unwrap();
    assert_eq!(
        handle_withdraw_from_hire_escrow(&mut hire, &key(BORROWER), NOW + 10).err(),
        Some(DexloanError::IdentityMismatch)
    );
}

#[test]
fn withdraw_without_period_refused() {
    let mut tm = TokenManager::new(1);
    let mut hire = open_hire(&mut tm, 100, None);
    assert_eq!(
        handle_withdraw_from_hire_escrow(&mut hire, &key(LENDER), NOW + 10).err(),
        Some(DexloanError::InvalidState)
    );
}

#[test]
fn hire_extend_pushes_end_and_pays() {
    let mut tm = TokenManager::new(1);
    let mut hire = open_hire(&mut tm, 100, None);
    handle_take_hire(&mut hire, &key(BORROWER), 2, NOW).unwrap();
    assert_eq!(handle_extend_hire(&mut hire, &key(BORROWER), 3), Ok(300));
    assert_eq!(hire.current_expiry, Some(NOW + 5 * SECONDS_PER_DAY));
    assert_eq!(hire.escrow_balance, 500);
    assert_eq!(
        handle_extend_hire(&mut hire, &key(3), 1).err(),
        Some(DexloanError::IdentityMismatch)
    );
}

#[test]
fn hire_extend_listed_refused() {
    let mut tm = TokenManager::new(1);
    let mut hire = open_hire(&mut tm, 100, None);
    assert_eq!(
        handle_extend_hire(&mut hire, &key(BORROWER), 1).err(),
        Some(DexloanError::InvalidState)
    );
}

#[test]
fn hire_fee_overflow_refused() {
    let mut tm = TokenManager::new(1);
    let args = HireArgs { amount: u64::MAX, expiry: NOW + 30 * SECONDS_PER_DAY, borrower: None };
    let (mut hire, _) =
        handle_init_hire(&mut tm, &key(MANAGER), &undelegated(), &key(LENDER), &key(MINT), &args, NOW, 7)
            .unwrap();
    assert_eq!(
        handle_take_hire(&mut hire, &key(BORROWER), 2, NOW).err(),
        Some(DexloanError::NumericalOverflow)
    );
}

#[test]
fn close_open_hire_thaws() {
    let mut tm = TokenManager::new(1);
    let hire = open_hire(&mut tm, 100, None);
    assert_eq!(handle_close_hire(&mut tm, &hire, &key(LENDER)), Ok(LockAction::ThawAndRevoke));
    assert!(!tm.accounts.any_locked());
}

#[test]
fn close_promised_hire_refused() {
    let mut tm = TokenManager::new(1);
    let hire = open_hire(&mut tm, 100, Some(key(BORROWER)));
    assert_eq!(
        handle_close_hire(&mut tm, &hire, &key(LENDER)).err(),
        Some(DexloanError::InvalidState)
    );
    assert!(tm.accounts.hire);
}

#[test]
fn space_of_hire() {
    assert_eq!(Hire::space(), 149);
}

#[test]
fn escrow_payment_for_days() {
    let mut tm = TokenManager::new(1);
    let mut hire = open_hire(&mut tm, 250, None);
    assert_eq!(dexloan::hire::process_payment_to_hire_escrow(&mut hire, 4), Ok(1_000));
    assert_eq!(hire.escrow_balance, 1_000);
    hire.escrow_balance = u64::MAX;
    assert_eq!(
        dexloan::hire::process_payment_to_hire_escrow(&mut hire, 1),
        Err(DexloanError::NumericalOverflow)
    );
    assert_eq!(hire.escrow_balance, u64::MAX);
}

#[test]
fn settlement_splits_escrow() {
    let mut tm = TokenManager::new(1);
    let mut hire = open_hire(&mut tm, 100, None);
    handle_take_hire(&mut hire, &key(BORROWER), 4, NOW).unwrap();
    assert_eq!(
        dexloan::hire::calculate_widthdawl_amount(&hire, NOW + SECONDS_PER_DAY),
        Ok(100)
    );
    let s = dexloan::hire::settle_hire_escrow_balance(&mut hire, &key(LENDER), NOW + SECONDS_PER_DAY)
        .unwrap();
    assert_eq!(s.to_lender, 100);
    assert_eq!(s.to_borrower, 300);
    assert!(s.borrower == Some(key(BORROWER)));
    assert_eq!(hire.escrow_balance, 0);
    assert_eq!(hire.current_start, Some(NOW + SECONDS_PER_DAY));
}
