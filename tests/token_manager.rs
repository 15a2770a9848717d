use dexloan::error::DexloanError;
use dexloan::key::AccountKey;
use dexloan::token_manager::{
    plan_delegation, ClaimKind, DelegationPlan, LockAction, TokenAccountState, TokenManager,
};

fn key(n: u8) -> AccountKey {
    AccountKey::new([n; 32])
}

#[test]
fn keys_compare_by_bytes() {
    assert!(key(1) == key(1));
    assert!(key(1) != key(2));
    let mut bytes = [7u8; 32];
    bytes[31] = 8;
    assert!(AccountKey::new(bytes) != key(7));
    assert!(key(7).same(&AccountKey::new([7u8; 32])));
}

#[test]
fn freeze_only_when_first_lock_taken() {
    let mut tm = TokenManager::new(254);
    assert_eq!(tm.acquire(ClaimKind::Hire), LockAction::DelegateAndFreeze);
    assert_eq!(tm.acquire(ClaimKind::Loan), LockAction::Nothing);
    assert!(tm.accounts.hire && tm.accounts.loan && !tm.accounts.call_option);
    assert_eq!(tm.bump, 254);
}

#[test]
fn thaw_only_when_last_lock_dropped() {
    let mut tm = TokenManager::new(1);
    tm.acquire(ClaimKind::Hire);
    tm.acquire(ClaimKind::CallOption);
    assert_eq!(tm.release(ClaimKind::CallOption), LockAction::Nothing);
    assert!(tm.accounts.hire);
    assert_eq!(tm.release(ClaimKind::Hire), LockAction::ThawAndRevoke);
    assert!(!tm.accounts.any_locked());
}

#[test]
fn frozen_state_tracks_locks_over_a_sequence() {
    let mut tm = TokenManager::new(0);
    let mut frozen = false;
    let steps = [
        (true, ClaimKind::Loan),
        (true, ClaimKind::Hire),
        (false, ClaimKind::Loan),
        (true, ClaimKind::CallOption),
        (false, ClaimKind::Hire),
        (false, ClaimKind::CallOption),
        (true, ClaimKind::Hire),
        (false, ClaimKind::Hire),
    ];
    for (take, kind) in steps {
        let action = if take { tm.acquire(kind) } else { tm.release(kind) };
        match action {
            LockAction::DelegateAndFreeze => {
                assert!(!frozen);
                frozen = true;
            }
            LockAction::ThawAndRevoke => {
                assert!(frozen);
                frozen = false;
            }
            LockAction::Nothing => {}
        }
        assert_eq!(frozen, tm.accounts.any_locked());
    }
}

#[test]
fn delegation_when_undelegated() {
    let account = TokenAccountState { delegate: None, delegated_amount: 0, is_frozen: false };
    assert_eq!(
        plan_delegation(&account, &key(9)),
        Ok(DelegationPlan::DelegateAndFreeze { revoke_first: false })
    );
}

#[test]
fn delegation_revokes_foreign_delegate() {
    let account = TokenAccountState { delegate: Some(key(3)), delegated_amount: 1, is_frozen: false };
    assert_eq!(
        plan_delegation(&account, &key(9)),
        Ok(DelegationPlan::DelegateAndFreeze { revoke_first: true })
    );
}

#[test]
fn delegation_refuses_frozen_foreign_delegate() {
    let account = TokenAccountState { delegate: Some(key(3)), delegated_amount: 1, is_frozen: true };
    assert_eq!(plan_delegation(&account, &key(9)), Err(DexloanError::InvalidDelegate));
}

#[test]
fn delegation_refuses_wrong_amount() {
    let account = TokenAccountState { delegate: Some(key(9)), delegated_amount: 2, is_frozen: true };
    assert_eq!(plan_delegation(&account, &key(9)), Err(DexloanError::InvalidDelegate));
}

#[test]
fn delegation_keeps_existing_freeze() {
    let account = TokenAccountState { delegate: Some(key(9)), delegated_amount: 1, is_frozen: true };
    assert_eq!(plan_delegation(&account, &key(9)), Ok(DelegationPlan::Keep));
}

#[test]
fn space_of_token_manager() {
    assert_eq!(TokenManager::space(), 149);
}
