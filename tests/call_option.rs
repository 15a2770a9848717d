use dexloan::call_option::{
    handle_buy_call_option, handle_close_call_option, handle_exercise_call_option,
    handle_exercise_call_option_with_hire, handle_init_call_option,
    handle_init_call_option_with_hire, CallOption, CallOptionState,
};
use dexloan::error::DexloanError;
use dexloan::hire::{handle_init_hire, handle_take_hire, HireArgs, HireState, SECONDS_PER_DAY};
use dexloan::key::AccountKey;
use dexloan::loan::handle_init_loan_with_hire;
use dexloan::metadata::{assert_metadata_valid, pay_creator_fees, AssetMetadata, Creator};
use dexloan::token_manager::{ClaimKind, LockAction, TokenAccountState, TokenManager};

fn key(n: u8) -> AccountKey {
    AccountKey::new([n; 32])
}

const MANAGER: u8 = 9;
const SELLER: u8 = 1;
const HIRER: u8 = 2;
const BUYER: u8 = 3;
const CREATOR: u8 = 4;
const MINT: u8 = 5;
const NOW: i64 = 1_000_000;

fn undelegated() -> TokenAccountState {
    TokenAccountState { delegate: None, delegated_amount: 0, is_frozen: false }
}

fn metadata_address(mint: &AccountKey) -> AccountKey {
    let mint = anchor_lang::prelude::Pubkey::new_from_array(mint.bytes);
    let (address, _) = mpl_token_metadata::pda::find_metadata_account(&mint);
    AccountKey::new(address.to_bytes())
}

fn metadata() -> AssetMetadata {
    AssetMetadata {
        mint: key(MINT),
        seller_fee_basis_points: 500,
        creators: Some(vec![Creator { address: key(CREATOR), share: 100 }]),
        collection: None,
    }
}

fn listed_option(tm: &mut TokenManager) -> CallOption {
    let (option, _) = handle_init_call_option(
        tm,
        &key(MANAGER),
        &undelegated(),
        &key(SELLER),
        &key(MINT),
        1_000,
        1_000_000,
        NOW + 10 * SECONDS_PER_DAY,
        NOW,
        3,
    )
    .unwrap();
    option
}

#[test]
fn metadata_address_is_derived_from_mint() {
    let derived = metadata_address(&key(MINT));
    assert!(derived != key(MINT));
    assert_eq!(assert_metadata_valid(&derived, false, &key(MINT)), Ok(()));
    assert_eq!(
        assert_metadata_valid(&key(MINT), false, &key(MINT)),
        Err(DexloanError::DerivedKeyInvalid)
    );
    assert_eq!(
        assert_metadata_valid(&derived, true, &key(MINT)),
        Err(DexloanError::MetadataDoesntExist)
    );
}

#[test]
fn creator_fees_paid_from_payer() {
    let fees = pay_creator_fees(
        1_000_000,
        &key(MINT),
        &metadata_address(&key(MINT)),
        false,
        &metadata(),
        &key(BUYER),
    )
    .unwrap();
    assert_eq!(fees.remaining, 950_000);
    assert_eq!(fees.payments.len(), 1);
    assert!(fees.payments[0].from == key(BUYER) && fees.payments[0].to == key(CREATOR));
    assert_eq!(fees.payments[0].amount, 50_000);
}

#[test]
fn creator_fees_wrong_mint_refused() {
    let r = pay_creator_fees(10, &key(6), &metadata_address(&key(6)), false, &metadata(), &key(BUYER));
    assert_eq!(r.err(), Some(DexloanError::InvalidMint));
}

#[test]
fn zero_cuts_are_not_paid() {
    let md = AssetMetadata {
        mint: key(MINT),
        seller_fee_basis_points: 100,
        creators: Some(vec![
            Creator { address: key(CREATOR), share: 0 },
            Creator { address: key(8), share: 100 },
        ]),
        collection: None,
    };
    let fees =
        pay_creator_fees(1_000, &key(MINT), &metadata_address(&key(MINT)), false, &md, &key(BUYER))
            .unwrap();
    assert_eq!(fees.payments.len(), 1);
    assert!(fees.payments[0].to == key(8));
    assert_eq!(fees.payments[0].amount, 10);
    assert_eq!(fees.remaining, 990);
}

#[test]
fn option_bought_and_exercised() {
    let mut tm = TokenManager::new(1);
    let mut option = listed_option(&mut tm);
    assert!(tm.accounts.call_option);
    let premium = handle_buy_call_option(&mut option, &key(BUYER)).unwrap();
    assert!(premium.from == key(BUYER) && premium.to == key(SELLER));
    assert_eq!(premium.amount, 1_000);
    assert!(option.state == CallOptionState::Active);
    let ex = handle_exercise_call_option(
        &mut tm,
        &mut option,
        &key(BUYER),
        &metadata_address(&key(MINT)),
        false,
        &metadata(),
        NOW + 10 * SECONDS_PER_DAY,
    )
    .unwrap();
    assert_eq!(ex.royalties.len(), 1);
    assert_eq!(ex.royalties[0].amount, 50_000);
    assert_eq!(ex.payment.amount, 950_000);
    assert!(ex.payment.to == key(SELLER));
    assert!(ex.token.from == key(SELLER) && ex.token.to == key(BUYER));
    assert!(option.state == CallOptionState::Exercised);
    assert!(!tm.accounts.any_locked());
}

#[test]
fn exercise_after_expiry_refused() {
    let mut tm = TokenManager::new(1);
    let mut option = listed_option(&mut tm);
    handle_buy_call_option(&mut option, &key(BUYER)).unwrap();
    let r = handle_exercise_call_option(
        &mut tm,
        &mut option,
        &key(BUYER),
        &metadata_address(&key(MINT)),
        false,
        &metadata(),
        NOW + 10 * SECONDS_PER_DAY + 1,
    );
    assert_eq!(r.err(), Some(DexloanError::OptionExpired));
    assert!(option.state == CallOptionState::Active);
    assert!(tm.accounts.call_option);
}

#[test]
fn exercise_with_empty_metadata_refused() {
    let mut tm = TokenManager::new(1);
    let mut option = listed_option(&mut tm);
    handle_buy_call_option(&mut option, &key(BUYER)).unwrap();
    let r = handle_exercise_call_option(
        &mut tm,
        &mut option,
        &key(BUYER),
        &metadata_address(&key(MINT)),
        true,
        &metadata(),
        NOW,
    );
    assert_eq!(r.err(), Some(DexloanError::MetadataDoesntExist));
}

#[test]
fn seller_cannot_buy_own_option() {
    let mut tm = TokenManager::new(1);
    let mut option = listed_option(&mut tm);
    assert_eq!(
        handle_buy_call_option(&mut option, &key(SELLER)).err(),
        Some(DexloanError::IdentityMismatch)
    );
}

#[test]
fn close_active_option_before_expiry_refused() {
    let mut tm = TokenManager::new(1);
    let mut option = listed_option(&mut tm);
    handle_buy_call_option(&mut option, &key(BUYER)).unwrap();
    let expiry = NOW + 10 * SECONDS_PER_DAY;
    assert_eq!(
        handle_close_call_option(&mut tm, &option, &key(SELLER), expiry).err(),
        Some(DexloanError::OptionNotExpired)
    );
    assert_eq!(
        handle_close_call_option(&mut tm, &option, &key(SELLER), expiry + 1),
        Ok(LockAction::ThawAndRevoke)
    );
}

#[test]
fn option_on_loaned_token_refused() {
    let mut tm = TokenManager::new(1);
    tm.acquire(ClaimKind::Loan);
    let r = handle_init_call_option(
        &mut tm,
        &key(MANAGER),
        &undelegated(),
        &key(SELLER),
        &key(MINT),
        1,
        1,
        NOW + 1,
        NOW,
        3,
    );
    assert_eq!(r.err(), Some(DexloanError::ConflictingClaim));
    assert!(!tm.accounts.call_option);
}

#[test]
fn option_expiring_now_refused() {
    let mut tm = TokenManager::new(1);
    let r = handle_init_call_option(
        &mut tm,
        &key(MANAGER),
        &undelegated(),
        &key(SELLER),
        &key(MINT),
        1,
        1,
        NOW,
        NOW,
        3,
    );
    assert_eq!(r.err(), Some(DexloanError::InvalidExpiry));
}

#[test]
fn option_exercised_while_hired() {
    let mut tm = TokenManager::new(1);
    let args = HireArgs { amount: 100, expiry: NOW + 30 * SECONDS_PER_DAY, borrower: None };
    let (mut hire, _) = handle_init_hire(
        &mut tm,
        &key(MANAGER),
        &undelegated(),
        &key(SELLER),
        &key(MINT),
        &args,
        NOW,
        2,
    )
    .unwrap();
    handle_take_hire(&mut hire, &key(HIRER), 5, NOW).unwrap();
    assert_eq!(hire.escrow_balance, 500);

    let mut option = handle_init_call_option_with_hire(
        &mut tm,
        &hire,
        &key(SELLER),
        &key(MINT),
        1_000,
        1_000_000,
        NOW + 10 * SECONDS_PER_DAY,
        NOW,
        3,
    )
    .unwrap();
    assert!(tm.accounts.hire && tm.accounts.call_option);
    // A loan cannot join a call option on the same token.
    assert_eq!(
        handle_init_loan_with_hire(&mut tm, &hire, &key(SELLER), &key(MINT), 1, 1, 1, 1).err(),
        Some(DexloanError::ConflictingClaim)
    );
    handle_buy_call_option(&mut option, &key(BUYER)).unwrap();

    // Exercised two days into the five-day hire.
    let ex = handle_exercise_call_option_with_hire(
        &mut tm,
        &mut option,
        &mut hire,
        &key(BUYER),
        &metadata_address(&key(MINT)),
        false,
        &metadata(),
        NOW + 2 * SECONDS_PER_DAY,
    )
    .unwrap();
    assert_eq!(ex.royalties.len(), 1);
    assert!(ex.royalties[0].to == key(CREATOR));
    assert_eq!(ex.royalties[0].amount, 50_000);
    assert_eq!(ex.payment.amount, 950_000);
    let settlement = ex.settlement.unwrap();
    assert_eq!(settlement.to_lender, 200);
    assert_eq!(settlement.to_borrower, 300);
    assert!(settlement.borrower == Some(key(HIRER)));
    assert_eq!(hire.escrow_balance, 0);
    assert!(ex.token.from == key(HIRER) && ex.token.to == key(BUYER));
    assert!(!ex.token.refreeze);
    assert!(option.state == CallOptionState::Exercised);
    assert!(!tm.accounts.any_locked());
}

#[test]
fn option_with_hire_needs_hired_token() {
    let mut tm = TokenManager::new(1);
    let args = HireArgs { amount: 100, expiry: NOW + 30 * SECONDS_PER_DAY, borrower: None };
    let (hire, _) = handle_init_hire(
        &mut tm,
        &key(MANAGER),
        &undelegated(),
        &key(SELLER),
        &key(MINT),
        &args,
        NOW,
        2,
    )
    .unwrap();
    assert!(hire.state == HireState::Listed);
    let r = handle_init_call_option_with_hire(
        &mut tm,
        &hire,
        &key(SELLER),
        &key(MINT),
        1,
        1,
        NOW + 1,
        NOW,
        3,
    );
    assert_eq!(r.err(), Some(DexloanError::InvalidState));
}

#[test]
fn space_of_call_option() {
    assert_eq!(CallOption::space(), 194);
}
