use vstd::prelude::*;
use crate::error::DexloanError;
use crate::hire::{
    Hire, HireState, Settlement, after_withdrawal, hire_earned, hire_holder, holder_of,
    settle_hire_escrow_balance,
};
use crate::key::AccountKey;
use crate::metadata::{
    AssetMetadata, Payment, creator_fees_refusal, creator_payments, pay_creator_fees, payment_view,
    seller_proceeds,
};
use crate::token_manager::{
    AccountState, ClaimKind, DelegationPlan, LockAction, TokenAccountState, TokenManager, TokenMove,
    delegation_outcome, plan_delegation, release_action,
};

verus! {

/// Where a call option stands.
#[derive(Clone, Copy, Debug, PartialEq, Eq, Structural)]
pub enum CallOptionState {
    /// Offered by the seller, not yet bought.
    Listed,
    /// Bought: the buyer may exercise it until expiry.
    Active,
    /// Exercised: the buyer paid the strike price and took the token.
    Exercised,
}

/// The right to buy a token at a strike price until an expiry.
#[derive(Clone, Copy, Debug)]
pub struct CallOption {
    pub state: CallOptionState,
    /// The premium the buyer pays for the option, in lamports.
    pub amount: u64,
    /// The owner of the token, who writes the option.
    pub seller: AccountKey,
    /// Who bought the option; meaningful once it is active.
    pub buyer: AccountKey,
    /// The last moment at which the option may be exercised.
    pub expiry: i64,
    /// The price at which the buyer may take the token, in lamports.
    pub strike_price: u64,
    /// The mint of the token.
    pub mint: AccountKey,
    pub bump: u8,
}

impl CallOption {
    /// Bytes that a call option account takes on chain.
    pub fn space() -> (r: usize)
        ensures
            r == 8 + 1 + 8 + 32 + 32 + 8 + 8 + 32 + 64 + 1,
    {
        8 + 1 + 8 + 32 + 32 + 8 + 8 + 32 + 64 + 1
    }
}

/// A freshly listed call option with the given terms.
pub open spec fn listed_option(
    seller: AccountKey,
    mint: AccountKey,
    amount: u64,
    strike_price: u64,
    expiry: i64,
    bump: u8,
    buyer: AccountKey,
) -> CallOption {
    CallOption {
        state: CallOptionState::Listed,
        amount,
        seller,
        buyer,
        expiry,
        strike_price,
        mint,
        bump,
    }
}

/// Why writing a call option on an unencumbered token is refused, if it is.
pub open spec fn init_option_refusal(
    locks: AccountState,
    manager: Seq<u8>,
    deposit: TokenAccountState,
    expiry: i64,
    now: i64,
) -> Option<DexloanError> {
    if expiry <= now {
        Some(DexloanError::InvalidExpiry)
    } else if locks.is_locked() {
        Some(DexloanError::ConflictingClaim)
    } else if delegation_outcome(deposit, manager) is Err {
        Some(delegation_outcome(deposit, manager)->Err_0)
    } else {
        None
    }
}

/// `seller` writes a call option on a token that no claim holds: a premium
/// of `amount`, a strike price, and an expiry that must lie after `now`. The
/// token manager takes the call option lock, and the seller's token account
/// `deposit` is frozen and delegated to the manager at `manager`.
pub fn handle_init_call_option(
    token_manager: &mut TokenManager,
    manager: &AccountKey,
    deposit: &TokenAccountState,
    seller: &AccountKey,
    mint: &AccountKey,
    amount: u64,
    strike_price: u64,
    expiry: i64,
    now: i64,
    bump: u8,
) -> (r: Result<(CallOption, DelegationPlan), DexloanError>)
    requires
        old(token_manager).wf(),
    ensures
        final(token_manager).wf(),
        init_option_refusal(old(token_manager).accounts, manager@, *deposit, expiry, now) matches Some(
            e,
        ) ==> r == Err::<(CallOption, DelegationPlan), DexloanError>(e) && *final(token_manager)
            == *old(token_manager),
        init_option_refusal(old(token_manager).accounts, manager@, *deposit, expiry, now) is None
            ==> r is Ok,
        r matches Ok((option, plan)) ==> {
            &&& option == listed_option(
                *seller,
                *mint,
                amount,
                strike_price,
                expiry,
                bump,
                option.buyer,
            )
            &&& final(token_manager).accounts == old(token_manager).accounts.with(
                ClaimKind::CallOption,
                true,
            )
            &&& final(token_manager).bump == old(token_manager).bump
            &&& plan == delegation_outcome(*deposit, manager@)->Ok_0
        },
{
    if expiry <= now {
        return Err(DexloanError::InvalidExpiry);
    }
    if token_manager.accounts.any_locked() {
        return Err(DexloanError::ConflictingClaim);
    }
    let plan = match plan_delegation(deposit, manager) {
        Ok(p) => p,
        Err(e) => {
            return Err(e);
        },
    };
    token_manager.acquire(ClaimKind::CallOption);
    Ok(
        (
            CallOption {
                state: CallOptionState::Listed,
                amount,
                seller: *seller,
                buyer: *seller,
                expiry,
                strike_price,
                mint: *mint,
                bump,
            },
            plan,
        ),
    )
}

/// Why writing a call option on a hired-out token is refused, if it is.
pub open spec fn init_option_with_hire_refusal(
    locks: AccountState,
    hire: Hire,
    seller: Seq<u8>,
    expiry: i64,
    now: i64,
) -> Option<DexloanError> {
    if !locks.hire || hire.state != HireState::Hired {
        Some(DexloanError::InvalidState)
    } else if locks.call_option || locks.loan {
        Some(DexloanError::ConflictingClaim)
    } else if hire.lender@ != seller {
        Some(DexloanError::IdentityMismatch)
    } else if expiry <= now {
        Some(DexloanError::InvalidExpiry)
    } else {
        None
    }
}

/// The lender of a running hire writes a call option on the hired-out
/// token. The token stays frozen with the hire's borrower; the manager adds
/// the call option lock beside the hire lock.
pub fn handle_init_call_option_with_hire(
    token_manager: &mut TokenManager,
    hire: &Hire,
    seller: &AccountKey,
    mint: &AccountKey,
    amount: u64,
    strike_price: u64,
    expiry: i64,
    now: i64,
    bump: u8,
) -> (r: Result<CallOption, DexloanError>)
    requires
        old(token_manager).wf(),
    ensures
        final(token_manager).wf(),
        init_option_with_hire_refusal(old(token_manager).accounts, *hire, seller@, expiry, now)
            matches Some(e) ==> r == Err::<CallOption, DexloanError>(e) && *final(token_manager)
            == *old(token_manager),
        init_option_with_hire_refusal(old(token_manager).accounts, *hire, seller@, expiry, now)
            is None ==> r is Ok,
        r matches Ok(option) ==> {
            &&& option == listed_option(
                *seller,
                *mint,
                amount,
                strike_price,
                expiry,
                bump,
                option.buyer,
            )
            &&& final(token_manager).accounts == old(token_manager).accounts.with(
                ClaimKind::CallOption,
                true,
            )
            &&& final(token_manager).bump == old(token_manager).bump
        },
{
    if !token_manager.accounts.hire || hire.state != HireState::Hired {
        return Err(DexloanError::InvalidState);
    }
    if token_manager.accounts.call_option || token_manager.accounts.loan {
        return Err(DexloanError::ConflictingClaim);
    }
    if !hire.lender.same(seller) {
        return Err(DexloanError::IdentityMismatch);
    }
    if expiry <= now {
        return Err(DexloanError::InvalidExpiry);
    }
    token_manager.acquire(ClaimKind::CallOption);
    Ok(
        CallOption {
            state: CallOptionState::Listed,
            amount,
            seller: *seller,
            buyer: *seller,
            expiry,
            strike_price,
            mint: *mint,
            bump,
        },
    )
}

/// `buyer` buys a listed call option, paying the premium to the seller.
/// Nobody buys their own option.
pub fn handle_buy_call_option(call_option: &mut CallOption, buyer: &AccountKey) -> (r: Result<
    Payment,
    DexloanError,
>)
    ensures
        old(call_option).state != CallOptionState::Listed ==> r == Err::<Payment, DexloanError>(
            DexloanError::InvalidState,
        ),
        old(call_option).state == CallOptionState::Listed && buyer@ == old(call_option).seller@
            ==> r == Err::<Payment, DexloanError>(DexloanError::IdentityMismatch),
        r is Err ==> *final(call_option) == *old(call_option),
        (old(call_option).state == CallOptionState::Listed && buyer@ != old(call_option).seller@)
            <==> r is Ok,
        r matches Ok(p) ==> {
            &&& *final(call_option) == (CallOption {
                state: CallOptionState::Active,
                buyer: *buyer,
                ..*old(call_option)
            })
            &&& p.from@ == buyer@
            &&& p.to@ == old(call_option).seller@
            &&& p.amount == old(call_option).amount
        },
{
    if call_option.state != CallOptionState::Listed {
        return Err(DexloanError::InvalidState);
    }
    if buyer.same(&call_option.seller) {
        return Err(DexloanError::IdentityMismatch);
    }
    call_option.state = CallOptionState::Active;
    call_option.buyer = *buyer;
    Ok(Payment { from: *buyer, to: call_option.seller, amount: call_option.amount })
}

/// What exercising a call option asks of the ledger.
#[derive(Clone, Debug)]
pub struct Exercise {
    /// Royalties on the strike price, from the buyer to the creators.
    pub royalties: Vec<Payment>,
    /// The rest of the strike price, from the buyer to the seller.
    pub payment: Payment,
    /// The token goes to the buyer, free.
    pub token: TokenMove,
}

/// Why exercising a call option on an unencumbered token is refused, if it is.
pub open spec fn exercise_refusal(
    locks: AccountState,
    option: CallOption,
    buyer: Seq<u8>,
    metadata_address: Seq<u8>,
    metadata_is_empty: bool,
    metadata: AssetMetadata,
    now: i64,
) -> Option<DexloanError> {
    if option.buyer@ != buyer {
        Some(DexloanError::IdentityMismatch)
    } else if option.state != CallOptionState::Active || !locks.call_option || locks.hire {
        Some(DexloanError::InvalidState)
    } else if now > option.expiry {
        Some(DexloanError::OptionExpired)
    } else {
        creator_fees_refusal(
            option.strike_price,
            option.mint@,
            metadata_address,
            metadata_is_empty,
            metadata,
        )
    }
}

/// The buyer exercises an active call option by its expiry: the strike
/// price is paid, less the creators' royalties that the token's registry
/// record sets, to the seller; the option lock is dropped and the token
/// moves from the seller to the buyer.
pub fn handle_exercise_call_option(
    token_manager: &mut TokenManager,
    call_option: &mut CallOption,
    buyer: &AccountKey,
    metadata_address: &AccountKey,
    metadata_is_empty: bool,
    metadata: &AssetMetadata,
    now: i64,
) -> (r: Result<Exercise, DexloanError>)
    requires
        old(token_manager).wf(),
    ensures
        final(token_manager).wf(),
        exercise_refusal(
            old(token_manager).accounts,
            *old(call_option),
            buyer@,
            metadata_address@,
            metadata_is_empty,
            *metadata,
            now,
        ) matches Some(e) ==> {
            &&& r == Err::<Exercise, DexloanError>(e)
            &&& *final(token_manager) == *old(token_manager)
            &&& *final(call_option) == *old(call_option)
        },
        exercise_refusal(
            old(token_manager).accounts,
            *old(call_option),
            buyer@,
            metadata_address@,
            metadata_is_empty,
            *metadata,
            now,
        ) is None ==> r is Ok,
        r matches Ok(ex) ==> {
            &&& *final(call_option) == (CallOption {
                state: CallOptionState::Exercised,
                ..*old(call_option)
            })
            &&& final(token_manager).accounts == old(token_manager).accounts.with(
                ClaimKind::CallOption,
                false,
            )
            &&& !final(token_manager).accounts.is_locked()
            &&& final(token_manager).bump == old(token_manager).bump
            &&& ex.royalties@.map_values(|p: Payment| payment_view(p)) == creator_payments(
                buyer@,
                old(call_option).strike_price,
                *metadata,
            )
            &&& ex.payment.from@ == buyer@
            &&& ex.payment.to@ == old(call_option).seller@
            &&& ex.payment.amount == seller_proceeds(old(call_option).strike_price, *metadata)
            &&& ex.token.from@ == old(call_option).seller@
            &&& ex.token.to@ == buyer@
            &&& !ex.token.refreeze
        },
{
    if !call_option.buyer.same(buyer) {
        return Err(DexloanError::IdentityMismatch);
    }
    if call_option.state != CallOptionState::Active || !token_manager.accounts.call_option
        || token_manager.accounts.hire {
        return Err(DexloanError::InvalidState);
    }
    if now > call_option.expiry {
        return Err(DexloanError::OptionExpired);
    }
    let fees = match pay_creator_fees(
        call_option.strike_price,
        &call_option.mint,
        metadata_address,
        metadata_is_empty,
        metadata,
        buyer,
    ) {
        Ok(f) => f,
        Err(e) => {
            return Err(e);
        },
    };
    call_option.state = CallOptionState::Exercised;
    token_manager.release(ClaimKind::CallOption);
    Ok(
        Exercise {
            royalties: fees.payments,
            payment: Payment { from: *buyer, to: call_option.seller, amount: fees.remaining },
            token: TokenMove { from: call_option.seller, to: *buyer, refreeze: false },
        },
    )
}

/// What exercising a call option on a hired-out token asks of the ledger.
#[derive(Clone, Debug)]
pub struct ExerciseWithHire {
    /// Royalties on the strike price, from the buyer to the creators.
    pub royalties: Vec<Payment>,
    /// The rest of the strike price, from the buyer to the seller.
    pub payment: Payment,
    /// How the hire's escrow is wound up, when the token was hired out.
    pub settlement: Option<Settlement>,
    /// The token goes from whoever holds it to the buyer, free.
    pub token: TokenMove,
}

/// Why exercising a call option on a hired-out token is refused, if it is.
pub open spec fn exercise_with_hire_refusal(
    locks: AccountState,
    option: CallOption,
    hire: Hire,
    buyer: Seq<u8>,
    metadata_address: Seq<u8>,
    metadata_is_empty: bool,
    metadata: AssetMetadata,
    now: i64,
) -> Option<DexloanError> {
    if option.buyer@ != buyer || hire.lender@ != option.seller@ {
        Some(DexloanError::IdentityMismatch)
    } else if option.state != CallOptionState::Active || !locks.call_option || !locks.hire {
        Some(DexloanError::InvalidState)
    } else if now > option.expiry {
        Some(DexloanError::OptionExpired)
    } else {
        creator_fees_refusal(
            option.strike_price,
            option.mint@,
            metadata_address,
            metadata_is_empty,
            metadata,
        )
    }
}

/// The buyer exercises an active call option written on a token that its
/// seller has also offered for hire. Besides the sale, the hire ends: if
/// the token is hired, the seller is paid the escrow earned so far and the
/// hire's borrower is refunded the rest. Both locks are dropped, the token
/// moves from whoever holds it to the buyer, and the hire record is then
/// closed.
pub fn handle_exercise_call_option_with_hire(
    token_manager: &mut TokenManager,
    call_option: &mut CallOption,
    hire: &mut Hire,
    buyer: &AccountKey,
    metadata_address: &AccountKey,
    metadata_is_empty: bool,
    metadata: &AssetMetadata,
    now: i64,
) -> (r: Result<ExerciseWithHire, DexloanError>)
    requires
        old(token_manager).wf(),
        old(hire).wf(),
    ensures
        final(token_manager).wf(),
        exercise_with_hire_refusal(
            old(token_manager).accounts,
            *old(call_option),
            *old(hire),
            buyer@,
            metadata_address@,
            metadata_is_empty,
            *metadata,
            now,
        ) matches Some(e) ==> {
            &&& r == Err::<ExerciseWithHire, DexloanError>(e)
            &&& *final(token_manager) == *old(token_manager)
            &&& *final(call_option) == *old(call_option)
            &&& *final(hire) == *old(hire)
        },
        exercise_with_hire_refusal(
            old(token_manager).accounts,
            *old(call_option),
            *old(hire),
            buyer@,
            metadata_address@,
            metadata_is_empty,
            *metadata,
            now,
        ) is None ==> r is Ok,
        r matches Ok(ex) ==> {
            &&& *final(call_option) == (CallOption {
                state: CallOptionState::Exercised,
                ..*old(call_option)
            })
            &&& final(token_manager).accounts == old(token_manager).accounts.with(
                ClaimKind::CallOption,
                false,
            ).with(ClaimKind::Hire, false)
            &&& !final(token_manager).accounts.is_locked()
            &&& final(token_manager).bump == old(token_manager).bump
            &&& ex.royalties@.map_values(|p: Payment| payment_view(p)) == creator_payments(
                buyer@,
                old(call_option).strike_price,
                *metadata,
            )
            &&& ex.payment.from@ == buyer@
            &&& ex.payment.to@ == old(call_option).seller@
            &&& ex.payment.amount == seller_proceeds(old(call_option).strike_price, *metadata)
            &&& ex.token.from@ == hire_holder(*old(hire))
            &&& ex.token.to@ == buyer@
            &&& !ex.token.refreeze
            &&& old(hire).state == HireState::Hired ==> (ex.settlement matches Some(s) && {
                &&& s.to_lender == hire_earned(*old(hire), now as int)
                &&& s.to_borrower == old(hire).escrow_balance - s.to_lender
                &&& s.borrower == old(hire).borrower
                &&& *final(hire) == (Hire { escrow_balance: 0, ..after_withdrawal(*old(hire), now) })
            })
            &&& old(hire).state != HireState::Hired ==> ex.settlement is None && *final(hire)
                == *old(hire)
        },
{
    if !call_option.buyer.same(buyer) || !hire.lender.same(&call_option.seller) {
        return Err(DexloanError::IdentityMismatch);
    }
    if call_option.state != CallOptionState::Active || !token_manager.accounts.call_option
        || !token_manager.accounts.hire {
        return Err(DexloanError::InvalidState);
    }
    if now > call_option.expiry {
        return Err(DexloanError::OptionExpired);
    }
    let fees = match pay_creator_fees(
        call_option.strike_price,
        &call_option.mint,
        metadata_address,
        metadata_is_empty,
        metadata,
        buyer,
    ) {
        Ok(f) => f,
        Err(e) => {
            return Err(e);
        },
    };
    let from = holder_of(hire);
    let settlement = if hire.state == HireState::Hired {
        let seller = call_option.seller;
        match settle_hire_escrow_balance(hire, &seller, now) {
            Ok(s) => Some(s),
            Err(e) => {
                return Err(e);
            },
        }
    } else {
        None
    };
    call_option.state = CallOptionState::Exercised;
    token_manager.release(ClaimKind::CallOption);
    token_manager.release(ClaimKind::Hire);
    Ok(
        ExerciseWithHire {
            royalties: fees.payments,
            payment: Payment { from: *buyer, to: call_option.seller, amount: fees.remaining },
            settlement,
            token: TokenMove { from, to: *buyer, refreeze: false },
        },
    )
}

/// Why closing a call option is refused, if it is.
pub open spec fn close_option_refusal(
    locks: AccountState,
    option: CallOption,
    seller: Seq<u8>,
    now: i64,
) -> Option<DexloanError> {
    if option.seller@ != seller {
        Some(DexloanError::IdentityMismatch)
    } else if option.state == CallOptionState::Active && now <= option.expiry {
        Some(DexloanError::OptionNotExpired)
    } else if option.state != CallOptionState::Exercised && !locks.call_option {
        Some(DexloanError::InvalidState)
    } else {
        None
    }
}

/// The seller closes a call option that was never bought, or that expired
/// unexercised, dropping its lock (the token is thawed unless a hire still
/// holds it); or clears away an exercised one, whose lock went with the
/// token.
pub fn handle_close_call_option(
    token_manager: &mut TokenManager,
    call_option: &CallOption,
    seller: &AccountKey,
    now: i64,
) -> (r: Result<LockAction, DexloanError>)
    requires
        old(token_manager).wf(),
    ensures
        final(token_manager).wf(),
        close_option_refusal(old(token_manager).accounts, *call_option, seller@, now) matches Some(
            e,
        ) ==> r == Err::<LockAction, DexloanError>(e) && *final(token_manager) == *old(
            token_manager,
        ),
        close_option_refusal(old(token_manager).accounts, *call_option, seller@, now) is None ==> r is Ok,
        r matches Ok(action) ==> {
            &&& call_option.state != CallOptionState::Exercised ==> final(token_manager).accounts
                == old(token_manager).accounts.with(ClaimKind::CallOption, false) && action
                == release_action(final(token_manager).accounts)
            &&& call_option.state == CallOptionState::Exercised ==> *final(token_manager) == *old(
                token_manager,
            ) && action == LockAction::Nothing
            &&& final(token_manager).bump == old(token_manager).bump
        },
{
    if !call_option.seller.same(seller) {
        return Err(DexloanError::IdentityMismatch);
    }
    if call_option.state == CallOptionState::Active && now <= call_option.expiry {
        return Err(DexloanError::OptionNotExpired);
    }
    if call_option.state == CallOptionState::Exercised {
        return Ok(LockAction::Nothing);
    }
    if !token_manager.accounts.call_option {
        return Err(DexloanError::InvalidState);
    }
    Ok(token_manager.release(ClaimKind::CallOption))
}

} // verus!
