//! Loans whose collateral is held in a program escrow rather than frozen in
//! the borrower's wallet. Interest here accrues on the time actually elapsed.

use vstd::prelude::*;
use vstd::arithmetic::div_mod::{lemma_fundamental_div_mod, lemma_mod_pos_bound};
use crate::error::DexloanError;
use crate::fees::{SECONDS_PER_YEAR, round_div};
use crate::key::AccountKey;
use crate::metadata::Payment;

verus! {

/// Where an escrowed listing stands.
#[derive(Clone, Copy, Debug, PartialEq, Eq, Structural)]
pub enum ListingState {
    Initialized,
    Listed,
    Active,
    Repaid,
    Cancelled,
    Defaulted,
}

/// A loan listing whose collateral sits in an escrow account.
#[derive(Clone, Copy, Debug)]
pub struct Listing {
    pub state: ListingState,
    /// The principal, in lamports.
    pub amount: u64,
    pub borrower: AccountKey,
    pub lender: AccountKey,
    /// The yearly interest rate, in basis points.
    pub basis_points: u16,
    /// The term, in seconds.
    pub duration: u64,
    /// When the loan was funded.
    pub start_date: i64,
    /// The escrow holding the collateral.
    pub escrow: AccountKey,
    pub mint: AccountKey,
    pub bump: u8,
    pub escrow_bump: u8,
}

/// The terms a listing is first offered on.
#[derive(Clone, Copy, Debug)]
pub struct ListingOptions {
    pub amount: u64,
    pub basis_points: u16,
    pub duration: u64,
}

/// Which way the escrowed token moves.
#[derive(Clone, Copy, Debug, PartialEq, Eq, Structural)]
pub enum EscrowMove {
    /// From the borrower into the escrow.
    Deposit,
    /// From the escrow back to the borrower.
    ReturnToBorrower,
    /// From the escrow to the lender.
    ToLender,
}

/// `borrower` lists a loan, depositing the collateral into `escrow`.
pub fn init_listing(
    borrower: &AccountKey,
    mint: &AccountKey,
    escrow: &AccountKey,
    options: &ListingOptions,
    bump: u8,
    escrow_bump: u8,
) -> (r: (Listing, EscrowMove))
    ensures
        r.0 == (Listing {
            state: ListingState::Listed,
            amount: options.amount,
            borrower: *borrower,
            lender: r.0.lender,
            basis_points: options.basis_points,
            duration: options.duration,
            start_date: 0,
            escrow: *escrow,
            mint: *mint,
            bump,
            escrow_bump,
        }),
        r.1 == EscrowMove::Deposit,
{
    (
        Listing {
            state: ListingState::Listed,
            amount: options.amount,
            borrower: *borrower,
            lender: *borrower,
            basis_points: options.basis_points,
            duration: options.duration,
            start_date: 0,
            escrow: *escrow,
            mint: *mint,
            bump,
            escrow_bump,
        },
        EscrowMove::Deposit,
    )
}

/// `borrower` lists again, on new terms, a listing that is neither listed
/// nor running, depositing the collateral again.
pub fn make_listing(
    listing: &mut Listing,
    borrower: &AccountKey,
    amount: u64,
    duration: u64,
    basis_points: u16,
) -> (r: Result<EscrowMove, DexloanError>)
    ensures
        old(listing).state == ListingState::Listed || old(listing).state == ListingState::Active
            ==> r == Err::<EscrowMove, DexloanError>(DexloanError::InvalidState) && *final(listing)
            == *old(listing),
        !(old(listing).state == ListingState::Listed || old(listing).state == ListingState::Active)
            ==> r == Ok::<EscrowMove, DexloanError>(EscrowMove::Deposit) && *final(listing) == (
        Listing {
            state: ListingState::Listed,
            amount,
            duration,
            basis_points,
            borrower: *borrower,
            ..*old(listing)
        }),
{
    if listing.state == ListingState::Listed || listing.state == ListingState::Active {
        return Err(DexloanError::InvalidState);
    }
    listing.amount = amount;
    listing.basis_points = basis_points;
    listing.duration = duration;
    listing.state = ListingState::Listed;
    listing.borrower = *borrower;
    Ok(EscrowMove::Deposit)
}

/// The borrower withdraws a listing nobody has funded, taking the
/// collateral back.
pub fn cancel_listing(listing: &mut Listing, borrower: &AccountKey) -> (r: Result<
    EscrowMove,
    DexloanError,
>)
    ensures
        listing_refusal(*old(listing), borrower@, ListingState::Listed) matches Some(e) ==> r
            == Err::<EscrowMove, DexloanError>(e) && *final(listing) == *old(listing),
        listing_refusal(*old(listing), borrower@, ListingState::Listed) is None ==> r == Ok::<
            EscrowMove,
            DexloanError,
        >(EscrowMove::ReturnToBorrower) && *final(listing) == (Listing {
            state: ListingState::Cancelled,
            ..*old(listing)
        }),
{
    if !listing.borrower.same(borrower) {
        return Err(DexloanError::IdentityMismatch);
    }
    if listing.state != ListingState::Listed {
        return Err(DexloanError::InvalidState);
    }
    listing.state = ListingState::Cancelled;
    Ok(EscrowMove::ReturnToBorrower)
}

/// Why an operation of the borrower on a listing in state `wanted` is
/// refused, if it is.
pub open spec fn listing_refusal(listing: Listing, borrower: Seq<u8>, wanted: ListingState) -> Option<
    DexloanError,
> {
    if listing.borrower@ != borrower {
        Some(DexloanError::IdentityMismatch)
    } else if listing.state != wanted {
        Some(DexloanError::InvalidState)
    } else {
        None
    }
}

/// `lender` funds a listed loan at `now`, paying the principal to the
/// borrower. Nobody funds their own listing.
pub fn make_loan(listing: &mut Listing, lender: &AccountKey, now: i64) -> (r: Result<
    Payment,
    DexloanError,
>)
    ensures
        old(listing).state != ListingState::Listed ==> r == Err::<Payment, DexloanError>(
            DexloanError::InvalidState,
        ),
        old(listing).state == ListingState::Listed && lender@ == old(listing).borrower@ ==> r
            == Err::<Payment, DexloanError>(DexloanError::IdentityMismatch),
        r is Err ==> *final(listing) == *old(listing),
        (old(listing).state == ListingState::Listed && lender@ != old(listing).borrower@) <==> r is Ok,
        r matches Ok(p) ==> {
            &&& *final(listing) == (Listing {
                state: ListingState::Active,
                lender: *lender,
                start_date: now,
                ..*old(listing)
            })
            &&& p.from@ == lender@
            &&& p.to@ == old(listing).borrower@
            &&& p.amount == old(listing).amount
        },
{
    if listing.state != ListingState::Listed {
        return Err(DexloanError::InvalidState);
    }
    if lender.same(&listing.borrower) {
        return Err(DexloanError::IdentityMismatch);
    }
    listing.state = ListingState::Active;
    listing.lender = *lender;
    listing.start_date = now;
    Ok(Payment { from: *lender, to: listing.borrower, amount: listing.amount })
}

/// Seconds elapsed from `start` to `now`, none if `now` comes first.
pub open spec fn elapsed(start: i64, now: i64) -> nat {
    if now > start {
        (now - start) as nat
    } else {
        0
    }
}

/// Interest on `amount` at `basis_points` a year over `seconds`, rounded to
/// the nearest lamport with halves rounded up.
pub open spec fn elapsed_interest(amount: nat, basis_points: nat, seconds: nat) -> nat {
    round_div(amount * basis_points * seconds, 10_000 * SECONDS_PER_YEAR as nat)
}

/// What repaying `listing` at `now` comes to.
pub open spec fn listing_due(listing: Listing, now: i64) -> nat {
    listing.amount as nat + elapsed_interest(
        listing.amount as nat,
        listing.basis_points as nat,
        elapsed(listing.start_date, now),
    )
}

/// What repaying an escrowed loan asks of the ledger.
#[derive(Clone, Copy, Debug)]
pub struct ListingRepayment {
    /// Principal and interest, from the borrower to the lender.
    pub payment: Payment,
    /// The collateral goes back to the borrower.
    pub token: EscrowMove,
}

/// The borrower repays a running loan at `now`: the principal plus interest
/// for the time actually elapsed, and takes the collateral back.
pub fn repay_loan(listing: &mut Listing, borrower: &AccountKey, now: i64) -> (r: Result<
    ListingRepayment,
    DexloanError,
>)
    ensures
        listing_refusal(*old(listing), borrower@, ListingState::Active) matches Some(e) ==> r
            == Err::<ListingRepayment, DexloanError>(e) && *final(listing) == *old(listing),
        listing_refusal(*old(listing), borrower@, ListingState::Active) is None ==> {
            let overflows = old(listing).amount * old(listing).basis_points * elapsed(
                old(listing).start_date,
                now,
            ) > u128::MAX || listing_due(*old(listing), now) > u64::MAX;
            &&& overflows ==> r == Err::<ListingRepayment, DexloanError>(
                DexloanError::NumericalOverflow,
            )
            &&& overflows ==> *final(listing) == *old(listing)
            &&& !overflows ==> r is Ok
        },
        r matches Ok(rep) ==> {
            &&& rep.payment.amount == listing_due(*old(listing), now)
            &&& rep.payment.from@ == old(listing).borrower@
            &&& rep.payment.to@ == old(listing).lender@
            &&& rep.token == EscrowMove::ReturnToBorrower
            &&& *final(listing) == (Listing { state: ListingState::Repaid, ..*old(listing) })
        },
{
    if !listing.borrower.same(borrower) {
        return Err(DexloanError::IdentityMismatch);
    }
    if listing.state != ListingState::Active {
        return Err(DexloanError::InvalidState);
    }
    let seconds: u128 = if now > listing.start_date {
        (now as i128 - listing.start_date as i128) as u128
    } else {
        0
    };
    proof {
        assert(listing.amount * listing.basis_points <= u64::MAX * u16::MAX) by (nonlinear_arith)
            requires
                listing.amount <= u64::MAX,
                listing.basis_points <= u16::MAX,
        ;
    }
    let rate = listing.amount as u128 * listing.basis_points as u128;
    let scaled = match rate.checked_mul(seconds) {
        Some(s) => s,
        None => {
            return Err(DexloanError::NumericalOverflow);
        },
    };
    let divisor: u128 = 10_000 * SECONDS_PER_YEAR as u128;
    let whole = scaled / divisor;
    let rest = scaled % divisor;
    proof {
        lemma_fundamental_div_mod(scaled as int, divisor as int);
        lemma_mod_pos_bound(scaled as int, divisor as int);
        assert(2 * whole <= scaled) by (nonlinear_arith)
            requires
                scaled == divisor * whole + rest,
                rest >= 0,
                divisor >= 2,
                whole >= 0,
        ;
    }
    let interest = if 2 * rest >= divisor {
        whole + 1
    } else {
        whole
    };
    let total = listing.amount as u128 + interest;
    if total > u64::MAX as u128 {
        return Err(DexloanError::NumericalOverflow);
    }
    listing.state = ListingState::Repaid;
    Ok(
        ListingRepayment {
            payment: Payment { from: listing.borrower, to: listing.lender, amount: total as u64 },
            token: EscrowMove::ReturnToBorrower,
        },
    )
}

/// The lender takes the escrowed collateral of a loan not repaid once its
/// term has run out.
pub fn repossess_collateral(listing: &mut Listing, lender: &AccountKey, now: i64) -> (r: Result<
    EscrowMove,
    DexloanError,
>)
    ensures
        old(listing).lender@ != lender@ ==> r == Err::<EscrowMove, DexloanError>(
            DexloanError::IdentityMismatch,
        ),
        old(listing).lender@ == lender@ && old(listing).state != ListingState::Active ==> r
            == Err::<EscrowMove, DexloanError>(DexloanError::InvalidState),
        old(listing).lender@ == lender@ && old(listing).state == ListingState::Active && elapsed(
            old(listing).start_date,
            now,
        ) < old(listing).duration ==> r == Err::<EscrowMove, DexloanError>(
            DexloanError::NotOverdue,
        ),
        r is Err ==> *final(listing) == *old(listing),
        old(listing).lender@ == lender@ && old(listing).state == ListingState::Active && elapsed(
            old(listing).start_date,
            now,
        ) >= old(listing).duration ==> r == Ok::<EscrowMove, DexloanError>(EscrowMove::ToLender)
            && *final(listing) == (Listing { state: ListingState::Defaulted, ..*old(listing) }),
{
    if !listing.lender.same(lender) {
        return Err(DexloanError::IdentityMismatch);
    }
    if listing.state != ListingState::Active {
        return Err(DexloanError::InvalidState);
    }
    let seconds: u64 = if now > listing.start_date {
        (now as i128 - listing.start_date as i128) as u64
    } else {
        0
    };
    if listing.duration > seconds {
        return Err(DexloanError::NotOverdue);
    }
    listing.state = ListingState::Defaulted;
    Ok(EscrowMove::ToLender)
}

} // verus!
