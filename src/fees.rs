use vstd::prelude::*;
use crate::error::DexloanError;

verus! {

/// Seconds in the 365-day year over which loan rates are quoted.
pub const SECONDS_PER_YEAR: u64 = 31_536_000;

/// Basis points in one whole: 10 000 bp is 100%.
pub const BASIS_POINTS_PER_WHOLE: u128 = 10_000;

/// `amount` scaled by `basis_points`, rounded down.
pub open spec fn fee_of(amount: nat, basis_points: nat) -> nat {
    amount * basis_points / 10_000
}

/// `n / d` rounded to the nearest integer, halves rounded up.
pub open spec fn round_div(n: nat, d: nat) -> nat
    recommends
        d > 0,
{
    n / d + if 2 * (n % d) >= d { 1nat } else { 0nat }
}

/// Interest owed over `duration` seconds on an annual fee: the annual fee
/// times the share of a year that `duration` is, rounded to the nearest lamport.
pub open spec fn pro_rata_fee(annual_fee: nat, duration: nat) -> nat {
    round_div(annual_fee * duration, SECONDS_PER_YEAR as nat)
}

/// What a loan of `amount` at `basis_points` a year over `duration` seconds
/// costs in total to repay: principal plus pro-rata interest.
pub open spec fn amount_due(amount: nat, basis_points: nat, duration: nat) -> nat {
    amount + pro_rata_fee(fee_of(amount, basis_points), duration)
}

/// The outcome of [`calculate_fee_from_basis_points`].
pub open spec fn fee_result(amount: nat, basis_points: nat) -> Result<u64, DexloanError> {
    if amount * basis_points > u128::MAX || fee_of(amount, basis_points) > u64::MAX {
        Err(DexloanError::NumericalOverflow)
    } else {
        Ok(fee_of(amount, basis_points) as u64)
    }
}

/// The outcome of [`calculate_loan_repayment`].
pub open spec fn repayment_result(amount: nat, basis_points: nat, duration: nat) -> Result<
    u64,
    DexloanError,
> {
    if fee_of(amount, basis_points) > u64::MAX || amount_due(amount, basis_points, duration)
        > u64::MAX {
        Err(DexloanError::NumericalOverflow)
    } else {
        Ok(amount_due(amount, basis_points, duration) as u64)
    }
}

/// `amount * basis_points / 10 000`, rounded down, with every step checked.
pub fn calculate_fee_from_basis_points(amount: u128, basis_points: u128) -> (r: Result<
    u64,
    DexloanError,
>)
    ensures
        r == fee_result(amount as nat, basis_points as nat),
{
    match amount.checked_mul(basis_points) {
        None => Err(DexloanError::NumericalOverflow),
        Some(scaled) => {
            let fee = scaled / BASIS_POINTS_PER_WHOLE;
            if fee > u64::MAX as u128 {
                Err(DexloanError::NumericalOverflow)
            } else {
                Ok(fee as u64)
            }
        },
    }
}

/// What the borrower owes when repaying: the principal plus the interest for
/// the loan's whole listed duration, however early or late it is repaid.
///
/// The annual fee is `amount * basis_points / 10 000` rounded down; the
/// interest is that fee times `duration / SECONDS_PER_YEAR`, rounded to the
/// nearest lamport with halves rounded up.
pub fn calculate_loan_repayment(amount: u64, basis_points: u32, duration: u64) -> (r: Result<
    u64,
    DexloanError,
>)
    ensures
        r == repayment_result(amount as nat, basis_points as nat, duration as nat),
{
    proof {
        assert(amount * basis_points <= u64::MAX * u32::MAX) by (nonlinear_arith);
    }
    let annual_fee = match calculate_fee_from_basis_points(amount as u128, basis_points as u128) {
        Ok(f) => f,
        Err(e) => {
            return Err(e);
        },
    };
    proof {
        assert(annual_fee * duration <= u64::MAX * u64::MAX) by (nonlinear_arith)
            requires
                annual_fee <= u64::MAX,
                duration <= u64::MAX,
        ;
    }
    let scaled = annual_fee as u128 * duration as u128;
    let year = SECONDS_PER_YEAR as u128;
    let whole = scaled / year;
    let rest = scaled % year;
    let pro_rata = if 2 * rest >= year {
        whole + 1
    } else {
        whole
    };
    let total = amount as u128 + pro_rata;
    if total > u64::MAX as u128 {
        Err(DexloanError::NumericalOverflow)
    } else {
        Ok(total as u64)
    }
}


/// A creator's cut of a royalty: `share` percent of `total_fee`, rounded down.
pub open spec fn share_fee(total_fee: nat, share: nat) -> nat {
    share * total_fee / 100
}

/// The sum of the creators' cuts for the given percentage shares.
pub open spec fn shares_fee_sum(total_fee: nat, shares: Seq<u8>) -> nat
    decreases shares.len(),
{
    if shares.len() == 0 {
        0
    } else {
        shares_fee_sum(total_fee, shares.drop_last()) + share_fee(total_fee, shares.last() as nat)
    }
}

/// The sum of a sequence of lamport amounts.
pub open spec fn sum_of(amounts: Seq<u64>) -> nat
    decreases amounts.len(),
{
    if amounts.len() == 0 {
        0
    } else {
        sum_of(amounts.drop_last()) + amounts.last() as nat
    }
}

/// Whether [`split_creator_fees`] succeeds: the royalty fits in 64 bits and
/// in `amount`, and the creators' cuts together fit in the royalty.
pub open spec fn split_succeeds(amount: nat, basis_points: nat, shares: Seq<u8>) -> bool {
    let total_fee = fee_of(amount, basis_points);
    &&& total_fee <= amount
    &&& shares_fee_sum(total_fee, shares) <= total_fee
}

/// How a payment is divided between the creators' royalties and the party
/// that posted the token.
pub struct RoyaltySplit {
    /// The lamports owed to each creator, in the order of the shares.
    pub creator_fees: Vec<u64>,
    /// What is left for the seller: the amount less the royalty, plus the
    /// rounding dust of the creators' cuts.
    pub remaining: u64,
}

/// The sum of the creators' percentage shares.
pub open spec fn shares_total(shares: Seq<u8>) -> nat
    decreases shares.len(),
{
    if shares.len() == 0 {
        0
    } else {
        shares_total(shares.drop_last()) + shares.last() as nat
    }
}

/// Rounding each cut down never pays out more than the shares' total
/// percentage of the royalty.
proof fn lemma_cuts_within_shares(total_fee: nat, shares: Seq<u8>)
    ensures
        shares_fee_sum(total_fee, shares) * 100 <= shares_total(shares) * total_fee,
    decreases shares.len(),
{
    if shares.len() > 0 {
        let rest = shares.drop_last();
        let x = shares.last() as nat;
        lemma_cuts_within_shares(total_fee, rest);
        assert(share_fee(total_fee, x) * 100 <= x * total_fee) by (nonlinear_arith)
            requires
                share_fee(total_fee, x) == x * total_fee / 100,
        ;
        assert((shares_total(rest) + x) * total_fee == shares_total(rest) * total_fee + x
            * total_fee) by (nonlinear_arith);
        assert((shares_fee_sum(total_fee, rest) + share_fee(total_fee, x)) * 100
            == shares_fee_sum(total_fee, rest) * 100 + share_fee(total_fee, x) * 100)
            by (nonlinear_arith);
    }
}

/// Royalties conserve lamports: when the creators' shares add up to 100%
/// and the royalty rate is at most 100%, splitting a payment always
/// succeeds, and what the creators receive plus what the seller keeps is
/// exactly the payment (the ensures of [`split_creator_fees`]); the
/// creators' cuts plus the rounding dust make up exactly the royalty.
pub proof fn lemma_royalty_conservation(amount: u64, basis_points: u16, shares: Seq<u8>)
    requires
        shares_total(shares) == 100,
        basis_points <= 10_000,
    ensures
        split_succeeds(amount as nat, basis_points as nat, shares),
        ({
            let total_fee = fee_of(amount as nat, basis_points as nat);
            let dust = total_fee - shares_fee_sum(total_fee, shares);
            &&& dust >= 0
            &&& shares_fee_sum(total_fee, shares) + dust == total_fee
            &&& (amount - total_fee) + dust + shares_fee_sum(total_fee, shares) == amount
        }),
{
    let total_fee = fee_of(amount as nat, basis_points as nat);
    assert(total_fee <= amount) by (nonlinear_arith)
        requires
            total_fee == amount * basis_points / 10_000,
            basis_points <= 10_000,
    ;
    lemma_cuts_within_shares(total_fee, shares);
    assert(shares_fee_sum(total_fee, shares) <= total_fee) by (nonlinear_arith)
        requires
            shares_fee_sum(total_fee, shares) * 100 <= 100 * total_fee,
    ;
}

/// Sums over a prefix never exceed the sum over the whole sequence.
pub proof fn lemma_shares_fee_sum_prefix(total_fee: nat, shares: Seq<u8>, k: int)
    requires
        0 <= k <= shares.len(),
    ensures
        shares_fee_sum(total_fee, shares.take(k)) <= shares_fee_sum(total_fee, shares),
    decreases shares.len(),
{
    if k < shares.len() {
        assert(shares.drop_last().take(k) =~= shares.take(k));
        lemma_shares_fee_sum_prefix(total_fee, shares.drop_last(), k);
    } else {
        assert(shares.take(k) =~= shares);
    }
}

/// Splits a royalty of `basis_points` on `amount` between creators holding
/// the given percentage shares; whatever the creators do not receive,
/// rounding dust included, stays with the seller.
pub fn split_creator_fees(amount: u64, basis_points: u16, shares: &Vec<u8>) -> (r: Result<
    RoyaltySplit,
    DexloanError,
>)
    ensures
        r is Ok <==> split_succeeds(amount as nat, basis_points as nat, shares@),
        r is Err ==> r->Err_0 == DexloanError::NumericalOverflow,
        r matches Ok(split) ==> {
            let total_fee = fee_of(amount as nat, basis_points as nat);
            &&& split.creator_fees@.len() == shares@.len()
            &&& forall|i: int|
                0 <= i < shares@.len() ==> split.creator_fees@[i] == share_fee(
                    total_fee,
                    shares@[i] as nat,
                )
            &&& split.remaining == amount - shares_fee_sum(total_fee, shares@)
            &&& split.remaining + sum_of(split.creator_fees@) == amount
        },
{
    proof {
        assert(amount * basis_points <= u64::MAX * u16::MAX) by (nonlinear_arith);
    }
    let total_fee = match calculate_fee_from_basis_points(amount as u128, basis_points as u128) {
        Ok(f) => f,
        Err(e) => {
            return Err(e);
        },
    };
    if total_fee > amount {
        return Err(DexloanError::NumericalOverflow);
    }
    let remaining_amount = amount - total_fee;
    let mut remaining_fee = total_fee;
    let mut creator_fees: Vec<u64> = Vec::new();
    let mut i: usize = 0;
    while i < shares.len()
        invariant
            0 <= i <= shares@.len(),
            total_fee == fee_of(amount as nat, basis_points as nat),
            creator_fees@.len() == i,
            forall|j: int|
                0 <= j < i ==> creator_fees@[j] == share_fee(total_fee as nat, shares@[j] as nat),
            sum_of(creator_fees@) == shares_fee_sum(total_fee as nat, shares@.take(i as int)),
            remaining_fee + sum_of(creator_fees@) == total_fee,
        decreases shares@.len() - i,
    {
        let share = shares[i];
        proof {
            assert(share * total_fee <= u8::MAX * u64::MAX) by (nonlinear_arith)
                requires
                    share <= u8::MAX,
                    total_fee <= u64::MAX,
            ;
        }
        let creator_fee = (share as u128 * total_fee as u128) / 100;
        proof {
            assert(shares@.take(i + 1).drop_last() =~= shares@.take(i as int));
            assert(shares@.take(i + 1).last() == share);
        }
        if creator_fee > remaining_fee as u128 {
            proof {
                lemma_shares_fee_sum_prefix(total_fee as nat, shares@, i + 1);
            }
            return Err(DexloanError::NumericalOverflow);
        }
        let fee = creator_fee as u64;
        remaining_fee = remaining_fee - fee;
        let ghost before = creator_fees@;
        creator_fees.push(fee);
        proof {
            assert(creator_fees@.drop_last() =~= before);
        }
        i = i + 1;
    }
    proof {
        assert(shares@.take(i as int) =~= shares@);
    }
    Ok(RoyaltySplit { creator_fees, remaining: remaining_amount + remaining_fee })
}

} // verus!
