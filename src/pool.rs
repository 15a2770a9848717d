use vstd::prelude::*;
use crate::error::DexloanError;
use crate::fees::round_div;
use crate::key::AccountKey;
use crate::metadata::{AssetMetadata, assert_metadata_valid, metadata_address_of, metadata_check};

verus! {

/// The shortest month, the least time between two installments.
pub const SHORTEST_INTERVAL_SECONDS: i64 = 60 * 60 * 24 * 28;

/// The longest month, the most time between two installments.
pub const LONGEST_INTERVAL_SECONDS: i64 = 60 * 60 * 24 * 31;

/// The least time from borrowing to the first installment: three weeks.
pub const SHORTEST_START_INTERVAL: i64 = 60 * 60 * 24 * 21;

/// The most time from borrowing to the first installment: six weeks.
pub const LONGEST_START_INTERVAL: i64 = 60 * 60 * 24 * 42;

/// How long a final notice runs before the collateral may be taken: two weeks.
pub const NOTICE_PERIOD_SECONDS: i64 = 60 * 60 * 24 * 14;

/// Where a pool loan stands.
#[derive(Clone, Copy, Debug, PartialEq, Eq, Structural)]
pub enum PoolLoanState {
    Active,
    Repaid,
    Defaulted,
}

/// A loan that a liquidity pool made against a token of its collection,
/// repaid in three monthly installments.
#[derive(Clone, Copy, Debug)]
pub struct PoolLoan {
    pub state: PoolLoanState,
    /// The principal, in lamports.
    pub amount: u64,
    /// The principal not yet repaid.
    pub outstanding: u64,
    /// The yearly interest rate, in basis points.
    pub basis_points: u32,
    /// When the loan was made.
    pub start_ts: i64,
    /// When each of the three installments falls due.
    pub installments: [i64; 3],
    /// When the final notice was issued.
    pub notice_issued_ts: i64,
    pub borrower: AccountKey,
    /// The pool that lent.
    pub pool: AccountKey,
    /// The mint of the collateral token.
    pub mint: AccountKey,
    pub bump: u8,
}

impl PoolLoan {
    /// No more principal is outstanding than was lent.
    pub open spec fn wf(self) -> bool {
        self.outstanding <= self.amount
    }
}

/// A liquidity pool that lends a fixed amount at a fixed rate against any
/// token of one collection.
#[derive(Clone, Copy, Debug)]
pub struct Pool {
    /// The collection the pool lends against.
    pub collection: AccountKey,
    /// Who runs the pool.
    pub authority: AccountKey,
    /// What the pool lends against one token, in lamports.
    pub floor_price: u64,
    /// The yearly interest rate, in basis points.
    pub basis_points: u32,
    pub bump: u8,
}

/// The terms a pool is created with.
#[derive(Clone, Copy, Debug)]
pub struct PoolOptions {
    pub floor_price: u64,
    pub basis_points: u32,
}

/// Opens a pool lending `options.floor_price` at `options.basis_points`
/// against tokens of `collection`.
pub fn create_pool(authority: &AccountKey, collection: &AccountKey, options: &PoolOptions, bump: u8) -> (r: Pool)
    ensures
        r == (Pool {
            collection: *collection,
            authority: *authority,
            floor_price: options.floor_price,
            basis_points: options.basis_points,
            bump,
        }),
{
    Pool {
        collection: *collection,
        authority: *authority,
        floor_price: options.floor_price,
        basis_points: options.basis_points,
        bump,
    }
}

/// Whether `gap` lies within `[low, high]`.
pub open spec fn within(gap: int, low: i64, high: i64) -> bool {
    low <= gap <= high
}

/// Whether a schedule of installments is acceptable from `now`: the first
/// falls three to six weeks away, and each next one a month after the one
/// before.
pub open spec fn installments_valid(installments: Seq<i64>, now: i64) -> bool {
    &&& within(installments[0] - now, SHORTEST_START_INTERVAL, LONGEST_START_INTERVAL)
    &&& within(installments[1] - installments[0], SHORTEST_INTERVAL_SECONDS, LONGEST_INTERVAL_SECONDS)
    &&& within(installments[2] - installments[1], SHORTEST_INTERVAL_SECONDS, LONGEST_INTERVAL_SECONDS)
}

/// Whether `b - a` lies within `[low, high]`, without overflow.
fn gap_within(a: i64, b: i64, low: i64, high: i64) -> (r: bool)
    ensures
        r == within(b - a, low, high),
{
    let gap = b as i128 - a as i128;
    low as i128 <= gap && gap <= high as i128
}

/// Checks a schedule of installments from `now`: the first three to six
/// weeks away, the others each a month after the one before.
pub fn assert_installments_valid(installments: &[i64; 3], now: i64) -> (r: Result<(), DexloanError>)
    ensures
        installments_valid(installments@, now) ==> r is Ok,
        !installments_valid(installments@, now) ==> r == Err::<(), DexloanError>(
            DexloanError::InvalidInstallmentInterval,
        ),
{
    if !gap_within(now, installments[0], SHORTEST_START_INTERVAL, LONGEST_START_INTERVAL) {
        return Err(DexloanError::InvalidInstallmentInterval);
    }
    if !gap_within(installments[0], installments[1], SHORTEST_INTERVAL_SECONDS, LONGEST_INTERVAL_SECONDS) {
        return Err(DexloanError::InvalidInstallmentInterval);
    }
    if !gap_within(installments[1], installments[2], SHORTEST_INTERVAL_SECONDS, LONGEST_INTERVAL_SECONDS) {
        return Err(DexloanError::InvalidInstallmentInterval);
    }
    Ok(())
}

/// The three installment dates of a loan, in order.
pub fn get_installments(loan: &PoolLoan) -> (r: (i64, i64, i64))
    ensures
        r == (loan.installments@[0], loan.installments@[1], loan.installments@[2]),
{
    (loan.installments[0], loan.installments[1], loan.installments[2])
}

/// The principal part of the installment due at `now`: a third of the
/// principal for each of the first two installments (the second only once
/// the first date has passed), and whatever is left for the last (once the
/// second date has passed).
pub open spec fn installment_due(loan: PoolLoan, now: i64) -> Result<u64, DexloanError> {
    let single = loan.amount / 3;
    if loan.outstanding == loan.amount {
        Ok(single as u64)
    } else if now > loan.installments@[0] && loan.outstanding == loan.amount - single {
        Ok(single as u64)
    } else if now > loan.installments@[1] && loan.outstanding == loan.amount - 2 * single {
        Ok(loan.outstanding)
    } else {
        Err(DexloanError::InstallmentAlreadyPaid)
    }
}

/// The principal part of the installment due at `now`; fails when the
/// installment now due is already paid.
pub fn calc_installment_amount(loan: &PoolLoan, now: i64) -> (r: Result<u64, DexloanError>)
    ensures
        r == installment_due(*loan, now),
{
    let (first_due, second_due, _) = get_installments(loan);
    let single = loan.amount / 3;
    if loan.outstanding == loan.amount {
        Ok(single)
    } else if now > first_due && loan.outstanding == loan.amount - single {
        Ok(single)
    } else if now > second_due && loan.outstanding == loan.amount - single * 2 {
        Ok(loan.outstanding)
    } else {
        Err(DexloanError::InstallmentAlreadyPaid)
    }
}

/// Whether an installment is late at `now`: the last date has passed, or
/// the first (second) date has passed with the first (second) installment
/// unpaid.
pub open spec fn payment_overdue(loan: PoolLoan, now: i64) -> bool {
    ||| now > loan.installments@[2]
    ||| (loan.outstanding == loan.amount && now > loan.installments@[0])
    ||| (loan.outstanding == loan.amount - loan.amount / 3 && now > loan.installments@[1])
}

/// Whether an installment is late at `now`.
pub fn is_payment_overdue(loan: &PoolLoan, now: i64) -> (r: bool)
    ensures
        r == payment_overdue(*loan, now),
{
    let (first_due, second_due, third_due) = get_installments(loan);
    now > third_due || (loan.outstanding == loan.amount && now > first_due) || (loan.outstanding
        == loan.amount - loan.amount / 3 && now > second_due)
}

/// The interest due with an installment: a month's interest on the
/// outstanding principal at a twelfth of the yearly rate (the twelfth
/// rounded down), rounded to the nearest lamport, plus a fee of 5% of the
/// outstanding principal when the installment is late.
pub open spec fn monthly_interest(loan: PoolLoan, now: i64) -> nat {
    round_div(loan.outstanding as nat * (loan.basis_points / 12) as nat, 10_000) + if payment_overdue(
        loan,
        now,
    ) {
        loan.outstanding as nat / 20
    } else {
        0
    }
}

/// The interest due with the installment paid at `now`.
pub fn calc_monthly_interest_payment(loan: &PoolLoan, now: i64) -> (r: Result<u64, DexloanError>)
    ensures
        monthly_interest(*loan, now) <= u64::MAX ==> r == Ok::<u64, DexloanError>(
            monthly_interest(*loan, now) as u64,
        ),
        monthly_interest(*loan, now) > u64::MAX ==> r == Err::<u64, DexloanError>(
            DexloanError::NumericalOverflow,
        ),
{
    let rate = (loan.basis_points / 12) as u128;
    proof {
        assert(loan.outstanding * rate <= u64::MAX * u32::MAX) by (nonlinear_arith)
            requires
                loan.outstanding <= u64::MAX,
                rate <= u32::MAX,
        ;
    }
    let scaled = loan.outstanding as u128 * rate;
    let whole = scaled / 10_000;
    let rest = scaled % 10_000;
    let mut interest = if 2 * rest >= 10_000 {
        whole + 1
    } else {
        whole
    };
    if is_payment_overdue(loan, now) {
        interest = interest + (loan.outstanding / 20) as u128;
    }
    if interest > u64::MAX as u128 {
        Err(DexloanError::NumericalOverflow)
    } else {
        Ok(interest as u64)
    }
}

/// Whether the final notice issued on a loan has run out at `now`.
pub open spec fn notice_expired(loan: PoolLoan, now: i64) -> bool {
    now > loan.notice_issued_ts + NOTICE_PERIOD_SECONDS
}

/// Whether the pool may take the collateral at `now`: the final notice has
/// run out.
pub fn can_repossess(loan: &PoolLoan, now: i64) -> (r: bool)
    ensures
        r == notice_expired(*loan, now),
{
    now as i128 > loan.notice_issued_ts as i128 + NOTICE_PERIOD_SECONDS as i128
}

/// Why borrowing from a pool is refused, if it is.
pub open spec fn borrow_refusal(
    pool: Pool,
    pool_lamports: u64,
    installments: Seq<i64>,
    mint: Seq<u8>,
    metadata_address: Seq<u8>,
    metadata_is_empty: bool,
    metadata: AssetMetadata,
    now: i64,
) -> Option<DexloanError> {
    if metadata.mint@ != mint {
        Some(DexloanError::InvalidMint)
    } else if metadata_check(metadata_address_of(mint), metadata_address, metadata_is_empty) is Err {
        Some(metadata_check(metadata_address_of(mint), metadata_address, metadata_is_empty)->Err_0)
    } else if metadata.collection is None {
        Some(DexloanError::CollectionUndefined)
    } else if metadata.collection->0@ != pool.collection@ {
        Some(DexloanError::InvalidCollection)
    } else if pool_lamports < pool.floor_price {
        Some(DexloanError::PoolInsufficientFunds)
    } else if !installments_valid(installments, now) {
        Some(DexloanError::InvalidInstallmentInterval)
    } else {
        None
    }
}

/// `borrower` borrows the pool's floor price against a token of the pool's
/// collection, to be repaid on the given installment dates. The pool,
/// which holds `pool_lamports`, must hold at least its floor price.
pub fn borrow_from_pool(
    pool: &Pool,
    pool_key: &AccountKey,
    pool_lamports: u64,
    installments: &[i64; 3],
    borrower: &AccountKey,
    mint: &AccountKey,
    metadata_address: &AccountKey,
    metadata_is_empty: bool,
    metadata: &AssetMetadata,
    now: i64,
    bump: u8,
) -> (r: Result<PoolLoan, DexloanError>)
    ensures
        borrow_refusal(
            *pool,
            pool_lamports,
            installments@,
            mint@,
            metadata_address@,
            metadata_is_empty,
            *metadata,
            now,
        ) matches Some(e) ==> r == Err::<PoolLoan, DexloanError>(e),
        r matches Ok(loan) ==> loan.wf(),
        borrow_refusal(
            *pool,
            pool_lamports,
            installments@,
            mint@,
            metadata_address@,
            metadata_is_empty,
            *metadata,
            now,
        ) is None ==> r == Ok::<PoolLoan, DexloanError>(
            (PoolLoan {
                state: PoolLoanState::Active,
                amount: pool.floor_price,
                outstanding: pool.floor_price,
                basis_points: pool.basis_points,
                start_ts: now,
                installments: *installments,
                notice_issued_ts: 0,
                borrower: *borrower,
                pool: *pool_key,
                mint: *mint,
                bump,
            }),
        ),
{
    if !metadata.mint.same(mint) {
        return Err(DexloanError::InvalidMint);
    }
    match assert_metadata_valid(metadata_address, metadata_is_empty, mint) {
        Err(e) => {
            return Err(e);
        },
        Ok(()) => {},
    }
    match &metadata.collection {
        None => {
            return Err(DexloanError::CollectionUndefined);
        },
        Some(c) => {
            if !c.same(&pool.collection) {
                return Err(DexloanError::InvalidCollection);
            }
        },
    }
    if pool_lamports < pool.floor_price {
        return Err(DexloanError::PoolInsufficientFunds);
    }
    match assert_installments_valid(installments, now) {
        Err(e) => {
            return Err(e);
        },
        Ok(()) => {},
    }
    Ok(
        PoolLoan {
            state: PoolLoanState::Active,
            amount: pool.floor_price,
            outstanding: pool.floor_price,
            basis_points: pool.basis_points,
            start_ts: now,
            installments: *installments,
            notice_issued_ts: 0,
            borrower: *borrower,
            pool: *pool_key,
            mint: *mint,
            bump,
        },
    )
}

/// What paying an installment asks of the ledger.
#[derive(Clone, Copy, Debug, PartialEq, Eq, Structural)]
pub struct InstallmentPaid {
    /// Principal and interest, from the borrower to the lender.
    pub total: u64,
    /// Whether the loan is now repaid and the collateral goes back to the borrower.
    pub collateral_released: bool,
}

/// The borrower pays the installment due at `now`, principal and interest.
/// Once nothing is outstanding, the loan is repaid and the collateral
/// returns to the borrower.
pub fn pay_installment(loan: &mut PoolLoan, now: i64) -> (r: Result<InstallmentPaid, DexloanError>)
    requires
        old(loan).wf(),
    ensures
        final(loan).wf(),
        r is Err ==> *final(loan) == *old(loan),
        old(loan).state != PoolLoanState::Active ==> r == Err::<InstallmentPaid, DexloanError>(
            DexloanError::InvalidState,
        ),
        old(loan).state == PoolLoanState::Active ==> match installment_due(*old(loan), now) {
            Err(e) => r == Err::<InstallmentPaid, DexloanError>(e),
            Ok(principal) => if principal + monthly_interest(*old(loan), now) > u64::MAX {
                r == Err::<InstallmentPaid, DexloanError>(DexloanError::NumericalOverflow)
            } else {
                &&& r == Ok::<InstallmentPaid, DexloanError>(
                    (InstallmentPaid {
                        total: (principal + monthly_interest(*old(loan), now)) as u64,
                        collateral_released: old(loan).outstanding == principal,
                    }),
                )
                &&& *final(loan) == (PoolLoan {
                    outstanding: (old(loan).outstanding - principal) as u64,
                    state: if old(loan).outstanding == principal {
                        PoolLoanState::Repaid
                    } else {
                        PoolLoanState::Active
                    },
                    ..*old(loan)
                })
            },
        },
{
    if loan.state != PoolLoanState::Active {
        return Err(DexloanError::InvalidState);
    }
    let principal = match calc_installment_amount(loan, now) {
        Ok(p) => p,
        Err(e) => {
            return Err(e);
        },
    };
    let interest = match calc_monthly_interest_payment(loan, now) {
        Ok(i) => i,
        Err(e) => {
            return Err(e);
        },
    };
    let total = match principal.checked_add(interest) {
        Some(t) => t,
        None => {
            return Err(DexloanError::NumericalOverflow);
        },
    };
    loan.outstanding = loan.outstanding - principal;
    let released = loan.outstanding == 0;
    if released {
        loan.state = PoolLoanState::Repaid;
    }
    Ok(InstallmentPaid { total, collateral_released: released })
}

/// The pool issues the final notice on a loan at `now`.
pub fn issue_notice(loan: &mut PoolLoan, now: i64)
    ensures
        *final(loan) == (PoolLoan { notice_issued_ts: now, ..*old(loan) }),
{
    loan.notice_issued_ts = now;
}

/// The pool takes the collateral of a loan whose final notice has run out.
pub fn repossess_collateral(loan: &mut PoolLoan, now: i64) -> (r: Result<(), DexloanError>)
    ensures
        notice_expired(*old(loan), now) ==> r is Ok && *final(loan) == (PoolLoan {
            state: PoolLoanState::Defaulted,
            ..*old(loan)
        }),
        !notice_expired(*old(loan), now) ==> r == Err::<(), DexloanError>(
            DexloanError::CannotRepossess,
        ) && *final(loan) == *old(loan),
{
    if !can_repossess(loan, now) {
        return Err(DexloanError::CannotRepossess);
    }
    loan.state = PoolLoanState::Defaulted;
    Ok(())
}

/// The pool's authority withdraws `amount` from a pool holding
/// `pool_lamports`; fails when the pool holds less.
pub fn widthdraw_from_pool(pool_lamports: u64, amount: u64) -> (r: Result<u64, DexloanError>)
    ensures
        amount > pool_lamports ==> r == Err::<u64, DexloanError>(DexloanError::PoolInsufficientFunds),
        amount <= pool_lamports ==> r == Ok::<u64, DexloanError>(amount),
{
    if amount > pool_lamports {
        return Err(DexloanError::PoolInsufficientFunds);
    }
    Ok(amount)
}

} // verus!
