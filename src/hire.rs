use vstd::prelude::*;
use vstd::arithmetic::div_mod::{lemma_fundamental_div_mod, lemma_mod_pos_bound};
use crate::error::DexloanError;
use crate::key::AccountKey;
use crate::token_manager::{
    AccountState, ClaimKind, DelegationPlan, LockAction, TokenAccountState, TokenManager, TokenMove,
    delegation_outcome, plan_delegation, release_action,
};

verus! {

/// Seconds in a day, the unit in which hires are taken and extended.
pub const SECONDS_PER_DAY: i64 = 86_400;

/// Where a hire stands.
#[derive(Clone, Copy, Debug, PartialEq, Eq, Structural)]
pub enum HireState {
    /// Offered, and not taken.
    Listed,
    /// Taken by a borrower, who holds the token until the current period ends.
    Hired,
}

/// A lease of a token for a daily fee.
#[derive(Clone, Copy, Debug)]
pub struct Hire {
    pub state: HireState,
    /// The fee for one day, in lamports.
    pub amount: u64,
    /// The owner who lends the token out.
    pub lender: AccountKey,
    /// The borrower: named in advance, or the one currently holding the token.
    pub borrower: Option<AccountKey>,
    /// The latest time that any hire period may run to.
    pub expiry: i64,
    /// Where the current period's unearned escrow starts accruing.
    pub current_start: Option<i64>,
    /// When the current period ends.
    pub current_expiry: Option<i64>,
    /// Lamports paid in advance by the borrower and not yet paid to the lender.
    pub escrow_balance: u64,
    /// The mint of the hired token.
    pub mint: AccountKey,
    pub bump: u8,
}

/// The terms on which a hire is offered.
#[derive(Clone, Copy, Debug)]
pub struct HireArgs {
    /// The fee for one day, in lamports.
    pub amount: u64,
    /// The latest time that any hire period may run to.
    pub expiry: i64,
    /// The one borrower allowed to take the hire, if any.
    pub borrower: Option<AccountKey>,
}

impl Hire {
    /// A hire is taken exactly when a current period is recorded; a taken
    /// hire has a borrower, and an untaken one holds no escrow.
    pub open spec fn wf(self) -> bool {
        &&& (self.state == HireState::Hired) == self.current_start is Some
        &&& (self.state == HireState::Hired) == self.current_expiry is Some
        &&& self.state == HireState::Hired ==> self.borrower is Some
        &&& self.state == HireState::Listed ==> self.escrow_balance == 0
    }

    /// Bytes that a hire account takes on chain.
    pub fn space() -> (r: usize)
        ensures
            r == 8 + 1 + 8 + 32 + (1 + 32) + 8 + (1 + 8) + (1 + 8) + 8 + 32 + 1,
    {
        8 + 1 + 8 + 32 + (1 + 32) + 8 + (1 + 8) + (1 + 8) + 8 + 32 + 1
    }
}

/// The share of `balance` that the lender has earned at `now`, for a period
/// accruing from `start` to `end`: all of it once `end` is reached, none
/// up to `start`, and in between the elapsed fraction, rounded down.
pub open spec fn earned_amount(balance: nat, start: int, end: int, now: int) -> nat {
    if now >= end {
        balance
    } else if now <= start {
        0
    } else {
        balance * ((now - start) as nat) / ((end - start) as nat)
    }
}

/// The share of the escrow that the lender has earned at `now`.
pub open spec fn hire_earned(hire: Hire, now: int) -> nat {
    earned_amount(
        hire.escrow_balance as nat,
        hire.current_start->0 as int,
        hire.current_expiry->0 as int,
        now,
    )
}

/// The share of `balance` earned at `now` over the period from `start` to
/// `end`: all of it from `end` on, none up to `start`, and in between
/// `balance * (now - start) / (end - start)`, rounded down.
pub fn earned_share(balance: u64, start: i64, end: i64, now: i64) -> (r: u64)
    ensures
        r == earned_amount(balance as nat, start as int, end as int, now as int),
        r <= balance,
{
    if now >= end {
        return balance;
    }
    if now <= start {
        return 0;
    }
    let elapsed = (now as i128 - start as i128) as u128;
    let length = (end as i128 - start as i128) as u128;
    proof {
        assert(balance * elapsed <= u64::MAX * u64::MAX) by (nonlinear_arith)
            requires
                balance <= u64::MAX,
                elapsed <= u64::MAX,
        ;
        assert((balance * elapsed) / (length as int) <= balance) by (nonlinear_arith)
            requires
                0 < elapsed <= length,
        ;
    }
    ((balance as u128 * elapsed) / length) as u64
}

/// The share of the hire's escrow that the lender has earned at
/// `unix_timestamp`. Fails when no period is running.
pub fn calculate_widthdawl_amount(hire: &Hire, unix_timestamp: i64) -> (r: Result<
    u64,
    DexloanError,
>)
    ensures
        hire.current_start is None || hire.current_expiry is None ==> r == Err::<
            u64,
            DexloanError,
        >(DexloanError::InvalidState),
        hire.current_start is Some && hire.current_expiry is Some ==> r == Ok::<
            u64,
            DexloanError,
        >(hire_earned(*hire, unix_timestamp as int) as u64),
        hire.current_start is Some && hire.current_expiry is Some ==> hire_earned(
            *hire,
            unix_timestamp as int,
        ) <= hire.escrow_balance,
{
    match (hire.current_start, hire.current_expiry) {
        (Some(start), Some(end)) => Ok(earned_share(hire.escrow_balance, start, end, unix_timestamp)),
        _ => Err(DexloanError::InvalidState),
    }
}

/// What a withdrawal from the escrow paid, and what it left.
#[derive(Clone, Copy, Debug, PartialEq, Eq, Structural)]
pub struct Withdrawal {
    /// Lamports paid from the escrow to the lender.
    pub paid: u64,
    /// Lamports left in the escrow.
    pub remaining: u64,
}

/// The hire once the earned share at `now` has been paid out: the balance
/// shrinks by that share and accrual restarts at `now`.
pub open spec fn after_withdrawal(hire: Hire, now: i64) -> Hire {
    Hire {
        escrow_balance: (hire.escrow_balance - hire_earned(hire, now as int)) as u64,
        current_start: Some(now),
        ..hire
    }
}

/// Pays the lender the share of the escrow earned so far, and restarts the
/// accrual at `unix_timestamp`, so that no stretch of time is paid twice.
pub fn withdraw_from_hire_escrow(hire: &mut Hire, lender: &AccountKey, unix_timestamp: i64) -> (r:
    Result<Withdrawal, DexloanError>)
    requires
        old(hire).wf(),
    ensures
        final(hire).wf(),
        lender@ != old(hire).lender@ ==> r == Err::<Withdrawal, DexloanError>(
            DexloanError::IdentityMismatch,
        ),
        lender@ == old(hire).lender@ && old(hire).current_start is None ==> r == Err::<
            Withdrawal,
            DexloanError,
        >(DexloanError::InvalidState),
        lender@ == old(hire).lender@ && old(hire).current_start is Some ==> r == Ok::<
            Withdrawal,
            DexloanError,
        >(
            (Withdrawal {
                paid: hire_earned(*old(hire), unix_timestamp as int) as u64,
                remaining: (old(hire).escrow_balance - hire_earned(
                    *old(hire),
                    unix_timestamp as int,
                )) as u64,
            }),
        ),
        r is Ok ==> *final(hire) == after_withdrawal(*old(hire), unix_timestamp),
        r is Err ==> *final(hire) == *old(hire),
        r matches Ok(w) ==> w.paid + w.remaining == old(hire).escrow_balance,
        r is Ok ==> hire_earned(*old(hire), unix_timestamp as int) <= old(hire).escrow_balance,
{
    if !lender.same(&hire.lender) {
        return Err(DexloanError::IdentityMismatch);
    }
    let paid = match calculate_widthdawl_amount(hire, unix_timestamp) {
        Ok(a) => a,
        Err(e) => {
            return Err(e);
        },
    };
    let remaining = hire.escrow_balance - paid;
    hire.escrow_balance = remaining;
    hire.current_start = Some(unix_timestamp);
    Ok(Withdrawal { paid, remaining })
}

/// How a hire's escrow was wound up.
#[derive(Clone, Copy, Debug)]
pub struct Settlement {
    /// Lamports paid to the lender: the share earned so far.
    pub to_lender: u64,
    /// Lamports refunded to the borrower: the unearned rest.
    pub to_borrower: u64,
    /// Who receives the refund.
    pub borrower: Option<AccountKey>,
}

/// Winds up a hire's escrow early, when the token changes hands while it is
/// hired: the lender is paid the share earned so far, the borrower is
/// refunded the rest, and the escrow is left empty.
pub fn settle_hire_escrow_balance(hire: &mut Hire, lender: &AccountKey, unix_timestamp: i64) -> (r:
    Result<Settlement, DexloanError>)
    requires
        old(hire).wf(),
    ensures
        final(hire).wf(),
        lender@ != old(hire).lender@ ==> (r matches Err(e) && e == DexloanError::IdentityMismatch),
        lender@ == old(hire).lender@ && old(hire).current_start is None ==> (r matches Err(e) && e
            == DexloanError::InvalidState),
        (lender@ == old(hire).lender@ && old(hire).current_start is Some) <==> r is Ok,
        r is Err ==> *final(hire) == *old(hire),
        r matches Ok(s) ==> {
            &&& s.to_lender == hire_earned(*old(hire), unix_timestamp as int)
            &&& s.to_borrower == old(hire).escrow_balance - s.to_lender
            &&& s.borrower == old(hire).borrower
            &&& *final(hire) == (Hire {
                escrow_balance: 0,
                ..after_withdrawal(*old(hire), unix_timestamp)
            })
        },
{
    let w = match withdraw_from_hire_escrow(hire, lender, unix_timestamp) {
        Ok(w) => w,
        Err(e) => {
            return Err(e);
        },
    };
    hire.escrow_balance = 0;
    Ok(Settlement { to_lender: w.paid, to_borrower: w.remaining, borrower: hire.borrower })
}

/// The fee for `days` days of `hire`, when it fits in 64 bits.
pub open spec fn hire_fee(hire: Hire, days: u16) -> nat {
    days as nat * hire.amount as nat
}

/// Takes the borrower's payment for `days` days into the escrow. Fails when
/// the fee or the new balance overflows.
pub fn process_payment_to_hire_escrow(hire: &mut Hire, days: u16) -> (r: Result<
    u64,
    DexloanError,
>)
    ensures
        (hire_fee(*old(hire), days) <= u64::MAX && old(hire).escrow_balance + hire_fee(
            *old(hire),
            days,
        ) <= u64::MAX) <==> r is Ok,
        r is Err ==> r->Err_0 == DexloanError::NumericalOverflow && *final(hire) == *old(hire),
        r matches Ok(paid) ==> paid == hire_fee(*old(hire), days) && *final(hire) == (Hire {
            escrow_balance: (old(hire).escrow_balance + paid) as u64,
            ..*old(hire)
        }),
{
    let amount = match (days as u64).checked_mul(hire.amount) {
        Some(a) => a,
        None => {
            return Err(DexloanError::NumericalOverflow);
        },
    };
    match hire.escrow_balance.checked_add(amount) {
        Some(b) => {
            hire.escrow_balance = b;
            Ok(amount)
        },
        None => Err(DexloanError::NumericalOverflow),
    }
}

/// Balances of two accounts after lamports moved between them.
#[derive(Clone, Copy, Debug, PartialEq, Eq, Structural)]
pub struct LamportBalances {
    pub from: u64,
    pub to: u64,
}

/// Moves `amount` lamports out of an escrow holding `escrow` into an account
/// holding `to`. Fails when the escrow holds too little or the payee's
/// balance would overflow.
pub fn transfer_from_escrow(escrow: u64, to: u64, amount: u64) -> (r: Result<
    LamportBalances,
    DexloanError,
>)
    ensures
        amount > escrow ==> r == Err::<LamportBalances, DexloanError>(
            DexloanError::InsufficientFunds,
        ),
        amount <= escrow && to + amount > u64::MAX ==> r == Err::<LamportBalances, DexloanError>(
            DexloanError::NumericalOverflow,
        ),
        amount <= escrow && to + amount <= u64::MAX ==> r == Ok::<LamportBalances, DexloanError>(
            (LamportBalances { from: (escrow - amount) as u64, to: (to + amount) as u64 }),
        ),
{
    let from = match escrow.checked_sub(amount) {
        Some(f) => f,
        None => {
            return Err(DexloanError::InsufficientFunds);
        },
    };
    match to.checked_add(amount) {
        Some(t) => Ok(LamportBalances { from, to: t }),
        None => Err(DexloanError::NumericalOverflow),
    }
}


/// The earned share never exceeds the balance.
proof fn lemma_earned_at_most_balance(balance: nat, start: int, end: int, now: int)
    ensures
        earned_amount(balance, start, end, now) <= balance,
{
    if start < now && now < end {
        let x = now - start;
        let y = end - start;
        assert(balance * x / y <= balance) by (nonlinear_arith)
            requires
                0 < x <= y,
                balance >= 0,
        ;
    }
}

/// Two withdrawals inside one period, the second accruing from the first:
/// together they pay at most, and at most one lamport less than, a single
/// withdrawal at the second time.
proof fn lemma_two_withdrawals_in_period(bal: int, d: int, a: int, b: int)
    requires
        bal >= 0,
        d > 0,
        a > 0,
        b > 0,
        a + b <= d,
    ensures
        ({
            let w1 = bal * a / d;
            let w2 = (bal - w1) * b / (d - a);
            let w = bal * (a + b) / d;
            &&& 0 <= w1 <= bal
            &&& 0 <= w2
            &&& w1 + w2 <= w
            &&& w <= w1 + w2 + 1
            &&& w <= bal
        }),
{
    let w1 = bal * a / d;
    let r1 = bal * a % d;
    assert(bal * a >= 0) by (nonlinear_arith)
        requires
            bal >= 0,
            a > 0,
    ;
    lemma_fundamental_div_mod(bal * a, d);
    lemma_mod_pos_bound(bal * a, d);
    assert(w1 <= bal) by (nonlinear_arith)
        requires
            bal * a == d * w1 + r1,
            r1 >= 0,
            a <= d,
            d > 0,
            bal >= 0,
    ;
    assert(w1 >= 0) by (nonlinear_arith)
        requires
            bal * a == d * w1 + r1,
            r1 < d,
            bal * a >= 0,
            d > 0,
    ;
    let d1 = d - a;
    let b1 = bal - w1;
    assert(b1 * d == bal * d1 + r1) by (nonlinear_arith)
        requires
            bal * a == d * w1 + r1,
            d1 == d - a,
            b1 == bal - w1,
    ;
    assert(b1 * b >= 0) by (nonlinear_arith)
        requires
            b1 >= 0,
            b > 0,
    ;
    let w2 = b1 * b / d1;
    let r2 = b1 * b % d1;
    lemma_fundamental_div_mod(b1 * b, d1);
    lemma_mod_pos_bound(b1 * b, d1);
    assert(w2 >= 0) by (nonlinear_arith)
        requires
            b1 * b == d1 * w2 + r2,
            r2 < d1,
            b1 * b >= 0,
            d1 > 0,
    ;
    assert(d1 * w2 * d <= b1 * b * d) by (nonlinear_arith)
        requires
            b1 * b == d1 * w2 + r2,
            r2 >= 0,
            d > 0,
    ;
    assert(b1 * b * d == bal * b * d1 + r1 * b) by (nonlinear_arith)
        requires
            b1 * d == bal * d1 + r1,
    ;
    assert(r1 * b <= r1 * d1) by (nonlinear_arith)
        requires
            r1 >= 0,
            b <= d1,
    ;
    assert((w2 * d) * d1 <= (bal * b + r1) * d1) by (nonlinear_arith)
        requires
            d1 * w2 * d <= b1 * b * d,
            b1 * b * d == bal * b * d1 + r1 * b,
            r1 * b <= r1 * d1,
    ;
    assert(w2 * d <= bal * b + r1) by (nonlinear_arith)
        requires
            (w2 * d) * d1 <= (bal * b + r1) * d1,
            d1 > 0,
    ;
    let w = bal * (a + b) / d;
    let rw = bal * (a + b) % d;
    assert(bal * (a + b) >= 0) by (nonlinear_arith)
        requires
            bal >= 0,
            a + b > 0,
    ;
    lemma_fundamental_div_mod(bal * (a + b), d);
    lemma_mod_pos_bound(bal * (a + b), d);
    assert(bal * (a + b) == bal * a + bal * b) by (nonlinear_arith);
    assert(w1 + w2 <= w) by (nonlinear_arith)
        requires
            d * w1 + r1 == bal * a,
            w2 * d <= bal * b + r1,
            bal * (a + b) == d * w + rw,
            bal * (a + b) == bal * a + bal * b,
            rw < d,
            d > 0,
    ;
    assert(bal * b * d1 < (w2 + 1) * d * d1) by (nonlinear_arith)
        requires
            b1 * b == d1 * w2 + r2,
            r2 < d1,
            b1 * b * d == bal * b * d1 + r1 * b,
            r1 * b >= 0,
            d > 0,
    ;
    assert(bal * b < (w2 + 1) * d) by (nonlinear_arith)
        requires
            bal * b * d1 < (w2 + 1) * d * d1,
            d1 > 0,
    ;
    assert(w <= w1 + w2 + 1) by (nonlinear_arith)
        requires
            bal * (a + b) == d * w + rw,
            rw >= 0,
            bal * (a + b) == bal * a + bal * b,
            bal * a == d * w1 + r1,
            r1 < d,
            bal * b < (w2 + 1) * d,
            d > 0,
    ;
    assert(w <= bal) by (nonlinear_arith)
        requires
            bal * (a + b) == d * w + rw,
            rw >= 0,
            a + b <= d,
            bal >= 0,
            d > 0,
    ;
}

/// Repeated withdrawals never overpay: withdrawing the earned share at `t1`,
/// then again at `t2` with accrual restarted at `t1`, pays out no more than
/// the balance, no more than a single withdrawal at `t2` would, and at most
/// one lamport (of rounding) less.
pub proof fn lemma_withdrawals_compose(balance: nat, start: int, end: int, t1: int, t2: int)
    requires
        start <= t1 <= t2,
    ensures
        ({
            let first = earned_amount(balance, start, end, t1);
            let second = earned_amount((balance - first) as nat, t1, end, t2);
            let once = earned_amount(balance, start, end, t2);
            &&& first <= balance
            &&& first + second <= balance
            &&& first + second <= once
            &&& once <= first + second + 1
        }),
{
    let first = earned_amount(balance, start, end, t1);
    let rest = (balance - first) as nat;
    if t1 >= end {
        assert(first == balance);
        assert(rest == 0);
    } else if t1 == start {
        assert(first == 0);
        assert(rest == balance);
        lemma_earned_at_most_balance(balance, start, end, t2);
    } else {
        let a = t1 - start;
        let d = end - start;
        assert(balance * a / d <= balance) by (nonlinear_arith)
            requires
                0 < a <= d,
                balance >= 0,
        ;
        assert(first == balance * a / d);
        if t2 >= end {
            assert(earned_amount(rest, t1, end, t2) == rest);
        } else if t2 == t1 {
            assert(earned_amount(rest, t1, end, t2) == 0);
        } else {
            let b = t2 - t1;
            lemma_two_withdrawals_in_period(balance as int, d, a, b);
            assert(((end - t1) as nat) as int == d - a);
            assert(((t2 - t1) as nat) as int == b);
            assert(earned_amount(rest, t1, end, t2) == rest * b / (d - a));
            assert(((t2 - start) as nat) as int == a + b);
            assert(earned_amount(balance, start, end, t2) == balance * (a + b) / d);
        }
    }
}


/// Who holds the hired token: the borrower while it is hired, else the lender.
pub open spec fn hire_holder(hire: Hire) -> Seq<u8> {
    if hire.state == HireState::Hired {
        hire.borrower->0@
    } else {
        hire.lender@
    }
}

/// The token account of whoever holds the hired token.
pub fn holder_of(hire: &Hire) -> (r: AccountKey)
    requires
        hire.wf(),
    ensures
        r@ == hire_holder(*hire),
{
    match (hire.state, hire.borrower) {
        (HireState::Hired, Some(b)) => b,
        _ => hire.lender,
    }
}

/// Why offering a hire is refused, if it is.
pub open spec fn init_hire_refusal(
    locks: AccountState,
    manager: Seq<u8>,
    deposit: TokenAccountState,
    args: HireArgs,
    now: i64,
) -> Option<DexloanError> {
    if args.expiry <= now {
        Some(DexloanError::InvalidExpiry)
    } else if args.amount == 0 && args.borrower is None {
        Some(DexloanError::BorrowerNotSpecified)
    } else if locks.hire {
        Some(DexloanError::ConflictingClaim)
    } else if !locks.is_locked() && delegation_outcome(deposit, manager) is Err {
        Some(delegation_outcome(deposit, manager)->Err_0)
    } else {
        None
    }
}

/// Offers `lender`'s token for hire at `args.amount` lamports a day until
/// `args.expiry`, optionally to one named borrower only. The token manager
/// takes the hire lock; the lender's token account `deposit` is frozen and
/// delegated to the manager at `manager` unless another lock already holds
/// it. The expiry must lie after `now`, and a free hire must name its
/// borrower.
pub fn handle_init_hire(
    token_manager: &mut TokenManager,
    manager: &AccountKey,
    deposit: &TokenAccountState,
    lender: &AccountKey,
    mint: &AccountKey,
    args: &HireArgs,
    now: i64,
    bump: u8,
) -> (r: Result<(Hire, DelegationPlan), DexloanError>)
    requires
        old(token_manager).wf(),
    ensures
        final(token_manager).wf(),
        init_hire_refusal(old(token_manager).accounts, manager@, *deposit, *args, now) matches Some(
            e,
        ) ==> r == Err::<(Hire, DelegationPlan), DexloanError>(e) && *final(token_manager) == *old(
            token_manager,
        ),
        init_hire_refusal(old(token_manager).accounts, manager@, *deposit, *args, now) is None
            ==> r is Ok,
        r matches Ok((hire, plan)) ==> {
            &&& hire == (Hire {
                state: HireState::Listed,
                amount: args.amount,
                lender: *lender,
                borrower: args.borrower,
                expiry: args.expiry,
                current_start: None,
                current_expiry: None,
                escrow_balance: 0,
                mint: *mint,
                bump,
            })
            &&& hire.wf()
            &&& final(token_manager).accounts == old(token_manager).accounts.with(
                ClaimKind::Hire,
                true,
            )
            &&& final(token_manager).bump == old(token_manager).bump
            &&& plan == if old(token_manager).accounts.is_locked() {
                DelegationPlan::Keep
            } else {
                delegation_outcome(*deposit, manager@)->Ok_0
            }
        },
{
    if args.expiry <= now {
        return Err(DexloanError::InvalidExpiry);
    }
    if args.amount == 0 && args.borrower.is_none() {
        return Err(DexloanError::BorrowerNotSpecified);
    }
    if token_manager.accounts.hire {
        return Err(DexloanError::ConflictingClaim);
    }
    let plan = if token_manager.accounts.any_locked() {
        DelegationPlan::Keep
    } else {
        match plan_delegation(deposit, manager) {
            Ok(p) => p,
            Err(e) => {
                return Err(e);
            },
        }
    };
    token_manager.acquire(ClaimKind::Hire);
    let hire = Hire {
        state: HireState::Listed,
        amount: args.amount,
        lender: *lender,
        borrower: args.borrower,
        expiry: args.expiry,
        current_start: None,
        current_expiry: None,
        escrow_balance: 0,
        mint: *mint,
        bump,
    };
    Ok((hire, plan))
}

/// When a period of `days` days starting at `now` would end.
pub open spec fn period_end(now: i64, days: u16) -> int {
    now + days * SECONDS_PER_DAY
}

/// Why taking a hire is refused, if it is.
pub open spec fn take_hire_refusal(hire: Hire, borrower: Seq<u8>, days: u16, now: i64) -> Option<
    DexloanError,
> {
    if hire.state != HireState::Listed {
        Some(DexloanError::InvalidState)
    } else if hire.borrower matches Some(b) && b@ != borrower {
        Some(DexloanError::IdentityMismatch)
    } else if period_end(now, days) > i64::MAX {
        Some(DexloanError::NumericalOverflow)
    } else if period_end(now, days) > hire.expiry {
        Some(DexloanError::InvalidExpiry)
    } else if hire_fee(hire, days) > u64::MAX {
        Some(DexloanError::NumericalOverflow)
    } else {
        None
    }
}

/// What taking a hire asks of the ledger.
#[derive(Clone, Copy, Debug)]
pub struct HireTaken {
    /// Lamports the borrower pays into the escrow: the fee for every day.
    pub escrow_payment: u64,
    /// The token goes from the lender's account to the borrower's, frozen
    /// there under the token manager.
    pub token: TokenMove,
}

/// `borrower` takes a listed hire for `days` days from `now`, paying the
/// whole fee into the escrow up front. A hire offered to a named borrower
/// can be taken by that borrower only, and the period must end by the
/// hire's expiry.
pub fn handle_take_hire(hire: &mut Hire, borrower: &AccountKey, days: u16, now: i64) -> (r: Result<
    HireTaken,
    DexloanError,
>)
    requires
        old(hire).wf(),
    ensures
        final(hire).wf(),
        take_hire_refusal(*old(hire), borrower@, days, now) matches Some(e) ==> r == Err::<
            HireTaken,
            DexloanError,
        >(e) && *final(hire) == *old(hire),
        take_hire_refusal(*old(hire), borrower@, days, now) is None ==> r is Ok,
        r matches Ok(t) ==> {
            &&& t.escrow_payment == hire_fee(*old(hire), days)
            &&& *final(hire) == (Hire {
                state: HireState::Hired,
                borrower: Some(*borrower),
                current_start: Some(now),
                current_expiry: Some(period_end(now, days) as i64),
                escrow_balance: t.escrow_payment,
                ..*old(hire)
            })
            &&& t.token.from@ == old(hire).lender@
            &&& t.token.to@ == borrower@
            &&& t.token.refreeze
        },
{
    if hire.state != HireState::Listed {
        return Err(DexloanError::InvalidState);
    }
    match &hire.borrower {
        Some(b) => {
            if !b.same(borrower) {
                return Err(DexloanError::IdentityMismatch);
            }
        },
        None => {},
    }
    let duration = days as i64 * SECONDS_PER_DAY;
    let current_expiry = match now.checked_add(duration) {
        Some(e) => e,
        None => {
            return Err(DexloanError::NumericalOverflow);
        },
    };
    if current_expiry > hire.expiry {
        return Err(DexloanError::InvalidExpiry);
    }
    let fee = match process_payment_to_hire_escrow(hire, days) {
        Ok(f) => f,
        Err(e) => {
            return Err(e);
        },
    };
    hire.state = HireState::Hired;
    hire.borrower = Some(*borrower);
    hire.current_start = Some(now);
    hire.current_expiry = Some(current_expiry);
    Ok(HireTaken {
        escrow_payment: fee,
        token: TokenMove { from: hire.lender, to: *borrower, refreeze: true },
    })
}

/// Why extending a hire is refused, if it is.
pub open spec fn extend_hire_refusal(hire: Hire, borrower: Seq<u8>, days: u16) -> Option<
    DexloanError,
> {
    if hire.state != HireState::Hired || hire.current_expiry is None || hire.borrower is None {
        Some(DexloanError::InvalidState)
    } else if hire.borrower->0@ != borrower {
        Some(DexloanError::IdentityMismatch)
    } else if period_end(hire.current_expiry->0, days) > i64::MAX {
        Some(DexloanError::NumericalOverflow)
    } else if hire_fee(hire, days) > u64::MAX || hire.escrow_balance + hire_fee(hire, days)
        > u64::MAX {
        Some(DexloanError::NumericalOverflow)
    } else {
        None
    }
}

/// The current borrower extends the running period by `days` days and pays
/// their fee into the escrow. The new end is not held to the hire's outer
/// expiry: an extension is a new agreement between lender and borrower.
pub fn handle_extend_hire(hire: &mut Hire, borrower: &AccountKey, days: u16) -> (r: Result<
    u64,
    DexloanError,
>)
    requires
        old(hire).wf(),
    ensures
        final(hire).wf(),
        extend_hire_refusal(*old(hire), borrower@, days) matches Some(e) ==> r == Err::<
            u64,
            DexloanError,
        >(e) && *final(hire) == *old(hire),
        extend_hire_refusal(*old(hire), borrower@, days) is None ==> r is Ok,
        r matches Ok(paid) ==> {
            &&& paid == hire_fee(*old(hire), days)
            &&& *final(hire) == (Hire {
                current_expiry: Some(period_end(old(hire).current_expiry->0, days) as i64),
                escrow_balance: (old(hire).escrow_balance + paid) as u64,
                ..*old(hire)
            })
        },
{
    if hire.state != HireState::Hired {
        return Err(DexloanError::InvalidState);
    }
    let (current_expiry, current) = match (hire.current_expiry, &hire.borrower) {
        (Some(e), Some(b)) => (e, b),
        _ => {
            return Err(DexloanError::InvalidState);
        },
    };
    if !current.same(borrower) {
        return Err(DexloanError::IdentityMismatch);
    }
    let duration = days as i64 * SECONDS_PER_DAY;
    let new_expiry = match current_expiry.checked_add(duration) {
        Some(e) => e,
        None => {
            return Err(DexloanError::NumericalOverflow);
        },
    };
    let fee = match process_payment_to_hire_escrow(hire, days) {
        Ok(f) => f,
        Err(e) => {
            return Err(e);
        },
    };
    hire.current_expiry = Some(new_expiry);
    Ok(fee)
}

/// Why recovering a hire is refused, if it is.
pub open spec fn recover_hire_refusal(hire: Hire, lender: Seq<u8>, now: i64) -> Option<
    DexloanError,
> {
    if hire.lender@ != lender {
        Some(DexloanError::IdentityMismatch)
    } else if hire.state != HireState::Hired || hire.current_expiry is None
        || hire.current_start is None || hire.borrower is None {
        Some(DexloanError::InvalidState)
    } else if hire.current_expiry->0 > now {
        Some(DexloanError::NotExpired)
    } else {
        None
    }
}

/// What recovering a hire asks of the ledger.
#[derive(Clone, Copy, Debug)]
pub struct HireRecovered {
    /// Lamports paid from the escrow to the lender: all of what was left.
    pub escrow_payment: u64,
    /// The token goes back from the borrower's account to the lender's,
    /// frozen there under the token manager.
    pub token: TokenMove,
}

/// The lender takes the token back once the current period has ended, and
/// is paid what is left in the escrow. The hire is listed again, open to any
/// borrower.
pub fn handle_recover_hire(hire: &mut Hire, lender: &AccountKey, now: i64) -> (r: Result<
    HireRecovered,
    DexloanError,
>)
    requires
        old(hire).wf(),
    ensures
        final(hire).wf(),
        recover_hire_refusal(*old(hire), lender@, now) matches Some(e) ==> r == Err::<
            HireRecovered,
            DexloanError,
        >(e) && *final(hire) == *old(hire),
        recover_hire_refusal(*old(hire), lender@, now) is None ==> r is Ok,
        r matches Ok(rec) ==> {
            &&& rec.escrow_payment == old(hire).escrow_balance
            &&& *final(hire) == (Hire {
                state: HireState::Listed,
                borrower: None,
                current_start: None,
                current_expiry: None,
                escrow_balance: 0,
                ..*old(hire)
            })
            &&& rec.token.from@ == old(hire).borrower->0@
            &&& rec.token.to@ == lender@
            &&& rec.token.refreeze
        },
{
    if !lender.same(&hire.lender) {
        return Err(DexloanError::IdentityMismatch);
    }
    if hire.state != HireState::Hired {
        return Err(DexloanError::InvalidState);
    }
    let (current_start, current_expiry, current) = match (
        hire.current_start,
        hire.current_expiry,
        hire.borrower,
    ) {
        (Some(s), Some(e), Some(b)) => (s, e, b),
        _ => {
            return Err(DexloanError::InvalidState);
        },
    };
    if current_expiry > now {
        return Err(DexloanError::NotExpired);
    }
    let paid = earned_share(hire.escrow_balance, current_start, current_expiry, now);
    hire.state = HireState::Listed;
    hire.borrower = None;
    hire.current_start = None;
    hire.current_expiry = None;
    hire.escrow_balance = 0;
    Ok(HireRecovered {
        escrow_payment: paid,
        token: TokenMove { from: current, to: *lender, refreeze: true },
    })
}

/// The lender draws the share of the escrow earned so far, without ending
/// the hire.
pub fn handle_withdraw_from_hire_escrow(hire: &mut Hire, lender: &AccountKey, now: i64) -> (r:
    Result<Withdrawal, DexloanError>)
    requires
        old(hire).wf(),
    ensures
        final(hire).wf(),
        lender@ != old(hire).lender@ ==> r == Err::<Withdrawal, DexloanError>(
            DexloanError::IdentityMismatch,
        ),
        lender@ == old(hire).lender@ && old(hire).current_start is None ==> r == Err::<
            Withdrawal,
            DexloanError,
        >(DexloanError::InvalidState),
        lender@ == old(hire).lender@ && old(hire).current_start is Some ==> r is Ok,
        r matches Ok(w) ==> w.paid == hire_earned(*old(hire), now as int) && *final(hire)
            == after_withdrawal(*old(hire), now),
        r is Err ==> *final(hire) == *old(hire),
{
    withdraw_from_hire_escrow(hire, lender, now)
}

/// Why closing a hire is refused, if it is.
pub open spec fn close_hire_refusal(locks: AccountState, hire: Hire, lender: Seq<u8>) -> Option<
    DexloanError,
> {
    if hire.lender@ != lender {
        Some(DexloanError::IdentityMismatch)
    } else if hire.borrower is Some || hire.state == HireState::Hired || !locks.hire {
        Some(DexloanError::InvalidState)
    } else {
        None
    }
}

/// The lender withdraws a hire that nobody holds or is promised. The hire
/// lock is dropped; the token is thawed only if no loan or call option
/// still holds it.
pub fn handle_close_hire(token_manager: &mut TokenManager, hire: &Hire, lender: &AccountKey) -> (r:
    Result<LockAction, DexloanError>)
    requires
        old(token_manager).wf(),
    ensures
        final(token_manager).wf(),
        close_hire_refusal(old(token_manager).accounts, *hire, lender@) matches Some(e) ==> r
            == Err::<LockAction, DexloanError>(e) && *final(token_manager) == *old(token_manager),
        close_hire_refusal(old(token_manager).accounts, *hire, lender@) is None ==> r is Ok,
        r matches Ok(action) ==> {
            &&& final(token_manager).accounts == old(token_manager).accounts.with(
                ClaimKind::Hire,
                false,
            )
            &&& final(token_manager).bump == old(token_manager).bump
            &&& action == release_action(final(token_manager).accounts)
        },
{
    if !lender.same(&hire.lender) {
        return Err(DexloanError::IdentityMismatch);
    }
    if hire.borrower.is_some() || hire.state == HireState::Hired || !token_manager.accounts.hire {
        return Err(DexloanError::InvalidState);
    }
    Ok(token_manager.release(ClaimKind::Hire))
}

} // verus!
