use vstd::prelude::*;
use crate::error::DexloanError;
use crate::fees::{calculate_loan_repayment, repayment_result};
use crate::hire::{
    Hire, HireState, Settlement, after_withdrawal, hire_earned, hire_holder, holder_of,
    settle_hire_escrow_balance,
};
use crate::key::AccountKey;
use crate::metadata::Payment;
use crate::token_manager::{
    AccountState, ClaimKind, DelegationPlan, LockAction, TokenAccountState, TokenManager, TokenMove,
    delegation_outcome, plan_delegation, release_action,
};

verus! {

/// Where a loan stands.
#[derive(Clone, Copy, Debug, PartialEq, Eq, Structural)]
pub enum LoanState {
    /// Offered by the borrower, not yet funded.
    Listed,
    /// Funded: the borrower holds the principal.
    Active,
    /// Not repaid in time: the lender took the collateral.
    Defaulted,
}

/// A fixed-term loan against a collateral token.
#[derive(Clone, Copy, Debug)]
pub struct Loan {
    pub state: LoanState,
    /// The principal, in lamports.
    pub amount: u64,
    /// The owner of the collateral, who borrows.
    pub borrower: AccountKey,
    /// Who funded the loan; meaningful once it is active.
    pub lender: AccountKey,
    /// The yearly interest rate, in basis points.
    pub basis_points: u32,
    /// The term of the loan, in seconds.
    pub duration: u64,
    /// When the loan was funded.
    pub start_date: i64,
    /// The mint of the collateral token.
    pub mint: AccountKey,
    pub bump: u8,
}

impl Loan {
    /// Bytes that a loan account takes on chain.
    pub fn space() -> (r: usize)
        ensures
            r == 8 + 1 + 8 + 32 + 32 + 4 + 8 + 8 + 32 + 64 + 1,
    {
        8 + 1 + 8 + 32 + 32 + 4 + 8 + 8 + 32 + 64 + 1
    }
}

/// A freshly listed loan with the given terms.
pub open spec fn listed_loan(
    borrower: AccountKey,
    mint: AccountKey,
    amount: u64,
    basis_points: u32,
    duration: u64,
    bump: u8,
    lender: AccountKey,
) -> Loan {
    Loan {
        state: LoanState::Listed,
        amount,
        borrower,
        lender,
        basis_points,
        duration,
        start_date: 0,
        mint,
        bump,
    }
}

/// Why listing a loan against an unencumbered token is refused, if it is.
pub open spec fn init_loan_refusal(
    locks: AccountState,
    manager: Seq<u8>,
    deposit: TokenAccountState,
) -> Option<DexloanError> {
    if locks.is_locked() {
        Some(DexloanError::ConflictingClaim)
    } else if delegation_outcome(deposit, manager) is Err {
        Some(delegation_outcome(deposit, manager)->Err_0)
    } else {
        None
    }
}

/// `borrower` lists a loan of `amount` lamports at `basis_points` a year for
/// `duration` seconds against a token that no claim holds. The token
/// manager takes the loan lock, and the borrower's token account `deposit`
/// is frozen and delegated to the manager at `manager`.
pub fn handle_init_loan(
    token_manager: &mut TokenManager,
    manager: &AccountKey,
    deposit: &TokenAccountState,
    borrower: &AccountKey,
    mint: &AccountKey,
    amount: u64,
    basis_points: u32,
    duration: u64,
    bump: u8,
) -> (r: Result<(Loan, DelegationPlan), DexloanError>)
    requires
        old(token_manager).wf(),
    ensures
        final(token_manager).wf(),
        init_loan_refusal(old(token_manager).accounts, manager@, *deposit) matches Some(e) ==> r
            == Err::<(Loan, DelegationPlan), DexloanError>(e) && *final(token_manager) == *old(
            token_manager,
        ),
        init_loan_refusal(old(token_manager).accounts, manager@, *deposit) is None ==> r is Ok,
        r matches Ok((loan, plan)) ==> {
            &&& loan == listed_loan(*borrower, *mint, amount, basis_points, duration, bump, loan.lender)
            &&& final(token_manager).accounts == old(token_manager).accounts.with(
                ClaimKind::Loan,
                true,
            )
            &&& final(token_manager).bump == old(token_manager).bump
            &&& plan == delegation_outcome(*deposit, manager@)->Ok_0
        },
{
    if token_manager.accounts.any_locked() {
        return Err(DexloanError::ConflictingClaim);
    }
    let plan = match plan_delegation(deposit, manager) {
        Ok(p) => p,
        Err(e) => {
            return Err(e);
        },
    };
    token_manager.acquire(ClaimKind::Loan);
    Ok(
        (
            Loan {
                state: LoanState::Listed,
                amount,
                borrower: *borrower,
                lender: *borrower,
                basis_points,
                duration,
                start_date: 0,
                mint: *mint,
                bump,
            },
            plan,
        ),
    )
}

/// Why listing a loan against a hired-out token is refused, if it is.
pub open spec fn init_loan_with_hire_refusal(locks: AccountState, hire: Hire, borrower: Seq<u8>) -> Option<
    DexloanError,
> {
    if !locks.hire || hire.state != HireState::Hired {
        Some(DexloanError::InvalidState)
    } else if locks.loan || locks.call_option {
        Some(DexloanError::ConflictingClaim)
    } else if hire.lender@ != borrower {
        Some(DexloanError::IdentityMismatch)
    } else {
        None
    }
}

/// The lender of a running hire lists a loan against the hired-out token.
/// The token stays frozen with the hire's borrower; the manager adds the
/// loan lock beside the hire lock.
pub fn handle_init_loan_with_hire(
    token_manager: &mut TokenManager,
    hire: &Hire,
    borrower: &AccountKey,
    mint: &AccountKey,
    amount: u64,
    basis_points: u32,
    duration: u64,
    bump: u8,
) -> (r: Result<Loan, DexloanError>)
    requires
        old(token_manager).wf(),
    ensures
        final(token_manager).wf(),
        init_loan_with_hire_refusal(old(token_manager).accounts, *hire, borrower@) matches Some(e)
            ==> r == Err::<Loan, DexloanError>(e) && *final(token_manager) == *old(token_manager),
        init_loan_with_hire_refusal(old(token_manager).accounts, *hire, borrower@) is None ==> r is Ok,
        r matches Ok(loan) ==> {
            &&& loan == listed_loan(*borrower, *mint, amount, basis_points, duration, bump, loan.lender)
            &&& final(token_manager).accounts == old(token_manager).accounts.with(
                ClaimKind::Loan,
                true,
            )
            &&& final(token_manager).bump == old(token_manager).bump
        },
{
    if !token_manager.accounts.hire || hire.state != HireState::Hired {
        return Err(DexloanError::InvalidState);
    }
    if token_manager.accounts.loan || token_manager.accounts.call_option {
        return Err(DexloanError::ConflictingClaim);
    }
    if !hire.lender.same(borrower) {
        return Err(DexloanError::IdentityMismatch);
    }
    token_manager.acquire(ClaimKind::Loan);
    Ok(
        Loan {
            state: LoanState::Listed,
            amount,
            borrower: *borrower,
            lender: *borrower,
            basis_points,
            duration,
            start_date: 0,
            mint: *mint,
            bump,
        },
    )
}

/// `lender` funds a listed loan at `now`, paying the principal to the
/// borrower. Nobody funds their own loan.
pub fn handle_give_loan(loan: &mut Loan, lender: &AccountKey, now: i64) -> (r: Result<
    Payment,
    DexloanError,
>)
    ensures
        old(loan).state != LoanState::Listed ==> r == Err::<Payment, DexloanError>(
            DexloanError::InvalidState,
        ),
        old(loan).state == LoanState::Listed && lender@ == old(loan).borrower@ ==> r == Err::<
            Payment,
            DexloanError,
        >(DexloanError::IdentityMismatch),
        r is Err ==> *final(loan) == *old(loan),
        (old(loan).state == LoanState::Listed && lender@ != old(loan).borrower@) <==> r is Ok,
        r matches Ok(p) ==> {
            &&& *final(loan) == (Loan {
                state: LoanState::Active,
                lender: *lender,
                start_date: now,
                ..*old(loan)
            })
            &&& p.from@ == lender@
            &&& p.to@ == old(loan).borrower@
            &&& p.amount == old(loan).amount
        },
{
    if loan.state != LoanState::Listed {
        return Err(DexloanError::InvalidState);
    }
    if lender.same(&loan.borrower) {
        return Err(DexloanError::IdentityMismatch);
    }
    loan.state = LoanState::Active;
    loan.lender = *lender;
    loan.start_date = now;
    Ok(Payment { from: *lender, to: loan.borrower, amount: loan.amount })
}

/// Why repaying a loan at `now` is refused, if it is.
pub open spec fn repay_refusal(
    locks: AccountState,
    loan: Loan,
    borrower: Seq<u8>,
    now: i64,
    allow_late: bool,
) -> Option<DexloanError> {
    if loan.borrower@ != borrower {
        Some(DexloanError::IdentityMismatch)
    } else if loan.state != LoanState::Active || !locks.loan {
        Some(DexloanError::InvalidState)
    } else if !allow_late && loan_overdue(loan, now) {
        Some(DexloanError::RepaymentOverdue)
    } else if repayment_result(loan.amount as nat, loan.basis_points as nat, loan.duration as nat) is Err {
        Some(DexloanError::NumericalOverflow)
    } else {
        None
    }
}

/// What repaying a loan asks of the ledger.
#[derive(Clone, Copy, Debug)]
pub struct Repayment {
    /// The principal and interest, from the borrower to the lender.
    pub payment: Payment,
    /// What happens to the collateral once the loan lock is dropped.
    pub lock: LockAction,
}

/// The borrower repays an active loan at `now`: principal plus the interest
/// for the whole term, however early it is paid. Once the term has run out
/// (and until the lender repossesses), repayment is accepted only when
/// `allow_late` holds, and then owes the same amount. The loan lock is
/// dropped, and the collateral thawed unless a hire still holds it; the loan
/// record is then closed.
pub fn handle_repay_loan(
    token_manager: &mut TokenManager,
    loan: &Loan,
    borrower: &AccountKey,
    now: i64,
    allow_late: bool,
) -> (r: Result<Repayment, DexloanError>)
    requires
        old(token_manager).wf(),
    ensures
        final(token_manager).wf(),
        repay_refusal(old(token_manager).accounts, *loan, borrower@, now, allow_late) matches Some(e) ==> r == Err::<
            Repayment,
            DexloanError,
        >(e) && *final(token_manager) == *old(token_manager),
        repay_refusal(old(token_manager).accounts, *loan, borrower@, now, allow_late) is None ==> r is Ok,
        r matches Ok(rep) ==> {
            &&& Ok::<u64, DexloanError>(rep.payment.amount) == repayment_result(
                loan.amount as nat,
                loan.basis_points as nat,
                loan.duration as nat,
            )
            &&& rep.payment.from@ == loan.borrower@
            &&& rep.payment.to@ == loan.lender@
            &&& final(token_manager).accounts == old(token_manager).accounts.with(
                ClaimKind::Loan,
                false,
            )
            &&& final(token_manager).bump == old(token_manager).bump
            &&& rep.lock == release_action(final(token_manager).accounts)
        },
{
    if !loan.borrower.same(borrower) {
        return Err(DexloanError::IdentityMismatch);
    }
    if loan.state != LoanState::Active || !token_manager.accounts.loan {
        return Err(DexloanError::InvalidState);
    }
    if !allow_late && is_overdue(loan, now) {
        return Err(DexloanError::RepaymentOverdue);
    }
    let amount_due = match calculate_loan_repayment(loan.amount, loan.basis_points, loan.duration) {
        Ok(a) => a,
        Err(e) => {
            return Err(e);
        },
    };
    let lock = token_manager.release(ClaimKind::Loan);
    Ok(Repayment { payment: Payment { from: loan.borrower, to: loan.lender, amount: amount_due }, lock })
}

/// Whether a loan funded at `start_date` is due at `now`: its whole term
/// has elapsed.
pub open spec fn loan_overdue(loan: Loan, now: i64) -> bool {
    now - loan.start_date >= loan.duration
}

/// Why repossessing a loan's collateral is refused, if it is.
pub open spec fn repossess_refusal(locks: AccountState, loan: Loan, lender: Seq<u8>, now: i64) -> Option<
    DexloanError,
> {
    if loan.lender@ != lender {
        Some(DexloanError::IdentityMismatch)
    } else if loan.state != LoanState::Active || !locks.loan || locks.hire {
        Some(DexloanError::InvalidState)
    } else if !loan_overdue(loan, now) {
        Some(DexloanError::NotOverdue)
    } else {
        None
    }
}

/// The time elapsed since `start`, when it is not negative.
fn elapsed_since(start: i64, now: i64) -> (r: Option<u64>)
    ensures
        now >= start ==> r == Some((now - start) as u64),
        now < start ==> r is None,
{
    if now < start {
        None
    } else {
        Some((now as i128 - start as i128) as u64)
    }
}

/// Whether the loan's whole term has elapsed at `now`.
fn is_overdue(loan: &Loan, now: i64) -> (r: bool)
    ensures
        r == loan_overdue(*loan, now),
{
    match elapsed_since(loan.start_date, now) {
        None => false,
        Some(elapsed) => elapsed >= loan.duration,
    }
}

/// The lender of an unpaid loan takes the collateral once the term has run
/// out: at `start_date + duration` exactly, and at any time after. The loan
/// defaults, its lock is dropped, and the token moves from the borrower to
/// the lender, free.
pub fn handle_repossess(
    token_manager: &mut TokenManager,
    loan: &mut Loan,
    lender: &AccountKey,
    now: i64,
) -> (r: Result<TokenMove, DexloanError>)
    requires
        old(token_manager).wf(),
    ensures
        final(token_manager).wf(),
        repossess_refusal(old(token_manager).accounts, *old(loan), lender@, now) matches Some(e)
            ==> r == Err::<TokenMove, DexloanError>(e) && *final(token_manager) == *old(
            token_manager,
        ) && *final(loan) == *old(loan),
        repossess_refusal(old(token_manager).accounts, *old(loan), lender@, now) is None ==> r is Ok,
        r matches Ok(mv) ==> {
            &&& *final(loan) == (Loan { state: LoanState::Defaulted, ..*old(loan) })
            &&& final(token_manager).accounts == old(token_manager).accounts.with(
                ClaimKind::Loan,
                false,
            )
            &&& !final(token_manager).accounts.is_locked()
            &&& final(token_manager).bump == old(token_manager).bump
            &&& mv.from@ == old(loan).borrower@
            &&& mv.to@ == lender@
            &&& !mv.refreeze
        },
{
    if !loan.lender.same(lender) {
        return Err(DexloanError::IdentityMismatch);
    }
    if loan.state != LoanState::Active || !token_manager.accounts.loan
        || token_manager.accounts.hire {
        return Err(DexloanError::InvalidState);
    }
    if !is_overdue(loan, now) {
        return Err(DexloanError::NotOverdue);
    }
    loan.state = LoanState::Defaulted;
    token_manager.release(ClaimKind::Loan);
    Ok(TokenMove { from: loan.borrower, to: *lender, refreeze: false })
}

/// Why repossessing a loan's hired-out collateral is refused, if it is.
pub open spec fn repossess_with_hire_refusal(
    locks: AccountState,
    loan: Loan,
    hire: Hire,
    lender: Seq<u8>,
    now: i64,
) -> Option<DexloanError> {
    if loan.lender@ != lender || hire.lender@ != loan.borrower@ {
        Some(DexloanError::IdentityMismatch)
    } else if loan.state != LoanState::Active || !locks.loan || !locks.hire {
        Some(DexloanError::InvalidState)
    } else if !loan_overdue(loan, now) {
        Some(DexloanError::NotOverdue)
    } else {
        None
    }
}

/// What repossessing hired-out collateral asks of the ledger.
#[derive(Clone, Copy, Debug)]
pub struct RepossessionWithHire {
    /// How the hire's escrow is wound up, when the token was hired out.
    pub settlement: Option<Settlement>,
    /// The token goes from whoever holds it to the lender, free.
    pub token: TokenMove,
}

/// The lender of an unpaid loan takes collateral that its borrower has also
/// hired out. Besides defaulting the loan, the hire ends: if the token is
/// hired, the hire's lender (the loan's borrower) is paid the escrow earned
/// so far and the hire's borrower is refunded the rest. Both locks are
/// dropped and the hire record is then closed.
pub fn handle_repossess_with_hire(
    token_manager: &mut TokenManager,
    loan: &mut Loan,
    hire: &mut Hire,
    lender: &AccountKey,
    now: i64,
) -> (r: Result<RepossessionWithHire, DexloanError>)
    requires
        old(token_manager).wf(),
        old(hire).wf(),
    ensures
        final(token_manager).wf(),
        repossess_with_hire_refusal(old(token_manager).accounts, *old(loan), *old(hire), lender@, now)
            matches Some(e) ==> {
            &&& r == Err::<RepossessionWithHire, DexloanError>(e)
            &&& *final(token_manager) == *old(token_manager)
            &&& *final(loan) == *old(loan)
            &&& *final(hire) == *old(hire)
        },
        repossess_with_hire_refusal(old(token_manager).accounts, *old(loan), *old(hire), lender@, now)
            is None ==> r is Ok,
        r matches Ok(rep) ==> {
            &&& *final(loan) == (Loan { state: LoanState::Defaulted, ..*old(loan) })
            &&& final(token_manager).accounts == old(token_manager).accounts.with(
                ClaimKind::Loan,
                false,
            ).with(ClaimKind::Hire, false)
            &&& !final(token_manager).accounts.is_locked()
            &&& final(token_manager).bump == old(token_manager).bump
            &&& rep.token.from@ == hire_holder(*old(hire))
            &&& rep.token.to@ == lender@
            &&& !rep.token.refreeze
            &&& old(hire).state == HireState::Hired ==> (rep.settlement matches Some(s) && {
                &&& s.to_lender == hire_earned(*old(hire), now as int)
                &&& s.to_borrower == old(hire).escrow_balance - s.to_lender
                &&& s.borrower == old(hire).borrower
                &&& *final(hire) == (Hire { escrow_balance: 0, ..after_withdrawal(*old(hire), now) })
            })
            &&& old(hire).state != HireState::Hired ==> rep.settlement is None && *final(hire)
                == *old(hire)
        },
{
    if !loan.lender.same(lender) || !hire.lender.same(&loan.borrower) {
        return Err(DexloanError::IdentityMismatch);
    }
    if loan.state != LoanState::Active || !token_manager.accounts.loan
        || !token_manager.accounts.hire {
        return Err(DexloanError::InvalidState);
    }
    if !is_overdue(loan, now) {
        return Err(DexloanError::NotOverdue);
    }
    let from = holder_of(hire);
    let settlement = if hire.state == HireState::Hired {
        let hire_lender = loan.borrower;
        match settle_hire_escrow_balance(hire, &hire_lender, now) {
            Ok(s) => Some(s),
            Err(e) => {
                return Err(e);
            },
        }
    } else {
        None
    };
    loan.state = LoanState::Defaulted;
    token_manager.release(ClaimKind::Loan);
    token_manager.release(ClaimKind::Hire);
    Ok(RepossessionWithHire { settlement, token: TokenMove { from, to: *lender, refreeze: false } })
}

/// Why closing a loan is refused, if it is.
pub open spec fn close_loan_refusal(locks: AccountState, loan: Loan, borrower: Seq<u8>) -> Option<
    DexloanError,
> {
    if loan.borrower@ != borrower {
        Some(DexloanError::IdentityMismatch)
    } else if loan.state == LoanState::Active || (loan.state == LoanState::Listed && !locks.loan) {
        Some(DexloanError::InvalidState)
    } else {
        None
    }
}

/// The borrower closes a loan that was never funded, dropping its lock (the
/// collateral is thawed unless a hire still holds it), or clears away a
/// defaulted one, whose lock went with the collateral. No lamports move.
pub fn handle_close_loan(token_manager: &mut TokenManager, loan: &Loan, borrower: &AccountKey) -> (r:
    Result<LockAction, DexloanError>)
    requires
        old(token_manager).wf(),
    ensures
        final(token_manager).wf(),
        close_loan_refusal(old(token_manager).accounts, *loan, borrower@) matches Some(e) ==> r
            == Err::<LockAction, DexloanError>(e) && *final(token_manager) == *old(token_manager),
        close_loan_refusal(old(token_manager).accounts, *loan, borrower@) is None ==> r is Ok,
        r matches Ok(action) ==> {
            &&& loan.state == LoanState::Listed ==> final(token_manager).accounts == old(
                token_manager,
            ).accounts.with(ClaimKind::Loan, false) && action == release_action(
                final(token_manager).accounts,
            )
            &&& loan.state == LoanState::Defaulted ==> *final(token_manager) == *old(token_manager)
                && action == LockAction::Nothing
            &&& final(token_manager).bump == old(token_manager).bump
        },
{
    if !loan.borrower.same(borrower) {
        return Err(DexloanError::IdentityMismatch);
    }
    match loan.state {
        LoanState::Active => Err(DexloanError::InvalidState),
        LoanState::Listed => {
            if !token_manager.accounts.loan {
                return Err(DexloanError::InvalidState);
            }
            Ok(token_manager.release(ClaimKind::Loan))
        },
        LoanState::Defaulted => Ok(LockAction::Nothing),
    }
}

} // verus!
