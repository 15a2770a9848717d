use vstd::prelude::*;
use crate::error::DexloanError;
use crate::key::AccountKey;

verus! {

/// The three kinds of claim that can hold a lock on a collateral token.
#[derive(Clone, Copy, Debug, PartialEq, Eq, Structural)]
pub enum ClaimKind {
    Loan,
    CallOption,
    Hire,
}

/// Which claim kinds currently hold a lock on the collateral.
#[derive(Clone, Copy, Debug, PartialEq, Eq, Structural)]
pub struct AccountState {
    pub loan: bool,
    pub call_option: bool,
    pub hire: bool,
}

/// What the token ledger must do to the collateral's token account after a
/// lock changes hands.
#[derive(Clone, Copy, Debug, PartialEq, Eq, Structural)]
pub enum LockAction {
    /// Nothing: the token stays as frozen, or as free, as it was.
    Nothing,
    /// Approve the token manager as delegate, then freeze the account.
    DelegateAndFreeze,
    /// Thaw the account, then revoke the token manager's delegation.
    ThawAndRevoke,
}

impl AccountState {
    /// Whether any claim holds a lock, that is, whether the token must be
    /// frozen and delegated.
    pub open spec fn is_locked(self) -> bool {
        self.loan || self.call_option || self.hire
    }

    /// Whether a loan and a call option never lock the token at once.
    pub open spec fn exclusive(self) -> bool {
        !(self.loan && self.call_option)
    }

    /// Whether `kind` holds a lock.
    pub open spec fn holds(self, kind: ClaimKind) -> bool {
        match kind {
            ClaimKind::Loan => self.loan,
            ClaimKind::CallOption => self.call_option,
            ClaimKind::Hire => self.hire,
        }
    }

    /// The same flags with the one of `kind` set to `value`.
    pub open spec fn with(self, kind: ClaimKind, value: bool) -> AccountState {
        match kind {
            ClaimKind::Loan => AccountState { loan: value, ..self },
            ClaimKind::CallOption => AccountState { call_option: value, ..self },
            ClaimKind::Hire => AccountState { hire: value, ..self },
        }
    }

    /// No claim holds a lock.
    pub fn unlocked() -> (r: AccountState)
        ensures
            !r.is_locked(),
    {
        AccountState { loan: false, call_option: false, hire: false }
    }

    /// Whether any claim holds a lock.
    pub fn any_locked(&self) -> (r: bool)
        ensures
            r == self.is_locked(),
    {
        self.loan || self.call_option || self.hire
    }

    /// Whether `kind` holds a lock.
    pub fn is_held(&self, kind: ClaimKind) -> (r: bool)
        ensures
            r == self.holds(kind),
    {
        match kind {
            ClaimKind::Loan => self.loan,
            ClaimKind::CallOption => self.call_option,
            ClaimKind::Hire => self.hire,
        }
    }
}

/// The ledger action that taking a lock from `before` calls for: a freeze
/// exactly when the token was free.
pub open spec fn acquire_action(before: AccountState) -> LockAction {
    if before.is_locked() {
        LockAction::Nothing
    } else {
        LockAction::DelegateAndFreeze
    }
}

/// The ledger action that dropping a lock and reaching `after` calls for: a
/// thaw exactly when no lock is left.
pub open spec fn release_action(after: AccountState) -> LockAction {
    if after.is_locked() {
        LockAction::Nothing
    } else {
        LockAction::ThawAndRevoke
    }
}

/// The lock record of one collateral token and one owner. It alone decides
/// when the token is frozen and delegated, and when it is thawed.
#[derive(Clone, Copy, Debug)]
pub struct TokenManager {
    /// Which claims hold a lock.
    pub accounts: AccountState,
    /// The bump seed of the manager's signing authority.
    pub bump: u8,
}

impl TokenManager {
    /// A loan and a call option never hold the token at once.
    pub open spec fn wf(self) -> bool {
        self.accounts.exclusive()
    }

    /// A manager that holds no lock.
    pub fn new(bump: u8) -> (r: TokenManager)
        ensures
            r.accounts == (AccountState { loan: false, call_option: false, hire: false }),
            r.bump == bump,
            r.wf(),
    {
        TokenManager { accounts: AccountState::unlocked(), bump }
    }

    /// Records that a claim of `kind` now locks the token. The token is
    /// frozen and delegated only when no lock was held before.
    pub fn acquire(&mut self, kind: ClaimKind) -> (r: LockAction)
        requires
            !old(self).accounts.holds(kind),
        ensures
            final(self).accounts == old(self).accounts.with(kind, true),
            final(self).bump == old(self).bump,
            r == acquire_action(old(self).accounts),
            (r == LockAction::DelegateAndFreeze) <==> (!old(self).accounts.is_locked()
                && final(self).accounts.is_locked()),
            r != LockAction::ThawAndRevoke,
    {
        let was_locked = self.accounts.any_locked();
        match kind {
            ClaimKind::Loan => self.accounts.loan = true,
            ClaimKind::CallOption => self.accounts.call_option = true,
            ClaimKind::Hire => self.accounts.hire = true,
        }
        if was_locked {
            LockAction::Nothing
        } else {
            LockAction::DelegateAndFreeze
        }
    }

    /// Records that the claim of `kind` no longer locks the token. The token
    /// is thawed and its delegation revoked only when no other lock remains.
    pub fn release(&mut self, kind: ClaimKind) -> (r: LockAction)
        requires
            old(self).accounts.holds(kind),
        ensures
            final(self).accounts == old(self).accounts.with(kind, false),
            final(self).bump == old(self).bump,
            r == release_action(final(self).accounts),
            (r == LockAction::ThawAndRevoke) <==> (old(self).accounts.is_locked()
                && !final(self).accounts.is_locked()),
            r != LockAction::DelegateAndFreeze,
    {
        match kind {
            ClaimKind::Loan => self.accounts.loan = false,
            ClaimKind::CallOption => self.accounts.call_option = false,
            ClaimKind::Hire => self.accounts.hire = false,
        }
        if self.accounts.any_locked() {
            LockAction::Nothing
        } else {
            LockAction::ThawAndRevoke
        }
    }

    /// Bytes that the manager's account takes on chain.
    pub fn space() -> (r: usize)
        ensures
            r == 8 + 32 + 32 + 3 + (1 + 8 + 32 + 32) + 1,
    {
        8 + 32 + 32 + 3 + (1 + 8 + 32 + 32) + 1
    }
}

/// One step on a lock record: a claim takes or drops its lock.
#[derive(Clone, Copy, Debug, PartialEq, Eq, Structural)]
pub enum LockOp {
    Acquire(ClaimKind),
    Release(ClaimKind),
}

/// Whether `op` may be applied to `s`: a claim takes a lock it does not hold
/// and drops one it holds.
pub open spec fn op_allowed(s: AccountState, op: LockOp) -> bool {
    match op {
        LockOp::Acquire(k) => !s.holds(k),
        LockOp::Release(k) => s.holds(k),
    }
}

/// The flags after `op`, as [`TokenManager::acquire`] and
/// [`TokenManager::release`] leave them.
pub open spec fn op_next(s: AccountState, op: LockOp) -> AccountState {
    match op {
        LockOp::Acquire(k) => s.with(k, true),
        LockOp::Release(k) => s.with(k, false),
    }
}

/// The ledger action that `op` emits on `s`.
pub open spec fn op_action(s: AccountState, op: LockOp) -> LockAction {
    match op {
        LockOp::Acquire(_) => acquire_action(s),
        LockOp::Release(k) => release_action(s.with(k, false)),
    }
}

/// Whether the token is frozen after the ledger carries out `action`.
pub open spec fn frozen_after(frozen: bool, action: LockAction) -> bool {
    match action {
        LockAction::Nothing => frozen,
        LockAction::DelegateAndFreeze => true,
        LockAction::ThawAndRevoke => false,
    }
}

/// Whether every step of `ops`, applied in turn from `s`, is allowed.
pub open spec fn run_allowed(s: AccountState, ops: Seq<LockOp>) -> bool
    decreases ops.len(),
{
    ops.len() == 0 || (op_allowed(s, ops[0]) && run_allowed(op_next(s, ops[0]), ops.drop_first()))
}

/// The flags after applying every step of `ops` from `s`.
pub open spec fn run_state(s: AccountState, ops: Seq<LockOp>) -> AccountState
    decreases ops.len(),
{
    if ops.len() == 0 {
        s
    } else {
        run_state(op_next(s, ops[0]), ops.drop_first())
    }
}

/// Whether the token is frozen once the ledger has carried out the actions
/// that `ops` emit from `s`, starting `frozen` or not.
pub open spec fn run_frozen(s: AccountState, frozen: bool, ops: Seq<LockOp>) -> bool
    decreases ops.len(),
{
    if ops.len() == 0 {
        frozen
    } else {
        run_frozen(
            op_next(s, ops[0]),
            frozen_after(frozen, op_action(s, ops[0])),
            ops.drop_first(),
        )
    }
}

/// Along any allowed sequence of lock steps that starts with the token frozen
/// exactly when a lock is held, after every prefix of the sequence the token
/// is frozen exactly when some lock is held.
pub proof fn lemma_frozen_iff_locked(s: AccountState, ops: Seq<LockOp>)
    requires
        run_allowed(s, ops),
    ensures
        forall|k: int|
            0 <= k <= ops.len() ==> #[trigger] run_frozen(s, s.is_locked(), ops.take(k))
                == run_state(s, ops.take(k)).is_locked(),
    decreases ops.len(),
{
    assert forall|k: int| 0 <= k <= ops.len() implies #[trigger] run_frozen(
        s,
        s.is_locked(),
        ops.take(k),
    ) == run_state(s, ops.take(k)).is_locked() by {
        if k > 0 {
            let op = ops[0];
            let next = op_next(s, op);
            assert(frozen_after(s.is_locked(), op_action(s, op)) == next.is_locked());
            lemma_frozen_iff_locked(next, ops.drop_first());
            assert(ops.take(k).drop_first() =~= ops.drop_first().take(k - 1));
            assert(run_frozen(next, next.is_locked(), ops.drop_first().take(k - 1))
                == run_state(next, ops.drop_first().take(k - 1)).is_locked());
        }
    }
}

/// The state of a token account as the ledger reports it.
#[derive(Clone, Copy, Debug)]
pub struct TokenAccountState {
    /// Who may move the token on the owner's behalf, if anyone.
    pub delegate: Option<AccountKey>,
    /// How many tokens the delegate may move.
    pub delegated_amount: u64,
    /// Whether the account is frozen.
    pub is_frozen: bool,
}

/// What must happen to a token account so that the token manager `manager`
/// holds it frozen and delegated.
#[derive(Clone, Copy, Debug, PartialEq, Eq, Structural)]
pub enum DelegationPlan {
    /// It already is.
    Keep,
    /// Approve `manager` and freeze; revoke the delegate in place first when
    /// `revoke_first`.
    DelegateAndFreeze { revoke_first: bool },
}

/// The outcome of [`plan_delegation`].
pub open spec fn delegation_outcome(account: TokenAccountState, manager: Seq<u8>) -> Result<
    DelegationPlan,
    DexloanError,
> {
    match account.delegate {
        None => Ok(DelegationPlan::DelegateAndFreeze { revoke_first: false }),
        Some(d) => if d@ != manager {
            if account.is_frozen {
                Err(DexloanError::InvalidDelegate)
            } else {
                Ok(DelegationPlan::DelegateAndFreeze { revoke_first: true })
            }
        } else if account.delegated_amount != 1 {
            Err(DexloanError::InvalidDelegate)
        } else if account.is_frozen {
            Ok(DelegationPlan::Keep)
        } else {
            Ok(DelegationPlan::DelegateAndFreeze { revoke_first: false })
        },
    }
}

/// Decides how to bring a token account under the manager's freeze. A
/// foreign delegate is revoked if the account is free to change, and refused
/// if it froze the account; a delegation to the manager must cover exactly
/// the one token.
pub fn plan_delegation(account: &TokenAccountState, manager: &AccountKey) -> (r: Result<
    DelegationPlan,
    DexloanError,
>)
    ensures
        r == delegation_outcome(*account, manager@),
{
    match &account.delegate {
        None => Ok(DelegationPlan::DelegateAndFreeze { revoke_first: false }),
        Some(d) => {
            if !d.same(manager) {
                if account.is_frozen {
                    Err(DexloanError::InvalidDelegate)
                } else {
                    Ok(DelegationPlan::DelegateAndFreeze { revoke_first: true })
                }
            } else if account.delegated_amount != 1 {
                Err(DexloanError::InvalidDelegate)
            } else if account.is_frozen {
                Ok(DelegationPlan::Keep)
            } else {
                Ok(DelegationPlan::DelegateAndFreeze { revoke_first: false })
            }
        },
    }
}


/// Moving the collateral between owners' token accounts: thaw the account of
/// `from`, transfer the token to the account of `to`, and when `refreeze`,
/// delegate the new account to the token manager and freeze it.
#[derive(Clone, Copy, Debug)]
pub struct TokenMove {
    pub from: AccountKey,
    pub to: AccountKey,
    pub refreeze: bool,
}

} // verus!
