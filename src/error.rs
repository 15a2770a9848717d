use vstd::prelude::*;

verus! {

/// Every way an operation of the protocol can be refused.
#[derive(Clone, Copy, Debug, PartialEq, Eq, Structural)]
pub enum DexloanError {
    /// A loan was repossessed before its duration elapsed.
    NotOverdue,
    /// A hire was recovered before its current period ended.
    NotExpired,
    /// An expiry lies in the past, or beyond the hire's outer bound.
    InvalidExpiry,
    /// The record is in the wrong state for the requested transition.
    InvalidState,
    /// A loan was repaid after its term, where late repayment is not accepted.
    RepaymentOverdue,
    /// A call option was exercised after its expiry.
    OptionExpired,
    /// The metadata describes another mint.
    InvalidMint,
    /// The metadata account holds no data.
    MetadataDoesntExist,
    /// The metadata account is not the one derived from the mint.
    DerivedKeyInvalid,
    /// An active call option was closed before its expiry.
    OptionNotExpired,
    /// A checked arithmetic step overflowed or underflowed.
    NumericalOverflow,
    /// A free hire was offered without naming its borrower.
    BorrowerNotSpecified,
    /// The token account is delegated to someone other than the token manager.
    InvalidDelegate,
    /// A claim of a kind that conflicts with an existing lock was originated.
    ConflictingClaim,
    /// The caller or an account does not match the role the record requires.
    IdentityMismatch,
    /// An account holds fewer lamports than it is asked to pay.
    InsufficientFunds,
    /// The token belongs to another collection than the pool lends against.
    InvalidCollection,
    /// The token's metadata names no collection.
    CollectionUndefined,
    /// The pool holds less than it is asked to lend or pay out.
    PoolInsufficientFunds,
    /// The installment due now has already been paid.
    InstallmentAlreadyPaid,
    /// An installment date lies too close to, or too far from, the one before.
    InvalidInstallmentInterval,
    /// The final notice on a pool loan has not yet run out.
    CannotRepossess,
}

} // verus!
