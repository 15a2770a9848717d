//! Verified core of an NFT-collateralised lending, leasing and options
//! protocol: the collateral lock coordinator, the loan, call option and hire
//! state machines, and the fee, interest, royalty and escrow arithmetic.
//!
//! Every operation is a pure transition on plain records. It either fails
//! with a [`DexloanError`] and leaves every record as it was, or updates the
//! records and returns the lamport payments and the token-ledger action that
//! the host must carry out.

use vstd::prelude::*;

pub mod call_option;
pub mod collection;
pub mod error;
pub mod fees;
pub mod hire;
pub mod key;
pub mod listing;
pub mod loan;
pub mod metadata;
pub mod pool;
pub mod token_manager;

verus! {

} // verus!
