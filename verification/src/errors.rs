//! Error taxonomy of the engine.
//!
//! Every error is detected before any state mutation, so a rejected operation
//! leaves the pool and the market exactly as they were.

use vstd::prelude::*;

verus! {

/// Why an operation was rejected.
#[derive(Clone, Copy, Debug, PartialEq, Eq, Structural)]
pub enum MarketError {
    /// The amount must be greater than zero.
    Zero,
    /// The amount to withdraw is bigger than the account balance.
    InsufficientFunds,
    /// The compared mints do not correspond.
    UnmatchedMints,
    /// The given mint is not allowed in this transaction.
    MintNotAllowed,
    /// The market is already resolved.
    MarketResolved,
    /// The market is not resolved yet.
    MarketNotResolved,
    /// The market is not initialized.
    MarketNotInitialized,
    /// The outcome is invalid.
    InvalidOutcome,
}

} // verus!
