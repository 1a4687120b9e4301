//! Records of completed operations.
//!
//! Each operation returns one of these on success.  The record doubles as the
//! operation's output: it carries every quantity the custody layer must mint,
//! burn or transfer, and it is what the observability sink receives.

use vstd::prelude::*;

verus! {

/// Outcome of a liquidity deposit: how the deposit was split between
/// pool-held reserves and tokens handed back to the depositor.
#[derive(Clone, Copy, Debug, PartialEq, Eq, Structural)]
pub struct LiquidityAddedEvent {
    /// Collateral deposited.
    pub amount: u64,
    /// LP shares minted to the depositor.
    pub liquidity_shares_gained: u64,
    /// Collateral value counted as added to the pool.
    pub usd_added_to_pool: u64,
    /// YES tokens minted into the pool's reserve.
    pub yes_added_to_pool: u64,
    /// NO tokens minted into the pool's reserve.
    pub no_added_to_pool: u64,
    /// YES tokens minted directly to the depositor.
    pub yes_given_to_user: u64,
    /// NO tokens minted directly to the depositor.
    pub no_given_to_user: u64,
    /// Total YES tokens minted by the operation.
    pub yes_minted: u64,
    /// Total NO tokens minted by the operation.
    pub no_minted: u64,
}

/// Outcome of a liquidity withdrawal.
#[derive(Clone, Copy, Debug, PartialEq, Eq, Structural)]
pub struct LiquidityRemovedEvent {
    /// LP shares burned by the caller.
    pub burnt_lp_shares: u64,
    /// Collateral transferred out of escrow to the caller.
    pub equivalent_usd: u64,
    /// Tokens of the scarcer outcome transferred to the caller.
    pub received_lowest_outcome_tokens: u64,
    /// Asset identifier of the scarcer outcome's mint; zero when the market
    /// settled purely in collateral.
    pub received_lowest_outcome_mint: u64,
    /// YES reserve left in the pool.
    pub remaining_yes_tokens: u64,
    /// NO reserve left in the pool.
    pub remaining_no_tokens: u64,
}

/// Outcome of a directional purchase.
#[derive(Clone, Copy, Debug, PartialEq, Eq, Structural)]
pub struct PurchasedOutcomeSharesEvent {
    /// Collateral deposited.
    pub amount: u64,
    /// Outcome tokens the buyer ends up with: freshly minted plus transferred
    /// out of the pool's reserve.
    pub wanted_shares_purchased: u64,
    /// YES reserve left in the pool.
    pub pool_remaining_yes_tokens: u64,
    /// NO reserve left in the pool.
    pub pool_remaining_no_tokens: u64,
}

/// Record of a market resolution.
#[derive(Clone, Copy, Debug, PartialEq, Eq, Structural)]
pub struct MarketResolvedEvent {
    /// The fixed outcome: 1 for YES, 0 for NO.
    pub outcome: u8,
}

} // verus!
