//! Market identity and the one-way resolution gate.
//!
//! A market names its collateral asset, its two outcome assets and its
//! LP-share asset; assets are carried as plain numeric identifiers, the
//! custody layer maps them to its own account keys.  Resolution is the
//! one-time act of fixing which outcome is correct; once `resolved` is set
//! the stored outcome never changes again.

use vstd::prelude::*;

use crate::errors::MarketError;
use crate::events::MarketResolvedEvent;

verus! {

/// Counts the markets created so far; each new market takes the current
/// count as its number.
#[derive(Clone, Copy, Debug, PartialEq, Eq, Structural)]
pub struct MarketFactory {
    /// How many markets this factory has created.
    pub created_markets: u64,
}

/// One binary-outcome contract.
#[derive(Clone, Copy, Debug)]
pub struct Market {
    /// Asset identifier of the collateral token.
    pub usd_mint: u64,
    /// Asset identifier of the YES outcome token.
    pub yes_mint: u64,
    /// Asset identifier of the NO outcome token.
    pub no_mint: u64,
    /// Asset identifier of the LP-share token.
    pub lp_share_mint: u64,
    /// Sequence number handed out by the factory.
    pub market_number: u64,
    /// Whether the outcome has been fixed.
    pub resolved: bool,
    /// The fixed outcome: `Some(1)` for YES, `Some(0)` for NO, `None` while
    /// unresolved.
    pub outcome: Option<u8>,
}

impl Market {
    /// A well-formed market stores an outcome exactly when it is resolved,
    /// and only a binary one.
    pub open spec fn wf(self) -> bool {
        self.resolved <==> (self.outcome == Some(0u8) || self.outcome == Some(1u8))
    }
}

/// Sets up a factory that has created no market yet.
pub fn initialize_market_factory() -> (f: MarketFactory)
    ensures
        f.created_markets == 0,
{
    MarketFactory { created_markets: 0 }
}

/// Creates the next market of a factory: unresolved, with no outcome, its
/// number taken from the factory's count, which advances by one.
pub fn create_new_market(
    factory: &mut MarketFactory,
    usd_mint: u64,
    yes_mint: u64,
    no_mint: u64,
    lp_share_mint: u64,
) -> (m: Market)
    requires
        old(factory).created_markets < u64::MAX,
    ensures
        m.usd_mint == usd_mint,
        m.yes_mint == yes_mint,
        m.no_mint == no_mint,
        m.lp_share_mint == lp_share_mint,
        m.market_number == old(factory).created_markets,
        !m.resolved,
        m.outcome is None,
        m.wf(),
        final(factory).created_markets == old(factory).created_markets + 1,
{
    let market = Market {
        usd_mint,
        yes_mint,
        no_mint,
        lp_share_mint,
        market_number: factory.created_markets,
        resolved: false,
        outcome: None,
    };
    factory.created_markets = factory.created_markets + 1;
    market
}

/// Fixes the market's outcome, once.
///
/// Rejected with `MarketResolved` when the outcome is already fixed and with
/// `InvalidOutcome` when the value is not binary; either rejection leaves the
/// market untouched.  On success the market is resolved with exactly the
/// given outcome, and nothing else about it changes.
pub fn resolve_market(market: &mut Market, outcome: u8) -> (r: Result<
    MarketResolvedEvent,
    MarketError,
>)
    ensures
        old(market).resolved ==> r == Err::<MarketResolvedEvent, MarketError>(
            MarketError::MarketResolved,
        ) && *final(market) == *old(market),
        !old(market).resolved && !(outcome == 0 || outcome == 1) ==> r == Err::<
            MarketResolvedEvent,
            MarketError,
        >(MarketError::InvalidOutcome) && *final(market) == *old(market),
        !old(market).resolved && (outcome == 0 || outcome == 1) ==> {
            &&& r == Ok::<MarketResolvedEvent, MarketError>(MarketResolvedEvent { outcome })
            &&& final(market).resolved
            &&& final(market).outcome == Some(outcome)
            &&& final(market).usd_mint == old(market).usd_mint
            &&& final(market).yes_mint == old(market).yes_mint
            &&& final(market).no_mint == old(market).no_mint
            &&& final(market).lp_share_mint == old(market).lp_share_mint
            &&& final(market).market_number == old(market).market_number
            &&& final(market).wf()
        },
{
    if market.resolved {
        return Err(MarketError::MarketResolved);
    }
    if !(outcome == 0 || outcome == 1) {
        return Err(MarketError::InvalidOutcome);
    }

    market.outcome = Some(outcome);
    market.resolved = true;

    Ok(MarketResolvedEvent { outcome })
}

} // verus!
