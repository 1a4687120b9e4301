//! Pricing and liquidity-accounting engine for a binary-outcome prediction
//! market.
//!
//! The engine is pure state-transition logic over one market's numeric state:
//! it decides, for every liquidity deposit, withdrawal, or directional share
//! purchase, how much of each outcome token is minted, burned or transferred
//! and how the pool's reserves and LP-share supply change.  Asset custody,
//! identity checks and event delivery are external collaborators; the engine
//! only returns the quantities they must execute.

pub mod errors;
pub mod events;
pub mod laws;
pub mod market;
pub mod math;
pub mod pool;

pub use errors::MarketError;
pub use events::LiquidityAddedEvent;
pub use events::LiquidityRemovedEvent;
pub use events::MarketResolvedEvent;
pub use events::PurchasedOutcomeSharesEvent;
pub use market::Market;
pub use market::MarketFactory;
pub use market::create_new_market;
pub use market::initialize_market_factory;
pub use market::resolve_market;
pub use math::sqrt_u128;
pub use pool::MarketPool;
pub use pool::add_liquidity;
pub use pool::add_liquidity_equal_outcomes;
pub use pool::add_unequal_outcomes_with_more_no;
pub use pool::add_unequal_outcomes_with_more_yes;
pub use pool::initialize_pool;
pub use pool::purchase_outcome_shares;
pub use pool::remove_liquidity;
