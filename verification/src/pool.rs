//! The reserve pool state machine and its three economic operations.
//!
//! A pool holds one market's YES and NO reserves, its LP-share supply, its
//! escrowed collateral and two cumulative mint counters.  Each operation
//! mutates the pool and returns the quantities that the custody layer must
//! mint, burn or transfer atomically with the mutation.  All arithmetic is
//! integer arithmetic; every division rounds down, a deliberate rounding
//! policy that settlement amounts depend on.

use vstd::prelude::*;

use crate::errors::MarketError;
use crate::events::LiquidityAddedEvent;
use crate::events::LiquidityRemovedEvent;
use crate::events::PurchasedOutcomeSharesEvent;
use crate::market::Market;
use crate::math::floor_sqrt;
use crate::math::lemma_floor_sqrt_bound;
use crate::math::sqrt_u128;

verus! {

/// The automated-market-maker state of one market.
#[derive(Clone, Copy, Debug, PartialEq, Eq, Structural)]
pub struct MarketPool {
    /// Pool-held balance of the YES outcome token.
    pub yes_liquidity: u64,
    /// Pool-held balance of the NO outcome token.
    pub no_liquidity: u64,
    /// Geometric-mean invariant: the floor square root of the product of the
    /// two reserves, kept in step by the liquidity operations.
    pub liquidity_value: u64,
    /// Total LP-share supply.
    pub liquidity_shares: u64,
    /// Total collateral escrowed for this market.
    pub usd_collateral: u64,
    /// Cumulative count of YES tokens minted, for auditing.
    pub total_yes_mints: u64,
    /// Cumulative count of NO tokens minted, for auditing.
    pub total_no_mints: u64,
}

/// Sets up the pool of a fresh market: no reserves, no shares, no collateral.
pub fn initialize_pool() -> (p: MarketPool)
    ensures
        p.yes_liquidity == 0,
        p.no_liquidity == 0,
        p.liquidity_value == 0,
        p.liquidity_shares == 0,
        p.usd_collateral == 0,
        p.total_yes_mints == 0,
        p.total_no_mints == 0,
{
    MarketPool {
        yes_liquidity: 0,
        no_liquidity: 0,
        liquidity_value: 0,
        liquidity_shares: 0,
        usd_collateral: 0,
        total_yes_mints: 0,
        total_no_mints: 0,
    }
}

/// Both reserves together.
pub open spec fn spec_total_tokens(p: MarketPool) -> int {
    p.yes_liquidity + p.no_liquidity
}

/// Implied probability of YES, floor-divided: `yes_reserve / total`.
pub open spec fn spec_yes_token_price(p: MarketPool) -> int {
    p.yes_liquidity as int / spec_total_tokens(p)
}

/// Implied probability of NO, floor-divided: `no_reserve / total`.
pub open spec fn spec_no_token_price(p: MarketPool) -> int {
    p.no_liquidity as int / spec_total_tokens(p)
}

// ---------------------------------------------------------------------------
// Liquidity provisioning
// ---------------------------------------------------------------------------

/// The balanced deposit moves every account of the pool by the deposit
/// itself, so each of these sums must fit in a balance.
pub open spec fn equal_add_ok(p: MarketPool, d: u64) -> bool {
    &&& p.yes_liquidity + d <= u64::MAX
    &&& p.no_liquidity + d <= u64::MAX
    &&& p.total_yes_mints + d <= u64::MAX
    &&& p.total_no_mints + d <= u64::MAX
    &&& p.liquidity_value + d <= u64::MAX
    &&& p.liquidity_shares + d <= u64::MAX
}

/// Pool-held YES total that keeps the two reserves' price ratio unchanged
/// after a deposit into a pool whose NO reserve is larger:
/// `(no_price * (no_reserve + d)) / yes_price`.
pub open spec fn spec_more_no_lp_yes(p: MarketPool, yes_price: u64, no_price: u64, d: u64) -> int {
    (no_price * (p.no_liquidity + d)) / (yes_price as int)
}

/// Liquidity value after a deposit into a pool whose NO reserve is larger:
/// the floor square root of the product of the new pool-held totals.
pub open spec fn spec_more_no_new_lv(p: MarketPool, yes_price: u64, no_price: u64, d: u64) -> int {
    floor_sqrt((p.no_liquidity + d) * spec_more_no_lp_yes(p, yes_price, no_price, d))
}

/// What a skewed deposit on the NO-heavy side needs in order not to overflow
/// or underflow any balance.
pub open spec fn more_no_ok(p: MarketPool, yes_price: u64, no_price: u64, d: u64) -> bool {
    &&& p.no_liquidity + d <= u64::MAX
    &&& p.yes_liquidity + d <= u64::MAX
    &&& yes_price >= 1
    &&& no_price * (p.no_liquidity + d) <= u64::MAX
    &&& p.yes_liquidity <= spec_more_no_lp_yes(p, yes_price, no_price, d)
    &&& spec_more_no_lp_yes(p, yes_price, no_price, d) <= p.yes_liquidity + d
    &&& p.liquidity_shares <= spec_more_no_new_lv(p, yes_price, no_price, d)
    &&& p.total_yes_mints + d <= u64::MAX
    &&& p.total_no_mints + d <= u64::MAX
}

/// Pool-held NO total that keeps the two reserves' price ratio unchanged
/// after a deposit into a pool whose YES reserve is larger:
/// `(yes_price * (yes_reserve + d)) / no_price`.
pub open spec fn spec_more_yes_lp_no(p: MarketPool, yes_price: u64, no_price: u64, d: u64) -> int {
    (yes_price * (p.yes_liquidity + d)) / (no_price as int)
}

/// Liquidity value after a deposit into a pool whose YES reserve is larger.
pub open spec fn spec_more_yes_new_lv(p: MarketPool, yes_price: u64, no_price: u64, d: u64) -> int {
    floor_sqrt(spec_more_yes_lp_no(p, yes_price, no_price, d) * (p.yes_liquidity + d))
}

/// What a skewed deposit on the YES-heavy side needs in order not to
/// overflow or underflow any balance.  The product under the square root is
/// formed in a 64-bit balance on this side, so it must fit there too.
pub open spec fn more_yes_ok(p: MarketPool, yes_price: u64, no_price: u64, d: u64) -> bool {
    &&& p.no_liquidity + d <= u64::MAX
    &&& p.yes_liquidity + d <= u64::MAX
    &&& no_price >= 1
    &&& yes_price * (p.yes_liquidity + d) <= u64::MAX
    &&& spec_more_yes_lp_no(p, yes_price, no_price, d) * (p.yes_liquidity + d) <= u64::MAX
    &&& p.no_liquidity <= spec_more_yes_lp_no(p, yes_price, no_price, d)
    &&& spec_more_yes_lp_no(p, yes_price, no_price, d) <= p.no_liquidity + d
    &&& p.liquidity_shares <= spec_more_yes_new_lv(p, yes_price, no_price, d)
    &&& p.total_yes_mints + d <= u64::MAX
    &&& p.total_no_mints + d <= u64::MAX
}

/// What a deposit needs from the pool it lands in.  Rejected deposits (a
/// zero amount, a resolved market) need nothing: they touch no state.
pub open spec fn add_liquidity_ok(p: MarketPool, m: Market, d: u64) -> bool {
    d > 0 && !m.resolved ==> {
        &&& p.usd_collateral + d <= u64::MAX
        &&& (p.yes_liquidity == p.no_liquidity ==> equal_add_ok(p, d))
        &&& (p.yes_liquidity != p.no_liquidity ==> {
            &&& spec_total_tokens(p) <= u64::MAX
            &&& (p.no_liquidity > p.yes_liquidity ==> more_no_ok(
                p,
                spec_yes_token_price(p) as u64,
                spec_no_token_price(p) as u64,
                d,
            ))
            &&& (p.yes_liquidity > p.no_liquidity ==> more_yes_ok(
                p,
                spec_yes_token_price(p) as u64,
                spec_no_token_price(p) as u64,
                d,
            ))
        })
    }
}

/// The pool a successful deposit of `d` leaves behind, collateral included.
pub open spec fn spec_add_liquidity_pool(p: MarketPool, d: u64) -> MarketPool {
    if p.yes_liquidity == p.no_liquidity {
        MarketPool {
            yes_liquidity: (p.yes_liquidity + d) as u64,
            no_liquidity: (p.no_liquidity + d) as u64,
            liquidity_value: (p.liquidity_value + d) as u64,
            liquidity_shares: (p.liquidity_shares + d) as u64,
            usd_collateral: (p.usd_collateral + d) as u64,
            total_yes_mints: (p.total_yes_mints + d) as u64,
            total_no_mints: (p.total_no_mints + d) as u64,
        }
    } else {
        let yp = spec_yes_token_price(p) as u64;
        let np = spec_no_token_price(p) as u64;
        if p.no_liquidity > p.yes_liquidity {
            MarketPool {
                yes_liquidity: spec_more_no_lp_yes(p, yp, np, d) as u64,
                no_liquidity: (p.no_liquidity + d) as u64,
                liquidity_value: spec_more_no_new_lv(p, yp, np, d) as u64,
                liquidity_shares: spec_more_no_new_lv(p, yp, np, d) as u64,
                usd_collateral: (p.usd_collateral + d) as u64,
                total_yes_mints: (p.total_yes_mints + d) as u64,
                total_no_mints: (p.total_no_mints + d) as u64,
            }
        } else {
            MarketPool {
                yes_liquidity: (p.yes_liquidity + d) as u64,
                no_liquidity: spec_more_yes_lp_no(p, yp, np, d) as u64,
                liquidity_value: spec_more_yes_new_lv(p, yp, np, d) as u64,
                liquidity_shares: spec_more_yes_new_lv(p, yp, np, d) as u64,
                usd_collateral: (p.usd_collateral + d) as u64,
                total_yes_mints: (p.total_yes_mints + d) as u64,
                total_no_mints: (p.total_no_mints + d) as u64,
            }
        }
    }
}

/// The record a successful deposit of `d` returns.  In the balanced regime
/// the whole deposit becomes pool-owned reserves and the depositor's LP
/// shares equal the deposit; in a skewed regime the depositor also receives
/// the probable side's surplus tokens, never the scarcer side's.
pub open spec fn spec_add_liquidity_event(p: MarketPool, d: u64) -> LiquidityAddedEvent {
    if p.yes_liquidity == p.no_liquidity {
        LiquidityAddedEvent {
            amount: d,
            liquidity_shares_gained: d,
            usd_added_to_pool: d,
            yes_added_to_pool: d,
            no_added_to_pool: d,
            yes_given_to_user: 0,
            no_given_to_user: 0,
            yes_minted: d,
            no_minted: d,
        }
    } else {
        let yp = spec_yes_token_price(p) as u64;
        let np = spec_no_token_price(p) as u64;
        if p.no_liquidity > p.yes_liquidity {
            let lp_yes = spec_more_no_lp_yes(p, yp, np, d);
            let new_lv = spec_more_no_new_lv(p, yp, np, d);
            LiquidityAddedEvent {
                amount: d,
                liquidity_shares_gained: (new_lv - p.liquidity_shares) as u64,
                usd_added_to_pool: (new_lv - p.liquidity_shares) as u64,
                yes_added_to_pool: (lp_yes - p.yes_liquidity) as u64,
                no_added_to_pool: d,
                yes_given_to_user: (p.yes_liquidity + d - lp_yes) as u64,
                no_given_to_user: 0,
                yes_minted: d,
                no_minted: d,
            }
        } else {
            let lp_no = spec_more_yes_lp_no(p, yp, np, d);
            let new_lv = spec_more_yes_new_lv(p, yp, np, d);
            LiquidityAddedEvent {
                amount: d,
                liquidity_shares_gained: (new_lv - p.liquidity_shares) as u64,
                usd_added_to_pool: (new_lv - p.liquidity_shares) as u64,
                yes_added_to_pool: d,
                no_added_to_pool: (lp_no - p.no_liquidity) as u64,
                yes_given_to_user: 0,
                no_given_to_user: (p.no_liquidity + d - lp_no) as u64,
                yes_minted: d,
                no_minted: d,
            }
        }
    }
}

/// Balanced deposit: the whole amount is minted into both reserves, and the
/// depositor's LP shares equal the deposit, as do the moves of the liquidity
/// value and share supply.  Collateral is accounted by the caller.
pub fn add_liquidity_equal_outcomes(pool: &mut MarketPool, usd_amount: u64) -> (ev:
    LiquidityAddedEvent)
    requires
        equal_add_ok(*old(pool), usd_amount),
    ensures
        final(pool).yes_liquidity == old(pool).yes_liquidity + usd_amount,
        final(pool).no_liquidity == old(pool).no_liquidity + usd_amount,
        final(pool).total_yes_mints == old(pool).total_yes_mints + usd_amount,
        final(pool).total_no_mints == old(pool).total_no_mints + usd_amount,
        final(pool).liquidity_value == old(pool).liquidity_value + usd_amount,
        final(pool).liquidity_shares == old(pool).liquidity_shares + usd_amount,
        final(pool).usd_collateral == old(pool).usd_collateral,
        ev == (LiquidityAddedEvent {
            amount: usd_amount,
            liquidity_shares_gained: usd_amount,
            usd_added_to_pool: usd_amount,
            yes_added_to_pool: usd_amount,
            no_added_to_pool: usd_amount,
            yes_given_to_user: 0,
            no_given_to_user: 0,
            yes_minted: usd_amount,
            no_minted: usd_amount,
        }),
{
    pool.yes_liquidity = pool.yes_liquidity + usd_amount;
    pool.no_liquidity = pool.no_liquidity + usd_amount;
    pool.total_yes_mints = pool.total_yes_mints + usd_amount;
    pool.total_no_mints = pool.total_no_mints + usd_amount;

    pool.liquidity_value = pool.liquidity_value + usd_amount;
    pool.liquidity_shares = pool.liquidity_shares + usd_amount;

    LiquidityAddedEvent {
        amount: usd_amount,
        liquidity_shares_gained: usd_amount,
        usd_added_to_pool: usd_amount,
        yes_added_to_pool: usd_amount,
        no_added_to_pool: usd_amount,
        yes_given_to_user: 0,
        no_given_to_user: 0,
        yes_minted: usd_amount,
        no_minted: usd_amount,
    }
}

/// Skewed deposit, NO reserve larger: NO, the scarcer outcome, is minted
/// into the pool in full; YES only up to the total that keeps the price
/// ratio, and the surplus YES tokens go to the depositor together with LP
/// shares worth the liquidity value gained.  The scarcer side is never
/// handed to the depositor.  Collateral is accounted by the caller.
pub fn add_unequal_outcomes_with_more_no(
    pool: &mut MarketPool,
    yes_token_price: u64,
    no_token_price: u64,
    usd_amount: u64,
) -> (ev: LiquidityAddedEvent)
    requires
        more_no_ok(*old(pool), yes_token_price, no_token_price, usd_amount),
    ensures
        final(pool).yes_liquidity == spec_more_no_lp_yes(
            *old(pool),
            yes_token_price,
            no_token_price,
            usd_amount,
        ),
        final(pool).no_liquidity == old(pool).no_liquidity + usd_amount,
        final(pool).total_yes_mints == old(pool).total_yes_mints + usd_amount,
        final(pool).total_no_mints == old(pool).total_no_mints + usd_amount,
        final(pool).liquidity_value == spec_more_no_new_lv(
            *old(pool),
            yes_token_price,
            no_token_price,
            usd_amount,
        ),
        final(pool).liquidity_shares == final(pool).liquidity_value,
        final(pool).usd_collateral == old(pool).usd_collateral,
        ev.amount == usd_amount,
        ev.liquidity_shares_gained == final(pool).liquidity_value - old(pool).liquidity_shares,
        ev.usd_added_to_pool == ev.liquidity_shares_gained,
        ev.yes_added_to_pool == final(pool).yes_liquidity - old(pool).yes_liquidity,
        ev.no_added_to_pool == usd_amount,
        ev.yes_given_to_user == old(pool).yes_liquidity + usd_amount - final(pool).yes_liquidity,
        ev.no_given_to_user == 0,
        ev.yes_minted == usd_amount,
        ev.no_minted == usd_amount,
{
    let new_no_minted_tokens: u64 = pool.no_liquidity + usd_amount;
    let new_yes_minted_tokens: u64 = pool.yes_liquidity + usd_amount;

    // NO, being the less probable side, is added to the pool in full; YES
    // only in the proportion that keeps the price ratio unchanged.
    let new_lp_no_minted_tokens: u64 = new_no_minted_tokens;
    let new_lp_yes_minted_tokens: u64 = (no_token_price * new_no_minted_tokens) / yes_token_price;
    proof {
        assert((new_lp_no_minted_tokens as int) * (new_lp_yes_minted_tokens as int)
            < 0x100000000000000000000000000000000int) by (nonlinear_arith)
            requires
                new_lp_no_minted_tokens <= u64::MAX,
                new_lp_yes_minted_tokens <= u64::MAX,
        ;
    }
    let liquidity_squared: u128 = (new_lp_no_minted_tokens as u128) * (
    new_lp_yes_minted_tokens as u128);
    let new_liquidity_value_wide: u128 = sqrt_u128(liquidity_squared);
    proof {
        assert(0x10000000000000000int * 0x10000000000000000int == 0x100000000000000000000000000000000int);
        lemma_floor_sqrt_bound(
            liquidity_squared as int,
            new_liquidity_value_wide as int,
            0x10000000000000000int,
        );
    }
    let new_liquidity_value: u64 = new_liquidity_value_wide as u64;

    let user_belonging_yes_tokens: u64 = new_yes_minted_tokens - new_lp_yes_minted_tokens;
    let user_belonging_liquidity_shares: u64 = new_liquidity_value - pool.liquidity_shares;
    let yes_lp_minted: u64 = new_lp_yes_minted_tokens - pool.yes_liquidity;

    let ev = LiquidityAddedEvent {
        amount: usd_amount,
        liquidity_shares_gained: user_belonging_liquidity_shares,
        usd_added_to_pool: user_belonging_liquidity_shares,
        yes_added_to_pool: yes_lp_minted,
        no_added_to_pool: usd_amount,
        yes_given_to_user: user_belonging_yes_tokens,
        no_given_to_user: 0,
        yes_minted: usd_amount,
        no_minted: usd_amount,
    };

    pool.yes_liquidity = pool.yes_liquidity + yes_lp_minted;
    pool.no_liquidity = pool.no_liquidity + usd_amount;
    pool.total_yes_mints = pool.total_yes_mints + usd_amount;
    pool.total_no_mints = pool.total_no_mints + usd_amount;

    pool.liquidity_value = new_liquidity_value;
    pool.liquidity_shares = new_liquidity_value;

    ev
}

/// Skewed deposit, YES reserve larger: the mirror image of the NO-heavy
/// case; the depositor receives the surplus NO tokens and never YES ones.
/// Collateral is accounted by the caller.
pub fn add_unequal_outcomes_with_more_yes(
    pool: &mut MarketPool,
    yes_token_price: u64,
    no_token_price: u64,
    usd_amount: u64,
) -> (ev: LiquidityAddedEvent)
    requires
        more_yes_ok(*old(pool), yes_token_price, no_token_price, usd_amount),
    ensures
        final(pool).yes_liquidity == old(pool).yes_liquidity + usd_amount,
        final(pool).no_liquidity == spec_more_yes_lp_no(
            *old(pool),
            yes_token_price,
            no_token_price,
            usd_amount,
        ),
        final(pool).total_yes_mints == old(pool).total_yes_mints + usd_amount,
        final(pool).total_no_mints == old(pool).total_no_mints + usd_amount,
        final(pool).liquidity_value == spec_more_yes_new_lv(
            *old(pool),
            yes_token_price,
            no_token_price,
            usd_amount,
        ),
        final(pool).liquidity_shares == final(pool).liquidity_value,
        final(pool).usd_collateral == old(pool).usd_collateral,
        ev.amount == usd_amount,
        ev.liquidity_shares_gained == final(pool).liquidity_value - old(pool).liquidity_shares,
        ev.usd_added_to_pool == ev.liquidity_shares_gained,
        ev.yes_added_to_pool == usd_amount,
        ev.no_added_to_pool == final(pool).no_liquidity - old(pool).no_liquidity,
        ev.yes_given_to_user == 0,
        ev.no_given_to_user == old(pool).no_liquidity + usd_amount - final(pool).no_liquidity,
        ev.yes_minted == usd_amount,
        ev.no_minted == usd_amount,
{
    let new_no_minted_tokens: u64 = pool.no_liquidity + usd_amount;
    let new_yes_minted_tokens: u64 = pool.yes_liquidity + usd_amount;

    // YES, being the less probable side, is added to the pool in full; NO
    // only in the proportion that keeps the price ratio unchanged.
    let new_lp_yes_minted_tokens: u64 = new_yes_minted_tokens;
    let new_lp_no_minted_tokens: u64 = (yes_token_price * new_yes_minted_tokens) / no_token_price;
    // On this side the accounting forms the product in a 64-bit
    // balance before widening it.
    let liquidity_squared: u128 = (new_lp_no_minted_tokens * new_lp_yes_minted_tokens) as u128;
    let new_liquidity_value_wide: u128 = sqrt_u128(liquidity_squared);
    proof {
        assert(0x10000000000000000int * 0x10000000000000000int == 0x100000000000000000000000000000000int);
        lemma_floor_sqrt_bound(
            liquidity_squared as int,
            new_liquidity_value_wide as int,
            0x10000000000000000int,
        );
    }
    let new_liquidity_value: u64 = new_liquidity_value_wide as u64;

    let user_belonging_no_tokens: u64 = new_no_minted_tokens - new_lp_no_minted_tokens;
    let user_belonging_liquidity_shares: u64 = new_liquidity_value - pool.liquidity_shares;
    let no_lp_minted: u64 = new_lp_no_minted_tokens - pool.no_liquidity;

    let ev = LiquidityAddedEvent {
        amount: usd_amount,
        liquidity_shares_gained: user_belonging_liquidity_shares,
        usd_added_to_pool: user_belonging_liquidity_shares,
        yes_added_to_pool: usd_amount,
        no_added_to_pool: no_lp_minted,
        yes_given_to_user: 0,
        no_given_to_user: user_belonging_no_tokens,
        yes_minted: usd_amount,
        no_minted: usd_amount,
    };

    pool.yes_liquidity = pool.yes_liquidity + usd_amount;
    pool.no_liquidity = pool.no_liquidity + no_lp_minted;
    pool.total_yes_mints = pool.total_yes_mints + usd_amount;
    pool.total_no_mints = pool.total_no_mints + usd_amount;

    pool.liquidity_value = new_liquidity_value;
    pool.liquidity_shares = new_liquidity_value;

    ev
}

/// Deposits collateral into the pool.
///
/// A zero deposit is rejected with `Zero` and a resolved market with
/// `MarketResolved`; either rejection leaves the pool untouched.  Otherwise
/// the deposit is split by the regime the reserves are in — balanced or
/// skewed towards one side — the pool moves to exactly
/// `spec_add_liquidity_pool` (its collateral grows by exactly the deposit),
/// and the returned record is exactly `spec_add_liquidity_event`.
pub fn add_liquidity(pool: &mut MarketPool, market: &Market, usd_amount: u64) -> (r: Result<
    LiquidityAddedEvent,
    MarketError,
>)
    requires
        add_liquidity_ok(*old(pool), *market, usd_amount),
    ensures
        usd_amount == 0 ==> r == Err::<LiquidityAddedEvent, MarketError>(MarketError::Zero)
            && *final(pool) == *old(pool),
        usd_amount > 0 && market.resolved ==> r == Err::<LiquidityAddedEvent, MarketError>(
            MarketError::MarketResolved,
        ) && *final(pool) == *old(pool),
        usd_amount > 0 && !market.resolved ==> {
            &&& r == Ok::<LiquidityAddedEvent, MarketError>(
                spec_add_liquidity_event(*old(pool), usd_amount),
            )
            &&& *final(pool) == spec_add_liquidity_pool(*old(pool), usd_amount)
            &&& final(pool).usd_collateral == old(pool).usd_collateral + usd_amount
        },
{
    if usd_amount == 0 {
        return Err(MarketError::Zero);
    }
    if market.resolved {
        return Err(MarketError::MarketResolved);
    }

    let ev: LiquidityAddedEvent;
    if pool.yes_liquidity == pool.no_liquidity {
        ev = add_liquidity_equal_outcomes(pool, usd_amount);
    } else {
        let total_tokens: u64 = pool.yes_liquidity + pool.no_liquidity;
        let yes_token_price: u64 = pool.yes_liquidity / total_tokens;
        let no_token_price: u64 = pool.no_liquidity / total_tokens;

        if pool.no_liquidity > pool.yes_liquidity {
            ev = add_unequal_outcomes_with_more_no(
                pool,
                yes_token_price,
                no_token_price,
                usd_amount,
            );
        } else {
            ev = add_unequal_outcomes_with_more_yes(
                pool,
                yes_token_price,
                no_token_price,
                usd_amount,
            );
        }
    }

    pool.usd_collateral = pool.usd_collateral + usd_amount;

    Ok(ev)
}

// ---------------------------------------------------------------------------
// Liquidity removal
// ---------------------------------------------------------------------------

/// The smaller of the two reserves.
pub open spec fn spec_lowest_outcome(p: MarketPool) -> int {
    if p.yes_liquidity > p.no_liquidity {
        p.no_liquidity as int
    } else {
        p.yes_liquidity as int
    }
}

/// The larger of the two reserves.
pub open spec fn spec_highest_outcome(p: MarketPool) -> int {
    if p.yes_liquidity > p.no_liquidity {
        p.yes_liquidity as int
    } else {
        p.no_liquidity as int
    }
}

/// Floor-divided price attributed to the scarcer (smaller-reserve) outcome:
/// the larger reserve over the total.
pub open spec fn spec_lowest_price(p: MarketPool) -> int {
    spec_highest_outcome(p) / (spec_lowest_outcome(p) + spec_highest_outcome(p))
}

/// Floor-divided price attributed to the more probable outcome: the smaller
/// reserve over the total.
pub open spec fn spec_highest_price(p: MarketPool) -> int {
    spec_lowest_outcome(p) / (spec_lowest_outcome(p) + spec_highest_outcome(p))
}

/// Collateral entitlement of an unresolved withdrawal:
/// `liquidity_value / (lowest_reserve * shares)`.  The formula does not
/// scale linearly with the burned shares; it is kept exactly as the
/// settlement rule it is.
pub open spec fn spec_liquidity_shares_value(p: MarketPool, shares: u64) -> int {
    p.liquidity_value as int / (spec_lowest_outcome(p) * shares)
}

/// Reserve kept by the pool on the side it rebalances after an unresolved
/// withdrawal, computed from the shrunk larger reserve at the prices read
/// before the shrink.
pub open spec fn spec_remaining_lowest_outcome(p: MarketPool, shares: u64) -> int {
    ((spec_highest_outcome(p) - spec_liquidity_shares_value(p, shares)) * spec_highest_price(p))
        / spec_lowest_price(p)
}

/// What an unresolved withdrawal needs in order not to overflow or
/// underflow any balance, nor divide by zero.
pub open spec fn unresolved_remove_ok(p: MarketPool, shares: u64) -> bool {
    let lsv = spec_liquidity_shares_value(p, shares);
    let rem = spec_remaining_lowest_outcome(p, shares);
    &&& spec_lowest_outcome(p) * shares >= 1
    &&& spec_lowest_outcome(p) + spec_highest_outcome(p) <= u64::MAX
    &&& spec_lowest_price(p) >= 1
    &&& lsv <= p.usd_collateral
    &&& lsv <= p.liquidity_value
    &&& shares <= p.liquidity_shares
    &&& lsv <= p.yes_liquidity
    &&& lsv <= p.no_liquidity
    &&& lsv <= p.total_yes_mints
    &&& lsv <= p.total_no_mints
    &&& rem <= u64::MAX
    &&& rem <= spec_lowest_outcome(p) - lsv
}

/// Reserve of the side the resolution declared correct; only it has
/// settlement value.
pub open spec fn spec_winning_reserve(p: MarketPool, m: Market) -> int {
    if m.outcome == Some(0u8) {
        p.no_liquidity as int
    } else {
        p.yes_liquidity as int
    }
}

/// Collateral a resolved withdrawal pays per burned share:
/// `winning_reserve / liquidity_value`, floored.
pub open spec fn spec_liquidity_share_price(p: MarketPool, m: Market) -> int {
    spec_winning_reserve(p, m) / (p.liquidity_value as int)
}

/// Collateral a resolved withdrawal pays out in total.
pub open spec fn spec_resolved_payout(p: MarketPool, m: Market, shares: u64) -> int {
    shares * spec_liquidity_share_price(p, m)
}

/// What a resolved withdrawal needs in order not to overflow or underflow
/// any balance.
pub open spec fn resolved_remove_ok(p: MarketPool, m: Market, shares: u64) -> bool {
    let payout = spec_resolved_payout(p, m, shares);
    &&& payout <= u64::MAX
    &&& payout <= p.usd_collateral
    &&& payout <= p.liquidity_value
    &&& shares <= p.liquidity_shares
    &&& payout <= p.yes_liquidity
    &&& payout <= p.no_liquidity
    &&& payout <= p.total_yes_mints
    &&& payout <= p.total_no_mints
}

/// What a withdrawal needs from the pool it draws on.  Rejected withdrawals
/// need nothing: they touch no state.
pub open spec fn remove_liquidity_ok(p: MarketPool, m: Market, shares: u64, balance: u64) -> bool {
    shares < balance && shares > 0 && p.liquidity_value != 0 ==> if m.resolved {
        resolved_remove_ok(p, m, shares)
    } else {
        unresolved_remove_ok(p, shares)
    }
}

/// The pool an unresolved withdrawal leaves behind: every balance shrinks by
/// the collateral entitlement, the larger side is then rebalanced to the
/// kept reserve, and the liquidity value is recomputed as the floor square
/// root of the product of the reserves.
pub open spec fn spec_unresolved_remove_pool(p: MarketPool, shares: u64) -> MarketPool {
    let lsv = spec_liquidity_shares_value(p, shares);
    let rem = spec_remaining_lowest_outcome(p, shares);
    let yes_shrunk = p.yes_liquidity - lsv;
    let no_shrunk = p.no_liquidity - lsv;
    let yes_kept = if yes_shrunk < no_shrunk {
        yes_shrunk
    } else {
        rem
    };
    let no_kept = if yes_shrunk < no_shrunk {
        rem
    } else {
        no_shrunk
    };
    MarketPool {
        yes_liquidity: yes_kept as u64,
        no_liquidity: no_kept as u64,
        liquidity_value: floor_sqrt(yes_kept * no_kept) as u64,
        liquidity_shares: (p.liquidity_shares - shares) as u64,
        usd_collateral: (p.usd_collateral - lsv) as u64,
        total_yes_mints: (p.total_yes_mints - lsv) as u64,
        total_no_mints: (p.total_no_mints - lsv) as u64,
    }
}

/// The record an unresolved withdrawal returns: the collateral entitlement,
/// plus the scarcer side's tokens freed by the rebalance.
pub open spec fn spec_unresolved_remove_event(p: MarketPool, m: Market, shares: u64)
    -> LiquidityRemovedEvent {
    let lsv = spec_liquidity_shares_value(p, shares);
    let rem = spec_remaining_lowest_outcome(p, shares);
    let after = spec_unresolved_remove_pool(p, shares);
    LiquidityRemovedEvent {
        burnt_lp_shares: shares,
        equivalent_usd: lsv as u64,
        received_lowest_outcome_tokens: (spec_lowest_outcome(p) - lsv - rem) as u64,
        received_lowest_outcome_mint: if p.yes_liquidity > p.no_liquidity {
            m.no_mint
        } else {
            m.yes_mint
        },
        remaining_yes_tokens: after.yes_liquidity,
        remaining_no_tokens: after.no_liquidity,
    }
}

/// The pool a resolved withdrawal leaves behind: every balance shrinks by
/// the payout, the share supply by the burned shares.
pub open spec fn spec_resolved_remove_pool(p: MarketPool, m: Market, shares: u64) -> MarketPool {
    let payout = spec_resolved_payout(p, m, shares);
    MarketPool {
        yes_liquidity: (p.yes_liquidity - payout) as u64,
        no_liquidity: (p.no_liquidity - payout) as u64,
        liquidity_value: (p.liquidity_value - payout) as u64,
        liquidity_shares: (p.liquidity_shares - shares) as u64,
        usd_collateral: (p.usd_collateral - payout) as u64,
        total_yes_mints: (p.total_yes_mints - payout) as u64,
        total_no_mints: (p.total_no_mints - payout) as u64,
    }
}

/// The record a resolved withdrawal returns: settlement purely in
/// collateral, no outcome tokens and no mint named.
pub open spec fn spec_resolved_remove_event(p: MarketPool, m: Market, shares: u64)
    -> LiquidityRemovedEvent {
    let payout = spec_resolved_payout(p, m, shares);
    LiquidityRemovedEvent {
        burnt_lp_shares: shares,
        equivalent_usd: payout as u64,
        received_lowest_outcome_tokens: 0,
        received_lowest_outcome_mint: 0,
        remaining_yes_tokens: (p.yes_liquidity - payout) as u64,
        remaining_no_tokens: (p.no_liquidity - payout) as u64,
    }
}

/// Withdraws liquidity by burning LP shares.
///
/// The custody layer burns the shares and vouches for the caller's balance;
/// the engine takes that balance and rejects a request for it or more with
/// `InsufficientFunds`, a zero request with `Zero`, and an empty pool with
/// `MarketNotInitialized`; every rejection leaves the pool untouched.  On an
/// unresolved market the caller is paid the floor-divided collateral
/// entitlement and the scarcer side's tokens freed by the rebalance; on a
/// resolved market the caller is settled purely in collateral at the
/// floor-divided per-share price of the winning reserve.
pub fn remove_liquidity(
    pool: &mut MarketPool,
    market: &Market,
    shares: u64,
    user_lp_share_balance: u64,
) -> (r: Result<LiquidityRemovedEvent, MarketError>)
    requires
        remove_liquidity_ok(*old(pool), *market, shares, user_lp_share_balance),
    ensures
        !(shares < user_lp_share_balance) ==> r == Err::<LiquidityRemovedEvent, MarketError>(
            MarketError::InsufficientFunds,
        ) && *final(pool) == *old(pool),
        shares < user_lp_share_balance && shares == 0 ==> r == Err::<
            LiquidityRemovedEvent,
            MarketError,
        >(MarketError::Zero) && *final(pool) == *old(pool),
        shares < user_lp_share_balance && shares > 0 && old(pool).liquidity_value == 0 ==> r
            == Err::<LiquidityRemovedEvent, MarketError>(MarketError::MarketNotInitialized)
            && *final(pool) == *old(pool),
        shares < user_lp_share_balance && shares > 0 && old(pool).liquidity_value != 0
            && !market.resolved ==> {
            &&& r == Ok::<LiquidityRemovedEvent, MarketError>(
                spec_unresolved_remove_event(*old(pool), *market, shares),
            )
            &&& *final(pool) == spec_unresolved_remove_pool(*old(pool), shares)
        },
        shares < user_lp_share_balance && shares > 0 && old(pool).liquidity_value != 0
            && market.resolved ==> {
            &&& r == Ok::<LiquidityRemovedEvent, MarketError>(
                spec_resolved_remove_event(*old(pool), *market, shares),
            )
            &&& *final(pool) == spec_resolved_remove_pool(*old(pool), *market, shares)
            &&& final(pool).usd_collateral == old(pool).usd_collateral - spec_resolved_payout(
                *old(pool),
                *market,
                shares,
            )
        },
{
    if !(shares < user_lp_share_balance) {
        return Err(MarketError::InsufficientFunds);
    }
    if shares == 0 {
        return Err(MarketError::Zero);
    }
    if pool.liquidity_value == 0 {
        return Err(MarketError::MarketNotInitialized);
    }

    if !market.resolved {
        // Pick out the scarcer (smaller) and more probable (larger) reserve.
        let mut lowest_outcome: u64;
        let mut highest_outcome: u64;
        let lowest_outcome_mint: u64;
        if pool.yes_liquidity > pool.no_liquidity {
            lowest_outcome = pool.no_liquidity;
            highest_outcome = pool.yes_liquidity;
            lowest_outcome_mint = market.no_mint;
        } else {
            lowest_outcome = pool.yes_liquidity;
            highest_outcome = pool.no_liquidity;
            lowest_outcome_mint = market.yes_mint;
        }

        proof {
            assert(lowest_outcome == spec_lowest_outcome(*old(pool)));
            assert(lowest_outcome >= 1) by (nonlinear_arith)
                requires
                    (lowest_outcome as int) * (shares as int) >= 1,
                    lowest_outcome >= 0,
                    shares >= 0,
            ;
        }
        let lowest_price: u64 = highest_outcome / (lowest_outcome + highest_outcome);
        let highest_price: u64 = lowest_outcome / (lowest_outcome + highest_outcome);

        proof {
            assert((lowest_outcome as int) * (shares as int)
                < 0x100000000000000000000000000000000int) by (nonlinear_arith)
                requires
                    lowest_outcome <= u64::MAX,
                    shares <= u64::MAX,
            ;
        }
        let lowest_times_shares: u128 = (lowest_outcome as u128) * (shares as u128);
        proof {
            assert((pool.liquidity_value as int) / (lowest_times_shares as int)
                <= pool.liquidity_value as int) by (nonlinear_arith)
                requires
                    lowest_times_shares >= 1,
                    pool.liquidity_value >= 0,
            ;
        }
        let liquidity_shares_value: u64 = ((pool.liquidity_value as u128) / lowest_times_shares)
            as u64;

        // The entitlement leaves escrow; a matching amount of both outcome
        // tokens is no longer collateral-backed and is burned everywhere.
        pool.usd_collateral = pool.usd_collateral - liquidity_shares_value;
        pool.liquidity_value = pool.liquidity_value - liquidity_shares_value;
        pool.liquidity_shares = pool.liquidity_shares - shares;
        pool.yes_liquidity = pool.yes_liquidity - liquidity_shares_value;
        pool.no_liquidity = pool.no_liquidity - liquidity_shares_value;
        pool.total_yes_mints = pool.total_yes_mints - liquidity_shares_value;
        pool.total_no_mints = pool.total_no_mints - liquidity_shares_value;

        lowest_outcome = lowest_outcome - liquidity_shares_value;
        highest_outcome = highest_outcome - liquidity_shares_value;

        proof {
            assert((highest_outcome as int) * (highest_price as int)
                < 0x100000000000000000000000000000000int) by (nonlinear_arith)
                requires
                    highest_outcome <= u64::MAX,
                    highest_price <= u64::MAX,
            ;
        }
        let remaining_wide: u128 = ((highest_outcome as u128) * (highest_price as u128)) / (
        lowest_price as u128);
        let remaining_lowest_outcome: u64 = remaining_wide as u64;
        let user_belonging_lowest_outcome: u64 = lowest_outcome - remaining_lowest_outcome;

        // Rebalance: the larger side keeps only the recomputed reserve; the
        // freed scarcer-side tokens go to the caller.
        if pool.yes_liquidity < pool.no_liquidity {
            pool.no_liquidity = remaining_lowest_outcome;
        } else {
            pool.yes_liquidity = remaining_lowest_outcome;
        }

        proof {
            assert((pool.yes_liquidity as int) * (pool.no_liquidity as int)
                < 0x100000000000000000000000000000000int) by (nonlinear_arith)
                requires
                    pool.yes_liquidity <= u64::MAX,
                    pool.no_liquidity <= u64::MAX,
            ;
        }
        let liquidity_value_squared: u128 = (pool.yes_liquidity as u128) * (
        pool.no_liquidity as u128);
        let new_liquidity_value_wide: u128 = sqrt_u128(liquidity_value_squared);
        proof {
            assert(0x10000000000000000int * 0x10000000000000000int == 0x100000000000000000000000000000000int);
            lemma_floor_sqrt_bound(
                liquidity_value_squared as int,
                new_liquidity_value_wide as int,
                0x10000000000000000int,
            );
        }
        pool.liquidity_value = new_liquidity_value_wide as u64;

        Ok(
            LiquidityRemovedEvent {
                burnt_lp_shares: shares,
                equivalent_usd: liquidity_shares_value,
                received_lowest_outcome_tokens: user_belonging_lowest_outcome,
                received_lowest_outcome_mint: lowest_outcome_mint,
                remaining_yes_tokens: pool.yes_liquidity,
                remaining_no_tokens: pool.no_liquidity,
            },
        )
    } else {
        // Only the winning side's reserve still has settlement value.
        let remaining_winning_outcome: u64 = if market.outcome == Some(0) {
            pool.no_liquidity
        } else {
            pool.yes_liquidity
        };

        let liquidity_share_price: u64 = remaining_winning_outcome / pool.liquidity_value;
        let user_belonging_money: u64 = shares * liquidity_share_price;

        pool.usd_collateral = pool.usd_collateral - user_belonging_money;
        pool.liquidity_value = pool.liquidity_value - user_belonging_money;
        pool.liquidity_shares = pool.liquidity_shares - shares;
        pool.yes_liquidity = pool.yes_liquidity - user_belonging_money;
        pool.no_liquidity = pool.no_liquidity - user_belonging_money;
        pool.total_yes_mints = pool.total_yes_mints - user_belonging_money;
        pool.total_no_mints = pool.total_no_mints - user_belonging_money;

        Ok(
            LiquidityRemovedEvent {
                burnt_lp_shares: shares,
                equivalent_usd: user_belonging_money,
                received_lowest_outcome_tokens: 0,
                received_lowest_outcome_mint: 0,
                remaining_yes_tokens: pool.yes_liquidity,
                remaining_no_tokens: pool.no_liquidity,
            },
        )
    }
}

// ---------------------------------------------------------------------------
// Directional purchase
// ---------------------------------------------------------------------------

/// Reserve the purchased side is left with after a purchase: the liquidity
/// value squared, divided by the opposite reserve grown by the deposit
/// (constant-product pricing, floored).
pub open spec fn spec_new_wanted_reserve(lv: u64, other_reserve: u64, d: u64) -> int {
    (lv * lv) / (other_reserve + d)
}

/// What a purchase of the YES side needs in order not to overflow or
/// underflow any balance.
pub open spec fn purchase_yes_ok(p: MarketPool, d: u64) -> bool {
    &&& spec_new_wanted_reserve(p.liquidity_value, p.no_liquidity, d) <= p.yes_liquidity
    &&& p.no_liquidity + d <= u64::MAX
    &&& p.usd_collateral + d <= u64::MAX
    &&& p.total_yes_mints + d <= u64::MAX
    &&& p.total_no_mints + d <= u64::MAX
    &&& d + (p.yes_liquidity - spec_new_wanted_reserve(p.liquidity_value, p.no_liquidity, d))
        <= u64::MAX
}

/// What a purchase of the NO side needs in order not to overflow or
/// underflow any balance.
pub open spec fn purchase_no_ok(p: MarketPool, d: u64) -> bool {
    &&& spec_new_wanted_reserve(p.liquidity_value, p.yes_liquidity, d) <= p.no_liquidity
    &&& p.yes_liquidity + d <= u64::MAX
    &&& p.usd_collateral + d <= u64::MAX
    &&& p.total_yes_mints + d <= u64::MAX
    &&& p.total_no_mints + d <= u64::MAX
    &&& d + (p.no_liquidity - spec_new_wanted_reserve(p.liquidity_value, p.yes_liquidity, d))
        <= u64::MAX
}

/// What a purchase needs from the pool it trades against.  Rejected
/// purchases need nothing: they touch no state.
pub open spec fn purchase_ok(p: MarketPool, m: Market, d: u64, wanted_mint: u64) -> bool {
    d > 0 && !m.resolved ==> {
        &&& (wanted_mint == m.yes_mint ==> purchase_yes_ok(p, d))
        &&& (wanted_mint != m.yes_mint && wanted_mint == m.no_mint ==> purchase_no_ok(p, d))
    }
}

/// The pool a successful purchase leaves behind: the purchased reserve
/// shrinks to the constant-product value, the opposite reserve grows by the
/// deposit, and the liquidity value and share supply stay put.
pub open spec fn spec_purchase_pool(p: MarketPool, m: Market, d: u64, wanted_mint: u64)
    -> MarketPool {
    if wanted_mint == m.yes_mint {
        MarketPool {
            yes_liquidity: spec_new_wanted_reserve(p.liquidity_value, p.no_liquidity, d) as u64,
            no_liquidity: (p.no_liquidity + d) as u64,
            liquidity_value: p.liquidity_value,
            liquidity_shares: p.liquidity_shares,
            usd_collateral: (p.usd_collateral + d) as u64,
            total_yes_mints: (p.total_yes_mints + d) as u64,
            total_no_mints: (p.total_no_mints + d) as u64,
        }
    } else {
        MarketPool {
            yes_liquidity: (p.yes_liquidity + d) as u64,
            no_liquidity: spec_new_wanted_reserve(p.liquidity_value, p.yes_liquidity, d) as u64,
            liquidity_value: p.liquidity_value,
            liquidity_shares: p.liquidity_shares,
            usd_collateral: (p.usd_collateral + d) as u64,
            total_yes_mints: (p.total_yes_mints + d) as u64,
            total_no_mints: (p.total_no_mints + d) as u64,
        }
    }
}

/// The record a successful purchase returns: the buyer ends up with the
/// deposit freshly minted plus the pool reserve's shrinkage.
pub open spec fn spec_purchase_event(p: MarketPool, m: Market, d: u64, wanted_mint: u64)
    -> PurchasedOutcomeSharesEvent {
    if wanted_mint == m.yes_mint {
        let new_yes = spec_new_wanted_reserve(p.liquidity_value, p.no_liquidity, d);
        PurchasedOutcomeSharesEvent {
            amount: d,
            wanted_shares_purchased: (d + (p.yes_liquidity - new_yes)) as u64,
            pool_remaining_yes_tokens: new_yes as u64,
            pool_remaining_no_tokens: (p.no_liquidity + d) as u64,
        }
    } else {
        let new_no = spec_new_wanted_reserve(p.liquidity_value, p.yes_liquidity, d);
        PurchasedOutcomeSharesEvent {
            amount: d,
            wanted_shares_purchased: (d + (p.no_liquidity - new_no)) as u64,
            pool_remaining_yes_tokens: (p.yes_liquidity + d) as u64,
            pool_remaining_no_tokens: new_no as u64,
        }
    }
}

/// Buys one outcome with a collateral deposit.
///
/// A zero deposit is rejected with `Zero`, a resolved market with
/// `MarketResolved`, and an asset that is neither outcome mint with
/// `MintNotAllowed`; every rejection leaves the pool untouched.  Otherwise
/// the purchased side's reserve moves down the pricing curve to
/// `liquidity_value^2 / (opposite_reserve + deposit)`, the opposite reserve
/// is minted up by the deposit to stay collateralized, collateral and both
/// mint counters grow by the deposit, and the buyer receives the deposit
/// freshly minted plus the purchased reserve's shrinkage out of the pool.
pub fn purchase_outcome_shares(
    pool: &mut MarketPool,
    market: &Market,
    usd_amount: u64,
    purchased_outcome_mint: u64,
) -> (r: Result<PurchasedOutcomeSharesEvent, MarketError>)
    requires
        purchase_ok(*old(pool), *market, usd_amount, purchased_outcome_mint),
    ensures
        usd_amount == 0 ==> r == Err::<PurchasedOutcomeSharesEvent, MarketError>(
            MarketError::Zero,
        ) && *final(pool) == *old(pool),
        usd_amount > 0 && market.resolved ==> r == Err::<PurchasedOutcomeSharesEvent, MarketError>(
            MarketError::MarketResolved,
        ) && *final(pool) == *old(pool),
        usd_amount > 0 && !market.resolved && purchased_outcome_mint != market.yes_mint
            && purchased_outcome_mint != market.no_mint ==> r == Err::<
            PurchasedOutcomeSharesEvent,
            MarketError,
        >(MarketError::MintNotAllowed) && *final(pool) == *old(pool),
        usd_amount > 0 && !market.resolved && (purchased_outcome_mint == market.yes_mint
            || purchased_outcome_mint == market.no_mint) ==> {
            &&& r == Ok::<PurchasedOutcomeSharesEvent, MarketError>(
                spec_purchase_event(*old(pool), *market, usd_amount, purchased_outcome_mint),
            )
            &&& *final(pool) == spec_purchase_pool(
                *old(pool),
                *market,
                usd_amount,
                purchased_outcome_mint,
            )
            &&& final(pool).usd_collateral == old(pool).usd_collateral + usd_amount
        },
{
    if usd_amount == 0 {
        return Err(MarketError::Zero);
    }
    if market.resolved {
        return Err(MarketError::MarketResolved);
    }

    let wanted_from_liquidity: u64;
    let ev: PurchasedOutcomeSharesEvent;

    if purchased_outcome_mint == market.yes_mint {
        // Constant-product move: the YES reserve shrinks against the NO
        // reserve grown by the deposit.
        let liquidity_value: u128 = pool.liquidity_value as u128;
        let no_liquidity: u128 = pool.no_liquidity as u128;
        let usd: u128 = usd_amount as u128;
        proof {
            assert((pool.liquidity_value as int) * (pool.liquidity_value as int)
                < 0x100000000000000000000000000000000int) by (nonlinear_arith)
                requires
                    pool.liquidity_value <= u64::MAX,
            ;
        }
        let new_yes_liquidity: u64 = (liquidity_value * liquidity_value / (no_liquidity + usd))
            as u64;
        wanted_from_liquidity = pool.yes_liquidity - new_yes_liquidity;

        pool.yes_liquidity = new_yes_liquidity;
        pool.no_liquidity = pool.no_liquidity + usd_amount;
        pool.usd_collateral = pool.usd_collateral + usd_amount;
        pool.total_yes_mints = pool.total_yes_mints + usd_amount;
        pool.total_no_mints = pool.total_no_mints + usd_amount;

        ev = PurchasedOutcomeSharesEvent {
            amount: usd_amount,
            wanted_shares_purchased: usd_amount + wanted_from_liquidity,
            pool_remaining_yes_tokens: pool.yes_liquidity,
            pool_remaining_no_tokens: pool.no_liquidity,
        };
    } else if purchased_outcome_mint == market.no_mint {
        // The mirror move for a NO purchase.
        let liquidity_value: u128 = pool.liquidity_value as u128;
        let yes_liquidity: u128 = pool.yes_liquidity as u128;
        let usd: u128 = usd_amount as u128;
        proof {
            assert((pool.liquidity_value as int) * (pool.liquidity_value as int)
                < 0x100000000000000000000000000000000int) by (nonlinear_arith)
                requires
                    pool.liquidity_value <= u64::MAX,
            ;
        }
        let new_no_liquidity: u64 = (liquidity_value * liquidity_value / (yes_liquidity + usd))
            as u64;
        wanted_from_liquidity = pool.no_liquidity - new_no_liquidity;

        pool.no_liquidity = new_no_liquidity;
        pool.yes_liquidity = pool.yes_liquidity + usd_amount;
        pool.usd_collateral = pool.usd_collateral + usd_amount;
        pool.total_yes_mints = pool.total_yes_mints + usd_amount;
        pool.total_no_mints = pool.total_no_mints + usd_amount;

        ev = PurchasedOutcomeSharesEvent {
            amount: usd_amount,
            wanted_shares_purchased: usd_amount + wanted_from_liquidity,
            pool_remaining_yes_tokens: pool.yes_liquidity,
            pool_remaining_no_tokens: pool.no_liquidity,
        };
    } else {
        return Err(MarketError::MintNotAllowed);
    }

    Ok(ev)
}

} // verus!
