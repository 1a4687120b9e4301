//! Conservation law of the collateral account.
//!
//! Each operation's contract pins how the escrowed collateral moves: a
//! deposit or purchase raises `usd_collateral` by exactly the amount paid
//! in, a withdrawal lowers it by exactly the amount paid out, and a rejected
//! operation leaves it alone.  This module folds those single steps into the
//! statement over whole histories: after any sequence of operations the
//! collateral balance equals the starting balance plus everything paid in,
//! minus everything paid out — nothing leaks and nothing is created.

use vstd::prelude::*;

use crate::pool::MarketPool;
use crate::pool::spec_add_liquidity_event;
use crate::pool::spec_add_liquidity_pool;
use crate::pool::spec_more_no_lp_yes;
use crate::pool::spec_yes_token_price;
use crate::pool::spec_no_token_price;

verus! {

/// Collateral moved by one completed operation: what entered escrow and
/// what left it.
#[derive(Clone, Copy, Debug, PartialEq, Eq, Structural)]
pub struct CollateralFlow {
    /// Collateral paid into escrow by the operation.
    pub paid_in: u64,
    /// Collateral paid out of escrow by the operation.
    pub paid_out: u64,
}

/// Everything a history of flows paid into escrow.
pub open spec fn spec_sum_paid_in(flows: Seq<CollateralFlow>) -> int
    decreases flows.len(),
{
    if flows.len() == 0 {
        0
    } else {
        spec_sum_paid_in(flows.drop_last()) + flows.last().paid_in
    }
}

/// Everything a history of flows paid out of escrow.
pub open spec fn spec_sum_paid_out(flows: Seq<CollateralFlow>) -> int
    decreases flows.len(),
{
    if flows.len() == 0 {
        0
    } else {
        spec_sum_paid_out(flows.drop_last()) + flows.last().paid_out
    }
}

/// A history of pool states is accounted for by a history of flows when
/// every step moves the collateral balance by exactly that step's flow.
/// This is what the operations' contracts guarantee: `add_liquidity` and
/// `purchase_outcome_shares` pay in exactly their deposit,
/// `remove_liquidity` pays out exactly its settlement, and a rejected
/// operation pays nothing either way.
pub open spec fn collateral_trace_ok(states: Seq<MarketPool>, flows: Seq<CollateralFlow>) -> bool {
    &&& states.len() == flows.len() + 1
    &&& forall|i: int|
        0 <= i < flows.len() ==> states[i + 1].usd_collateral == states[i].usd_collateral
            + flows[i].paid_in - flows[i].paid_out
}

/// Collateral conservation: after any sequence of add-liquidity,
/// remove-liquidity and purchase operations on one market, the collateral
/// balance equals the starting balance plus the sum of all amounts paid in,
/// minus the sum of all amounts paid out.
pub proof fn lemma_collateral_conservation(states: Seq<MarketPool>, flows: Seq<CollateralFlow>)
    requires
        collateral_trace_ok(states, flows),
    ensures
        states.last().usd_collateral == states[0].usd_collateral + spec_sum_paid_in(flows)
            - spec_sum_paid_out(flows),
    decreases flows.len(),
{
    if flows.len() == 0 {
        assert(states.last() == states[0]);
    } else {
        let prefix_states = states.drop_last();
        let prefix_flows = flows.drop_last();
        assert(collateral_trace_ok(prefix_states, prefix_flows));
        lemma_collateral_conservation(prefix_states, prefix_flows);
        assert(prefix_states.last() == states[states.len() - 2]);
        assert(states.last().usd_collateral == prefix_states.last().usd_collateral
            + flows.last().paid_in - flows.last().paid_out);
    }
}

/// Balanced deposit law: a deposit of `d` into a pool whose reserves are
/// equal raises both reserves by exactly `d`, mints exactly `d` LP shares
/// to the depositor, and hands the depositor no outcome tokens at all.
pub proof fn lemma_balanced_add_liquidity(p: MarketPool, d: u64)
    requires
        p.yes_liquidity == p.no_liquidity,
        p.yes_liquidity + d <= u64::MAX,
    ensures
        spec_add_liquidity_pool(p, d).yes_liquidity == p.yes_liquidity + d,
        spec_add_liquidity_pool(p, d).no_liquidity == p.no_liquidity + d,
        spec_add_liquidity_event(p, d).liquidity_shares_gained == d,
        spec_add_liquidity_event(p, d).yes_given_to_user == 0,
        spec_add_liquidity_event(p, d).no_given_to_user == 0,
{
}

/// Skewed deposit law: when the NO reserve is the larger one before the
/// deposit, the depositor receives no NO tokens — the scarcer side is never
/// handed out — and the YES tokens received are exactly the minted surplus
/// beyond what the pool keeps, a non-negative amount.
pub proof fn lemma_skewed_add_keeps_scarcer_side(p: MarketPool, d: u64)
    requires
        p.no_liquidity > p.yes_liquidity,
        p.yes_liquidity + d <= u64::MAX,
        p.yes_liquidity <= spec_more_no_lp_yes(
            p,
            spec_yes_token_price(p) as u64,
            spec_no_token_price(p) as u64,
            d,
        ) <= p.yes_liquidity + d,
    ensures
        spec_add_liquidity_event(p, d).no_given_to_user == 0,
        spec_add_liquidity_event(p, d).yes_given_to_user == p.yes_liquidity + d
            - spec_more_no_lp_yes(
            p,
            spec_yes_token_price(p) as u64,
            spec_no_token_price(p) as u64,
            d,
        ),
        spec_add_liquidity_event(p, d).yes_given_to_user >= 0,
{
}

} // verus!
