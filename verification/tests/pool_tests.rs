use bet_placing_market::Market;
use bet_placing_market::MarketError;
use bet_placing_market::MarketPool;
use bet_placing_market::add_liquidity;
use bet_placing_market::create_new_market;
use bet_placing_market::initialize_market_factory;
use bet_placing_market::initialize_pool;
use bet_placing_market::purchase_outcome_shares;
use bet_placing_market::remove_liquidity;
use bet_placing_market::resolve_market;

const USD: u64 = 10;
const YES: u64 = 20;
const NO: u64 = 30;
const LP: u64 = 40;

fn fresh_market() -> Market {
    let mut factory = initialize_market_factory();
    create_new_market(&mut factory, USD, YES, NO, LP)
}

#[test]
fn pool_starts_empty() {
    let pool = initialize_pool();
    assert_eq!(pool.yes_liquidity, 0);
    assert_eq!(pool.no_liquidity, 0);
    assert_eq!(pool.liquidity_value, 0);
    assert_eq!(pool.liquidity_shares, 0);
    assert_eq!(pool.usd_collateral, 0);
    assert_eq!(pool.total_yes_mints, 0);
    assert_eq!(pool.total_no_mints, 0);
}

#[test]
fn balanced_deposit_moves_everything_by_the_deposit() {
    let market = fresh_market();
    let mut pool = initialize_pool();

    let ev = add_liquidity(&mut pool, &market, 1000).expect("deposit succeeds");

    assert_eq!(pool.yes_liquidity, 1000);
    assert_eq!(pool.no_liquidity, 1000);
    assert_eq!(pool.liquidity_value, 1000);
    assert_eq!(pool.liquidity_shares, 1000);
    assert_eq!(pool.usd_collateral, 1000);
    assert_eq!(pool.total_yes_mints, 1000);
    assert_eq!(pool.total_no_mints, 1000);

    assert_eq!(ev.amount, 1000);
    assert_eq!(ev.liquidity_shares_gained, 1000);
    assert_eq!(ev.yes_added_to_pool, 1000);
    assert_eq!(ev.no_added_to_pool, 1000);
    assert_eq!(ev.yes_given_to_user, 0);
    assert_eq!(ev.no_given_to_user, 0);
    assert_eq!(ev.yes_minted, 1000);
    assert_eq!(ev.no_minted, 1000);
}

#[test]
fn balanced_deposit_into_a_running_pool() {
    let market = fresh_market();
    let mut pool = initialize_pool();

    add_liquidity(&mut pool, &market, 250).expect("deposit succeeds");
    add_liquidity(&mut pool, &market, 750).expect("deposit succeeds");

    assert_eq!(pool.yes_liquidity, 1000);
    assert_eq!(pool.no_liquidity, 1000);
    assert_eq!(pool.liquidity_value, 1000);
    assert_eq!(pool.liquidity_shares, 1000);
    assert_eq!(pool.usd_collateral, 1000);
}

#[test]
fn purchase_moves_reserves_along_the_curve() {
    let market = fresh_market();
    let mut pool = initialize_pool();
    add_liquidity(&mut pool, &market, 1000).expect("deposit succeeds");

    let ev = purchase_outcome_shares(&mut pool, &market, 500, YES).expect("purchase succeeds");

    // The NO reserve grows by the deposit; the YES reserve shrinks to
    // floor(1000^2 / 1500) = 666; collateral tracks the deposit.
    assert_eq!(pool.no_liquidity, 1500);
    assert_eq!(pool.yes_liquidity, 666);
    assert_eq!(pool.usd_collateral, 1500);
    assert_eq!(pool.liquidity_value, 1000);
    assert_eq!(pool.liquidity_shares, 1000);
    assert_eq!(pool.total_yes_mints, 1500);
    assert_eq!(pool.total_no_mints, 1500);

    // The buyer gets the deposit freshly minted plus the reserve shrinkage.
    assert_eq!(ev.amount, 500);
    assert_eq!(ev.wanted_shares_purchased, 500 + (1000 - 666));
    assert_eq!(ev.pool_remaining_yes_tokens, 666);
    assert_eq!(ev.pool_remaining_no_tokens, 1500);
}

#[test]
fn purchase_of_the_no_side_mirrors_the_yes_side() {
    let market = fresh_market();
    let mut pool = initialize_pool();
    add_liquidity(&mut pool, &market, 1000).expect("deposit succeeds");

    let ev = purchase_outcome_shares(&mut pool, &market, 500, NO).expect("purchase succeeds");

    assert_eq!(pool.yes_liquidity, 1500);
    assert_eq!(pool.no_liquidity, 666);
    assert_eq!(pool.usd_collateral, 1500);
    assert_eq!(ev.wanted_shares_purchased, 834);
}

#[test]
fn purchase_rejects_a_foreign_mint() {
    let market = fresh_market();
    let mut pool = initialize_pool();
    add_liquidity(&mut pool, &market, 1000).expect("deposit succeeds");
    let before = pool;

    let r = purchase_outcome_shares(&mut pool, &market, 500, 999);

    assert_eq!(r, Err(MarketError::MintNotAllowed));
    assert_eq!(pool, before);
}

#[test]
fn zero_amounts_are_rejected_without_touching_the_pool() {
    let market = fresh_market();
    let mut pool = initialize_pool();
    add_liquidity(&mut pool, &market, 1000).expect("deposit succeeds");
    let before = pool;

    assert_eq!(add_liquidity(&mut pool, &market, 0), Err(MarketError::Zero));
    assert_eq!(pool, before);

    assert_eq!(
        purchase_outcome_shares(&mut pool, &market, 0, YES),
        Err(MarketError::Zero)
    );
    assert_eq!(pool, before);

    assert_eq!(
        remove_liquidity(&mut pool, &market, 0, 1000),
        Err(MarketError::Zero)
    );
    assert_eq!(pool, before);
}

#[test]
fn operations_on_a_resolved_market_are_rejected() {
    let mut market = fresh_market();
    let mut pool = initialize_pool();
    add_liquidity(&mut pool, &market, 1000).expect("deposit succeeds");
    resolve_market(&mut market, 1).expect("resolution succeeds");
    let before = pool;

    assert_eq!(
        add_liquidity(&mut pool, &market, 100),
        Err(MarketError::MarketResolved)
    );
    assert_eq!(pool, before);

    assert_eq!(
        purchase_outcome_shares(&mut pool, &market, 100, YES),
        Err(MarketError::MarketResolved)
    );
    assert_eq!(pool, before);
}

#[test]
fn removal_needs_a_strictly_larger_share_balance() {
    let market = fresh_market();
    let mut pool = initialize_pool();
    add_liquidity(&mut pool, &market, 1000).expect("deposit succeeds");
    let before = pool;

    let r = remove_liquidity(&mut pool, &market, 1000, 1000);

    assert_eq!(r, Err(MarketError::InsufficientFunds));
    assert_eq!(pool, before);
}

#[test]
fn removal_from_an_empty_pool_is_rejected() {
    let market = fresh_market();
    let mut pool = initialize_pool();
    let before = pool;

    let r = remove_liquidity(&mut pool, &market, 1, 10);

    assert_eq!(r, Err(MarketError::MarketNotInitialized));
    assert_eq!(pool, before);
}

#[test]
fn resolved_removal_settles_purely_in_collateral() {
    let mut market = fresh_market();
    let mut pool = initialize_pool();
    add_liquidity(&mut pool, &market, 1000).expect("deposit succeeds");
    resolve_market(&mut market, 1).expect("resolution succeeds");

    // Winning reserve 1000 over liquidity value 1000 gives a share price of
    // exactly 1, so burning 500 shares pays out 500 collateral.
    let ev = remove_liquidity(&mut pool, &market, 500, 1000).expect("removal succeeds");

    assert_eq!(ev.burnt_lp_shares, 500);
    assert_eq!(ev.equivalent_usd, 500);
    assert_eq!(ev.received_lowest_outcome_tokens, 0);
    assert_eq!(ev.received_lowest_outcome_mint, 0);
    assert_eq!(ev.remaining_yes_tokens, 500);
    assert_eq!(ev.remaining_no_tokens, 500);

    assert_eq!(pool.usd_collateral, 500);
    assert_eq!(pool.liquidity_value, 500);
    assert_eq!(pool.liquidity_shares, 500);
    assert_eq!(pool.yes_liquidity, 500);
    assert_eq!(pool.no_liquidity, 500);
    assert_eq!(pool.total_yes_mints, 500);
    assert_eq!(pool.total_no_mints, 500);
}

#[test]
fn resolved_removal_floors_the_share_price() {
    let mut market = fresh_market();
    let mut pool = initialize_pool();
    add_liquidity(&mut pool, &market, 1000).expect("deposit succeeds");
    purchase_outcome_shares(&mut pool, &market, 500, YES).expect("purchase succeeds");
    resolve_market(&mut market, 1).expect("resolution succeeds");

    // Winning reserve 666 over liquidity value 1000 floors to a share price
    // of 0: the burn pays nothing but still retires the shares.
    let ev = remove_liquidity(&mut pool, &market, 400, 1000).expect("removal succeeds");

    assert_eq!(ev.equivalent_usd, 0);
    assert_eq!(pool.usd_collateral, 1500);
    assert_eq!(pool.liquidity_shares, 600);
    assert_eq!(pool.yes_liquidity, 666);
    assert_eq!(pool.no_liquidity, 1500);
}

#[test]
fn collateral_tracks_net_deposits_minus_withdrawals() {
    let mut market = fresh_market();
    let mut pool = initialize_pool();

    // Paid in: 1000 by the deposit, 500 by the purchase.
    add_liquidity(&mut pool, &market, 1000).expect("deposit succeeds");
    purchase_outcome_shares(&mut pool, &market, 500, YES).expect("purchase succeeds");

    // NO wins; its reserve is 1500 against a liquidity value of 1000, so
    // the share price floors to 1 and burning 600 shares pays out 600.
    resolve_market(&mut market, 0).expect("resolution succeeds");
    let ev = remove_liquidity(&mut pool, &market, 600, 1000).expect("removal succeeds");

    assert_eq!(ev.equivalent_usd, 600);
    assert_eq!(pool.usd_collateral, 1000 + 500 - 600);
    assert_eq!(pool.liquidity_value, 400);
    assert_eq!(pool.liquidity_shares, 400);
    assert_eq!(pool.yes_liquidity, 66);
    assert_eq!(pool.no_liquidity, 900);
}
