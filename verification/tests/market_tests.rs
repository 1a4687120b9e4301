use bet_placing_market::MarketError;
use bet_placing_market::create_new_market;
use bet_placing_market::initialize_market_factory;
use bet_placing_market::resolve_market;

#[test]
fn factory_numbers_markets_in_order() {
    let mut factory = initialize_market_factory();
    assert_eq!(factory.created_markets, 0);

    let first = create_new_market(&mut factory, 1, 2, 3, 4);
    let second = create_new_market(&mut factory, 5, 6, 7, 8);

    assert_eq!(first.market_number, 0);
    assert_eq!(second.market_number, 1);
    assert_eq!(factory.created_markets, 2);

    assert_eq!(first.usd_mint, 1);
    assert_eq!(first.yes_mint, 2);
    assert_eq!(first.no_mint, 3);
    assert_eq!(first.lp_share_mint, 4);
    assert!(!first.resolved);
    assert_eq!(first.outcome, None);
}

#[test]
fn resolve_fixes_the_outcome() {
    let mut factory = initialize_market_factory();
    let mut market = create_new_market(&mut factory, 1, 2, 3, 4);

    let ev = resolve_market(&mut market, 1).expect("first resolution succeeds");
    assert_eq!(ev.outcome, 1);
    assert!(market.resolved);
    assert_eq!(market.outcome, Some(1));
}

#[test]
fn resolve_twice_fails_and_keeps_the_outcome() {
    let mut factory = initialize_market_factory();
    let mut market = create_new_market(&mut factory, 1, 2, 3, 4);

    resolve_market(&mut market, 0).expect("first resolution succeeds");
    let second = resolve_market(&mut market, 1);

    assert_eq!(second, Err(MarketError::MarketResolved));
    assert!(market.resolved);
    assert_eq!(market.outcome, Some(0));
}

#[test]
fn resolve_rejects_a_non_binary_outcome() {
    let mut factory = initialize_market_factory();
    let mut market = create_new_market(&mut factory, 1, 2, 3, 4);

    let r = resolve_market(&mut market, 2);

    assert_eq!(r, Err(MarketError::InvalidOutcome));
    assert!(!market.resolved);
    assert_eq!(market.outcome, None);
}
