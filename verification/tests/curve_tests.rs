use shitcoin_arena::curve::{DENOMINATOR_C, TOKEN_SUPPLY};
use shitcoin_arena::LinearBondingCurve;

fn curve(token: u64) -> LinearBondingCurve {
    LinearBondingCurve { token, closed: false }
}

#[test]
fn buy_small_amount_costs_one_lamport() {
    let mut c = curve(0);
    assert!(c.can_buy(10));
    assert_eq!(c.buy(10), 1);
    assert_eq!(c.token, 10);
    assert!(!c.closed);
}

#[test]
fn buy_cost_follows_unit_sum() {
    // units 3_000_000_000 ..= 4_000_000_000 sum to 3_500_000_003_500_000_000
    let mut c = curve(3_000_000_000);
    assert!(c.can_buy(1_000_000_000));
    assert_eq!(c.buy(1_000_000_000), 3_500_000_003_500_000_000 / DENOMINATOR_C + 1);
    assert_eq!(c.token, 4_000_000_000);
}

#[test]
fn sell_pays_unit_sum() {
    let mut c = curve(4_000_000_000);
    assert!(c.can_sell(1_000_000_000));
    assert_eq!(c.sell(1_000_000_000), 2);
    assert_eq!(c.token, 3_000_000_000);
}

#[test]
fn sell_of_nothing_still_pays_one_lamport() {
    let mut c = curve(5);
    assert_eq!(c.sell(0), 1);
    assert_eq!(c.token, 5);
}

#[test]
fn buy_of_nothing_at_large_supply() {
    let mut c = curve(2 * DENOMINATOR_C);
    assert!(c.can_buy(0));
    assert_eq!(c.buy(0), 3);
}

#[test]
fn closed_flag_kept_by_trades() {
    let mut c = LinearBondingCurve { token: 100, closed: true };
    c.buy(5);
    assert!(c.closed);
    c.sell(50);
    assert!(c.closed);
    assert_eq!(c.token, 55);
}

#[test]
fn can_buy_refuses_overflowing_purchases() {
    // the unit sum over 0..=10^10 is 5 * 10^19 + 5 * 10^9, above u64::MAX
    assert!(!curve(0).can_buy(10_000_000_000));
    assert!(!curve(u64::MAX).can_buy(0));
    assert!(!curve(u64::MAX - 1).can_buy(1));
    assert!(curve(0).can_buy(6_000_000_000));
}

#[test]
fn can_sell_refuses_selling_more_than_sold() {
    assert!(!curve(5).can_sell(6));
    assert!(curve(5).can_sell(5));
    assert!(!curve(u64::MAX).can_sell(0));
}

#[test]
fn market_cap_counts_whole_denominators() {
    assert_eq!(curve(DENOMINATOR_C - 1).mkt_cap(), 0);
    assert_eq!(curve(DENOMINATOR_C).mkt_cap(), TOKEN_SUPPLY);
    assert_eq!(curve(u64::MAX).mkt_cap(), 8 * TOKEN_SUPPLY);
}

#[test]
fn selling_back_returns_purchase_cost() {
    let mut c = curve(3_000_000_000);
    let paid = c.buy(1_000_000_000);
    let got = c.sell(1_000_000_000);
    assert_eq!(paid, got);
    assert_eq!(c.token, 3_000_000_000);
}

#[test]
fn split_purchase_costs_no_less() {
    let mut whole = curve(3_000_000_000);
    let once = whole.buy(1_000_000_000);
    let mut split = curve(3_000_000_000);
    let twice = split.buy(500_000_000) + split.buy(500_000_000);
    assert_eq!(once, 2);
    assert_eq!(twice, 2);
    assert!(twice >= once);
    assert_eq!(whole.token, split.token);
}

#[test]
fn buy_cost_never_falls() {
    let a = curve(0).buy(10);
    let b = curve(4_000_000_000).buy(1_000_000_000);
    let c = curve(5_000_000_000).buy(1_000_000_000);
    assert!(a <= b && b <= c);
    assert_eq!(c, 5_500_000_005_500_000_000 / DENOMINATOR_C + 1);
}

#[test]
fn sell_proceeds_never_fall() {
    let small = curve(4_000_000_000).sell(1_000);
    let large = curve(5_000_000_000).sell(1_000_000_000);
    assert_eq!(small, 1);
    assert_eq!(large, 3);
    assert!(small <= large);
}
