use clob::amounts::{calculate_order_amounts, try_calculate_order_amounts};
use clob::{Decimal, OrderKind, OrderSide, RoundConfig, TickSize};
use std::str::FromStr;

fn dec(mantissa: u128, scale: u32) -> Decimal {
    Decimal::new(mantissa, scale)
}

#[test]
fn tick_size_parse_accepts_the_four_ticks() {
    assert_eq!(TickSize::from_str("0.1"), Ok(TickSize::Tenth));
    assert_eq!(TickSize::from_str("0.01"), Ok(TickSize::Hundredth));
    assert_eq!(TickSize::from_str("0.001"), Ok(TickSize::Thousandth));
    assert_eq!(TickSize::from_str("0.0001"), Ok(TickSize::TenThousandth));
}

#[test]
fn tick_size_parse_rejects_everything_else() {
    for s in ["0.00001", "1", "", "0.", "0.10", "0.2", " 0.1", "0.1 ", "1.0", "0,01", "0.011"] {
        assert!(TickSize::from_str(s).is_err(), "accepted {s:?}");
    }
}

#[test]
fn round_config_per_tick() {
    let c = TickSize::Tenth.round_config();
    assert_eq!((c.price, c.size, c.amount), (1, 2, 3));
    let c = TickSize::Hundredth.round_config();
    assert_eq!((c.price, c.size, c.amount), (2, 2, 4));
    let c = TickSize::Thousandth.round_config();
    assert_eq!((c.price, c.size, c.amount), (3, 2, 5));
    let c: RoundConfig = TickSize::TenThousandth.round_config();
    assert_eq!((c.price, c.size, c.amount), (4, 2, 6));
}

#[test]
fn limit_buy_scenario() {
    let r = calculate_order_amounts(
        dec(65, 2),
        OrderSide::Buy,
        OrderKind::Limit { size: dec(500, 0) },
        TickSize::Hundredth,
    );
    assert_eq!(r, (325_000_000, 500_000_000));
}

#[test]
fn market_buy_scenario() {
    let r = calculate_order_amounts(
        dec(40, 2),
        OrderSide::Buy,
        OrderKind::MarketBuy { quote_amount: dec(1000, 0) },
        TickSize::Hundredth,
    );
    assert_eq!(r, (1_000_000_000, 2_500_000_000));
}

#[test]
fn limit_sell_amounts() {
    let r = calculate_order_amounts(
        dec(65, 2),
        OrderSide::Sell,
        OrderKind::Limit { size: dec(500, 0) },
        TickSize::Hundredth,
    );
    assert_eq!(r, (500_000_000, 325_000_000));
}

#[test]
fn market_sell_amounts() {
    let r = calculate_order_amounts(
        dec(123, 3),
        OrderSide::Sell,
        OrderKind::MarketSell { base_amount: dec(25_009, 1) },
        TickSize::Thousandth,
    );
    // 2500.9 shares at 0.123 give 307.6107
    assert_eq!(r, (2_500_900_000, 307_610_700));
}

#[test]
fn mismatched_kind_and_side_give_zero() {
    let r = calculate_order_amounts(
        dec(5, 1),
        OrderSide::Sell,
        OrderKind::MarketBuy { quote_amount: dec(100, 0) },
        TickSize::Tenth,
    );
    assert_eq!(r, (0, 0));
    let r = calculate_order_amounts(
        dec(5, 1),
        OrderSide::Buy,
        OrderKind::MarketSell { base_amount: dec(100, 0) },
        TickSize::Tenth,
    );
    assert_eq!(r, (0, 0));
}

#[test]
fn conversion_is_idempotent() {
    let kind = OrderKind::Limit { size: dec(1337, 2) };
    let a = calculate_order_amounts(dec(57, 2), OrderSide::Buy, kind, TickSize::Hundredth);
    let b = calculate_order_amounts(dec(57, 2), OrderSide::Buy, kind, TickSize::Hundredth);
    assert_eq!(a, b);
}

#[test]
fn price_tie_rounds_toward_zero() {
    let kind = OrderKind::Limit { size: dec(100, 0) };
    // 0.655 at two decimals is a tie: it goes down to 0.65
    let r = calculate_order_amounts(dec(655, 3), OrderSide::Buy, kind, TickSize::Hundredth);
    assert_eq!(r, (65_000_000, 100_000_000));
    // above the tie it goes up to 0.66
    let r = calculate_order_amounts(dec(6551, 4), OrderSide::Buy, kind, TickSize::Hundredth);
    assert_eq!(r, (66_000_000, 100_000_000));
}

#[test]
fn size_is_truncated_to_two_decimals() {
    let r = calculate_order_amounts(
        dec(5, 1),
        OrderSide::Sell,
        OrderKind::Limit { size: dec(10_999, 3) },
        TickSize::Tenth,
    );
    // 10.999 shares become 10.99; at 0.5 that is 5.495
    assert_eq!(r, (10_990_000, 5_495_000));
}

#[test]
fn implied_price_matches_rounded_price() {
    let (maker, taker) = calculate_order_amounts(
        dec(57, 2),
        OrderSide::Buy,
        OrderKind::Limit { size: dec(1337, 2) },
        TickSize::Hundredth,
    );
    assert_eq!(maker as u64 * 100, taker as u64 * 57);
}

#[test]
fn market_buy_with_inexact_quotient() {
    // 10 / 0.3 = 33.333..., kept at four decimals
    let r = calculate_order_amounts(
        dec(3, 1),
        OrderSide::Buy,
        OrderKind::MarketBuy { quote_amount: dec(10, 0) },
        TickSize::Hundredth,
    );
    assert_eq!(r, (10_000_000, 33_333_300));
}

#[test]
fn market_buy_absorbs_rounding_noise() {
    // 1 / 0.3 = 3.3333...: rounding up at eight decimals, then down at four
    let r = calculate_order_amounts(
        dec(3, 1),
        OrderSide::Buy,
        OrderKind::MarketBuy { quote_amount: dec(1, 0) },
        TickSize::Hundredth,
    );
    assert_eq!(r, (1_000_000, 3_333_300));
    // 2 / 0.7 = 2.857142857...: up at eight decimals gives 2.85714286, down gives 2.8571
    let r = calculate_order_amounts(
        dec(7, 1),
        OrderSide::Buy,
        OrderKind::MarketBuy { quote_amount: dec(2, 0) },
        TickSize::Hundredth,
    );
    assert_eq!(r, (2_000_000, 2_857_100));
}

#[test]
fn checked_conversion_agrees_in_range() {
    let r = try_calculate_order_amounts(
        dec(65, 2),
        OrderSide::Buy,
        OrderKind::Limit { size: dec(500, 0) },
        TickSize::Hundredth,
    );
    assert_eq!(r, Some((325_000_000, 500_000_000)));
    let r = try_calculate_order_amounts(
        dec(5, 1),
        OrderSide::Buy,
        OrderKind::MarketSell { base_amount: dec(1, 0) },
        TickSize::Tenth,
    );
    assert_eq!(r, Some((0, 0)));
}

#[test]
fn checked_conversion_rejects_out_of_range() {
    // 5000 shares are 5_000_000_000 units: over 32 bits
    let r = try_calculate_order_amounts(
        dec(65, 2),
        OrderSide::Buy,
        OrderKind::Limit { size: dec(5000, 0) },
        TickSize::Hundredth,
    );
    assert_eq!(r, None);
    // the quote leg is over 32 bits though the base leg fits
    let r = try_calculate_order_amounts(
        dec(2, 0),
        OrderSide::Sell,
        OrderKind::Limit { size: dec(4000, 0) },
        TickSize::Hundredth,
    );
    assert_eq!(r, None);
    // a market buy whose price rounds to zero
    let r = try_calculate_order_amounts(
        dec(1, 3),
        OrderSide::Buy,
        OrderKind::MarketBuy { quote_amount: dec(10, 0) },
        TickSize::Hundredth,
    );
    assert_eq!(r, None);
    // a market buy buying too many shares
    let r = try_calculate_order_amounts(
        dec(1, 2),
        OrderSide::Buy,
        OrderKind::MarketBuy { quote_amount: dec(100, 0) },
        TickSize::Hundredth,
    );
    assert_eq!(r, None);
    // a mantissa beyond 96 bits
    let r = try_calculate_order_amounts(
        Decimal { mantissa: 1u128 << 100, scale: 28 },
        OrderSide::Buy,
        OrderKind::Limit { size: dec(1, 0) },
        TickSize::Hundredth,
    );
    assert_eq!(r, None);
}
