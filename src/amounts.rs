//! Conversion of a priced order into the integer maker and taker amounts that
//! the settlement contract expects.

use crate::decimal::{
    lemma_pow10_add, lemma_pow10_mono, lemma_pow10_pos, pow10, pow10_u128, round_down,
    round_down_to, round_half_down, round_half_down_to, round_up, round_up_to, Decimal,
    MANTISSA_LIMIT, MAX_SCALE,
};
use crate::types::{OrderKind, OrderSide, RoundConfig, TickSize};
use vstd::arithmetic::div_mod::*;
use vstd::arithmetic::mul::*;
use vstd::prelude::*;

verus! {

/// Decimals of the token base unit: one token is `10^6` units.
pub const TOKEN_DECIMALS: u32 = 6;

/// Token base units of `units * 10^-scale`, rounded to nearest with ties toward zero.
pub open spec fn token_units(units: nat, scale: nat) -> nat {
    round_half_down_to(units, scale, TOKEN_DECIMALS as nat)
}

/// The amount fix-up: round away from zero at `amount_dp + 4` decimals, then
/// truncate to `amount_dp` decimals. Result in units of `10^-amount_dp`.
pub open spec fn fix_amount(units: nat, scale: nat, amount_dp: nat) -> nat {
    round_down_to(round_up_to(units, scale, amount_dp + 4), amount_dp + 4, amount_dp)
}

/// `(q * 10^-qs) / (p * 10^-ps)` rounded away from zero to `dp` decimals, in
/// units of `10^-dp` (for `qs <= ps + dp`).
pub open spec fn quotient_up(q: nat, qs: nat, p: nat, ps: nat, dp: nat) -> nat {
    let n = q * pow10((ps + dp - qs) as nat);
    if n % p == 0 {
        n / p
    } else {
        n / p + 1
    }
}

/// The price rounded to the tick's price decimals, in units of `10^-price`.
pub open spec fn rounded_price(price: Decimal, tick: TickSize) -> nat {
    round_half_down_to(price.mantissa as nat, price.scale as nat, tick.config().price as nat)
}

/// A quantity truncated to the tick's size decimals, in units of `10^-size`.
pub open spec fn truncated_size(q: Decimal, tick: TickSize) -> nat {
    round_down_to(q.mantissa as nat, q.scale as nat, tick.config().size as nat)
}

/// `(maker, taker)` token units for base quantity `base` (size decimals) traded at
/// price `p` (price decimals), the quote leg being the product.
pub open spec fn product_amounts(base: nat, p: nat, tick: TickSize, side: OrderSide) -> (nat, nat) {
    let cfg = tick.config();
    let quote = token_units(
        fix_amount(base * p, (cfg.size + cfg.price) as nat, cfg.amount as nat),
        cfg.amount as nat,
    );
    let base_units = token_units(base, cfg.size as nat);
    match side {
        OrderSide::Buy => (quote, base_units),
        OrderSide::Sell => (base_units, quote),
    }
}

/// Base amount, in units of `10^-amount`, bought with `quote` (size decimals) at
/// price `p` (price decimals).
pub open spec fn market_buy_base(quote: nat, p: nat, tick: TickSize) -> nat {
    let cfg = tick.config();
    let ad = cfg.amount as nat;
    round_down_to(
        quotient_up(quote, cfg.size as nat, p, cfg.price as nat, ad + 4),
        ad + 4,
        ad,
    )
}

/// The `(maker, taker)` token units of an order; `(0, 0)` where kind and side
/// do not go together.
pub open spec fn order_amounts(price: Decimal, side: OrderSide, kind: OrderKind, tick: TickSize) -> (nat, nat) {
    let p = rounded_price(price, tick);
    let cfg = tick.config();
    match (kind, side) {
        (OrderKind::Limit { size }, _) => product_amounts(truncated_size(size, tick), p, tick, side),
        (OrderKind::MarketSell { base_amount }, OrderSide::Sell) => product_amounts(
            truncated_size(base_amount, tick),
            p,
            tick,
            side,
        ),
        (OrderKind::MarketBuy { quote_amount }, OrderSide::Buy) => {
            let quote = truncated_size(quote_amount, tick);
            (
                token_units(quote, cfg.size as nat),
                token_units(market_buy_base(quote, p, tick), cfg.amount as nat),
            )
        },
        _ => (0, 0),
    }
}

/// The inputs on which the conversion is defined: decimals in range, a nonzero
/// price to divide by, and both amounts fitting 32 bits.
pub open spec fn amounts_in_range(price: Decimal, side: OrderSide, kind: OrderKind, tick: TickSize) -> bool {
    &&& price.wf()
    &&& kind.quantity().wf()
    &&& (kind is MarketBuy && side == OrderSide::Buy) ==> rounded_price(price, tick) > 0
    &&& order_amounts(price, side, kind, tick).0 <= u32::MAX
    &&& order_amounts(price, side, kind, tick).1 <= u32::MAX
}

proof fn lemma_fix_exact(x: nat, s: nat, ad: nat)
    requires
        s <= ad,
    ensures
        fix_amount(x, s, ad) == x * pow10((ad - s) as nat),
{
    let a = pow10((ad - s) as nat);
    let b = pow10(4);
    lemma_pow10_add((ad - s) as nat, 4);
    assert((ad + 4 - s) as nat == (ad - s) as nat + 4);
    assert(round_up_to(x, s, ad + 4) == x * (a * b));
    assert(x * (a * b) == (x * a) * b) by (nonlinear_arith);
    assert(b > 0) by {
        lemma_pow10_pos(4);
    }
    lemma_div_multiples_vanish((x * a) as int, b as int);
    assert((x * a) * b == b * (x * a)) by (nonlinear_arith);
    assert((ad + 4 - ad) as nat == 4);
}

proof fn lemma_le_mul_pos(x: nat, y: nat)
    requires
        y >= 1,
    ensures
        x <= x * y,
{
    assert(x <= x * y) by (nonlinear_arith)
        requires
            y >= 1,
    ;
}

proof fn lemma_rescale_bound(m: nat, s: nat, dp: nat)
    ensures
        round_down_to(m, s, dp) <= m * pow10(dp) + 1,
        round_up_to(m, s, dp) <= m * pow10(dp) + 1,
        round_half_down_to(m, s, dp) <= m * pow10(dp) + 1,
{
    lemma_pow10_pos(dp);
    lemma_le_mul_pos(m, pow10(dp));
    if s <= dp {
        lemma_pow10_mono((dp - s) as nat, dp);
        lemma_mul_inequality(pow10((dp - s) as nat) as int, pow10(dp) as int, m as int);
        lemma_mul_is_commutative(pow10((dp - s) as nat) as int, m as int);
        lemma_mul_is_commutative(pow10(dp) as int, m as int);
    } else {
        let d = pow10((s - dp) as nat);
        lemma_pow10_pos((s - dp) as nat);
        lemma_div_is_ordered_by_denominator(m as int, 1, d as int);
    }
}

/// The amount fix-up on `units * 10^-scale`, in units of `10^-amount`.
fn fix_amount_rounding(units: u128, scale: u32, round_config: &RoundConfig) -> (r: u128)
    requires
        scale <= 20,
        round_config.amount <= 20,
        round_up_to(units as nat, scale as nat, round_config.amount as nat + 4) <= u128::MAX,
    ensures
        r == fix_amount(units as nat, scale as nat, round_config.amount as nat),
{
    let up = round_up(units, scale, round_config.amount + 4);
    proof {
        lemma_pow10_pos(4);
        lemma_div_is_ordered_by_denominator(up as int, 1, pow10(4) as int);
    }
    round_down(up, round_config.amount + 4, round_config.amount)
}

/// Token base units of `units * 10^-scale`.
fn decimal_to_token_u32(units: u128, scale: u32) -> (r: u32)
    requires
        scale <= 30,
        token_units(units as nat, scale as nat) <= u32::MAX,
    ensures
        r == token_units(units as nat, scale as nat),
{
    round_half_down(units, scale, TOKEN_DECIMALS) as u32
}

/// Amounts of an order whose quote leg is `base * price`.
fn product_order_amounts(base: u128, p: u128, tick: TickSize, side: OrderSide) -> (r: (u32, u32))
    requires
        base < MANTISSA_LIMIT * 100 + 1,
        product_amounts(base as nat, p as nat, tick, side).0 <= u32::MAX,
        product_amounts(base as nat, p as nat, tick, side).1 <= u32::MAX,
    ensures
        r.0 == product_amounts(base as nat, p as nat, tick, side).0,
        r.1 == product_amounts(base as nat, p as nat, tick, side).1,
{
    let cfg = tick.round_config();
    let s = cfg.size + cfg.price;
    let ghost x = base as nat * p as nat;
    proof {
        lemma_fix_exact(x, s as nat, cfg.amount as nat);
        let a = pow10((cfg.amount - s) as nat);
        let t = pow10((6 - cfg.amount) as nat);
        lemma_pow10_pos((cfg.amount - s) as nat);
        lemma_pow10_pos((6 - cfg.amount) as nat);
        lemma_le_mul_pos(x, a);
        lemma_le_mul_pos(x * a, t);
        assert(x <= u32::MAX);
        lemma_pow10_mono((cfg.amount + 4 - s) as nat, 10);
        assert(pow10(10) == 10_000_000_000) by {
            reveal_with_fuel(pow10, 11);
        }
        lemma_mul_inequality(x as int, u32::MAX as int, pow10((cfg.amount + 4 - s) as nat) as int);
        lemma_mul_inequality(
            pow10((cfg.amount + 4 - s) as nat) as int,
            10_000_000_000,
            u32::MAX as int,
        );
        lemma_mul_is_commutative(x as int, pow10((cfg.amount + 4 - s) as nat) as int);
    }
    let quote = fix_amount_rounding(base * p, s, &cfg);
    let quote_units = decimal_to_token_u32(quote, cfg.amount);
    let base_units = decimal_to_token_u32(base, cfg.size);
    match side {
        OrderSide::Buy => (quote_units, base_units),
        OrderSide::Sell => (base_units, quote_units),
    }
}

/// Calculates the maker and taker token amounts of an order.
///
/// The price is rounded to the tick's price decimals (ties toward zero) and the
/// order's quantity truncated to its size decimals. For a Buy the maker leg is
/// the quote currency and the taker leg the outcome shares; for a Sell the
/// other way round. A kind that does not go with the side gives `(0, 0)`.
pub fn calculate_order_amounts(price: Decimal, side: OrderSide, kind: OrderKind, tick_size: TickSize) -> (r: (u32, u32))
    requires
        amounts_in_range(price, side, kind, tick_size),
    ensures
        r.0 == order_amounts(price, side, kind, tick_size).0,
        r.1 == order_amounts(price, side, kind, tick_size).1,
{
    let round_cfg = tick_size.round_config();
    proof {
        lemma_rescale_bound(price.mantissa as nat, price.scale as nat, round_cfg.price as nat);
        lemma_pow10_mono(round_cfg.price as nat, 4);
        assert(pow10(4) == 10000) by {
            reveal_with_fuel(pow10, 5);
        }
        assert(pow10(2) == 100) by {
            reveal_with_fuel(pow10, 3);
        }
        lemma_mul_inequality(price.mantissa as int, MANTISSA_LIMIT as int, pow10(round_cfg.price as nat) as int);
        lemma_mul_inequality(pow10(round_cfg.price as nat) as int, 10000, MANTISSA_LIMIT as int);
        lemma_mul_is_commutative(pow10(round_cfg.price as nat) as int, MANTISSA_LIMIT as int);
        let q = kind.quantity();
        lemma_rescale_bound(q.mantissa as nat, q.scale as nat, 2);
        lemma_mul_inequality(q.mantissa as int, MANTISSA_LIMIT as int, 100);
    }
    let raw_price = round_half_down(price.mantissa, price.scale, round_cfg.price);
    match (kind, side) {
        (OrderKind::Limit { size }, _) => {
            let base = round_down(size.mantissa, size.scale, round_cfg.size);
            product_order_amounts(base, raw_price, tick_size, side)
        },
        (OrderKind::MarketSell { base_amount }, OrderSide::Sell) => {
            let base = round_down(base_amount.mantissa, base_amount.scale, round_cfg.size);
            product_order_amounts(base, raw_price, tick_size, side)
        },
        (OrderKind::MarketBuy { quote_amount }, OrderSide::Buy) => {
            let quote = round_down(quote_amount.mantissa, quote_amount.scale, round_cfg.size);
            let ad = round_cfg.amount;
            let ghost base = market_buy_base(quote as nat, raw_price as nat, tick_size);
            proof {
                // the quote leg fits 32 bits, hence so does the quote
                assert(token_units(quote as nat, 2) == quote as nat * pow10(4));
                lemma_pow10_pos(4);
                lemma_le_mul_pos(quote as nat, pow10(4));
                lemma_pow10_mono((round_cfg.price + ad + 2) as nat, 12);
                assert(pow10(12) == 1_000_000_000_000) by {
                    reveal_with_fuel(pow10, 13);
                }
                lemma_mul_inequality(quote as int, u32::MAX as int, pow10((round_cfg.price + ad + 2) as nat) as int);
                lemma_mul_inequality(
                    pow10((round_cfg.price + ad + 2) as nat) as int,
                    1_000_000_000_000,
                    u32::MAX as int,
                );
                lemma_mul_is_commutative(quote as int, pow10((round_cfg.price + ad + 2) as nat) as int);
            }
            let n = quote * pow10_u128(round_cfg.price + ad + 2);
            proof {
                assert((round_cfg.price + ad + 4 - 2) as nat == (round_cfg.price + ad + 2) as nat);
                lemma_div_is_ordered_by_denominator(n as int, 1, raw_price as int);
            }
            let up = if n % raw_price == 0 {
                n / raw_price
            } else {
                n / raw_price + 1
            };
            proof {
                lemma_pow10_pos(4);
                lemma_div_is_ordered_by_denominator(up as int, 1, pow10(4) as int);
            }
            let base_amt = round_down(up, ad + 4, ad);
            let maker = decimal_to_token_u32(quote, round_cfg.size);
            let taker = decimal_to_token_u32(base_amt, ad);
            (maker, taker)
        },
        _ => (0, 0),
    }
}

/// Decides whether the amounts of an order with in-range decimals fit 32 bits
/// (and, for a market buy, whether the rounded price is nonzero).
fn amounts_fit(price: Decimal, side: OrderSide, kind: OrderKind, tick_size: TickSize) -> (r: bool)
    requires
        price.wf(),
        kind.quantity().wf(),
    ensures
        r == amounts_in_range(price, side, kind, tick_size),
{
    let cfg = tick_size.round_config();
    let q = match kind {
        OrderKind::Limit { size } => size,
        OrderKind::MarketBuy { quote_amount } => quote_amount,
        OrderKind::MarketSell { base_amount } => base_amount,
    };
    proof {
        lemma_rescale_bound(price.mantissa as nat, price.scale as nat, cfg.price as nat);
        lemma_pow10_mono(cfg.price as nat, 4);
        assert(pow10(4) == 10000) by {
            reveal_with_fuel(pow10, 5);
        }
        assert(pow10(2) == 100) by {
            reveal_with_fuel(pow10, 3);
        }
        lemma_mul_inequality(price.mantissa as int, MANTISSA_LIMIT as int, pow10(cfg.price as nat) as int);
        lemma_mul_inequality(pow10(cfg.price as nat) as int, 10000, MANTISSA_LIMIT as int);
        lemma_mul_is_commutative(pow10(cfg.price as nat) as int, MANTISSA_LIMIT as int);
        lemma_rescale_bound(q.mantissa as nat, q.scale as nat, 2);
        lemma_mul_inequality(q.mantissa as int, MANTISSA_LIMIT as int, 100);
    }
    let p = round_half_down(price.mantissa, price.scale, cfg.price);
    let b = round_down(q.mantissa, q.scale, cfg.size);
    let product = match (kind, side) {
        (OrderKind::Limit { .. }, _) => true,
        (OrderKind::MarketSell { .. }, OrderSide::Sell) => true,
        _ => false,
    };
    let market_buy = match (kind, side) {
        (OrderKind::MarketBuy { .. }, OrderSide::Buy) => true,
        _ => false,
    };
    let max: u128 = 0xffff_ffff;
    proof {
        lemma_pow10_pos(4);
        assert(token_units(b as nat, 2) == b as nat * pow10(4));
    }
    if !product && !market_buy {
        return true;
    }
    if b > max {
        proof {
            lemma_le_mul_pos(b as nat, pow10(4));
        }
        return false;
    }
    let base_units = b * 10000;
    if product {
        let s = cfg.size + cfg.price;
        proof {
            lemma_fix_exact(b as nat * p as nat, s as nat, cfg.amount as nat);
            assert(cfg.amount == s);
            assert(pow10(0) == 1);
            lemma_pow10_pos((6 - cfg.amount) as nat);
            lemma_le_mul_pos(b as nat * p as nat, pow10((6 - cfg.amount) as nat));
        }
        if b > 0 && p > max {
            proof {
                lemma_le_mul_pos(p as nat, b as nat);
                lemma_mul_is_commutative(p as int, b as int);
            }
            return false;
        }
        proof {
            assert(b as nat * p as nat <= max * max) by (nonlinear_arith)
                requires
                    b <= max,
                    b == 0 || p <= max,
            ;
            lemma_pow10_mono((6 - cfg.amount) as nat, 3);
            assert(pow10(3) == 1000) by {
                reveal_with_fuel(pow10, 4);
            }
            lemma_mul_inequality((b as nat * p as nat) as int, (max * max) as int, pow10((6 - cfg.amount) as nat) as int);
            lemma_mul_inequality(pow10((6 - cfg.amount) as nat) as int, 1000, (max * max) as int);
            lemma_mul_is_commutative(pow10((6 - cfg.amount) as nat) as int, (max * max) as int);
        }
        let quote_units = (b * p) * pow10_u128(6 - cfg.amount);
        base_units <= max && quote_units <= max
    } else {
        if p == 0 {
            return false;
        }
        let ad = cfg.amount;
        proof {
            lemma_pow10_mono((cfg.price + ad + 2) as nat, 12);
            assert(pow10(12) == 1_000_000_000_000) by {
                reveal_with_fuel(pow10, 13);
            }
            lemma_mul_inequality(b as int, max as int, pow10((cfg.price + ad + 2) as nat) as int);
            lemma_mul_inequality(pow10((cfg.price + ad + 2) as nat) as int, 1_000_000_000_000, max as int);
            lemma_mul_is_commutative(b as int, pow10((cfg.price + ad + 2) as nat) as int);
        }
        let n = b * pow10_u128(cfg.price + ad + 2);
        proof {
            assert((cfg.price + ad + 4 - 2) as nat == (cfg.price + ad + 2) as nat);
            lemma_div_is_ordered_by_denominator(n as int, 1, p as int);
        }
        let up = if n % p == 0 {
            n / p
        } else {
            n / p + 1
        };
        proof {
            lemma_div_is_ordered_by_denominator(up as int, 1, pow10(4) as int);
        }
        let t = round_down(up, ad + 4, ad);
        proof {
            assert(t as nat == market_buy_base(b as nat, p as nat, tick_size));
            assert(t as nat <= up as nat);
            lemma_pow10_mono((6 - ad) as nat, 3);
            assert(pow10(3) == 1000) by {
                reveal_with_fuel(pow10, 4);
            }
            lemma_mul_inequality(t as int, up as int, pow10((6 - ad) as nat) as int);
            lemma_mul_inequality(pow10((6 - ad) as nat) as int, 1000, up as int);
            lemma_mul_is_commutative(pow10((6 - ad) as nat) as int, up as int);
            lemma_mul_is_commutative(pow10((6 - ad) as nat) as int, t as int);
            assert(token_units(t as nat, ad as nat) == t as nat * pow10((6 - ad) as nat));
        }
        let taker_units = t * pow10_u128(6 - ad);
        base_units <= max && taker_units <= max
    }
}

/// The amounts of an order, or `None` where a decimal is out of range, a
/// market buy's rounded price is zero, or an amount does not fit 32 bits.
pub fn try_calculate_order_amounts(price: Decimal, side: OrderSide, kind: OrderKind, tick_size: TickSize) -> (r: Option<(u32, u32)>)
    ensures
        r is Some <==> amounts_in_range(price, side, kind, tick_size),
        r matches Some(a) ==> a.0 == order_amounts(price, side, kind, tick_size).0 && a.1
            == order_amounts(price, side, kind, tick_size).1,
{
    let q = match kind {
        OrderKind::Limit { size } => size,
        OrderKind::MarketBuy { quote_amount } => quote_amount,
        OrderKind::MarketSell { base_amount } => base_amount,
    };
    if price.mantissa >= MANTISSA_LIMIT || price.scale > MAX_SCALE || q.mantissa >= MANTISSA_LIMIT
        || q.scale > MAX_SCALE {
        return None;
    }
    if amounts_fit(price, side, kind, tick_size) {
        Some(calculate_order_amounts(price, side, kind, tick_size))
    } else {
        None
    }
}

/// Converting the same inputs twice gives the same amounts: the result is a
/// function of price, side, kind and tick size alone.
pub proof fn lemma_amounts_deterministic(
    price: Decimal,
    side: OrderSide,
    kind: OrderKind,
    tick: TickSize,
    r1: (u32, u32),
    r2: (u32, u32),
)
    requires
        r1.0 == order_amounts(price, side, kind, tick).0,
        r1.1 == order_amounts(price, side, kind, tick).1,
        r2.0 == order_amounts(price, side, kind, tick).0,
        r2.1 == order_amounts(price, side, kind, tick).1,
    ensures
        r1 == r2,
{
}

/// The amounts reproduce the rounded price.
///
/// Where the quote leg is the product of size and price (limit orders, market
/// sells), the price implied by the two amounts is exactly the rounded price:
/// `quote · 10^price_decimals == base · rounded_price`. For a market buy, the
/// base amount `b` (in units of `10^-amount_decimals`) is within one unit of
/// `quote / price`: with `m` that quotient scaled to amount decimals,
/// `b · p < m + p / 10^4` and `m < (b + 1) · p`.
pub proof fn lemma_amounts_imply_price(price: Decimal, side: OrderSide, kind: OrderKind, tick: TickSize)
    requires
        amounts_in_range(price, side, kind, tick),
    ensures
        (kind is Limit || (kind is MarketSell && side == OrderSide::Sell)) ==> {
            let r = order_amounts(price, side, kind, tick);
            let quote = if side == OrderSide::Buy {
                r.0
            } else {
                r.1
            };
            let base = if side == OrderSide::Buy {
                r.1
            } else {
                r.0
            };
            quote * pow10(tick.config().price as nat) == base * rounded_price(price, tick)
        },
        (kind is MarketBuy && side == OrderSide::Buy) ==> {
            let cfg = tick.config();
            let p = rounded_price(price, tick);
            let q = truncated_size(kind.quantity(), tick);
            let m = q * pow10((cfg.price + cfg.amount - 2) as nat);
            let b = market_buy_base(q, p, tick);
            &&& b * p * pow10(4) < m * pow10(4) + p
            &&& m < (b + 1) * p
        },
{
    let cfg = tick.config();
    let pd = cfg.price as nat;
    let ad = cfg.amount as nat;
    let p = rounded_price(price, tick);
    if kind is Limit || (kind is MarketSell && side == OrderSide::Sell) {
        let b = truncated_size(kind.quantity(), tick);
        lemma_fix_exact(b * p, 2 + pd, ad);
        assert(ad == 2 + pd);
        assert(pow10(0) == 1);
        assert((b * p) * 1 == b * p);
        let quote = token_units(fix_amount(b * p, 2 + pd, ad), ad);
        assert(quote == b * p * pow10((6 - ad) as nat));
        assert(token_units(b, 2) == b * pow10(4));
        lemma_pow10_add((6 - ad) as nat, pd);
        assert((6 - ad) as nat + pd == 4);
        assert(b * p * pow10((6 - ad) as nat) * pow10(pd) == b * pow10(4) * p) by (nonlinear_arith)
            requires
                pow10(4) == pow10((6 - ad) as nat) * pow10(pd),
        ;
    }
    if kind is MarketBuy && side == OrderSide::Buy {
        let q = truncated_size(kind.quantity(), tick);
        let e = (pd + ad - 2) as nat;
        let m = q * pow10(e);
        let n = q * pow10((pd + ad + 4 - 2) as nat);
        lemma_pow10_add(e, 4);
        assert((pd + ad + 4 - 2) as nat == e + 4);
        assert(n == m * pow10(4)) by (nonlinear_arith)
            requires
                n == q * pow10(e + 4),
                pow10(e + 4) == pow10(e) * pow10(4),
                m == q * pow10(e),
        ;
        let u = quotient_up(q, 2, p, pd, ad + 4);
        let t = pow10(4);
        lemma_pow10_pos(4);
        lemma_fundamental_div_mod(n as int, p as int);
        lemma_mod_bound(n as int, p as int);
        assert(u * p >= n && u * p < n + p) by (nonlinear_arith)
            requires
                p > 0,
                n == p * (n / p) + n % p,
                0 <= n % p < p,
                n % p == 0 ==> u == n / p,
                n % p != 0 ==> u == n / p + 1,
        ;
        let b = market_buy_base(q, p, tick);
        assert((ad + 4 - ad) as nat == 4);
        assert(b == u / t);
        lemma_fundamental_div_mod(u as int, t as int);
        lemma_mod_bound(u as int, t as int);
        assert(b * p * t < m * t + p) by (nonlinear_arith)
            requires
                t > 0,
                u == t * b + u % t,
                0 <= u % t,
                u * p < n + p,
                n == m * t,
                p > 0,
        ;
        assert(m < (b + 1) * p) by (nonlinear_arith)
            requires
                t > 0,
                u == t * b + u % t,
                u % t < t,
                u * p >= n,
                n == m * t,
                p > 0,
        ;
    }
}

} // verus!
