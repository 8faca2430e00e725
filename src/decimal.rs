//! Non-negative fixed-point decimals and the rounding rules applied to them.
//!
//! A decimal is an integer mantissa with a count of decimal places. Results of
//! rounding are stated as integer counts of units of `10^-dp`.

use vstd::arithmetic::div_mod::*;
use vstd::arithmetic::mul::*;
use vstd::prelude::*;

verus! {

/// Largest mantissa bound: the mantissa holds 96 bits.
pub const MANTISSA_LIMIT: u128 = 0x1_0000_0000_0000_0000_0000_0000;

/// Largest number of decimal places.
pub const MAX_SCALE: u32 = 28;

/// A non-negative decimal `mantissa * 10^-scale`.
#[derive(Debug, Clone, Copy, PartialEq, Eq, Structural)]
pub struct Decimal {
    pub mantissa: u128,
    pub scale: u32,
}

pub open spec fn pow10(n: nat) -> nat
    decreases n,
{
    if n == 0 {
        1
    } else {
        10 * pow10((n - 1) as nat)
    }
}

pub proof fn lemma_pow10_pos(n: nat)
    ensures
        pow10(n) >= 1,
    decreases n,
{
    if n > 0 {
        lemma_pow10_pos((n - 1) as nat);
    }
}

pub proof fn lemma_pow10_add(a: nat, b: nat)
    ensures
        pow10(a + b) == pow10(a) * pow10(b),
    decreases a,
{
    if a == 0 {
        assert(a + b == b);
        assert(pow10(0) == 1);
    } else {
        let a1 = (a - 1) as nat;
        lemma_pow10_add(a1, b);
        assert((a + b) as nat == (a1 + b + 1) as nat);
        assert(pow10(a + b) == 10 * pow10(a1 + b));
        assert(pow10(a) == 10 * pow10(a1));
        lemma_mul_is_associative(10, pow10(a1) as int, pow10(b) as int);
    }
}

pub proof fn lemma_pow10_mono(a: nat, b: nat)
    requires
        a <= b,
    ensures
        pow10(a) <= pow10(b),
{
    lemma_pow10_add(a, (b - a) as nat);
    lemma_pow10_pos((b - a) as nat);
    lemma_pow10_pos(a);
    lemma_mul_increases(pow10((b - a) as nat) as int, pow10(a) as int);
    assert(pow10(a) * pow10((b - a) as nat) == pow10((b - a) as nat) * pow10(a)) by {
        lemma_mul_is_commutative(pow10(a) as int, pow10((b - a) as nat) as int);
    }
}

proof fn lemma_pow10_30()
    ensures
        pow10(30) == 1_000_000_000_000_000_000_000_000_000_000,
{
    reveal_with_fuel(pow10, 31);
}

/// `10^n` for the exponents used here.
pub fn pow10_u128(n: u32) -> (r: u128)
    requires
        n <= 30,
    ensures
        r == pow10(n as nat),
{
    let mut r: u128 = 1;
    let mut i: u32 = 0;
    while i < n
        invariant
            i <= n <= 30,
            r == pow10(i as nat),
        decreases n - i,
    {
        proof {
            lemma_pow10_mono((i + 1) as nat, 30);
            lemma_pow10_30();
        }
        r = r * 10;
        i = i + 1;
    }
    r
}

impl Decimal {
    /// Within the range of the exchange's decimal format.
    pub open spec fn wf(self) -> bool {
        self.mantissa < MANTISSA_LIMIT && self.scale <= MAX_SCALE
    }

    pub fn new(mantissa: u128, scale: u32) -> (r: Decimal)
        requires
            mantissa < MANTISSA_LIMIT,
            scale <= MAX_SCALE,
        ensures
            r.mantissa == mantissa,
            r.scale == scale,
            r.wf(),
    {
        Decimal { mantissa, scale }
    }
}

/// `units * 10^-scale` truncated to `dp` decimals, in units of `10^-dp`.
pub open spec fn round_down_to(units: nat, scale: nat, dp: nat) -> nat {
    if scale <= dp {
        units * pow10((dp - scale) as nat)
    } else {
        units / pow10((scale - dp) as nat)
    }
}

/// `units * 10^-scale` rounded away from zero to `dp` decimals, in units of `10^-dp`.
pub open spec fn round_up_to(units: nat, scale: nat, dp: nat) -> nat {
    if scale <= dp {
        units * pow10((dp - scale) as nat)
    } else {
        let d = pow10((scale - dp) as nat);
        if units % d == 0 {
            units / d
        } else {
            units / d + 1
        }
    }
}

/// `units * 10^-scale` rounded to nearest at `dp` decimals, a tie going
/// toward zero, in units of `10^-dp`.
pub open spec fn round_half_down_to(units: nat, scale: nat, dp: nat) -> nat {
    if scale <= dp {
        units * pow10((dp - scale) as nat)
    } else {
        let d = pow10((scale - dp) as nat);
        if 2 * (units % d) > d {
            units / d + 1
        } else {
            units / d
        }
    }
}

/// Rescales `units` from `scale` to `dp` decimals, truncating.
pub fn round_down(units: u128, scale: u32, dp: u32) -> (r: u128)
    requires
        scale <= 30,
        dp <= 30,
        round_down_to(units as nat, scale as nat, dp as nat) <= u128::MAX,
    ensures
        r == round_down_to(units as nat, scale as nat, dp as nat),
{
    if scale <= dp {
        let p = pow10_u128(dp - scale);
        units * p
    } else {
        let p = pow10_u128(scale - dp);
        proof { lemma_pow10_pos((scale - dp) as nat); }
        units / p
    }
}

/// Rescales `units` from `scale` to `dp` decimals, rounding away from zero.
pub fn round_up(units: u128, scale: u32, dp: u32) -> (r: u128)
    requires
        scale <= 30,
        dp <= 30,
        round_up_to(units as nat, scale as nat, dp as nat) <= u128::MAX,
    ensures
        r == round_up_to(units as nat, scale as nat, dp as nat),
{
    if scale <= dp {
        let p = pow10_u128(dp - scale);
        units * p
    } else {
        let p = pow10_u128(scale - dp);
        proof { lemma_pow10_pos((scale - dp) as nat); }
        if units % p == 0 {
            units / p
        } else {
            units / p + 1
        }
    }
}

/// Rescales `units` from `scale` to `dp` decimals, rounding to nearest with
/// ties toward zero.
pub fn round_half_down(units: u128, scale: u32, dp: u32) -> (r: u128)
    requires
        scale <= 30,
        dp <= 30,
        round_half_down_to(units as nat, scale as nat, dp as nat) <= u128::MAX,
    ensures
        r == round_half_down_to(units as nat, scale as nat, dp as nat),
{
    if scale <= dp {
        let p = pow10_u128(dp - scale);
        units * p
    } else {
        let p = pow10_u128(scale - dp);
        proof {
            lemma_pow10_pos((scale - dp) as nat);
            lemma_mod_bound(units as int, p as int);
        }
        let rem = units % p;
        if rem > p - rem {
            units / p + 1
        } else {
            units / p
        }
    }
}

} // verus!
