//! Fixed-point arithmetic.
//!
//! Every quantity the indicators consume or produce is an `i64` counting
//! millionths of a unit: the price `10.57` is the raw value `10_570_000`.
//! Sums are carried in `i128`, quotients are rounded to the nearest raw
//! unit (a tie goes up), and a result that leaves the `i64` range
//! saturates at the nearest bound.

use vstd::arithmetic::div_mod::lemma_fundamental_div_mod_converse;
use vstd::prelude::*;

verus! {

/// Raw units per whole unit.
pub const SCALE: i64 = 1_000_000;

/// The raw value of one hundred: the top of every percentage scale.
pub const HUNDRED: i64 = 100_000_000;

/// The raw value of fifty: the neutral reading of an oscillator.
pub const FIFTY: i64 = 50_000_000;

/// The quotient `a / b` rounded to the nearest integer, a tie going up:
/// the floor of `a / b + 1/2`.
pub open spec fn round_div(a: int, b: int) -> int
    recommends
        b > 0,
{
    (2 * a + b) / (2 * b)
}

/// The nearest value to `x` that an `i64` can hold.
pub open spec fn clamp(x: int) -> int {
    if x < i64::MIN {
        i64::MIN as int
    } else if x > i64::MAX {
        i64::MAX as int
    } else {
        x
    }
}

/// The absolute value of `x`.
pub open spec fn abs(x: int) -> int {
    if x < 0 {
        -x
    } else {
        x
    }
}

/// The rounded quotient `num * factor / den` for a denominator of either
/// sign.
pub open spec fn ratio(num: int, den: int, factor: int) -> int
    recommends
        den != 0,
{
    if den > 0 {
        round_div(num * factor, den)
    } else {
        round_div(-(num * factor), -den)
    }
}

/// The product of two fixed-point values, as a fixed-point value.
pub open spec fn mul_fixed_spec(a: int, b: int) -> int {
    clamp(round_div(a * b, SCALE as int))
}

/// How far `value` lies above `base`, as a percentage of `base`; zero
/// where the base is zero.
pub open spec fn percent_change_spec(value: int, base: int) -> int {
    if base == 0 {
        0
    } else {
        clamp(ratio(value - base, base, HUNDRED as int))
    }
}

/// `round_div(a, b)` is the one integer `q` with `-b <= 2 * (a - b * q) < b`.
pub proof fn lemma_round_div_unique(a: int, b: int, q: int)
    requires
        b > 0,
        2 * b * q <= 2 * a + b < 2 * b * q + 2 * b,
    ensures
        round_div(a, b) == q,
{
    let r = 2 * a + b - 2 * b * q;
    assert(2 * a + b == q * (2 * b) + r) by (nonlinear_arith)
        requires
            r == 2 * a + b - 2 * b * q,
    ;
    lemma_fundamental_div_mod_converse(2 * a + b, 2 * b, q, r);
}

/// The rounded quotient is within half a divisor of the exact one.
pub proof fn lemma_round_div_nearest(a: int, b: int)
    requires
        b > 0,
    ensures
        -b <= 2 * (a - b * round_div(a, b)) < b,
{
    let x = 2 * a + b;
    let d = 2 * b;
    vstd::arithmetic::div_mod::lemma_fundamental_div_mod(x, d);
    vstd::arithmetic::div_mod::lemma_mod_bound(x, d);
    assert(2 * (b * (x / d)) == d * (x / d)) by (nonlinear_arith)
        requires
            d == 2 * b,
    ;
}

/// A quotient of a multiple of the divisor is exact.
pub proof fn lemma_round_div_exact(k: int, b: int)
    requires
        b > 0,
    ensures
        round_div(k * b, b) == k,
{
    assert(2 * b * k == 2 * (k * b)) by (nonlinear_arith);
    lemma_round_div_unique(k * b, b, k);
}

/// Rounding keeps a quotient between integer bounds of the exact one.
pub proof fn lemma_round_div_bounds(a: int, b: int, lo: int, hi: int)
    requires
        b > 0,
        lo * b <= a <= hi * b,
    ensures
        lo <= round_div(a, b) <= hi,
{
    let q = round_div(a, b);
    lemma_round_div_nearest(a, b);
    if q < lo {
        assert(b * q <= b * (lo - 1)) by (nonlinear_arith)
            requires
                b > 0,
                q <= lo - 1,
        ;
        assert(b * (lo - 1) == lo * b - b) by (nonlinear_arith);
    }
    if q > hi {
        assert(b * q >= b * (hi + 1)) by (nonlinear_arith)
            requires
                b > 0,
                q >= hi + 1,
        ;
        assert(b * (hi + 1) == hi * b + b) by (nonlinear_arith);
    }
}

/// The quotient `a / b` rounded to the nearest integer, a tie going up.
pub fn div_round(a: i128, b: i128) -> (q: i128)
    requires
        b > 0,
    ensures
        q == round_div(a as int, b as int),
{
    let qt: i128 = a / b;
    let rt: i128 = a % b;
    proof {
        if a >= 0 {
            vstd::arithmetic::div_mod::lemma_fundamental_div_mod(a as int, b as int);
            vstd::arithmetic::div_mod::lemma_mod_bound(a as int, b as int);
            assert(b * (a as int / b as int) == qt * b) by (nonlinear_arith)
                requires
                    qt == a as int / b as int,
            ;
        } else {
            let m = -(a as int);
            vstd::arithmetic::div_mod::lemma_fundamental_div_mod(m, b as int);
            vstd::arithmetic::div_mod::lemma_mod_bound(m, b as int);
            assert(b * (m / b as int) == -(qt * b)) by (nonlinear_arith)
                requires
                    qt == -(m / b as int),
            ;
        }
        assert(a == qt * b + rt);
        assert(-b < rt < b);
    }
    let (qf, rf): (i128, i128) = if rt < 0 {
        proof {
            assert(qt > i128::MIN) by (nonlinear_arith)
                requires
                    a == qt * b + rt,
                    rt < 0,
                    b > 0,
                    a >= i128::MIN,
                    -b < rt,
            ;
            assert((qt - 1) * b + (rt + b) == qt * b + rt) by (nonlinear_arith);
        }
        (qt - 1, rt + b)
    } else {
        (qt, rt)
    };
    assert(a == qf * b + rf && 0 <= rf < b);
    if rf >= b - rf {
        proof {
            assert(qf < i128::MAX) by (nonlinear_arith)
                requires
                    a == qf * b + rf,
                    2 * rf >= b,
                    b > 0,
                    rf < b,
                    a <= i128::MAX,
            ;
            assert(2 * b * (qf + 1) == 2 * (qf * b) + 2 * b) by (nonlinear_arith);
            lemma_round_div_unique(a as int, b as int, qf + 1);
        }
        qf + 1
    } else {
        proof {
            assert(2 * b * qf == 2 * (qf * b)) by (nonlinear_arith);
            lemma_round_div_unique(a as int, b as int, qf as int);
        }
        qf
    }
}

/// The quotient `a / b` of two unsigned values rounded to the nearest
/// integer, a tie going up.
pub fn div_round_unsigned(a: u128, b: u128) -> (q: u128)
    requires
        b > 0,
    ensures
        q == round_div(a as int, b as int),
{
    let q0: u128 = a / b;
    let r: u128 = a % b;
    proof {
        vstd::arithmetic::div_mod::lemma_fundamental_div_mod(a as int, b as int);
        vstd::arithmetic::div_mod::lemma_mod_bound(a as int, b as int);
        assert(b * (a as int / b as int) == q0 * b) by (nonlinear_arith)
            requires
                q0 == a as int / b as int,
        ;
        assert(a == q0 * b + r);
    }
    if r >= b - r {
        proof {
            assert(q0 < u128::MAX) by (nonlinear_arith)
                requires
                    a == q0 * b + r,
                    2 * r >= b,
                    b > 0,
                    r < b,
                    a <= u128::MAX,
                    q0 >= 0,
            ;
            assert(2 * b * (q0 + 1) == 2 * (q0 * b) + 2 * b) by (nonlinear_arith);
            lemma_round_div_unique(a as int, b as int, q0 + 1);
        }
        q0 + 1
    } else {
        proof {
            assert(2 * b * q0 == 2 * (q0 * b)) by (nonlinear_arith);
            lemma_round_div_unique(a as int, b as int, q0 as int);
        }
        q0
    }
}

/// The nearest `i64` to the unsigned value `x`.
pub fn saturate_unsigned(x: u128) -> (r: i64)
    ensures
        r == clamp(x as int),
{
    if x > i64::MAX as u128 {
        i64::MAX
    } else {
        x as i64
    }
}

/// The distance between `a` and `b`.
pub fn distance(a: i64, b: i64) -> (d: u128)
    ensures
        d == abs(a - b),
        d <= u64::MAX,
{
    let gap: i128 = a as i128 - b as i128;
    if gap < 0 {
        (-gap) as u128
    } else {
        gap as u128
    }
}

/// The nearest `i64` to `x`.
pub fn saturate(x: i128) -> (r: i64)
    ensures
        r == clamp(x as int),
{
    if x < i64::MIN as i128 {
        i64::MIN
    } else if x > i64::MAX as i128 {
        i64::MAX
    } else {
        x as i64
    }
}

/// The product of two fixed-point values, rounded and saturated.
pub fn mul_fixed(a: i64, b: i64) -> (r: i64)
    ensures
        r == mul_fixed_spec(a as int, b as int),
{
    proof {
        assert(-0x4000_0000_0000_0000_0000_0000_0000_0000 <= a * b
            <= 0x4000_0000_0000_0000_0000_0000_0000_0000) by (nonlinear_arith)
            requires
                -0x8000_0000_0000_0000 <= a <= 0x8000_0000_0000_0000,
                -0x8000_0000_0000_0000 <= b <= 0x8000_0000_0000_0000,
        ;
    }
    let product: i128 = (a as i128) * (b as i128);
    saturate(div_round(product, SCALE as i128))
}

/// The quotient `num * factor / den`, rounded and saturated; the
/// denominator may have either sign.
pub fn scaled_ratio(num: i128, den: i128, factor: i128) -> (r: i64)
    requires
        den != 0,
        den > i128::MIN,
        i128::MIN < num * factor <= i128::MAX,
    ensures
        r == clamp(ratio(num as int, den as int, factor as int)),
{
    let scaled: i128 = num * factor;
    if den > 0 {
        saturate(div_round(scaled, den))
    } else {
        saturate(div_round(-scaled, -den))
    }
}

/// How far `value` lies above `base`, as a percentage of `base`; zero
/// where the base is zero.
pub fn percent_change(value: i64, base: i64) -> (r: i64)
    ensures
        r == percent_change_spec(value as int, base as int),
{
    if base == 0 {
        0
    } else {
        let rise: i128 = value as i128 - base as i128;
        scaled_ratio(rise, base as i128, HUNDRED as i128)
    }
}

} // verus!
