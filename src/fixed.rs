//! Saturating fixed-point arithmetic with 24 fractional bits.
//!
//! Every audio value of the engine (samples, gains, times in milliseconds,
//! frequencies in hertz) is an `i64` holding `value * ONE`, kept inside
//! `[-FX_MAX, FX_MAX]`. Products and quotients are rounded to the nearest
//! representable value and saturate at the bounds, so the arithmetic is total.
use vstd::prelude::*;

verus! {

/// The fixed-point representation of 1.0.
pub const ONE: i64 = 16777216;

/// Largest magnitude of a fixed-point value (2^47, that is 8388608.0).
pub const FX_MAX: i64 = 140737488355328;

/// 0.5 in fixed point.
pub const HALF: i64 = 8388608;

/// Highest sample rate, in hertz, the engine accepts.
pub const MAX_SAMPLE_RATE: u32 = 768000;

/// pi, pi / 2, 2 pi, pi squared and log2(e) in fixed point.
pub const PI: i64 = 52707179;

pub const HALF_PI: i64 = 26353589;

pub const TWO_PI: i64 = 105414357;

pub const PI_SQUARED: i64 = 165584485;

pub const LOG2_E: i64 = 24204406;

/// log2(10) / 20: turns decibels into a power of two.
pub const LOG2_10_OVER_20: i64 = 2786635;

/// Bound on the operands of the rounding division helper.
pub const WIDE_MAX: i128 = 0x10_0000_0000_0000_0000_0000_0000;

/// Bound on the divisor of the rounding division helper.
pub const DIVISOR_MAX: i128 = 0x1000_0000_0000_0000;

pub open spec fn is_fx(x: int) -> bool {
    -FX_MAX <= x <= FX_MAX
}

/// `x` clamped into the fixed-point range.
pub open spec fn sat(x: int) -> int {
    if x > FX_MAX {
        FX_MAX as int
    } else if x < -FX_MAX {
        -FX_MAX as int
    } else {
        x
    }
}

/// `a / b` for `b > 0`, rounded to the nearest integer, halves away from zero.
pub open spec fn div_round(a: int, b: int) -> int {
    if a >= 0 {
        (2 * a + b) / (2 * b)
    } else {
        -((2 * -a + b) / (2 * b))
    }
}

pub open spec fn add_spec(a: int, b: int) -> int {
    sat(a + b)
}

pub open spec fn sub_spec(a: int, b: int) -> int {
    sat(a - b)
}

pub open spec fn mul_spec(a: int, b: int) -> int {
    sat(div_round(a * b, ONE as int))
}

pub open spec fn div_spec(a: int, b: int) -> int {
    if b > 0 {
        sat(div_round(a * ONE, b))
    } else {
        sat(div_round(-a * ONE, -b))
    }
}

pub open spec fn abs(x: int) -> int {
    if x < 0 {
        -x
    } else {
        x
    }
}

/// Scaling by a factor in `[-1, 1]` never makes a value larger, and a
/// non-negative factor keeps the sign of a non-negative value.
pub proof fn lemma_mul_shrinks(a: int, b: int)
    requires
        -ONE <= a <= ONE,
        is_fx(b),
    ensures
        abs(mul_spec(a, b)) <= abs(b),
        a >= 0 && b >= 0 ==> mul_spec(a, b) >= 0,
{
    let o = ONE as int;
    let p = a * b;
    let m = if b < 0 { -b } else { b };
    assert(-(o * m) <= p <= o * m) by (nonlinear_arith)
        requires
            -o <= a <= o,
            p == a * b,
            m == if b < 0 { -b } else { b },
    ;
    if p >= 0 {
        assert((2 * p + o) / (2 * o) <= m) by (nonlinear_arith)
            requires
                0 <= p <= o * m,
                o == 16777216,
        ;
    } else {
        assert((2 * -p + o) / (2 * o) <= m) by (nonlinear_arith)
            requires
                0 < -p <= o * m,
                o == 16777216,
        ;
    }
    if a >= 0 && b >= 0 {
        assert(p >= 0) by (nonlinear_arith)
            requires
                a >= 0,
                b >= 0,
                p == a * b,
        ;
    }
}

proof fn lemma_product_bound(a: int, b: int)
    requires
        is_fx(a),
        is_fx(b),
    ensures
        -0x4000_0000_0000_0000_0000_0000 <= a * b <= 0x4000_0000_0000_0000_0000_0000,
{
    assert(-0x4000_0000_0000_0000_0000_0000 <= a * b <= 0x4000_0000_0000_0000_0000_0000)
        by (nonlinear_arith)
        requires
            -140737488355328 <= a <= 140737488355328,
            -140737488355328 <= b <= 140737488355328,
    ;
}

/// Multiplying by one, or by zero, is exact.
pub proof fn lemma_mul_unit(a: int)
    requires
        is_fx(a),
    ensures
        mul_spec(a, ONE as int) == a,
        mul_spec(ONE as int, a) == a,
        mul_spec(a, 0) == 0,
        mul_spec(0, a) == 0,
{
    let o = ONE as int;
    if a >= 0 {
        assert((2 * (a * o) + o) / (2 * o) == a) by (nonlinear_arith)
            requires
                a >= 0,
                o == 16777216,
        ;
    } else {
        assert((2 * (-(a * o)) + o) / (2 * o) == -a) by (nonlinear_arith)
            requires
                a < 0,
                o == 16777216,
        ;
    }
    assert(a * o == o * a) by (nonlinear_arith);
}

/// Dividing a value by itself gives exactly one.
pub proof fn lemma_div_self(a: int)
    requires
        is_fx(a),
        a != 0,
    ensures
        div_spec(a, a) == ONE,
{
    let o = ONE as int;
    if a > 0 {
        assert((2 * (a * o) + a) / (2 * a) == o) by (nonlinear_arith)
            requires
                a > 0,
                o == 16777216,
        ;
    } else {
        assert((2 * (-a * o) + -a) / (2 * -a) == o) by (nonlinear_arith)
            requires
                a < 0,
                o == 16777216,
        ;
    }
}

fn round_div(a: i128, b: i128) -> (r: i128)
    requires
        -WIDE_MAX <= a <= WIDE_MAX,
        0 < b <= DIVISOR_MAX,
    ensures
        r == div_round(a as int, b as int),
        -WIDE_MAX <= r <= WIDE_MAX,
{
    if a >= 0 {
        let r = (2 * a + b) / (2 * b);
        assert(r <= a) by (nonlinear_arith)
            requires
                a >= 0,
                b > 0,
                r == (2 * a + b) / (2 * b),
        ;
        r
    } else {
        let r = (2 * -a + b) / (2 * b);
        assert(r <= -a) by (nonlinear_arith)
            requires
                a < 0,
                b > 0,
                r == (2 * -a + b) / (2 * b),
        ;
        -r
    }
}

/// Clamps a wide intermediate into the fixed-point range.
pub fn saturate(x: i128) -> (r: i64)
    ensures
        r == sat(x as int),
{
    if x > FX_MAX as i128 {
        FX_MAX
    } else if x < -(FX_MAX as i128) {
        -FX_MAX
    } else {
        x as i64
    }
}

pub fn fadd(a: i64, b: i64) -> (r: i64)
    ensures
        r == add_spec(a as int, b as int),
{
    saturate(a as i128 + b as i128)
}

pub fn fsub(a: i64, b: i64) -> (r: i64)
    ensures
        r == sub_spec(a as int, b as int),
{
    saturate(a as i128 - b as i128)
}

pub fn fmul(a: i64, b: i64) -> (r: i64)
    requires
        is_fx(a as int),
        is_fx(b as int),
    ensures
        r == mul_spec(a as int, b as int),
{
    proof {
        lemma_product_bound(a as int, b as int);
    }
    let p = (a as i128) * (b as i128);
    saturate(round_div(p, ONE as i128))
}

pub fn fdiv(a: i64, b: i64) -> (r: i64)
    requires
        is_fx(a as int),
        is_fx(b as int),
        b != 0,
    ensures
        r == div_spec(a as int, b as int),
{
    assert(-0x100_0000_0000_0000_0000 <= a * ONE <= 0x100_0000_0000_0000_0000) by (nonlinear_arith)
        requires
            -140737488355328 <= a <= 140737488355328,
    ;
    if b > 0 {
        saturate(round_div(a as i128 * ONE as i128, b as i128))
    } else {
        saturate(round_div(-(a as i128) * ONE as i128, -(b as i128)))
    }
}

} // verus!
