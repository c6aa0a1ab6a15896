//! Fast approximations of the transcendental functions the engine needs,
//! computed in saturating fixed point.
use vstd::prelude::*;
use crate::fixed::{
    add_spec, div_round, div_spec, fadd, fdiv, fmul, fsub, is_fx, mul_spec, sat, saturate,
    sub_spec, FX_MAX, HALF_PI, LOG2_10_OVER_20, LOG2_E, ONE, PI, PI_SQUARED, TWO_PI,
};

verus! {

/// At and below this level (-90 dB) `Dbtoa::run` is silent.
pub const SILENCE_DB: i64 = -1509949440;

pub open spec fn clip_spec(x: int, lo: int, hi: int) -> int {
    if x < lo {
        lo
    } else if x > hi {
        hi
    } else {
        x
    }
}

/// Clamps a value into `[min, max]`.
pub struct Clip;

impl Clip {
    pub fn run(input: i64, min: i64, max: i64) -> (r: i64)
        ensures
            r == clip_spec(input as int, min as int, max as int),
    {
        if input < min {
            min
        } else if input > max {
            max
        } else {
            input
        }
    }
}

/// `left * (1 - factor) + right * factor`.
pub open spec fn mix_spec(left: int, right: int, factor: int) -> int {
    add_spec(mul_spec(left, sub_spec(ONE as int, factor)), mul_spec(right, factor))
}

pub fn mix(left: i64, right: i64, factor: i64) -> (r: i64)
    requires
        is_fx(left as int),
        is_fx(right as int),
        is_fx(factor as int),
    ensures
        r == mix_spec(left as int, right as int, factor as int),
{
    fadd(fmul(left, fsub(ONE, factor)), fmul(right, factor))
}

/// Maps `x` from `[in_low, in_high]` onto `[out_low, out_high]`; an empty input
/// range maps everything onto `out_low`.
pub open spec fn scale_spec(x: int, in_low: int, in_high: int, out_low: int, out_high: int) -> int {
    let in_range = sub_spec(in_high, in_low);
    if in_range == 0 {
        out_low
    } else {
        add_spec(
            mul_spec(div_spec(sub_spec(x, in_low), in_range), sub_spec(out_high, out_low)),
            out_low,
        )
    }
}

pub fn scale(x: i64, in_low: i64, in_high: i64, out_low: i64, out_high: i64) -> (r: i64)
    requires
        is_fx(x as int),
        is_fx(in_low as int),
        is_fx(in_high as int),
        is_fx(out_low as int),
        is_fx(out_high as int),
    ensures
        r == scale_spec(x as int, in_low as int, in_high as int, out_low as int, out_high as int),
{
    let in_range = fsub(in_high, in_low);
    if in_range == 0 {
        out_low
    } else {
        fadd(fmul(fdiv(fsub(x, in_low), in_range), fsub(out_high, out_low)), out_low)
    }
}

/// An angle reduced into `[0, 2*pi)`.
pub open spec fn wrap_turn(x: int) -> int {
    if x >= 0 {
        x % (TWO_PI as int)
    } else {
        (TWO_PI - (-x) % (TWO_PI as int)) % (TWO_PI as int)
    }
}

/// An angle of `[0, 2*pi)` moved into `[-pi/2, pi/2]` with the same sine.
pub open spec fn fold_quarter(r: int) -> int {
    let y = if r > PI { r - TWO_PI } else { r };
    if y > HALF_PI {
        PI - y
    } else if y < -HALF_PI {
        -PI - y
    } else {
        y
    }
}

/// Odd Taylor polynomial of the sine up to the ninth power.
pub open spec fn sin_poly(x: int) -> int {
    let x2 = mul_spec(x, x);
    let p = add_spec(-3329, mul_spec(x2, 46));
    let p = add_spec(139810, mul_spec(x2, p));
    let p = add_spec(-2796203, mul_spec(x2, p));
    let p = add_spec(ONE as int, mul_spec(x2, p));
    mul_spec(x, p)
}

pub open spec fn sin_spec(x: int) -> int {
    clip_spec(sin_poly(fold_quarter(wrap_turn(x))), -ONE as int, ONE as int)
}

pub open spec fn cos_spec(x: int) -> int {
    sin_spec(add_spec(x, HALF_PI as int))
}

fn sin_poly_exec(x: i64) -> (r: i64)
    requires
        is_fx(x as int),
    ensures
        r == sin_poly(x as int),
{
    let x2 = fmul(x, x);
    let p = fadd(-3329, fmul(x2, 46));
    let p = fadd(139810, fmul(x2, p));
    let p = fadd(-2796203, fmul(x2, p));
    let p = fadd(ONE, fmul(x2, p));
    fmul(x, p)
}

/// Sine of an angle in radians, for any angle; the result lies in `[-1, 1]`.
pub fn fast_sin(x: i64) -> (r: i64)
    requires
        is_fx(x as int),
    ensures
        r == sin_spec(x as int),
        -ONE <= r <= ONE,
{
    let turn = if x >= 0 {
        x % TWO_PI
    } else {
        (TWO_PI - (-x) % TWO_PI) % TWO_PI
    };
    let y = if turn > PI {
        turn - TWO_PI
    } else {
        turn
    };
    let y = if y > HALF_PI {
        PI - y
    } else if y < -HALF_PI {
        -PI - y
    } else {
        y
    };
    Clip::run(sin_poly_exec(y), -ONE, ONE)
}

/// Cosine of an angle in radians; the result lies in `[-1, 1]`.
pub fn fast_cos(x: i64) -> (r: i64)
    requires
        is_fx(x as int),
    ensures
        r == cos_spec(x as int),
        -ONE <= r <= ONE,
{
    fast_sin(fadd(x, HALF_PI))
}

pub open spec fn atan1_spec(x: int) -> int {
    let s = mul_spec(x, x);
    let p = add_spec(883376, mul_spec(s, -196649));
    let p = add_spec(-1953419, mul_spec(s, p));
    let p = add_spec(3247120, mul_spec(s, p));
    let p = add_spec(-5580496, mul_spec(s, p));
    let p = add_spec(16776834, mul_spec(s, p));
    mul_spec(x, p)
}

/// Arctangent by an odd polynomial of degree eleven, for `x` in `[-1, 1]`.
pub fn fast_atan1(x: i64) -> (r: i64)
    requires
        is_fx(x as int),
    ensures
        r == atan1_spec(x as int),
{
    let s = fmul(x, x);
    let p = fadd(883376, fmul(s, -196649));
    let p = fadd(-1953419, fmul(s, p));
    let p = fadd(3247120, fmul(s, p));
    let p = fadd(-5580496, fmul(s, p));
    let p = fadd(16776834, fmul(s, p));
    fmul(x, p)
}

pub open spec fn atan2_spec(x: int) -> int {
    mul_spec(add_spec(16314066, mul_spec(-3220352, mul_spec(x, x))), x)
}

/// Arctangent by a cubic, for `x` in `[-1, 1]`; cheaper and coarser than `fast_atan1`.
pub fn fast_atan2(x: i64) -> (r: i64)
    requires
        is_fx(x as int),
    ensures
        r == atan2_spec(x as int),
{
    fmul(fadd(16314066, fmul(-3220352, fmul(x, x))), x)
}

pub open spec fn tanh1_spec(x: int) -> int {
    let s = mul_spec(x, x);
    let a = mul_spec(x, add_spec(2267189084160, mul_spec(s, add_spec(290665267200, mul_spec(s, add_spec(6341787648, s))))));
    let b = add_spec(2267189084160, mul_spec(s, add_spec(1046394961920, mul_spec(s, add_spec(52848230400, mul_spec(s, 469762048))))));
    if b == 0 {
        0
    } else {
        div_spec(a, b)
    }
}

/// Hyperbolic tangent by a rational function of degree seven over six.
pub fn fast_tanh1(x: i64) -> (r: i64)
    requires
        is_fx(x as int),
    ensures
        r == tanh1_spec(x as int),
{
    let s = fmul(x, x);
    let a = fmul(x, fadd(2267189084160, fmul(s, fadd(290665267200, fmul(s, fadd(6341787648, s))))));
    let b = fadd(2267189084160, fmul(s, fadd(1046394961920, fmul(s, fadd(52848230400, fmul(s, 469762048))))));
    if b == 0 {
        0
    } else {
        fdiv(a, b)
    }
}

pub open spec fn tanh2_spec(x: int) -> int {
    let x2 = mul_spec(x, x);
    let x3 = mul_spec(x2, x);
    let x4 = mul_spec(x3, x);
    let b = add_spec(add_spec(1761607680, mul_spec(754974720, x2)), x4);
    if b == 0 {
        0
    } else {
        div_spec(add_spec(mul_spec(1761607680, x), mul_spec(167772160, x3)), b)
    }
}

/// Hyperbolic tangent by a rational function of degree three over four;
/// cheaper than `fast_tanh1`, coarser beyond `[-1, 1]`.
pub fn fast_tanh2(x: i64) -> (r: i64)
    requires
        is_fx(x as int),
    ensures
        r == tanh2_spec(x as int),
{
    let x2 = fmul(x, x);
    let x3 = fmul(x2, x);
    let x4 = fmul(x3, x);
    let b = fadd(fadd(1761607680, fmul(754974720, x2)), x4);
    if b == 0 {
        0
    } else {
        fdiv(fadd(fmul(1761607680, x), fmul(167772160, x3)), b)
    }
}

pub open spec fn tanh3_spec(x: int) -> int {
    let a = if x < 0 { sub_spec(0, x) } else { x };
    let b = add_spec(21168764, mul_spec(a, add_spec(-9177028, mul_spec(a, 44721196))));
    let d = add_spec(mul_spec(b, a), ONE as int);
    if d == 0 {
        0
    } else {
        div_spec(mul_spec(b, x), d)
    }
}

/// Hyperbolic tangent by a cheap rational fit.
pub fn fast_tanh3(x: i64) -> (r: i64)
    requires
        is_fx(x as int),
    ensures
        r == tanh3_spec(x as int),
{
    let a = if x < 0 {
        fsub(0, x)
    } else {
        x
    };
    let b = fadd(21168764, fmul(a, fadd(-9177028, fmul(a, 44721196))));
    let d = fadd(fmul(b, a), ONE);
    if d == 0 {
        0
    } else {
        fdiv(fmul(b, x), d)
    }
}

/// Bhaskara's sine of `u * pi / 2`, meant for `u` in `[0, 1]`.
pub open spec fn sin_bhaskara_spec(u: int) -> int {
    let x = mul_spec(u, HALF_PI as int);
    let a = mul_spec(x, sub_spec(PI as int, x));
    let den = sub_spec(5 * PI_SQUARED, mul_spec(4 * ONE, a));
    if den == 0 {
        0
    } else {
        div_spec(mul_spec(16 * ONE, a), den)
    }
}

/// Bhaskara's cosine of `u * pi / 2`, meant for `u` in `[0, 1]`.
pub open spec fn cos_bhaskara_spec(u: int) -> int {
    let x = mul_spec(u, HALF_PI as int);
    let x2 = mul_spec(x, x);
    let den = add_spec(PI_SQUARED as int, x2);
    if den == 0 {
        0
    } else {
        div_spec(sub_spec(PI_SQUARED as int, mul_spec(4 * ONE, x2)), den)
    }
}

pub fn fast_sin_bhaskara(u: i64) -> (r: i64)
    requires
        is_fx(u as int),
    ensures
        r == sin_bhaskara_spec(u as int),
{
    let x = fmul(u, HALF_PI);
    let a = fmul(x, fsub(PI, x));
    let den = fsub(5 * PI_SQUARED, fmul(4 * ONE, a));
    if den == 0 {
        0
    } else {
        fdiv(fmul(16 * ONE, a), den)
    }
}

pub fn fast_cos_bhaskara(u: i64) -> (r: i64)
    requires
        is_fx(u as int),
    ensures
        r == cos_bhaskara_spec(u as int),
{
    let x = fmul(u, HALF_PI);
    let x2 = fmul(x, x);
    let den = fadd(PI_SQUARED, x2);
    if den == 0 {
        0
    } else {
        fdiv(fsub(PI_SQUARED, fmul(4 * ONE, x2)), den)
    }
}

/// The Bhaskara cosine is exactly one at zero.
pub proof fn lemma_cos_bhaskara_zero()
    ensures
        cos_bhaskara_spec(0) == ONE,
{
    crate::fixed::lemma_mul_unit(HALF_PI as int);
    crate::fixed::lemma_mul_unit(0);
    crate::fixed::lemma_div_self(PI_SQUARED as int);
}

/// Taylor polynomial of `2^f` for `f` in `[0, 1)`, up to the sixth power.
pub open spec fn exp2_frac(f: int) -> int {
    let p = add_spec(22370, mul_spec(f, 2584));
    let p = add_spec(161365, mul_spec(f, p));
    let p = add_spec(931204, mul_spec(f, p));
    let p = add_spec(4030332, mul_spec(f, p));
    let p = add_spec(11629080, mul_spec(f, p));
    add_spec(ONE as int, mul_spec(f, p))
}

/// `m * 2^n`, doubling with saturation or halving with rounding one step at a time.
pub open spec fn scale_pow2(m: int, n: int) -> int
    decreases (if n >= 0 { n } else { -n }),
{
    if n > 0 {
        scale_pow2(sat(2 * m), n - 1)
    } else if n < 0 {
        scale_pow2(div_round(m, 2), n + 1)
    } else {
        m
    }
}

/// The whole part of `e / ONE`, rounded towards minus infinity.
pub open spec fn whole_part(e: int) -> int {
    if e >= 0 {
        e / (ONE as int)
    } else {
        -((-e + ONE - 1) / (ONE as int))
    }
}

/// `2^e` for a fixed-point exponent `e`.
pub open spec fn pow2_spec(e: int) -> int {
    let n = whole_part(e);
    if n > 30 {
        FX_MAX as int
    } else if n < -40 {
        0
    } else {
        scale_pow2(exp2_frac(e - n * ONE), n)
    }
}

fn exp2_frac_exec(f: i64) -> (r: i64)
    requires
        is_fx(f as int),
    ensures
        r == exp2_frac(f as int),
{
    let p = fadd(22370, fmul(f, 2584));
    let p = fadd(161365, fmul(f, p));
    let p = fadd(931204, fmul(f, p));
    let p = fadd(4030332, fmul(f, p));
    let p = fadd(11629080, fmul(f, p));
    fadd(ONE, fmul(f, p))
}

/// Two to the power of a fixed-point exponent.
pub fn fast_pow2(e: i64) -> (r: i64)
    requires
        is_fx(e as int),
    ensures
        r == pow2_spec(e as int),
        is_fx(r as int),
{
    let n: i64 = if e >= 0 {
        e / ONE
    } else {
        -((-e + ONE - 1) / ONE)
    };
    if n > 30 {
        return FX_MAX;
    }
    if n < -40 {
        return 0;
    }
    let m0 = exp2_frac_exec(e - n * ONE);
    let mut m = m0;
    let mut k: i64 = n;
    while k != 0
        invariant
            -40 <= k <= 30,
            is_fx(m as int),
            scale_pow2(m as int, k as int) == scale_pow2(m0 as int, n as int),
        decreases (if k >= 0 { k as int } else { -k }),
    {
        if k > 0 {
            m = fadd(m, m);
            k = k - 1;
        } else {
            m = if m >= 0 {
                (m + 1) / 2
            } else {
                -((-m + 1) / 2)
            };
            k = k + 1;
        }
    }
    m
}

pub open spec fn exp_spec(x: int) -> int {
    pow2_spec(mul_spec(x, LOG2_E as int))
}

/// The natural exponential.
pub fn fast_exp(x: i64) -> (r: i64)
    requires
        is_fx(x as int),
    ensures
        r == exp_spec(x as int),
        is_fx(r as int),
{
    fast_pow2(fmul(x, LOG2_E))
}

pub open spec fn dbtoa_spec(db: int) -> int {
    pow2_spec(mul_spec(db, LOG2_10_OVER_20 as int))
}

/// Converts decibels to a linear amplitude.
pub fn dbtoa(db: i64) -> (r: i64)
    requires
        is_fx(db as int),
    ensures
        r == dbtoa_spec(db as int),
{
    fast_pow2(fmul(db, LOG2_10_OVER_20))
}

/// Decibels to amplitude, silent at and below -90 dB.
pub struct Dbtoa;

impl Dbtoa {
    pub fn run(input: i64) -> (r: i64)
        requires
            is_fx(input as int),
        ensures
            r == if input > SILENCE_DB { dbtoa_spec(input as int) } else { 0 },
    {
        if input > SILENCE_DB {
            dbtoa(input)
        } else {
            0
        }
    }
}

pub open spec fn semitone_ratio_spec(semitones: int) -> int {
    pow2_spec(div_spec(semitones, 12 * ONE))
}

/// The playback-rate ratio of a pitch shift in semitones: `2^(semitones / 12)`.
pub fn semitone_ratio(semitones: i64) -> (r: i64)
    requires
        is_fx(semitones as int),
    ensures
        r == semitone_ratio_spec(semitones as int),
        is_fx(r as int),
{
    fast_pow2(fdiv(semitones, 12 * ONE))
}

/// `ms` milliseconds as a (fractional) number of samples at `sample_rate`.
pub open spec fn mstosamps_spec(ms: int, sample_rate: int) -> int {
    sat(div_round(ms * sample_rate, 1000))
}

pub fn mstosamps(ms: i64, sample_rate: u32) -> (r: i64)
    requires
        is_fx(ms as int),
    ensures
        r == mstosamps_spec(ms as int, sample_rate as int),
{
    assert(-0x1_0000_0000_0000_0000_0000 <= ms * sample_rate <= 0x1_0000_0000_0000_0000_0000)
        by (nonlinear_arith)
        requires
            -140737488355328 <= ms <= 140737488355328,
            0 <= sample_rate <= 0xffff_ffff,
    ;
    let p = ms as i128 * sample_rate as i128;
    if p >= 0 {
        saturate((2 * p + 1000) / 2000)
    } else {
        saturate(-((2 * -p + 1000) / 2000))
    }
}

} // verus!
