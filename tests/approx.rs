use grain_delay::approx;
use grain_delay::approx::{Clip, Dbtoa};
use grain_delay::fixed::{fadd, fdiv, fmul, fsub, saturate, FX_MAX, ONE};
use std::f32::consts::{FRAC_1_SQRT_2, PI};

fn fx(v: f64) -> i64 {
    (v * ONE as f64).round() as i64
}

fn to_f32(v: i64) -> f32 {
    (v as f64 / ONE as f64) as f32
}

fn assert_close(left: f32, right: f32, tolerance: f32) {
    assert!(
        (left - right).abs() <= tolerance,
        "left={left}, right={right}, tolerance={tolerance}"
    );
}

fn assert_approximately_eq(left: f32, right: f32) {
    assert_eq!((left * 100.).floor() / 100., (right * 100.).floor() / 100.)
}

#[test]
fn dbtoa() {
    assert_close(to_f32(approx::dbtoa(fx(-3.0))), 0.70794576, 1e-5);
    assert_close(to_f32(approx::dbtoa(fx(-6.0))), 0.5011872, 1e-5);
    assert_close(to_f32(approx::dbtoa(fx(-12.0))), 0.25118864, 1e-5);
}

#[test]
fn scale() {
    assert_eq!(approx::scale(fx(1.), fx(1.), fx(500.), fx(-6.), fx(-15.)), fx(-6.));
    assert_close(to_f32(approx::scale(fx(250.), fx(1.), fx(500.), fx(-6.), fx(-15.))), -10.490982, 1e-5);
    assert_eq!(approx::scale(fx(500.), fx(1.), fx(500.), fx(-6.), fx(-15.)), fx(-15.));
}

#[test]
fn float_ext_mix() {
    assert_eq!(approx::mix(fx(1.), 0, 0), fx(1.));
    assert_eq!(approx::mix(fx(1.), 0, fx(0.5)), fx(0.5));
    assert_eq!(approx::mix(fx(1.), 0, fx(1.)), 0);
}

#[test]
fn fast_atan1() {
    assert_approximately_eq(to_f32(approx::fast_atan1(fx(0.5))), (0.5f32).atan());
    assert_approximately_eq(to_f32(approx::fast_atan1(fx(-0.5))), (-0.5f32).atan());
    assert_approximately_eq(to_f32(approx::fast_atan1(fx(1.))), (1f32).atan());
    assert_approximately_eq(to_f32(approx::fast_atan1(fx(-1.))), (-1f32).atan());
}

#[test]
fn fast_atan2() {
    assert_approximately_eq(to_f32(approx::fast_atan2(fx(0.5))), (0.5f32).atan());
    assert_approximately_eq(to_f32(approx::fast_atan2(fx(-0.5))), (-0.5f32).atan());
    assert_approximately_eq(to_f32(approx::fast_atan2(fx(1.))), (1f32).atan());
    assert_approximately_eq(to_f32(approx::fast_atan2(fx(-1.))), (-1f32).atan());
}

#[test]
fn fast_tanh1() {
    for v in [0.5f32, -0.5, 1., -1., 1.5, -1.5] {
        assert_approximately_eq(to_f32(approx::fast_tanh1(fx(v as f64))), v.tanh());
    }
}

#[test]
fn fast_tanh2() {
    for v in [0.5f32, -0.5, 1., -1., 1.5, -1.5] {
        assert_approximately_eq(to_f32(approx::fast_tanh2(fx(v as f64))), v.tanh());
    }
}

#[test]
fn fast_tanh3() {
    for v in [0.5f32, -0.5, 1., -1., 1.5, -1.5] {
        assert_approximately_eq(to_f32(approx::fast_tanh2(fx(v as f64))), v.tanh());
    }
}

#[test]
fn fast_tanh3_is_odd_and_bounded() {
    for v in [0.25f64, 0.5, 1., 2., 4.] {
        let p = approx::fast_tanh3(fx(v));
        assert_eq!(approx::fast_tanh3(fx(-v)), -p);
        assert!(p > 0 && p <= ONE + ONE / 100);
        assert_close(to_f32(p), (v as f32).tanh(), 0.03);
    }
}

#[test]
fn fast_sin() {
    assert_approximately_eq(to_f32(approx::fast_sin(fx(0.1))), (0.1f32).sin());
    assert_approximately_eq(to_f32(approx::fast_sin(fx((PI * 1.5) as f64))), (PI * 1.5).sin());
    assert_approximately_eq(to_f32(approx::fast_sin(fx((PI * -1.9) as f64))), (PI * -1.9).sin());
}

#[test]
fn fast_cos() {
    assert_approximately_eq(to_f32(approx::fast_cos(fx(0.1))), (0.1f32).cos());
    assert_approximately_eq(to_f32(approx::fast_cos(fx((PI * 1.5) as f64))), (PI * 1.5).cos());
    assert_approximately_eq(to_f32(approx::fast_cos(fx((PI * 1.9) as f64))), (PI * 1.9).cos());
}

#[test]
fn fast_bhaskara() {
    assert_approximately_eq(to_f32(approx::fast_sin_bhaskara(0)), 0.);
    assert_approximately_eq(to_f32(approx::fast_sin_bhaskara(fx(0.5))), FRAC_1_SQRT_2);
    assert_approximately_eq(to_f32(approx::fast_sin_bhaskara(fx(1.))), 1.);
    assert_approximately_eq(to_f32(approx::fast_cos_bhaskara(0)), 1.);
    assert_approximately_eq(to_f32(approx::fast_cos_bhaskara(fx(0.5))), FRAC_1_SQRT_2);
    assert_approximately_eq(
        to_f32(approx::fast_cos_bhaskara(fx(0.5))),
        to_f32(approx::fast_sin_bhaskara(fx(0.5))),
    );
    assert_approximately_eq(to_f32(approx::fast_cos_bhaskara(0)), to_f32(approx::fast_sin_bhaskara(fx(1.))));
}

#[test]
fn test() {
    assert_close(to_f32(Dbtoa::run(fx(-6.0))), 0.5011872, 1e-5);
    assert_eq!(Dbtoa::run(fx(-90.0)), 0);
}

#[test]
fn mstosamps() {
    assert_eq!(approx::mstosamps(fx(2000.), 44100), fx(88200.));
    assert_eq!(approx::mstosamps(fx(10.), 44100), 441 * ONE);
    assert_eq!(approx::mstosamps(fx(-10.), 44100), -441 * ONE);
}

#[test]
fn clip_bounds_a_value() {
    assert_eq!(Clip::run(fx(1.5), -ONE, ONE), ONE);
    assert_eq!(Clip::run(fx(-1.5), -ONE, ONE), -ONE);
    assert_eq!(Clip::run(fx(0.25), -ONE, ONE), fx(0.25));
}

#[test]
fn semitone_ratio_doubles_per_octave() {
    assert_eq!(approx::semitone_ratio(0), ONE);
    assert_close(to_f32(approx::semitone_ratio(fx(12.))), 2.0, 1e-5);
    assert_close(to_f32(approx::semitone_ratio(fx(-12.))), 0.5, 1e-5);
    assert_close(to_f32(approx::semitone_ratio(fx(7.))), 1.4983071, 1e-5);
    assert_close(to_f32(approx::semitone_ratio(fx(24.))), 4.0, 1e-4);
}

#[test]
fn fixed_point_arithmetic_rounds_and_saturates() {
    assert_eq!(fmul(fx(1.5), fx(2.)), fx(3.));
    assert_eq!(fmul(fx(-1.5), fx(2.)), fx(-3.));
    assert_eq!(fdiv(fx(3.), fx(2.)), fx(1.5));
    assert_eq!(fdiv(fx(3.), fx(-2.)), fx(-1.5));
    assert_eq!(fadd(FX_MAX, FX_MAX), FX_MAX);
    assert_eq!(fsub(-FX_MAX, FX_MAX), -FX_MAX);
    assert_eq!(fmul(FX_MAX, FX_MAX), FX_MAX);
    assert_eq!(saturate(i128::MIN), -FX_MAX);
    assert_eq!(fmul(1, ONE / 2), 1);
    assert_eq!(fmul(-1, ONE / 2), -1);
}
