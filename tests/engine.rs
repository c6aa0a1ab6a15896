use grain_delay::delay_line::Interpolation;
use grain_delay::filter::{DcBlock, Mode, OnePoleFilterStereo};
use grain_delay::fixed::ONE;
use grain_delay::grain_delay::{GrainDelay, SampleRateError};
use grain_delay::mix::{pan, Mix};
use grain_delay::params::{GrainDelayParameters, Params, MAX_DRIFT};
use grain_delay::smooth::{ExponentialSmooth, LinearSmooth};
use grain_delay::variable_delay_line::{Ramp, VariableDelayLine, CROSSFADE_FREQ};
use std::f32::consts::FRAC_1_SQRT_2;

fn fx(v: f64) -> i64 {
    (v * ONE as f64).round() as i64
}

fn to_f32(v: i64) -> f32 {
    (v as f64 / ONE as f64) as f32
}

fn assert_close(left: f32, right: f32, tolerance: f32) {
    assert!(
        (left - right).abs() <= tolerance,
        "left={left}, right={right}, tolerance={tolerance}"
    );
}

#[test]
fn should_smooth_linearly() {
    let mut linear_smooth = LinearSmooth::new(5, fx(1.));
    let mut check = |value: i64, expected: f32| assert_close(to_f32(value), expected, 1e-6);
    linear_smooth.set_target(fx(1.));
    check(linear_smooth.next(), 0.2);
    linear_smooth.set_target(fx(1.));
    check(linear_smooth.next(), 0.4);
    check(linear_smooth.next(), 0.6);
    check(linear_smooth.next(), 0.8);
    check(linear_smooth.next(), 1.0);
    check(linear_smooth.next(), 1.0);
    linear_smooth.set_target(0);
    check(linear_smooth.next(), 0.8);
    linear_smooth.set_target(0);
    check(linear_smooth.next(), 0.6);
    check(linear_smooth.next(), 0.40000004);
    check(linear_smooth.next(), 0.20000003);
    check(linear_smooth.next(), 2.9802322e-8);
    check(linear_smooth.next(), 0.0);
}

#[test]
fn exponential_smoothing_reaches_its_target() {
    let mut smooth = ExponentialSmooth::new(44100, fx(12.));
    smooth.reset(0);
    smooth.set_target(ONE);
    let mut previous = 0;
    let mut steps = 0;
    loop {
        let v = smooth.next();
        assert!(v >= previous && v <= ONE);
        previous = v;
        steps += 1;
        if v == ONE {
            break;
        }
        assert!(steps < 100000);
    }
    assert!(steps > 100);
    assert_eq!(smooth.get_target(), ONE);
}

#[test]
fn ramp_forward_ramp() {
    let mut ramp = Ramp::new(10, fx(1.));
    ramp.start();
    let expected = [0., 0.1, 0.2, 0.3, 0.4, 0.5, 0.6, 0.7, 0.8, 0.9, 1., 1.];
    for e in expected {
        assert_eq!((to_f32(ramp.process()) * 10.).round() / 10., e);
    }
}

#[test]
fn is_finished() {
    let mut ramp = Ramp::new(10, fx(1.));
    ramp.start();
    for _ in 0..11 {
        assert!(!ramp.is_finished());
        ramp.process();
    }
    assert!(ramp.is_finished());
}

#[test]
fn crossfade_lasts_a_fifth_of_a_second() {
    for (rate, reads) in [(44100u32, 8820usize), (768000, 153600), (48001, 9601)] {
        let mut ramp = Ramp::new(rate, CROSSFADE_FREQ);
        ramp.start();
        assert_eq!(ramp.process(), 0);
        let mut n = 0;
        let mut previous = 0;
        while !ramp.is_finished() {
            let x = ramp.process();
            assert!(x >= previous);
            previous = x;
            n += 1;
        }
        assert_eq!(n, reads);
        assert_eq!(previous, ONE);
    }
}

#[test]
fn pan_mix() {
    let check = |left: (i64, i64), right: (f32, f32)| {
        assert_eq!((to_f32(left.0) * 100.).round() / 100., (right.0 * 100.).round() / 100.);
        assert_eq!((to_f32(left.1) * 100.).round() / 100., (right.1 * 100.).round() / 100.);
    };
    check(pan(ONE, fx(-50.)), (1., 0.));
    check(pan(ONE, fx(50.)), (0., 1.));
    check(pan(ONE, 0), (FRAC_1_SQRT_2, FRAC_1_SQRT_2));
}

#[test]
fn mix_mix() {
    let mut mix = Mix::new();
    let first = mix.process(0, (ONE, ONE), 0);
    let second = mix.process(0, (ONE, ONE), fx(0.5));
    let third = mix.process(0, (ONE, ONE), fx(1.));
    assert_close(to_f32(first.0), 0., 1e-3);
    assert_close(to_f32(first.1), 0., 1e-3);
    assert_close(to_f32(second.0), 0.707, 1e-3);
    assert_close(to_f32(second.1), 0.707, 1e-3);
    assert_close(to_f32(third.0), 1., 1e-3);
    assert_close(to_f32(third.1), 1., 1e-3);
}

#[test]
fn mix_keeps_dry_signal_at_zero() {
    let mut mix = Mix::new();
    assert_eq!(mix.process(fx(0.5), (ONE, -ONE), 0), (fx(0.5), fx(0.5)));
}

#[test]
fn dc_block_removes_a_constant() {
    let mut dc = DcBlock::new(44100);
    let first = dc.process(fx(0.5));
    assert_eq!(first, fx(0.5));
    let mut last = first;
    for _ in 0..20000 {
        last = dc.process(fx(0.5));
    }
    assert!(to_f32(last).abs() < 1e-4, "{}", to_f32(last));
}

#[test]
fn one_pole_filter_settles_on_a_constant() {
    let mut filter = OnePoleFilterStereo::new(44100);
    let mut out = (0, 0);
    for _ in 0..2000 {
        out = filter.process((fx(0.5), fx(-0.25)), fx(1000.), Mode::Hertz);
    }
    assert_close(to_f32(out.0), 0.5, 1e-3);
    assert_close(to_f32(out.1), -0.25, 1e-3);
    let first = OnePoleFilterStereo::new(44100).process((ONE, ONE), fx(1000.), Mode::Hertz);
    // b1 = exp(-2 pi 1000 / 44100) = 0.8672
    assert_close(to_f32(first.0), 1. - 0.8672, 1e-3);
    let open = OnePoleFilterStereo::new(44100).process((ONE, ONE), 0, Mode::Linear);
    assert_eq!(open, (ONE, ONE));
    let closed = OnePoleFilterStereo::new(44100).process((ONE, ONE), ONE, Mode::Linear);
    assert_eq!(closed, (0, 0));
}

#[test]
fn variable_delay_change_does_not_click() {
    let mut line = VariableDelayLine::new(44100, 44100);
    let signal = |n: usize| fx((n as f64 * 2. * std::f64::consts::PI * 100. / 44100.).sin() * 0.5);
    for n in 0..20000 {
        line.write(signal(n));
    }
    let mut previous = line.read(fx(10.), Interpolation::Linear);
    let mut biggest = 0;
    for n in 20000..40000 {
        let time = if n < 25000 { fx(10.) } else { fx(123.) };
        let out = line.read(time, Interpolation::Linear);
        biggest = biggest.max((out - previous).abs());
        previous = out;
        line.write(signal(n));
    }
    assert!(to_f32(biggest) < 0.02, "jump of {}", to_f32(biggest));
}

#[test]
fn variable_delay_reads_through_when_time_is_steady() {
    let mut line = VariableDelayLine::new(1000, 1000);
    for n in 0..100 {
        line.write(n * ONE);
    }
    assert_eq!(line.read(0, Interpolation::Step), 99 * ONE);
    assert_eq!(line.read(0, Interpolation::Step), 99 * ONE);
}

#[test]
fn construction_rejects_bad_sample_rates() {
    assert!(matches!(GrainDelay::new(0), Err(SampleRateError::Zero)));
    assert!(matches!(GrainDelay::with_seed(0, 1), Err(SampleRateError::Zero)));
    assert!(matches!(GrainDelay::new(10_000_000), Err(SampleRateError::TooHigh)));
    assert!(GrainDelay::with_seed(44100, 1).is_ok());
}

#[test]
fn largest_sample_rate_is_accepted() {
    let top = grain_delay::fixed::MAX_SAMPLE_RATE;
    let mut engine = GrainDelay::with_seed(top, 2).unwrap();
    assert!(matches!(GrainDelay::with_seed(top + 1, 2), Err(SampleRateError::TooHigh)));
    let mut params = Params::new(top);
    params.set(settings(0.5, 0.5, 5000.));
    for n in 0..1000 {
        let input = if n % 100 == 0 { ONE } else { 0 };
        engine.process(input, &mut params);
    }
}

#[test]
fn default_parameters() {
    let p = GrainDelayParameters::default();
    assert_eq!(p.spray, fx(2.));
    assert_eq!(p.frequency, fx(7.));
    assert_eq!(p.pitch, fx(12.));
    assert_eq!(p.filter, fx(5000.));
    assert_eq!(p.mix, fx(0.5));
    assert_eq!(p.feedback, 0);
}

#[test]
fn params_map_drift_and_smooth_controls() {
    let mut params = Params::new(44100);
    let mut values = GrainDelayParameters::default();
    values.drift = fx(0.5);
    params.set(values);
    assert_eq!(params.drift, MAX_DRIFT / 4);
    assert_eq!(params.pitch.next(), fx(12.));
    values.pitch = 0;
    params.set(values);
    let first = params.pitch.next();
    assert!(first < fx(12.) && first > fx(11.9));
    for _ in 0..4000 {
        params.pitch.next();
    }
    assert_eq!(params.pitch.next(), 0);
}

fn settings(feedback: f64, mix: f64, time: f64) -> GrainDelayParameters {
    GrainDelayParameters {
        spray: fx(0.),
        frequency: fx(150.),
        pitch: 0,
        drift: 0,
        reverse: 0,
        time: fx(time),
        feedback: fx(feedback),
        filter: fx(20000.),
        spread: 0,
        mix: fx(mix),
    }
}

#[test]
fn impulse_comes_out_after_the_echo_time() {
    let mut engine = GrainDelay::with_seed(44100, 5).unwrap();
    let mut params = Params::new(44100);
    params.set(settings(0., 1., 10.));
    let mut out = Vec::new();
    for n in 0..2000 {
        let input = if n == 0 { ONE } else { 0 };
        out.push(engine.process(input, &mut params));
    }
    let peak = (0..out.len()).max_by_key(|&n| out[n].0.abs()).unwrap();
    assert!((441..=443).contains(&peak), "peak at {}", peak);
    assert!(to_f32(out[peak].0) > 0.3);
    for n in 0..441 {
        assert!(to_f32(out[n].0).abs() < 1e-6 && to_f32(out[n].1).abs() < 1e-6, "sample {}", n);
    }
    for n in 450..2000 {
        assert!(to_f32(out[n].0).abs() < 0.01 && to_f32(out[n].1).abs() < 0.01, "sample {}", n);
    }
}

#[test]
fn feedback_stays_bounded() {
    let sample_rate = 44100;
    let mut engine = GrainDelay::with_seed(sample_rate, 9).unwrap();
    let mut params = Params::new(sample_rate);
    let mut values = settings(0.95, 0.5, 120.);
    values.pitch = fx(12.);
    values.frequency = fx(20.);
    values.spray = fx(30.);
    values.spread = ONE;
    values.drift = fx(0.5);
    values.reverse = fx(0.3);
    params.set(values);
    for n in 0..(5 * sample_rate as usize) {
        let input = fx((n as f64 * 0.0314).sin() * 0.5);
        let (l, r) = engine.process(input, &mut params);
        assert!(to_f32(l).abs() <= 1.5 && to_f32(r).abs() <= 1.5, "sample {}: {} {}", n, to_f32(l), to_f32(r));
    }
}
