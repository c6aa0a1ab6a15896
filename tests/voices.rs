use grain_delay::delay_line::DelayLine;
use grain_delay::fixed::ONE;
use grain_delay::grain::{Grain, GrainDraws};
use grain_delay::grains::{Grains, VOICES};
use grain_delay::random::{draw_grain, draw_unit};

fn fx(v: f64) -> i64 {
    (v * ONE as f64).round() as i64
}

fn draws(start: f64, pan: f64, reverse: f64, drift: f64) -> GrainDraws {
    GrainDraws { start: fx(start), pan: fx(pan), reverse: fx(reverse), drift: fx(drift) }
}

fn line_with_signal(length: usize, sample_rate: u32) -> DelayLine {
    let mut line = DelayLine::new(length, sample_rate);
    for n in 0..length {
        line.write(fx((n as f64 * 0.05).sin() * 0.5));
    }
    line
}

#[test]
fn grain_plays_one_activation_per_trigger() {
    let line = line_with_signal(4096, 1000);
    let mut grain = Grain::new(1000);
    assert!(grain.is_free());
    // 10 Hz grains at 1 kHz: the ramp covers the window in 100 samples
    grain.set_parameters(fx(10.), fx(5.), 0, 0, 0, draws(0.5, 0.5, 0.9, 0.5));
    assert!(!grain.is_free());
    let mut samples = 0;
    while !grain.is_free() {
        grain.process(&line, 0);
        samples += 1;
        assert!(samples < 1000);
    }
    assert_eq!(samples, 102);
    for _ in 0..50 {
        assert_eq!(grain.process(&line, 0), (0, 0));
        assert!(grain.is_free());
    }
}

#[test]
fn pitched_and_reversed_grains_also_finish() {
    let line = line_with_signal(8192, 1000);
    for (pitch, reverse_draw) in [(12.0, 0.9), (-12.0, 0.9), (7.0, 0.0), (0.0, 0.0)] {
        let mut grain = Grain::new(1000);
        grain.set_parameters(fx(10.), fx(20.), fx(1.), fx(0.5), fx(1.), draws(0.3, 0.8, reverse_draw, 0.2));
        let mut samples = 0;
        while !grain.is_free() {
            let (l, r) = grain.process(&line, fx(pitch));
            assert!(l.abs() <= ONE && r.abs() <= ONE);
            samples += 1;
            assert!(samples < 1000, "pitch {} never finished", pitch);
        }
        assert!(samples > 1);
    }
}

#[test]
fn free_grain_is_silent() {
    let line = line_with_signal(64, 1000);
    let mut grain = Grain::new(1000);
    assert_eq!(grain.process(&line, fx(12.)), (0, 0));
    assert!(grain.is_free());
}

#[test]
fn voice_pool_never_exceeds_its_voices() {
    let mut pool = Grains::new(8000, 16000, fastrand::Rng::with_seed(7));
    assert_eq!(pool.active_count(), 0);
    let mut most = 0;
    for n in 0..40000 {
        let input = fx(((n as f64) * 0.01).sin() * 0.5);
        let freq = if n < 20000 { fx(150.) } else { fx(3.) };
        pool.process(input, fx(20.), freq, fx(7.), fx(1.), fx(0.3), fx(1.));
        let active = pool.active_count();
        assert!(active <= VOICES);
        most = most.max(active);
    }
    assert!(most >= 2);
}

#[test]
fn voice_pool_is_silent_without_input() {
    let mut pool = Grains::new(8000, 16000, fastrand::Rng::with_seed(3));
    for _ in 0..4000 {
        assert_eq!(pool.process(0, fx(5.), fx(20.), fx(12.), 0, 0, 0), (0, 0));
    }
}

#[test]
fn random_draws_stay_below_one() {
    let mut rng = fastrand::Rng::with_seed(11);
    let mut seen_high = false;
    for _ in 0..10000 {
        let r = draw_unit(&mut rng);
        assert!(0 <= r && r < ONE);
        seen_high |= r > ONE / 2;
    }
    assert!(seen_high);
    for _ in 0..100 {
        let d = draw_grain(&mut rng);
        for v in [d.start, d.pan, d.reverse, d.drift] {
            assert!(0 <= v && v < ONE);
        }
    }
}
