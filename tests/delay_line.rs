use grain_delay::delay_line::{DelayLine, Interpolation};
use grain_delay::fixed::ONE;

const KERNELS: [Interpolation; 5] = [
    Interpolation::Step,
    Interpolation::Linear,
    Interpolation::Cosine,
    Interpolation::Cubic,
    Interpolation::Spline,
];

fn fx(v: f64) -> i64 {
    (v * ONE as f64).round() as i64
}

fn filled(length: usize, count: usize) -> DelayLine {
    let mut line = DelayLine::new(length, 1000);
    for n in 0..count {
        line.write(fx(((n * 37) % 101) as f64 / 50.0 - 1.0));
    }
    line
}

#[test]
fn step_reads_back_the_sample_written_k_steps_earlier() {
    let written: Vec<i64> = (0..300).map(|n| fx((n as f64 * 0.013).sin())).collect();
    let mut line = DelayLine::new(256, 44100);
    for &s in &written {
        line.write(s);
    }
    for k in 1..=254usize {
        assert_eq!(line.read_delay(k as i64 * ONE, Interpolation::Step), written[written.len() - k]);
    }
}

#[test]
fn read_in_milliseconds_converts_with_the_sample_rate() {
    let mut line = DelayLine::new(64, 1000);
    for n in 0..64 {
        line.write(n * ONE);
    }
    assert_eq!(line.read(fx(1.0), Interpolation::Step), 63 * ONE);
    assert_eq!(line.read(fx(10.0), Interpolation::Step), 54 * ONE);
}

#[test]
fn every_kernel_agrees_with_step_at_whole_delays() {
    let line = filled(128, 500);
    for k in 1..=126i64 {
        let step = line.read_delay(k * ONE, Interpolation::Step);
        for interp in KERNELS {
            assert_eq!(line.read_delay(k * ONE, interp), step, "kernel {:?} at delay {}", interp, k);
        }
    }
}

#[test]
fn delays_are_clamped_to_the_buffer() {
    let line = filled(32, 100);
    assert_eq!(line.read_delay(0, Interpolation::Step), line.read_delay(ONE, Interpolation::Step));
    assert_eq!(line.read_delay(-5 * ONE, Interpolation::Linear), line.read_delay(ONE, Interpolation::Linear));
    assert_eq!(line.read_delay(1000 * ONE, Interpolation::Step), line.read_delay(31 * ONE, Interpolation::Step));
    assert_eq!(line.read_delay(1000 * ONE, Interpolation::Cubic), line.read_delay(30 * ONE, Interpolation::Cubic));
}

#[test]
fn whole_buffer_can_be_read_back() {
    let mut line = DelayLine::new(4, 1000);
    for v in [1, 2, 3] {
        line.write(v * ONE);
    }
    assert_eq!(line.read(fx(3.), Interpolation::Step), ONE);
    assert_eq!(line.read(fx(2.), Interpolation::Step), 2 * ONE);
    line.write(4 * ONE);
    assert_eq!(line.read(fx(3.), Interpolation::Step), 2 * ONE);
    assert_eq!(line.read(fx(3.), Interpolation::Linear), 2 * ONE);
    assert_eq!(line.read(fx(3.), Interpolation::Cosine), 2 * ONE);
}

#[test]
fn fractional_delays_interpolate_between_neighbours() {
    let mut line = DelayLine::new(16, 1000);
    for n in 0..16 {
        line.write(n * ONE);
    }
    // delay 1 holds 15, delay 2 holds 14
    assert_eq!(line.read_delay(ONE + ONE / 2, Interpolation::Linear), fx(14.5));
    assert_eq!(line.read_delay(ONE + ONE / 4, Interpolation::Step), 14 * ONE);
    let cosine = line.read_delay(3 * ONE + ONE / 2, Interpolation::Cosine);
    assert!((cosine - fx(12.5)).abs() < 64, "cosine {}", cosine);
    let cubic = line.read_delay(3 * ONE + ONE / 2, Interpolation::Cubic);
    let spline = line.read_delay(3 * ONE + ONE / 2, Interpolation::Spline);
    assert!((cubic - fx(12.5)).abs() < 64, "cubic {}", cubic);
    assert!((spline - fx(12.5)).abs() < 64, "spline {}", spline);
}

#[test]
fn a_new_line_is_silent() {
    let line = DelayLine::new(8, 48000);
    for interp in KERNELS {
        assert_eq!(line.read_delay(3 * ONE + 12345, interp), 0);
    }
}
