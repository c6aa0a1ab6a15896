use grain_delay::fixed::ONE;
use grain_delay::phasor::{Delta, Phasor};

#[test]
fn phasor_stays_in_unit_range() {
    for freq in [-5 * ONE, 0, ONE, 7 * ONE + 12345, 440 * ONE, 48000 * ONE, 100000 * ONE] {
        let mut phasor = Phasor::new(48000);
        for _ in 0..5000 {
            let x = phasor.process(freq);
            assert!(0 <= x && x < ONE, "phase {} at frequency {}", x, freq);
        }
    }
}

#[test]
fn phasor_period_is_sample_rate_over_frequency() {
    // 44100 / 441 = 100 samples per period
    let mut phasor = Phasor::new(44100);
    let first: Vec<i64> = (0..100).map(|_| phasor.process(441 * ONE)).collect();
    let second: Vec<i64> = (0..100).map(|_| phasor.process(441 * ONE)).collect();
    assert_eq!(first, second);
    assert_eq!(first[99], 0);
    assert_eq!(first[49], ONE / 2);
    assert_eq!(first.iter().filter(|&&x| x == 0).count(), 1);
}

#[test]
fn phasor_advances_by_frequency_over_sample_rate() {
    let mut phasor = Phasor::new(10);
    assert_eq!(phasor.process(ONE), ONE / 10);
    assert_eq!(phasor.process(ONE), 2 * (ONE / 10) + 1);
}

#[test]
fn delta_detects_wraparound() {
    let mut phasor = Phasor::new(100);
    let mut delta = Delta::new();
    let mut wraps = 0;
    for _ in 0..1000 {
        if delta.process(phasor.process(10 * ONE)) < 0 {
            wraps += 1;
        }
    }
    assert_eq!(wraps, 100);
}

#[test]
fn delta_is_the_difference_to_the_previous_input() {
    let mut delta = Delta::new();
    assert_eq!(delta.process(5), 5);
    assert_eq!(delta.process(2), -3);
    assert_eq!(delta.process(2), 0);
}
