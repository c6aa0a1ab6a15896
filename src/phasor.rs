//! Wrapping phase ramp and one-sample differencer.
use vstd::prelude::*;
use crate::approx::{clip_spec, Clip};
use crate::fixed::{fsub, is_fx, sub_spec, MAX_SAMPLE_RATE, ONE};

verus! {

broadcast use vstd::arithmetic::div_mod::lemma_mod_pos_bound;

/// Phase after `n` steps of `step` units from `acc`, on a circle of `cycle` units.
pub open spec fn phase_after(acc: int, step: int, cycle: int, n: nat) -> int {
    (acc + n * step) % cycle
}

/// A periodic ramp in `[0, 1)`. The phase is held exactly as a count of
/// `1 / (sample_rate * ONE)` turns, so the period is exact.
pub struct Phasor {
    sample_rate: u32,
    acc: u64,
}

impl Phasor {
    pub closed spec fn sample_rate(&self) -> int {
        self.sample_rate as int
    }

    /// Units in one turn of the phase.
    pub open spec fn cycle(&self) -> int {
        self.sample_rate() * ONE
    }

    /// Current phase, in units of `1 / cycle()` turns.
    pub closed spec fn acc(&self) -> int {
        self.acc as int
    }

    /// How far one call with `freq` (fixed-point hertz) moves the phase.
    pub open spec fn step_for(&self, freq: int) -> int {
        clip_spec(freq, 0, self.cycle() - 1)
    }

    pub closed spec fn wf(&self) -> bool {
        &&& 0 < self.sample_rate <= MAX_SAMPLE_RATE
        &&& self.acc < self.sample_rate * ONE
    }

    pub fn new(sample_rate: u32) -> (r: Self)
        requires
            0 < sample_rate <= MAX_SAMPLE_RATE,
        ensures
            r.wf(),
            r.sample_rate() == sample_rate,
            r.acc() == 0,
    {
        Phasor { sample_rate, acc: 0 }
    }

    /// Advances the phase by `freq / sample_rate` turns and returns it, in `[0, 1)`.
    /// Negative frequencies are taken as zero and those at or above the sample
    /// rate as just below it.
    pub fn process(&mut self, freq: i64) -> (r: i64)
        requires
            old(self).wf(),
        ensures
            final(self).wf(),
            final(self).sample_rate() == old(self).sample_rate(),
            final(self).acc() == phase_after(old(self).acc(), old(self).step_for(freq as int), old(self).cycle(), 1),
            r == final(self).acc() / final(self).sample_rate(),
            0 <= r < ONE,
    {
        let cycle = self.sample_rate as u64 * ONE as u64;
        let step = Clip::run(freq, 0, (cycle - 1) as i64) as u64;
        let next = self.acc + step;
        self.acc = if next >= cycle {
            next - cycle
        } else {
            next
        };
        proof {
            let c = cycle as int;
            assert(self.acc as int == (next as int) % c) by {
                if next >= cycle {
                    vstd::arithmetic::div_mod::lemma_mod_add_multiples_vanish(self.acc as int, c);
                    vstd::arithmetic::div_mod::lemma_small_mod(self.acc as nat, c as nat);
                } else {
                    vstd::arithmetic::div_mod::lemma_small_mod(next as nat, c as nat);
                }
            }
            assert(self.acc / (self.sample_rate as u64) < ONE) by (nonlinear_arith)
                requires
                    self.acc < (self.sample_rate as int) * ONE,
                    self.sample_rate > 0,
            ;
        }
        (self.acc / (self.sample_rate as u64)) as i64
    }
}

/// One step of the phase composes with `n` earlier steps.
pub proof fn lemma_phase_step(acc: int, step: int, cycle: int, n: nat)
    requires
        0 < cycle,
    ensures
        phase_after(phase_after(acc, step, cycle, n), step, cycle, 1) == phase_after(acc, step, cycle, n + 1),
{
    vstd::arithmetic::div_mod::lemma_add_mod_noop(acc + n * step, step, cycle);
    vstd::arithmetic::div_mod::lemma_add_mod_noop_right((acc + n * step) % cycle, step, cycle);
    assert((acc + n * step) + step == acc + (n + 1) * step) by (nonlinear_arith);
}

/// A phasor driven at `freq` hertz repeats itself every `sample_rate / freq`
/// samples: when `period` steps of `step` units make one whole turn, the phase
/// after `n + period` steps equals the phase after `n` steps.
pub proof fn lemma_phasor_period(acc: int, step: int, cycle: int, period: nat, n: nat)
    requires
        0 < cycle,
        period * step == cycle,
    ensures
        phase_after(acc, step, cycle, n + period) == phase_after(acc, step, cycle, n),
{
    assert(acc + (n + period) * step == cycle + (acc + n * step)) by (nonlinear_arith)
        requires
            period * step == cycle,
    ;
    vstd::arithmetic::div_mod::lemma_mod_add_multiples_vanish(acc + n * step, cycle);
}

proof fn lemma_trace_phase(trace: Seq<int>, step: int, cycle: int, n: int)
    requires
        0 < cycle,
        0 <= trace[0] < cycle,
        forall|i: int| 0 <= i < trace.len() - 1 ==> #[trigger] trace[i + 1] == phase_after(trace[i], step, cycle, 1),
        0 <= n < trace.len(),
    ensures
        trace[n] == phase_after(trace[0], step, cycle, n as nat),
    decreases n,
{
    if n == 0 {
        vstd::arithmetic::div_mod::lemma_small_mod(trace[0] as nat, cycle as nat);
        assert(trace[0] + (0nat) * step == trace[0]);
        assert(phase_after(trace[0], step, cycle, 0nat) == trace[0] % cycle);
    } else {
        lemma_trace_phase(trace, step, cycle, n - 1);
        let j = n - 1;
        assert(trace[j + 1] == phase_after(trace[j], step, cycle, 1));
        lemma_phase_step(trace[0], step, cycle, j as nat);
        assert((j as nat) + 1 == n as nat);
    }
}

/// The phases a phasor passes through at a fixed frequency: when each phase
/// is one step after the one before (as `Phasor::process` states), the `n`-th
/// is `n` steps after the first, and the sequence repeats every `period`
/// samples when `period` steps make one whole turn, that is every
/// `sample_rate / freq` samples.
pub proof fn lemma_phasor_trace(trace: Seq<int>, step: int, cycle: int, period: nat)
    requires
        0 < cycle,
        trace.len() > 0,
        0 <= trace[0] < cycle,
        forall|i: int| 0 <= i < trace.len() - 1 ==> #[trigger] trace[i + 1] == phase_after(trace[i], step, cycle, 1),
    ensures
        forall|n: int| 0 <= n < trace.len() ==> #[trigger] trace[n] == phase_after(trace[0], step, cycle, n as nat),
        period * step == cycle ==> forall|n: int|
            0 <= n && n + period < trace.len() ==> #[trigger] trace[n + period] == trace[n],
{
    assert forall|n: int| 0 <= n < trace.len() implies #[trigger] trace[n] == phase_after(
        trace[0],
        step,
        cycle,
        n as nat,
    ) by {
        lemma_trace_phase(trace, step, cycle, n);
    }
    if period * step == cycle {
        assert forall|n: int| 0 <= n && n + period < trace.len() implies #[trigger] trace[n + period]
            == trace[n] by {
            lemma_trace_phase(trace, step, cycle, n);
            lemma_trace_phase(trace, step, cycle, n + period);
            lemma_phasor_period(trace[0], step, cycle, period, n as nat);
        }
    }
}

/// Number of wraps (steps where the phase falls) among the first `n` steps.
pub open spec fn wrap_count(acc: int, step: int, cycle: int, n: nat) -> nat
    decreases n,
{
    if n == 0 {
        0
    } else {
        wrap_count(acc, step, cycle, (n - 1) as nat) + if phase_after(acc, step, cycle, n) < phase_after(
            acc,
            step,
            cycle,
            (n - 1) as nat,
        ) {
            1nat
        } else {
            0nat
        }
    }
}

proof fn lemma_wrap_count(acc: int, step: int, cycle: int, n: nat)
    requires
        0 <= acc < cycle,
        0 <= step < cycle,
    ensures
        wrap_count(acc, step, cycle, n) == (acc + n * step) / cycle,
    decreases n,
{
    if n == 0 {
        assert(acc + 0nat * step == acc);
        vstd::arithmetic::div_mod::lemma_fundamental_div_mod(acc, cycle);
        assert(acc / cycle == 0) by (nonlinear_arith)
            requires
                0 <= acc < cycle,
                acc == cycle * (acc / cycle) + acc % cycle,
                0 <= acc % cycle < cycle,
        ;
    } else {
        let m = (n - 1) as nat;
        lemma_wrap_count(acc, step, cycle, m);
        let x = acc + m * step;
        let y = acc + n * step;
        assert(y == x + step) by (nonlinear_arith)
            requires
                x == acc + m * step,
                y == acc + n * step,
                n == m + 1,
        ;
        vstd::arithmetic::div_mod::lemma_fundamental_div_mod(x, cycle);
        vstd::arithmetic::div_mod::lemma_fundamental_div_mod(y, cycle);
        assert(x >= 0) by (nonlinear_arith)
            requires
                x == acc + m * step,
                acc >= 0,
                step >= 0,
        ;
        let q1 = x / cycle;
        let q2 = y / cycle;
        let r1 = x % cycle;
        let r2 = y % cycle;
        assert(0 <= r1 < cycle && 0 <= r2 < cycle);
        assert(q2 == q1 || q2 == q1 + 1) by (nonlinear_arith)
            requires
                x == cycle * q1 + r1,
                y == cycle * q2 + r2,
                y == x + step,
                0 <= r1 < cycle,
                0 <= r2 < cycle,
                0 <= step < cycle,
        ;
        if q2 == q1 {
            assert(r2 >= r1) by (nonlinear_arith)
                requires
                    x == cycle * q1 + r1,
                    y == cycle * q1 + r2,
                    y == x + step,
                    step >= 0,
            ;
        } else {
            assert(r2 < r1) by (nonlinear_arith)
                requires
                    x == cycle * q1 + r1,
                    y == cycle * (q1 + 1) + r2,
                    y == x + step,
                    step < cycle,
            ;
        }
    }
}

/// Over one period of `sample_rate / freq` samples (when `period` steps make
/// one whole turn) the phase wraps exactly once, wherever it starts.
pub proof fn lemma_one_wrap_per_period(acc: int, step: int, cycle: int, period: nat)
    requires
        0 <= acc < cycle,
        0 <= step < cycle,
        period * step == cycle,
    ensures
        wrap_count(acc, step, cycle, period) == 1,
{
    lemma_wrap_count(acc, step, cycle, period);
    vstd::arithmetic::div_mod::lemma_fundamental_div_mod(acc + cycle, cycle);
    vstd::arithmetic::div_mod::lemma_mod_pos_bound(acc + cycle, cycle);
    assert((acc + cycle) / cycle == 1) by (nonlinear_arith)
        requires
            0 <= acc < cycle,
            acc + cycle == cycle * ((acc + cycle) / cycle) + (acc + cycle) % cycle,
            0 <= (acc + cycle) % cycle < cycle,
    ;
}

/// The difference between each input and the one before it.
pub struct Delta {
    z: i64,
}

impl Delta {
    pub closed spec fn previous(&self) -> int {
        self.z as int
    }

    pub closed spec fn wf(&self) -> bool {
        is_fx(self.z as int)
    }

    pub fn new() -> (r: Self)
        ensures
            r.wf(),
            r.previous() == 0,
    {
        Delta { z: 0 }
    }

    pub fn process(&mut self, input: i64) -> (r: i64)
        requires
            old(self).wf(),
            is_fx(input as int),
        ensures
            final(self).wf(),
            r == sub_spec(input as int, old(self).previous()),
            final(self).previous() == input,
    {
        let r = fsub(input, self.z);
        self.z = input;
        r
    }
}

} // verus!
