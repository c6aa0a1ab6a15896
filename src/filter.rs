//! The tone filter and DC blocker of the feedback path.
use vstd::prelude::*;
use crate::approx::{clip_spec, exp_spec, fast_exp, Clip};
use crate::fixed::{
    abs, add_spec, div_spec, fadd, fdiv, fmul, fsub, is_fx, mul_spec, sub_spec, MAX_SAMPLE_RATE, ONE,
    TWO_PI,
};

verus! {

/// 220.5 Hz: the corner of the DC blocker.
pub const DC_BLOCK_FREQ: i64 = 3699376128;

/// 44100 Hz: the rate a linear filter control is scaled against.
pub const REFERENCE_RATE: i64 = 739875225600;

/// How the cutoff control of the tone filter is expressed.
#[derive(Clone, Copy, PartialEq, Eq, Structural, Debug)]
pub enum Mode {
    /// A control in `[0, 1]`, where one closes the filter, scaled against 44.1 kHz.
    Linear,
    /// A cutoff frequency in hertz.
    Hertz,
}

/// The feedback coefficient `b1` of the one-pole filter.
pub open spec fn pole_spec(cutoff: int, mode: Mode, sample_rate: int) -> int {
    match mode {
        Mode::Hertz => clip_spec(
            exp_spec(sub_spec(0, div_spec(mul_spec(TWO_PI as int, cutoff), sample_rate * ONE))),
            0,
            ONE as int,
        ),
        Mode::Linear => sub_spec(
            ONE as int,
            clip_spec(
                div_spec(mul_spec(sub_spec(ONE as int, cutoff), sample_rate * ONE), REFERENCE_RATE as int),
                0,
                ONE as int,
            ),
        ),
    }
}

/// One step of a one-pole lowpass: `x * (1 - b1) + z * b1`.
pub open spec fn one_pole_spec(x: int, z: int, b1: int) -> int {
    add_spec(mul_spec(x, sub_spec(ONE as int, b1)), mul_spec(z, b1))
}

/// Two independent one-pole lowpass filters with a shared cutoff.
pub struct OnePoleFilterStereo {
    sample_rate: u32,
    z: (i64, i64),
    prev_freq: i64,
    prev_mode: Mode,
    b1: i64,
}

impl OnePoleFilterStereo {
    pub closed spec fn state(&self) -> (int, int) {
        (self.z.0 as int, self.z.1 as int)
    }

    pub closed spec fn sample_rate(&self) -> int {
        self.sample_rate as int
    }

    pub closed spec fn wf(&self) -> bool {
        &&& 0 < self.sample_rate <= MAX_SAMPLE_RATE
        &&& is_fx(self.z.0 as int)
        &&& is_fx(self.z.1 as int)
        &&& is_fx(self.prev_freq as int)
        &&& self.b1 == pole_spec(self.prev_freq as int, self.prev_mode, self.sample_rate as int)
    }

    fn pole(cutoff: i64, mode: Mode, sample_rate: u32) -> (r: i64)
        requires
            is_fx(cutoff as int),
            0 < sample_rate <= MAX_SAMPLE_RATE,
        ensures
            r == pole_spec(cutoff as int, mode, sample_rate as int),
    {
        let rate = sample_rate as i64 * ONE;
        match mode {
            Mode::Hertz => Clip::run(fast_exp(fsub(0, fdiv(fmul(TWO_PI, cutoff), rate))), 0, ONE),
            Mode::Linear => fsub(ONE, Clip::run(fdiv(fmul(fsub(ONE, cutoff), rate), REFERENCE_RATE), 0, ONE)),
        }
    }

    pub fn new(sample_rate: u32) -> (r: Self)
        requires
            0 < sample_rate <= MAX_SAMPLE_RATE,
        ensures
            r.wf(),
            r.state() == (0int, 0int),
            r.sample_rate() == sample_rate,
    {
        let b1 = Self::pole(0, Mode::Hertz, sample_rate);
        OnePoleFilterStereo { sample_rate, z: (0, 0), prev_freq: 0, prev_mode: Mode::Hertz, b1 }
    }

    /// Filters one stereo sample with cutoff `freq`, read according to `mode`.
    pub fn process(&mut self, input: (i64, i64), freq: i64, mode: Mode) -> (r: (i64, i64))
        requires
            old(self).wf(),
            is_fx(input.0 as int),
            is_fx(input.1 as int),
            is_fx(freq as int),
        ensures
            final(self).wf(),
            final(self).sample_rate() == old(self).sample_rate(),
            r.0 == one_pole_spec(input.0 as int, old(self).state().0, pole_spec(freq as int, mode, old(self).sample_rate())),
            r.1 == one_pole_spec(input.1 as int, old(self).state().1, pole_spec(freq as int, mode, old(self).sample_rate())),
            final(self).state() == (r.0 as int, r.1 as int),
    {
        if freq != self.prev_freq || mode != self.prev_mode {
            self.b1 = Self::pole(freq, mode, self.sample_rate);
            self.prev_freq = freq;
            self.prev_mode = mode;
        }
        let a0 = fsub(ONE, self.b1);
        self.z = (
            fadd(fmul(input.0, a0), fmul(self.z.0, self.b1)),
            fadd(fmul(input.1, a0), fmul(self.z.1, self.b1)),
        );
        self.z
    }
}

/// Removes a constant bias: `y = x - x[n-1] + c * y[n-1]`, `c = 1 - 220.5 / sample_rate`.
pub struct DcBlock {
    coeff: i64,
    xm1: i64,
    ym1: i64,
}

pub open spec fn dc_coeff_spec(sample_rate: int) -> int {
    sub_spec(ONE as int, div_spec(DC_BLOCK_FREQ as int, sample_rate * ONE))
}

impl DcBlock {
    pub closed spec fn coeff(&self) -> int {
        self.coeff as int
    }

    /// The previous input and output.
    pub closed spec fn memory(&self) -> (int, int) {
        (self.xm1 as int, self.ym1 as int)
    }

    pub closed spec fn wf(&self) -> bool {
        &&& is_fx(self.coeff as int)
        &&& is_fx(self.xm1 as int)
        &&& is_fx(self.ym1 as int)
    }

    pub fn new(sample_rate: u32) -> (r: Self)
        requires
            0 < sample_rate <= MAX_SAMPLE_RATE,
        ensures
            r.wf(),
            r.coeff() == dc_coeff_spec(sample_rate as int),
            r.coeff() < ONE,
            sample_rate >= 221 ==> 0 <= r.coeff(),
            r.memory() == (0int, 0int),
    {
        let rate = sample_rate as i64 * ONE;
        let ghost a = DC_BLOCK_FREQ as int * ONE as int;
        assert((2 * a + rate) / (2 * rate) >= 1) by (nonlinear_arith)
            requires
                0 < rate <= 768000 * 16777216,
                a == 3699376128 * 16777216,
        ;
        if sample_rate >= 221 {
            assert((2 * a + rate) / (2 * rate) <= ONE) by (nonlinear_arith)
                requires
                    221 * 16777216 <= rate,
                    a == 3699376128 * 16777216,
            ;
        }
        DcBlock { coeff: fsub(ONE, fdiv(DC_BLOCK_FREQ, sample_rate as i64 * ONE)), xm1: 0, ym1: 0 }
    }

    pub fn process(&mut self, x: i64) -> (r: i64)
        requires
            old(self).wf(),
            is_fx(x as int),
        ensures
            final(self).wf(),
            final(self).coeff() == old(self).coeff(),
            r == add_spec(sub_spec(x as int, old(self).memory().0), mul_spec(old(self).coeff(), old(self).memory().1)),
            final(self).memory() == (x as int, r as int),
    {
        let y = fadd(fsub(x, self.xm1), fmul(self.coeff, self.ym1));
        self.xm1 = x;
        self.ym1 = y;
        y
    }
}

/// Fed a constant input, a DC blocker (coefficient below one) moves its output
/// towards zero: from the second sample on, each output is at most as large
/// as the one before, and strictly smaller while the previous output exceeds
/// `ONE / (ONE - coeff)` units.
pub proof fn lemma_dc_block_decays(coeff: int, x: int, previous_output: int)
    requires
        0 <= coeff < ONE,
        is_fx(x),
        is_fx(previous_output),
    ensures
        ({
            let next = add_spec(sub_spec(x, x), mul_spec(coeff, previous_output));
            &&& abs(next) <= abs(previous_output)
            &&& abs(previous_output) * (ONE - coeff) >= ONE ==> abs(next) < abs(previous_output)
        }),
{
    let o = ONE as int;
    let y = previous_output;
    if y >= 0 {
        assert((2 * (coeff * y) + o) / (2 * o) <= y) by (nonlinear_arith)
            requires
                0 <= coeff < o,
                y >= 0,
                o == 16777216,
        ;
        if y * (o - coeff) >= o {
            assert((2 * (coeff * y) + o) / (2 * o) < y) by (nonlinear_arith)
                requires
                    0 <= coeff < o,
                    y * (o - coeff) >= o,
                    o == 16777216,
            ;
        }
        assert(coeff * y >= 0) by (nonlinear_arith)
            requires
                coeff >= 0,
                y >= 0,
        ;
    } else {
        assert((2 * -(coeff * y) + o) / (2 * o) <= -y) by (nonlinear_arith)
            requires
                0 <= coeff < o,
                y < 0,
                o == 16777216,
        ;
        if -y * (o - coeff) >= o {
            assert((2 * -(coeff * y) + o) / (2 * o) < -y) by (nonlinear_arith)
                requires
                    0 <= coeff < o,
                    -y * (o - coeff) >= o,
                    o == 16777216,
            ;
        }
        assert(coeff * y <= 0) by (nonlinear_arith)
            requires
                coeff >= 0,
                y < 0,
        ;
    }
}

proof fn lemma_dc_trace_step(coeff: int, x: int, outputs: Seq<int>, n: int)
    requires
        0 <= coeff < ONE,
        is_fx(x),
        outputs.len() > 0,
        is_fx(outputs[0]),
        forall|i: int|
            0 <= i < outputs.len() - 1 ==> #[trigger] outputs[i + 1] == add_spec(
                sub_spec(x, x),
                mul_spec(coeff, outputs[i]),
            ),
        0 <= n < outputs.len(),
    ensures
        is_fx(outputs[n]),
        abs(outputs[n]) <= abs(outputs[0]),
        abs(outputs[n]) * (ONE - coeff) < ONE || abs(outputs[n]) <= abs(outputs[0]) - n,
    decreases n,
{
    if n > 0 {
        let j = n - 1;
        lemma_dc_trace_step(coeff, x, outputs, j);
        assert(outputs[j + 1] == add_spec(sub_spec(x, x), mul_spec(coeff, outputs[j])));
        lemma_dc_block_decays(coeff, x, outputs[j]);
        let a = abs(outputs[j]);
        let b = abs(outputs[n]);
        if a * (ONE - coeff) < ONE {
            assert(b * (ONE - coeff) < ONE) by (nonlinear_arith)
                requires
                    0 <= b <= a,
                    a * (ONE - coeff) < ONE,
                    coeff < ONE,
            ;
        }
    }
}

/// Fed a constant input, a DC blocker (coefficient below one) drives its
/// output to zero: the output never grows, and after as many samples as the
/// first output has units it stays below `ONE / (ONE - coeff)` units
/// (`sample_rate / 220.5` units, about 1.2e-5 at 44.1 kHz).
pub proof fn lemma_dc_block_settles(coeff: int, x: int, outputs: Seq<int>)
    requires
        0 <= coeff < ONE,
        is_fx(x),
        outputs.len() > 0,
        is_fx(outputs[0]),
        forall|i: int|
            0 <= i < outputs.len() - 1 ==> #[trigger] outputs[i + 1] == add_spec(
                sub_spec(x, x),
                mul_spec(coeff, outputs[i]),
            ),
    ensures
        forall|n: int| 0 <= n < outputs.len() ==> abs(#[trigger] outputs[n]) <= abs(outputs[0]),
        forall|n: int|
            abs(outputs[0]) <= n < outputs.len() ==> abs(#[trigger] outputs[n]) * (ONE - coeff) < ONE,
{
    assert forall|n: int| 0 <= n < outputs.len() implies abs(#[trigger] outputs[n]) <= abs(outputs[0]) by {
        lemma_dc_trace_step(coeff, x, outputs, n);
    }
    assert forall|n: int| abs(outputs[0]) <= n < outputs.len() implies abs(#[trigger] outputs[n]) * (ONE
        - coeff) < ONE by {
        lemma_dc_trace_step(coeff, x, outputs, n);
        if abs(outputs[n]) <= abs(outputs[0]) - n {
            assert(abs(outputs[n]) == 0);
            assert(abs(outputs[n]) * (ONE - coeff) == 0);
        }
    }
}

} // verus!
