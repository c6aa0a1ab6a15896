//! The whole effect: echo line, grain voices, tone filter, feedback and mix.
use vstd::prelude::*;
use crate::approx::{clip_spec, mstosamps, mstosamps_spec, Clip};
use crate::delay_line::{Interpolation, MAX_CAPACITY, MIN_CAPACITY};
use crate::filter::{one_pole_spec, pole_spec, DcBlock, Mode, OnePoleFilterStereo};
use crate::fixed::{
    add_spec, div_spec, fadd, fdiv, fmul, is_fx, mul_spec, sub_spec, HALF, MAX_SAMPLE_RATE, ONE,
};
use crate::grain::{MAX_SPRAY, MIN_GRAIN_FREQ, SECOND_MS};
use crate::grains::{count_active, Grains};
use crate::mix::{gains_spec, Mix};
use crate::params::Params;
use crate::variable_delay_line::VariableDelayLine;

verus! {

/// Longest echo time, in seconds.
pub const MAX_ECHO_SECONDS: usize = 5;

/// Why a sample rate cannot be used.
#[derive(Clone, Copy, PartialEq, Eq, Structural, Debug)]
pub enum SampleRateError {
    Zero,
    TooHigh,
}

/// The mono sum of a stereo sample: `(left + right) / 2`.
pub open spec fn mono(sample: (int, int)) -> int {
    mul_spec(add_spec(sample.0, sample.1), HALF as int)
}

/// What enters the DC blocker of the feedback path.
pub open spec fn feedback_spec(filtered: (int, int), feedback: int) -> int {
    clip_spec(mul_spec(mono(filtered), feedback), -ONE as int, ONE as int)
}

/// The granular delay engine.
pub struct GrainDelay {
    variable_delay_line: VariableDelayLine,
    low_pass_filter: OnePoleFilterStereo,
    grains: Grains,
    dc_block: DcBlock,
    mix: Mix,
    sample_rate: u32,
}

impl GrainDelay {
    pub closed spec fn echo(&self) -> VariableDelayLine {
        self.variable_delay_line
    }

    pub closed spec fn grains(&self) -> Grains {
        self.grains
    }

    pub closed spec fn filter(&self) -> OnePoleFilterStereo {
        self.low_pass_filter
    }

    pub closed spec fn dc_block(&self) -> DcBlock {
        self.dc_block
    }

    pub closed spec fn mixer(&self) -> Mix {
        self.mix
    }

    pub closed spec fn sample_rate(&self) -> int {
        self.sample_rate as int
    }

    pub closed spec fn wf(&self) -> bool {
        &&& 0 < self.sample_rate <= MAX_SAMPLE_RATE
        &&& self.variable_delay_line.wf()
        &&& self.low_pass_filter.wf()
        &&& self.low_pass_filter.sample_rate() == self.sample_rate
        &&& self.grains.wf()
        &&& self.dc_block.wf()
        &&& self.mix.wf()
    }

    /// Cells of the grain buffer: the longest grain window (at the lowest grain
    /// frequency) plus the longest spray, and two samples of margin.
    pub open spec fn grain_buffer_length_spec(sample_rate: int) -> int {
        let samples = mstosamps_spec(
            add_spec(div_spec(SECOND_MS as int, MIN_GRAIN_FREQ as int), MAX_SPRAY as int),
            sample_rate,
        );
        let whole = if samples >= 0 { samples / (ONE as int) } else { 0 };
        clip_spec(whole + 3, MIN_CAPACITY as int, MAX_CAPACITY as int)
    }

    /// Cells of the echo line: five seconds and two samples of margin.
    pub open spec fn echo_length_spec(sample_rate: int) -> int {
        sample_rate * MAX_ECHO_SECONDS + 2
    }

    /// The state of a new engine: silent buffers, no voice playing, the echo
    /// line not yet read, filters at rest and the mix at zero.
    pub open spec fn fresh(&self, sample_rate: int) -> bool {
        &&& self.wf()
        &&& self.sample_rate() == sample_rate
        &&& self.echo().line().capacity() == Self::echo_length_spec(sample_rate)
        &&& self.echo().line().sample_rate() == sample_rate
        &&& self.echo().line().history() == Seq::new(self.echo().line().capacity(), |i: int| 0i64)
        &&& !self.echo().started()
        &&& !self.echo().ramp().active()
        &&& self.grains().line().capacity() == Self::grain_buffer_length_spec(sample_rate)
        &&& self.grains().line().sample_rate() == sample_rate
        &&& self.grains().line().history() == Seq::new(self.grains().line().capacity(), |i: int| 0i64)
        &&& count_active(self.grains().voices()) == 0
        &&& self.filter().state() == (0int, 0int)
        &&& self.filter().sample_rate() == sample_rate
        &&& self.dc_block().memory() == (0int, 0int)
        &&& self.dc_block().coeff() == crate::filter::dc_coeff_spec(sample_rate)
        &&& self.mixer().mix() == 0
    }

    fn grain_buffer_length(sample_rate: u32) -> (r: usize)
        requires
            0 < sample_rate <= MAX_SAMPLE_RATE,
        ensures
            MIN_CAPACITY <= r <= MAX_CAPACITY,
            r == Self::grain_buffer_length_spec(sample_rate as int),
    {
        let longest_ms = fadd(fdiv(SECOND_MS, MIN_GRAIN_FREQ), MAX_SPRAY);
        let samples = mstosamps(longest_ms, sample_rate);
        let whole = if samples >= 0 {
            samples / ONE
        } else {
            0
        };
        Clip::run(whole + 3, MIN_CAPACITY as i64, MAX_CAPACITY as i64) as usize
    }

    fn build(sample_rate: u32, rng: fastrand::Rng) -> (r: Self)
        requires
            0 < sample_rate <= MAX_SAMPLE_RATE,
        ensures
            r.fresh(sample_rate as int),
    {
        let echo_length = sample_rate as usize * MAX_ECHO_SECONDS + 2;
        GrainDelay {
            variable_delay_line: VariableDelayLine::new(echo_length, sample_rate),
            low_pass_filter: OnePoleFilterStereo::new(sample_rate),
            grains: Grains::new(sample_rate, Self::grain_buffer_length(sample_rate), rng),
            dc_block: DcBlock::new(sample_rate),
            mix: Mix::new(),
            sample_rate,
        }
    }

    /// An engine for `sample_rate` hertz whose grains draw from a generator
    /// seeded by `seed`, so that its output is reproducible.
    pub fn with_seed(sample_rate: u32, seed: u64) -> (r: Result<Self, SampleRateError>)
        ensures
            sample_rate == 0 <==> r == Err::<Self, SampleRateError>(SampleRateError::Zero),
            sample_rate > MAX_SAMPLE_RATE <==> r == Err::<Self, SampleRateError>(SampleRateError::TooHigh),
            r matches Ok(g) ==> g.fresh(sample_rate as int),
    {
        if sample_rate == 0 {
            Err(SampleRateError::Zero)
        } else if sample_rate > MAX_SAMPLE_RATE {
            Err(SampleRateError::TooHigh)
        } else {
            Ok(Self::build(sample_rate, fastrand::Rng::with_seed(seed)))
        }
    }

    /// An engine for `sample_rate` hertz with a freshly seeded generator.
    pub fn new(sample_rate: u32) -> (r: Result<Self, SampleRateError>)
        ensures
            sample_rate == 0 <==> r == Err::<Self, SampleRateError>(SampleRateError::Zero),
            sample_rate > MAX_SAMPLE_RATE <==> r == Err::<Self, SampleRateError>(SampleRateError::TooHigh),
            r matches Ok(g) ==> g.fresh(sample_rate as int),
    {
        if sample_rate == 0 {
            Err(SampleRateError::Zero)
        } else if sample_rate > MAX_SAMPLE_RATE {
            Err(SampleRateError::TooHigh)
        } else {
            Ok(Self::build(sample_rate, fastrand::Rng::new()))
        }
    }

    fn apply_feedback(&mut self, input: (i64, i64), feedback: i64) -> (r: i64)
        requires
            old(self).dc_block.wf(),
            is_fx(input.0 as int),
            is_fx(input.1 as int),
            is_fx(feedback as int),
        ensures
            final(self).dc_block.wf(),
            final(self).dc_block.coeff() == old(self).dc_block.coeff(),
            final(self).dc_block.memory() == (
                feedback_spec((input.0 as int, input.1 as int), feedback as int),
                r as int,
            ),
            r == add_spec(
                sub_spec(
                    feedback_spec((input.0 as int, input.1 as int), feedback as int),
                    old(self).dc_block.memory().0,
                ),
                mul_spec(old(self).dc_block.coeff(), old(self).dc_block.memory().1),
            ),
            final(self).variable_delay_line == old(self).variable_delay_line,
            final(self).low_pass_filter == old(self).low_pass_filter,
            final(self).grains == old(self).grains,
            final(self).mix == old(self).mix,
            final(self).sample_rate == old(self).sample_rate,
    {
        let mono_input = fmul(fadd(input.0, input.1), HALF);
        let feedback_out = fmul(mono_input, feedback);
        self.dc_block.process(Clip::run(feedback_out, -ONE, ONE))
    }

    /// Runs one sample. The smoothed controls advance one step; the echo tap
    /// at the echo time feeds the grain buffer; the grain voices are filtered;
    /// the filtered mono sum times the feedback amount, clamped to `[-1, 1]`
    /// and DC-blocked, is added to `input` and written into the echo line; the
    /// output is the equal-power mix of `input` and the filtered grains.
    pub fn process(&mut self, input: i64, params: &mut Params) -> (r: (i64, i64))
        requires
            old(self).wf(),
            old(params).wf(),
            is_fx(input as int),
        ensures
            final(self).wf(),
            final(params).wf(),
            final(self).sample_rate() == old(self).sample_rate(),
            old(params).pitch.stepped(&final(params).pitch),
            old(params).feedback.stepped(&final(params).feedback),
            old(params).filter.stepped(&final(params).filter),
            old(params).mix.stepped(&final(params).mix),
            final(params).spray == old(params).spray,
            final(params).freq == old(params).freq,
            final(params).drift == old(params).drift,
            final(params).reverse == old(params).reverse,
            final(params).time == old(params).time,
            final(params).spread == old(params).spread,
            final(params).is_initialized == old(params).is_initialized,
            final(self).grains().line().history() == old(self).grains().line().history().push(
                old(self).echo().tap(old(params).time as int, Interpolation::Step) as i64,
            ),
            Grains::advanced(
                &old(self).grains(),
                &final(self).grains(),
                old(self).echo().tap(old(params).time as int, Interpolation::Step),
                old(params).spray as int,
                old(params).freq as int,
                final(params).pitch.current(),
                old(params).drift as int,
                old(params).spread as int,
            ),
            final(self).filter().state() == (
                one_pole_spec(
                    Grains::mixdown(&old(self).grains(), &final(self).grains(), final(params).pitch.current()).0,
                    old(self).filter().state().0,
                    pole_spec(final(params).filter.current(), Mode::Hertz, old(self).filter().sample_rate()),
                ),
                one_pole_spec(
                    Grains::mixdown(&old(self).grains(), &final(self).grains(), final(params).pitch.current()).1,
                    old(self).filter().state().1,
                    pole_spec(final(params).filter.current(), Mode::Hertz, old(self).filter().sample_rate()),
                ),
            ),
            final(self).dc_block().memory().0 == feedback_spec(
                final(self).filter().state(),
                final(params).feedback.current(),
            ),
            final(self).dc_block().memory().1 == add_spec(
                sub_spec(final(self).dc_block().memory().0, old(self).dc_block().memory().0),
                mul_spec(old(self).dc_block().coeff(), old(self).dc_block().memory().1),
            ),
            final(self).echo().line().history() == old(self).echo().line().history().push(
                add_spec(input as int, final(self).dc_block().memory().1) as i64,
            ),
            r.0 == add_spec(
                mul_spec(input as int, gains_spec(final(params).mix.current()).0),
                mul_spec(final(self).filter().state().0, gains_spec(final(params).mix.current()).1),
            ),
            r.1 == add_spec(
                mul_spec(input as int, gains_spec(final(params).mix.current()).0),
                mul_spec(final(self).filter().state().1, gains_spec(final(params).mix.current()).1),
            ),
    {
        let pitch = params.pitch.next();
        let feedback = params.feedback.next();
        let filter = params.filter.next();
        let mix = params.mix.next();
        let delay_out = self.variable_delay_line.read(params.time, Interpolation::Step);
        let grain_out = self.grains.process(
            delay_out,
            params.spray,
            params.freq,
            pitch,
            params.drift,
            params.reverse,
            params.spread,
        );
        let filter_out = self.low_pass_filter.process(grain_out, filter, Mode::Hertz);
        let feedback_out = self.apply_feedback(filter_out, feedback);
        self.variable_delay_line.write(fadd(input, feedback_out));
        self.mix.process(input, filter_out, mix)
    }
}

} // verus!
