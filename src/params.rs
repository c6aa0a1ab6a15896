//! The control set of the engine and its smoothing.
use vstd::prelude::*;
use crate::fixed::{fmul, is_fx, mul_spec, MAX_SAMPLE_RATE, ONE};
use crate::smooth::LinearSmooth;

verus! {

/// Widest random pitch drift of a grain: 2 semitones.
pub const MAX_DRIFT: i64 = 33554432;

/// How fast the smoothed controls follow their targets: 12 Hz.
pub const SMOOTHING_FREQ: i64 = 201326592;

/// The controls as a host hands them over, in fixed point.
#[derive(Clone, Copy, Debug, PartialEq, Eq, Structural)]
pub struct GrainDelayParameters {
    /// Random start offset range of a grain, in milliseconds.
    pub spray: i64,
    /// Grain frequency, in hertz.
    pub frequency: i64,
    /// Pitch shift, in semitones.
    pub pitch: i64,
    /// Random pitch drift control, in `[0, 1]`.
    pub drift: i64,
    /// Probability that a grain plays backwards, in `[0, 1]`.
    pub reverse: i64,
    /// Echo time, in milliseconds.
    pub time: i64,
    /// Feedback amount, in `[0, 1)`.
    pub feedback: i64,
    /// Tone filter cutoff, in hertz.
    pub filter: i64,
    /// Stereo spread of the grains, in `[0, 1]`.
    pub spread: i64,
    /// Dry/wet balance, in `[0, 1]`.
    pub mix: i64,
}

impl GrainDelayParameters {
    pub open spec fn valid(&self) -> bool {
        &&& is_fx(self.spray as int)
        &&& is_fx(self.frequency as int)
        &&& is_fx(self.pitch as int)
        &&& is_fx(self.drift as int)
        &&& is_fx(self.reverse as int)
        &&& is_fx(self.time as int)
        &&& is_fx(self.feedback as int)
        &&& is_fx(self.filter as int)
        &&& is_fx(self.spread as int)
        &&& is_fx(self.mix as int)
    }
}

impl Default for GrainDelayParameters {
    /// Spray 2 ms, 7 Hz grains an octave up, no drift, reverse, echo time or
    /// feedback, a 5 kHz filter, no spread and an even mix.
    fn default() -> (r: Self)
        ensures
            r.valid(),
            r.spray == 2 * ONE,
            r.frequency == 7 * ONE,
            r.pitch == 12 * ONE,
            r.drift == 0,
            r.reverse == 0,
            r.time == 0,
            r.feedback == 0,
            r.filter == 5000 * ONE,
            r.spread == 0,
            r.mix == ONE / 2,
    {
        GrainDelayParameters {
            spray: 2 * ONE,
            frequency: 7 * ONE,
            pitch: 12 * ONE,
            drift: 0,
            reverse: 0,
            time: 0,
            feedback: 0,
            filter: 5000 * ONE,
            spread: 0,
            mix: ONE / 2,
        }
    }
}

/// The controls the engine reads each sample; pitch, feedback, filter and mix
/// are smoothed.
pub struct Params {
    pub spray: i64,
    pub freq: i64,
    pub pitch: LinearSmooth,
    /// The drift range in semitones: `drift^2 * MAX_DRIFT`.
    pub drift: i64,
    pub reverse: i64,
    pub time: i64,
    pub feedback: LinearSmooth,
    pub filter: LinearSmooth,
    pub spread: i64,
    pub mix: LinearSmooth,
    /// The smoothers have been given their first values.
    pub is_initialized: bool,
}

impl Params {
    pub open spec fn wf(&self) -> bool {
        &&& is_fx(self.spray as int)
        &&& is_fx(self.freq as int)
        &&& is_fx(self.drift as int)
        &&& is_fx(self.reverse as int)
        &&& is_fx(self.time as int)
        &&& is_fx(self.spread as int)
        &&& self.pitch.wf()
        &&& self.feedback.wf()
        &&& self.filter.wf()
        &&& self.mix.wf()
    }

    pub fn new(sample_rate: u32) -> (r: Self)
        requires
            0 < sample_rate <= MAX_SAMPLE_RATE,
        ensures
            r.wf(),
            !r.is_initialized,
            r.spray == 0,
            r.freq == 0,
            r.drift == 0,
            r.reverse == 0,
            r.time == 0,
            r.spread == 0,
            r.pitch.fresh(sample_rate as int, SMOOTHING_FREQ as int),
            r.feedback.fresh(sample_rate as int, SMOOTHING_FREQ as int),
            r.filter.fresh(sample_rate as int, SMOOTHING_FREQ as int),
            r.mix.fresh(sample_rate as int, SMOOTHING_FREQ as int),
    {
        Params {
            spray: 0,
            freq: 0,
            pitch: LinearSmooth::new(sample_rate, SMOOTHING_FREQ),
            drift: 0,
            reverse: 0,
            time: 0,
            feedback: LinearSmooth::new(sample_rate, SMOOTHING_FREQ),
            filter: LinearSmooth::new(sample_rate, SMOOTHING_FREQ),
            spread: 0,
            mix: LinearSmooth::new(sample_rate, SMOOTHING_FREQ),
            is_initialized: false,
        }
    }

    /// Takes new control values. The first call sets the smoothed controls
    /// at once; later calls keep their current values and start ramps
    /// towards the new ones.
    pub fn set(&mut self, values: GrainDelayParameters)
        requires
            old(self).wf(),
            values.valid(),
        ensures
            final(self).wf(),
            final(self).is_initialized,
            final(self).spray == values.spray,
            final(self).freq == values.frequency,
            final(self).drift == mul_spec(mul_spec(values.drift as int, values.drift as int), MAX_DRIFT as int),
            final(self).reverse == values.reverse,
            final(self).time == values.time,
            final(self).spread == values.spread,
            !old(self).is_initialized ==> {
                &&& old(self).pitch.was_reset(&final(self).pitch, values.pitch as int)
                &&& old(self).feedback.was_reset(&final(self).feedback, values.feedback as int)
                &&& old(self).filter.was_reset(&final(self).filter, values.filter as int)
                &&& old(self).mix.was_reset(&final(self).mix, values.mix as int)
            },
            old(self).is_initialized ==> {
                &&& old(self).pitch.retargeted(&final(self).pitch, values.pitch as int)
                &&& old(self).feedback.retargeted(&final(self).feedback, values.feedback as int)
                &&& old(self).filter.retargeted(&final(self).filter, values.filter as int)
                &&& old(self).mix.retargeted(&final(self).mix, values.mix as int)
            },
    {
        self.spray = values.spray;
        self.freq = values.frequency;
        self.drift = fmul(fmul(values.drift, values.drift), MAX_DRIFT);
        self.reverse = values.reverse;
        self.time = values.time;
        self.spread = values.spread;
        if self.is_initialized {
            self.pitch.set_target(values.pitch);
            self.feedback.set_target(values.feedback);
            self.filter.set_target(values.filter);
            self.mix.set_target(values.mix);
        } else {
            self.pitch.reset(values.pitch);
            self.feedback.reset(values.feedback);
            self.filter.reset(values.filter);
            self.mix.reset(values.mix);
            self.is_initialized = true;
        }
    }
}

} // verus!
