//! One grain voice: a windowed, panned, pitch-shifted read of the grain buffer.
use vstd::prelude::*;
use crate::approx::{
    clip_spec, fast_sin_bhaskara, semitone_ratio, semitone_ratio_spec, sin_bhaskara_spec, Clip,
};
use crate::delay_line::{DelayLine, Interpolation};
use crate::fixed::{
    abs, add_spec, div_round, div_spec, fadd, fdiv, fmul, fsub, is_fx, mul_spec, sub_spec, MAX_SAMPLE_RATE,
    ONE,
};
use crate::mix::{pan, pan_spec};

verus! {

/// Lowest grain frequency: 1 Hz.
pub const MIN_GRAIN_FREQ: i64 = 16777216;

/// Highest grain frequency: 1000 Hz.
pub const MAX_GRAIN_FREQ: i64 = 16777216000;

/// Longest random start offset: 500 ms.
pub const MAX_SPRAY: i64 = 8388608000;

/// One second, in milliseconds.
pub const SECOND_MS: i64 = 16777216000;

/// Widest pan position (hard right): 50.
pub const PAN_RANGE: i64 = 838860800;

/// Below this distance (0.001) between the playback ratio and one, a forward
/// grain does not shift pitch.
pub const SPEED_EPSILON: i64 = 16777;

/// Four uniform draws in `[0, 1)` that randomise one grain.
#[derive(Clone, Copy, Debug)]
pub struct GrainDraws {
    pub start: i64,
    pub pan: i64,
    pub reverse: i64,
    pub drift: i64,
}

impl GrainDraws {
    pub open spec fn valid(&self) -> bool {
        &&& 0 <= self.start < ONE
        &&& 0 <= self.pan < ONE
        &&& 0 <= self.reverse < ONE
        &&& 0 <= self.drift < ONE
    }
}

/// A grain voice. It is free until triggered, then plays one activation of its
/// time ramp and becomes free again.
#[derive(Clone, Copy)]
pub struct Grain {
    sample_rate: u32,
    freq: i64,
    drift: i64,
    start_position: i64,
    pan: i64,
    window_size: i64,
    is_reversed: bool,
    is_active: bool,
    armed: bool,
    descending: bool,
    x: i64,
}

impl Grain {
    pub closed spec fn is_active(&self) -> bool {
        self.is_active
    }

    /// Triggered, with the ramp not yet placed at its starting bound.
    pub closed spec fn armed(&self) -> bool {
        self.armed
    }

    /// The ramp runs from one down to zero.
    pub closed spec fn descending(&self) -> bool {
        self.descending
    }

    /// The ramp position, in `[0, 1]`.
    pub closed spec fn position(&self) -> int {
        self.x as int
    }

    pub closed spec fn sample_rate(&self) -> int {
        self.sample_rate as int
    }

    pub closed spec fn base_freq(&self) -> int {
        self.freq as int
    }

    pub closed spec fn pitch_drift(&self) -> int {
        self.drift as int
    }

    pub closed spec fn start_offset(&self) -> int {
        self.start_position as int
    }

    pub closed spec fn pan_position(&self) -> int {
        self.pan as int
    }

    pub closed spec fn window_size(&self) -> int {
        self.window_size as int
    }

    pub closed spec fn reversed(&self) -> bool {
        self.is_reversed
    }

    /// How much ramp is left before the activation ends.
    pub open spec fn remaining(&self) -> int {
        if self.descending() {
            self.position()
        } else {
            ONE - self.position()
        }
    }

    /// The parameters of an activation lie where every draw puts them: the
    /// window lasts one period of the grain frequency, the start offset is
    /// within the spray, the pan within the spread and the drift within its range.
    pub open spec fn fresh_within(&self, spray: int, drift: int, spread: int) -> bool {
        &&& MIN_GRAIN_FREQ <= self.base_freq() <= MAX_GRAIN_FREQ
        &&& self.window_size() == div_spec(SECOND_MS as int, self.base_freq())
        &&& 0 <= self.start_offset() <= clip_spec(spray, 0, MAX_SPRAY as int)
        &&& abs(self.pan_position()) <= mul_spec(clip_spec(spread, 0, ONE as int), PAN_RANGE as int)
        &&& abs(self.pitch_drift()) <= abs(drift)
    }

    /// Same sample rate and same per-activation parameters.
    pub open spec fn same_parameters(&self, other: &Grain) -> bool {
        &&& self.sample_rate() == other.sample_rate()
        &&& self.base_freq() == other.base_freq()
        &&& self.pitch_drift() == other.pitch_drift()
        &&& self.start_offset() == other.start_offset()
        &&& self.pan_position() == other.pan_position()
        &&& self.window_size() == other.window_size()
        &&& self.reversed() == other.reversed()
    }

    pub closed spec fn wf(&self) -> bool {
        &&& 0 < self.sample_rate <= MAX_SAMPLE_RATE
        &&& MIN_GRAIN_FREQ <= self.freq <= MAX_GRAIN_FREQ
        &&& is_fx(self.drift as int)
        &&& is_fx(self.start_position as int)
        &&& is_fx(self.pan as int)
        &&& is_fx(self.window_size as int)
        &&& 0 <= self.x <= ONE
        &&& self.armed ==> self.is_active
        &&& self.is_active && !self.armed ==> if self.descending {
            self.x > 0
        } else {
            self.x < ONE
        }
    }

    /// Playback-rate ratio for `pitch` semitones plus this grain's drift.
    pub open spec fn speed(&self, pitch: int) -> int {
        semitone_ratio_spec(add_spec(pitch, self.pitch_drift()))
    }

    /// Frequency of the time ramp; its sign gives the direction.
    pub open spec fn ramp_freq(&self, pitch: int) -> int {
        if self.reversed() {
            mul_spec(add_spec(ONE as int, self.speed(pitch)), self.base_freq())
        } else {
            mul_spec(sub_spec(ONE as int, self.speed(pitch)), self.base_freq())
        }
    }

    /// A forward grain at (nearly) unit speed: its ramp would stall, so it runs
    /// at the grain frequency and reads without a pitch offset.
    pub open spec fn degenerate(&self, pitch: int) -> bool {
        !self.reversed() && -SPEED_EPSILON < sub_spec(ONE as int, self.speed(pitch)) < SPEED_EPSILON
    }

    /// How far the ramp moves in one sample; at least one unit.
    pub open spec fn step(&self, pitch: int) -> int {
        let f = if self.degenerate(pitch) {
            self.base_freq()
        } else if self.ramp_freq(pitch) < 0 {
            -self.ramp_freq(pitch)
        } else {
            self.ramp_freq(pitch)
        };
        let s = div_round(f, self.sample_rate());
        if s < 1 {
            1
        } else {
            s
        }
    }

    /// The ramp position after one step.
    pub open spec fn advanced(&self, pitch: int) -> int {
        if self.descending() {
            if self.position() - self.step(pitch) <= 0 {
                0
            } else {
                self.position() - self.step(pitch)
            }
        } else {
            if self.position() + self.step(pitch) >= ONE {
                ONE as int
            } else {
                self.position() + self.step(pitch)
            }
        }
    }

    /// Raised half-sine window at the current position.
    pub open spec fn window(&self) -> int {
        sin_bhaskara_spec(2 * self.position())
    }

    /// Where in the grain buffer (milliseconds ago) the grain reads.
    pub open spec fn read_time(&self, pitch: int) -> int {
        if self.degenerate(pitch) {
            self.start_offset()
        } else {
            add_spec(mul_spec(self.position(), self.window_size()), self.start_offset())
        }
    }

    /// The stereo sample of an active grain.
    pub open spec fn output(&self, line: &DelayLine, pitch: int) -> (int, int) {
        let sample = line.time_read(self.read_time(pitch), Interpolation::Linear);
        pan_spec(mul_spec(mul_spec(sample, self.window()), self.window()), self.pan_position())
    }

    /// How one sample of playback moves a grain from `self` to `next`.
    pub open spec fn stepped(&self, next: &Grain, pitch: int) -> bool {
        &&& next.same_parameters(self)
        &&& !self.is_active() ==> *next == *self
        &&& self.is_active() && self.armed() ==> {
            &&& next.is_active()
            &&& !next.armed()
            &&& next.descending() == (!self.degenerate(pitch) && self.ramp_freq(pitch) < 0)
            &&& next.position() == if next.descending() { ONE as int } else { 0 }
        }
        &&& self.is_active() && !self.armed() ==> {
            &&& !next.armed()
            &&& next.descending() == self.descending()
            &&& next.position() == self.advanced(pitch)
            &&& next.is_active() == (0 < next.position() < ONE)
            &&& next.remaining() < self.remaining()
        }
    }

    /// A free grain for the given sample rate.
    pub fn new(sample_rate: u32) -> (r: Self)
        requires
            0 < sample_rate <= MAX_SAMPLE_RATE,
        ensures
            r.wf(),
            !r.is_active(),
            r.sample_rate() == sample_rate,
    {
        Grain {
            sample_rate,
            freq: MIN_GRAIN_FREQ,
            drift: 0,
            start_position: 0,
            pan: 0,
            window_size: 0,
            is_reversed: false,
            is_active: false,
            armed: false,
            descending: false,
            x: 0,
        }
    }

    pub fn is_free(&self) -> (r: bool)
        ensures
            r == !self.is_active(),
    {
        !self.is_active
    }

    /// Triggers a free grain: draws its start offset, pan, direction and pitch
    /// drift from `draws` and arms its time ramp.
    pub fn set_parameters(
        &mut self,
        freq: i64,
        spray: i64,
        drift: i64,
        reverse: i64,
        spread: i64,
        draws: GrainDraws,
    )
        requires
            old(self).wf(),
            !old(self).is_active(),
            draws.valid(),
            is_fx(freq as int),
            is_fx(spray as int),
            is_fx(drift as int),
            is_fx(reverse as int),
            is_fx(spread as int),
        ensures
            final(self).wf(),
            final(self).is_active(),
            final(self).armed(),
            final(self).sample_rate() == old(self).sample_rate(),
            final(self).base_freq() == clip_spec(freq as int, MIN_GRAIN_FREQ as int, MAX_GRAIN_FREQ as int),
            final(self).window_size() == div_spec(SECOND_MS as int, final(self).base_freq()),
            final(self).start_offset() == mul_spec(draws.start as int, clip_spec(spray as int, 0, MAX_SPRAY as int)),
            final(self).pan_position() == mul_spec(
                sub_spec(2 * draws.pan, ONE as int),
                mul_spec(clip_spec(spread as int, 0, ONE as int), PAN_RANGE as int),
            ),
            final(self).reversed() == (draws.reverse <= reverse),
            final(self).pitch_drift() == mul_spec(sub_spec(2 * draws.drift, ONE as int), drift as int),
            final(self).fresh_within(spray as int, drift as int, spread as int),
    {
        proof {
            crate::fixed::lemma_mul_shrinks(draws.start as int, clip_spec(spray as int, 0, MAX_SPRAY as int));
            crate::fixed::lemma_mul_shrinks(
                sub_spec(2 * draws.pan, ONE as int),
                mul_spec(clip_spec(spread as int, 0, ONE as int), PAN_RANGE as int),
            );
            crate::fixed::lemma_mul_shrinks(sub_spec(2 * draws.drift, ONE as int), drift as int);
            crate::fixed::lemma_mul_shrinks(clip_spec(spread as int, 0, ONE as int), PAN_RANGE as int);
        }
        let freq = Clip::run(freq, MIN_GRAIN_FREQ, MAX_GRAIN_FREQ);
        self.freq = freq;
        self.window_size = fdiv(SECOND_MS, freq);
        self.start_position = fmul(draws.start, Clip::run(spray, 0, MAX_SPRAY));
        self.pan = fmul(fsub(2 * draws.pan, ONE), fmul(Clip::run(spread, 0, ONE), PAN_RANGE));
        self.is_reversed = draws.reverse <= reverse;
        self.drift = fmul(fsub(2 * draws.drift, ONE), drift);
        self.is_active = true;
        self.armed = true;
        self.descending = false;
        self.x = 0;
    }

    /// Advances an active grain by one sample and returns its panned output;
    /// a free grain stays as it is and is silent.
    pub fn process(&mut self, grain_delay_line: &DelayLine, pitch: i64) -> (r: (i64, i64))
        requires
            old(self).wf(),
            grain_delay_line.wf(),
            is_fx(pitch as int),
        ensures
            final(self).wf(),
            old(self).stepped(final(self), pitch as int),
            !old(self).is_active() ==> r == (0i64, 0i64),
            old(self).is_active() ==> r.0 == final(self).output(grain_delay_line, pitch as int).0
                && r.1 == final(self).output(grain_delay_line, pitch as int).1,
    {
        if !self.is_active {
            return (0, 0);
        }
        let speed = semitone_ratio(fadd(pitch, self.drift));
        let ramp_freq = if self.is_reversed {
            fmul(fadd(ONE, speed), self.freq)
        } else {
            fmul(fsub(ONE, speed), self.freq)
        };
        let distance = fsub(ONE, speed);
        let degenerate = !self.is_reversed && -SPEED_EPSILON < distance && distance < SPEED_EPSILON;
        if self.armed {
            self.descending = !degenerate && ramp_freq < 0;
            self.x = if self.descending {
                ONE
            } else {
                0
            };
            self.armed = false;
        } else {
            let f = if degenerate {
                self.freq
            } else if ramp_freq < 0 {
                -ramp_freq
            } else {
                ramp_freq
            };
            let sr = self.sample_rate as i64;
            let s = (2 * f + sr) / (2 * sr);
            let step = if s < 1 {
                1
            } else {
                s
            };
            if self.descending {
                if self.x - step <= 0 {
                    self.x = 0;
                    self.is_active = false;
                } else {
                    self.x = self.x - step;
                }
            } else {
                if self.x + step >= ONE {
                    self.x = ONE;
                    self.is_active = false;
                } else {
                    self.x = self.x + step;
                }
            }
        }
        let window = fast_sin_bhaskara(2 * self.x);
        let read_time = if degenerate {
            self.start_position
        } else {
            fadd(fmul(self.x, self.window_size), self.start_position)
        };
        let sample = grain_delay_line.read(read_time, Interpolation::Linear);
        pan(fmul(fmul(sample, window), window), self.pan)
    }
}

/// How many more samples an activation can last at most.
pub open spec fn activation_bound(g: Grain) -> int {
    if !g.is_active() {
        0
    } else if g.armed() {
        ONE + 1
    } else {
        g.remaining()
    }
}

proof fn lemma_trace_bound(trace: Seq<Grain>, pitches: Seq<int>, i: int)
    requires
        pitches.len() == trace.len() - 1,
        forall|j: int| 0 <= j < trace.len() ==> (#[trigger] trace[j]).wf(),
        forall|j: int| 0 <= j < trace.len() - 1 ==> #[trigger] trace[j].stepped(&trace[j + 1], pitches[j]),
        0 <= i < trace.len(),
    ensures
        trace[i].is_active() ==> activation_bound(trace[i]) <= activation_bound(trace[0]) - i,
        trace[i].is_active() ==> activation_bound(trace[i]) >= 1,
        !trace[0].is_active() ==> trace[i] == trace[0],
    decreases i,
{
    if i > 0 {
        lemma_trace_bound(trace, pitches, i - 1);
        let j = i - 1;
        assert(trace[j].stepped(&trace[j + 1], pitches[j]));
        assert(trace[j + 1] == trace[i]);
    }
}

/// A triggered grain played sample by sample is free again after at most
/// `ONE + 2` samples, and a free grain stays free and unchanged until it is
/// triggered again: one activation per trigger.
pub proof fn lemma_one_activation_per_trigger(trace: Seq<Grain>, pitches: Seq<int>)
    requires
        trace.len() == ONE + 3,
        pitches.len() == trace.len() - 1,
        forall|j: int| 0 <= j < trace.len() ==> (#[trigger] trace[j]).wf(),
        forall|j: int| 0 <= j < trace.len() - 1 ==> #[trigger] trace[j].stepped(&trace[j + 1], pitches[j]),
    ensures
        !trace[trace.len() - 1].is_active(),
        forall|i: int, j: int|
            0 <= i <= j < trace.len() && !(#[trigger] trace[i]).is_active() ==> #[trigger] trace[j] == trace[i],
{
    lemma_trace_bound(trace, pitches, trace.len() - 1);
    assert forall|i: int, j: int|
        0 <= i <= j < trace.len() && !(#[trigger] trace[i]).is_active() implies #[trigger] trace[j]
        == trace[i] by {
        let rest = trace.subrange(i, trace.len() as int);
        let rest_pitches = pitches.subrange(i, pitches.len() as int);
        assert forall|k: int| 0 <= k < rest.len() - 1 implies #[trigger] rest[k].stepped(
            &rest[k + 1],
            rest_pitches[k],
        ) by {
            assert(trace[i + k].stepped(&trace[i + k + 1], pitches[i + k]));
        }
        lemma_trace_bound(rest, rest_pitches, j - i);
    }
}

} // verus!
