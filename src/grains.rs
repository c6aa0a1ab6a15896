//! The voice pool: schedules grain triggers and sums the active voices.
use vstd::prelude::*;
use crate::approx::{clip_spec, Clip};
use crate::delay_line::DelayLine;
use crate::fixed::{add_spec, fadd, fmul, is_fx, mul_spec, sub_spec, MAX_SAMPLE_RATE, ONE};
use crate::grain::{Grain, MAX_GRAIN_FREQ, MIN_GRAIN_FREQ};
use crate::phasor::{phase_after, Delta, Phasor};
use crate::random::draw_grain;

verus! {

/// Number of grain voices.
pub const VOICES: usize = 4;

/// Scale of the voice sum: `2 / VOICES`, since the squared windows of
/// `VOICES` evenly staggered grains add up to `VOICES / 2`.
pub const GAIN_CORRECTION: i64 = 8388608;

/// Which voices are free.
pub open spec fn free_flags(voices: Seq<Grain>) -> Seq<bool> {
    voices.map_values(|g: Grain| !g.is_active())
}

/// The first free voice at offsets `j, j + 1, ..., n` after `last`, in round-robin order.
pub open spec fn pick_from(free: Seq<bool>, last: int, j: int) -> Option<int>
    decreases free.len() + 1 - j,
{
    if j < 1 || j > free.len() {
        None
    } else if free[(last + j) % (free.len() as int)] {
        Some((last + j) % (free.len() as int))
    } else {
        pick_from(free, last, j + 1)
    }
}

/// The voice a trigger goes to: the first free one after `last`, if any.
pub open spec fn next_free(free: Seq<bool>, last: int) -> Option<int> {
    pick_from(free, last, 1)
}

/// Number of active voices.
pub open spec fn count_active(voices: Seq<Grain>) -> nat
    decreases voices.len(),
{
    if voices.len() == 0 {
        0
    } else {
        count_active(voices.drop_last()) + if voices.last().is_active() {
            1nat
        } else {
            0nat
        }
    }
}

pub proof fn lemma_count_active_bounded(voices: Seq<Grain>)
    ensures
        count_active(voices) <= voices.len(),
    decreases voices.len(),
{
    if voices.len() > 0 {
        lemma_count_active_bounded(voices.drop_last());
    }
}

/// A voice pool never has more than `VOICES` voices playing.
pub proof fn lemma_active_voices_bounded(pool: &Grains)
    requires
        pool.wf(),
    ensures
        count_active(pool.voices()) <= VOICES,
{
    lemma_count_active_bounded(pool.voices());
}

/// What one voice adds to the mix: its output if it plays this sample.
pub open spec fn voice_output(g: Grain, playing: bool, line: DelayLine, pitch: int) -> (int, int) {
    if playing {
        g.output(&line, pitch)
    } else {
        (0, 0)
    }
}

/// Saturating sum of stereo samples.
pub open spec fn sum_pairs(outs: Seq<(int, int)>) -> (int, int)
    decreases outs.len(),
{
    if outs.len() == 0 {
        (0, 0)
    } else {
        let rest = sum_pairs(outs.drop_last());
        (add_spec(rest.0, outs.last().0), add_spec(rest.1, outs.last().1))
    }
}

/// A fixed set of grain voices reading one shared grain buffer.
pub struct Grains {
    grain_delay_line: DelayLine,
    phasor: Phasor,
    delta: Delta,
    grains: Vec<Grain>,
    index: usize,
    sample_rate: u32,
    rng: fastrand::Rng,
}

impl Grains {
    pub closed spec fn voices(&self) -> Seq<Grain> {
        self.grains@
    }

    /// The voice that took the latest trigger.
    pub closed spec fn last_assigned(&self) -> int {
        self.index as int
    }

    pub closed spec fn line(&self) -> DelayLine {
        self.grain_delay_line
    }

    pub closed spec fn phasor(&self) -> Phasor {
        self.phasor
    }

    pub closed spec fn delta(&self) -> Delta {
        self.delta
    }

    pub closed spec fn sample_rate(&self) -> int {
        self.sample_rate as int
    }

    pub closed spec fn wf(&self) -> bool {
        &&& 0 < self.sample_rate <= MAX_SAMPLE_RATE
        &&& self.grain_delay_line.wf()
        &&& self.phasor.wf()
        &&& self.delta.wf()
        &&& self.grains@.len() == VOICES
        &&& self.index < VOICES
        &&& forall|i: int|
            0 <= i < VOICES ==> (#[trigger] self.grains@[i]).wf() && self.grains@[i].sample_rate()
                == self.sample_rate
    }

    /// A pool of free voices over a silent grain buffer of `length` cells.
    pub fn new(sample_rate: u32, length: usize, rng: fastrand::Rng) -> (r: Self)
        requires
            0 < sample_rate <= MAX_SAMPLE_RATE,
            crate::delay_line::MIN_CAPACITY <= length <= crate::delay_line::MAX_CAPACITY,
        ensures
            r.wf(),
            r.sample_rate() == sample_rate,
            r.line().capacity() == length,
            r.line().sample_rate() == sample_rate,
            r.line().history() == Seq::new(length as nat, |i: int| 0i64),
            count_active(r.voices()) == 0,
    {
        let mut grains: Vec<Grain> = Vec::with_capacity(VOICES);
        let mut i: usize = 0;
        while i < VOICES
            invariant
                0 < sample_rate <= MAX_SAMPLE_RATE,
                i <= VOICES,
                grains@.len() == i,
                forall|j: int|
                    0 <= j < i ==> (#[trigger] grains@[j]).wf() && !grains@[j].is_active()
                        && grains@[j].sample_rate() == sample_rate,
            decreases VOICES - i,
        {
            grains.push(Grain::new(sample_rate));
            i = i + 1;
        }
        let r = Grains {
            grain_delay_line: DelayLine::new(length, sample_rate),
            phasor: Phasor::new(sample_rate),
            delta: Delta::new(),
            grains,
            index: 0,
            sample_rate,
            rng,
        };
        proof {
            lemma_no_active(r.grains@);
        }
        r
    }

    /// The voice a trigger goes to, when there is one.
    pub open spec fn picked(&self, trigger: bool) -> Option<int> {
        if trigger {
            next_free(free_flags(self.voices()), self.last_assigned())
        } else {
            None
        }
    }

    /// The trigger phasor wrapped between `before` and `after`.
    pub open spec fn wrapped(before: &Grains, after: &Grains) -> bool {
        sub_spec(after.phasor().acc() / after.phasor().sample_rate(), before.delta().previous()) < 0
    }

    /// The voice that took a trigger between `before` and `after`, if any.
    pub open spec fn scheduled(before: &Grains, after: &Grains) -> Option<int> {
        before.picked(Self::wrapped(before, after))
    }

    /// The pool's output for one sample that took it from `before` to
    /// `after`: the sum of the voices that played, scaled by `2 / VOICES`.
    pub open spec fn mixdown(before: &Grains, after: &Grains, pitch: int) -> (int, int) {
        let sum = sum_pairs(
            Seq::new(
                VOICES as nat,
                |j: int|
                    voice_output(
                        after.voices()[j],
                        before.voices()[j].is_active() || Self::scheduled(before, after) == Some(j),
                        before.line(),
                        pitch,
                    ),
            ),
        );
        (mul_spec(sum.0, GAIN_CORRECTION as int), mul_spec(sum.1, GAIN_CORRECTION as int))
    }

    /// One sample of the pool from `before` to `after`: the grain buffer took
    /// `input`, the trigger phasor moved one step at the trigger rate, a trigger
    /// went to the scheduled voice (armed with fresh parameters and placed at
    /// the start of its ramp), and every other voice played one sample.
    pub open spec fn advanced(
        before: &Grains,
        after: &Grains,
        input: int,
        spray: int,
        freq: int,
        pitch: int,
        drift: int,
        spread: int,
    ) -> bool {
        &&& after.sample_rate() == before.sample_rate()
        &&& after.line().history() == before.line().history().push(input as i64)
        &&& after.line().capacity() == before.line().capacity()
        &&& after.line().sample_rate() == before.line().sample_rate()
        &&& after.phasor().acc() == phase_after(
            before.phasor().acc(),
            before.phasor().step_for(Self::trigger_rate(freq)),
            before.phasor().cycle(),
            1,
        )
        &&& after.phasor().sample_rate() == before.phasor().sample_rate()
        &&& after.delta().previous() == after.phasor().acc() / after.phasor().sample_rate()
        &&& match Self::scheduled(before, after) {
            Some(i) => {
                &&& after.last_assigned() == i
                &&& !before.voices()[i].is_active()
                &&& after.voices()[i].is_active()
                &&& !after.voices()[i].armed()
                &&& after.voices()[i].position() == if after.voices()[i].descending() {
                    ONE as int
                } else {
                    0
                }
                &&& after.voices()[i].base_freq() == clip_spec(
                    freq,
                    MIN_GRAIN_FREQ as int,
                    MAX_GRAIN_FREQ as int,
                )
                &&& after.voices()[i].fresh_within(spray, drift, spread)
            },
            None => after.last_assigned() == before.last_assigned(),
        }
        &&& forall|i: int|
            0 <= i < VOICES && Self::scheduled(before, after) != Some(i) ==> before.voices()[i].stepped(
                &after.voices()[i],
                pitch,
            )
        &&& forall|i: int|
            0 <= i < VOICES && !before.voices()[i].is_active() && Self::scheduled(before, after) != Some(i)
                ==> !after.voices()[i].is_active()
    }

    /// The phasor rate for a grain frequency: one trigger per voice per window.
    pub open spec fn trigger_rate(freq: int) -> int {
        mul_spec(clip_spec(freq, MIN_GRAIN_FREQ as int, MAX_GRAIN_FREQ as int), VOICES * ONE)
    }

    /// Runs one sample: advances the trigger phasor, hands a trigger on a
    /// phase wrap to the next free voice (or drops it), sums the voices that
    /// play (scaled by `2 / VOICES`), and then writes `input` into the grain buffer.
    pub fn process(
        &mut self,
        input: i64,
        spray: i64,
        freq: i64,
        pitch: i64,
        drift: i64,
        reverse: i64,
        spread: i64,
    ) -> (r: (i64, i64))
        requires
            old(self).wf(),
            is_fx(input as int),
            is_fx(spray as int),
            is_fx(freq as int),
            is_fx(pitch as int),
            is_fx(drift as int),
            is_fx(reverse as int),
            is_fx(spread as int),
        ensures
            final(self).wf(),
            Self::advanced(
                old(self),
                final(self),
                input as int,
                spray as int,
                freq as int,
                pitch as int,
                drift as int,
                spread as int,
            ),
            r.0 == Self::mixdown(old(self), final(self), pitch as int).0,
            r.1 == Self::mixdown(old(self), final(self), pitch as int).1,
            count_active(final(self).voices()) <= VOICES,
            is_fx(r.0 as int),
            is_fx(r.1 as int),
    {
        let rate = fmul(Clip::run(freq, MIN_GRAIN_FREQ, MAX_GRAIN_FREQ), VOICES as i64 * ONE);
        let phase = self.phasor.process(rate);
        let trigger = self.delta.process(phase) < 0;
        let ghost before = self.grains@;
        let ghost old_index = self.index as int;
        let mut picked: Option<usize> = None;
        if trigger {
            picked = self.pick_free();
            match picked {
                Some(i) => {
                    let draws = draw_grain(&mut self.rng);
                    let mut g = self.grains[i];
                    g.set_parameters(freq, spray, drift, reverse, spread, draws);
                    self.grains.set(i, g);
                    self.index = i;
                },
                None => {},
            }
        }
        let ghost picked_int: Option<int> = match picked {
            Some(i) => Some(i as int),
            None => None,
        };
        assert(picked_int == (if trigger {
            next_free(free_flags(before), old_index)
        } else {
            None
        }));
        let ghost mid = self.grains@;
        let ghost line = self.grain_delay_line;
        let ghost phasor = self.phasor;
        let ghost delta = self.delta;
        let ghost index = self.index;
        assert forall|j: int| 0 <= j < VOICES && picked_int != Some(j) implies #[trigger] mid[j]
            == before[j] by {}
        assert forall|j: int| 0 <= j < VOICES implies (#[trigger] mid[j]).is_active() == (
        before[j].is_active() || picked_int == Some(j)) by {
            if picked_int != Some(j) {
                assert(mid[j] == before[j]);
            }
        }
        let mut left: i64 = 0;
        let mut right: i64 = 0;
        let ghost mut outs: Seq<(int, int)> = Seq::empty();
        let mut i: usize = 0;
        while i < VOICES
            invariant
                i <= VOICES,
                self.grains@.len() == VOICES,
                mid.len() == VOICES,
                self.grain_delay_line == line,
                line.wf(),
                self.phasor == phasor,
                self.delta == delta,
                self.index == index,
                index < VOICES,
                phasor.wf(),
                delta.wf(),
                0 < self.sample_rate <= MAX_SAMPLE_RATE,
                is_fx(pitch as int),
                forall|j: int|
                    0 <= j < VOICES ==> (#[trigger] self.grains@[j]).wf() && self.grains@[j].sample_rate()
                        == self.sample_rate,
                forall|j: int| 0 <= j < i ==> (#[trigger] mid[j]).stepped(&self.grains@[j], pitch as int),
                forall|j: int| i <= j < VOICES ==> #[trigger] self.grains@[j] == mid[j],
                outs.len() == i,
                forall|j: int|
                    0 <= j < i ==> #[trigger] outs[j] == voice_output(
                        self.grains@[j],
                        mid[j].is_active(),
                        line,
                        pitch as int,
                    ),
                left == sum_pairs(outs).0,
                right == sum_pairs(outs).1,
                is_fx(left as int),
                is_fx(right as int),
            decreases VOICES - i,
        {
            let mut g = self.grains[i];
            let ghost g0 = g;
            let o = g.process(&self.grain_delay_line, pitch);
            self.grains.set(i, g);
            proof {
                let prev = outs;
                outs = outs.push((o.0 as int, o.1 as int));
                assert(outs.drop_last() =~= prev);
                assert(g0 == mid[i as int]);
                assert(outs[i as int] == voice_output(self.grains@[i as int], mid[i as int].is_active(), line, pitch as int));
                assert forall|j: int| 0 <= j < i + 1 implies #[trigger] outs[j] == voice_output(
                    self.grains@[j],
                    mid[j].is_active(),
                    line,
                    pitch as int,
                ) by {
                    if j < i {
                        assert(outs[j] == prev[j]);
                    }
                }
            }
            left = fadd(left, o.0);
            right = fadd(right, o.1);
            i = i + 1;
        }
        self.grain_delay_line.write(input);
        proof {
            let fin = self.grains@;
            assert forall|j: int| 0 <= j < VOICES implies #[trigger] mid[j].stepped(&fin[j], pitch as int) by {}
            assert forall|j: int| 0 <= j < VOICES && picked_int != Some(j) implies before[j].stepped(
                &#[trigger] fin[j],
                pitch as int,
            ) by {
                assert(mid[j] == before[j]);
                assert(mid[j].stepped(&fin[j], pitch as int));
            }
            if let Some(k) = picked_int {
                assert(mid[k].stepped(&fin[k], pitch as int));
                assert(mid[k].is_active() && mid[k].armed());
            }
            let expected = Seq::new(
                VOICES as nat,
                |j: int| voice_output(fin[j], before[j].is_active() || picked_int == Some(j), line, pitch as int),
            );
            assert forall|j: int| 0 <= j < VOICES implies #[trigger] outs[j] == expected[j] by {
                assert(mid[j].is_active() == (before[j].is_active() || picked_int == Some(j)));
            }
            assert(outs =~= expected);
            lemma_count_active_bounded(fin);
        }
        (fmul(left, GAIN_CORRECTION), fmul(right, GAIN_CORRECTION))
    }

    /// Number of voices playing.
    pub fn active_count(&self) -> (r: usize)
        requires
            self.wf(),
        ensures
            r == count_active(self.voices()),
            r <= VOICES,
    {
        let mut n: usize = 0;
        let mut i: usize = 0;
        while i < VOICES
            invariant
                self.wf(),
                i <= VOICES,
                n <= i,
                n == count_active(self.voices().subrange(0, i as int)),
            decreases VOICES - i,
        {
            proof {
                let s = self.voices().subrange(0, i as int + 1);
                assert(s.drop_last() =~= self.voices().subrange(0, i as int));
            }
            if !self.grains[i].is_free() {
                n = n + 1;
            }
            i = i + 1;
        }
        proof {
            assert(self.voices().subrange(0, VOICES as int) =~= self.voices());
        }
        n
    }

    /// The voice that a trigger now would go to.
    fn pick_free(&self) -> (r: Option<usize>)
        requires
            self.wf(),
        ensures
            match r {
                Some(i) => {
                    &&& next_free(free_flags(self.voices()), self.last_assigned()) == Some(i as int)
                    &&& i < VOICES
                    &&& !self.voices()[i as int].is_active()
                },
                None => next_free(free_flags(self.voices()), self.last_assigned()) is None,
            },
    {
        let ghost free = free_flags(self.grains@);
        let mut j: usize = 1;
        while j <= VOICES
            invariant
                1 <= j <= VOICES + 1,
                self.wf(),
                free == free_flags(self.grains@),
                next_free(free, self.index as int) == pick_from(free, self.index as int, j as int),
            decreases VOICES + 1 - j,
        {
            let i = (self.index + j) % VOICES;
            if self.grains[i].is_free() {
                return Some(i);
            }
            j = j + 1;
        }
        None
    }
}

proof fn lemma_no_active(voices: Seq<Grain>)
    requires
        forall|j: int| 0 <= j < voices.len() ==> !(#[trigger] voices[j]).is_active(),
    ensures
        count_active(voices) == 0,
    decreases voices.len(),
{
    if voices.len() > 0 {
        lemma_no_active(voices.drop_last());
    }
}

} // verus!
