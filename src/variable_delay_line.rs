//! A delay line whose read time can jump without clicks: a change of time is
//! crossfaded from the old read position to the new one.
use vstd::prelude::*;
use crate::approx::{clip_spec, cos_bhaskara_spec, fast_cos_bhaskara, Clip};
use crate::delay_line::{DelayLine, Interpolation};
use crate::fixed::{
    add_spec, div_round, fadd, fmul, fsub, is_fx, mul_spec, sub_spec, FX_MAX, MAX_SAMPLE_RATE, ONE,
};

verus! {

/// Rate of the crossfade ramp: 5 Hz, so a crossfade lasts 200 ms.
pub const CROSSFADE_FREQ: i64 = 83886080;

/// A one-shot ramp from zero to one in a whole number of calls.
pub struct Ramp {
    count: u64,
    steps: u64,
    trigger: bool,
    is_active: bool,
}

/// Ramp position after `count` of `steps` calls: `count / steps`, rounded down.
pub open spec fn ramp_position(count: int, steps: int) -> int {
    count * ONE / steps
}

proof fn lemma_ramp_position_bounds(count: int, steps: int)
    requires
        0 <= count <= steps,
        steps >= 1,
    ensures
        0 <= ramp_position(count, steps) <= ONE,
        count == steps ==> ramp_position(count, steps) == ONE,
{
    let o = ONE as int;
    assert(0 <= count * o / steps <= o) by (nonlinear_arith)
        requires
            0 <= count <= steps,
            steps >= 1,
            o == 16777216,
    ;
    if count == steps {
        assert(steps * o / steps == o) by (nonlinear_arith)
            requires
                steps >= 1,
        ;
    }
}

impl Ramp {
    /// Calls taken since the ramp started.
    pub closed spec fn count(&self) -> int {
        self.count as int
    }

    /// Calls the ramp takes from zero to one.
    pub closed spec fn steps(&self) -> int {
        self.steps as int
    }

    pub open spec fn x(&self) -> int {
        ramp_position(self.count(), self.steps())
    }

    pub closed spec fn triggered(&self) -> bool {
        self.trigger
    }

    pub closed spec fn active(&self) -> bool {
        self.is_active
    }

    pub closed spec fn wf(&self) -> bool {
        &&& self.count <= self.steps
        &&& 1 <= self.steps <= MAX_SAMPLE_RATE as u64 * ONE as u64
    }

    /// The count, trigger and activity after one call of `process`.
    pub open spec fn next(&self) -> (int, bool, bool) {
        if self.triggered() {
            (0, false, self.active())
        } else if self.active() {
            if self.count() + 1 >= self.steps() {
                (self.steps(), false, false)
            } else {
                (self.count() + 1, false, true)
            }
        } else {
            (self.count(), false, false)
        }
    }

    /// An idle ramp that, once started, reaches one after
    /// `ceil(sample_rate / freq)` further calls (at least one).
    pub fn new(sample_rate: u32, freq: i64) -> (r: Self)
        requires
            0 < sample_rate <= MAX_SAMPLE_RATE,
        ensures
            r.wf(),
            r.count() == 0,
            !r.triggered(),
            !r.active(),
            ({
                let f = clip_spec(freq as int, 1, sample_rate * ONE);
                r.steps() == (sample_rate * ONE + f - 1) / f
            }),
    {
        let rate = sample_rate as u64 * ONE as u64;
        let f = Clip::run(freq, 1, rate as i64) as u64;
        let steps = (rate + f - 1) / f;
        assert(1 <= steps <= rate) by (nonlinear_arith)
            requires
                1 <= f <= rate,
                steps == (rate + f - 1) / (f as int),
        ;
        Ramp { count: 0, steps, trigger: false, is_active: false }
    }

    /// Restarts the ramp: the next call of `process` returns zero.
    pub fn start(&mut self)
        requires
            old(self).wf(),
        ensures
            final(self).wf(),
            final(self).triggered(),
            final(self).active(),
            final(self).count() == old(self).count(),
            final(self).steps() == old(self).steps(),
    {
        self.trigger = true;
        self.is_active = true;
    }

    pub fn process(&mut self) -> (r: i64)
        requires
            old(self).wf(),
        ensures
            final(self).wf(),
            final(self).steps() == old(self).steps(),
            (final(self).count(), final(self).triggered(), final(self).active()) == old(self).next(),
            r == final(self).x(),
            0 <= r <= ONE,
    {
        if self.trigger {
            self.count = 0;
            self.trigger = false;
        } else if self.is_active {
            if self.count >= self.steps - 1 {
                self.count = self.steps;
                self.is_active = false;
            } else {
                self.count = self.count + 1;
            }
        }
        proof {
            lemma_ramp_position_bounds(self.count as int, self.steps as int);
        }
        ((self.count as u128 * ONE as u128) / self.steps as u128) as i64
    }

    pub fn is_finished(&self) -> (r: bool)
        ensures
            r == !self.active(),
    {
        !self.is_active
    }
}

/// The crossfade of a read at `previous` into a read at `next` at ramp
/// position `x`, with the window `cos^2(x * pi / 2)` on the old read.
pub open spec fn crossfade_spec(line: DelayLine, previous: int, next: int, x: int, interp: Interpolation) -> int {
    let c = cos_bhaskara_spec(x);
    let w = mul_spec(c, c);
    add_spec(
        mul_spec(line.time_read(previous, interp), w),
        mul_spec(line.time_read(next, interp), sub_spec(ONE as int, w)),
    )
}

/// A delay line read at a time that may change from call to call.
pub struct VariableDelayLine {
    delay_line: DelayLine,
    ramp: Ramp,
    previous_time: i64,
    next_time: i64,
    started: bool,
}

impl VariableDelayLine {
    /// A time has been read; before that there is nothing to fade from.
    pub closed spec fn started(&self) -> bool {
        self.started
    }

    pub closed spec fn line(&self) -> DelayLine {
        self.delay_line
    }

    pub closed spec fn ramp(&self) -> Ramp {
        self.ramp
    }

    pub closed spec fn previous_time(&self) -> int {
        self.previous_time as int
    }

    pub closed spec fn next_time(&self) -> int {
        self.next_time as int
    }

    /// What a read of `time` returns from this state.
    pub open spec fn tap(&self, time: int, interp: Interpolation) -> int {
        if !self.started() {
            self.line().time_read(time, interp)
        } else if !self.ramp().active() {
            if time == self.next_time() {
                self.line().time_read(time, interp)
            } else {
                crossfade_spec(self.line(), self.next_time(), time, 0, interp)
            }
        } else {
            crossfade_spec(
                self.line(),
                self.previous_time(),
                self.next_time(),
                ramp_position(self.ramp().next().0, self.ramp().steps()),
                interp,
            )
        }
    }

    pub closed spec fn wf(&self) -> bool {
        &&& self.delay_line.wf()
        &&& self.ramp.wf()
        &&& is_fx(self.previous_time as int)
        &&& is_fx(self.next_time as int)
    }

    pub fn new(length: usize, sample_rate: u32) -> (r: Self)
        requires
            crate::delay_line::MIN_CAPACITY <= length <= crate::delay_line::MAX_CAPACITY,
            0 < sample_rate <= MAX_SAMPLE_RATE,
        ensures
            r.wf(),
            r.line().capacity() == length,
            r.line().sample_rate() == sample_rate,
            r.line().history() == Seq::new(length as nat, |i: int| 0i64),
            r.previous_time() == 0,
            r.next_time() == 0,
            !r.ramp().active(),
            !r.started(),
            sample_rate >= 5 ==> r.ramp().steps() == (sample_rate * ONE + CROSSFADE_FREQ - 1) / (
                CROSSFADE_FREQ as int),
    {
        VariableDelayLine {
            delay_line: DelayLine::new(length, sample_rate),
            ramp: Ramp::new(sample_rate, CROSSFADE_FREQ),
            previous_time: 0,
            next_time: 0,
            started: false,
        }
    }

    /// Reads `time` milliseconds ago. The first read takes its time at once.
    /// After that, with no crossfade running, an unchanged time reads straight
    /// through and a new time starts a crossfade from the old time; while a
    /// crossfade runs, further changes wait until it ends.
    pub fn read(&mut self, time: i64, interp: Interpolation) -> (r: i64)
        requires
            old(self).wf(),
            is_fx(time as int),
        ensures
            final(self).wf(),
            final(self).line() == old(self).line(),
            final(self).ramp().steps() == old(self).ramp().steps(),
            r == old(self).tap(time as int, interp),
            is_fx(r as int),
            final(self).started(),
            !old(self).started() ==> {
                &&& final(self).ramp() == old(self).ramp()
                &&& final(self).previous_time() == time
                &&& final(self).next_time() == time
            },
            old(self).started() && time == old(self).next_time() && !old(self).ramp().active() ==> {
                &&& r == old(self).line().time_read(time as int, interp)
                &&& final(self).ramp() == old(self).ramp()
                &&& final(self).previous_time() == old(self).previous_time()
                &&& final(self).next_time() == time
            },
            old(self).started() && time != old(self).next_time() && !old(self).ramp().active() ==> {
                &&& final(self).previous_time() == old(self).next_time()
                &&& final(self).next_time() == time
                &&& final(self).ramp().count() == 0
                &&& final(self).ramp().active()
                &&& !final(self).ramp().triggered()
                &&& r == crossfade_spec(old(self).line(), old(self).next_time(), time as int, 0, interp)
            },
            old(self).started() && old(self).ramp().active() ==> {
                &&& final(self).previous_time() == old(self).previous_time()
                &&& final(self).next_time() == old(self).next_time()
                &&& (final(self).ramp().count(), final(self).ramp().triggered(), final(self).ramp().active())
                    == old(self).ramp().next()
                &&& r == crossfade_spec(
                    old(self).line(),
                    old(self).previous_time(),
                    old(self).next_time(),
                    final(self).ramp().x(),
                    interp,
                )
            },
    {
        if !self.started {
            self.started = true;
            self.previous_time = time;
            self.next_time = time;
            return self.delay_line.read(time, interp);
        }
        let time_has_changed = time != self.next_time;
        let finished = self.ramp.is_finished();
        if !time_has_changed && finished {
            let out = self.delay_line.read(time, interp);
            self.next_time = time;
            out
        } else {
            if finished {
                self.previous_time = self.next_time;
                self.next_time = time;
                self.ramp.start();
            }
            self.crossfade(interp)
        }
    }

    pub fn write(&mut self, value: i64)
        requires
            old(self).wf(),
            is_fx(value as int),
        ensures
            final(self).wf(),
            final(self).line().history() == old(self).line().history().push(value),
            final(self).line().capacity() == old(self).line().capacity(),
            final(self).line().sample_rate() == old(self).line().sample_rate(),
            final(self).ramp() == old(self).ramp(),
            final(self).previous_time() == old(self).previous_time(),
            final(self).next_time() == old(self).next_time(),
            final(self).started() == old(self).started(),
    {
        self.delay_line.write(value);
    }

    fn crossfade(&mut self, interp: Interpolation) -> (r: i64)
        requires
            old(self).wf(),
        ensures
            final(self).wf(),
            final(self).line() == old(self).line(),
            final(self).previous_time() == old(self).previous_time(),
            final(self).next_time() == old(self).next_time(),
            final(self).started() == old(self).started(),
            final(self).ramp().steps() == old(self).ramp().steps(),
            (final(self).ramp().count(), final(self).ramp().triggered(), final(self).ramp().active())
                == old(self).ramp().next(),
            r == crossfade_spec(
                old(self).line(),
                old(self).previous_time(),
                old(self).next_time(),
                final(self).ramp().x(),
                interp,
            ),
    {
        let ramp = self.ramp.process();
        let c = fast_cos_bhaskara(ramp);
        let window = fmul(c, c);
        fadd(
            fmul(self.delay_line.read(self.previous_time, interp), window),
            fmul(self.delay_line.read(self.next_time, interp), fsub(ONE, window)),
        )
    }
}

} // verus!
