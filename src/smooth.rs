//! Per-control smoothing that removes audible steps when a control changes.
use vstd::prelude::*;
use crate::approx::{clip_spec, exp_spec, fast_exp, Clip};
use crate::fixed::{
    add_spec, div_spec, fadd, fdiv, fmul, fsub, is_fx, mul_spec, sub_spec, MAX_SAMPLE_RATE,
    ONE, TWO_PI,
};

verus! {

/// Lowest smoothing frequency, in fixed-point hertz (0.01 Hz).
pub const MIN_SMOOTHING_FREQ: i64 = 167772;

/// Distance to the target (about 0.001) within which an exponential smoother snaps to it.
pub const SNAP_DISTANCE: i64 = 16384;

/// Moves towards its target in equal steps over `sample_rate / frequency` samples.
pub struct LinearSmooth {
    current: i64,
    target: i64,
    factor: i64,
    step_size: i64,
    steps: u64,
    step_counter: u64,
}

impl LinearSmooth {
    pub closed spec fn current(&self) -> int {
        self.current as int
    }

    pub closed spec fn target(&self) -> int {
        self.target as int
    }

    /// The share of the distance covered by one step: `frequency / sample_rate`.
    pub closed spec fn factor(&self) -> int {
        self.factor as int
    }

    pub closed spec fn step_size(&self) -> int {
        self.step_size as int
    }

    /// Number of steps of a ramp.
    pub closed spec fn steps(&self) -> int {
        self.steps as int
    }

    /// Steps left in the running ramp.
    pub closed spec fn remaining_steps(&self) -> int {
        self.step_counter as int
    }

    pub closed spec fn wf(&self) -> bool {
        &&& is_fx(self.current as int)
        &&& is_fx(self.target as int)
        &&& is_fx(self.factor as int)
        &&& is_fx(self.step_size as int)
        &&& self.step_counter <= self.steps
    }

    /// A smoother as `new(sample_rate, frequency)` makes it: at rest at zero,
    /// stepping `frequency / sample_rate` of the distance over
    /// `sample_rate / frequency` samples.
    pub open spec fn fresh(&self, sample_rate: int, frequency: int) -> bool {
        let f = clip_spec(frequency, MIN_SMOOTHING_FREQ as int, sample_rate * ONE);
        &&& self.current() == 0
        &&& self.target() == 0
        &&& self.remaining_steps() == 0
        &&& self.factor() == div_spec(f, sample_rate * ONE)
        &&& self.steps() == (sample_rate * ONE) / f
    }

    /// `next` is `self` after `set_target(target)`.
    pub open spec fn retargeted(&self, next: &LinearSmooth, target: int) -> bool {
        &&& next.current() == self.current()
        &&& next.target() == target
        &&& next.factor() == self.factor()
        &&& next.steps() == self.steps()
        &&& target == self.target() ==> *next == *self
        &&& target != self.target() ==> {
            &&& next.step_size() == mul_spec(sub_spec(target, self.current()), self.factor())
            &&& next.remaining_steps() == self.steps()
        }
    }

    /// `next` is `self` after `reset(target)`.
    pub open spec fn was_reset(&self, next: &LinearSmooth, target: int) -> bool {
        &&& next.current() == target
        &&& next.target() == target
        &&& next.remaining_steps() == 0
        &&& next.factor() == self.factor()
        &&& next.steps() == self.steps()
    }

    pub fn new(sample_rate: u32, frequency: i64) -> (r: Self)
        requires
            0 < sample_rate <= MAX_SAMPLE_RATE,
            is_fx(frequency as int),
        ensures
            r.wf(),
            r.fresh(sample_rate as int, frequency as int),
    {
        let rate = sample_rate as i64 * ONE;
        let f = Clip::run(frequency, MIN_SMOOTHING_FREQ, rate);
        LinearSmooth {
            current: 0,
            target: 0,
            factor: fdiv(f, rate),
            step_size: 0,
            steps: (rate / f) as u64,
            step_counter: 0,
        }
    }

    /// Jumps to `target` at once.
    pub fn reset(&mut self, target: i64)
        requires
            old(self).wf(),
            is_fx(target as int),
        ensures
            final(self).wf(),
            old(self).was_reset(final(self), target as int),
    {
        self.current = target;
        self.target = target;
        self.step_counter = 0;
    }

    /// Starts a ramp from the current value to a new target; an unchanged
    /// target leaves a running ramp alone.
    pub fn set_target(&mut self, target: i64)
        requires
            old(self).wf(),
            is_fx(target as int),
        ensures
            final(self).wf(),
            old(self).retargeted(final(self), target as int),
    {
        if target != self.target {
            self.step_size = fmul(fsub(target, self.current), self.factor);
            self.target = target;
            self.step_counter = self.steps;
        }
    }

    pub fn get_target(&self) -> (r: i64)
        ensures
            r == self.target(),
    {
        self.target
    }

    /// `next` is one call of `next` after `self`.
    pub open spec fn stepped(&self, next: &LinearSmooth) -> bool {
        &&& next.target() == self.target()
        &&& next.step_size() == self.step_size()
        &&& next.factor() == self.factor()
        &&& next.steps() == self.steps()
        &&& self.remaining_steps() > 0 ==> next.current() == add_spec(self.current(), self.step_size())
            && next.remaining_steps() == self.remaining_steps() - 1
        &&& self.remaining_steps() == 0 ==> next.current() == self.target() && next.remaining_steps() == 0
    }

    /// One sample of smoothing: a step while the ramp runs, then the target.
    pub fn next(&mut self) -> (r: i64)
        requires
            old(self).wf(),
        ensures
            final(self).wf(),
            old(self).stepped(final(self)),
            r == final(self).current(),
            is_fx(r as int),
    {
        if self.step_counter > 0 {
            self.current = fadd(self.current, self.step_size);
            self.step_counter = self.step_counter - 1;
        } else {
            self.current = self.target;
        }
        self.current
    }
}

/// Moves a fixed share of the remaining distance each sample:
/// `current = target * (1 - b) + current * b`, `b = exp(-2 pi frequency / sample_rate)`.
pub struct ExponentialSmooth {
    current: i64,
    target: i64,
    b1: i64,
    is_active: bool,
}

pub open spec fn smoothing_pole(sample_rate: int, frequency: int) -> int {
    clip_spec(exp_spec(sub_spec(0, div_spec(mul_spec(TWO_PI as int, frequency), sample_rate * ONE))), 0, ONE as int)
}

impl ExponentialSmooth {
    pub closed spec fn current(&self) -> int {
        self.current as int
    }

    pub closed spec fn target(&self) -> int {
        self.target as int
    }

    pub closed spec fn pole(&self) -> int {
        self.b1 as int
    }

    pub closed spec fn active(&self) -> bool {
        self.is_active
    }

    pub closed spec fn wf(&self) -> bool {
        &&& is_fx(self.current as int)
        &&& is_fx(self.target as int)
        &&& 0 <= self.b1 <= ONE
    }

    pub fn new(sample_rate: u32, frequency: i64) -> (r: Self)
        requires
            0 < sample_rate <= MAX_SAMPLE_RATE,
            is_fx(frequency as int),
        ensures
            r.wf(),
            r.current() == 0,
            r.target() == 0,
            !r.active(),
            r.pole() == smoothing_pole(sample_rate as int, frequency as int),
    {
        let b1 = Clip::run(
            fast_exp(fsub(0, fdiv(fmul(TWO_PI, frequency), sample_rate as i64 * ONE))),
            0,
            ONE,
        );
        ExponentialSmooth { current: 0, target: 0, b1, is_active: false }
    }

    pub fn reset(&mut self, target: i64)
        requires
            old(self).wf(),
            is_fx(target as int),
        ensures
            final(self).wf(),
            final(self).current() == target,
            final(self).target() == target,
            !final(self).active(),
            final(self).pole() == old(self).pole(),
    {
        self.current = target;
        self.target = target;
        self.is_active = false;
    }

    pub fn set_target(&mut self, target: i64)
        requires
            old(self).wf(),
            is_fx(target as int),
        ensures
            final(self).wf(),
            final(self).current() == old(self).current(),
            final(self).target() == target,
            final(self).active() == (old(self).current() != target),
            final(self).pole() == old(self).pole(),
    {
        self.target = target;
        self.is_active = self.current != self.target;
    }

    pub fn get_target(&self) -> (r: i64)
        ensures
            r == self.target(),
    {
        self.target
    }

    pub fn next(&mut self) -> (r: i64)
        requires
            old(self).wf(),
        ensures
            final(self).wf(),
            final(self).target() == old(self).target(),
            final(self).pole() == old(self).pole(),
            !old(self).active() ==> *final(self) == *old(self),
            old(self).active() ==> {
                let moved = add_spec(
                    mul_spec(old(self).target(), sub_spec(ONE as int, old(self).pole())),
                    mul_spec(old(self).current(), old(self).pole()),
                );
                let near = -SNAP_DISTANCE <= moved - old(self).target() <= SNAP_DISTANCE;
                &&& final(self).current() == if near { old(self).target() } else { moved }
                &&& final(self).active() == !near
            },
            r == final(self).current(),
    {
        if self.is_active {
            let a0 = fsub(ONE, self.b1);
            self.current = fadd(fmul(self.target, a0), fmul(self.current, self.b1));
            let d = self.current - self.target;
            if -SNAP_DISTANCE <= d && d <= SNAP_DISTANCE {
                self.current = self.target;
                self.is_active = false;
            }
        }
        self.current
    }
}

} // verus!
