//! Fixed-capacity circular sample buffer with fractional-delay reads.
use vstd::prelude::*;
use crate::approx::{clip_spec, Clip, cos_bhaskara_spec, fast_cos_bhaskara, mix, mix_spec, mstosamps, mstosamps_spec};
use crate::fixed::{
    add_spec, fadd, fmul, fsub, is_fx, mul_spec, sub_spec, HALF, ONE,
};

verus! {

/// Smallest buffer a delay line accepts.
pub const MIN_CAPACITY: usize = 4;

/// Largest buffer a delay line accepts; keeps every delay a fixed-point value.
pub const MAX_CAPACITY: usize = 8388608;

/// One sixth in fixed point.
pub const SIXTH: i64 = 2796203;

/// The kernel used for a fractional-delay read.
#[derive(Clone, Copy, PartialEq, Eq, Structural, Debug)]
pub enum Interpolation {
    Step,
    Linear,
    Cosine,
    Cubic,
    Spline,
}

/// `cos(f * pi)` for `f` in `[0, 1]`, from Bhaskara's quarter-turn cosine.
pub open spec fn half_turn_cos(f: int) -> int {
    if f <= HALF {
        cos_bhaskara_spec(2 * f)
    } else {
        sub_spec(0, cos_bhaskara_spec(2 * (ONE - f)))
    }
}

pub open spec fn cubic_spec(w: int, x: int, y: int, z: int, t: int) -> int {
    let a1 = add_spec(ONE as int, t);
    let aa = mul_spec(t, a1);
    let b = sub_spec(ONE as int, t);
    let b1 = sub_spec(2 * ONE, t);
    let bb = mul_spec(b, b1);
    let fw = mul_spec(mul_spec(-SIXTH, bb), t);
    let fx = mul_spec(mul_spec(HALF as int, bb), a1);
    let fy = mul_spec(mul_spec(HALF as int, aa), b1);
    let fz = mul_spec(mul_spec(-SIXTH, aa), b);
    add_spec(
        add_spec(mul_spec(w, fw), mul_spec(x, fx)),
        add_spec(mul_spec(y, fy), mul_spec(z, fz)),
    )
}

pub open spec fn spline_spec(w: int, x: int, y: int, z: int, t: int) -> int {
    let c0 = x;
    let c1 = mul_spec(HALF as int, sub_spec(y, w));
    let c2 = sub_spec(
        add_spec(sub_spec(w, mul_spec(5 * HALF, x)), mul_spec(2 * ONE, y)),
        mul_spec(HALF as int, z),
    );
    let c3 = add_spec(mul_spec(HALF as int, sub_spec(z, w)), mul_spec(3 * HALF, sub_spec(x, y)));
    add_spec(mul_spec(add_spec(mul_spec(add_spec(mul_spec(c3, t), c2), t), c1), t), c0)
}

/// The value a kernel gives at fraction `t` of the way from `x` (delay `k`)
/// to `y` (delay `k + 1`); `w` is one sample newer than `x`, `z` one older than `y`.
pub open spec fn kernel_spec(interp: Interpolation, w: int, x: int, y: int, z: int, t: int) -> int {
    match interp {
        Interpolation::Step => if t == 0 { x } else { y },
        Interpolation::Linear => mix_spec(x, y, t),
        Interpolation::Cosine => mix_spec(x, y, mul_spec(sub_spec(ONE as int, half_turn_cos(t)), HALF as int)),
        Interpolation::Cubic => cubic_spec(w, x, y, z, t),
        Interpolation::Spline => spline_spec(w, x, y, z, t),
    }
}

/// Where the `k`-th newest sample sits, for a write cursor `wp` and `cap` cells.
pub open spec fn slot(wp: int, k: int, cap: int) -> int {
    if wp >= k {
        wp - k
    } else {
        wp + cap - k
    }
}

/// Every kernel returns the exact sample at a whole-sample delay.
pub proof fn lemma_kernels_agree_at_whole_delays(interp: Interpolation, w: int, x: int, y: int, z: int)
    requires
        is_fx(w),
        is_fx(x),
        is_fx(y),
        is_fx(z),
    ensures
        kernel_spec(interp, w, x, y, z, 0) == kernel_spec(Interpolation::Step, w, x, y, z, 0),
        kernel_spec(interp, w, x, y, z, 0) == x,
{
    crate::fixed::lemma_mul_unit(x);
    crate::fixed::lemma_mul_unit(y);
    crate::fixed::lemma_mul_unit(w);
    crate::fixed::lemma_mul_unit(z);
    crate::approx::lemma_cos_bhaskara_zero();
    crate::fixed::lemma_mul_unit(ONE as int);
    crate::fixed::lemma_mul_unit(-SIXTH);
    crate::fixed::lemma_mul_unit(HALF as int);
    crate::fixed::lemma_mul_unit(2 * ONE);
    assert(mul_spec(HALF as int, 2 * ONE) == ONE);
    let c1 = mul_spec(HALF as int, sub_spec(y, w));
    let c2 = sub_spec(
        add_spec(sub_spec(w, mul_spec(5 * HALF, x)), mul_spec(2 * ONE, y)),
        mul_spec(HALF as int, z),
    );
    let c3 = add_spec(mul_spec(HALF as int, sub_spec(z, w)), mul_spec(3 * HALF, sub_spec(x, y)));
    crate::fixed::lemma_mul_unit(c1);
    crate::fixed::lemma_mul_unit(add_spec(mul_spec(c3, 0), c2));
    crate::fixed::lemma_mul_unit(c3);
    crate::fixed::lemma_mul_unit(add_spec(mul_spec(add_spec(mul_spec(c3, 0), c2), 0), c1));
}

fn half_turn_cos_exec(f: i64) -> (r: i64)
    requires
        0 <= f <= ONE,
    ensures
        r == half_turn_cos(f as int),
{
    if f <= HALF {
        fast_cos_bhaskara(2 * f)
    } else {
        fsub(0, fast_cos_bhaskara(2 * (ONE - f)))
    }
}

fn kernel(interp: Interpolation, w: i64, x: i64, y: i64, z: i64, t: i64) -> (r: i64)
    requires
        is_fx(w as int),
        is_fx(x as int),
        is_fx(y as int),
        is_fx(z as int),
        0 <= t < ONE,
    ensures
        r == kernel_spec(interp, w as int, x as int, y as int, z as int, t as int),
{
    match interp {
        Interpolation::Step => if t == 0 {
            x
        } else {
            y
        },
        Interpolation::Linear => mix(x, y, t),
        Interpolation::Cosine => mix(x, y, fmul(fsub(ONE, half_turn_cos_exec(t)), HALF)),
        Interpolation::Cubic => {
            let a1 = fadd(ONE, t);
            let aa = fmul(t, a1);
            let b = fsub(ONE, t);
            let b1 = fsub(2 * ONE, t);
            let bb = fmul(b, b1);
            let fw = fmul(fmul(-SIXTH, bb), t);
            let fx = fmul(fmul(HALF, bb), a1);
            let fy = fmul(fmul(HALF, aa), b1);
            let fz = fmul(fmul(-SIXTH, aa), b);
            fadd(fadd(fmul(w, fw), fmul(x, fx)), fadd(fmul(y, fy), fmul(z, fz)))
        },
        Interpolation::Spline => {
            let c0 = x;
            let c1 = fmul(HALF, fsub(y, w));
            let c2 = fsub(fadd(fsub(w, fmul(5 * HALF, x)), fmul(2 * ONE, y)), fmul(HALF, z));
            let c3 = fadd(fmul(HALF, fsub(z, w)), fmul(3 * HALF, fsub(x, y)));
            fadd(fmul(fadd(fmul(fadd(fmul(c3, t), c2), t), c1), t), c0)
        },
    }
}

/// A circular buffer of samples with one write cursor.
pub struct DelayLine {
    buffer: Vec<i64>,
    write_pointer: usize,
    sample_rate: u32,
    history: Ghost<Seq<i64>>,
}

impl DelayLine {
    /// Number of cells of the buffer.
    pub closed spec fn capacity(&self) -> nat {
        self.buffer@.len()
    }

    pub closed spec fn sample_rate(&self) -> u32 {
        self.sample_rate
    }

    /// Every sample ever written, oldest first, after `capacity()` initial zeros.
    pub closed spec fn history(&self) -> Seq<i64> {
        self.history@
    }

    /// The sample written `k` writes ago (`k == 1` is the newest).
    pub open spec fn ago(&self, k: int) -> i64 {
        self.history()[self.history().len() - k]
    }

    /// The longest delay, in fixed-point samples, that a read with `interp`
    /// honours: `capacity() - 1` samples, or `capacity() - 2` for the
    /// four-point kernels, which also read one sample older.
    pub open spec fn max_delay(&self, interp: Interpolation) -> int {
        match interp {
            Interpolation::Cubic | Interpolation::Spline => (self.capacity() - 2) * ONE,
            _ => (self.capacity() - 1) * ONE,
        }
    }

    /// A requested delay clamped to `[1 sample, max_delay(interp)]`.
    pub open spec fn clamped_delay(&self, delay: int, interp: Interpolation) -> int {
        clip_spec(delay, ONE as int, self.max_delay(interp))
    }

    /// What a read at `delay` fixed-point samples returns. The fourth sample is
    /// only used by the four-point kernels; the others never reach past the buffer.
    pub open spec fn delay_read(&self, delay: int, interp: Interpolation) -> int {
        let d = self.clamped_delay(delay, interp);
        let k = d / (ONE as int);
        kernel_spec(
            interp,
            self.ago(if k > 1 { k - 1 } else { 1 }) as int,
            self.ago(k) as int,
            self.ago(k + 1) as int,
            self.ago(if k + 2 <= self.capacity() { k + 2 } else { self.capacity() as int }) as int,
            d % (ONE as int),
        )
    }

    /// What a read at `time` milliseconds returns.
    pub open spec fn time_read(&self, time: int, interp: Interpolation) -> int {
        self.delay_read(mstosamps_spec(time, self.sample_rate() as int), interp)
    }

    pub closed spec fn wf(&self) -> bool {
        &&& MIN_CAPACITY <= self.buffer@.len() <= MAX_CAPACITY
        &&& self.write_pointer < self.buffer@.len()
        &&& self.history@.len() >= self.buffer@.len()
        &&& forall|k: int|
            1 <= k <= self.buffer@.len() ==> #[trigger] self.buffer@[slot(
                self.write_pointer as int,
                k,
                self.buffer@.len() as int,
            )] == self.history@[self.history@.len() - k]
        &&& forall|i: int| 0 <= i < self.buffer@.len() ==> is_fx(#[trigger] self.buffer@[i] as int)
    }

    pub proof fn lemma_samples_are_fx(&self, k: int)
        requires
            self.wf(),
            1 <= k <= self.capacity(),
        ensures
            is_fx(self.ago(k) as int),
    {
        let i = slot(self.write_pointer as int, k, self.buffer@.len() as int);
        assert(self.buffer@[i] == self.history@[self.history@.len() - k]);
        assert(is_fx(self.buffer@[i] as int));
    }

    /// A silent delay line of `length` cells.
    pub fn new(length: usize, sample_rate: u32) -> (r: Self)
        requires
            MIN_CAPACITY <= length <= MAX_CAPACITY,
        ensures
            r.wf(),
            r.capacity() == length,
            r.sample_rate() == sample_rate,
            r.history() == Seq::new(length as nat, |i: int| 0i64),
    {
        let mut buffer: Vec<i64> = Vec::with_capacity(length);
        let mut i: usize = 0;
        while i < length
            invariant
                i <= length,
                buffer@ == Seq::new(i as nat, |j: int| 0i64),
            decreases length - i,
        {
            buffer.push(0);
            i = i + 1;
        }
        let r = DelayLine {
            buffer,
            write_pointer: 0,
            sample_rate,
            history: Ghost(Seq::new(length as nat, |j: int| 0i64)),
        };
        assert forall|k: int| 1 <= k <= r.buffer@.len() implies #[trigger] r.buffer@[slot(
            r.write_pointer as int,
            k,
            r.buffer@.len() as int,
        )] == r.history@[r.history@.len() - k] by {}
        r
    }

    /// Stores `value` and advances the write cursor.
    pub fn write(&mut self, value: i64)
        requires
            old(self).wf(),
            is_fx(value as int),
        ensures
            final(self).wf(),
            final(self).history() == old(self).history().push(value),
            final(self).capacity() == old(self).capacity(),
            final(self).sample_rate() == old(self).sample_rate(),
            final(self).ago(1) == value,
            forall|k: int| 1 <= k <= old(self).capacity() ==> #[trigger] final(self).ago(k + 1) == old(self).ago(k),
    {
        let ghost old_self = *self;
        let wp = self.write_pointer;
        self.buffer.set(wp, value);
        self.write_pointer = if wp + 1 < self.buffer.len() {
            wp + 1
        } else {
            0
        };
        self.history = Ghost(self.history@.push(value));
        let ghost cap = self.buffer@.len() as int;
        assert forall|k: int| 1 <= k <= cap implies #[trigger] self.buffer@[slot(
            self.write_pointer as int,
            k,
            cap,
        )] == self.history@[self.history@.len() - k] by {
            if k > 1 {
                let s = slot(old_self.write_pointer as int, k - 1, cap);
                assert(slot(self.write_pointer as int, k, cap) == s);
                assert(old_self.buffer@[s] == old_self.history@[old_self.history@.len() - (k - 1)]);
            }
        }
        assert forall|i: int| 0 <= i < self.buffer@.len() implies is_fx(
            #[trigger] self.buffer@[i] as int,
        ) by {
            if i != wp {
                assert(self.buffer@[i] == old_self.buffer@[i]);
            }
        }
    }

    /// Reads `delay` fixed-point samples into the past with the given kernel.
    /// The delay is clamped to at least one sample and at most `max_delay(interp)`.
    pub fn read_delay(&self, delay: i64, interp: Interpolation) -> (r: i64)
        requires
            self.wf(),
        ensures
            r == self.delay_read(delay as int, interp),
            is_fx(r as int),
            ONE <= delay <= self.max_delay(interp) && delay % ONE == 0 ==> r == self.ago(delay / ONE),
    {
        let cap = self.buffer.len();
        let max = match interp {
            Interpolation::Cubic | Interpolation::Spline => ((cap - 2) as i64) * ONE,
            _ => ((cap - 1) as i64) * ONE,
        };
        let d = Clip::run(delay, ONE, max);
        let k = (d / ONE) as usize;
        let t = d % ONE;
        let newer = if k > 1 {
            k - 1
        } else {
            1
        };
        let w = self.sample_ago(newer);
        let x = self.sample_ago(k);
        let y = self.sample_ago(k + 1);
        let z = self.sample_ago(if k + 2 <= cap {
            k + 2
        } else {
            cap
        });
        proof {
            lemma_kernels_agree_at_whole_delays(interp, w as int, x as int, y as int, z as int);
        }
        kernel(interp, w, x, y, z, t)
    }

    /// Reads `time` milliseconds into the past with the given kernel.
    pub fn read(&self, time: i64, interp: Interpolation) -> (r: i64)
        requires
            self.wf(),
            is_fx(time as int),
        ensures
            r == self.time_read(time as int, interp),
            is_fx(r as int),
    {
        self.read_delay(mstosamps(time, self.sample_rate), interp)
    }

    /// The sample written `k` writes ago.
    fn sample_ago(&self, k: usize) -> (r: i64)
        requires
            self.wf(),
            1 <= k <= self.capacity(),
        ensures
            r == self.ago(k as int),
            is_fx(r as int),
    {
        proof {
            self.lemma_samples_are_fx(k as int);
        }
        let i = if self.write_pointer >= k {
            self.write_pointer - k
        } else {
            self.write_pointer + self.buffer.len() - k
        };
        assert(i as int == slot(self.write_pointer as int, k as int, self.buffer@.len() as int));
        assert(self.buffer@[i as int] == self.history@[self.history@.len() - k]);
        self.buffer[i]
    }
}

/// Writing a run of samples and then reading back `k` whole samples of delay
/// with the step kernel returns the sample written exactly `k` writes earlier.
pub proof fn lemma_reads_back_written(before: DelayLine, after: DelayLine, written: Seq<i64>, k: int)
    requires
        after.wf(),
        after.history() == before.history() + written,
        1 <= k <= written.len(),
        k <= after.capacity() - 1,
    ensures
        after.ago(k) == written[written.len() - k],
        after.delay_read(k * ONE, Interpolation::Step) == written[written.len() - k],
{
    let o = ONE as int;
    assert((k * o) / o == k && (k * o) % o == 0) by (nonlinear_arith)
        requires
            o == 16777216,
            k >= 1,
    ;
    assert(o <= k * o <= after.max_delay(Interpolation::Step)) by (nonlinear_arith)
        requires
            o == 16777216,
            1 <= k <= after.capacity() - 1,
            after.max_delay(Interpolation::Step) == (after.capacity() - 1) * o,
    ;
}

} // verus!
