//! Constant-power panning and equal-power dry/wet mixing.
use vstd::prelude::*;
use crate::approx::{cos_spec, fast_cos, fast_sin, sin_spec};
use crate::fixed::{add_spec, fadd, fmul, is_fx, mul_spec, HALF_PI};

verus! {

/// pi / 200: turns a pan position of `[-50, 50]` (plus 50) into radians.
pub const PAN_TO_RADIANS: i64 = 263536;

/// Pan position of the centre, offset so that hard left is zero.
pub const PAN_CENTRE: i64 = 838860800;

/// The angle of pan position `p`: `(p + 50) * pi / 200`.
pub open spec fn pan_angle(p: int) -> int {
    mul_spec(add_spec(p, PAN_CENTRE as int), PAN_TO_RADIANS as int)
}

/// `x` placed at pan position `p` (`-50` hard left, `50` hard right).
pub open spec fn pan_spec(x: int, p: int) -> (int, int) {
    (mul_spec(x, cos_spec(pan_angle(p))), mul_spec(x, sin_spec(pan_angle(p))))
}

/// Places `x` at pan position `p` with the constant-power law.
pub fn pan(x: i64, p: i64) -> (r: (i64, i64))
    requires
        is_fx(x as int),
        is_fx(p as int),
    ensures
        r.0 == pan_spec(x as int, p as int).0,
        r.1 == pan_spec(x as int, p as int).1,
{
    let radians = fmul(fadd(p, PAN_CENTRE), PAN_TO_RADIANS);
    (fmul(x, fast_cos(radians)), fmul(x, fast_sin(radians)))
}

/// The equal-power gains for a mix amount: `(cos(mix * pi/2), sin(mix * pi/2))`.
pub open spec fn gains_spec(mix: int) -> (int, int) {
    (cos_spec(mul_spec(mix, HALF_PI as int)), sin_spec(mul_spec(mix, HALF_PI as int)))
}

/// Equal-power crossfade between a mono dry signal and a stereo wet one.
pub struct Mix {
    mix: i64,
    dry_gain: i64,
    wet_gain: i64,
}

impl Mix {
    /// The mix amount the gains were computed for.
    pub closed spec fn mix(&self) -> int {
        self.mix as int
    }

    pub closed spec fn wf(&self) -> bool {
        &&& is_fx(self.mix as int)
        &&& self.dry_gain == gains_spec(self.mix as int).0
        &&& self.wet_gain == gains_spec(self.mix as int).1
    }

    pub fn new() -> (r: Self)
        ensures
            r.wf(),
            r.mix() == 0,
    {
        Mix { mix: 0, dry_gain: fast_cos(0), wet_gain: fast_sin(0) }
    }

    /// `dry * cos(mix * pi/2) + wet * sin(mix * pi/2)` on each channel.
    pub fn process(&mut self, dry: i64, wet: (i64, i64), mix: i64) -> (r: (i64, i64))
        requires
            old(self).wf(),
            is_fx(dry as int),
            is_fx(wet.0 as int),
            is_fx(wet.1 as int),
            is_fx(mix as int),
        ensures
            final(self).wf(),
            final(self).mix() == mix,
            r.0 == add_spec(mul_spec(dry as int, gains_spec(mix as int).0), mul_spec(wet.0 as int, gains_spec(mix as int).1)),
            r.1 == add_spec(mul_spec(dry as int, gains_spec(mix as int).0), mul_spec(wet.1 as int, gains_spec(mix as int).1)),
    {
        if mix != self.mix {
            let factor = fmul(mix, HALF_PI);
            self.mix = mix;
            self.dry_gain = fast_cos(factor);
            self.wet_gain = fast_sin(factor);
        }
        let dry_out = fmul(dry, self.dry_gain);
        (fadd(dry_out, fmul(wet.0, self.wet_gain)), fadd(dry_out, fmul(wet.1, self.wet_gain)))
    }
}

} // verus!
