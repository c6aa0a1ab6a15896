//! The random source of the grain scheduler, a seedable `fastrand` generator.
use vstd::prelude::*;
use crate::fixed::ONE;
use crate::grain::GrainDraws;

verus! {

#[verifier::external_type_specification]
#[verifier::external_body]
pub struct ExRng(fastrand::Rng);

/// Relies on fastrand::Rng::with_seed: a generator whose sequence is fixed by `seed`.
pub assume_specification[ fastrand::Rng::with_seed ](seed: u64) -> fastrand::Rng;

/// Relies on fastrand::Rng::new: a generator seeded from the thread-local generator.
pub assume_specification[ fastrand::Rng::new ]() -> fastrand::Rng;

/// Relies on fastrand::Rng::u32: for the range `0..bound`, which is not empty,
/// it returns a value below `bound`.
#[verifier::external_body]
fn draw_below(rng: &mut fastrand::Rng, bound: u32) -> (r: u32)
    requires
        bound > 0,
    ensures
        r < bound,
{
    rng.u32(0..bound)
}

/// A uniform fixed-point draw in `[0, 1)`.
pub fn draw_unit(rng: &mut fastrand::Rng) -> (r: i64)
    ensures
        0 <= r < ONE,
{
    draw_below(rng, ONE as u32) as i64
}

/// Fresh draws for one grain.
pub fn draw_grain(rng: &mut fastrand::Rng) -> (r: GrainDraws)
    ensures
        r.valid(),
{
    let start = draw_unit(rng);
    let pan = draw_unit(rng);
    let reverse = draw_unit(rng);
    let drift = draw_unit(rng);
    GrainDraws { start, pan, reverse, drift }
}

} // verus!
