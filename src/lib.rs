//! The signal core of a granular delay and pitch-shifting effect.
//!
//! Each call of `GrainDelay::process` takes one input sample and the
//! controls, reads an echo from a variable delay line, feeds it to a pool of
//! windowed, panned, pitch-shifted grain voices, filters their sum, writes
//! the DC-blocked and clamped feedback back into the echo line and returns
//! an equal-power dry/wet mix.
//!
//! All values are saturating fixed-point numbers with 24 fractional bits
//! (see `fixed`), so every step is total and its result is stated exactly.

pub mod approx;
pub mod delay_line;
pub mod filter;
pub mod fixed;
pub mod grain;
pub mod grain_delay;
pub mod grains;
pub mod mix;
pub mod params;
pub mod phasor;
pub mod random;
pub mod smooth;
pub mod variable_delay_line;
