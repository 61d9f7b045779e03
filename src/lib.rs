//! A two-dimensional particle world: point masses integrated under gravity,
//! kept inside an axis-aligned box centred at the origin, with stick
//! relations between particles.
//!
//! All quantities are fixed-point integers: lengths in thousandths of a world
//! unit, times in microseconds, gravity in thousandths of a unit per second
//! squared, restitution in thousandths. Arithmetic saturates at the bounds of
//! `i64` rather than overflowing.
use vstd::prelude::*;

pub mod fixed;
pub mod particle;
pub mod world;
pub mod laws;

verus! {

} // verus!
