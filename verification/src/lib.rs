//! A verified model of a small battlefield simulation: tanks wander a plane,
//! their turrets spin at a fixed rate and fire cannon balls whenever the tank
//! is outside a circular safe zone around the origin, and cannon balls fall
//! under gravity, bounce off the ground, and despawn once they are slow.
//!
//! All quantities are fixed-point integers; the scales are chosen so that
//! every product in the update rules lands exactly on a finer scale and no
//! rounding occurs anywhere except in the bounce damping (documented there).

pub mod laws;
pub mod math;
pub mod sim;

use vstd::prelude::*;

verus! {

} // verus!
