//! Fixed-point scalar and vector arithmetic for the simulation.
//!
//! Scales: positions and angles are stored in nano-units (`POS_UNIT` per world
//! unit, `TURN` per full revolution), velocities and angular rates in
//! micro-units per second, accelerations in milli-units per second squared,
//! and elapsed time in milliseconds.  A velocity times a time step is then
//! exactly a position delta, and an acceleration times a time step is exactly
//! a velocity delta, with no division anywhere in the integration.

use vstd::prelude::*;

verus! {

/// Nano-units per world unit: the resolution of positions.
pub const POS_UNIT: i64 = 1_000_000_000;

/// Micro-units per world unit: the resolution of velocities (per second)
/// and of direction vectors.
pub const VEL_UNIT: i64 = 1_000_000;

/// Gravitational acceleration along the vertical axis, in milli-units per
/// second squared (-9.82 world units per second squared).
pub const GRAVITY_Y: i64 = -9_820;

/// Numerator of the restitution factor applied to the vertical velocity on a
/// ground bounce (the ball keeps 8/10 of its vertical speed).
pub const RESTITUTION_NUM: u64 = 8;

/// Denominator of the restitution factor.
pub const RESTITUTION_DEN: u64 = 10;

/// A cannon ball is destroyed once its squared speed falls below this bound:
/// 0.1 squared world units per second squared, at the micro-unit scale.
pub const DESTROY_SPEED_SQ: u128 = 100_000_000_000;

/// Launch speed of a cannon ball, in world units per second.  Multiplying a
/// unit direction vector (micro scale) by it yields a velocity on the micro
/// scale.
pub const LAUNCH_SPEED: i64 = 20;

/// Ground speed of a tank, in world units per second.
pub const TANK_SPEED: i64 = 5;

/// Nano-turns per full revolution: the resolution of yaw angles.
pub const TURN: u64 = 1_000_000_000;

/// Turret yaw rate in micro-turns per second: half a revolution per second.
pub const TURRET_RATE: u64 = 500_000;

/// Largest admissible time step: ten simulated seconds.
pub const DT_MAX: i64 = 10_000;

/// Bound on stored position components, direction targets, and the safe-zone
/// radius, so that squared planar distances fit comfortably in 128 bits.
pub const POS_LIMIT: i64 = 100_000_000_000_000_000;

/// Bound on stored velocity components, so that squared speeds fit in 128
/// bits and the damping arithmetic fits in 64 bits.
pub const VEL_LIMIT: i64 = 2_000_000_000_000_000_000;

/// Bound on the components of a unit direction vector at the micro scale.
pub const DIR_LIMIT: i64 = 1_000_000;

/// A three-component fixed-point vector.
#[derive(Clone, Copy, PartialEq, Eq, Structural, Debug)]
pub struct Vec3 {
    pub x: i64,
    pub y: i64,
    pub z: i64,
}

/// Every component of `v` lies in `[-bound, bound]`.
pub open spec fn within(v: Vec3, bound: int) -> bool {
    &&& -bound <= v.x <= bound
    &&& -bound <= v.y <= bound
    &&& -bound <= v.z <= bound
}

/// One component of a position advanced by its velocity for `dt`
/// milliseconds (micro times milli is exactly nano).
pub open spec fn moved_c(p: int, v: int, dt: int) -> int {
    p + v * dt
}

/// The vertical velocity after a ground bounce: sign inverted, magnitude
/// scaled by the restitution factor, rounded towards zero.
pub open spec fn damp(w: int) -> int {
    if w >= 0 {
        -((w * (RESTITUTION_NUM as int)) / (RESTITUTION_DEN as int))
    } else {
        ((-w) * (RESTITUTION_NUM as int)) / (RESTITUTION_DEN as int)
    }
}

/// Whether a step from height `py` with vertical velocity `vy` would end
/// below the ground plane.
pub open spec fn hits_ground(py: int, vy: int, dt: int) -> bool {
    moved_c(py, vy, dt) < 0
}

/// Vertical position after one integration step: advanced, and reflected to
/// non-negative if it would have gone below the ground.
pub open spec fn step_py(py: int, vy: int, dt: int) -> int {
    if hits_ground(py, vy, dt) {
        -moved_c(py, vy, dt)
    } else {
        moved_c(py, vy, dt)
    }
}

/// Vertical velocity after one integration step: damped by the bounce if the
/// step hit the ground, then accelerated by gravity.  The bounce is applied
/// before gravity, as the update rule prescribes.
pub open spec fn step_vy(py: int, vy: int, dt: int) -> int {
    (if hits_ground(py, vy, dt) {
        damp(vy)
    } else {
        vy
    }) + (GRAVITY_Y as int) * dt
}

/// A point at planar coordinates `(x, z)` lies strictly outside the circle of
/// radius `r` around the origin, compared by squared distances.
pub open spec fn out_of_zone(x: int, z: int, r: int) -> bool {
    x * x + z * z > r * r
}

/// Damping magnitudes never grow: the damped velocity is opposite in sign to
/// the old one and no larger in magnitude.
pub proof fn lemma_damp_bound(w: int)
    ensures
        0 <= w ==> -w <= damp(w) <= 0,
        w < 0 ==> 0 <= damp(w) <= -w,
{
    let num = RESTITUTION_NUM as int;
    let den = RESTITUTION_DEN as int;
    if 0 <= w {
        vstd::arithmetic::div_mod::lemma_div_is_ordered(0, w * num, den);
        vstd::arithmetic::div_mod::lemma_div_is_ordered(w * num, w * den, den);
        assert(w * den / den == w) by (nonlinear_arith)
            requires den == 10;
    } else {
        vstd::arithmetic::div_mod::lemma_div_is_ordered(0, (-w) * num, den);
        vstd::arithmetic::div_mod::lemma_div_is_ordered((-w) * num, (-w) * den, den);
        assert((-w) * den / den == -w) by (nonlinear_arith)
            requires den == 10;
    }
}

/// Applies the bounce restitution to a vertical velocity.
pub fn damp_velocity(w: i64) -> (r: i64)
    requires
        -VEL_LIMIT <= w <= VEL_LIMIT,
    ensures
        r as int == damp(w as int),
        -VEL_LIMIT <= r <= VEL_LIMIT,
{
    proof {
        lemma_damp_bound(w as int);
    }
    if w >= 0 {
        let m: u64 = (w as u64) * RESTITUTION_NUM / RESTITUTION_DEN;
        -(m as i64)
    } else {
        let m: u64 = ((-w) as u64) * RESTITUTION_NUM / RESTITUTION_DEN;
        m as i64
    }
}

/// The square of a component's magnitude, computed without overflow.
pub fn square_magnitude(w: i64) -> (s: u128)
    requires
        -VEL_LIMIT <= w <= VEL_LIMIT,
    ensures
        s == (w as int) * (w as int),
        s <= (VEL_LIMIT as int) * (VEL_LIMIT as int),
{
    let a: u64 = if w < 0 {
        (-w) as u64
    } else {
        w as u64
    };
    proof {
        assert((a as int) * (a as int) == (w as int) * (w as int)
            && (a as int) * (a as int) <= (VEL_LIMIT as int) * (VEL_LIMIT as int))
            by (nonlinear_arith)
            requires
                (a as int == w as int) || (a as int == -(w as int)),
                0 <= a as int <= VEL_LIMIT as int,
        ;
    }
    (a as u128) * (a as u128)
}

/// Whether planar coordinates `(x, z)` lie strictly outside the safe zone of
/// radius `r`, decided by comparing squared distances.
pub fn planar_out_of_zone(x: i64, z: i64, r: i64) -> (b: bool)
    requires
        -POS_LIMIT <= x <= POS_LIMIT,
        -POS_LIMIT <= z <= POS_LIMIT,
        0 <= r <= POS_LIMIT,
    ensures
        b == out_of_zone(x as int, z as int, r as int),
{
    let x2: u128 = square_magnitude(x);
    let z2: u128 = square_magnitude(z);
    let r2: u128 = square_magnitude(r);
    x2 + z2 > r2
}

} // verus!
