//! The laws of the simulation: properties that relate several update rules,
//! stated over the specification functions that the update stages' contracts
//! use, and proved once and for all.

use vstd::prelude::*;

use crate::math::{damp, hits_ground, moved_c, step_py, step_vy, GRAVITY_Y, RESTITUTION_DEN,
    RESTITUTION_NUM};
use crate::sim::{fits_step, is_destroyed, stepped, surviving, CannonBall};

verus! {

/// Law: for non-negative distances and radii, comparing squared planar
/// distances against the squared radius decides exactly the comparison of the
/// distances themselves, so the safe-zone test never needs a square root.
pub proof fn lemma_square_monotone(d: int, r: int)
    requires
        0 <= d,
        0 <= r,
    ensures
        d > r <==> d * d > r * r,
{
    assert(d > r ==> d * d > r * r) by (nonlinear_arith)
        requires
            0 <= r,
    ;
    assert(d <= r ==> d * d <= r * r) by (nonlinear_arith)
        requires
            0 <= d,
    ;
}

/// The vertical position and velocity of a ball after `n` integration steps
/// of `dt` milliseconds each, starting from height `py` and vertical velocity
/// `vy`; the horizontal components do not feed into it.
pub open spec fn flight(py: int, vy: int, dt: int, n: nat) -> (int, int)
    decreases n,
{
    if n == 0 {
        (py, vy)
    } else {
        let prev = flight(py, vy, dt, (n - 1) as nat);
        (step_py(prev.0, prev.1, dt), step_vy(prev.0, prev.1, dt))
    }
}

/// None of the first `n` integration steps touches the ground.
pub open spec fn clear_flight(py: int, vy: int, dt: int, n: nat) -> bool
    decreases n,
{
    if n == 0 {
        true
    } else {
        let prev = flight(py, vy, dt, (n - 1) as nat);
        clear_flight(py, vy, dt, (n - 1) as nat) && !hits_ground(prev.0, prev.1, dt)
    }
}

/// Law: over a flight with no ground contact, gravity accumulates linearly —
/// the vertical velocity after `n` steps is the initial one plus `n` times
/// the per-step gravity increment (and the horizontal velocity components are
/// untouched by every step, as `stepped` states).
pub proof fn lemma_velocity_linear(py: int, vy: int, dt: int, n: nat)
    requires
        clear_flight(py, vy, dt, n),
    ensures
        flight(py, vy, dt, n).1 == vy + n * ((GRAVITY_Y as int) * dt),
    decreases n,
{
    if n == 0 {
    } else {
        lemma_velocity_linear(py, vy, dt, (n - 1) as nat);
        let g = (GRAVITY_Y as int) * dt;
        assert((n - 1) * g + g == n * g) by (nonlinear_arith);
    }
}

/// Law: a step that would carry the ball below the ground reflects the
/// vertical position to a non-negative height, and inverts and damps the
/// vertical velocity by the restitution factor before gravity is applied.
pub proof fn lemma_bounce(py: int, vy: int, dt: int)
    requires
        hits_ground(py, vy, dt),
    ensures
        step_py(py, vy, dt) == -moved_c(py, vy, dt),
        step_py(py, vy, dt) >= 0,
        step_vy(py, vy, dt) == damp(vy) + (GRAVITY_Y as int) * dt,
        vy <= 0 ==> damp(vy) == ((-vy) * (RESTITUTION_NUM as int)) / (RESTITUTION_DEN as int)
            && damp(vy) >= 0,
        vy >= 0 ==> damp(vy) == -((vy * (RESTITUTION_NUM as int)) / (RESTITUTION_DEN as int))
            && damp(vy) <= 0,
{
    crate::math::lemma_damp_bound(vy);
}

/// Every survivor of an integration pass is the stepped image of some ball of
/// the input that the step did not destroy.
pub proof fn lemma_surviving_source(s: Seq<CannonBall>, dt: int, e: CannonBall)
    requires
        surviving(s, dt).contains(e),
    ensures
        exists|q: CannonBall|
            s.contains(q) && !is_destroyed(q, dt) && e == stepped(q, dt),
    decreases s.len(),
{
    let survivors = surviving(s, dt);
    let k = choose|k: int| 0 <= k < survivors.len() && survivors[k] == e;
    let rest = surviving(s.drop_last(), dt);
    if !is_destroyed(s.last(), dt) && k == rest.len() {
        assert(s.contains(s.last()) && !is_destroyed(s.last(), dt) && e == stepped(s.last(), dt));
    } else {
        assert(rest[k] == e);
        assert(rest.contains(e));
        lemma_surviving_source(s.drop_last(), dt, e);
        let q = choose|q: CannonBall|
            s.drop_last().contains(q) && !is_destroyed(q, dt) && e == stepped(q, dt);
        let j = choose|j: int| 0 <= j < s.drop_last().len() && s.drop_last()[j] == q;
        assert(s[j] == q);
        assert(s.contains(q) && !is_destroyed(q, dt) && e == stepped(q, dt));
    }
}

/// Law: an integration pass removes a ball exactly when its speed after the
/// step falls below the destruction threshold, and never before — the
/// stepped image of a ball of the input is among the survivors if and only if
/// the step did not destroy it.
pub proof fn lemma_destroyed_iff(s: Seq<CannonBall>, dt: int, b: CannonBall)
    requires
        s.contains(b),
        forall|i: int| 0 <= i < s.len() ==> fits_step(#[trigger] s[i], dt),
    ensures
        surviving(s, dt).contains(stepped(b, dt)) <==> !is_destroyed(b, dt),
    decreases s.len(),
{
    let survivors = surviving(s, dt);
    if !is_destroyed(b, dt) {
        // The stepped image is put there by the pass itself.
        let j = choose|j: int| 0 <= j < s.len() && s[j] == b;
        lemma_survivor_kept(s, dt, j);
    }
    if survivors.contains(stepped(b, dt)) {
        // Whatever survivor equals the stepped image comes from a ball the
        // step kept, and equal stepped images have equal post-step speeds.
        lemma_surviving_source(s, dt, stepped(b, dt));
        let q = choose|q: CannonBall|
            s.contains(q) && !is_destroyed(q, dt) && stepped(b, dt) == stepped(q, dt);
        let jb = choose|j: int| 0 <= j < s.len() && s[j] == b;
        let jq = choose|j: int| 0 <= j < s.len() && s[j] == q;
        assert(fits_step(s[jb], dt) && fits_step(s[jq], dt));
        lemma_stepped_decides_destruction(q, b, dt);
    }
}

/// A ball of the input that the step keeps contributes its stepped image to
/// the survivors.
proof fn lemma_survivor_kept(s: Seq<CannonBall>, dt: int, j: int)
    requires
        0 <= j < s.len(),
        !is_destroyed(s[j], dt),
    ensures
        surviving(s, dt).contains(stepped(s[j], dt)),
    decreases s.len(),
{
    let rest = surviving(s.drop_last(), dt);
    if j == s.len() - 1 {
        assert(surviving(s, dt)[rest.len() as int] == stepped(s.last(), dt));
    } else {
        lemma_survivor_kept(s.drop_last(), dt, j);
        let k = choose|k: int| 0 <= k < rest.len() && rest[k] == stepped(s.drop_last()[j], dt);
        assert(surviving(s, dt)[k] == stepped(s[j], dt));
    }
}

/// Two balls with the same stepped image are destroyed together: the
/// destruction test reads only the post-step velocity, which the stepped
/// image carries, and under the step's machine limits the stored components
/// determine the specification values exactly.
proof fn lemma_stepped_decides_destruction(a: CannonBall, b: CannonBall, dt: int)
    requires
        fits_step(a, dt),
        fits_step(b, dt),
        stepped(a, dt) == stepped(b, dt),
    ensures
        is_destroyed(a, dt) == is_destroyed(b, dt),
{
    let vya = step_vy(a.position.y as int, a.velocity.y as int, dt);
    let vyb = step_vy(b.position.y as int, b.velocity.y as int, dt);
    assert(stepped(a, dt).velocity.y as int == vya);
    assert(stepped(b, dt).velocity.y as int == vyb);
    assert(vya == vyb);
    assert(a.velocity.x == b.velocity.x && a.velocity.z == b.velocity.z);
}

} // verus!
