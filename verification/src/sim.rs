//! The battlefield arena and its per-frame update stages.
//!
//! Entities live in parallel arenas indexed by handle: tank `i` carries turret
//! `i`, which carries cannon `i`, which carries spawn point `i`.  A turret
//! additionally stores the handle of its muzzle spawn point directly, and the
//! arena invariant `World::wf` guarantees that this handle always resolves —
//! the muzzle lookup during firing can never fail.
//!
//! The frame driver runs the stages in a fixed order; in particular
//! `turret_rotate` runs before `turret_shoot`, which reads the turret's world
//! up direction.  World-space data that depends on the full transform chain
//! (the turret's up direction and the muzzle's world position) is refreshed
//! into the arena by the driver each frame.

use vstd::prelude::*;

use crate::math::{
    damp_velocity, moved_c, out_of_zone, planar_out_of_zone, square_magnitude, step_py, step_vy,
    within, Vec3, DESTROY_SPEED_SQ, DIR_LIMIT, DT_MAX, GRAVITY_Y, LAUNCH_SPEED, POS_LIMIT,
    TANK_SPEED, TURN, TURRET_RATE, VEL_LIMIT,
};

verus! {

/// Startup configuration: how many tanks to spawn and the radius of the safe
/// zone around the origin (nano-units).  Fixed at startup, read-only after.
#[derive(Clone, Copy, PartialEq, Eq, Structural, Debug)]
pub struct TankConfig {
    pub tank_count: u32,
    pub safe_zone_radius: i64,
}

/// A mobile root entity: a position on the field and a yaw heading
/// (nano-turns).
#[derive(Clone, Copy, PartialEq, Eq, Structural, Debug)]
pub struct Tank {
    pub position: Vec3,
    pub yaw: u64,
}

/// A turret, child of the tank with the same handle.  It stores the handles
/// of its cannon child and of its muzzle spawn point, its own yaw relative to
/// the tank (nano-turns), its current world-space up direction (micro scale,
/// refreshed by the frame driver from the transform chain), and whether it is
/// currently outside the safe zone and therefore shooting.
#[derive(Clone, Copy, PartialEq, Eq, Structural, Debug)]
pub struct Turret {
    pub cannon: usize,
    pub spawn_point: usize,
    pub yaw: u64,
    pub up: Vec3,
    pub shooting: bool,
}

/// A purely visual barrel, child of the turret with the same handle; it links
/// the turret to its muzzle spawn point.
#[derive(Clone, Copy, PartialEq, Eq, Structural, Debug)]
pub struct Cannon {
    pub spawn_point: usize,
}

/// The muzzle of a cannon: its world position (nano-units, refreshed by the
/// frame driver from the transform chain) is where cannon balls appear.
#[derive(Clone, Copy, PartialEq, Eq, Structural, Debug)]
pub struct SpawnPoint {
    pub position: Vec3,
}

/// A cannon ball in flight: world position (nano-units) and velocity
/// (micro-units per second).
#[derive(Clone, Copy, PartialEq, Eq, Structural, Debug)]
pub struct CannonBall {
    pub position: Vec3,
    pub velocity: Vec3,
}

/// A per-frame wander command for one tank, derived from the noise field by
/// the frame driver: the new yaw (nano-turns) and the planar components of
/// the unit heading vector (micro scale).
#[derive(Clone, Copy, PartialEq, Eq, Structural, Debug)]
pub struct Heading {
    pub yaw: u64,
    pub dir_x: i64,
    pub dir_z: i64,
}

/// A heading is a valid wander command: a normalized yaw and direction
/// components no larger than a unit vector's.
pub open spec fn heading_ok(h: Heading) -> bool {
    &&& h.yaw < TURN
    &&& -DIR_LIMIT <= h.dir_x <= DIR_LIMIT
    &&& -DIR_LIMIT <= h.dir_z <= DIR_LIMIT
}

/// Horizontal position component of a tank after one wander step at the fixed
/// ground speed.
pub open spec fn tank_moved_x(t: Tank, h: Heading, dt: int) -> int {
    t.position.x + h.dir_x * (TANK_SPEED as int) * dt
}

/// As `tank_moved_x`, for the other horizontal axis.
pub open spec fn tank_moved_z(t: Tank, h: Heading, dt: int) -> int {
    t.position.z + h.dir_z * (TANK_SPEED as int) * dt
}

/// A yaw advanced by the fixed turret rate for `dt` milliseconds, normalized
/// to one revolution.
pub open spec fn rotated_yaw(yaw: int, dt: int) -> int {
    (yaw + (TURRET_RATE as int) * dt) % (TURN as int)
}

/// The launch velocity of a cannon ball: the turret's up direction scaled by
/// the launch speed (micro scale).
pub open spec fn launch_velocity(t: Turret) -> Vec3 {
    Vec3 {
        x: (t.up.x * (LAUNCH_SPEED as int)) as i64,
        y: (t.up.y * (LAUNCH_SPEED as int)) as i64,
        z: (t.up.z * (LAUNCH_SPEED as int)) as i64,
    }
}

/// The cannon ball after one integration step: position advanced by velocity,
/// the vertical component reflected off the ground if it would have gone
/// below it (with the vertical velocity inverted and damped), and gravity
/// applied to the velocity after the bounce check.
pub open spec fn stepped(b: CannonBall, dt: int) -> CannonBall {
    CannonBall {
        position: Vec3 {
            x: moved_c(b.position.x as int, b.velocity.x as int, dt) as i64,
            y: step_py(b.position.y as int, b.velocity.y as int, dt) as i64,
            z: moved_c(b.position.z as int, b.velocity.z as int, dt) as i64,
        },
        velocity: Vec3 {
            x: b.velocity.x,
            y: step_vy(b.position.y as int, b.velocity.y as int, dt) as i64,
            z: b.velocity.z,
        },
    }
}

/// The squared speed of the ball right after the step.
pub open spec fn speed_sq_after(b: CannonBall, dt: int) -> int {
    let vy = step_vy(b.position.y as int, b.velocity.y as int, dt);
    (b.velocity.x as int) * (b.velocity.x as int) + vy * vy + (b.velocity.z as int) * (b.velocity.z
        as int)
}

/// A ball is destroyed by a step exactly when its speed after the step falls
/// below the destruction threshold.
pub open spec fn is_destroyed(b: CannonBall, dt: int) -> bool {
    speed_sq_after(b, dt) < DESTROY_SPEED_SQ as int
}

/// The machine limits under which one integration step of `b` neither
/// overflows nor leaves the velocity range that the arena admits.
pub open spec fn fits_step(b: CannonBall, dt: int) -> bool {
    &&& 0 <= dt <= DT_MAX
    &&& within(b.velocity, VEL_LIMIT as int)
    &&& -(i64::MAX as int) <= (b.velocity.x as int) * dt <= i64::MAX as int
    &&& -(i64::MAX as int) <= (b.velocity.y as int) * dt <= i64::MAX as int
    &&& -(i64::MAX as int) <= (b.velocity.z as int) * dt <= i64::MAX as int
    &&& -(i64::MAX as int) <= moved_c(b.position.x as int, b.velocity.x as int, dt) <= i64::MAX as int
    &&& -(i64::MAX as int) <= moved_c(b.position.y as int, b.velocity.y as int, dt) <= i64::MAX as int
    &&& -(i64::MAX as int) <= moved_c(b.position.z as int, b.velocity.z as int, dt) <= i64::MAX as int
    &&& -VEL_LIMIT <= step_vy(b.position.y as int, b.velocity.y as int, dt) <= VEL_LIMIT as int
}

/// The balls that survive stepping every ball of `s`, in order: each ball is
/// stepped, and kept exactly when the step does not destroy it.
pub open spec fn surviving(s: Seq<CannonBall>, dt: int) -> Seq<CannonBall>
    decreases s.len(),
{
    if s.len() == 0 {
        Seq::empty()
    } else {
        let rest = surviving(s.drop_last(), dt);
        if is_destroyed(s.last(), dt) {
            rest
        } else {
            rest.push(stepped(s.last(), dt))
        }
    }
}

/// The cannon balls fired in one pass over the first `n` turrets of `w`: one
/// ball per shooting turret, at its muzzle's world position, with the launch
/// velocity along the turret's up direction.
pub open spec fn fired_from(w: World, n: int) -> Seq<CannonBall>
    decreases n,
{
    if n <= 0 {
        Seq::empty()
    } else {
        let t = w.turrets@[n - 1];
        let rest = fired_from(w, n - 1);
        if t.shooting {
            rest.push(
                CannonBall {
                    position: w.spawn_points@[t.spawn_point as int].position,
                    velocity: launch_velocity(t),
                },
            )
        } else {
            rest
        }
    }
}

impl CannonBall {
    /// One integration step: advance by the velocity, bounce off the ground,
    /// then apply gravity.  Returns whether the ball is now slow enough to be
    /// destroyed.
    pub fn step(&mut self, dt: i64) -> (destroyed: bool)
        requires
            fits_step(*old(self), dt as int),
        ensures
            *final(self) == stepped(*old(self), dt as int),
            destroyed == is_destroyed(*old(self), dt as int),
    {
        proof {
            crate::math::lemma_damp_bound(self.velocity.y as int);
        }
        let px: i64 = self.position.x + self.velocity.x * dt;
        let my: i64 = self.position.y + self.velocity.y * dt;
        let pz: i64 = self.position.z + self.velocity.z * dt;
        let py: i64;
        let vy_bounced: i64;
        if my < 0 {
            py = -my;
            vy_bounced = damp_velocity(self.velocity.y);
        } else {
            py = my;
            vy_bounced = self.velocity.y;
        }
        let vy: i64 = vy_bounced + GRAVITY_Y * dt;
        self.position = Vec3 { x: px, y: py, z: pz };
        self.velocity = Vec3 { x: self.velocity.x, y: vy, z: self.velocity.z };
        let sq: u128 = square_magnitude(self.velocity.x) + square_magnitude(vy)
            + square_magnitude(self.velocity.z);
        sq < DESTROY_SPEED_SQ
    }
}

/// The whole battlefield: the configuration and the entity arenas.
pub struct World {
    pub config: TankConfig,
    pub tanks: Vec<Tank>,
    pub turrets: Vec<Turret>,
    pub cannons: Vec<Cannon>,
    pub spawn_points: Vec<SpawnPoint>,
    pub cannon_balls: Vec<CannonBall>,
}

/// The pose every tank spawns in: on the origin, half a unit above the
/// ground, facing along the positive horizontal axis.
pub open spec fn initial_tank() -> Tank {
    Tank { position: Vec3 { x: 0, y: 500_000_000, z: 0 }, yaw: 0 }
}

/// The turret spawned for tank `i`: it owns cannon `i` and muzzle `i`, starts
/// unrotated and not shooting, and its world up direction starts vertical
/// until the frame driver first refreshes it.
pub open spec fn initial_turret(i: int) -> Turret {
    Turret {
        cannon: i as usize,
        spawn_point: i as usize,
        yaw: 0,
        up: Vec3 { x: 0, y: 1_000_000, z: 0 },
        shooting: false,
    }
}

/// The cannon spawned for turret `i`: it carries spawn point `i`.
pub open spec fn initial_cannon(i: int) -> Cannon {
    Cannon { spawn_point: i as usize }
}

/// The muzzle's nominal world position in the spawn pose, one and a half
/// units above the ground, until the frame driver first refreshes it.
pub open spec fn initial_spawn_point() -> SpawnPoint {
    SpawnPoint { position: Vec3 { x: 0, y: 1_500_000_000, z: 0 } }
}

impl World {
    /// The arena invariant: the four per-tank arenas run in parallel, every
    /// stored handle resolves, and every stored quantity is within the range
    /// that the update stages need.
    pub open spec fn wf(self) -> bool {
        &&& 0 <= self.config.safe_zone_radius <= POS_LIMIT
        &&& self.turrets@.len() == self.tanks@.len()
        &&& self.cannons@.len() == self.tanks@.len()
        &&& self.spawn_points@.len() == self.tanks@.len()
        &&& forall|i: int|
            0 <= i < self.tanks@.len() ==> within((#[trigger] self.tanks@[i]).position, POS_LIMIT as int)
                && self.tanks@[i].yaw < TURN
        &&& forall|i: int|
            0 <= i < self.turrets@.len() ==> (#[trigger] self.turrets@[i]).cannon
                < self.cannons@.len() && self.turrets@[i].spawn_point < self.spawn_points@.len()
                && self.turrets@[i].yaw < TURN && within(self.turrets@[i].up, DIR_LIMIT as int)
        &&& forall|i: int|
            0 <= i < self.cannons@.len() ==> (#[trigger] self.cannons@[i]).spawn_point
                < self.spawn_points@.len()
        &&& forall|i: int|
            0 <= i < self.spawn_points@.len() ==> within(
                (#[trigger] self.spawn_points@[i]).position,
                POS_LIMIT as int,
            )
        &&& forall|i: int|
            0 <= i < self.cannon_balls@.len() ==> within(
                (#[trigger] self.cannon_balls@[i]).velocity,
                VEL_LIMIT as int,
            )
    }

    /// Builds the battlefield: one tank per configured count, each with its
    /// turret, cannon and muzzle spawn point, all in the spawn pose, and no
    /// cannon balls in flight.
    pub fn tank_spawn(config: TankConfig) -> (w: World)
        requires
            0 <= config.safe_zone_radius <= POS_LIMIT,
        ensures
            w.wf(),
            w.config == config,
            w.tanks@.len() == config.tank_count,
            w.cannon_balls@.len() == 0,
            forall|i: int| 0 <= i < w.tanks@.len() ==> #[trigger] w.tanks@[i] == initial_tank(),
            forall|i: int|
                0 <= i < w.turrets@.len() ==> #[trigger] w.turrets@[i] == initial_turret(i),
            forall|i: int|
                0 <= i < w.cannons@.len() ==> #[trigger] w.cannons@[i] == initial_cannon(i),
            forall|i: int|
                0 <= i < w.spawn_points@.len() ==> #[trigger] w.spawn_points@[i]
                    == initial_spawn_point(),
    {
        let mut w = World {
            config,
            tanks: Vec::new(),
            turrets: Vec::new(),
            cannons: Vec::new(),
            spawn_points: Vec::new(),
            cannon_balls: Vec::new(),
        };
        let count: usize = config.tank_count as usize;
        let mut i: usize = 0;
        while i < count
            invariant
                i <= count,
                count == config.tank_count,
                w.config == config,
                0 <= config.safe_zone_radius <= POS_LIMIT,
                w.tanks@.len() == i,
                w.turrets@.len() == i,
                w.cannons@.len() == i,
                w.spawn_points@.len() == i,
                w.cannon_balls@.len() == 0,
                forall|j: int| 0 <= j < i ==> #[trigger] w.tanks@[j] == initial_tank(),
                forall|j: int| 0 <= j < i ==> #[trigger] w.turrets@[j] == initial_turret(j),
                forall|j: int| 0 <= j < i ==> #[trigger] w.cannons@[j] == initial_cannon(j),
                forall|j: int| 0 <= j < i ==> #[trigger] w.spawn_points@[j] == initial_spawn_point(),
            decreases count - i,
        {
            w.tanks.push(Tank { position: Vec3 { x: 0, y: 500_000_000, z: 0 }, yaw: 0 });
            w.turrets.push(
                Turret {
                    cannon: i,
                    spawn_point: i,
                    yaw: 0,
                    up: Vec3 { x: 0, y: 1_000_000, z: 0 },
                    shooting: false,
                },
            );
            w.cannons.push(Cannon { spawn_point: i });
            w.spawn_points.push(SpawnPoint { position: Vec3 { x: 0, y: 1_500_000_000, z: 0 } });
            i = i + 1;
        }
        w
    }

    /// The wander stage: each tank takes the yaw its noise sample prescribes
    /// and advances along the heading at the fixed ground speed.
    pub fn tank_move(&mut self, headings: &Vec<Heading>, dt: i64)
        requires
            old(self).wf(),
            headings@.len() == old(self).tanks@.len(),
            0 <= dt <= DT_MAX,
            forall|i: int| 0 <= i < headings@.len() ==> heading_ok(#[trigger] headings@[i]),
            forall|i: int|
                0 <= i < old(self).tanks@.len() ==> -POS_LIMIT <= tank_moved_x(
                    #[trigger] old(self).tanks@[i],
                    headings@[i],
                    dt as int,
                ) <= POS_LIMIT && -POS_LIMIT <= tank_moved_z(
                    old(self).tanks@[i],
                    headings@[i],
                    dt as int,
                ) <= POS_LIMIT,
        ensures
            final(self).wf(),
            final(self).tanks@.len() == old(self).tanks@.len(),
            forall|i: int|
                0 <= i < old(self).tanks@.len() ==> (#[trigger] final(self).tanks@[i]).position.x
                    as int == tank_moved_x(old(self).tanks@[i], headings@[i], dt as int) && final(self).tanks@[i].position.z as int == tank_moved_z(
                    old(self).tanks@[i],
                    headings@[i],
                    dt as int,
                ) && final(self).tanks@[i].position.y == old(self).tanks@[i].position.y && final(self).tanks@[i].yaw == headings@[i].yaw,
            final(self).config == old(self).config,
            final(self).turrets == old(self).turrets,
            final(self).cannons == old(self).cannons,
            final(self).spawn_points == old(self).spawn_points,
            final(self).cannon_balls == old(self).cannon_balls,
    {
        let n: usize = self.tanks.len();
        let mut i: usize = 0;
        while i < n
            invariant
                i <= n,
                n == old(self).tanks@.len(),
                headings@.len() == n,
                0 <= dt <= DT_MAX,
                forall|j: int| 0 <= j < n ==> heading_ok(#[trigger] headings@[j]),
                forall|j: int|
                    0 <= j < n ==> -POS_LIMIT <= tank_moved_x(
                        #[trigger] old(self).tanks@[j],
                        headings@[j],
                        dt as int,
                    ) <= POS_LIMIT && -POS_LIMIT <= tank_moved_z(
                        old(self).tanks@[j],
                        headings@[j],
                        dt as int,
                    ) <= POS_LIMIT,
                self.tanks@.len() == n,
                forall|j: int|
                    0 <= j < n ==> within((#[trigger] old(self).tanks@[j]).position, POS_LIMIT as int)
                        && old(self).tanks@[j].yaw < TURN,
                forall|j: int| i <= j < n ==> #[trigger] self.tanks@[j] == old(self).tanks@[j],
                forall|j: int|
                    0 <= j < i ==> (#[trigger] self.tanks@[j]).position.x as int == tank_moved_x(
                        old(self).tanks@[j],
                        headings@[j],
                        dt as int,
                    ) && self.tanks@[j].position.z as int == tank_moved_z(
                        old(self).tanks@[j],
                        headings@[j],
                        dt as int,
                    ) && self.tanks@[j].position.y == old(self).tanks@[j].position.y
                        && self.tanks@[j].yaw == headings@[j].yaw,
                self.config == old(self).config,
                self.turrets == old(self).turrets,
                self.cannons == old(self).cannons,
                self.spawn_points == old(self).spawn_points,
                self.cannon_balls == old(self).cannon_balls,
            decreases n - i,
        {
            let t = self.tanks[i];
            let h = headings[i];
            let nx: i64 = t.position.x + h.dir_x * TANK_SPEED * dt;
            let nz: i64 = t.position.z + h.dir_z * TANK_SPEED * dt;
            self.tanks.set(
                i,
                Tank { position: Vec3 { x: nx, y: t.position.y, z: nz }, yaw: h.yaw },
            );
            i = i + 1;
        }
    }

    /// The turret rotation stage: every turret's yaw advances by the fixed
    /// angular rate, normalized to one revolution.
    pub fn turret_rotate(&mut self, dt: i64)
        requires
            old(self).wf(),
            0 <= dt <= DT_MAX,
        ensures
            final(self).wf(),
            final(self).turrets@.len() == old(self).turrets@.len(),
            forall|i: int|
                0 <= i < old(self).turrets@.len() ==> (#[trigger] final(self).turrets@[i]).yaw as int
                    == rotated_yaw(old(self).turrets@[i].yaw as int, dt as int) && final(self).turrets@[i].cannon == old(self).turrets@[i].cannon && final(self).turrets@[i].spawn_point == old(self).turrets@[i].spawn_point && final(self).turrets@[i].up == old(self).turrets@[i].up && final(self).turrets@[i].shooting
                    == old(self).turrets@[i].shooting,
            final(self).config == old(self).config,
            final(self).tanks == old(self).tanks,
            final(self).cannons == old(self).cannons,
            final(self).spawn_points == old(self).spawn_points,
            final(self).cannon_balls == old(self).cannon_balls,
    {
        let n: usize = self.turrets.len();
        let step: u64 = TURRET_RATE * (dt as u64);
        let mut i: usize = 0;
        while i < n
            invariant
                i <= n,
                n == old(self).turrets@.len(),
                0 <= dt <= DT_MAX,
                step == TURRET_RATE * (dt as u64),
                self.turrets@.len() == n,
                forall|j: int|
                    0 <= j < n ==> (#[trigger] old(self).turrets@[j]).cannon < old(self).cannons@.len() && old(self).turrets@[j].spawn_point < old(self).spawn_points@.len() && old(self).turrets@[j].yaw < TURN && within(
                        old(self).turrets@[j].up,
                        DIR_LIMIT as int,
                    ),
                forall|j: int| i <= j < n ==> #[trigger] self.turrets@[j] == old(self).turrets@[j],
                forall|j: int|
                    0 <= j < i ==> (#[trigger] self.turrets@[j]).yaw as int == rotated_yaw(
                        old(self).turrets@[j].yaw as int,
                        dt as int,
                    ) && self.turrets@[j].cannon == old(self).turrets@[j].cannon
                        && self.turrets@[j].spawn_point == old(self).turrets@[j].spawn_point
                        && self.turrets@[j].up == old(self).turrets@[j].up
                        && self.turrets@[j].shooting == old(self).turrets@[j].shooting,
                self.config == old(self).config,
                self.tanks == old(self).tanks,
                self.cannons == old(self).cannons,
                self.spawn_points == old(self).spawn_points,
                self.cannon_balls == old(self).cannon_balls,
            decreases n - i,
        {
            let mut t = self.turrets[i];
            t.yaw = (t.yaw + step) % TURN;
            self.turrets.set(i, t);
            i = i + 1;
        }
    }

    /// The safe-zone stage: a turret is marked shooting exactly when its
    /// planar distance from the origin exceeds the configured radius.  The
    /// turret rides its tank with no planar offset, so its planar position is
    /// its tank's.
    pub fn check_safe_zone(&mut self)
        requires
            old(self).wf(),
        ensures
            final(self).wf(),
            final(self).turrets@.len() == old(self).turrets@.len(),
            forall|i: int|
                0 <= i < old(self).turrets@.len() ==> (#[trigger] final(self).turrets@[i]).shooting
                    == out_of_zone(
                    old(self).tanks@[i].position.x as int,
                    old(self).tanks@[i].position.z as int,
                    old(self).config.safe_zone_radius as int,
                ) && final(self).turrets@[i].cannon == old(self).turrets@[i].cannon && final(self).turrets@[i].spawn_point == old(self).turrets@[i].spawn_point && final(self).turrets@[i].yaw == old(self).turrets@[i].yaw && final(self).turrets@[i].up == old(self).turrets@[i].up,
            final(self).config == old(self).config,
            final(self).tanks == old(self).tanks,
            final(self).cannons == old(self).cannons,
            final(self).spawn_points == old(self).spawn_points,
            final(self).cannon_balls == old(self).cannon_balls,
    {
        let n: usize = self.turrets.len();
        let mut i: usize = 0;
        while i < n
            invariant
                i <= n,
                n == old(self).turrets@.len(),
                old(self).wf(),
                self.turrets@.len() == n,
                self.tanks@.len() == n,
                forall|j: int| i <= j < n ==> #[trigger] self.turrets@[j] == old(self).turrets@[j],
                forall|j: int|
                    0 <= j < i ==> (#[trigger] self.turrets@[j]).shooting == out_of_zone(
                        old(self).tanks@[j].position.x as int,
                        old(self).tanks@[j].position.z as int,
                        old(self).config.safe_zone_radius as int,
                    ) && self.turrets@[j].cannon == old(self).turrets@[j].cannon
                        && self.turrets@[j].spawn_point == old(self).turrets@[j].spawn_point
                        && self.turrets@[j].yaw == old(self).turrets@[j].yaw
                        && self.turrets@[j].up == old(self).turrets@[j].up,
                self.config == old(self).config,
                self.tanks == old(self).tanks,
                self.cannons == old(self).cannons,
                self.spawn_points == old(self).spawn_points,
                self.cannon_balls == old(self).cannon_balls,
            decreases n - i,
        {
            let pos = self.tanks[i].position;
            let outside = planar_out_of_zone(pos.x, pos.z, self.config.safe_zone_radius);
            let mut t = self.turrets[i];
            t.shooting = outside;
            self.turrets.set(i, t);
            i = i + 1;
        }
    }

    /// The firing stage: every turret currently marked shooting fires one
    /// cannon ball from its muzzle's world position, along its up direction
    /// at the launch speed.  It fires every frame while outside the zone, not
    /// only on leaving it.  The arena invariant guarantees that every muzzle
    /// handle resolves, so the lookup cannot fail.
    pub fn turret_shoot(&mut self)
        requires
            old(self).wf(),
        ensures
            final(self).wf(),
            final(self).cannon_balls@ == old(self).cannon_balls@ + fired_from(
                *old(self),
                old(self).turrets@.len() as int,
            ),
            final(self).config == old(self).config,
            final(self).tanks == old(self).tanks,
            final(self).turrets == old(self).turrets,
            final(self).cannons == old(self).cannons,
            final(self).spawn_points == old(self).spawn_points,
    {
        let n: usize = self.turrets.len();
        let mut i: usize = 0;
        while i < n
            invariant
                i <= n,
                n == old(self).turrets@.len(),
                old(self).wf(),
                self.turrets@.len() == n,
                self.cannon_balls@ == old(self).cannon_balls@ + fired_from(*old(self), i as int),
                forall|j: int|
                    0 <= j < self.cannon_balls@.len() ==> within(
                        (#[trigger] self.cannon_balls@[j]).velocity,
                        VEL_LIMIT as int,
                    ),
                self.config == old(self).config,
                self.tanks == old(self).tanks,
                self.turrets == old(self).turrets,
                self.cannons == old(self).cannons,
                self.spawn_points == old(self).spawn_points,
            decreases n - i,
        {
            let t = self.turrets[i];
            if t.shooting {
                let muzzle = self.spawn_points[t.spawn_point].position;
                let velocity = Vec3 {
                    x: t.up.x * LAUNCH_SPEED,
                    y: t.up.y * LAUNCH_SPEED,
                    z: t.up.z * LAUNCH_SPEED,
                };
                self.cannon_balls.push(CannonBall { position: muzzle, velocity });
            }
            i = i + 1;
        }
    }

    /// The ball integration stage: every cannon ball takes one step, and
    /// exactly those whose speed after the step falls below the destruction
    /// threshold are removed; the others keep their order.
    pub fn cannon_ball_velocity(&mut self, dt: i64)
        requires
            old(self).wf(),
            0 <= dt <= DT_MAX,
            forall|i: int|
                0 <= i < old(self).cannon_balls@.len() ==> fits_step(
                    #[trigger] old(self).cannon_balls@[i],
                    dt as int,
                ),
        ensures
            final(self).wf(),
            final(self).cannon_balls@ == surviving(old(self).cannon_balls@, dt as int),
            final(self).config == old(self).config,
            final(self).tanks == old(self).tanks,
            final(self).turrets == old(self).turrets,
            final(self).cannons == old(self).cannons,
            final(self).spawn_points == old(self).spawn_points,
    {
        let n: usize = self.cannon_balls.len();
        let mut kept: Vec<CannonBall> = Vec::new();
        let mut i: usize = 0;
        while i < n
            invariant
                i <= n,
                n == old(self).cannon_balls@.len(),
                0 <= dt <= DT_MAX,
                *self == *old(self),
                forall|j: int|
                    0 <= j < n ==> fits_step(#[trigger] old(self).cannon_balls@[j], dt as int),
                kept@ == surviving(old(self).cannon_balls@.take(i as int), dt as int),
                forall|j: int|
                    0 <= j < kept@.len() ==> within(
                        (#[trigger] kept@[j]).velocity,
                        VEL_LIMIT as int,
                    ),
            decreases n - i,
        {
            let ghost prefix = old(self).cannon_balls@.take(i as int);
            let mut b = self.cannon_balls[i];
            let destroyed = b.step(dt);
            if !destroyed {
                kept.push(b);
            }
            proof {
                let longer = old(self).cannon_balls@.take(i + 1 as int);
                assert(longer.drop_last() =~= prefix);
                assert(longer.last() == old(self).cannon_balls@[i as int]);
            }
            i = i + 1;
        }
        proof {
            assert(old(self).cannon_balls@.take(n as int) =~= old(self).cannon_balls@);
        }
        self.cannon_balls = kept;
    }
}

} // verus!
