use tank_sim::math::{Vec3, POS_UNIT, VEL_UNIT};
use tank_sim::sim::{CannonBall, Heading, TankConfig, World};

fn small_world(tank_count: u32, radius_units: i64) -> World {
    World::tank_spawn(TankConfig {
        tank_count,
        safe_zone_radius: radius_units * POS_UNIT,
    })
}

#[test]
fn spawn_builds_parallel_arenas() {
    let w = small_world(3, 8);
    assert_eq!(w.tanks.len(), 3);
    assert_eq!(w.turrets.len(), 3);
    assert_eq!(w.cannons.len(), 3);
    assert_eq!(w.spawn_points.len(), 3);
    assert_eq!(w.cannon_balls.len(), 0);
    for (i, t) in w.turrets.iter().enumerate() {
        assert_eq!(t.spawn_point, i);
        assert_eq!(t.cannon, i);
        assert!(!t.shooting);
        assert_eq!(t.yaw, 0);
    }
    for (i, c) in w.cannons.iter().enumerate() {
        assert_eq!(c.spawn_point, i);
    }
    for t in w.tanks.iter() {
        assert_eq!(t.position, Vec3 { x: 0, y: 500_000_000, z: 0 });
        assert_eq!(t.yaw, 0);
    }
}

#[test]
fn marker_tracks_safe_zone() {
    // Radius 8, tank at planar distance 10: marker attached; back at
    // distance 5: marker removed on the next evaluation.
    let mut w = small_world(1, 8);
    w.tanks[0].position = Vec3 { x: 10 * POS_UNIT, y: 500_000_000, z: 0 };
    w.check_safe_zone();
    assert!(w.turrets[0].shooting);
    w.tanks[0].position = Vec3 { x: 5 * POS_UNIT, y: 500_000_000, z: 0 };
    w.check_safe_zone();
    assert!(!w.turrets[0].shooting);
}

#[test]
fn marker_absent_on_the_boundary() {
    // Distance exactly equal to the radius counts as inside.
    let mut w = small_world(1, 8);
    w.tanks[0].position = Vec3 { x: 8 * POS_UNIT, y: 500_000_000, z: 0 };
    w.check_safe_zone();
    assert!(!w.turrets[0].shooting);
    // Distance measured in the plane only: height never matters.
    w.tanks[0].position = Vec3 { x: 8 * POS_UNIT, y: 100 * POS_UNIT, z: 0 };
    w.check_safe_zone();
    assert!(!w.turrets[0].shooting);
    // A diagonal position just outside: 6-8-10 triangle over radius 9.
    w.config.safe_zone_radius = 9 * POS_UNIT;
    w.tanks[0].position = Vec3 { x: 6 * POS_UNIT, y: 0, z: 8 * POS_UNIT };
    w.check_safe_zone();
    assert!(w.turrets[0].shooting);
}

#[test]
fn velocity_accumulates_linearly_without_ground_contact() {
    // vy after n clear steps is vy0 + n * gravity * dt, and the horizontal
    // velocity components never change.
    let mut w = small_world(0, 8);
    w.cannon_balls.push(CannonBall {
        position: Vec3 { x: 0, y: 100 * POS_UNIT, z: 0 },
        velocity: Vec3 {
            x: 3 * VEL_UNIT,
            y: 20 * VEL_UNIT,
            z: -4 * VEL_UNIT,
        },
    });
    let dt: i64 = 16;
    let per_step: i64 = -9_820 * dt;
    for n in 1..=5i64 {
        w.cannon_ball_velocity(dt);
        assert_eq!(w.cannon_balls.len(), 1);
        let b = &w.cannon_balls[0];
        assert_eq!(b.velocity.x, 3 * VEL_UNIT);
        assert_eq!(b.velocity.z, -4 * VEL_UNIT);
        assert_eq!(b.velocity.y, 20 * VEL_UNIT + n * per_step);
    }
}

#[test]
fn bounce_reflects_position_and_damps_vertical_velocity() {
    // py = 0.1, vy = -20, dt = 16 ms: the move would end at -0.22, which is
    // reflected to 0.22; the vertical velocity becomes 8/10 of 20, upwards,
    // and only then does gravity act.
    let mut w = small_world(0, 8);
    w.cannon_balls.push(CannonBall {
        position: Vec3 { x: 7, y: 100_000_000, z: -9 },
        velocity: Vec3 { x: 5_000_000, y: -20 * VEL_UNIT, z: 1_000_000 },
    });
    w.cannon_ball_velocity(16);
    let b = &w.cannon_balls[0];
    assert_eq!(b.position.y, 220_000_000);
    assert_eq!(b.position.x, 7 + 5_000_000 * 16);
    assert_eq!(b.position.z, -9 + 1_000_000 * 16);
    assert_eq!(b.velocity.y, 16 * VEL_UNIT - 9_820 * 16);
    assert_eq!(b.velocity.x, 5_000_000);
    assert_eq!(b.velocity.z, 1_000_000);
}

#[test]
fn launched_ball_bounces_to_eight_tenths() {
    // A ball launched upwards at 20 units per second falls back, crosses the
    // ground descending, and comes back up with 8/10 of its vertical speed
    // (before the same step's gravity).  A little sideways drift keeps its
    // speed above the destruction threshold at the apex.
    let mut w = small_world(0, 8);
    w.cannon_balls.push(CannonBall {
        position: Vec3 { x: 0, y: 1_500_000_000, z: 0 },
        velocity: Vec3 { x: VEL_UNIT, y: 20 * VEL_UNIT, z: 0 },
    });
    let dt: i64 = 16;
    let mut prev_vy: i64 = w.cannon_balls[0].velocity.y;
    let mut bounced = false;
    for _ in 0..10_000 {
        let prev_y: i64 = w.cannon_balls[0].position.y;
        w.cannon_ball_velocity(dt);
        assert_eq!(w.cannon_balls.len(), 1);
        let b = &w.cannon_balls[0];
        if prev_y + prev_vy * dt < 0 {
            // This step crossed the ground going down.
            assert!(prev_vy < 0);
            assert_eq!(b.velocity.y, -(prev_vy * 8 / 10) + -9_820 * dt);
            assert!(b.position.y >= 0);
            bounced = true;
            break;
        }
        prev_vy = b.velocity.y;
    }
    assert!(bounced);
}

#[test]
fn destruction_exactly_at_the_speed_threshold() {
    // With dt = 0 a step moves nothing and adds no gravity, so the
    // destruction test reads the stored speed alone: squared speeds below
    // 0.1 square units per second squared despawn the ball, and never any
    // larger ones.  316_227^2 < 10^11 <= 316_228^2.
    let mut w = small_world(0, 8);
    w.cannon_balls.push(CannonBall {
        position: Vec3 { x: 0, y: POS_UNIT, z: 0 },
        velocity: Vec3 { x: 0, y: 316_228, z: 0 },
    });
    w.cannon_balls.push(CannonBall {
        position: Vec3 { x: 0, y: POS_UNIT, z: 0 },
        velocity: Vec3 { x: 316_227, y: 0, z: 0 },
    });
    w.cannon_balls.push(CannonBall {
        position: Vec3 { x: 0, y: 2 * POS_UNIT, z: 0 },
        velocity: Vec3 { x: 0, y: 0, z: -316_228 },
    });
    w.cannon_ball_velocity(0);
    assert_eq!(w.cannon_balls.len(), 2);
    assert_eq!(w.cannon_balls[0].position.y, POS_UNIT);
    assert_eq!(w.cannon_balls[0].velocity.y, 316_228);
    assert_eq!(w.cannon_balls[1].position.y, 2 * POS_UNIT);
    assert_eq!(w.cannon_balls[1].velocity.z, -316_228);
}

#[test]
fn turret_yaw_advances_and_wraps() {
    // Half a revolution per second: after one simulated second the yaw is at
    // half a turn, after another it wraps back to zero.
    let mut w = small_world(2, 8);
    w.turret_rotate(1_000);
    assert_eq!(w.turrets[0].yaw, 500_000_000);
    assert_eq!(w.turrets[1].yaw, 500_000_000);
    w.turret_rotate(1_000);
    assert_eq!(w.turrets[0].yaw, 0);
    w.turret_rotate(16);
    assert_eq!(w.turrets[0].yaw, 8_000_000);
}

#[test]
fn tanks_advance_along_their_headings() {
    let mut w = small_world(2, 8);
    let headings = vec![
        Heading { yaw: 250_000_000, dir_x: VEL_UNIT, dir_z: 0 },
        Heading { yaw: 0, dir_x: 0, dir_z: -VEL_UNIT },
    ];
    w.tank_move(&headings, 16);
    // Ground speed 5 units per second for 16 ms.
    assert_eq!(w.tanks[0].position.x, 5 * VEL_UNIT * 16);
    assert_eq!(w.tanks[0].position.z, 0);
    assert_eq!(w.tanks[0].position.y, 500_000_000);
    assert_eq!(w.tanks[0].yaw, 250_000_000);
    assert_eq!(w.tanks[1].position.x, 0);
    assert_eq!(w.tanks[1].position.z, -5 * VEL_UNIT * 16);
    assert_eq!(w.tanks[1].yaw, 0);
}

#[test]
fn shooting_turrets_fire_every_frame() {
    let mut w = small_world(2, 8);
    // First turret outside the zone, second inside.
    w.tanks[0].position = Vec3 { x: 10 * POS_UNIT, y: 500_000_000, z: 0 };
    w.spawn_points[0].position = Vec3 { x: 10 * POS_UNIT, y: POS_UNIT, z: 3 };
    w.turrets[0].up = Vec3 { x: 0, y: 900_000, z: 435_889 };
    w.check_safe_zone();
    w.turret_shoot();
    assert_eq!(w.cannon_balls.len(), 1);
    let b = &w.cannon_balls[0];
    assert_eq!(b.position, Vec3 { x: 10 * POS_UNIT, y: POS_UNIT, z: 3 });
    assert_eq!(b.velocity, Vec3 { x: 0, y: 18_000_000, z: 8_717_780 });
    // Still outside on the next frame: it fires again, one ball per frame.
    w.turret_shoot();
    assert_eq!(w.cannon_balls.len(), 2);
    assert_eq!(w.cannon_balls[1].velocity.y, 18_000_000);
}

#[test]
fn a_full_frame_in_stage_order() {
    // One frame as the driver runs it: move, integrate, zone check, rotate,
    // then shoot with the rotated turret's data.
    let mut w = small_world(1, 8);
    let headings = vec![Heading { yaw: 0, dir_x: VEL_UNIT, dir_z: 0 }];
    w.tank_move(&headings, 16);
    w.cannon_ball_velocity(16);
    w.tanks[0].position.x = 12 * POS_UNIT;
    w.check_safe_zone();
    w.turret_rotate(16);
    w.turret_shoot();
    assert_eq!(w.cannon_balls.len(), 1);
    assert_eq!(w.turrets[0].yaw, 8_000_000);
    // The new ball flies with the turret's up direction times 20.
    assert_eq!(w.cannon_balls[0].velocity, Vec3 { x: 0, y: 20 * VEL_UNIT, z: 0 });
}
