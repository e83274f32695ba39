//! Tuning of the simulation, in the fixed-point scales of the crate:
//! lengths in thousandths of a unit, time in milliseconds, angles in
//! thousandths of a degree, masses in thousandths of a mass unit.
use vstd::prelude::*;

verus! {

/// Gravitational constant.
pub const GRAVITY: i64 = 250;

/// Largest mass that any entity may carry.
pub const MASS_LIMIT: i64 = 1_000_000_000_000;

/// Longest frame that the simulation accepts.
pub const DT_LIMIT: u64 = 100_000_000;

pub const SHIP_START_Y: i64 = 300_000;
/// Angular acceleration under rotate input (25 rad/s²).
pub const SHIP_ROTATION_ACCEL: i64 = 1_432_394;
/// Angular deceleration without rotate input (50 rad/s²).
pub const SHIP_ROTATION_DECEL: i64 = 2_864_789;
/// Largest angular speed (4.2 rad/s).
pub const SHIP_ROTATION_SPEED: i64 = 240_642;
/// Forward acceleration under thrust, per second squared.
pub const SHIP_MAX_THRUST: i64 = 55_000;
pub const SHIP_RADIUS: i64 = 10_000;
pub const SHIP_MASS: i64 = 10_000;
pub const SHIP_FIRE_DELAY: u64 = 100;
/// Distance from the ship's centre to its nose, where bullets leave.
pub const SHIP_NOSE: i64 = 5_000;

pub const BULLET_SPEED: i64 = 300_000;
pub const BULLET_RADIUS: i64 = 1_000;
pub const BULLET_MASS: i64 = 15_000;
pub const BULLET_LIFETIME: u64 = 3_000;

pub const PLANET_START_RADIUS: i64 = 30_000;
pub const PLANET_START_MASS: i64 = 500_000;
/// Share of a swallowed entity's radius that the planet gains, in tenths.
pub const PLANET_RADIUS_CONSUME_TENTHS: i64 = 3;
/// Factor on a swallowed entity's mass that the planet gains.
pub const PLANET_MASS_CONSUME_SCALE: i64 = 5;
pub const PLANET_MASS_COLLAPSE_TRIGGER: i64 = 2_500_000;
pub const PLANET_COLLAPSE_TIME: u64 = 1_500;
pub const PLANET_COLLAPSE_RADIUS: i64 = 2_000;
pub const PLANET_COLLAPSE_MASS: i64 = 30_000_000;

pub const ASTEROID_SPAWN_DISTANCE: i64 = 640_000;
pub const ASTEROID_LIFETIME: u64 = 60_000;
pub const ASTEROID_SPAWN_DELAY_MIN: u64 = 2_000;
pub const ASTEROID_SPAWN_DELAY_MAX: u64 = 4_000;
pub const ASTEROID_RADIUS_MIN: i64 = 10_000;
pub const ASTEROID_RADIUS_MAX: i64 = 20_000;
pub const ASTEROID_MASS_MIN: i64 = 10_000;
pub const ASTEROID_MASS_MAX: i64 = 20_000;
pub const ASTEROID_SPEED_MIN: i64 = 20_000;
pub const ASTEROID_SPEED_MAX: i64 = 60_000;
/// Turn between the spawn bearing and the initial heading (a turn over 3.5).
pub const ASTEROID_HEADING_OFFSET: i64 = 102_857;
/// Drag at any size, in units per second times units of distance.
pub const ASTEROID_DRAG_CONSTANT: i64 = 300;
/// Extra drag for each unit of radius.
pub const ASTEROID_DRAG_RADIUS_FACTOR: i64 = 5;
pub const ASTEROID_FRACTURE_COUNT: u64 = 3;
/// Share of the parent's radius and mass that a fragment keeps, in tenths.
pub const ASTEROID_FRACTURE_TENTHS: i64 = 3;
/// Asteroids up to this radius are destroyed whole.
pub const ASTEROID_FRACTURE_MIN_RADIUS: i64 = 4_000;
pub const ASTEROID_FRACTURE_SPEED_MIN: i64 = 10_000;
pub const ASTEROID_FRACTURE_SPEED_MAX: i64 = 30_000;

pub const TRAIL_LIFETIME: u64 = 3_000;
pub const EXPLOSION_LIFETIME: u64 = 500;

pub const SCORE_BOUNDS_MIN: i64 = 10;
pub const SCORE_BOUNDS_MAX: i64 = 80;
pub const SCORE_RADIUS_MIN: i64 = 4_000;
pub const SCORE_RADIUS_MAX: i64 = 20_000;

/// How long the loss condition must hold before the session ends.
pub const GAMEOVER_DELAY: u64 = 3_000;
/// Delay before the first asteroid of a run.
pub const FIRST_SPAWN_DELAY: u64 = 5_000;

} // verus!
