//! The asteroid spawner: a countdown that, on running out, launches an
//! asteroid from the edge of space and starts again from a random delay.
use vstd::prelude::*;
use crate::config::{
    ASTEROID_HEADING_OFFSET, ASTEROID_LIFETIME, ASTEROID_MASS_MAX, ASTEROID_MASS_MIN,
    ASTEROID_RADIUS_MAX, ASTEROID_RADIUS_MIN, ASTEROID_SPAWN_DELAY_MAX, ASTEROID_SPAWN_DELAY_MIN,
    ASTEROID_SPAWN_DISTANCE, ASTEROID_SPEED_MAX, ASTEROID_SPEED_MIN,
};
use crate::fixed::{div_floor, Vec2};
use crate::random::roll_between;
use crate::ship::{count_down, countdown};
use crate::trig::{cosine, direction_of, is_angle, sine, turn, wrap_angle, FULL_TURN, TRIG_ONE};
use crate::world::{Body, BodyKind, World};

verus! {

/// The random part of one launch.
#[derive(Clone, Copy, PartialEq, Eq, Debug, Structural)]
pub struct SpawnRoll {
    /// Bearing of the launch point from the origin.
    pub angle: i64,
    pub radius: i64,
    pub mass: i64,
    pub speed: i64,
    pub seed: u64,
    /// Delay before the next launch.
    pub delay: u64,
}

impl SpawnRoll {
    pub open spec fn wf(self) -> bool {
        &&& is_angle(self.angle as int)
        &&& ASTEROID_RADIUS_MIN <= self.radius < ASTEROID_RADIUS_MAX
        &&& ASTEROID_MASS_MIN <= self.mass < ASTEROID_MASS_MAX
        &&& ASTEROID_SPEED_MIN <= self.speed < ASTEROID_SPEED_MAX
        &&& ASTEROID_SPAWN_DELAY_MIN <= self.delay < ASTEROID_SPAWN_DELAY_MAX
    }
}

/// `len * d / TRIG_ONE`.
pub open spec fn scaled(len: int, d: int) -> int {
    len * d / (TRIG_ONE as int)
}

/// The asteroid of a launch: at the spawn distance along the rolled bearing,
/// heading a fixed share of a turn further round, so that it comes in on a
/// slant rather than straight at the planet.
pub open spec fn launched(r: SpawnRoll) -> Body {
    let h = turn(r.angle + ASTEROID_HEADING_OFFSET);
    let pos = Vec2 {
        x: scaled(ASTEROID_SPAWN_DISTANCE as int, cosine(r.angle as int)) as i64,
        y: scaled(ASTEROID_SPAWN_DISTANCE as int, sine(r.angle as int)) as i64,
    };
    Body {
        kind: BodyKind::Asteroid,
        pos,
        vel: Vec2 {
            x: scaled(r.speed as int, cosine(h)) as i64,
            y: scaled(r.speed as int, sine(h)) as i64,
        },
        radius: r.radius,
        mass: r.mass,
        lifetime: ASTEROID_LIFETIME,
        seed: r.seed,
        end: pos,
    }
}

fn scale(len: i64, d: i64) -> (r: i64)
    requires
        0 <= len <= ASTEROID_SPAWN_DISTANCE,
        -TRIG_ONE <= d <= TRIG_ONE,
    ensures
        r == scaled(len as int, d as int),
        -ASTEROID_SPAWN_DISTANCE <= r <= ASTEROID_SPAWN_DISTANCE,
{
    let l = len as i128;
    let di = d as i128;
    assert(-ASTEROID_SPAWN_DISTANCE * TRIG_ONE <= l * di <= ASTEROID_SPAWN_DISTANCE * TRIG_ONE) by (
    nonlinear_arith)
        requires
            0 <= l <= ASTEROID_SPAWN_DISTANCE,
            -TRIG_ONE <= di <= TRIG_ONE,
    ;
    let q = div_floor(l * di, TRIG_ONE as i128);
    assert(-ASTEROID_SPAWN_DISTANCE <= q <= ASTEROID_SPAWN_DISTANCE) by (nonlinear_arith)
        requires
            q == (l * di) as int / 1_000_000int,
            -ASTEROID_SPAWN_DISTANCE * TRIG_ONE <= l * di <= ASTEROID_SPAWN_DISTANCE * TRIG_ONE,
    ;
    q as i64
}

/// The asteroid that a launch with roll `r` puts into the world.
pub fn launch(r: SpawnRoll) -> (b: Body)
    requires
        r.wf(),
    ensures
        b == launched(r),
        b.wf(),
{
    let d = direction_of(r.angle);
    let h = wrap_angle(r.angle + ASTEROID_HEADING_OFFSET);
    let v = direction_of(h);
    let pos = Vec2 { x: scale(ASTEROID_SPAWN_DISTANCE, d.x), y: scale(ASTEROID_SPAWN_DISTANCE, d.y) };
    Body {
        kind: BodyKind::Asteroid,
        pos,
        vel: Vec2 { x: scale(r.speed, v.x), y: scale(r.speed, v.y) },
        radius: r.radius,
        mass: r.mass,
        lifetime: ASTEROID_LIFETIME,
        seed: r.seed,
        end: pos,
    }
}

/// The spawner's countdown has run out after `dt` more milliseconds.
pub open spec fn due(timer: int, dt: int) -> bool {
    count_down(timer, dt) == 0
}

/// One spawner step with the random part given: the countdown runs down by
/// `dt`; when it reaches zero, the asteroid of `roll` is launched and the
/// countdown restarts from the roll's delay.
pub fn spawn_step(world: &mut World, timer: &mut u64, dt: u64, roll: SpawnRoll)
    requires
        old(world).wf(),
        roll.wf(),
    ensures
        final(world).wf(),
        final(world).ship == old(world).ship,
        final(world).planet == old(world).planet,
        due(*old(timer) as int, dt as int) ==> *final(timer) == roll.delay && final(world).bodies@
            == old(world).bodies@.push(launched(roll)),
        !due(*old(timer) as int, dt as int) ==> *final(timer) == count_down(
            *old(timer) as int,
            dt as int,
        ) && final(world).bodies@ == old(world).bodies@,
{
    let t = countdown(*timer, dt);
    if t == 0 {
        world.bodies.push(launch(roll));
        *timer = roll.delay;
    } else {
        *timer = t;
    }
}

fn roll_spawn() -> (r: SpawnRoll)
    ensures
        r.wf(),
{
    let angle = roll_between(0, FULL_TURN);
    let radius = roll_between(ASTEROID_RADIUS_MIN, ASTEROID_RADIUS_MAX);
    let mass = roll_between(ASTEROID_MASS_MIN, ASTEROID_MASS_MAX);
    let seed: u64 = rand::random::<u64>();
    let speed = roll_between(ASTEROID_SPEED_MIN, ASTEROID_SPEED_MAX);
    let delay = roll_between(ASTEROID_SPAWN_DELAY_MIN as i64, ASTEROID_SPAWN_DELAY_MAX as i64) as u64;
    SpawnRoll { angle, radius, mass, speed, seed, delay }
}

/// The spawner step of a frame: when the countdown runs out, an asteroid
/// with a random bearing, radius, mass, speed and outline is launched and
/// the countdown restarts from a random delay; everything else is as
/// `spawn_step` states for that roll.
pub fn asteroid_spawner(world: &mut World, timer: &mut u64, dt: u64)
    requires
        old(world).wf(),
    ensures
        final(world).wf(),
        final(world).ship == old(world).ship,
        final(world).planet == old(world).planet,
        due(*old(timer) as int, dt as int) ==> exists|roll: SpawnRoll|
            {
                &&& roll.wf()
                &&& *final(timer) == roll.delay
                &&& final(world).bodies@ == old(world).bodies@.push(launched(roll))
            },
        !due(*old(timer) as int, dt as int) ==> *final(timer) == count_down(
            *old(timer) as int,
            dt as int,
        ) && final(world).bodies@ == old(world).bodies@,
{
    if countdown(*timer, dt) == 0 {
        let roll = roll_spawn();
        spawn_step(world, timer, dt, roll);
    } else {
        *timer = countdown(*timer, dt);
    }
}

} // verus!
