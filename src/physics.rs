//! Per-frame integration: the planet's pull, drag on asteroids, and motion.
use vstd::prelude::*;
use crate::config::{
    ASTEROID_DRAG_CONSTANT, ASTEROID_DRAG_RADIUS_FACTOR, DT_LIMIT, GRAVITY, MASS_LIMIT,
};
use vstd::arithmetic::div_mod::{lemma_div_is_ordered, lemma_fundamental_div_mod, lemma_mod_pos_bound};
use crate::fixed::{
    clamp_extent, clamp_to_extent, distance_sq, in_extent, div_floor, dist_sq, floor_sqrt, is_floor_sqrt,
    isqrt, lemma_floor_share, lemma_floor_sqrt_exists, Vec2, EXTENT, UNIT,
};

use crate::world::{bodies_wf, Body, BodyKind, Planet, Ship, World};

verus! {

pub open spec fn max(a: int, b: int) -> int {
    if a >= b {
        a
    } else {
        b
    }
}

/// Strength of the planet's pull on a body, in thousandths of a unit per
/// second squared: `G * mp * me / max(1, d²)` with `d` the distance in units,
/// for masses `mp` and `me` and squared distance `d2` in the fixed-point
/// scales.
pub open spec fn gravity_force(mp: int, me: int, d2: int) -> int {
    UNIT * GRAVITY * mp * me / max(UNIT * UNIT, d2)
}

/// The pull never exceeds its value at a distance of one unit,
/// `G * mp * me`, which it keeps at every closer distance.
pub proof fn lemma_gravity_clamp(mp: int, me: int, d2: int)
    requires
        0 <= mp,
        0 <= me,
        0 <= d2,
    ensures
        gravity_force(mp, me, d2) <= gravity_force(mp, me, UNIT * UNIT),
        d2 <= UNIT * UNIT ==> gravity_force(mp, me, d2) == gravity_force(mp, me, UNIT * UNIT),
        gravity_force(mp, me, UNIT * UNIT) == GRAVITY * mp * me / UNIT as int,
{
    let num = UNIT * GRAVITY * mp * me;
    assert(num >= 0) by (nonlinear_arith)
        requires
            num == 250_000 * mp * me,
            0 <= mp,
            0 <= me,
    ;
    vstd::arithmetic::div_mod::lemma_div_is_ordered_by_denominator(
        num,
        UNIT * UNIT,
        max(UNIT * UNIT, d2),
    );
    assert(num == (GRAVITY * mp * me) * UNIT) by (nonlinear_arith)
        requires
            num == UNIT * GRAVITY * mp * me,
    ;
    vstd::arithmetic::div_mod::lemma_div_multiples_vanish_fancy(
        GRAVITY * mp * me,
        0,
        UNIT as int,
    );
    vstd::arithmetic::div_mod::lemma_div_denominator(num, UNIT as int, UNIT as int);
}

/// The integer square root, rounded up.
pub open spec fn ceil_sqrt(n: int) -> int {
    let f = floor_sqrt(n);
    if f * f == n {
        f
    } else {
        f + 1
    }
}

/// Division rounding toward zero.
pub open spec fn div_toward_zero(n: int, d: int) -> int {
    if n >= 0 {
        n / d
    } else {
        -((-n) / d)
    }
}

/// How much velocity the pull gives in `dt` milliseconds, kept in the
/// extent.
pub open spec fn pull_magnitude(mp: int, me: int, d2: int, dt: int) -> int {
    clamp_extent(gravity_force(mp, me, d2) * dt / 1000)
}

/// The change of velocity that the planet (at `source`, of mass `mp`) gives
/// a body at `pos` of mass `me` over `dt` milliseconds: the pull magnitude
/// along the direction from the body to the planet. The direction divides
/// by the distance rounded up and each component rounds toward zero, so the
/// change is never longer than the magnitude. A body at the planet's very
/// centre feels no pull.
pub open spec fn pull(source: Vec2, mp: int, pos: Vec2, me: int, dt: int) -> (int, int) {
    let d2 = dist_sq(source, pos);
    let c = ceil_sqrt(d2);
    if d2 == 0 {
        (0, 0)
    } else {
        let mag = pull_magnitude(mp, me, d2, dt);
        (div_toward_zero(mag * (source.x - pos.x), c), div_toward_zero(mag * (source.y - pos.y), c))
    }
}

pub open spec fn pulled_vel(v: Vec2, dv: (int, int)) -> Vec2 {
    Vec2 { x: clamp_extent(v.x + dv.0) as i64, y: clamp_extent(v.y + dv.1) as i64 }
}

proof fn lemma_ceil_sqrt(n: int)
    requires
        n >= 1,
    ensures
        ceil_sqrt(n) >= 1,
        n <= ceil_sqrt(n) * ceil_sqrt(n),
        ceil_sqrt(n) <= floor_sqrt(n) + 1,
{
    lemma_floor_sqrt_exists(n);
    let g = floor_sqrt(n);
    assert(g >= 1) by (nonlinear_arith)
        requires
            n < (g + 1) * (g + 1),
            n >= 1,
            g >= 0,
    ;
}

/// One component of the pull: `|r| * c <= mag * |delta|` and `|r| <= mag`.
proof fn lemma_axis_share(mag: int, delta: int, c: int)
    requires
        0 <= mag,
        -c <= delta <= c,
        0 < c,
    ensures
        ({
            let r = div_toward_zero(mag * delta, c);
            &&& r * r * (c * c) <= (mag * mag) * (delta * delta)
            &&& -mag <= r <= mag
        }),
{
    let r = div_toward_zero(mag * delta, c);
    let n = if delta >= 0 { mag * delta } else { -(mag * delta) };
    let ad = if delta >= 0 { delta } else { -delta };
    assert(n == mag * ad && 0 <= n <= mag * c) by (nonlinear_arith)
        requires
            n == if delta >= 0 { mag * delta } else { -(mag * delta) },
            ad == if delta >= 0 { delta } else { -delta },
            0 <= mag,
            0 <= ad <= c,
    ;
    let q = n / c;
    lemma_fundamental_div_mod(n, c);
    lemma_mod_pos_bound(n, c);
    assert(0 <= q * c <= n) by (nonlinear_arith)
        requires
            n == c * q + n % c,
            0 <= n % c < c,
            0 <= n,
            0 < c,
    ;
    assert(0 <= q <= mag) by (nonlinear_arith)
        requires
            0 <= q * c <= n,
            n <= mag * c,
            0 < c,
    ;
    assert(r == q || r == -q);
    assert(q * q * (c * c) <= (mag * mag) * (ad * ad)) by (nonlinear_arith)
        requires
            0 <= q * c <= mag * ad,
            0 <= q,
            0 < c,
    ;
    assert(r * r == q * q && delta * delta == ad * ad) by (nonlinear_arith)
        requires
            r == q || r == -q,
            ad == delta || ad == -delta,
    ;
}

/// The pull is never longer than its magnitude, which is never more than
/// the pull at a distance of one unit over the same time, `G * mp * me`
/// times `dt`.
pub proof fn lemma_pull_capped(source: Vec2, mp: int, pos: Vec2, me: int, dt: int)
    requires
        0 <= mp,
        0 <= me,
        0 <= dt,
    ensures
        pull(source, mp, pos, me, dt).0 * pull(source, mp, pos, me, dt).0 + pull(source, mp, pos, me, dt).1
            * pull(source, mp, pos, me, dt).1 <= pull_magnitude(mp, me, dist_sq(source, pos), dt)
            * pull_magnitude(mp, me, dist_sq(source, pos), dt),
        0 <= pull_magnitude(mp, me, dist_sq(source, pos), dt),
        pull_magnitude(mp, me, dist_sq(source, pos), dt) <= gravity_force(mp, me, UNIT * UNIT) * dt
            / 1000,
        -pull_magnitude(mp, me, dist_sq(source, pos), dt) <= pull(source, mp, pos, me, dt).0
            <= pull_magnitude(mp, me, dist_sq(source, pos), dt),
        -pull_magnitude(mp, me, dist_sq(source, pos), dt) <= pull(source, mp, pos, me, dt).1
            <= pull_magnitude(mp, me, dist_sq(source, pos), dt),
{
    let d2 = dist_sq(source, pos);
    let dx = source.x - pos.x;
    let dy = source.y - pos.y;
    assert(d2 >= 0 && dx * dx <= d2 && dy * dy <= d2) by (nonlinear_arith)
        requires
            d2 == dx * dx + dy * dy,
    ;
    lemma_gravity_clamp(mp, me, d2);
    let f = gravity_force(mp, me, d2);
    let cap = gravity_force(mp, me, UNIT * UNIT);
    assert(0 <= f) by {
        vstd::arithmetic::div_mod::lemma_div_pos_is_pos(UNIT * GRAVITY * mp * me, max(UNIT * UNIT, d2));
        assert(UNIT * GRAVITY * mp * me >= 0) by (nonlinear_arith)
            requires
                0 <= mp,
                0 <= me,
        ;
    }
    assert(0 <= f * dt <= cap * dt) by (nonlinear_arith)
        requires
            0 <= f <= cap,
            0 <= dt,
    ;
    lemma_div_is_ordered(f * dt, cap * dt, 1000);
    lemma_div_is_ordered(0, f * dt, 1000);
    let mag = pull_magnitude(mp, me, d2, dt);
    assert(0 <= mag <= cap * dt / 1000);
    if d2 != 0 {
        lemma_ceil_sqrt(d2);
        let c = ceil_sqrt(d2);
        assert(-c <= dx <= c && -c <= dy <= c) by (nonlinear_arith)
            requires
                dx * dx <= c * c,
                dy * dy <= c * c,
                c >= 1,
        ;
        lemma_axis_share(mag, dx, c);
        lemma_axis_share(mag, dy, c);
        let rx = div_toward_zero(mag * dx, c);
        let ry = div_toward_zero(mag * dy, c);
        assert(rx * rx + ry * ry <= mag * mag) by (nonlinear_arith)
            requires
                rx * rx * (c * c) <= (mag * mag) * (dx * dx),
                ry * ry * (c * c) <= (mag * mag) * (dy * dy),
                dx * dx + dy * dy <= c * c,
                c >= 1,
        ;
        assert(pull(source, mp, pos, me, dt) == (rx, ry));
        assert(pull(source, mp, pos, me, dt).0 == rx);
        assert(pull(source, mp, pos, me, dt).1 == ry);
    } else {
        assert(mag * mag >= 0) by (nonlinear_arith);
        assert(pull(source, mp, pos, me, dt) == (0int, 0int));
        assert(pull(source, mp, pos, me, dt).0 == 0);
        assert(pull(source, mp, pos, me, dt).1 == 0);
        assert(0int * 0int + 0int * 0int == 0int);
    }
}

fn axis_pull(mag: i128, delta: i128, c: i128) -> (r: i128)
    requires
        0 <= mag <= EXTENT,
        -c <= delta <= c,
        0 < c <= 0x1_0000_0000_0000_0000int,
    ensures
        r == div_toward_zero(mag * delta, c as int),
{
    assert(-EXTENT * 0x1_0000_0000_0000_0000int <= mag * delta <= EXTENT
        * 0x1_0000_0000_0000_0000int) by (nonlinear_arith)
        requires
            0 <= mag <= EXTENT,
            -c <= delta <= c,
            0 < c <= 0x1_0000_0000_0000_0000int,
    ;
    let n = mag * delta;
    if n >= 0 {
        n / c
    } else {
        -((-n) / c)
    }
}

/// The planet's pull on a body over `dt` milliseconds, as a velocity change.
pub fn gravity_velocity(source: Vec2, mp: i64, pos: Vec2, me: i64, dt: u64) -> (r: Vec2)
    requires
        source.in_extent(),
        pos.in_extent(),
        0 <= mp <= MASS_LIMIT,
        0 <= me <= MASS_LIMIT,
        dt <= DT_LIMIT,
    ensures
        (r.x as int, r.y as int) == pull(source, mp as int, pos, me as int, dt as int),
        r.x * r.x + r.y * r.y <= pull_magnitude(mp as int, me as int, dist_sq(source, pos), dt as int)
            * pull_magnitude(mp as int, me as int, dist_sq(source, pos), dt as int),
        r.x * r.x + r.y * r.y <= (gravity_force(mp as int, me as int, UNIT * UNIT) * dt / 1000) * (
        gravity_force(mp as int, me as int, UNIT * UNIT) * dt / 1000),
        -EXTENT <= r.x <= EXTENT,
        -EXTENT <= r.y <= EXTENT,
{
    proof {
        lemma_pull_capped(source, mp as int, pos, me as int, dt as int);
        let mag = pull_magnitude(mp as int, me as int, dist_sq(source, pos), dt as int);
        let cap = gravity_force(mp as int, me as int, UNIT * UNIT) * dt / 1000;
        assert(mag * mag <= cap * cap) by (nonlinear_arith)
            requires
                0 <= mag <= cap,
        ;
    }
    let d2 = distance_sq(source, pos);
    if d2 == 0 {
        return Vec2 { x: 0, y: 0 };
    }
    let f = isqrt(d2);
    assert(f * f < 0x1_0000_0000_0000_0000_0000_0000_0000_0000int) by (nonlinear_arith)
        requires
            f < 0x1_0000_0000_0000_0000u128,
    ;
    let c: u128 = if f * f == d2 {
        f
    } else {
        f + 1
    };
    proof {
        lemma_ceil_sqrt(d2 as int);
    }
    let den: u128 = if d2 > (UNIT * UNIT) as u128 {
        d2
    } else {
        (UNIT * UNIT) as u128
    };
    let mpi = mp as i128;
    let mei = me as i128;
    assert(0 <= mpi * mei <= MASS_LIMIT * MASS_LIMIT) by (nonlinear_arith)
        requires
            0 <= mpi <= MASS_LIMIT,
            0 <= mei <= MASS_LIMIT,
    ;
    let num = (UNIT * GRAVITY) as i128 * (mpi * mei);
    let force = num / den as i128;
    assert(UNIT * GRAVITY * mp * me == (UNIT * GRAVITY) * (mp * me)) by (nonlinear_arith);
    assert(force <= num) by {
        vstd::arithmetic::div_mod::lemma_div_is_ordered_by_denominator(num as int, 1, den as int);
    }
    assert(0 <= force * dt <= 250_000 * MASS_LIMIT * MASS_LIMIT * DT_LIMIT) by (nonlinear_arith)
        requires
            0 <= force <= 250_000 * MASS_LIMIT * MASS_LIMIT,
            0 <= dt <= DT_LIMIT,
    ;
    let mag = clamp_to_extent(force * dt as i128 / 1000) as i128;
    let dx = source.x as i128 - pos.x as i128;
    let dy = source.y as i128 - pos.y as i128;
    assert(-c <= dx <= c && -c <= dy <= c) by (nonlinear_arith)
        requires
            d2 <= c * c,
            d2 == dx * dx + dy * dy,
            c >= 1,
    ;
    let vx = axis_pull(mag, dx, c as i128);
    let vy = axis_pull(mag, dy, c as i128);
    Vec2 { x: vx as i64, y: vy as i64 }
}

/// A body after the planet's pull: only bullets and asteroids feel it.
pub open spec fn pulled(p: Planet, b: Body, dt: int) -> Body {
    if b.is_massive() {
        Body { vel: pulled_vel(b.vel, pull(p.pos, p.mass as int, b.pos, b.mass as int, dt)), ..b }
    } else {
        b
    }
}

/// Keeping the velocity in the extent never lengthens the change of
/// velocity.
proof fn lemma_clamped_change(v: int, d: int)
    requires
        in_extent(v),
    ensures
        (clamp_extent(v + d) - v) * (clamp_extent(v + d) - v) <= d * d,
{
    let c = clamp_extent(v + d) - v;
    assert(c * c <= d * d) by (nonlinear_arith)
        requires
            (0 <= c <= d) || (d <= c <= 0),
    ;
}

/// The gravity step changes a body's velocity by at most the pull at a
/// distance of one unit, `G * mp * me`, times `dt`, however close it is to
/// the planet.
pub proof fn lemma_gravity_step_capped(p: Planet, b: Body, dt: int)
    requires
        p.wf(),
        b.wf(),
        0 <= dt,
    ensures
        ({
            let v = pulled(p, b, dt).vel;
            let cap = gravity_force(p.mass as int, b.mass as int, UNIT * UNIT) * dt / 1000;
            (v.x - b.vel.x) * (v.x - b.vel.x) + (v.y - b.vel.y) * (v.y - b.vel.y) <= cap * cap
        }),
{
    let cap = gravity_force(p.mass as int, b.mass as int, UNIT * UNIT) * dt / 1000;
    lemma_pull_capped(p.pos, p.mass as int, b.pos, b.mass as int, dt);
    let mag = pull_magnitude(p.mass as int, b.mass as int, dist_sq(p.pos, b.pos), dt);
    assert(mag * mag <= cap * cap) by (nonlinear_arith)
        requires
            0 <= mag <= cap,
    ;
    if b.is_massive() {
        let dv = pull(p.pos, p.mass as int, b.pos, b.mass as int, dt);
        lemma_clamped_change(b.vel.x as int, dv.0);
        lemma_clamped_change(b.vel.y as int, dv.1);
        let nx = clamp_extent(b.vel.x + dv.0);
        let ny = clamp_extent(b.vel.y + dv.1);
        assert(pulled(p, b, dt).vel.x == nx && pulled(p, b, dt).vel.y == ny);
    } else {
        assert(cap * cap >= 0) by (nonlinear_arith);
    }
}

pub open spec fn pulled_ship(p: Planet, s: Ship, dt: int) -> Ship {
    Ship { vel: pulled_vel(s.vel, pull(p.pos, p.mass as int, s.pos, s.mass as int, dt)), ..s }
}

fn add_pull(v: Vec2, dv: Vec2) -> (r: Vec2)
    requires
        v.in_extent(),
        dv.in_extent(),
    ensures
        r == pulled_vel(v, (dv.x as int, dv.y as int)),
        r.in_extent(),
{
    Vec2 {
        x: clamp_to_extent(v.x as i128 + dv.x as i128),
        y: clamp_to_extent(v.y as i128 + dv.y as i128),
    }
}

/// The gravity step of a frame: the ship, bullets and asteroids are pulled
/// toward the planet, if there is one.
pub fn apply_gravity(world: &mut World, dt: u64)
    requires
        old(world).wf(),
        dt <= DT_LIMIT,
    ensures
        final(world).wf(),
        final(world).planet == old(world).planet,
        match old(world).planet {
            None => final(world).ship == old(world).ship && final(world).bodies@ == old(
                world,
            ).bodies@,
            Some(p) => {
                &&& final(world).ship == match old(world).ship {
                    Some(s) => Some(pulled_ship(p, s, dt as int)),
                    None => None,
                }
                &&& final(world).bodies@ == old(world).bodies@.map_values(
                    |b: Body| pulled(p, b, dt as int),
                )
            },
        },
{
    let p = match world.planet {
        Some(p) => p,
        None => {
            return;
        },
    };
    if let Some(s) = world.ship {
        let dv = gravity_velocity(p.pos, p.mass, s.pos, s.mass, dt);
        world.ship = Some(Ship { vel: add_pull(s.vel, dv), ..s });
    }
    let ghost s0 = world.bodies@;
    let ghost ship1 = world.ship;
    let mut i: usize = 0;
    while i < world.bodies.len()
        invariant
            0 <= i <= world.bodies.len(),
            world.bodies@.len() == s0.len(),
            bodies_wf(s0),
            bodies_wf(world.bodies@),
            p.wf(),
            dt <= DT_LIMIT,
            world.planet == Some(p),
            world.ship == ship1,
            ship1 matches Some(sh) ==> sh.wf(),
            forall|j: int| 0 <= j < i ==> world.bodies@[j] == pulled(p, #[trigger] s0[j], dt as int),
            forall|j: int| i <= j < s0.len() ==> world.bodies@[j] == #[trigger] s0[j],
        decreases world.bodies.len() - i,
    {
        let b = world.bodies[i];
        assert(b.wf());
        if b.kind == BodyKind::Bullet || b.kind == BodyKind::Asteroid {
            let dv = gravity_velocity(p.pos, p.mass, b.pos, b.mass, dt);
            world.bodies.set(i, Body { vel: add_pull(b.vel, dv), ..b });
        }
        i += 1;
    }
    assert(world.bodies@ =~= s0.map_values(|b: Body| pulled(p, b, dt as int)));
}

/// How far an asteroid's speed falls in `dt` milliseconds at a distance
/// `surface` from the planet's surface.
pub open spec fn drag_loss(radius: int, surface: int, dt: int) -> int {
    dt * (ASTEROID_DRAG_CONSTANT * UNIT + ASTEROID_DRAG_RADIUS_FACTOR * radius) / surface
}

/// The speed an asteroid keeps: reduced by the drag, never below zero; an
/// asteroid at or inside the planet's surface stops.
pub open spec fn dragged_speed(speed: int, radius: int, surface: int, dt: int) -> int {
    if surface <= 0 {
        0
    } else {
        max(0, speed - drag_loss(radius, surface, dt))
    }
}

/// An asteroid after drag: its velocity keeps its direction and takes the
/// reduced speed. Other bodies are untouched.
pub open spec fn dragged(p: Planet, b: Body, dt: int) -> Body {
    if b.kind == BodyKind::Asteroid {
        let surface = floor_sqrt(dist_sq(p.pos, b.pos)) - p.radius;
        let speed = floor_sqrt(b.vel.x * b.vel.x + b.vel.y * b.vel.y);
        let ns = dragged_speed(speed, b.radius as int, surface, dt);
        if speed == 0 {
            b
        } else {
            Body {
                vel: Vec2 { x: (b.vel.x * ns / speed) as i64, y: (b.vel.y * ns / speed) as i64 },
                ..b
            }
        }
    } else {
        b
    }
}

fn drag_one(p: &Planet, b: Body, dt: u64) -> (r: Body)
    requires
        p.wf(),
        b.wf(),
        dt <= DT_LIMIT,
    ensures
        r == dragged(*p, b, dt as int),
        r.wf(),
{
    if b.kind != BodyKind::Asteroid {
        return b;
    }
    let vx = b.vel.x as i128;
    let vy = b.vel.y as i128;
    assert(0 <= vx * vx <= EXTENT * EXTENT && 0 <= vy * vy <= EXTENT * EXTENT) by (
    nonlinear_arith)
        requires
            -EXTENT <= vx <= EXTENT,
            -EXTENT <= vy <= EXTENT,
    ;
    let speed = isqrt((vx * vx + vy * vy) as u128) as i128;
    if speed == 0 {
        return b;
    }
    let dist = isqrt(distance_sq(p.pos, b.pos)) as i128;
    let surface = dist - p.radius as i128;
    let grip = ASTEROID_DRAG_CONSTANT as i128 * UNIT as i128 + ASTEROID_DRAG_RADIUS_FACTOR as i128
        * b.radius as i128;
    assert(0 <= dt * grip <= DT_LIMIT * (300_000 + 5 * EXTENT)) by (nonlinear_arith)
        requires
            0 <= dt <= DT_LIMIT,
            0 <= grip <= 300_000 + 5 * EXTENT,
    ;
    let ns: i128 = if surface <= 0 {
        0
    } else {
        let loss = dt as i128 * grip / surface;
        if speed > loss {
            speed - loss
        } else {
            0
        }
    };
    assert(-speed <= vx <= speed && -speed <= vy <= speed) by (nonlinear_arith)
        requires
            is_floor_sqrt(vx * vx + vy * vy, speed as int),
    ;
    assert(speed <= 0x1_0000_0000_0000_0000int);
    let nx = axis_share(vx, ns, speed);
    let ny = axis_share(vy, ns, speed);
    Body { vel: Vec2 { x: nx as i64, y: ny as i64 }, ..b }
}

fn axis_share(v: i128, n: i128, d: i128) -> (r: i128)
    requires
        -EXTENT <= v <= EXTENT,
        0 <= n <= d,
        0 < d <= 0x1_0000_0000_0000_0000int,
    ensures
        r == v * n / d as int,
        -EXTENT <= r <= EXTENT,
{
    assert(-EXTENT * 0x1_0000_0000_0000_0000int <= v * n <= EXTENT * 0x1_0000_0000_0000_0000int)
        by (nonlinear_arith)
        requires
            -EXTENT <= v <= EXTENT,
            0 <= n <= d,
            0 < d <= 0x1_0000_0000_0000_0000int,
    ;
    proof {
        lemma_floor_share(v as int, n as int, d as int);
    }
    div_floor(v * n, d)
}

/// The drag step of a frame: asteroids slow down, more so near the planet.
pub fn asteroid_drag(world: &mut World, dt: u64)
    requires
        old(world).wf(),
        dt <= DT_LIMIT,
    ensures
        final(world).wf(),
        final(world).planet == old(world).planet,
        final(world).ship == old(world).ship,
        final(world).bodies@ == match old(world).planet {
            None => old(world).bodies@,
            Some(p) => old(world).bodies@.map_values(|b: Body| dragged(p, b, dt as int)),
        },
{
    let p = match world.planet {
        Some(p) => p,
        None => {
            return;
        },
    };
    let ghost s0 = world.bodies@;
    let ghost ship0 = world.ship;
    let mut i: usize = 0;
    while i < world.bodies.len()
        invariant
            0 <= i <= world.bodies.len(),
            world.bodies@.len() == s0.len(),
            bodies_wf(s0),
            bodies_wf(world.bodies@),
            p.wf(),
            dt <= DT_LIMIT,
            world.planet == Some(p),
            world.ship == ship0,
            ship0 matches Some(sh) ==> sh.wf(),
            forall|j: int| 0 <= j < i ==> world.bodies@[j] == dragged(p, #[trigger] s0[j], dt as int),
            forall|j: int| i <= j < s0.len() ==> world.bodies@[j] == #[trigger] s0[j],
        decreases world.bodies.len() - i,
    {
        let b = world.bodies[i];
        assert(b.wf());
        world.bodies.set(i, drag_one(&p, b, dt));
        i += 1;
    }
    assert(world.bodies@ =~= s0.map_values(|b: Body| dragged(p, b, dt as int)));
}

/// A point after moving at velocity `v` for `dt` milliseconds, kept in the
/// extent.
pub open spec fn moved(pos: Vec2, v: Vec2, dt: int) -> Vec2 {
    Vec2 {
        x: clamp_extent(pos.x + v.x * dt / 1000) as i64,
        y: clamp_extent(pos.y + v.y * dt / 1000) as i64,
    }
}

pub open spec fn advanced(b: Body, dt: int) -> Body {
    if b.moves() {
        Body { pos: moved(b.pos, b.vel, dt), ..b }
    } else {
        b
    }
}

fn move_point(pos: Vec2, v: Vec2, dt: u64) -> (r: Vec2)
    requires
        pos.in_extent(),
        v.in_extent(),
        dt <= DT_LIMIT,
    ensures
        r == moved(pos, v, dt as int),
        r.in_extent(),
{
    let t = dt as i128;
    let vx = v.x as i128;
    let vy = v.y as i128;
    assert(-EXTENT * DT_LIMIT <= vx * t <= EXTENT * DT_LIMIT && -EXTENT * DT_LIMIT <= vy * t
        <= EXTENT * DT_LIMIT) by (nonlinear_arith)
        requires
            -EXTENT <= vx <= EXTENT,
            -EXTENT <= vy <= EXTENT,
            0 <= t <= DT_LIMIT,
    ;
    let sx = div_floor(vx * t, 1000);
    let sy = div_floor(vy * t, 1000);
    Vec2 {
        x: clamp_to_extent(pos.x as i128 + sx),
        y: clamp_to_extent(pos.y as i128 + sy),
    }
}

/// The motion step of a frame: the ship, bullets, asteroids and explosions
/// move by their velocity; trail segments stay.
pub fn apply_velocity(world: &mut World, dt: u64)
    requires
        old(world).wf(),
        dt <= DT_LIMIT,
    ensures
        final(world).wf(),
        final(world).planet == old(world).planet,
        final(world).ship == match old(world).ship {
            Some(s) => Some(Ship { pos: moved(s.pos, s.vel, dt as int), ..s }),
            None => None,
        },
        final(world).bodies@ == old(world).bodies@.map_values(|b: Body| advanced(b, dt as int)),
{
    if let Some(s) = world.ship {
        world.ship = Some(Ship { pos: move_point(s.pos, s.vel, dt), ..s });
    }
    let ghost s0 = world.bodies@;
    let ghost ship1 = world.ship;
    let ghost planet0 = world.planet;
    let mut i: usize = 0;
    while i < world.bodies.len()
        invariant
            0 <= i <= world.bodies.len(),
            world.bodies@.len() == s0.len(),
            bodies_wf(s0),
            bodies_wf(world.bodies@),
            dt <= DT_LIMIT,
            world.planet == planet0,
            world.ship == ship1,
            ship1 matches Some(sh) ==> sh.wf(),
            planet0 matches Some(pl) ==> pl.wf(),
            forall|j: int| 0 <= j < i ==> world.bodies@[j] == advanced(#[trigger] s0[j], dt as int),
            forall|j: int| i <= j < s0.len() ==> world.bodies@[j] == #[trigger] s0[j],
        decreases world.bodies.len() - i,
    {
        let b = world.bodies[i];
        assert(b.wf());
        if b.kind != BodyKind::Trail {
            world.bodies.set(i, Body { pos: move_point(b.pos, b.vel, dt), ..b });
        }
        i += 1;
    }
    assert(world.bodies@ =~= s0.map_values(|b: Body| advanced(b, dt as int)));
}

} // verus!
