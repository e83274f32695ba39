//! The player's ship: steering, thrust, screen wrap, the gun and the trail.
use vstd::prelude::*;
use vstd::arithmetic::div_mod::{lemma_fundamental_div_mod, lemma_fundamental_div_mod_converse, lemma_mod_pos_bound};
use crate::config::{
    BULLET_LIFETIME, BULLET_MASS, BULLET_RADIUS, BULLET_SPEED, DT_LIMIT, SHIP_FIRE_DELAY,
    SHIP_MAX_THRUST, SHIP_NOSE, SHIP_ROTATION_ACCEL, SHIP_ROTATION_DECEL, SHIP_ROTATION_SPEED,
    TRAIL_LIFETIME,
};
use crate::fixed::{clamp_extent, clamp_to_extent, div_floor, Vec2, EXTENT};
use crate::physics::max;
use crate::planet::min;
use crate::trig::{cos_of, cosine, is_angle, sin_of, sine, turn, FULL_TURN, TRIG_ONE};
use crate::game::Game;
use crate::world::{Body, BodyKind, Ship, World};

verus! {

/// What the player holds down this frame.
#[derive(Clone, Copy, PartialEq, Eq, Debug, Structural)]
pub struct Controls {
    pub left: bool,
    pub right: bool,
    pub thrust: bool,
    pub fire: bool,
}

/// Angular speed gained under rotate input in `dt` milliseconds.
pub open spec fn spin_gain(dt: int) -> int {
    dt * SHIP_ROTATION_ACCEL / 1000
}

/// Angular speed lost without rotate input in `dt` milliseconds.
pub open spec fn spin_loss(dt: int) -> int {
    dt * SHIP_ROTATION_DECEL / 1000
}

pub open spec fn clamp_spin(s: int) -> int {
    if s > SHIP_ROTATION_SPEED {
        SHIP_ROTATION_SPEED as int
    } else if s < -SHIP_ROTATION_SPEED {
        -SHIP_ROTATION_SPEED as int
    } else {
        s
    }
}

/// Angular speed decayed toward zero by `loss`, without passing it.
pub open spec fn settle(s: int, loss: int) -> int {
    if s > 0 {
        max(0, s - loss)
    } else if s < 0 {
        min(0, s + loss)
    } else {
        0
    }
}

/// The ship's nose direction at heading `a`, scaled by `TRIG_ONE`.
pub open spec fn forward(a: int) -> (int, int) {
    (-sine(a), cosine(a))
}

/// `base + f * k / TRIG_ONE`, kept in the extent.
pub open spec fn along(base: int, f: int, k: int) -> int {
    clamp_extent(base + f * k / (TRIG_ONE as int))
}

/// The ship after one frame of steering: rotate input accelerates the spin
/// up to its limit, the heading turns by the spin, the spin then decays
/// toward zero if no rotate input is held, and thrust pushes along the new
/// heading.
pub open spec fn steered(s: Ship, c: Controls, dt: int) -> Ship {
    let s1 = s.spin + (if c.left {
        spin_gain(dt)
    } else {
        0
    }) - (if c.right {
        spin_gain(dt)
    } else {
        0
    });
    let s2 = clamp_spin(s1);
    let a = turn(s.angle + s2 * dt / 1000);
    let s3 = if c.left || c.right {
        s2
    } else {
        settle(s2, spin_loss(dt))
    };
    let (fx, fy) = forward(a);
    let push = SHIP_MAX_THRUST * dt / 1000;
    Ship {
        angle: a as i64,
        spin: s3 as i64,
        vel: if c.thrust {
            Vec2 { x: along(s.vel.x as int, fx, push) as i64, y: along(s.vel.y as int, fy, push) as i64 }
        } else {
            s.vel
        },
        ..s
    }
}

/// Any angle brought into one turn.
pub fn turn_of(t: i128) -> (r: i64)
    requires
        t > i128::MIN,
    ensures
        r == turn(t as int),
        is_angle(r as int),
{
    let f = FULL_TURN as i128;
    if t >= 0 {
        proof {
            lemma_mod_pos_bound(t as int, f as int);
        }
        (t % f) as i64
    } else {
        assert(-t > 0);
        let m = (-t) % f;
        proof {
            lemma_fundamental_div_mod(-t as int, f as int);
            lemma_mod_pos_bound(-t as int, f as int);
            let q = (-t as int) / (f as int);
            if m == 0 {
                assert(t == (-q) * f + 0) by (nonlinear_arith)
                    requires
                        -t == f * q + m,
                        m == 0,
                ;
                lemma_fundamental_div_mod_converse(t as int, f as int, -q, 0);
            } else {
                assert(t == (-q - 1) * f + (f - m)) by (nonlinear_arith)
                    requires
                        -t == f * q + m,
                ;
                lemma_fundamental_div_mod_converse(t as int, f as int, -q - 1, f - m);
            }
        }
        if m == 0 {
            0
        } else {
            (f - m) as i64
        }
    }
}

fn push_along(base: i64, f: i64, k: i64) -> (r: i64)
    requires
        -EXTENT <= base <= EXTENT,
        -TRIG_ONE <= f <= TRIG_ONE,
        0 <= k <= EXTENT,
    ensures
        r == along(base as int, f as int, k as int),
{
    let fi = f as i128;
    let ki = k as i128;
    assert(-TRIG_ONE * EXTENT <= fi * ki <= TRIG_ONE * EXTENT) by (nonlinear_arith)
        requires
            -TRIG_ONE <= fi <= TRIG_ONE,
            0 <= ki <= EXTENT,
    ;
    let q = div_floor(fi * ki, TRIG_ONE as i128);
    assert(-EXTENT <= q <= EXTENT) by (nonlinear_arith)
        requires
            q == (fi * ki) as int / 1_000_000int,
            -TRIG_ONE * EXTENT <= fi * ki <= TRIG_ONE * EXTENT,
    ;
    clamp_to_extent(base as i128 + q)
}

/// Steering and thrust for one frame.
pub fn steer(s: Ship, c: Controls, dt: u64) -> (r: Ship)
    requires
        s.wf(),
        dt <= DT_LIMIT,
    ensures
        r == steered(s, c, dt as int),
        r.wf(),
{
    let gain = (dt as i128 * SHIP_ROTATION_ACCEL as i128) / 1000;
    let mut s1 = s.spin as i128;
    if c.left {
        s1 = s1 + gain;
    }
    if c.right {
        s1 = s1 - gain;
    }
    let s2: i128 = if s1 > SHIP_ROTATION_SPEED as i128 {
        SHIP_ROTATION_SPEED as i128
    } else if s1 < -(SHIP_ROTATION_SPEED as i128) {
        -(SHIP_ROTATION_SPEED as i128)
    } else {
        s1
    };
    let dti = dt as i128;
    assert(-SHIP_ROTATION_SPEED * DT_LIMIT <= s2 * dti <= SHIP_ROTATION_SPEED * DT_LIMIT) by (
    nonlinear_arith)
        requires
            -SHIP_ROTATION_SPEED <= s2 <= SHIP_ROTATION_SPEED,
            0 <= dti <= DT_LIMIT,
    ;
    let turned = div_floor(s2 * dti, 1000);
    let a = turn_of(s.angle as i128 + turned);
    let s3: i128 = if c.left || c.right {
        s2
    } else {
        let loss = (dt as i128 * SHIP_ROTATION_DECEL as i128) / 1000;
        if s2 > 0 {
            if s2 > loss {
                s2 - loss
            } else {
                0
            }
        } else if s2 < 0 {
            if s2 + loss < 0 {
                s2 + loss
            } else {
                0
            }
        } else {
            0
        }
    };
    let vel = if c.thrust {
        assert(0 <= SHIP_MAX_THRUST * dti <= SHIP_MAX_THRUST * DT_LIMIT) by (nonlinear_arith)
            requires
                0 <= dti <= DT_LIMIT,
        ;
        let push = (SHIP_MAX_THRUST as i128 * dti / 1000) as i64;
        let fx = -sin_of(a);
        let fy = cos_of(a);
        Vec2 { x: push_along(s.vel.x, fx, push), y: push_along(s.vel.y, fy, push) }
    } else {
        s.vel
    };
    Ship { angle: a, spin: s3 as i64, vel, ..s }
}

/// The steering step of a frame, on the ship if there is one. The
/// trajectory display flips when its toggle is pressed.
pub fn ship_control(world: &mut World, game: &mut Game, c: Controls, toggle: bool, dt: u64)
    requires
        old(world).wf(),
        dt <= DT_LIMIT,
    ensures
        final(world).wf(),
        final(world).planet == old(world).planet,
        final(world).bodies@ == old(world).bodies@,
        final(world).ship == match old(world).ship {
            Some(s) => Some(steered(s, c, dt as int)),
            None => None,
        },
        *final(game) == (Game { draw_trajectory: old(game).draw_trajectory != toggle, ..*old(game) }),
{
    if let Some(s) = world.ship {
        world.ship = Some(steer(s, c, dt));
    }
    if toggle {
        game.draw_trajectory = !game.draw_trajectory;
    }
}

/// A coordinate past `h` on either side re-enters from the other side,
/// keeping its overshoot beyond the edge (as a remainder of `h`).
pub open spec fn wrap_axis(x: int, h: int) -> int {
    if x < -h {
        h - (-x) % h
    } else if x > h {
        -h + x % h
    } else {
        x
    }
}

pub fn wrap_coord(x: i64, h: i64) -> (r: i64)
    requires
        -EXTENT <= x <= EXTENT,
        0 < h <= EXTENT,
    ensures
        r == wrap_axis(x as int, h as int),
        -h <= r <= h,
{
    if x < -h {
        proof {
            lemma_mod_pos_bound(-x as int, h as int);
        }
        h - (-x) % h
    } else if x > h {
        proof {
            lemma_mod_pos_bound(x as int, h as int);
        }
        -h + x % h
    } else {
        x
    }
}

/// The screen-wrap step of a frame: the ship is brought back inside the
/// window of half-width `half_w` and half-height `half_h`.
pub fn space_clamp(world: &mut World, half_w: i64, half_h: i64)
    requires
        old(world).wf(),
        0 < half_w <= EXTENT,
        0 < half_h <= EXTENT,
    ensures
        final(world).wf(),
        final(world).planet == old(world).planet,
        final(world).bodies@ == old(world).bodies@,
        final(world).ship == match old(world).ship {
            Some(s) => Some(
                Ship {
                    pos: Vec2 {
                        x: wrap_axis(s.pos.x as int, half_w as int) as i64,
                        y: wrap_axis(s.pos.y as int, half_h as int) as i64,
                    },
                    ..s
                },
            ),
            None => None,
        },
        final(world).ship matches Some(s) ==> -half_w <= s.pos.x <= half_w && -half_h <= s.pos.y
            <= half_h,
{
    if let Some(s) = world.ship {
        let x = wrap_coord(s.pos.x, half_w);
        let y = wrap_coord(s.pos.y, half_h);
        world.ship = Some(Ship { pos: Vec2 { x, y }, ..s });
    }
}

/// A countdown after `dt` more milliseconds: it stops at zero.
pub open spec fn count_down(t: int, dt: int) -> int {
    if dt >= t {
        0
    } else {
        t - dt
    }
}

pub fn countdown(t: u64, dt: u64) -> (r: u64)
    ensures
        r == count_down(t as int, dt as int),
{
    if dt >= t {
        0
    } else {
        t - dt
    }
}

/// A bullet leaving the nose of ship `s`, along its heading.
pub open spec fn bullet_from(s: Ship) -> Body {
    let (fx, fy) = forward(s.angle as int);
    let pos = Vec2 {
        x: along(s.pos.x as int, fx, SHIP_NOSE as int) as i64,
        y: along(s.pos.y as int, fy, SHIP_NOSE as int) as i64,
    };
    Body {
        kind: BodyKind::Bullet,
        pos,
        vel: Vec2 { x: (fx * BULLET_SPEED / TRIG_ONE as int) as i64, y: (fy * BULLET_SPEED / TRIG_ONE as int) as i64 },
        radius: BULLET_RADIUS,
        mass: BULLET_MASS,
        lifetime: BULLET_LIFETIME,
        seed: 0,
        end: pos,
    }
}

/// The gun after one frame: its delay runs down, and if it has run out
/// while fire is held, a bullet leaves and the delay starts again.
pub open spec fn gun_ready(s: Ship, fire: bool, dt: int) -> bool {
    fire && count_down(s.fire_delay as int, dt) == 0
}

pub open spec fn after_gun(s: Ship, fire: bool, dt: int) -> Ship {
    Ship {
        fire_delay: if gun_ready(s, fire, dt) {
            SHIP_FIRE_DELAY
        } else {
            count_down(s.fire_delay as int, dt) as u64
        },
        ..s
    }
}

pub fn make_bullet(s: &Ship) -> (b: Body)
    requires
        s.wf(),
    ensures
        b == bullet_from(*s),
        b.wf(),
{
    let fx = -sin_of(s.angle);
    let fy = cos_of(s.angle);
    let pos = Vec2 { x: push_along(s.pos.x, fx, SHIP_NOSE), y: push_along(s.pos.y, fy, SHIP_NOSE) };
    let vx = div_floor(fx as i128 * BULLET_SPEED as i128, TRIG_ONE as i128);
    let vy = div_floor(fy as i128 * BULLET_SPEED as i128, TRIG_ONE as i128);
    assert(-BULLET_SPEED <= vx <= BULLET_SPEED && -BULLET_SPEED <= vy <= BULLET_SPEED) by (
    nonlinear_arith)
        requires
            vx == (fx * 300_000) as int / 1_000_000int,
            vy == (fy * 300_000) as int / 1_000_000int,
            -TRIG_ONE <= fx <= TRIG_ONE,
            -TRIG_ONE <= fy <= TRIG_ONE,
    ;
    Body {
        kind: BodyKind::Bullet,
        pos,
        vel: Vec2 { x: vx as i64, y: vy as i64 },
        radius: BULLET_RADIUS,
        mass: BULLET_MASS,
        lifetime: BULLET_LIFETIME,
        seed: 0,
        end: pos,
    }
}

/// The gun step of a frame.
pub fn fire_control(world: &mut World, fire: bool, dt: u64)
    requires
        old(world).wf(),
    ensures
        final(world).wf(),
        final(world).planet == old(world).planet,
        match old(world).ship {
            None => final(world).ship is None && final(world).bodies@ == old(world).bodies@,
            Some(s) => {
                &&& final(world).ship == Some(after_gun(s, fire, dt as int))
                &&& final(world).bodies@ == if gun_ready(s, fire, dt as int) {
                    old(world).bodies@.push(bullet_from(s))
                } else {
                    old(world).bodies@
                }
            },
        },
{
    if let Some(s) = world.ship {
        let delay = countdown(s.fire_delay, dt);
        if fire && delay == 0 {
            let b = make_bullet(&s);
            world.bodies.push(b);
            world.ship = Some(Ship { fire_delay: SHIP_FIRE_DELAY, ..s });
        } else {
            world.ship = Some(Ship { fire_delay: delay, ..s });
        }
    }
}

/// A trail segment from where the ship stands back to where it last stood.
pub open spec fn trail_from(s: Ship) -> Body {
    Body {
        kind: BodyKind::Trail,
        pos: s.pos,
        vel: Vec2 { x: 0, y: 0 },
        radius: 0,
        mass: 0,
        lifetime: TRAIL_LIFETIME,
        seed: 0,
        end: s.last_pos,
    }
}

/// The trail step of a frame: one segment covers the ship's displacement
/// since the last one.
pub fn lay_trail(world: &mut World)
    requires
        old(world).wf(),
    ensures
        final(world).wf(),
        final(world).planet == old(world).planet,
        match old(world).ship {
            None => final(world).ship is None && final(world).bodies@ == old(world).bodies@,
            Some(s) => {
                &&& final(world).ship == Some(Ship { last_pos: s.pos, ..s })
                &&& final(world).bodies@ == old(world).bodies@.push(trail_from(s))
            },
        },
{
    if let Some(s) = world.ship {
        world.bodies.push(
            Body {
                kind: BodyKind::Trail,
                pos: s.pos,
                vel: Vec2 { x: 0, y: 0 },
                radius: 0,
                mass: 0,
                lifetime: TRAIL_LIFETIME,
                seed: 0,
                end: s.last_pos,
            },
        );
        world.ship = Some(Ship { last_pos: s.pos, ..s });
    }
}

} // verus!
