//! What a destroyed asteroid leaves behind: its score, an explosion, and
//! fragments when it was large enough to break.
use vstd::prelude::*;
use crate::config::{
    ASTEROID_FRACTURE_COUNT, ASTEROID_FRACTURE_MIN_RADIUS, ASTEROID_FRACTURE_SPEED_MAX,
    ASTEROID_FRACTURE_SPEED_MIN, ASTEROID_FRACTURE_TENTHS, ASTEROID_LIFETIME, EXPLOSION_LIFETIME,
    MASS_LIMIT, SCORE_BOUNDS_MAX, SCORE_BOUNDS_MIN, SCORE_RADIUS_MAX, SCORE_RADIUS_MIN,
};
use crate::fixed::{clamp_extent, clamp_to_extent, div_floor, Vec2, EXTENT};
use crate::trig::{direction, direction_of, is_angle, turn, FULL_TURN, TRIG_ONE};
use crate::world::{Body, BodyKind};

verus! {

/// Points for destroying an asteroid of radius `r`: the band of radii
/// `[SCORE_RADIUS_MIN, SCORE_RADIUS_MAX]` maps linearly onto
/// `SCORE_BOUNDS_MAX - SCORE_BOUNDS_MIN` down to zero, smaller radii extend
/// the line upward, and larger ones earn nothing.
pub open spec fn score_for(r: int) -> int {
    let v = (SCORE_RADIUS_MAX - r) * (SCORE_BOUNDS_MAX - SCORE_BOUNDS_MIN) / (SCORE_RADIUS_MAX
        - SCORE_RADIUS_MIN);
    if v < 0 {
        0
    } else {
        v
    }
}

pub fn asteroid_score(r: i64) -> (s: u32)
    requires
        0 <= r <= EXTENT,
    ensures
        s == score_for(r as int),
        s <= 100,
{
    if r >= SCORE_RADIUS_MAX {
        0
    } else {
        ((SCORE_RADIUS_MAX - r) * (SCORE_BOUNDS_MAX - SCORE_BOUNDS_MIN) / (SCORE_RADIUS_MAX
            - SCORE_RADIUS_MIN)) as u32
    }
}

/// For radii in the band, the score lies in `[SCORE_BOUNDS_MIN,
/// SCORE_BOUNDS_MAX]` up to a radius of 17.714 units; above that, up to the
/// top of the band, it falls below `SCORE_BOUNDS_MIN` toward zero.
pub proof fn lemma_score_in_bounds(r: int)
    requires
        SCORE_RADIUS_MIN <= r <= SCORE_RADIUS_MAX,
    ensures
        0 <= score_for(r) <= SCORE_BOUNDS_MAX - SCORE_BOUNDS_MIN,
        r <= 17_714 ==> SCORE_BOUNDS_MIN <= score_for(r) <= SCORE_BOUNDS_MAX,
        r > 17_714 ==> score_for(r) < SCORE_BOUNDS_MIN,
{
}

/// `x` tenths of `v`, rounded up.
pub open spec fn tenths_up(v: int, x: int) -> int {
    (v * x + 9) / 10
}

/// The random part of one fragment: its extra speed and outline seed.
#[derive(Clone, Copy, PartialEq, Eq, Debug, Structural)]
pub struct FragmentRoll {
    pub speed: i64,
    pub seed: u64,
}

/// The random part of one shattering: the bearing of the first fragment and
/// one roll per fragment.
#[derive(Clone, Debug)]
pub struct ShatterRoll {
    pub angle: i64,
    pub fragments: Vec<FragmentRoll>,
}

pub open spec fn fragment_roll_ok(f: FragmentRoll) -> bool {
    ASTEROID_FRACTURE_SPEED_MIN <= f.speed < ASTEROID_FRACTURE_SPEED_MAX
}

impl ShatterRoll {
    pub open spec fn wf(self) -> bool {
        &&& is_angle(self.angle as int)
        &&& self.fragments@.len() == ASTEROID_FRACTURE_COUNT
        &&& forall|k: int|
            0 <= k < self.fragments@.len() ==> fragment_roll_ok(#[trigger] self.fragments@[k])
    }
}

/// Angle between successive fragments.
pub open spec fn fracture_sector() -> int {
    FULL_TURN as int / ASTEROID_FRACTURE_COUNT as int
}

pub open spec fn breaks(a: Body) -> bool {
    a.radius > ASTEROID_FRACTURE_MIN_RADIUS
}

/// `base + len * d / TRIG_ONE` along one axis, kept in the extent.
pub open spec fn offset_axis(base: int, len: int, d: int) -> int {
    clamp_extent(base + len * d / (TRIG_ONE as int))
}

/// Fragment `k` of asteroid `a`, thrown along bearing `t`.
pub open spec fn fragment(a: Body, t: int, f: FragmentRoll) -> Body {
    let r = tenths_up(a.radius as int, ASTEROID_FRACTURE_TENTHS as int);
    let (dx, dy) = direction(t);
    Body {
        kind: BodyKind::Asteroid,
        pos: Vec2 {
            x: offset_axis(a.pos.x as int, r, dx) as i64,
            y: offset_axis(a.pos.y as int, r, dy) as i64,
        },
        vel: Vec2 {
            x: offset_axis(a.vel.x as int, f.speed as int, dx) as i64,
            y: offset_axis(a.vel.y as int, f.speed as int, dy) as i64,
        },
        radius: r as i64,
        mass: tenths_up(a.mass as int, ASTEROID_FRACTURE_TENTHS as int) as i64,
        lifetime: ASTEROID_LIFETIME,
        seed: f.seed,
        end: Vec2 {
            x: offset_axis(a.pos.x as int, r, dx) as i64,
            y: offset_axis(a.pos.y as int, r, dy) as i64,
        },
    }
}

/// The explosion left where asteroid `a` was, drifting as it did.
pub open spec fn explosion_of(a: Body) -> Body {
    Body {
        kind: BodyKind::Explosion,
        pos: a.pos,
        vel: a.vel,
        radius: 0,
        mass: 0,
        lifetime: EXPLOSION_LIFETIME,
        seed: 0,
        end: a.pos,
    }
}

/// The fragments of `a`: one per fragment roll, evenly spaced in bearing
/// from the rolled angle.
pub open spec fn fragments(a: Body, roll: ShatterRoll) -> Seq<Body> {
    Seq::new(
        roll.fragments@.len(),
        |k: int| fragment(a, turn(roll.angle + k * fracture_sector()), roll.fragments@[k]),
    )
}

/// Everything that a destroyed asteroid leaves: its explosion, then its
/// fragments if it breaks.
pub open spec fn debris(a: Body, roll: ShatterRoll) -> Seq<Body> {
    if breaks(a) {
        seq![explosion_of(a)] + fragments(a, roll)
    } else {
        seq![explosion_of(a)]
    }
}

fn offset(base: i64, len: i64, d: i64) -> (r: i64)
    requires
        -EXTENT <= base <= EXTENT,
        0 <= len <= EXTENT,
        -TRIG_ONE <= d <= TRIG_ONE,
    ensures
        r == offset_axis(base as int, len as int, d as int),
{
    let l = len as i128;
    let dd = d as i128;
    assert(-EXTENT * TRIG_ONE <= l * dd <= EXTENT * TRIG_ONE) by (nonlinear_arith)
        requires
            l == len,
            dd == d,
            0 <= len <= EXTENT,
            -TRIG_ONE <= d <= TRIG_ONE,
    ;
    let p = l * dd;
    let q = div_floor(p, TRIG_ONE as i128);
    assert(-EXTENT <= q <= EXTENT) by (nonlinear_arith)
        requires
            q == p as int / 1_000_000int,
            -EXTENT * TRIG_ONE <= p <= EXTENT * TRIG_ONE,
    ;
    clamp_to_extent(base as i128 + q)
}

pub fn explosion_at(a: &Body) -> (e: Body)
    ensures
        e == explosion_of(*a),
{
    Body {
        kind: BodyKind::Explosion,
        pos: a.pos,
        vel: a.vel,
        radius: 0,
        mass: 0,
        lifetime: EXPLOSION_LIFETIME,
        seed: 0,
        end: a.pos,
    }
}

pub fn make_fragment(a: &Body, t: i64, f: FragmentRoll) -> (r: Body)
    requires
        a.wf(),
        a.kind == BodyKind::Asteroid,
        is_angle(t as int),
        fragment_roll_ok(f),
    ensures
        r == fragment(*a, t as int, f),
        r.wf(),
{
    let radius = (a.radius as i128 * ASTEROID_FRACTURE_TENTHS as i128 + 9) / 10;
    let mass = (a.mass as i128 * ASTEROID_FRACTURE_TENTHS as i128 + 9) / 10;
    assert(0 < radius <= EXTENT && 0 < mass <= MASS_LIMIT);
    let d = direction_of(t);
    let x = offset(a.pos.x, radius as i64, d.x);
    let y = offset(a.pos.y, radius as i64, d.y);
    let vx = offset(a.vel.x, f.speed, d.x);
    let vy = offset(a.vel.y, f.speed, d.y);
    let r = Body {
        kind: BodyKind::Asteroid,
        pos: Vec2 { x, y },
        vel: Vec2 { x: vx, y: vy },
        radius: radius as i64,
        mass: mass as i64,
        lifetime: ASTEROID_LIFETIME,
        seed: f.seed,
        end: Vec2 { x, y },
    };
    r
}

} // verus!

verus! {

/// An asteroid above the fracture threshold leaves exactly one explosion
/// and `ASTEROID_FRACTURE_COUNT` fragments, each with three tenths of its
/// radius (rounded up, so within a thousandth of a unit) and a full
/// lifetime; a smaller one leaves the explosion alone.
pub proof fn lemma_fracture_count(a: Body, roll: ShatterRoll)
    requires
        roll.wf(),
    ensures
        breaks(a) ==> debris(a, roll).len() == 1 + ASTEROID_FRACTURE_COUNT,
        !breaks(a) ==> debris(a, roll) == seq![explosion_of(a)],
        debris(a, roll)[0] == explosion_of(a),
        forall|k: int|
            1 <= k < debris(a, roll).len() ==> {
                let f = #[trigger] debris(a, roll)[k];
                &&& f.kind == BodyKind::Asteroid
                &&& f.radius == tenths_up(a.radius as int, ASTEROID_FRACTURE_TENTHS as int)
                &&& 0 <= 10 * f.radius - 3 * a.radius < 10
                &&& f.lifetime == ASTEROID_LIFETIME
            },
{
    if breaks(a) {
        let d = debris(a, roll);
        assert forall|k: int| 1 <= k < d.len() implies {
            let f = #[trigger] d[k];
            &&& f.kind == BodyKind::Asteroid
            &&& f.radius == tenths_up(a.radius as int, ASTEROID_FRACTURE_TENTHS as int)
            &&& 0 <= 10 * f.radius - 3 * a.radius < 10
            &&& f.lifetime == ASTEROID_LIFETIME
        } by {
            assert(d[k] == fragments(a, roll)[k - 1]);
        }
    }
}

} // verus!
