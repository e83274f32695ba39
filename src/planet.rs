//! The planet: it swallows what touches it, grows, and once heavy enough
//! collapses along a fixed curve.
use vstd::prelude::*;
use vstd::arithmetic::div_mod::{
    lemma_div_is_ordered, lemma_fundamental_div_mod, lemma_fundamental_div_mod_converse,
};
use crate::config::{
    MASS_LIMIT, PLANET_COLLAPSE_MASS, PLANET_COLLAPSE_RADIUS, PLANET_COLLAPSE_TIME,
    PLANET_MASS_COLLAPSE_TRIGGER, PLANET_MASS_CONSUME_SCALE, PLANET_RADIUS_CONSUME_TENTHS,
};
use crate::fixed::{circles_overlap, div_floor, lemma_floor_share, overlaps, Vec2, EXTENT};
use crate::shatter::tenths_up;
use crate::world::{bodies_wf, Body, BodyKind, Collapse, Planet, Ship, World};

verus! {

/// The collapse time to the eighth power.
pub const COLLAPSE_TIME_POW8: i128 = 25_628_906_250_000_000_000_000_000;

/// A circle at `pos` of radius `r` touches the planet.
pub open spec fn touches(p: Planet, pos: Vec2, r: int) -> bool {
    overlaps(p.pos, p.radius as int, pos, r)
}

pub open spec fn swallowed(p: Planet, b: Body) -> bool {
    b.is_massive() && touches(p, b.pos, b.radius as int)
}

pub open spec fn spared_by(p: Planet) -> spec_fn(Body) -> bool {
    |b: Body| !swallowed(p, b)
}

/// What the planet gains in radius from swallowing a body of radius `r`.
pub open spec fn radius_gain(r: int) -> int {
    tenths_up(r, PLANET_RADIUS_CONSUME_TENTHS as int)
}

/// What the planet gains in mass from swallowing a body of mass `m`.
pub open spec fn mass_gain(m: int) -> int {
    m * PLANET_MASS_CONSUME_SCALE
}

/// Swallowed bodies other than bullets feed the planet.
pub open spec fn feeds(p: Planet, b: Body) -> bool {
    swallowed(p, b) && b.kind != BodyKind::Bullet
}

pub open spec fn radius_intake(p: Planet, s: Seq<Body>) -> int
    decreases s.len(),
{
    if s.len() == 0 {
        0
    } else {
        radius_intake(p, s.drop_last()) + if feeds(p, s.last()) {
            radius_gain(s.last().radius as int)
        } else {
            0
        }
    }
}

pub open spec fn mass_intake(p: Planet, s: Seq<Body>) -> int
    decreases s.len(),
{
    if s.len() == 0 {
        0
    } else {
        mass_intake(p, s.drop_last()) + if feeds(p, s.last()) {
            mass_gain(s.last().mass as int)
        } else {
            0
        }
    }
}

pub open spec fn ship_swallowed(p: Planet, ship: Option<Ship>) -> bool {
    ship matches Some(s) && touches(p, s.pos, s.radius as int)
}

pub open spec fn min(a: int, b: int) -> int {
    if a <= b {
        a
    } else {
        b
    }
}

/// The planet after growing by `dr` in radius and `dm` in mass in one pass.
/// A collapsing planet no longer grows; a stable one that reaches the
/// collapse trigger starts collapsing from its new radius and mass.
pub open spec fn grown(p: Planet, dr: int, dm: int) -> Planet {
    match p.collapse {
        Collapse::Collapsing { .. } => p,
        Collapse::Stable => {
            let r = min(EXTENT as int, p.radius + dr);
            let m = min(MASS_LIMIT as int, p.mass + dm);
            Planet {
                pos: p.pos,
                radius: r as i64,
                mass: m as i64,
                collapse: if m >= PLANET_MASS_COLLAPSE_TRIGGER {
                    Collapse::Collapsing { init_radius: r as i64, init_mass: m as i64, elapsed: 0 }
                } else {
                    Collapse::Stable
                },
            }
        },
    }
}

/// The planet after the swallowing pass over `ship` and `s`.
pub open spec fn fed_planet(p: Planet, ship: Option<Ship>, s: Seq<Body>) -> Planet {
    let (sr, sm) = if ship_swallowed(p, ship) {
        (radius_gain(ship->Some_0.radius as int), mass_gain(ship->Some_0.mass as int))
    } else {
        (0, 0)
    };
    grown(p, radius_intake(p, s) + sr, mass_intake(p, s) + sm)
}

fn grow(p: Planet, dr: i128, dm: i128) -> (r: Planet)
    requires
        p.wf(),
        0 <= dr,
        0 <= dm,
        dr <= i128::MAX - EXTENT,
        dm <= i128::MAX - MASS_LIMIT,
    ensures
        r == grown(p, dr as int, dm as int),
        r.wf(),
{
    match p.collapse {
        Collapse::Collapsing { .. } => p,
        Collapse::Stable => {
            let r = if p.radius as i128 + dr > EXTENT as i128 {
                EXTENT
            } else {
                (p.radius as i128 + dr) as i64
            };
            let m = if p.mass as i128 + dm > MASS_LIMIT as i128 {
                MASS_LIMIT
            } else {
                (p.mass as i128 + dm) as i64
            };
            Planet {
                pos: p.pos,
                radius: r,
                mass: m,
                collapse: if m >= PLANET_MASS_COLLAPSE_TRIGGER {
                    Collapse::Collapsing { init_radius: r, init_mass: m, elapsed: 0 }
                } else {
                    Collapse::Stable
                },
            }
        },
    }
}

/// The swallowing pass of a frame: every ship, bullet or asteroid touching
/// the planet (as it stood when the pass began) is removed; all but bullets
/// feed it, and the growth is applied once at the end of the pass.
pub fn planet_collision(world: &mut World)
    requires
        old(world).wf(),
    ensures
        final(world).wf(),
        match old(world).planet {
            None => final(world).ship == old(world).ship && final(world).planet == old(world).planet
                && final(world).bodies@ == old(world).bodies@,
            Some(p) => {
                &&& final(world).bodies@ == old(world).bodies@.filter(spared_by(p))
                &&& final(world).ship == if ship_swallowed(p, old(world).ship) {
                    None
                } else {
                    old(world).ship
                }
                &&& final(world).planet == Some(
                    fed_planet(p, old(world).ship, old(world).bodies@),
                )
            },
        },
        match old(world).planet {
            Some(p) => p.collapse is Stable && p.radius < EXTENT && p.mass < MASS_LIMIT && (
            ship_swallowed(p, old(world).ship) || exists|i: int|
                0 <= i < old(world).bodies@.len() && feeds(p, #[trigger] old(world).bodies@[i]))
                ==> final(world).planet->Some_0.radius > p.radius && final(world).planet->Some_0.mass
                > p.mass,
            None => true,
        },
        match old(world).planet {
            Some(p) => p.collapse is Stable && !ship_swallowed(p, old(world).ship) && (forall|i: int|
                0 <= i < old(world).bodies@.len() ==> !feeds(p, #[trigger] old(world).bodies@[i]))
                ==> final(world).planet->Some_0.radius == p.radius && final(world).planet->Some_0.mass
                == p.mass,
            None => true,
        },
{
    let p = match world.planet {
        Some(p) => p,
        None => {
            return;
        },
    };
    let ghost s = world.bodies@;
    proof {
        if p.collapse is Stable {
            lemma_planet_growth(p, world.ship, s);
        }
    }
    let mut kept: Vec<Body> = Vec::new();
    let mut dr: i128 = 0;
    let mut dm: i128 = 0;
    let mut i: usize = 0;
    while i < world.bodies.len()
        invariant
            0 <= i <= world.bodies.len(),
            s == world.bodies@,
            bodies_wf(s),
            p.wf(),
            kept@ == s.take(i as int).filter(spared_by(p)),
            bodies_wf(kept@),
            dr == radius_intake(p, s.take(i as int)),
            dm == mass_intake(p, s.take(i as int)),
            0 <= dr <= i * 5_000_000_000_000,
            0 <= dm <= i * 5_000_000_000_000,
            i <= usize::MAX,
        decreases world.bodies.len() - i,
    {
        proof {
            assert(s.take(i + 1).drop_last() =~= s.take(i as int));
            reveal_with_fuel(Seq::filter, 1);
        }
        let b = world.bodies[i];
        assert(b.wf());
        let hit = (b.kind == BodyKind::Bullet || b.kind == BodyKind::Asteroid) && circles_overlap(
            p.pos,
            p.radius,
            b.pos,
            b.radius,
        );
        assert(i * 5_000_000_000_000 + 5_000_000_000_000 <= 0x1_0000_0000_0000_0000 * 5_000_000_000_000);
        if hit {
            if b.kind != BodyKind::Bullet {
                dr = dr + (b.radius as i128 * PLANET_RADIUS_CONSUME_TENTHS as i128 + 9) / 10;
                dm = dm + b.mass as i128 * PLANET_MASS_CONSUME_SCALE as i128;
            }
        } else {
            kept.push(b);
        }
        i += 1;
    }
    assert(s.take(s.len() as int) =~= s);
    assert(dr <= 0x1_0000_0000_0000_0000 * 5_000_000_000_000);
    assert(dm <= 0x1_0000_0000_0000_0000 * 5_000_000_000_000);
    let mut ship = world.ship;
    if let Some(sh) = world.ship {
        if circles_overlap(p.pos, p.radius, sh.pos, sh.radius) {
            dr = dr + (sh.radius as i128 * PLANET_RADIUS_CONSUME_TENTHS as i128 + 9) / 10;
            dm = dm + sh.mass as i128 * PLANET_MASS_CONSUME_SCALE as i128;
            ship = None;
        }
    }
    world.bodies = kept;
    world.ship = ship;
    world.planet = Some(grow(p, dr, dm));
}

pub open spec fn pow8(e: int) -> int {
    let e2 = e * e;
    let e4 = e2 * e2;
    e4 * e4
}

/// The collapse curve for the radius: an eighth-power ease from the
/// starting radius down to the collapsed radius, rounded away from the
/// collapsed radius so that it is reached only at the end.
pub open spec fn collapse_radius(init_radius: int, elapsed: int) -> int {
    let x = init_radius - PLANET_COLLAPSE_RADIUS;
    PLANET_COLLAPSE_RADIUS + (x * (COLLAPSE_TIME_POW8 - pow8(elapsed)) + COLLAPSE_TIME_POW8 - 1)
        / COLLAPSE_TIME_POW8 as int
}

/// The collapse curve for the mass: linear from the starting mass to the
/// collapsed mass.
pub open spec fn collapse_mass(init_mass: int, elapsed: int) -> int {
    init_mass + (PLANET_COLLAPSE_MASS - init_mass) * elapsed / PLANET_COLLAPSE_TIME as int
}

/// The planet after `dt` more milliseconds of collapse; a stable planet is
/// unchanged.
pub open spec fn collapsed(p: Planet, dt: int) -> Planet {
    match p.collapse {
        Collapse::Stable => p,
        Collapse::Collapsing { init_radius, init_mass, elapsed } => {
            let e = min(PLANET_COLLAPSE_TIME as int, elapsed + dt);
            Planet {
                pos: p.pos,
                radius: collapse_radius(init_radius as int, e) as i64,
                mass: collapse_mass(init_mass as int, e) as i64,
                collapse: Collapse::Collapsing { init_radius, init_mass, elapsed: e as u64 },
            }
        },
    }
}

proof fn lemma_pow8_bounds(e: int)
    requires
        0 <= e <= PLANET_COLLAPSE_TIME,
    ensures
        0 <= pow8(e) <= COLLAPSE_TIME_POW8,
        e < PLANET_COLLAPSE_TIME ==> pow8(e) < COLLAPSE_TIME_POW8,
        e == PLANET_COLLAPSE_TIME ==> pow8(e) == COLLAPSE_TIME_POW8,
{
    let e2 = e * e;
    let e4 = e2 * e2;
    assert(0 <= e2 <= 2_250_000 && (e < 1500 ==> e2 < 2_250_000)) by (nonlinear_arith)
        requires
            e2 == e * e,
            0 <= e <= 1500,
    ;
    assert(0 <= e4 <= 5_062_500_000_000 && (e < 1500 ==> e4 < 5_062_500_000_000)) by (
    nonlinear_arith)
        requires
            e4 == e2 * e2,
            0 <= e2 <= 2_250_000,
            e < 1500 ==> e2 < 2_250_000,
    ;
    assert(0 <= e4 * e4 <= 25_628_906_250_000_000_000_000_000 && (e < 1500 ==> e4 * e4
        < 25_628_906_250_000_000_000_000_000)) by (nonlinear_arith)
        requires
            0 <= e4 <= 5_062_500_000_000,
            e < 1500 ==> e4 < 5_062_500_000_000,
    ;
    if e == 1500 {
        assert(e2 == 2_250_000);
        assert(e4 == 5_062_500_000_000) by (nonlinear_arith)
            requires
                e4 == e2 * e2,
                e2 == 2_250_000,
        ;
        assert(e4 * e4 == 25_628_906_250_000_000_000_000_000) by (nonlinear_arith)
            requires
                e4 == 5_062_500_000_000,
        ;
    }
}

/// `(x * k + d - 1) / d` lies between `0` and `x` when `0 <= k <= d`, and is
/// `0` only where `x * k <= 0`.
proof fn lemma_ceil_share(x: int, k: int, d: int)
    requires
        0 <= k <= d,
        0 < d,
    ensures
        x >= 0 ==> 0 <= (x * k + d - 1) / d <= x,
        x < 0 ==> x <= (x * k + d - 1) / d <= 0,
        x > 0 && k > 0 ==> (x * k + d - 1) / d > 0,
{
    lemma_fundamental_div_mod_converse(x * d + d - 1, d, x, d - 1);
    lemma_fundamental_div_mod_converse(d - 1, d, 0, d - 1);
    lemma_fundamental_div_mod_converse(x * d - x * d, d, 0, 0);
    if x >= 0 {
        assert(0 <= x * k <= x * d) by (nonlinear_arith)
            requires
                x >= 0,
                0 <= k <= d,
        ;
        lemma_div_is_ordered(d - 1, x * k + d - 1, d);
        lemma_div_is_ordered(x * k + d - 1, x * d + d - 1, d);
        if x > 0 && k > 0 {
            assert(x * k >= 1) by (nonlinear_arith)
                requires
                    x > 0,
                    k > 0,
            ;
            lemma_fundamental_div_mod_converse(d, d, 1, 0);
            lemma_div_is_ordered(d, x * k + d - 1, d);
        }
    } else {
        assert(x * d <= x * k <= 0) by (nonlinear_arith)
            requires
                x < 0,
                0 <= k <= d,
        ;
        lemma_div_is_ordered(x * d + d - 1, x * k + d - 1, d);
        lemma_div_is_ordered(x * k + d - 1, d - 1, d);
    }
}

/// The collapse curves stay between their start and end values, and reach
/// the collapsed radius and mass exactly when the collapse time has run out,
/// never before (for a planet that starts above the collapsed radius and
/// below the collapsed mass).
pub proof fn lemma_collapse_curve(init_radius: int, init_mass: int, e: int)
    requires
        0 <= e <= PLANET_COLLAPSE_TIME,
    ensures
        init_radius >= PLANET_COLLAPSE_RADIUS ==> PLANET_COLLAPSE_RADIUS <= collapse_radius(
            init_radius,
            e,
        ) <= init_radius,
        init_radius < PLANET_COLLAPSE_RADIUS ==> init_radius <= collapse_radius(init_radius, e)
            <= PLANET_COLLAPSE_RADIUS,
        init_mass <= PLANET_COLLAPSE_MASS ==> init_mass <= collapse_mass(init_mass, e)
            <= PLANET_COLLAPSE_MASS,
        init_mass > PLANET_COLLAPSE_MASS ==> PLANET_COLLAPSE_MASS <= collapse_mass(init_mass, e)
            <= init_mass,
        init_radius > PLANET_COLLAPSE_RADIUS ==> (collapse_radius(init_radius, e)
            == PLANET_COLLAPSE_RADIUS <==> e == PLANET_COLLAPSE_TIME),
        init_mass < PLANET_COLLAPSE_MASS ==> (collapse_mass(init_mass, e) == PLANET_COLLAPSE_MASS
            <==> e == PLANET_COLLAPSE_TIME),
{
    lemma_pow8_bounds(e);
    let k = COLLAPSE_TIME_POW8 - pow8(e);
    lemma_ceil_share(init_radius - PLANET_COLLAPSE_RADIUS, k, COLLAPSE_TIME_POW8 as int);
    lemma_floor_share(PLANET_COLLAPSE_MASS - init_mass, e, PLANET_COLLAPSE_TIME as int);
    if e == PLANET_COLLAPSE_TIME {
        lemma_fundamental_div_mod_converse(
            COLLAPSE_TIME_POW8 - 1,
            COLLAPSE_TIME_POW8 as int,
            0,
            COLLAPSE_TIME_POW8 - 1,
        );
        assert(k == 0);
        assert((init_radius - PLANET_COLLAPSE_RADIUS) * k == 0) by (nonlinear_arith)
            requires
                k == 0,
        ;
    }
}

/// The collapse curves are the exact ones rounded to a thousandth: with
/// `f = e / T` for the collapse time `T`, the radius is
/// `R_min + (1 - f^8) * (R_0 - R_min)` rounded up and the mass is
/// `M_0 + f * (M_end - M_0)` rounded down, stated here with both sides
/// multiplied out by `T^8` and `T`.
pub proof fn lemma_collapse_rounding(init_radius: int, init_mass: int, e: int)
    requires
        0 <= e <= PLANET_COLLAPSE_TIME,
    ensures
        0 <= COLLAPSE_TIME_POW8 * (collapse_radius(init_radius, e) - PLANET_COLLAPSE_RADIUS) - (
        init_radius - PLANET_COLLAPSE_RADIUS) * (COLLAPSE_TIME_POW8 - pow8(e))
            < COLLAPSE_TIME_POW8,
        -(PLANET_COLLAPSE_TIME as int) < PLANET_COLLAPSE_TIME * (collapse_mass(init_mass, e)
            - init_mass) - (PLANET_COLLAPSE_MASS - init_mass) * e <= 0,
{
    let d8 = COLLAPSE_TIME_POW8 as int;
    let x = (init_radius - PLANET_COLLAPSE_RADIUS) * (d8 - pow8(e));
    let n = x + d8 - 1;
    lemma_fundamental_div_mod(n, d8);
    lemma_mod_pos_bound_any(n, d8);
    let q = n / d8;
    assert(0 <= d8 * q - x < d8) by (nonlinear_arith)
        requires
            n == d8 * q + n % d8,
            0 <= n % d8 < d8,
            n == x + d8 - 1,
    ;
    let t = PLANET_COLLAPSE_TIME as int;
    let y = (PLANET_COLLAPSE_MASS - init_mass) * e;
    lemma_fundamental_div_mod(y, t);
    lemma_mod_pos_bound_any(y, t);
    let r = y / t;
    assert(-t < t * r - y <= 0) by (nonlinear_arith)
        requires
            y == t * r + y % t,
            0 <= y % t < t,
    ;
}

proof fn lemma_mod_pos_bound_any(x: int, m: int)
    requires
        0 < m,
    ensures
        0 <= x % m < m,
{
}

/// Advances a collapsing planet by `dt` milliseconds along the collapse
/// curves.
pub fn collapse_tick(p: Planet, dt: u64) -> (r: Planet)
    requires
        p.wf(),
    ensures
        r == collapsed(p, dt as int),
        r.wf(),
{
    match p.collapse {
        Collapse::Stable => p,
        Collapse::Collapsing { init_radius, init_mass, elapsed } => {
            let e: u64 = if dt >= PLANET_COLLAPSE_TIME - elapsed {
                PLANET_COLLAPSE_TIME
            } else {
                elapsed + dt
            };
            proof {
                lemma_pow8_bounds(e as int);
                lemma_collapse_curve(init_radius as int, init_mass as int, e as int);
            }
            let ei = e as i128;
            assert(ei * ei <= 2_250_000 && ei * ei * (ei * ei) <= 5_062_500_000_000) by (
            nonlinear_arith)
                requires
                    0 <= ei <= 1500,
            ;
            let e2 = ei * ei;
            let e4 = e2 * e2;
            let e8 = e4 * e4;
            let x = init_radius as i128 - PLANET_COLLAPSE_RADIUS as i128;
            let k = COLLAPSE_TIME_POW8 - e8;
            assert(-EXTENT * COLLAPSE_TIME_POW8 <= x * k <= EXTENT * COLLAPSE_TIME_POW8) by (
            nonlinear_arith)
                requires
                    -EXTENT <= x <= EXTENT,
                    0 <= k <= COLLAPSE_TIME_POW8,
            ;
            let share = div_floor(x * k + COLLAPSE_TIME_POW8 - 1, COLLAPSE_TIME_POW8);
            let radius = (PLANET_COLLAPSE_RADIUS as i128 + share) as i64;
            let a = PLANET_COLLAPSE_MASS as i128 - init_mass as i128;
            assert(-MASS_LIMIT * 1500 <= a * ei <= MASS_LIMIT * 1500) by (nonlinear_arith)
                requires
                    -MASS_LIMIT <= a <= MASS_LIMIT,
                    0 <= ei <= 1500,
            ;
            let grow = div_floor(a * ei, PLANET_COLLAPSE_TIME as i128);
            let mass = (init_mass as i128 + grow) as i64;
            Planet {
                pos: p.pos,
                radius,
                mass,
                collapse: Collapse::Collapsing { init_radius, init_mass, elapsed: e },
            }
        },
    }
}

/// The collapse step of a frame, on the planet if there is one.
pub fn planet_collapse(world: &mut World, dt: u64)
    requires
        old(world).wf(),
    ensures
        final(world).wf(),
        final(world).ship == old(world).ship,
        final(world).bodies@ == old(world).bodies@,
        final(world).planet == match old(world).planet {
            Some(p) => Some(collapsed(p, dt as int)),
            None => None,
        },
        match old(world).planet {
            Some(p) => match p.collapse {
                Collapse::Collapsing { init_radius, init_mass, elapsed } => {
                    let e = min(PLANET_COLLAPSE_TIME as int, elapsed + dt);
                    let q = final(world).planet->Some_0;
                    &&& 0 <= COLLAPSE_TIME_POW8 * (q.radius - PLANET_COLLAPSE_RADIUS) - (init_radius
                        - PLANET_COLLAPSE_RADIUS) * (COLLAPSE_TIME_POW8 - pow8(e)) < COLLAPSE_TIME_POW8
                    &&& -(PLANET_COLLAPSE_TIME as int) < PLANET_COLLAPSE_TIME * (q.mass - init_mass) - (
                    PLANET_COLLAPSE_MASS - init_mass) * e <= 0
                },
                Collapse::Stable => true,
            },
            None => true,
        },
{
    if let Some(p) = world.planet {
        proof {
            if let Collapse::Collapsing { init_radius, init_mass, elapsed } = p.collapse {
                let e = min(PLANET_COLLAPSE_TIME as int, elapsed + dt);
                lemma_collapse_rounding(init_radius as int, init_mass as int, e);
                lemma_collapse_curve(init_radius as int, init_mass as int, e);
            }
        }
        world.planet = Some(collapse_tick(p, dt));
    }
}

} // verus!

verus! {

proof fn lemma_intake_signs(p: Planet, s: Seq<Body>)
    requires
        bodies_wf(s),
    ensures
        radius_intake(p, s) >= 0,
        mass_intake(p, s) >= 0,
        (exists|i: int| 0 <= i < s.len() && feeds(p, #[trigger] s[i])) ==> radius_intake(p, s) > 0
            && mass_intake(p, s) > 0,
        (forall|i: int| 0 <= i < s.len() ==> !feeds(p, #[trigger] s[i])) ==> radius_intake(p, s)
            == 0 && mass_intake(p, s) == 0,
    decreases s.len(),
{
    if s.len() > 0 {
        let t = s.drop_last();
        assert(bodies_wf(t)) by {
            assert forall|i: int| 0 <= i < t.len() implies (#[trigger] t[i]).wf() by {
                assert(t[i] == s[i]);
            }
        }
        lemma_intake_signs(p, t);
        assert(s.last() == s[s.len() - 1]);
        assert(s.last().wf());
        if exists|i: int| 0 <= i < s.len() && feeds(p, #[trigger] s[i]) {
            let i = choose|i: int| 0 <= i < s.len() && feeds(p, #[trigger] s[i]);
            if i < s.len() - 1 {
                assert(t[i] == s[i]);
            }
        }
        if forall|i: int| 0 <= i < s.len() ==> !feeds(p, #[trigger] s[i]) {
            assert forall|i: int| 0 <= i < t.len() implies !feeds(p, #[trigger] t[i]) by {
                assert(t[i] == s[i]);
            }
        }
    }
}

/// While the planet is stable, swallowing anything but bullets strictly
/// increases its radius and its mass (below their limits), and swallowing
/// only bullets, or nothing, leaves both unchanged.
pub proof fn lemma_planet_growth(p: Planet, ship: Option<Ship>, s: Seq<Body>)
    requires
        p.wf(),
        p.collapse is Stable,
        bodies_wf(s),
        ship matches Some(sh) ==> sh.wf(),
    ensures
        ({
            let q = fed_planet(p, ship, s);
            (ship_swallowed(p, ship) || exists|i: int| 0 <= i < s.len() && feeds(p, #[trigger] s[i]))
                && p.radius < EXTENT && p.mass < MASS_LIMIT ==> q.radius > p.radius && q.mass
                > p.mass
        }),
        ({
            let q = fed_planet(p, ship, s);
            !ship_swallowed(p, ship) && (forall|i: int| 0 <= i < s.len() ==> !feeds(p, #[trigger] s[i]))
                ==> q.radius == p.radius && q.mass == p.mass
        }),
{
    lemma_intake_signs(p, s);
}

/// A stable planet whose mass reaches the collapse trigger in a pass starts
/// collapsing in that same pass, from the radius and mass it has then and
/// with no collapse time elapsed; one that stays below the trigger stays
/// stable.
pub proof fn lemma_collapse_trigger(p: Planet, dr: int, dm: int)
    requires
        p.wf(),
        p.collapse is Stable,
        dr >= 0,
        dm >= 0,
    ensures
        ({
            let q = grown(p, dr, dm);
            min(MASS_LIMIT as int, p.mass + dm) >= PLANET_MASS_COLLAPSE_TRIGGER ==> q.collapse
                == (Collapse::Collapsing { init_radius: q.radius, init_mass: q.mass, elapsed: 0 })
        }),
        min(MASS_LIMIT as int, p.mass + dm) < PLANET_MASS_COLLAPSE_TRIGGER ==> grown(p, dr, dm).collapse
            is Stable,
{
}

} // verus!
