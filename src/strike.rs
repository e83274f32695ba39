//! Bullets against asteroids: every asteroid that overlaps a bullet, and
//! every bullet that overlaps an asteroid, is destroyed in one pass; each
//! destroyed asteroid scores once and leaves its debris.
use vstd::prelude::*;
use crate::config::{ASTEROID_FRACTURE_COUNT, ASTEROID_FRACTURE_SPEED_MAX, ASTEROID_FRACTURE_SPEED_MIN};
use crate::fixed::{circles_overlap, overlaps};
use crate::random::roll_between;
use crate::shatter::{asteroid_score, debris, explosion_at, explosion_of, fragment_roll_ok, fragments, fracture_sector, make_fragment, score_for, FragmentRoll, ShatterRoll};
use crate::trig::{wrap_angle, FULL_TURN};
use crate::world::{bodies_wf, Body, BodyKind, World};

verus! {

/// Asteroid `a` and bullet `b` touch.
pub open spec fn strikes(a: Body, b: Body) -> bool {
    &&& a.kind == BodyKind::Asteroid
    &&& b.kind == BodyKind::Bullet
    &&& overlaps(a.pos, a.radius as int, b.pos, b.radius as int)
}

/// `b` touches a body of `s` that destroys it.
pub open spec fn is_struck(s: Seq<Body>, b: Body) -> bool {
    exists|j: int| 0 <= j < s.len() && (strikes(b, #[trigger] s[j]) || strikes(s[j], b))
}

pub open spec fn survives_in(s: Seq<Body>) -> spec_fn(Body) -> bool {
    |b: Body| !is_struck(s, b)
}

pub open spec fn struck_asteroid_in(s: Seq<Body>) -> spec_fn(Body) -> bool {
    |b: Body| b.kind == BodyKind::Asteroid && is_struck(s, b)
}

/// The bodies of `s` that no strike destroys, in their order.
pub open spec fn survivors(s: Seq<Body>) -> Seq<Body> {
    s.filter(survives_in(s))
}

/// The asteroids of `s` that a bullet destroys, in their order.
pub open spec fn struck_asteroids(s: Seq<Body>) -> Seq<Body> {
    s.filter(struck_asteroid_in(s))
}

/// The debris of the asteroids `h`, the `i`-th shattered by `rolls[i]`.
pub open spec fn all_debris(h: Seq<Body>, rolls: Seq<ShatterRoll>) -> Seq<Body>
    decreases h.len(),
{
    if h.len() == 0 {
        Seq::empty()
    } else {
        all_debris(h.drop_last(), rolls) + debris(h.last(), rolls[h.len() - 1])
    }
}

/// Points for destroying the asteroids `h`.
pub open spec fn score_total(h: Seq<Body>) -> int
    decreases h.len(),
{
    if h.len() == 0 {
        0
    } else {
        score_total(h.drop_last()) + score_for(h.last().radius as int)
    }
}

/// A score after `gain` more points, saturating at the largest `u32`.
pub open spec fn add_score(score: int, gain: int) -> int {
    if score + gain > u32::MAX {
        u32::MAX as int
    } else {
        score + gain
    }
}

pub open spec fn rolls_fit(h: Seq<Body>, rolls: Seq<ShatterRoll>) -> bool {
    &&& rolls.len() == h.len()
    &&& forall|i: int| 0 <= i < rolls.len() ==> (#[trigger] rolls[i]).wf()
}

proof fn lemma_filter_step(s: Seq<Body>, p: spec_fn(Body) -> bool, i: int)
    requires
        0 <= i < s.len(),
    ensures
        s.take(i + 1).filter(p) == if p(s[i]) {
            s.take(i).filter(p).push(s[i])
        } else {
            s.take(i).filter(p)
        },
{
    assert(s.take(i + 1).drop_last() =~= s.take(i));
    reveal_with_fuel(Seq::filter, 1);
}

fn is_struck_exec(s: &Vec<Body>, b: &Body) -> (r: bool)
    requires
        bodies_wf(s@),
        b.wf(),
    ensures
        r == is_struck(s@, *b),
{
    let mut i: usize = 0;
    while i < s.len()
        invariant
            0 <= i <= s.len(),
            bodies_wf(s@),
            b.wf(),
            forall|j: int| 0 <= j < i ==> !(strikes(*b, #[trigger] s@[j]) || strikes(s@[j], *b)),
        decreases s.len() - i,
    {
        let o = &s[i];
        assert(o.wf());
        let hit = if b.kind == BodyKind::Asteroid && o.kind == BodyKind::Bullet {
            circles_overlap(b.pos, b.radius, o.pos, o.radius)
        } else if b.kind == BodyKind::Bullet && o.kind == BodyKind::Asteroid {
            circles_overlap(o.pos, o.radius, b.pos, b.radius)
        } else {
            false
        };
        if hit {
            assert(strikes(*b, s@[i as int]) || strikes(s@[i as int], *b));
            return true;
        }
        i += 1;
    }
    false
}

/// How many asteroids of `bodies` a bullet destroys this pass: the number
/// of shatter rolls that `resolve_strikes` needs.
pub fn count_struck(bodies: &Vec<Body>) -> (n: usize)
    requires
        bodies_wf(bodies@),
    ensures
        n == struck_asteroids(bodies@).len(),
{
    let ghost s = bodies@;
    let mut n: usize = 0;
    let mut i: usize = 0;
    while i < bodies.len()
        invariant
            0 <= i <= bodies.len(),
            s == bodies@,
            bodies_wf(s),
            n == s.take(i as int).filter(struck_asteroid_in(s)).len(),
            n <= i,
        decreases bodies.len() - i,
    {
        proof {
            lemma_filter_step(s, struck_asteroid_in(s), i as int);
        }
        if bodies[i].kind == BodyKind::Asteroid && is_struck_exec(bodies, &bodies[i]) {
            n += 1;
        }
        i += 1;
    }
    assert(s.take(s.len() as int) =~= s);
    n
}

fn push_debris(out: &mut Vec<Body>, a: &Body, roll: &ShatterRoll)
    requires
        a.wf(),
        a.kind == BodyKind::Asteroid,
        roll.wf(),
        bodies_wf(old(out)@),
    ensures
        final(out)@ == old(out)@ + debris(*a, *roll),
        bodies_wf(final(out)@),
{
    let ghost start = out@;
    out.push(explosion_at(a));
    if a.radius > crate::config::ASTEROID_FRACTURE_MIN_RADIUS {
        let ghost frs = fragments(*a, *roll);
        let sector = FULL_TURN / ASTEROID_FRACTURE_COUNT as i64;
        let mut k: usize = 0;
        while k < roll.fragments.len()
            invariant
                0 <= k <= roll.fragments@.len(),
                roll.wf(),
                a.wf(),
                a.kind == BodyKind::Asteroid,
                sector == fracture_sector(),
                frs == fragments(*a, *roll),
                out@ == start + seq![explosion_of(*a)] + frs.take(k as int),
                bodies_wf(out@),
            decreases roll.fragments@.len() - k,
        {
            let t = wrap_angle(roll.angle + k as i64 * sector);
            let f = roll.fragments[k];
            assert(fragment_roll_ok(roll.fragments@[k as int]));
            let b = make_fragment(a, t, f);
            out.push(b);
            assert(frs.take(k as int + 1) =~= frs.take(k as int).push(b));
            k += 1;
        }
        assert(frs.take(frs.len() as int) =~= frs);
        assert(out@ =~= start + debris(*a, *roll));
    } else {
        assert(out@ =~= start + debris(*a, *roll));
    }
}

/// One bullet-against-asteroid pass with the random part given: the
/// survivors keep their order, then each destroyed asteroid's debris
/// follows, shattered by its roll, and its points are added to `score`.
pub fn resolve_strikes(bodies: &mut Vec<Body>, score: &mut u32, rolls: &Vec<ShatterRoll>)
    requires
        bodies_wf(old(bodies)@),
        rolls_fit(struck_asteroids(old(bodies)@), rolls@),
    ensures
        final(bodies)@ == survivors(old(bodies)@) + all_debris(
            struck_asteroids(old(bodies)@),
            rolls@,
        ),
        *final(score) == add_score(*old(score) as int, score_total(struck_asteroids(old(bodies)@))),
        *final(score) >= *old(score),
        bodies_wf(final(bodies)@),
{
    let ghost s = bodies@;
    let ghost s0 = *score;
    let mut kept: Vec<Body> = Vec::new();
    let mut hits: Vec<Body> = Vec::new();
    let mut i: usize = 0;
    while i < bodies.len()
        invariant
            0 <= i <= bodies.len(),
            s == bodies@,
            bodies_wf(s),
            kept@ == s.take(i as int).filter(survives_in(s)),
            hits@ == s.take(i as int).filter(struck_asteroid_in(s)),
            bodies_wf(kept@),
            bodies_wf(hits@),
            forall|j: int| 0 <= j < hits@.len() ==> (#[trigger] hits@[j]).kind == BodyKind::Asteroid,
        decreases bodies.len() - i,
    {
        proof {
            lemma_filter_step(s, survives_in(s), i as int);
            lemma_filter_step(s, struck_asteroid_in(s), i as int);
        }
        let b = bodies[i];
        assert(b.wf());
        if is_struck_exec(bodies, &b) {
            if b.kind == BodyKind::Asteroid {
                hits.push(b);
            }
        } else {
            kept.push(b);
        }
        i += 1;
    }
    assert(s.take(s.len() as int) =~= s);
    let mut out = kept;
    let mut k: usize = 0;
    while k < hits.len()
        invariant
            0 <= k <= hits@.len(),
            hits@ == struck_asteroids(s),
            rolls_fit(hits@, rolls@),
            bodies_wf(hits@),
            forall|j: int| 0 <= j < hits@.len() ==> (#[trigger] hits@[j]).kind == BodyKind::Asteroid,
            out@ == survivors(s) + all_debris(hits@.take(k as int), rolls@),
            *score == add_score(s0 as int, score_total(hits@.take(k as int))),
            *score >= s0,
            bodies_wf(out@),
        decreases hits@.len() - k,
    {
        let a = &hits[k];
        assert(hits@[k as int].wf());
        assert(rolls@[k as int].wf());
        proof {
            assert(hits@.take(k as int + 1).drop_last() =~= hits@.take(k as int));
        }
        push_debris(&mut out, a, &rolls[k]);
        let gain = asteroid_score(a.radius);
        if *score as u64 + gain as u64 > u32::MAX as u64 {
            *score = u32::MAX;
        } else {
            *score = *score + gain;
        }
        k += 1;
    }
    assert(hits@.take(hits@.len() as int) =~= hits@);
    *bodies = out;
}

/// Draws the random part of shattering one asteroid.
fn roll_shatter() -> (r: ShatterRoll)
    ensures
        r.wf(),
{
    let angle = roll_between(0, FULL_TURN);
    let mut fragments: Vec<FragmentRoll> = Vec::new();
    let mut k: u64 = 0;
    while k < ASTEROID_FRACTURE_COUNT
        invariant
            k <= ASTEROID_FRACTURE_COUNT,
            fragments@.len() == k,
            forall|j: int| 0 <= j < fragments@.len() ==> fragment_roll_ok(#[trigger] fragments@[j]),
        decreases ASTEROID_FRACTURE_COUNT - k,
    {
        let speed = roll_between(ASTEROID_FRACTURE_SPEED_MIN, ASTEROID_FRACTURE_SPEED_MAX);
        let seed: u64 = rand::random::<u64>();
        fragments.push(FragmentRoll { speed, seed });
        k += 1;
    }
    ShatterRoll { angle, fragments }
}

/// The bullet-against-asteroid pass of a frame. Each destroyed asteroid's
/// fragments get a random first bearing, random speeds in the configured
/// band and random outline seeds; everything else is as `resolve_strikes`
/// states for those rolls.
pub fn asteroid_collision(world: &mut World, score: &mut u32)
    requires
        old(world).wf(),
    ensures
        exists|rolls: Seq<ShatterRoll>|
            {
                &&& rolls_fit(struck_asteroids(old(world).bodies@), rolls)
                &&& final(world).bodies@ == survivors(old(world).bodies@) + all_debris(
                    struck_asteroids(old(world).bodies@),
                    rolls,
                )
            },
        *final(score) == add_score(*old(score) as int, score_total(struck_asteroids(old(world).bodies@))),
        *final(score) >= *old(score),
        final(world).ship == old(world).ship,
        final(world).planet == old(world).planet,
        final(world).wf(),
{
    let n = count_struck(&world.bodies);
    let mut rolls: Vec<ShatterRoll> = Vec::new();
    let mut i: usize = 0;
    while i < n
        invariant
            i <= n,
            rolls@.len() == i,
            forall|j: int| 0 <= j < rolls@.len() ==> (#[trigger] rolls@[j]).wf(),
        decreases n - i,
    {
        rolls.push(roll_shatter());
        i += 1;
    }
    resolve_strikes(&mut world.bodies, score, &rolls);
}

} // verus!

verus! {

/// One bullet and one asteroid whose circles overlap destroy each other in
/// one pass: neither survives, the asteroid leaves exactly one explosion
/// where it was, and it scores its points once.
pub proof fn lemma_mutual_destruction(a: Body, b: Body, rolls: Seq<ShatterRoll>)
    requires
        strikes(a, b),
        rolls.len() == 1,
    ensures
        survivors(seq![a, b]) == Seq::<Body>::empty(),
        struck_asteroids(seq![a, b]) == seq![a],
        all_debris(struck_asteroids(seq![a, b]), rolls) == debris(a, rolls[0]),
        debris(a, rolls[0])[0] == explosion_of(a),
        debris(a, rolls[0])[0].pos == a.pos,
        forall|k: int|
            1 <= k < debris(a, rolls[0]).len() ==> (#[trigger] debris(a, rolls[0])[k]).kind
                == BodyKind::Asteroid,
        score_total(struck_asteroids(seq![a, b])) == score_for(a.radius as int),
{
    let s = seq![a, b];
    assert(s[1] == b);
    assert(s[0] == a);
    assert(is_struck(s, a));
    assert(is_struck(s, b));
    reveal_with_fuel(Seq::filter, 3);
    assert(s.drop_last() =~= seq![a]);
    assert(seq![a].drop_last() =~= Seq::<Body>::empty());
    assert(survivors(s) =~= Seq::<Body>::empty());
    assert(struck_asteroids(s) =~= seq![a]);
    let one = seq![a];
    assert(one.last() == a);
    assert(one.len() == 1);
    assert(all_debris(one.drop_last(), rolls) == Seq::<Body>::empty());
    assert(score_total(one.drop_last()) == 0);
    assert(all_debris(one, rolls) == all_debris(one.drop_last(), rolls) + debris(a, rolls[0]));
    assert(all_debris(one, rolls) =~= debris(a, rolls[0]));
    assert(score_total(one) == score_for(a.radius as int));
    let d = debris(a, rolls[0]);
    assert forall|k: int| 1 <= k < d.len() implies (#[trigger] d[k]).kind == BodyKind::Asteroid by {
        assert(d[k] == fragments(a, rolls[0])[k - 1]);
    }
}

} // verus!
