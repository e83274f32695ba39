//! Expiry of timed bodies.
use vstd::prelude::*;
use crate::ship::{count_down, countdown};
use crate::world::{bodies_wf, Body, World};

verus! {

/// A body after `dt` more milliseconds of its lifetime.
pub open spec fn aged(b: Body, dt: int) -> Body {
    Body { lifetime: count_down(b.lifetime as int, dt) as u64, ..b }
}

pub open spec fn alive() -> spec_fn(Body) -> bool {
    |b: Body| b.lifetime > 0
}

/// The bodies of `s` after `dt` milliseconds: every lifetime runs down,
/// stopping at zero, and those that reach zero are gone.
pub open spec fn expire(s: Seq<Body>, dt: int) -> Seq<Body> {
    s.map_values(|b: Body| aged(b, dt)).filter(alive())
}

/// A lifetime after `k` frames of `dt` milliseconds each.
pub open spec fn lifetime_after(l: int, dt: int, k: nat) -> int
    decreases k,
{
    if k == 0 {
        l
    } else {
        count_down(lifetime_after(l, dt, (k - 1) as nat), dt)
    }
}

/// After `k` frames of `dt` milliseconds a lifetime `l` has become
/// `max(0, l - k * dt)`.
pub proof fn lemma_lifetime_after(l: int, dt: int, k: nat)
    requires
        0 <= l,
        0 <= dt,
    ensures
        lifetime_after(l, dt, k) == if l - k * dt > 0 {
            l - k * dt
        } else {
            0
        },
    decreases k,
{
    if k > 0 {
        lemma_lifetime_after(l, dt, (k - 1) as nat);
        assert(l - k * dt == l - (k - 1) * dt - dt) by (nonlinear_arith);
        if l - (k - 1) * dt <= 0 {
            assert(l - k * dt <= 0) by (nonlinear_arith)
                requires
                    l - (k - 1) * dt <= 0,
                    0 <= dt,
                    l - k * dt == l - (k - 1) * dt - dt,
            ;
        }
    } else {
        assert(k * dt == 0) by (nonlinear_arith)
            requires
                k == 0,
        ;
    }
}

/// No body survives an expiry pass with a lifetime of zero, and a body
/// whose lifetime has not run out is kept.
pub proof fn lemma_expire_keeps_living(s: Seq<Body>, dt: int, i: int)
    requires
        0 <= i < s.len(),
        0 <= dt,
    ensures
        forall|j: int| 0 <= j < expire(s, dt).len() ==> #[trigger] expire(s, dt)[j].lifetime > 0,
        count_down(s[i].lifetime as int, dt) > 0 ==> expire(s, dt).contains(aged(s[i], dt)),
{
    let m = s.map_values(|b: Body| aged(b, dt));
    assert forall|j: int| 0 <= j < expire(s, dt).len() implies #[trigger] expire(s, dt)[j].lifetime
        > 0 by {
        m.lemma_filter_pred(alive(), j);
    }
    if count_down(s[i].lifetime as int, dt) > 0 {
        assert(m[i] == aged(s[i], dt));
        assert(0 < count_down(s[i].lifetime as int, dt) <= s[i].lifetime);
        assert(m[i].lifetime > 0);
        assert(alive()(m[i]));
        m.lemma_filter_contains(alive(), i);
    }
}

/// The expiry step of a frame.
pub fn lifetime_control(world: &mut World, dt: u64)
    requires
        old(world).wf(),
    ensures
        final(world).wf(),
        final(world).ship == old(world).ship,
        final(world).planet == old(world).planet,
        final(world).bodies@ == expire(old(world).bodies@, dt as int),
        forall|j: int|
            0 <= j < final(world).bodies@.len() ==> #[trigger] final(world).bodies@[j].lifetime > 0,
{
    let ghost s = world.bodies@;
    let ghost m = s.map_values(|b: Body| aged(b, dt as int));
    let mut kept: Vec<Body> = Vec::new();
    let mut i: usize = 0;
    while i < world.bodies.len()
        invariant
            0 <= i <= world.bodies.len(),
            s == world.bodies@,
            m == s.map_values(|b: Body| aged(b, dt as int)),
            bodies_wf(s),
            kept@ == m.take(i as int).filter(alive()),
            bodies_wf(kept@),
            forall|j: int| 0 <= j < kept@.len() ==> #[trigger] kept@[j].lifetime > 0,
        decreases world.bodies.len() - i,
    {
        proof {
            assert(m.take(i + 1).drop_last() =~= m.take(i as int));
            reveal_with_fuel(Seq::filter, 1);
        }
        let b = world.bodies[i];
        assert(b.wf());
        let l = countdown(b.lifetime, dt);
        if l > 0 {
            kept.push(Body { lifetime: l, ..b });
        }
        i += 1;
    }
    assert(m.take(m.len() as int) =~= m);
    world.bodies = kept;
}

} // verus!

verus! {

/// The bodies of `s` after `k` expiry passes of `dt` milliseconds each,
/// what `k` calls of `lifetime_control` leave.
pub open spec fn expire_frames(s: Seq<Body>, dt: int, k: nat) -> Seq<Body>
    decreases k,
{
    if k == 0 {
        s
    } else {
        expire(expire_frames(s, dt, (k - 1) as nat), dt)
    }
}

/// `b` with `l` milliseconds left.
pub open spec fn with_lifetime(b: Body, l: int) -> Body {
    Body { lifetime: l as u64, ..b }
}

proof fn lemma_lifetime_after_range(l: int, dt: int, k: nat)
    requires
        0 <= l,
        0 <= dt,
    ensures
        0 <= lifetime_after(l, dt, k) <= l,
        k > 0 && lifetime_after(l, dt, k) > 0 ==> lifetime_after(l, dt, (k - 1) as nat) > 0,
    decreases k,
{
    if k > 0 {
        lemma_lifetime_after_range(l, dt, (k - 1) as nat);
    }
}

/// `e` is a body of `s` with the lifetime it has left after `k` frames,
/// which is positive.
pub open spec fn from_store(s: Seq<Body>, dt: int, k: nat, e: Body) -> bool {
    exists|b: Body|
        #[trigger] s.contains(b) && lifetime_after(b.lifetime as int, dt, k) > 0 && e
            == with_lifetime(b, lifetime_after(b.lifetime as int, dt, k))
}

/// After `k >= 1` frames of `dt` milliseconds, a body of the store that
/// started with lifetime `L` is there with `max(0, L - k * dt)` left when
/// that is positive, and every body in the store is one of those: a body is
/// gone from the first frame its lifetime reaches zero.
pub proof fn lemma_store_after_frames(s: Seq<Body>, dt: int, k: nat)
    requires
        0 <= dt,
        k >= 1,
    ensures
        forall|b: Body|
            #[trigger] s.contains(b) && lifetime_after(b.lifetime as int, dt, k) > 0
                ==> expire_frames(s, dt, k).contains(
                with_lifetime(b, lifetime_after(b.lifetime as int, dt, k)),
            ),
        forall|j: int|
            0 <= j < expire_frames(s, dt, k).len() ==> from_store(
                s,
                dt,
                k,
                #[trigger] expire_frames(s, dt, k)[j],
            ),
    decreases k,
{
    let k1 = (k - 1) as nat;
    if k1 > 0 {
        lemma_store_after_frames(s, dt, k1);
    }
    let prev = expire_frames(s, dt, k1);
    let m = prev.map_values(|b: Body| aged(b, dt));
    assert(expire_frames(s, dt, k) == m.filter(alive()));
    assert forall|b: Body| #[trigger] s.contains(b) && lifetime_after(b.lifetime as int, dt, k)
        > 0 implies expire_frames(s, dt, k).contains(
        with_lifetime(b, lifetime_after(b.lifetime as int, dt, k)),
    ) by {
        lemma_lifetime_after_range(b.lifetime as int, dt, k);
        lemma_lifetime_after_range(b.lifetime as int, dt, k1);
        let l1 = lifetime_after(b.lifetime as int, dt, k1);
        let w = with_lifetime(b, l1);
        if k1 == 0 {
            assert(w == b);
        }
        assert(prev.contains(w));
        let i = choose|i: int| 0 <= i < prev.len() && prev[i] == w;
        assert(m[i] == aged(w, dt));
        assert(aged(w, dt) == with_lifetime(b, lifetime_after(b.lifetime as int, dt, k)));
        assert(alive()(m[i]));
        m.lemma_filter_contains(alive(), i);
    }
    assert forall|j: int| 0 <= j < expire_frames(s, dt, k).len() implies from_store(
        s,
        dt,
        k,
        #[trigger] expire_frames(s, dt, k)[j],
    ) by {
        let e = expire_frames(s, dt, k)[j];
        m.lemma_filter_pred(alive(), j);
        assert(m.filter(alive()).contains(e));
        m.lemma_filter_contains_rev(alive(), e);
        let i = choose|i: int| 0 <= i < m.len() && m[i] == e;
        assert(m[i] == aged(prev[i], dt));
        let b = if k1 == 0 {
            prev[i]
        } else {
            choose|b: Body|
                #[trigger] s.contains(b) && lifetime_after(b.lifetime as int, dt, k1) > 0
                    && prev[i] == with_lifetime(b, lifetime_after(b.lifetime as int, dt, k1))
        };
        if k1 == 0 {
            assert(s.contains(b));
            assert(prev[i] == with_lifetime(b, lifetime_after(b.lifetime as int, dt, k1)));
        }
        lemma_lifetime_after_range(b.lifetime as int, dt, k1);
        lemma_lifetime_after_range(b.lifetime as int, dt, k);
        assert(alive()(e));
        assert(e.lifetime > 0);
        assert(e.lifetime == lifetime_after(b.lifetime as int, dt, k));
        assert(lifetime_after(b.lifetime as int, dt, k) > 0);
        assert(e == with_lifetime(b, lifetime_after(b.lifetime as int, dt, k)));
        assert(s.contains(b));
    }
}

} // verus!
