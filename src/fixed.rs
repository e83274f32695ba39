//! Fixed-point arithmetic and plane geometry.
use vstd::prelude::*;
use vstd::arithmetic::div_mod::{
    lemma_div_is_ordered, lemma_fundamental_div_mod, lemma_fundamental_div_mod_converse,
    lemma_mod_pos_bound,
};

verus! {

/// One unit of length, in the fixed-point scale used for positions.
pub const UNIT: i64 = 1000;

/// Largest magnitude that a coordinate or a velocity component may take.
pub const EXTENT: i64 = 1_000_000_000_000;

pub open spec fn in_extent(v: int) -> bool {
    -EXTENT <= v <= EXTENT
}

/// `v` saturated to the representable extent.
pub open spec fn clamp_extent(v: int) -> int {
    if v > EXTENT {
        EXTENT as int
    } else if v < -EXTENT {
        -EXTENT as int
    } else {
        v
    }
}

pub fn clamp_to_extent(v: i128) -> (r: i64)
    ensures
        r == clamp_extent(v as int),
{
    if v > EXTENT as i128 {
        EXTENT
    } else if v < -(EXTENT as i128) {
        -EXTENT
    } else {
        v as i64
    }
}

/// Division rounding toward negative infinity (the meaning of `/` on `int`).
pub fn div_floor(n: i128, d: i128) -> (r: i128)
    requires
        d > 0,
        n > i128::MIN,
    ensures
        r == n / d,
{
    if n >= 0 {
        n / d
    } else {
        let m = (-n - 1) / d;
        proof {
            let a: int = -n - 1;
            let dd: int = d as int;
            let rem: int = a % dd;
            lemma_fundamental_div_mod(a, dd);
            lemma_mod_pos_bound(a, dd);
            assert(m == a / dd);
            assert(a == m * dd + rem) by (nonlinear_arith)
                requires
                    a == dd * m + rem,
            ;
            assert(n == (-m - 1) * dd + (dd - 1 - rem)) by (nonlinear_arith)
                requires
                    a == m * dd + rem,
                    a == -n - 1,
            ;
            lemma_fundamental_div_mod_converse(n as int, dd, -m - 1, dd - 1 - rem);
        }
        -m - 1
    }
}

/// Largest integer whose square does not exceed `n`.
pub open spec fn is_floor_sqrt(n: int, r: int) -> bool {
    0 <= r && r * r <= n < (r + 1) * (r + 1)
}

/// The integer square root, rounded down.
pub open spec fn floor_sqrt(n: int) -> int {
    choose|r: int| is_floor_sqrt(n, r)
}

proof fn lemma_floor_sqrt_unique(n: int, r: int, s: int)
    requires
        is_floor_sqrt(n, r),
        is_floor_sqrt(n, s),
    ensures
        r == s,
{
    if r < s {
        assert((r + 1) * (r + 1) <= s * s) by (nonlinear_arith)
            requires
                0 <= r < s,
        ;
    } else if s < r {
        assert((s + 1) * (s + 1) <= r * r) by (nonlinear_arith)
            requires
                0 <= s < r,
        ;
    }
}

/// Every natural number has an integer square root.
pub proof fn lemma_floor_sqrt_exists(n: int)
    requires
        n >= 0,
    ensures
        is_floor_sqrt(n, floor_sqrt(n)),
{
    let w = lemma_sqrt_witness(n as nat);
    lemma_floor_sqrt_is(n, w);
}

proof fn lemma_sqrt_witness(n: nat) -> (r: int)
    ensures
        is_floor_sqrt(n as int, r),
    decreases n,
{
    if n == 0 {
        assert(is_floor_sqrt(0, 0));
        0
    } else {
        let r = lemma_sqrt_witness((n - 1) as nat);
        assert(r * r <= n - 1 && n - 1 < (r + 1) * (r + 1) && r >= 0);
        if (r + 1) * (r + 1) <= n {
            assert((r + 2) * (r + 2) > n) by (nonlinear_arith)
                requires
                    (r + 1) * (r + 1) <= n,
                    n - 1 < (r + 1) * (r + 1),
                    0 <= r,
            ;
            assert(0 <= r + 1);
            assert(is_floor_sqrt(n as int, r + 1));
            r + 1
        } else {
            assert(is_floor_sqrt(n as int, r));
            r
        }
    }
}

/// Where `r` is the integer square root of `n`, it is `floor_sqrt(n)`.
pub proof fn lemma_floor_sqrt_is(n: int, r: int)
    requires
        is_floor_sqrt(n, r),
    ensures
        floor_sqrt(n) == r,
{
    lemma_floor_sqrt_unique(n, r, floor_sqrt(n));
}

/// `x * e / t` lies between `0` and `x` when `0 <= e <= t`, equals `x`
/// exactly when `e == t`, and falls short of a positive `x` otherwise.
pub proof fn lemma_floor_share(x: int, e: int, t: int)
    requires
        0 <= e <= t,
        0 < t,
    ensures
        x >= 0 ==> 0 <= x * e / t <= x,
        x < 0 ==> x <= x * e / t <= 0,
        e == t ==> x * e / t == x,
        x > 0 && e < t ==> x * e / t < x,
{
    lemma_fundamental_div_mod_converse(x * t, t, x, 0);
    lemma_fundamental_div_mod_converse(0, t, 0, 0);
    if x >= 0 {
        assert(0 <= x * e <= x * t) by (nonlinear_arith)
            requires
                x >= 0,
                0 <= e <= t,
        ;
        lemma_div_is_ordered(0, x * e, t);
        lemma_div_is_ordered(x * e, x * t, t);
        if x > 0 && e < t {
            assert(x * e <= x * t - x) by (nonlinear_arith)
                requires
                    x > 0,
                    e < t,
            ;
            assert(x * t - 1 == (x - 1) * t + (t - 1)) by (nonlinear_arith);
            lemma_fundamental_div_mod_converse(x * t - 1, t, x - 1, t - 1);
            lemma_div_is_ordered(x * e, x * t - 1, t);
        }
    } else {
        assert(x * t <= x * e <= 0) by (nonlinear_arith)
            requires
                x < 0,
                0 <= e <= t,
        ;
        lemma_div_is_ordered(x * t, x * e, t);
        lemma_div_is_ordered(x * e, 0, t);
    }
}

pub fn isqrt(n: u128) -> (r: u128)
    ensures
        is_floor_sqrt(n as int, r as int),
        r == floor_sqrt(n as int),
        r < 0x1_0000_0000_0000_0000,
{
    let mut lo: u128 = 0;
    let mut hi: u128 = 0x1_0000_0000_0000_0000;
    assert(hi * hi > n) by (nonlinear_arith)
        requires
            hi == 0x1_0000_0000_0000_0000u128,
            n <= u128::MAX,
    ;
    while hi - lo > 1
        invariant
            lo < hi <= 0x1_0000_0000_0000_0000u128,
            lo * lo <= n,
            n < hi * hi,
        decreases hi - lo,
    {
        let mid = lo + (hi - lo) / 2;
        assert(mid * mid < 0x1_0000_0000_0000_0000_0000_0000_0000_0000int) by (nonlinear_arith)
            requires
                mid < 0x1_0000_0000_0000_0000u128,
        ;
        if mid * mid <= n {
            lo = mid;
        } else {
            hi = mid;
        }
    }
    assert(hi == lo + 1);
    proof {
        lemma_floor_sqrt_is(n as int, lo as int);
    }
    lo
}

/// A point or a vector of the plane, in fixed point.
#[derive(Clone, Copy, PartialEq, Eq, Debug, Structural)]
pub struct Vec2 {
    pub x: i64,
    pub y: i64,
}

impl Vec2 {
    pub open spec fn in_extent(self) -> bool {
        in_extent(self.x as int) && in_extent(self.y as int)
    }
}

pub fn vec2(x: i64, y: i64) -> (r: Vec2)
    ensures
        r == (Vec2 { x, y }),
{
    Vec2 { x, y }
}

/// Squared Euclidean distance between two points.
pub open spec fn dist_sq(a: Vec2, b: Vec2) -> int {
    (a.x - b.x) * (a.x - b.x) + (a.y - b.y) * (a.y - b.y)
}

/// Bound on a squared distance between two points of the extent.
pub open spec fn dist_sq_bound() -> int {
    8 * EXTENT * EXTENT
}

pub fn distance_sq(a: Vec2, b: Vec2) -> (r: u128)
    requires
        a.in_extent(),
        b.in_extent(),
    ensures
        r == dist_sq(a, b),
        r <= dist_sq_bound(),
{
    let dx = a.x as i128 - b.x as i128;
    let dy = a.y as i128 - b.y as i128;
    assert(0 <= dx * dx <= 4 * EXTENT * EXTENT) by (nonlinear_arith)
        requires
            -2 * EXTENT <= dx <= 2 * EXTENT,
    ;
    assert(0 <= dy * dy <= 4 * EXTENT * EXTENT) by (nonlinear_arith)
        requires
            -2 * EXTENT <= dy <= 2 * EXTENT,
    ;
    (dx * dx + dy * dy) as u128
}

/// Two circles overlap when their centres are closer than the sum of radii.
pub open spec fn overlaps(a: Vec2, ra: int, b: Vec2, rb: int) -> bool {
    dist_sq(a, b) < (ra + rb) * (ra + rb)
}

pub fn circles_overlap(a: Vec2, ra: i64, b: Vec2, rb: i64) -> (r: bool)
    requires
        a.in_extent(),
        b.in_extent(),
        0 <= ra <= EXTENT,
        0 <= rb <= EXTENT,
    ensures
        r == overlaps(a, ra as int, b, rb as int),
{
    let d2 = distance_sq(a, b);
    let s = (ra + rb) as u128;
    assert(s * s <= 4 * EXTENT * EXTENT) by (nonlinear_arith)
        requires
            0 <= s <= 2 * EXTENT,
    ;
    d2 < s * s
}

} // verus!
