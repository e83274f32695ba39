//! Directions from angles, by Bhaskara I's rational approximation of the sine.
//!
//! Angles are in thousandths of a degree; sines and cosines are scaled by
//! `TRIG_ONE`.
use vstd::prelude::*;
use vstd::arithmetic::div_mod::{
    lemma_fundamental_div_mod, lemma_fundamental_div_mod_converse, lemma_mod_pos_bound,
};
use crate::fixed::Vec2;

verus! {

pub const FULL_TURN: i64 = 360_000;

pub const HALF_TURN: i64 = 180_000;

pub const QUARTER_TURN: i64 = 90_000;

/// The fixed-point value that stands for 1 in sines and cosines.
pub const TRIG_ONE: i64 = 1_000_000;

/// `40500` square degrees, in square thousandths of a degree.
pub const BHASKARA_DENOM: i64 = 40_500_000_000;

pub open spec fn is_angle(t: int) -> bool {
    0 <= t < FULL_TURN
}

/// The approximation `4p / (40500 - p)` with `p = t (180 - t)`, on a half turn.
pub open spec fn half_sine(t: int) -> int {
    let p = t * (HALF_TURN - t);
    4 * p * TRIG_ONE / (BHASKARA_DENOM - p)
}

pub open spec fn sine(t: int) -> int {
    if t <= HALF_TURN {
        half_sine(t)
    } else {
        -half_sine(t - HALF_TURN)
    }
}

/// The angle `t` brought into one turn.
pub open spec fn turn(t: int) -> int {
    t % (FULL_TURN as int)
}

pub open spec fn cosine(t: int) -> int {
    sine(turn(t + QUARTER_TURN))
}

/// Unit vector at angle `t`, scaled by `TRIG_ONE`.
pub open spec fn direction(t: int) -> (int, int) {
    (cosine(t), sine(t))
}

proof fn lemma_half_sine_bounds(t: int)
    requires
        0 <= t <= HALF_TURN,
    ensures
        0 <= half_sine(t) <= TRIG_ONE,
{
    let p = t * (HALF_TURN - t);
    assert(0 <= p <= 8_100_000_000) by (nonlinear_arith)
        requires
            p == t * (180_000 - t),
            0 <= t <= 180_000,
    ;
    let den = BHASKARA_DENOM - p;
    let num = 4 * p * TRIG_ONE;
    let q = num / den;
    lemma_fundamental_div_mod(num, den);
    lemma_mod_pos_bound(num, den);
    assert(0 <= q <= TRIG_ONE) by (nonlinear_arith)
        requires
            num == den * q + num % den,
            0 <= num % den < den,
            num == 4 * p * 1_000_000,
            den == 40_500_000_000 - p,
            0 <= p <= 8_100_000_000,
    ;
}

fn half_sine_exec(t: i64) -> (r: i64)
    requires
        0 <= t <= HALF_TURN,
    ensures
        r == half_sine(t as int),
        0 <= r <= TRIG_ONE,
{
    proof {
        lemma_half_sine_bounds(t as int);
    }
    let t = t as i128;
    let u = HALF_TURN as i128 - t;
    assert(0 <= t * u <= 8_100_000_000) by (nonlinear_arith)
        requires
            u == 180_000 - t,
            0 <= t <= 180_000,
    ;
    let p = t * u;
    assert(0 <= p <= 8_100_000_000) by (nonlinear_arith)
        requires
            p == t * (180_000 - t),
            0 <= t <= 180_000,
    ;
    (4 * p * TRIG_ONE as i128 / (BHASKARA_DENOM as i128 - p)) as i64
}

/// Brings an angle within one turn of the range back into it.
pub fn wrap_angle(t: i64) -> (r: i64)
    requires
        -FULL_TURN <= t < 2 * FULL_TURN,
    ensures
        r == turn(t as int),
        is_angle(r as int),
{
    let r = if t < 0 {
        t + FULL_TURN
    } else if t >= FULL_TURN {
        t - FULL_TURN
    } else {
        t
    };
    proof {
        let k: int = if t < 0 { -1 } else if t >= FULL_TURN { 1 } else { 0 };
        lemma_fundamental_div_mod_converse(t as int, FULL_TURN as int, k, r as int);
    }
    r
}

pub fn sin_of(t: i64) -> (r: i64)
    requires
        is_angle(t as int),
    ensures
        r == sine(t as int),
        -TRIG_ONE <= r <= TRIG_ONE,
{
    if t <= HALF_TURN {
        half_sine_exec(t)
    } else {
        -half_sine_exec(t - HALF_TURN)
    }
}

pub fn cos_of(t: i64) -> (r: i64)
    requires
        is_angle(t as int),
    ensures
        r == cosine(t as int),
        -TRIG_ONE <= r <= TRIG_ONE,
{
    let c = wrap_angle(t + QUARTER_TURN);
    sin_of(c)
}

/// The unit vector at angle `t`, scaled by `TRIG_ONE`.
pub fn direction_of(t: i64) -> (r: Vec2)
    requires
        is_angle(t as int),
    ensures
        (r.x as int, r.y as int) == direction(t as int),
        -TRIG_ONE <= r.x <= TRIG_ONE,
        -TRIG_ONE <= r.y <= TRIG_ONE,
{
    Vec2 { x: cos_of(t), y: sin_of(t) }
}

} // verus!
