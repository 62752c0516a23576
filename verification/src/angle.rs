//! Angles in fixed-point radians.

use vstd::prelude::*;

verus! {

/// Half a turn: pi radians, to the nearest millionth.
pub const PI: i64 = 3_141_593;

/// A quarter turn.
pub const HALF_PI: i64 = 1_570_796;

/// A full turn: twice `PI`, so that half a turn and half a turn make one.
pub const TAU: i64 = 6_283_186;

/// The angle in the interval from `-PI`, excluded, to `PI`, included, that
/// differs from `angle` by whole turns.
pub open spec fn wrapped(angle: int) -> int {
    (angle + PI - 1) % (TAU as int) - PI + 1
}

/// Whether two angles differ by whole turns.
pub open spec fn same_direction(a: int, b: int) -> bool {
    (a - b) % (TAU as int) == 0
}

/// `wrapped` keeps the direction and lands in the principal interval.
pub proof fn lemma_wrapped(angle: int)
    ensures
        -PI < wrapped(angle) <= PI,
        same_direction(wrapped(angle), angle),
        -PI < angle <= PI ==> wrapped(angle) == angle,
{
    let shifted = angle + PI - 1;
    vstd::arithmetic::div_mod::lemma_fundamental_div_mod(shifted, TAU as int);
    vstd::arithmetic::div_mod::lemma_mod_bound(shifted, TAU as int);
    let q = shifted / (TAU as int);
    assert(wrapped(angle) - angle == -(TAU * q));
    assert((-q) * TAU == -(TAU * q)) by (nonlinear_arith);
    vstd::arithmetic::div_mod::lemma_mod_multiples_basic(-q, TAU as int);
    if -PI < angle <= PI {
        vstd::arithmetic::div_mod::lemma_small_mod(shifted as nat, TAU as nat);
    }
}

/// Brings `angle` into the interval from `-PI`, excluded, to `PI`, included,
/// by whole turns.
pub fn wrap_angle(angle: i64) -> (r: i64)
    ensures
        r == wrapped(angle as int),
        -PI < r <= PI,
        same_direction(r as int, angle as int),
{
    proof {
        lemma_wrapped(angle as int);
    }
    let shifted: i128 = angle as i128 + PI as i128 - 1;
    let rest: i128 = shifted % (TAU as i128);
    let turned: i128 = if rest < 0 {
        rest + TAU as i128
    } else {
        rest
    };
    (turned - PI as i128 + 1) as i64
}

} // verus!
