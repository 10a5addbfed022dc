//! Stateless primitives on angles measured in arcseconds.

use vstd::prelude::*;
use vstd::arithmetic::div_mod::*;

verus! {

/// Arcseconds in one arcminute.
pub const ARCSECONDS_PER_MINUTE: i64 = 60;

/// Arcseconds in one degree.
pub const ARCSECONDS_PER_DEGREE: i64 = 3600;

/// Arcseconds in half a turn (180 degrees).
pub const HALF_TURN: i64 = 648_000;

/// Arcseconds in a full turn (360 degrees).
pub const FULL_TURN: i64 = 1_296_000;

/// The representative of `angle` in `[0, FULL_TURN)`.
pub open spec fn normalized(angle: int) -> int {
    angle % 1_296_000
}

/// The signed way from `a` to `b` that stays within half a turn:
/// a value in `(-HALF_TURN, HALF_TURN]` congruent to `b - a`.
pub open spec fn signed_difference(a: int, b: int) -> int {
    let d = normalized(b - a);
    if d > 648_000 {
        d - 1_296_000
    } else {
        d
    }
}

/// Folds a raw difference of two normalized angles onto the short way round:
/// a full turn is taken off above half a turn and added below minus half a turn.
pub open spec fn short_way(diff: int) -> int {
    if diff > 648_000 {
        diff - 1_296_000
    } else if diff < -648_000 {
        diff + 1_296_000
    } else {
        diff
    }
}

/// `a / b` rounded to the nearest integer, ties towards positive infinity.
pub open spec fn round_div(a: int, b: int) -> int
    recommends
        b > 0,
{
    (2 * a + b) / (2 * b)
}

/// `a / b` rounded to the nearest integer, ties to the even neighbour.
pub open spec fn round_div_even(a: int, b: int) -> int
    recommends
        a >= 0,
        b > 0,
{
    let q = a / b;
    let r = a % b;
    if 2 * r > b || (2 * r == b && q % 2 == 1) {
        q + 1
    } else {
        q
    }
}

/// Normalizes an angle to `[0, 360°)`.
pub fn normalize_degrees(angle: i64) -> (r: i64)
    ensures
        r == normalized(angle as int),
        0 <= r < FULL_TURN,
{
    angle.checked_rem_euclid(FULL_TURN).unwrap()
}

/// The signed shortest-path difference from `a` to `b`, in `(-180°, 180°]`.
pub fn angular_difference(a: i64, b: i64) -> (r: i64)
    ensures
        r == signed_difference(a as int, b as int),
        -HALF_TURN < r <= HALF_TURN,
{
    let na: i64 = normalize_degrees(a);
    let nb: i64 = normalize_degrees(b);
    let diff: i64 = normalize_degrees(nb - na);
    proof {
        lemma_sub_mod_noop(b as int, a as int, 1_296_000);
    }
    if diff > HALF_TURN {
        diff - FULL_TURN
    } else {
        diff
    }
}

/// Folds the difference of two normalized angles onto the short way round.
pub fn shortest_delta(diff: i64) -> (r: i64)
    requires
        -FULL_TURN < diff < FULL_TURN,
    ensures
        r == short_way(diff as int),
        -HALF_TURN <= r <= HALF_TURN,
{
    if diff > HALF_TURN {
        diff - FULL_TURN
    } else if diff < -HALF_TURN {
        diff + FULL_TURN
    } else {
        diff
    }
}

/// `a / b` rounded to the nearest integer, ties upwards.
pub fn rounded_quotient(a: i64, b: i64) -> (r: i64)
    requires
        b > 0,
    ensures
        r == round_div(a as int, b as int),
{
    let num: i128 = 2 * (a as i128) + (b as i128);
    let den: i128 = 2 * (b as i128);
    proof {
        lemma_round_div_bounds(a as int, b as int);
    }
    num.checked_div_euclid(den).unwrap() as i64
}

/// A rounded quotient lies between the dividend's floor and its ceiling,
/// so it never leaves the range that the dividend spans.
pub proof fn lemma_round_div_bounds(a: int, b: int)
    requires
        b > 0,
    ensures
        2 * b * round_div(a, b) <= 2 * a + b < 2 * b * round_div(a, b) + 2 * b,
        a >= 0 ==> 0 <= round_div(a, b) <= a,
        a <= 0 ==> a <= round_div(a, b) <= 0,
{
    let q = round_div(a, b);
    lemma_fundamental_div_mod(2 * a + b, 2 * b);
    lemma_mod_bound(2 * a + b, 2 * b);
    assert(a >= 0 ==> 0 <= q <= a) by (nonlinear_arith)
        requires
            b > 0,
            2 * b * q <= 2 * a + b < 2 * b * q + 2 * b,
    ;
    assert(a <= 0 ==> a <= q <= 0) by (nonlinear_arith)
        requires
            b > 0,
            2 * b * q <= 2 * a + b < 2 * b * q + 2 * b,
    ;
}

/// Normalization lands in `[0, 360°)` and forgets whole turns.
pub proof fn lemma_normalize_periodic(angle: int, turns: int)
    ensures
        0 <= normalized(angle) < 1_296_000,
        normalized(angle + turns * 1_296_000) == normalized(angle),
{
    lemma_mod_multiples_vanish(turns, angle, 1_296_000);
    assert(1_296_000 * turns + angle == angle + turns * 1_296_000);
}

/// Normalizing twice is normalizing once.
pub proof fn lemma_normalize_idempotent(angle: int)
    ensures
        normalized(normalized(angle)) == normalized(angle),
{
    lemma_mod_twice(angle, 1_296_000);
}

/// The signed difference is congruent to `b - a` and is the only such value
/// in `(-180°, 180°]`.
pub proof fn lemma_signed_difference(a: int, b: int)
    ensures
        -648_000 < signed_difference(a, b) <= 648_000,
        normalized(signed_difference(a, b)) == normalized(b - a),
{
    let d = normalized(b - a);
    lemma_mod_twice(b - a, 1_296_000);
    if d > 648_000 {
        lemma_normalize_periodic(d, -1);
    }
}

} // verus!
