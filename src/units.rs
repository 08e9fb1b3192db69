//! Fixed-point units and the clamping / normalisation rules the update engine
//! relies on.
use vstd::prelude::*;

verus! {

/// Microdegrees in one degree.
pub const MICRO: i64 = 1_000_000;

/// A full turn, in microdegrees.
pub const FULL_TURN: i64 = 360 * MICRO;

/// Half a turn, in microdegrees.
pub const HALF_TURN: i64 = 180 * MICRO;

/// A quarter turn, in microdegrees.
pub const QUARTER_TURN: i64 = 90 * MICRO;

/// The hardware speed ceiling: 102.2 knots, in thousandths of a knot.
pub const MAX_SPEED: i64 = 102_200;

/// An angle brought into `[0, 360)` degrees.
pub open spec fn course_of(c: int) -> int {
    c % (FULL_TURN as int)
}

/// A longitude brought into `(-180, 180]` degrees.
pub open spec fn longitude_of(l: int) -> int {
    let r = l % (FULL_TURN as int);
    if r > HALF_TURN { r - FULL_TURN } else { r }
}

/// `v` held inside `[lo, hi]`.
pub open spec fn clamped(v: int, lo: int, hi: int) -> int {
    if v < lo { lo } else if v > hi { hi } else { v }
}

/// Floor division of `v` by a positive divisor `d`.
pub fn div_floor(v: i128, d: i128) -> (q: i128)
    requires
        d > 0,
    ensures
        q == v / d,
{
    if v >= 0 {
        v / d
    } else {
        let a: i128 = -(v + 1);
        let k: i128 = a / d;
        proof {
            let r = (a as int) % (d as int);
            vstd::arithmetic::div_mod::lemma_fundamental_div_mod(a as int, d as int);
            vstd::arithmetic::div_mod::lemma_mod_pos_bound(a as int, d as int);
            assert(v == d * (-k - 1) + (d - 1 - r)) by (nonlinear_arith)
                requires
                    a == d * k + r,
                    v == -(a + 1),
            ;
            vstd::arithmetic::div_mod::lemma_fundamental_div_mod_converse(
                v as int,
                d as int,
                -k - 1,
                d - 1 - r,
            );
        }
        -k - 1
    }
}

/// Euclidean remainder of `v` by a positive modulus `m`.
pub fn rem_euclid(v: i128, m: i128) -> (r: i128)
    requires
        m > 0,
    ensures
        r == v % m,
        0 <= r < m,
{
    if v >= 0 {
        v % m
    } else {
        let a: i128 = -(v + 1);
        let k: i128 = a % m;
        proof {
            let q = (a as int) / (m as int);
            vstd::arithmetic::div_mod::lemma_fundamental_div_mod(a as int, m as int);
            assert(v == m * (-q - 1) + (m - 1 - k)) by (nonlinear_arith)
                requires
                    a == m * q + k,
                    v == -(a + 1),
            ;
            vstd::arithmetic::div_mod::lemma_mod_pos_bound(a as int, m as int);
            vstd::arithmetic::div_mod::lemma_fundamental_div_mod_converse(
                v as int,
                m as int,
                -q - 1,
                m - 1 - k,
            );
        }
        m - 1 - k
    }
}

/// Brings a heading or course into `[0, 360)` degrees.
pub fn normalize_course(course: i64) -> (r: i64)
    ensures
        r == course_of(course as int),
        0 <= r < FULL_TURN,
{
    rem_euclid(course as i128, FULL_TURN as i128) as i64
}

/// Brings a yaw angle into `[0, 360)` degrees.
pub fn normalize_yaw(yaw: i64) -> (r: i64)
    ensures
        r == course_of(yaw as int),
        0 <= r < FULL_TURN,
{
    rem_euclid(yaw as i128, FULL_TURN as i128) as i64
}

/// Brings a longitude into `(-180, 180]` degrees.
pub fn normalize_longitude(lon: i64) -> (r: i64)
    ensures
        r == longitude_of(lon as int),
        -HALF_TURN < r <= HALF_TURN,
{
    let m = rem_euclid(lon as i128, FULL_TURN as i128) as i64;
    if m > HALF_TURN {
        m - FULL_TURN
    } else {
        m
    }
}

/// Holds `value` inside `[min, max]`.
pub fn clamp(value: i64, min: i64, max: i64) -> (r: i64)
    requires
        min <= max,
    ensures
        r == clamped(value as int, min as int, max as int),
        min <= r <= max,
{
    if value < min {
        min
    } else if value > max {
        max
    } else {
        value
    }
}

/// Holds a speed over ground inside `[0, 102.2]` knots.
pub fn clamp_speed(sog: i64) -> (r: i64)
    ensures
        r == clamped(sog as int, 0, MAX_SPEED as int),
        0 <= r <= MAX_SPEED,
{
    clamp(sog, 0, MAX_SPEED)
}

/// Holds a latitude inside `[-90, 90]` degrees.
pub fn clamp_latitude(lat: i64) -> (r: i64)
    ensures
        r == clamped(lat as int, -QUARTER_TURN as int, QUARTER_TURN as int),
        -QUARTER_TURN <= r <= QUARTER_TURN,
{
    clamp(lat, -QUARTER_TURN, QUARTER_TURN)
}

/// Normalising an angle that is already in `[0, 360)` leaves it unchanged, so
/// normalising twice gives what normalising once gives.
pub proof fn lemma_course_idempotent(c: int)
    ensures
        0 <= c < FULL_TURN ==> course_of(c) == c,
        course_of(course_of(c)) == course_of(c),
{
    vstd::arithmetic::div_mod::lemma_small_mod(course_of(c) as nat, FULL_TURN as nat);
    if 0 <= c < FULL_TURN {
        vstd::arithmetic::div_mod::lemma_small_mod(c as nat, FULL_TURN as nat);
    }
}

/// Normalising a longitude that is already in `(-180, 180]` leaves it unchanged,
/// and the result always lies in that range.
pub proof fn lemma_longitude_idempotent(l: int)
    ensures
        -HALF_TURN < longitude_of(l) <= HALF_TURN,
        -HALF_TURN < l <= HALF_TURN ==> longitude_of(l) == l,
        longitude_of(longitude_of(l)) == longitude_of(l),
{
    let f = FULL_TURN as int;
    assert forall|x: int| -HALF_TURN < x <= HALF_TURN implies longitude_of(x) == x by {
        if x >= 0 {
            vstd::arithmetic::div_mod::lemma_small_mod(x as nat, f as nat);
        } else {
            vstd::arithmetic::div_mod::lemma_fundamental_div_mod_converse(x, f, -1, x + f);
        }
    }
}

} // verus!
