//! Vector utilities: rescaling a vector to a given length, clamping, range
//! remapping and the heading angle.

use vstd::prelude::*;
use crate::angle::{lemma_wrapped, same_direction, wrap_angle, wrapped, HALF_PI, PI};
use crate::arith::{div_trunc, floor_sqrt, is_floor_sqrt, isqrt, lemma_cancel_positive_factor, lemma_div_bounds, lemma_div_trunc_odd, lemma_floor_sqrt, lemma_product_bound, lemma_square_ordered, lemma_square_strictly_ordered, magnitude, COORD_MAX};
use crate::vector::{Vec2, Vector};

verus! {

/// The number of parts into which `set_magnitude` divides a raw unit when it
/// measures the length of a vector: two to the power of twenty.
pub const FINE: i64 = 0x10_0000;

impl Vector {
    /// The length of the vector in `FINE`-th parts of a raw unit, rounded
    /// down.
    pub open spec fn fine_length(self) -> int {
        floor_sqrt(self.norm_sq() * FINE * FINE)
    }

    /// The vector rescaled to the length `scale`, a negative `scale`
    /// reversing it: each component times `scale` over the vector's length.
    /// The length is taken in `FINE`-th parts of a raw unit, rounded down,
    /// and the quotient is rounded toward zero. The zero vector has no
    /// direction and stays zero.
    pub open spec fn with_magnitude(self, scale: int) -> Vector {
        if self == Vector::zero() {
            Vector::zero()
        } else {
            Vector {
                x: div_trunc(self.x * scale * FINE, self.fine_length()),
                y: div_trunc(self.y * scale * FINE, self.fine_length()),
            }
        }
    }
}

/// The absolute value of `a` as an unsigned integer.
fn unsigned(a: i64) -> (r: u128)
    ensures
        r == magnitude(a as int),
{
    if a < 0 {
        (-(a as i128)) as u128
    } else {
        a as u128
    }
}

/// One component of a rescaled vector: `part` times `scale` times `FINE`
/// over `length`, where `part` is at most `length` over `FINE`.
fn rescale_component(part: i64, scale: i64, length: u128) -> (r: i64)
    requires
        -2 * COORD_MAX <= part <= 2 * COORD_MAX,
        -COORD_MAX <= scale <= COORD_MAX,
        length > 0,
        magnitude(part as int) * FINE <= length,
    ensures
        r == div_trunc(part * scale * FINE, length as int),
        -magnitude(scale as int) <= r <= magnitude(scale as int),
{
    let a: u128 = unsigned(part);
    let s: u128 = unsigned(scale);
    proof {
        lemma_product_bound(a as int, s as int, 2 * COORD_MAX, COORD_MAX as int);
        assert(2 * COORD_MAX * COORD_MAX == 0x2_0000_0000_0000_0000_0000);
        lemma_product_bound(a * s, FINE as int, 0x2_0000_0000_0000_0000_0000, FINE as int);
        assert(0x2_0000_0000_0000_0000_0000 * FINE == 0x20_0000_0000_0000_0000_0000_0000);
    }
    let numerator: u128 = a * s * (FINE as u128);
    let quotient: u128 = numerator / length;
    proof {
        let whole: int = part * scale * FINE;
        lemma_div_bounds(numerator as int, length as int);
        assert(numerator <= s * length) by (nonlinear_arith)
            requires
                numerator == a * s * FINE,
                a * FINE <= length,
                s >= 0,
        ;
        assert(quotient <= s) by (nonlinear_arith)
            requires
                quotient * length <= numerator,
                numerator <= s * length,
                length > 0,
        ;
        assert(magnitude(whole) == numerator) by (nonlinear_arith)
            requires
                whole == part * scale * FINE,
                numerator == a * s * FINE,
                a == magnitude(part as int),
                s == magnitude(scale as int),
                FINE > 0,
        ;
        assert((part < 0) != (scale < 0) ==> whole <= 0) by (nonlinear_arith)
            requires
                whole == part * scale * FINE,
                FINE > 0,
        ;
        assert((part < 0) == (scale < 0) ==> whole >= 0) by (nonlinear_arith)
            requires
                whole == part * scale * FINE,
                FINE > 0,
        ;
        lemma_div_trunc_odd(whole, length as int);
        lemma_div_trunc_odd(-whole, length as int);
    }
    if (part < 0) != (scale < 0) {
        -(quotient as i64)
    } else {
        quotient as i64
    }
}

/// Rescales `vector` to the length `scale`; a negative `scale` reverses it.
/// The zero vector has no direction and is returned unchanged.
pub fn set_magnitude(vector: Vec2, scale: i64) -> (r: Vec2)
    requires
        vector@.within(2 * COORD_MAX),
        -COORD_MAX <= scale <= COORD_MAX,
    ensures
        r@ == vector@.with_magnitude(scale as int),
        r@.within(magnitude(scale as int)),
{
    if vector.x == 0 && vector.y == 0 {
        return Vec2 { x: 0, y: 0 };
    }
    let ax: u128 = unsigned(vector.x);
    let ay: u128 = unsigned(vector.y);
    proof {
        lemma_product_bound(vector.x as int, vector.x as int, 2 * COORD_MAX, 2 * COORD_MAX);
        lemma_product_bound(vector.y as int, vector.y as int, 2 * COORD_MAX, 2 * COORD_MAX);
        assert(2 * COORD_MAX * (2 * COORD_MAX) == 0x4_0000_0000_0000_0000_0000) by (nonlinear_arith)
            requires
                COORD_MAX == 0x100_0000_0000,
        ;
        assert(vector.x * vector.x >= 0) by (nonlinear_arith);
        assert(vector.y * vector.y >= 0) by (nonlinear_arith);
    }
    let norm_sq: u128 = ax * ax + ay * ay;
    proof {
        assert(norm_sq == vector@.norm_sq());
        lemma_product_bound(norm_sq as int, FINE as int, 0x8_0000_0000_0000_0000_0000, FINE as int);
        lemma_product_bound(norm_sq * FINE, FINE as int, 0x8_0000_0000_0000_0000_0000 * FINE, FINE as int);
        assert(0x8_0000_0000_0000_0000_0000 * FINE * FINE == 0x800_0000_0000_0000_0000_0000_0000_0000);
        assert(norm_sq * FINE >= 0 && norm_sq * FINE * FINE >= 0) by (nonlinear_arith)
            requires
                norm_sq >= 0,
                FINE > 0,
        ;
    }
    let length: u128 = isqrt(norm_sq * (FINE as u128) * (FINE as u128));
    proof {
        lemma_fine_length(vector@);
    }
    Vec2 {
        x: rescale_component(vector.x, scale, length),
        y: rescale_component(vector.y, scale, length),
    }
}

/// `value` brought down to `high` if it is above, and then up to `low` if it
/// is below.
pub open spec fn constrained(value: int, low: int, high: int) -> int {
    let capped = if value < high { value } else { high };
    if capped > low { capped } else { low }
}

/// Restricts `value` to the interval from `low` to `high`. Where the two are
/// out of order, `low` wins.
pub fn constrain(value: i64, low: i64, high: i64) -> (r: i64)
    ensures
        r == constrained(value as int, low as int, high as int),
        low <= high ==> low <= r <= high,
{
    let capped = if value < high { value } else { high };
    if capped > low { capped } else { low }
}

/// The quotient of `a` by a non-zero `b`, rounded toward zero.
pub open spec fn ratio(a: int, b: int) -> int
    recommends
        b != 0,
{
    if b > 0 {
        div_trunc(a, b)
    } else {
        div_trunc(-a, -b)
    }
}

/// Where `length` falls in the output range when the input range is laid
/// proportionally over it; an input range of no extent maps every length to
/// `out_start`.
pub open spec fn remapped(length: int, in_start: int, in_stop: int, out_start: int, out_stop: int) -> int {
    if in_start == in_stop {
        out_start
    } else {
        out_start + ratio((length - in_start) * (out_stop - out_start), in_stop - in_start)
    }
}

/// `remapped`, restricted to the output range in whichever order its ends come.
pub open spec fn adjusted(length: int, in_start: int, in_stop: int, out_start: int, out_stop: int) -> int {
    let mapped = remapped(length, in_start, in_stop, out_start, out_stop);
    if out_start < out_stop {
        constrained(mapped, out_start, out_stop)
    } else {
        constrained(mapped, out_stop, out_start)
    }
}

/// Remaps `length` from the range `in_start..in_stop` proportionally to the
/// range `out_start..out_stop`, and restricts the result to the output range.
pub fn adjust_magnitude(length: i64, in_start: i64, in_stop: i64, out_start: i64, out_stop: i64) -> (r: i64)
    requires
        -COORD_MAX <= length <= COORD_MAX,
        -COORD_MAX <= in_start <= COORD_MAX,
        -COORD_MAX <= in_stop <= COORD_MAX,
        -COORD_MAX <= out_start <= COORD_MAX,
        -COORD_MAX <= out_stop <= COORD_MAX,
    ensures
        r == adjusted(length as int, in_start as int, in_stop as int, out_start as int, out_stop as int),
        out_start <= out_stop ==> out_start <= r <= out_stop,
        out_stop <= out_start ==> out_stop <= r <= out_start,
{
    let low = if out_start < out_stop { out_start } else { out_stop };
    let high = if out_start < out_stop { out_stop } else { out_start };
    if in_start == in_stop {
        return constrain(out_start, low, high);
    }
    let offset: i128 = length as i128 - in_start as i128;
    let out_extent: i128 = out_stop as i128 - out_start as i128;
    let in_extent: i128 = in_stop as i128 - in_start as i128;
    proof {
        lemma_product_bound(offset as int, out_extent as int, 2 * COORD_MAX, 2 * COORD_MAX);
        assert(2 * COORD_MAX * (2 * COORD_MAX) == 0x4_0000_0000_0000_0000_0000) by (nonlinear_arith)
            requires
                COORD_MAX == 0x100_0000_0000,
        ;
        if in_extent > 0 {
            crate::arith::lemma_div_trunc_bound(offset * out_extent, in_extent as int);
        } else {
            crate::arith::lemma_div_trunc_bound(-(offset * out_extent), -in_extent);
        }
    }
    let product: i128 = offset * out_extent;
    let quotient: i128 = if in_extent > 0 {
        product / in_extent
    } else {
        (-product) / (-in_extent)
    };
    let mapped: i128 = out_start as i128 + quotient;
    let capped: i128 = if mapped < high as i128 { mapped } else { high as i128 };
    if capped > low as i128 {
        capped as i64
    } else {
        low
    }
}

/// The heading of a velocity whose polar angle, counted counterclockwise
/// from the x axis, is `polar_angle`: that angle turned back by a quarter
/// turn, so that it is counted from the agent's forward axis, within the
/// interval from `-PI`, excluded, to `PI`, included.
pub fn heading(polar_angle: i64) -> (r: i64)
    ensures
        r == wrapped(polar_angle - HALF_PI),
        -PI < r <= PI,
        same_direction(r as int, polar_angle - HALF_PI),
{
    proof {
        lemma_wrapped(polar_angle - HALF_PI);
    }
    if polar_angle < i64::MIN + HALF_PI {
        // a quarter turn back would leave the integers: go a turn forward first
        proof {
            lemma_wrapped(polar_angle + crate::angle::TAU - HALF_PI);
            vstd::arithmetic::div_mod::lemma_mod_add_multiples_vanish(
                polar_angle - HALF_PI + PI - 1,
                crate::angle::TAU as int,
            );
        }
        wrap_angle(polar_angle + crate::angle::TAU - HALF_PI)
    } else {
        wrap_angle(polar_angle - HALF_PI)
    }
}

/// The fine length of a non-zero vector is positive, and no component
/// exceeds it.
pub proof fn lemma_fine_length(v: Vector)
    requires
        v != Vector::zero(),
    ensures
        v.fine_length() >= FINE,
        magnitude(v.x) * FINE <= v.fine_length(),
        magnitude(v.y) * FINE <= v.fine_length(),
        is_floor_sqrt(v.fine_length(), v.norm_sq() * FINE * FINE),
{
    let n = v.norm_sq();
    let m = v.fine_length();
    let ax = magnitude(v.x);
    let ay = magnitude(v.y);
    assert(ax * ax == v.x * v.x) by (nonlinear_arith)
        requires
            ax == magnitude(v.x),
    ;
    assert(ay * ay == v.y * v.y) by (nonlinear_arith)
        requires
            ay == magnitude(v.y),
    ;
    assert(ax * ax >= 0 && ay * ay >= 0 && (ax > 0 ==> ax * ax >= 1) && (ay > 0 ==> ay * ay >= 1))
        by (nonlinear_arith)
        requires
            ax >= 0,
            ay >= 0,
    ;
    assert(n >= 1);
    assert(n * FINE * FINE >= FINE * FINE) by (nonlinear_arith)
        requires
            n >= 1,
    ;
    lemma_floor_sqrt(n * FINE * FINE);
    lemma_square_strictly_ordered(m, FINE as int);
    assert((ax * FINE) * (ax * FINE) <= n * FINE * FINE) by (nonlinear_arith)
        requires
            ax * ax <= n,
    ;
    assert((ay * FINE) * (ay * FINE) <= n * FINE * FINE) by (nonlinear_arith)
        requires
            ay * ay <= n,
    ;
    lemma_square_strictly_ordered(m, ax * FINE);
    lemma_square_strictly_ordered(m, ay * FINE);
}

/// The magnitude of one component of a rescaled vector is the quotient, rounded down, of the
/// magnitudes; the component has the sign of `part * scale`, or is zero.
pub proof fn lemma_rescaled_component(part: int, scale: int, length: int)
    requires
        length > 0,
    ensures
        magnitude(div_trunc(part * scale * FINE, length)) == (magnitude(part) * magnitude(scale) * FINE)
            / length,
        0 <= magnitude(div_trunc(part * scale * FINE, length)),
        magnitude(div_trunc(part * scale * FINE, length)) * length <= magnitude(part) * magnitude(
            scale,
        ) * FINE,
        magnitude(part) * magnitude(scale) * FINE < (magnitude(div_trunc(part * scale * FINE, length))
            + 1) * length,
        magnitude(part) * magnitude(scale) * FINE >= 0,
{
    let whole = part * scale * FINE;
    let a = magnitude(part);
    let s = magnitude(scale);
    assert(magnitude(whole) == a * s * FINE) by (nonlinear_arith)
        requires
            whole == part * scale * FINE,
            a == magnitude(part),
            s == magnitude(scale),
            FINE > 0,
    ;
    crate::arith::lemma_div_trunc_bound(whole, length);
    lemma_div_bounds(a * s * FINE, length);
}

/// No component of a rescaled vector exceeds `scale` in magnitude.
pub proof fn lemma_with_magnitude_within(v: Vector, scale: int)
    ensures
        v.with_magnitude(scale).within(magnitude(scale)),
{
    if v != Vector::zero() {
        let m = v.fine_length();
        let s = magnitude(scale);
        lemma_fine_length(v);
        lemma_rescaled_component(v.x, scale, m);
        lemma_rescaled_component(v.y, scale, m);
        let qx = magnitude(v.with_magnitude(scale).x);
        let qy = magnitude(v.with_magnitude(scale).y);
        let ax = magnitude(v.x);
        let ay = magnitude(v.y);
        assert(qx <= s) by (nonlinear_arith)
            requires
                qx * m <= ax * s * FINE,
                ax * FINE <= m,
                m > 0,
                s >= 0,
                ax >= 0,
        ;
        assert(qy <= s) by (nonlinear_arith)
            requires
                qy * m <= ay * s * FINE,
                ay * FINE <= m,
                m > 0,
                s >= 0,
                ay >= 0,
        ;
    }
}

/// A vector rescaled by `set_magnitude` has the length `scale`, up to what
/// rounding takes away: it is longer than `scale` by at most one part in
/// `FINE`, and one raw unit more in each component makes it at least as long
/// as `scale`.
pub proof fn lemma_set_magnitude_length(v: Vector, scale: int)
    requires
        v != Vector::zero(),
    ensures
        v.with_magnitude(scale).norm_sq() * FINE * FINE <= scale * scale * (FINE + 1) * (FINE + 1),
        (magnitude(v.with_magnitude(scale).x) + 1) * (magnitude(v.with_magnitude(scale).x) + 1)
            + (magnitude(v.with_magnitude(scale).y) + 1) * (magnitude(v.with_magnitude(scale).y) + 1)
            > scale * scale,
{
    let r = v.with_magnitude(scale);
    let m = v.fine_length();
    let s = magnitude(scale);
    let ax = magnitude(v.x);
    let ay = magnitude(v.y);
    let qx = magnitude(r.x);
    let qy = magnitude(r.y);
    let nx = ax * s * FINE;
    let ny = ay * s * FINE;
    let t = v.norm_sq() * FINE * FINE;
    lemma_fine_length(v);
    lemma_rescaled_component(v.x, scale, m);
    lemma_rescaled_component(v.y, scale, m);
    assert(ax * ax == v.x * v.x && ay * ay == v.y * v.y) by (nonlinear_arith)
        requires
            ax == magnitude(v.x),
            ay == magnitude(v.y),
    ;
    // the squares of the numerators add up to the squared scale times the squared fine length
    assert(nx * nx + ny * ny == (s * s) * t) by (nonlinear_arith)
        requires
            nx == ax * s * FINE,
            ny == ay * s * FINE,
            t == (ax * ax + ay * ay) * FINE * FINE,
    ;
    assert(s * s == scale * scale) by (nonlinear_arith)
        requires
            s == magnitude(scale),
    ;
    let s2 = s * s;
    assert(s2 >= 0) by (nonlinear_arith)
        requires
            s2 == s * s,
    ;
    let m2 = m * m;
    assert(m2 > 0) by (nonlinear_arith)
        requires
            m2 == m * m,
            m > 0,
    ;
    // upper bound
    lemma_square_ordered(qx * m, nx);
    lemma_square_ordered(qy * m, ny);
    let a = qx * qx + qy * qy;
    assert((qx * m) * (qx * m) + (qy * m) * (qy * m) == a * m2) by (nonlinear_arith)
        requires
            a == qx * qx + qy * qy,
            m2 == m * m,
    ;
    assert(r.norm_sq() == a) by (nonlinear_arith)
        requires
            a == qx * qx + qy * qy,
            qx == magnitude(r.x),
            qy == magnitude(r.y),
            r.norm_sq() == r.x * r.x + r.y * r.y,
    ;
    let u = (FINE + 1) * m;
    let w = (m + 1) * FINE;
    assert(0 <= w <= u) by (nonlinear_arith)
        requires
            u == (FINE + 1) * m,
            w == (m + 1) * FINE,
            m >= FINE,
            FINE > 0,
    ;
    lemma_square_ordered(w, u);
    assert(s2 * t <= s2 * ((m + 1) * (m + 1))) by (nonlinear_arith)
        requires
            s2 >= 0,
            t < (m + 1) * (m + 1),
    ;
    assert(a * m2 * (FINE * FINE) <= s2 * (w * w)) by (nonlinear_arith)
        requires
            a * m2 <= s2 * ((m + 1) * (m + 1)),
            w == (m + 1) * FINE,
            FINE > 0,
    ;
    assert(s2 * (w * w) <= s2 * (u * u)) by (nonlinear_arith)
        requires
            s2 >= 0,
            w * w <= u * u,
    ;
    assert(s2 * (u * u) == (s2 * ((FINE + 1) * (FINE + 1))) * m2) by (nonlinear_arith)
        requires
            u == (FINE + 1) * m,
            m2 == m * m,
    ;
    assert(a * m2 * (FINE * FINE) == (a * (FINE * FINE)) * m2) by (nonlinear_arith);
    lemma_cancel_positive_factor(a * (FINE * FINE), s2 * ((FINE + 1) * (FINE + 1)), m2);
    assert(r.norm_sq() * FINE * FINE == a * (FINE * FINE)) by (nonlinear_arith)
        requires
            r.norm_sq() == a,
    ;
    assert(scale * scale * (FINE + 1) * (FINE + 1) == s2 * ((FINE + 1) * (FINE + 1))) by (nonlinear_arith)
        requires
            s2 == scale * scale,
    ;
    // lower bound
    lemma_square_strictly_ordered(nx, (qx + 1) * m);
    lemma_square_strictly_ordered(ny, (qy + 1) * m);
    assert(nx * nx < (nx + 1) * (nx + 1)) by (nonlinear_arith)
        requires
            nx >= 0,
    ;
    assert(ny * ny < (ny + 1) * (ny + 1)) by (nonlinear_arith)
        requires
            ny >= 0,
    ;
    let b = (qx + 1) * (qx + 1) + (qy + 1) * (qy + 1);
    assert(((qx + 1) * m) * ((qx + 1) * m) + ((qy + 1) * m) * ((qy + 1) * m) == b * m2)
        by (nonlinear_arith)
        requires
            b == (qx + 1) * (qx + 1) + (qy + 1) * (qy + 1),
            m2 == m * m,
    ;
    assert(s2 * m2 <= s2 * t) by (nonlinear_arith)
        requires
            s2 >= 0,
            m2 == m * m,
            m * m <= t,
    ;
    if b <= s2 {
        assert(b * m2 <= s2 * m2) by (nonlinear_arith)
            requires
                b <= s2,
                m2 > 0,
        ;
        assert(false);
    }
}

/// A vector rescaled by `set_magnitude` is parallel to the vector that was
/// given, up to what rounding takes away: it leaves that vector's line by less than the
/// cross product of one raw unit in each component. It points the same way
/// for a positive `scale` and the opposite way for a negative one.
pub proof fn lemma_set_magnitude_direction(v: Vector, scale: int)
    requires
        v != Vector::zero(),
    ensures
        magnitude(v.with_magnitude(scale).cross(v)) < magnitude(v.x) + magnitude(v.y),
        scale >= 0 ==> v.with_magnitude(scale).dot(v) >= 0,
        scale <= 0 ==> v.with_magnitude(scale).dot(v) <= 0,
{
    let r = v.with_magnitude(scale);
    let m = v.fine_length();
    let whole_x = v.x * scale * FINE;
    let whole_y = v.y * scale * FINE;
    lemma_fine_length(v);
    crate::arith::lemma_div_trunc_remainder(whole_x, m);
    crate::arith::lemma_div_trunc_remainder(whole_y, m);
    crate::arith::lemma_div_trunc_bound(whole_x, m);
    crate::arith::lemma_div_trunc_bound(whole_y, m);
    let rest_x = whole_x - r.x * m;
    let rest_y = whole_y - r.y * m;
    let c = r.cross(v);
    let k = scale * FINE;
    let px = r.x * m;
    let py = r.y * m;
    assert(whole_x == v.x * k && whole_y == v.y * k) by (nonlinear_arith)
        requires
            k == scale * FINE,
            whole_x == v.x * scale * FINE,
            whole_y == v.y * scale * FINE,
    ;
    assert(whole_x * v.y == whole_y * v.x) by (nonlinear_arith)
        requires
            whole_x == v.x * k,
            whole_y == v.y * k,
    ;
    assert(m * c == px * v.y - py * v.x) by (nonlinear_arith)
        requires
            c == r.x * v.y - r.y * v.x,
            px == r.x * m,
            py == r.y * m,
    ;
    assert(px * v.y == whole_x * v.y - rest_x * v.y) by (nonlinear_arith)
        requires
            px == whole_x - rest_x,
    ;
    assert(py * v.x == whole_y * v.x - rest_y * v.x) by (nonlinear_arith)
        requires
            py == whole_y - rest_y,
    ;
    assert(m * c == rest_y * v.x - rest_x * v.y);
    let ax = magnitude(v.x);
    let ay = magnitude(v.y);
    lemma_product_bound(rest_y, v.x, m - 1, ax);
    lemma_product_bound(rest_x, v.y, m - 1, ay);
    lemma_product_bound(m, c, m, magnitude(c));
    assert((m - 1) * ax + (m - 1) * ay < m * (ax + ay)) by (nonlinear_arith)
        requires
            ax >= 0,
            ay >= 0,
            ax + ay > 0,
    ;
    assert(magnitude(c) < ax + ay) by (nonlinear_arith)
        requires
            m > 0,
            m * magnitude(c) < m * (ax + ay),
    ;
    // the sign of each component is that of `part * scale`
    assert(scale >= 0 ==> r.x * v.x >= 0 && r.y * v.y >= 0) by (nonlinear_arith)
        requires
            whole_x == v.x * scale * FINE,
            whole_y == v.y * scale * FINE,
            whole_x >= 0 ==> r.x >= 0,
            whole_x <= 0 ==> r.x <= 0,
            whole_y >= 0 ==> r.y >= 0,
            whole_y <= 0 ==> r.y <= 0,
            FINE > 0,
    ;
    assert(scale <= 0 ==> r.x * v.x <= 0 && r.y * v.y <= 0) by (nonlinear_arith)
        requires
            whole_x == v.x * scale * FINE,
            whole_y == v.y * scale * FINE,
            whole_x >= 0 ==> r.x >= 0,
            whole_x <= 0 ==> r.x <= 0,
            whole_y >= 0 ==> r.y >= 0,
            whole_y <= 0 ==> r.y <= 0,
            FINE > 0,
    ;
}

} // verus!
