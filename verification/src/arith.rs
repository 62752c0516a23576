//! Integer arithmetic under the fixed-point quantities: division that rounds
//! toward zero, and the integer square root.

use vstd::prelude::*;

verus! {

/// One world unit, one second or one radian, in the library's fixed-point
/// representation.
pub const ONE: i64 = 1_000_000;

/// The largest magnitude of a coordinate, a speed or a duration that the
/// library's functions accept: two to the power of forty.
pub const COORD_MAX: i64 = 0x100_0000_0000;

/// The largest magnitude of a coordinate of a position in the world: half of
/// `COORD_MAX`, which leaves room for the points that the behaviours
/// project ahead of a position.
pub const WORLD_MAX: i64 = 0x80_0000_0000;

/// The quotient of `a` by a positive `b`, rounded toward zero.
pub open spec fn div_trunc(a: int, b: int) -> int
    recommends
        b > 0,
{
    if a >= 0 {
        a / b
    } else {
        -((-a) / b)
    }
}

/// The absolute value of `a`.
pub open spec fn magnitude(a: int) -> int {
    if a < 0 {
        -a
    } else {
        a
    }
}

/// Whether `r` is the integer square root of `n`, rounded down.
pub open spec fn is_floor_sqrt(r: int, n: int) -> bool {
    &&& 0 <= r
    &&& r * r <= n
    &&& n < (r + 1) * (r + 1)
}

/// The integer square root of a non-negative `n`, rounded down.
pub closed spec fn floor_sqrt(n: int) -> int {
    choose|r: int| is_floor_sqrt(r, n)
}

/// Every non-negative integer has an integer square root.
pub proof fn lemma_floor_sqrt(n: int)
    requires
        n >= 0,
    ensures
        is_floor_sqrt(floor_sqrt(n), n),
    decreases n,
{
    if n == 0 {
        assert(is_floor_sqrt(0, 0));
    } else {
        lemma_floor_sqrt(n - 1);
        let r = floor_sqrt(n - 1);
        if (r + 1) * (r + 1) <= n {
            assert((r + 2) * (r + 2) > (r + 1) * (r + 1)) by (nonlinear_arith)
                requires
                    r >= 0,
            ;
            assert(is_floor_sqrt(r + 1, n));
        } else {
            assert(is_floor_sqrt(r, n));
        }
    }
}

/// The integer square root is unique.
pub proof fn lemma_floor_sqrt_unique(r: int, n: int)
    requires
        is_floor_sqrt(r, n),
    ensures
        r == floor_sqrt(n),
{
    lemma_floor_sqrt(n);
    let s = floor_sqrt(n);
    lemma_square_strictly_ordered(r, s);
    lemma_square_strictly_ordered(s, r);
}

/// Squares keep the strict order of non-negative integers: below `b`, even
/// the successor of `a` has a square that is at most the square of `b`.
pub proof fn lemma_square_strictly_ordered(a: int, b: int)
    requires
        0 <= a,
        0 <= b,
    ensures
        a < b ==> (a + 1) * (a + 1) <= b * b,
{
    if a < b {
        assert((a + 1) * (a + 1) <= b * b) by (nonlinear_arith)
            requires
                0 <= a,
                a + 1 <= b,
        ;
    }
}

/// Squares keep the order of non-negative integers.
pub proof fn lemma_square_ordered(a: int, b: int)
    requires
        0 <= a <= b,
    ensures
        a * a <= b * b,
{
    assert(a * a <= b * b) by (nonlinear_arith)
        requires
            0 <= a <= b,
    ;
}

/// A positive common factor can be cancelled from both sides of an
/// inequality.
pub proof fn lemma_cancel_positive_factor(a: int, b: int, c: int)
    requires
        c > 0,
        a * c <= b * c,
    ensures
        a <= b,
{
    assert(a <= b) by (nonlinear_arith)
        requires
            c > 0,
            a * c <= b * c,
    ;
}

/// Negating the dividend negates a quotient that is rounded toward zero.
pub proof fn lemma_div_trunc_odd(a: int, b: int)
    requires
        b > 0,
    ensures
        div_trunc(-a, b) == -div_trunc(a, b),
{
    if a == 0 {
        assert(0int / b == 0) by (nonlinear_arith)
            requires
                b > 0,
        ;
    }
}

/// What pins the quotient of a non-negative `a` by a positive `b`.
pub proof fn lemma_div_bounds(a: int, b: int)
    requires
        a >= 0,
        b > 0,
    ensures
        0 <= a / b,
        (a / b) * b <= a,
        a < (a / b + 1) * b,
{
    vstd::arithmetic::div_mod::lemma_fundamental_div_mod(a, b);
    vstd::arithmetic::div_mod::lemma_mod_bound(a, b);
    vstd::arithmetic::div_mod::lemma_div_pos_is_pos(a, b);
    let q = a / b;
    assert(b * q == q * b) by (nonlinear_arith);
    assert((q + 1) * b == q * b + b) by (nonlinear_arith);
}

/// The integer square root of `n`, rounded down.
pub fn isqrt(n: u128) -> (r: u128)
    ensures
        r == floor_sqrt(n as int),
        is_floor_sqrt(r as int, n as int),
        r < 0x1_0000_0000_0000_0000,
{
    let mut low: u128 = 0;
    let mut high: u128 = 0x1_0000_0000_0000_0000;
    while high - low > 1
        invariant
            low < high <= 0x1_0000_0000_0000_0000,
            low * low <= n,
            n < high * high,
        decreases high - low,
    {
        let middle: u128 = low + (high - low) / 2;
        assert(middle * middle <= 0xffff_ffff_ffff_ffff * 0xffff_ffff_ffff_ffff)
            by (nonlinear_arith)
            requires
                0 <= middle <= 0xffff_ffff_ffff_ffff,
        ;
        if middle * middle <= n {
            low = middle;
        } else {
            high = middle;
        }
    }
    proof {
        lemma_floor_sqrt_unique(low as int, n as int);
    }
    low
}

/// A product is bounded by the product of the bounds of its factors.
pub proof fn lemma_product_bound(a: int, b: int, bound_a: int, bound_b: int)
    requires
        magnitude(a) <= bound_a,
        magnitude(b) <= bound_b,
    ensures
        magnitude(a * b) <= bound_a * bound_b,
        magnitude(a * b) == magnitude(a) * magnitude(b),
{
    let ma = magnitude(a);
    let mb = magnitude(b);
    assert(magnitude(a * b) == ma * mb) by (nonlinear_arith)
        requires
            ma == magnitude(a),
            mb == magnitude(b),
    ;
    assert(ma * mb <= bound_a * bound_b) by (nonlinear_arith)
        requires
            0 <= ma <= bound_a,
            0 <= mb <= bound_b,
    ;
}

/// A quotient rounded toward zero is no larger in magnitude than its
/// dividend, and has the dividend's sign or is zero.
pub proof fn lemma_div_trunc_bound(a: int, b: int)
    requires
        b > 0,
    ensures
        magnitude(div_trunc(a, b)) <= magnitude(a),
        magnitude(div_trunc(a, b)) == magnitude(a) / b,
        a >= 0 ==> div_trunc(a, b) >= 0,
        a <= 0 ==> div_trunc(a, b) <= 0,
{
    let m = magnitude(a);
    lemma_div_bounds(m, b);
    assert(m / b <= m) by (nonlinear_arith)
        requires
            0 <= m / b,
            (m / b) * b <= m,
            b >= 1,
    ;
}

/// `a` times `b` over `c`, rounded toward zero.
pub fn mul_div(a: i64, b: i64, c: i64) -> (r: i64)
    requires
        c > 0,
        i64::MIN <= div_trunc(a * b, c as int) <= i64::MAX,
    ensures
        r == div_trunc(a * b, c as int),
{
    proof {
        lemma_product_bound(a as int, b as int, 0x8000_0000_0000_0000, 0x8000_0000_0000_0000);
    }
    let product: i128 = (a as i128) * (b as i128);
    let quotient: i128 = product / (c as i128);
    quotient as i64
}

/// A quotient rounded toward zero, times the divisor, misses the dividend
/// by less than the divisor, and never overshoots it in magnitude.
pub proof fn lemma_div_trunc_remainder(a: int, b: int)
    requires
        b > 0,
    ensures
        a >= 0 ==> 0 <= a - div_trunc(a, b) * b < b,
        a <= 0 ==> -b < a - div_trunc(a, b) * b <= 0,
{
    let m = magnitude(a);
    lemma_div_bounds(m, b);
    let q = m / b;
    assert((q + 1) * b == q * b + b) by (nonlinear_arith);
    assert((-q) * b == -(q * b)) by (nonlinear_arith);
    if a == 0 {
        lemma_div_trunc_odd(0, b);
    }
}

} // verus!
