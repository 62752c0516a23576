//! Vectors of the plane: the executable `Vec2` of fixed-point components and
//! `Vector`, the pair of integers that contracts speak of.

use vstd::prelude::*;
use crate::arith::{div_trunc, floor_sqrt, isqrt, lemma_div_trunc_bound, lemma_product_bound, lemma_square_strictly_ordered, mul_div, COORD_MAX, ONE, WORLD_MAX};

verus! {

/// A vector, or a point, of the plane with fixed-point components.
#[derive(Clone, Copy, Debug, PartialEq, Eq, Structural, Hash)]
pub struct Vec2 {
    pub x: i64,
    pub y: i64,
}

/// A vector of the plane with unbounded integer components: the value that
/// a `Vec2` stands for.
pub struct Vector {
    pub x: int,
    pub y: int,
}

impl View for Vec2 {
    type V = Vector;

    open spec fn view(&self) -> Vector {
        Vector { x: self.x as int, y: self.y as int }
    }
}

impl Vector {
    /// The zero vector.
    pub open spec fn zero() -> Vector {
        Vector { x: 0, y: 0 }
    }

    /// The sum of two vectors.
    pub open spec fn plus(self, other: Vector) -> Vector {
        Vector { x: self.x + other.x, y: self.y + other.y }
    }

    /// The difference of two vectors.
    pub open spec fn minus(self, other: Vector) -> Vector {
        Vector { x: self.x - other.x, y: self.y - other.y }
    }

    /// The opposite vector.
    pub open spec fn negated(self) -> Vector {
        Vector { x: -self.x, y: -self.y }
    }

    /// The fixed-point product of the vector and `factor`: each component
    /// times `factor` over `ONE`, rounded toward zero.
    pub open spec fn scaled(self, factor: int) -> Vector {
        Vector {
            x: div_trunc(self.x * factor, ONE as int),
            y: div_trunc(self.y * factor, ONE as int),
        }
    }

    /// The dot product, in squared raw units.
    pub open spec fn dot(self, other: Vector) -> int {
        self.x * other.x + self.y * other.y
    }

    /// The cross product, in squared raw units: zero exactly for parallel
    /// vectors.
    pub open spec fn cross(self, other: Vector) -> int {
        self.x * other.y - self.y * other.x
    }

    /// The squared length, in squared raw units.
    pub open spec fn norm_sq(self) -> int {
        self.x * self.x + self.y * self.y
    }

    /// The length in raw units, rounded down.
    pub open spec fn length(self) -> int {
        floor_sqrt(self.norm_sq())
    }

    /// Whether neither component exceeds `bound` in magnitude.
    pub open spec fn within(self, bound: int) -> bool {
        &&& -bound <= self.x <= bound
        &&& -bound <= self.y <= bound
    }

    /// Each component restricted to the interval from `-bound` to `bound`.
    pub open spec fn clamped(self, bound: int) -> Vector {
        Vector {
            x: if self.x < -bound { -bound } else if self.x > bound { bound } else { self.x },
            y: if self.y < -bound { -bound } else if self.y > bound { bound } else { self.y },
        }
    }
}

impl Vec2 {
    /// The vector with the given components.
    pub fn new(x: i64, y: i64) -> (r: Vec2)
        ensures
            r == (Vec2 { x, y }),
    {
        Vec2 { x, y }
    }

    /// The zero vector.
    pub fn zero() -> (r: Vec2)
        ensures
            r@ == Vector::zero(),
    {
        Vec2 { x: 0, y: 0 }
    }

    /// Whether both components are coordinates that the library accepts.
    pub open spec fn in_range(self) -> bool {
        self@.within(COORD_MAX as int)
    }

    /// Whether both components are coordinates of a position in the world.
    pub open spec fn in_world(self) -> bool {
        self@.within(WORLD_MAX as int)
    }

    /// Whether this is the zero vector.
    pub fn is_zero(self) -> (r: bool)
        ensures
            r == (self@ == Vector::zero()),
    {
        self.x == 0 && self.y == 0
    }

    /// The sum of two vectors.
    pub fn plus(self, other: Vec2) -> (r: Vec2)
        requires
            self@.plus(other@).within(i64::MAX as int),
        ensures
            r@ == self@.plus(other@),
    {
        Vec2 { x: self.x + other.x, y: self.y + other.y }
    }

    /// The difference of two vectors.
    pub fn minus(self, other: Vec2) -> (r: Vec2)
        requires
            self@.minus(other@).within(i64::MAX as int),
        ensures
            r@ == self@.minus(other@),
    {
        Vec2 { x: self.x - other.x, y: self.y - other.y }
    }

    /// The opposite vector.
    pub fn negated(self) -> (r: Vec2)
        requires
            self@.within(i64::MAX as int),
        ensures
            r@ == self@.negated(),
    {
        Vec2 { x: -self.x, y: -self.y }
    }

    /// The fixed-point product of the vector and `factor`.
    pub fn scaled(self, factor: i64) -> (r: Vec2)
        requires
            self@.within(4 * COORD_MAX),
            -COORD_MAX <= factor <= COORD_MAX,
        ensures
            r@ == self@.scaled(factor as int),
    {
        proof {
            lemma_product_bound(self.x as int, factor as int, 4 * COORD_MAX, COORD_MAX as int);
            lemma_product_bound(self.y as int, factor as int, 4 * COORD_MAX, COORD_MAX as int);
            lemma_div_trunc_bound(self.x * factor, ONE as int);
            lemma_div_trunc_bound(self.y * factor, ONE as int);
            assert(4 * COORD_MAX * COORD_MAX == 0x4_0000_0000_0000_0000_0000);
        }
        Vec2 { x: mul_div(self.x, factor, ONE), y: mul_div(self.y, factor, ONE) }
    }

    /// Each component restricted to the coordinates that the library
    /// accepts.
    pub fn clamped(self) -> (r: Vec2)
        ensures
            r@ == self@.clamped(COORD_MAX as int),
            r.in_range(),
    {
        Vec2 {
            x: if self.x < -COORD_MAX { -COORD_MAX } else if self.x > COORD_MAX { COORD_MAX } else { self.x },
            y: if self.y < -COORD_MAX { -COORD_MAX } else if self.y > COORD_MAX { COORD_MAX } else { self.y },
        }
    }

    /// The squared length, in squared raw units.
    pub fn norm_sq(self) -> (r: u128)
        requires
            self@.within(4 * COORD_MAX),
        ensures
            r == self@.norm_sq(),
            r <= 0x20_0000_0000_0000_0000_0000,
    {
        proof {
            lemma_product_bound(self.x as int, self.x as int, 4 * COORD_MAX, 4 * COORD_MAX);
            lemma_product_bound(self.y as int, self.y as int, 4 * COORD_MAX, 4 * COORD_MAX);
            assert(4 * COORD_MAX * (4 * COORD_MAX) == 0x10_0000_0000_0000_0000_0000) by (nonlinear_arith)
                requires
                    COORD_MAX == 0x100_0000_0000,
            ;
            assert(self.x * self.x >= 0) by (nonlinear_arith);
            assert(self.y * self.y >= 0) by (nonlinear_arith);
        }
        let x: i128 = self.x as i128;
        let y: i128 = self.y as i128;
        (x * x + y * y) as u128
    }

    /// The length in raw units, rounded down.
    pub fn length(self) -> (r: i64)
        requires
            self@.within(4 * COORD_MAX),
        ensures
            r == self@.length(),
            0 <= r <= 8 * COORD_MAX,
    {
        let root: u128 = isqrt(self.norm_sq());
        proof {
            lemma_square_strictly_ordered(8 * COORD_MAX, root as int);
            assert((8 * COORD_MAX + 1) * (8 * COORD_MAX + 1) > 0x20_0000_0000_0000_0000_0000)
                by (nonlinear_arith)
                requires
                    COORD_MAX == 0x100_0000_0000,
            ;
        }
        root as i64
    }
}

/// Scaling by `ONE` changes nothing.
pub proof fn lemma_scaled_by_one(v: Vector)
    ensures
        v.scaled(ONE as int) == v,
{
    assert(ONE == 1_000_000);
    assert(v.x * 1_000_000 / 1_000_000 == v.x);
    assert(-(v.x * 1_000_000) / 1_000_000 == -v.x);
    assert(v.y * 1_000_000 / 1_000_000 == v.y);
    assert(-(v.y * 1_000_000) / 1_000_000 == -v.y);
}

} // verus!
