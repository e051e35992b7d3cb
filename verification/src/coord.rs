//! Grid coordinates and the cross product of two of them.

use vstd::prelude::*;

verus! {

/// A position on the integer grid; `y` grows upwards.
#[derive(Clone, Copy, Debug, PartialEq, Eq, Hash, Structural)]
pub struct Coord {
    pub x: i32,
    pub y: i32,
}

impl Coord {
    /// The cross product `self.x * other.y - other.x * self.y`: twice the signed
    /// area of the triangle from the origin to `self` to `other`, positive
    /// where that triangle runs counter-clockwise.
    pub open spec fn cross(self, other: Coord) -> int {
        self.x * other.y - other.x * self.y
    }

    /// The position `(x, y)`.
    pub fn new(x: i32, y: i32) -> (c: Coord)
        ensures
            c == (Coord { x, y }),
    {
        Coord { x, y }
    }

    /// Computes [`Coord::cross`]. The result of two `i32` coordinates always
    /// fits an `i64`.
    pub fn cross_product(self, other: Coord) -> (r: i64)
        ensures
            r == self.cross(other),
    {
        proof {
            lemma_product_bounds(self.x as int, other.y as int);
            lemma_product_bounds(other.x as int, self.y as int);
        }
        let a: i64 = (self.x as i64) * (other.y as i64);
        let b: i64 = (other.x as i64) * (self.y as i64);
        a - b
    }
}

impl From<(i32, i32)> for Coord {
    /// The coordinate with `x` the first and `y` the second of the pair.
    fn from(pair: (i32, i32)) -> (c: Coord) {
        Coord { x: pair.0, y: pair.1 }
    }
}

impl vstd::std_specs::convert::FromSpecImpl<(i32, i32)> for Coord {
    open spec fn obeys_from_spec() -> bool {
        true
    }

    open spec fn from_spec(pair: (i32, i32)) -> Coord {
        Coord { x: pair.0, y: pair.1 }
    }
}

/// The product of two `i32` values lies between `-2^62 + 2^31` and `2^62`.
pub proof fn lemma_product_bounds(a: int, b: int)
    by (nonlinear_arith)
    requires
        -0x8000_0000 <= a <= 0x7fff_ffff,
        -0x8000_0000 <= b <= 0x7fff_ffff,
    ensures
        -0x4000_0000_0000_0000 + 0x8000_0000 <= a * b <= 0x4000_0000_0000_0000,
{
}

/// The cross product changes sign when its arguments are swapped, and its
/// magnitude is below `2^63`.
pub proof fn lemma_cross_properties(a: Coord, b: Coord)
    ensures
        b.cross(a) == -a.cross(b),
        -0x8000_0000_0000_0000 < a.cross(b) < 0x8000_0000_0000_0000,
{
    lemma_product_bounds(a.x as int, b.y as int);
    lemma_product_bounds(b.x as int, a.y as int);
}

} // verus!
