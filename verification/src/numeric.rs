//! Math primitives of the kernel: points, vectors and triangles with exact
//! 64-bit integer coordinates, and the normalization of edge directions.
//!
//! Working over integers keeps equality, ordering and hashing exact, so
//! these types can key deduplication maps and serve as dual-form payloads.

use vstd::prelude::*;

verus! {

/// Coordinates of every point and vector are kept strictly below this bound
/// in absolute value, so that the difference or the sum of any two
/// coordinates still fits in an `i64`.
pub const COORD_LIMIT: i64 = 0x2000_0000_0000_0000;

/// A point in a 2-dimensional (surface-local) coordinate space.
#[derive(Clone, Copy, Debug, PartialEq, Eq, Hash, PartialOrd, Ord, Structural)]
pub struct Point2 {
    pub x: i64,
    pub y: i64,
}

/// A point in 3-dimensional (canonical, world) space.
#[derive(Clone, Copy, Debug, PartialEq, Eq, Hash, PartialOrd, Ord, Structural)]
pub struct Point3 {
    pub x: i64,
    pub y: i64,
    pub z: i64,
}

/// A displacement in a 2-dimensional coordinate space.
#[derive(Clone, Copy, Debug, PartialEq, Eq, Hash, PartialOrd, Ord, Structural)]
pub struct Vector2 {
    pub x: i64,
    pub y: i64,
}

/// A displacement in 3-dimensional space.
#[derive(Clone, Copy, Debug, PartialEq, Eq, Hash, PartialOrd, Ord, Structural)]
pub struct Vector3 {
    pub x: i64,
    pub y: i64,
    pub z: i64,
}

/// A triangle in 3-dimensional space, the unit emitted by meshing.
#[derive(Clone, Copy, Debug, PartialEq, Eq, Hash, PartialOrd, Ord, Structural)]
pub struct Triangle3 {
    pub a: Point3,
    pub b: Point3,
    pub c: Point3,
}

impl Point2 {
    /// Whether both coordinates lie strictly within the coordinate bound.
    pub open spec fn in_bounds(self) -> bool {
        -COORD_LIMIT < self.x < COORD_LIMIT && -COORD_LIMIT < self.y < COORD_LIMIT
    }

    /// Construct a point from its two coordinates.
    pub fn new(x: i64, y: i64) -> (r: Point2)
        ensures
            r == (Point2 { x, y }),
    {
        Point2 { x, y }
    }
}

impl Point3 {
    /// Whether all three coordinates lie strictly within the coordinate bound.
    pub open spec fn in_bounds(self) -> bool {
        &&& -COORD_LIMIT < self.x < COORD_LIMIT
        &&& -COORD_LIMIT < self.y < COORD_LIMIT
        &&& -COORD_LIMIT < self.z < COORD_LIMIT
    }

    /// Construct a point from its three coordinates.
    pub fn new(x: i64, y: i64, z: i64) -> (r: Point3)
        ensures
            r == (Point3 { x, y, z }),
    {
        Point3 { x, y, z }
    }
}

/// The absolute value of a mathematical integer.
pub open spec fn abs_int(v: int) -> int {
    if v < 0 {
        -v
    } else {
        v
    }
}

/// The greatest common divisor, by Euclid's algorithm.
pub open spec fn gcd(a: nat, b: nat) -> nat
    decreases b,
{
    if b == 0 {
        a
    } else {
        gcd(b, a % b)
    }
}

/// The greatest common divisor of two numbers that are not both zero is
/// itself not zero.
pub proof fn lemma_gcd_nonzero(a: nat, b: nat)
    requires
        a != 0 || b != 0,
    ensures
        gcd(a, b) != 0,
    decreases b,
{
    if b != 0 {
        lemma_gcd_nonzero(b, a % b);
    }
}

/// Compute the greatest common divisor of two machine integers.
pub fn gcd_u64(a: u64, b: u64) -> (g: u64)
    ensures
        g == gcd(a as nat, b as nat),
{
    let mut x = a;
    let mut y = b;
    while y != 0
        invariant
            gcd(x as nat, y as nat) == gcd(a as nat, b as nat),
        decreases y,
    {
        let r = x % y;
        x = y;
        y = r;
    }
    x
}

/// The normalized direction of a non-zero 2-dimensional displacement: the
/// shortest integer vector that points the same way, obtained by dividing
/// both components by their greatest common divisor. Comparing normalized
/// directions tests whether two displacements are parallel and point the
/// same (not the opposite) way, which is what comparing normalized
/// floating-point direction vectors tests where the arithmetic is exact.
pub open spec fn norm_dir(dx: int, dy: int) -> (int, int) {
    let g = gcd(abs_int(dx) as nat, abs_int(dy) as nat) as int;
    (
        if dx < 0 {
            -(abs_int(dx) / g)
        } else {
            abs_int(dx) / g
        },
        if dy < 0 {
            -(abs_int(dy) / g)
        } else {
            abs_int(dy) / g
        },
    )
}

/// Compute the normalized direction of a non-zero displacement.
pub fn direction(dx: i64, dy: i64) -> (r: (i64, i64))
    requires
        !(dx == 0 && dy == 0),
        -2 * COORD_LIMIT < dx < 2 * COORD_LIMIT,
        -2 * COORD_LIMIT < dy < 2 * COORD_LIMIT,
    ensures
        (r.0 as int, r.1 as int) == norm_dir(dx as int, dy as int),
{
    let ax: u64 = (if dx < 0 { -dx } else { dx }) as u64;
    let ay: u64 = (if dy < 0 { -dy } else { dy }) as u64;
    proof {
        lemma_gcd_nonzero(ax as nat, ay as nat);
    }
    let g = gcd_u64(ax, ay);
    let px = ax / g;
    let py = ay / g;
    proof {
        vstd::arithmetic::div_mod::lemma_div_is_ordered_by_denominator(ax as int, 1, g as int);
        vstd::arithmetic::div_mod::lemma_div_is_ordered_by_denominator(ay as int, 1, g as int);
    }
    let rx: i64 = if dx < 0 { -(px as i64) } else { px as i64 };
    let ry: i64 = if dy < 0 { -(py as i64) } else { py as i64 };
    (rx, ry)
}

} // verus!
