//! Planar polygon construction: validated construction of a minimal polygon
//! (a triangle) from three points, rejecting degenerate configurations, with
//! a canonical point-ordering normalization.
//!
//! Construction rejects a repeated point, and three points whose two
//! consecutive edges have the same normalized direction. The collinearity
//! test deliberately checks only *consecutive* edge directions, so it
//! catches collinear points only when they are traversed in order; this
//! exact check, not a generalized collinearity test, is the contract.
//! On success the points are rotated (never reversed) so that the
//! lexicographically smallest point comes first: two triangles with the
//! same winding and the same point set compare equal regardless of the
//! starting vertex.

use vstd::prelude::*;

use crate::numeric::{norm_dir, direction, Point2};

verus! {

/// Error that can occur when constructing a polygon.
#[derive(Clone, Copy, Debug, PartialEq, Eq, Structural)]
pub enum Error {
    /// At least two points are identical to each other.
    IdenticalPoints,
    /// The three points are on a line.
    PointsOnLine,
}

/// A polygon without holes: a triangle with pairwise distinct,
/// non-collinear points, stored with the lexicographically smallest point
/// first.
#[derive(Clone, Copy, Debug, PartialEq, Eq, Hash, Structural)]
pub struct Polygon {
    pa: Point2,
    pb: Point2,
    pc: Point2,
}

/// Lexicographic order on points: by x-coordinate, then by y-coordinate.
pub open spec fn lex_le(p: Point2, q: Point2) -> bool {
    p.x < q.x || (p.x == q.x && p.y <= q.y)
}

/// Whether some two of the three points are the same point.
pub open spec fn has_identical_pair(a: Point2, b: Point2, c: Point2) -> bool {
    a == b || a == c || b == c
}

/// Whether the two consecutive edges have the same normalized direction:
/// the three points are collinear as traversed.
pub open spec fn collinear_in_order(a: Point2, b: Point2, c: Point2) -> bool {
    norm_dir(b.x - a.x, b.y - a.y) == norm_dir(c.x - b.x, c.y - b.y)
}

/// The cyclic rotation of the three points that puts the lexicographically
/// smallest point first, preserving winding.
pub open spec fn rotate_min(a: Point2, b: Point2, c: Point2) -> (Point2, Point2, Point2) {
    if lex_le(a, b) && lex_le(a, c) {
        (a, b, c)
    } else if lex_le(b, a) && lex_le(b, c) {
        (b, c, a)
    } else {
        (c, a, b)
    }
}

/// What constructing a polygon from three points returns: the identical-pair
/// check comes first, the collinearity check second, and a valid input
/// yields the rotated point sequence.
pub open spec fn polygon_new_spec(a: Point2, b: Point2, c: Point2) -> Result<Seq<Point2>, Error> {
    if has_identical_pair(a, b, c) {
        Err(Error::IdenticalPoints)
    } else if collinear_in_order(a, b, c) {
        Err(Error::PointsOnLine)
    } else {
        let (p, q, r) = rotate_min(a, b, c);
        Ok(seq![p, q, r])
    }
}

impl Polygon {
    /// The three points of the polygon, in stored order.
    pub closed spec fn points_spec(self) -> Seq<Point2> {
        seq![self.pa, self.pb, self.pc]
    }

    /// Create a new polygon from three points.
    ///
    /// Fails with [`Error::IdenticalPoints`] exactly when two of the points
    /// are equal, and with [`Error::PointsOnLine`] exactly when the points
    /// are distinct but the two consecutive edge directions coincide.
    /// Otherwise the result holds the three points rotated so that the
    /// lexicographically smallest one comes first.
    pub fn new(a: Point2, b: Point2, c: Point2) -> (r: Result<Polygon, Error>)
        requires
            a.in_bounds(),
            b.in_bounds(),
            c.in_bounds(),
        ensures
            r is Ok <==> polygon_new_spec(a, b, c) is Ok,
            r matches Ok(p) ==> polygon_new_spec(a, b, c) == Ok::<Seq<Point2>, Error>(
                p.points_spec(),
            ),
            r matches Err(e) ==> polygon_new_spec(a, b, c) == Err::<Seq<Point2>, Error>(e),
    {
        if (a.x == b.x && a.y == b.y) || (a.x == c.x && a.y == c.y) || (b.x == c.x && b.y
            == c.y) {
            return Err(Error::IdenticalPoints);
        }
        let d1 = direction(b.x - a.x, b.y - a.y);
        let d2 = direction(c.x - b.x, c.y - b.y);
        if d1.0 == d2.0 && d1.1 == d2.1 {
            return Err(Error::PointsOnLine);
        }
        let a_min = lex_le_exec(a, b) && lex_le_exec(a, c);
        let b_min = lex_le_exec(b, a) && lex_le_exec(b, c);
        if a_min {
            Ok(Polygon { pa: a, pb: b, pc: c })
        } else if b_min {
            Ok(Polygon { pa: b, pb: c, pc: a })
        } else {
            Ok(Polygon { pa: c, pb: a, pc: b })
        }
    }

    /// Return the points of the polygon.
    pub fn points(&self) -> (r: Vec<Point2>)
        ensures
            r@ == self.points_spec(),
    {
        let mut out: Vec<Point2> = Vec::new();
        out.push(self.pa);
        out.push(self.pb);
        out.push(self.pc);
        proof {
            assert(out@ =~= self.points_spec());
        }
        out
    }
}

/// Compare two points lexicographically.
fn lex_le_exec(p: Point2, q: Point2) -> (r: bool)
    ensures
        r == lex_le(p, q),
{
    p.x < q.x || (p.x == q.x && p.y <= q.y)
}

/// Law: normalization is invariant under cyclic rotation of the input
/// points. Constructing a polygon from `[a, b, c]`, `[b, c, a]` or
/// `[c, a, b]` yields the same stored points whenever each of the three
/// constructions succeeds. (Reversal is another matter: the reversed
/// winding `[c, b, a]` is not required to agree with them.)
pub proof fn lemma_rotation_invariant(a: Point2, b: Point2, c: Point2)
    requires
        polygon_new_spec(a, b, c) is Ok,
        polygon_new_spec(b, c, a) is Ok,
        polygon_new_spec(c, a, b) is Ok,
    ensures
        polygon_new_spec(a, b, c) == polygon_new_spec(b, c, a),
        polygon_new_spec(a, b, c) == polygon_new_spec(c, a, b),
{
    assert(!has_identical_pair(a, b, c));
    assert(rotate_min(a, b, c) == rotate_min(b, c, a));
    assert(rotate_min(a, b, c) == rotate_min(c, a, b));
}

/// Law: any input with a repeated point fails with `IdenticalPoints`.
pub proof fn lemma_identical_points_rejected(a: Point2, b: Point2, c: Point2)
    requires
        a == b || a == c || b == c,
    ensures
        polygon_new_spec(a, b, c) == Err::<Seq<Point2>, Error>(Error::IdenticalPoints),
{
}

/// Law: three distinct points that are collinear in traversal order fail
/// with `PointsOnLine`.
pub proof fn lemma_collinear_rejected(a: Point2, b: Point2, c: Point2)
    requires
        !has_identical_pair(a, b, c),
        collinear_in_order(a, b, c),
    ensures
        polygon_new_spec(a, b, c) == Err::<Seq<Point2>, Error>(Error::PointsOnLine),
{
}

} // verus!
