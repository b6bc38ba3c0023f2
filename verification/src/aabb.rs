//! Bounding-volume geometry: axis-aligned bounding boxes in 2 and 3
//! dimensions — construction, size and center queries, corner and edge
//! enumeration, and octant partitioning.
//!
//! A box is the pair of its minimum and maximum corners, with every
//! component of `max - min` non-negative and at least one of them positive.
//! Constructing a degenerate (all-zero-size) box is a caller error, kept
//! out by precondition rather than by a fatal assertion. All queries are
//! pure functions of `min` and `max`. Where a size is odd, halving rounds
//! toward the minimum corner.

use vstd::prelude::*;

use crate::numeric::{Point2, Point3, Vector2, Vector3, COORD_LIMIT};

verus! {

/// An axis-aligned bounding box in 2-dimensional space.
#[derive(Clone, Copy, Debug, PartialEq, Eq, Structural)]
pub struct Aabb2 {
    pub min: Point2,
    pub max: Point2,
}

/// An axis-aligned bounding box in 3-dimensional space.
#[derive(Clone, Copy, Debug, PartialEq, Eq, Structural)]
pub struct Aabb3 {
    pub min: Point3,
    pub max: Point3,
}

/// Halve a non-negative coordinate difference, rounding down.
fn half_nonneg(d: i64) -> (h: i64)
    requires
        d >= 0,
    ensures
        h == d as int / 2,
        0 <= h <= d,
{
    proof {
        vstd::arithmetic::div_mod::lemma_div_is_ordered_by_denominator(d as int, 1, 2);
    }
    (d as u64 / 2) as i64
}

impl Aabb2 {
    /// The box invariant: coordinates in bounds, `min` at most `max` on
    /// both axes, and a size that is not zero on every axis.
    pub open spec fn wf(self) -> bool {
        &&& self.min.in_bounds()
        &&& self.max.in_bounds()
        &&& self.min.x <= self.max.x
        &&& self.min.y <= self.max.y
        &&& self.min != self.max
    }

    /// Construct the box with the given minimum corner and size.
    pub fn from_min_and_size(min: Point2, size: Vector2) -> (r: Aabb2)
        requires
            size.x >= 0 && size.y >= 0,
            !(size.x == 0 && size.y == 0),
            min.in_bounds(),
            -COORD_LIMIT < min.x + size.x < COORD_LIMIT,
            -COORD_LIMIT < min.y + size.y < COORD_LIMIT,
        ensures
            r.min == min,
            r.max.x == min.x + size.x,
            r.max.y == min.y + size.y,
            r.wf(),
    {
        Aabb2 { min, max: Point2 { x: min.x + size.x, y: min.y + size.y } }
    }

    /// The size of the box: `max - min`, per axis.
    pub fn size(&self) -> (r: Vector2)
        requires
            self.wf(),
        ensures
            r.x == self.max.x - self.min.x,
            r.y == self.max.y - self.min.y,
    {
        Vector2 { x: self.max.x - self.min.x, y: self.max.y - self.min.y }
    }

    /// The center of the box: `min + size / 2`, per axis.
    pub fn center(&self) -> (r: Point2)
        requires
            self.wf(),
        ensures
            r.x == self.min.x + (self.max.x - self.min.x) / 2,
            r.y == self.min.y + (self.max.y - self.min.y) / 2,
    {
        Point2 {
            x: self.min.x + half_nonneg(self.max.x - self.min.x),
            y: self.min.y + half_nonneg(self.max.y - self.min.y),
        }
    }

    /// Lift the 2-dimensional box into 3 dimensions by supplying a z-range.
    pub fn extend(self, min_z: i64, max_z: i64) -> (r: Aabb3)
        requires
            self.wf(),
            -COORD_LIMIT < min_z <= max_z < COORD_LIMIT,
        ensures
            r.min == (Point3 { x: self.min.x, y: self.min.y, z: min_z }),
            r.max == (Point3 { x: self.max.x, y: self.max.y, z: max_z }),
            r.wf(),
    {
        Aabb3 {
            min: Point3 { x: self.min.x, y: self.min.y, z: min_z },
            max: Point3 { x: self.max.x, y: self.max.y, z: max_z },
        }
    }
}

impl Aabb3 {
    /// The box invariant: coordinates in bounds, `min` at most `max` on
    /// every axis, and a size that is not zero on every axis.
    pub open spec fn wf(self) -> bool {
        &&& self.min.in_bounds()
        &&& self.max.in_bounds()
        &&& self.min.x <= self.max.x
        &&& self.min.y <= self.max.y
        &&& self.min.z <= self.max.z
        &&& self.min != self.max
    }

    /// The corner of the box with index `k` in `0..8`: the bits of `k`
    /// select, axis by axis (x first), whether the coordinate comes from
    /// `min` or from `max`.
    pub open spec fn corner(self, k: int) -> Point3 {
        Point3 {
            x: if k >= 4 {
                self.max.x
            } else {
                self.min.x
            },
            y: if k % 4 >= 2 {
                self.max.y
            } else {
                self.min.y
            },
            z: if k % 2 == 1 {
                self.max.z
            } else {
                self.min.z
            },
        }
    }

    /// The eight corners of the box, in corner-index order.
    pub open spec fn corner_seq(self) -> Seq<Point3> {
        Seq::new(8, |k: int| self.corner(k))
    }

    /// The twelve axis-aligned edges of the box, each connecting two
    /// adjacent corners, in a fixed documented order.
    pub open spec fn edge_list(self) -> Seq<(Point3, Point3)> {
        seq![
            (self.corner(0), self.corner(1)),
            (self.corner(0), self.corner(2)),
            (self.corner(0), self.corner(4)),
            (self.corner(1), self.corner(3)),
            (self.corner(1), self.corner(5)),
            (self.corner(2), self.corner(3)),
            (self.corner(2), self.corner(6)),
            (self.corner(3), self.corner(7)),
            (self.corner(4), self.corner(5)),
            (self.corner(4), self.corner(6)),
            (self.corner(5), self.corner(7)),
            (self.corner(6), self.corner(7)),
        ]
    }

    /// Half the size of the box, per axis, rounding down.
    pub open spec fn half_size(self) -> (int, int, int) {
        (
            (self.max.x - self.min.x) / 2,
            (self.max.y - self.min.y) / 2,
            (self.max.z - self.min.z) / 2,
        )
    }

    /// The child box occupying octant `k` of the partition: its corner
    /// placement follows the corner order of `corner`.
    pub open spec fn octant(self, k: int) -> Aabb3 {
        let (hx, hy, hz) = self.half_size();
        let lo = Point3 {
            x: (self.min.x + if k >= 4 {
                hx
            } else {
                0
            }) as i64,
            y: (self.min.y + if k % 4 >= 2 {
                hy
            } else {
                0
            }) as i64,
            z: (self.min.z + if k % 2 == 1 {
                hz
            } else {
                0
            }) as i64,
        };
        Aabb3 {
            min: lo,
            max: Point3 { x: (lo.x + hx) as i64, y: (lo.y + hy) as i64, z: (lo.z + hz) as i64 },
        }
    }

    /// Construct the box with the given minimum corner and size.
    pub fn from_min_and_size(min: Point3, size: Vector3) -> (r: Aabb3)
        requires
            size.x >= 0 && size.y >= 0 && size.z >= 0,
            !(size.x == 0 && size.y == 0 && size.z == 0),
            min.in_bounds(),
            -COORD_LIMIT < min.x + size.x < COORD_LIMIT,
            -COORD_LIMIT < min.y + size.y < COORD_LIMIT,
            -COORD_LIMIT < min.z + size.z < COORD_LIMIT,
        ensures
            r.min == min,
            r.max.x == min.x + size.x,
            r.max.y == min.y + size.y,
            r.max.z == min.z + size.z,
            r.wf(),
    {
        Aabb3 {
            min,
            max: Point3 { x: min.x + size.x, y: min.y + size.y, z: min.z + size.z },
        }
    }

    /// The size of the box: `max - min`, per axis.
    pub fn size(&self) -> (r: Vector3)
        requires
            self.wf(),
        ensures
            r.x == self.max.x - self.min.x,
            r.y == self.max.y - self.min.y,
            r.z == self.max.z - self.min.z,
    {
        Vector3 {
            x: self.max.x - self.min.x,
            y: self.max.y - self.min.y,
            z: self.max.z - self.min.z,
        }
    }

    /// The center of the box: `min + size / 2`, per axis.
    pub fn center(&self) -> (r: Point3)
        requires
            self.wf(),
        ensures
            r.x == self.min.x + (self.max.x - self.min.x) / 2,
            r.y == self.min.y + (self.max.y - self.min.y) / 2,
            r.z == self.min.z + (self.max.z - self.min.z) / 2,
    {
        Point3 {
            x: self.min.x + half_nonneg(self.max.x - self.min.x),
            y: self.min.y + half_nonneg(self.max.y - self.min.y),
            z: self.min.z + half_nonneg(self.max.z - self.min.z),
        }
    }

    /// The eight corner points of the box, in a fixed documented order:
    /// minimum corner first, z varying fastest, then y, then x.
    pub fn vertices(&self) -> (r: Vec<Point3>)
        ensures
            r@ == self.corner_seq(),
    {
        let mut out: Vec<Point3> = Vec::new();
        out.push(Point3 { x: self.min.x, y: self.min.y, z: self.min.z });
        out.push(Point3 { x: self.min.x, y: self.min.y, z: self.max.z });
        out.push(Point3 { x: self.min.x, y: self.max.y, z: self.min.z });
        out.push(Point3 { x: self.min.x, y: self.max.y, z: self.max.z });
        out.push(Point3 { x: self.max.x, y: self.min.y, z: self.min.z });
        out.push(Point3 { x: self.max.x, y: self.min.y, z: self.max.z });
        out.push(Point3 { x: self.max.x, y: self.max.y, z: self.min.z });
        out.push(Point3 { x: self.max.x, y: self.max.y, z: self.max.z });
        proof {
            assert(out@ =~= self.corner_seq());
        }
        out
    }

    /// The twelve axis-aligned edges connecting adjacent corners, in a
    /// fixed documented order.
    pub fn edges(&self) -> (r: Vec<(Point3, Point3)>)
        ensures
            r@ == self.edge_list(),
    {
        let v = self.vertices();
        let mut out: Vec<(Point3, Point3)> = Vec::new();
        out.push((v[0], v[1]));
        out.push((v[0], v[2]));
        out.push((v[0], v[4]));
        out.push((v[1], v[3]));
        out.push((v[1], v[5]));
        out.push((v[2], v[3]));
        out.push((v[2], v[6]));
        out.push((v[3], v[7]));
        out.push((v[4], v[5]));
        out.push((v[4], v[6]));
        out.push((v[5], v[7]));
        out.push((v[6], v[7]));
        proof {
            assert(out@ =~= self.edge_list());
        }
        out
    }

    /// Subdivide the box into 8 child boxes occupying its 8 octants, in an
    /// order matching the corner order of `vertices`. Each child has half
    /// the parent's size per axis, rounding down where a size is odd.
    pub fn partition(&self) -> (r: Vec<Aabb3>)
        requires
            self.wf(),
            self.max.x - self.min.x >= 2 || self.max.y - self.min.y >= 2 || self.max.z
                - self.min.z >= 2,
        ensures
            r@.len() == 8,
            forall|k: int| 0 <= k < 8 ==> #[trigger] r@[k] == self.octant(k),
            forall|k: int| 0 <= k < 8 ==> (#[trigger] r@[k]).wf(),
    {
        let hx = half_nonneg(self.max.x - self.min.x);
        let hy = half_nonneg(self.max.y - self.min.y);
        let hz = half_nonneg(self.max.z - self.min.z);
        let size = Vector3 { x: hx, y: hy, z: hz };
        let mut out: Vec<Aabb3> = Vec::new();
        out.push(Self::from_min_and_size(self.min, size));
        out.push(
            Self::from_min_and_size(
                Point3 { x: self.min.x, y: self.min.y, z: self.min.z + hz },
                size,
            ),
        );
        out.push(
            Self::from_min_and_size(
                Point3 { x: self.min.x, y: self.min.y + hy, z: self.min.z },
                size,
            ),
        );
        out.push(
            Self::from_min_and_size(
                Point3 { x: self.min.x, y: self.min.y + hy, z: self.min.z + hz },
                size,
            ),
        );
        out.push(
            Self::from_min_and_size(
                Point3 { x: self.min.x + hx, y: self.min.y, z: self.min.z },
                size,
            ),
        );
        out.push(
            Self::from_min_and_size(
                Point3 { x: self.min.x + hx, y: self.min.y, z: self.min.z + hz },
                size,
            ),
        );
        out.push(
            Self::from_min_and_size(
                Point3 { x: self.min.x + hx, y: self.min.y + hy, z: self.min.z },
                size,
            ),
        );
        out.push(
            Self::from_min_and_size(
                Point3 { x: self.min.x + hx, y: self.min.y + hy, z: self.min.z + hz },
                size,
            ),
        );
        proof {
            assert forall|k: int| 0 <= k < 8 implies #[trigger] out@[k] == self.octant(k) by {
                assert(0 <= k < 8);
            }
        }
        out
    }
}

/// Whether the box contains the point, boundary included.
pub open spec fn contains_point(b: Aabb3, p: Point3) -> bool {
    &&& b.min.x <= p.x <= b.max.x
    &&& b.min.y <= p.y <= b.max.y
    &&& b.min.z <= p.z <= b.max.z
}

/// Whether the interiors of two boxes are disjoint: on some axis one box
/// ends no later than the other begins.
pub open spec fn disjoint_interiors(a: Aabb3, b: Aabb3) -> bool {
    ||| a.max.x <= b.min.x
    ||| b.max.x <= a.min.x
    ||| a.max.y <= b.min.y
    ||| b.max.y <= a.min.y
    ||| a.max.z <= b.min.z
    ||| b.max.z <= a.min.z
}

/// Law: for a box whose size is even and positive on every axis, the 8
/// octants of the partition each have exactly half the parent's size per
/// axis, their interiors are pairwise disjoint, none of them leaves the
/// parent, together they cover every point of the parent with no gaps,
/// and they reach the parent's extremes: the first child's minimum is the
/// parent's minimum and the last child's maximum is the parent's maximum.
pub proof fn lemma_partition_tiles(b: Aabb3)
    requires
        b.wf(),
        (b.max.x - b.min.x) % 2 == 0,
        (b.max.y - b.min.y) % 2 == 0,
        (b.max.z - b.min.z) % 2 == 0,
        b.max.x - b.min.x >= 2,
        b.max.y - b.min.y >= 2,
        b.max.z - b.min.z >= 2,
    ensures
        forall|k: int|
            0 <= k < 8 ==> {
                let o = #[trigger] b.octant(k);
                &&& 2 * (o.max.x - o.min.x) == b.max.x - b.min.x
                &&& 2 * (o.max.y - o.min.y) == b.max.y - b.min.y
                &&& 2 * (o.max.z - o.min.z) == b.max.z - b.min.z
                &&& b.min.x <= o.min.x && o.max.x <= b.max.x
                &&& b.min.y <= o.min.y && o.max.y <= b.max.y
                &&& b.min.z <= o.min.z && o.max.z <= b.max.z
            },
        b.octant(0).min == b.min,
        b.octant(7).max == b.max,
        forall|i: int, j: int|
            0 <= i < 8 && 0 <= j < 8 && i != j ==> disjoint_interiors(
                #[trigger] b.octant(i),
                #[trigger] b.octant(j),
            ),
        forall|p: Point3|
            #[trigger] contains_point(b, p) ==> exists|k: int|
                0 <= k < 8 && contains_point(#[trigger] b.octant(k), p),
{
    let sx = b.max.x - b.min.x;
    let sy = b.max.y - b.min.y;
    let sz = b.max.z - b.min.z;
    assert(2 * (sx / 2) == sx);
    assert(2 * (sy / 2) == sy);
    assert(2 * (sz / 2) == sz);
    assert forall|i: int, j: int|
        0 <= i < 8 && 0 <= j < 8 && i != j implies disjoint_interiors(
        #[trigger] b.octant(i),
        #[trigger] b.octant(j),
    ) by {
        if (i >= 4) != (j >= 4) {
            assert(disjoint_interiors(b.octant(i), b.octant(j)));
        } else if (i % 4 >= 2) != (j % 4 >= 2) {
            assert(disjoint_interiors(b.octant(i), b.octant(j)));
        } else {
            assert(i % 2 != j % 2);
            assert(disjoint_interiors(b.octant(i), b.octant(j)));
        }
    }
    assert forall|p: Point3| #[trigger] contains_point(b, p) implies exists|k: int|
        0 <= k < 8 && contains_point(#[trigger] b.octant(k), p) by {
        let kx: int = if p.x >= b.min.x + sx / 2 {
            4
        } else {
            0
        };
        let ky: int = if p.y >= b.min.y + sy / 2 {
            2
        } else {
            0
        };
        let kz: int = if p.z >= b.min.z + sz / 2 {
            1
        } else {
            0
        };
        let k = kx + ky + kz;
        assert(0 <= k < 8);
        assert(contains_point(b.octant(k), p));
    }
}

/// Law: every endpoint of every edge of a box is one of the box's
/// corners, there are exactly 12 edges, and — for a box whose size is
/// positive on every axis — each corner is connected to exactly the 3
/// corners that differ from it in one axis.
pub proof fn lemma_edges_consistency(b: Aabb3)
    requires
        b.wf(),
        b.max.x > b.min.x,
        b.max.y > b.min.y,
        b.max.z > b.min.z,
    ensures
        b.edge_list().len() == 12,
        forall|i: int|
            0 <= i < 12 ==> b.corner_seq().contains(#[trigger] b.edge_list()[i].0)
                && b.corner_seq().contains(b.edge_list()[i].1),
        forall|k: int| 0 <= k < 8 ==> neighbors(b, #[trigger] b.corner(k)).len() == 3,
{
    assert forall|i: int|
        0 <= i < 12 implies b.corner_seq().contains(#[trigger] b.edge_list()[i].0)
        && b.corner_seq().contains(b.edge_list()[i].1) by {
        lemma_edge_endpoints(b, i);
    }
    assert forall|k: int| 0 <= k < 8 implies neighbors(b, #[trigger] b.corner(k)).len() == 3 by {
        lemma_corner_neighbors(b, k);
    }
}

/// The set of corners that the edges of the box connect to the point `v`.
pub open spec fn neighbors(b: Aabb3, v: Point3) -> Set<Point3> {
    Set::new(
        |w: Point3|
            exists|i: int|
                0 <= i < 12 && ((#[trigger] b.edge_list()[i]) == (v, w) || b.edge_list()[i] == (
                    w,
                    v,
                )),
    )
}

/// Each edge endpoint is a corner of the box.
proof fn lemma_edge_endpoints(b: Aabb3, i: int)
    requires
        0 <= i < 12,
    ensures
        b.corner_seq().contains(b.edge_list()[i].0),
        b.corner_seq().contains(b.edge_list()[i].1),
{
    assert forall|k: int| 0 <= k < 8 implies b.corner_seq()[k] == b.corner(k) by {}
    if i == 0 {
        assert(b.corner_seq()[0] == b.edge_list()[i].0);
        assert(b.corner_seq()[1] == b.edge_list()[i].1);
    } else if i == 1 {
        assert(b.corner_seq()[0] == b.edge_list()[i].0);
        assert(b.corner_seq()[2] == b.edge_list()[i].1);
    } else if i == 2 {
        assert(b.corner_seq()[0] == b.edge_list()[i].0);
        assert(b.corner_seq()[4] == b.edge_list()[i].1);
    } else if i == 3 {
        assert(b.corner_seq()[1] == b.edge_list()[i].0);
        assert(b.corner_seq()[3] == b.edge_list()[i].1);
    } else if i == 4 {
        assert(b.corner_seq()[1] == b.edge_list()[i].0);
        assert(b.corner_seq()[5] == b.edge_list()[i].1);
    } else if i == 5 {
        assert(b.corner_seq()[2] == b.edge_list()[i].0);
        assert(b.corner_seq()[3] == b.edge_list()[i].1);
    } else if i == 6 {
        assert(b.corner_seq()[2] == b.edge_list()[i].0);
        assert(b.corner_seq()[6] == b.edge_list()[i].1);
    } else if i == 7 {
        assert(b.corner_seq()[3] == b.edge_list()[i].0);
        assert(b.corner_seq()[7] == b.edge_list()[i].1);
    } else if i == 8 {
        assert(b.corner_seq()[4] == b.edge_list()[i].0);
        assert(b.corner_seq()[5] == b.edge_list()[i].1);
    } else if i == 9 {
        assert(b.corner_seq()[4] == b.edge_list()[i].0);
        assert(b.corner_seq()[6] == b.edge_list()[i].1);
    } else if i == 10 {
        assert(b.corner_seq()[5] == b.edge_list()[i].0);
        assert(b.corner_seq()[7] == b.edge_list()[i].1);
    } else {
        assert(b.corner_seq()[6] == b.edge_list()[i].0);
        assert(b.corner_seq()[7] == b.edge_list()[i].1);
    }
}

/// Two different corner indices of a box with positive sizes name two
/// different points.
proof fn lemma_corners_distinct(b: Aabb3, p: int, q: int)
    requires
        b.max.x > b.min.x,
        b.max.y > b.min.y,
        b.max.z > b.min.z,
        0 <= p < 8,
        0 <= q < 8,
        p != q,
    ensures
        b.corner(p) != b.corner(q),
{
    if (p >= 4) != (q >= 4) {
        assert(b.corner(p).x != b.corner(q).x);
    } else if (p % 4 >= 2) != (q % 4 >= 2) {
        assert(b.corner(p).y != b.corner(q).y);
    } else {
        assert(p % 2 != q % 2);
        assert(b.corner(p).z != b.corner(q).z);
    }
}

/// Three pairwise distinct elements form a set of three.
proof fn lemma_tri_set_len<A>(a: A, b: A, c: A)
    requires
        a != b,
        a != c,
        b != c,
    ensures
        set![a, b, c].finite(),
        set![a, b, c].len() == 3,
{
    broadcast use vstd::set::group_set_axioms;

    assert(set![a, b, c] == Set::empty().insert(a).insert(b).insert(c));
    assert(Set::empty().insert(a).contains(a));
    assert(Set::empty().insert(a).insert(b).len() == 2);
    assert(Set::empty().insert(a).insert(b).insert(c).len() == 3);
}

/// A corner of a box with positive sizes is connected to exactly the
/// three corners adjacent to it.
proof fn lemma_corner_neighbors(b: Aabb3, k: int)
    requires
        b.wf(),
        b.max.x > b.min.x,
        b.max.y > b.min.y,
        b.max.z > b.min.z,
        0 <= k < 8,
    ensures
        neighbors(b, b.corner(k)).len() == 3,
{
    broadcast use vstd::set::group_set_axioms;

    let zf = if k % 2 == 1 {
        k - 1
    } else {
        k + 1
    };
    let yf = if k % 4 >= 2 {
        k - 2
    } else {
        k + 2
    };
    let xf = if k >= 4 {
        k - 4
    } else {
        k + 4
    };
    let expected = set![b.corner(zf), b.corner(yf), b.corner(xf)];
    assert forall|p: int, q: int|
        0 <= p < 8 && 0 <= q < 8 && p != q implies b.corner(p) != b.corner(q) by {
        lemma_corners_distinct(b, p, q);
    }
    lemma_tri_set_len(b.corner(zf), b.corner(yf), b.corner(xf));
    assert(neighbors(b, b.corner(k)) =~= expected) by {
        lemma_neighbor_members(b, k, zf, yf, xf);
    }
}

/// The neighbor set of corner `k` holds exactly its three adjacent
/// corners.
proof fn lemma_neighbor_members(b: Aabb3, k: int, zf: int, yf: int, xf: int)
    requires
        b.wf(),
        b.max.x > b.min.x,
        b.max.y > b.min.y,
        b.max.z > b.min.z,
        0 <= k < 8,
        zf == if k % 2 == 1 {
            k - 1
        } else {
            k + 1
        },
        yf == if k % 4 >= 2 {
            k - 2
        } else {
            k + 2
        },
        xf == if k >= 4 {
            k - 4
        } else {
            k + 4
        },
    ensures
        neighbors(b, b.corner(k)) =~= set![b.corner(zf), b.corner(yf), b.corner(xf)],
{
    assert forall|p: int, q: int|
        0 <= p < 8 && 0 <= q < 8 && p != q implies b.corner(p) != b.corner(q) by {
        lemma_corners_distinct(b, p, q);
    }
    let nb = neighbors(b, b.corner(k));
    assert forall|w: Point3| nb.contains(w) implies set![
        b.corner(zf),
        b.corner(yf),
        b.corner(xf),
    ].contains(w) by {
        let i = choose|i: int|
            0 <= i < 12 && (b.edge_list()[i] == (b.corner(k), w) || b.edge_list()[i] == (
                w,
                b.corner(k),
            ));
        assert(0 <= i < 12);
        assert(b.edge_list()[i] == (b.corner(k), w) || b.edge_list()[i] == (w, b.corner(k)));
    }
    assert forall|w: Point3| set![b.corner(zf), b.corner(yf), b.corner(xf)].contains(
        w,
    ) implies nb.contains(w) by {
        lemma_adjacent_edge(b, k, zf);
        lemma_adjacent_edge(b, k, yf);
        lemma_adjacent_edge(b, k, xf);
    }
}

/// For two corner indices that differ in exactly one bit, the edge list
/// holds the edge between them.
proof fn lemma_adjacent_edge(b: Aabb3, k: int, m: int)
    requires
        0 <= k < 8,
        0 <= m < 8,
        m == (if k % 2 == 1 {
            k - 1
        } else {
            k + 1
        }) || m == (if k % 4 >= 2 {
            k - 2
        } else {
            k + 2
        }) || m == (if k >= 4 {
            k - 4
        } else {
            k + 4
        }),
    ensures
        exists|i: int|
            0 <= i < 12 && ((#[trigger] b.edge_list()[i]) == (b.corner(k), b.corner(m))
                || b.edge_list()[i] == (b.corner(m), b.corner(k))),
{
    let lo = if k < m {
        k
    } else {
        m
    };
    let hi = if k < m {
        m
    } else {
        k
    };
    if lo == 0 && hi == 1 {
        assert(b.edge_list()[0] == (b.corner(0), b.corner(1)));
    } else if lo == 0 && hi == 2 {
        assert(b.edge_list()[1] == (b.corner(0), b.corner(2)));
    } else if lo == 0 && hi == 4 {
        assert(b.edge_list()[2] == (b.corner(0), b.corner(4)));
    } else if lo == 1 && hi == 3 {
        assert(b.edge_list()[3] == (b.corner(1), b.corner(3)));
    } else if lo == 1 && hi == 5 {
        assert(b.edge_list()[4] == (b.corner(1), b.corner(5)));
    } else if lo == 2 && hi == 3 {
        assert(b.edge_list()[5] == (b.corner(2), b.corner(3)));
    } else if lo == 2 && hi == 6 {
        assert(b.edge_list()[6] == (b.corner(2), b.corner(6)));
    } else if lo == 3 && hi == 7 {
        assert(b.edge_list()[7] == (b.corner(3), b.corner(7)));
    } else if lo == 4 && hi == 5 {
        assert(b.edge_list()[8] == (b.corner(4), b.corner(5)));
    } else if lo == 4 && hi == 6 {
        assert(b.edge_list()[9] == (b.corner(4), b.corner(6)));
    } else if lo == 5 && hi == 7 {
        assert(b.edge_list()[10] == (b.corner(5), b.corner(7)));
    } else {
        assert(lo == 6 && hi == 7);
        assert(b.edge_list()[11] == (b.corner(6), b.corner(7)));
    }
}

} // verus!
