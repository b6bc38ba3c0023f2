//! Boundary topology model: the Face / Cycle / Surface structure.
//!
//! A face is a surface region bounded by exterior cycles, with interior
//! cycles denoting holes. Each cycle is carried as a dual-form reference
//! pairing its 2-dimensional surface-local form with its 3-dimensional
//! canonical form. A transitional flat-triangle representation coexists
//! during the migration away from pure triangle meshes; requesting
//! boundary data from it is a caller bug, kept out by precondition.

use vstd::prelude::*;

use crate::local::LocalForm;
use crate::mesh::Color;
use crate::numeric::{Point2, Point3, Triangle3};

verus! {

/// An abstract 2-dimension-parametrizing entity in 3-dimensional space:
/// one of the three axis planes. A value type, copyable, comparable and
/// orderable, as deterministic containers downstream require.
#[derive(Clone, Copy, Debug, PartialEq, Eq, Hash, PartialOrd, Ord, Structural)]
pub enum Surface {
    /// The plane spanned by the x- and y-axes.
    XyPlane,
    /// The plane spanned by the x- and z-axes.
    XzPlane,
    /// The plane spanned by the y- and z-axes.
    YzPlane,
}

/// A closed loop of edges in a surface's 2-dimensional parametric space:
/// the minimal closed cycle, a triangular loop.
#[derive(Clone, Copy, Debug, PartialEq, Eq, Hash, PartialOrd, Ord, Structural)]
pub struct Cycle2 {
    pub a: Point2,
    pub b: Point2,
    pub c: Point2,
}

/// A closed loop of edges in canonical 3-dimensional space: the minimal
/// closed cycle, a triangular loop.
#[derive(Clone, Copy, Debug, PartialEq, Eq, Hash, PartialOrd, Ord, Structural)]
pub struct Cycle3 {
    pub a: Point3,
    pub b: Point3,
    pub c: Point3,
}

/// A list of cycles, as they are stored in a face: an ordered sequence of
/// dual-form references pairing a 2-dimensional cycle with its canonical
/// 3-dimensional form. Order is insertion order; duplicates are allowed.
#[derive(Clone, Debug, PartialEq, Eq, Hash, PartialOrd, Ord)]
pub struct CyclesInFace(Vec<LocalForm<Cycle2, Cycle3>>);

impl CyclesInFace {
    /// The stored dual-form references, in insertion order.
    pub closed spec fn cycles_seq(self) -> Seq<LocalForm<Cycle2, Cycle3>> {
        self.0@
    }

    /// The local (surface-parametric) forms of the cycles, in order.
    pub open spec fn locals(self) -> Seq<Cycle2> {
        self.cycles_seq().map_values(|lf: LocalForm<Cycle2, Cycle3>| lf.local_spec())
    }

    /// The canonical (3-dimensional) forms of the cycles, in order.
    pub open spec fn canonicals(self) -> Seq<Cycle3> {
        self.cycles_seq().map_values(|lf: LocalForm<Cycle2, Cycle3>| lf.canonical_spec())
    }

    /// Create a new cycle list from the given references.
    pub fn new(cycles: Vec<LocalForm<Cycle2, Cycle3>>) -> (r: Self)
        ensures
            r.cycles_seq() == cycles@,
    {
        CyclesInFace(cycles)
    }

    /// The local forms of the cycles, in insertion order.
    pub fn as_local(&self) -> (r: Vec<Cycle2>)
        ensures
            r@ == self.locals(),
    {
        let mut out: Vec<Cycle2> = Vec::new();
        let mut i: usize = 0;
        while i < self.0.len()
            invariant
                i <= self.0@.len(),
                out@ == self.cycles_seq().map_values(
                    |lf: LocalForm<Cycle2, Cycle3>| lf.local_spec(),
                ).take(i as int),
            decreases self.0@.len() - i,
        {
            out.push(*self.0[i].local());
            proof {
                assert(out@ =~= self.cycles_seq().map_values(
                    |lf: LocalForm<Cycle2, Cycle3>| lf.local_spec(),
                ).take(i + 1));
            }
            i = i + 1;
        }
        proof {
            assert(out@ =~= self.locals());
        }
        out
    }

    /// The canonical forms of the cycles, in insertion order.
    pub fn as_canonical(&self) -> (r: Vec<Cycle3>)
        ensures
            r@ == self.canonicals(),
    {
        let mut out: Vec<Cycle3> = Vec::new();
        let mut i: usize = 0;
        while i < self.0.len()
            invariant
                i <= self.0@.len(),
                out@ == self.cycles_seq().map_values(
                    |lf: LocalForm<Cycle2, Cycle3>| lf.canonical_spec(),
                ).take(i as int),
            decreases self.0@.len() - i,
        {
            out.push(*self.0[i].canonical());
            proof {
                assert(out@ =~= self.cycles_seq().map_values(
                    |lf: LocalForm<Cycle2, Cycle3>| lf.canonical_spec(),
                ).take(i + 1));
            }
            i = i + 1;
        }
        proof {
            assert(out@ =~= self.canonicals());
        }
        out
    }
}

/// The boundary representation of a face: a surface, the cycles bounding
/// the face on the outside and on the inside, and a color.
///
/// Every cycle, via its local form, is expected to lie in the surface's
/// parametrization; that pairing is a documented caller obligation, not
/// checked here.
#[derive(Clone, Debug, PartialEq, Eq, Hash, PartialOrd, Ord)]
pub struct FaceBRep {
    /// The surface that defines this face.
    pub surface: Surface,

    /// The cycles that bound the face on the outside.
    pub exteriors: CyclesInFace,

    /// The cycles that bound the face on the inside. Each one defines a
    /// hole in the face.
    pub interiors: CyclesInFace,

    /// The color of the face.
    pub color: Color,
}

impl FaceBRep {
    /// Access the surface that the face refers to.
    pub fn surface(&self) -> (r: Surface)
        ensures
            r == self.surface,
    {
        self.surface
    }

    /// Access the exterior cycles that the face refers to, unwrapped to
    /// their canonical (3-dimensional) form, in insertion order.
    pub fn exteriors(&self) -> (r: Vec<Cycle3>)
        ensures
            r@ == self.exteriors.canonicals(),
    {
        self.exteriors.as_canonical()
    }

    /// Access the interior cycles that the face refers to, unwrapped to
    /// their canonical (3-dimensional) form, in insertion order.
    pub fn interiors(&self) -> (r: Vec<Cycle3>)
        ensures
            r@ == self.interiors.canonicals(),
    {
        self.interiors.as_canonical()
    }

    /// Access all cycles that the face refers to, in canonical form:
    /// exactly the exterior cycles followed by the interior cycles, in
    /// insertion order, with none dropped or added.
    pub fn all_cycles(&self) -> (r: Vec<Cycle3>)
        ensures
            r@ == self.exteriors.canonicals() + self.interiors.canonicals(),
    {
        let mut out = self.exteriors.as_canonical();
        let mut inner = self.interiors.as_canonical();
        out.append(&mut inner);
        out
    }
}

/// A face of a shape.
#[derive(Clone, Debug, PartialEq, Eq)]
pub enum Face {
    /// A face defined by a surface and bounded by cycles of edges that lie
    /// in that surface.
    Face(FaceBRep),

    /// The triangles of the face. Representing faces as a collection of
    /// triangles is a temporary state during the migration to boundary
    /// representation.
    Triangles(Vec<(Triangle3, Color)>),
}

impl Face {
    /// The boundary representation held by a boundary-representation face.
    pub open spec fn brep_spec(self) -> FaceBRep {
        self->Face_0
    }

    /// Construct a new boundary-representation face from a surface, its
    /// exterior and interior cycle lists, and a color. Order is preserved
    /// and duplicates are allowed: deduplication is not this layer's job.
    pub fn new(
        surface: Surface,
        exteriors: Vec<LocalForm<Cycle2, Cycle3>>,
        interiors: Vec<LocalForm<Cycle2, Cycle3>>,
        color: Color,
    ) -> (r: Face)
        ensures
            r is Face,
            r.brep_spec().surface == surface,
            r.brep_spec().exteriors.cycles_seq() == exteriors@,
            r.brep_spec().interiors.cycles_seq() == interiors@,
            r.brep_spec().color == color,
    {
        let exteriors = CyclesInFace::new(exteriors);
        let interiors = CyclesInFace::new(interiors);
        Face::Face(FaceBRep { surface, exteriors, interiors, color })
    }

    /// Access the boundary representation of the face.
    ///
    /// Requesting it from a flat-triangle face is a contract violation of
    /// the caller, not a recoverable error: the precondition keeps that
    /// state out.
    pub fn brep(&self) -> (r: &FaceBRep)
        requires
            self is Face,
        ensures
            *r == self.brep_spec(),
    {
        match self {
            Face::Face(brep) => brep,
            Face::Triangles(_) => {
                proof {
                    assert(false);
                }
                vstd::pervasive::unreached()
            },
        }
    }

    /// Access the surface that the face refers to.
    pub fn surface(&self) -> (r: Surface)
        requires
            self is Face,
        ensures
            r == self.brep_spec().surface,
    {
        self.brep().surface()
    }

    /// Access the exterior cycles that the face refers to, unwrapped to
    /// their canonical (3-dimensional) form.
    pub fn exteriors(&self) -> (r: Vec<Cycle3>)
        requires
            self is Face,
        ensures
            r@ == self.brep_spec().exteriors.canonicals(),
    {
        self.brep().exteriors()
    }

    /// Access the interior cycles that the face refers to, unwrapped to
    /// their canonical (3-dimensional) form.
    pub fn interiors(&self) -> (r: Vec<Cycle3>)
        requires
            self is Face,
        ensures
            r@ == self.brep_spec().interiors.canonicals(),
    {
        self.brep().interiors()
    }

    /// Access all cycles that the face refers to, in canonical form: the
    /// exterior cycles followed by the interior cycles, equivalent to
    /// chaining `exteriors` and `interiors`.
    pub fn all_cycles(&self) -> (r: Vec<Cycle3>)
        requires
            self is Face,
        ensures
            r@ == self.brep_spec().exteriors.canonicals()
                + self.brep_spec().interiors.canonicals(),
    {
        self.brep().all_cycles()
    }

    /// Access the color of the face.
    ///
    /// Color is a face-level attribute of the boundary representation; a
    /// flat-triangle face carries its colors per triangle instead, so the
    /// accessor is only available on the boundary-representation variant.
    pub fn color(&self) -> (r: Color)
        requires
            self is Face,
        ensures
            r == self.brep_spec().color,
    {
        self.brep().color
    }
}

} // verus!
