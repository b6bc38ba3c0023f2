//! Mesh assembly: conversion of a stream of vertices into a deduplicated
//! indexed triangle mesh, with color-tagged triangles as the terminal
//! output format.
//!
//! Vertices are pushed one at a time; a value pushed before reuses its
//! existing index, a fresh value is appended and assigned the next index.
//! Triangles are denoted by pushing their vertices in triples: after such
//! pushes, `indices[3k..3k+3]` names one triangle.

use vstd::prelude::*;

use crate::numeric::{Point3, Triangle3};

verus! {

/// An index that refers to a vertex in a mesh.
pub type Index = u32;

/// RGBA color.
pub type Color = [u8; 4];

/// A vertex type that a mesh can deduplicate: copyable, with a decidable
/// equality test that agrees with mathematical equality of the values.
pub trait MeshVertex: Copy {
    /// Whether the two vertices are the same value.
    fn same(&self, other: &Self) -> (r: bool)
        ensures
            r <==> self == other,
    ;
}

impl MeshVertex for Point3 {
    fn same(&self, other: &Self) -> (r: bool) {
        self.x == other.x && self.y == other.y && self.z == other.z
    }
}

/// The vertex list after one more push: unchanged when the value is already
/// present, extended by the value otherwise.
pub open spec fn step_vertices<V>(vs: Seq<V>, v: V) -> Seq<V> {
    if vs.contains(v) {
        vs
    } else {
        vs.push(v)
    }
}

/// The index that a push of `v` appends: the position of `v` in the vertex
/// list after that push.
pub open spec fn assigned_index<V>(vs: Seq<V>, v: V) -> int {
    if vs.contains(v) {
        vs.index_of(v)
    } else {
        vs.len() as int
    }
}

/// The vertex list that a whole sequence of pushes builds up.
pub open spec fn dedup_vertices<V>(pushes: Seq<V>) -> Seq<V>
    decreases pushes.len(),
{
    if pushes.len() == 0 {
        Seq::empty()
    } else {
        step_vertices(dedup_vertices(pushes.drop_last()), pushes.last())
    }
}

/// The index list that a whole sequence of pushes builds up.
pub open spec fn dedup_indices<V>(pushes: Seq<V>) -> Seq<int>
    decreases pushes.len(),
{
    if pushes.len() == 0 {
        Seq::empty()
    } else {
        dedup_indices(pushes.drop_last()).push(
            assigned_index(dedup_vertices(pushes.drop_last()), pushes.last()),
        )
    }
}

/// A triangle mesh: an append-only list of distinct vertices, and one index
/// into that list per pushed vertex occurrence.
#[derive(Clone, Debug, PartialEq, Eq)]
pub struct Mesh<V> {
    vertices: Vec<V>,
    indices: Vec<Index>,
}

impl<V> Mesh<V> {
    /// The distinct vertices of the mesh, in first-push order.
    pub closed spec fn vertex_seq(self) -> Seq<V> {
        self.vertices@
    }

    /// One index per push, each referring into the vertex list.
    pub closed spec fn index_seq(self) -> Seq<Index> {
        self.indices@
    }

    /// The mesh invariant: vertices are pairwise distinct, there are few
    /// enough of them for every index to fit the index type, and every
    /// stored index refers to a vertex.
    pub open spec fn wf(self) -> bool {
        &&& self.vertex_seq().no_duplicates()
        &&& self.vertex_seq().len() <= 0x1_0000_0000
        &&& forall|i: int|
            0 <= i < self.index_seq().len() ==> (#[trigger] self.index_seq()[i] as int)
                < self.vertex_seq().len()
    }
}

impl<V> Default for Mesh<V> {
    /// Construct an empty mesh.
    fn default() -> (r: Self)
        ensures
            r.wf(),
            r.vertex_seq().len() == 0,
            r.index_seq().len() == 0,
    {
        Mesh { vertices: Vec::new(), indices: Vec::new() }
    }
}

impl<V: MeshVertex> Mesh<V> {
    /// Construct a new, empty mesh.
    pub fn new() -> (r: Self)
        ensures
            r.wf(),
            r.vertex_seq().len() == 0,
            r.index_seq().len() == 0,
    {
        Self::default()
    }

    /// Add a vertex to the mesh.
    ///
    /// A value that was pushed before reuses the index it was assigned
    /// then; a fresh value is appended to the vertex list and assigned the
    /// next index. Either way exactly one index is appended. The lookup is
    /// a linear scan of the distinct vertices, trading the constant-time
    /// hash lookup for one that is provably exact.
    pub fn push(&mut self, vertex: V)
        requires
            old(self).wf(),
            old(self).vertex_seq().contains(vertex) || old(self).vertex_seq().len()
                < 0x1_0000_0000,
        ensures
            final(self).wf(),
            final(self).vertex_seq() == step_vertices(old(self).vertex_seq(), vertex),
            final(self).index_seq() == old(self).index_seq().push(
                assigned_index(old(self).vertex_seq(), vertex) as Index,
            ),
    {
        let n = self.vertices.len();
        let mut i: usize = 0;
        let mut found = false;
        let mut pos: usize = 0;
        while i < n
            invariant
                *self == *old(self),
                n == self.vertices@.len(),
                i <= n,
                !found ==> forall|j: int| 0 <= j < i ==> self.vertices@[j] != vertex,
                found ==> pos < n && self.vertices@[pos as int] == vertex,
            decreases n - i,
        {
            if self.vertices[i].same(&vertex) {
                found = true;
                pos = i;
                i = n;
            } else {
                i = i + 1;
            }
        }
        if found {
            proof {
                let vs = self.vertices@;
                assert(vs.contains(vertex));
                let k = vs.index_of(vertex);
                assert(0 <= k < vs.len() && vs[k] == vertex);
                assert(k == pos as int);
            }
            self.indices.push(pos as Index);
            proof {
                let oldi = old(self).indices@;
                assert(self.indices@ == oldi.push(pos as Index));
                assert forall|q: int|
                    0 <= q < self.indices@.len() implies (#[trigger] self.indices@[q] as int)
                        < self.vertices@.len() by {
                    if q < oldi.len() {
                        assert(self.indices@[q] == oldi[q]);
                        assert((old(self).index_seq()[q] as int) < old(self).vertex_seq().len());
                    } else {
                        assert(self.indices@[q] == pos as Index);
                    }
                }
            }
        } else {
            proof {
                let vs = self.vertices@;
                assert(forall|j: int| 0 <= j < vs.len() ==> vs[j] != vertex);
                assert(!vs.contains(vertex));
            }
            let idx = n as Index;
            self.vertices.push(vertex);
            self.indices.push(idx);
            proof {
                let oldi = old(self).indices@;
                assert(self.indices@ == oldi.push(idx));
                assert forall|q: int|
                    0 <= q < self.indices@.len() implies (#[trigger] self.indices@[q] as int)
                        < self.vertices@.len() by {
                    if q < oldi.len() {
                        assert(self.indices@[q] == oldi[q]);
                        assert((old(self).index_seq()[q] as int) < old(self).vertex_seq().len());
                    } else {
                        assert(self.indices@[q] == idx);
                    }
                }
            }
            proof {
                let vs = old(self).vertices@;
                assert forall|a: int, b: int|
                    0 <= a < vs.push(vertex).len() && 0 <= b < vs.push(vertex).len() && a
                        != b implies vs.push(vertex)[a] != vs.push(vertex)[b] by {
                    if a < vs.len() && b < vs.len() {
                        assert(vs[a] == vs.push(vertex)[a]);
                        assert(vs[b] == vs.push(vertex)[b]);
                    }
                }
            }
        }
    }

    /// The vertices of the mesh, in first-push order.
    pub fn vertices(&self) -> (r: Vec<V>)
        ensures
            r@ == self.vertex_seq(),
    {
        let mut out: Vec<V> = Vec::new();
        let mut i: usize = 0;
        while i < self.vertices.len()
            invariant
                i <= self.vertices@.len(),
                out@ == self.vertices@.take(i as int),
            decreases self.vertices@.len() - i,
        {
            out.push(self.vertices[i]);
            proof {
                assert(out@ =~= self.vertices@.take(i + 1));
            }
            i = i + 1;
        }
        proof {
            assert(out@ =~= self.vertices@);
        }
        out
    }

    /// The indices of the mesh, one per push.
    pub fn indices(&self) -> (r: Vec<Index>)
        ensures
            r@ == self.index_seq(),
    {
        let mut out: Vec<Index> = Vec::new();
        let mut i: usize = 0;
        while i < self.indices.len()
            invariant
                i <= self.indices@.len(),
                out@ == self.indices@.take(i as int),
            decreases self.indices@.len() - i,
        {
            out.push(self.indices[i]);
            proof {
                assert(out@ =~= self.indices@.take(i + 1));
            }
            i = i + 1;
        }
        proof {
            assert(out@ =~= self.indices@);
        }
        out
    }
}

/// A triangle with a color tag, the terminal unit emitted by meshing.
#[derive(Clone, Copy, Debug, PartialEq, Eq, PartialOrd, Ord)]
pub struct Triangle {
    /// The non-color part of the triangle.
    pub inner: Triangle3,

    /// The color of the triangle.
    pub color: Color,
}

impl Triangle {
    /// Construct a new color-tagged triangle.
    pub fn new(inner: Triangle3, color: Color) -> (r: Self)
        ensures
            r.inner == inner,
            r.color == color,
    {
        Triangle { inner, color }
    }
}

/// Law: after any sequence of pushes, the mesh holds exactly one vertex per
/// distinct value pushed, in first-push order, and exactly one index per
/// push; every index resolves to the value that was pushed, and two pushes
/// of equal values are assigned equal indices.
pub proof fn lemma_mesh_dedup<V>(pushes: Seq<V>)
    ensures
        dedup_vertices(pushes).no_duplicates(),
        dedup_vertices(pushes).to_set() =~= pushes.to_set(),
        dedup_vertices(pushes).len() == pushes.to_set().len(),
        dedup_indices(pushes).len() == pushes.len(),
        forall|i: int|
            0 <= i < pushes.len() ==> 0 <= #[trigger] dedup_indices(pushes)[i] < dedup_vertices(
                pushes,
            ).len(),
        forall|i: int|
            0 <= i < pushes.len() ==> dedup_vertices(pushes)[#[trigger] dedup_indices(pushes)[i]]
                == pushes[i],
        forall|i: int, j: int|
            0 <= i < pushes.len() && 0 <= j < pushes.len() && pushes[i] == pushes[j]
                ==> dedup_indices(pushes)[i] == dedup_indices(pushes)[j],
    decreases pushes.len(),
{
    broadcast use vstd::prelude::Seq::lemma_push_to_set_commute;

    if pushes.len() == 0 {
        assert(dedup_vertices(pushes).to_set() =~= pushes.to_set());
        assert(pushes.to_set() =~= Set::empty());
        assert(pushes.to_set().len() == 0);
    } else {
        let dl = pushes.drop_last();
        let lst = pushes.last();
        lemma_mesh_dedup(dl);
        let dvs = dedup_vertices(dl);
        let vs = dedup_vertices(pushes);
        assert(vs == step_vertices(dvs, lst));
        assert(dl.push(lst) =~= pushes);
        assert(dl.push(lst).to_set() =~= dl.to_set().insert(lst));
        assert(pushes.to_set() =~= dl.to_set().insert(lst));
        if dvs.contains(lst) {
            assert(dvs.to_set().contains(lst));
            assert(dl.to_set().insert(lst) =~= dl.to_set());
            assert(vs.to_set() =~= pushes.to_set());
            let k = dvs.index_of(lst);
            assert(0 <= k < dvs.len() && dvs[k] == lst);
        } else {
            assert(vs == dvs.push(lst));
            assert(vs.to_set() =~= dvs.to_set().insert(lst));
            assert(vs.to_set() =~= pushes.to_set());
            assert forall|a: int, b: int|
                0 <= a < vs.len() && 0 <= b < vs.len() && a != b implies vs[a] != vs[b] by {
                if a < dvs.len() && b < dvs.len() {
                    assert(dvs[a] == vs[a]);
                    assert(dvs[b] == vs[b]);
                }
            }
        }
        vs.unique_seq_to_set();
        // The index appended for the last push resolves to the pushed value,
        // and pushing never moves a vertex that is already in place.
        let ai = assigned_index(dvs, lst);
        assert(0 <= ai < vs.len() && vs[ai] == lst);
        assert(dedup_indices(pushes) == dedup_indices(dl).push(ai));
        assert forall|i: int| 0 <= i < dl.len() implies dedup_vertices(pushes)[#[trigger] dedup_indices(
            pushes,
        )[i]] == pushes[i] by {
            assert(dedup_indices(pushes)[i] == dedup_indices(dl)[i]);
            assert(dvs[dedup_indices(dl)[i]] == dl[i]);
            assert(vs[dedup_indices(dl)[i]] == dvs[dedup_indices(dl)[i]]);
            assert(dl[i] == pushes[i]);
        }
        assert forall|i: int, j: int|
            0 <= i < pushes.len() && 0 <= j < pushes.len() && pushes[i]
                == pushes[j] implies dedup_indices(pushes)[i] == dedup_indices(pushes)[j] by {
            let di = dedup_indices(pushes)[i];
            let dj = dedup_indices(pushes)[j];
            assert(vs[di] == pushes[i]);
            assert(vs[dj] == pushes[j]);
            assert(0 <= di < vs.len() && 0 <= dj < vs.len());
            if di != dj {
                assert(vs[di] != vs[dj]);
            }
        }
    }
}

} // verus!
