//! Topological core of a boundary-representation (B-Rep) geometry kernel.
//!
//! Solids and sketches are modelled as surfaces bounded by cycles of edges.
//! Every bounded entity keeps a dual local/canonical coordinate
//! representation, and the topology is converted into deduplicated indexed
//! triangle meshes for downstream consumption.
//!
//! All coordinates are plain 64-bit integers. Geometric comparisons,
//! normalization and ordering are therefore exact, which is what the
//! deduplication and canonicalization logic of this kernel depends on.

pub mod aabb;
pub mod face;
pub mod local;
pub mod mesh;
pub mod numeric;
pub mod polygon;
