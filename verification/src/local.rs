//! The dual-form reference: a local representation of an object kept
//! alongside its canonical representation.
//!
//! Topological objects reference other objects through this wrapper, keeping
//! a local (for example surface-parametric) form next to the canonical
//! (world-space) form of the same object. It is the caller's responsibility
//! that the two forms passed to [`LocalForm::new`] describe the same object;
//! the pairing itself is not checked here.

use vstd::prelude::*;

verus! {

/// A reference to an object that includes a local form of it.
///
/// Immutable after construction: accessors only hand out borrowed views.
#[derive(Clone, Debug, PartialEq, Eq, Hash, PartialOrd, Ord)]
pub struct LocalForm<Local, Canonical> {
    local: Local,
    canonical: Canonical,
}

impl<Local, Canonical> LocalForm<Local, Canonical> {
    /// The local form held by this reference.
    pub closed spec fn local_spec(self) -> Local {
        self.local
    }

    /// The canonical form held by this reference.
    pub closed spec fn canonical_spec(self) -> Canonical {
        self.canonical
    }

    /// Construct a new dual-form reference.
    ///
    /// It is the caller's responsibility to make sure that the local and
    /// canonical forms passed to this method actually describe the same
    /// object.
    pub fn new(local: Local, canonical: Canonical) -> (r: Self)
        ensures
            r.local_spec() == local,
            r.canonical_spec() == canonical,
    {
        LocalForm { local, canonical }
    }

    /// Access the local form of the referenced object.
    pub fn local(&self) -> (r: &Local)
        ensures
            *r == self.local_spec(),
    {
        &self.local
    }

    /// Access the canonical form of the referenced object.
    pub fn canonical(&self) -> (r: &Canonical)
        ensures
            *r == self.canonical_spec(),
    {
        &self.canonical
    }
}

impl<Canonical: Copy> LocalForm<Canonical, Canonical> {
    /// Construct a dual-form reference for an object whose local and
    /// canonical forms coincide: both fields receive the same value, so
    /// `local()` and `canonical()` both return exactly that value.
    pub fn canonical_only(canonical: Canonical) -> (r: Self)
        ensures
            r.local_spec() == canonical,
            r.canonical_spec() == canonical,
    {
        Self::new(canonical, canonical)
    }
}

} // verus!
