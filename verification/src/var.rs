//! Variables and binders.
//!
//! A binder introduces a name with a fresh identity distinct from its
//! printable text: two binders may share a name but never an identity.
//! Equality of variables therefore goes by identity, never by string.

use vstd::prelude::*;

verus! {

/// A reference to a binder's identity, resolved through the context.
///
/// The numeric identity alone decides equality; the name is a printable
/// hint kept for diagnostics.
#[derive(Debug)]
pub struct FreeVar {
    pub id: u64,
    pub name: String,
}

impl FreeVar {
    /// Whether two free variables denote the same binder: identity equality,
    /// never string equality.
    pub open spec fn same_spec(&self, other: &FreeVar) -> bool {
        self.id == other.id
    }

    /// Decide whether two free variables denote the same binder.
    pub fn same(&self, other: &FreeVar) -> (r: bool)
        ensures
            r == self.same_spec(other),
    {
        self.id == other.id
    }
}

impl Clone for FreeVar {
    fn clone(&self) -> (r: Self)
        ensures
            r == *self,
    {
        FreeVar { id: self.id, name: self.name.clone() }
    }
}

/// A variable occurrence in a raw or core term.
#[derive(Debug)]
pub enum Var {
    /// A lexically scoped reference, resolved by its de Bruijn index: the
    /// number of binders between the occurrence and the binder it refers to.
    /// The string is a printable hint.
    Bound(u32, String),
    /// A reference into the context, resolved by identity.
    Free(FreeVar),
}

impl Clone for Var {
    fn clone(&self) -> (r: Self)
        ensures
            r == *self,
    {
        match self {
            Var::Bound(index, hint) => Var::Bound(*index, hint.clone()),
            Var::Free(free_var) => Var::Free(free_var.clone()),
        }
    }
}

} // verus!
