//! The elaboration context: an immutable, persistently extended mapping
//! from free variables to a declared type and, optionally, a definition
//! value.
//!
//! Extending a context returns a new context and leaves the old one valid,
//! so case branches and nested scopes each work on an independent
//! extension of their parent. Free variables are looked up by identity; no
//! two ever alias.

use vstd::prelude::*;

use crate::domain::Value;
use crate::var::FreeVar;

verus! {

/// The entries of a context, newest first: the variable, its declared
/// type, and its definition if it has one.
pub enum Entries {
    Nil,
    Cons(FreeVar, Box<Value>, Option<Box<Value>>, Box<Entries>),
}

impl Clone for Entries {
    fn clone(&self) -> (r: Self)
        ensures
            r == *self,
        decreases *self,
    {
        match self {
            Entries::Nil => Entries::Nil,
            Entries::Cons(free_var, ty, def, rest) => Entries::Cons(
                free_var.clone(),
                Box::new((**ty).clone()),
                match def {
                    Option::None => Option::None,
                    Option::Some(v) => Option::Some(Box::new((**v).clone())),
                },
                Box::new((**rest).clone()),
            ),
        }
    }
}

/// The declared type of the newest entry for the identity `id`.
pub open spec fn entries_lookup_type(entries: &Entries, id: u64) -> Option<Value>
    decreases *entries,
{
    match entries {
        Entries::Nil => None,
        Entries::Cons(free_var, ty, _, rest) => if free_var.id == id {
            Some(**ty)
        } else {
            entries_lookup_type(rest, id)
        },
    }
}

/// The definition of the newest entry for the identity `id`, if that entry
/// has one.
pub open spec fn entries_lookup_value(entries: &Entries, id: u64) -> Option<Value>
    decreases *entries,
{
    match entries {
        Entries::Nil => None,
        Entries::Cons(free_var, _, def, rest) => if free_var.id == id {
            match def {
                Option::None => None,
                Option::Some(v) => Some(**v),
            }
        } else {
            entries_lookup_value(rest, id)
        },
    }
}

/// An immutable mapping from free variables to their declared type and
/// optional definition.
pub struct Context {
    pub entries: Entries,
}

impl Clone for Context {
    fn clone(&self) -> (r: Self)
        ensures
            r == *self,
    {
        Context { entries: self.entries.clone() }
    }
}

impl Context {
    /// The empty context.
    pub fn new() -> (r: Context)
        ensures
            r.entries == Entries::Nil,
    {
        Context { entries: Entries::Nil }
    }

    /// The declared type of the newest entry for `free_var`.
    pub open spec fn lookup_type_spec(&self, id: u64) -> Option<Value> {
        entries_lookup_type(&self.entries, id)
    }

    /// The definition of the newest entry for `free_var`, if any.
    pub open spec fn lookup_value_spec(&self, id: u64) -> Option<Value> {
        entries_lookup_value(&self.entries, id)
    }

    /// Look up the declared type of a free variable.
    pub fn lookup_type(&self, free_var: &FreeVar) -> (r: Option<Value>)
        ensures
            r == self.lookup_type_spec(free_var.id),
    {
        lookup_type_in(&self.entries, free_var.id)
    }

    /// Look up the definition of a free variable, if it has one.
    pub fn lookup_value(&self, free_var: &FreeVar) -> (r: Option<Value>)
        ensures
            r == self.lookup_value_spec(free_var.id),
    {
        lookup_value_in(&self.entries, free_var.id)
    }

    /// A new context that also declares `free_var` with the type `ty`; the
    /// old context is unaffected.
    pub fn extend_type(&self, free_var: FreeVar, ty: Value) -> (r: Context)
        ensures
            r.entries == Entries::Cons(
                free_var,
                Box::new(ty),
                Option::<Box<Value>>::None,
                Box::new(self.entries),
            ),
    {
        Context {
            entries: Entries::Cons(free_var, Box::new(ty), None, Box::new(self.entries.clone())),
        }
    }

    /// A new context that declares `free_var` with the type `ty` and
    /// defines it as `value`; the old context is unaffected.
    pub fn extend_value(&self, free_var: FreeVar, ty: Value, value: Value) -> (r: Context)
        ensures
            r.entries == Entries::Cons(
                free_var,
                Box::new(ty),
                Option::Some(Box::new(value)),
                Box::new(self.entries),
            ),
    {
        Context {
            entries: Entries::Cons(
                free_var,
                Box::new(ty),
                Some(Box::new(value)),
                Box::new(self.entries.clone()),
            ),
        }
    }
}

/// Walk the entries for the newest declared type of `id`.
fn lookup_type_in(entries: &Entries, id: u64) -> (r: Option<Value>)
    ensures
        r == entries_lookup_type(entries, id),
    decreases *entries,
{
    match entries {
        Entries::Nil => None,
        Entries::Cons(free_var, ty, _, rest) => if free_var.id == id {
            Some((**ty).clone())
        } else {
            lookup_type_in(rest, id)
        },
    }
}

/// Walk the entries for the newest definition of `id`.
fn lookup_value_in(entries: &Entries, id: u64) -> (r: Option<Value>)
    ensures
        r == entries_lookup_value(entries, id),
    decreases *entries,
{
    match entries {
        Entries::Nil => None,
        Entries::Cons(free_var, _, def, rest) => if free_var.id == id {
            match def {
                Option::None => None,
                Option::Some(v) => Some((**v).clone()),
            }
        } else {
            lookup_value_in(rest, id)
        },
    }
}

} // verus!
