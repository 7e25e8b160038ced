//! The semantic value domain of the normalizer.
//!
//! Evaluation turns core terms into weak-head-normal values: universes,
//! literals, function and record values closed over an environment, and
//! neutrals, the computations stuck on a variable with no definition.
//! Values carry no spans; they are purely semantic.

use vstd::prelude::*;

use crate::core_syntax::{ClauseList, Literal, Term};
use crate::raw::Label;
use crate::var::FreeVar;

verus! {

/// The head variable of a neutral value.
#[derive(Debug)]
pub enum NVar {
    /// A free variable with no definition in the context.
    Free(FreeVar),
    /// A fresh local variable introduced while normalizing under a binder,
    /// identified by its de Bruijn level (the number of binders outside
    /// it), with a printable hint.
    Local(u32, String),
}

/// The environment a closure is closed over: the values of the bound
/// variables in scope, innermost first, indexed by de Bruijn index.
#[derive(Debug)]
pub enum Env {
    Nil,
    Cons(Box<Value>, Box<Env>),
}

/// A core term body together with the environment its free de Bruijn
/// indices refer to; applying the closure pushes one more value.
#[derive(Debug)]
pub struct Closure {
    pub env: Env,
    pub body: Box<Term>,
}

/// The elements of an evaluated array literal.
#[derive(Debug)]
pub enum ValueList {
    Nil,
    Cons(Box<Value>, Box<ValueList>),
}

/// The fields of an evaluated record introduction.
#[derive(Debug)]
pub enum FieldValueList {
    Nil,
    Cons(Label, Box<Value>, Box<FieldValueList>),
}

/// A weak-head-normal value.
#[derive(Debug)]
pub enum Value {
    /// The type of types at the given level.
    Universe(u32),
    /// A literal value.
    Literal(Literal),
    /// A dependent function type: binder hint, parameter type, and the
    /// body closed over its environment.
    FunType(String, Box<Value>, Closure),
    /// A function value: binder hint and body closure.
    FunIntro(String, Closure),
    /// The empty record type.
    RecordTypeNil,
    /// A record type telescope: the first field's label and type, and the
    /// rest of the telescope closed over the first field's value.
    RecordTypeCons(Label, Box<Value>, Closure),
    /// A record value.
    RecordIntro(FieldValueList),
    /// An array value.
    ArrayIntro(ValueList),
    /// A stuck computation.
    Neutral(Box<Neutral>),
}

/// A computation stuck on a variable with no definition.
#[derive(Debug)]
pub enum Neutral {
    /// The stuck variable itself.
    Var(NVar),
    /// A stuck application of a neutral head to an argument value.
    App(Box<Neutral>, Box<Value>),
    /// A stuck projection out of a neutral record.
    Proj(Box<Neutral>, Label),
    /// A stuck case split on a neutral scrutinee; the clauses keep the
    /// environment they were suspended in.
    Case(Box<Neutral>, Env, ClauseList),
}

impl Clone for NVar {
    fn clone(&self) -> (r: Self)
        ensures
            r == *self,
    {
        match self {
            NVar::Free(free_var) => NVar::Free(free_var.clone()),
            NVar::Local(level, hint) => NVar::Local(*level, hint.clone()),
        }
    }
}

impl Clone for Env {
    fn clone(&self) -> (r: Self)
        ensures
            r == *self,
        decreases *self,
    {
        match self {
            Env::Nil => Env::Nil,
            Env::Cons(v, rest) => Env::Cons(Box::new((**v).clone()), Box::new((**rest).clone())),
        }
    }
}

impl Clone for Closure {
    fn clone(&self) -> (r: Self)
        ensures
            r == *self,
        decreases *self,
    {
        Closure { env: self.env.clone(), body: Box::new((*self.body).clone()) }
    }
}

impl Clone for ValueList {
    fn clone(&self) -> (r: Self)
        ensures
            r == *self,
        decreases *self,
    {
        match self {
            ValueList::Nil => ValueList::Nil,
            ValueList::Cons(v, rest) => ValueList::Cons(
                Box::new((**v).clone()),
                Box::new((**rest).clone()),
            ),
        }
    }
}

impl Clone for FieldValueList {
    fn clone(&self) -> (r: Self)
        ensures
            r == *self,
        decreases *self,
    {
        match self {
            FieldValueList::Nil => FieldValueList::Nil,
            FieldValueList::Cons(label, v, rest) => FieldValueList::Cons(
                label.clone(),
                Box::new((**v).clone()),
                Box::new((**rest).clone()),
            ),
        }
    }
}

impl Clone for Value {
    fn clone(&self) -> (r: Self)
        ensures
            r == *self,
        decreases *self,
    {
        match self {
            Value::Universe(level) => Value::Universe(*level),
            Value::Literal(l) => Value::Literal(l.clone()),
            Value::FunType(hint, ann, closure) => Value::FunType(
                hint.clone(),
                Box::new((**ann).clone()),
                closure.clone(),
            ),
            Value::FunIntro(hint, closure) => Value::FunIntro(hint.clone(), closure.clone()),
            Value::RecordTypeNil => Value::RecordTypeNil,
            Value::RecordTypeCons(label, ann, closure) => Value::RecordTypeCons(
                label.clone(),
                Box::new((**ann).clone()),
                closure.clone(),
            ),
            Value::RecordIntro(fields) => Value::RecordIntro(fields.clone()),
            Value::ArrayIntro(elems) => Value::ArrayIntro(elems.clone()),
            Value::Neutral(neutral) => Value::Neutral(Box::new((**neutral).clone())),
        }
    }
}

impl Clone for Neutral {
    fn clone(&self) -> (r: Self)
        ensures
            r == *self,
        decreases *self,
    {
        match self {
            Neutral::Var(nvar) => Neutral::Var(nvar.clone()),
            Neutral::App(head, arg) => Neutral::App(
                Box::new((**head).clone()),
                Box::new((**arg).clone()),
            ),
            Neutral::Proj(head, label) => Neutral::Proj(Box::new((**head).clone()), label.clone()),
            Neutral::Case(head, env, clauses) => Neutral::Case(
                Box::new((**head).clone()),
                env.clone(),
                clauses.clone(),
            ),
        }
    }
}

/// The value of the de Bruijn index `index` in `env`, if the index is in
/// range.
pub open spec fn env_lookup_spec(env: &Env, index: u32) -> Option<Value>
    decreases *env,
{
    match env {
        Env::Nil => None,
        Env::Cons(v, rest) => if index == 0 {
            Some(**v)
        } else {
            env_lookup_spec(rest, (index - 1) as u32)
        },
    }
}

/// Look up the value of a de Bruijn index in an environment.
pub fn env_lookup(env: &Env, index: u32) -> (r: Option<Value>)
    ensures
        r == env_lookup_spec(env, index),
    decreases *env,
{
    match env {
        Env::Nil => None,
        Env::Cons(v, rest) => if index == 0 {
            Some((**v).clone())
        } else {
            env_lookup(rest, index - 1)
        },
    }
}

} // verus!
