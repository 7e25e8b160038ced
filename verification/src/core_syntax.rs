//! The core term tree: the fully elaborated, unambiguous internal
//! representation.
//!
//! Holes are gone, every literal carries the concrete type it was checked
//! against, annotations have been absorbed, and universes carry explicit
//! levels. Core terms carry no spans: they are pure syntax, compared up to
//! the printable binder hints.

use vstd::prelude::*;

use crate::concrete::{FloatFormat, IntFormat};
use crate::raw::Label;
use crate::var::Var;

verus! {

/// The integer types a numeric literal can be checked against.
#[derive(Clone, Copy, PartialEq, Eq, Structural, Debug)]
pub enum IntType {
    U8,
    U16,
    U32,
    U64,
    S8,
    S16,
    S32,
    S64,
}

/// The floating point types a floating point literal can be checked
/// against.
#[derive(Clone, Copy, PartialEq, Eq, Structural, Debug)]
pub enum FloatType {
    F32,
    F64,
}

/// A literal together with the type elaboration gave it.
#[derive(Debug)]
pub enum Literal {
    Str(String),
    Char(char),
    /// An integer, still in the format it was written in; the format never
    /// affects equality.
    Int(u64, IntFormat, IntType),
    /// A floating point number carried as its IEEE 754 bits; the core never
    /// computes with it.
    Float(u64, FloatFormat, FloatType),
}

/// A fully elaborated pattern.
#[derive(Debug)]
pub enum Pattern {
    /// Matches a literal by value.
    Literal(Literal),
    /// Introduces a binder for the clause body.
    Binder(String),
    /// Matches by equality against a constant in scope.
    Var(Var),
}

/// The elements of an array literal.
#[derive(Debug)]
pub enum TermList {
    Nil,
    Cons(Box<Term>, Box<TermList>),
}

/// Labeled fields: the telescope of a record type, or the fields of a
/// record introduction.
#[derive(Debug)]
pub enum FieldList {
    Nil,
    Cons(Label, Box<Term>, Box<FieldList>),
}

/// The clauses of a case expression.
#[derive(Debug)]
pub enum ClauseList {
    Nil,
    Cons(Pattern, Box<Term>, Box<ClauseList>),
}

/// A fully elaborated term.
#[derive(Debug)]
pub enum Term {
    /// The type of types at the given level.
    Universe(u32),
    /// A literal tagged with its type.
    Literal(Literal),
    /// A variable occurrence.
    Var(Var),
    /// A dependent function type: binder hint, parameter type, body.
    FunType(String, Box<Term>, Box<Term>),
    /// A function introduction: binder hint and body.
    FunIntro(String, Box<Term>),
    /// A function applied to one argument.
    FunApp(Box<Term>, Box<Term>),
    /// An array literal.
    ArrayIntro(TermList),
    /// A record type: a telescope of labeled annotations.
    RecordType(FieldList),
    /// A record introduction.
    RecordIntro(FieldList),
    /// A record field projection.
    RecordProj(Box<Term>, Label),
    /// A case expression.
    Case(Box<Term>, ClauseList),
    /// One definition bound over a body.
    Let(String, Box<Term>, Box<Term>),
}

impl Clone for Literal {
    fn clone(&self) -> (r: Self)
        ensures
            r == *self,
    {
        match self {
            Literal::Str(s) => Literal::Str(s.clone()),
            Literal::Char(c) => Literal::Char(*c),
            Literal::Int(v, f, t) => Literal::Int(*v, *f, *t),
            Literal::Float(v, f, t) => Literal::Float(*v, *f, *t),
        }
    }
}

impl Clone for Pattern {
    fn clone(&self) -> (r: Self)
        ensures
            r == *self,
    {
        match self {
            Pattern::Literal(l) => Pattern::Literal(l.clone()),
            Pattern::Binder(hint) => Pattern::Binder(hint.clone()),
            Pattern::Var(v) => Pattern::Var(v.clone()),
        }
    }
}

impl Clone for Term {
    fn clone(&self) -> (r: Self)
        ensures
            r == *self,
        decreases *self,
    {
        match self {
            Term::Universe(level) => Term::Universe(*level),
            Term::Literal(l) => Term::Literal(l.clone()),
            Term::Var(v) => Term::Var(v.clone()),
            Term::FunType(hint, ann, body) => Term::FunType(
                hint.clone(),
                Box::new((**ann).clone()),
                Box::new((**body).clone()),
            ),
            Term::FunIntro(hint, body) => Term::FunIntro(hint.clone(), Box::new((**body).clone())),
            Term::FunApp(head, arg) => Term::FunApp(
                Box::new((**head).clone()),
                Box::new((**arg).clone()),
            ),
            Term::ArrayIntro(elems) => Term::ArrayIntro(elems.clone()),
            Term::RecordType(fields) => Term::RecordType(fields.clone()),
            Term::RecordIntro(fields) => Term::RecordIntro(fields.clone()),
            Term::RecordProj(head, label) => Term::RecordProj(
                Box::new((**head).clone()),
                label.clone(),
            ),
            Term::Case(head, clauses) => Term::Case(Box::new((**head).clone()), clauses.clone()),
            Term::Let(hint, def, body) => Term::Let(
                hint.clone(),
                Box::new((**def).clone()),
                Box::new((**body).clone()),
            ),
        }
    }
}

impl Clone for TermList {
    fn clone(&self) -> (r: Self)
        ensures
            r == *self,
        decreases *self,
    {
        match self {
            TermList::Nil => TermList::Nil,
            TermList::Cons(t, rest) => TermList::Cons(
                Box::new((**t).clone()),
                Box::new((**rest).clone()),
            ),
        }
    }
}

impl Clone for FieldList {
    fn clone(&self) -> (r: Self)
        ensures
            r == *self,
        decreases *self,
    {
        match self {
            FieldList::Nil => FieldList::Nil,
            FieldList::Cons(label, t, rest) => FieldList::Cons(
                label.clone(),
                Box::new((**t).clone()),
                Box::new((**rest).clone()),
            ),
        }
    }
}

impl Clone for ClauseList {
    fn clone(&self) -> (r: Self)
        ensures
            r == *self,
        decreases *self,
    {
        match self {
            ClauseList::Nil => ClauseList::Nil,
            ClauseList::Cons(pattern, body, rest) => ClauseList::Cons(
                pattern.clone(),
                Box::new((**body).clone()),
                Box::new((**rest).clone()),
            ),
        }
    }
}

/// Definitional equality of literals: by value and type, never by the
/// format they were written in.
pub open spec fn literal_eq_spec(a: &Literal, b: &Literal) -> bool {
    match (a, b) {
        (Literal::Str(x), Literal::Str(y)) => x@ == y@,
        (Literal::Char(x), Literal::Char(y)) => x == y,
        (Literal::Int(x, _, tx), Literal::Int(y, _, ty)) => x == y && tx == ty,
        (Literal::Float(x, _, tx), Literal::Float(y, _, ty)) => x == y && tx == ty,
        _ => false,
    }
}

/// Decide definitional equality of literals.
pub fn literal_eq(a: &Literal, b: &Literal) -> (r: bool)
    ensures
        r == literal_eq_spec(a, b),
{
    match (a, b) {
        (Literal::Str(x), Literal::Str(y)) => String::eq(x, y),
        (Literal::Char(x), Literal::Char(y)) => x == y,
        (Literal::Int(x, _, tx), Literal::Int(y, _, ty)) => x == y && tx == ty,
        (Literal::Float(x, _, tx), Literal::Float(y, _, ty)) => x == y && tx == ty,
        _ => false,
    }
}

/// Equality of labels: by text.
pub open spec fn label_eq_spec(a: &Label, b: &Label) -> bool {
    a.0@ == b.0@
}

/// Decide equality of labels.
pub fn label_eq(a: &Label, b: &Label) -> (r: bool)
    ensures
        r == label_eq_spec(a, b),
{
    String::eq(&a.0, &b.0)
}

/// Equality of variables: bound variables by index, free variables by
/// identity; printable hints never matter.
pub open spec fn var_eq_spec(a: &Var, b: &Var) -> bool {
    match (a, b) {
        (Var::Bound(x, _), Var::Bound(y, _)) => x == y,
        (Var::Free(x), Var::Free(y)) => x.id == y.id,
        _ => false,
    }
}

/// Decide equality of variables.
pub fn var_eq(a: &Var, b: &Var) -> (r: bool)
    ensures
        r == var_eq_spec(a, b),
{
    match (a, b) {
        (Var::Bound(x, _), Var::Bound(y, _)) => x == y,
        (Var::Free(x), Var::Free(y)) => x.id == y.id,
        _ => false,
    }
}

/// Structural equality of core terms up to binder hints: bound variables
/// compare by de Bruijn index, free variables by identity, labels by text,
/// literals by value and type. This is the equality the elaborator uses on
/// normal forms.
pub open spec fn term_eq_spec(a: &Term, b: &Term) -> bool
    decreases *a,
{
    match (a, b) {
        (Term::Universe(x), Term::Universe(y)) => x == y,
        (Term::Literal(x), Term::Literal(y)) => literal_eq_spec(x, y),
        (Term::Var(x), Term::Var(y)) => var_eq_spec(x, y),
        (Term::FunType(_, ann_a, body_a), Term::FunType(_, ann_b, body_b)) => term_eq_spec(
            ann_a,
            ann_b,
        ) && term_eq_spec(body_a, body_b),
        (Term::FunIntro(_, body_a), Term::FunIntro(_, body_b)) => term_eq_spec(body_a, body_b),
        (Term::FunApp(head_a, arg_a), Term::FunApp(head_b, arg_b)) => term_eq_spec(head_a, head_b)
            && term_eq_spec(arg_a, arg_b),
        (Term::ArrayIntro(xs), Term::ArrayIntro(ys)) => term_list_eq_spec(xs, ys),
        (Term::RecordType(xs), Term::RecordType(ys)) => field_list_eq_spec(xs, ys),
        (Term::RecordIntro(xs), Term::RecordIntro(ys)) => field_list_eq_spec(xs, ys),
        (Term::RecordProj(head_a, label_a), Term::RecordProj(head_b, label_b)) => term_eq_spec(
            head_a,
            head_b,
        ) && label_eq_spec(label_a, label_b),
        (Term::Case(head_a, clauses_a), Term::Case(head_b, clauses_b)) => term_eq_spec(
            head_a,
            head_b,
        ) && clause_list_eq_spec(clauses_a, clauses_b),
        (Term::Let(_, def_a, body_a), Term::Let(_, def_b, body_b)) => term_eq_spec(def_a, def_b)
            && term_eq_spec(body_a, body_b),
        _ => false,
    }
}

/// Elementwise [`term_eq_spec`].
pub open spec fn term_list_eq_spec(a: &TermList, b: &TermList) -> bool
    decreases *a,
{
    match (a, b) {
        (TermList::Nil, TermList::Nil) => true,
        (TermList::Cons(x, xs), TermList::Cons(y, ys)) => term_eq_spec(x, y) && term_list_eq_spec(
            xs,
            ys,
        ),
        _ => false,
    }
}

/// Elementwise equality of labeled fields.
pub open spec fn field_list_eq_spec(a: &FieldList, b: &FieldList) -> bool
    decreases *a,
{
    match (a, b) {
        (FieldList::Nil, FieldList::Nil) => true,
        (FieldList::Cons(la, x, xs), FieldList::Cons(lb, y, ys)) => label_eq_spec(la, lb)
            && term_eq_spec(x, y) && field_list_eq_spec(xs, ys),
        _ => false,
    }
}

/// Equality of patterns, up to binder hints.
pub open spec fn pattern_eq_spec(a: &Pattern, b: &Pattern) -> bool {
    match (a, b) {
        (Pattern::Literal(x), Pattern::Literal(y)) => literal_eq_spec(x, y),
        (Pattern::Binder(_), Pattern::Binder(_)) => true,
        (Pattern::Var(x), Pattern::Var(y)) => var_eq_spec(x, y),
        _ => false,
    }
}

/// Elementwise equality of case clauses.
pub open spec fn clause_list_eq_spec(a: &ClauseList, b: &ClauseList) -> bool
    decreases *a,
{
    match (a, b) {
        (ClauseList::Nil, ClauseList::Nil) => true,
        (ClauseList::Cons(pa, x, xs), ClauseList::Cons(pb, y, ys)) => pattern_eq_spec(pa, pb)
            && term_eq_spec(x, y) && clause_list_eq_spec(xs, ys),
        _ => false,
    }
}

/// Decide structural equality of core terms up to binder hints.
pub fn term_eq(a: &Term, b: &Term) -> (r: bool)
    ensures
        r == term_eq_spec(a, b),
    decreases *a,
{
    match (a, b) {
        (Term::Universe(x), Term::Universe(y)) => x == y,
        (Term::Literal(x), Term::Literal(y)) => literal_eq(x, y),
        (Term::Var(x), Term::Var(y)) => var_eq(x, y),
        (Term::FunType(_, ann_a, body_a), Term::FunType(_, ann_b, body_b)) => term_eq(ann_a, ann_b)
            && term_eq(body_a, body_b),
        (Term::FunIntro(_, body_a), Term::FunIntro(_, body_b)) => term_eq(body_a, body_b),
        (Term::FunApp(head_a, arg_a), Term::FunApp(head_b, arg_b)) => term_eq(head_a, head_b)
            && term_eq(arg_a, arg_b),
        (Term::ArrayIntro(xs), Term::ArrayIntro(ys)) => term_list_eq(xs, ys),
        (Term::RecordType(xs), Term::RecordType(ys)) => field_list_eq(xs, ys),
        (Term::RecordIntro(xs), Term::RecordIntro(ys)) => field_list_eq(xs, ys),
        (Term::RecordProj(head_a, label_a), Term::RecordProj(head_b, label_b)) => term_eq(
            head_a,
            head_b,
        ) && label_eq(label_a, label_b),
        (Term::Case(head_a, clauses_a), Term::Case(head_b, clauses_b)) => term_eq(head_a, head_b)
            && clause_list_eq(clauses_a, clauses_b),
        (Term::Let(_, def_a, body_a), Term::Let(_, def_b, body_b)) => term_eq(def_a, def_b)
            && term_eq(body_a, body_b),
        _ => false,
    }
}

/// Decide elementwise equality of term lists.
pub fn term_list_eq(a: &TermList, b: &TermList) -> (r: bool)
    ensures
        r == term_list_eq_spec(a, b),
    decreases *a,
{
    match (a, b) {
        (TermList::Nil, TermList::Nil) => true,
        (TermList::Cons(x, xs), TermList::Cons(y, ys)) => term_eq(x, y) && term_list_eq(xs, ys),
        _ => false,
    }
}

/// Decide elementwise equality of field lists.
pub fn field_list_eq(a: &FieldList, b: &FieldList) -> (r: bool)
    ensures
        r == field_list_eq_spec(a, b),
    decreases *a,
{
    match (a, b) {
        (FieldList::Nil, FieldList::Nil) => true,
        (FieldList::Cons(la, x, xs), FieldList::Cons(lb, y, ys)) => label_eq(la, lb) && term_eq(
            x,
            y,
        ) && field_list_eq(xs, ys),
        _ => false,
    }
}

/// Decide equality of patterns.
pub fn pattern_eq(a: &Pattern, b: &Pattern) -> (r: bool)
    ensures
        r == pattern_eq_spec(a, b),
{
    match (a, b) {
        (Pattern::Literal(x), Pattern::Literal(y)) => literal_eq(x, y),
        (Pattern::Binder(_), Pattern::Binder(_)) => true,
        (Pattern::Var(x), Pattern::Var(y)) => var_eq(x, y),
        _ => false,
    }
}

/// Decide elementwise equality of clause lists.
pub fn clause_list_eq(a: &ClauseList, b: &ClauseList) -> (r: bool)
    ensures
        r == clause_list_eq_spec(a, b),
    decreases *a,
{
    match (a, b) {
        (ClauseList::Nil, ClauseList::Nil) => true,
        (ClauseList::Cons(pa, x, xs), ClauseList::Cons(pb, y, ys)) => pattern_eq(pa, pb) && term_eq(
            x,
            y,
        ) && clause_list_eq(xs, ys),
        _ => false,
    }
}

} // verus!
