//! The raw term tree: the desugared, name-resolved form of the concrete
//! syntax.
//!
//! Parameter groups are expanded into single-argument binders, record sugar
//! is expanded, `where` blocks are lowered into `let`s, `if` is lowered into
//! a two-armed `case`, and every identifier is replaced by a [`Var`]: either
//! a de Bruijn indexed bound variable or a free variable resolved through
//! the context. Literal spans and formats pass through unchanged.
//!
//! The child lists are spine-shaped (one node per element) so that every
//! traversal of a raw term is plain structural recursion.

use vstd::prelude::*;

use crate::concrete::Literal;
use crate::span::Span;
use crate::var::Var;

verus! {

/// A record label. Labels are compared by their text, unlike variables,
/// which are compared by identity.
#[derive(Debug)]
pub struct Label(pub String);

impl Clone for Label {
    fn clone(&self) -> (r: Self)
        ensures
            r == *self,
    {
        Label(self.0.clone())
    }
}

/// The elements of an array literal.
#[derive(Debug)]
pub enum TermList {
    Nil,
    Cons(Box<Term>, Box<TermList>),
}

/// The clauses of a case expression: a pattern and the body it guards.
#[derive(Debug)]
pub enum ClauseList {
    Nil,
    Cons(Box<Pattern>, Box<Term>, Box<ClauseList>),
}

/// The fields of a record type: label, binder hint, and annotation. Later
/// annotations may refer to earlier fields through bound variables.
#[derive(Debug)]
pub enum TypeFieldList {
    Nil,
    Cons(Label, String, Box<Term>, Box<TypeFieldList>),
}

/// The fields of a record introduction: the span of the label, the
/// label, and the field's term.
#[derive(Debug)]
pub enum IntroFieldList {
    Nil,
    Cons(Span, Label, Box<Term>, Box<IntroFieldList>),
}

/// The items of a `let` block, in source order.
#[derive(Debug)]
pub enum ItemList {
    Nil,
    Cons(Box<Item>, Box<ItemList>),
}

/// A desugared top-level item.
#[derive(Debug)]
pub enum Item {
    /// `name : ann` — declares the type of a name prior to its definition.
    Declaration(Span, String, Box<Term>),
    /// `name = body` — defines a name. The definition binds the name for
    /// the items and body that follow it, as a de Bruijn binder.
    Definition(Span, String, Box<Term>),
}

/// A desugared pattern.
#[derive(Debug)]
pub enum Pattern {
    /// A pattern annotated with a type: `p : t`.
    Ann(Box<Pattern>, Box<Term>),
    /// A literal pattern, matched by value.
    Literal(Literal),
    /// A pattern that introduces a fresh binder for the branch body.
    Binder(Span, String),
    /// A pattern that matches by structural equality against a constant
    /// that was already in scope at the pattern.
    Var(Span, Var),
}

/// A desugared term.
#[derive(Debug)]
pub enum Term {
    /// A term annotated with a type.
    Ann(Span, Box<Term>, Box<Term>),
    /// The type of types at an explicit level.
    Universe(Span, u32),
    /// A literal, not yet given a type.
    Literal(Literal),
    /// A hole to be filled in by elaboration.
    Hole(Span),
    /// A variable occurrence.
    Var(Span, Var),
    /// A dependent function type: binder hint, parameter type, body.
    FunType(Span, String, Box<Term>, Box<Term>),
    /// A function introduction: binder hint, optional parameter annotation,
    /// body.
    FunIntro(Span, String, Option<Box<Term>>, Box<Term>),
    /// A function applied to one argument.
    FunApp(Span, Box<Term>, Box<Term>),
    /// An array literal.
    ArrayIntro(Span, TermList),
    /// A block of items followed by a body.
    Let(Span, ItemList, Box<Term>),
    /// A case expression over a scrutinee.
    Case(Span, Box<Term>, ClauseList),
    /// A record type: a telescope of labeled annotations.
    RecordType(Span, TypeFieldList),
    /// A record introduction.
    RecordIntro(Span, IntroFieldList),
    /// A record field projection; the second span covers the label.
    RecordProj(Span, Box<Term>, Span, Label),
}

impl Term {
    /// The span of source code that the term originated from.
    pub open spec fn span_spec(&self) -> Span {
        match self {
            Term::Ann(span, _, _) => *span,
            Term::Universe(span, _) => *span,
            Term::Literal(literal) => literal.span_spec(),
            Term::Hole(span) => *span,
            Term::Var(span, _) => *span,
            Term::FunType(span, _, _, _) => *span,
            Term::FunIntro(span, _, _, _) => *span,
            Term::FunApp(span, _, _) => *span,
            Term::ArrayIntro(span, _) => *span,
            Term::Let(span, _, _) => *span,
            Term::Case(span, _, _) => *span,
            Term::RecordType(span, _) => *span,
            Term::RecordIntro(span, _) => *span,
            Term::RecordProj(span, _, _, _) => *span,
        }
    }

    /// Return the span of source code that this term originated from.
    pub fn span(&self) -> (r: Span)
        ensures
            r == self.span_spec(),
    {
        match self {
            Term::Ann(span, _, _) => *span,
            Term::Universe(span, _) => *span,
            Term::Literal(literal) => literal.span(),
            Term::Hole(span) => *span,
            Term::Var(span, _) => *span,
            Term::FunType(span, _, _, _) => *span,
            Term::FunIntro(span, _, _, _) => *span,
            Term::FunApp(span, _, _) => *span,
            Term::ArrayIntro(span, _) => *span,
            Term::Let(span, _, _) => *span,
            Term::Case(span, _, _) => *span,
            Term::RecordType(span, _) => *span,
            Term::RecordIntro(span, _) => *span,
            Term::RecordProj(span, _, _, _) => *span,
        }
    }
}

impl Pattern {
    /// The span of source code that the pattern originated from.
    pub open spec fn span_spec(&self) -> Span
        decreases *self,
    {
        match self {
            Pattern::Ann(pattern, ty) => Span {
                start: pattern.span_spec().start,
                end: ty.span_spec().end,
            },
            Pattern::Literal(literal) => literal.span_spec(),
            Pattern::Binder(span, _) => *span,
            Pattern::Var(span, _) => *span,
        }
    }

    /// Return the span of source code that this pattern originated from.
    pub fn span(&self) -> (r: Span)
        ensures
            r == self.span_spec(),
        decreases *self,
    {
        match self {
            Pattern::Ann(pattern, ty) => pattern.span().to(ty.span()),
            Pattern::Literal(literal) => literal.span(),
            Pattern::Binder(span, _) => *span,
            Pattern::Var(span, _) => *span,
        }
    }
}

impl Item {
    /// The span of source code that the item originated from.
    pub open spec fn span_spec(&self) -> Span {
        match self {
            Item::Declaration(span, _, _) => *span,
            Item::Definition(span, _, _) => *span,
        }
    }

    /// Return the span of source code that this item originated from.
    pub fn span(&self) -> (r: Span)
        ensures
            r == self.span_spec(),
    {
        match self {
            Item::Declaration(span, _, _) => *span,
            Item::Definition(span, _, _) => *span,
        }
    }
}

} // verus!
