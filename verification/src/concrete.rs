//! The concrete syntax of the language.
//!
//! This tree is what the parser hands to the desugarer: it still carries all
//! of the surface sugar (parameter groups, record field punning, `where`
//! blocks, `if` expressions) together with the byte span of every node.

use vstd::prelude::*;

use crate::span::{ByteIndex, Span};

verus! {

/// The radix an integer literal was written in.
///
/// The format never affects the meaning of the literal; it is kept only so
/// that the literal can be redisplayed the way it was written.
#[derive(Clone, Copy, PartialEq, Eq, Structural, Debug)]
pub enum IntFormat {
    Bin,
    Oct,
    Dec,
    Hex,
}

/// The notation a floating point literal was written in.
#[derive(Clone, Copy, PartialEq, Eq, Structural, Debug)]
pub enum FloatFormat {
    Dec,
}

/// Commands entered in the REPL.
pub enum ReplCommand {
    /// Evaluate a term: `<term>`
    Eval(Box<Term>),
    /// Show the raw representation of a term: `:raw <term>`
    Raw(Box<Term>),
    /// Show the core representation of a term: `:core <term>`
    Core(Box<Term>),
    /// Print some help about using the REPL: `:?`, `:h`, `:help`
    Help,
    /// Add a declaration to the REPL environment: `:let <name> = <term>`
    Let(String, Box<Term>),
    /// No command
    NoOp,
    /// Quit the REPL: `:q`, `:quit`
    Quit,
    /// Print the type of the term: `:t <term>`, `:type <term>`
    TypeOf(Box<Term>),
    /// Repl commands that could not be parsed correctly
    ///
    /// This is used for error recovery
    Error(Span),
}

/// A group of lambda parameters that share an annotation.
pub struct FunIntroParamGroup {
    pub names: Vec<(ByteIndex, String)>,
    pub ann: Option<Box<Term>>,
}

/// A group of parameters to a dependent function type that share an
/// annotation.
pub struct FunTypeParamGroup {
    pub names: Vec<(ByteIndex, String)>,
    pub ann: Box<Term>,
}

/// A field of a record type: a label, an optional binder distinct from the
/// label, and the type annotation of the field.
pub struct RecordTypeField {
    pub label: (ByteIndex, String),
    pub binder: Option<(ByteIndex, String)>,
    pub ann: Term,
}

/// A field of a record introduction.
pub enum RecordField {
    /// A punned field: `{ x }` stands for `{ x = x }`.
    Punned { label: (ByteIndex, String), shift: Option<u32> },
    /// An explicit field, possibly with method-style parameter sugar:
    /// `{ id (a : Type) (x : a) : a = x }`.
    Explicit {
        label: (ByteIndex, String),
        params: Vec<FunIntroParamGroup>,
        return_ann: Option<Box<Term>>,
        term: Term,
    },
}

/// Top-level items within a module or a `let`/`where` block.
pub enum Item {
    /// Declares the type associated with a name, prior to its definition:
    /// `foo : some-type`
    Declaration { name: (ByteIndex, String), ann: Term },
    /// Defines the term that should be associated with a name:
    /// `foo = some-body`, `foo x (y : some-type) = some-body`
    Definition {
        name: (ByteIndex, String),
        params: Vec<FunIntroParamGroup>,
        return_ann: Option<Box<Term>>,
        body: Term,
    },
    /// Items that could not be correctly parsed
    ///
    /// This is used for error recovery
    Error(Span),
}

/// Literals.
#[derive(Debug)]
pub enum Literal {
    /// String literals
    String(Span, String),
    /// Character literals
    Char(Span, char),
    /// Integer literals
    Int(Span, u64, IntFormat),
    /// Floating point literals, carried as the bits of an IEEE 754 double so
    /// that the value passes through the checker untouched; nothing in the
    /// semantic core computes with it.
    Float(Span, u64, FloatFormat),
}

/// Patterns.
pub enum Pattern {
    /// A pattern surrounded by parentheses: `(p)`
    Parens(Span, Box<Pattern>),
    /// A pattern annotated with a type: `p : t`
    Ann(Box<Pattern>, Box<Term>),
    /// Literal patterns
    Literal(Literal),
    /// Patterns that either introduce a bound variable, or match by
    /// structural equality with a constant in scope: `x`, `true`, `false`
    Name(Span, String, Option<u32>),
    /// Patterns that could not be correctly parsed
    ///
    /// This is used for error recovery
    Error(Span),
}

/// Terms.
pub enum Term {
    /// A term surrounded by parentheses: `(e)`
    Parens(Span, Box<Term>),
    /// A term annotated with a type: `e : t`
    Ann(Box<Term>, Box<Term>),
    /// The type of types, with an optional explicit level: `Type`, `Type^1`
    Universe(Span, Option<u32>),
    /// Literals
    Literal(Literal),
    /// Array literals: `[e1, e2, ..]`
    ArrayIntro(Span, Vec<Term>),
    /// Holes: `_`
    Hole(Span),
    /// Names, with an optional shift past same-named binders: `x`, `x^1`
    Name(Span, String, Option<u32>),
    /// An imported definition: `import "prelude"`
    Import(Span, Span, String),
    /// Dependent function type: `(x : t1) -> t2`, `(x y : t1) -> t2`
    FunType(ByteIndex, Vec<FunTypeParamGroup>, Box<Term>),
    /// Non-dependent function type: `t1 -> t2`
    FunArrow(Box<Term>, Box<Term>),
    /// Function introduction: `\x => t`, `\(x : t1) y => t2`
    FunIntro(ByteIndex, Vec<FunIntroParamGroup>, Box<Term>),
    /// Function application: `e1 e2 e3`.
    ///
    /// The final argument is stored apart from the rest so that an
    /// application always carries at least one argument.
    FunApp(Box<Term>, Vec<Term>, Box<Term>),
    /// Let binding: `let x = e1 in e2`
    Let(ByteIndex, Vec<Item>, Box<Term>),
    /// Where expression: `e where { .. }`
    Where(Box<Term>, Vec<Item>, ByteIndex),
    /// If expression: `if t1 then t2 else t3`
    If(ByteIndex, Box<Term>, Box<Term>, Box<Term>),
    /// Case expression: `case t1 { pat => t2; .. }`
    Case(Span, Box<Term>, Vec<(Pattern, Term)>),
    /// Record type: `Record { x : t1, .. }`
    RecordType(Span, Vec<RecordTypeField>),
    /// Record introduction: `record { x = t1, .. }`
    RecordIntro(Span, Vec<RecordField>),
    /// Record field projection: `e.l`, `e.l^1`
    RecordProj(Span, Box<Term>, ByteIndex, String, Option<u32>),
    /// Terms that could not be correctly parsed
    ///
    /// This is used for error recovery
    Error(Span),
}

impl Clone for Literal {
    fn clone(&self) -> (r: Self)
        ensures
            r == *self,
    {
        match self {
            Literal::String(span, s) => Literal::String(*span, s.clone()),
            Literal::Char(span, c) => Literal::Char(*span, *c),
            Literal::Int(span, v, f) => Literal::Int(*span, *v, *f),
            Literal::Float(span, v, f) => Literal::Float(*span, *v, *f),
        }
    }
}

impl Literal {
    /// The span of source code that the literal originated from.
    pub open spec fn span_spec(&self) -> Span {
        match *self {
            Literal::String(span, _) => span,
            Literal::Char(span, _) => span,
            Literal::Int(span, _, _) => span,
            Literal::Float(span, _, _) => span,
        }
    }

    /// Return the span of source code that the literal originated from.
    pub fn span(&self) -> (r: Span)
        ensures
            r == self.span_spec(),
    {
        match *self {
            Literal::String(span, _) => span,
            Literal::Char(span, _) => span,
            Literal::Int(span, _, _) => span,
            Literal::Float(span, _, _) => span,
        }
    }
}

impl Term {
    /// The span of source code that the term originated from.
    pub open spec fn span_spec(&self) -> Span
        decreases *self,
    {
        match self {
            Term::Parens(span, _) => *span,
            Term::Universe(span, _) => *span,
            Term::Hole(span) => *span,
            Term::Name(span, _, _) => *span,
            Term::Import(span, _, _) => *span,
            Term::Case(span, _, _) => *span,
            Term::RecordType(span, _) => *span,
            Term::RecordIntro(span, _) => *span,
            Term::RecordProj(span, _, _, _, _) => *span,
            Term::ArrayIntro(span, _) => *span,
            Term::Error(span) => *span,
            Term::Literal(literal) => literal.span_spec(),
            Term::FunType(start, _, body) => Span { start: *start, end: body.span_spec().end },
            Term::FunIntro(start, _, body) => Span { start: *start, end: body.span_spec().end },
            Term::Let(start, _, body) => Span { start: *start, end: body.span_spec().end },
            Term::If(start, _, _, if_false) => Span { start: *start, end: if_false.span_spec().end },
            Term::Where(expr, _, end) => Span { start: expr.span_spec().start, end: *end },
            Term::Ann(term, ty) => Span { start: term.span_spec().start, end: ty.span_spec().end },
            Term::FunArrow(ann, body) => Span {
                start: ann.span_spec().start,
                end: body.span_spec().end,
            },
            Term::FunApp(head, _, last_arg) => Span {
                start: head.span_spec().start,
                end: last_arg.span_spec().end,
            },
        }
    }

    /// Return the span of source code that this term originated from.
    pub fn span(&self) -> (r: Span)
        ensures
            r == self.span_spec(),
        decreases *self,
    {
        match self {
            Term::Parens(span, _) => *span,
            Term::Universe(span, _) => *span,
            Term::Hole(span) => *span,
            Term::Name(span, _, _) => *span,
            Term::Import(span, _, _) => *span,
            Term::Case(span, _, _) => *span,
            Term::RecordType(span, _) => *span,
            Term::RecordIntro(span, _) => *span,
            Term::RecordProj(span, _, _, _, _) => *span,
            Term::ArrayIntro(span, _) => *span,
            Term::Error(span) => *span,
            Term::Literal(literal) => literal.span(),
            Term::FunType(start, _, body) => Span::new(*start, body.span().end),
            Term::FunIntro(start, _, body) => Span::new(*start, body.span().end),
            Term::Let(start, _, body) => Span::new(*start, body.span().end),
            Term::If(start, _, _, if_false) => Span::new(*start, if_false.span().end),
            Term::Where(expr, _, end) => Span::new(expr.span().start, *end),
            Term::Ann(term, ty) => term.span().to(ty.span()),
            Term::FunArrow(ann, body) => ann.span().to(body.span()),
            Term::FunApp(head, _, last_arg) => head.span().to(last_arg.span()),
        }
    }
}

impl Item {
    /// The span of source code that the item originated from.
    pub open spec fn span_spec(&self) -> Span {
        match self {
            Item::Declaration { name, ann } => Span {
                start: name.0,
                end: ann.span_spec().end,
            },
            Item::Definition { name, params, return_ann, body } => Span {
                start: name.0,
                end: body.span_spec().end,
            },
            Item::Error(span) => *span,
        }
    }

    /// Return the span of source code that this item originated from.
    pub fn span(&self) -> (r: Span)
        ensures
            r == self.span_spec(),
    {
        match self {
            Item::Declaration { name, ann } => Span::new(name.0, ann.span().end),
            Item::Definition { name, params, return_ann, body } => {
                Span::new(name.0, body.span().end)
            },
            Item::Error(span) => *span,
        }
    }
}

impl Pattern {
    /// The span of source code that the pattern originated from.
    pub open spec fn span_spec(&self) -> Span
        decreases *self,
    {
        match self {
            Pattern::Parens(span, _) => *span,
            Pattern::Name(span, _, _) => *span,
            Pattern::Error(span) => *span,
            Pattern::Ann(pattern, ty) => Span {
                start: pattern.span_spec().start,
                end: ty.span_spec().end,
            },
            Pattern::Literal(literal) => literal.span_spec(),
        }
    }

    /// Return the span of source code that this pattern originated from.
    pub fn span(&self) -> (r: Span)
        ensures
            r == self.span_spec(),
        decreases *self,
    {
        match self {
            Pattern::Parens(span, _) => *span,
            Pattern::Name(span, _, _) => *span,
            Pattern::Error(span) => *span,
            Pattern::Ann(pattern, ty) => pattern.span().to(ty.span()),
            Pattern::Literal(literal) => literal.span(),
        }
    }
}

} // verus!
