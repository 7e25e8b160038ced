//! The bidirectional elaborator.
//!
//! [`infer`] synthesizes a core term and its type value from a raw term;
//! [`check`] verifies a raw term against an expected type value and
//! produces the core term. `check` recurses structurally for the shapes
//! that are directed by their expected type — unannotated function
//! introductions, holes, literals, array and record introductions, case
//! expressions and `let` blocks — and otherwise delegates to `infer`
//! followed by a definitional equality test.
//!
//! Elaboration is structural recursion over the raw term, but both
//! functions also consume one unit of fuel per step, as an explicit guard
//! against stack exhaustion on pathologically nested input; running out
//! is reported as [`TypeError::DepthLimitExceeded`], a resource error.
//! The same fuel is handed to the normalizer for the definitional
//! equality checks and type-level computation.
//!
//! Universes follow the rule that `Type^n` inhabits `Type^(n+1)`, a
//! dependent function type lands in the maximum of its parts' levels,
//! and definitional equality compares levels exactly.

use vstd::prelude::*;

use crate::builtins::Prelude;
use crate::concrete;
use crate::context::Context;
use crate::core_syntax::{FloatType, IntType};
use crate::core_syntax::Literal as CoreLiteral;
use crate::core_syntax::Pattern as CorePattern;
use crate::core_syntax::Term as CoreTerm;
use crate::domain::{env_lookup, env_lookup_spec, Env, NVar, Neutral, Value};
use crate::errors::{InternalError, NbeError, TypeError};
use crate::normalize::{
    eval,
    instantiate,
    quote,
    spec_eval,
    spec_instantiate,
    spec_local,
    spec_quote,
    spec_values_equal,
    values_equal,
};
use crate::raw;
use crate::span::Span;
use crate::var::Var;

verus! {

/// The local scope of an elaboration call: the types of the bound
/// variables in scope (`tys`, innermost first, indexed by de Bruijn
/// index), the values the normalizer sees for them (`vals`: the fresh
/// local neutral for an ordinary binder, the definition for a `let`
/// binder), and the binder depth, which equals the length of both lists.
/// Extension returns a new scope and leaves the old one untouched, so
/// each case branch and nested scope works on its own extension.
pub struct Scope {
    pub tys: Env,
    pub vals: Env,
    pub depth: u32,
}

impl Clone for Scope {
    fn clone(&self) -> (r: Self)
        ensures
            r == *self,
    {
        Scope { tys: self.tys.clone(), vals: self.vals.clone(), depth: self.depth }
    }
}

impl Scope {
    /// The empty scope.
    pub fn new() -> (r: Scope)
        ensures
            r == (Scope { tys: Env::Nil, vals: Env::Nil, depth: 0u32 }),
    {
        Scope { tys: Env::Nil, vals: Env::Nil, depth: 0 }
    }

    /// The scope under one more binder of type `ty` whose variable the
    /// normalizer sees as `val`.
    pub open spec fn extend_spec(&self, ty: Value, val: Value) -> Scope {
        Scope {
            tys: Env::Cons(Box::new(ty), Box::new(self.tys)),
            vals: Env::Cons(Box::new(val), Box::new(self.vals)),
            depth: (self.depth + 1) as u32,
        }
    }

    /// Enter one more binder. See [`Scope::extend_spec`].
    pub fn extend(&self, ty: Value, val: Value) -> (r: Scope)
        requires
            self.depth < u32::MAX,
        ensures
            r == self.extend_spec(ty, val),
    {
        Scope {
            tys: Env::Cons(Box::new(ty), Box::new(self.tys.clone())),
            vals: Env::Cons(Box::new(val), Box::new(self.vals.clone())),
            depth: self.depth + 1,
        }
    }
}

/// Turn a normalizer failure into a type error anchored at `span`: the
/// depth limit is a resource error of its own; everything else marks a
/// bug.
pub open spec fn spec_nbe_error(e: NbeError, span: Span) -> TypeError {
    match e {
        NbeError::DepthLimit => TypeError::DepthLimitExceeded { span },
        _ => TypeError::Internal(InternalError::Nbe(e)),
    }
}

/// See [`spec_nbe_error`].
pub fn nbe_error(e: NbeError, span: Span) -> (r: TypeError)
    ensures
        r == spec_nbe_error(e, span),
{
    match e {
        NbeError::DepthLimit => TypeError::DepthLimitExceeded { span },
        _ => TypeError::Internal(InternalError::Nbe(e)),
    }
}

/// The integer type a neutral built-in stands for, if any.
pub open spec fn spec_int_type_of(id: u64, prelude: &Prelude) -> Option<IntType> {
    if id == prelude.u8_var.id {
        Some(IntType::U8)
    } else if id == prelude.u16_var.id {
        Some(IntType::U16)
    } else if id == prelude.u32_var.id {
        Some(IntType::U32)
    } else if id == prelude.u64_var.id {
        Some(IntType::U64)
    } else if id == prelude.s8_var.id {
        Some(IntType::S8)
    } else if id == prelude.s16_var.id {
        Some(IntType::S16)
    } else if id == prelude.s32_var.id {
        Some(IntType::S32)
    } else if id == prelude.s64_var.id {
        Some(IntType::S64)
    } else {
        None
    }
}

/// See [`spec_int_type_of`].
pub fn int_type_of(id: u64, prelude: &Prelude) -> (r: Option<IntType>)
    ensures
        r == spec_int_type_of(id, prelude),
{
    if id == prelude.u8_var.id {
        Some(IntType::U8)
    } else if id == prelude.u16_var.id {
        Some(IntType::U16)
    } else if id == prelude.u32_var.id {
        Some(IntType::U32)
    } else if id == prelude.u64_var.id {
        Some(IntType::U64)
    } else if id == prelude.s8_var.id {
        Some(IntType::S8)
    } else if id == prelude.s16_var.id {
        Some(IntType::S16)
    } else if id == prelude.s32_var.id {
        Some(IntType::S32)
    } else if id == prelude.s64_var.id {
        Some(IntType::S64)
    } else {
        None
    }
}

/// The identity of the free variable an expected type is stuck on, if it
/// is a bare neutral variable.
pub open spec fn spec_neutral_head_id(expected: &Value) -> Option<u64> {
    match expected {
        Value::Neutral(n) => match &**n {
            Neutral::Var(NVar::Free(f)) => Some(f.id),
            _ => None,
        },
        _ => None,
    }
}

/// See [`spec_neutral_head_id`].
pub fn neutral_head_id(expected: &Value) -> (r: Option<u64>)
    ensures
        r == spec_neutral_head_id(expected),
{
    match expected {
        Value::Neutral(n) => match &**n {
            Neutral::Var(NVar::Free(f)) => Some(f.id),
            _ => None,
        },
        _ => None,
    }
}

/// Give a literal the type an expected value demands, or explain why it
/// cannot have it. A literal fits only a type that is the neutral
/// occurrence of the matching built-in: a string literal fits `String`,
/// a character literal `Char`, an integer literal any of the integer
/// types, a floating point literal `F32` or `F64`. Anything else is a
/// [`TypeError::LiteralMismatch`] naming the literal's surface kind and
/// carrying the expected type, quoted.
pub open spec fn spec_check_literal(
    literal: &concrete::Literal,
    expected: &Value,
    depth: u32,
    ctx: &Context,
    prelude: &Prelude,
    fuel: u64,
) -> Result<CoreLiteral, TypeError> {
    let mismatch = match spec_quote(expected, depth, ctx, fuel) {
        Ok(t) => Err(
            TypeError::LiteralMismatch {
                literal_span: literal.span_spec(),
                found: *literal,
                expected: Box::new(t),
            },
        ),
        Err(e) => Err(spec_nbe_error(e, literal.span_spec())),
    };
    match spec_neutral_head_id(expected) {
        Option::None => mismatch,
        Option::Some(id) => match literal {
            concrete::Literal::String(_, s) => if id == prelude.string_var.id {
                Ok(CoreLiteral::Str(*s))
            } else {
                mismatch
            },
            concrete::Literal::Char(_, c) => if id == prelude.char_var.id {
                Ok(CoreLiteral::Char(*c))
            } else {
                mismatch
            },
            concrete::Literal::Int(_, value, format) => match spec_int_type_of(id, prelude) {
                Option::Some(int_type) => Ok(CoreLiteral::Int(*value, *format, int_type)),
                Option::None => mismatch,
            },
            concrete::Literal::Float(_, value, format) => if id == prelude.f32_var.id {
                Ok(CoreLiteral::Float(*value, *format, FloatType::F32))
            } else if id == prelude.f64_var.id {
                Ok(CoreLiteral::Float(*value, *format, FloatType::F64))
            } else {
                mismatch
            },
        },
    }
}

/// Check a literal against an expected type. See [`spec_check_literal`].
pub fn check_literal(
    literal: &concrete::Literal,
    expected: &Value,
    depth: u32,
    ctx: &Context,
    prelude: &Prelude,
    fuel: u64,
) -> (r: Result<CoreLiteral, TypeError>)
    ensures
        r == spec_check_literal(literal, expected, depth, ctx, prelude, fuel),
{
    let head = neutral_head_id(expected);
    let fits = match (&head, literal) {
        (Option::Some(id), concrete::Literal::String(_, _)) => *id == prelude.string_var.id,
        (Option::Some(id), concrete::Literal::Char(_, _)) => *id == prelude.char_var.id,
        (Option::Some(id), concrete::Literal::Int(_, _, _)) => int_type_of(
            *id,
            prelude,
        ).is_some(),
        (Option::Some(id), concrete::Literal::Float(_, _, _)) => *id == prelude.f32_var.id || *id
            == prelude.f64_var.id,
        (Option::None, _) => false,
    };
    if !fits {
        match quote(expected, depth, ctx, fuel) {
            Ok(t) => Err(
                TypeError::LiteralMismatch {
                    literal_span: literal.span(),
                    found: literal.clone(),
                    expected: Box::new(t),
                },
            ),
            Err(e) => Err(nbe_error(e, literal.span())),
        }
    } else {
        match literal {
            concrete::Literal::String(_, s) => Ok(CoreLiteral::Str(s.clone())),
            concrete::Literal::Char(_, c) => Ok(CoreLiteral::Char(*c)),
            concrete::Literal::Int(_, value, format) => {
                let int_type = int_type_of(head.unwrap(), prelude).unwrap();
                Ok(CoreLiteral::Int(*value, *format, int_type))
            },
            concrete::Literal::Float(_, value, format) => if head.unwrap() == prelude.f32_var.id {
                Ok(CoreLiteral::Float(*value, *format, FloatType::F32))
            } else {
                Ok(CoreLiteral::Float(*value, *format, FloatType::F64))
            },
        }
    }
}

/// The length and element type of an expected array type, when the
/// expected value is the neutral application `Array len elem` of the
/// built-in array type constructor to a literal length.
pub open spec fn spec_array_shape(expected: &Value, prelude: &Prelude) -> Option<(u64, Value)> {
    match expected {
        Value::Neutral(n) => match &**n {
            Neutral::App(inner, elem) => match &**inner {
                Neutral::App(head, len) => match &**head {
                    Neutral::Var(NVar::Free(f)) => if f.id == prelude.array_var.id {
                        match &**len {
                            Value::Literal(CoreLiteral::Int(length, _, _)) => Some(
                                (*length, **elem),
                            ),
                            _ => None,
                        }
                    } else {
                        None
                    },
                    _ => None,
                },
                _ => None,
            },
            _ => None,
        },
        _ => None,
    }
}

/// See [`spec_array_shape`].
pub fn array_shape(expected: &Value, prelude: &Prelude) -> (r: Option<(u64, Value)>)
    ensures
        r == spec_array_shape(expected, prelude),
{
    match expected {
        Value::Neutral(n) => match &**n {
            Neutral::App(inner, elem) => match &**inner {
                Neutral::App(head, len) => match &**head {
                    Neutral::Var(NVar::Free(f)) => if f.id == prelude.array_var.id {
                        match &**len {
                            Value::Literal(CoreLiteral::Int(length, _, _)) => Some(
                                (*length, (**elem).clone()),
                            ),
                            _ => None,
                        }
                    } else {
                        None
                    },
                    _ => None,
                },
                _ => None,
            },
            _ => None,
        },
        _ => None,
    }
}

/// The number of elements of an array literal, saturating at the machine
/// limit.
pub open spec fn spec_term_list_len(list: &raw::TermList) -> u64
    decreases *list,
{
    match list {
        raw::TermList::Nil => 0,
        raw::TermList::Cons(_, rest) => {
            let n = spec_term_list_len(rest);
            if n == u64::MAX {
                u64::MAX
            } else {
                (n + 1) as u64
            }
        },
    }
}

/// See [`spec_term_list_len`].
pub fn term_list_len(list: &raw::TermList) -> (r: u64)
    ensures
        r == spec_term_list_len(list),
    decreases *list,
{
    match list {
        raw::TermList::Nil => 0,
        raw::TermList::Cons(_, rest) => {
            let n = term_list_len(rest);
            if n == u64::MAX {
                u64::MAX
            } else {
                n + 1
            }
        },
    }
}

/// The number of fields of a record introduction, saturating at the
/// machine limit.
pub open spec fn spec_intro_fields_len(fields: &raw::IntroFieldList) -> u64
    decreases *fields,
{
    match fields {
        raw::IntroFieldList::Nil => 0,
        raw::IntroFieldList::Cons(_, _, _, rest) => {
            let n = spec_intro_fields_len(rest);
            if n == u64::MAX {
                u64::MAX
            } else {
                (n + 1) as u64
            }
        },
    }
}

/// See [`spec_intro_fields_len`].
pub fn intro_fields_len(fields: &raw::IntroFieldList) -> (r: u64)
    ensures
        r == spec_intro_fields_len(fields),
    decreases *fields,
{
    match fields {
        raw::IntroFieldList::Nil => 0,
        raw::IntroFieldList::Cons(_, _, _, rest) => {
            let n = intro_fields_len(rest);
            if n == u64::MAX {
                u64::MAX
            } else {
                n + 1
            }
        },
    }
}

/// The number of fields of a record type telescope, walked by
/// instantiating each tail with a fresh local; at most `fuel`.
pub open spec fn spec_telescope_len(v: &Value, depth: u32, ctx: &Context, fuel: u64) -> Result<
    u64,
    NbeError,
>
    decreases fuel,
{
    match v {
        Value::RecordTypeNil => Ok(0u64),
        Value::RecordTypeCons(label, _, closure) => if fuel == 0 || depth == u32::MAX {
            Err(NbeError::DepthLimit)
        } else {
            match spec_instantiate(closure, &spec_local(depth, label.0), ctx, fuel) {
                Ok(rest) => match spec_telescope_len(
                    &rest,
                    (depth + 1) as u32,
                    ctx,
                    (fuel - 1) as u64,
                ) {
                    Ok(n) => Ok((n + 1) as u64),
                    Err(e) => Err(e),
                },
                Err(e) => Err(e),
            }
        },
        _ => Err(NbeError::NotARecordType),
    }
}

/// A saturating count sum.
pub open spec fn spec_sat_add(a: u64, b: u64) -> u64 {
    if a + b > u64::MAX {
        u64::MAX
    } else {
        (a + b) as u64
    }
}

/// See [`spec_sat_add`].
pub fn sat_add(a: u64, b: u64) -> (r: u64)
    ensures
        r == spec_sat_add(a, b),
{
    if a > u64::MAX - b {
        u64::MAX
    } else {
        a + b
    }
}

/// The names a `let` block has declared or defined so far, newest first:
/// a declaration carries its span and elaborated type, a definition its
/// span.
pub enum ItemLog {
    Nil,
    Decl(String, Span, Box<Value>, Box<ItemLog>),
    Def(String, Span, Box<ItemLog>),
}

impl Clone for ItemLog {
    fn clone(&self) -> (r: Self)
        ensures
            r == *self,
        decreases *self,
    {
        match self {
            ItemLog::Nil => ItemLog::Nil,
            ItemLog::Decl(name, span, ty, rest) => ItemLog::Decl(
                name.clone(),
                *span,
                Box::new((**ty).clone()),
                Box::new((**rest).clone()),
            ),
            ItemLog::Def(name, span, rest) => ItemLog::Def(
                name.clone(),
                *span,
                Box::new((**rest).clone()),
            ),
        }
    }
}

/// The span and type of the declaration of `name`, if one was seen.
pub open spec fn spec_log_find_decl(log: &ItemLog, name: Seq<char>) -> Option<(Span, Value)>
    decreases *log,
{
    match log {
        ItemLog::Nil => None,
        ItemLog::Decl(n, span, ty, rest) => if n@ == name {
            Some((*span, **ty))
        } else {
            spec_log_find_decl(rest, name)
        },
        ItemLog::Def(_, _, rest) => spec_log_find_decl(rest, name),
    }
}

/// See [`spec_log_find_decl`].
pub fn log_find_decl(log: &ItemLog, name: &String) -> (r: Option<(Span, Value)>)
    ensures
        r == spec_log_find_decl(log, name@),
    decreases *log,
{
    match log {
        ItemLog::Nil => None,
        ItemLog::Decl(n, span, ty, rest) => if String::eq(n, name) {
            Some((*span, (**ty).clone()))
        } else {
            log_find_decl(rest, name)
        },
        ItemLog::Def(_, _, rest) => log_find_decl(rest, name),
    }
}

/// The span of the definition of `name`, if one was seen.
pub open spec fn spec_log_find_def(log: &ItemLog, name: Seq<char>) -> Option<Span>
    decreases *log,
{
    match log {
        ItemLog::Nil => None,
        ItemLog::Def(n, span, rest) => if n@ == name {
            Some(*span)
        } else {
            spec_log_find_def(rest, name)
        },
        ItemLog::Decl(_, _, _, rest) => spec_log_find_def(rest, name),
    }
}

/// See [`spec_log_find_def`].
pub fn log_find_def(log: &ItemLog, name: &String) -> (r: Option<Span>)
    ensures
        r == spec_log_find_def(log, name@),
    decreases *log,
{
    match log {
        ItemLog::Nil => None,
        ItemLog::Def(n, span, rest) => if String::eq(n, name) {
            Some(*span)
        } else {
            log_find_def(rest, name)
        },
        ItemLog::Decl(_, _, _, rest) => log_find_def(rest, name),
    }
}

/// The mismatch error between a found and an expected type value, both
/// quoted at the given depth; a readback failure takes precedence.
pub open spec fn spec_mismatch_err(
    found: &Value,
    expected: &Value,
    span: Span,
    depth: u32,
    ctx: &Context,
    fuel: u64,
) -> TypeError {
    match spec_quote(found, depth, ctx, fuel) {
        Ok(tf) => match spec_quote(expected, depth, ctx, fuel) {
            Ok(te) => TypeError::Mismatch { span, found: Box::new(tf), expected: Box::new(te) },
            Err(e) => spec_nbe_error(e, span),
        },
        Err(e) => spec_nbe_error(e, span),
    }
}

/// See [`spec_mismatch_err`].
pub fn mismatch_err(found: &Value, expected: &Value, span: Span, depth: u32, ctx: &Context, fuel: u64) -> (r: TypeError)
    ensures
        r == spec_mismatch_err(found, expected, span, depth, ctx, fuel),
{
    match quote(found, depth, ctx, fuel) {
        Ok(tf) => match quote(expected, depth, ctx, fuel) {
            Ok(te) => TypeError::Mismatch { span, found: Box::new(tf), expected: Box::new(te) },
            Err(e) => nbe_error(e, span),
        },
        Err(e) => nbe_error(e, span),
    }
}

/// Whether a type error reports a shape that does not fit, as opposed to
/// a fault of the term itself; used to recognize a non-uniform array
/// element.
pub open spec fn spec_is_shape_mismatch(e: &TypeError) -> bool {
    match e {
        TypeError::Mismatch { .. } => true,
        TypeError::LiteralMismatch { .. } => true,
        TypeError::UnexpectedFunction { .. } => true,
        TypeError::ArrayLengthMismatch { .. } => true,
        TypeError::RecordSizeMismatch { .. } => true,
        TypeError::LabelMismatch { .. } => true,
        _ => false,
    }
}

/// See [`spec_is_shape_mismatch`].
pub fn is_shape_mismatch(e: &TypeError) -> (r: bool)
    ensures
        r == spec_is_shape_mismatch(e),
{
    match e {
        TypeError::Mismatch { .. } => true,
        TypeError::LiteralMismatch { .. } => true,
        TypeError::UnexpectedFunction { .. } => true,
        TypeError::ArrayLengthMismatch { .. } => true,
        TypeError::RecordSizeMismatch { .. } => true,
        TypeError::LabelMismatch { .. } => true,
        _ => false,
    }
}

/// See [`spec_telescope_len`].
pub fn telescope_len(v: &Value, depth: u32, ctx: &Context, fuel: u64) -> (r: Result<u64, NbeError>)
    ensures
        r == spec_telescope_len(v, depth, ctx, fuel),
        r matches Ok(n) ==> n <= fuel,
    decreases fuel,
{
    match v {
        Value::RecordTypeNil => Ok(0),
        Value::RecordTypeCons(label, _, closure) => if fuel == 0 || depth == u32::MAX {
            Err(NbeError::DepthLimit)
        } else {
            let fresh = Value::Neutral(
                Box::new(Neutral::Var(NVar::Local(depth, label.0.clone()))),
            );
            match instantiate(closure, &fresh, ctx, fuel) {
                Ok(rest) => match telescope_len(&rest, depth + 1, ctx, fuel - 1) {
                    Ok(n) => Ok(n + 1),
                    Err(e) => Err(e),
                },
                Err(e) => Err(e),
            }
        },
        _ => Err(NbeError::NotARecordType),
    }
}

/// Synthesize a core term and its type value from a raw term. Each arm
/// follows the rules in the module documentation; the cases whose type
/// cannot be synthesized — holes, integer and floating point literals,
/// unannotated function introductions, empty or non-uniform arrays,
/// empty case expressions — fail with their specific ambiguity error.
pub open spec fn spec_infer(
    term: &raw::Term,
    scope: &Scope,
    ctx: &Context,
    prelude: &Prelude,
    fuel: u64,
) -> Result<(CoreTerm, Value), TypeError>
    decreases fuel, 0int,
{
    if fuel == 0 {
        Err(TypeError::DepthLimitExceeded { span: term.span_spec() })
    } else {
        let f1 = (fuel - 1) as u64;
        match term {
            raw::Term::Ann(span, inner, ty) => match spec_check_type(ty, scope, ctx, prelude, f1) {
                Ok((cty, _)) => match spec_eval(&cty, &scope.vals, ctx, fuel) {
                    Ok(vty) => match spec_check(inner, &vty, scope, ctx, prelude, f1) {
                        Ok(cinner) => Ok((cinner, vty)),
                        Err(e) => Err(e),
                    },
                    Err(e) => Err(spec_nbe_error(e, ty.span_spec())),
                },
                Err(e) => Err(e),
            },
            raw::Term::Universe(span, level) => if *level == u32::MAX {
                Err(TypeError::DepthLimitExceeded { span: *span })
            } else {
                Ok((CoreTerm::Universe(*level), Value::Universe((*level + 1) as u32)))
            },
            raw::Term::Literal(concrete::Literal::Int(span, _, _)) => Err(
                TypeError::AmbiguousIntLiteral { span: *span },
            ),
            raw::Term::Literal(concrete::Literal::Float(span, _, _)) => Err(
                TypeError::AmbiguousFloatLiteral { span: *span },
            ),
            raw::Term::Literal(concrete::Literal::String(span, s)) => Ok(
                (
                    CoreTerm::Literal(CoreLiteral::Str(*s)),
                    Value::Neutral(Box::new(Neutral::Var(NVar::Free(prelude.string_var)))),
                ),
            ),
            raw::Term::Literal(concrete::Literal::Char(span, c)) => Ok(
                (
                    CoreTerm::Literal(CoreLiteral::Char(*c)),
                    Value::Neutral(Box::new(Neutral::Var(NVar::Free(prelude.char_var)))),
                ),
            ),
            raw::Term::Hole(span) => Err(
                TypeError::UnableToElaborateHole { span: *span, expected: Option::None },
            ),
            raw::Term::Var(span, Var::Bound(index, hint)) => match env_lookup_spec(
                &scope.tys,
                *index,
            ) {
                Option::Some(ty) => Ok((CoreTerm::Var(Var::Bound(*index, *hint)), ty)),
                Option::None => Err(
                    TypeError::Internal(
                        InternalError::UnexpectedBoundVar {
                            span: *span,
                            var: Var::Bound(*index, *hint),
                        },
                    ),
                ),
            },
            raw::Term::Var(span, Var::Free(f)) => match ctx.lookup_type_spec(f.id) {
                Option::Some(ty) => Ok((CoreTerm::Var(Var::Free(*f)), ty)),
                Option::None => Err(TypeError::UndefinedName { span: *span, free_var: *f }),
            },
            raw::Term::FunType(span, hint, ann, body) => match spec_check_type(
                ann,
                scope,
                ctx,
                prelude,
                f1,
            ) {
                Ok((cann, ann_level)) => match spec_eval(&cann, &scope.vals, ctx, fuel) {
                    Ok(vann) => if scope.depth == u32::MAX {
                        Err(TypeError::DepthLimitExceeded { span: *span })
                    } else {
                        let inner = scope.extend_spec(vann, spec_local(scope.depth, *hint));
                        match spec_check_type(body, &inner, ctx, prelude, f1) {
                            Ok((cbody, body_level)) => Ok(
                                (
                                    CoreTerm::FunType(*hint, Box::new(cann), Box::new(cbody)),
                                    Value::Universe(
                                        if ann_level > body_level {
                                            ann_level
                                        } else {
                                            body_level
                                        },
                                    ),
                                ),
                            ),
                            Err(e) => Err(e),
                        }
                    },
                    Err(e) => Err(spec_nbe_error(e, ann.span_spec())),
                },
                Err(e) => Err(e),
            },
            raw::Term::FunIntro(span, hint, Option::None, body) => Err(
                TypeError::FunctionParamNeedsAnnotation {
                    param_span: *span,
                    var_span: Option::None,
                    name: *hint,
                },
            ),
            raw::Term::FunIntro(span, hint, Option::Some(ann), body) => match spec_check_type(
                ann,
                scope,
                ctx,
                prelude,
                f1,
            ) {
                Ok((cann, _)) => match spec_eval(&cann, &scope.vals, ctx, fuel) {
                    Ok(vann) => if scope.depth == u32::MAX {
                        Err(TypeError::DepthLimitExceeded { span: *span })
                    } else {
                        let inner = scope.extend_spec(vann, spec_local(scope.depth, *hint));
                        match spec_infer(body, &inner, ctx, prelude, f1) {
                            Ok((cbody, body_ty)) => match spec_quote(
                                &body_ty,
                                inner.depth,
                                ctx,
                                fuel,
                            ) {
                                Ok(tbody) => Ok(
                                    (
                                        CoreTerm::FunIntro(*hint, Box::new(cbody)),
                                        Value::FunType(
                                            *hint,
                                            Box::new(vann),
                                            crate::domain::Closure {
                                                env: scope.vals,
                                                body: Box::new(tbody),
                                            },
                                        ),
                                    ),
                                ),
                                Err(e) => Err(spec_nbe_error(e, *span)),
                            },
                            Err(e) => Err(e),
                        }
                    },
                    Err(e) => Err(spec_nbe_error(e, ann.span_spec())),
                },
                Err(e) => Err(e),
            },
            raw::Term::FunApp(span, head, arg) => match spec_infer(head, scope, ctx, prelude, f1) {
                Ok((chead, head_ty)) => match head_ty {
                    Value::FunType(_, param_ty, ret_closure) => match spec_check(
                        arg,
                        &param_ty,
                        scope,
                        ctx,
                        prelude,
                        f1,
                    ) {
                        Ok(carg) => match spec_eval(&carg, &scope.vals, ctx, fuel) {
                            Ok(varg) => match spec_instantiate(&ret_closure, &varg, ctx, fuel) {
                                Ok(ret_ty) => Ok(
                                    (CoreTerm::FunApp(Box::new(chead), Box::new(carg)), ret_ty),
                                ),
                                Err(e) => Err(spec_nbe_error(e, *span)),
                            },
                            Err(e) => Err(spec_nbe_error(e, arg.span_spec())),
                        },
                        Err(e) => Err(e),
                    },
                    _ => match spec_quote(&head_ty, scope.depth, ctx, fuel) {
                        Ok(tfound) => Err(
                            TypeError::ArgAppliedToNonFunction {
                                fn_span: head.span_spec(),
                                arg_span: arg.span_spec(),
                                found: Box::new(tfound),
                            },
                        ),
                        Err(e) => Err(spec_nbe_error(e, head.span_spec())),
                    },
                },
                Err(e) => Err(e),
            },
            raw::Term::ArrayIntro(span, raw::TermList::Nil) => Err(
                TypeError::AmbiguousArrayLiteral { span: *span },
            ),
            raw::Term::ArrayIntro(span, raw::TermList::Cons(first, rest)) => match spec_infer(
                first,
                scope,
                ctx,
                prelude,
                f1,
            ) {
                Ok((cfirst, elem_ty)) => match spec_infer_array_rest(
                    rest,
                    &elem_ty,
                    *span,
                    scope,
                    ctx,
                    prelude,
                    f1,
                ) {
                    Ok(crest) => Ok(
                        (
                            CoreTerm::ArrayIntro(
                                crate::core_syntax::TermList::Cons(
                                    Box::new(cfirst),
                                    Box::new(crest),
                                ),
                            ),
                            Value::Neutral(
                                Box::new(
                                    Neutral::App(
                                        Box::new(
                                            Neutral::App(
                                                Box::new(
                                                    Neutral::Var(NVar::Free(prelude.array_var)),
                                                ),
                                                Box::new(
                                                    Value::Literal(
                                                        CoreLiteral::Int(
                                                            spec_term_list_len(
                                                                &raw::TermList::Cons(
                                                                    *first,
                                                                    *rest,
                                                                ),
                                                            ),
                                                            concrete::IntFormat::Dec,
                                                            IntType::U64,
                                                        ),
                                                    ),
                                                ),
                                            ),
                                        ),
                                        Box::new(elem_ty),
                                    ),
                                ),
                            ),
                        ),
                    ),
                    Err(e) => Err(e),
                },
                Err(e) => Err(e),
            },
            raw::Term::Let(span, items, body) => spec_infer_let(
                items,
                &ItemLog::Nil,
                body,
                scope,
                ctx,
                prelude,
                f1,
            ),
            raw::Term::Case(span, scrutinee, raw::ClauseList::Nil) => Err(
                TypeError::AmbiguousEmptyCase { span: *span },
            ),
            raw::Term::Case(span, scrutinee, raw::ClauseList::Cons(p0, b0, rest)) => {
                match spec_infer(scrutinee, scope, ctx, prelude, f1) {
                    Ok((cscrut, scrut_ty)) => match spec_elab_pattern(
                        p0,
                        &scrut_ty,
                        scope,
                        ctx,
                        prelude,
                        f1,
                    ) {
                        Ok((cp0, scope0)) => match spec_infer(b0, &scope0, ctx, prelude, f1) {
                            Ok((cb0, bty0)) => match spec_quote(&bty0, scope.depth, ctx, fuel) {
                                Ok(t0) => match spec_infer_clauses_rest(
                                    rest,
                                    &scrut_ty,
                                    &t0,
                                    scope,
                                    ctx,
                                    prelude,
                                    f1,
                                ) {
                                    Ok(crest) => Ok(
                                        (
                                            CoreTerm::Case(
                                                Box::new(cscrut),
                                                crate::core_syntax::ClauseList::Cons(
                                                    cp0,
                                                    Box::new(cb0),
                                                    Box::new(crest),
                                                ),
                                            ),
                                            bty0,
                                        ),
                                    ),
                                    Err(e) => Err(e),
                                },
                                Err(e) => Err(spec_nbe_error(e, b0.span_spec())),
                            },
                            Err(e) => Err(e),
                        },
                        Err(e) => Err(e),
                    },
                    Err(e) => Err(e),
                }
            },
            raw::Term::RecordType(span, fields) => match spec_infer_record_type(
                fields,
                scope,
                ctx,
                prelude,
                f1,
            ) {
                Ok((cfields, level)) => Ok(
                    (CoreTerm::RecordType(cfields), Value::Universe(level)),
                ),
                Err(e) => Err(e),
            },
            raw::Term::RecordIntro(span, fields) => match spec_infer_record_fields(
                fields,
                scope,
                ctx,
                prelude,
                f1,
            ) {
                Ok((cfields, ty_fields)) => match spec_eval(
                    &CoreTerm::RecordType(ty_fields),
                    &scope.vals,
                    ctx,
                    fuel,
                ) {
                    Ok(rty) => Ok((CoreTerm::RecordIntro(cfields), rty)),
                    Err(e) => Err(spec_nbe_error(e, *span)),
                },
                Err(e) => Err(e),
            },
            raw::Term::RecordProj(span, head, label_span, label) => match spec_infer(
                head,
                scope,
                ctx,
                prelude,
                f1,
            ) {
                Ok((chead, head_ty)) => match spec_eval(&chead, &scope.vals, ctx, fuel) {
                    Ok(vhead) => match spec_find_field_ty(
                        &head_ty,
                        &vhead,
                        label,
                        *label_span,
                        &head_ty,
                        scope.depth,
                        ctx,
                        fuel,
                    ) {
                        Ok(field_ty) => Ok(
                            (CoreTerm::RecordProj(Box::new(chead), *label), field_ty),
                        ),
                        Err(e) => Err(e),
                    },
                    Err(e) => Err(spec_nbe_error(e, head.span_spec())),
                },
                Err(e) => Err(e),
            },
        }
    }
}

/// The type of the field `label` in the record type `ty`, walking the
/// telescope and substituting each earlier field by the corresponding
/// projection from the record value `head`. `whole` is the record type
/// the walk started from, for the error.
pub open spec fn spec_find_field_ty(
    ty: &Value,
    head: &Value,
    label: &raw::Label,
    label_span: Span,
    whole: &Value,
    depth: u32,
    ctx: &Context,
    fuel: u64,
) -> Result<Value, TypeError>
    decreases fuel,
{
    let missing = match spec_quote(whole, depth, ctx, fuel) {
        Ok(t) => Err(
            TypeError::NoFieldInType {
                label_span,
                expected_label: *label,
                found: Box::new(t),
            },
        ),
        Err(e) => Err(spec_nbe_error(e, label_span)),
    };
    match ty {
        Value::RecordTypeCons(field_label, field_ty, rest_closure) => if field_label.0@
            == label.0@ {
            Ok(**field_ty)
        } else if fuel == 0 {
            Err(TypeError::DepthLimitExceeded { span: label_span })
        } else {
            match crate::normalize::spec_do_proj(head, field_label) {
                Ok(field_val) => match spec_instantiate(rest_closure, &field_val, ctx, fuel) {
                    Ok(rest_ty) => spec_find_field_ty(
                        &rest_ty,
                        head,
                        label,
                        label_span,
                        whole,
                        depth,
                        ctx,
                        (fuel - 1) as u64,
                    ),
                    Err(e) => Err(spec_nbe_error(e, label_span)),
                },
                Err(e) => Err(spec_nbe_error(e, label_span)),
            }
        },
        _ => missing,
    }
}

/// See [`spec_find_field_ty`].
pub fn find_field_ty(
    ty: &Value,
    head: &Value,
    label: &raw::Label,
    label_span: Span,
    whole: &Value,
    depth: u32,
    ctx: &Context,
    fuel: u64,
) -> (r: Result<Value, TypeError>)
    ensures
        r == spec_find_field_ty(ty, head, label, label_span, whole, depth, ctx, fuel),
    decreases fuel,
{
    match ty {
        Value::RecordTypeCons(field_label, field_ty, rest_closure) => {
            if crate::core_syntax::label_eq(field_label, label) {
                Ok((**field_ty).clone())
            } else if fuel == 0 {
                Err(TypeError::DepthLimitExceeded { span: label_span })
            } else {
                match crate::normalize::do_proj(head, field_label) {
                    Ok(field_val) => match instantiate(rest_closure, &field_val, ctx, fuel) {
                        Ok(rest_ty) => find_field_ty(
                            &rest_ty,
                            head,
                            label,
                            label_span,
                            whole,
                            depth,
                            ctx,
                            fuel - 1,
                        ),
                        Err(e) => Err(nbe_error(e, label_span)),
                    },
                    Err(e) => Err(nbe_error(e, label_span)),
                }
            }
        },
        _ => match quote(whole, depth, ctx, fuel) {
            Ok(t) => Err(
                TypeError::NoFieldInType {
                    label_span,
                    expected_label: label.clone(),
                    found: Box::new(t),
                },
            ),
            Err(e) => Err(nbe_error(e, label_span)),
        },
    }
}

/// Check the remaining elements of an inferred array against the first
/// element's type; an element of another shape makes the literal
/// ambiguous.
pub open spec fn spec_infer_array_rest(
    elems: &raw::TermList,
    elem_ty: &Value,
    array_span: Span,
    scope: &Scope,
    ctx: &Context,
    prelude: &Prelude,
    fuel: u64,
) -> Result<crate::core_syntax::TermList, TypeError>
    decreases fuel, 0int,
{
    if fuel == 0 {
        Err(TypeError::DepthLimitExceeded { span: array_span })
    } else {
        let f1 = (fuel - 1) as u64;
        match elems {
            raw::TermList::Nil => Ok(crate::core_syntax::TermList::Nil),
            raw::TermList::Cons(t, rest) => match spec_check(t, elem_ty, scope, ctx, prelude, f1) {
                Ok(ct) => match spec_infer_array_rest(
                    rest,
                    elem_ty,
                    array_span,
                    scope,
                    ctx,
                    prelude,
                    f1,
                ) {
                    Ok(crest) => Ok(
                        crate::core_syntax::TermList::Cons(Box::new(ct), Box::new(crest)),
                    ),
                    Err(e) => Err(e),
                },
                Err(e) => if spec_is_shape_mismatch(&e) {
                    Err(TypeError::AmbiguousArrayLiteral { span: array_span })
                } else {
                    Err(e)
                },
            },
        }
    }
}

/// See [`spec_infer_array_rest`].
pub fn infer_array_rest(
    elems: &raw::TermList,
    elem_ty: &Value,
    array_span: Span,
    scope: &Scope,
    ctx: &Context,
    prelude: &Prelude,
    fuel: u64,
) -> (r: Result<crate::core_syntax::TermList, TypeError>)
    ensures
        r == spec_infer_array_rest(elems, elem_ty, array_span, scope, ctx, prelude, fuel),
    decreases fuel, 0int,
{
    if fuel == 0 {
        Err(TypeError::DepthLimitExceeded { span: array_span })
    } else {
        match elems {
            raw::TermList::Nil => Ok(crate::core_syntax::TermList::Nil),
            raw::TermList::Cons(t, rest) => match check(t, elem_ty, scope, ctx, prelude, fuel - 1) {
                Ok(ct) => match infer_array_rest(
                    rest,
                    elem_ty,
                    array_span,
                    scope,
                    ctx,
                    prelude,
                    fuel - 1,
                ) {
                    Ok(crest) => Ok(
                        crate::core_syntax::TermList::Cons(Box::new(ct), Box::new(crest)),
                    ),
                    Err(e) => Err(e),
                },
                Err(e) => if is_shape_mismatch(&e) {
                    Err(TypeError::AmbiguousArrayLiteral { span: array_span })
                } else {
                    Err(e)
                },
            },
        }
    }
}

/// Elaborate a record type as a telescope: each field's annotation is a
/// type, elaborated under binders for all the earlier fields; the whole
/// record type lands in the maximum of the fields' levels.
pub open spec fn spec_infer_record_type(
    fields: &raw::TypeFieldList,
    scope: &Scope,
    ctx: &Context,
    prelude: &Prelude,
    fuel: u64,
) -> Result<(crate::core_syntax::FieldList, u32), TypeError>
    decreases fuel, 0int,
{
    match fields {
        raw::TypeFieldList::Nil => Ok((crate::core_syntax::FieldList::Nil, 0u32)),
        raw::TypeFieldList::Cons(label, binder_hint, ann, rest) => if fuel == 0 {
            Err(TypeError::DepthLimitExceeded { span: ann.span_spec() })
        } else {
            let f1 = (fuel - 1) as u64;
            match spec_check_type(ann, scope, ctx, prelude, f1) {
                Ok((cann, ann_level)) => match spec_eval(&cann, &scope.vals, ctx, fuel) {
                    Ok(vann) => if scope.depth == u32::MAX {
                        Err(TypeError::DepthLimitExceeded { span: ann.span_spec() })
                    } else {
                        let inner = scope.extend_spec(
                            vann,
                            spec_local(scope.depth, *binder_hint),
                        );
                        match spec_infer_record_type(rest, &inner, ctx, prelude, f1) {
                            Ok((crest, rest_level)) => Ok(
                                (
                                    crate::core_syntax::FieldList::Cons(
                                        *label,
                                        Box::new(cann),
                                        Box::new(crest),
                                    ),
                                    if ann_level > rest_level {
                                        ann_level
                                    } else {
                                        rest_level
                                    },
                                ),
                            ),
                            Err(e) => Err(e),
                        }
                    },
                    Err(e) => Err(spec_nbe_error(e, ann.span_spec())),
                },
                Err(e) => Err(e),
            }
        },
    }
}

/// Infer a record introduction's fields, which is possible only when
/// every field describes itself. The result carries the fields' core
/// terms and the core telescope of their types, each type quoted under
/// the binders of the earlier fields.
pub open spec fn spec_infer_record_fields(
    fields: &raw::IntroFieldList,
    scope: &Scope,
    ctx: &Context,
    prelude: &Prelude,
    fuel: u64,
) -> Result<(crate::core_syntax::FieldList, crate::core_syntax::FieldList), TypeError>
    decreases fuel, 0int,
{
    match fields {
        raw::IntroFieldList::Nil => Ok(
            (crate::core_syntax::FieldList::Nil, crate::core_syntax::FieldList::Nil),
        ),
        raw::IntroFieldList::Cons(label_span, label, t, rest) => if fuel == 0 || scope.depth
            == u32::MAX {
            Err(TypeError::DepthLimitExceeded { span: *label_span })
        } else {
            let f1 = (fuel - 1) as u64;
            match spec_infer(t, scope, ctx, prelude, f1) {
                Ok((ct, field_ty)) => match spec_quote(&field_ty, scope.depth, ctx, fuel) {
                    Ok(tq) => match spec_eval(&ct, &scope.vals, ctx, fuel) {
                        Ok(field_val) => {
                            let inner = scope.extend_spec(field_ty, field_val);
                            match spec_infer_record_fields(rest, &inner, ctx, prelude, f1) {
                                Ok((crest, ty_rest)) => Ok(
                                    (
                                        crate::core_syntax::FieldList::Cons(
                                            *label,
                                            Box::new(ct),
                                            Box::new(crest),
                                        ),
                                        crate::core_syntax::FieldList::Cons(
                                            *label,
                                            Box::new(tq),
                                            Box::new(ty_rest),
                                        ),
                                    ),
                                ),
                                Err(e) => Err(e),
                            }
                        },
                        Err(e) => Err(spec_nbe_error(e, t.span_spec())),
                    },
                    Err(e) => Err(spec_nbe_error(e, t.span_spec())),
                },
                Err(e) => Err(e),
            }
        },
    }
}

/// See [`spec_infer_record_fields`].
pub fn infer_record_fields(
    fields: &raw::IntroFieldList,
    scope: &Scope,
    ctx: &Context,
    prelude: &Prelude,
    fuel: u64,
) -> (r: Result<(crate::core_syntax::FieldList, crate::core_syntax::FieldList), TypeError>)
    ensures
        r == spec_infer_record_fields(fields, scope, ctx, prelude, fuel),
    decreases fuel, 0int,
{
    match fields {
        raw::IntroFieldList::Nil => Ok(
            (crate::core_syntax::FieldList::Nil, crate::core_syntax::FieldList::Nil),
        ),
        raw::IntroFieldList::Cons(label_span, label, t, rest) => if fuel == 0 || scope.depth
            == u32::MAX {
            Err(TypeError::DepthLimitExceeded { span: *label_span })
        } else {
            match infer(t, scope, ctx, prelude, fuel - 1) {
                Ok((ct, field_ty)) => match quote(&field_ty, scope.depth, ctx, fuel) {
                    Ok(tq) => match eval(&ct, &scope.vals, ctx, fuel) {
                        Ok(field_val) => {
                            let inner = scope.extend(field_ty, field_val);
                            match infer_record_fields(rest, &inner, ctx, prelude, fuel - 1) {
                                Ok((crest, ty_rest)) => Ok(
                                    (
                                        crate::core_syntax::FieldList::Cons(
                                            label.clone(),
                                            Box::new(ct),
                                            Box::new(crest),
                                        ),
                                        crate::core_syntax::FieldList::Cons(
                                            label.clone(),
                                            Box::new(tq),
                                            Box::new(ty_rest),
                                        ),
                                    ),
                                ),
                                Err(e) => Err(e),
                            }
                        },
                        Err(e) => Err(nbe_error(e, t.span())),
                    },
                    Err(e) => Err(nbe_error(e, t.span())),
                },
                Err(e) => Err(e),
            }
        },
    }
}

/// Check a record introduction's fields against an expected telescope,
/// in order: the label at each position must match exactly, the field is
/// checked against the expected annotation, and its value is substituted
/// into the rest of the telescope. A count mismatch reports the full
/// sizes of both records.
pub open spec fn spec_check_record_fields(
    fields: &raw::IntroFieldList,
    expected: &Value,
    record_span: Span,
    seen: u64,
    scope: &Scope,
    ctx: &Context,
    prelude: &Prelude,
    fuel: u64,
) -> Result<crate::core_syntax::FieldList, TypeError>
    decreases fuel, 0int,
{
    if fuel == 0 {
        Err(TypeError::DepthLimitExceeded { span: record_span })
    } else {
        let f1 = (fuel - 1) as u64;
        match (fields, expected) {
            (raw::IntroFieldList::Nil, Value::RecordTypeNil) => Ok(
                crate::core_syntax::FieldList::Nil,
            ),
            (
                raw::IntroFieldList::Cons(label_span, label, t, rest),
                Value::RecordTypeCons(expected_label, expected_ty, rest_closure),
            ) => if label.0@ != expected_label.0@ {
                Err(
                    TypeError::LabelMismatch {
                        span: *label_span,
                        found: *label,
                        expected: *expected_label,
                    },
                )
            } else {
                match spec_check(t, expected_ty, scope, ctx, prelude, f1) {
                    Ok(ct) => match spec_eval(&ct, &scope.vals, ctx, fuel) {
                        Ok(field_val) => match spec_instantiate(
                            rest_closure,
                            &field_val,
                            ctx,
                            fuel,
                        ) {
                            Ok(rest_expected) => match spec_check_record_fields(
                                rest,
                                &rest_expected,
                                record_span,
                                spec_sat_add(seen, 1),
                                scope,
                                ctx,
                                prelude,
                                f1,
                            ) {
                                Ok(crest) => Ok(
                                    crate::core_syntax::FieldList::Cons(
                                        *label,
                                        Box::new(ct),
                                        Box::new(crest),
                                    ),
                                ),
                                Err(e) => Err(e),
                            },
                            Err(e) => Err(spec_nbe_error(e, t.span_spec())),
                        },
                        Err(e) => Err(spec_nbe_error(e, t.span_spec())),
                    },
                    Err(e) => Err(e),
                }
            },
            (remaining, tele) => match spec_telescope_len(tele, scope.depth, ctx, fuel) {
                Ok(expected_rest) => Err(
                    TypeError::RecordSizeMismatch {
                        span: record_span,
                        found_size: spec_sat_add(seen, spec_intro_fields_len(remaining)),
                        expected_size: spec_sat_add(seen, expected_rest),
                    },
                ),
                Err(e) => Err(spec_nbe_error(e, record_span)),
            },
        }
    }
}

/// See [`spec_check_record_fields`].
pub fn check_record_fields(
    fields: &raw::IntroFieldList,
    expected: &Value,
    record_span: Span,
    seen: u64,
    scope: &Scope,
    ctx: &Context,
    prelude: &Prelude,
    fuel: u64,
) -> (r: Result<crate::core_syntax::FieldList, TypeError>)
    ensures
        r == spec_check_record_fields(
            fields,
            expected,
            record_span,
            seen,
            scope,
            ctx,
            prelude,
            fuel,
        ),
    decreases fuel, 0int,
{
    if fuel == 0 {
        Err(TypeError::DepthLimitExceeded { span: record_span })
    } else {
        match (fields, expected) {
            (raw::IntroFieldList::Nil, Value::RecordTypeNil) => Ok(
                crate::core_syntax::FieldList::Nil,
            ),
            (
                raw::IntroFieldList::Cons(label_span, label, t, rest),
                Value::RecordTypeCons(expected_label, expected_ty, rest_closure),
            ) => if !crate::core_syntax::label_eq(label, expected_label) {
                Err(
                    TypeError::LabelMismatch {
                        span: *label_span,
                        found: label.clone(),
                        expected: expected_label.clone(),
                    },
                )
            } else {
                match check(t, expected_ty, scope, ctx, prelude, fuel - 1) {
                    Ok(ct) => match eval(&ct, &scope.vals, ctx, fuel) {
                        Ok(field_val) => match instantiate(rest_closure, &field_val, ctx, fuel) {
                            Ok(rest_expected) => match check_record_fields(
                                rest,
                                &rest_expected,
                                record_span,
                                sat_add(seen, 1),
                                scope,
                                ctx,
                                prelude,
                                fuel - 1,
                            ) {
                                Ok(crest) => Ok(
                                    crate::core_syntax::FieldList::Cons(
                                        label.clone(),
                                        Box::new(ct),
                                        Box::new(crest),
                                    ),
                                ),
                                Err(e) => Err(e),
                            },
                            Err(e) => Err(nbe_error(e, t.span())),
                        },
                        Err(e) => Err(nbe_error(e, t.span())),
                    },
                    Err(e) => Err(e),
                }
            },
            (remaining, tele) => match telescope_len(tele, scope.depth, ctx, fuel) {
                Ok(expected_rest) => Err(
                    TypeError::RecordSizeMismatch {
                        span: record_span,
                        found_size: sat_add(seen, intro_fields_len(remaining)),
                        expected_size: sat_add(seen, expected_rest),
                    },
                ),
                Err(e) => Err(nbe_error(e, record_span)),
            },
        }
    }
}

/// Elaborate a pattern against the scrutinee's type. A binder pattern
/// extends the scope with a fresh local of that type; a literal pattern
/// is checked against it; a constant pattern's own type must be
/// definitionally equal to it; an annotated pattern's annotation must be
/// definitionally equal to it. The returned scope is the branch-local
/// extension for the clause body.
pub open spec fn spec_elab_pattern(
    pattern: &raw::Pattern,
    expected: &Value,
    scope: &Scope,
    ctx: &Context,
    prelude: &Prelude,
    fuel: u64,
) -> Result<(CorePattern, Scope), TypeError>
    decreases fuel, 0int,
{
    if fuel == 0 {
        Err(TypeError::DepthLimitExceeded { span: pattern.span_spec() })
    } else {
        let f1 = (fuel - 1) as u64;
        match pattern {
            raw::Pattern::Binder(span, hint) => if scope.depth == u32::MAX {
                Err(TypeError::DepthLimitExceeded { span: *span })
            } else {
                Ok(
                    (
                        CorePattern::Binder(*hint),
                        scope.extend_spec(*expected, spec_local(scope.depth, *hint)),
                    ),
                )
            },
            raw::Pattern::Literal(literal) => match spec_check_literal(
                literal,
                expected,
                scope.depth,
                ctx,
                prelude,
                fuel,
            ) {
                Ok(cl) => Ok((CorePattern::Literal(cl), *scope)),
                Err(e) => Err(e),
            },
            raw::Pattern::Var(span, var) => {
                let ty_found = match var {
                    Var::Bound(index, hint) => match env_lookup_spec(&scope.tys, *index) {
                        Option::Some(ty) => Ok(ty),
                        Option::None => Err(
                            TypeError::Internal(
                                InternalError::UnexpectedBoundVar {
                                    span: *span,
                                    var: Var::Bound(*index, *hint),
                                },
                            ),
                        ),
                    },
                    Var::Free(f) => match ctx.lookup_type_spec(f.id) {
                        Option::Some(ty) => Ok(ty),
                        Option::None => Err(
                            TypeError::UndefinedName { span: *span, free_var: *f },
                        ),
                    },
                };
                match ty_found {
                    Ok(vty) => match spec_values_equal(&vty, expected, scope.depth, ctx, fuel) {
                        Ok(true) => Ok((CorePattern::Var(*var), *scope)),
                        Ok(false) => Err(
                            spec_mismatch_err(&vty, expected, *span, scope.depth, ctx, fuel),
                        ),
                        Err(e) => Err(spec_nbe_error(e, *span)),
                    },
                    Err(e) => Err(e),
                }
            },
            raw::Pattern::Ann(inner, ty) => match spec_check_type(ty, scope, ctx, prelude, f1) {
                Ok((cty, _)) => match spec_eval(&cty, &scope.vals, ctx, fuel) {
                    Ok(vty) => match spec_values_equal(&vty, expected, scope.depth, ctx, fuel) {
                        Ok(true) => spec_elab_pattern(inner, expected, scope, ctx, prelude, f1),
                        Ok(false) => Err(
                            spec_mismatch_err(
                                &vty,
                                expected,
                                ty.span_spec(),
                                scope.depth,
                                ctx,
                                fuel,
                            ),
                        ),
                        Err(e) => Err(spec_nbe_error(e, ty.span_spec())),
                    },
                    Err(e) => Err(spec_nbe_error(e, ty.span_spec())),
                },
                Err(e) => Err(e),
            },
        }
    }
}

/// See [`spec_elab_pattern`].
pub fn elab_pattern(
    pattern: &raw::Pattern,
    expected: &Value,
    scope: &Scope,
    ctx: &Context,
    prelude: &Prelude,
    fuel: u64,
) -> (r: Result<(CorePattern, Scope), TypeError>)
    ensures
        r == spec_elab_pattern(pattern, expected, scope, ctx, prelude, fuel),
    decreases fuel, 0int,
{
    if fuel == 0 {
        Err(TypeError::DepthLimitExceeded { span: pattern.span() })
    } else {
        match pattern {
            raw::Pattern::Binder(span, hint) => if scope.depth == u32::MAX {
                Err(TypeError::DepthLimitExceeded { span: *span })
            } else {
                let fresh = Value::Neutral(
                    Box::new(Neutral::Var(NVar::Local(scope.depth, hint.clone()))),
                );
                Ok((CorePattern::Binder(hint.clone()), scope.extend((*expected).clone(), fresh)))
            },
            raw::Pattern::Literal(literal) => match check_literal(
                literal,
                expected,
                scope.depth,
                ctx,
                prelude,
                fuel,
            ) {
                Ok(cl) => Ok((CorePattern::Literal(cl), scope.clone())),
                Err(e) => Err(e),
            },
            raw::Pattern::Var(span, var) => {
                let ty_found = match var {
                    Var::Bound(index, hint) => match env_lookup(&scope.tys, *index) {
                        Option::Some(ty) => Ok(ty),
                        Option::None => Err(
                            TypeError::Internal(
                                InternalError::UnexpectedBoundVar {
                                    span: *span,
                                    var: Var::Bound(*index, hint.clone()),
                                },
                            ),
                        ),
                    },
                    Var::Free(f) => match ctx.lookup_type(f) {
                        Option::Some(ty) => Ok(ty),
                        Option::None => Err(
                            TypeError::UndefinedName { span: *span, free_var: f.clone() },
                        ),
                    },
                };
                match ty_found {
                    Ok(vty) => match values_equal(&vty, expected, scope.depth, ctx, fuel) {
                        Ok(true) => Ok((CorePattern::Var(var.clone()), scope.clone())),
                        Ok(false) => Err(
                            mismatch_err(&vty, expected, *span, scope.depth, ctx, fuel),
                        ),
                        Err(e) => Err(nbe_error(e, *span)),
                    },
                    Err(e) => Err(e),
                }
            },
            raw::Pattern::Ann(inner, ty) => match check_type(ty, scope, ctx, prelude, fuel - 1) {
                Ok((cty, _)) => match eval(&cty, &scope.vals, ctx, fuel) {
                    Ok(vty) => match values_equal(&vty, expected, scope.depth, ctx, fuel) {
                        Ok(true) => elab_pattern(inner, expected, scope, ctx, prelude, fuel - 1),
                        Ok(false) => Err(
                            mismatch_err(&vty, expected, ty.span(), scope.depth, ctx, fuel),
                        ),
                        Err(e) => Err(nbe_error(e, ty.span())),
                    },
                    Err(e) => Err(nbe_error(e, ty.span())),
                },
                Err(e) => Err(e),
            },
        }
    }
}

/// Elaborate the remaining clauses of an inferred case expression: each
/// pattern extends a fresh branch-local scope, each body is inferred
/// there, and its type, read back at the depth outside the case, must
/// equal the first branch's.
pub open spec fn spec_infer_clauses_rest(
    clauses: &raw::ClauseList,
    scrut_ty: &Value,
    first_ty: &CoreTerm,
    scope: &Scope,
    ctx: &Context,
    prelude: &Prelude,
    fuel: u64,
) -> Result<crate::core_syntax::ClauseList, TypeError>
    decreases fuel, 0int,
{
    match clauses {
        raw::ClauseList::Nil => Ok(crate::core_syntax::ClauseList::Nil),
        raw::ClauseList::Cons(pattern, body, rest) => if fuel == 0 {
            Err(TypeError::DepthLimitExceeded { span: body.span_spec() })
        } else {
            let f1 = (fuel - 1) as u64;
            match spec_elab_pattern(pattern, scrut_ty, scope, ctx, prelude, f1) {
                Ok((cpattern, branch_scope)) => match spec_infer(
                    body,
                    &branch_scope,
                    ctx,
                    prelude,
                    f1,
                ) {
                    Ok((cbody, bty)) => match spec_quote(&bty, scope.depth, ctx, fuel) {
                        Ok(tb) => if !crate::core_syntax::term_eq_spec(&tb, first_ty) {
                            Err(
                                TypeError::Mismatch {
                                    span: body.span_spec(),
                                    found: Box::new(tb),
                                    expected: Box::new(*first_ty),
                                },
                            )
                        } else {
                            match spec_infer_clauses_rest(
                                rest,
                                scrut_ty,
                                first_ty,
                                scope,
                                ctx,
                                prelude,
                                f1,
                            ) {
                                Ok(crest) => Ok(
                                    crate::core_syntax::ClauseList::Cons(
                                        cpattern,
                                        Box::new(cbody),
                                        Box::new(crest),
                                    ),
                                ),
                                Err(e) => Err(e),
                            }
                        },
                        Err(e) => Err(spec_nbe_error(e, body.span_spec())),
                    },
                    Err(e) => Err(e),
                },
                Err(e) => Err(e),
            }
        },
    }
}

/// See [`spec_infer_clauses_rest`].
pub fn infer_clauses_rest(
    clauses: &raw::ClauseList,
    scrut_ty: &Value,
    first_ty: &CoreTerm,
    scope: &Scope,
    ctx: &Context,
    prelude: &Prelude,
    fuel: u64,
) -> (r: Result<crate::core_syntax::ClauseList, TypeError>)
    ensures
        r == spec_infer_clauses_rest(clauses, scrut_ty, first_ty, scope, ctx, prelude, fuel),
    decreases fuel, 0int,
{
    match clauses {
        raw::ClauseList::Nil => Ok(crate::core_syntax::ClauseList::Nil),
        raw::ClauseList::Cons(pattern, body, rest) => if fuel == 0 {
            Err(TypeError::DepthLimitExceeded { span: body.span() })
        } else {
            match elab_pattern(pattern, scrut_ty, scope, ctx, prelude, fuel - 1) {
                Ok((cpattern, branch_scope)) => match infer(
                    body,
                    &branch_scope,
                    ctx,
                    prelude,
                    fuel - 1,
                ) {
                    Ok((cbody, bty)) => match quote(&bty, scope.depth, ctx, fuel) {
                        Ok(tb) => if !crate::core_syntax::term_eq(&tb, first_ty) {
                            Err(
                                TypeError::Mismatch {
                                    span: body.span(),
                                    found: Box::new(tb),
                                    expected: Box::new(first_ty.clone()),
                                },
                            )
                        } else {
                            match infer_clauses_rest(
                                rest,
                                scrut_ty,
                                first_ty,
                                scope,
                                ctx,
                                prelude,
                                fuel - 1,
                            ) {
                                Ok(crest) => Ok(
                                    crate::core_syntax::ClauseList::Cons(
                                        cpattern,
                                        Box::new(cbody),
                                        Box::new(crest),
                                    ),
                                ),
                                Err(e) => Err(e),
                            }
                        },
                        Err(e) => Err(nbe_error(e, body.span())),
                    },
                    Err(e) => Err(e),
                },
                Err(e) => Err(e),
            }
        },
    }
}

/// Elaborate the clauses of a checked case expression: each body is
/// checked against the expected type in its branch-local scope.
pub open spec fn spec_check_clauses(
    clauses: &raw::ClauseList,
    scrut_ty: &Value,
    expected: &Value,
    scope: &Scope,
    ctx: &Context,
    prelude: &Prelude,
    fuel: u64,
) -> Result<crate::core_syntax::ClauseList, TypeError>
    decreases fuel, 0int,
{
    match clauses {
        raw::ClauseList::Nil => Ok(crate::core_syntax::ClauseList::Nil),
        raw::ClauseList::Cons(pattern, body, rest) => if fuel == 0 {
            Err(TypeError::DepthLimitExceeded { span: body.span_spec() })
        } else {
            let f1 = (fuel - 1) as u64;
            match spec_elab_pattern(pattern, scrut_ty, scope, ctx, prelude, f1) {
                Ok((cpattern, branch_scope)) => match spec_check(
                    body,
                    expected,
                    &branch_scope,
                    ctx,
                    prelude,
                    f1,
                ) {
                    Ok(cbody) => match spec_check_clauses(
                        rest,
                        scrut_ty,
                        expected,
                        scope,
                        ctx,
                        prelude,
                        f1,
                    ) {
                        Ok(crest) => Ok(
                            crate::core_syntax::ClauseList::Cons(
                                cpattern,
                                Box::new(cbody),
                                Box::new(crest),
                            ),
                        ),
                        Err(e) => Err(e),
                    },
                    Err(e) => Err(e),
                },
                Err(e) => Err(e),
            }
        },
    }
}

/// See [`spec_check_clauses`].
pub fn check_clauses(
    clauses: &raw::ClauseList,
    scrut_ty: &Value,
    expected: &Value,
    scope: &Scope,
    ctx: &Context,
    prelude: &Prelude,
    fuel: u64,
) -> (r: Result<crate::core_syntax::ClauseList, TypeError>)
    ensures
        r == spec_check_clauses(clauses, scrut_ty, expected, scope, ctx, prelude, fuel),
    decreases fuel, 0int,
{
    match clauses {
        raw::ClauseList::Nil => Ok(crate::core_syntax::ClauseList::Nil),
        raw::ClauseList::Cons(pattern, body, rest) => if fuel == 0 {
            Err(TypeError::DepthLimitExceeded { span: body.span() })
        } else {
            match elab_pattern(pattern, scrut_ty, scope, ctx, prelude, fuel - 1) {
                Ok((cpattern, branch_scope)) => match check(
                    body,
                    expected,
                    &branch_scope,
                    ctx,
                    prelude,
                    fuel - 1,
                ) {
                    Ok(cbody) => match check_clauses(
                        rest,
                        scrut_ty,
                        expected,
                        scope,
                        ctx,
                        prelude,
                        fuel - 1,
                    ) {
                        Ok(crest) => Ok(
                            crate::core_syntax::ClauseList::Cons(
                                cpattern,
                                Box::new(cbody),
                                Box::new(crest),
                            ),
                        ),
                        Err(e) => Err(e),
                    },
                    Err(e) => Err(e),
                },
                Err(e) => Err(e),
            }
        },
    }
}

/// Check every element of an array literal against the element type.
pub open spec fn spec_check_array_elems(
    elems: &raw::TermList,
    elem_ty: &Value,
    scope: &Scope,
    ctx: &Context,
    prelude: &Prelude,
    fuel: u64,
) -> Result<crate::core_syntax::TermList, TypeError>
    decreases fuel, 0int,
{
    match elems {
        raw::TermList::Nil => Ok(crate::core_syntax::TermList::Nil),
        raw::TermList::Cons(t, rest) => if fuel == 0 {
            Err(TypeError::DepthLimitExceeded { span: t.span_spec() })
        } else {
            let f1 = (fuel - 1) as u64;
            match spec_check(t, elem_ty, scope, ctx, prelude, f1) {
                Ok(ct) => match spec_check_array_elems(rest, elem_ty, scope, ctx, prelude, f1) {
                    Ok(crest) => Ok(
                        crate::core_syntax::TermList::Cons(Box::new(ct), Box::new(crest)),
                    ),
                    Err(e) => Err(e),
                },
                Err(e) => Err(e),
            }
        },
    }
}

/// See [`spec_check_array_elems`].
pub fn check_array_elems(
    elems: &raw::TermList,
    elem_ty: &Value,
    scope: &Scope,
    ctx: &Context,
    prelude: &Prelude,
    fuel: u64,
) -> (r: Result<crate::core_syntax::TermList, TypeError>)
    ensures
        r == spec_check_array_elems(elems, elem_ty, scope, ctx, prelude, fuel),
    decreases fuel, 0int,
{
    match elems {
        raw::TermList::Nil => Ok(crate::core_syntax::TermList::Nil),
        raw::TermList::Cons(t, rest) => if fuel == 0 {
            Err(TypeError::DepthLimitExceeded { span: t.span() })
        } else {
            match check(t, elem_ty, scope, ctx, prelude, fuel - 1) {
                Ok(ct) => match check_array_elems(rest, elem_ty, scope, ctx, prelude, fuel - 1) {
                    Ok(crest) => Ok(
                        crate::core_syntax::TermList::Cons(Box::new(ct), Box::new(crest)),
                    ),
                    Err(e) => Err(e),
                },
                Err(e) => Err(e),
            }
        },
    }
}

/// What elaborating one `let` item produced: a declaration records its
/// type for the definition to come; a definition yields its core term
/// and binds its name over the rest of the block.
pub enum ItemOutcome {
    Declared(ItemLog),
    Defined(String, CoreTerm, Scope, ItemLog),
}

/// Elaborate one item of a `let` block, enforcing the ordering
/// invariant: for a given name at most one declaration, at most one
/// definition, and the declaration, if any, before the definition. A
/// declared name's definition is checked against the declared type; an
/// undeclared definition is inferred. A definition extends the scope for
/// everything after it.
pub open spec fn spec_elab_item(
    item: &raw::Item,
    log: &ItemLog,
    scope: &Scope,
    ctx: &Context,
    prelude: &Prelude,
    fuel: u64,
) -> Result<ItemOutcome, TypeError>
    decreases fuel, 0int,
{
    if fuel == 0 {
        Err(TypeError::DepthLimitExceeded { span: item.span_spec() })
    } else {
        let f1 = (fuel - 1) as u64;
        match item {
            raw::Item::Declaration(span, name, ann) => match spec_log_find_def(log, name@) {
                Option::Some(definition_span) => Err(
                    TypeError::DeclarationFollowedDefinition {
                        definition_span,
                        declaration_span: *span,
                        binder: *name,
                    },
                ),
                Option::None => match spec_log_find_decl(log, name@) {
                    Option::Some((original_span, _)) => Err(
                        TypeError::DuplicateDeclarations {
                            original_span,
                            duplicate_span: *span,
                            binder: *name,
                        },
                    ),
                    Option::None => match spec_check_type(ann, scope, ctx, prelude, f1) {
                        Ok((cann, _)) => match spec_eval(&cann, &scope.vals, ctx, fuel) {
                            Ok(vann) => Ok(
                                ItemOutcome::Declared(
                                    ItemLog::Decl(*name, *span, Box::new(vann), Box::new(*log)),
                                ),
                            ),
                            Err(e) => Err(spec_nbe_error(e, ann.span_spec())),
                        },
                        Err(e) => Err(e),
                    },
                },
            },
            raw::Item::Definition(span, name, def) => match spec_log_find_def(log, name@) {
                Option::Some(original_span) => Err(
                    TypeError::DuplicateDefinitions {
                        original_span,
                        duplicate_span: *span,
                        binder: *name,
                    },
                ),
                Option::None => {
                    let elaborated = match spec_log_find_decl(log, name@) {
                        Option::Some((_, declared_ty)) => match spec_check(
                            def,
                            &declared_ty,
                            scope,
                            ctx,
                            prelude,
                            f1,
                        ) {
                            Ok(cdef) => Ok((cdef, declared_ty)),
                            Err(e) => Err(e),
                        },
                        Option::None => spec_infer(def, scope, ctx, prelude, f1),
                    };
                    match elaborated {
                        Ok((cdef, def_ty)) => if scope.depth == u32::MAX {
                            Err(TypeError::DepthLimitExceeded { span: *span })
                        } else {
                            match spec_eval(&cdef, &scope.vals, ctx, fuel) {
                                Ok(vdef) => Ok(
                                    ItemOutcome::Defined(
                                        *name,
                                        cdef,
                                        scope.extend_spec(def_ty, vdef),
                                        ItemLog::Def(*name, *span, Box::new(*log)),
                                    ),
                                ),
                                Err(e) => Err(spec_nbe_error(e, def.span_spec())),
                            }
                        },
                        Err(e) => Err(e),
                    }
                },
            },
        }
    }
}

/// See [`spec_elab_item`].
pub fn elab_item(
    item: &raw::Item,
    log: &ItemLog,
    scope: &Scope,
    ctx: &Context,
    prelude: &Prelude,
    fuel: u64,
) -> (r: Result<ItemOutcome, TypeError>)
    ensures
        r == spec_elab_item(item, log, scope, ctx, prelude, fuel),
    decreases fuel, 0int,
{
    if fuel == 0 {
        Err(TypeError::DepthLimitExceeded { span: item.span() })
    } else {
        match item {
            raw::Item::Declaration(span, name, ann) => match log_find_def(log, name) {
                Option::Some(definition_span) => Err(
                    TypeError::DeclarationFollowedDefinition {
                        definition_span,
                        declaration_span: *span,
                        binder: name.clone(),
                    },
                ),
                Option::None => match log_find_decl(log, name) {
                    Option::Some((original_span, _)) => Err(
                        TypeError::DuplicateDeclarations {
                            original_span,
                            duplicate_span: *span,
                            binder: name.clone(),
                        },
                    ),
                    Option::None => match check_type(ann, scope, ctx, prelude, fuel - 1) {
                        Ok((cann, _)) => match eval(&cann, &scope.vals, ctx, fuel) {
                            Ok(vann) => Ok(
                                ItemOutcome::Declared(
                                    ItemLog::Decl(
                                        name.clone(),
                                        *span,
                                        Box::new(vann),
                                        Box::new(log.clone()),
                                    ),
                                ),
                            ),
                            Err(e) => Err(nbe_error(e, ann.span())),
                        },
                        Err(e) => Err(e),
                    },
                },
            },
            raw::Item::Definition(span, name, def) => match log_find_def(log, name) {
                Option::Some(original_span) => Err(
                    TypeError::DuplicateDefinitions {
                        original_span,
                        duplicate_span: *span,
                        binder: name.clone(),
                    },
                ),
                Option::None => {
                    let elaborated = match log_find_decl(log, name) {
                        Option::Some((_, declared_ty)) => match check(
                            def,
                            &declared_ty,
                            scope,
                            ctx,
                            prelude,
                            fuel - 1,
                        ) {
                            Ok(cdef) => Ok((cdef, declared_ty)),
                            Err(e) => Err(e),
                        },
                        Option::None => infer(def, scope, ctx, prelude, fuel - 1),
                    };
                    match elaborated {
                        Ok((cdef, def_ty)) => if scope.depth == u32::MAX {
                            Err(TypeError::DepthLimitExceeded { span: *span })
                        } else {
                            match eval(&cdef, &scope.vals, ctx, fuel) {
                                Ok(vdef) => {
                                    let new_scope = scope.extend(def_ty, vdef);
                                    Ok(
                                        ItemOutcome::Defined(
                                            name.clone(),
                                            cdef,
                                            new_scope,
                                            ItemLog::Def(name.clone(), *span, Box::new(log.clone())),
                                        ),
                                    )
                                },
                                Err(e) => Err(nbe_error(e, def.span())),
                            }
                        },
                        Err(e) => Err(e),
                    }
                },
            },
        }
    }
}

/// Infer a `let` block: elaborate the items top to bottom, each
/// extending what the later items and the body see, then infer the body
/// and wrap the definitions around it.
pub open spec fn spec_infer_let(
    items: &raw::ItemList,
    log: &ItemLog,
    body: &raw::Term,
    scope: &Scope,
    ctx: &Context,
    prelude: &Prelude,
    fuel: u64,
) -> Result<(CoreTerm, Value), TypeError>
    decreases fuel, 0int,
{
    if fuel == 0 {
        Err(TypeError::DepthLimitExceeded { span: body.span_spec() })
    } else {
        let f1 = (fuel - 1) as u64;
        match items {
            raw::ItemList::Nil => spec_infer(body, scope, ctx, prelude, f1),
            raw::ItemList::Cons(item, rest) => match spec_elab_item(
                item,
                log,
                scope,
                ctx,
                prelude,
                f1,
            ) {
                Ok(ItemOutcome::Declared(new_log)) => spec_infer_let(
                    rest,
                    &new_log,
                    body,
                    scope,
                    ctx,
                    prelude,
                    f1,
                ),
                Ok(ItemOutcome::Defined(hint, cdef, new_scope, new_log)) => {
                    match spec_infer_let(rest, &new_log, body, &new_scope, ctx, prelude, f1) {
                        Ok((cbody, body_ty)) => Ok(
                            (CoreTerm::Let(hint, Box::new(cdef), Box::new(cbody)), body_ty),
                        ),
                        Err(e) => Err(e),
                    }
                },
                Err(e) => Err(e),
            },
        }
    }
}

/// See [`spec_infer_let`].
pub fn infer_let(
    items: &raw::ItemList,
    log: &ItemLog,
    body: &raw::Term,
    scope: &Scope,
    ctx: &Context,
    prelude: &Prelude,
    fuel: u64,
) -> (r: Result<(CoreTerm, Value), TypeError>)
    ensures
        r == spec_infer_let(items, log, body, scope, ctx, prelude, fuel),
    decreases fuel, 0int,
{
    if fuel == 0 {
        Err(TypeError::DepthLimitExceeded { span: body.span() })
    } else {
        match items {
            raw::ItemList::Nil => infer(body, scope, ctx, prelude, fuel - 1),
            raw::ItemList::Cons(item, rest) => match elab_item(
                item,
                log,
                scope,
                ctx,
                prelude,
                fuel - 1,
            ) {
                Ok(ItemOutcome::Declared(new_log)) => infer_let(
                    rest,
                    &new_log,
                    body,
                    scope,
                    ctx,
                    prelude,
                    fuel - 1,
                ),
                Ok(ItemOutcome::Defined(hint, cdef, new_scope, new_log)) => {
                    match infer_let(rest, &new_log, body, &new_scope, ctx, prelude, fuel - 1) {
                        Ok((cbody, body_ty)) => Ok(
                            (CoreTerm::Let(hint, Box::new(cdef), Box::new(cbody)), body_ty),
                        ),
                        Err(e) => Err(e),
                    }
                },
                Err(e) => Err(e),
            },
        }
    }
}

/// Check a `let` block against an expected type: as [`spec_infer_let`],
/// with the body checked.
pub open spec fn spec_check_let(
    items: &raw::ItemList,
    log: &ItemLog,
    body: &raw::Term,
    expected: &Value,
    scope: &Scope,
    ctx: &Context,
    prelude: &Prelude,
    fuel: u64,
) -> Result<CoreTerm, TypeError>
    decreases fuel, 0int,
{
    if fuel == 0 {
        Err(TypeError::DepthLimitExceeded { span: body.span_spec() })
    } else {
        let f1 = (fuel - 1) as u64;
        match items {
            raw::ItemList::Nil => spec_check(body, expected, scope, ctx, prelude, f1),
            raw::ItemList::Cons(item, rest) => match spec_elab_item(
                item,
                log,
                scope,
                ctx,
                prelude,
                f1,
            ) {
                Ok(ItemOutcome::Declared(new_log)) => spec_check_let(
                    rest,
                    &new_log,
                    body,
                    expected,
                    scope,
                    ctx,
                    prelude,
                    f1,
                ),
                Ok(ItemOutcome::Defined(hint, cdef, new_scope, new_log)) => {
                    match spec_check_let(
                        rest,
                        &new_log,
                        body,
                        expected,
                        &new_scope,
                        ctx,
                        prelude,
                        f1,
                    ) {
                        Ok(cbody) => Ok(CoreTerm::Let(hint, Box::new(cdef), Box::new(cbody))),
                        Err(e) => Err(e),
                    }
                },
                Err(e) => Err(e),
            },
        }
    }
}

/// See [`spec_check_let`].
pub fn check_let(
    items: &raw::ItemList,
    log: &ItemLog,
    body: &raw::Term,
    expected: &Value,
    scope: &Scope,
    ctx: &Context,
    prelude: &Prelude,
    fuel: u64,
) -> (r: Result<CoreTerm, TypeError>)
    ensures
        r == spec_check_let(items, log, body, expected, scope, ctx, prelude, fuel),
    decreases fuel, 0int,
{
    if fuel == 0 {
        Err(TypeError::DepthLimitExceeded { span: body.span() })
    } else {
        match items {
            raw::ItemList::Nil => check(body, expected, scope, ctx, prelude, fuel - 1),
            raw::ItemList::Cons(item, rest) => match elab_item(
                item,
                log,
                scope,
                ctx,
                prelude,
                fuel - 1,
            ) {
                Ok(ItemOutcome::Declared(new_log)) => check_let(
                    rest,
                    &new_log,
                    body,
                    expected,
                    scope,
                    ctx,
                    prelude,
                    fuel - 1,
                ),
                Ok(ItemOutcome::Defined(hint, cdef, new_scope, new_log)) => {
                    match check_let(
                        rest,
                        &new_log,
                        body,
                        expected,
                        &new_scope,
                        ctx,
                        prelude,
                        fuel - 1,
                    ) {
                        Ok(cbody) => Ok(CoreTerm::Let(hint, Box::new(cdef), Box::new(cbody))),
                        Err(e) => Err(e),
                    }
                },
                Err(e) => Err(e),
            },
        }
    }
}

/// The fallback of `check` for the shapes that are not directed by their
/// expected type: infer, then require definitional equality with the
/// expected type.
pub open spec fn spec_check_fallback(
    term: &raw::Term,
    expected: &Value,
    scope: &Scope,
    ctx: &Context,
    prelude: &Prelude,
    fuel: u64,
) -> Result<CoreTerm, TypeError>
    decreases fuel, 1int,
{
    match spec_infer(term, scope, ctx, prelude, fuel) {
        Ok((c, ty)) => match spec_values_equal(&ty, expected, scope.depth, ctx, fuel) {
            Ok(true) => Ok(c),
            Ok(false) => Err(
                spec_mismatch_err(&ty, expected, term.span_spec(), scope.depth, ctx, fuel),
            ),
            Err(e) => Err(spec_nbe_error(e, term.span_spec())),
        },
        Err(e) => Err(e),
    }
}

/// See [`spec_check_fallback`].
pub fn check_fallback(
    term: &raw::Term,
    expected: &Value,
    scope: &Scope,
    ctx: &Context,
    prelude: &Prelude,
    fuel: u64,
) -> (r: Result<CoreTerm, TypeError>)
    ensures
        r == spec_check_fallback(term, expected, scope, ctx, prelude, fuel),
    decreases fuel, 1int,
{
    match infer(term, scope, ctx, prelude, fuel) {
        Ok((c, ty)) => match values_equal(&ty, expected, scope.depth, ctx, fuel) {
            Ok(true) => Ok(c),
            Ok(false) => Err(mismatch_err(&ty, expected, term.span(), scope.depth, ctx, fuel)),
            Err(e) => Err(nbe_error(e, term.span())),
        },
        Err(e) => Err(e),
    }
}

/// Check a raw term against an expected type value. The type-directed
/// shapes — holes, literals, function introductions, arrays and record
/// introductions whose expected type has the matching shape, case
/// expressions and `let` blocks — recurse structurally; everything else
/// goes through [`spec_check_fallback`]. Holes always fail: they are
/// never auto-resolved, with or without an expected type.
pub open spec fn spec_check(
    term: &raw::Term,
    expected: &Value,
    scope: &Scope,
    ctx: &Context,
    prelude: &Prelude,
    fuel: u64,
) -> Result<CoreTerm, TypeError>
    decreases fuel, 2int,
{
    if fuel == 0 {
        Err(TypeError::DepthLimitExceeded { span: term.span_spec() })
    } else {
        let f1 = (fuel - 1) as u64;
        match term {
            raw::Term::Hole(span) => match spec_quote(expected, scope.depth, ctx, fuel) {
                Ok(t) => Err(
                    TypeError::UnableToElaborateHole {
                        span: *span,
                        expected: Option::Some(Box::new(t)),
                    },
                ),
                Err(e) => Err(spec_nbe_error(e, *span)),
            },
            raw::Term::Literal(literal) => match spec_check_literal(
                literal,
                expected,
                scope.depth,
                ctx,
                prelude,
                fuel,
            ) {
                Ok(cl) => Ok(CoreTerm::Literal(cl)),
                Err(e) => Err(e),
            },
            raw::Term::FunIntro(span, hint, ann_opt, body) => match expected {
                Value::FunType(_, param_ty, ret_closure) => {
                    let ann_ok: Result<(), TypeError> = match ann_opt {
                        Option::None => Ok(()),
                        Option::Some(ann) => match spec_check_type(ann, scope, ctx, prelude, f1) {
                            Ok((cann, _)) => match spec_eval(&cann, &scope.vals, ctx, fuel) {
                                Ok(vann) => match spec_values_equal(
                                    &vann,
                                    param_ty,
                                    scope.depth,
                                    ctx,
                                    fuel,
                                ) {
                                    Ok(true) => Ok(()),
                                    Ok(false) => Err(
                                        spec_mismatch_err(
                                            &vann,
                                            param_ty,
                                            ann.span_spec(),
                                            scope.depth,
                                            ctx,
                                            fuel,
                                        ),
                                    ),
                                    Err(e) => Err(spec_nbe_error(e, ann.span_spec())),
                                },
                                Err(e) => Err(spec_nbe_error(e, ann.span_spec())),
                            },
                            Err(e) => Err(e),
                        },
                    };
                    match ann_ok {
                        Err(e) => Err(e),
                        Ok(_) => if scope.depth == u32::MAX {
                            Err(TypeError::DepthLimitExceeded { span: *span })
                        } else {
                            match spec_instantiate(
                                ret_closure,
                                &spec_local(scope.depth, *hint),
                                ctx,
                                fuel,
                            ) {
                                Ok(body_ty) => {
                                    let inner = scope.extend_spec(
                                        **param_ty,
                                        spec_local(scope.depth, *hint),
                                    );
                                    match spec_check(body, &body_ty, &inner, ctx, prelude, f1) {
                                        Ok(cbody) => Ok(
                                            CoreTerm::FunIntro(*hint, Box::new(cbody)),
                                        ),
                                        Err(e) => Err(e),
                                    }
                                },
                                Err(e) => Err(spec_nbe_error(e, *span)),
                            }
                        },
                    }
                },
                _ => match spec_quote(expected, scope.depth, ctx, fuel) {
                    Ok(t) => Err(
                        TypeError::UnexpectedFunction { span: *span, expected: Box::new(t) },
                    ),
                    Err(e) => Err(spec_nbe_error(e, *span)),
                },
            },
            raw::Term::ArrayIntro(span, elems) => match spec_array_shape(expected, prelude) {
                Option::Some((expected_len, elem_ty)) => {
                    let found_len = spec_term_list_len(elems);
                    if found_len != expected_len {
                        Err(
                            TypeError::ArrayLengthMismatch {
                                span: *span,
                                found_len,
                                expected_len,
                            },
                        )
                    } else {
                        match spec_check_array_elems(elems, &elem_ty, scope, ctx, prelude, f1) {
                            Ok(celems) => Ok(CoreTerm::ArrayIntro(celems)),
                            Err(e) => Err(e),
                        }
                    }
                },
                Option::None => spec_check_fallback(term, expected, scope, ctx, prelude, fuel),
            },
            raw::Term::RecordIntro(span, fields) => match expected {
                Value::RecordTypeNil => match spec_check_record_fields(
                    fields,
                    expected,
                    *span,
                    0,
                    scope,
                    ctx,
                    prelude,
                    f1,
                ) {
                    Ok(cfields) => Ok(CoreTerm::RecordIntro(cfields)),
                    Err(e) => Err(e),
                },
                Value::RecordTypeCons(_, _, _) => match spec_check_record_fields(
                    fields,
                    expected,
                    *span,
                    0,
                    scope,
                    ctx,
                    prelude,
                    f1,
                ) {
                    Ok(cfields) => Ok(CoreTerm::RecordIntro(cfields)),
                    Err(e) => Err(e),
                },
                _ => spec_check_fallback(term, expected, scope, ctx, prelude, fuel),
            },
            raw::Term::Case(span, scrutinee, clauses) => match spec_infer(
                scrutinee,
                scope,
                ctx,
                prelude,
                f1,
            ) {
                Ok((cscrut, scrut_ty)) => match spec_check_clauses(
                    clauses,
                    &scrut_ty,
                    expected,
                    scope,
                    ctx,
                    prelude,
                    f1,
                ) {
                    Ok(cclauses) => Ok(CoreTerm::Case(Box::new(cscrut), cclauses)),
                    Err(e) => Err(e),
                },
                Err(e) => Err(e),
            },
            raw::Term::Let(span, items, body) => spec_check_let(
                items,
                &ItemLog::Nil,
                body,
                expected,
                scope,
                ctx,
                prelude,
                f1,
            ),
            _ => spec_check_fallback(term, expected, scope, ctx, prelude, fuel),
        }
    }
}

/// Require a term to be a type: infer it and insist its type is a
/// universe, at any level.
pub open spec fn spec_check_type(
    term: &raw::Term,
    scope: &Scope,
    ctx: &Context,
    prelude: &Prelude,
    fuel: u64,
) -> Result<(CoreTerm, u32), TypeError>
    decreases fuel, 3int,
{
    if fuel == 0 {
        Err(TypeError::DepthLimitExceeded { span: term.span_spec() })
    } else {
        match spec_infer(term, scope, ctx, prelude, fuel) {
            Ok((c, ty)) => match ty {
                Value::Universe(level) => Ok((c, level)),
                _ => match spec_quote(&ty, scope.depth, ctx, fuel) {
                    Ok(t) => Err(
                        TypeError::ExpectedUniverse {
                            span: term.span_spec(),
                            found: Box::new(t),
                        },
                    ),
                    Err(e) => Err(spec_nbe_error(e, term.span_spec())),
                },
            },
            Err(e) => Err(e),
        }
    }
}

/// See [`spec_infer_record_type`].
pub fn infer_record_type(
    fields: &raw::TypeFieldList,
    scope: &Scope,
    ctx: &Context,
    prelude: &Prelude,
    fuel: u64,
) -> (r: Result<(crate::core_syntax::FieldList, u32), TypeError>)
    ensures
        r == spec_infer_record_type(fields, scope, ctx, prelude, fuel),
    decreases fuel, 0int,
{
    match fields {
        raw::TypeFieldList::Nil => Ok((crate::core_syntax::FieldList::Nil, 0)),
        raw::TypeFieldList::Cons(label, binder_hint, ann, rest) => if fuel == 0 {
            Err(TypeError::DepthLimitExceeded { span: ann.span() })
        } else {
            match check_type(ann, scope, ctx, prelude, fuel - 1) {
                Ok((cann, ann_level)) => match eval(&cann, &scope.vals, ctx, fuel) {
                    Ok(vann) => if scope.depth == u32::MAX {
                        Err(TypeError::DepthLimitExceeded { span: ann.span() })
                    } else {
                        let fresh = Value::Neutral(
                            Box::new(Neutral::Var(NVar::Local(scope.depth, binder_hint.clone()))),
                        );
                        let inner = scope.extend(vann, fresh);
                        match infer_record_type(rest, &inner, ctx, prelude, fuel - 1) {
                            Ok((crest, rest_level)) => Ok(
                                (
                                    crate::core_syntax::FieldList::Cons(
                                        label.clone(),
                                        Box::new(cann),
                                        Box::new(crest),
                                    ),
                                    if ann_level > rest_level {
                                        ann_level
                                    } else {
                                        rest_level
                                    },
                                ),
                            ),
                            Err(e) => Err(e),
                        }
                    },
                    Err(e) => Err(nbe_error(e, ann.span())),
                },
                Err(e) => Err(e),
            }
        },
    }
}

/// Synthesize a core term and its type value from a raw term. See
/// [`spec_infer`].
pub fn infer(term: &raw::Term, scope: &Scope, ctx: &Context, prelude: &Prelude, fuel: u64) -> (r:
    Result<(CoreTerm, Value), TypeError>)
    ensures
        r == spec_infer(term, scope, ctx, prelude, fuel),
    decreases fuel, 0int,
{
    if fuel == 0 {
        Err(TypeError::DepthLimitExceeded { span: term.span() })
    } else {
        match term {
            raw::Term::Ann(span, inner, ty) => match check_type(ty, scope, ctx, prelude, fuel - 1) {
                Ok((cty, _)) => match eval(&cty, &scope.vals, ctx, fuel) {
                    Ok(vty) => match check(inner, &vty, scope, ctx, prelude, fuel - 1) {
                        Ok(cinner) => Ok((cinner, vty)),
                        Err(e) => Err(e),
                    },
                    Err(e) => Err(nbe_error(e, ty.span())),
                },
                Err(e) => Err(e),
            },
            raw::Term::Universe(span, level) => if *level == u32::MAX {
                Err(TypeError::DepthLimitExceeded { span: *span })
            } else {
                Ok((CoreTerm::Universe(*level), Value::Universe(*level + 1)))
            },
            raw::Term::Literal(concrete::Literal::Int(span, _, _)) => Err(
                TypeError::AmbiguousIntLiteral { span: *span },
            ),
            raw::Term::Literal(concrete::Literal::Float(span, _, _)) => Err(
                TypeError::AmbiguousFloatLiteral { span: *span },
            ),
            raw::Term::Literal(concrete::Literal::String(span, s)) => Ok(
                (
                    CoreTerm::Literal(CoreLiteral::Str(s.clone())),
                    Value::Neutral(
                        Box::new(Neutral::Var(NVar::Free(prelude.string_var.clone()))),
                    ),
                ),
            ),
            raw::Term::Literal(concrete::Literal::Char(span, c)) => Ok(
                (
                    CoreTerm::Literal(CoreLiteral::Char(*c)),
                    Value::Neutral(Box::new(Neutral::Var(NVar::Free(prelude.char_var.clone())))),
                ),
            ),
            raw::Term::Hole(span) => Err(
                TypeError::UnableToElaborateHole { span: *span, expected: Option::None },
            ),
            raw::Term::Var(span, Var::Bound(index, hint)) => match env_lookup(
                &scope.tys,
                *index,
            ) {
                Option::Some(ty) => Ok((CoreTerm::Var(Var::Bound(*index, hint.clone())), ty)),
                Option::None => Err(
                    TypeError::Internal(
                        InternalError::UnexpectedBoundVar {
                            span: *span,
                            var: Var::Bound(*index, hint.clone()),
                        },
                    ),
                ),
            },
            raw::Term::Var(span, Var::Free(f)) => match ctx.lookup_type(f) {
                Option::Some(ty) => Ok((CoreTerm::Var(Var::Free(f.clone())), ty)),
                Option::None => Err(
                    TypeError::UndefinedName { span: *span, free_var: f.clone() },
                ),
            },
            raw::Term::FunType(span, hint, ann, body) => match check_type(
                ann,
                scope,
                ctx,
                prelude,
                fuel - 1,
            ) {
                Ok((cann, ann_level)) => match eval(&cann, &scope.vals, ctx, fuel) {
                    Ok(vann) => if scope.depth == u32::MAX {
                        Err(TypeError::DepthLimitExceeded { span: *span })
                    } else {
                        let fresh = Value::Neutral(
                            Box::new(Neutral::Var(NVar::Local(scope.depth, hint.clone()))),
                        );
                        let inner = scope.extend(vann, fresh);
                        match check_type(body, &inner, ctx, prelude, fuel - 1) {
                            Ok((cbody, body_level)) => Ok(
                                (
                                    CoreTerm::FunType(
                                        hint.clone(),
                                        Box::new(cann),
                                        Box::new(cbody),
                                    ),
                                    Value::Universe(
                                        if ann_level > body_level {
                                            ann_level
                                        } else {
                                            body_level
                                        },
                                    ),
                                ),
                            ),
                            Err(e) => Err(e),
                        }
                    },
                    Err(e) => Err(nbe_error(e, ann.span())),
                },
                Err(e) => Err(e),
            },
            raw::Term::FunIntro(span, hint, Option::None, body) => Err(
                TypeError::FunctionParamNeedsAnnotation {
                    param_span: *span,
                    var_span: Option::None,
                    name: hint.clone(),
                },
            ),
            raw::Term::FunIntro(span, hint, Option::Some(ann), body) => match check_type(
                ann,
                scope,
                ctx,
                prelude,
                fuel - 1,
            ) {
                Ok((cann, _)) => match eval(&cann, &scope.vals, ctx, fuel) {
                    Ok(vann) => if scope.depth == u32::MAX {
                        Err(TypeError::DepthLimitExceeded { span: *span })
                    } else {
                        let fresh = Value::Neutral(
                            Box::new(Neutral::Var(NVar::Local(scope.depth, hint.clone()))),
                        );
                        let inner = scope.extend(vann.clone(), fresh);
                        match infer(body, &inner, ctx, prelude, fuel - 1) {
                            Ok((cbody, body_ty)) => match quote(&body_ty, inner.depth, ctx, fuel) {
                                Ok(tbody) => Ok(
                                    (
                                        CoreTerm::FunIntro(hint.clone(), Box::new(cbody)),
                                        Value::FunType(
                                            hint.clone(),
                                            Box::new(vann),
                                            crate::domain::Closure {
                                                env: scope.vals.clone(),
                                                body: Box::new(tbody),
                                            },
                                        ),
                                    ),
                                ),
                                Err(e) => Err(nbe_error(e, *span)),
                            },
                            Err(e) => Err(e),
                        }
                    },
                    Err(e) => Err(nbe_error(e, ann.span())),
                },
                Err(e) => Err(e),
            },
            raw::Term::FunApp(span, head, arg) => match infer(head, scope, ctx, prelude, fuel - 1) {
                Ok((chead, head_ty)) => match head_ty {
                    Value::FunType(_, param_ty, ret_closure) => match check(
                        arg,
                        &param_ty,
                        scope,
                        ctx,
                        prelude,
                        fuel - 1,
                    ) {
                        Ok(carg) => match eval(&carg, &scope.vals, ctx, fuel) {
                            Ok(varg) => match instantiate(&ret_closure, &varg, ctx, fuel) {
                                Ok(ret_ty) => Ok(
                                    (CoreTerm::FunApp(Box::new(chead), Box::new(carg)), ret_ty),
                                ),
                                Err(e) => Err(nbe_error(e, *span)),
                            },
                            Err(e) => Err(nbe_error(e, arg.span())),
                        },
                        Err(e) => Err(e),
                    },
                    _ => match quote(&head_ty, scope.depth, ctx, fuel) {
                        Ok(tfound) => Err(
                            TypeError::ArgAppliedToNonFunction {
                                fn_span: head.span(),
                                arg_span: arg.span(),
                                found: Box::new(tfound),
                            },
                        ),
                        Err(e) => Err(nbe_error(e, head.span())),
                    },
                },
                Err(e) => Err(e),
            },
            raw::Term::ArrayIntro(span, elems) => match elems {
                raw::TermList::Nil => Err(TypeError::AmbiguousArrayLiteral { span: *span }),
                raw::TermList::Cons(first, rest) => match infer(
                    first,
                    scope,
                    ctx,
                    prelude,
                    fuel - 1,
                ) {
                    Ok((cfirst, elem_ty)) => match infer_array_rest(
                        rest,
                        &elem_ty,
                        *span,
                        scope,
                        ctx,
                        prelude,
                        fuel - 1,
                    ) {
                        Ok(crest) => {
                            let length = term_list_len(elems);
                            Ok(
                                (
                                    CoreTerm::ArrayIntro(
                                        crate::core_syntax::TermList::Cons(
                                            Box::new(cfirst),
                                            Box::new(crest),
                                        ),
                                    ),
                                    Value::Neutral(
                                        Box::new(
                                            Neutral::App(
                                                Box::new(
                                                    Neutral::App(
                                                        Box::new(
                                                            Neutral::Var(
                                                                NVar::Free(
                                                                    prelude.array_var.clone(),
                                                                ),
                                                            ),
                                                        ),
                                                        Box::new(
                                                            Value::Literal(
                                                                CoreLiteral::Int(
                                                                    length,
                                                                    concrete::IntFormat::Dec,
                                                                    IntType::U64,
                                                                ),
                                                            ),
                                                        ),
                                                    ),
                                                ),
                                                Box::new(elem_ty),
                                            ),
                                        ),
                                    ),
                                ),
                            )
                        },
                        Err(e) => Err(e),
                    },
                    Err(e) => Err(e),
                },
            },
            raw::Term::Let(span, items, body) => infer_let(
                items,
                &ItemLog::Nil,
                body,
                scope,
                ctx,
                prelude,
                fuel - 1,
            ),
            raw::Term::Case(span, scrutinee, raw::ClauseList::Nil) => Err(
                TypeError::AmbiguousEmptyCase { span: *span },
            ),
            raw::Term::Case(span, scrutinee, raw::ClauseList::Cons(p0, b0, rest)) => {
                match infer(scrutinee, scope, ctx, prelude, fuel - 1) {
                    Ok((cscrut, scrut_ty)) => match elab_pattern(
                        p0,
                        &scrut_ty,
                        scope,
                        ctx,
                        prelude,
                        fuel - 1,
                    ) {
                        Ok((cp0, scope0)) => match infer(b0, &scope0, ctx, prelude, fuel - 1) {
                            Ok((cb0, bty0)) => match quote(&bty0, scope.depth, ctx, fuel) {
                                Ok(t0) => match infer_clauses_rest(
                                    rest,
                                    &scrut_ty,
                                    &t0,
                                    scope,
                                    ctx,
                                    prelude,
                                    fuel - 1,
                                ) {
                                    Ok(crest) => Ok(
                                        (
                                            CoreTerm::Case(
                                                Box::new(cscrut),
                                                crate::core_syntax::ClauseList::Cons(
                                                    cp0,
                                                    Box::new(cb0),
                                                    Box::new(crest),
                                                ),
                                            ),
                                            bty0,
                                        ),
                                    ),
                                    Err(e) => Err(e),
                                },
                                Err(e) => Err(nbe_error(e, b0.span())),
                            },
                            Err(e) => Err(e),
                        },
                        Err(e) => Err(e),
                    },
                    Err(e) => Err(e),
                }
            },
            raw::Term::RecordType(span, fields) => match infer_record_type(
                fields,
                scope,
                ctx,
                prelude,
                fuel - 1,
            ) {
                Ok((cfields, level)) => Ok(
                    (CoreTerm::RecordType(cfields), Value::Universe(level)),
                ),
                Err(e) => Err(e),
            },
            raw::Term::RecordIntro(span, fields) => match infer_record_fields(
                fields,
                scope,
                ctx,
                prelude,
                fuel - 1,
            ) {
                Ok((cfields, ty_fields)) => match eval(
                    &CoreTerm::RecordType(ty_fields),
                    &scope.vals,
                    ctx,
                    fuel,
                ) {
                    Ok(rty) => Ok((CoreTerm::RecordIntro(cfields), rty)),
                    Err(e) => Err(nbe_error(e, *span)),
                },
                Err(e) => Err(e),
            },
            raw::Term::RecordProj(span, head, label_span, label) => match infer(
                head,
                scope,
                ctx,
                prelude,
                fuel - 1,
            ) {
                Ok((chead, head_ty)) => match eval(&chead, &scope.vals, ctx, fuel) {
                    Ok(vhead) => match find_field_ty(
                        &head_ty,
                        &vhead,
                        label,
                        *label_span,
                        &head_ty,
                        scope.depth,
                        ctx,
                        fuel,
                    ) {
                        Ok(field_ty) => Ok(
                            (CoreTerm::RecordProj(Box::new(chead), label.clone()), field_ty),
                        ),
                        Err(e) => Err(e),
                    },
                    Err(e) => Err(nbe_error(e, head.span())),
                },
                Err(e) => Err(e),
            },
        }
    }
}

/// Check a raw term against an expected type value. See [`spec_check`].
pub fn check(
    term: &raw::Term,
    expected: &Value,
    scope: &Scope,
    ctx: &Context,
    prelude: &Prelude,
    fuel: u64,
) -> (r: Result<CoreTerm, TypeError>)
    ensures
        r == spec_check(term, expected, scope, ctx, prelude, fuel),
    decreases fuel, 2int,
{
    if fuel == 0 {
        Err(TypeError::DepthLimitExceeded { span: term.span() })
    } else {
        match term {
            raw::Term::Hole(span) => match quote(expected, scope.depth, ctx, fuel) {
                Ok(t) => Err(
                    TypeError::UnableToElaborateHole {
                        span: *span,
                        expected: Option::Some(Box::new(t)),
                    },
                ),
                Err(e) => Err(nbe_error(e, *span)),
            },
            raw::Term::Literal(literal) => match check_literal(
                literal,
                expected,
                scope.depth,
                ctx,
                prelude,
                fuel,
            ) {
                Ok(cl) => Ok(CoreTerm::Literal(cl)),
                Err(e) => Err(e),
            },
            raw::Term::FunIntro(span, hint, ann_opt, body) => match expected {
                Value::FunType(_, param_ty, ret_closure) => {
                    let ann_ok: Result<(), TypeError> = match ann_opt {
                        Option::None => Ok(()),
                        Option::Some(ann) => match check_type(ann, scope, ctx, prelude, fuel - 1) {
                            Ok((cann, _)) => match eval(&cann, &scope.vals, ctx, fuel) {
                                Ok(vann) => match values_equal(
                                    &vann,
                                    param_ty,
                                    scope.depth,
                                    ctx,
                                    fuel,
                                ) {
                                    Ok(true) => Ok(()),
                                    Ok(false) => Err(
                                        mismatch_err(
                                            &vann,
                                            param_ty,
                                            ann.span(),
                                            scope.depth,
                                            ctx,
                                            fuel,
                                        ),
                                    ),
                                    Err(e) => Err(nbe_error(e, ann.span())),
                                },
                                Err(e) => Err(nbe_error(e, ann.span())),
                            },
                            Err(e) => Err(e),
                        },
                    };
                    match ann_ok {
                        Err(e) => Err(e),
                        Ok(_) => if scope.depth == u32::MAX {
                            Err(TypeError::DepthLimitExceeded { span: *span })
                        } else {
                            let fresh = Value::Neutral(
                                Box::new(Neutral::Var(NVar::Local(scope.depth, hint.clone()))),
                            );
                            match instantiate(ret_closure, &fresh, ctx, fuel) {
                                Ok(body_ty) => {
                                    let inner = scope.extend((**param_ty).clone(), fresh);
                                    match check(body, &body_ty, &inner, ctx, prelude, fuel - 1) {
                                        Ok(cbody) => Ok(
                                            CoreTerm::FunIntro(hint.clone(), Box::new(cbody)),
                                        ),
                                        Err(e) => Err(e),
                                    }
                                },
                                Err(e) => Err(nbe_error(e, *span)),
                            }
                        },
                    }
                },
                _ => match quote(expected, scope.depth, ctx, fuel) {
                    Ok(t) => Err(
                        TypeError::UnexpectedFunction { span: *span, expected: Box::new(t) },
                    ),
                    Err(e) => Err(nbe_error(e, *span)),
                },
            },
            raw::Term::ArrayIntro(span, elems) => match array_shape(expected, prelude) {
                Option::Some((expected_len, elem_ty)) => {
                    let found_len = term_list_len(elems);
                    if found_len != expected_len {
                        Err(
                            TypeError::ArrayLengthMismatch {
                                span: *span,
                                found_len,
                                expected_len,
                            },
                        )
                    } else {
                        match check_array_elems(elems, &elem_ty, scope, ctx, prelude, fuel - 1) {
                            Ok(celems) => Ok(CoreTerm::ArrayIntro(celems)),
                            Err(e) => Err(e),
                        }
                    }
                },
                Option::None => check_fallback(term, expected, scope, ctx, prelude, fuel),
            },
            raw::Term::RecordIntro(span, fields) => match expected {
                Value::RecordTypeNil => match check_record_fields(
                    fields,
                    expected,
                    *span,
                    0,
                    scope,
                    ctx,
                    prelude,
                    fuel - 1,
                ) {
                    Ok(cfields) => Ok(CoreTerm::RecordIntro(cfields)),
                    Err(e) => Err(e),
                },
                Value::RecordTypeCons(_, _, _) => match check_record_fields(
                    fields,
                    expected,
                    *span,
                    0,
                    scope,
                    ctx,
                    prelude,
                    fuel - 1,
                ) {
                    Ok(cfields) => Ok(CoreTerm::RecordIntro(cfields)),
                    Err(e) => Err(e),
                },
                _ => check_fallback(term, expected, scope, ctx, prelude, fuel),
            },
            raw::Term::Case(span, scrutinee, clauses) => match infer(
                scrutinee,
                scope,
                ctx,
                prelude,
                fuel - 1,
            ) {
                Ok((cscrut, scrut_ty)) => match check_clauses(
                    clauses,
                    &scrut_ty,
                    expected,
                    scope,
                    ctx,
                    prelude,
                    fuel - 1,
                ) {
                    Ok(cclauses) => Ok(CoreTerm::Case(Box::new(cscrut), cclauses)),
                    Err(e) => Err(e),
                },
                Err(e) => Err(e),
            },
            raw::Term::Let(span, items, body) => check_let(
                items,
                &ItemLog::Nil,
                body,
                expected,
                scope,
                ctx,
                prelude,
                fuel - 1,
            ),
            _ => check_fallback(term, expected, scope, ctx, prelude, fuel),
        }
    }
}

/// See [`spec_check_type`].
pub fn check_type(term: &raw::Term, scope: &Scope, ctx: &Context, prelude: &Prelude, fuel: u64) -> (r: Result<(CoreTerm, u32), TypeError>)
    ensures
        r == spec_check_type(term, scope, ctx, prelude, fuel),
    decreases fuel, 3int,
{
    if fuel == 0 {
        Err(TypeError::DepthLimitExceeded { span: term.span() })
    } else {
        match infer(term, scope, ctx, prelude, fuel) {
            Ok((c, ty)) => match ty {
                Value::Universe(level) => Ok((c, level)),
                _ => match quote(&ty, scope.depth, ctx, fuel) {
                    Ok(t) => Err(
                        TypeError::ExpectedUniverse { span: term.span(), found: Box::new(t) },
                    ),
                    Err(e) => Err(nbe_error(e, term.span())),
                },
            },
            Err(e) => Err(e),
        }
    }
}

} // verus!
