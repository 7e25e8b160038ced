//! Normalization by evaluation.
//!
//! [`eval`] turns a core term into a weak-head-normal [`Value`] under an
//! environment for its bound variables and the context for its free
//! variables; a free variable with no definition becomes a neutral.
//! [`quote`] reads a value back into a normal-form core term, introducing
//! a fresh local variable for each binder it goes under. The elaborator
//! never compares core terms syntactically: it normalizes both sides and
//! compares the results with [`crate::core_syntax::term_eq`].
//!
//! Every function here consumes explicit fuel at each step that is not
//! structural — instantiating a closure, reducing a redex — so the
//! recursion is well founded on any input, and a pathologically deep or
//! diverging term is reported as [`NbeError::DepthLimit`] rather than
//! crashing. On values reachable from a successfully elaborated program
//! the budget is never the limiting factor in practice.

use vstd::prelude::*;

use crate::context::Context;
use crate::core_syntax::{
    literal_eq,
    literal_eq_spec,
    term_eq,
    term_eq_spec,
    ClauseList,
    FieldList,
    Pattern,
    Term,
};
use crate::domain::{
    env_lookup,
    env_lookup_spec,
    Closure,
    Env,
    FieldValueList,
    NVar,
    Neutral,
    Value,
    ValueList,
};
use crate::errors::NbeError;
use crate::raw::Label;
use crate::var::Var;

verus! {

/// How a pattern relates to a scrutinee value: no match, a match that
/// binds nothing, or a match that binds one value.
pub enum PatternMatch {
    NoMatch,
    Match,
    MatchBinding(Value),
}

/// Whether two values are recognizably the same head-normal constant:
/// equal literals, equal universes, or the same stuck variable. Anything
/// else is conservatively not a match; constant patterns only ever match
/// such constants.
pub open spec fn value_const_eq_spec(a: &Value, b: &Value) -> bool {
    match (a, b) {
        (Value::Literal(x), Value::Literal(y)) => literal_eq_spec(x, y),
        (Value::Universe(x), Value::Universe(y)) => x == y,
        (Value::Neutral(x), Value::Neutral(y)) => match (&**x, &**y) {
            (Neutral::Var(NVar::Free(f)), Neutral::Var(NVar::Free(g))) => f.id == g.id,
            (Neutral::Var(NVar::Local(i, _)), Neutral::Var(NVar::Local(j, _))) => i == j,
            _ => false,
        },
        _ => false,
    }
}

/// Decide [`value_const_eq_spec`].
pub fn value_const_eq(a: &Value, b: &Value) -> (r: bool)
    ensures
        r == value_const_eq_spec(a, b),
{
    match (a, b) {
        (Value::Literal(x), Value::Literal(y)) => literal_eq(x, y),
        (Value::Universe(x), Value::Universe(y)) => x == y,
        (Value::Neutral(x), Value::Neutral(y)) => match (&**x, &**y) {
            (Neutral::Var(NVar::Free(f)), Neutral::Var(NVar::Free(g))) => f.id == g.id,
            (Neutral::Var(NVar::Local(i, _)), Neutral::Var(NVar::Local(j, _))) => i == j,
            _ => false,
        },
        _ => false,
    }
}

/// How `pattern` matches the value `scrutinee`: a binder pattern matches
/// anything and binds it; a literal pattern matches an equal literal
/// value; a constant pattern matches when the constant's value — the
/// environment entry for a bound variable, the neutral occurrence for a
/// free one — is recognizably the same constant.
pub open spec fn match_pattern_spec(pattern: &Pattern, scrutinee: &Value, env: &Env) ->
    PatternMatch {
    match pattern {
        Pattern::Binder(_) => PatternMatch::MatchBinding(*scrutinee),
        Pattern::Literal(l) => match scrutinee {
            Value::Literal(l2) => if literal_eq_spec(l, l2) {
                PatternMatch::Match
            } else {
                PatternMatch::NoMatch
            },
            _ => PatternMatch::NoMatch,
        },
        Pattern::Var(Var::Free(f)) => match scrutinee {
            Value::Neutral(n) => match &**n {
                Neutral::Var(NVar::Free(g)) => if f.id == g.id {
                    PatternMatch::Match
                } else {
                    PatternMatch::NoMatch
                },
                _ => PatternMatch::NoMatch,
            },
            _ => PatternMatch::NoMatch,
        },
        Pattern::Var(Var::Bound(index, _)) => match env_lookup_spec(env, *index) {
            Option::Some(v) => if value_const_eq_spec(&v, scrutinee) {
                PatternMatch::Match
            } else {
                PatternMatch::NoMatch
            },
            Option::None => PatternMatch::NoMatch,
        },
    }
}

/// Decide [`match_pattern_spec`].
pub fn match_pattern(pattern: &Pattern, scrutinee: &Value, env: &Env) -> (r: PatternMatch)
    ensures
        r == match_pattern_spec(pattern, scrutinee, env),
{
    match pattern {
        Pattern::Binder(_) => PatternMatch::MatchBinding(scrutinee.clone()),
        Pattern::Literal(l) => match scrutinee {
            Value::Literal(l2) => if literal_eq(l, l2) {
                PatternMatch::Match
            } else {
                PatternMatch::NoMatch
            },
            _ => PatternMatch::NoMatch,
        },
        Pattern::Var(Var::Free(f)) => match scrutinee {
            Value::Neutral(n) => match &**n {
                Neutral::Var(NVar::Free(g)) => if f.id == g.id {
                    PatternMatch::Match
                } else {
                    PatternMatch::NoMatch
                },
                _ => PatternMatch::NoMatch,
            },
            _ => PatternMatch::NoMatch,
        },
        Pattern::Var(Var::Bound(index, _)) => match env_lookup(env, *index) {
            Option::Some(v) => if value_const_eq(&v, scrutinee) {
                PatternMatch::Match
            } else {
                PatternMatch::NoMatch
            },
            Option::None => PatternMatch::NoMatch,
        },
    }
}

/// The field of a record value named `label`, if present.
pub open spec fn field_lookup_spec(fields: &FieldValueList, label: &Label) -> Option<Value>
    decreases *fields,
{
    match fields {
        FieldValueList::Nil => None,
        FieldValueList::Cons(l, v, rest) => if l.0@ == label.0@ {
            Some(**v)
        } else {
            field_lookup_spec(rest, label)
        },
    }
}

/// Look up the field of a record value named `label`.
pub fn field_lookup(fields: &FieldValueList, label: &Label) -> (r: Option<Value>)
    ensures
        r == field_lookup_spec(fields, label),
    decreases *fields,
{
    match fields {
        FieldValueList::Nil => None,
        FieldValueList::Cons(l, v, rest) => if String::eq(&l.0, &label.0) {
            Some((**v).clone())
        } else {
            field_lookup(rest, label)
        },
    }
}

/// Project the field `label` out of `head`: a record value gives up the
/// field, a neutral gets a stuck projection, anything else is a fault.
pub open spec fn spec_do_proj(head: &Value, label: &Label) -> Result<Value, NbeError> {
    match head {
        Value::RecordIntro(fields) => match field_lookup_spec(fields, label) {
            Option::Some(v) => Ok(v),
            Option::None => Err(NbeError::MissingField),
        },
        Value::Neutral(n) => Ok(
            Value::Neutral(Box::new(Neutral::Proj(*n, Label(label.0)))),
        ),
        _ => Err(NbeError::ProjNonRecord),
    }
}

/// Perform a record projection on an evaluated head.
pub fn do_proj(head: &Value, label: &Label) -> (r: Result<Value, NbeError>)
    ensures
        r == spec_do_proj(head, label),
{
    match head {
        Value::RecordIntro(fields) => match field_lookup(fields, label) {
            Option::Some(v) => Ok(v),
            Option::None => Err(NbeError::MissingField),
        },
        Value::Neutral(n) => Ok(
            Value::Neutral(
                Box::new(Neutral::Proj(Box::new((**n).clone()), Label(label.0.clone()))),
            ),
        ),
        _ => Err(NbeError::ProjNonRecord),
    }
}

/// Evaluate a core term to a value: call-by-value over the semantic
/// domain. Bound variables resolve against `env`; free variables against
/// the definitions in `ctx`, or to a neutral when they have none.
pub open spec fn spec_eval(term: &Term, env: &Env, ctx: &Context, fuel: u64) -> Result<
    Value,
    NbeError,
>
    decreases fuel, 1int, *term,
{
    match term {
        Term::Universe(level) => Ok(Value::Universe(*level)),
        Term::Literal(l) => Ok(Value::Literal(*l)),
        Term::Var(Var::Bound(index, _)) => match env_lookup_spec(env, *index) {
            Option::Some(v) => Ok(v),
            Option::None => Err(NbeError::UnboundVariable),
        },
        Term::Var(Var::Free(f)) => match ctx.lookup_value_spec(f.id) {
            Option::Some(v) => Ok(v),
            Option::None => Ok(Value::Neutral(Box::new(Neutral::Var(NVar::Free(*f))))),
        },
        Term::FunType(hint, ann, body) => match spec_eval(ann, env, ctx, fuel) {
            Ok(vann) => Ok(
                Value::FunType(
                    *hint,
                    Box::new(vann),
                    Closure { env: *env, body: *body },
                ),
            ),
            Err(e) => Err(e),
        },
        Term::FunIntro(hint, body) => Ok(
            Value::FunIntro(*hint, Closure { env: *env, body: *body }),
        ),
        Term::FunApp(head, arg) => match spec_eval(head, env, ctx, fuel) {
            Ok(vh) => match spec_eval(arg, env, ctx, fuel) {
                Ok(va) => spec_do_app(&vh, &va, ctx, fuel),
                Err(e) => Err(e),
            },
            Err(e) => Err(e),
        },
        Term::ArrayIntro(elems) => match spec_eval_list(elems, env, ctx, fuel) {
            Ok(vs) => Ok(Value::ArrayIntro(vs)),
            Err(e) => Err(e),
        },
        Term::RecordType(FieldList::Nil) => Ok(Value::RecordTypeNil),
        Term::RecordType(FieldList::Cons(label, ann, rest)) => match spec_eval(
            ann,
            env,
            ctx,
            fuel,
        ) {
            Ok(vann) => Ok(
                Value::RecordTypeCons(
                    *label,
                    Box::new(vann),
                    Closure { env: *env, body: Box::new(Term::RecordType(**rest)) },
                ),
            ),
            Err(e) => Err(e),
        },
        Term::RecordIntro(fields) => match spec_eval_fields(fields, env, ctx, fuel) {
            Ok(vs) => Ok(Value::RecordIntro(vs)),
            Err(e) => Err(e),
        },
        Term::RecordProj(head, label) => match spec_eval(head, env, ctx, fuel) {
            Ok(vh) => spec_do_proj(&vh, label),
            Err(e) => Err(e),
        },
        Term::Case(scrutinee, clauses) => match spec_eval(scrutinee, env, ctx, fuel) {
            Ok(vs) => spec_do_case(&vs, clauses, env, ctx, fuel),
            Err(e) => Err(e),
        },
        Term::Let(_, def, body) => match spec_eval(def, env, ctx, fuel) {
            Ok(vd) => spec_eval(
                body,
                &Env::Cons(Box::new(vd), Box::new(*env)),
                ctx,
                fuel,
            ),
            Err(e) => Err(e),
        },
    }
}

/// Evaluate the elements of an array literal, left to right.
pub open spec fn spec_eval_list(terms: &crate::core_syntax::TermList, env: &Env, ctx: &Context, fuel: u64) -> Result<ValueList, NbeError>
    decreases fuel, 1int, *terms,
{
    match terms {
        crate::core_syntax::TermList::Nil => Ok(ValueList::Nil),
        crate::core_syntax::TermList::Cons(t, rest) => match spec_eval(t, env, ctx, fuel) {
            Ok(v) => match spec_eval_list(rest, env, ctx, fuel) {
                Ok(vs) => Ok(ValueList::Cons(Box::new(v), Box::new(vs))),
                Err(e) => Err(e),
            },
            Err(e) => Err(e),
        },
    }
}

/// Evaluate the fields of a record introduction, left to right.
pub open spec fn spec_eval_fields(fields: &FieldList, env: &Env, ctx: &Context, fuel: u64) -> Result<FieldValueList, NbeError>
    decreases fuel, 1int, *fields,
{
    match fields {
        FieldList::Nil => Ok(FieldValueList::Nil),
        FieldList::Cons(label, t, rest) => match spec_eval(t, env, ctx, fuel) {
            Ok(v) => match spec_eval_fields(rest, env, ctx, fuel) {
                Ok(vs) => Ok(FieldValueList::Cons(*label, Box::new(v), Box::new(vs))),
                Err(e) => Err(e),
            },
            Err(e) => Err(e),
        },
    }
}

/// Apply `head` to `arg`: beta-reduce a function value, extend a neutral
/// with a stuck application, fault on anything else.
pub open spec fn spec_do_app(head: &Value, arg: &Value, ctx: &Context, fuel: u64) -> Result<
    Value,
    NbeError,
>
    decreases fuel, 0int, *head,
{
    match head {
        Value::FunIntro(_, closure) => if fuel == 0 {
            Err(NbeError::DepthLimit)
        } else {
            spec_eval(
                &closure.body,
                &Env::Cons(Box::new(*arg), Box::new(closure.env)),
                ctx,
                (fuel - 1) as u64,
            )
        },
        Value::Neutral(n) => Ok(
            Value::Neutral(Box::new(Neutral::App(*n, Box::new(*arg)))),
        ),
        _ => Err(NbeError::AppNonFunction),
    }
}

/// Run a case split on an evaluated scrutinee: a neutral scrutinee gets a
/// stuck case; otherwise the first matching clause's body is evaluated,
/// under the matched binding if the pattern introduced one.
pub open spec fn spec_do_case(
    scrutinee: &Value,
    clauses: &ClauseList,
    env: &Env,
    ctx: &Context,
    fuel: u64,
) -> Result<Value, NbeError>
    decreases fuel, 0int, *clauses,
{
    match scrutinee {
        Value::Neutral(n) => Ok(
            Value::Neutral(Box::new(Neutral::Case(*n, *env, *clauses))),
        ),
        _ => match clauses {
            ClauseList::Nil => Err(NbeError::NoMatchingClause),
            ClauseList::Cons(pattern, body, rest) => match match_pattern_spec(
                pattern,
                scrutinee,
                env,
            ) {
                PatternMatch::NoMatch => spec_do_case(scrutinee, rest, env, ctx, fuel),
                PatternMatch::Match => if fuel == 0 {
                    Err(NbeError::DepthLimit)
                } else {
                    spec_eval(body, env, ctx, (fuel - 1) as u64)
                },
                PatternMatch::MatchBinding(bound) => if fuel == 0 {
                    Err(NbeError::DepthLimit)
                } else {
                    spec_eval(
                        body,
                        &Env::Cons(Box::new(bound), Box::new(*env)),
                        ctx,
                        (fuel - 1) as u64,
                    )
                },
            },
        },
    }
}

/// Evaluate a core term to a value. See [`spec_eval`].
pub fn eval(term: &Term, env: &Env, ctx: &Context, fuel: u64) -> (r: Result<Value, NbeError>)
    ensures
        r == spec_eval(term, env, ctx, fuel),
    decreases fuel, 1int, *term,
{
    match term {
        Term::Universe(level) => Ok(Value::Universe(*level)),
        Term::Literal(l) => Ok(Value::Literal(l.clone())),
        Term::Var(Var::Bound(index, _)) => match env_lookup(env, *index) {
            Option::Some(v) => Ok(v),
            Option::None => Err(NbeError::UnboundVariable),
        },
        Term::Var(Var::Free(f)) => match ctx.lookup_value(f) {
            Option::Some(v) => Ok(v),
            Option::None => Ok(Value::Neutral(Box::new(Neutral::Var(NVar::Free(f.clone()))))),
        },
        Term::FunType(hint, ann, body) => match eval(ann, env, ctx, fuel) {
            Ok(vann) => Ok(
                Value::FunType(
                    hint.clone(),
                    Box::new(vann),
                    Closure { env: env.clone(), body: Box::new((**body).clone()) },
                ),
            ),
            Err(e) => Err(e),
        },
        Term::FunIntro(hint, body) => Ok(
            Value::FunIntro(
                hint.clone(),
                Closure { env: env.clone(), body: Box::new((**body).clone()) },
            ),
        ),
        Term::FunApp(head, arg) => match eval(head, env, ctx, fuel) {
            Ok(vh) => match eval(arg, env, ctx, fuel) {
                Ok(va) => do_app(&vh, &va, ctx, fuel),
                Err(e) => Err(e),
            },
            Err(e) => Err(e),
        },
        Term::ArrayIntro(elems) => match eval_list(elems, env, ctx, fuel) {
            Ok(vs) => Ok(Value::ArrayIntro(vs)),
            Err(e) => Err(e),
        },
        Term::RecordType(FieldList::Nil) => Ok(Value::RecordTypeNil),
        Term::RecordType(FieldList::Cons(label, ann, rest)) => match eval(ann, env, ctx, fuel) {
            Ok(vann) => Ok(
                Value::RecordTypeCons(
                    label.clone(),
                    Box::new(vann),
                    Closure {
                        env: env.clone(),
                        body: Box::new(Term::RecordType((**rest).clone())),
                    },
                ),
            ),
            Err(e) => Err(e),
        },
        Term::RecordIntro(fields) => match eval_fields(fields, env, ctx, fuel) {
            Ok(vs) => Ok(Value::RecordIntro(vs)),
            Err(e) => Err(e),
        },
        Term::RecordProj(head, label) => match eval(head, env, ctx, fuel) {
            Ok(vh) => do_proj(&vh, label),
            Err(e) => Err(e),
        },
        Term::Case(scrutinee, clauses) => match eval(scrutinee, env, ctx, fuel) {
            Ok(vs) => do_case(&vs, clauses, env, ctx, fuel),
            Err(e) => Err(e),
        },
        Term::Let(_, def, body) => match eval(def, env, ctx, fuel) {
            Ok(vd) => {
                let new_env = Env::Cons(Box::new(vd), Box::new(env.clone()));
                eval(body, &new_env, ctx, fuel)
            },
            Err(e) => Err(e),
        },
    }
}

/// Evaluate array elements. See [`spec_eval_list`].
pub fn eval_list(terms: &crate::core_syntax::TermList, env: &Env, ctx: &Context, fuel: u64) -> (r:
    Result<ValueList, NbeError>)
    ensures
        r == spec_eval_list(terms, env, ctx, fuel),
    decreases fuel, 1int, *terms,
{
    match terms {
        crate::core_syntax::TermList::Nil => Ok(ValueList::Nil),
        crate::core_syntax::TermList::Cons(t, rest) => match eval(t, env, ctx, fuel) {
            Ok(v) => match eval_list(rest, env, ctx, fuel) {
                Ok(vs) => Ok(ValueList::Cons(Box::new(v), Box::new(vs))),
                Err(e) => Err(e),
            },
            Err(e) => Err(e),
        },
    }
}

/// Evaluate record fields. See [`spec_eval_fields`].
pub fn eval_fields(fields: &FieldList, env: &Env, ctx: &Context, fuel: u64) -> (r: Result<
    FieldValueList,
    NbeError,
>)
    ensures
        r == spec_eval_fields(fields, env, ctx, fuel),
    decreases fuel, 1int, *fields,
{
    match fields {
        FieldList::Nil => Ok(FieldValueList::Nil),
        FieldList::Cons(label, t, rest) => match eval(t, env, ctx, fuel) {
            Ok(v) => match eval_fields(rest, env, ctx, fuel) {
                Ok(vs) => Ok(FieldValueList::Cons(label.clone(), Box::new(v), Box::new(vs))),
                Err(e) => Err(e),
            },
            Err(e) => Err(e),
        },
    }
}

/// Apply an evaluated head to an evaluated argument. See [`spec_do_app`].
pub fn do_app(head: &Value, arg: &Value, ctx: &Context, fuel: u64) -> (r: Result<Value, NbeError>)
    ensures
        r == spec_do_app(head, arg, ctx, fuel),
    decreases fuel, 0int, *head,
{
    match head {
        Value::FunIntro(_, closure) => if fuel == 0 {
            Err(NbeError::DepthLimit)
        } else {
            let new_env = Env::Cons(Box::new(arg.clone()), Box::new(closure.env.clone()));
            eval(&closure.body, &new_env, ctx, fuel - 1)
        },
        Value::Neutral(n) => Ok(
            Value::Neutral(
                Box::new(Neutral::App(Box::new((**n).clone()), Box::new(arg.clone()))),
            ),
        ),
        _ => Err(NbeError::AppNonFunction),
    }
}

/// Run a case split on an evaluated scrutinee. See [`spec_do_case`].
pub fn do_case(scrutinee: &Value, clauses: &ClauseList, env: &Env, ctx: &Context, fuel: u64) -> (r:
    Result<Value, NbeError>)
    ensures
        r == spec_do_case(scrutinee, clauses, env, ctx, fuel),
    decreases fuel, 0int, *clauses,
{
    match scrutinee {
        Value::Neutral(n) => Ok(
            Value::Neutral(
                Box::new(Neutral::Case(Box::new((**n).clone()), env.clone(), clauses.clone())),
            ),
        ),
        _ => match clauses {
            ClauseList::Nil => Err(NbeError::NoMatchingClause),
            ClauseList::Cons(pattern, body, rest) => match match_pattern(pattern, scrutinee, env) {
                PatternMatch::NoMatch => do_case(scrutinee, rest, env, ctx, fuel),
                PatternMatch::Match => if fuel == 0 {
                    Err(NbeError::DepthLimit)
                } else {
                    eval(body, env, ctx, fuel - 1)
                },
                PatternMatch::MatchBinding(bound) => if fuel == 0 {
                    Err(NbeError::DepthLimit)
                } else {
                    let new_env = Env::Cons(Box::new(bound), Box::new(env.clone()));
                    eval(body, &new_env, ctx, fuel - 1)
                },
            },
        },
    }
}

/// Apply a closure to one value: evaluate its body with the value pushed
/// onto its environment.
pub open spec fn spec_instantiate(closure: &Closure, arg: &Value, ctx: &Context, fuel: u64) ->
    Result<Value, NbeError> {
    if fuel == 0 {
        Err(NbeError::DepthLimit)
    } else {
        spec_eval(
            &closure.body,
            &Env::Cons(Box::new(*arg), Box::new(closure.env)),
            ctx,
            (fuel - 1) as u64,
        )
    }
}

/// Apply a closure to one value. See [`spec_instantiate`].
pub fn instantiate(closure: &Closure, arg: &Value, ctx: &Context, fuel: u64) -> (r: Result<
    Value,
    NbeError,
>)
    ensures
        r == spec_instantiate(closure, arg, ctx, fuel),
{
    if fuel == 0 {
        Err(NbeError::DepthLimit)
    } else {
        let new_env = Env::Cons(Box::new(arg.clone()), Box::new(closure.env.clone()));
        eval(&closure.body, &new_env, ctx, fuel - 1)
    }
}

/// The neutral occurrence of the fresh local variable at level `depth`.
pub open spec fn spec_local(depth: u32, hint: String) -> Value {
    Value::Neutral(Box::new(Neutral::Var(NVar::Local(depth, hint))))
}

/// Read a value back into a normal-form core term. `depth` is the number
/// of binders the value sits under; each binder the readback goes under
/// introduces the fresh local variable at the next level, and a local
/// variable at level `l` reads back as the de Bruijn index
/// `depth - 1 - l`. A local variable at or above `depth` has escaped its
/// scope and is a fault.
pub open spec fn spec_quote(v: &Value, depth: u32, ctx: &Context, fuel: u64) -> Result<
    Term,
    NbeError,
>
    decreases fuel, 1int, *v,
{
    match v {
        Value::Universe(level) => Ok(Term::Universe(*level)),
        Value::Literal(l) => Ok(Term::Literal(*l)),
        Value::FunType(hint, ann, closure) => if depth == u32::MAX || fuel == 0 {
            Err(NbeError::DepthLimit)
        } else {
            match spec_quote(ann, depth, ctx, fuel) {
                Ok(tann) => match spec_instantiate(closure, &spec_local(depth, *hint), ctx, fuel) {
                    Ok(vbody) => match spec_quote(
                        &vbody,
                        (depth + 1) as u32,
                        ctx,
                        (fuel - 1) as u64,
                    ) {
                        Ok(tbody) => Ok(
                            Term::FunType(*hint, Box::new(tann), Box::new(tbody)),
                        ),
                        Err(e) => Err(e),
                    },
                    Err(e) => Err(e),
                },
                Err(e) => Err(e),
            }
        },
        Value::FunIntro(hint, closure) => if depth == u32::MAX || fuel == 0 {
            Err(NbeError::DepthLimit)
        } else {
            match spec_instantiate(closure, &spec_local(depth, *hint), ctx, fuel) {
                Ok(vbody) => match spec_quote(&vbody, (depth + 1) as u32, ctx, (fuel - 1) as u64) {
                    Ok(tbody) => Ok(Term::FunIntro(*hint, Box::new(tbody))),
                    Err(e) => Err(e),
                },
                Err(e) => Err(e),
            }
        },
        Value::RecordTypeNil => Ok(Term::RecordType(FieldList::Nil)),
        Value::RecordTypeCons(label, ann, closure) => if depth == u32::MAX || fuel == 0 {
            Err(NbeError::DepthLimit)
        } else {
            match spec_quote(ann, depth, ctx, fuel) {
                Ok(tann) => match spec_instantiate(
                    closure,
                    &spec_local(depth, label.0),
                    ctx,
                    fuel,
                ) {
                    Ok(vrest) => match spec_quote(
                        &vrest,
                        (depth + 1) as u32,
                        ctx,
                        (fuel - 1) as u64,
                    ) {
                        Ok(Term::RecordType(fields)) => Ok(
                            Term::RecordType(
                                FieldList::Cons(*label, Box::new(tann), Box::new(fields)),
                            ),
                        ),
                        Ok(_) => Err(NbeError::NotARecordType),
                        Err(e) => Err(e),
                    },
                    Err(e) => Err(e),
                },
                Err(e) => Err(e),
            }
        },
        Value::RecordIntro(fields) => match spec_quote_field_values(fields, depth, ctx, fuel) {
            Ok(tfields) => Ok(Term::RecordIntro(tfields)),
            Err(e) => Err(e),
        },
        Value::ArrayIntro(elems) => match spec_quote_values(elems, depth, ctx, fuel) {
            Ok(telems) => Ok(Term::ArrayIntro(telems)),
            Err(e) => Err(e),
        },
        Value::Neutral(n) => spec_quote_neutral(n, depth, ctx, fuel),
    }
}

/// Read back the elements of an array value.
pub open spec fn spec_quote_values(elems: &ValueList, depth: u32, ctx: &Context, fuel: u64) ->
    Result<crate::core_syntax::TermList, NbeError>
    decreases fuel, 1int, *elems,
{
    match elems {
        ValueList::Nil => Ok(crate::core_syntax::TermList::Nil),
        ValueList::Cons(v, rest) => match spec_quote(v, depth, ctx, fuel) {
            Ok(t) => match spec_quote_values(rest, depth, ctx, fuel) {
                Ok(ts) => Ok(crate::core_syntax::TermList::Cons(Box::new(t), Box::new(ts))),
                Err(e) => Err(e),
            },
            Err(e) => Err(e),
        },
    }
}

/// Read back the fields of a record value.
pub open spec fn spec_quote_field_values(
    fields: &FieldValueList,
    depth: u32,
    ctx: &Context,
    fuel: u64,
) -> Result<FieldList, NbeError>
    decreases fuel, 1int, *fields,
{
    match fields {
        FieldValueList::Nil => Ok(FieldList::Nil),
        FieldValueList::Cons(label, v, rest) => match spec_quote(v, depth, ctx, fuel) {
            Ok(t) => match spec_quote_field_values(rest, depth, ctx, fuel) {
                Ok(ts) => Ok(FieldList::Cons(*label, Box::new(t), Box::new(ts))),
                Err(e) => Err(e),
            },
            Err(e) => Err(e),
        },
    }
}

/// Read back a neutral as the core term it is stuck on.
pub open spec fn spec_quote_neutral(n: &Neutral, depth: u32, ctx: &Context, fuel: u64) -> Result<
    Term,
    NbeError,
>
    decreases fuel, 1int, *n,
{
    match n {
        Neutral::Var(NVar::Free(f)) => Ok(Term::Var(Var::Free(*f))),
        Neutral::Var(NVar::Local(level, hint)) => if *level < depth {
            Ok(Term::Var(Var::Bound((depth - 1 - *level) as u32, *hint)))
        } else {
            Err(NbeError::UnboundVariable)
        },
        Neutral::App(head, arg) => match spec_quote_neutral(head, depth, ctx, fuel) {
            Ok(th) => match spec_quote(arg, depth, ctx, fuel) {
                Ok(ta) => Ok(Term::FunApp(Box::new(th), Box::new(ta))),
                Err(e) => Err(e),
            },
            Err(e) => Err(e),
        },
        Neutral::Proj(head, label) => match spec_quote_neutral(head, depth, ctx, fuel) {
            Ok(th) => Ok(Term::RecordProj(Box::new(th), *label)),
            Err(e) => Err(e),
        },
        Neutral::Case(head, env, clauses) => match spec_quote_neutral(head, depth, ctx, fuel) {
            Ok(th) => match spec_quote_clauses(clauses, env, depth, ctx, fuel) {
                Ok(tclauses) => Ok(Term::Case(Box::new(th), tclauses)),
                Err(e) => Err(e),
            },
            Err(e) => Err(e),
        },
    }
}

/// Read back the clauses of a stuck case: each body is evaluated in the
/// suspended environment — under the fresh local variable when its
/// pattern binds one — and read back at the deeper level.
pub open spec fn spec_quote_clauses(
    clauses: &ClauseList,
    env: &Env,
    depth: u32,
    ctx: &Context,
    fuel: u64,
) -> Result<ClauseList, NbeError>
    decreases fuel, 0int, *clauses,
{
    match clauses {
        ClauseList::Nil => Ok(ClauseList::Nil),
        ClauseList::Cons(pattern, body, rest) => if depth == u32::MAX || fuel == 0 {
            Err(NbeError::DepthLimit)
        } else {
            let quoted_body = match pattern {
                Pattern::Binder(hint) => match spec_eval(
                    body,
                    &Env::Cons(Box::new(spec_local(depth, *hint)), Box::new(*env)),
                    ctx,
                    (fuel - 1) as u64,
                ) {
                    Ok(vbody) => spec_quote(&vbody, (depth + 1) as u32, ctx, (fuel - 1) as u64),
                    Err(e) => Err(e),
                },
                _ => match spec_eval(body, env, ctx, (fuel - 1) as u64) {
                    Ok(vbody) => spec_quote(&vbody, depth, ctx, (fuel - 1) as u64),
                    Err(e) => Err(e),
                },
            };
            match quoted_body {
                Ok(tbody) => match spec_quote_clauses(rest, env, depth, ctx, fuel) {
                    Ok(trest) => Ok(ClauseList::Cons(*pattern, Box::new(tbody), Box::new(trest))),
                    Err(e) => Err(e),
                },
                Err(e) => Err(e),
            }
        },
    }
}

/// Read a value back into a normal-form core term. See [`spec_quote`].
pub fn quote(v: &Value, depth: u32, ctx: &Context, fuel: u64) -> (r: Result<Term, NbeError>)
    ensures
        r == spec_quote(v, depth, ctx, fuel),
    decreases fuel, 1int, *v,
{
    match v {
        Value::Universe(level) => Ok(Term::Universe(*level)),
        Value::Literal(l) => Ok(Term::Literal(l.clone())),
        Value::FunType(hint, ann, closure) => if depth == u32::MAX || fuel == 0 {
            Err(NbeError::DepthLimit)
        } else {
            match quote(ann, depth, ctx, fuel) {
                Ok(tann) => match instantiate(closure, &local(depth, hint), ctx, fuel) {
                    Ok(vbody) => match quote(&vbody, depth + 1, ctx, fuel - 1) {
                        Ok(tbody) => Ok(
                            Term::FunType(hint.clone(), Box::new(tann), Box::new(tbody)),
                        ),
                        Err(e) => Err(e),
                    },
                    Err(e) => Err(e),
                },
                Err(e) => Err(e),
            }
        },
        Value::FunIntro(hint, closure) => if depth == u32::MAX || fuel == 0 {
            Err(NbeError::DepthLimit)
        } else {
            match instantiate(closure, &local(depth, hint), ctx, fuel) {
                Ok(vbody) => match quote(&vbody, depth + 1, ctx, fuel - 1) {
                    Ok(tbody) => Ok(Term::FunIntro(hint.clone(), Box::new(tbody))),
                    Err(e) => Err(e),
                },
                Err(e) => Err(e),
            }
        },
        Value::RecordTypeNil => Ok(Term::RecordType(FieldList::Nil)),
        Value::RecordTypeCons(label, ann, closure) => if depth == u32::MAX || fuel == 0 {
            Err(NbeError::DepthLimit)
        } else {
            match quote(ann, depth, ctx, fuel) {
                Ok(tann) => match instantiate(closure, &local(depth, &label.0), ctx, fuel) {
                    Ok(vrest) => match quote(&vrest, depth + 1, ctx, fuel - 1) {
                        Ok(Term::RecordType(fields)) => Ok(
                            Term::RecordType(
                                FieldList::Cons(label.clone(), Box::new(tann), Box::new(fields)),
                            ),
                        ),
                        Ok(_) => Err(NbeError::NotARecordType),
                        Err(e) => Err(e),
                    },
                    Err(e) => Err(e),
                },
                Err(e) => Err(e),
            }
        },
        Value::RecordIntro(fields) => match quote_field_values(fields, depth, ctx, fuel) {
            Ok(tfields) => Ok(Term::RecordIntro(tfields)),
            Err(e) => Err(e),
        },
        Value::ArrayIntro(elems) => match quote_values(elems, depth, ctx, fuel) {
            Ok(telems) => Ok(Term::ArrayIntro(telems)),
            Err(e) => Err(e),
        },
        Value::Neutral(n) => quote_neutral(n, depth, ctx, fuel),
    }
}

/// The neutral occurrence of the fresh local variable at level `depth`.
fn local(depth: u32, hint: &String) -> (r: Value)
    ensures
        r == spec_local(depth, *hint),
{
    Value::Neutral(Box::new(Neutral::Var(NVar::Local(depth, hint.clone()))))
}

/// Read back array elements. See [`spec_quote_values`].
pub fn quote_values(elems: &ValueList, depth: u32, ctx: &Context, fuel: u64) -> (r: Result<
    crate::core_syntax::TermList,
    NbeError,
>)
    ensures
        r == spec_quote_values(elems, depth, ctx, fuel),
    decreases fuel, 1int, *elems,
{
    match elems {
        ValueList::Nil => Ok(crate::core_syntax::TermList::Nil),
        ValueList::Cons(v, rest) => match quote(v, depth, ctx, fuel) {
            Ok(t) => match quote_values(rest, depth, ctx, fuel) {
                Ok(ts) => Ok(crate::core_syntax::TermList::Cons(Box::new(t), Box::new(ts))),
                Err(e) => Err(e),
            },
            Err(e) => Err(e),
        },
    }
}

/// Read back record fields. See [`spec_quote_field_values`].
pub fn quote_field_values(fields: &FieldValueList, depth: u32, ctx: &Context, fuel: u64) -> (r:
    Result<FieldList, NbeError>)
    ensures
        r == spec_quote_field_values(fields, depth, ctx, fuel),
    decreases fuel, 1int, *fields,
{
    match fields {
        FieldValueList::Nil => Ok(FieldList::Nil),
        FieldValueList::Cons(label, v, rest) => match quote(v, depth, ctx, fuel) {
            Ok(t) => match quote_field_values(rest, depth, ctx, fuel) {
                Ok(ts) => Ok(FieldList::Cons(label.clone(), Box::new(t), Box::new(ts))),
                Err(e) => Err(e),
            },
            Err(e) => Err(e),
        },
    }
}

/// Read back a neutral. See [`spec_quote_neutral`].
pub fn quote_neutral(n: &Neutral, depth: u32, ctx: &Context, fuel: u64) -> (r: Result<
    Term,
    NbeError,
>)
    ensures
        r == spec_quote_neutral(n, depth, ctx, fuel),
    decreases fuel, 1int, *n,
{
    match n {
        Neutral::Var(NVar::Free(f)) => Ok(Term::Var(Var::Free(f.clone()))),
        Neutral::Var(NVar::Local(level, hint)) => if *level < depth {
            Ok(Term::Var(Var::Bound(depth - 1 - *level, hint.clone())))
        } else {
            Err(NbeError::UnboundVariable)
        },
        Neutral::App(head, arg) => match quote_neutral(head, depth, ctx, fuel) {
            Ok(th) => match quote(arg, depth, ctx, fuel) {
                Ok(ta) => Ok(Term::FunApp(Box::new(th), Box::new(ta))),
                Err(e) => Err(e),
            },
            Err(e) => Err(e),
        },
        Neutral::Proj(head, label) => match quote_neutral(head, depth, ctx, fuel) {
            Ok(th) => Ok(Term::RecordProj(Box::new(th), label.clone())),
            Err(e) => Err(e),
        },
        Neutral::Case(head, env, clauses) => match quote_neutral(head, depth, ctx, fuel) {
            Ok(th) => match quote_clauses(clauses, env, depth, ctx, fuel) {
                Ok(tclauses) => Ok(Term::Case(Box::new(th), tclauses)),
                Err(e) => Err(e),
            },
            Err(e) => Err(e),
        },
    }
}

/// Read back stuck case clauses. See [`spec_quote_clauses`].
pub fn quote_clauses(clauses: &ClauseList, env: &Env, depth: u32, ctx: &Context, fuel: u64) -> (r:
    Result<ClauseList, NbeError>)
    ensures
        r == spec_quote_clauses(clauses, env, depth, ctx, fuel),
    decreases fuel, 0int, *clauses,
{
    match clauses {
        ClauseList::Nil => Ok(ClauseList::Nil),
        ClauseList::Cons(pattern, body, rest) => if depth == u32::MAX || fuel == 0 {
            Err(NbeError::DepthLimit)
        } else {
            let quoted_body = match pattern {
                Pattern::Binder(hint) => {
                    let new_env = Env::Cons(Box::new(local(depth, hint)), Box::new(env.clone()));
                    match eval(body, &new_env, ctx, fuel - 1) {
                        Ok(vbody) => quote(&vbody, depth + 1, ctx, fuel - 1),
                        Err(e) => Err(e),
                    }
                },
                _ => match eval(body, env, ctx, fuel - 1) {
                    Ok(vbody) => quote(&vbody, depth, ctx, fuel - 1),
                    Err(e) => Err(e),
                },
            };
            match quoted_body {
                Ok(tbody) => match quote_clauses(rest, env, depth, ctx, fuel) {
                    Ok(trest) => Ok(
                        ClauseList::Cons(pattern.clone(), Box::new(tbody), Box::new(trest)),
                    ),
                    Err(e) => Err(e),
                },
                Err(e) => Err(e),
            }
        },
    }
}

/// Whether two values are definitionally equal at binder depth `depth`:
/// both read back to the same normal form, up to binder hints.
pub open spec fn spec_values_equal(a: &Value, b: &Value, depth: u32, ctx: &Context, fuel: u64) ->
    Result<bool, NbeError> {
    match spec_quote(a, depth, ctx, fuel) {
        Ok(ta) => match spec_quote(b, depth, ctx, fuel) {
            Ok(tb) => Ok(term_eq_spec(&ta, &tb)),
            Err(e) => Err(e),
        },
        Err(e) => Err(e),
    }
}

/// Decide definitional equality of two values. See [`spec_values_equal`].
pub fn values_equal(a: &Value, b: &Value, depth: u32, ctx: &Context, fuel: u64) -> (r: Result<
    bool,
    NbeError,
>)
    ensures
        r == spec_values_equal(a, b, depth, ctx, fuel),
{
    match quote(a, depth, ctx, fuel) {
        Ok(ta) => match quote(b, depth, ctx, fuel) {
            Ok(tb) => Ok(term_eq(&ta, &tb)),
            Err(e) => Err(e),
        },
        Err(e) => Err(e),
    }
}

/// The normal form of a core term: evaluate it, then read the value back
/// at the given binder depth.
pub open spec fn spec_normalize(term: &Term, env: &Env, depth: u32, ctx: &Context, fuel: u64) ->
    Result<Term, NbeError> {
    match spec_eval(term, env, ctx, fuel) {
        Ok(v) => spec_quote(&v, depth, ctx, fuel),
        Err(e) => Err(e),
    }
}

/// Normalize a core term. See [`spec_normalize`].
pub fn normalize(term: &Term, env: &Env, depth: u32, ctx: &Context, fuel: u64) -> (r: Result<
    Term,
    NbeError,
>)
    ensures
        r == spec_normalize(term, env, depth, ctx, fuel),
{
    match eval(term, env, ctx, fuel) {
        Ok(v) => quote(&v, depth, ctx, fuel),
        Err(e) => Err(e),
    }
}

} // verus!
