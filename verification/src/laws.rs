//! The laws the library keeps, stated over the specification functions
//! and proved once and for all.
//!
//! Where a law holds only on a fragment — the round trip on first-order
//! normal forms, the check/infer consistency on the shapes whose check
//! delegates to infer — the lemma says so in its `requires`, and its doc
//! comment names the fragment.

use vstd::prelude::*;

use crate::builtins::{prelude_ids, Prelude};
use crate::concrete;
use crate::context::Context;
use crate::core_syntax::{
    clause_list_eq_spec,
    field_list_eq_spec,
    term_eq_spec,
    term_list_eq_spec,
    ClauseList,
    FieldList,
    IntType,
    Literal as CoreLiteral,
    Term as CoreTerm,
    TermList,
};
use crate::domain::{Env, NVar, Neutral, Value};
use crate::elaborate::{
    spec_check,
    spec_elab_item,
    spec_infer,
    spec_infer_let,
    spec_nbe_error,
    spec_term_list_len,
    ItemLog,
    Scope,
};
use crate::errors::TypeError;
use crate::normalize::{spec_eval, spec_eval_fields, spec_eval_list, spec_normalize, spec_quote, spec_quote_field_values, spec_quote_values};
use crate::raw;
use crate::span::Span;
use crate::var::Var;

verus! {

/// Structural equality of core terms is reflexive.
pub proof fn lemma_term_eq_refl(t: &CoreTerm)
    ensures
        term_eq_spec(t, t),
    decreases *t,
{
    match t {
        CoreTerm::FunType(_, ann, body) => {
            lemma_term_eq_refl(ann);
            lemma_term_eq_refl(body);
        },
        CoreTerm::FunIntro(_, body) => {
            lemma_term_eq_refl(body);
        },
        CoreTerm::FunApp(head, arg) => {
            lemma_term_eq_refl(head);
            lemma_term_eq_refl(arg);
        },
        CoreTerm::ArrayIntro(elems) => {
            lemma_term_list_eq_refl(elems);
        },
        CoreTerm::RecordType(fields) => {
            lemma_field_list_eq_refl(fields);
        },
        CoreTerm::RecordIntro(fields) => {
            lemma_field_list_eq_refl(fields);
        },
        CoreTerm::RecordProj(head, _) => {
            lemma_term_eq_refl(head);
        },
        CoreTerm::Case(head, clauses) => {
            lemma_term_eq_refl(head);
            lemma_clause_list_eq_refl(clauses);
        },
        CoreTerm::Let(_, def, body) => {
            lemma_term_eq_refl(def);
            lemma_term_eq_refl(body);
        },
        _ => {},
    }
}

/// Elementwise reflexivity for term lists.
pub proof fn lemma_term_list_eq_refl(l: &TermList)
    ensures
        term_list_eq_spec(l, l),
    decreases *l,
{
    match l {
        TermList::Nil => {},
        TermList::Cons(t, rest) => {
            lemma_term_eq_refl(t);
            lemma_term_list_eq_refl(rest);
        },
    }
}

/// Elementwise reflexivity for field lists.
pub proof fn lemma_field_list_eq_refl(l: &FieldList)
    ensures
        field_list_eq_spec(l, l),
    decreases *l,
{
    match l {
        FieldList::Nil => {},
        FieldList::Cons(_, t, rest) => {
            lemma_term_eq_refl(t);
            lemma_field_list_eq_refl(rest);
        },
    }
}

/// Elementwise reflexivity for clause lists.
pub proof fn lemma_clause_list_eq_refl(l: &ClauseList)
    ensures
        clause_list_eq_spec(l, l),
    decreases *l,
{
    match l {
        ClauseList::Nil => {},
        ClauseList::Cons(p, t, rest) => {
            lemma_term_eq_refl(t);
            lemma_clause_list_eq_refl(rest);
        },
    }
}

/// The first-order normal forms: universes, literals, free variables
/// with no definition in the context, and arrays and records of such.
/// These are their own normal form, whatever the environment.
pub open spec fn is_atomic_normal(t: &CoreTerm, ctx: &Context) -> bool
    decreases *t,
{
    match t {
        CoreTerm::Universe(_) => true,
        CoreTerm::Literal(_) => true,
        CoreTerm::Var(Var::Free(f)) => ctx.lookup_value_spec(f.id) is None,
        CoreTerm::ArrayIntro(elems) => list_atomic_normal(elems, ctx),
        CoreTerm::RecordIntro(fields) => fields_atomic_normal(fields, ctx),
        _ => false,
    }
}

/// Elementwise [`is_atomic_normal`].
pub open spec fn list_atomic_normal(l: &TermList, ctx: &Context) -> bool
    decreases *l,
{
    match l {
        TermList::Nil => true,
        TermList::Cons(t, rest) => is_atomic_normal(t, ctx) && list_atomic_normal(rest, ctx),
    }
}

/// Elementwise [`is_atomic_normal`].
pub open spec fn fields_atomic_normal(l: &FieldList, ctx: &Context) -> bool
    decreases *l,
{
    match l {
        FieldList::Nil => true,
        FieldList::Cons(_, t, rest) => is_atomic_normal(t, ctx) && fields_atomic_normal(
            rest,
            ctx,
        ),
    }
}

/// Round trip on the first-order fragment: evaluating a first-order
/// normal form and reading the value back gives the term itself, in any
/// environment, at any depth, with any fuel. Normalizing is therefore
/// idempotent on everything it produces from this fragment.
pub proof fn lemma_atomic_normal_round_trip(
    t: &CoreTerm,
    env: &Env,
    depth: u32,
    ctx: &Context,
    fuel: u64,
)
    requires
        is_atomic_normal(t, ctx),
    ensures
        spec_eval(t, env, ctx, fuel) matches Ok(v) && spec_quote(&v, depth, ctx, fuel) == Ok::<
            CoreTerm,
            crate::errors::NbeError,
        >(*t),
        spec_normalize(t, env, depth, ctx, fuel) == Ok::<CoreTerm, crate::errors::NbeError>(*t),
    decreases *t,
{
    match t {
        CoreTerm::Universe(level) => {
            assert(spec_eval(t, env, ctx, fuel) == Ok::<Value, crate::errors::NbeError>(
                Value::Universe(*level),
            ));
            assert(spec_quote(&Value::Universe(*level), depth, ctx, fuel) == Ok::<
                CoreTerm,
                crate::errors::NbeError,
            >(*t));
        },
        CoreTerm::Literal(l) => {
            assert(spec_eval(t, env, ctx, fuel) == Ok::<Value, crate::errors::NbeError>(
                Value::Literal(*l),
            ));
            assert(spec_quote(&Value::Literal(*l), depth, ctx, fuel) == Ok::<
                CoreTerm,
                crate::errors::NbeError,
            >(*t));
        },
        CoreTerm::Var(var) => {
            match var {
                Var::Free(f) => {
                    let v = Value::Neutral(
                        Box::new(Neutral::Var(NVar::Free(*f))),
                    );
                    assert(spec_eval(t, env, ctx, fuel) == Ok::<Value, crate::errors::NbeError>(v));
                    assert(crate::normalize::spec_quote_neutral(
                        &Neutral::Var(NVar::Free(*f)),
                        depth,
                        ctx,
                        fuel,
                    ) == Ok::<CoreTerm, crate::errors::NbeError>(*t));
                    assert(spec_quote(&v, depth, ctx, fuel) == Ok::<
                        CoreTerm,
                        crate::errors::NbeError,
                    >(*t));
                },
                _ => {},
            }
        },
        CoreTerm::ArrayIntro(elems) => {
            lemma_atomic_normal_list_round_trip(elems, env, depth, ctx, fuel);
        },
        CoreTerm::RecordIntro(fields) => {
            lemma_atomic_normal_fields_round_trip(fields, env, depth, ctx, fuel);
        },
        _ => {},
    }
}

/// Elementwise round trip for array elements.
pub proof fn lemma_atomic_normal_list_round_trip(
    l: &TermList,
    env: &Env,
    depth: u32,
    ctx: &Context,
    fuel: u64,
)
    requires
        list_atomic_normal(l, ctx),
    ensures
        spec_eval_list(l, env, ctx, fuel) matches Ok(vs) && spec_quote_values(
            &vs,
            depth,
            ctx,
            fuel,
        ) == Ok::<TermList, crate::errors::NbeError>(*l),
    decreases *l,
{
    match l {
        TermList::Nil => {},
        TermList::Cons(t, rest) => {
            lemma_atomic_normal_round_trip(t, env, depth, ctx, fuel);
            lemma_atomic_normal_list_round_trip(rest, env, depth, ctx, fuel);
        },
    }
}

/// Elementwise round trip for record fields.
pub proof fn lemma_atomic_normal_fields_round_trip(
    l: &FieldList,
    env: &Env,
    depth: u32,
    ctx: &Context,
    fuel: u64,
)
    requires
        fields_atomic_normal(l, ctx),
    ensures
        spec_eval_fields(l, env, ctx, fuel) matches Ok(vs) && spec_quote_field_values(
            &vs,
            depth,
            ctx,
            fuel,
        ) == Ok::<FieldList, crate::errors::NbeError>(*l),
    decreases *l,
{
    match l {
        FieldList::Nil => {},
        FieldList::Cons(_, t, rest) => {
            lemma_atomic_normal_round_trip(t, env, depth, ctx, fuel);
            lemma_atomic_normal_fields_round_trip(rest, env, depth, ctx, fuel);
        },
    }
}

/// Normalizing twice is the same as normalizing once, on the
/// first-order fragment: what [`spec_normalize`] returns for a
/// first-order normal form normalizes to itself again.
pub proof fn lemma_normalize_idempotent_atomic(
    t: &CoreTerm,
    env: &Env,
    depth: u32,
    ctx: &Context,
    fuel: u64,
)
    requires
        is_atomic_normal(t, ctx),
    ensures
        spec_normalize(t, env, depth, ctx, fuel) matches Ok(n) && spec_normalize(
            &n,
            env,
            depth,
            ctx,
            fuel,
        ) == Ok::<CoreTerm, crate::errors::NbeError>(n),
{
    lemma_atomic_normal_round_trip(t, env, depth, ctx, fuel);
}

/// Normal forms one step beyond the first-order fragment: function
/// types and function introductions whose annotation and body are
/// themselves in the fragment — in particular, bodies that do not touch
/// their binder. Going under each binder costs the normalizer one unit
/// of fuel and one level of depth, so the fragment carries its binder
/// height.
pub open spec fn is_closed_fun_normal(t: &CoreTerm, ctx: &Context) -> bool
    decreases *t,
{
    if is_atomic_normal(t, ctx) {
        true
    } else {
        match t {
            CoreTerm::FunType(_, ann, body) => is_closed_fun_normal(ann, ctx)
                && is_closed_fun_normal(body, ctx),
            CoreTerm::FunIntro(_, body) => is_closed_fun_normal(body, ctx),
            _ => false,
        }
    }
}

/// The number of binders [`is_closed_fun_normal`] goes under.
pub open spec fn binder_height(t: &CoreTerm) -> nat
    decreases *t,
{
    match t {
        CoreTerm::FunType(_, ann, body) => 1 + if binder_height(ann) > binder_height(body) {
            binder_height(ann)
        } else {
            binder_height(body)
        },
        CoreTerm::FunIntro(_, body) => 1 + binder_height(body),
        _ => 0,
    }
}

/// Round trip one step beyond the first-order fragment: a function type
/// or function introduction whose parts do not touch their binders
/// evaluates to a closure, and reading the closure back under a fresh
/// local variable returns the original term — provided the fuel covers
/// the binder height and the depth does not overflow.
pub proof fn lemma_closed_fun_round_trip(
    t: &CoreTerm,
    env: &Env,
    depth: u32,
    ctx: &Context,
    fuel: u64,
)
    requires
        is_closed_fun_normal(t, ctx),
        fuel >= binder_height(t),
        depth + binder_height(t) <= u32::MAX,
    ensures
        spec_eval(t, env, ctx, fuel) matches Ok(v) && spec_quote(&v, depth, ctx, fuel) == Ok::<
            CoreTerm,
            crate::errors::NbeError,
        >(*t),
        spec_normalize(t, env, depth, ctx, fuel) == Ok::<CoreTerm, crate::errors::NbeError>(*t),
    decreases *t,
{
    if is_atomic_normal(t, ctx) {
        lemma_atomic_normal_round_trip(t, env, depth, ctx, fuel);
    } else {
        match t {
            CoreTerm::FunType(hint, ann, body) => {
                lemma_closed_fun_round_trip(ann, env, depth, ctx, fuel);
                let va = spec_eval(ann, env, ctx, fuel)->Ok_0;
                let inner_env = Env::Cons(
                    Box::new(crate::normalize::spec_local(depth, *hint)),
                    Box::new(*env),
                );
                lemma_closed_fun_round_trip(
                    body,
                    &inner_env,
                    (depth + 1) as u32,
                    ctx,
                    (fuel - 1) as u64,
                );
            },
            CoreTerm::FunIntro(hint, body) => {
                let inner_env = Env::Cons(
                    Box::new(crate::normalize::spec_local(depth, *hint)),
                    Box::new(*env),
                );
                lemma_closed_fun_round_trip(
                    body,
                    &inner_env,
                    (depth + 1) as u32,
                    ctx,
                    (fuel - 1) as u64,
                );
            },
            _ => {},
        }
    }
}

/// The raw shapes whose `check` either delegates to `infer` followed by
/// a definitional equality test, or settles literals directly, or can
/// never be inferred at all. On these, the two judgments are consistent.
pub open spec fn delegating_shape(e: &raw::Term) -> bool {
    match e {
        raw::Term::Ann(_, _, _) => true,
        raw::Term::Universe(_, _) => true,
        raw::Term::Var(_, _) => true,
        raw::Term::FunType(_, _, _, _) => true,
        raw::Term::FunApp(_, _, _) => true,
        raw::Term::RecordType(_, _) => true,
        raw::Term::RecordProj(_, _, _, _) => true,
        _ => false,
    }
}

/// Soundness of check with respect to infer, on the delegating and
/// literal shapes: if `infer` synthesizes `(c, ty)` for `e`, then
/// checking `e` against `ty` elaborates to the same core term `c` — or,
/// for the delegating shapes only, fails with the readback fault of
/// `ty` itself when the equality test cannot read `ty` back within the
/// fuel. The remaining shapes — function introductions, non-empty
/// arrays and record introductions, non-empty case expressions, `let`
/// blocks — either cannot be inferred at all, so the claim is empty for
/// them, or would need the full induction this lemma does not carry
/// out.
pub proof fn lemma_infer_check_consistent(
    e: &raw::Term,
    scope: &Scope,
    ctx: &Context,
    prelude: &Prelude,
    fuel: u64,
    c: CoreTerm,
    ty: Value,
)
    requires
        delegating_shape(e) || e matches raw::Term::Literal(_),
        spec_infer(e, scope, ctx, prelude, fuel) == Ok::<(CoreTerm, Value), TypeError>((c, ty)),
    ensures
        e matches raw::Term::Literal(_) ==> spec_check(e, &ty, scope, ctx, prelude, fuel) == Ok::<
            CoreTerm,
            TypeError,
        >(c),
        delegating_shape(e) ==> match spec_quote(&ty, scope.depth, ctx, fuel) {
            Ok(_) => spec_check(e, &ty, scope, ctx, prelude, fuel) == Ok::<CoreTerm, TypeError>(c),
            Err(qe) => spec_check(e, &ty, scope, ctx, prelude, fuel) == Err::<CoreTerm, TypeError>(
                spec_nbe_error(qe, e.span_spec()),
            ),
        },
{
    assert(fuel >= 1) by {
        if fuel == 0 {
            assert(spec_infer(e, scope, ctx, prelude, fuel) is Err);
        }
    }
    match e {
        raw::Term::Literal(literal) => {
            match literal {
                concrete::Literal::String(_, lit) => {
                    assert(spec_check(e, &ty, scope, ctx, prelude, fuel) == Ok::<
                        CoreTerm,
                        TypeError,
                    >(c));
                },
                concrete::Literal::Char(_, lit) => {
                    assert(spec_check(e, &ty, scope, ctx, prelude, fuel) == Ok::<
                        CoreTerm,
                        TypeError,
                    >(c));
                },
                _ => {
                    assert(spec_infer(e, scope, ctx, prelude, fuel) is Err);
                },
            }
        },
        _ => {
            match spec_quote(&ty, scope.depth, ctx, fuel) {
                Ok(tq) => {
                    lemma_term_eq_refl(&tq);
                    assert(crate::normalize::spec_values_equal(&ty, &ty, scope.depth, ctx, fuel)
                        == Ok::<bool, crate::errors::NbeError>(true));
                    assert(crate::elaborate::spec_check_fallback(e, &ty, scope, ctx, prelude, fuel)
                        == Ok::<CoreTerm, TypeError>(c));
                },
                Err(qe) => {
                    assert(crate::elaborate::spec_check_fallback(e, &ty, scope, ctx, prelude, fuel)
                        == Err::<CoreTerm, TypeError>(spec_nbe_error(qe, e.span_spec())));
                },
            }
        },
    }
}

/// A second declaration of an already declared name fails with
/// `DuplicateDeclarations`, carrying the original and the duplicate
/// spans: a module beginning `name : T; name : T'` cannot elaborate
/// past the second declaration.
#[verifier::rlimit(80)]
pub proof fn lemma_duplicate_declarations(
    first_span: Span,
    second_span: Span,
    name: String,
    name2: String,
    first_ann: &raw::Term,
    second_ann: &raw::Term,
    rest: &raw::ItemList,
    body: &raw::Term,
    scope: &Scope,
    ctx: &Context,
    prelude: &Prelude,
    fuel: u64,
    log1: ItemLog,
)
    requires
        name2@ == name@,
        fuel >= 3,
        spec_elab_item(
            &raw::Item::Declaration(first_span, name, Box::new(*first_ann)),
            &ItemLog::Nil,
            scope,
            ctx,
            prelude,
            (fuel - 1) as u64,
        ) == Ok::<crate::elaborate::ItemOutcome, TypeError>(
            crate::elaborate::ItemOutcome::Declared(log1),
        ),
    ensures
        spec_infer_let(
            &raw::ItemList::Cons(
                Box::new(raw::Item::Declaration(first_span, name, Box::new(*first_ann))),
                Box::new(
                    raw::ItemList::Cons(
                        Box::new(
                            raw::Item::Declaration(second_span, name2, Box::new(*second_ann)),
                        ),
                        Box::new(*rest),
                    ),
                ),
            ),
            &ItemLog::Nil,
            body,
            scope,
            ctx,
            prelude,
            fuel,
        ) == Err::<(CoreTerm, Value), TypeError>(
            TypeError::DuplicateDeclarations {
                original_span: first_span,
                duplicate_span: second_span,
                binder: name2,
            },
        ),
{
    // The first declaration succeeded, so it logged `name` with its
    // span and type; the second declaration finds it and reports the
    // duplicate.
    let f1 = (fuel - 1) as u64;
    let f2 = (f1 - 1) as u64;
    let item0 = raw::Item::Declaration(first_span, name, Box::new(*first_ann));
    let item1 = raw::Item::Declaration(second_span, name2, Box::new(*second_ann));
    assert(log1 matches ItemLog::Decl(n, s, _, rest_log) && n == name && s == first_span && *rest_log
        == ItemLog::Nil);
    match log1 {
        ItemLog::Decl(n0, s0, ty0, rest_log) => {
            assert(crate::elaborate::spec_log_find_def(&log1, name2@) is None);
            assert(crate::elaborate::spec_log_find_decl(&log1, name2@) == Some(
                (first_span, *ty0),
            ));
            let dup = TypeError::DuplicateDeclarations {
                original_span: first_span,
                duplicate_span: second_span,
                binder: name2,
            };
            assert(spec_elab_item(&item1, &log1, scope, ctx, prelude, f2) == Err::<
                crate::elaborate::ItemOutcome,
                TypeError,
            >(dup));
            assert(spec_infer_let(
                &raw::ItemList::Cons(Box::new(item1), Box::new(*rest)),
                &log1,
                body,
                scope,
                ctx,
                prelude,
                f1,
            ) == Err::<(CoreTerm, Value), TypeError>(dup));
        },
        _ => {},
    }
}

/// A declaration of an already defined name fails with
/// `DeclarationFollowedDefinition`, carrying the definition's span and
/// the declaration's span.
pub proof fn lemma_declaration_followed_definition(
    declaration_span: Span,
    definition_span: Span,
    name: String,
    ann: &raw::Term,
    log: &ItemLog,
    scope: &Scope,
    ctx: &Context,
    prelude: &Prelude,
    fuel: u64,
)
    requires
        fuel >= 1,
        crate::elaborate::spec_log_find_def(log, name@) == Some(definition_span),
    ensures
        spec_elab_item(
            &raw::Item::Declaration(declaration_span, name, Box::new(*ann)),
            log,
            scope,
            ctx,
            prelude,
            fuel,
        ) == Err::<crate::elaborate::ItemOutcome, TypeError>(
            TypeError::DeclarationFollowedDefinition {
                definition_span,
                declaration_span,
                binder: name,
            },
        ),
{
}

/// A second definition of an already defined name fails with
/// `DuplicateDefinitions`, carrying the original and the duplicate
/// spans.
pub proof fn lemma_duplicate_definitions(
    original_span: Span,
    duplicate_span: Span,
    name: String,
    def: &raw::Term,
    log: &ItemLog,
    scope: &Scope,
    ctx: &Context,
    prelude: &Prelude,
    fuel: u64,
)
    requires
        fuel >= 1,
        crate::elaborate::spec_log_find_def(log, name@) == Some(original_span),
    ensures
        spec_elab_item(
            &raw::Item::Definition(duplicate_span, name, Box::new(*def)),
            log,
            scope,
            ctx,
            prelude,
            fuel,
        ) == Err::<crate::elaborate::ItemOutcome, TypeError>(
            TypeError::DuplicateDefinitions { original_span, duplicate_span, binder: name },
        ),
{
}

/// Inferring a bare integer literal, with no expected type in sight,
/// fails with `AmbiguousIntLiteral` at the literal's span.
pub proof fn lemma_ambiguous_int_literal(
    span: Span,
    value: u64,
    format: concrete::IntFormat,
    scope: &Scope,
    ctx: &Context,
    prelude: &Prelude,
    fuel: u64,
)
    requires
        fuel >= 1,
    ensures
        spec_infer(
            &raw::Term::Literal(concrete::Literal::Int(span, value, format)),
            scope,
            ctx,
            prelude,
            fuel,
        ) == Err::<(CoreTerm, Value), TypeError>(TypeError::AmbiguousIntLiteral { span }),
{
}

/// Checking the same integer literal against a declared integer type —
/// here `S32` — succeeds, and elaborates to the core literal tagged
/// with that type.
pub proof fn lemma_int_literal_checks(
    span: Span,
    value: u64,
    format: concrete::IntFormat,
    scope: &Scope,
    ctx: &Context,
    prelude: &Prelude,
    fuel: u64,
)
    requires
        fuel >= 1,
        prelude_ids(prelude),
    ensures
        spec_check(
            &raw::Term::Literal(concrete::Literal::Int(span, value, format)),
            &Value::Neutral(Box::new(Neutral::Var(NVar::Free(prelude.s32_var)))),
            scope,
            ctx,
            prelude,
            fuel,
        ) == Ok::<CoreTerm, TypeError>(
            CoreTerm::Literal(CoreLiteral::Int(value, format, IntType::S32)),
        ),
{
}

/// Checking an array literal against an expected array type of another
/// length fails with `ArrayLengthMismatch`, reporting both lengths.
pub proof fn lemma_array_length_mismatch(
    span: Span,
    elems: &raw::TermList,
    expected_len: u64,
    len_format: concrete::IntFormat,
    len_type: IntType,
    elem_ty: Value,
    scope: &Scope,
    ctx: &Context,
    prelude: &Prelude,
    fuel: u64,
)
    requires
        fuel >= 1,
        spec_term_list_len(elems) != expected_len,
    ensures
        spec_check(
            &raw::Term::ArrayIntro(span, *elems),
            &Value::Neutral(
                Box::new(
                    Neutral::App(
                        Box::new(
                            Neutral::App(
                                Box::new(Neutral::Var(NVar::Free(prelude.array_var))),
                                Box::new(
                                    Value::Literal(
                                        CoreLiteral::Int(expected_len, len_format, len_type),
                                    ),
                                ),
                            ),
                        ),
                        Box::new(elem_ty),
                    ),
                ),
            ),
            scope,
            ctx,
            prelude,
            fuel,
        ) == Err::<CoreTerm, TypeError>(
            TypeError::ArrayLengthMismatch {
                span,
                found_len: spec_term_list_len(elems),
                expected_len,
            },
        ),
{
}

/// Checking a record introduction against a record type whose first
/// label differs fails with `LabelMismatch` at the first mismatched
/// position, naming both labels — not with a generic mismatch.
pub proof fn lemma_label_mismatch(
    span: Span,
    label_span: Span,
    label: raw::Label,
    expected_label: raw::Label,
    field_term: &raw::Term,
    rest: &raw::IntroFieldList,
    expected_ty: Value,
    rest_closure: crate::domain::Closure,
    scope: &Scope,
    ctx: &Context,
    prelude: &Prelude,
    fuel: u64,
)
    requires
        fuel >= 2,
        label.0@ != expected_label.0@,
    ensures
        spec_check(
            &raw::Term::RecordIntro(
                span,
                raw::IntroFieldList::Cons(
                    label_span,
                    label,
                    Box::new(*field_term),
                    Box::new(*rest),
                ),
            ),
            &Value::RecordTypeCons(expected_label, Box::new(expected_ty), rest_closure),
            scope,
            ctx,
            prelude,
            fuel,
        ) == Err::<CoreTerm, TypeError>(
            TypeError::LabelMismatch { span: label_span, found: label, expected: expected_label },
        ),
{
    let fields = raw::IntroFieldList::Cons(
        label_span,
        label,
        Box::new(*field_term),
        Box::new(*rest),
    );
    let expected = Value::RecordTypeCons(expected_label, Box::new(expected_ty), rest_closure);
    let f1 = (fuel - 1) as u64;
    assert(crate::elaborate::spec_check_record_fields(
        &fields,
        &expected,
        span,
        0,
        scope,
        ctx,
        prelude,
        f1,
    ) == Err::<FieldList, TypeError>(
        TypeError::LabelMismatch { span: label_span, found: label, expected: expected_label },
    ));
}

/// Inferring a bare hole always fails with `UnableToElaborateHole` and
/// no expected type: holes are never silently defaulted.
pub proof fn lemma_hole_never_infers(
    span: Span,
    scope: &Scope,
    ctx: &Context,
    prelude: &Prelude,
    fuel: u64,
)
    requires
        fuel >= 1,
    ensures
        spec_infer(&raw::Term::Hole(span), scope, ctx, prelude, fuel) == Err::<
            (CoreTerm, Value),
            TypeError,
        >(TypeError::UnableToElaborateHole { span, expected: Option::None }),
{
}

/// Checking a hole against a known expected type still fails, with
/// `UnableToElaborateHole` carrying that type, quoted: the checking
/// path never auto-resolves a hole either.
pub proof fn lemma_hole_never_checks(
    span: Span,
    expected: &Value,
    scope: &Scope,
    ctx: &Context,
    prelude: &Prelude,
    fuel: u64,
)
    requires
        fuel >= 1,
    ensures
        spec_check(&raw::Term::Hole(span), expected, scope, ctx, prelude, fuel) is Err,
        spec_quote(expected, scope.depth, ctx, fuel) matches Ok(t) ==> spec_check(
            &raw::Term::Hole(span),
            expected,
            scope,
            ctx,
            prelude,
            fuel,
        ) == Err::<CoreTerm, TypeError>(
            TypeError::UnableToElaborateHole { span, expected: Option::Some(Box::new(t)) },
        ),
{
}

} // verus!
