//! The normalizer on its own: reduction, stuck terms, and the faults it
//! reports on ill-formed core terms.

use pikelet_elab::builtins::prelude;
use pikelet_elab::concrete::IntFormat;
use pikelet_elab::core_syntax::{ClauseList, IntType, Literal, Pattern, Term};
use pikelet_elab::domain::Env;
use pikelet_elab::errors::{NbeError, TypeError};
use pikelet_elab::normalize::{eval, normalize};
use pikelet_elab::raw::Label;
use pikelet_elab::var::Var;

const FUEL: u64 = 10_000;

fn int_term(n: u64) -> Term {
    Term::Literal(Literal::Int(n, IntFormat::Dec, IntType::S32))
}

#[test]
fn literal_is_its_own_normal_form() {
    let (_p, ctx) = prelude();
    let normal = normalize(&int_term(7), &Env::Nil, 0, &ctx, FUEL).unwrap();
    assert!(pikelet_elab::core_syntax::term_eq(&normal, &int_term(7)));
}

#[test]
fn let_substitutes_its_definition() {
    let (_p, ctx) = prelude();
    let term = Term::Let(
        "x".to_owned(),
        Box::new(int_term(3)),
        Box::new(Term::Var(Var::Bound(0, "x".to_owned()))),
    );
    let normal = normalize(&term, &Env::Nil, 0, &ctx, FUEL).unwrap();
    assert!(pikelet_elab::core_syntax::term_eq(&normal, &int_term(3)));
}

#[test]
fn case_selects_the_matching_literal_clause() {
    let (_p, ctx) = prelude();
    let clauses = ClauseList::Cons(
        Pattern::Literal(Literal::Int(1, IntFormat::Dec, IntType::S32)),
        Box::new(int_term(10)),
        Box::new(ClauseList::Cons(
            Pattern::Binder("other".to_owned()),
            Box::new(int_term(20)),
            Box::new(ClauseList::Nil),
        )),
    );
    let term = Term::Case(Box::new(int_term(1)), clauses.clone());
    let normal = normalize(&term, &Env::Nil, 0, &ctx, FUEL).unwrap();
    assert!(pikelet_elab::core_syntax::term_eq(&normal, &int_term(10)));

    let fallthrough = Term::Case(Box::new(int_term(9)), clauses);
    let normal = normalize(&fallthrough, &Env::Nil, 0, &ctx, FUEL).unwrap();
    assert!(pikelet_elab::core_syntax::term_eq(&normal, &int_term(20)));
}

#[test]
fn binder_clause_binds_the_scrutinee() {
    let (_p, ctx) = prelude();
    let clauses = ClauseList::Cons(
        Pattern::Binder("v".to_owned()),
        Box::new(Term::Var(Var::Bound(0, "v".to_owned()))),
        Box::new(ClauseList::Nil),
    );
    let term = Term::Case(Box::new(int_term(5)), clauses);
    let normal = normalize(&term, &Env::Nil, 0, &ctx, FUEL).unwrap();
    assert!(pikelet_elab::core_syntax::term_eq(&normal, &int_term(5)));
}

#[test]
fn unbound_variable_is_a_fault() {
    let (_p, ctx) = prelude();
    let term = Term::Var(Var::Bound(5, "x".to_owned()));
    assert!(matches!(
        eval(&term, &Env::Nil, &ctx, FUEL),
        Err(NbeError::UnboundVariable)
    ));
}

#[test]
fn applying_a_literal_is_a_fault() {
    let (_p, ctx) = prelude();
    let term = Term::FunApp(Box::new(int_term(1)), Box::new(int_term(2)));
    assert!(matches!(
        eval(&term, &Env::Nil, &ctx, FUEL),
        Err(NbeError::AppNonFunction)
    ));
}

#[test]
fn projecting_from_a_literal_is_a_fault() {
    let (_p, ctx) = prelude();
    let term = Term::RecordProj(Box::new(int_term(1)), Label("x".to_owned()));
    assert!(matches!(
        eval(&term, &Env::Nil, &ctx, FUEL),
        Err(NbeError::ProjNonRecord)
    ));
}

#[test]
fn missing_field_is_a_fault() {
    let (_p, ctx) = prelude();
    let record = Term::RecordIntro(pikelet_elab::core_syntax::FieldList::Cons(
        Label("x".to_owned()),
        Box::new(int_term(1)),
        Box::new(pikelet_elab::core_syntax::FieldList::Nil),
    ));
    let term = Term::RecordProj(Box::new(record), Label("y".to_owned()));
    assert!(matches!(eval(&term, &Env::Nil, &ctx, FUEL), Err(NbeError::MissingField)));
}

#[test]
fn no_matching_clause_is_a_fault() {
    let (_p, ctx) = prelude();
    let clauses = ClauseList::Cons(
        Pattern::Literal(Literal::Int(1, IntFormat::Dec, IntType::S32)),
        Box::new(int_term(10)),
        Box::new(ClauseList::Nil),
    );
    let term = Term::Case(Box::new(int_term(2)), clauses);
    assert!(matches!(
        eval(&term, &Env::Nil, &ctx, FUEL),
        Err(NbeError::NoMatchingClause)
    ));
}

#[test]
fn diverging_reduction_hits_the_depth_limit() {
    let (_p, ctx) = prelude();
    // (\x => x x) (\x => x x) never reaches a normal form; the fuel
    // guard reports the depth limit instead of diverging
    let self_app = Term::FunIntro(
        "x".to_owned(),
        Box::new(Term::FunApp(
            Box::new(Term::Var(Var::Bound(0, "x".to_owned()))),
            Box::new(Term::Var(Var::Bound(0, "x".to_owned()))),
        )),
    );
    let omega = Term::FunApp(Box::new(self_app.clone()), Box::new(self_app));
    assert!(matches!(
        eval(&omega, &Env::Nil, &ctx, 1_000),
        Err(NbeError::DepthLimit)
    ));
}

#[test]
fn remaining_diagnostics_render() {
    let sp = pikelet_elab::span::Span { start: 0, end: 3 };
    let d = TypeError::BinderNeedsAnnotation { span: sp, binder: "x".to_owned() }.to_diagnostic();
    assert_eq!(d.message, "type annotation needed for the binder `x`");
    let d = TypeError::UndefinedImport { span: sp, name: "prelude".to_owned() }.to_diagnostic();
    assert_eq!(d.message, "cannot find import for `prelude`");
    let d = TypeError::RecordSizeMismatch { span: sp, found_size: 1, expected_size: 2 }
        .to_diagnostic();
    assert_eq!(d.message, "mismatched record size: expected 2 fields but found 1");
    assert_eq!(d.labels[0].message, "record with 1 fields");
    let d = TypeError::FunctionParamNeedsAnnotation {
        param_span: sp,
        var_span: None,
        name: "x".to_owned(),
    }
    .to_diagnostic();
    assert_eq!(d.message, "type annotation needed for the function parameter `x`");
}
