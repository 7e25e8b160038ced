//! Elaboration of raw terms: inference, checking, and the errors the
//! type checker reports.

use pikelet_elab::builtins::{prelude, Prelude};
use pikelet_elab::concrete::{IntFormat, Literal};
use pikelet_elab::context::Context;
use pikelet_elab::core_syntax::{
    IntType,
    Literal as CoreLiteral,
    Term as CoreTerm,
    TermList as CoreTermList,
};
use pikelet_elab::domain::{Closure, Env, NVar, Neutral, Value};
use pikelet_elab::elaborate::{check, infer, Scope};
use pikelet_elab::errors::TypeError;
use pikelet_elab::raw::{
    ClauseList,
    IntroFieldList,
    Item,
    ItemList,
    Label,
    Term,
    TermList,
    TypeFieldList,
};
use pikelet_elab::span::Span;
use pikelet_elab::var::Var;

const FUEL: u64 = 10_000;

fn sp(start: usize, end: usize) -> Span {
    Span { start, end }
}

fn neutral_of(prelude: &Prelude, pick: fn(&Prelude) -> &pikelet_elab::var::FreeVar) -> Value {
    Value::Neutral(Box::new(Neutral::Var(NVar::Free(pick(prelude).clone()))))
}

fn int_lit(start: usize, end: usize, value: u64) -> Term {
    Term::Literal(Literal::Int(sp(start, end), value, IntFormat::Dec))
}

fn s32_type(prelude: &Prelude) -> Value {
    neutral_of(prelude, |p| &p.s32_var)
}

fn array_type(prelude: &Prelude, len: u64, elem: Value) -> Value {
    Value::Neutral(Box::new(Neutral::App(
        Box::new(Neutral::App(
            Box::new(Neutral::Var(NVar::Free(prelude.array_var.clone()))),
            Box::new(Value::Literal(CoreLiteral::Int(len, IntFormat::Dec, IntType::U64))),
        )),
        Box::new(elem),
    )))
}

#[test]
fn bare_int_literal_is_ambiguous() {
    let (p, ctx) = prelude();
    let scope = Scope::new();
    let r = infer(&int_lit(0, 1, 7), &scope, &ctx, &p, FUEL);
    match r {
        Err(TypeError::AmbiguousIntLiteral { span }) => assert_eq!(span, sp(0, 1)),
        _ => panic!("expected an ambiguous integer literal"),
    }
}

#[test]
fn bare_float_literal_is_ambiguous() {
    let (p, ctx) = prelude();
    let scope = Scope::new();
    let term = Term::Literal(Literal::Float(
        sp(0, 3),
        1.5f64.to_bits(),
        pikelet_elab::concrete::FloatFormat::Dec,
    ));
    let r = infer(&term, &scope, &ctx, &p, FUEL);
    assert!(matches!(r, Err(TypeError::AmbiguousFloatLiteral { .. })));
}

#[test]
fn int_literal_checks_against_declared_type() {
    let (p, ctx) = prelude();
    let scope = Scope::new();
    let r = check(&int_lit(0, 1, 7), &s32_type(&p), &scope, &ctx, &p, FUEL);
    match r {
        Ok(CoreTerm::Literal(CoreLiteral::Int(7, IntFormat::Dec, IntType::S32))) => {}
        _ => panic!("expected the literal tagged with S32"),
    }
}

#[test]
fn int_literal_checked_against_string_mismatches() {
    let (p, ctx) = prelude();
    let scope = Scope::new();
    let string_ty = neutral_of(&p, |p| &p.string_var);
    let r = check(&int_lit(0, 1, 7), &string_ty, &scope, &ctx, &p, FUEL);
    assert!(matches!(r, Err(TypeError::LiteralMismatch { .. })));
}

#[test]
fn annotated_int_literal_infers() {
    let (p, ctx) = prelude();
    let scope = Scope::new();
    // 7 : S32
    let term = Term::Ann(
        sp(0, 7),
        Box::new(int_lit(0, 1, 7)),
        Box::new(Term::Var(sp(4, 7), Var::Free(p.s32_var.clone()))),
    );
    let (core, ty) = infer(&term, &scope, &ctx, &p, FUEL).expect("annotated literal infers");
    assert!(matches!(core, CoreTerm::Literal(CoreLiteral::Int(7, _, IntType::S32))));
    assert!(matches!(ty, Value::Neutral(_)));
}

#[test]
fn universe_inhabits_next_level() {
    let (p, ctx) = prelude();
    let scope = Scope::new();
    let (core, ty) = infer(&Term::Universe(sp(0, 4), 0), &scope, &ctx, &p, FUEL).unwrap();
    assert!(matches!(core, CoreTerm::Universe(0)));
    assert!(matches!(ty, Value::Universe(1)));
}

#[test]
fn hole_never_infers() {
    let (p, ctx) = prelude();
    let scope = Scope::new();
    let r = infer(&Term::Hole(sp(2, 3)), &scope, &ctx, &p, FUEL);
    match r {
        Err(TypeError::UnableToElaborateHole { span, expected }) => {
            assert_eq!(span, sp(2, 3));
            assert!(expected.is_none());
        }
        _ => panic!("expected a hole failure with no expected type"),
    }
}

#[test]
fn hole_never_checks_even_with_expected_type() {
    let (p, ctx) = prelude();
    let scope = Scope::new();
    let r = check(&Term::Hole(sp(2, 3)), &s32_type(&p), &scope, &ctx, &p, FUEL);
    match r {
        Err(TypeError::UnableToElaborateHole { span, expected }) => {
            assert_eq!(span, sp(2, 3));
            assert!(expected.is_some());
        }
        _ => panic!("expected a hole failure carrying the expected type"),
    }
}

#[test]
fn application_to_non_function_reports_both_spans() {
    let (p, ctx) = prelude();
    let scope = Scope::new();
    // (3 : S32) 4
    let head = Term::Ann(
        sp(0, 9),
        Box::new(int_lit(1, 2, 3)),
        Box::new(Term::Var(sp(5, 8), Var::Free(p.s32_var.clone()))),
    );
    let term = Term::FunApp(sp(0, 11), Box::new(head), Box::new(int_lit(10, 11, 4)));
    let r = infer(&term, &scope, &ctx, &p, FUEL);
    match r {
        Err(TypeError::ArgAppliedToNonFunction { fn_span, arg_span, .. }) => {
            assert_eq!(fn_span, sp(0, 9));
            assert_eq!(arg_span, sp(10, 11));
        }
        _ => panic!("expected an application to a non-function"),
    }
}

#[test]
fn array_length_mismatch_reports_both_lengths() {
    let (p, ctx) = prelude();
    let scope = Scope::new();
    // [1, 2, 3] against Array 5 S32
    let elems = TermList::Cons(
        Box::new(int_lit(1, 2, 1)),
        Box::new(TermList::Cons(
            Box::new(int_lit(4, 5, 2)),
            Box::new(TermList::Cons(Box::new(int_lit(7, 8, 3)), Box::new(TermList::Nil))),
        )),
    );
    let expected = array_type(&p, 5, s32_type(&p));
    let r = check(&Term::ArrayIntro(sp(0, 9), elems), &expected, &scope, &ctx, &p, FUEL);
    match r {
        Err(TypeError::ArrayLengthMismatch { found_len, expected_len, .. }) => {
            assert_eq!(found_len, 3);
            assert_eq!(expected_len, 5);
        }
        _ => panic!("expected an array length mismatch"),
    }
}

#[test]
fn array_of_right_length_checks() {
    let (p, ctx) = prelude();
    let scope = Scope::new();
    let elems = TermList::Cons(
        Box::new(int_lit(1, 2, 1)),
        Box::new(TermList::Cons(Box::new(int_lit(4, 5, 2)), Box::new(TermList::Nil))),
    );
    let expected = array_type(&p, 2, s32_type(&p));
    let r = check(&Term::ArrayIntro(sp(0, 6), elems), &expected, &scope, &ctx, &p, FUEL);
    match r {
        Ok(CoreTerm::ArrayIntro(CoreTermList::Cons(first, _))) => {
            assert!(matches!(*first, CoreTerm::Literal(CoreLiteral::Int(1, _, IntType::S32))));
        }
        _ => panic!("expected the array to check"),
    }
}

#[test]
fn empty_array_is_ambiguous() {
    let (p, ctx) = prelude();
    let scope = Scope::new();
    let r = infer(&Term::ArrayIntro(sp(0, 2), TermList::Nil), &scope, &ctx, &p, FUEL);
    assert!(matches!(r, Err(TypeError::AmbiguousArrayLiteral { .. })));
}

fn s32_record_type(p: &Prelude, first: &str, second: &str) -> Value {
    // Record { first : S32, second : S32 }
    Value::RecordTypeCons(
        Label(first.to_owned()),
        Box::new(s32_type(p)),
        Closure {
            env: Env::Nil,
            body: Box::new(CoreTerm::RecordType(pikelet_elab::core_syntax::FieldList::Cons(
                Label(second.to_owned()),
                Box::new(CoreTerm::Var(Var::Free(p.s32_var.clone()))),
                Box::new(pikelet_elab::core_syntax::FieldList::Nil),
            ))),
        },
    )
}

#[test]
fn record_field_order_is_a_label_mismatch() {
    let (p, ctx) = prelude();
    let scope = Scope::new();
    // record { y = 1, x = 2 } against Record { x : S32, y : S32 }
    let fields = IntroFieldList::Cons(
        sp(9, 10),
        Label("y".to_owned()),
        Box::new(int_lit(13, 14, 1)),
        Box::new(IntroFieldList::Cons(
            sp(16, 17),
            Label("x".to_owned()),
            Box::new(int_lit(20, 21, 2)),
            Box::new(IntroFieldList::Nil),
        )),
    );
    let expected = s32_record_type(&p, "x", "y");
    let r = check(&Term::RecordIntro(sp(0, 23), fields), &expected, &scope, &ctx, &p, FUEL);
    match r {
        Err(TypeError::LabelMismatch { span, found, expected }) => {
            assert_eq!(span, sp(9, 10));
            assert_eq!(found.0, "y");
            assert_eq!(expected.0, "x");
        }
        _ => panic!("expected a label mismatch, not a generic mismatch"),
    }
}

#[test]
fn record_size_mismatch_reports_both_sizes() {
    let (p, ctx) = prelude();
    let scope = Scope::new();
    // record { x = 1 } against Record { x : S32, y : S32 }
    let fields = IntroFieldList::Cons(
        sp(9, 10),
        Label("x".to_owned()),
        Box::new(int_lit(13, 14, 1)),
        Box::new(IntroFieldList::Nil),
    );
    let expected = s32_record_type(&p, "x", "y");
    let r = check(&Term::RecordIntro(sp(0, 16), fields), &expected, &scope, &ctx, &p, FUEL);
    match r {
        Err(TypeError::RecordSizeMismatch { found_size, expected_size, .. }) => {
            assert_eq!(found_size, 1);
            assert_eq!(expected_size, 2);
        }
        _ => panic!("expected a record size mismatch"),
    }
}

#[test]
fn record_with_matching_fields_checks() {
    let (p, ctx) = prelude();
    let scope = Scope::new();
    let fields = IntroFieldList::Cons(
        sp(9, 10),
        Label("x".to_owned()),
        Box::new(int_lit(13, 14, 1)),
        Box::new(IntroFieldList::Cons(
            sp(16, 17),
            Label("y".to_owned()),
            Box::new(int_lit(20, 21, 2)),
            Box::new(IntroFieldList::Nil),
        )),
    );
    let expected = s32_record_type(&p, "x", "y");
    let r = check(&Term::RecordIntro(sp(0, 23), fields), &expected, &scope, &ctx, &p, FUEL);
    assert!(matches!(r, Ok(CoreTerm::RecordIntro(_))));
}

#[test]
fn duplicate_declarations_fail() {
    let (p, ctx) = prelude();
    let scope = Scope::new();
    let s32 = || Box::new(Term::Var(sp(6, 9), Var::Free(p.s32_var.clone())));
    // let foo : S32; foo : S32 in 1 : S32 ... the second declaration must fail
    let items = ItemList::Cons(
        Box::new(Item::Declaration(sp(0, 9), "foo".to_owned(), s32())),
        Box::new(ItemList::Cons(
            Box::new(Item::Declaration(sp(11, 20), "foo".to_owned(), s32())),
            Box::new(ItemList::Nil),
        )),
    );
    let body = Term::Ann(sp(22, 30), Box::new(int_lit(22, 23, 1)), s32());
    let r = infer(&Term::Let(sp(0, 30), items, Box::new(body)), &scope, &ctx, &p, FUEL);
    match r {
        Err(TypeError::DuplicateDeclarations { original_span, duplicate_span, binder }) => {
            assert_eq!(original_span, sp(0, 9));
            assert_eq!(duplicate_span, sp(11, 20));
            assert_eq!(binder, "foo");
        }
        _ => panic!("expected duplicate declarations"),
    }
}

#[test]
fn declaration_after_definition_fails() {
    let (p, ctx) = prelude();
    let scope = Scope::new();
    let s32 = || Box::new(Term::Var(sp(6, 9), Var::Free(p.s32_var.clone())));
    let def_body = Term::Ann(sp(6, 14), Box::new(int_lit(6, 7, 1)), s32());
    let items = ItemList::Cons(
        Box::new(Item::Definition(sp(0, 14), "foo".to_owned(), Box::new(def_body))),
        Box::new(ItemList::Cons(
            Box::new(Item::Declaration(sp(16, 25), "foo".to_owned(), s32())),
            Box::new(ItemList::Nil),
        )),
    );
    let body = int_lit(27, 28, 1);
    let r = infer(
        &Term::Let(sp(0, 28), items, Box::new(Term::Ann(sp(27, 34), Box::new(body), s32()))),
        &scope,
        &ctx,
        &p,
        FUEL,
    );
    match r {
        Err(TypeError::DeclarationFollowedDefinition {
            definition_span,
            declaration_span,
            binder,
        }) => {
            assert_eq!(definition_span, sp(0, 14));
            assert_eq!(declaration_span, sp(16, 25));
            assert_eq!(binder, "foo");
        }
        _ => panic!("expected a declaration after a definition to fail"),
    }
}

#[test]
fn duplicate_definitions_fail() {
    let (p, ctx) = prelude();
    let scope = Scope::new();
    let s32 = || Box::new(Term::Var(sp(6, 9), Var::Free(p.s32_var.clone())));
    let def = |a: usize, b: usize| {
        Box::new(Term::Ann(sp(a, b), Box::new(int_lit(a, a + 1, 1)), s32()))
    };
    let items = ItemList::Cons(
        Box::new(Item::Definition(sp(0, 14), "foo".to_owned(), def(6, 14))),
        Box::new(ItemList::Cons(
            Box::new(Item::Definition(sp(16, 30), "foo".to_owned(), def(22, 30))),
            Box::new(ItemList::Nil),
        )),
    );
    let r = infer(
        &Term::Let(sp(0, 40), items, Box::new(Term::Var(sp(32, 35), Var::Bound(0, "foo".to_owned())))),
        &scope,
        &ctx,
        &p,
        FUEL,
    );
    match r {
        Err(TypeError::DuplicateDefinitions { original_span, duplicate_span, binder }) => {
            assert_eq!(original_span, sp(0, 14));
            assert_eq!(duplicate_span, sp(16, 30));
            assert_eq!(binder, "foo");
        }
        _ => panic!("expected duplicate definitions"),
    }
}

#[test]
fn declared_definition_is_checked_against_its_declaration() {
    let (p, ctx) = prelude();
    let scope = Scope::new();
    // let foo : S32; foo = "hi" in foo — the definition must fail the check
    let items = ItemList::Cons(
        Box::new(Item::Declaration(
            sp(0, 9),
            "foo".to_owned(),
            Box::new(Term::Var(sp(6, 9), Var::Free(p.s32_var.clone()))),
        )),
        Box::new(ItemList::Cons(
            Box::new(Item::Definition(
                sp(11, 21),
                "foo".to_owned(),
                Box::new(Term::Literal(Literal::String(sp(17, 21), "hi".to_owned()))),
            )),
            Box::new(ItemList::Nil),
        )),
    );
    let r = infer(
        &Term::Let(
            sp(0, 30),
            items,
            Box::new(Term::Var(sp(26, 29), Var::Bound(0, "foo".to_owned()))),
        ),
        &scope,
        &ctx,
        &p,
        FUEL,
    );
    assert!(matches!(r, Err(TypeError::LiteralMismatch { .. })));
}

#[test]
fn let_binds_definition_for_body() {
    let (p, ctx) = prelude();
    let scope = Scope::new();
    // let foo = 1 : S32 in foo — infers S32 and evaluates to 1
    let items = ItemList::Cons(
        Box::new(Item::Definition(
            sp(0, 14),
            "foo".to_owned(),
            Box::new(Term::Ann(
                sp(6, 14),
                Box::new(int_lit(6, 7, 1)),
                Box::new(Term::Var(sp(10, 13), Var::Free(p.s32_var.clone()))),
            )),
        )),
        Box::new(ItemList::Nil),
    );
    let term = Term::Let(
        sp(0, 24),
        items,
        Box::new(Term::Var(sp(18, 21), Var::Bound(0, "foo".to_owned()))),
    );
    let (core, ty) = infer(&term, &scope, &ctx, &p, FUEL).expect("let infers");
    assert!(matches!(ty, Value::Neutral(_)));
    // evaluating the let gives the literal back
    let v = pikelet_elab::normalize::eval(&core, &Env::Nil, &ctx, FUEL).unwrap();
    assert!(matches!(v, Value::Literal(CoreLiteral::Int(1, _, IntType::S32))));
}

#[test]
fn empty_case_is_ambiguous() {
    let (p, ctx) = prelude();
    let scope = Scope::new();
    let scrut = Term::Ann(
        sp(5, 13),
        Box::new(int_lit(5, 6, 1)),
        Box::new(Term::Var(sp(9, 12), Var::Free(p.s32_var.clone()))),
    );
    let r = infer(
        &Term::Case(sp(0, 16), Box::new(scrut), ClauseList::Nil),
        &scope,
        &ctx,
        &p,
        FUEL,
    );
    assert!(matches!(r, Err(TypeError::AmbiguousEmptyCase { .. })));
}

#[test]
fn unannotated_function_cannot_be_inferred() {
    let (p, ctx) = prelude();
    let scope = Scope::new();
    let term = Term::FunIntro(
        sp(0, 8),
        "x".to_owned(),
        None,
        Box::new(Term::Var(sp(7, 8), Var::Bound(0, "x".to_owned()))),
    );
    assert!(matches!(
        infer(&term, &scope, &ctx, &p, FUEL),
        Err(TypeError::FunctionParamNeedsAnnotation { .. })
    ));
}

#[test]
fn unannotated_function_borrows_expected_parameter_type() {
    let (p, ctx) = prelude();
    let scope = Scope::new();
    // \x => x against S32 -> S32
    let term = Term::FunIntro(
        sp(0, 8),
        "x".to_owned(),
        None,
        Box::new(Term::Var(sp(7, 8), Var::Bound(0, "x".to_owned()))),
    );
    let expected = Value::FunType(
        "a".to_owned(),
        Box::new(s32_type(&p)),
        Closure {
            env: Env::Nil,
            body: Box::new(CoreTerm::Var(Var::Free(p.s32_var.clone()))),
        },
    );
    let r = check(&term, &expected, &scope, &ctx, &p, FUEL);
    assert!(matches!(r, Ok(CoreTerm::FunIntro(_, _))));
}

#[test]
fn function_against_non_function_type_is_unexpected() {
    let (p, ctx) = prelude();
    let scope = Scope::new();
    let term = Term::FunIntro(
        sp(0, 8),
        "x".to_owned(),
        None,
        Box::new(Term::Var(sp(7, 8), Var::Bound(0, "x".to_owned()))),
    );
    let r = check(&term, &s32_type(&p), &scope, &ctx, &p, FUEL);
    assert!(matches!(r, Err(TypeError::UnexpectedFunction { .. })));
}

#[test]
fn undefined_free_variable_is_reported() {
    let (p, ctx) = prelude();
    let scope = Scope::new();
    let term = Term::Var(
        sp(0, 3),
        Var::Free(pikelet_elab::var::FreeVar { id: 999, name: "ghost".to_owned() }),
    );
    assert!(matches!(
        infer(&term, &scope, &ctx, &p, FUEL),
        Err(TypeError::UndefinedName { .. })
    ));
}

#[test]
fn escaped_bound_variable_is_an_internal_error() {
    let (p, ctx) = prelude();
    let scope = Scope::new();
    let term = Term::Var(sp(0, 1), Var::Bound(3, "x".to_owned()));
    assert!(matches!(
        infer(&term, &scope, &ctx, &p, FUEL),
        Err(TypeError::Internal(_))
    ));
}

#[test]
fn dependent_function_type_lands_in_max_level() {
    let (p, ctx) = prelude();
    let scope = Scope::new();
    // (a : Type^2) -> S32 : Type^3
    let term = Term::FunType(
        sp(0, 20),
        "a".to_owned(),
        Box::new(Term::Universe(sp(5, 11), 2)),
        Box::new(Term::Var(sp(16, 19), Var::Free(p.s32_var.clone()))),
    );
    let (_, ty) = infer(&term, &scope, &ctx, &p, FUEL).unwrap();
    assert!(matches!(ty, Value::Universe(3)));
}

#[test]
fn infer_then_check_gives_the_same_core_term() {
    let (p, ctx) = prelude();
    let scope = Scope::new();
    // infer (1 : S32), then check the same raw term against the
    // inferred type: the two elaborations agree
    let term = Term::Ann(
        sp(0, 7),
        Box::new(int_lit(0, 1, 1)),
        Box::new(Term::Var(sp(4, 7), Var::Free(p.s32_var.clone()))),
    );
    let (core, ty) = infer(&term, &scope, &ctx, &p, FUEL).unwrap();
    let core2 = check(&term, &ty, &scope, &ctx, &p, FUEL).unwrap();
    assert!(pikelet_elab::core_syntax::term_eq(&core, &core2));
}

#[test]
fn beta_reduction_through_the_whole_pipeline() {
    let (p, ctx) = prelude();
    let scope = Scope::new();
    // (\(x : S32) => x) 41
    let lam = Term::FunIntro(
        sp(0, 17),
        "x".to_owned(),
        Some(Box::new(Term::Var(sp(5, 8), Var::Free(p.s32_var.clone())))),
        Box::new(Term::Var(sp(13, 14), Var::Bound(0, "x".to_owned()))),
    );
    let app = Term::FunApp(sp(0, 20), Box::new(lam), Box::new(int_lit(18, 20, 41)));
    let (core, _ty) = infer(&app, &scope, &ctx, &p, FUEL).expect("application infers");
    let normal = pikelet_elab::normalize::normalize(&core, &Env::Nil, 0, &ctx, FUEL).unwrap();
    assert!(matches!(
        normal,
        CoreTerm::Literal(CoreLiteral::Int(41, _, IntType::S32))
    ));
}

#[test]
fn record_projection_infers_field_type() {
    let (p, ctx) = prelude();
    let scope = Scope::new();
    // (record { x = 1 : S32 }).x — built as a record whose field is
    // self-describing, then projected
    let fields = IntroFieldList::Cons(
        sp(9, 10),
        Label("x".to_owned()),
        Box::new(Term::Ann(
            sp(13, 21),
            Box::new(int_lit(13, 14, 1)),
            Box::new(Term::Var(sp(17, 20), Var::Free(p.s32_var.clone()))),
        )),
        Box::new(IntroFieldList::Nil),
    );
    let record = Term::RecordIntro(sp(0, 23), fields);
    let proj = Term::RecordProj(sp(0, 25), Box::new(record), sp(24, 25), Label("x".to_owned()));
    let (core, ty) = infer(&proj, &scope, &ctx, &p, FUEL).expect("projection infers");
    assert!(matches!(core, CoreTerm::RecordProj(_, _)));
    // the field's type is the S32 neutral
    match ty {
        Value::Neutral(n) => match *n {
            Neutral::Var(NVar::Free(f)) => assert_eq!(f.id, p.s32_var.id),
            _ => panic!("expected the S32 neutral"),
        },
        _ => panic!("expected a neutral type"),
    }
}

#[test]
fn projection_of_missing_field_is_reported() {
    let (p, ctx) = prelude();
    let scope = Scope::new();
    let fields = IntroFieldList::Cons(
        sp(9, 10),
        Label("x".to_owned()),
        Box::new(Term::Ann(
            sp(13, 21),
            Box::new(int_lit(13, 14, 1)),
            Box::new(Term::Var(sp(17, 20), Var::Free(p.s32_var.clone()))),
        )),
        Box::new(IntroFieldList::Nil),
    );
    let record = Term::RecordIntro(sp(0, 23), fields);
    let proj = Term::RecordProj(sp(0, 25), Box::new(record), sp(24, 25), Label("z".to_owned()));
    match infer(&proj, &scope, &ctx, &p, FUEL) {
        Err(TypeError::NoFieldInType { expected_label, .. }) => assert_eq!(expected_label.0, "z"),
        _ => panic!("expected a missing field error"),
    }
}

#[test]
fn case_on_booleans_selects_branch() {
    let (p, ctx) = prelude();
    let scope = Scope::new();
    // case true { true => 1 : S32; false => 2 : S32 }
    let s32 = |a: usize, b: usize| Box::new(Term::Var(sp(a, b), Var::Free(p.s32_var.clone())));
    let clauses = ClauseList::Cons(
        Box::new(pikelet_elab::raw::Pattern::Var(sp(12, 16), Var::Free(p.true_var.clone()))),
        Box::new(Term::Ann(sp(20, 27), Box::new(int_lit(20, 21, 1)), s32(24, 27))),
        Box::new(ClauseList::Cons(
            Box::new(pikelet_elab::raw::Pattern::Var(sp(29, 34), Var::Free(p.false_var.clone()))),
            Box::new(Term::Ann(sp(38, 45), Box::new(int_lit(38, 39, 2)), s32(42, 45))),
            Box::new(ClauseList::Nil),
        )),
    );
    let scrut = Term::Var(sp(5, 9), Var::Free(p.true_var.clone()));
    let term = Term::Case(sp(0, 47), Box::new(scrut), clauses);
    let (core, _ty) = infer(&term, &scope, &ctx, &p, FUEL).expect("case infers");
    // `true` has no definition, so the case is stuck on its neutral;
    // normalizing keeps the case but the branches are elaborated
    let normal = pikelet_elab::normalize::normalize(&core, &Env::Nil, 0, &ctx, FUEL).unwrap();
    assert!(matches!(normal, CoreTerm::Case(_, _)));
}

#[test]
fn normalizing_twice_equals_normalizing_once() {
    let (p, ctx) = prelude();
    let scope = Scope::new();
    // elaborate an application, normalize, normalize again
    let lam = Term::FunIntro(
        sp(0, 17),
        "x".to_owned(),
        Some(Box::new(Term::Var(sp(5, 8), Var::Free(p.s32_var.clone())))),
        Box::new(Term::Var(sp(13, 14), Var::Bound(0, "x".to_owned()))),
    );
    let app = Term::FunApp(sp(0, 20), Box::new(lam), Box::new(int_lit(18, 20, 41)));
    let (core, _) = infer(&app, &scope, &ctx, &p, FUEL).unwrap();
    let once = pikelet_elab::normalize::normalize(&core, &Env::Nil, 0, &ctx, FUEL).unwrap();
    let twice = pikelet_elab::normalize::normalize(&once, &Env::Nil, 0, &ctx, FUEL).unwrap();
    assert!(pikelet_elab::core_syntax::term_eq(&once, &twice));
}

#[test]
fn function_type_is_its_own_normal_form() {
    let (p, ctx) = prelude();
    // S32 -> S32, as a core term, normalizes to itself
    let core = CoreTerm::FunType(
        "x".to_owned(),
        Box::new(CoreTerm::Var(Var::Free(p.s32_var.clone()))),
        Box::new(CoreTerm::Var(Var::Free(p.s32_var.clone()))),
    );
    let normal = pikelet_elab::normalize::normalize(&core, &Env::Nil, 0, &ctx, FUEL).unwrap();
    assert!(pikelet_elab::core_syntax::term_eq(&core, &normal));
}

#[test]
fn projection_from_a_record_value_reduces() {
    let (p, ctx) = prelude();
    let scope = Scope::new();
    // (record { x = 7 : S32 }).x normalizes to the literal
    let fields = IntroFieldList::Cons(
        sp(9, 10),
        Label("x".to_owned()),
        Box::new(Term::Ann(
            sp(13, 21),
            Box::new(int_lit(13, 14, 7)),
            Box::new(Term::Var(sp(17, 20), Var::Free(p.s32_var.clone()))),
        )),
        Box::new(IntroFieldList::Nil),
    );
    let record = Term::RecordIntro(sp(0, 23), fields);
    let proj = Term::RecordProj(sp(0, 25), Box::new(record), sp(24, 25), Label("x".to_owned()));
    let (core, _) = infer(&proj, &scope, &ctx, &p, FUEL).unwrap();
    let normal = pikelet_elab::normalize::normalize(&core, &Env::Nil, 0, &ctx, FUEL).unwrap();
    assert!(matches!(
        normal,
        CoreTerm::Literal(CoreLiteral::Int(7, _, IntType::S32))
    ));
}

#[test]
fn context_extension_leaves_the_parent_valid() {
    let (p, ctx) = prelude();
    let extended = ctx.extend_type(
        pikelet_elab::var::FreeVar { id: 100, name: "n".to_owned() },
        Value::Universe(0),
    );
    assert!(ctx.lookup_type(&pikelet_elab::var::FreeVar { id: 100, name: "n".to_owned() }).is_none());
    assert!(extended
        .lookup_type(&pikelet_elab::var::FreeVar { id: 100, name: "n".to_owned() })
        .is_some());
    assert!(extended.lookup_type(&p.s32_var).is_some());
}

#[test]
fn inferred_type_must_match_expected() {
    let (p, ctx) = prelude();
    let scope = Scope::new();
    // a universe checked against S32 is a plain type mismatch
    let r = check(&Term::Universe(sp(0, 4), 0), &s32_type(&p), &scope, &ctx, &p, FUEL);
    assert!(matches!(r, Err(TypeError::Mismatch { .. })));
}

#[test]
fn annotation_must_be_a_universe() {
    let (p, ctx) = prelude();
    let scope = Scope::new();
    // 2 : (1 : S32) — the annotation is a value, not a type
    let ann = Term::Ann(
        sp(5, 13),
        Box::new(int_lit(5, 6, 1)),
        Box::new(Term::Var(sp(9, 12), Var::Free(p.s32_var.clone()))),
    );
    let term = Term::Ann(sp(0, 13), Box::new(int_lit(0, 1, 2)), Box::new(ann));
    assert!(matches!(
        infer(&term, &scope, &ctx, &p, FUEL),
        Err(TypeError::ExpectedUniverse { .. })
    ));
}

#[test]
fn non_uniform_array_is_ambiguous() {
    let (p, ctx) = prelude();
    let scope = Scope::new();
    // [1 : S32, "x"] — the second element does not fit the first's type
    let first = Term::Ann(
        sp(1, 9),
        Box::new(int_lit(1, 2, 1)),
        Box::new(Term::Var(sp(5, 8), Var::Free(p.s32_var.clone()))),
    );
    let second = Term::Literal(Literal::String(sp(11, 14), "x".to_owned()));
    let elems = TermList::Cons(
        Box::new(first),
        Box::new(TermList::Cons(Box::new(second), Box::new(TermList::Nil))),
    );
    let r = infer(&Term::ArrayIntro(sp(0, 15), elems), &scope, &ctx, &p, FUEL);
    assert!(matches!(r, Err(TypeError::AmbiguousArrayLiteral { .. })));
}

#[test]
fn uniform_array_infers_its_array_type() {
    let (p, ctx) = prelude();
    let scope = Scope::new();
    // [1 : S32, 2] infers Array 2 S32
    let first = Term::Ann(
        sp(1, 9),
        Box::new(int_lit(1, 2, 1)),
        Box::new(Term::Var(sp(5, 8), Var::Free(p.s32_var.clone()))),
    );
    let elems = TermList::Cons(
        Box::new(first),
        Box::new(TermList::Cons(Box::new(int_lit(11, 12, 2)), Box::new(TermList::Nil))),
    );
    let (_, ty) = infer(&Term::ArrayIntro(sp(0, 13), elems), &scope, &ctx, &p, FUEL).unwrap();
    match ty {
        Value::Neutral(n) => match *n {
            Neutral::App(inner, _) => match *inner {
                Neutral::App(head, len) => {
                    assert!(matches!(*head, Neutral::Var(NVar::Free(ref f)) if f.id == p.array_var.id));
                    assert!(matches!(
                        *len,
                        Value::Literal(CoreLiteral::Int(2, _, IntType::U64))
                    ));
                }
                _ => panic!("expected the array head"),
            },
            _ => panic!("expected a stuck application"),
        },
        _ => panic!("expected a neutral array type"),
    }
}

#[test]
fn record_type_telescope_elaborates() {
    let (p, ctx) = prelude();
    let scope = Scope::new();
    // Record { x : S32, y : S32 } : Type
    let fields = TypeFieldList::Cons(
        Label("x".to_owned()),
        "x".to_owned(),
        Box::new(Term::Var(sp(11, 14), Var::Free(p.s32_var.clone()))),
        Box::new(TypeFieldList::Cons(
            Label("y".to_owned()),
            "y".to_owned(),
            Box::new(Term::Var(sp(20, 23), Var::Free(p.s32_var.clone()))),
            Box::new(TypeFieldList::Nil),
        )),
    );
    let (core, ty) = infer(&Term::RecordType(sp(0, 25), fields), &scope, &ctx, &p, FUEL).unwrap();
    assert!(matches!(core, CoreTerm::RecordType(_)));
    assert!(matches!(ty, Value::Universe(0)));
}
