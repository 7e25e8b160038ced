//! Desugaring, name resolution, spans, and diagnostic construction.

use pikelet_elab::builtins::prelude;
use pikelet_elab::concrete::{
    FunIntroParamGroup,
    IntFormat,
    Item,
    Literal,
    Pattern,
    RecordField,
    Term,
};
use pikelet_elab::desugar::{prelude_globals, resolve, Globals, Names};
use pikelet_elab::diagnostic::{dec_string, LabelStyle, Severity};
use pikelet_elab::errors::{InternalError, NbeError, TypeError};
use pikelet_elab::raw;
use pikelet_elab::span::Span;
use pikelet_elab::var::{FreeVar, Var};

const FUEL: u64 = 10_000;

fn sp(start: usize, end: usize) -> Span {
    Span { start, end }
}

fn anon() -> String {
    "_".to_owned()
}

fn resolve_closed(term: &Term) -> Result<raw::Term, TypeError> {
    let (p, _ctx) = prelude();
    let globals = prelude_globals(&p);
    resolve(term, &Names::Nil, &globals, &Globals::Nil, &p, &anon(), FUEL)
}

#[test]
fn term_span_encloses_children() {
    let ann = Term::Ann(
        Box::new(Term::Name(sp(0, 1), "x".to_owned(), None)),
        Box::new(Term::Name(sp(4, 7), "S32".to_owned(), None)),
    );
    assert_eq!(ann.span(), sp(0, 7));
    let arrow = Term::FunArrow(
        Box::new(Term::Name(sp(2, 5), "S32".to_owned(), None)),
        Box::new(Term::Name(sp(9, 12), "S32".to_owned(), None)),
    );
    assert_eq!(arrow.span(), sp(2, 12));
    let app = Term::FunApp(
        Box::new(Term::Name(sp(0, 1), "f".to_owned(), None)),
        vec![Term::Name(sp(2, 3), "a".to_owned(), None)],
        Box::new(Term::Name(sp(4, 5), "b".to_owned(), None)),
    );
    assert_eq!(app.span(), sp(0, 5));
}

#[test]
fn literal_and_pattern_spans() {
    let lit = Literal::Int(sp(3, 5), 42, IntFormat::Dec);
    assert_eq!(lit.span(), sp(3, 5));
    let pat = Pattern::Ann(
        Box::new(Pattern::Name(sp(0, 1), "x".to_owned(), None)),
        Box::new(Term::Name(sp(4, 7), "S32".to_owned(), None)),
    );
    assert_eq!(pat.span(), sp(0, 7));
}

#[test]
fn item_span_runs_from_name_to_body() {
    let item = Item::Declaration {
        name: (2, "foo".to_owned()),
        ann: Term::Name(sp(8, 11), "S32".to_owned(), None),
    };
    assert_eq!(item.span(), sp(2, 11));
}

#[test]
fn names_resolve_innermost_first() {
    // \x => \x => x resolves the body to the inner binder
    let term = Term::FunIntro(
        0,
        vec![
            FunIntroParamGroup { names: vec![(1, "x".to_owned()), (3, "x".to_owned())], ann: None },
        ],
        Box::new(Term::Name(sp(8, 9), "x".to_owned(), None)),
    );
    let r = resolve_closed(&term).unwrap();
    match r {
        raw::Term::FunIntro(_, _, _, inner) => match *inner {
            raw::Term::FunIntro(_, _, _, body) => match *body {
                raw::Term::Var(_, Var::Bound(0, _)) => {}
                _ => panic!("expected the innermost binder"),
            },
            _ => panic!("expected a second binder"),
        },
        _ => panic!("expected a function introduction"),
    }
}

#[test]
fn shifted_name_skips_one_binder() {
    let term = Term::FunIntro(
        0,
        vec![
            FunIntroParamGroup { names: vec![(1, "x".to_owned()), (3, "x".to_owned())], ann: None },
        ],
        Box::new(Term::Name(sp(8, 11), "x".to_owned(), Some(1))),
    );
    let r = resolve_closed(&term).unwrap();
    match r {
        raw::Term::FunIntro(_, _, _, inner) => match *inner {
            raw::Term::FunIntro(_, _, _, body) => match *body {
                raw::Term::Var(_, Var::Bound(1, _)) => {}
                _ => panic!("expected the outer binder"),
            },
            _ => panic!("expected a second binder"),
        },
        _ => panic!("expected a function introduction"),
    }
}

#[test]
fn unknown_name_is_undefined() {
    let r = resolve_closed(&Term::Name(sp(0, 5), "ghost".to_owned(), None));
    match r {
        Err(TypeError::UndefinedName { span, free_var }) => {
            assert_eq!(span, sp(0, 5));
            assert_eq!(free_var.name, "ghost");
        }
        _ => panic!("expected an undefined name"),
    }
}

#[test]
fn global_names_resolve_to_their_identity() {
    let (p, _ctx) = prelude();
    let r = resolve_closed(&Term::Name(sp(0, 3), "S32".to_owned(), None)).unwrap();
    match r {
        raw::Term::Var(_, Var::Free(f)) => assert_eq!(f.id, p.s32_var.id),
        _ => panic!("expected the built-in S32"),
    }
}

#[test]
fn missing_import_is_reported() {
    let term = Term::Import(sp(0, 16), sp(7, 16), "prelude".to_owned());
    match resolve_closed(&term) {
        Err(TypeError::UndefinedImport { span, name }) => {
            assert_eq!(span, sp(7, 16));
            assert_eq!(name, "prelude");
        }
        _ => panic!("expected an undefined import"),
    }
}

#[test]
fn import_resolves_against_the_table() {
    let (p, _ctx) = prelude();
    let globals = prelude_globals(&p);
    let imports = Globals::Cons("prelude".to_owned(), 77, Box::new(Globals::Nil));
    let term = Term::Import(sp(0, 16), sp(7, 16), "prelude".to_owned());
    let r = resolve(&term, &Names::Nil, &globals, &imports, &p, &anon(), FUEL).unwrap();
    match r {
        raw::Term::Var(_, Var::Free(f)) => assert_eq!(f.id, 77),
        _ => panic!("expected the imported variable"),
    }
}

#[test]
fn parameter_group_shares_annotation() {
    // \(x y : S32) => x
    let term = Term::FunIntro(
        0,
        vec![FunIntroParamGroup {
            names: vec![(2, "x".to_owned()), (4, "y".to_owned())],
            ann: Some(Box::new(Term::Name(sp(8, 11), "S32".to_owned(), None))),
        }],
        Box::new(Term::Name(sp(16, 17), "x".to_owned(), None)),
    );
    let r = resolve_closed(&term).unwrap();
    match r {
        raw::Term::FunIntro(_, hint_x, Some(_), inner) => {
            assert_eq!(hint_x, "x");
            match *inner {
                raw::Term::FunIntro(_, hint_y, Some(_), body) => {
                    assert_eq!(hint_y, "y");
                    assert!(matches!(*body, raw::Term::Var(_, Var::Bound(1, _))));
                }
                _ => panic!("expected the second binder annotated"),
            }
        }
        _ => panic!("expected the first binder annotated"),
    }
}

#[test]
fn arrow_desugars_to_unnamed_dependent_function() {
    let term = Term::FunArrow(
        Box::new(Term::Name(sp(0, 3), "S32".to_owned(), None)),
        Box::new(Term::Name(sp(7, 10), "S32".to_owned(), None)),
    );
    let r = resolve_closed(&term).unwrap();
    match r {
        raw::Term::FunType(_, hint, _, _) => assert_eq!(hint, "_"),
        _ => panic!("expected a dependent function type"),
    }
}

#[test]
fn punned_record_field_expands() {
    // \x => record { x }
    let term = Term::FunIntro(
        0,
        vec![FunIntroParamGroup { names: vec![(1, "x".to_owned())], ann: None }],
        Box::new(Term::RecordIntro(
            sp(6, 18),
            vec![RecordField::Punned { label: (14, "x".to_owned()), shift: None }],
        )),
    );
    let r = resolve_closed(&term).unwrap();
    match r {
        raw::Term::FunIntro(_, _, _, body) => match *body {
            raw::Term::RecordIntro(_, raw::IntroFieldList::Cons(_, label, value, _)) => {
                assert_eq!(label.0, "x");
                assert!(matches!(*value, raw::Term::Var(_, Var::Bound(0, _))));
            }
            _ => panic!("expected the punned field expanded"),
        },
        _ => panic!("expected a function introduction"),
    }
}

#[test]
fn where_lowers_to_let() {
    // x where { x = 1 }
    let term = Term::Where(
        Box::new(Term::Name(sp(0, 1), "x".to_owned(), None)),
        vec![Item::Definition {
            name: (10, "x".to_owned()),
            params: vec![],
            return_ann: None,
            body: Term::Literal(Literal::Int(sp(14, 15), 1, IntFormat::Dec)),
        }],
        17,
    );
    let r = resolve_closed(&term).unwrap();
    match r {
        raw::Term::Let(_, raw::ItemList::Cons(item, _), body) => {
            assert!(matches!(*item, raw::Item::Definition(_, _, _)));
            assert!(matches!(*body, raw::Term::Var(_, Var::Bound(0, _))));
        }
        _ => panic!("expected a let"),
    }
}

#[test]
fn if_lowers_to_case_over_booleans() {
    let (p, _ctx) = prelude();
    let term = Term::If(
        0,
        Box::new(Term::Name(sp(3, 7), "true".to_owned(), None)),
        Box::new(Term::Literal(Literal::Int(sp(13, 14), 1, IntFormat::Dec))),
        Box::new(Term::Literal(Literal::Int(sp(20, 21), 2, IntFormat::Dec))),
    );
    let r = resolve_closed(&term).unwrap();
    match r {
        raw::Term::Case(_, _, raw::ClauseList::Cons(first_pat, _, rest)) => {
            match *first_pat {
                raw::Pattern::Var(_, Var::Free(ref f)) => assert_eq!(f.id, p.true_var.id),
                _ => panic!("expected the true pattern"),
            }
            match *rest {
                raw::ClauseList::Cons(second_pat, _, _) => match *second_pat {
                    raw::Pattern::Var(_, Var::Free(ref f)) => assert_eq!(f.id, p.false_var.id),
                    _ => panic!("expected the false pattern"),
                },
                _ => panic!("expected two clauses"),
            }
        }
        _ => panic!("expected a case"),
    }
}

#[test]
fn pattern_name_in_scope_matches_constant() {
    // case true { true => 1; x => 2 }: the first pattern is the
    // constant, the second a fresh binder
    let term = Term::Case(
        sp(0, 30),
        Box::new(Term::Name(sp(5, 9), "true".to_owned(), None)),
        vec![
            (
                Pattern::Name(sp(12, 16), "true".to_owned(), None),
                Term::Literal(Literal::Int(sp(20, 21), 1, IntFormat::Dec)),
            ),
            (
                Pattern::Name(sp(23, 24), "x".to_owned(), None),
                Term::Name(sp(28, 29), "x".to_owned(), None),
            ),
        ],
    );
    let r = resolve_closed(&term).unwrap();
    match r {
        raw::Term::Case(_, _, raw::ClauseList::Cons(first_pat, _, rest)) => {
            assert!(matches!(*first_pat, raw::Pattern::Var(_, Var::Free(_))));
            match *rest {
                raw::ClauseList::Cons(second_pat, second_body, _) => {
                    assert!(matches!(*second_pat, raw::Pattern::Binder(_, _)));
                    // the binder is in scope for its own body
                    assert!(matches!(*second_body, raw::Term::Var(_, Var::Bound(0, _))));
                }
                _ => panic!("expected two clauses"),
            }
        }
        _ => panic!("expected a case"),
    }
}

#[test]
fn parse_error_node_is_an_internal_error() {
    let r = resolve_closed(&Term::Error(sp(0, 4)));
    assert!(matches!(
        r,
        Err(TypeError::Internal(InternalError::Unimplemented { span: Some(_), .. }))
    ));
}

#[test]
fn dec_string_renders_decimal() {
    assert_eq!(dec_string(0), "0");
    assert_eq!(dec_string(7), "7");
    assert_eq!(dec_string(10), "10");
    assert_eq!(dec_string(65_535), "65535");
    assert_eq!(dec_string(u64::MAX), "18446744073709551615");
}

#[test]
fn array_length_diagnostic_embeds_both_counts() {
    let e = TypeError::ArrayLengthMismatch { span: sp(0, 9), found_len: 3, expected_len: 5 };
    let d = e.to_diagnostic();
    assert_eq!(d.severity, Severity::Error);
    assert_eq!(d.message, "mismatched array length: expected 5 elements but found 3");
    assert_eq!(d.labels.len(), 1);
    assert_eq!(d.labels[0].style, LabelStyle::Primary);
    assert_eq!(d.labels[0].span, sp(0, 9));
    assert_eq!(d.labels[0].message, "array with 3 elements");
}

#[test]
fn duplicate_declaration_diagnostic_has_two_labels() {
    let e = TypeError::DuplicateDeclarations {
        original_span: sp(0, 9),
        duplicate_span: sp(11, 20),
        binder: "foo".to_owned(),
    };
    let d = e.to_diagnostic();
    assert_eq!(d.severity, Severity::Error);
    assert_eq!(d.message, "name had more than one declaration associated with it `foo`");
    assert_eq!(d.labels.len(), 2);
    assert_eq!(d.labels[0].style, LabelStyle::Primary);
    assert_eq!(d.labels[0].span, sp(11, 20));
    assert_eq!(d.labels[0].message, "the duplicated declaration");
    assert_eq!(d.labels[1].style, LabelStyle::Secondary);
    assert_eq!(d.labels[1].span, sp(0, 9));
    assert_eq!(d.labels[1].message, "the original declaration");
}

#[test]
fn undefined_name_renders_as_a_bug() {
    let e = TypeError::UndefinedName {
        span: sp(0, 5),
        free_var: FreeVar { id: 0, name: "ghost".to_owned() },
    };
    let d = e.to_diagnostic();
    assert_eq!(d.severity, Severity::Bug);
    assert_eq!(d.message, "cannot find `ghost` in scope");
    assert_eq!(d.labels[0].message, "not found in this scope");
}

#[test]
fn internal_error_renders_as_a_bug() {
    let e = InternalError::UnexpectedBoundVar {
        span: sp(4, 5),
        var: Var::Bound(0, "x".to_owned()),
    };
    let d = e.to_diagnostic();
    assert_eq!(d.severity, Severity::Bug);
    assert_eq!(d.message, "unexpected bound variable: `x`");
    assert_eq!(d.labels[0].span, sp(4, 5));
}

#[test]
fn nbe_error_wraps_into_type_error() {
    let e = TypeError::from(NbeError::AppNonFunction);
    let d = e.to_diagnostic();
    assert_eq!(d.severity, Severity::Bug);
    assert_eq!(d.message, "failed to normalize: applied an argument to a non-function value");
}

#[test]
fn ambiguous_literal_diagnostics() {
    let d = TypeError::AmbiguousIntLiteral { span: sp(1, 2) }.to_diagnostic();
    assert_eq!(d.message, "ambiguous integer literal");
    assert_eq!(d.labels[0].message, "type annotation needed here");
    let d = TypeError::AmbiguousFloatLiteral { span: sp(1, 2) }.to_diagnostic();
    assert_eq!(d.message, "ambiguous floating point literal");
    let d = TypeError::AmbiguousEmptyCase { span: sp(1, 2) }.to_diagnostic();
    assert_eq!(d.message, "empty case expressions need type annotations");
}

#[test]
fn literal_mismatch_names_the_surface_kind() {
    let e = TypeError::LiteralMismatch {
        literal_span: sp(0, 2),
        found: Literal::Int(sp(0, 2), 7, IntFormat::Dec),
        expected: Box::new(pikelet_elab::core_syntax::Term::Universe(0)),
    };
    let d = e.to_diagnostic();
    assert_eq!(d.message, "found a numeric literal, but expected a type");
    let e = TypeError::LiteralMismatch {
        literal_span: sp(0, 2),
        found: Literal::String(sp(0, 2), "hi".to_owned()),
        expected: Box::new(pikelet_elab::core_syntax::Term::Universe(0)),
    };
    assert_eq!(e.to_diagnostic().message, "found a string literal, but expected a type");
}

#[test]
fn depth_limit_is_a_resource_error_not_a_bug() {
    let (p, ctx) = prelude();
    let scope = pikelet_elab::elaborate::Scope::new();
    let term = raw::Term::Hole(sp(0, 1));
    let r = pikelet_elab::elaborate::infer(&term, &scope, &ctx, &p, 0);
    match r {
        Err(e @ TypeError::DepthLimitExceeded { .. }) => {
            assert_eq!(e.to_diagnostic().severity, Severity::Error);
        }
        _ => panic!("expected the depth limit"),
    }
}
