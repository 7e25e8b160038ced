//! The desugarer and name resolver.
//!
//! [`resolve`] walks the concrete syntax tree, expands the surface sugar
//! — parameter groups into single binders, record field punning and
//! method-style fields into plain field-value pairs, `where` blocks into
//! `let`s, `if` into a two-armed `case` over the built-in booleans — and
//! replaces every identifier by a [`Var`]: a de Bruijn index into the
//! lexical scope, searched innermost first with `x^n` skipping `n`
//! same-named binders, or a free variable from the global scope. A name
//! found in neither is an [`TypeError::UndefinedName`]; an import
//! missing from the import table is an [`TypeError::UndefinedImport`].
//! Literal spans and formats pass through unchanged.
//!
//! A definition binds its name, as a de Bruijn binder, for the items and
//! body that follow it; a declaration binds nothing by itself. A name
//! pattern that resolves in scope matches that constant by equality;
//! one that does not introduces a fresh binder.
//!
//! Like the elaborator, the walk consumes fuel as an explicit guard
//! against stack exhaustion on pathologically nested input.

use vstd::prelude::*;

use crate::builtins::Prelude;
use crate::concrete;
use crate::errors::{InternalError, TypeError};
use crate::raw;
use crate::span::Span;
use crate::var::{FreeVar, Var};

verus! {

/// The lexical scope: one entry per binder, innermost first. A `Shadow`
/// entry is a binder no surface name can refer to, introduced for the
/// domain of a non-dependent arrow.
pub enum Names {
    Nil,
    Cons(String, Box<Names>),
    Shadow(Box<Names>),
}

impl Clone for Names {
    fn clone(&self) -> (r: Self)
        ensures
            r == *self,
        decreases *self,
    {
        match self {
            Names::Nil => Names::Nil,
            Names::Cons(name, rest) => Names::Cons(name.clone(), Box::new((**rest).clone())),
            Names::Shadow(rest) => Names::Shadow(Box::new((**rest).clone())),
        }
    }
}

/// The global scope, or an import table: names with the identities they
/// resolve to.
pub enum Globals {
    Nil,
    Cons(String, u64, Box<Globals>),
}

/// The free variable a name resolves to in the globals, if any.
pub open spec fn spec_find_global(globals: &Globals, name: &String) -> Option<Var>
    decreases *globals,
{
    match globals {
        Globals::Nil => None,
        Globals::Cons(n, id, rest) => if n@ == name@ {
            Some(Var::Free(FreeVar { id: *id, name: *n }))
        } else {
            spec_find_global(rest, name)
        },
    }
}

/// See [`spec_find_global`].
pub fn find_global(globals: &Globals, name: &String) -> (r: Option<Var>)
    ensures
        r == spec_find_global(globals, name),
    decreases *globals,
{
    match globals {
        Globals::Nil => None,
        Globals::Cons(n, id, rest) => if String::eq(n, name) {
            Some(Var::Free(FreeVar { id: *id, name: n.clone() }))
        } else {
            find_global(rest, name)
        },
    }
}

/// Resolve a name against the scope, skipping `shift` same-named
/// binders, then against the globals. `index` is the de Bruijn index of
/// the innermost entry of `locals`.
pub open spec fn spec_resolve_name(
    name: &String,
    shift: u32,
    index: u32,
    locals: &Names,
    globals: &Globals,
) -> Option<Var>
    decreases *locals,
{
    match locals {
        Names::Nil => if shift == 0 {
            spec_find_global(globals, name)
        } else {
            None
        },
        Names::Cons(n, rest) => if index == u32::MAX {
            None
        } else if n@ == name@ {
            if shift == 0 {
                Some(Var::Bound(index, *name))
            } else {
                spec_resolve_name(name, (shift - 1) as u32, (index + 1) as u32, rest, globals)
            }
        } else {
            spec_resolve_name(name, shift, (index + 1) as u32, rest, globals)
        },
        Names::Shadow(rest) => if index == u32::MAX {
            None
        } else {
            spec_resolve_name(name, shift, (index + 1) as u32, rest, globals)
        },
    }
}

/// See [`spec_resolve_name`].
pub fn resolve_name(name: &String, shift: u32, index: u32, locals: &Names, globals: &Globals) -> (r:
    Option<Var>)
    ensures
        r == spec_resolve_name(name, shift, index, locals, globals),
    decreases *locals,
{
    match locals {
        Names::Nil => if shift == 0 {
            find_global(globals, name)
        } else {
            None
        },
        Names::Cons(n, rest) => if index == u32::MAX {
            None
        } else if String::eq(n, name) {
            if shift == 0 {
                Some(Var::Bound(index, name.clone()))
            } else {
                resolve_name(name, shift - 1, index + 1, rest, globals)
            }
        } else {
            resolve_name(name, shift, index + 1, rest, globals)
        },
        Names::Shadow(rest) => if index == u32::MAX {
            None
        } else {
            resolve_name(name, shift, index + 1, rest, globals)
        },
    }
}

/// The error for a name found in neither the scope nor the globals. The
/// free variable it carries has no identity, only the name.
pub open spec fn spec_undefined(span: Span, name: &String) -> TypeError {
    TypeError::UndefinedName { span, free_var: FreeVar { id: 0u64, name: *name } }
}

/// See [`spec_undefined`].
pub fn undefined(span: Span, name: &String) -> (r: TypeError)
    ensures
        r == spec_undefined(span, name),
{
    TypeError::UndefinedName { span, free_var: FreeVar { id: 0, name: name.clone() } }
}

/// The error for a parse-recovery node that reached semantic analysis.
pub open spec fn spec_recovered(span: Span) -> TypeError {
    TypeError::Internal(
        InternalError::Unimplemented {
            span: Option::Some(span),
            message: "parse error recovery node reached the desugarer",
        },
    )
}

/// See [`spec_recovered`].
pub fn recovered(span: Span) -> (r: TypeError)
    ensures
        r == spec_recovered(span),
{
    TypeError::Internal(
        InternalError::Unimplemented {
            span: Option::Some(span),
            message: "parse error recovery node reached the desugarer",
        },
    )
}

/// The span of a label starting at `start` with the given text.
pub open spec fn spec_label_span(start: usize, name: &String) -> Span {
    if start + name@.len() > usize::MAX {
        Span { start, end: usize::MAX }
    } else {
        Span { start, end: (start + name@.len()) as usize }
    }
}

/// See [`spec_label_span`].
pub fn label_span(start: usize, name: &String) -> (r: Span)
    ensures
        r == spec_label_span(start, name),
{
    let len = name.as_str().unicode_len();
    if start > usize::MAX - len {
        Span { start, end: usize::MAX }
    } else {
        Span { start, end: start + len }
    }
}

/// Desugar and resolve a concrete term into a raw term. `anon` is the
/// printable hint given to binders the surface syntax leaves unnamed,
/// conventionally an underscore.
pub open spec fn spec_resolve(
    term: &concrete::Term,
    locals: &Names,
    globals: &Globals,
    imports: &Globals,
    prelude: &Prelude,
    anon: &String,
    fuel: u64,
) -> Result<raw::Term, TypeError>
    decreases fuel, 0int,
{
    if fuel == 0 {
        Err(TypeError::DepthLimitExceeded { span: term.span_spec() })
    } else {
        let f1 = (fuel - 1) as u64;
        match term {
            concrete::Term::Parens(_, inner) => spec_resolve(
                inner,
                locals,
                globals,
                imports,
                prelude,
                anon,
                f1,
            ),
            concrete::Term::Ann(inner, ty) => match spec_resolve(
                inner,
                locals,
                globals,
                imports,
                prelude,
                anon,
                f1,
            ) {
                Ok(ri) => match spec_resolve(ty, locals, globals, imports, prelude, anon, f1) {
                    Ok(rt) => Ok(
                        raw::Term::Ann(term.span_spec(), Box::new(ri), Box::new(rt)),
                    ),
                    Err(e) => Err(e),
                },
                Err(e) => Err(e),
            },
            concrete::Term::Universe(span, level) => Ok(
                raw::Term::Universe(
                    *span,
                    match level {
                        Option::None => 0u32,
                        Option::Some(n) => *n,
                    },
                ),
            ),
            concrete::Term::Literal(literal) => Ok(raw::Term::Literal(*literal)),
            concrete::Term::ArrayIntro(span, elems) => match spec_resolve_terms(
                elems,
                0,
                locals,
                globals,
                imports,
                prelude,
                anon,
                f1,
            ) {
                Ok(relems) => Ok(raw::Term::ArrayIntro(*span, relems)),
                Err(e) => Err(e),
            },
            concrete::Term::Hole(span) => Ok(raw::Term::Hole(*span)),
            concrete::Term::Name(span, name, shift) => match spec_resolve_name(
                name,
                match shift {
                    Option::None => 0u32,
                    Option::Some(n) => *n,
                },
                0,
                locals,
                globals,
            ) {
                Option::Some(var) => Ok(raw::Term::Var(*span, var)),
                Option::None => Err(spec_undefined(*span, name)),
            },
            concrete::Term::Import(span, name_span, name) => match spec_find_global(
                imports,
                name,
            ) {
                Option::Some(var) => Ok(raw::Term::Var(*span, var)),
                Option::None => Err(
                    TypeError::UndefinedImport { span: *name_span, name: *name },
                ),
            },
            concrete::Term::FunType(start, params, body) => spec_resolve_type_params(
                *start,
                params,
                0,
                0,
                body,
                locals,
                globals,
                imports,
                prelude,
                anon,
                f1,
            ),
            concrete::Term::FunArrow(dom, cod) => match spec_resolve(
                dom,
                locals,
                globals,
                imports,
                prelude,
                anon,
                f1,
            ) {
                Ok(rdom) => match spec_resolve(
                    cod,
                    &Names::Shadow(Box::new(*locals)),
                    globals,
                    imports,
                    prelude,
                    anon,
                    f1,
                ) {
                    Ok(rcod) => Ok(
                        raw::Term::FunType(
                            term.span_spec(),
                            *anon,
                            Box::new(rdom),
                            Box::new(rcod),
                        ),
                    ),
                    Err(e) => Err(e),
                },
                Err(e) => Err(e),
            },
            concrete::Term::FunIntro(start, params, body) => spec_resolve_intro_params(
                *start,
                params,
                0,
                0,
                Option::None,
                body,
                locals,
                globals,
                imports,
                prelude,
                anon,
                f1,
            ),
            concrete::Term::FunApp(head, middle, last) => match spec_resolve(
                head,
                locals,
                globals,
                imports,
                prelude,
                anon,
                f1,
            ) {
                Ok(rhead) => spec_resolve_app(
                    term.span_spec(),
                    rhead,
                    middle,
                    0,
                    last,
                    locals,
                    globals,
                    imports,
                    prelude,
                    anon,
                    f1,
                ),
                Err(e) => Err(e),
            },
            concrete::Term::Let(start, items, body) => match spec_resolve_items(
                items,
                0,
                locals,
                globals,
                imports,
                prelude,
                anon,
                f1,
            ) {
                Ok((ritems, inner_locals)) => match spec_resolve(
                    body,
                    &inner_locals,
                    globals,
                    imports,
                    prelude,
                    anon,
                    f1,
                ) {
                    Ok(rbody) => Ok(
                        raw::Term::Let(term.span_spec(), ritems, Box::new(rbody)),
                    ),
                    Err(e) => Err(e),
                },
                Err(e) => Err(e),
            },
            concrete::Term::Where(expr, items, end) => match spec_resolve_items(
                items,
                0,
                locals,
                globals,
                imports,
                prelude,
                anon,
                f1,
            ) {
                Ok((ritems, inner_locals)) => match spec_resolve(
                    expr,
                    &inner_locals,
                    globals,
                    imports,
                    prelude,
                    anon,
                    f1,
                ) {
                    Ok(rbody) => Ok(
                        raw::Term::Let(term.span_spec(), ritems, Box::new(rbody)),
                    ),
                    Err(e) => Err(e),
                },
                Err(e) => Err(e),
            },
            concrete::Term::If(start, cond, if_true, if_false) => match spec_resolve(
                cond,
                locals,
                globals,
                imports,
                prelude,
                anon,
                f1,
            ) {
                Ok(rcond) => match spec_resolve(
                    if_true,
                    locals,
                    globals,
                    imports,
                    prelude,
                    anon,
                    f1,
                ) {
                    Ok(rtrue) => match spec_resolve(
                        if_false,
                        locals,
                        globals,
                        imports,
                        prelude,
                        anon,
                        f1,
                    ) {
                        Ok(rfalse) => Ok(
                            raw::Term::Case(
                                term.span_spec(),
                                Box::new(rcond),
                                raw::ClauseList::Cons(
                                    Box::new(
                                        raw::Pattern::Var(
                                            cond.span_spec(),
                                            Var::Free(prelude.true_var),
                                        ),
                                    ),
                                    Box::new(rtrue),
                                    Box::new(
                                        raw::ClauseList::Cons(
                                            Box::new(
                                                raw::Pattern::Var(
                                                    cond.span_spec(),
                                                    Var::Free(prelude.false_var),
                                                ),
                                            ),
                                            Box::new(rfalse),
                                            Box::new(raw::ClauseList::Nil),
                                        ),
                                    ),
                                ),
                            ),
                        ),
                        Err(e) => Err(e),
                    },
                    Err(e) => Err(e),
                },
                Err(e) => Err(e),
            },
            concrete::Term::Case(span, scrutinee, clauses) => match spec_resolve(
                scrutinee,
                locals,
                globals,
                imports,
                prelude,
                anon,
                f1,
            ) {
                Ok(rscrut) => match spec_resolve_clauses(
                    clauses,
                    0,
                    locals,
                    globals,
                    imports,
                    prelude,
                    anon,
                    f1,
                ) {
                    Ok(rclauses) => Ok(raw::Term::Case(*span, Box::new(rscrut), rclauses)),
                    Err(e) => Err(e),
                },
                Err(e) => Err(e),
            },
            concrete::Term::RecordType(span, fields) => match spec_resolve_type_fields(
                fields,
                0,
                locals,
                globals,
                imports,
                prelude,
                anon,
                f1,
            ) {
                Ok(rfields) => Ok(raw::Term::RecordType(*span, rfields)),
                Err(e) => Err(e),
            },
            concrete::Term::RecordIntro(span, fields) => match spec_resolve_intro_fields(
                fields,
                0,
                locals,
                globals,
                imports,
                prelude,
                anon,
                f1,
            ) {
                Ok(rfields) => Ok(raw::Term::RecordIntro(*span, rfields)),
                Err(e) => Err(e),
            },
            concrete::Term::RecordProj(span, head, label_start, label, _) => match spec_resolve(
                head,
                locals,
                globals,
                imports,
                prelude,
                anon,
                f1,
            ) {
                Ok(rhead) => Ok(
                    raw::Term::RecordProj(
                        *span,
                        Box::new(rhead),
                        spec_label_span(*label_start, label),
                        raw::Label(*label),
                    ),
                ),
                Err(e) => Err(e),
            },
            concrete::Term::Error(span) => Err(spec_recovered(*span)),
        }
    }
}

/// Resolve the elements of an array literal, from index `i` on.
pub open spec fn spec_resolve_terms(
    elems: &Vec<concrete::Term>,
    i: usize,
    locals: &Names,
    globals: &Globals,
    imports: &Globals,
    prelude: &Prelude,
    anon: &String,
    fuel: u64,
) -> Result<raw::TermList, TypeError>
    decreases fuel, 0int,
{
    if fuel == 0 {
        Err(TypeError::DepthLimitExceeded { span: Span { start: 0, end: 0 } })
    } else if i >= elems.len() {
        Ok(raw::TermList::Nil)
    } else {
        let f1 = (fuel - 1) as u64;
        match spec_resolve(&elems[i as int], locals, globals, imports, prelude, anon, f1) {
            Ok(rt) => match spec_resolve_terms(
                elems,
                (i + 1) as usize,
                locals,
                globals,
                imports,
                prelude,
                anon,
                f1,
            ) {
                Ok(rest) => Ok(raw::TermList::Cons(Box::new(rt), Box::new(rest))),
                Err(e) => Err(e),
            },
            Err(e) => Err(e),
        }
    }
}

/// Expand the parameter groups of a function introduction into nested
/// single binders, resolving each group's shared annotation once per
/// binder in the scope that binder sits in, and finish with the body —
/// annotated with the return annotation, if one was given, resolved
/// under all the binders.
pub open spec fn spec_resolve_intro_params(
    start: usize,
    params: &Vec<concrete::FunIntroParamGroup>,
    gi: usize,
    ni: usize,
    return_ann: Option<&concrete::Term>,
    body: &concrete::Term,
    locals: &Names,
    globals: &Globals,
    imports: &Globals,
    prelude: &Prelude,
    anon: &String,
    fuel: u64,
) -> Result<raw::Term, TypeError>
    decreases fuel, 0int,
{
    if fuel == 0 {
        Err(TypeError::DepthLimitExceeded { span: body.span_spec() })
    } else {
        let f1 = (fuel - 1) as u64;
        let span = Span { start, end: body.span_spec().end };
        if gi >= params.len() {
            match spec_resolve(body, locals, globals, imports, prelude, anon, f1) {
                Ok(rbody) => match return_ann {
                    Option::None => Ok(rbody),
                    Option::Some(ann) => match spec_resolve(
                        ann,
                        locals,
                        globals,
                        imports,
                        prelude,
                        anon,
                        f1,
                    ) {
                        Ok(rann) => Ok(raw::Term::Ann(span, Box::new(rbody), Box::new(rann))),
                        Err(e) => Err(e),
                    },
                },
                Err(e) => Err(e),
            }
        } else if ni >= params[gi as int].names.len() {
            spec_resolve_intro_params(
                start,
                params,
                (gi + 1) as usize,
                0,
                return_ann,
                body,
                locals,
                globals,
                imports,
                prelude,
                anon,
                f1,
            )
        } else {
            let name = params[gi as int].names[ni as int].1;
            let rann = match params[gi as int].ann {
                Option::None => Ok(Option::<Box<raw::Term>>::None),
                Option::Some(ann) => match spec_resolve(
                    &ann,
                    locals,
                    globals,
                    imports,
                    prelude,
                    anon,
                    f1,
                ) {
                    Ok(ra) => Ok(Option::Some(Box::new(ra))),
                    Err(e) => Err(e),
                },
            };
            match rann {
                Ok(ann_raw) => match spec_resolve_intro_params(
                    start,
                    params,
                    gi,
                    (ni + 1) as usize,
                    return_ann,
                    body,
                    &Names::Cons(name, Box::new(*locals)),
                    globals,
                    imports,
                    prelude,
                    anon,
                    f1,
                ) {
                    Ok(inner) => Ok(raw::Term::FunIntro(span, name, ann_raw, Box::new(inner))),
                    Err(e) => Err(e),
                },
                Err(e) => Err(e),
            }
        }
    }
}

/// Expand the parameter groups of a dependent function type into nested
/// single binders, as [`spec_resolve_intro_params`] but with the
/// annotation required.
pub open spec fn spec_resolve_type_params(
    start: usize,
    params: &Vec<concrete::FunTypeParamGroup>,
    gi: usize,
    ni: usize,
    body: &concrete::Term,
    locals: &Names,
    globals: &Globals,
    imports: &Globals,
    prelude: &Prelude,
    anon: &String,
    fuel: u64,
) -> Result<raw::Term, TypeError>
    decreases fuel, 0int,
{
    if fuel == 0 {
        Err(TypeError::DepthLimitExceeded { span: body.span_spec() })
    } else {
        let f1 = (fuel - 1) as u64;
        let span = Span { start, end: body.span_spec().end };
        if gi >= params.len() {
            spec_resolve(body, locals, globals, imports, prelude, anon, f1)
        } else if ni >= params[gi as int].names.len() {
            spec_resolve_type_params(
                start,
                params,
                (gi + 1) as usize,
                0,
                body,
                locals,
                globals,
                imports,
                prelude,
                anon,
                f1,
            )
        } else {
            let name = params[gi as int].names[ni as int].1;
            match spec_resolve(
                &params[gi as int].ann,
                locals,
                globals,
                imports,
                prelude,
                anon,
                f1,
            ) {
                Ok(rann) => match spec_resolve_type_params(
                    start,
                    params,
                    gi,
                    (ni + 1) as usize,
                    body,
                    &Names::Cons(name, Box::new(*locals)),
                    globals,
                    imports,
                    prelude,
                    anon,
                    f1,
                ) {
                    Ok(inner) => Ok(
                        raw::Term::FunType(span, name, Box::new(rann), Box::new(inner)),
                    ),
                    Err(e) => Err(e),
                },
                Err(e) => Err(e),
            }
        }
    }
}

/// Fold an application's arguments onto its head, left to right.
pub open spec fn spec_resolve_app(
    span: Span,
    acc: raw::Term,
    args: &Vec<concrete::Term>,
    i: usize,
    last: &concrete::Term,
    locals: &Names,
    globals: &Globals,
    imports: &Globals,
    prelude: &Prelude,
    anon: &String,
    fuel: u64,
) -> Result<raw::Term, TypeError>
    decreases fuel, 0int,
{
    if fuel == 0 {
        Err(TypeError::DepthLimitExceeded { span })
    } else {
        let f1 = (fuel - 1) as u64;
        if i >= args.len() {
            match spec_resolve(last, locals, globals, imports, prelude, anon, f1) {
                Ok(rlast) => Ok(raw::Term::FunApp(span, Box::new(acc), Box::new(rlast))),
                Err(e) => Err(e),
            }
        } else {
            match spec_resolve(&args[i as int], locals, globals, imports, prelude, anon, f1) {
                Ok(rarg) => spec_resolve_app(
                    span,
                    raw::Term::FunApp(span, Box::new(acc), Box::new(rarg)),
                    args,
                    (i + 1) as usize,
                    last,
                    locals,
                    globals,
                    imports,
                    prelude,
                    anon,
                    f1,
                ),
                Err(e) => Err(e),
            }
        }
    }
}

/// Resolve the items of a `let` block from index `i` on, in order; each
/// definition binds its name for the items after it. Returns the raw
/// items together with the scope for the block's body.
pub open spec fn spec_resolve_items(
    items: &Vec<concrete::Item>,
    i: usize,
    locals: &Names,
    globals: &Globals,
    imports: &Globals,
    prelude: &Prelude,
    anon: &String,
    fuel: u64,
) -> Result<(raw::ItemList, Names), TypeError>
    decreases fuel, 0int,
{
    if fuel == 0 {
        Err(TypeError::DepthLimitExceeded { span: Span { start: 0, end: 0 } })
    } else if i >= items.len() {
        Ok((raw::ItemList::Nil, *locals))
    } else {
        let f1 = (fuel - 1) as u64;
        match &items[i as int] {
            concrete::Item::Declaration { name, ann } => match spec_resolve(
                ann,
                locals,
                globals,
                imports,
                prelude,
                anon,
                f1,
            ) {
                Ok(rann) => match spec_resolve_items(
                    items,
                    (i + 1) as usize,
                    locals,
                    globals,
                    imports,
                    prelude,
                    anon,
                    f1,
                ) {
                    Ok((rest, inner_locals)) => Ok(
                        (
                            raw::ItemList::Cons(
                                Box::new(
                                    raw::Item::Declaration(
                                        items[i as int].span_spec(),
                                        name.1,
                                        Box::new(rann),
                                    ),
                                ),
                                Box::new(rest),
                            ),
                            inner_locals,
                        ),
                    ),
                    Err(e) => Err(e),
                },
                Err(e) => Err(e),
            },
            concrete::Item::Definition { name, params, return_ann, body } => {
                let rterm = spec_resolve_intro_params(
                    name.0,
                    params,
                    0,
                    0,
                    match return_ann {
                        Option::None => Option::None,
                        Option::Some(a) => Option::Some(&**a),
                    },
                    body,
                    locals,
                    globals,
                    imports,
                    prelude,
                    anon,
                    f1,
                );
                match rterm {
                    Ok(rdef) => match spec_resolve_items(
                        items,
                        (i + 1) as usize,
                        &Names::Cons(name.1, Box::new(*locals)),
                        globals,
                        imports,
                        prelude,
                        anon,
                        f1,
                    ) {
                        Ok((rest, inner_locals)) => Ok(
                            (
                                raw::ItemList::Cons(
                                    Box::new(
                                        raw::Item::Definition(
                                            items[i as int].span_spec(),
                                            name.1,
                                            Box::new(rdef),
                                        ),
                                    ),
                                    Box::new(rest),
                                ),
                                inner_locals,
                            ),
                        ),
                        Err(e) => Err(e),
                    },
                    Err(e) => Err(e),
                }
            },
            concrete::Item::Error(span) => Err(spec_recovered(*span)),
        }
    }
}

/// Resolve a pattern: a literal matches by value; a name that resolves
/// in scope matches that constant by equality, one that does not
/// introduces a fresh binder, returned so the clause body can be
/// resolved under it. A shifted name that resolves to nothing is
/// undefined.
pub open spec fn spec_resolve_pattern(
    pattern: &concrete::Pattern,
    locals: &Names,
    globals: &Globals,
    imports: &Globals,
    prelude: &Prelude,
    anon: &String,
    fuel: u64,
) -> Result<(raw::Pattern, Option<String>), TypeError>
    decreases fuel, 0int,
{
    if fuel == 0 {
        Err(TypeError::DepthLimitExceeded { span: pattern.span_spec() })
    } else {
        let f1 = (fuel - 1) as u64;
        match pattern {
            concrete::Pattern::Parens(_, inner) => spec_resolve_pattern(
                inner,
                locals,
                globals,
                imports,
                prelude,
                anon,
                f1,
            ),
            concrete::Pattern::Ann(inner, ty) => match spec_resolve_pattern(
                inner,
                locals,
                globals,
                imports,
                prelude,
                anon,
                f1,
            ) {
                Ok((rp, bound)) => match spec_resolve(
                    ty,
                    locals,
                    globals,
                    imports,
                    prelude,
                    anon,
                    f1,
                ) {
                    Ok(rt) => Ok(
                        (raw::Pattern::Ann(Box::new(rp), Box::new(rt)), bound),
                    ),
                    Err(e) => Err(e),
                },
                Err(e) => Err(e),
            },
            concrete::Pattern::Literal(literal) => Ok(
                (raw::Pattern::Literal(*literal), Option::None),
            ),
            concrete::Pattern::Name(span, name, shift) => match spec_resolve_name(
                name,
                match shift {
                    Option::None => 0u32,
                    Option::Some(n) => *n,
                },
                0,
                locals,
                globals,
            ) {
                Option::Some(var) => Ok((raw::Pattern::Var(*span, var), Option::None)),
                Option::None => match shift {
                    Option::Some(_) => Err(spec_undefined(*span, name)),
                    Option::None => Ok(
                        (raw::Pattern::Binder(*span, *name), Option::Some(*name)),
                    ),
                },
            },
            concrete::Pattern::Error(span) => Err(spec_recovered(*span)),
        }
    }
}

/// Resolve the clauses of a case expression from index `i` on; each
/// clause's body sees the binder its pattern introduced, and nothing
/// outside its own clause.
pub open spec fn spec_resolve_clauses(
    clauses: &Vec<(concrete::Pattern, concrete::Term)>,
    i: usize,
    locals: &Names,
    globals: &Globals,
    imports: &Globals,
    prelude: &Prelude,
    anon: &String,
    fuel: u64,
) -> Result<raw::ClauseList, TypeError>
    decreases fuel, 0int,
{
    if fuel == 0 {
        Err(TypeError::DepthLimitExceeded { span: Span { start: 0, end: 0 } })
    } else if i >= clauses.len() {
        Ok(raw::ClauseList::Nil)
    } else {
        let f1 = (fuel - 1) as u64;
        match spec_resolve_pattern(
            &clauses[i as int].0,
            locals,
            globals,
            imports,
            prelude,
            anon,
            f1,
        ) {
            Ok((rpattern, bound)) => {
                let body_locals = match bound {
                    Option::None => *locals,
                    Option::Some(name) => Names::Cons(name, Box::new(*locals)),
                };
                match spec_resolve(
                    &clauses[i as int].1,
                    &body_locals,
                    globals,
                    imports,
                    prelude,
                    anon,
                    f1,
                ) {
                    Ok(rbody) => match spec_resolve_clauses(
                        clauses,
                        (i + 1) as usize,
                        locals,
                        globals,
                        imports,
                        prelude,
                        anon,
                        f1,
                    ) {
                        Ok(rest) => Ok(
                            raw::ClauseList::Cons(
                                Box::new(rpattern),
                                Box::new(rbody),
                                Box::new(rest),
                            ),
                        ),
                        Err(e) => Err(e),
                    },
                    Err(e) => Err(e),
                }
            },
            Err(e) => Err(e),
        }
    }
}

/// Resolve the fields of a record type from index `i` on: each field's
/// annotation may refer to the earlier fields through their binders,
/// which default to the labels.
pub open spec fn spec_resolve_type_fields(
    fields: &Vec<concrete::RecordTypeField>,
    i: usize,
    locals: &Names,
    globals: &Globals,
    imports: &Globals,
    prelude: &Prelude,
    anon: &String,
    fuel: u64,
) -> Result<raw::TypeFieldList, TypeError>
    decreases fuel, 0int,
{
    if fuel == 0 {
        Err(TypeError::DepthLimitExceeded { span: Span { start: 0, end: 0 } })
    } else if i >= fields.len() {
        Ok(raw::TypeFieldList::Nil)
    } else {
        let f1 = (fuel - 1) as u64;
        let binder = match fields[i as int].binder {
            Option::None => fields[i as int].label.1,
            Option::Some(b) => b.1,
        };
        match spec_resolve(
            &fields[i as int].ann,
            locals,
            globals,
            imports,
            prelude,
            anon,
            f1,
        ) {
            Ok(rann) => match spec_resolve_type_fields(
                fields,
                (i + 1) as usize,
                &Names::Cons(binder, Box::new(*locals)),
                globals,
                imports,
                prelude,
                anon,
                f1,
            ) {
                Ok(rest) => Ok(
                    raw::TypeFieldList::Cons(
                        raw::Label(fields[i as int].label.1),
                        binder,
                        Box::new(rann),
                        Box::new(rest),
                    ),
                ),
                Err(e) => Err(e),
            },
            Err(e) => Err(e),
        }
    }
}

/// Resolve the fields of a record introduction from index `i` on,
/// expanding punning — `{ x }` stands for `{ x = x }` — and
/// method-style fields with parameters and a return annotation into
/// plain field-value pairs.
pub open spec fn spec_resolve_intro_fields(
    fields: &Vec<concrete::RecordField>,
    i: usize,
    locals: &Names,
    globals: &Globals,
    imports: &Globals,
    prelude: &Prelude,
    anon: &String,
    fuel: u64,
) -> Result<raw::IntroFieldList, TypeError>
    decreases fuel, 0int,
{
    if fuel == 0 {
        Err(TypeError::DepthLimitExceeded { span: Span { start: 0, end: 0 } })
    } else if i >= fields.len() {
        Ok(raw::IntroFieldList::Nil)
    } else {
        let f1 = (fuel - 1) as u64;
        let resolved: Result<(Span, raw::Label, raw::Term), TypeError> = match &fields[i as int] {
            concrete::RecordField::Punned { label, shift } => {
                let span = spec_label_span(label.0, &label.1);
                match spec_resolve_name(
                    &label.1,
                    match shift {
                        Option::None => 0u32,
                        Option::Some(n) => *n,
                    },
                    0,
                    locals,
                    globals,
                ) {
                    Option::Some(var) => Ok(
                        (span, raw::Label(label.1), raw::Term::Var(span, var)),
                    ),
                    Option::None => Err(spec_undefined(span, &label.1)),
                }
            },
            concrete::RecordField::Explicit { label, params, return_ann, term } => {
                let span = spec_label_span(label.0, &label.1);
                match spec_resolve_intro_params(
                    label.0,
                    params,
                    0,
                    0,
                    match return_ann {
                        Option::None => Option::None,
                        Option::Some(a) => Option::Some(&**a),
                    },
                    term,
                    locals,
                    globals,
                    imports,
                    prelude,
                    anon,
                    f1,
                ) {
                    Ok(rterm) => Ok((span, raw::Label(label.1), rterm)),
                    Err(e) => Err(e),
                }
            },
        };
        match resolved {
            Ok((span, label, rterm)) => match spec_resolve_intro_fields(
                fields,
                (i + 1) as usize,
                locals,
                globals,
                imports,
                prelude,
                anon,
                f1,
            ) {
                Ok(rest) => Ok(
                    raw::IntroFieldList::Cons(span, label, Box::new(rterm), Box::new(rest)),
                ),
                Err(e) => Err(e),
            },
            Err(e) => Err(e),
        }
    }
}

/// Desugar and resolve a concrete term. See [`spec_resolve`].
pub fn resolve(
    term: &concrete::Term,
    locals: &Names,
    globals: &Globals,
    imports: &Globals,
    prelude: &Prelude,
    anon: &String,
    fuel: u64,
) -> (r: Result<raw::Term, TypeError>)
    ensures
        r == spec_resolve(term, locals, globals, imports, prelude, anon, fuel),
    decreases fuel, 0int,
{
    if fuel == 0 {
        Err(TypeError::DepthLimitExceeded { span: term.span() })
    } else {
        match term {
            concrete::Term::Parens(_, inner) => resolve(
                inner,
                locals,
                globals,
                imports,
                prelude,
                anon,
                fuel - 1,
            ),
            concrete::Term::Ann(inner, ty) => match resolve(
                inner,
                locals,
                globals,
                imports,
                prelude,
                anon,
                fuel - 1,
            ) {
                Ok(ri) => match resolve(ty, locals, globals, imports, prelude, anon, fuel - 1) {
                    Ok(rt) => Ok(raw::Term::Ann(term.span(), Box::new(ri), Box::new(rt))),
                    Err(e) => Err(e),
                },
                Err(e) => Err(e),
            },
            concrete::Term::Universe(span, level) => Ok(
                raw::Term::Universe(
                    *span,
                    match level {
                        Option::None => 0,
                        Option::Some(n) => *n,
                    },
                ),
            ),
            concrete::Term::Literal(literal) => Ok(raw::Term::Literal(literal.clone())),
            concrete::Term::ArrayIntro(span, elems) => match resolve_terms(
                elems,
                0,
                locals,
                globals,
                imports,
                prelude,
                anon,
                fuel - 1,
            ) {
                Ok(relems) => Ok(raw::Term::ArrayIntro(*span, relems)),
                Err(e) => Err(e),
            },
            concrete::Term::Hole(span) => Ok(raw::Term::Hole(*span)),
            concrete::Term::Name(span, name, shift) => match resolve_name(
                name,
                match shift {
                    Option::None => 0,
                    Option::Some(n) => *n,
                },
                0,
                locals,
                globals,
            ) {
                Option::Some(var) => Ok(raw::Term::Var(*span, var)),
                Option::None => Err(undefined(*span, name)),
            },
            concrete::Term::Import(span, name_span, name) => match find_global(imports, name) {
                Option::Some(var) => Ok(raw::Term::Var(*span, var)),
                Option::None => Err(
                    TypeError::UndefinedImport { span: *name_span, name: name.clone() },
                ),
            },
            concrete::Term::FunType(start, params, body) => resolve_type_params(
                *start,
                params,
                0,
                0,
                body,
                locals,
                globals,
                imports,
                prelude,
                anon,
                fuel - 1,
            ),
            concrete::Term::FunArrow(dom, cod) => match resolve(
                dom,
                locals,
                globals,
                imports,
                prelude,
                anon,
                fuel - 1,
            ) {
                Ok(rdom) => {
                    let inner_locals = Names::Shadow(Box::new(locals.clone()));
                    match resolve(
                        cod,
                        &inner_locals,
                        globals,
                        imports,
                        prelude,
                        anon,
                        fuel - 1,
                    ) {
                        Ok(rcod) => Ok(
                            raw::Term::FunType(
                                term.span(),
                                anon.clone(),
                                Box::new(rdom),
                                Box::new(rcod),
                            ),
                        ),
                        Err(e) => Err(e),
                    }
                },
                Err(e) => Err(e),
            },
            concrete::Term::FunIntro(start, params, body) => resolve_intro_params(
                *start,
                params,
                0,
                0,
                Option::None,
                body,
                locals,
                globals,
                imports,
                prelude,
                anon,
                fuel - 1,
            ),
            concrete::Term::FunApp(head, middle, last) => match resolve(
                head,
                locals,
                globals,
                imports,
                prelude,
                anon,
                fuel - 1,
            ) {
                Ok(rhead) => resolve_app(
                    term.span(),
                    rhead,
                    middle,
                    0,
                    last,
                    locals,
                    globals,
                    imports,
                    prelude,
                    anon,
                    fuel - 1,
                ),
                Err(e) => Err(e),
            },
            concrete::Term::Let(start, items, body) => match resolve_items(
                items,
                0,
                locals,
                globals,
                imports,
                prelude,
                anon,
                fuel - 1,
            ) {
                Ok((ritems, inner_locals)) => match resolve(
                    body,
                    &inner_locals,
                    globals,
                    imports,
                    prelude,
                    anon,
                    fuel - 1,
                ) {
                    Ok(rbody) => Ok(raw::Term::Let(term.span(), ritems, Box::new(rbody))),
                    Err(e) => Err(e),
                },
                Err(e) => Err(e),
            },
            concrete::Term::Where(expr, items, end) => match resolve_items(
                items,
                0,
                locals,
                globals,
                imports,
                prelude,
                anon,
                fuel - 1,
            ) {
                Ok((ritems, inner_locals)) => match resolve(
                    expr,
                    &inner_locals,
                    globals,
                    imports,
                    prelude,
                    anon,
                    fuel - 1,
                ) {
                    Ok(rbody) => Ok(raw::Term::Let(term.span(), ritems, Box::new(rbody))),
                    Err(e) => Err(e),
                },
                Err(e) => Err(e),
            },
            concrete::Term::If(start, cond, if_true, if_false) => match resolve(
                cond,
                locals,
                globals,
                imports,
                prelude,
                anon,
                fuel - 1,
            ) {
                Ok(rcond) => match resolve(
                    if_true,
                    locals,
                    globals,
                    imports,
                    prelude,
                    anon,
                    fuel - 1,
                ) {
                    Ok(rtrue) => match resolve(
                        if_false,
                        locals,
                        globals,
                        imports,
                        prelude,
                        anon,
                        fuel - 1,
                    ) {
                        Ok(rfalse) => Ok(
                            raw::Term::Case(
                                term.span(),
                                Box::new(rcond),
                                raw::ClauseList::Cons(
                                    Box::new(
                                        raw::Pattern::Var(
                                            cond.span(),
                                            Var::Free(prelude.true_var.clone()),
                                        ),
                                    ),
                                    Box::new(rtrue),
                                    Box::new(
                                        raw::ClauseList::Cons(
                                            Box::new(
                                                raw::Pattern::Var(
                                                    cond.span(),
                                                    Var::Free(prelude.false_var.clone()),
                                                ),
                                            ),
                                            Box::new(rfalse),
                                            Box::new(raw::ClauseList::Nil),
                                        ),
                                    ),
                                ),
                            ),
                        ),
                        Err(e) => Err(e),
                    },
                    Err(e) => Err(e),
                },
                Err(e) => Err(e),
            },
            concrete::Term::Case(span, scrutinee, clauses) => match resolve(
                scrutinee,
                locals,
                globals,
                imports,
                prelude,
                anon,
                fuel - 1,
            ) {
                Ok(rscrut) => match resolve_clauses(
                    clauses,
                    0,
                    locals,
                    globals,
                    imports,
                    prelude,
                    anon,
                    fuel - 1,
                ) {
                    Ok(rclauses) => Ok(raw::Term::Case(*span, Box::new(rscrut), rclauses)),
                    Err(e) => Err(e),
                },
                Err(e) => Err(e),
            },
            concrete::Term::RecordType(span, fields) => match resolve_type_fields(
                fields,
                0,
                locals,
                globals,
                imports,
                prelude,
                anon,
                fuel - 1,
            ) {
                Ok(rfields) => Ok(raw::Term::RecordType(*span, rfields)),
                Err(e) => Err(e),
            },
            concrete::Term::RecordIntro(span, fields) => match resolve_intro_fields(
                fields,
                0,
                locals,
                globals,
                imports,
                prelude,
                anon,
                fuel - 1,
            ) {
                Ok(rfields) => Ok(raw::Term::RecordIntro(*span, rfields)),
                Err(e) => Err(e),
            },
            concrete::Term::RecordProj(span, head, label_start, label, _) => match resolve(
                head,
                locals,
                globals,
                imports,
                prelude,
                anon,
                fuel - 1,
            ) {
                Ok(rhead) => Ok(
                    raw::Term::RecordProj(
                        *span,
                        Box::new(rhead),
                        label_span(*label_start, label),
                        raw::Label(label.clone()),
                    ),
                ),
                Err(e) => Err(e),
            },
            concrete::Term::Error(span) => Err(recovered(*span)),
        }
    }
}

/// See [`spec_resolve_terms`].
pub fn resolve_terms(
    elems: &Vec<concrete::Term>,
    i: usize,
    locals: &Names,
    globals: &Globals,
    imports: &Globals,
    prelude: &Prelude,
    anon: &String,
    fuel: u64,
) -> (r: Result<raw::TermList, TypeError>)
    ensures
        r == spec_resolve_terms(elems, i, locals, globals, imports, prelude, anon, fuel),
    decreases fuel, 0int,
{
    if fuel == 0 {
        Err(TypeError::DepthLimitExceeded { span: Span { start: 0, end: 0 } })
    } else if i >= elems.len() {
        Ok(raw::TermList::Nil)
    } else {
        match resolve(&elems[i], locals, globals, imports, prelude, anon, fuel - 1) {
            Ok(rt) => match resolve_terms(
                elems,
                i + 1,
                locals,
                globals,
                imports,
                prelude,
                anon,
                fuel - 1,
            ) {
                Ok(rest) => Ok(raw::TermList::Cons(Box::new(rt), Box::new(rest))),
                Err(e) => Err(e),
            },
            Err(e) => Err(e),
        }
    }
}

/// See [`spec_resolve_intro_params`].
pub fn resolve_intro_params(
    start: usize,
    params: &Vec<concrete::FunIntroParamGroup>,
    gi: usize,
    ni: usize,
    return_ann: Option<&concrete::Term>,
    body: &concrete::Term,
    locals: &Names,
    globals: &Globals,
    imports: &Globals,
    prelude: &Prelude,
    anon: &String,
    fuel: u64,
) -> (r: Result<raw::Term, TypeError>)
    ensures
        r == spec_resolve_intro_params(
            start,
            params,
            gi,
            ni,
            return_ann,
            body,
            locals,
            globals,
            imports,
            prelude,
            anon,
            fuel,
        ),
    decreases fuel, 0int,
{
    if fuel == 0 {
        Err(TypeError::DepthLimitExceeded { span: body.span() })
    } else {
        let span = Span { start, end: body.span().end };
        if gi >= params.len() {
            match resolve(body, locals, globals, imports, prelude, anon, fuel - 1) {
                Ok(rbody) => match return_ann {
                    Option::None => Ok(rbody),
                    Option::Some(ann) => match resolve(
                        ann,
                        locals,
                        globals,
                        imports,
                        prelude,
                        anon,
                        fuel - 1,
                    ) {
                        Ok(rann) => Ok(raw::Term::Ann(span, Box::new(rbody), Box::new(rann))),
                        Err(e) => Err(e),
                    },
                },
                Err(e) => Err(e),
            }
        } else if ni >= params[gi].names.len() {
            resolve_intro_params(
                start,
                params,
                gi + 1,
                0,
                return_ann,
                body,
                locals,
                globals,
                imports,
                prelude,
                anon,
                fuel - 1,
            )
        } else {
            let name = &params[gi].names[ni].1;
            let rann = match &params[gi].ann {
                Option::None => Ok(Option::<Box<raw::Term>>::None),
                Option::Some(ann) => match resolve(
                    ann,
                    locals,
                    globals,
                    imports,
                    prelude,
                    anon,
                    fuel - 1,
                ) {
                    Ok(ra) => Ok(Option::Some(Box::new(ra))),
                    Err(e) => Err(e),
                },
            };
            match rann {
                Ok(ann_raw) => {
                    let inner_locals = Names::Cons(name.clone(), Box::new(locals.clone()));
                    match resolve_intro_params(
                        start,
                        params,
                        gi,
                        ni + 1,
                        return_ann,
                        body,
                        &inner_locals,
                        globals,
                        imports,
                        prelude,
                        anon,
                        fuel - 1,
                    ) {
                        Ok(inner) => Ok(
                            raw::Term::FunIntro(span, name.clone(), ann_raw, Box::new(inner)),
                        ),
                        Err(e) => Err(e),
                    }
                },
                Err(e) => Err(e),
            }
        }
    }
}

/// See [`spec_resolve_type_params`].
pub fn resolve_type_params(
    start: usize,
    params: &Vec<concrete::FunTypeParamGroup>,
    gi: usize,
    ni: usize,
    body: &concrete::Term,
    locals: &Names,
    globals: &Globals,
    imports: &Globals,
    prelude: &Prelude,
    anon: &String,
    fuel: u64,
) -> (r: Result<raw::Term, TypeError>)
    ensures
        r == spec_resolve_type_params(
            start,
            params,
            gi,
            ni,
            body,
            locals,
            globals,
            imports,
            prelude,
            anon,
            fuel,
        ),
    decreases fuel, 0int,
{
    if fuel == 0 {
        Err(TypeError::DepthLimitExceeded { span: body.span() })
    } else {
        let span = Span { start, end: body.span().end };
        if gi >= params.len() {
            resolve(body, locals, globals, imports, prelude, anon, fuel - 1)
        } else if ni >= params[gi].names.len() {
            resolve_type_params(
                start,
                params,
                gi + 1,
                0,
                body,
                locals,
                globals,
                imports,
                prelude,
                anon,
                fuel - 1,
            )
        } else {
            let name = &params[gi].names[ni].1;
            match resolve(&params[gi].ann, locals, globals, imports, prelude, anon, fuel - 1) {
                Ok(rann) => {
                    let inner_locals = Names::Cons(name.clone(), Box::new(locals.clone()));
                    match resolve_type_params(
                        start,
                        params,
                        gi,
                        ni + 1,
                        body,
                        &inner_locals,
                        globals,
                        imports,
                        prelude,
                        anon,
                        fuel - 1,
                    ) {
                        Ok(inner) => Ok(
                            raw::Term::FunType(
                                span,
                                name.clone(),
                                Box::new(rann),
                                Box::new(inner),
                            ),
                        ),
                        Err(e) => Err(e),
                    }
                },
                Err(e) => Err(e),
            }
        }
    }
}

/// See [`spec_resolve_app`].
pub fn resolve_app(
    span: Span,
    acc: raw::Term,
    args: &Vec<concrete::Term>,
    i: usize,
    last: &concrete::Term,
    locals: &Names,
    globals: &Globals,
    imports: &Globals,
    prelude: &Prelude,
    anon: &String,
    fuel: u64,
) -> (r: Result<raw::Term, TypeError>)
    ensures
        r == spec_resolve_app(
            span,
            acc,
            args,
            i,
            last,
            locals,
            globals,
            imports,
            prelude,
            anon,
            fuel,
        ),
    decreases fuel, 0int,
{
    if fuel == 0 {
        Err(TypeError::DepthLimitExceeded { span })
    } else {
        if i >= args.len() {
            match resolve(last, locals, globals, imports, prelude, anon, fuel - 1) {
                Ok(rlast) => Ok(raw::Term::FunApp(span, Box::new(acc), Box::new(rlast))),
                Err(e) => Err(e),
            }
        } else {
            match resolve(&args[i], locals, globals, imports, prelude, anon, fuel - 1) {
                Ok(rarg) => resolve_app(
                    span,
                    raw::Term::FunApp(span, Box::new(acc), Box::new(rarg)),
                    args,
                    i + 1,
                    last,
                    locals,
                    globals,
                    imports,
                    prelude,
                    anon,
                    fuel - 1,
                ),
                Err(e) => Err(e),
            }
        }
    }
}

/// See [`spec_resolve_items`].
pub fn resolve_items(
    items: &Vec<concrete::Item>,
    i: usize,
    locals: &Names,
    globals: &Globals,
    imports: &Globals,
    prelude: &Prelude,
    anon: &String,
    fuel: u64,
) -> (r: Result<(raw::ItemList, Names), TypeError>)
    ensures
        r == spec_resolve_items(items, i, locals, globals, imports, prelude, anon, fuel),
    decreases fuel, 0int,
{
    if fuel == 0 {
        Err(TypeError::DepthLimitExceeded { span: Span { start: 0, end: 0 } })
    } else if i >= items.len() {
        Ok((raw::ItemList::Nil, locals.clone()))
    } else {
        match &items[i] {
            concrete::Item::Declaration { name, ann } => match resolve(
                ann,
                locals,
                globals,
                imports,
                prelude,
                anon,
                fuel - 1,
            ) {
                Ok(rann) => match resolve_items(
                    items,
                    i + 1,
                    locals,
                    globals,
                    imports,
                    prelude,
                    anon,
                    fuel - 1,
                ) {
                    Ok((rest, inner_locals)) => Ok(
                        (
                            raw::ItemList::Cons(
                                Box::new(
                                    raw::Item::Declaration(
                                        items[i].span(),
                                        name.1.clone(),
                                        Box::new(rann),
                                    ),
                                ),
                                Box::new(rest),
                            ),
                            inner_locals,
                        ),
                    ),
                    Err(e) => Err(e),
                },
                Err(e) => Err(e),
            },
            concrete::Item::Definition { name, params, return_ann, body } => {
                let rterm = resolve_intro_params(
                    name.0,
                    params,
                    0,
                    0,
                    match return_ann {
                        Option::None => Option::None,
                        Option::Some(a) => Option::Some(&**a),
                    },
                    body,
                    locals,
                    globals,
                    imports,
                    prelude,
                    anon,
                    fuel - 1,
                );
                match rterm {
                    Ok(rdef) => {
                        let inner = Names::Cons(name.1.clone(), Box::new(locals.clone()));
                        match resolve_items(
                            items,
                            i + 1,
                            &inner,
                            globals,
                            imports,
                            prelude,
                            anon,
                            fuel - 1,
                        ) {
                            Ok((rest, inner_locals)) => Ok(
                                (
                                    raw::ItemList::Cons(
                                        Box::new(
                                            raw::Item::Definition(
                                                items[i].span(),
                                                name.1.clone(),
                                                Box::new(rdef),
                                            ),
                                        ),
                                        Box::new(rest),
                                    ),
                                    inner_locals,
                                ),
                            ),
                            Err(e) => Err(e),
                        }
                    },
                    Err(e) => Err(e),
                }
            },
            concrete::Item::Error(span) => Err(recovered(*span)),
        }
    }
}

/// See [`spec_resolve_pattern`].
pub fn resolve_pattern(
    pattern: &concrete::Pattern,
    locals: &Names,
    globals: &Globals,
    imports: &Globals,
    prelude: &Prelude,
    anon: &String,
    fuel: u64,
) -> (r: Result<(raw::Pattern, Option<String>), TypeError>)
    ensures
        r == spec_resolve_pattern(pattern, locals, globals, imports, prelude, anon, fuel),
    decreases fuel, 0int,
{
    if fuel == 0 {
        Err(TypeError::DepthLimitExceeded { span: pattern.span() })
    } else {
        match pattern {
            concrete::Pattern::Parens(_, inner) => resolve_pattern(
                inner,
                locals,
                globals,
                imports,
                prelude,
                anon,
                fuel - 1,
            ),
            concrete::Pattern::Ann(inner, ty) => match resolve_pattern(
                inner,
                locals,
                globals,
                imports,
                prelude,
                anon,
                fuel - 1,
            ) {
                Ok((rp, bound)) => match resolve(
                    ty,
                    locals,
                    globals,
                    imports,
                    prelude,
                    anon,
                    fuel - 1,
                ) {
                    Ok(rt) => Ok((raw::Pattern::Ann(Box::new(rp), Box::new(rt)), bound)),
                    Err(e) => Err(e),
                },
                Err(e) => Err(e),
            },
            concrete::Pattern::Literal(literal) => Ok(
                (raw::Pattern::Literal(literal.clone()), Option::None),
            ),
            concrete::Pattern::Name(span, name, shift) => match resolve_name(
                name,
                match shift {
                    Option::None => 0,
                    Option::Some(n) => *n,
                },
                0,
                locals,
                globals,
            ) {
                Option::Some(var) => Ok((raw::Pattern::Var(*span, var), Option::None)),
                Option::None => match shift {
                    Option::Some(_) => Err(undefined(*span, name)),
                    Option::None => Ok(
                        (
                            raw::Pattern::Binder(*span, name.clone()),
                            Option::Some(name.clone()),
                        ),
                    ),
                },
            },
            concrete::Pattern::Error(span) => Err(recovered(*span)),
        }
    }
}

/// See [`spec_resolve_clauses`].
pub fn resolve_clauses(
    clauses: &Vec<(concrete::Pattern, concrete::Term)>,
    i: usize,
    locals: &Names,
    globals: &Globals,
    imports: &Globals,
    prelude: &Prelude,
    anon: &String,
    fuel: u64,
) -> (r: Result<raw::ClauseList, TypeError>)
    ensures
        r == spec_resolve_clauses(clauses, i, locals, globals, imports, prelude, anon, fuel),
    decreases fuel, 0int,
{
    if fuel == 0 {
        Err(TypeError::DepthLimitExceeded { span: Span { start: 0, end: 0 } })
    } else if i >= clauses.len() {
        Ok(raw::ClauseList::Nil)
    } else {
        match resolve_pattern(&clauses[i].0, locals, globals, imports, prelude, anon, fuel - 1) {
            Ok((rpattern, bound)) => {
                let body_locals = match bound {
                    Option::None => locals.clone(),
                    Option::Some(name) => Names::Cons(name, Box::new(locals.clone())),
                };
                match resolve(
                    &clauses[i].1,
                    &body_locals,
                    globals,
                    imports,
                    prelude,
                    anon,
                    fuel - 1,
                ) {
                    Ok(rbody) => match resolve_clauses(
                        clauses,
                        i + 1,
                        locals,
                        globals,
                        imports,
                        prelude,
                        anon,
                        fuel - 1,
                    ) {
                        Ok(rest) => Ok(
                            raw::ClauseList::Cons(
                                Box::new(rpattern),
                                Box::new(rbody),
                                Box::new(rest),
                            ),
                        ),
                        Err(e) => Err(e),
                    },
                    Err(e) => Err(e),
                }
            },
            Err(e) => Err(e),
        }
    }
}

/// See [`spec_resolve_type_fields`].
pub fn resolve_type_fields(
    fields: &Vec<concrete::RecordTypeField>,
    i: usize,
    locals: &Names,
    globals: &Globals,
    imports: &Globals,
    prelude: &Prelude,
    anon: &String,
    fuel: u64,
) -> (r: Result<raw::TypeFieldList, TypeError>)
    ensures
        r == spec_resolve_type_fields(fields, i, locals, globals, imports, prelude, anon, fuel),
    decreases fuel, 0int,
{
    if fuel == 0 {
        Err(TypeError::DepthLimitExceeded { span: Span { start: 0, end: 0 } })
    } else if i >= fields.len() {
        Ok(raw::TypeFieldList::Nil)
    } else {
        let binder = match &fields[i].binder {
            Option::None => fields[i].label.1.clone(),
            Option::Some(b) => b.1.clone(),
        };
        match resolve(&fields[i].ann, locals, globals, imports, prelude, anon, fuel - 1) {
            Ok(rann) => {
                let inner = Names::Cons(binder.clone(), Box::new(locals.clone()));
                match resolve_type_fields(
                    fields,
                    i + 1,
                    &inner,
                    globals,
                    imports,
                    prelude,
                    anon,
                    fuel - 1,
                ) {
                    Ok(rest) => Ok(
                        raw::TypeFieldList::Cons(
                            raw::Label(fields[i].label.1.clone()),
                            binder,
                            Box::new(rann),
                            Box::new(rest),
                        ),
                    ),
                    Err(e) => Err(e),
                }
            },
            Err(e) => Err(e),
        }
    }
}

/// See [`spec_resolve_intro_fields`].
pub fn resolve_intro_fields(
    fields: &Vec<concrete::RecordField>,
    i: usize,
    locals: &Names,
    globals: &Globals,
    imports: &Globals,
    prelude: &Prelude,
    anon: &String,
    fuel: u64,
) -> (r: Result<raw::IntroFieldList, TypeError>)
    ensures
        r == spec_resolve_intro_fields(fields, i, locals, globals, imports, prelude, anon, fuel),
    decreases fuel, 0int,
{
    if fuel == 0 {
        Err(TypeError::DepthLimitExceeded { span: Span { start: 0, end: 0 } })
    } else if i >= fields.len() {
        Ok(raw::IntroFieldList::Nil)
    } else {
        let resolved: Result<(Span, raw::Label, raw::Term), TypeError> = match &fields[i] {
            concrete::RecordField::Punned { label, shift } => {
                let span = label_span(label.0, &label.1);
                match resolve_name(
                    &label.1,
                    match shift {
                        Option::None => 0,
                        Option::Some(n) => *n,
                    },
                    0,
                    locals,
                    globals,
                ) {
                    Option::Some(var) => Ok(
                        (span, raw::Label(label.1.clone()), raw::Term::Var(span, var)),
                    ),
                    Option::None => Err(undefined(span, &label.1)),
                }
            },
            concrete::RecordField::Explicit { label, params, return_ann, term } => {
                let span = label_span(label.0, &label.1);
                match resolve_intro_params(
                    label.0,
                    params,
                    0,
                    0,
                    match return_ann {
                        Option::None => Option::None,
                        Option::Some(a) => Option::Some(&**a),
                    },
                    term,
                    locals,
                    globals,
                    imports,
                    prelude,
                    anon,
                    fuel - 1,
                ) {
                    Ok(rterm) => Ok((span, raw::Label(label.1.clone()), rterm)),
                    Err(e) => Err(e),
                }
            },
        };
        match resolved {
            Ok((span, label, rterm)) => match resolve_intro_fields(
                fields,
                i + 1,
                locals,
                globals,
                imports,
                prelude,
                anon,
                fuel - 1,
            ) {
                Ok(rest) => Ok(
                    raw::IntroFieldList::Cons(span, label, Box::new(rterm), Box::new(rest)),
                ),
                Err(e) => Err(e),
            },
            Err(e) => Err(e),
        }
    }
}

/// The global scope of the built-in names: each name of the
/// [`Prelude`] mapped to its identity, the booleans and `Bool`
/// outermost.
pub open spec fn spec_prelude_globals(prelude: &Prelude) -> Globals {
    Globals::Cons(
        prelude.bool_var.name,
        prelude.bool_var.id,
        Box::new(
            Globals::Cons(
                prelude.true_var.name,
                prelude.true_var.id,
                Box::new(
                    Globals::Cons(
                        prelude.false_var.name,
                        prelude.false_var.id,
                        Box::new(
                            Globals::Cons(
                                prelude.string_var.name,
                                prelude.string_var.id,
                                Box::new(
                                    Globals::Cons(
                                        prelude.char_var.name,
                                        prelude.char_var.id,
                                        Box::new(
                                            Globals::Cons(
                                                prelude.u8_var.name,
                                                prelude.u8_var.id,
                                                Box::new(
                                                    Globals::Cons(
                                                        prelude.u16_var.name,
                                                        prelude.u16_var.id,
                                                        Box::new(
                                                            Globals::Cons(
                                                                prelude.u32_var.name,
                                                                prelude.u32_var.id,
                                                                Box::new(
                                                                    Globals::Cons(
                                                                        prelude.u64_var.name,
                                                                        prelude.u64_var.id,
                                                                        Box::new(
                                                                            Globals::Cons(
                                                                                prelude.s8_var.name,
                                                                                prelude.s8_var.id,
                                                                                Box::new(
                                                                                    Globals::Cons(
                                                                                        prelude.s16_var.name,
                                                                                        prelude.s16_var.id,
                                                                                        Box::new(
                                                                                            Globals::Cons(
                                                                                                prelude.s32_var.name,
                                                                                                prelude.s32_var.id,
                                                                                                Box::new(
                                                                                                    Globals::Cons(
                                                                                                        prelude.s64_var.name,
                                                                                                        prelude.s64_var.id,
                                                                                                        Box::new(
                                                                                                            Globals::Cons(
                                                                                                                prelude.f32_var.name,
                                                                                                                prelude.f32_var.id,
                                                                                                                Box::new(
                                                                                                                    Globals::Cons(
                                                                                                                        prelude.f64_var.name,
                                                                                                                        prelude.f64_var.id,
                                                                                                                        Box::new(
                                                                                                                            Globals::Cons(
                                                                                                                                prelude.array_var.name,
                                                                                                                                prelude.array_var.id,
                                                                                                                                Box::new(Globals::Nil),
                                                                                                                            ),
                                                                                                                        ),
                                                                                                                    ),
                                                                                                                ),
                                                                                                            ),
                                                                                                        ),
                                                                                                    ),
                                                                                                ),
                                                                                            ),
                                                                                        ),
                                                                                    ),
                                                                                ),
                                                                            ),
                                                                        ),
                                                                    ),
                                                                ),
                                                            ),
                                                        ),
                                                    ),
                                                ),
                                            ),
                                        ),
                                    ),
                                ),
                            ),
                        ),
                    ),
                ),
            ),
        ),
    )
}

/// See [`spec_prelude_globals`].
pub fn prelude_globals(prelude: &Prelude) -> (r: Globals)
    ensures
        r == spec_prelude_globals(prelude),
{
    let mut g = Globals::Nil;
    g = Globals::Cons(prelude.array_var.name.clone(), prelude.array_var.id, Box::new(g));
    g = Globals::Cons(prelude.f64_var.name.clone(), prelude.f64_var.id, Box::new(g));
    g = Globals::Cons(prelude.f32_var.name.clone(), prelude.f32_var.id, Box::new(g));
    g = Globals::Cons(prelude.s64_var.name.clone(), prelude.s64_var.id, Box::new(g));
    g = Globals::Cons(prelude.s32_var.name.clone(), prelude.s32_var.id, Box::new(g));
    g = Globals::Cons(prelude.s16_var.name.clone(), prelude.s16_var.id, Box::new(g));
    g = Globals::Cons(prelude.s8_var.name.clone(), prelude.s8_var.id, Box::new(g));
    g = Globals::Cons(prelude.u64_var.name.clone(), prelude.u64_var.id, Box::new(g));
    g = Globals::Cons(prelude.u32_var.name.clone(), prelude.u32_var.id, Box::new(g));
    g = Globals::Cons(prelude.u16_var.name.clone(), prelude.u16_var.id, Box::new(g));
    g = Globals::Cons(prelude.u8_var.name.clone(), prelude.u8_var.id, Box::new(g));
    g = Globals::Cons(prelude.char_var.name.clone(), prelude.char_var.id, Box::new(g));
    g = Globals::Cons(prelude.string_var.name.clone(), prelude.string_var.id, Box::new(g));
    g = Globals::Cons(prelude.false_var.name.clone(), prelude.false_var.id, Box::new(g));
    g = Globals::Cons(prelude.true_var.name.clone(), prelude.true_var.id, Box::new(g));
    g = Globals::Cons(prelude.bool_var.name.clone(), prelude.bool_var.id, Box::new(g));
    g
}

} // verus!
