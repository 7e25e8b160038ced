//! Errors that might be produced during semantic analysis.
//!
//! There are two disjoint kinds. An [`InternalError`] marks a defect of the
//! elaborator itself — these are bugs, and must never occur on well-formed
//! input. A [`TypeError`] is a well-defined, user-facing failure of the
//! program being checked. Both are terminal: the first failure aborts the
//! enclosing elaboration call, and the error is never mutated once built.
//!
//! Errors that mention a type carry it as a quoted core term; the
//! diagnostics below never print it, since rendering terms back to surface
//! text belongs to the pretty-printer outside the core.

use vstd::prelude::*;

use crate::concrete;
use crate::core_syntax::Term;
use crate::diagnostic::{
    concat3,
    concat4,
    concat5,
    dec_spec,
    dec_string,
    diag_no_label,
    diag_one_label,
    diag_two_labels,
    diag_view,
    make_label,
    DiagView,
    Diagnostic,
    LabelStyle,
    LabelView,
    Severity,
};
use crate::raw::Label;
use crate::span::Span;
use crate::var::{FreeVar, Var};

verus! {

/// A failure inside the normalizer. On inputs reachable from a
/// successfully elaborated program these never occur, except for the depth
/// limit, which guards against stack exhaustion on pathological inputs.
#[derive(Debug)]
pub enum NbeError {
    /// The evaluation depth budget ran out.
    DepthLimit,
    /// A bound variable had no entry in the environment.
    UnboundVariable,
    /// An argument was applied to a value that is not a function.
    AppNonFunction,
    /// A field was projected out of a value that is not a record.
    ProjNonRecord,
    /// A projected field was missing from a record value.
    MissingField,
    /// No clause of a case expression matched the scrutinee value.
    NoMatchingClause,
    /// A record type telescope did not continue with a record type.
    NotARecordType,
}

impl NbeError {
    /// The message text for this failure.
    pub open spec fn message_spec(&self) -> Seq<char> {
        match self {
            NbeError::DepthLimit => "the evaluation depth limit was reached"@,
            NbeError::UnboundVariable => "unbound variable"@,
            NbeError::AppNonFunction => "applied an argument to a non-function value"@,
            NbeError::ProjNonRecord => "projected a field out of a non-record value"@,
            NbeError::MissingField => "a projected field was missing from a record value"@,
            NbeError::NoMatchingClause => "no pattern matched the scrutinee"@,
            NbeError::NotARecordType => "a record type telescope did not continue with a record type"@,
        }
    }

    /// Render the message for this failure.
    pub fn message(&self) -> (r: &'static str)
        ensures
            r@ == self.message_spec(),
    {
        match self {
            NbeError::DepthLimit => "the evaluation depth limit was reached",
            NbeError::UnboundVariable => "unbound variable",
            NbeError::AppNonFunction => "applied an argument to a non-function value",
            NbeError::ProjNonRecord => "projected a field out of a non-record value",
            NbeError::MissingField => "a projected field was missing from a record value",
            NbeError::NoMatchingClause => "no pattern matched the scrutinee",
            NbeError::NotARecordType => "a record type telescope did not continue with a record type",
        }
    }
}

impl Clone for NbeError {
    fn clone(&self) -> (r: Self)
        ensures
            r == *self,
    {
        match self {
            NbeError::DepthLimit => NbeError::DepthLimit,
            NbeError::UnboundVariable => NbeError::UnboundVariable,
            NbeError::AppNonFunction => NbeError::AppNonFunction,
            NbeError::ProjNonRecord => NbeError::ProjNonRecord,
            NbeError::MissingField => NbeError::MissingField,
            NbeError::NoMatchingClause => NbeError::NoMatchingClause,
            NbeError::NotARecordType => NbeError::NotARecordType,
        }
    }
}

/// An internal error. These are bugs!
#[derive(Debug)]
pub enum InternalError {
    /// A bound variable escaped the scope that introduced it.
    UnexpectedBoundVar { span: Span, var: Var },
    /// An intentionally unfinished code path was reached.
    Unimplemented { span: Option<Span>, message: &'static str },
    /// The normalizer failed.
    Nbe(NbeError),
}

/// The printable hint of a variable, for messages.
pub open spec fn var_hint_spec(var: &Var) -> Seq<char> {
    match var {
        Var::Bound(_, hint) => hint@,
        Var::Free(free_var) => free_var.name@,
    }
}

/// The printable hint of a variable.
pub fn var_hint(var: &Var) -> (r: &String)
    ensures
        r@ == var_hint_spec(var),
{
    match var {
        Var::Bound(_, hint) => hint,
        Var::Free(free_var) => &free_var.name,
    }
}

impl InternalError {
    /// The diagnostic this error converts to: always of severity
    /// [`Severity::Bug`], with a primary label at the fault site where one
    /// is known.
    pub open spec fn diag_spec(&self) -> DiagView {
        match self {
            InternalError::UnexpectedBoundVar { span, var } => DiagView {
                severity: Severity::Bug,
                message: "unexpected bound variable: `"@ + var_hint_spec(var) + "`"@,
                labels: seq![
                    LabelView {
                        style: LabelStyle::Primary,
                        span: *span,
                        message: "bound variable encountered here"@,
                    },
                ],
            },
            InternalError::Unimplemented { span: Option::None, message } => DiagView {
                severity: Severity::Bug,
                message: "not yet implemented: "@ + message@,
                labels: Seq::<LabelView>::empty(),
            },
            InternalError::Unimplemented { span: Option::Some(span), message } => DiagView {
                severity: Severity::Bug,
                message: "not yet implemented: "@ + message@,
                labels: seq![
                    LabelView {
                        style: LabelStyle::Primary,
                        span: *span,
                        message: "unimplemented feature encountered here"@,
                    },
                ],
            },
            InternalError::Nbe(err) => DiagView {
                severity: Severity::Bug,
                message: "failed to normalize: "@ + err.message_spec(),
                labels: Seq::<LabelView>::empty(),
            },
        }
    }

    /// Convert the error into a diagnostic message.
    pub fn to_diagnostic(&self) -> (r: Diagnostic)
        ensures
            diag_view(&r) == self.diag_spec(),
    {
        match self {
            InternalError::UnexpectedBoundVar { span, var } => diag_one_label(
                Severity::Bug,
                concat3("unexpected bound variable: `", var_hint(var).as_str(), "`"),
                make_label(LabelStyle::Primary, *span, "bound variable encountered here"),
            ),
            InternalError::Unimplemented { span: Option::None, message } => diag_no_label(
                Severity::Bug,
                crate::diagnostic::concat2("not yet implemented: ", message),
            ),
            InternalError::Unimplemented { span: Option::Some(span), message } => diag_one_label(
                Severity::Bug,
                crate::diagnostic::concat2("not yet implemented: ", message),
                make_label(LabelStyle::Primary, *span, "unimplemented feature encountered here"),
            ),
            InternalError::Nbe(err) => diag_no_label(
                Severity::Bug,
                crate::diagnostic::concat2("failed to normalize: ", err.message()),
            ),
        }
    }
}

/// An error produced during type checking.
#[derive(Debug)]
pub enum TypeError {
    /// A name had a second declaration.
    DuplicateDeclarations { original_span: Span, duplicate_span: Span, binder: String },
    /// A declaration appeared after the definition of the same name.
    DeclarationFollowedDefinition { definition_span: Span, declaration_span: Span, binder: String },
    /// A name had a second definition.
    DuplicateDefinitions { original_span: Span, duplicate_span: Span, binder: String },
    /// An argument was applied to a term whose type is not a function
    /// type; `found` is that type, quoted.
    ArgAppliedToNonFunction { fn_span: Span, arg_span: Span, found: Box<Term> },
    /// A function parameter had no annotation and no expected type to
    /// borrow one from.
    FunctionParamNeedsAnnotation { param_span: Span, var_span: Option<Span>, name: String },
    /// A binder had no annotation and none could be borrowed.
    BinderNeedsAnnotation { span: Span, binder: String },
    /// A literal was checked against a type that does not fit its kind;
    /// `expected` is that type, quoted.
    LiteralMismatch { literal_span: Span, found: concrete::Literal, expected: Box<Term> },
    /// An integer literal appeared with no expected type.
    AmbiguousIntLiteral { span: Span },
    /// A floating point literal appeared with no expected type.
    AmbiguousFloatLiteral { span: Span },
    /// An empty case expression appeared with no expected type.
    AmbiguousEmptyCase { span: Span },
    /// A hole could not be elaborated; holes are never auto-resolved, so
    /// this is reported whether or not an expected type is known.
    UnableToElaborateHole { span: Span, expected: Option<Box<Term>> },
    /// The inferred type of a term did not match the expected type.
    Mismatch { span: Span, found: Box<Term>, expected: Box<Term> },
    /// A function appeared where the expected type is not a function type.
    UnexpectedFunction { span: Span, expected: Box<Term> },
    /// A term that should be a type did not reduce to a universe.
    ExpectedUniverse { span: Span, found: Box<Term> },
    /// A free variable had no entry in the context.
    UndefinedName { span: Span, free_var: FreeVar },
    /// An import had no entry in the import table.
    UndefinedImport { span: Span, name: String },
    /// A record field label did not match the label expected at its
    /// position.
    LabelMismatch { span: Span, found: Label, expected: Label },
    /// An array literal had a different length than its expected type.
    ArrayLengthMismatch { span: Span, found_len: u64, expected_len: u64 },
    /// An array literal appeared with no expected type and no uniform
    /// element type to infer.
    AmbiguousArrayLiteral { span: Span },
    /// A record type contained no field with the projected label; `found`
    /// is the record type, quoted.
    NoFieldInType { label_span: Span, expected_label: Label, found: Box<Term> },
    /// A record introduction had a different number of fields than its
    /// expected type.
    RecordSizeMismatch { span: Span, found_size: u64, expected_size: u64 },
    /// A term was nested too deeply for the explicit recursion guard; this
    /// is a resource limit, not a defect of the input or of the elaborator.
    DepthLimitExceeded { span: Span },
    /// An internal error — a bug, not a fault of the input.
    Internal(InternalError),
}

impl TypeError {
    /// The diagnostic this error converts to: severity
    /// [`Severity::Error`], except for internal errors and for
    /// [`TypeError::UndefinedName`], which the resolver should have caught
    /// earlier and is therefore reported as a bug; a primary label at the
    /// fault site; and a secondary label where a second span is
    /// semantically linked to the first.
    pub open spec fn diag_spec(&self) -> DiagView {
        match self {
            TypeError::Internal(err) => err.diag_spec(),
            TypeError::DuplicateDeclarations { original_span, duplicate_span, binder } => DiagView {
                severity: Severity::Error,
                message: "name had more than one declaration associated with it `"@ + binder@
                    + "`"@,
                labels: seq![
                    LabelView {
                        style: LabelStyle::Primary,
                        span: *duplicate_span,
                        message: "the duplicated declaration"@,
                    },
                    LabelView {
                        style: LabelStyle::Secondary,
                        span: *original_span,
                        message: "the original declaration"@,
                    },
                ],
            },
            TypeError::DeclarationFollowedDefinition {
                definition_span,
                declaration_span,
                binder,
            } => DiagView {
                severity: Severity::Error,
                message: "declarations cannot follow definitions"@,
                labels: seq![
                    LabelView {
                        style: LabelStyle::Primary,
                        span: *declaration_span,
                        message: "the declaration"@,
                    },
                    LabelView {
                        style: LabelStyle::Secondary,
                        span: *definition_span,
                        message: "the original definition"@,
                    },
                ],
            },
            TypeError::DuplicateDefinitions { original_span, duplicate_span, binder } => DiagView {
                severity: Severity::Error,
                message: "name had more than one definition associated with it `"@ + binder@
                    + "`"@,
                labels: seq![
                    LabelView {
                        style: LabelStyle::Primary,
                        span: *duplicate_span,
                        message: "the duplicated definition"@,
                    },
                    LabelView {
                        style: LabelStyle::Secondary,
                        span: *original_span,
                        message: "the original definition"@,
                    },
                ],
            },
            TypeError::ArgAppliedToNonFunction { fn_span, arg_span, found } => DiagView {
                severity: Severity::Error,
                message: "applied an argument to a term that was not a function"@,
                labels: seq![
                    LabelView { style: LabelStyle::Primary, span: *fn_span, message: "the term"@ },
                    LabelView {
                        style: LabelStyle::Secondary,
                        span: *arg_span,
                        message: "the applied argument"@,
                    },
                ],
            },
            TypeError::FunctionParamNeedsAnnotation { param_span, var_span, name } => DiagView {
                severity: Severity::Error,
                message: "type annotation needed for the function parameter `"@ + name@ + "`"@,
                labels: seq![
                    LabelView {
                        style: LabelStyle::Primary,
                        span: *param_span,
                        message: "the parameter that requires an annotation"@,
                    },
                ],
            },
            TypeError::BinderNeedsAnnotation { span, binder } => DiagView {
                severity: Severity::Error,
                message: "type annotation needed for the binder `"@ + binder@ + "`"@,
                labels: seq![
                    LabelView {
                        style: LabelStyle::Primary,
                        span: *span,
                        message: "the binder that requires an annotation"@,
                    },
                ],
            },
            TypeError::LiteralMismatch { literal_span, found, expected } => DiagView {
                severity: Severity::Error,
                message: "found a "@ + literal_kind_spec(found) + " literal, but expected a type"@,
                labels: seq![
                    LabelView {
                        style: LabelStyle::Primary,
                        span: *literal_span,
                        message: "the literal"@,
                    },
                ],
            },
            TypeError::AmbiguousIntLiteral { span } => DiagView {
                severity: Severity::Error,
                message: "ambiguous integer literal"@,
                labels: seq![
                    LabelView {
                        style: LabelStyle::Primary,
                        span: *span,
                        message: "type annotation needed here"@,
                    },
                ],
            },
            TypeError::AmbiguousFloatLiteral { span } => DiagView {
                severity: Severity::Error,
                message: "ambiguous floating point literal"@,
                labels: seq![
                    LabelView {
                        style: LabelStyle::Primary,
                        span: *span,
                        message: "type annotation needed here"@,
                    },
                ],
            },
            TypeError::AmbiguousEmptyCase { span } => DiagView {
                severity: Severity::Error,
                message: "empty case expressions need type annotations"@,
                labels: seq![
                    LabelView {
                        style: LabelStyle::Primary,
                        span: *span,
                        message: "type annotation needed here"@,
                    },
                ],
            },
            TypeError::UnableToElaborateHole { span, expected: Option::None } => DiagView {
                severity: Severity::Error,
                message: "unable to elaborate hole"@,
                labels: seq![
                    LabelView { style: LabelStyle::Primary, span: *span, message: "the hole"@ },
                ],
            },
            TypeError::UnableToElaborateHole { span, expected: Option::Some(_) } => DiagView {
                severity: Severity::Error,
                message: "unable to elaborate hole against the expected type"@,
                labels: seq![
                    LabelView { style: LabelStyle::Primary, span: *span, message: "the hole"@ },
                ],
            },
            TypeError::Mismatch { span, found, expected } => DiagView {
                severity: Severity::Error,
                message: "found a term of a different type than expected"@,
                labels: seq![
                    LabelView { style: LabelStyle::Primary, span: *span, message: "the term"@ },
                ],
            },
            TypeError::UnexpectedFunction { span, expected } => DiagView {
                severity: Severity::Error,
                message: "found a function but expected a term of a different type"@,
                labels: seq![
                    LabelView { style: LabelStyle::Primary, span: *span, message: "the function"@ },
                ],
            },
            TypeError::ExpectedUniverse { span, found } => DiagView {
                severity: Severity::Error,
                message: "expected a type, found a value of a different type"@,
                labels: seq![
                    LabelView { style: LabelStyle::Primary, span: *span, message: "the value"@ },
                ],
            },
            TypeError::UndefinedName { span, free_var } => DiagView {
                severity: Severity::Bug,
                message: "cannot find `"@ + free_var.name@ + "` in scope"@,
                labels: seq![
                    LabelView {
                        style: LabelStyle::Primary,
                        span: *span,
                        message: "not found in this scope"@,
                    },
                ],
            },
            TypeError::UndefinedImport { span, name } => DiagView {
                severity: Severity::Error,
                message: "cannot find import for `"@ + name@ + "`"@,
                labels: seq![
                    LabelView {
                        style: LabelStyle::Primary,
                        span: *span,
                        message: "import not found"@,
                    },
                ],
            },
            TypeError::LabelMismatch { span, found, expected } => DiagView {
                severity: Severity::Error,
                message: "expected field called `"@ + expected.0@ + "`, but found a field called `"@
                    + found.0@ + "`"@,
                labels: seq![
                    LabelView { style: LabelStyle::Primary, span: *span, message: ""@ },
                ],
            },
            TypeError::ArrayLengthMismatch { span, found_len, expected_len } => DiagView {
                severity: Severity::Error,
                message: "mismatched array length: expected "@ + dec_spec(*expected_len as nat)
                    + " elements but found "@ + dec_spec(*found_len as nat),
                labels: seq![
                    LabelView {
                        style: LabelStyle::Primary,
                        span: *span,
                        message: "array with "@ + dec_spec(*found_len as nat) + " elements"@,
                    },
                ],
            },
            TypeError::AmbiguousArrayLiteral { span } => DiagView {
                severity: Severity::Error,
                message: "ambiguous array literal"@,
                labels: seq![
                    LabelView {
                        style: LabelStyle::Primary,
                        span: *span,
                        message: "type annotations needed here"@,
                    },
                ],
            },
            TypeError::NoFieldInType { label_span, expected_label, found } => DiagView {
                severity: Severity::Error,
                message: "the type does not contain a field called `"@ + expected_label.0@ + "`"@,
                labels: seq![
                    LabelView {
                        style: LabelStyle::Primary,
                        span: *label_span,
                        message: "the field lookup"@,
                    },
                ],
            },
            TypeError::RecordSizeMismatch { span, found_size, expected_size } => DiagView {
                severity: Severity::Error,
                message: "mismatched record size: expected "@ + dec_spec(*expected_size as nat)
                    + " fields but found "@ + dec_spec(*found_size as nat),
                labels: seq![
                    LabelView {
                        style: LabelStyle::Primary,
                        span: *span,
                        message: "record with "@ + dec_spec(*found_size as nat) + " fields"@,
                    },
                ],
            },
            TypeError::DepthLimitExceeded { span } => DiagView {
                severity: Severity::Error,
                message: "term is nested too deeply to elaborate"@,
                labels: seq![
                    LabelView {
                        style: LabelStyle::Primary,
                        span: *span,
                        message: "the depth limit was reached here"@,
                    },
                ],
            },
        }
    }

    /// Convert the error into a diagnostic message.
    pub fn to_diagnostic(&self) -> (r: Diagnostic)
        ensures
            diag_view(&r) == self.diag_spec(),
    {
        match self {
            TypeError::Internal(err) => err.to_diagnostic(),
            TypeError::DuplicateDeclarations { original_span, duplicate_span, binder } => {
                diag_two_labels(
                    Severity::Error,
                    concat3(
                        "name had more than one declaration associated with it `",
                        binder.as_str(),
                        "`",
                    ),
                    make_label(LabelStyle::Primary, *duplicate_span, "the duplicated declaration"),
                    make_label(LabelStyle::Secondary, *original_span, "the original declaration"),
                )
            },
            TypeError::DeclarationFollowedDefinition {
                definition_span,
                declaration_span,
                binder,
            } => diag_two_labels(
                Severity::Error,
                "declarations cannot follow definitions".to_owned(),
                make_label(LabelStyle::Primary, *declaration_span, "the declaration"),
                make_label(LabelStyle::Secondary, *definition_span, "the original definition"),
            ),
            TypeError::DuplicateDefinitions { original_span, duplicate_span, binder } => {
                diag_two_labels(
                    Severity::Error,
                    concat3(
                        "name had more than one definition associated with it `",
                        binder.as_str(),
                        "`",
                    ),
                    make_label(LabelStyle::Primary, *duplicate_span, "the duplicated definition"),
                    make_label(LabelStyle::Secondary, *original_span, "the original definition"),
                )
            },
            TypeError::ArgAppliedToNonFunction { fn_span, arg_span, found } => diag_two_labels(
                Severity::Error,
                "applied an argument to a term that was not a function".to_owned(),
                make_label(LabelStyle::Primary, *fn_span, "the term"),
                make_label(LabelStyle::Secondary, *arg_span, "the applied argument"),
            ),
            TypeError::FunctionParamNeedsAnnotation { param_span, var_span, name } => {
                diag_one_label(
                    Severity::Error,
                    concat3(
                        "type annotation needed for the function parameter `",
                        name.as_str(),
                        "`",
                    ),
                    make_label(
                        LabelStyle::Primary,
                        *param_span,
                        "the parameter that requires an annotation",
                    ),
                )
            },
            TypeError::BinderNeedsAnnotation { span, binder } => diag_one_label(
                Severity::Error,
                concat3("type annotation needed for the binder `", binder.as_str(), "`"),
                make_label(LabelStyle::Primary, *span, "the binder that requires an annotation"),
            ),
            TypeError::LiteralMismatch { literal_span, found, expected } => diag_one_label(
                Severity::Error,
                concat3("found a ", literal_kind(found), " literal, but expected a type"),
                make_label(LabelStyle::Primary, *literal_span, "the literal"),
            ),
            TypeError::AmbiguousIntLiteral { span } => diag_one_label(
                Severity::Error,
                "ambiguous integer literal".to_owned(),
                make_label(LabelStyle::Primary, *span, "type annotation needed here"),
            ),
            TypeError::AmbiguousFloatLiteral { span } => diag_one_label(
                Severity::Error,
                "ambiguous floating point literal".to_owned(),
                make_label(LabelStyle::Primary, *span, "type annotation needed here"),
            ),
            TypeError::AmbiguousEmptyCase { span } => diag_one_label(
                Severity::Error,
                "empty case expressions need type annotations".to_owned(),
                make_label(LabelStyle::Primary, *span, "type annotation needed here"),
            ),
            TypeError::UnableToElaborateHole { span, expected: Option::None } => diag_one_label(
                Severity::Error,
                "unable to elaborate hole".to_owned(),
                make_label(LabelStyle::Primary, *span, "the hole"),
            ),
            TypeError::UnableToElaborateHole { span, expected: Option::Some(_) } => diag_one_label(
                Severity::Error,
                "unable to elaborate hole against the expected type".to_owned(),
                make_label(LabelStyle::Primary, *span, "the hole"),
            ),
            TypeError::Mismatch { span, found, expected } => diag_one_label(
                Severity::Error,
                "found a term of a different type than expected".to_owned(),
                make_label(LabelStyle::Primary, *span, "the term"),
            ),
            TypeError::UnexpectedFunction { span, expected } => diag_one_label(
                Severity::Error,
                "found a function but expected a term of a different type".to_owned(),
                make_label(LabelStyle::Primary, *span, "the function"),
            ),
            TypeError::ExpectedUniverse { span, found } => diag_one_label(
                Severity::Error,
                "expected a type, found a value of a different type".to_owned(),
                make_label(LabelStyle::Primary, *span, "the value"),
            ),
            TypeError::UndefinedName { span, free_var } => diag_one_label(
                Severity::Bug,
                concat3("cannot find `", free_var.name.as_str(), "` in scope"),
                make_label(LabelStyle::Primary, *span, "not found in this scope"),
            ),
            TypeError::UndefinedImport { span, name } => diag_one_label(
                Severity::Error,
                concat3("cannot find import for `", name.as_str(), "`"),
                make_label(LabelStyle::Primary, *span, "import not found"),
            ),
            TypeError::LabelMismatch { span, found, expected } => diag_one_label(
                Severity::Error,
                concat5(
                    "expected field called `",
                    expected.0.as_str(),
                    "`, but found a field called `",
                    found.0.as_str(),
                    "`",
                ),
                make_label(LabelStyle::Primary, *span, ""),
            ),
            TypeError::ArrayLengthMismatch { span, found_len, expected_len } => {
                let found_text = dec_string(*found_len);
                diag_one_label(
                    Severity::Error,
                    concat4(
                        "mismatched array length: expected ",
                        dec_string(*expected_len).as_str(),
                        " elements but found ",
                        found_text.as_str(),
                    ),
                    make_label_counted(*span, "array with ", &found_text, " elements"),
                )
            },
            TypeError::AmbiguousArrayLiteral { span } => diag_one_label(
                Severity::Error,
                "ambiguous array literal".to_owned(),
                make_label(LabelStyle::Primary, *span, "type annotations needed here"),
            ),
            TypeError::NoFieldInType { label_span, expected_label, found } => diag_one_label(
                Severity::Error,
                concat3(
                    "the type does not contain a field called `",
                    expected_label.0.as_str(),
                    "`",
                ),
                make_label(LabelStyle::Primary, *label_span, "the field lookup"),
            ),
            TypeError::RecordSizeMismatch { span, found_size, expected_size } => {
                let found_text = dec_string(*found_size);
                diag_one_label(
                    Severity::Error,
                    concat4(
                        "mismatched record size: expected ",
                        dec_string(*expected_size).as_str(),
                        " fields but found ",
                        found_text.as_str(),
                    ),
                    make_label_counted(*span, "record with ", &found_text, " fields"),
                )
            },
            TypeError::DepthLimitExceeded { span } => diag_one_label(
                Severity::Error,
                "term is nested too deeply to elaborate".to_owned(),
                make_label(LabelStyle::Primary, *span, "the depth limit was reached here"),
            ),
        }
    }
}

/// A primary label whose message embeds a count.
fn make_label_counted(span: Span, prefix: &str, count: &String, suffix: &str) -> (r:
    crate::diagnostic::DiagnosticLabel)
    ensures
        crate::diagnostic::label_view(r) == (LabelView {
            style: LabelStyle::Primary,
            span,
            message: prefix@ + count@ + suffix@,
        }),
{
    crate::diagnostic::DiagnosticLabel {
        style: LabelStyle::Primary,
        span,
        message: concat3(prefix, count.as_str(), suffix),
    }
}

/// The surface kind of a literal, for messages.
pub open spec fn literal_kind_spec(literal: &concrete::Literal) -> Seq<char> {
    match literal {
        concrete::Literal::String(_, _) => "string"@,
        concrete::Literal::Char(_, _) => "character"@,
        concrete::Literal::Int(_, _, _) => "numeric"@,
        concrete::Literal::Float(_, _, _) => "floating point"@,
    }
}

/// The surface kind of a literal.
pub fn literal_kind(literal: &concrete::Literal) -> (r: &'static str)
    ensures
        r@ == literal_kind_spec(literal),
{
    match literal {
        concrete::Literal::String(_, _) => "string",
        concrete::Literal::Char(_, _) => "character",
        concrete::Literal::Int(_, _, _) => "numeric",
        concrete::Literal::Float(_, _, _) => "floating point",
    }
}

impl From<NbeError> for InternalError {
    /// Wrap a normalizer failure as an internal error.
    fn from(src: NbeError) -> (r: InternalError) {
        InternalError::Nbe(src)
    }
}

impl vstd::std_specs::convert::FromSpecImpl<NbeError> for InternalError {
    open spec fn obeys_from_spec() -> bool {
        true
    }

    open spec fn from_spec(src: NbeError) -> InternalError {
        InternalError::Nbe(src)
    }
}

impl From<InternalError> for TypeError {
    /// Wrap an internal error so that callers handle a single error type.
    fn from(src: InternalError) -> (r: TypeError) {
        TypeError::Internal(src)
    }
}

impl vstd::std_specs::convert::FromSpecImpl<InternalError> for TypeError {
    open spec fn obeys_from_spec() -> bool {
        true
    }

    open spec fn from_spec(src: InternalError) -> TypeError {
        TypeError::Internal(src)
    }
}

impl From<NbeError> for TypeError {
    /// Wrap a normalizer failure, except for the depth limit, which is a
    /// resource error rather than a bug; it carries no span of its own.
    fn from(src: NbeError) -> (r: TypeError) {
        TypeError::Internal(InternalError::Nbe(src))
    }
}

impl vstd::std_specs::convert::FromSpecImpl<NbeError> for TypeError {
    open spec fn obeys_from_spec() -> bool {
        true
    }

    open spec fn from_spec(src: NbeError) -> TypeError {
        TypeError::Internal(InternalError::Nbe(src))
    }
}

} // verus!
