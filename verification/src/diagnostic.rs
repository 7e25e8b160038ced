//! Renderable diagnostics.
//!
//! An error converts into a [`Diagnostic`]: a severity, a message, and an
//! ordered list of labeled spans, the primary label first. The core only
//! constructs these values; rendering them to a terminal is the concern of
//! the surrounding driver. Likewise, a diagnostic message never embeds a
//! printed term: the error value itself carries the terms, and printing
//! them back to surface text is the pretty-printer's job, outside the
//! core.

use vstd::prelude::*;

use crate::span::Span;

verus! {

/// How severe a diagnostic is: `Bug` marks defects of the elaborator
/// itself, `Error` marks failures of the input program.
#[derive(Clone, Copy, PartialEq, Eq, Structural, Debug)]
pub enum Severity {
    Bug,
    Error,
}

/// Whether a label marks the fault site itself or a related site.
#[derive(Clone, Copy, PartialEq, Eq, Structural, Debug)]
pub enum LabelStyle {
    Primary,
    Secondary,
}

/// A message anchored to a span of the source text.
pub struct DiagnosticLabel {
    pub style: LabelStyle,
    pub span: Span,
    pub message: String,
}

/// A renderable description of an error.
pub struct Diagnostic {
    pub severity: Severity,
    pub message: String,
    pub labels: Vec<DiagnosticLabel>,
}

/// The mathematical content of a label: its style, span, and message text.
#[verifier::ext_equal]
pub ghost struct LabelView {
    pub style: LabelStyle,
    pub span: Span,
    pub message: Seq<char>,
}

/// The mathematical content of a diagnostic.
#[verifier::ext_equal]
pub ghost struct DiagView {
    pub severity: Severity,
    pub message: Seq<char>,
    pub labels: Seq<LabelView>,
}

/// The content of a label.
pub open spec fn label_view(label: DiagnosticLabel) -> LabelView {
    LabelView { style: label.style, span: label.span, message: label.message@ }
}

/// The content of a diagnostic.
pub open spec fn diag_view(d: &Diagnostic) -> DiagView {
    DiagView {
        severity: d.severity,
        message: d.message@,
        labels: d.labels@.map_values(|label: DiagnosticLabel| label_view(label)),
    }
}

/// Build a label.
pub fn make_label(style: LabelStyle, span: Span, message: &str) -> (r: DiagnosticLabel)
    ensures
        label_view(r) == (LabelView { style, span, message: message@ }),
{
    DiagnosticLabel { style, span, message: message.to_owned() }
}

/// Build a diagnostic with no labels.
pub fn diag_no_label(severity: Severity, message: String) -> (r: Diagnostic)
    ensures
        diag_view(&r) == (DiagView { severity, message: message@, labels: Seq::<
            LabelView,
        >::empty() }),
{
    let d = Diagnostic { severity, message, labels: Vec::new() };
    proof {
        assert(diag_view(&d) =~~= DiagView {
            severity,
            message: d.message@,
            labels: Seq::<LabelView>::empty(),
        });
    }
    d
}

/// Build a diagnostic with one label.
pub fn diag_one_label(severity: Severity, message: String, label: DiagnosticLabel) -> (r:
    Diagnostic)
    ensures
        diag_view(&r) == (DiagView {
            severity,
            message: message@,
            labels: seq![label_view(label)],
        }),
{
    let ghost message_view = message@;
    let ghost l0 = label_view(label);
    let mut labels: Vec<DiagnosticLabel> = Vec::new();
    labels.push(label);
    let d = Diagnostic { severity, message, labels };
    proof {
        assert(diag_view(&d) =~~= DiagView { severity, message: message_view, labels: seq![l0] });
    }
    d
}

/// Build a diagnostic with a primary and a secondary label.
pub fn diag_two_labels(
    severity: Severity,
    message: String,
    first: DiagnosticLabel,
    second: DiagnosticLabel,
) -> (r: Diagnostic)
    ensures
        diag_view(&r) == (DiagView {
            severity,
            message: message@,
            labels: seq![label_view(first), label_view(second)],
        }),
{
    let ghost message_view = message@;
    let ghost l0 = label_view(first);
    let ghost l1 = label_view(second);
    let mut labels: Vec<DiagnosticLabel> = Vec::new();
    labels.push(first);
    labels.push(second);
    let d = Diagnostic { severity, message, labels };
    proof {
        assert(diag_view(&d) =~~= DiagView {
            severity,
            message: message_view,
            labels: seq![l0, l1],
        });
    }
    d
}

/// Join two text fragments.
pub fn concat2(a: &str, b: &str) -> (r: String)
    ensures
        r@ == a@ + b@,
{
    let mut s = a.to_owned();
    s.append(b);
    s
}

/// Join three text fragments.
pub fn concat3(a: &str, b: &str, c: &str) -> (r: String)
    ensures
        r@ == a@ + b@ + c@,
{
    let mut s = a.to_owned();
    s.append(b);
    s.append(c);
    s
}

/// Join four text fragments.
pub fn concat4(a: &str, b: &str, c: &str, d: &str) -> (r: String)
    ensures
        r@ == a@ + b@ + c@ + d@,
{
    let mut s = a.to_owned();
    s.append(b);
    s.append(c);
    s.append(d);
    s
}

/// Join five text fragments.
pub fn concat5(a: &str, b: &str, c: &str, d: &str, e: &str) -> (r: String)
    ensures
        r@ == a@ + b@ + c@ + d@ + e@,
{
    let mut s = a.to_owned();
    s.append(b);
    s.append(c);
    s.append(d);
    s.append(e);
    s
}

/// The decimal digit characters of `n`, most significant first.
pub open spec fn dec_spec(n: nat) -> Seq<char>
    decreases n,
{
    if n < 10 {
        seq![digit_char(n)]
    } else {
        dec_spec(n / 10) + seq![digit_char(n % 10)]
    }
}

/// The character for the decimal digit `d`.
pub open spec fn digit_char(d: nat) -> char {
    if d == 0 {
        '0'
    } else if d == 1 {
        '1'
    } else if d == 2 {
        '2'
    } else if d == 3 {
        '3'
    } else if d == 4 {
        '4'
    } else if d == 5 {
        '5'
    } else if d == 6 {
        '6'
    } else if d == 7 {
        '7'
    } else if d == 8 {
        '8'
    } else {
        '9'
    }
}

/// The one-character string for the decimal digit `d`.
fn digit_str(d: u64) -> (r: &'static str)
    requires
        d < 10,
    ensures
        r@ == seq![digit_char(d as nat)],
{
    proof {
        reveal_strlit("0");
        reveal_strlit("1");
        reveal_strlit("2");
        reveal_strlit("3");
        reveal_strlit("4");
        reveal_strlit("5");
        reveal_strlit("6");
        reveal_strlit("7");
        reveal_strlit("8");
        reveal_strlit("9");
    }
    let r = match d {
        0 => "0",
        1 => "1",
        2 => "2",
        3 => "3",
        4 => "4",
        5 => "5",
        6 => "6",
        7 => "7",
        8 => "8",
        _ => "9",
    };
    proof {
        assert(r@ =~= seq![digit_char(d as nat)]);
    }
    r
}

/// Render `n` in decimal, for messages that report a count.
pub fn dec_string(n: u64) -> (r: String)
    ensures
        r@ == dec_spec(n as nat),
    decreases n,
{
    if n < 10 {
        digit_str(n).to_owned()
    } else {
        let mut s = dec_string(n / 10);
        s.append(digit_str(n % 10));
        s
    }
}

} // verus!
