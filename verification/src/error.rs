//! The diagnostics of the generator. Each is raised while a builder is
//! generated, never while one is used.

use crate::syntax::Span;
use crate::text::concat3;
use vstd::prelude::*;
use vstd::string::StringExecFns;

verus! {

#[derive(Clone, Copy, Debug, PartialEq, Eq, Structural)]
pub enum DiagnosticKind {
    /// A key of the configuration is unknown, or its value has the wrong
    /// shape.
    InvalidAttribute,
    /// The configuration is no list of `key = value` pairs.
    MalformedAttribute,
    /// The target of the impl block has no simple name.
    MissingTargetName,
    /// The entry operation has neither a conventional name nor an override.
    EntryNotDefaulted,
    /// The entry operation has the name of that of another factory of the
    /// same type.
    EntryTaken,
    /// The visibility override is no visibility.
    InvalidVisibility,
    /// A constructor can only be derived for a struct.
    NotAStruct,
}

/// A diagnostic, with the location of the offending declaration.
#[derive(Debug, PartialEq, Eq)]
pub struct Diagnostic {
    pub kind: DiagnosticKind,
    pub span: Span,
    pub message: String,
}

pub struct DiagnosticView {
    pub kind: DiagnosticKind,
    pub span: Span,
    pub message: Seq<char>,
}

impl View for Diagnostic {
    type V = DiagnosticView;

    open spec fn view(&self) -> DiagnosticView {
        DiagnosticView { kind: self.kind, span: self.span, message: self.message@ }
    }
}

impl Clone for Diagnostic {
    fn clone(&self) -> (r: Self)
        ensures
            r@ == self@,
    {
        Diagnostic { kind: self.kind, span: self.span, message: self.message.clone() }
    }
}

/// The diagnostic for the configuration key `name`.
pub open spec fn invalid_attribute(name: Seq<char>, span: Span) -> DiagnosticView {
    DiagnosticView {
        kind: DiagnosticKind::InvalidAttribute,
        span,
        message: "invalid builder attribute '"@ + name
            + "', only 'entry' (string), 'exit' (string), 'visibility' (string) and 'with_into' (bool) are allowed"@,
    }
}

/// The diagnostic for a configuration that is no list of pairs.
pub open spec fn malformed_attribute(message: Seq<char>, span: Span) -> DiagnosticView {
    DiagnosticView { kind: DiagnosticKind::MalformedAttribute, span, message }
}

/// The diagnostic for an impl block whose target has no simple name.
pub open spec fn missing_target_name(span: Span) -> DiagnosticView {
    DiagnosticView {
        kind: DiagnosticKind::MissingTargetName,
        span,
        message: "cannot find name of struct"@,
    }
}

/// The diagnostic for the factory `method`, whose entry operation cannot
/// be named.
pub open spec fn entry_not_defaulted(method: Seq<char>, span: Span) -> DiagnosticView {
    DiagnosticView {
        kind: DiagnosticKind::EntryNotDefaulted,
        span,
        message: "#[builder(entry = \"<name>\")] cannot be defaulted for 'fn "@ + method
            + "' and must be specified via annotation"@,
    }
}

/// The diagnostic for a declaration that is no struct.
pub open spec fn not_a_struct(span: Span) -> DiagnosticView {
    DiagnosticView {
        kind: DiagnosticKind::NotAStruct,
        span,
        message: "derive(Builder) can only be used on structs"@,
    }
}

impl Diagnostic {
    pub fn invalid_attribute(name: &str, span: Span) -> (r: Diagnostic)
        ensures
            r@ == invalid_attribute(name@, span),
    {
        Diagnostic {
            kind: DiagnosticKind::InvalidAttribute,
            span,
            message: concat3(
                "invalid builder attribute '",
                name,
                "', only 'entry' (string), 'exit' (string), 'visibility' (string) and 'with_into' (bool) are allowed",
            ),
        }
    }

    pub fn malformed_attribute(message: &str, span: Span) -> (r: Diagnostic)
        ensures
            r@ == malformed_attribute(message@, span),
    {
        Diagnostic {
            kind: DiagnosticKind::MalformedAttribute,
            span,
            message: String::from_str(message),
        }
    }

    pub fn missing_target_name(span: Span) -> (r: Diagnostic)
        ensures
            r@ == missing_target_name(span),
    {
        Diagnostic {
            kind: DiagnosticKind::MissingTargetName,
            span,
            message: String::from_str("cannot find name of struct"),
        }
    }

    pub fn entry_not_defaulted(method: &str, span: Span) -> (r: Diagnostic)
        ensures
            r@ == entry_not_defaulted(method@, span),
    {
        Diagnostic {
            kind: DiagnosticKind::EntryNotDefaulted,
            span,
            message: concat3(
                "#[builder(entry = \"<name>\")] cannot be defaulted for 'fn ",
                method,
                "' and must be specified via annotation",
            ),
        }
    }

    pub fn not_a_struct(span: Span) -> (r: Diagnostic)
        ensures
            r@ == not_a_struct(span),
    {
        Diagnostic {
            kind: DiagnosticKind::NotAStruct,
            span,
            message: String::from_str("derive(Builder) can only be used on structs"),
        }
    }

    /// The text of the diagnostic.
    pub fn to_string(&self) -> (r: String)
        ensures
            r@ == self.message@,
    {
        self.message.clone()
    }
}

} // verus!
