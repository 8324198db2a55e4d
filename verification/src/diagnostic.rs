//! Diagnostics: what went wrong, where, and how it is worded.

use crate::syntax::Span;
use vstd::prelude::*;
use vstd::string::StringExecFns;

verus! {

/// The kinds of failure.
#[derive(Debug, Clone, Copy, PartialEq, Eq, Hash, Structural)]
pub enum ErrorKind {
    /// A binding annotation written as `name = value`.
    Shape,
    /// An argument list that the annotation's argument set does not accept.
    Argument,
    /// A second binding under an external name and guard list already taken.
    Duplicate,
    /// A module annotation on something that is not a module with a body.
    Declaration,
}

/// One failure, anchored to a source location.
#[derive(Debug, PartialEq, Eq, Hash)]
pub struct Diagnostic {
    pub span: Span,
    pub kind: ErrorKind,
    pub message: String,
}

/// A diagnostic with its message as a sequence of characters.
pub struct DiagnosticView {
    pub span: Span,
    pub kind: ErrorKind,
    pub message: Seq<char>,
}

impl View for Diagnostic {
    type V = DiagnosticView;

    open spec fn view(&self) -> DiagnosticView {
        DiagnosticView { span: self.span, kind: self.kind, message: self.message@ }
    }
}

impl Clone for Diagnostic {
    fn clone(&self) -> (res: Self)
        ensures
            res == *self,
    {
        Diagnostic { span: self.span, kind: self.kind, message: self.message.clone() }
    }
}

/// The views of a list of diagnostics, in order.
pub open spec fn diagnostic_views(list: Seq<Diagnostic>) -> Seq<DiagnosticView> {
    Seq::new(list.len(), |i: int| list[i]@)
}

/// The wording of a shape error for the annotation named `parent`.
pub open spec fn shape_message(parent: Seq<char>) -> Seq<char> {
    "#["@ + parent + " = \"...\"] cannot be a name/value, you probably meant #["@ + parent
        + "(name = \"...\")]"@
}

/// The wording of a duplicate-binding error for the external name `name`.
pub open spec fn duplicate_message(name: Seq<char>) -> Seq<char> {
    "Duplicate #[py*] attribute on pymodule: "@ + name
}

/// The shape error for the annotation named `parent` at `span`.
pub open spec fn shape_error(parent: Seq<char>, span: Span) -> DiagnosticView {
    DiagnosticView { span, kind: ErrorKind::Shape, message: shape_message(parent) }
}

/// The duplicate-binding error for the external name `name` at `span`.
pub open spec fn duplicate_error(name: Seq<char>, span: Span) -> DiagnosticView {
    DiagnosticView { span, kind: ErrorKind::Duplicate, message: duplicate_message(name) }
}

impl Diagnostic {
    /// A diagnostic of the given kind at `span`.
    pub fn span_error(span: Span, kind: ErrorKind, message: String) -> (res: Diagnostic)
        ensures
            res.span == span,
            res.kind == kind,
            res.message == message,
    {
        Diagnostic { span, kind, message }
    }

    /// The message of the diagnostic.
    pub fn to_string(&self) -> (res: String)
        ensures
            res@ == self@.message,
    {
        self.message.clone()
    }

    /// Builds the shape error for the annotation named `parent`.
    pub fn shape(parent: &str, span: Span) -> (res: Diagnostic)
        ensures
            res@ == shape_error(parent@, span),
    {
        let mut message = String::from_str("#[");
        message.append(parent);
        message.append(" = \"...\"] cannot be a name/value, you probably meant #[");
        message.append(parent);
        message.append("(name = \"...\")]");
        Diagnostic { span, kind: ErrorKind::Shape, message }
    }

    /// Builds the duplicate-binding error for the external name `name`.
    pub fn duplicate(name: &str, span: Span) -> (res: Diagnostic)
        ensures
            res@ == duplicate_error(name@, span),
    {
        let mut message = String::from_str("Duplicate #[py*] attribute on pymodule: ");
        message.append(name);
        Diagnostic { span, kind: ErrorKind::Duplicate, message }
    }
}

} // verus!
