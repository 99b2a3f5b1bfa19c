//! Diagnostics reported for ill-formed directives.
//!
//! Every failure carries the precise source span of the offending tokens, a
//! primary message and an optional remediation hint; a conflict between two
//! directives also records the span of the earlier occurrence.

use vstd::prelude::*;
use crate::tokens::Span;

verus! {

/// A diagnostic that aborts processing of the current annotated item.
#[derive(Clone, Debug)]
pub struct Diagnostics {
    /// Where the offending tokens stand in the source.
    pub span: Span,
    /// The span of an earlier occurrence, for conflicts between two
    /// directives.
    pub related: Option<Span>,
    /// The primary, human-readable message.
    pub message: String,
    /// An optional remediation hint.
    pub help: Option<String>,
}

impl Diagnostics {
    /// A diagnostic at `span` with the given message and no hint.
    pub fn with_span(span: Span, message: &str) -> (r: Diagnostics)
        ensures
            r.span == span,
            r.related is None,
            r.message@ == message@,
            r.help is None,
    {
        Diagnostics { span, related: None, message: message.to_owned(), help: None }
    }

    /// The same diagnostic with a remediation hint attached.
    pub fn help(self, help: &str) -> (r: Diagnostics)
        ensures
            r.span == self.span,
            r.related == self.related,
            r.message == self.message,
            r.help matches Some(h) && h@ == help@,
    {
        Diagnostics { help: Some(help.to_owned()), ..self }
    }

    /// The same diagnostic with the span of an earlier, related occurrence.
    pub fn related(self, related: Span) -> (r: Diagnostics)
        ensures
            r.span == self.span,
            r.related == Some(related),
            r.message == self.message,
            r.help == self.help,
    {
        Diagnostics { related: Some(related), ..self }
    }
}

} // verus!
