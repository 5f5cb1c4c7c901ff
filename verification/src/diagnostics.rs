//! Located messages for records that cannot be given a builder.

use vstd::prelude::*;

verus! {

/// `proc_macro2::Span`, a region of the source text. Nothing inside a span is
/// visible here; spans are only carried from a descriptor into a diagnostic.
#[verifier::external_type_specification]
#[verifier::external_body]
pub struct ExSpan(proc_macro2::Span);

/// What a diagnostic is, mathematically.
pub struct DiagnosticView {
    pub message: Seq<char>,
    pub location: proc_macro2::Span,
}

/// A message together with the place in the source that it is about.
#[derive(Debug)]
pub struct Diagnostic {
    pub message: String,
    pub location: proc_macro2::Span,
}

impl View for Diagnostic {
    type V = DiagnosticView;

    open spec fn view(&self) -> DiagnosticView {
        DiagnosticView { message: self.message@, location: self.location }
    }
}

impl Diagnostic {
    /// Pairs `message` with `location`.
    pub fn new(location: proc_macro2::Span, message: &str) -> (d: Diagnostic)
        ensures
            d@ == (DiagnosticView { message: message@, location }),
    {
        Diagnostic { message: message.to_string(), location }
    }
}

} // verus!
