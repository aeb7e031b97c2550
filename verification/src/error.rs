//! The diagnostics of the two transformers. Every error is fatal to its
//! invocation and carries the source position the host's diagnostic
//! channel should point at.

use vstd::prelude::*;
use crate::token::Span;

verus! {

/// An error of the generator or of the expansion engine.
#[derive(Clone, Copy, PartialEq, Eq, Structural, Debug)]
pub enum Error {
    /// The record or list shape of the input is violated.
    MalformedInput { span: Span },
    /// A generic wrapper did not carry exactly one type argument.
    TypeShapeError { span: Span },
    /// A `builder(each = "...")` annotation does not match the grammar;
    /// the position points at the annotation's interior.
    AttributeSyntaxError { span: Span },
}

impl Error {
    /// The source position the diagnostic points at.
    pub fn span(&self) -> (s: Span)
        ensures
            s == self.spec_span(),
    {
        match self {
            Error::MalformedInput { span } => *span,
            Error::TypeShapeError { span } => *span,
            Error::AttributeSyntaxError { span } => *span,
        }
    }

    /// The position carried by the error.
    pub open spec fn spec_span(&self) -> Span {
        match self {
            Error::MalformedInput { span } => *span,
            Error::TypeShapeError { span } => *span,
            Error::AttributeSyntaxError { span } => *span,
        }
    }
}

} // verus!
