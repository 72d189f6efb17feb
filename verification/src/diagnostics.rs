//! Diagnostics carried back to the caller.
//!
//! Per-field resolution problems are recoverable: resolution continues with
//! the remaining fields and variants so one pass reports as many problems as
//! possible.  Structural problems end the whole conversion.  Every diagnostic
//! carries the span token of the schema element it is about, so the caller
//! can attach the report to the right place in the surface syntax.

use vstd::prelude::*;

verus! {

#[derive(Clone, Copy, Debug, PartialEq, Eq, Structural)]
pub enum DiagnosticKind {
    /// `unwrap` was requested for a field where neither side of the pairing
    /// is optional.
    CannotUnwrap,
    /// Default-filling of unmapped fields was requested for a positional
    /// shape, which has no field names to fill.
    DefaultOnUnnamed,
    /// The type is neither a record nor a sum type.
    UnsupportedTypeKind,
}

/// One resolution or structural problem, attached to a source span token.
#[derive(Clone, Copy, Debug, PartialEq, Eq, Structural)]
pub struct Diagnostic {
    pub span: usize,
    pub kind: DiagnosticKind,
}

} // verus!
