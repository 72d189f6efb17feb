//! Conversion-plan resolution engine.
//!
//! Given a schema of a record or sum type, together with declarative
//! directives attached to the type, its fields and its variants, this library
//! resolves a field-by-field (or variant-by-variant) conversion plan for each
//! requested conversion direction.  The surrounding tooling extracts schemas
//! from surface syntax and turns finished plans into generated code; this
//! crate owns the rules in between: directive scoping and priority, shape
//! classification, per-field method selection, variant resolution and the
//! ordering of the assembled plan.

pub mod assemble;
pub mod conversion_enum;
pub mod conversion_field;
pub mod conversion_meta;
pub mod diagnostics;
pub mod directives;
pub mod eval;
pub mod idents;
pub mod shape;
pub mod value;

