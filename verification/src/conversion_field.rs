//! Per-field conversion planning.
//!
//! For one field and one conversion, the builder resolves the field's
//! directives, classifies its declared type, and produces a
//! [`ConvertibleField`]: the field plan the assembler orders and the emitter
//! translates.  A field whose directives cannot be satisfied yields a
//! diagnostic instead, and planning continues with its siblings.

use vstd::prelude::*;

use crate::conversion_meta::ConversionMethod;
use crate::diagnostics::{Diagnostic, DiagnosticKind};
use crate::directives::{spec_resolve, resolve_directives, FieldDirectives};
use crate::idents::FieldIdentifier;
use crate::shape::{classify, spec_classify, FieldShape, TypeToken};

verus! {

/// How one field's value travels from source to target.
#[derive(Clone, Copy, Debug, PartialEq, Eq, Structural)]
pub enum FieldConversionMethod {
    /// Direct value conversion.
    Plain,
    /// The optional side's value must be present; its contents convert.
    UnwrapOption,
    /// The plain side's value converts and is wrapped as present.
    SomeOption,
    /// Optional to optional: a present value converts, an absent one stays
    /// absent.
    Optional,
    /// Element-wise conversion of an ordered collection.
    Sequence,
    /// Key- and value-wise conversion of an associative collection.
    AssociativeMap,
}

/// One field of a record or variant, as the schema extractor hands it over:
/// its name (absent for positional fields), the token of its declared type,
/// its directives and its span.
#[derive(Debug, PartialEq, Eq)]
pub struct FieldSchema {
    pub ident: Option<String>,
    pub ty: TypeToken,
    pub dirs: FieldDirectives,
    pub span: usize,
}

/// The finished plan for one field of one conversion.
#[derive(Debug, PartialEq, Eq)]
pub struct ConvertibleField {
    pub source_name: FieldIdentifier,
    pub span: usize,
    pub skip: bool,
    pub default: bool,
    pub method: FieldConversionMethod,
    pub target_name: FieldIdentifier,
    pub conversion_func: Option<String>,
}

impl Clone for ConvertibleField {
    fn clone(&self) -> (r: Self)
        ensures
            r == *self,
    {
        ConvertibleField {
            source_name: self.source_name.clone(),
            span: self.span,
            skip: self.skip,
            default: self.default,
            method: self.method,
            target_name: self.target_name.clone(),
            conversion_func: match &self.conversion_func {
                Some(p) => Some(p.clone()),
                None => None,
            },
        }
    }
}

/// What the generated code does for one field plan.
#[derive(Debug, PartialEq, Eq)]
pub enum FieldEmission {
    /// Nothing is emitted for this field.
    Omitted,
    /// The target field takes its type's default value; the source value is
    /// ignored entirely.
    DefaultValue,
    /// The named function is invoked with the whole source value and its
    /// result is used.
    Custom(String),
    /// The field converts by the given method.
    Convert(FieldConversionMethod),
}

/// The decision the generated code follows for a field plan, in priority
/// order: a skipped field emits nothing, a defaulted field takes the
/// target's default, a custom function bypasses shape logic, and everything
/// else converts by the field's method.
pub open spec fn spec_emission(f: ConvertibleField) -> FieldEmission {
    if f.skip {
        FieldEmission::Omitted
    } else if f.default {
        FieldEmission::DefaultValue
    } else {
        match f.conversion_func {
            Some(p) => FieldEmission::Custom(p),
            None => FieldEmission::Convert(f.method),
        }
    }
}

/// Decides what the generated code does for this field plan.
pub fn field_emission(f: &ConvertibleField) -> (e: FieldEmission)
    ensures
        e == spec_emission(*f),
{
    if f.skip {
        FieldEmission::Omitted
    } else if f.default {
        FieldEmission::DefaultValue
    } else {
        match &f.conversion_func {
            Some(p) => FieldEmission::Custom(p.clone()),
            None => FieldEmission::Convert(f.method),
        }
    }
}

/// A default directive wins over a custom-function reference: a plan that
/// requests the default value never emits a custom call, whatever function
/// is attached to it.
pub proof fn lemma_default_precedes_custom(f: ConvertibleField)
    requires
        f.default,
    ensures
        !(spec_emission(f) is Custom),
        !f.skip ==> spec_emission(f) == FieldEmission::DefaultValue,
{
}

/// The method decision table.  With `unwrap` requested, exactly one side of
/// the pairing must be optional: the annotated side when it is the source
/// (unwrap on the way out), the annotated side when it is the target (wrap
/// on the way in), or the unseen other side of a `from`-like direction.
/// Without `unwrap`, the shape picks the method directly.
pub open spec fn spec_decide_method(
    shape: FieldShape,
    is_from: bool,
    unwrap: bool,
) -> Result<FieldConversionMethod, DiagnosticKind> {
    if unwrap {
        if shape is Optional && !is_from {
            Ok(FieldConversionMethod::UnwrapOption)
        } else if shape is Optional && is_from {
            Ok(FieldConversionMethod::SomeOption)
        } else if !(shape is Optional) && is_from {
            Ok(FieldConversionMethod::UnwrapOption)
        } else {
            Err(DiagnosticKind::CannotUnwrap)
        }
    } else if shape is Optional {
        Ok(FieldConversionMethod::Optional)
    } else if shape is Sequence {
        Ok(FieldConversionMethod::Sequence)
    } else if shape is AssociativeMap {
        Ok(FieldConversionMethod::AssociativeMap)
    } else {
        Ok(FieldConversionMethod::Plain)
    }
}

/// Picks the conversion method for a field from its declared type's shape,
/// the direction, and the resolved `unwrap` request.
pub fn decide_field_method(ty: &TypeToken, is_from: bool, unwrap: bool) -> (r: Result<
    FieldConversionMethod,
    DiagnosticKind,
>)
    ensures
        r == spec_decide_method(spec_classify(*ty), is_from, unwrap),
{
    let shape = classify(ty);
    if unwrap {
        match (shape, is_from) {
            (FieldShape::Optional, false) => Ok(FieldConversionMethod::UnwrapOption),
            (FieldShape::Optional, true) => Ok(FieldConversionMethod::SomeOption),
            (_, true) => Ok(FieldConversionMethod::UnwrapOption),
            (_, false) => Err(DiagnosticKind::CannotUnwrap),
        }
    } else {
        match shape {
            FieldShape::Optional => Ok(FieldConversionMethod::Optional),
            FieldShape::Sequence => Ok(FieldConversionMethod::Sequence),
            FieldShape::AssociativeMap => Ok(FieldConversionMethod::AssociativeMap),
            FieldShape::Plain => Ok(FieldConversionMethod::Plain),
        }
    }
}

/// The identifier a field goes by on its own side: its name, or its position
/// for unnamed fields.
pub open spec fn spec_own_ident(f: FieldSchema, index: usize) -> FieldIdentifier {
    match f.ident {
        Some(n) => FieldIdentifier::Named(n),
        None => FieldIdentifier::Unnamed(index),
    }
}

/// The whole plan for one field of one conversion: directives resolved,
/// rename applied, names oriented by the direction, and the method decided.
/// A skipped field keeps a plan (it emits nothing) and bypasses the method
/// decision entirely.
pub open spec fn spec_build_field(
    f: FieldSchema,
    index: usize,
    d: ConversionMethod,
    path: Seq<char>,
) -> Result<ConvertibleField, Diagnostic> {
    let eff = spec_resolve(f.dirs, d, path);
    let own = spec_own_ident(f, index);
    let renamed = match eff.rename {
        Some(n) => FieldIdentifier::Named(n),
        None => own,
    };
    let source_name = if d.spec_is_from() {
        renamed
    } else {
        own
    };
    let target_name = if d.spec_is_from() {
        own
    } else {
        renamed
    };
    if eff.skip {
        Ok(
            ConvertibleField {
                source_name,
                span: f.span,
                skip: true,
                default: eff.default,
                method: FieldConversionMethod::Plain,
                target_name,
                conversion_func: eff.with_func,
            },
        )
    } else {
        match spec_decide_method(spec_classify(f.ty), d.spec_is_from(), eff.unwrap) {
            Ok(m) => Ok(
                ConvertibleField {
                    source_name,
                    span: f.span,
                    skip: false,
                    default: eff.default,
                    method: m,
                    target_name,
                    conversion_func: eff.with_func,
                },
            ),
            Err(k) => Err(Diagnostic { span: f.span, kind: k }),
        }
    }
}

/// Builds the plan for the field at `index`, for the conversion in direction
/// `d` whose other side is `path`.
pub fn build_convertible_field(f: &FieldSchema, index: usize, d: ConversionMethod, path: &String)
    -> (r: Result<ConvertibleField, Diagnostic>)
    ensures
        r == spec_build_field(*f, index, d, path@),
{
    let eff = resolve_directives(&f.dirs, d, path);
    let own = match &f.ident {
        Some(n) => FieldIdentifier::Named(n.clone()),
        None => FieldIdentifier::Unnamed(index),
    };
    let renamed = match &eff.rename {
        Some(n) => FieldIdentifier::Named(n.clone()),
        None => own.clone(),
    };
    let (source_name, target_name) = if d.is_from() {
        (renamed, own)
    } else {
        (own, renamed)
    };
    if eff.skip {
        Ok(
            ConvertibleField {
                source_name,
                span: f.span,
                skip: true,
                default: eff.default,
                method: FieldConversionMethod::Plain,
                target_name,
                conversion_func: eff.with_func,
            },
        )
    } else {
        match decide_field_method(&f.ty, d.is_from(), eff.unwrap) {
            Ok(m) => Ok(
                ConvertibleField {
                    source_name,
                    span: f.span,
                    skip: false,
                    default: eff.default,
                    method: m,
                    target_name,
                    conversion_func: eff.with_func,
                },
            ),
            Err(k) => Err(Diagnostic { span: f.span, kind: k }),
        }
    }
}

/// Skip is a no-op whatever else is set: when any applicable scope requests
/// skipping, the field's plan always exists (no directive on it can fail the
/// field) and emits nothing, regardless of rename, default, unwrap or
/// custom-function settings.
pub proof fn lemma_skip_monotonic(f: FieldSchema, index: usize, d: ConversionMethod, path: Seq<char>)
    requires
        spec_resolve(f.dirs, d, path).skip,
    ensures
        spec_build_field(f, index, d, path) is Ok,
        spec_emission(spec_build_field(f, index, d, path).unwrap()) == FieldEmission::Omitted,
{
}

/// The plans of the fields that resolve, in declaration order.
pub open spec fn spec_extract_plans(
    fields: Seq<FieldSchema>,
    d: ConversionMethod,
    path: Seq<char>,
) -> Seq<ConvertibleField>
    decreases fields.len(),
{
    if fields.len() == 0 {
        Seq::empty()
    } else {
        spec_extract_plans(fields.drop_last(), d, path) + (match spec_build_field(
            fields.last(),
            (fields.len() - 1) as usize,
            d,
            path,
        ) {
            Ok(p) => seq![p],
            Err(_) => Seq::empty(),
        })
    }
}

/// The diagnostics of the fields that do not resolve, in declaration order.
pub open spec fn spec_extract_diags(
    fields: Seq<FieldSchema>,
    d: ConversionMethod,
    path: Seq<char>,
) -> Seq<Diagnostic>
    decreases fields.len(),
{
    if fields.len() == 0 {
        Seq::empty()
    } else {
        spec_extract_diags(fields.drop_last(), d, path) + (match spec_build_field(
            fields.last(),
            (fields.len() - 1) as usize,
            d,
            path,
        ) {
            Ok(_) => Seq::empty(),
            Err(e) => seq![e],
        })
    }
}

/// Plans every field of a record or variant for one conversion.  A field
/// that cannot be planned contributes a diagnostic instead of a plan, and
/// planning continues with the remaining fields, so one pass reports as many
/// problems as possible.
pub fn extract_convertible_fields(
    fields: &Vec<FieldSchema>,
    d: ConversionMethod,
    path: &String,
) -> (r: (Vec<ConvertibleField>, Vec<Diagnostic>))
    ensures
        r.0@ == spec_extract_plans(fields@, d, path@),
        r.1@ == spec_extract_diags(fields@, d, path@),
{
    let mut plans: Vec<ConvertibleField> = Vec::new();
    let mut diags: Vec<Diagnostic> = Vec::new();
    let mut i: usize = 0;
    proof {
        assert(fields@.take(0) =~= Seq::<FieldSchema>::empty());
    }
    while i < fields.len()
        invariant
            i <= fields@.len(),
            plans@ == spec_extract_plans(fields@.take(i as int), d, path@),
            diags@ == spec_extract_diags(fields@.take(i as int), d, path@),
        decreases fields@.len() - i,
    {
        match build_convertible_field(&fields[i], i, d, path) {
            Ok(p) => plans.push(p),
            Err(e) => diags.push(e),
        }
        proof {
            assert(fields@.take(i + 1).drop_last() =~= fields@.take(i as int));
            assert(fields@.take(i + 1).last() == fields@[i as int]);
            assert(plans@ =~= spec_extract_plans(fields@.take(i + 1), d, path@));
            assert(diags@ =~= spec_extract_diags(fields@.take(i + 1), d, path@));
        }
        i = i + 1;
    }
    proof {
        assert(fields@.take(i as int) =~= fields@);
    }
    (plans, diags)
}

} // verus!
