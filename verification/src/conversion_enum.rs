//! Variant resolution for sum types.
//!
//! Each variant is resolved independently: its own rename/skip directives go
//! through the same scope resolution as field directives, and its field list
//! goes through the field plan builder.  A skipped variant is omitted from
//! the plan altogether — including from the generated mapping arms, which
//! can leave the emitted mapping non-exhaustive if the target sum type still
//! carries the variant; that is a documented trap of the design, kept as it
//! is rather than silently patched.
//! One variant's problems never block its siblings: diagnostics accumulate
//! across the whole variant list.

use vstd::prelude::*;

use crate::conversion_field::{
    extract_convertible_fields, spec_extract_diags, spec_extract_plans, ConvertibleField,
    FieldSchema,
};
use crate::conversion_meta::ConversionMethod;
use crate::diagnostics::Diagnostic;
use crate::directives::{resolve_directives, spec_resolve, FieldDirectives};

verus! {

/// How a variant holds its fields.
#[derive(Clone, Copy, Debug, PartialEq, Eq, Structural)]
pub enum VariantStyle {
    NamedFields,
    PositionalFields,
    Unit,
}

/// One variant of a sum type, as the schema extractor hands it over.
#[derive(Debug, PartialEq, Eq)]
pub struct VariantSchema {
    pub ident: String,
    pub style: VariantStyle,
    pub fields: Vec<FieldSchema>,
    pub dirs: FieldDirectives,
    pub span: usize,
}

/// The finished plan for one variant of one conversion.
#[derive(Debug, PartialEq, Eq)]
pub struct ConversionVariant {
    pub source_name: String,
    pub target_name: String,
    pub named_variant: bool,
    pub fields: Vec<ConvertibleField>,
}

/// The mathematical shape of a [`ConversionVariant`].
pub struct VariantPlanView {
    pub source_name: Seq<char>,
    pub target_name: Seq<char>,
    pub named_variant: bool,
    pub fields: Seq<ConvertibleField>,
}

impl View for ConversionVariant {
    type V = VariantPlanView;

    open spec fn view(&self) -> VariantPlanView {
        VariantPlanView {
            source_name: self.source_name@,
            target_name: self.target_name@,
            named_variant: self.named_variant,
            fields: self.fields@,
        }
    }
}

/// The plan of one variant for one conversion, or `None` when the variant is
/// skipped: resolved rename applied, names oriented by the direction, and
/// every field planned.
pub open spec fn spec_variant_plan(
    v: VariantSchema,
    d: ConversionMethod,
    path: Seq<char>,
) -> Option<VariantPlanView> {
    let eff = spec_resolve(v.dirs, d, path);
    if eff.skip {
        None
    } else {
        let renamed = match eff.rename {
            Some(n) => n@,
            None => v.ident@,
        };
        let source_name = if d.spec_is_from() {
            renamed
        } else {
            v.ident@
        };
        let target_name = if d.spec_is_from() {
            v.ident@
        } else {
            renamed
        };
        Some(
            VariantPlanView {
                source_name,
                target_name,
                named_variant: v.style is NamedFields,
                fields: spec_extract_plans(v.fields@, d, path),
            },
        )
    }
}

/// The diagnostics a variant contributes: none when it is skipped (its
/// fields are never planned), its fields' diagnostics otherwise.
pub open spec fn spec_variant_diags(
    v: VariantSchema,
    d: ConversionMethod,
    path: Seq<char>,
) -> Seq<Diagnostic> {
    if spec_resolve(v.dirs, d, path).skip {
        Seq::empty()
    } else {
        spec_extract_diags(v.fields@, d, path)
    }
}

/// The plans of the variants that are not skipped, in declaration order.
pub open spec fn spec_variant_plans(
    variants: Seq<VariantSchema>,
    d: ConversionMethod,
    path: Seq<char>,
) -> Seq<VariantPlanView>
    decreases variants.len(),
{
    if variants.len() == 0 {
        Seq::empty()
    } else {
        spec_variant_plans(variants.drop_last(), d, path) + (match spec_variant_plan(
            variants.last(),
            d,
            path,
        ) {
            Some(p) => seq![p],
            None => Seq::empty(),
        })
    }
}

/// All diagnostics of a variant list, in declaration order.
pub open spec fn spec_variants_diags(
    variants: Seq<VariantSchema>,
    d: ConversionMethod,
    path: Seq<char>,
) -> Seq<Diagnostic>
    decreases variants.len(),
{
    if variants.len() == 0 {
        Seq::empty()
    } else {
        spec_variants_diags(variants.drop_last(), d, path) + spec_variant_diags(
            variants.last(),
            d,
            path,
        )
    }
}

/// A variant that any applicable scope marks `skip` is entirely absent from
/// the variant plans, whatever directives its fields carry.
pub proof fn lemma_skipped_variant_absent(v: VariantSchema, d: ConversionMethod, path: Seq<char>)
    requires
        spec_resolve(v.dirs, d, path).skip,
    ensures
        spec_variant_plan(v, d, path) is None,
        spec_variant_diags(v, d, path) =~= Seq::<Diagnostic>::empty(),
{
}

/// Resolves every variant of a sum type for one conversion.  Skipped
/// variants are omitted; a variant with unplannable fields contributes its
/// diagnostics and is otherwise left out, without blocking its siblings.
pub fn extract_enum_variants(variants: &Vec<VariantSchema>, d: ConversionMethod, path: &String)
    -> (r: (Vec<ConversionVariant>, Vec<Diagnostic>))
    ensures
        r.0@.len() == spec_variant_plans(variants@, d, path@).len(),
        forall|k: int|
            0 <= k < r.0@.len() ==> r.0@[k]@ == spec_variant_plans(variants@, d, path@)[k],
        r.1@ == spec_variants_diags(variants@, d, path@),
{
    let mut plans: Vec<ConversionVariant> = Vec::new();
    let mut diags: Vec<Diagnostic> = Vec::new();
    let mut i: usize = 0;
    proof {
        assert(variants@.take(0) =~= Seq::<VariantSchema>::empty());
    }
    while i < variants.len()
        invariant
            i <= variants@.len(),
            plans@.len() == spec_variant_plans(variants@.take(i as int), d, path@).len(),
            forall|k: int|
                0 <= k < plans@.len() ==> plans@[k]@ == spec_variant_plans(
                    variants@.take(i as int),
                    d,
                    path@,
                )[k],
            diags@ == spec_variants_diags(variants@.take(i as int), d, path@),
        decreases variants@.len() - i,
    {
        let v = &variants[i];
        let eff = resolve_directives(&v.dirs, d, path);
        if !eff.skip {
            let renamed = match &eff.rename {
                Some(n) => n.clone(),
                None => v.ident.clone(),
            };
            let (source_name, target_name) = if d.is_from() {
                (renamed, v.ident.clone())
            } else {
                (v.ident.clone(), renamed)
            };
            let (fields, mut field_diags) = extract_convertible_fields(&v.fields, d, path);
            let named_variant = match v.style {
                VariantStyle::NamedFields => true,
                _ => false,
            };
            plans.push(ConversionVariant { source_name, target_name, named_variant, fields });
            diags.append(&mut field_diags);
        }
        proof {
            assert(variants@.take(i + 1).drop_last() =~= variants@.take(i as int));
            assert(variants@.take(i + 1).last() == variants@[i as int]);
            assert(diags@ =~= spec_variants_diags(variants@.take(i + 1), d, path@));
        }
        i = i + 1;
    }
    proof {
        assert(variants@.take(i as int) =~= variants@);
    }
    (plans, diags)
}

} // verus!
