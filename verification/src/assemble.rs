//! The conversion assembler.
//!
//! The assembler turns resolved field and variant plans into the finished,
//! ordered [`ConversionPlan`] for each declared conversion.  Within each
//! record's or variant's field list, plans that emit a custom-function call
//! are moved to the front, stably: the emitted call reads the whole source
//! value, so it must run before earlier by-value field moves can consume
//! parts of it.  That ordering is a contract of the plan, not an
//! optimization.  The assembler also rejects default-filling for positional
//! shapes, which have no field names to fill.

use vstd::prelude::*;

use crate::conversion_enum::{
    extract_enum_variants, spec_variant_plans, spec_variants_diags, ConversionVariant,
    VariantPlanView, VariantSchema,
};
use crate::conversion_field::{
    extract_convertible_fields, spec_emission, spec_extract_diags, spec_extract_plans,
    ConvertibleField, FieldEmission, FieldSchema,
};
use crate::conversion_meta::{
    extract_conversions, spec_extract_conversions, ConversionMeta, TypeDirectives,
};
use crate::diagnostics::{Diagnostic, DiagnosticKind};

verus! {

/// Whether a field plan emits a custom-function call.
pub open spec fn spec_is_custom(f: ConvertibleField) -> bool {
    spec_emission(f) is Custom
}

/// The field plans that emit custom calls, in declaration order.
pub open spec fn spec_customs(s: Seq<ConvertibleField>) -> Seq<ConvertibleField>
    decreases s.len(),
{
    if s.len() == 0 {
        Seq::empty()
    } else {
        spec_customs(s.drop_last()) + (if spec_is_custom(s.last()) {
            seq![s.last()]
        } else {
            Seq::empty()
        })
    }
}

/// The remaining field plans, in declaration order.
pub open spec fn spec_non_customs(s: Seq<ConvertibleField>) -> Seq<ConvertibleField>
    decreases s.len(),
{
    if s.len() == 0 {
        Seq::empty()
    } else {
        spec_non_customs(s.drop_last()) + (if spec_is_custom(s.last()) {
            Seq::empty()
        } else {
            seq![s.last()]
        })
    }
}

/// The assembled order: custom-call plans first, then the rest, each group
/// keeping declaration order.
pub open spec fn spec_hoisted(s: Seq<ConvertibleField>) -> Seq<ConvertibleField> {
    spec_customs(s) + spec_non_customs(s)
}

proof fn lemma_customs_are_custom(s: Seq<ConvertibleField>)
    ensures
        forall|k: int| 0 <= k < spec_customs(s).len() ==> spec_is_custom(spec_customs(s)[k]),
        forall|k: int|
            0 <= k < spec_non_customs(s).len() ==> !spec_is_custom(spec_non_customs(s)[k]),
    decreases s.len(),
{
    if s.len() > 0 {
        lemma_customs_are_custom(s.drop_last());
        assert forall|k: int| 0 <= k < spec_customs(s).len() implies spec_is_custom(
            spec_customs(s)[k],
        ) by {
            if k < spec_customs(s.drop_last()).len() {
                assert(spec_customs(s)[k] == spec_customs(s.drop_last())[k]);
            } else {
                assert(spec_customs(s)[k] == s.last());
            }
        }
        assert forall|k: int| 0 <= k < spec_non_customs(s).len() implies !spec_is_custom(
            spec_non_customs(s)[k],
        ) by {
            if k < spec_non_customs(s.drop_last()).len() {
                assert(spec_non_customs(s)[k] == spec_non_customs(s.drop_last())[k]);
            } else {
                assert(spec_non_customs(s)[k] == s.last());
            }
        }
    }
}

/// The ordering contract: in an assembled field list, every plan that emits
/// a custom-function call stands before every plan that does not.
pub proof fn lemma_custom_before_plain(s: Seq<ConvertibleField>, i: int, j: int)
    requires
        0 <= i < spec_hoisted(s).len(),
        0 <= j < spec_hoisted(s).len(),
        spec_is_custom(spec_hoisted(s)[i]),
        !spec_is_custom(spec_hoisted(s)[j]),
    ensures
        i < j,
{
    lemma_customs_are_custom(s);
    if i >= spec_customs(s).len() {
        assert(spec_hoisted(s)[i] == spec_non_customs(s)[i - spec_customs(s).len()]);
    }
    if j < spec_customs(s).len() {
        assert(spec_hoisted(s)[j] == spec_customs(s)[j]);
    }
}

/// Hoisting only reorders: the assembled field list holds exactly the
/// plans of the resolved list, each exactly once.
pub proof fn lemma_hoist_preserves_fields(s: Seq<ConvertibleField>)
    ensures
        spec_hoisted(s).to_multiset() == s.to_multiset(),
    decreases s.len(),
{
    broadcast use vstd::seq_lib::lemma_multiset_commutative;
    broadcast use vstd::multiset::group_multiset_axioms;

    if s.len() == 0 {
        assert(spec_hoisted(s) =~= s);
    } else {
        let dl = s.drop_last();
        lemma_hoist_preserves_fields(dl);
        assert(s =~= dl + seq![s.last()]);
        if spec_is_custom(s.last()) {
            assert(spec_customs(s) == spec_customs(dl) + seq![s.last()]);
            assert(spec_non_customs(s) + Seq::<ConvertibleField>::empty() =~= spec_non_customs(
                dl,
            ));
        } else {
            assert(spec_non_customs(s) == spec_non_customs(dl) + seq![s.last()]);
            assert(spec_customs(s) + Seq::<ConvertibleField>::empty() =~= spec_customs(dl));
        }
        assert(spec_hoisted(s).to_multiset() =~= s.to_multiset());
    }
}

/// Reorders field plans so that custom-call plans come first, keeping
/// declaration order within each group.
pub fn hoist_custom_first(fields: Vec<ConvertibleField>) -> (r: Vec<ConvertibleField>)
    ensures
        r@ == spec_hoisted(fields@),
{
    let mut customs: Vec<ConvertibleField> = Vec::new();
    let mut rest: Vec<ConvertibleField> = Vec::new();
    let mut i: usize = 0;
    proof {
        assert(fields@.take(0) =~= Seq::<ConvertibleField>::empty());
    }
    while i < fields.len()
        invariant
            i <= fields@.len(),
            customs@ == spec_customs(fields@.take(i as int)),
            rest@ == spec_non_customs(fields@.take(i as int)),
        decreases fields@.len() - i,
    {
        let f = &fields[i];
        let is_custom = !f.skip && !f.default && f.conversion_func.is_some();
        proof {
            assert(is_custom == spec_is_custom(fields@[i as int]));
        }
        if is_custom {
            customs.push(f.clone());
        } else {
            rest.push(f.clone());
        }
        proof {
            assert(fields@.take(i + 1).drop_last() =~= fields@.take(i as int));
            assert(fields@.take(i + 1).last() == fields@[i as int]);
            assert(customs@ =~= spec_customs(fields@.take(i + 1)));
            assert(rest@ =~= spec_non_customs(fields@.take(i + 1)));
        }
        i = i + 1;
    }
    proof {
        assert(fields@.take(i as int) =~= fields@);
    }
    let mut result = customs;
    result.append(&mut rest);
    result
}

/// The body of a finished plan: an ordered field list for a record, or one
/// ordered field list per kept variant for a sum type.
#[derive(Debug, PartialEq, Eq)]
pub enum PlanBody {
    Record { named: bool, fields: Vec<ConvertibleField> },
    Sum { variants: Vec<ConversionVariant> },
}

/// One finished conversion plan, ready for the code emitter.
#[derive(Debug, PartialEq, Eq)]
pub struct ConversionPlan {
    pub meta: ConversionMeta,
    /// Whether the generated conversion returns a result.
    pub fallible: bool,
    /// Whether unmapped target fields take their default values.
    pub default_fill: bool,
    pub body: PlanBody,
}

/// The mathematical shape of a [`PlanBody`].
pub enum PlanBodyView {
    RecordBody { named: bool, fields: Seq<ConvertibleField> },
    SumBody { variants: Seq<VariantPlanView> },
}

/// The mathematical shape of a [`ConversionPlan`].
pub struct PlanView {
    pub meta: ConversionMeta,
    pub fallible: bool,
    pub default_fill: bool,
    pub body: PlanBodyView,
}

impl View for PlanBody {
    type V = PlanBodyView;

    open spec fn view(&self) -> PlanBodyView {
        match self {
            PlanBody::Record { named, fields } => PlanBodyView::RecordBody {
                named: *named,
                fields: fields@,
            },
            PlanBody::Sum { variants } => PlanBodyView::SumBody {
                variants: Seq::new(variants@.len(), |k: int| variants@[k]@),
            },
        }
    }
}

impl View for ConversionPlan {
    type V = PlanView;

    open spec fn view(&self) -> PlanView {
        PlanView {
            meta: self.meta,
            fallible: self.fallible,
            default_fill: self.default_fill,
            body: self.body@,
        }
    }
}

/// The kind of type a plan is made for, as the schema extractor reports it.
#[derive(Debug, PartialEq, Eq)]
pub enum SchemaBody {
    Record { named: bool, fields: Vec<FieldSchema> },
    Sum { variants: Vec<VariantSchema> },
    /// A shape the engine does not convert (a union, or a unit record).
    Other,
}

/// One type definition, as the schema extractor hands it over.
#[derive(Debug, PartialEq, Eq)]
pub struct TypeSchema {
    pub span: usize,
    pub body: SchemaBody,
}

/// The variant plans of a sum type, each with its field list in assembled
/// order.
pub open spec fn spec_assembled_variants(
    variants: Seq<VariantSchema>,
    d: crate::conversion_meta::ConversionMethod,
    path: Seq<char>,
) -> Seq<VariantPlanView> {
    spec_variant_plans(variants, d, path).map_values(
        |v: VariantPlanView|
            VariantPlanView {
                source_name: v.source_name,
                target_name: v.target_name,
                named_variant: v.named_variant,
                fields: spec_hoisted(v.fields),
            },
    )
}

/// The finished plan for one declared conversion, or the diagnostics that
/// prevent it.
pub open spec fn spec_plan_for(schema: TypeSchema, meta: ConversionMeta) -> Result<
    PlanView,
    Seq<Diagnostic>,
> {
    let path = meta.spec_other_type()@;
    match schema.body {
        SchemaBody::Record { named, fields } => {
            let field_diags = spec_extract_diags(fields@, meta.method, path);
            let structural = if !named && meta.default_allowed {
                seq![Diagnostic { span: schema.span, kind: DiagnosticKind::DefaultOnUnnamed }]
            } else {
                Seq::empty()
            };
            let all = field_diags + structural;
            if all.len() > 0 {
                Err(all)
            } else {
                Ok(
                    PlanView {
                        meta,
                        fallible: meta.method.spec_is_falliable(),
                        default_fill: meta.default_allowed,
                        body: PlanBodyView::RecordBody {
                            named,
                            fields: spec_hoisted(spec_extract_plans(fields@, meta.method, path)),
                        },
                    },
                )
            }
        },
        SchemaBody::Sum { variants } => {
            let diags = spec_variants_diags(variants@, meta.method, path);
            if diags.len() > 0 {
                Err(diags)
            } else {
                Ok(
                    PlanView {
                        meta,
                        fallible: meta.method.spec_is_falliable(),
                        default_fill: meta.default_allowed,
                        body: PlanBodyView::SumBody {
                            variants: spec_assembled_variants(variants@, meta.method, path),
                        },
                    },
                )
            }
        },
        SchemaBody::Other => Err(
            seq![Diagnostic { span: schema.span, kind: DiagnosticKind::UnsupportedTypeKind }],
        ),
    }
}

/// The plans of every conversion a type declares, and every diagnostic they
/// raise, in declaration order.
pub open spec fn spec_build_outcome(metas: Seq<ConversionMeta>, schema: TypeSchema) -> (Seq<
    PlanView,
>, Seq<Diagnostic>)
    decreases metas.len(),
{
    if metas.len() == 0 {
        (Seq::empty(), Seq::empty())
    } else {
        let (plans, diags) = spec_build_outcome(metas.drop_last(), schema);
        match spec_plan_for(schema, metas.last()) {
            Ok(p) => (plans + seq![p], diags),
            Err(d) => (plans, diags + d),
        }
    }
}

fn clone_meta(m: &ConversionMeta) -> (r: ConversionMeta)
    ensures
        r == *m,
{
    ConversionMeta {
        source_name: m.source_name.clone(),
        target_name: m.target_name.clone(),
        method: m.method,
        default_allowed: m.default_allowed,
    }
}

/// Assembles the plan for one declared conversion of a schema, or reports
/// the diagnostics that prevent it.
pub fn assemble_plan(schema: &TypeSchema, meta: &ConversionMeta) -> (r: Result<
    ConversionPlan,
    Vec<Diagnostic>,
>)
    ensures
        match r {
            Ok(p) => spec_plan_for(*schema, *meta) matches Ok(v) && p@ == v,
            Err(ds) => spec_plan_for(*schema, *meta) matches Err(v) && ds@ == v,
        },
{
    let path = meta.other_type();
    match &schema.body {
        SchemaBody::Record { named, fields } => {
            let (plans, mut field_diags) = extract_convertible_fields(fields, meta.method, &path);
            let structural_error = !*named && meta.default_allowed;
            if structural_error {
                field_diags.push(
                    Diagnostic { span: schema.span, kind: DiagnosticKind::DefaultOnUnnamed },
                );
            }
            proof {
                let structural = if !*named && meta.default_allowed {
                    seq![Diagnostic { span: schema.span, kind: DiagnosticKind::DefaultOnUnnamed }]
                } else {
                    Seq::<Diagnostic>::empty()
                };
                assert(field_diags@ =~= spec_extract_diags(fields@, meta.method, path@)
                    + structural);
            }
            if field_diags.len() > 0 {
                Err(field_diags)
            } else {
                Ok(
                    ConversionPlan {
                        meta: clone_meta(meta),
                        fallible: meta.method.is_falliable(),
                        default_fill: meta.default_allowed,
                        body: PlanBody::Record { named: *named, fields: hoist_custom_first(plans) },
                    },
                )
            }
        },
        SchemaBody::Sum { variants } => {
            let (plans, diags) = extract_enum_variants(variants, meta.method, &path);
            if diags.len() > 0 {
                Err(diags)
            } else {
                let mut assembled: Vec<ConversionVariant> = Vec::new();
                let mut i: usize = 0;
                let ghost target = spec_assembled_variants(variants@, meta.method, path@);
                proof {
                    assert(target.len() == plans@.len());
                }
                while i < plans.len()
                    invariant
                        i <= plans@.len(),
                        target == spec_assembled_variants(variants@, meta.method, path@),
                        target.len() == plans@.len(),
                        forall|k: int|
                            0 <= k < plans@.len() ==> plans@[k]@ == spec_variant_plans(
                                variants@,
                                meta.method,
                                path@,
                            )[k],
                        assembled@.len() == i,
                        forall|k: int| 0 <= k < i ==> assembled@[k]@ == target[k],
                    decreases plans@.len() - i,
                {
                    let v = &plans[i];
                    assembled.push(
                        ConversionVariant {
                            source_name: v.source_name.clone(),
                            target_name: v.target_name.clone(),
                            named_variant: v.named_variant,
                            fields: hoist_custom_first(v.fields.clone()),
                        },
                    );
                    i = i + 1;
                }
                let result = ConversionPlan {
                    meta: clone_meta(meta),
                    fallible: meta.method.is_falliable(),
                    default_fill: meta.default_allowed,
                    body: PlanBody::Sum { variants: assembled },
                };
                proof {
                    assert(Seq::new(result.body->variants@.len(), |k: int| result.body->variants@[k]@)
                        =~= target);
                }
                Ok(result)
            }
        },
        SchemaBody::Other => {
            let mut ds: Vec<Diagnostic> = Vec::new();
            ds.push(Diagnostic { span: schema.span, kind: DiagnosticKind::UnsupportedTypeKind });
            proof {
                assert(ds@ =~= seq![
                    Diagnostic { span: schema.span, kind: DiagnosticKind::UnsupportedTypeKind },
                ]);
            }
            Err(ds)
        },
    }
}

/// Resolves every conversion a type declares.  When everything resolves, the
/// plans come back in declaration order; otherwise every diagnostic of every
/// declared conversion is reported together.
pub fn build_conversion_plans(schema: &TypeSchema, tdirs: &TypeDirectives) -> (r: Result<
    Vec<ConversionPlan>,
    Vec<Diagnostic>,
>)
    ensures
        ({
            let (plans, diags) = spec_build_outcome(spec_extract_conversions(*tdirs), *schema);
            match r {
                Ok(ps) => diags.len() == 0 && ps@.len() == plans.len() && forall|k: int|
                    0 <= k < ps@.len() ==> ps@[k]@ == plans[k],
                Err(ds) => diags.len() > 0 && ds@ == diags,
            }
        }),
{
    let metas = extract_conversions(tdirs);
    let mut plans: Vec<ConversionPlan> = Vec::new();
    let mut diags: Vec<Diagnostic> = Vec::new();
    let mut i: usize = 0;
    proof {
        assert(metas@.take(0) =~= Seq::<ConversionMeta>::empty());
    }
    while i < metas.len()
        invariant
            i <= metas@.len(),
            metas@ == spec_extract_conversions(*tdirs),
            ({
                let (sp, sd) = spec_build_outcome(metas@.take(i as int), *schema);
                &&& plans@.len() == sp.len()
                &&& forall|k: int| 0 <= k < plans@.len() ==> plans@[k]@ == sp[k]
                &&& diags@ == sd
            }),
        decreases metas@.len() - i,
    {
        match assemble_plan(schema, &metas[i]) {
            Ok(p) => plans.push(p),
            Err(mut ds) => diags.append(&mut ds),
        }
        proof {
            assert(metas@.take(i + 1).drop_last() =~= metas@.take(i as int));
            assert(metas@.take(i + 1).last() == metas@[i as int]);
            let (sp, sd) = spec_build_outcome(metas@.take(i + 1), *schema);
            assert(diags@ =~= sd);
        }
        i = i + 1;
    }
    proof {
        assert(metas@.take(i as int) =~= metas@);
    }
    if diags.len() > 0 {
        Err(diags)
    } else {
        Ok(plans)
    }
}

} // verus!
