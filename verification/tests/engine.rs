//! Directive scoping, shape classification, plan assembly and the engine's
//! error reporting, on concrete inputs.

use derive_into::assemble::{
    build_conversion_plans, hoist_custom_first, ConversionPlan, PlanBody, SchemaBody, TypeSchema,
};
use derive_into::conversion_field::{
    build_convertible_field, decide_field_method, field_emission, FieldConversionMethod,
    FieldEmission, FieldSchema,
};
use derive_into::conversion_meta::{
    extract_conversions, ConvAttrs, ConversionMeta, ConversionMethod, TypeDirectives,
};
use derive_into::conversion_enum::{VariantSchema, VariantStyle};
use derive_into::diagnostics::DiagnosticKind;
use derive_into::directives::{resolve_directives, DirectiveSet, FieldDirectives, ScopedDirective};
use derive_into::eval::{
    eval_record_conversion, eval_sum_conversion, EvalFault, FieldHost, HostConv, HostList,
    RecordConv, SumConv,
};
use derive_into::idents::FieldIdentifier;
use derive_into::shape::{classify, FieldShape, TypeToken};
use derive_into::value::{bindings_from_vec, entries_from_vec, items_from_vec, BindingList, Value};

fn s(x: &str) -> String {
    x.to_string()
}

fn plain_ty(name: &str) -> TypeToken {
    TypeToken { head: s(name), single_segment: true, has_generics: false }
}

fn wrapper_ty(name: &str) -> TypeToken {
    TypeToken { head: s(name), single_segment: true, has_generics: true }
}

fn unset() -> DirectiveSet {
    DirectiveSet::unset()
}

fn named(n: &str) -> FieldIdentifier {
    FieldIdentifier::Named(s(n))
}

fn text(x: &str) -> Value {
    Value::Text(s(x))
}

fn num(x: u64) -> Value {
    Value::Number(x)
}

fn present(v: Value) -> Value {
    Value::Maybe(Some(Box::new(v)))
}

fn absent() -> Value {
    Value::Maybe(None)
}

fn items(vs: Vec<Value>) -> Value {
    Value::Items(Box::new(items_from_vec(vs)))
}

fn record(bs: Vec<(FieldIdentifier, Value)>) -> Value {
    Value::Record(Box::new(bindings_from_vec(bs)))
}

fn wrapped(n: &str, v: Value) -> Value {
    Value::Wrapped(s(n), Box::new(v))
}

fn host_list(convs: Vec<HostConv>) -> HostList {
    let mut l = HostList::Nil;
    let mut convs = convs;
    while let Some(c) = convs.pop() {
        l = HostList::Cons(FieldHost { conv: c, key_conv: HostConv::Identity }, Box::new(l));
    }
    l
}

fn record_conv(plan: ConversionPlan, convs: Vec<HostConv>, filler: BindingList) -> RecordConv {
    let default_fill = plan.default_fill;
    match plan.body {
        PlanBody::Record { fields, .. } => {
            RecordConv { fields, envs: host_list(convs), default_fill, filler }
        }
        _ => panic!("expected a record plan"),
    }
}

#[test]
fn direction_predicates() {
    assert!(!ConversionMethod::Into.is_from());
    assert!(!ConversionMethod::TryInto.is_from());
    assert!(ConversionMethod::From.is_from());
    assert!(ConversionMethod::TryFrom.is_from());
    assert!(!ConversionMethod::Into.is_falliable());
    assert!(ConversionMethod::TryInto.is_falliable());
    assert!(!ConversionMethod::From.is_falliable());
    assert!(ConversionMethod::TryFrom.is_falliable());
}

#[test]
fn conversions_extract_in_declaration_order() {
    let t = TypeDirectives {
        ident: s("Here"),
        into: Some(ConvAttrs { path: s("A"), default: true }),
        try_into: Some(ConvAttrs { path: s("B"), default: false }),
        from: Some(ConvAttrs { path: s("C"), default: false }),
        try_from: Some(ConvAttrs { path: s("D"), default: false }),
    };
    let metas = extract_conversions(&t);
    assert_eq!(
        metas,
        vec![
            ConversionMeta {
                source_name: s("Here"),
                target_name: s("A"),
                method: ConversionMethod::Into,
                default_allowed: true,
            },
            ConversionMeta {
                source_name: s("Here"),
                target_name: s("B"),
                method: ConversionMethod::TryInto,
                default_allowed: false,
            },
            ConversionMeta {
                source_name: s("C"),
                target_name: s("Here"),
                method: ConversionMethod::From,
                default_allowed: false,
            },
            ConversionMeta {
                source_name: s("D"),
                target_name: s("Here"),
                method: ConversionMethod::TryFrom,
                default_allowed: false,
            },
        ]
    );
    assert_eq!(metas[0].other_type(), s("A"));
    assert_eq!(metas[2].other_type(), s("C"));
}

/// The narrowest applicable scope wins for each attribute independently,
/// and a scope that leaves an attribute open lets a broader scope supply it.
#[test]
fn specific_scope_overrides_broader_scopes() {
    let dirs = FieldDirectives {
        global: DirectiveSet {
            rename: Some(s("from_global")),
            default: Some(true),
            with_func: Some(s("global_func")),
            ..unset()
        },
        scoped: vec![
            ScopedDirective {
                direction: ConversionMethod::TryFrom,
                target: None,
                set: DirectiveSet { rename: Some(s("from_direction")), ..unset() },
            },
            ScopedDirective {
                direction: ConversionMethod::TryFrom,
                target: Some(s("Api")),
                set: DirectiveSet {
                    rename: Some(s("from_specific")),
                    unwrap: Some(true),
                    ..unset()
                },
            },
        ],
    };
    let eff = resolve_directives(&dirs, ConversionMethod::TryFrom, &s("Api"));
    // The path-specific scope sets rename and unwrap; broader scopes still
    // supply what it leaves open.
    assert_eq!(eff.rename, Some(s("from_specific")));
    assert!(eff.unwrap);
    assert!(eff.default);
    assert_eq!(eff.with_func, Some(s("global_func")));
    assert!(!eff.skip);

    // Without the matching path the specific scope is invisible and the
    // direction-generic scope decides the rename.
    let eff = resolve_directives(&dirs, ConversionMethod::TryFrom, &s("Other"));
    assert_eq!(eff.rename, Some(s("from_direction")));
    assert!(!eff.unwrap);

    // In a direction no scoped directive addresses, the global scope is all
    // that applies.
    let eff = resolve_directives(&dirs, ConversionMethod::Into, &s("Api"));
    assert_eq!(eff.rename, Some(s("from_global")));
}

/// Skip at any scope makes the field a no-op, whatever else is set on it.
#[test]
fn skip_is_monotonic_across_scopes() {
    let dirs = FieldDirectives {
        global: DirectiveSet {
            rename: Some(s("renamed")),
            skip: true,
            default: Some(true),
            unwrap: Some(true),
            with_func: Some(s("func")),
            ..unset()
        },
        scoped: vec![ScopedDirective {
            direction: ConversionMethod::Into,
            target: None,
            set: unset(),
        }],
    };
    let field = FieldSchema { ident: Some(s("x")), ty: plain_ty("u8"), dirs, span: 7 };
    // Even with unwrap set on a plain field, a skipped field cannot fail,
    // and it emits nothing.
    let plan = build_convertible_field(&field, 0, ConversionMethod::Into, &s("Api")).unwrap();
    assert!(plan.skip);
    assert_eq!(field_emission(&plan), FieldEmission::Omitted);

    // A skipped field leaves no binding in an evaluated conversion.
    let schema = TypeSchema {
        span: 0,
        body: SchemaBody::Record {
            named: true,
            fields: vec![
                FieldSchema {
                    ident: Some(s("kept")),
                    ty: plain_ty("u8"),
                    dirs: FieldDirectives { global: unset(), scoped: Vec::new() },
                    span: 1,
                },
                FieldSchema {
                    ident: Some(s("dropped")),
                    ty: plain_ty("u8"),
                    dirs: FieldDirectives {
                        global: DirectiveSet { skip: true, ..unset() },
                        scoped: Vec::new(),
                    },
                    span: 2,
                },
            ],
        },
    };
    let tdirs = TypeDirectives {
        ident: s("Source"),
        into: Some(ConvAttrs { path: s("Target"), default: false }),
        try_into: None,
        from: None,
        try_from: None,
    };
    let mut plans = build_conversion_plans(&schema, &tdirs).unwrap();
    let rc = record_conv(
        plans.remove(0),
        vec![HostConv::Identity, HostConv::Identity],
        BindingList::Nil,
    );
    let out = eval_record_conversion(&rc, &record(vec![
        (named("kept"), num(1)),
        (named("dropped"), num(2)),
    ]))
    .unwrap();
    assert_eq!(out, record(vec![(named("kept"), num(1))]));
}

#[test]
fn classification_is_stable_and_syntactic() {
    let token = wrapper_ty("Option");
    assert_eq!(classify(&token), FieldShape::Optional);
    assert_eq!(classify(&token), classify(&token));
    assert_eq!(classify(&wrapper_ty("Vec")), FieldShape::Sequence);
    assert_eq!(classify(&wrapper_ty("HashMap")), FieldShape::AssociativeMap);
    assert_eq!(classify(&wrapper_ty("BTreeMap")), FieldShape::Plain);
    // Without a generic argument list, or with a qualified path, the name
    // alone does not make a wrapper.
    assert_eq!(classify(&plain_ty("Option")), FieldShape::Plain);
    let qualified = TypeToken { head: s("Option"), single_segment: false, has_generics: true };
    assert_eq!(classify(&qualified), FieldShape::Plain);
}

#[test]
fn method_decision_table() {
    let optional = wrapper_ty("Option");
    let plain = plain_ty("u8");
    assert_eq!(
        decide_field_method(&optional, false, true),
        Ok(FieldConversionMethod::UnwrapOption)
    );
    assert_eq!(decide_field_method(&optional, true, true), Ok(FieldConversionMethod::SomeOption));
    assert_eq!(decide_field_method(&plain, true, true), Ok(FieldConversionMethod::UnwrapOption));
    assert_eq!(decide_field_method(&plain, false, true), Err(DiagnosticKind::CannotUnwrap));
    assert_eq!(decide_field_method(&optional, false, false), Ok(FieldConversionMethod::Optional));
    assert_eq!(
        decide_field_method(&wrapper_ty("Vec"), false, false),
        Ok(FieldConversionMethod::Sequence)
    );
    assert_eq!(
        decide_field_method(&wrapper_ty("HashMap"), true, false),
        Ok(FieldConversionMethod::AssociativeMap)
    );
    assert_eq!(decide_field_method(&plain, false, false), Ok(FieldConversionMethod::Plain));
}

/// A field carrying both `default` and a custom-function reference defaults;
/// it never calls the function.
#[test]
fn default_wins_over_custom_function() {
    let dirs = FieldDirectives {
        global: DirectiveSet {
            default: Some(true),
            with_func: Some(s("make_value")),
            ..unset()
        },
        scoped: Vec::new(),
    };
    let field = FieldSchema { ident: Some(s("x")), ty: plain_ty("u8"), dirs, span: 3 };
    let plan = build_convertible_field(&field, 0, ConversionMethod::Into, &s("Api")).unwrap();
    assert!(plan.default);
    assert_eq!(plan.conversion_func, Some(s("make_value")));
    assert_eq!(field_emission(&plan), FieldEmission::DefaultValue);
}

/// A custom-function field declared after plain fields is hoisted to the
/// front of the assembled plan, and the rest keep declaration order.
#[test]
fn custom_function_fields_come_first() {
    let schema = TypeSchema {
        span: 0,
        body: SchemaBody::Record {
            named: true,
            fields: vec![
                FieldSchema {
                    ident: Some(s("first")),
                    ty: plain_ty("u8"),
                    dirs: FieldDirectives { global: unset(), scoped: Vec::new() },
                    span: 1,
                },
                FieldSchema {
                    ident: Some(s("second")),
                    ty: plain_ty("u8"),
                    dirs: FieldDirectives { global: unset(), scoped: Vec::new() },
                    span: 2,
                },
                FieldSchema {
                    ident: Some(s("computed")),
                    ty: plain_ty("u8"),
                    dirs: FieldDirectives {
                        global: DirectiveSet { with_func: Some(s("compute")), ..unset() },
                        scoped: Vec::new(),
                    },
                    span: 3,
                },
            ],
        },
    };
    let tdirs = TypeDirectives {
        ident: s("Source"),
        into: Some(ConvAttrs { path: s("Target"), default: false }),
        try_into: None,
        from: None,
        try_from: None,
    };
    let plans = build_conversion_plans(&schema, &tdirs).unwrap();
    match &plans[0].body {
        PlanBody::Record { fields, .. } => {
            assert_eq!(fields.len(), 3);
            assert_eq!(fields[0].target_name, named("computed"));
            assert_eq!(fields[0].conversion_func, Some(s("compute")));
            assert_eq!(fields[1].target_name, named("first"));
            assert_eq!(fields[2].target_name, named("second"));
        }
        _ => panic!("expected a record plan"),
    }

    // Hoisting leaves a list without custom-function fields untouched.
    match &plans[0].body {
        PlanBody::Record { fields, .. } => {
            let rest: Vec<_> = fields[1..].iter().map(|f| f.clone()).collect();
            let hoisted = hoist_custom_first(rest.iter().map(|f| f.clone()).collect());
            assert_eq!(hoisted, rest);
        }
        _ => panic!("expected a record plan"),
    }
}

/// A record with an unwrapped optional, an optional, a sequence and a
/// renamed plain field converts fallibly: the present optional unwraps, the
/// others convert element-wise, and an absent value in the unwrapped field
/// fails the whole conversion.
#[test]
fn fallible_record_scenario() {
    let schema = TypeSchema {
        span: 0,
        body: SchemaBody::Record {
            named: true,
            fields: vec![
                FieldSchema {
                    ident: Some(s("normal")),
                    ty: wrapper_ty("Option"),
                    dirs: FieldDirectives {
                        global: DirectiveSet { unwrap: Some(true), ..unset() },
                        scoped: Vec::new(),
                    },
                    span: 1,
                },
                FieldSchema {
                    ident: Some(s("opt")),
                    ty: wrapper_ty("Option"),
                    dirs: FieldDirectives { global: unset(), scoped: Vec::new() },
                    span: 2,
                },
                FieldSchema {
                    ident: Some(s("vec")),
                    ty: wrapper_ty("Vec"),
                    dirs: FieldDirectives { global: unset(), scoped: Vec::new() },
                    span: 3,
                },
                FieldSchema {
                    ident: Some(s("old_name")),
                    ty: plain_ty("u16"),
                    dirs: FieldDirectives {
                        global: DirectiveSet { rename: Some(s("renamed_field")), ..unset() },
                        scoped: Vec::new(),
                    },
                    span: 4,
                },
            ],
        },
    };
    let tdirs = TypeDirectives {
        ident: s("Source"),
        into: None,
        try_into: Some(ConvAttrs { path: s("Target"), default: false }),
        from: None,
        try_from: None,
    };
    let mut plans = build_conversion_plans(&schema, &tdirs).unwrap();
    let plan = plans.remove(0);
    assert!(plan.fallible);
    let rc = record_conv(
        plan,
        vec![
            HostConv::Identity,
            HostConv::Wrap(s("Number")),
            HostConv::Wrap(s("Number")),
            HostConv::Wrap(s("Number")),
        ],
        BindingList::Nil,
    );

    let source = record(vec![
        (named("normal"), present(num(1))),
        (named("opt"), present(num(2))),
        (named("vec"), items(vec![num(3)])),
        (named("old_name"), num(4)),
    ]);
    let out = eval_record_conversion(&rc, &source).unwrap();
    assert_eq!(
        out,
        record(vec![
            (named("normal"), num(1)),
            (named("opt"), present(wrapped("Number", num(2)))),
            (named("vec"), items(vec![wrapped("Number", num(3))])),
            (named("renamed_field"), wrapped("Number", num(4))),
        ])
    );

    // With the unwrapped field absent, the whole conversion fails.
    let source = record(vec![
        (named("normal"), absent()),
        (named("opt"), present(num(2))),
        (named("vec"), items(vec![num(3)])),
        (named("old_name"), num(4)),
    ]);
    assert_eq!(eval_record_conversion(&rc, &source), Err(EvalFault::AbsentValue));
}

/// A variant marked `skip` is entirely absent from the variant plans, and a
/// source value carrying it finds no arm.
#[test]
fn skipped_variant_is_absent() {
    let schema = TypeSchema {
        span: 0,
        body: SchemaBody::Sum {
            variants: vec![
                VariantSchema {
                    ident: s("Kept"),
                    style: VariantStyle::Unit,
                    fields: vec![],
                    dirs: FieldDirectives { global: unset(), scoped: Vec::new() },
                    span: 1,
                },
                VariantSchema {
                    ident: s("Dropped"),
                    style: VariantStyle::NamedFields,
                    fields: vec![FieldSchema {
                        ident: Some(s("payload")),
                        ty: plain_ty("u8"),
                        dirs: FieldDirectives {
                            global: DirectiveSet { rename: Some(s("load")), ..unset() },
                            scoped: Vec::new(),
                        },
                        span: 3,
                    }],
                    dirs: FieldDirectives {
                        global: DirectiveSet { skip: true, ..unset() },
                        scoped: Vec::new(),
                    },
                    span: 2,
                },
            ],
        },
    };
    let tdirs = TypeDirectives {
        ident: s("Source"),
        into: Some(ConvAttrs { path: s("Target"), default: false }),
        try_into: None,
        from: None,
        try_from: None,
    };
    let mut plans = build_conversion_plans(&schema, &tdirs).unwrap();
    let plan = plans.remove(0);
    match &plan.body {
        PlanBody::Sum { variants } => {
            assert_eq!(variants.len(), 1);
            assert_eq!(variants[0].source_name, s("Kept"));
        }
        _ => panic!("expected a sum plan"),
    }

    let sc = match plan.body {
        PlanBody::Sum { variants } => SumConv {
            variants,
            envs: vec![host_list(vec![])],
            default_fill: false,
            filler: BindingList::Nil,
        },
        _ => panic!("expected a sum plan"),
    };
    let source = Value::Variant(s("Dropped"), Box::new(bindings_from_vec(vec![(
        named("payload"),
        num(9),
    )])));
    assert_eq!(eval_sum_conversion(&sc, &source), Err(EvalFault::UnmatchedVariant));
}

/// Unsatisfiable unwraps are reported per field, and one bad field does not
/// silence another: both diagnostics arrive, with their spans.
#[test]
fn unwrap_errors_accumulate() {
    let bad_field = |name: &str, span: usize| FieldSchema {
        ident: Some(s(name)),
        ty: plain_ty("u8"),
        dirs: FieldDirectives {
            global: DirectiveSet { unwrap: Some(true), ..unset() },
            scoped: Vec::new(),
        },
        span,
    };
    let schema = TypeSchema {
        span: 0,
        body: SchemaBody::Record {
            named: true,
            fields: vec![bad_field("a", 11), bad_field("b", 22)],
        },
    };
    let tdirs = TypeDirectives {
        ident: s("Source"),
        into: Some(ConvAttrs { path: s("Target"), default: false }),
        try_into: None,
        from: None,
        try_from: None,
    };
    let diags = build_conversion_plans(&schema, &tdirs).unwrap_err();
    assert_eq!(diags.len(), 2);
    assert_eq!(diags[0].kind, DiagnosticKind::CannotUnwrap);
    assert_eq!(diags[0].span, 11);
    assert_eq!(diags[1].kind, DiagnosticKind::CannotUnwrap);
    assert_eq!(diags[1].span, 22);
}

#[test]
fn default_fill_on_positional_record_is_refused() {
    let schema = TypeSchema {
        span: 5,
        body: SchemaBody::Record {
            named: false,
            fields: vec![FieldSchema {
                ident: None,
                ty: plain_ty("u8"),
                dirs: FieldDirectives { global: unset(), scoped: Vec::new() },
                span: 6,
            }],
        },
    };
    let tdirs = TypeDirectives {
        ident: s("Source"),
        into: Some(ConvAttrs { path: s("Target"), default: true }),
        try_into: None,
        from: None,
        try_from: None,
    };
    let diags = build_conversion_plans(&schema, &tdirs).unwrap_err();
    assert_eq!(diags.len(), 1);
    assert_eq!(diags[0].kind, DiagnosticKind::DefaultOnUnnamed);
    assert_eq!(diags[0].span, 5);
}

#[test]
fn unsupported_type_kind_is_refused() {
    let schema = TypeSchema { span: 8, body: SchemaBody::Other };
    let tdirs = TypeDirectives {
        ident: s("Source"),
        into: Some(ConvAttrs { path: s("Target"), default: false }),
        try_into: None,
        from: None,
        try_from: None,
    };
    let diags = build_conversion_plans(&schema, &tdirs).unwrap_err();
    assert_eq!(diags.len(), 1);
    assert_eq!(diags[0].kind, DiagnosticKind::UnsupportedTypeKind);
    assert_eq!(diags[0].span, 8);
}

fn one_field_plan() -> ConversionPlan {
    let schema = TypeSchema {
        span: 0,
        body: SchemaBody::Record {
            named: true,
            fields: vec![FieldSchema {
                ident: Some(s("x")),
                ty: plain_ty("u8"),
                dirs: FieldDirectives { global: unset(), scoped: Vec::new() },
                span: 1,
            }],
        },
    };
    let tdirs = TypeDirectives {
        ident: s("Source"),
        into: Some(ConvAttrs { path: s("Target"), default: false }),
        try_into: None,
        from: None,
        try_from: None,
    };
    build_conversion_plans(&schema, &tdirs).unwrap().remove(0)
}

#[test]
fn evaluation_faults() {
    // A finite host conversion rejects a value its table does not list.
    let rc = record_conv(
        one_field_plan(),
        vec![HostConv::Table(Box::new(entries_from_vec(vec![(num(1), num(10))])))],
        BindingList::Nil,
    );
    assert_eq!(
        eval_record_conversion(&rc, &record(vec![(named("x"), num(1))])),
        Ok(record(vec![(named("x"), num(10))]))
    );
    assert_eq!(
        eval_record_conversion(&rc, &record(vec![(named("x"), num(2))])),
        Err(EvalFault::HostRejected)
    );

    // A source record without the planned field cannot convert.
    assert_eq!(
        eval_record_conversion(&rc, &record(vec![(named("y"), num(1))])),
        Err(EvalFault::MissingField)
    );

    // A non-record source value does not fit a record conversion.
    assert_eq!(eval_record_conversion(&rc, &num(3)), Err(EvalFault::ShapeMismatch));

    // A host model with too few entries does not line up with the plan.
    let rc = record_conv(one_field_plan(), vec![], BindingList::Nil);
    assert_eq!(
        eval_record_conversion(&rc, &record(vec![(named("x"), num(1))])),
        Err(EvalFault::HostModelMismatch)
    );

    // Unwrapping a value of the wrong wrapper is a shape mismatch.
    let rc = record_conv(
        one_field_plan(),
        vec![HostConv::Unwrap(s("Expected"))],
        BindingList::Nil,
    );
    assert_eq!(
        eval_record_conversion(&rc, &record(vec![(named("x"), wrapped("Expected", num(4)))])),
        Ok(record(vec![(named("x"), num(4))]))
    );
    assert_eq!(
        eval_record_conversion(&rc, &record(vec![(named("x"), wrapped("Other", num(4)))])),
        Err(EvalFault::ShapeMismatch)
    );
}

/// An associative field converts keys and values independently.
#[test]
fn associative_keys_and_values_convert() {
    let schema = TypeSchema {
        span: 0,
        body: SchemaBody::Record {
            named: true,
            fields: vec![FieldSchema {
                ident: Some(s("map")),
                ty: wrapper_ty("HashMap"),
                dirs: FieldDirectives { global: unset(), scoped: Vec::new() },
                span: 1,
            }],
        },
    };
    let tdirs = TypeDirectives {
        ident: s("Source"),
        into: Some(ConvAttrs { path: s("Target"), default: false }),
        try_into: None,
        from: None,
        try_from: None,
    };
    let plan = build_conversion_plans(&schema, &tdirs).unwrap().remove(0);
    let rc = match plan.body {
        PlanBody::Record { fields, .. } => RecordConv {
            fields,
            envs: HostList::Cons(
                FieldHost {
                    conv: HostConv::Wrap(s("CustomInt")),
                    key_conv: HostConv::Wrap(s("CustomString")),
                },
                Box::new(HostList::Nil),
            ),
            default_fill: false,
            filler: BindingList::Nil,
        },
        _ => panic!("expected a record plan"),
    };
    let source = record(vec![(
        named("map"),
        Value::Entries(Box::new(entries_from_vec(vec![(text("k"), num(7))]))),
    )]);
    let out = eval_record_conversion(&rc, &source).unwrap();
    assert_eq!(
        out,
        record(vec![(
            named("map"),
            Value::Entries(Box::new(entries_from_vec(vec![(
                wrapped("CustomString", text("k")),
                wrapped("CustomInt", num(7)),
            )]))),
        )])
    );
}

/// A custom-function field takes the function's result for the whole source
/// value, and a defaulted field takes its fixed default; neither reads the
/// field's own source binding.
#[test]
fn custom_and_default_fields_evaluate() {
    let schema = TypeSchema {
        span: 0,
        body: SchemaBody::Record {
            named: true,
            fields: vec![
                FieldSchema {
                    ident: Some(s("plain")),
                    ty: plain_ty("u8"),
                    dirs: FieldDirectives { global: unset(), scoped: Vec::new() },
                    span: 1,
                },
                FieldSchema {
                    ident: Some(s("summary")),
                    ty: plain_ty("String"),
                    dirs: FieldDirectives {
                        global: DirectiveSet { with_func: Some(s("summarize")), ..unset() },
                        scoped: Vec::new(),
                    },
                    span: 2,
                },
                FieldSchema {
                    ident: Some(s("fresh")),
                    ty: plain_ty("u8"),
                    dirs: FieldDirectives {
                        global: DirectiveSet { default: Some(true), ..unset() },
                        scoped: Vec::new(),
                    },
                    span: 3,
                },
            ],
        },
    };
    let tdirs = TypeDirectives {
        ident: s("Source"),
        into: Some(ConvAttrs { path: s("Target"), default: false }),
        try_into: None,
        from: None,
        try_from: None,
    };
    let plan = build_conversion_plans(&schema, &tdirs).unwrap().remove(0);

    let source = record(vec![
        (named("plain"), num(5)),
        (named("summary"), text("ignored")),
        (named("fresh"), num(6)),
    ]);
    // The assembled order puts the custom field first; its conversion maps
    // the whole source record to the function's result.
    let rc = record_conv(
        plan,
        vec![
            HostConv::Table(Box::new(entries_from_vec(vec![(
                derive_into::value::clone_value(&source),
                text("five"),
            )]))),
            HostConv::Identity,
            HostConv::Fixed(Box::new(num(0))),
        ],
        BindingList::Nil,
    );
    let out = eval_record_conversion(&rc, &source).unwrap();
    assert_eq!(
        out,
        record(vec![
            (named("summary"), text("five")),
            (named("plain"), num(5)),
            (named("fresh"), num(0)),
        ])
    );
}
