//! The value-level meaning of a conversion plan.
//!
//! A finished plan is translated into host-language code whose inner
//! conversions — `From` impls, default values, custom functions — belong to
//! the host program, not to the engine.  The evaluator makes the plan's
//! meaning precise anyway: the caller describes each host conversion as a
//! [`HostConv`] (an identity, a wrap into or out of a named wrapper type, a
//! fixed value, or a finite conversion table), and the evaluator applies a
//! plan to a modeled source value exactly as the generated code would,
//! reporting a fault wherever the generated code would fail the conversion,
//! panic, or not compile.

use vstd::prelude::*;

use crate::conversion_enum::ConversionVariant;
use crate::conversion_field::{
    spec_emission, ConvertibleField, FieldConversionMethod, FieldEmission,
};
use crate::idents::FieldIdentifier;
use crate::value::{
    binding_lookup, clone_value, spec_binding_lookup, value_eq, value_like, BindingList, EntryList,
    ItemList, Value,
};

verus! {

/// Why an evaluated conversion produced no value.
#[derive(Clone, Copy, Debug, PartialEq, Eq, Structural)]
pub enum EvalFault {
    /// An unwrap met an absent value: the fallible generated code fails, the
    /// infallible generated code panics.
    AbsentValue,
    /// A value's shape does not fit the conversion applied to it; the
    /// generated code would not have compiled.
    ShapeMismatch,
    /// A host conversion rejected the value: a fallible inner conversion
    /// failed.
    HostRejected,
    /// The source record lacks a field the plan reads.
    MissingField,
    /// The source sum value's variant has no plan, as happens for a skipped
    /// variant still present on the source side.
    UnmatchedVariant,
    /// The host model handed to the evaluator does not line up with the
    /// plan.
    HostModelMismatch,
}

/// One host-side inner conversion, as the caller models it.
#[derive(Debug, PartialEq, Eq)]
pub enum HostConv {
    /// The conversion keeps the value as it is.
    Identity,
    /// The conversion wraps the value in the named wrapper type.
    Wrap(String),
    /// The conversion takes the contents out of the named wrapper type.
    Unwrap(String),
    /// The conversion ignores its input and produces a fixed value; this is
    /// how a target field's default value is modeled.
    Fixed(Box<Value>),
    /// A finite conversion: the table maps each accepted input to its
    /// result, and every other input is rejected.
    Table(Box<EntryList>),
}

/// The host conversions attached to one field plan: `conv` for the field's
/// values, and `key_conv` for the keys of an associative field.
#[derive(Debug, PartialEq, Eq)]
pub struct FieldHost {
    pub conv: HostConv,
    pub key_conv: HostConv,
}

/// One host model per field plan, in plan order.
#[derive(Debug, PartialEq, Eq)]
pub enum HostList {
    Nil,
    Cons(FieldHost, Box<HostList>),
}

/// The first table entry whose key is equivalent to `k`, if any.
pub open spec fn spec_assoc(l: EntryList, k: Value) -> Option<Value>
    decreases l,
{
    match l {
        EntryList::Nil => None,
        EntryList::Cons(key, val, rest) => if value_like(*key, k) {
            Some(*val)
        } else {
            spec_assoc(*rest, k)
        },
    }
}

/// What one host conversion makes of one value.
pub open spec fn spec_apply_conv(c: HostConv, v: Value) -> Result<Value, EvalFault> {
    match c {
        HostConv::Identity => Ok(v),
        HostConv::Wrap(name) => Ok(Value::Wrapped(name, Box::new(v))),
        HostConv::Unwrap(name) => match v {
            Value::Wrapped(n, inner) => if n@ == name@ {
                Ok(*inner)
            } else {
                Err(EvalFault::ShapeMismatch)
            },
            _ => Err(EvalFault::ShapeMismatch),
        },
        HostConv::Fixed(d) => Ok(*d),
        HostConv::Table(t) => match spec_assoc(*t, v) {
            Some(r) => Ok(r),
            None => Err(EvalFault::HostRejected),
        },
    }
}

/// The element-wise conversion of an ordered collection; the first rejected
/// element rejects the whole collection.
pub open spec fn spec_conv_items(c: HostConv, l: ItemList) -> Result<ItemList, EvalFault>
    decreases l,
{
    match l {
        ItemList::Nil => Ok(ItemList::Nil),
        ItemList::Cons(v, rest) => match spec_apply_conv(c, *v) {
            Err(e) => Err(e),
            Ok(hv) => match spec_conv_items(c, *rest) {
                Err(e) => Err(e),
                Ok(ht) => Ok(ItemList::Cons(Box::new(hv), Box::new(ht))),
            },
        },
    }
}

/// The key- and value-wise conversion of an associative collection.
pub open spec fn spec_conv_entries(kc: HostConv, vc: HostConv, l: EntryList) -> Result<
    EntryList,
    EvalFault,
>
    decreases l,
{
    match l {
        EntryList::Nil => Ok(EntryList::Nil),
        EntryList::Cons(k, v, rest) => match spec_apply_conv(kc, *k) {
            Err(e) => Err(e),
            Ok(hk) => match spec_apply_conv(vc, *v) {
                Err(e) => Err(e),
                Ok(hv) => match spec_conv_entries(kc, vc, *rest) {
                    Err(e) => Err(e),
                    Ok(ht) => Ok(EntryList::Cons(Box::new(hk), Box::new(hv), Box::new(ht))),
                },
            },
        },
    }
}

/// What a field's conversion method makes of the field's source value.
pub open spec fn spec_apply_method(
    m: FieldConversionMethod,
    fh: FieldHost,
    v: Value,
) -> Result<Value, EvalFault> {
    match m {
        FieldConversionMethod::Plain => spec_apply_conv(fh.conv, v),
        FieldConversionMethod::UnwrapOption => match v {
            Value::Maybe(o) => match o {
                Some(inner) => spec_apply_conv(fh.conv, *inner),
                None => Err(EvalFault::AbsentValue),
            },
            _ => Err(EvalFault::ShapeMismatch),
        },
        FieldConversionMethod::SomeOption => match spec_apply_conv(fh.conv, v) {
            Err(e) => Err(e),
            Ok(h) => Ok(Value::Maybe(Some(Box::new(h)))),
        },
        FieldConversionMethod::Optional => match v {
            Value::Maybe(o) => match o {
                Some(inner) => match spec_apply_conv(fh.conv, *inner) {
                    Err(e) => Err(e),
                    Ok(h) => Ok(Value::Maybe(Some(Box::new(h)))),
                },
                None => Ok(Value::Maybe(None)),
            },
            _ => Err(EvalFault::ShapeMismatch),
        },
        FieldConversionMethod::Sequence => match v {
            Value::Items(l) => match spec_conv_items(fh.conv, *l) {
                Err(e) => Err(e),
                Ok(h) => Ok(Value::Items(Box::new(h))),
            },
            _ => Err(EvalFault::ShapeMismatch),
        },
        FieldConversionMethod::AssociativeMap => match v {
            Value::Entries(l) => match spec_conv_entries(fh.key_conv, fh.conv, *l) {
                Err(e) => Err(e),
                Ok(h) => Ok(Value::Entries(Box::new(h))),
            },
            _ => Err(EvalFault::ShapeMismatch),
        },
    }
}

/// What one field plan contributes to the converted record: nothing for a
/// skipped field; the modeled default value for a defaulted field; the
/// custom function applied to the whole source value; or the field's source
/// value converted by its method.
pub open spec fn spec_eval_field(
    f: ConvertibleField,
    fh: FieldHost,
    source: BindingList,
    whole: Value,
) -> Result<Option<(FieldIdentifier, Value)>, EvalFault> {
    match spec_emission(f) {
        FieldEmission::Omitted => Ok(None),
        FieldEmission::DefaultValue => match fh.conv {
            HostConv::Fixed(d) => Ok(Some((f.target_name, *d))),
            _ => Err(EvalFault::HostModelMismatch),
        },
        FieldEmission::Custom(_) => match spec_apply_conv(fh.conv, whole) {
            Err(e) => Err(e),
            Ok(r) => Ok(Some((f.target_name, r))),
        },
        FieldEmission::Convert(m) => match spec_binding_lookup(source, f.source_name) {
            None => Err(EvalFault::MissingField),
            Some(v) => match spec_apply_method(m, fh, v) {
                Err(e) => Err(e),
                Ok(r) => Ok(Some((f.target_name, r))),
            },
        },
    }
}

/// The bindings an ordered field-plan list produces, or its first fault.
pub open spec fn spec_eval_fields(
    fields: Seq<ConvertibleField>,
    envs: HostList,
    source: BindingList,
    whole: Value,
) -> Result<BindingList, EvalFault>
    decreases fields.len(),
{
    if fields.len() == 0 {
        match envs {
            HostList::Nil => Ok(BindingList::Nil),
            _ => Err(EvalFault::HostModelMismatch),
        }
    } else {
        match envs {
            HostList::Nil => Err(EvalFault::HostModelMismatch),
            HostList::Cons(fh, rest) => match spec_eval_field(fields[0], fh, source, whole) {
                Err(e) => Err(e),
                Ok(head) => match spec_eval_fields(fields.drop_first(), *rest, source, whole) {
                    Err(e) => Err(e),
                    Ok(tail) => Ok(
                        match head {
                            Some((k, v)) => BindingList::Cons(k, Box::new(v), Box::new(tail)),
                            None => tail,
                        },
                    ),
                },
            },
        }
    }
}

/// The filler bindings whose fields the produced bindings do not already
/// carry, in filler order.
pub open spec fn spec_missing_from(filler: BindingList, produced: BindingList) -> BindingList
    decreases filler,
{
    match filler {
        BindingList::Nil => BindingList::Nil,
        BindingList::Cons(k, v, rest) => if spec_binding_lookup(produced, k) is Some {
            spec_missing_from(*rest, produced)
        } else {
            BindingList::Cons(k, v, Box::new(spec_missing_from(*rest, produced)))
        },
    }
}

pub open spec fn spec_bindings_concat(a: BindingList, b: BindingList) -> BindingList
    decreases a,
{
    match a {
        BindingList::Nil => b,
        BindingList::Cons(k, v, rest) => BindingList::Cons(
            k,
            v,
            Box::new(spec_bindings_concat(*rest, b)),
        ),
    }
}

/// A record conversion as the evaluator runs it: the plan's ordered field
/// list, the default-fill trailer, and the host model of every inner
/// conversion.
#[derive(Debug, PartialEq, Eq)]
pub struct RecordConv {
    pub fields: Vec<ConvertibleField>,
    pub envs: HostList,
    /// Whether unmapped target fields take their default values.
    pub default_fill: bool,
    /// The target type's default bindings, used when `default_fill` is set.
    pub filler: BindingList,
}

/// What the generated record conversion makes of a source record value: the
/// plan's bindings in plan order, then — under default-fill — the default
/// value of every target field the plan did not produce.
pub open spec fn spec_eval_record(rc: RecordConv, source: Value) -> Result<Value, EvalFault> {
    match source {
        Value::Record(b) => match spec_eval_fields(rc.fields@, rc.envs, *b, source) {
            Err(e) => Err(e),
            Ok(out) => Ok(
                Value::Record(
                    Box::new(
                        if rc.default_fill {
                            spec_bindings_concat(out, spec_missing_from(rc.filler, out))
                        } else {
                            out
                        },
                    ),
                ),
            ),
        },
        _ => Err(EvalFault::ShapeMismatch),
    }
}

/// A sum conversion as the evaluator runs it: one variant plan and one host
/// model per kept variant, in plan order.
#[derive(Debug, PartialEq, Eq)]
pub struct SumConv {
    pub variants: Vec<ConversionVariant>,
    pub envs: Vec<HostList>,
    pub default_fill: bool,
    pub filler: BindingList,
}

/// The first variant plan whose source name matches, with its host model.
pub open spec fn spec_pick_variant(
    variants: Seq<ConversionVariant>,
    envs: Seq<HostList>,
    name: Seq<char>,
) -> Result<(ConversionVariant, HostList), EvalFault>
    decreases variants.len(),
{
    if variants.len() == 0 {
        Err(EvalFault::UnmatchedVariant)
    } else if envs.len() == 0 {
        Err(EvalFault::HostModelMismatch)
    } else if variants[0]@.source_name == name {
        Ok((variants[0], envs[0]))
    } else {
        spec_pick_variant(variants.drop_first(), envs.drop_first(), name)
    }
}

/// What the generated sum conversion makes of a source sum value: the arm of
/// the matching variant plan runs over the variant's bindings; a source
/// variant without a plan faults, as the generated non-exhaustive match
/// would.
pub open spec fn spec_eval_sum(sc: SumConv, source: Value) -> Result<Value, EvalFault> {
    match source {
        Value::Variant(n, b) => match spec_pick_variant(sc.variants@, sc.envs@, n@) {
            Err(e) => Err(e),
            Ok((var, env)) => match spec_eval_fields(var.fields@, env, *b, source) {
                Err(e) => Err(e),
                Ok(out) => Ok(
                    Value::Variant(
                        var.target_name,
                        Box::new(
                            if sc.default_fill && var.named_variant {
                                spec_bindings_concat(out, spec_missing_from(sc.filler, out))
                            } else {
                                out
                            },
                        ),
                    ),
                ),
            },
        },
        _ => Err(EvalFault::ShapeMismatch),
    }
}

/// Looks a value up in a conversion table.
fn assoc_lookup(l: &EntryList, k: &Value) -> (r: Option<Value>)
    ensures
        r == spec_assoc(*l, *k),
    decreases *l,
{
    match l {
        EntryList::Nil => None,
        EntryList::Cons(key, val, rest) => if value_eq(key, k) {
            Some(clone_value(val))
        } else {
            assoc_lookup(rest, k)
        },
    }
}

/// Applies one modeled host conversion to a value.
pub fn apply_conv(c: &HostConv, v: &Value) -> (r: Result<Value, EvalFault>)
    ensures
        r == spec_apply_conv(*c, *v),
{
    match c {
        HostConv::Identity => Ok(clone_value(v)),
        HostConv::Wrap(name) => Ok(Value::Wrapped(name.clone(), Box::new(clone_value(v)))),
        HostConv::Unwrap(name) => match v {
            Value::Wrapped(n, inner) => if *n == *name {
                Ok(clone_value(inner))
            } else {
                Err(EvalFault::ShapeMismatch)
            },
            _ => Err(EvalFault::ShapeMismatch),
        },
        HostConv::Fixed(d) => Ok(clone_value(d)),
        HostConv::Table(t) => match assoc_lookup(t, v) {
            Some(r) => Ok(r),
            None => Err(EvalFault::HostRejected),
        },
    }
}

fn conv_items(c: &HostConv, l: &ItemList) -> (r: Result<ItemList, EvalFault>)
    ensures
        r == spec_conv_items(*c, *l),
    decreases *l,
{
    match l {
        ItemList::Nil => Ok(ItemList::Nil),
        ItemList::Cons(v, rest) => match apply_conv(c, v) {
            Err(e) => Err(e),
            Ok(hv) => match conv_items(c, rest) {
                Err(e) => Err(e),
                Ok(ht) => Ok(ItemList::Cons(Box::new(hv), Box::new(ht))),
            },
        },
    }
}

fn conv_entries(kc: &HostConv, vc: &HostConv, l: &EntryList) -> (r: Result<EntryList, EvalFault>)
    ensures
        r == spec_conv_entries(*kc, *vc, *l),
    decreases *l,
{
    match l {
        EntryList::Nil => Ok(EntryList::Nil),
        EntryList::Cons(k, v, rest) => match apply_conv(kc, k) {
            Err(e) => Err(e),
            Ok(hk) => match apply_conv(vc, v) {
                Err(e) => Err(e),
                Ok(hv) => match conv_entries(kc, vc, rest) {
                    Err(e) => Err(e),
                    Ok(ht) => Ok(EntryList::Cons(Box::new(hk), Box::new(hv), Box::new(ht))),
                },
            },
        },
    }
}

/// Applies a field's conversion method to the field's source value.
pub fn apply_method(m: FieldConversionMethod, fh: &FieldHost, v: &Value) -> (r: Result<
    Value,
    EvalFault,
>)
    ensures
        r == spec_apply_method(m, *fh, *v),
{
    match m {
        FieldConversionMethod::Plain => apply_conv(&fh.conv, v),
        FieldConversionMethod::UnwrapOption => match v {
            Value::Maybe(o) => match o {
                Some(inner) => apply_conv(&fh.conv, inner),
                None => Err(EvalFault::AbsentValue),
            },
            _ => Err(EvalFault::ShapeMismatch),
        },
        FieldConversionMethod::SomeOption => match apply_conv(&fh.conv, v) {
            Err(e) => Err(e),
            Ok(h) => Ok(Value::Maybe(Some(Box::new(h)))),
        },
        FieldConversionMethod::Optional => match v {
            Value::Maybe(o) => match o {
                Some(inner) => match apply_conv(&fh.conv, inner) {
                    Err(e) => Err(e),
                    Ok(h) => Ok(Value::Maybe(Some(Box::new(h)))),
                },
                None => Ok(Value::Maybe(None)),
            },
            _ => Err(EvalFault::ShapeMismatch),
        },
        FieldConversionMethod::Sequence => match v {
            Value::Items(l) => match conv_items(&fh.conv, l) {
                Err(e) => Err(e),
                Ok(h) => Ok(Value::Items(Box::new(h))),
            },
            _ => Err(EvalFault::ShapeMismatch),
        },
        FieldConversionMethod::AssociativeMap => match v {
            Value::Entries(l) => match conv_entries(&fh.key_conv, &fh.conv, l) {
                Err(e) => Err(e),
                Ok(h) => Ok(Value::Entries(Box::new(h))),
            },
            _ => Err(EvalFault::ShapeMismatch),
        },
    }
}

/// Evaluates one field plan against the source bindings.
fn eval_field(f: &ConvertibleField, fh: &FieldHost, source: &BindingList, whole: &Value) -> (r:
    Result<Option<(FieldIdentifier, Value)>, EvalFault>)
    ensures
        r == spec_eval_field(*f, *fh, *source, *whole),
{
    match crate::conversion_field::field_emission(f) {
        FieldEmission::Omitted => Ok(None),
        FieldEmission::DefaultValue => match &fh.conv {
            HostConv::Fixed(d) => Ok(Some((f.target_name.clone(), clone_value(d)))),
            _ => Err(EvalFault::HostModelMismatch),
        },
        FieldEmission::Custom(_) => match apply_conv(&fh.conv, whole) {
            Err(e) => Err(e),
            Ok(r) => Ok(Some((f.target_name.clone(), r))),
        },
        FieldEmission::Convert(m) => match binding_lookup(source, &f.source_name) {
            None => Err(EvalFault::MissingField),
            Some(v) => match apply_method(m, fh, v) {
                Err(e) => Err(e),
                Ok(r) => Ok(Some((f.target_name.clone(), r))),
            },
        },
    }
}

/// Evaluates the field plans from `idx` on.
fn eval_fields(
    fields: &Vec<ConvertibleField>,
    idx: usize,
    envs: &HostList,
    source: &BindingList,
    whole: &Value,
) -> (r: Result<BindingList, EvalFault>)
    requires
        idx <= fields@.len(),
    ensures
        r == spec_eval_fields(fields@.skip(idx as int), *envs, *source, *whole),
    decreases fields@.len() - idx,
{
    if idx == fields.len() {
        proof {
            assert(fields@.skip(idx as int) =~= Seq::<ConvertibleField>::empty());
        }
        match envs {
            HostList::Nil => Ok(BindingList::Nil),
            _ => Err(EvalFault::HostModelMismatch),
        }
    } else {
        proof {
            assert(fields@.skip(idx as int)[0] == fields@[idx as int]);
            assert(fields@.skip(idx as int).drop_first() =~= fields@.skip(idx as int + 1));
        }
        match envs {
            HostList::Nil => Err(EvalFault::HostModelMismatch),
            HostList::Cons(fh, rest) => match eval_field(&fields[idx], fh, source, whole) {
                Err(e) => Err(e),
                Ok(head) => match eval_fields(fields, idx + 1, rest, source, whole) {
                    Err(e) => Err(e),
                    Ok(tail) => Ok(
                        match head {
                            Some((k, v)) => BindingList::Cons(k, Box::new(v), Box::new(tail)),
                            None => tail,
                        },
                    ),
                },
            },
        }
    }
}

fn missing_from(filler: &BindingList, produced: &BindingList) -> (r: BindingList)
    ensures
        r == spec_missing_from(*filler, *produced),
    decreases *filler,
{
    match filler {
        BindingList::Nil => BindingList::Nil,
        BindingList::Cons(k, v, rest) => if binding_lookup(produced, k).is_some() {
            missing_from(rest, produced)
        } else {
            BindingList::Cons(
                k.clone(),
                Box::new(clone_value(v)),
                Box::new(missing_from(rest, produced)),
            )
        },
    }
}

fn bindings_concat(a: BindingList, b: BindingList) -> (r: BindingList)
    ensures
        r == spec_bindings_concat(a, b),
    decreases a,
{
    match a {
        BindingList::Nil => b,
        BindingList::Cons(k, v, rest) => BindingList::Cons(
            k,
            v,
            Box::new(bindings_concat(*rest, b)),
        ),
    }
}

/// Runs a record conversion plan over a modeled source record value.
pub fn eval_record_conversion(rc: &RecordConv, source: &Value) -> (r: Result<Value, EvalFault>)
    ensures
        r == spec_eval_record(*rc, *source),
{
    proof {
        assert(rc.fields@.skip(0) =~= rc.fields@);
    }
    match source {
        Value::Record(b) => match eval_fields(&rc.fields, 0, &rc.envs, b, source) {
            Err(e) => Err(e),
            Ok(out) => {
                let filled = if rc.default_fill {
                    let extra = missing_from(&rc.filler, &out);
                    bindings_concat(out, extra)
                } else {
                    out
                };
                Ok(Value::Record(Box::new(filled)))
            },
        },
        _ => Err(EvalFault::ShapeMismatch),
    }
}

/// Finds the variant plan for the source variant's name, from `idx` on.
fn pick_variant<'a>(
    variants: &'a Vec<ConversionVariant>,
    envs: &'a Vec<HostList>,
    idx: usize,
    name: &String,
) -> (r: Result<(&'a ConversionVariant, &'a HostList), EvalFault>)
    requires
        idx <= variants@.len(),
        idx <= envs@.len(),
    ensures
        match r {
            Ok(p) => spec_pick_variant(
                variants@.skip(idx as int),
                envs@.skip(idx as int),
                name@,
            ) == Ok::<_, EvalFault>((*p.0, *p.1)),
            Err(e) => spec_pick_variant(variants@.skip(idx as int), envs@.skip(idx as int), name@)
                == Err::<(ConversionVariant, HostList), _>(e),
        },
    decreases variants@.len() - idx,
{
    if idx == variants.len() {
        proof {
            assert(variants@.skip(idx as int) =~= Seq::<ConversionVariant>::empty());
        }
        Err(EvalFault::UnmatchedVariant)
    } else if idx == envs.len() {
        proof {
            assert(variants@.skip(idx as int)[0] == variants@[idx as int]);
            assert(envs@.skip(idx as int) =~= Seq::<HostList>::empty());
        }
        Err(EvalFault::HostModelMismatch)
    } else {
        proof {
            assert(variants@.skip(idx as int)[0] == variants@[idx as int]);
            assert(envs@.skip(idx as int)[0] == envs@[idx as int]);
            assert(variants@.skip(idx as int).drop_first() =~= variants@.skip(idx as int + 1));
            assert(envs@.skip(idx as int).drop_first() =~= envs@.skip(idx as int + 1));
        }
        if variants[idx].source_name == *name {
            Ok((&variants[idx], &envs[idx]))
        } else {
            pick_variant(variants, envs, idx + 1, name)
        }
    }
}

/// Runs a sum conversion plan over a modeled source sum value.
pub fn eval_sum_conversion(sc: &SumConv, source: &Value) -> (r: Result<Value, EvalFault>)
    ensures
        r == spec_eval_sum(*sc, *source),
{
    proof {
        assert(sc.variants@.skip(0) =~= sc.variants@);
        assert(sc.envs@.skip(0) =~= sc.envs@);
    }
    match source {
        Value::Variant(n, b) => match pick_variant(&sc.variants, &sc.envs, 0, n) {
            Err(e) => Err(e),
            Ok((var, env)) => {
                proof {
                    assert(var.fields@.skip(0) =~= var.fields@);
                }
                match eval_fields(&var.fields, 0, env, b, source) {
                    Err(e) => Err(e),
                    Ok(out) => {
                        let filled = if sc.default_fill && var.named_variant {
                            let extra = missing_from(&sc.filler, &out);
                            bindings_concat(out, extra)
                        } else {
                            out
                        };
                        Ok(Value::Variant(var.target_name.clone(), Box::new(filled)))
                    },
                }
            },
        },
        _ => Err(EvalFault::ShapeMismatch),
    }
}

proof fn lemma_concat_lookup(a: BindingList, b: BindingList, k: FieldIdentifier)
    ensures
        spec_binding_lookup(spec_bindings_concat(a, b), k) == match spec_binding_lookup(a, k) {
            Some(v) => Some(v),
            None => spec_binding_lookup(b, k),
        },
    decreases a,
{
    match a {
        BindingList::Nil => {},
        BindingList::Cons(_, _, rest) => {
            lemma_concat_lookup(*rest, b, k);
        },
    }
}

proof fn lemma_missing_lookup(filler: BindingList, produced: BindingList, k: FieldIdentifier)
    requires
        spec_binding_lookup(produced, k) is None,
    ensures
        spec_binding_lookup(spec_missing_from(filler, produced), k) == spec_binding_lookup(
            filler,
            k,
        ),
    decreases filler,
{
    match filler {
        BindingList::Nil => {},
        BindingList::Cons(fk, _, rest) => {
            if crate::idents::ident_like(fk, k) {
                crate::value::lemma_lookup_respects_ident_like(produced, fk, k);
            }
            lemma_missing_lookup(*rest, produced, k);
        },
    }
}

/// What default-filling means, field by field: a binding the plan produced
/// always wins, and a field the plan left unmapped takes exactly the
/// target's default binding for it.
pub proof fn lemma_default_fill_semantics(out: BindingList, filler: BindingList, k: FieldIdentifier)
    ensures
        ({
            let filled = spec_bindings_concat(out, spec_missing_from(filler, out));
            &&& spec_binding_lookup(out, k) is Some ==> spec_binding_lookup(filled, k)
                == spec_binding_lookup(out, k)
            &&& spec_binding_lookup(out, k) is None ==> spec_binding_lookup(filled, k)
                == spec_binding_lookup(filler, k)
        }),
{
    lemma_concat_lookup(out, spec_missing_from(filler, out), k);
    if spec_binding_lookup(out, k) is None {
        lemma_missing_lookup(filler, out, k);
    }
}

/// Unwrap symmetry.  For a field whose own side is optional and carries
/// `unwrap`, the method decision pairs the two directions: leaving the type
/// is an unwrap, entering it is a wrap.  Evaluated with an identity inner
/// conversion, a present optional value unwraps to its contents, and
/// wrapping those contents back rebuilds the original value: the round trip
/// holds exactly for present values, while an absent value faults the
/// unwrapping direction.
pub proof fn lemma_unwrap_symmetry(x: Value, fh: FieldHost)
    requires
        fh.conv == HostConv::Identity,
    ensures
        crate::conversion_field::spec_decide_method(
            crate::shape::FieldShape::Optional,
            false,
            true,
        ) == Ok::<_, crate::diagnostics::DiagnosticKind>(FieldConversionMethod::UnwrapOption),
        crate::conversion_field::spec_decide_method(crate::shape::FieldShape::Optional, true, true)
            == Ok::<_, crate::diagnostics::DiagnosticKind>(FieldConversionMethod::SomeOption),
        spec_apply_method(
            FieldConversionMethod::UnwrapOption,
            fh,
            Value::Maybe(Some(Box::new(x))),
        ) == Ok::<_, EvalFault>(x),
        spec_apply_method(FieldConversionMethod::SomeOption, fh, x) == Ok::<_, EvalFault>(
            Value::Maybe(Some(Box::new(x))),
        ),
        spec_apply_method(FieldConversionMethod::UnwrapOption, fh, Value::Maybe(None))
            == Err::<Value, _>(EvalFault::AbsentValue),
{
}

/// Unwrap symmetry with inner conversions: when the outgoing direction
/// wraps the unwrapped contents into a named wrapper and the incoming
/// direction unwraps that same wrapper, the round trip still rebuilds the
/// original present value.
pub proof fn lemma_unwrap_symmetry_with_conversion(
    x: Value,
    name: String,
    out_host: FieldHost,
    back_host: FieldHost,
)
    requires
        out_host.conv == HostConv::Wrap(name),
        back_host.conv == HostConv::Unwrap(name),
    ensures
        spec_apply_method(
            FieldConversionMethod::UnwrapOption,
            out_host,
            Value::Maybe(Some(Box::new(x))),
        ) == Ok::<_, EvalFault>(Value::Wrapped(name, Box::new(x))),
        spec_apply_method(
            FieldConversionMethod::SomeOption,
            back_host,
            Value::Wrapped(name, Box::new(x)),
        ) == Ok::<_, EvalFault>(Value::Maybe(Some(Box::new(x)))),
{
}

} // verus!
