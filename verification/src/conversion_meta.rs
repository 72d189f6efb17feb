//! Type-level conversion declarations.
//!
//! A type may declare up to four conversion directions, each naming the type
//! on the other side and optionally allowing unmapped target fields to be
//! filled with default values.  Each declaration is turned into one
//! [`ConversionMeta`], the seed of one independent conversion plan.

use vstd::prelude::*;

verus! {

/// The four supported conversion directions.
#[derive(Clone, Copy, Debug, PartialEq, Eq, Structural)]
pub enum ConversionMethod {
    Into,
    TryInto,
    From,
    TryFrom,
}

impl ConversionMethod {
    /// True for the directions that convert from the other type into the
    /// declaring type, so that the declaring type's fields describe the
    /// target side.
    pub fn is_from(&self) -> (r: bool)
        ensures
            r == self.spec_is_from(),
    {
        match self {
            ConversionMethod::From | ConversionMethod::TryFrom => true,
            _ => false,
        }
    }

    /// True for the directions whose generated conversion returns a result
    /// rather than a plain value.
    pub fn is_falliable(&self) -> (r: bool)
        ensures
            r == self.spec_is_falliable(),
    {
        match self {
            ConversionMethod::TryInto | ConversionMethod::TryFrom => true,
            _ => false,
        }
    }

    pub open spec fn spec_is_from(self) -> bool {
        self is From || self is TryFrom
    }

    pub open spec fn spec_is_falliable(self) -> bool {
        self is TryInto || self is TryFrom
    }
}

/// One resolved type-level conversion declaration: which direction, between
/// which two type paths, and whether unmapped target fields may fall back to
/// their default values.
#[derive(Clone, Debug, PartialEq, Eq)]
pub struct ConversionMeta {
    pub source_name: String,
    pub target_name: String,
    pub method: ConversionMethod,
    /// Whether the generated target construction may request default values
    /// for target fields that no field plan produces.
    pub default_allowed: bool,
}

impl ConversionMeta {
    /// The path of the type on the other side of the declaration: the source
    /// for a `from`-like direction, the target otherwise.
    pub fn other_type(&self) -> (r: String)
        ensures
            r == self.spec_other_type(),
    {
        if self.method.is_from() {
            self.source_name.clone()
        } else {
            self.target_name.clone()
        }
    }

    pub open spec fn spec_other_type(self) -> String {
        if self.method.spec_is_from() {
            self.source_name
        } else {
            self.target_name
        }
    }
}

/// The raw arguments of one type-level conversion attribute: the path of the
/// other type and the optional default-fill flag.
#[derive(Clone, Debug, PartialEq, Eq)]
pub struct ConvAttrs {
    pub path: String,
    pub default: bool,
}

/// The conversion declarations attached to one type definition, at most one
/// per direction, together with the name of the declaring type.
#[derive(Clone, Debug, PartialEq, Eq)]
pub struct TypeDirectives {
    pub ident: String,
    pub into: Option<ConvAttrs>,
    pub try_into: Option<ConvAttrs>,
    pub from: Option<ConvAttrs>,
    pub try_from: Option<ConvAttrs>,
}

/// The single declaration for `method`, as a [`ConversionMeta`], if present.
pub open spec fn spec_meta_for(t: TypeDirectives, method: ConversionMethod) -> Seq<ConversionMeta> {
    let attr = match method {
        ConversionMethod::Into => t.into,
        ConversionMethod::TryInto => t.try_into,
        ConversionMethod::From => t.from,
        ConversionMethod::TryFrom => t.try_from,
    };
    match attr {
        Some(a) => seq![
            ConversionMeta {
                source_name: if method.spec_is_from() {
                    a.path
                } else {
                    t.ident
                },
                target_name: if method.spec_is_from() {
                    t.ident
                } else {
                    a.path
                },
                method: method,
                default_allowed: a.default,
            },
        ],
        None => Seq::empty(),
    }
}

/// All conversion declarations of a type, in the fixed order `into`,
/// `try_into`, `from`, `try_from`.
pub open spec fn spec_extract_conversions(t: TypeDirectives) -> Seq<ConversionMeta> {
    spec_meta_for(t, ConversionMethod::Into) + spec_meta_for(t, ConversionMethod::TryInto)
        + spec_meta_for(t, ConversionMethod::From) + spec_meta_for(t, ConversionMethod::TryFrom)
}

/// Turns the attribute declarations of a type into the list of conversions to
/// plan, one per declared direction, with source and target oriented by the
/// direction.
pub fn extract_conversions(t: &TypeDirectives) -> (r: Vec<ConversionMeta>)
    ensures
        r@ == spec_extract_conversions(*t),
{
    let mut result: Vec<ConversionMeta> = Vec::new();
    if let Some(attr) = &t.into {
        result.push(ConversionMeta {
            source_name: t.ident.clone(),
            target_name: attr.path.clone(),
            method: ConversionMethod::Into,
            default_allowed: attr.default,
        });
    }
    if let Some(attr) = &t.try_into {
        result.push(ConversionMeta {
            source_name: t.ident.clone(),
            target_name: attr.path.clone(),
            method: ConversionMethod::TryInto,
            default_allowed: attr.default,
        });
    }
    if let Some(attr) = &t.from {
        result.push(ConversionMeta {
            source_name: attr.path.clone(),
            target_name: t.ident.clone(),
            method: ConversionMethod::From,
            default_allowed: attr.default,
        });
    }
    if let Some(attr) = &t.try_from {
        result.push(ConversionMeta {
            source_name: attr.path.clone(),
            target_name: t.ident.clone(),
            method: ConversionMethod::TryFrom,
            default_allowed: attr.default,
        });
    }
    proof {
        assert(result@ =~= spec_extract_conversions(*t));
    }
    result
}

} // verus!
