//! The shape classifier.
//!
//! A field's declared type reaches the engine as an opaque token recording
//! only what the classifier reads: the name of its head segment, whether the
//! path consists of that single segment, and whether the segment carries a
//! generic argument list.  Classification is purely syntactic: a type is one
//! of the three recognized wrappers exactly when it is a single-segment name
//! spelled like the wrapper with one generic argument list, and plain
//! otherwise.  Aliases or local shadows with the same surface name are not
//! resolved; that is an accepted limitation of the design.

use vstd::prelude::*;

verus! {

/// What the classifier may read of a declared type.
#[derive(Debug, PartialEq, Eq)]
pub struct TypeToken {
    /// The name of the final path segment.
    pub head: String,
    /// Whether the path has exactly one segment.
    pub single_segment: bool,
    /// Whether the head segment carries a generic argument list.
    pub has_generics: bool,
}

impl Clone for TypeToken {
    fn clone(&self) -> (r: Self)
        ensures
            r == *self,
    {
        TypeToken {
            head: self.head.clone(),
            single_segment: self.single_segment,
            has_generics: self.has_generics,
        }
    }
}

/// The coarse category a declared type falls into.
#[derive(Clone, Copy, Debug, PartialEq, Eq, Structural)]
pub enum FieldShape {
    Plain,
    Optional,
    Sequence,
    AssociativeMap,
}

/// Whether the token is the named single-segment wrapper `name` applied to
/// generic arguments.
pub open spec fn spec_is_surrounding_type(t: TypeToken, name: Seq<char>) -> bool {
    t.single_segment && t.has_generics && t.head@ == name
}

/// Whether the token is the single-segment wrapper `name` applied to generic
/// arguments.
pub fn is_surrounding_type(t: &TypeToken, name: &String) -> (r: bool)
    ensures
        r == spec_is_surrounding_type(*t, name@),
{
    t.single_segment && t.has_generics && t.head == *name
}

pub open spec fn spec_classify(t: TypeToken) -> FieldShape {
    if spec_is_surrounding_type(t, "Option"@) {
        FieldShape::Optional
    } else if spec_is_surrounding_type(t, "Vec"@) {
        FieldShape::Sequence
    } else if spec_is_surrounding_type(t, "HashMap"@) {
        FieldShape::AssociativeMap
    } else {
        FieldShape::Plain
    }
}

/// Classifies a declared type's token as one of the four shapes.  The result
/// depends only on the token; classifying the same token again always yields
/// the same shape.
pub fn classify(t: &TypeToken) -> (r: FieldShape)
    ensures
        r == spec_classify(*t),
{
    let option_name: String = String::from_str("Option");
    let vec_name: String = String::from_str("Vec");
    let map_name: String = String::from_str("HashMap");
    if is_surrounding_type(t, &option_name) {
        FieldShape::Optional
    } else if is_surrounding_type(t, &vec_name) {
        FieldShape::Sequence
    } else if is_surrounding_type(t, &map_name) {
        FieldShape::AssociativeMap
    } else {
        FieldShape::Plain
    }
}

/// Shape classification is stable: tokens that agree on everything the
/// classifier reads are classified alike, so classifying a token twice can
/// never give two different shapes.
pub proof fn lemma_classify_stable(a: TypeToken, b: TypeToken)
    requires
        a.head@ == b.head@,
        a.single_segment == b.single_segment,
        a.has_generics == b.has_generics,
    ensures
        spec_classify(a) == spec_classify(b),
{
}

} // verus!
