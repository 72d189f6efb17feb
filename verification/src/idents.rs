//! Field identifiers: a field is addressed by its name in a named record or
//! variant, and by its position in a positional one.

use vstd::prelude::*;

verus! {

#[derive(Debug, PartialEq, Eq)]
pub enum FieldIdentifier {
    Named(String),
    Unnamed(usize),
}

/// Identifier equality up to string contents: two named identifiers match
/// when they spell the same name, two positional ones when they carry the
/// same index.
pub open spec fn ident_like(a: FieldIdentifier, b: FieldIdentifier) -> bool {
    match a {
        FieldIdentifier::Named(x) => match b {
            FieldIdentifier::Named(y) => x@ == y@,
            FieldIdentifier::Unnamed(_) => false,
        },
        FieldIdentifier::Unnamed(i) => match b {
            FieldIdentifier::Named(_) => false,
            FieldIdentifier::Unnamed(j) => i == j,
        },
    }
}

impl FieldIdentifier {
    /// Whether this identifier addresses the same field as `other`.
    pub fn matches(&self, other: &FieldIdentifier) -> (r: bool)
        ensures
            r == ident_like(*self, *other),
    {
        match self {
            FieldIdentifier::Named(x) => match other {
                FieldIdentifier::Named(y) => *x == *y,
                FieldIdentifier::Unnamed(_) => false,
            },
            FieldIdentifier::Unnamed(i) => match other {
                FieldIdentifier::Named(_) => false,
                FieldIdentifier::Unnamed(j) => *i == *j,
            },
        }
    }
}

impl Clone for FieldIdentifier {
    fn clone(&self) -> (r: Self)
        ensures
            r == *self,
    {
        match self {
            FieldIdentifier::Named(x) => FieldIdentifier::Named(x.clone()),
            FieldIdentifier::Unnamed(i) => FieldIdentifier::Unnamed(*i),
        }
    }
}

/// Identifier matching is reflexive, symmetric and transitive.
pub proof fn lemma_ident_like_equivalence(a: FieldIdentifier, b: FieldIdentifier, c: FieldIdentifier)
    ensures
        ident_like(a, a),
        ident_like(a, b) == ident_like(b, a),
        ident_like(a, b) && ident_like(b, c) ==> ident_like(a, c),
{
}

} // verus!
