//! A model of the values that generated conversions move around.
//!
//! The engine itself never sees a runtime value: it plans, and the emitted
//! code runs elsewhere.  To state and check what a plan *means*, this module
//! models those runtime values as a small inductive datatype: scalars, text,
//! optional values, ordered collections, associative collections, records,
//! sum values and named single-field wrappers.  The evaluator interprets a
//! finished plan over these values.

use vstd::prelude::*;

use crate::idents::{ident_like, lemma_ident_like_equivalence, FieldIdentifier};

verus! {

/// One modeled runtime value.
#[derive(Debug, PartialEq, Eq)]
pub enum Value {
    Truth(bool),
    Number(u64),
    Text(String),
    /// An optional value: present with contents, or absent.
    Maybe(Option<Box<Value>>),
    /// An ordered collection.
    Items(Box<ItemList>),
    /// An associative collection, as an ordered list of key/value entries.
    Entries(Box<EntryList>),
    /// A record value: one binding per field.
    Record(Box<BindingList>),
    /// A sum value: the active variant's name and its field bindings.
    Variant(String, Box<BindingList>),
    /// A value of a named wrapper type holding one inner value.
    Wrapped(String, Box<Value>),
}

#[derive(Debug, PartialEq, Eq)]
pub enum ItemList {
    Nil,
    Cons(Box<Value>, Box<ItemList>),
}

#[derive(Debug, PartialEq, Eq)]
pub enum EntryList {
    Nil,
    Cons(Box<Value>, Box<Value>, Box<EntryList>),
}

#[derive(Debug, PartialEq, Eq)]
pub enum BindingList {
    Nil,
    Cons(FieldIdentifier, Box<Value>, Box<BindingList>),
}

/// Value equivalence: structural equality with text compared by contents.
pub open spec fn value_like(a: Value, b: Value) -> bool
    decreases a,
{
    match a {
        Value::Truth(x) => b matches Value::Truth(y) && x == y,
        Value::Number(x) => b matches Value::Number(y) && x == y,
        Value::Text(x) => b matches Value::Text(y) && x@ == y@,
        Value::Maybe(x) => match b {
            Value::Maybe(y) => match x {
                Some(xv) => y matches Some(yv) && value_like(*xv, *yv),
                None => y is None,
            },
            _ => false,
        },
        Value::Items(x) => b matches Value::Items(y) && items_like(*x, *y),
        Value::Entries(x) => b matches Value::Entries(y) && entries_like(*x, *y),
        Value::Record(x) => b matches Value::Record(y) && bindings_like(*x, *y),
        Value::Variant(nx, x) => b matches Value::Variant(ny, y) && nx@ == ny@ && bindings_like(
            *x,
            *y,
        ),
        Value::Wrapped(nx, x) => b matches Value::Wrapped(ny, y) && nx@ == ny@ && value_like(
            *x,
            *y,
        ),
    }
}

pub open spec fn items_like(a: ItemList, b: ItemList) -> bool
    decreases a,
{
    match a {
        ItemList::Nil => b is Nil,
        ItemList::Cons(x, rest) => b matches ItemList::Cons(y, brest) && value_like(*x, *y)
            && items_like(*rest, *brest),
    }
}

pub open spec fn entries_like(a: EntryList, b: EntryList) -> bool
    decreases a,
{
    match a {
        EntryList::Nil => b is Nil,
        EntryList::Cons(k, v, rest) => b matches EntryList::Cons(bk, bv, brest) && value_like(
            *k,
            *bk,
        ) && value_like(*v, *bv) && entries_like(*rest, *brest),
    }
}

pub open spec fn bindings_like(a: BindingList, b: BindingList) -> bool
    decreases a,
{
    match a {
        BindingList::Nil => b is Nil,
        BindingList::Cons(k, v, rest) => b matches BindingList::Cons(bk, bv, brest) && ident_like(
            k,
            bk,
        ) && value_like(*v, *bv) && bindings_like(*rest, *brest),
    }
}

/// Decides value equivalence.
pub fn value_eq(a: &Value, b: &Value) -> (r: bool)
    ensures
        r == value_like(*a, *b),
    decreases *a,
{
    match a {
        Value::Truth(x) => match b {
            Value::Truth(y) => *x == *y,
            _ => false,
        },
        Value::Number(x) => match b {
            Value::Number(y) => *x == *y,
            _ => false,
        },
        Value::Text(x) => match b {
            Value::Text(y) => *x == *y,
            _ => false,
        },
        Value::Maybe(x) => match b {
            Value::Maybe(y) => match x {
                Some(xv) => match y {
                    Some(yv) => value_eq(xv, yv),
                    None => false,
                },
                None => y.is_none(),
            },
            _ => false,
        },
        Value::Items(x) => match b {
            Value::Items(y) => items_eq(x, y),
            _ => false,
        },
        Value::Entries(x) => match b {
            Value::Entries(y) => entries_eq(x, y),
            _ => false,
        },
        Value::Record(x) => match b {
            Value::Record(y) => bindings_eq(x, y),
            _ => false,
        },
        Value::Variant(nx, x) => match b {
            Value::Variant(ny, y) => *nx == *ny && bindings_eq(x, y),
            _ => false,
        },
        Value::Wrapped(nx, x) => match b {
            Value::Wrapped(ny, y) => *nx == *ny && value_eq(x, y),
            _ => false,
        },
    }
}

pub fn items_eq(a: &ItemList, b: &ItemList) -> (r: bool)
    ensures
        r == items_like(*a, *b),
    decreases *a,
{
    match a {
        ItemList::Nil => match b {
            ItemList::Nil => true,
            _ => false,
        },
        ItemList::Cons(x, rest) => match b {
            ItemList::Cons(y, brest) => value_eq(x, y) && items_eq(rest, brest),
            _ => false,
        },
    }
}

pub fn entries_eq(a: &EntryList, b: &EntryList) -> (r: bool)
    ensures
        r == entries_like(*a, *b),
    decreases *a,
{
    match a {
        EntryList::Nil => match b {
            EntryList::Nil => true,
            _ => false,
        },
        EntryList::Cons(k, v, rest) => match b {
            EntryList::Cons(bk, bv, brest) => value_eq(k, bk) && value_eq(v, bv) && entries_eq(
                rest,
                brest,
            ),
            _ => false,
        },
    }
}

pub fn bindings_eq(a: &BindingList, b: &BindingList) -> (r: bool)
    ensures
        r == bindings_like(*a, *b),
    decreases *a,
{
    match a {
        BindingList::Nil => match b {
            BindingList::Nil => true,
            _ => false,
        },
        BindingList::Cons(k, v, rest) => match b {
            BindingList::Cons(bk, bv, brest) => k.matches(bk) && value_eq(v, bv) && bindings_eq(
                rest,
                brest,
            ),
            _ => false,
        },
    }
}

/// Clones a value; the clone equals the original.
pub fn clone_value(v: &Value) -> (r: Value)
    ensures
        r == *v,
    decreases *v,
{
    match v {
        Value::Truth(x) => Value::Truth(*x),
        Value::Number(x) => Value::Number(*x),
        Value::Text(x) => Value::Text(x.clone()),
        Value::Maybe(x) => Value::Maybe(
            match x {
                Some(inner) => Some(Box::new(clone_value(inner))),
                None => None,
            },
        ),
        Value::Items(l) => Value::Items(Box::new(clone_items(l))),
        Value::Entries(l) => Value::Entries(Box::new(clone_entries(l))),
        Value::Record(l) => Value::Record(Box::new(clone_bindings(l))),
        Value::Variant(n, l) => Value::Variant(n.clone(), Box::new(clone_bindings(l))),
        Value::Wrapped(n, inner) => Value::Wrapped(n.clone(), Box::new(clone_value(inner))),
    }
}

pub fn clone_items(l: &ItemList) -> (r: ItemList)
    ensures
        r == *l,
    decreases *l,
{
    match l {
        ItemList::Nil => ItemList::Nil,
        ItemList::Cons(v, rest) => ItemList::Cons(
            Box::new(clone_value(v)),
            Box::new(clone_items(rest)),
        ),
    }
}

pub fn clone_entries(l: &EntryList) -> (r: EntryList)
    ensures
        r == *l,
    decreases *l,
{
    match l {
        EntryList::Nil => EntryList::Nil,
        EntryList::Cons(k, v, rest) => EntryList::Cons(
            Box::new(clone_value(k)),
            Box::new(clone_value(v)),
            Box::new(clone_entries(rest)),
        ),
    }
}

pub fn clone_bindings(l: &BindingList) -> (r: BindingList)
    ensures
        r == *l,
    decreases *l,
{
    match l {
        BindingList::Nil => BindingList::Nil,
        BindingList::Cons(k, v, rest) => BindingList::Cons(
            k.clone(),
            Box::new(clone_value(v)),
            Box::new(clone_bindings(rest)),
        ),
    }
}

/// The first binding for an identifier, if any.
pub open spec fn spec_binding_lookup(l: BindingList, k: FieldIdentifier) -> Option<Value>
    decreases l,
{
    match l {
        BindingList::Nil => None,
        BindingList::Cons(id, v, rest) => if ident_like(id, k) {
            Some(*v)
        } else {
            spec_binding_lookup(*rest, k)
        },
    }
}

/// Looks up the first binding for an identifier.
pub fn binding_lookup<'a>(l: &'a BindingList, k: &FieldIdentifier) -> (r: Option<&'a Value>)
    ensures
        match r {
            Some(v) => spec_binding_lookup(*l, *k) == Some(*v),
            None => spec_binding_lookup(*l, *k) is None,
        },
    decreases *l,
{
    match l {
        BindingList::Nil => None,
        BindingList::Cons(id, v, rest) => if id.matches(k) {
            Some(v)
        } else {
            binding_lookup(rest, k)
        },
    }
}

/// Lookup goes by identifier matching, so identifiers that match find the
/// same binding.
pub proof fn lemma_lookup_respects_ident_like(
    l: BindingList,
    k1: FieldIdentifier,
    k2: FieldIdentifier,
)
    requires
        ident_like(k1, k2),
    ensures
        spec_binding_lookup(l, k1) == spec_binding_lookup(l, k2),
    decreases l,
{
    match l {
        BindingList::Nil => {},
        BindingList::Cons(id, _, rest) => {
            lemma_ident_like_equivalence(id, k1, k2);
            lemma_ident_like_equivalence(k1, k2, k1);
            lemma_ident_like_equivalence(id, k2, k1);
            lemma_lookup_respects_ident_like(*rest, k1, k2);
        },
    }
}

/// The sequence of values in an ordered collection.
pub open spec fn spec_item_seq(l: ItemList) -> Seq<Value>
    decreases l,
{
    match l {
        ItemList::Nil => Seq::empty(),
        ItemList::Cons(v, rest) => seq![*v] + spec_item_seq(*rest),
    }
}

/// The sequence of key/value entries in an associative collection.
pub open spec fn spec_entry_seq(l: EntryList) -> Seq<(Value, Value)>
    decreases l,
{
    match l {
        EntryList::Nil => Seq::empty(),
        EntryList::Cons(k, v, rest) => seq![(*k, *v)] + spec_entry_seq(*rest),
    }
}

/// The sequence of bindings in a record value.
pub open spec fn spec_binding_seq(l: BindingList) -> Seq<(FieldIdentifier, Value)>
    decreases l,
{
    match l {
        BindingList::Nil => Seq::empty(),
        BindingList::Cons(k, v, rest) => seq![(k, *v)] + spec_binding_seq(*rest),
    }
}

/// Builds an ordered collection value from a vector of values.
pub fn items_from_vec(mut vs: Vec<Value>) -> (l: ItemList)
    ensures
        spec_item_seq(l) == vs@,
{
    let ghost orig = vs@;
    let mut l = ItemList::Nil;
    proof {
        assert(orig.skip(orig.len() as int) =~= Seq::<Value>::empty());
        assert(orig.take(orig.len() as int) =~= orig);
    }
    while vs.len() > 0
        invariant
            vs@.len() <= orig.len(),
            vs@ == orig.take(vs@.len() as int),
            spec_item_seq(l) == orig.skip(vs@.len() as int),
        decreases vs@.len(),
    {
        let v = vs.pop().unwrap();
        proof {
            assert(orig.take(vs@.len() as int + 1).drop_last() =~= orig.take(vs@.len() as int));
            assert(orig.take(vs@.len() as int + 1).last() == orig[vs@.len() as int]);
        }
        l = ItemList::Cons(Box::new(v), Box::new(l));
        proof {
            assert(spec_item_seq(l) =~= orig.skip(vs@.len() as int));
        }
    }
    proof {
        assert(orig.take(0) =~= Seq::<Value>::empty());
        assert(orig.skip(0) =~= orig);
    }
    l
}

/// Builds an associative collection from a vector of key/value pairs.
pub fn entries_from_vec(mut vs: Vec<(Value, Value)>) -> (l: EntryList)
    ensures
        spec_entry_seq(l) == vs@,
{
    let ghost orig = vs@;
    let mut l = EntryList::Nil;
    proof {
        assert(orig.skip(orig.len() as int) =~= Seq::<(Value, Value)>::empty());
        assert(orig.take(orig.len() as int) =~= orig);
    }
    while vs.len() > 0
        invariant
            vs@.len() <= orig.len(),
            vs@ == orig.take(vs@.len() as int),
            spec_entry_seq(l) == orig.skip(vs@.len() as int),
        decreases vs@.len(),
    {
        let (k, v) = vs.pop().unwrap();
        proof {
            assert(orig.take(vs@.len() as int + 1).drop_last() =~= orig.take(vs@.len() as int));
            assert(orig.take(vs@.len() as int + 1).last() == orig[vs@.len() as int]);
        }
        l = EntryList::Cons(Box::new(k), Box::new(v), Box::new(l));
        proof {
            assert(spec_entry_seq(l) =~= orig.skip(vs@.len() as int));
        }
    }
    proof {
        assert(orig.take(0) =~= Seq::<(Value, Value)>::empty());
        assert(orig.skip(0) =~= orig);
    }
    l
}

/// Builds a binding list from a vector of identifier/value pairs.
pub fn bindings_from_vec(mut vs: Vec<(FieldIdentifier, Value)>) -> (l: BindingList)
    ensures
        spec_binding_seq(l) == vs@,
{
    let ghost orig = vs@;
    let mut l = BindingList::Nil;
    proof {
        assert(orig.skip(orig.len() as int) =~= Seq::<(FieldIdentifier, Value)>::empty());
        assert(orig.take(orig.len() as int) =~= orig);
    }
    while vs.len() > 0
        invariant
            vs@.len() <= orig.len(),
            vs@ == orig.take(vs@.len() as int),
            spec_binding_seq(l) == orig.skip(vs@.len() as int),
        decreases vs@.len(),
    {
        let (k, v) = vs.pop().unwrap();
        proof {
            assert(orig.take(vs@.len() as int + 1).drop_last() =~= orig.take(vs@.len() as int));
            assert(orig.take(vs@.len() as int + 1).last() == orig[vs@.len() as int]);
        }
        l = BindingList::Cons(k, Box::new(v), Box::new(l));
        proof {
            assert(spec_binding_seq(l) =~= orig.skip(vs@.len() as int));
        }
    }
    proof {
        assert(orig.take(0) =~= Seq::<(FieldIdentifier, Value)>::empty());
        assert(orig.skip(0) =~= orig);
    }
    l
}

} // verus!
