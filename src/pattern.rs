//! Match patterns that bind a variant without binding its payload, and the
//! values of a sum type that they are matched against.
use vstd::prelude::*;
use crate::decl::{names_view, normal, shape_is_empty, Shape, ShapeV, Variant};

verus! {

/// The left side of a match arm: `Type::V`, `Type::V(_, _)` or
/// `Type::V { x: _, y: _ }`, by the shape of `fields`.
#[derive(Clone, Debug)]
pub struct Pattern {
    pub owner: String,
    pub variant: String,
    pub fields: Shape,
}

/// One named field of a value, with its value written out.
#[derive(Clone, Debug)]
pub struct Field {
    pub name: String,
    pub value: String,
}

/// The payload of a value, each item written out.
#[derive(Clone, Debug)]
pub enum Payload {
    Unit,
    Unnamed(Vec<String>),
    Named(Vec<Field>),
}

/// A value of a sum type: its variant and its payload.
#[derive(Clone, Debug)]
pub struct Value {
    pub variant: String,
    pub payload: Payload,
}

pub open spec fn field_names(fs: Seq<Field>) -> Seq<Seq<char>> {
    fs.map_values(|f: Field| f.name@)
}

/// The shape of a payload.
pub open spec fn payload_shape(p: Payload) -> ShapeV {
    match p {
        Payload::Unit => ShapeV::Unit,
        Payload::Unnamed(items) => ShapeV::Unnamed(items@.len()),
        Payload::Named(fs) => ShapeV::Named(field_names(fs@)),
    }
}

/// A pattern matches a value of its variant whose payload it destructures.
pub open spec fn pattern_matches(p: Pattern, v: Value) -> bool {
    p.variant@ == v.variant@ && normal(p.fields@) == normal(payload_shape(v.payload))
}

/// `v` is a value of the sum type with variants `vs`: it is of the variant
/// at position `i`, with a payload of that variant's shape.
pub open spec fn value_of_variant(vs: Seq<Variant>, i: int, v: Value) -> bool {
    0 <= i < vs.len() && vs[i].name@ == v.variant@ && vs[i].shape@ == payload_shape(v.payload)
}

/// The pattern that the emitter writes for variant `v` of type `owner`.
pub open spec fn pattern_for(owner: Seq<char>, v: Variant, p: Pattern) -> bool {
    p.owner@ == owner && p.variant@ == v.name@ && p.fields@ == normal(v.shape@)
}

fn copy_names(names: &Vec<String>) -> (r: Vec<String>)
    ensures
        names_view(r@) == names_view(names@),
{
    let mut out: Vec<String> = Vec::new();
    let mut i: usize = 0;
    while i < names.len()
        invariant
            i <= names.len(),
            out@.len() == i,
            forall|j: int| 0 <= j < i ==> (#[trigger] out@[j])@ == names@[j]@,
        decreases names.len() - i,
    {
        out.push(names[i].clone());
        i += 1;
    }
    assert(names_view(out@) =~= names_view(names@));
    out
}

/// Emits the pattern for one variant of type `owner`: wildcards for a
/// positional payload, one `field: _` per named field, nothing for an empty
/// payload.
pub fn variant_pattern(owner: &String, v: &Variant) -> (r: Pattern)
    ensures
        pattern_for(owner@, *v, r),
{
    let fields = if v.shape.is_empty() {
        Shape::Unit
    } else {
        match &v.shape {
            Shape::Unit => Shape::Unit,
            Shape::Unnamed(n) => Shape::Unnamed(*n),
            Shape::Named(names) => Shape::Named(copy_names(names)),
        }
    };
    Pattern { owner: owner.clone(), variant: v.name.clone(), fields }
}

fn same_names(names: &Vec<String>, fs: &Vec<Field>) -> (r: bool)
    ensures
        r == (names_view(names@) == field_names(fs@)),
{
    if names.len() != fs.len() {
        assert(names_view(names@).len() != field_names(fs@).len());
        return false;
    }
    let mut i: usize = 0;
    while i < names.len()
        invariant
            i <= names.len(),
            names.len() == fs.len(),
            forall|j: int| 0 <= j < i ==> (#[trigger] names@[j])@ == fs@[j].name@,
        decreases names.len() - i,
    {
        if !names[i].eq(&fs[i].name) {
            assert(names_view(names@)[i as int] != field_names(fs@)[i as int]);
            return false;
        }
        i += 1;
    }
    assert(names_view(names@) =~= field_names(fs@));
    true
}

fn payload_is_empty(p: &Payload) -> (r: bool)
    ensures
        r == shape_is_empty(payload_shape(*p)),
{
    match p {
        Payload::Unit => true,
        Payload::Unnamed(items) => items.len() == 0,
        Payload::Named(fs) => fs.len() == 0,
    }
}

impl Pattern {
    /// Whether this pattern matches the value.
    pub fn matches(&self, v: &Value) -> (r: bool)
        ensures
            r == pattern_matches(*self, *v),
    {
        if !self.variant.eq(&v.variant) {
            return false;
        }
        let pe = self.fields.is_empty();
        let ve = payload_is_empty(&v.payload);
        if pe || ve {
            return pe && ve;
        }
        match (&self.fields, &v.payload) {
            (Shape::Unnamed(n), Payload::Unnamed(items)) => *n == items.len(),
            (Shape::Named(names), Payload::Named(fs)) => same_names(names, fs),
            _ => false,
        }
    }
}

} // verus!
