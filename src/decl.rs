//! The declaration that a deriver reads: a type name, its attributes and its
//! body, with the variants of a sum type in declaration order.
use vstd::prelude::*;

verus! {

/// The payload of a variant, or of a match pattern over it.
#[derive(Clone, Debug)]
pub enum Shape {
    /// No payload: `V`.
    Unit,
    /// A positional payload of the given arity: `V(_, _)`.
    Unnamed(usize),
    /// A payload with named fields, in declaration order: `V { x: _ }`.
    Named(Vec<String>),
}

/// Mathematical model of a [`Shape`].
pub ghost enum ShapeV {
    Unit,
    Unnamed(nat),
    Named(Seq<Seq<char>>),
}

pub open spec fn names_view(v: Seq<String>) -> Seq<Seq<char>> {
    v.map_values(|s: String| s@)
}

impl View for Shape {
    type V = ShapeV;

    open spec fn view(&self) -> ShapeV {
        match self {
            Shape::Unit => ShapeV::Unit,
            Shape::Unnamed(n) => ShapeV::Unnamed(*n as nat),
            Shape::Named(fields) => ShapeV::Named(names_view(fields@)),
        }
    }
}

/// A shape carries no payload: unit, or an empty tuple or field list.
pub open spec fn shape_is_empty(s: ShapeV) -> bool {
    match s {
        ShapeV::Unit => true,
        ShapeV::Unnamed(n) => n == 0,
        ShapeV::Named(fields) => fields.len() == 0,
    }
}

/// A shape with an empty payload written as unit; others unchanged.
pub open spec fn normal(s: ShapeV) -> ShapeV {
    if shape_is_empty(s) {
        ShapeV::Unit
    } else {
        s
    }
}

/// One variant of a sum type.
#[derive(Clone, Debug)]
pub struct Variant {
    pub name: String,
    pub shape: Shape,
    /// Whether the variant declares an explicit discriminant (`V = 3`).
    pub discriminant: bool,
}

/// One token of an attribute's argument list.
#[derive(Clone, Debug)]
pub enum Token {
    Ident(String),
    Punct(char),
    Literal(String),
    /// A delimited group, whatever it holds.
    Group,
}

/// An attribute on the declaration: its path segments, and its argument
/// tokens when it is written as a list (`#[path(...)]`), `None` otherwise.
#[derive(Clone, Debug)]
pub struct Attr {
    pub path: Vec<String>,
    pub args: Option<Vec<Token>>,
}

/// The body of a declaration.
#[derive(Clone, Debug)]
pub enum Body {
    /// A sum type, with its variants in declaration order.
    Enum(Vec<Variant>),
    /// A struct, a union or anything else that is not a sum type.
    Other,
}

/// A type declaration handed to a deriver.
#[derive(Clone, Debug)]
pub struct Decl {
    pub name: String,
    pub attrs: Vec<Attr>,
    pub body: Body,
}

/// Why a deriver rejected its input.
#[derive(Clone, Copy, Debug, PartialEq, Eq, Structural)]
pub enum DeriveError {
    /// The declaration is not a sum type.
    NotASumType,
    /// The sum type has payloads where none are allowed, or none where some
    /// are required, or more variants than an 8-bit tag can tell apart.
    DisallowedShape,
    /// No `primitive(...)` attribute names the companion tag type.
    MissingCompanionAttribute,
    /// The `primitive(...)` attribute does not hold a single identifier.
    MalformedCompanionAttribute,
    /// A variant declares an explicit discriminant.
    UnsupportedVariantFeature,
}

/// Every variant is payload-free.
pub open spec fn all_unit(vs: Seq<Variant>) -> bool {
    forall|i: int| 0 <= i < vs.len() ==> shape_is_empty(#[trigger] vs[i].shape@)
}

/// Some variant declares an explicit discriminant.
pub open spec fn any_discriminant(vs: Seq<Variant>) -> bool {
    exists|i: int| 0 <= i < vs.len() && #[trigger] vs[i].discriminant
}

impl Shape {
    /// Whether this shape carries no payload.
    pub fn is_empty(&self) -> (r: bool)
        ensures
            r == shape_is_empty(self@),
    {
        match self {
            Shape::Unit => true,
            Shape::Unnamed(n) => *n == 0,
            Shape::Named(fields) => fields.len() == 0,
        }
    }
}

/// Whether every variant of a sum type is payload-free.
pub fn is_simple(vs: &Vec<Variant>) -> (r: bool)
    ensures
        r == all_unit(vs@),
{
    let mut i: usize = 0;
    while i < vs.len()
        invariant
            i <= vs.len(),
            forall|j: int| 0 <= j < i ==> shape_is_empty(#[trigger] vs@[j].shape@),
        decreases vs.len() - i,
    {
        if !vs[i].shape.is_empty() {
            return false;
        }
        i += 1;
    }
    true
}

/// Whether some variant declares an explicit discriminant.
pub fn has_discriminant(vs: &Vec<Variant>) -> (r: bool)
    ensures
        r == any_discriminant(vs@),
{
    let mut i: usize = 0;
    while i < vs.len()
        invariant
            i <= vs.len(),
            forall|j: int| 0 <= j < i ==> !(#[trigger] vs@[j].discriminant),
        decreases vs.len() - i,
    {
        if vs[i].discriminant {
            return true;
        }
        i += 1;
    }
    false
}

} // verus!
