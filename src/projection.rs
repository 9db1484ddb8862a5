//! The tag projection: a match from each value of a payload-bearing sum type
//! to the same-named variant of its companion tag type.
use vstd::prelude::*;
use crate::attr::{companion, get_primitive_name};
use crate::decl::{all_unit, any_discriminant, has_discriminant, is_simple, Body, Decl, DeriveError, Variant};
use crate::pattern::{pattern_for, pattern_matches, variant_pattern, Pattern, Value};

verus! {

/// One arm of the projection: `pattern => Tag::target`.
#[derive(Clone, Debug)]
pub struct Arm {
    pub pattern: Pattern,
    pub target: String,
}

/// The projection emitted for a type: its tag type, and the arms of the match
/// in `get_primitive_enum`, in declaration order.
#[derive(Clone, Debug)]
pub struct ProjectionImpl {
    pub owner: String,
    pub tag_type: String,
    pub arms: Vec<Arm>,
}

/// The arm emitted for variant `v` of type `owner`.
pub open spec fn arm_for(owner: Seq<char>, v: Variant, a: Arm) -> bool {
    pattern_for(owner, v, a.pattern) && a.target@ == v.name@
}

/// `p` is the projection of type `owner` with variants `vs` onto `tag`: one
/// arm per variant, in declaration order.
pub open spec fn projects(owner: Seq<char>, vs: Seq<Variant>, tag: Seq<char>, p: ProjectionImpl) -> bool {
    &&& p.owner@ == owner
    &&& p.tag_type@ == tag
    &&& p.arms@.len() == vs.len()
    &&& forall|i: int| 0 <= i < vs.len() ==> arm_for(owner, vs[i], #[trigger] p.arms@[i])
}

/// What the projection deriver does with a declaration.
pub open spec fn projection_result(d: Decl, r: Result<ProjectionImpl, DeriveError>) -> bool {
    match d.body {
        Body::Other => r == Err::<ProjectionImpl, DeriveError>(DeriveError::NotASumType),
        Body::Enum(vs) => if all_unit(vs@) {
            r == Err::<ProjectionImpl, DeriveError>(DeriveError::DisallowedShape)
        } else {
            match companion(d.attrs@) {
                Err(e) => r == Err::<ProjectionImpl, DeriveError>(e),
                Ok(tag) => if any_discriminant(vs@) {
                    r == Err::<ProjectionImpl, DeriveError>(DeriveError::UnsupportedVariantFeature)
                } else {
                    r matches Ok(p) && projects(d.name@, vs@, tag, p)
                },
            }
        },
    }
}

/// The target of the first arm at or after position `k` that matches `v`.
pub open spec fn first_match(arms: Seq<Arm>, v: Value, k: int) -> Option<Seq<char>>
    decreases arms.len() - k,
{
    if k < 0 || k >= arms.len() {
        None
    } else if pattern_matches(arms[k].pattern, v) {
        Some(arms[k].target@)
    } else {
        first_match(arms, v, k + 1)
    }
}

/// Derives the tag projection of a sum type that carries a payload in at
/// least one variant, onto the type named by its `primitive` attribute.
pub fn derive_primitive_from_enum(d: &Decl) -> (r: Result<ProjectionImpl, DeriveError>)
    ensures
        projection_result(*d, r),
{
    match &d.body {
        Body::Other => Err(DeriveError::NotASumType),
        Body::Enum(vs) => {
            if is_simple(vs) {
                return Err(DeriveError::DisallowedShape);
            }
            let tag = match get_primitive_name(&d.attrs) {
                Ok(t) => t,
                Err(e) => {
                    return Err(e);
                },
            };
            if has_discriminant(vs) {
                return Err(DeriveError::UnsupportedVariantFeature);
            }
            let mut arms: Vec<Arm> = Vec::new();
            let mut i: usize = 0;
            while i < vs.len()
                invariant
                    i <= vs.len(),
                    arms@.len() == i,
                    forall|j: int| 0 <= j < i ==> arm_for(d.name@, vs@[j], #[trigger] arms@[j]),
                decreases vs.len() - i,
            {
                let pattern = variant_pattern(&d.name, &vs[i]);
                arms.push(Arm { pattern, target: vs[i].name.clone() });
                i += 1;
            }
            Ok(ProjectionImpl { owner: d.name.clone(), tag_type: tag, arms })
        },
    }
}

impl ProjectionImpl {
    /// What the emitted `get_primitive_enum` returns for `v`: the variant of
    /// the tag type named by the first arm that matches, if any does.
    pub fn get_primitive_enum(&self, v: &Value) -> (r: Option<String>)
        ensures
            match first_match(self.arms@, *v, 0) {
                Some(t) => r matches Some(s) && s@ == t,
                None => r is None,
            },
    {
        let mut k: usize = 0;
        while k < self.arms.len()
            invariant
                k <= self.arms.len(),
                first_match(self.arms@, *v, 0) == first_match(self.arms@, *v, k as int),
            decreases self.arms.len() - k,
        {
            if self.arms[k].pattern.matches(v) {
                return Some(self.arms[k].target.clone());
            }
            k += 1;
        }
        None
    }

    /// What the emitted `primitive_name` returns: the tag type's name.
    pub fn primitive_name(&self) -> (r: &str)
        ensures
            r@ == self.tag_type@,
    {
        self.tag_type.as_str()
    }
}

} // verus!
