//! The byte codec of a payload-free sum type laid out with an 8-bit tag: the
//! variant at position `i` of the declaration has tag byte `i`.
use vstd::prelude::*;
use crate::decl::{all_unit, any_discriminant, has_discriminant, is_simple, Body, Decl, DeriveError, Variant};
use crate::runtime::EnumFromU8Error;

verus! {

/// The most variants that an 8-bit tag tells apart.
pub const MAX_VARIANTS: usize = 256;

/// The codec emitted for a type: its name and its variants in declaration
/// order, one match arm each.
#[derive(Clone, Debug)]
pub struct CodecImpl {
    pub owner: String,
    pub variants: Vec<String>,
}

impl CodecImpl {
    /// Every variant has a tag byte.
    pub open spec fn wf(&self) -> bool {
        self.variants@.len() <= MAX_VARIANTS
    }
}

/// `c` is the codec of type `owner` with variants `vs`.
pub open spec fn encodes(owner: Seq<char>, vs: Seq<Variant>, c: CodecImpl) -> bool {
    &&& c.owner@ == owner
    &&& c.variants@.len() == vs.len()
    &&& forall|i: int| 0 <= i < vs.len() ==> (#[trigger] c.variants@[i])@ == vs[i].name@
}

/// What the codec deriver does with a declaration.
pub open spec fn codec_result(d: Decl, r: Result<CodecImpl, DeriveError>) -> bool {
    match d.body {
        Body::Other => r == Err::<CodecImpl, DeriveError>(DeriveError::NotASumType),
        Body::Enum(vs) => if !all_unit(vs@) || vs@.len() > MAX_VARIANTS {
            r == Err::<CodecImpl, DeriveError>(DeriveError::DisallowedShape)
        } else if any_discriminant(vs@) {
            r == Err::<CodecImpl, DeriveError>(DeriveError::UnsupportedVariantFeature)
        } else {
            r matches Ok(c) && encodes(d.name@, vs@, c)
        },
    }
}

/// The first position at or after `k` whose variant is named `name`.
pub open spec fn position_from(names: Seq<String>, name: Seq<char>, k: int) -> Option<int>
    decreases names.len() - k,
{
    if k < 0 || k >= names.len() {
        None
    } else if names[k]@ == name {
        Some(k)
    } else {
        position_from(names, name, k + 1)
    }
}

/// The emitted `==` between the variant at position `i` and the byte `u`:
/// the variant's tag byte is its position.
pub open spec fn tag_eq(i: int, u: u8) -> bool {
    i == u as int
}

/// The position of the first arm at or after `k`, among `n`, whose variant
/// equals `u`: the arm that the emitted conversions take.
pub open spec fn decode_from(n: int, u: u8, k: int) -> Option<int>
    decreases n - k,
{
    if k < 0 || k >= n {
        None
    } else if tag_eq(k, u) {
        Some(k)
    } else {
        decode_from(n, u, k + 1)
    }
}

/// What the emitted `try_from` returns for `u`.
pub open spec fn try_decode(c: CodecImpl, u: u8) -> Result<usize, EnumFromU8Error> {
    match decode_from(c.variants@.len() as int, u, 0) {
        Some(i) => Ok(i as usize),
        None => Err(EnumFromU8Error),
    }
}

/// Derives the byte codec of a sum type whose variants carry no payload.
pub fn derive_from_u8(d: &Decl) -> (r: Result<CodecImpl, DeriveError>)
    ensures
        codec_result(*d, r),
        r matches Ok(c) ==> c.wf(),
{
    match &d.body {
        Body::Other => Err(DeriveError::NotASumType),
        Body::Enum(vs) => {
            if !is_simple(vs) || vs.len() > MAX_VARIANTS {
                return Err(DeriveError::DisallowedShape);
            }
            if has_discriminant(vs) {
                return Err(DeriveError::UnsupportedVariantFeature);
            }
            let mut variants: Vec<String> = Vec::new();
            let mut i: usize = 0;
            while i < vs.len()
                invariant
                    i <= vs.len(),
                    variants@.len() == i,
                    forall|j: int| 0 <= j < i ==> (#[trigger] variants@[j])@ == vs@[j].name@,
                decreases vs.len() - i,
            {
                variants.push(vs[i].name.clone());
                i += 1;
            }
            Ok(CodecImpl { owner: d.name.clone(), variants })
        },
    }
}

impl CodecImpl {
    /// What the emitted `==` between the variant at position `i` and `u`
    /// returns: whether `u` is that variant's tag byte.
    pub fn eq_u8(&self, i: usize, u: u8) -> (r: bool)
        requires
            self.wf(),
            i < self.variants@.len(),
        ensures
            r == tag_eq(i as int, u),
    {
        (i as u8) == u
    }

    /// What the emitted `try_from` returns for `u`: the position of the first
    /// variant whose tag byte is `u`, or the error when there is none.
    pub fn try_from(&self, u: u8) -> (r: Result<usize, EnumFromU8Error>)
        requires
            self.wf(),
        ensures
            r == try_decode(*self, u),
    {
        let mut i: usize = 0;
        while i < self.variants.len()
            invariant
                self.wf(),
                i <= self.variants@.len(),
                decode_from(self.variants@.len() as int, u, 0)
                    == decode_from(self.variants@.len() as int, u, i as int),
            decreases self.variants.len() - i,
        {
            if self.eq_u8(i, u) {
                return Ok(i);
            }
            i += 1;
        }
        Err(EnumFromU8Error)
    }

    /// What the emitted `from_unchecked` returns for the tag byte `u` of a
    /// declared variant: that variant's position.
    pub fn from_unchecked(&self, u: u8) -> (r: usize)
        requires
            self.wf(),
            (u as int) < self.variants@.len(),
        ensures
            decode_from(self.variants@.len() as int, u, 0) == Some(r as int),
    {
        let mut i: usize = 0;
        while i < self.variants.len()
            invariant
                self.wf(),
                (u as int) < self.variants@.len(),
                i <= u as usize,
                decode_from(self.variants@.len() as int, u, 0)
                    == decode_from(self.variants@.len() as int, u, i as int),
            decreases self.variants.len() - i,
        {
            if self.eq_u8(i, u) {
                return i;
            }
            i += 1;
        }
        i
    }

    /// What `V as u8` is for the first variant named `variant`, if any.
    pub fn byte_of(&self, variant: &String) -> (r: Option<u8>)
        requires
            self.wf(),
        ensures
            match position_from(self.variants@, variant@, 0) {
                Some(i) => r == Some(i as u8),
                None => r is None,
            },
    {
        let mut k: usize = 0;
        while k < self.variants.len()
            invariant
                self.wf(),
                k <= self.variants@.len(),
                position_from(self.variants@, variant@, 0) == position_from(self.variants@, variant@, k as int),
            decreases self.variants.len() - k,
        {
            if self.variants[k].eq(variant) {
                return Some(k as u8);
            }
            k += 1;
        }
        None
    }

    /// What the emitted `name` returns: the type's name.
    pub fn name(&self) -> (r: &str)
        ensures
            r@ == self.owner@,
    {
        self.owner.as_str()
    }
}

} // verus!
