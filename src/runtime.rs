//! The capabilities that emitted code implements, and the error that the
//! fallible conversion returns.
use vstd::prelude::*;

verus! {

/// A sum type whose values project onto a payload-free companion tag type.
pub trait PrimitiveFromEnum {
    /// The companion tag type.
    type PrimitiveEnum: TryFrom<u8> + UnsafeFromU8;

    /// The tag of this value: the companion variant of the same name.
    fn get_primitive_enum(&self) -> Self::PrimitiveEnum;

    /// The companion tag type's name.
    fn primitive_name() -> &'static str;
}

/// A payload-free sum type laid out with an 8-bit tag.
pub trait UnsafeFromU8: PartialEq<u8> + Sized {
    /// The variant whose tag byte is `u`. The caller must pass the tag byte
    /// of a declared variant; any other value aborts.
    fn from_unchecked(u: u8) -> Self;

    /// The type's name.
    fn name() -> &'static str;
}

/// A byte that is the tag of no variant.
#[derive(Clone, Copy, Debug, PartialEq, Eq, Structural)]
pub struct EnumFromU8Error;

impl EnumFromU8Error {
    /// The error's description.
    pub fn message(&self) -> (r: &'static str)
        ensures
            r@ == "EnumFromU8Error"@,
    {
        proof {
            reveal_strlit("EnumFromU8Error");
        }
        "EnumFromU8Error"
    }
}

} // verus!
