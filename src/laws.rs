//! What the emitted code does, proved of every declaration that the derivers
//! accept.
use vstd::prelude::*;
use crate::codec::{codec_result, decode_from, position_from, tag_eq, try_decode, CodecImpl};
use crate::decl::{Body, Decl, Variant};
use crate::pattern::{pattern_matches, value_of_variant, Value};
use crate::projection::{first_match, projection_result, Arm, ProjectionImpl};
use crate::runtime::EnumFromU8Error;

verus! {

/// No two variants share a name.
pub open spec fn names_distinct(vs: Seq<Variant>) -> bool {
    forall|j: int, k: int| 0 <= j < vs.len() && 0 <= k < vs.len() && j != k
        ==> (#[trigger] vs[j]).name@ != (#[trigger] vs[k]).name@
}

/// The variants of a declaration; empty for one that is not a sum type.
pub open spec fn variants_of(d: Decl) -> Seq<Variant> {
    match d.body {
        Body::Enum(vs) => vs@,
        Body::Other => Seq::empty(),
    }
}

proof fn lemma_first_match_is(arms: Seq<Arm>, v: Value, k: int, i: int, t: Seq<char>)
    requires
        0 <= k <= i < arms.len(),
        pattern_matches(arms[i].pattern, v),
        forall|j: int| k <= j < arms.len() && pattern_matches(#[trigger] arms[j].pattern, v)
            ==> arms[j].target@ == t,
    ensures
        first_match(arms, v, k) == Some(t),
    decreases i - k,
{
    if k < i && !pattern_matches(arms[k].pattern, v) {
        lemma_first_match_is(arms, v, k + 1, i, t);
    }
}

proof fn lemma_decode_from(n: int, u: u8, k: int)
    requires
        0 <= k <= n,
    ensures
        k <= u as int && (u as int) < n ==> decode_from(n, u, k) == Some(u as int),
        (u as int) >= n ==> decode_from(n, u, k) is None,
    decreases n - k,
{
    if k < n && !tag_eq(k, u) {
        lemma_decode_from(n, u, k + 1);
    }
}

proof fn lemma_position_from(names: Seq<String>, vs: Seq<Variant>, k: int, i: int)
    requires
        names.len() == vs.len(),
        forall|j: int| 0 <= j < vs.len() ==> (#[trigger] names[j])@ == vs[j].name@,
        names_distinct(vs),
        0 <= k <= i < vs.len(),
    ensures
        position_from(names, vs[i].name@, k) == Some(i),
    decreases i - k,
{
    if k < i {
        assert(vs[k].name@ != vs[i].name@);
        lemma_position_from(names, vs, k + 1, i);
    }
}

/// The projection sends every value to the companion variant that has the
/// name of the value's own variant, whatever its payload.
pub proof fn lemma_projection_names_variant(d: Decl, p: ProjectionImpl, i: int, v: Value)
    requires
        projection_result(d, Ok(p)),
        value_of_variant(variants_of(d), i, v),
    ensures
        first_match(p.arms@, v, 0) == Some(variants_of(d)[i].name@),
{
    let vs = variants_of(d);
    assert(pattern_matches(p.arms@[i].pattern, v));
    assert forall|j: int| 0 <= j < p.arms@.len() && pattern_matches(#[trigger] p.arms@[j].pattern, v)
        implies p.arms@[j].target@ == vs[i].name@ by {
        assert(p.arms@[j].target@ == vs[j].name@);
    }
    lemma_first_match_is(p.arms@, v, 0, i, vs[i].name@);
}

/// Every variant of a codec equals its tag byte, and both conversions from
/// that byte give the variant back.
pub proof fn lemma_codec_decodes_tag_byte(d: Decl, c: CodecImpl, i: int)
    requires
        codec_result(d, Ok(c)),
        0 <= i < variants_of(d).len(),
    ensures
        tag_eq(i, i as u8),
        try_decode(c, i as u8) == Ok::<usize, EnumFromU8Error>(i as usize),
        decode_from(c.variants@.len() as int, i as u8, 0) == Some(i),
{
    lemma_decode_from(c.variants@.len() as int, i as u8, 0);
}

/// A byte that is the tag byte of no variant is refused with the error.
pub proof fn lemma_codec_refuses_unknown_byte(d: Decl, c: CodecImpl, u: u8)
    requires
        codec_result(d, Ok(c)),
        forall|i: int| 0 <= i < variants_of(d).len() ==> !tag_eq(i, u),
    ensures
        try_decode(c, u) == Err::<usize, EnumFromU8Error>(EnumFromU8Error),
{
    let n = c.variants@.len() as int;
    if (u as int) < n {
        assert(tag_eq(u as int, u));
    }
    lemma_decode_from(n, u, 0);
}

/// Converting a variant to its byte and back with `try_from` gives the
/// variant.
pub proof fn lemma_codec_round_trip(d: Decl, c: CodecImpl, i: int)
    requires
        codec_result(d, Ok(c)),
        0 <= i < variants_of(d).len(),
    ensures
        (i as u8) as int == i,
        try_decode(c, i as u8) == Ok::<usize, EnumFromU8Error>(i as usize),
{
    lemma_decode_from(c.variants@.len() as int, i as u8, 0);
}

/// For a type projected onto a companion tag type that has the same variant
/// names in the same order, the tag byte of a value's projection is the
/// position of the value's variant, and decoding it gives that position.
pub proof fn lemma_projection_agrees_with_codec(
    dc: Decl,
    p: ProjectionImpl,
    dt: Decl,
    c: CodecImpl,
    i: int,
    v: Value,
)
    requires
        projection_result(dc, Ok(p)),
        codec_result(dt, Ok(c)),
        p.tag_type@ == dt.name@,
        variants_of(dt).len() == variants_of(dc).len(),
        forall|j: int| 0 <= j < variants_of(dt).len()
            ==> (#[trigger] variants_of(dt)[j]).name@ == variants_of(dc)[j].name@,
        names_distinct(variants_of(dt)),
        value_of_variant(variants_of(dc), i, v),
    ensures
        first_match(p.arms@, v, 0) matches Some(t) && position_from(c.variants@, t, 0) == Some(i),
        try_decode(c, i as u8) == Ok::<usize, EnumFromU8Error>(i as usize),
{
    lemma_projection_names_variant(dc, p, i, v);
    let vt = variants_of(dt);
    assert(vt[i].name@ == variants_of(dc)[i].name@);
    lemma_position_from(c.variants@, vt, 0, i);
    lemma_decode_from(c.variants@.len() as int, i as u8, 0);
}

} // verus!
