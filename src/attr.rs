//! Reading the companion tag type's name from `#[primitive(Name)]`.
use vstd::prelude::*;
use crate::decl::{Attr, DeriveError, Token};

verus! {

/// The attribute's path is the single segment `primitive`.
pub open spec fn is_primitive_path(a: Attr) -> bool {
    a.path@.len() == 1 && a.path@[0]@ == "primitive"@
}

/// What the argument of a `primitive` attribute names: the identifier when
/// the argument is a list of exactly one identifier.
pub open spec fn companion_arg(a: Attr) -> Result<Seq<char>, DeriveError> {
    match a.args {
        Some(toks) => if toks@.len() == 1 && toks@[0] is Ident {
            Ok(toks@[0]->Ident_0@)
        } else {
            Err(DeriveError::MalformedCompanionAttribute)
        },
        None => Err(DeriveError::MalformedCompanionAttribute),
    }
}

/// The companion name given by the first `primitive` attribute at or after
/// position `i`.
pub open spec fn companion_from(attrs: Seq<Attr>, i: int) -> Result<Seq<char>, DeriveError>
    decreases attrs.len() - i,
{
    if i < 0 || i >= attrs.len() {
        Err(DeriveError::MissingCompanionAttribute)
    } else if is_primitive_path(attrs[i]) {
        companion_arg(attrs[i])
    } else {
        companion_from(attrs, i + 1)
    }
}

/// The companion tag type named by a list of attributes.
pub open spec fn companion(attrs: Seq<Attr>) -> Result<Seq<char>, DeriveError> {
    companion_from(attrs, 0)
}

fn is_primitive_attr(a: &Attr) -> (r: bool)
    ensures
        r == is_primitive_path(*a),
{
    if a.path.len() != 1 {
        return false;
    }
    let p: String = "primitive".to_owned();
    proof {
        reveal_strlit("primitive");
    }
    a.path[0].eq(&p)
}

/// Finds the companion tag type's name: the argument of the first attribute
/// whose path is `primitive`, which must be a single identifier.
pub fn get_primitive_name(attrs: &Vec<Attr>) -> (r: Result<String, DeriveError>)
    ensures
        match companion(attrs@) {
            Ok(name) => r matches Ok(s) && s@ == name,
            Err(e) => r == Err::<String, DeriveError>(e),
        },
{
    let mut i: usize = 0;
    while i < attrs.len()
        invariant
            i <= attrs.len(),
            companion(attrs@) == companion_from(attrs@, i as int),
        decreases attrs.len() - i,
    {
        if is_primitive_attr(&attrs[i]) {
            match &attrs[i].args {
                Some(toks) => {
                    if toks.len() == 1 {
                        match &toks[0] {
                            Token::Ident(name) => {
                                return Ok(name.clone());
                            },
                            _ => {},
                        }
                    }
                },
                None => {},
            }
            return Err(DeriveError::MalformedCompanionAttribute);
        }
        i += 1;
    }
    Err(DeriveError::MissingCompanionAttribute)
}

} // verus!
