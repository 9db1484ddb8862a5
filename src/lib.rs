//! Derivation engine for tag projections and byte codecs of sum types.
//!
//! A declaration of a sum type is described by [`decl::Decl`]. Two derivers
//! turn it into a description of the code to emit: [`projection`] maps each
//! value of a payload-bearing sum to its companion tag, and [`codec`] converts
//! a payload-free sum to and from `u8`. The emitted descriptions come with an
//! evaluator of the code they stand for, and [`laws`] proves how it behaves.
use vstd::prelude::*;

pub mod decl;
pub mod attr;
pub mod pattern;
pub mod projection;
pub mod codec;
pub mod runtime;
pub mod laws;

verus! {

} // verus!
