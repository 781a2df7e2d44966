//! The random number generator that the mutations draw from.

use rand::rngs::SmallRng;
use rand::Rng;
use vstd::prelude::*;

verus! {

/// `rand::rngs::SmallRng`, held opaque.
#[verifier::external_type_specification]
#[verifier::external_body]
pub struct ExSmallRng(SmallRng);

/// Draws an `i32` with `Rng::gen` from `rng`, advancing it. Nothing is stated
/// of the value: it is whatever the generator's state yields.
#[verifier::external_body]
pub(crate) fn random_i32(rng: &mut SmallRng) -> i32 {
    rng.gen()
}

/// Draws an `i64` with `Rng::gen` from `rng`, advancing it. Nothing is stated
/// of the value: it is whatever the generator's state yields.
#[verifier::external_body]
pub(crate) fn random_i64(rng: &mut SmallRng) -> i64 {
    rng.gen()
}

} // verus!
