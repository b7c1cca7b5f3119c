//! Trusted boundary to the `rand` crate: each session owns a small
//! generator built from seed bytes its caller drew.

use vstd::prelude::*;

use rand::rngs::SmallRng;
use rand::Rng;
use rand::SeedableRng;

verus! {

#[verifier::external_type_specification]
#[verifier::external_body]
pub struct ExSmallRng(SmallRng);

/// Relies on rand's `SmallRng::from_seed`: builds a generator from the
/// given seed bytes by plain arithmetic (an all-zero seed is remapped), and
/// cannot fail. Nothing is assumed about the generator's state.
#[verifier::external_body]
pub(crate) fn rng_from_seed(seed: [u8; 32]) -> SmallRng {
    SmallRng::from_seed(seed)
}

/// Relies on rand's `Rng::gen` for `[u8; 20]` (the `Standard` distribution
/// fills the array with generator output). Nothing is assumed about the
/// bytes that come back.
#[verifier::external_body]
pub(crate) fn fill_peer_id_bytes(rng: &mut SmallRng) -> [u8; 20] {
    rng.gen()
}

} // verus!
