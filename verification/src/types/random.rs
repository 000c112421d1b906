//! The pseudo random number generator that picks message identifiers.
use rand_chacha::rand_core::{RngCore, SeedableRng};
use rand_chacha::ChaChaRng;
use vstd::prelude::*;

verus! {

#[verifier::external_type_specification]
#[verifier::external_body]
pub struct ExChaChaRng(ChaChaRng);

/// Calls `ChaChaRng::seed_from_u64` with seed zero.
#[verifier::external_body]
fn outside_seeded_rng() -> ChaChaRng {
    ChaChaRng::seed_from_u64(0)
}

/// Calls `RngCore::next_u64` of `ChaChaRng`; nothing is promised of the number.
#[verifier::external_body]
fn outside_next_u64(rng: &mut ChaChaRng) -> u64 {
    rng.next_u64()
}

/// The channel's pseudo random number generator.
pub struct Random {
    rng: ChaChaRng,
}

impl Random {
    pub fn new() -> Random {
        Random { rng: outside_seeded_rng() }
    }

    /// The next number of the stream.
    pub fn next(&mut self) -> u64 {
        outside_next_u64(&mut self.rng)
    }
}

} // verus!
