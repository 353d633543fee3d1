//! The random source of the simulation: bracket-lib's generator, used through
//! the items below.
use vstd::prelude::*;

use bracket_lib::prelude::RandomNumberGenerator;

verus! {

#[verifier::external_type_specification]
#[verifier::external_body]
pub struct ExRandomNumberGenerator(RandomNumberGenerator);

/// Relies on RandomNumberGenerator::new: a generator seeded from the
/// operating system's entropy. Nothing is promised of its state.
pub assume_specification[ RandomNumberGenerator::new ]() -> RandomNumberGenerator;

/// Relies on RandomNumberGenerator::seeded: a generator whose sequence is
/// fixed by the seed. Nothing is promised of its state.
pub assume_specification[ RandomNumberGenerator::seeded ](seed: u64) -> RandomNumberGenerator;

/// Relies on RandomNumberGenerator::range (rand's `gen_range(lo..hi)`): a
/// value in `[lo, hi)`. It panics on an empty range, which `requires` leaves out.
#[verifier::external_body]
pub(crate) fn random_in_range(rng: &mut RandomNumberGenerator, lo: i32, hi: i32) -> (r: i32)
    requires
        lo < hi,
    ensures
        lo <= r < hi,
{
    rng.range(lo, hi)
}

} // verus!
