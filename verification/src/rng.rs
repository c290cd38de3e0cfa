//! The source of the election jitter: the standard generator of the `rand`
//! crate. Nothing here is proved; the contracts say what `rand` documents.

use rand::{Rng, SeedableRng};
use vstd::prelude::*;

verus! {

/// `rand::rngs::StdRng`, the generator that a replica draws its election
/// timeouts from. Its state is not modelled.
#[verifier::external_type_specification]
#[verifier::external_body]
pub struct ExStdRng(rand::rngs::StdRng);

/// Calls `StdRng::seed_from_u64`: a generator whose draws are fixed by `seed`.
/// Nothing is claimed of the generator.
#[verifier::external_body]
pub(crate) fn seeded_rng(seed: u64) -> (rng: rand::rngs::StdRng) {
    rand::rngs::StdRng::seed_from_u64(seed)
}

/// Calls `StdRng::from_rng` on `OsRng`: a generator seeded by the operating
/// system, or nothing where the operating system gives an error in place of
/// a seed. Nothing is claimed of which of the two comes back, nor of the
/// generator.
#[verifier::external_body]
pub(crate) fn entropy_rng() -> (rng: Option<rand::rngs::StdRng>) {
    match rand::rngs::StdRng::from_rng(rand::rngs::OsRng) {
        Ok(rng) => Some(rng),
        Err(_) => None,
    }
}

/// Calls `Rng::gen_range` on the half-open range `low..high`. The call
/// panics on an empty range, which the precondition rules out; what it
/// returns lies in the range, and nothing more is claimed of it.
#[verifier::external_body]
pub(crate) fn draw_in_range(rng: &mut rand::rngs::StdRng, low: usize, high: usize) -> (drawn: usize)
    requires
        low < high,
    ensures
        low <= drawn < high,
{
    rng.gen_range(low..high)
}

} // verus!
