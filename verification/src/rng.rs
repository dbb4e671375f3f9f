//! The session's random source: a small deterministic generator from the
//! rand crate, behind trusted declarations. Everything the simulation
//! concludes from a draw is stated here as a range; which value comes back is
//! never assumed.

use vstd::prelude::*;
use rand::Rng;
use rand::SeedableRng;
use rand::rngs::SmallRng;

verus! {

/// rand's small-state generator, opaque to the verifier.
#[verifier::external_type_specification]
#[verifier::external_body]
pub struct ExSmallRng(SmallRng);

/// Relies on rand's `SmallRng::seed_from_u64` (via `SeedableRng`): builds a
/// generator from a word-sized seed; nothing is assumed of its output.
#[verifier::external_body]
pub(crate) fn rng_from_seed(seed: u64) -> SmallRng {
    SmallRng::seed_from_u64(seed)
}

/// Relies on rand's `Rng::gen_range` over a half-open integer range: it
/// panics only on an empty range and returns a value inside the range.
#[verifier::external_body]
pub(crate) fn rng_range(rng: &mut SmallRng, lo: i64, hi: i64) -> (r: i64)
    requires
        lo < hi,
    ensures
        lo <= r < hi,
{
    rng.gen_range(lo..hi)
}

} // verus!
