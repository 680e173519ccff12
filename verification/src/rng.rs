//! Randomness at the engine's edge: every roll is drawn through a
//! seedable generator passed in by the caller, so a fixed seed replays a
//! fight exactly. Only the bounds of each draw are assumed; no
//! distribution facts enter any proof.

use vstd::prelude::*;
use rand::Rng;
use rand::SeedableRng;

verus! {

#[verifier::external_type_specification]
#[verifier::external_body]
/// The engine's random number generator, an outside type.
pub struct ExStdRng(rand::rngs::StdRng);

/// Relies on rand's `Rng::gen_range` over `lo..=hi`: the sample lies
/// within the inclusive bounds, and the range is non-empty.
#[verifier::external_body]
pub fn roll_inclusive(rng: &mut rand::rngs::StdRng, lo: i64, hi: i64) -> (r: i64)
    requires
        lo <= hi,
    ensures
        lo <= r <= hi,
{
    rng.gen_range(lo..=hi)
}

/// Relies on rand's `Rng::gen_range` over `0..1000`: a milli fraction
/// of certainty, strictly below one.
#[verifier::external_body]
pub fn roll_fraction(rng: &mut rand::rngs::StdRng) -> (r: i64)
    ensures
        0 <= r < 1000,
{
    rng.gen_range(0..1000i64)
}

/// Relies on rand's `Rng::gen_range` over `0..100_000`: a uniform
/// milli-percent draw for chance checks.
#[verifier::external_body]
pub fn roll_percent(rng: &mut rand::rngs::StdRng) -> (r: i64)
    ensures
        0 <= r < 100_000,
{
    rng.gen_range(0..100_000i64)
}

/// Relies on rand's `SeedableRng::seed_from_u64`: a deterministic
/// generator from a seed.
#[verifier::external_body]
pub fn rng_from_seed(seed: u64) -> (r: rand::rngs::StdRng) {
    rand::rngs::StdRng::seed_from_u64(seed)
}

/// Relies on rand's `SeedableRng::from_entropy`: a generator seeded from
/// the operating system.
#[verifier::external_body]
pub fn entropy_rng() -> (r: rand::rngs::StdRng) {
    rand::rngs::StdRng::from_entropy()
}

} // verus!
