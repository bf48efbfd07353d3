//! Draws from seeded and unseeded random number generators of `rand`.
use rand::rngs::StdRng;
use rand::Rng;
use rand::SeedableRng;
use vstd::prelude::*;

verus! {

/// Whether the first ratio draw of a `StdRng` seeded with `seed` comes out true
/// for a chance of `numerator` in `denominator`.
pub uninterp spec fn first_ratio_draw(seed: u64, numerator: u32, denominator: u32) -> bool;

/// Calls `StdRng::seed_from_u64(seed)` and then `Rng::gen_ratio(numerator, denominator)`
/// once on the fresh generator. The result is a function of the three arguments,
/// named `first_ratio_draw`; as `rand` documents for `gen_ratio`, it is always true
/// when `numerator == denominator` and always false when `numerator == 0`.
/// `gen_ratio` panics when `denominator == 0` or `numerator > denominator`.
#[verifier::external_body]
pub(crate) fn seeded_ratio(seed: u64, numerator: u32, denominator: u32) -> (b: bool)
    requires
        0 < denominator,
        numerator <= denominator,
    ensures
        b == first_ratio_draw(seed, numerator, denominator),
        numerator == denominator ==> b,
        numerator == 0 ==> !b,
{
    StdRng::seed_from_u64(seed).gen_ratio(numerator, denominator)
}

/// The index drawn by `Rng::gen_range(0..bound)` right after the first ratio draw
/// (`numerator` in `denominator`) of a `StdRng` seeded with `seed`.
pub uninterp spec fn index_after_ratio_draw(seed: u64, numerator: u32, denominator: u32, bound: usize) -> usize;

/// Calls `StdRng::seed_from_u64(seed)`, then `gen_ratio(numerator, denominator)` and
/// `gen_range(0..bound)` on the fresh generator, in that order. Both results are
/// functions of the arguments: the first is the same draw as `first_ratio_draw`,
/// the second is named `index_after_ratio_draw`, and `rand` documents that it lies
/// in `0..bound`. `gen_range` panics on an empty range, `gen_ratio` as above.
#[verifier::external_body]
pub(crate) fn seeded_ratio_then_index(seed: u64, numerator: u32, denominator: u32, bound: usize) -> (r: (bool, usize))
    requires
        0 < denominator,
        numerator <= denominator,
        0 < bound,
    ensures
        r.0 == first_ratio_draw(seed, numerator, denominator),
        r.1 == index_after_ratio_draw(seed, numerator, denominator, bound),
        r.1 < bound,
{
    let mut rng = StdRng::seed_from_u64(seed);
    let hit = rng.gen_ratio(numerator, denominator);
    (hit, rng.gen_range(0..bound))
}

/// Calls `rand::random::<u64>()`, which draws from the thread-local generator
/// seeded by the operating system. Nothing is promised of the result.
#[verifier::external_body]
pub(crate) fn random_seed() -> (seed: u64)
{
    rand::random::<u64>()
}

} // verus!
