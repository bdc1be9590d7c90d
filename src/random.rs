use rand::Rng;
use vstd::prelude::*;

verus! {

/// The random stream every draw of the library comes from.
#[verifier::external_type_specification]
#[verifier::external_body]
pub struct ExSmallRng(rand::rngs::SmallRng);

/// Relies on rand's `Rng::gen_ratio`: true with chance `numerator / denominator`,
/// guaranteed false for a zero numerator and guaranteed true when the two are
/// equal; it panics on a zero denominator or a numerator above it.
#[verifier::external_body]
pub(crate) fn gen_ratio(rng: &mut rand::rngs::SmallRng, numerator: u32, denominator: u32) -> (r:
    bool)
    requires
        0 < denominator,
        numerator <= denominator,
    ensures
        numerator == 0 ==> !r,
        numerator == denominator ==> r,
{
    rng.gen_ratio(numerator, denominator)
}

/// Relies on rand's `Rng::gen_range` over an inclusive range: a value between
/// the two bounds; it panics on an empty range.
#[verifier::external_body]
pub(crate) fn gen_between(rng: &mut rand::rngs::SmallRng, low: usize, high: usize) -> (r: usize)
    requires
        low <= high,
    ensures
        low <= r <= high,
{
    rng.gen_range(low..=high)
}

} // verus!
