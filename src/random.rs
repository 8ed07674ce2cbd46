//! The randomness source of one run, and the draws the verified logic makes
//! from it.
use vstd::prelude::*;
use rand::rngs::SmallRng;
use rand::Rng;

verus! {

#[verifier::external_type_specification]
#[verifier::external_body]
pub struct ExSmallRng(SmallRng);

/// Relies on rand's `Rng::gen_range` over `0..bound`: a value below `bound`.
/// The range must not be empty, or the call panics.
#[verifier::external_body]
pub(crate) fn index_below(rng: &mut SmallRng, bound: usize) -> (r: usize)
    requires
        0 < bound,
    ensures
        r < bound,
{
    rng.gen_range(0..bound)
}

/// Relies on rand's `Rng::gen::<bool>` (its `Standard` distribution): a fair
/// coin, of which nothing is known beforehand.
#[verifier::external_body]
pub(crate) fn coin(rng: &mut SmallRng) -> bool {
    rng.gen::<bool>()
}

} // verus!
