//! The library's source of random numbers: a seeded generator of the `rand`
//! crate, and the one call that the library makes into it.

use vstd::prelude::*;
use rand::rngs::StdRng;
use rand::Rng;

verus! {

#[verifier::external_type_specification]
#[verifier::external_body]
pub struct ExStdRng(StdRng);

/// Draws an integer from `low`, included, to `high`, excluded, by
/// `rand::Rng::random_range` on a half-open range of `i64`. That function
/// panics on an empty range, which `requires` leaves out; of its result
/// this claims only that it lies in the range.
#[verifier::external_body]
pub(crate) fn random_range(rng: &mut StdRng, low: i64, high: i64) -> (r: i64)
    requires
        low < high,
    ensures
        low <= r < high,
{
    rng.random_range(low..high)
}

} // verus!
