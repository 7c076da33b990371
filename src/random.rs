use rand::Rng;
use vstd::prelude::*;

verus! {

/// Relies on rand's `Rng::gen_range` on `thread_rng()`: a draw from `[0, upper)`.
/// It panics on an empty range, which `requires` leaves out.
#[verifier::external_body]
pub(crate) fn generate_random(upper: usize) -> (r: usize)
    requires
        upper > 0,
    ensures
        r < upper,
{
    rand::thread_rng().gen_range(0..upper)
}

/// Relies on rand's `Rng::gen_ratio` on `thread_rng()`: `true` with probability
/// `numerator / denominator`, never when `numerator` is 0 and always when it equals
/// `denominator`. It panics when `denominator` is 0 or below `numerator`, which
/// `requires` leaves out.
#[verifier::external_body]
pub(crate) fn random_ratio(numerator: u32, denominator: u32) -> (r: bool)
    requires
        0 < denominator,
        numerator <= denominator,
    ensures
        numerator == 0 ==> !r,
        numerator == denominator ==> r,
{
    rand::thread_rng().gen_ratio(numerator, denominator)
}

} // verus!
