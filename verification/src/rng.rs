use vstd::prelude::*;
use bracket_random::prelude::RandomNumberGenerator;

verus! {

#[verifier::external_type_specification]
#[verifier::external_body]
pub struct ExRandomNumberGenerator(RandomNumberGenerator);

/// Relies on RandomNumberGenerator::range: the result is drawn inclusive of
/// `min` and exclusive of `max`. The call panics on an empty range, so one
/// is ruled out here.
#[verifier::external_body]
pub(crate) fn rand_range(rng: &mut RandomNumberGenerator, min: i32, max: i32) -> (r: i32)
    requires
        min < max,
    ensures
        min <= r < max,
{
    rng.range(min, max)
}

} // verus!
