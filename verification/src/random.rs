//! The one source of randomness of the crate.
use rand::distributions::uniform::SampleUniform;
use rand::Rng;
use vstd::prelude::*;
use vstd::std_specs::cmp::PartialOrdIs;
use vstd::std_specs::cmp::PartialOrdSpec;

verus! {

/// Draws a value from the half-open range `min..max` with
/// `rand::thread_rng().gen_range(min..max)`.
///
/// The contract speaks of types whose order is specified, which are the
/// integers. `gen_range` panics on an empty range, so `min` must lie below
/// `max`. Of the value it returns, only what holds of every draw is
/// stated: it is not below `min` and it is below `max`. Two calls may
/// return different values.
#[verifier::external_body]
pub fn random_between<T: PartialOrd + SampleUniform>(min: T, max: T) -> (r: T)
    requires
        T::obeys_partial_cmp_spec(),
        min.is_lt(&max),
    ensures
        min.is_le(&r),
        r.is_lt(&max),
{
    rand::thread_rng().gen_range(min..max)
}

} // verus!
