//! Random draws, from the `rand` crate's thread-local generator.
use vstd::prelude::*;
use rand::Rng;

verus! {

/// Relies on `rand::Rng::gen_range` (rand 0.8): a uniform draw from the
/// half-open range `lo..hi`, which must not be empty.
#[verifier::external_body]
pub(crate) fn roll_between(lo: i64, hi: i64) -> (r: i64)
    requires
        lo < hi,
    ensures
        lo <= r < hi,
{
    rand::thread_rng().gen_range(lo..hi)
}

/// Relies on `rand::random` (rand 0.8): any value of the type may come back.
pub assume_specification<T>[ rand::random::<T> ]() -> (r: T)
    where
        rand::distributions::Standard: rand::distributions::Distribution<T>,
;

} // verus!
