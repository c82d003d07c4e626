//! Sources of randomness. Nothing here is deterministic, so the contracts
//! state only what holds of every outcome.

use rand::Rng;
use vstd::prelude::*;

verus! {

/// Is `b` the ASCII code of a letter or a digit?
pub open spec fn is_alphanumeric_byte(b: u8) -> bool {
    (48 <= b && b <= 57) || (65 <= b && b <= 90) || (97 <= b && b <= 122)
}

/// Calls `rand::distributions::Uniform::new(low, high)` and samples it once with
/// `rand::thread_rng()`. The distribution covers the half-open range from `low`
/// up to, but not including, `high`; it panics unless `low < high`.
#[verifier::external_body]
pub(crate) fn sample_uniform(low: u8, high: u8) -> (r: u8)
    requires
        low < high,
    ensures
        low <= r < high,
{
    rand::thread_rng().sample(rand::distributions::Uniform::new(low, high))
}

/// Samples `rand::distributions::Alphanumeric` once with `rand::thread_rng()`.
/// The distribution yields the ASCII codes of `a-z`, `A-Z` and `0-9`.
#[verifier::external_body]
pub(crate) fn sample_alphanumeric() -> (r: u8)
    ensures
        is_alphanumeric_byte(r),
{
    rand::thread_rng().sample(rand::distributions::Alphanumeric)
}

/// Calls `uuid::Uuid::new_v4()` and returns the identifier as the 128-bit
/// number that `Uuid::as_u128` gives. Nothing is promised of a random value.
#[verifier::external_body]
pub(crate) fn random_uuid() -> u128 {
    uuid::Uuid::new_v4().as_u128()
}

} // verus!
