//! The wall clock.

use vstd::prelude::*;

verus! {

/// Calls `time::OffsetDateTime::now_utc()` and returns the instant as
/// nanoseconds since the Unix epoch (`unix_timestamp_nanos`). Nothing is
/// promised of the value: it depends on when the call is made.
#[verifier::external_body]
pub(crate) fn now_utc_nanos() -> i128 {
    time::OffsetDateTime::now_utc().unix_timestamp_nanos()
}

} // verus!
