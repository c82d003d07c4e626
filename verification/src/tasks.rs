//! The watcher that expires a session.

use vstd::prelude::*;

verus! {

/// How long a session may live, in nanoseconds: one hour.
pub const SESSION_LIFETIME_NANOS: i128 = 3_600_000_000_000;

/// Nanoseconds in a second.
pub const NANOS_PER_SEC: i128 = 1_000_000_000;

/// How long the watcher of a session has to sleep before it removes the
/// session from the registry: what is left at `now` of the hour that began at
/// `created_at`, both in nanoseconds since the Unix epoch, as whole seconds
/// and the nanoseconds beyond them. `None` if the hour is over, or if what is
/// left has more seconds than fit in 64 bits.
pub open spec fn wait_spec(created_at: i128, now: i128) -> Option<(u64, u32)> {
    let left = created_at - now + SESSION_LIFETIME_NANOS;
    if 0 <= left && left / 1_000_000_000 <= u64::MAX {
        Some(((left / 1_000_000_000) as u64, (left % 1_000_000_000) as u32))
    } else {
        None
    }
}

/// Computes how long the watcher of a session created at `created_at` has to
/// sleep at `now`. Where there is nothing to wait for, the watcher gives up
/// and leaves the session where it is.
pub fn wait_before_removal(created_at: i128, now: i128) -> (r: Option<(u64, u32)>)
    ensures
        r == wait_spec(created_at, now),
        r matches Some((secs, nanos)) ==> nanos < NANOS_PER_SEC && secs * NANOS_PER_SEC + nanos
            == created_at - now + SESSION_LIFETIME_NANOS,
{
    let since = match created_at.checked_sub(now) {
        Some(d) => d,
        None => {
            return None;
        },
    };
    let left = match since.checked_add(SESSION_LIFETIME_NANOS) {
        Some(l) => l,
        None => {
            return None;
        },
    };
    if left < 0 {
        return None;
    }
    let secs = left / NANOS_PER_SEC;
    let nanos = left % NANOS_PER_SEC;
    if secs > 0xFFFF_FFFF_FFFF_FFFFi128 {
        return None;
    }
    Some((secs as u64, nanos as u32))
}

} // verus!
