//! The wall clock.

use vstd::prelude::*;

verus! {

/// Bound on the magnitude of any time the clock can report: `2^50` seconds.
pub const CLOCK_LIMIT: i64 = 0x4_0000_0000_0000;

/// Seconds since the Unix epoch, negative before it: `SystemTime::now`,
/// turned into a `chrono::DateTime<Utc>` by chrono's `From<SystemTime>`,
/// and read with `DateTime::timestamp`.
///
/// Trusted. Nothing is claimed about which time comes back, only that its
/// magnitude stays below [`CLOCK_LIMIT`]: `timestamp` computes it from a
/// 32-bit day count times 86 400 plus the seconds of the day. A system
/// clock that stands before the epoch gives a negative time. The
/// conversion does not return for a system clock beyond the years chrono
/// can hold, some 262 000 either side of the epoch.
#[verifier::external_body]
pub(crate) fn unix_now() -> (now: i64)
    ensures
        -CLOCK_LIMIT < now < CLOCK_LIMIT,
{
    chrono::DateTime::<chrono::Utc>::from(std::time::SystemTime::now()).timestamp()
}

} // verus!
