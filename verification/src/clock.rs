//! The wall clock, read in whole seconds since the Unix epoch.

use time::OffsetDateTime;
use vstd::prelude::*;

verus! {

/// No reading of the clock is this far from the epoch, in either direction.
pub const CLOCK_LIMIT: i64 = 0x8000_0000_0000;

/// Calls `time::OffsetDateTime::now_utc` and converts the result with
/// `OffsetDateTime::unix_timestamp`. Trusted: the reading lies strictly
/// within `CLOCK_LIMIT` of the epoch. An `OffsetDateTime` holds a year of
/// fewer than seven digits, so its timestamp is less than 2^21 years of 366
/// days away from the epoch, which is less than 2^47 seconds. Nothing else
/// is claimed: two readings may differ in any way.
#[verifier::external_body]
pub(crate) fn now_utc() -> (now: i64)
    ensures
        -CLOCK_LIMIT < now < CLOCK_LIMIT,
{
    OffsetDateTime::now_utc().unix_timestamp()
}

} // verus!
