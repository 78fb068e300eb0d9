//! The two clocks that the backend reads.

use vstd::prelude::*;

verus! {

/// The largest number of seconds that the calendar clock can report.
pub const CALENDAR_LIMIT: u64 = 0x1_0000_0000_0000;

/// `chrono::Utc::now` followed by `DateTime::timestamp`: the seconds since the Unix epoch.
///
/// Trusted: the call does not return where the system clock stands before the epoch, and
/// the library counts days in 32 bits; so the seconds are not negative and stay below
/// 2^48. Nothing else is said of the time.
#[verifier::external_body]
pub(crate) fn calendar_seconds() -> (now: u64)
    ensures
        now < CALENDAR_LIMIT,
{
    chrono::Utc::now().timestamp() as u64
}

/// `jsonwebtoken::get_current_timestamp`: the seconds since the Unix epoch, as the token
/// library counts them. Nothing is said of the time. The call does not return where the
/// system clock stands before the epoch.
#[verifier::external_body]
pub(crate) fn token_seconds() -> u64 {
    jsonwebtoken::get_current_timestamp()
}

} // verus!
