//! The server's clock.

use vstd::prelude::*;

verus! {

/// `now` is a count of seconds since the Unix epoch whose count of days
/// since the start of the common era fits in an `i32`: an instant that
/// `chrono` may hand out.
pub open spec fn in_calendar(now: i64) -> bool {
    -4_294_967_296 * 86_400 <= now < 2_147_483_648 * 86_400
}

/// The current time in seconds since the Unix epoch, UTC, as
/// `chrono::Utc::now().timestamp()` gives it.
///
/// Nothing is claimed of which instant comes back, only a range. `Utc::now`
/// builds its result with `DateTime::from_timestamp`, which accepts no
/// count of seconds whose days, counted from the start of the common era,
/// do not fit in an `i32`, and `timestamp` gives that count back. Where the
/// system clock is set before the epoch or beyond what `chrono` can hold,
/// `Utc::now` panics instead of returning.
#[verifier::external_body]
pub(crate) fn utc_now() -> (now: i64)
    ensures
        in_calendar(now),
{
    chrono::Utc::now().timestamp()
}

} // verus!
