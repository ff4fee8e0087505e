//! Unix timestamps (whole seconds, UTC) and the calendar arithmetic on them,
//! done by `chrono`.

use chrono::DateTime;
use chrono::Days;
use chrono::LocalResult;
use chrono::TimeZone;
use chrono::Utc;
use vstd::prelude::*;

verus! {

/// The earliest timestamp that `chrono` represents (January 1, 262144 BCE).
pub const MIN_TIMESTAMP: i64 = -8334601228800;

/// The latest timestamp that `chrono` represents (December 31, 262142 CE, 23:59:59).
pub const MAX_TIMESTAMP: i64 = 8210266876799;

/// Seconds in a calendar day; UTC has no daylight saving.
pub const SECONDS_PER_DAY: i64 = 86400;

/// An instant: whole seconds since the Unix epoch and the nanoseconds past them.
#[derive(Clone, Copy, Debug, PartialEq, Eq, Structural)]
pub struct Timestamp {
    pub secs: i64,
    pub nanos: u32,
}

/// Whether `chrono` can represent the timestamp `t`.
pub open spec fn in_chrono_range(t: int) -> bool {
    MIN_TIMESTAMP <= t <= MAX_TIMESTAMP
}

/// `chrono::Utc::now().timestamp()`: the current time.
/// Claimed: only that it lies in the range that a `DateTime<Utc>` can hold.
#[verifier::external_body]
pub(crate) fn utc_now() -> (t: i64)
    ensures
        in_chrono_range(t as int),
{
    Utc::now().timestamp()
}

/// `chrono::Utc.timestamp_opt(secs, 0)`, read back with `timestamp()` when it
/// is a single instant. Claimed: that happens exactly for timestamps in
/// chrono's range, and the instant is `secs` itself.
#[verifier::external_body]
pub(crate) fn timestamp_opt(secs: i64) -> (r: Option<i64>)
    ensures
        r == (if in_chrono_range(secs as int) { Some(secs) } else { None::<i64> }),
{
    match Utc.timestamp_opt(secs, 0) {
        LocalResult::Single(d) => Some(d.timestamp()),
        LocalResult::Ambiguous(_, _) => None,
        LocalResult::None => None,
    }
}

/// `DateTime::<Utc>::checked_add_days(Days::new(days))` on the instant `ts`
/// (made with `DateTime::from_timestamp(ts, 0)` and read back with
/// `timestamp()`). Claimed: adding whole days in UTC moves the instant by
/// `86400 * days` seconds, and the result is `None` exactly when it would pass
/// the end of chrono's range.
#[verifier::external_body]
pub(crate) fn checked_add_days(ts: i64, days: u64) -> (r: Option<i64>)
    requires
        in_chrono_range(ts as int),
    ensures
        r == (if ts + SECONDS_PER_DAY * days <= MAX_TIMESTAMP {
            Some((ts + SECONDS_PER_DAY * days) as i64)
        } else {
            None::<i64>
        }),
{
    match DateTime::from_timestamp(ts, 0) {
        Some(d) => match d.checked_add_days(Days::new(days)) {
            Some(later) => Some(later.timestamp()),
            None => None,
        },
        None => None,
    }
}

} // verus!
