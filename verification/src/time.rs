//! Time handling at the store boundary.
//!
//! Block timestamps are stored as nanoseconds since the Unix epoch; the
//! query range is given as whole seconds since the epoch, `start` inclusive
//! and `end` exclusive. Timestamps exchanged with the store travel as
//! `YYYY-MM-DDTHH:MM:SSZ` strings derived from the whole-second value.
//! Because both bounds are whole seconds, membership of a row in the
//! half-open range is decided on the row's whole-second timestamp.

use vstd::prelude::*;

verus! {

/// The `YYYY-MM-DDTHH:MM:SSZ` rendering of a whole-second UTC timestamp.
/// The calendar arithmetic behind it is left to the formatting library;
/// the rendering is a function of the seconds value alone.
pub uninterp spec fn rfc3339_of(sec: u64) -> Seq<char>;

/// Relies on chrono's `DateTime::from_timestamp` and UTC `format`: the
/// rendered text depends on the seconds value alone, on every machine.
#[verifier::external_body]
fn utc_timestamp_string(sec: u64) -> (r: String)
    ensures
        r@ == rfc3339_of(sec),
{
    match chrono::DateTime::<chrono::Utc>::from_timestamp(sec as i64, 0) {
        Some(t) => format!("{}", t.format("%Y-%m-%dT%H:%M:%SZ")),
        None => String::new(),
    }
}

/// The two bound strings, `[start, end)`, as the store expects them.
pub fn query_bounds(start_sec: u64, end_sec: u64) -> (r: (String, String))
    ensures
        r.0@ == rfc3339_of(start_sec),
        r.1@ == rfc3339_of(end_sec),
{
    (utc_timestamp_string(start_sec), utc_timestamp_string(end_sec))
}

/// The whole second in which a nanosecond timestamp falls.
pub open spec fn second_of(nanos: u64) -> int {
    nanos as int / 1_000_000_000
}

/// Half-open range membership: the row's second is at or after `start_sec`
/// and strictly before `end_sec`.
pub open spec fn in_report_range(nanos: u64, start_sec: u64, end_sec: u64) -> bool {
    start_sec <= second_of(nanos) && second_of(nanos) < end_sec
}

/// Decides half-open range membership of a nanosecond block timestamp.
pub fn nanos_in_range(nanos: u64, start_sec: u64, end_sec: u64) -> (b: bool)
    ensures
        b == in_report_range(nanos, start_sec, end_sec),
{
    let sec: u64 = nanos / 1_000_000_000;
    start_sec <= sec && sec < end_sec
}

} // verus!
