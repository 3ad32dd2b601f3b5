//! Monotonic timing, taken on trust from the standard library clock.

use vstd::prelude::*;

verus! {

#[verifier::external_type_specification]
#[verifier::external_body]
pub struct ExInstant(std::time::Instant);

/// Relies on `std::time::Instant::now`: an opaque reading of the monotonic
/// clock. Nothing is promised of its value.
#[verifier::external_body]
pub fn instant_now() -> std::time::Instant {
    std::time::Instant::now()
}

/// Relies on `std::time::Instant::elapsed`: the nanoseconds since `start`
/// was taken, truncated to 64 bits. Nothing is promised of its value.
#[verifier::external_body]
pub fn elapsed_nanos(start: &std::time::Instant) -> u64 {
    start.elapsed().as_nanos() as u64
}

} // verus!

verus! {

/// Relies on `std::time::SystemTime::now` and `duration_since`: the wall
/// clock as milliseconds since the Unix epoch, or 0 before it. Nothing is
/// promised of its value.
#[verifier::external_body]
pub fn now_unix_millis() -> u64 {
    std::time::SystemTime::now().duration_since(std::time::UNIX_EPOCH).map(
        |d| d.as_millis() as u64,
    ).unwrap_or(0)
}

/// The RFC 3339 rendering, with milliseconds and a `Z` suffix, of a Unix
/// millisecond timestamp: a function of the timestamp alone.
pub uninterp spec fn rfc3339_millis_chars(unix_ms: u64) -> Seq<char>;

/// Relies on `chrono::DateTime::from_timestamp_millis` and
/// `to_rfc3339_opts`: the RFC 3339 rendering of the timestamp, a function
/// of the timestamp alone; an out-of-range timestamp renders the epoch.
#[verifier::external_body]
pub fn rfc3339_millis_of(unix_ms: u64) -> (r: String)
    ensures
        r@ == rfc3339_millis_chars(unix_ms),
{
    let dt = chrono::DateTime::<chrono::Utc>::from_timestamp_millis(unix_ms as i64).unwrap_or_else(
        || chrono::DateTime::<chrono::Utc>::from_timestamp_millis(0).unwrap(),
    );
    dt.to_rfc3339_opts(chrono::SecondsFormat::Millis, true)
}

} // verus!
