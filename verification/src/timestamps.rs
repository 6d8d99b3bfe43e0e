//! Calendar work done by `chrono`.

use vstd::prelude::*;

verus! {

/// The Unix timestamp in seconds that `chrono` reads from an RFC 3339 date,
/// `None` where it rejects the text.
pub uninterp spec fn rfc3339_timestamp(text: Seq<char>) -> Option<i64>;

/// The `%b %d %H:%MZ` rendering in UTC that `chrono` gives a Unix timestamp,
/// `None` where the timestamp is outside its calendar.
pub uninterp spec fn utc_reset_label(timestamp: i64) -> Option<Seq<char>>;

/// Calls `chrono::DateTime::parse_from_rfc3339` and takes the parsed
/// instant's `timestamp()`. Claimed: the result depends on the text alone.
#[verifier::external_body]
pub(crate) fn parse_rfc3339_timestamp(text: &str) -> (res: Option<i64>)
    ensures
        res == rfc3339_timestamp(text@),
{
    match chrono::DateTime::parse_from_rfc3339(text) {
        Ok(instant) => Some(instant.timestamp()),
        Err(_) => None,
    }
}

/// Calls `chrono::DateTime::<Utc>::from_timestamp(timestamp, 0)` and formats
/// the instant with `%b %d %H:%MZ`. Claimed: the result depends on the
/// timestamp alone.
#[verifier::external_body]
pub(crate) fn format_reset_timestamp(timestamp: i64) -> (res: Option<String>)
    ensures
        match res {
            Some(label) => utc_reset_label(timestamp) == Some(label@),
            None => utc_reset_label(timestamp).is_none(),
        },
{
    match chrono::DateTime::<chrono::Utc>::from_timestamp(timestamp, 0) {
        Some(instant) => Some(instant.format("%b %d %H:%MZ").to_string()),
        None => None,
    }
}

/// Calls `chrono::Utc::now()` and takes its `timestamp()`: the current Unix
/// time in seconds. Nothing is claimed of the value.
#[verifier::external_body]
pub(crate) fn utc_now_seconds() -> (res: i64) {
    chrono::Utc::now().timestamp()
}

/// Calls `chrono::Utc::now()` and takes its `timestamp_nanos_opt()`: the
/// current Unix time in nanoseconds, `None` outside the range of `i64`.
/// Nothing is claimed of the value.
#[verifier::external_body]
pub(crate) fn utc_now_nanos() -> (res: Option<i64>) {
    chrono::Utc::now().timestamp_nanos_opt()
}

} // verus!
