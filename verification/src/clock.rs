//! Timestamp handling: RFC 3339 parsing and the current time, both through
//! chrono. Timestamps are carried as Unix epoch seconds.

use vstd::prelude::*;

verus! {

/// The Unix timestamp denoted by an RFC 3339 text, or `None` where the text
/// is not valid RFC 3339. The outcome depends on the text alone.
pub uninterp spec fn rfc3339_epoch(s: Seq<char>) -> Option<i64>;

/// Relies on chrono's `DateTime::parse_from_rfc3339` and `timestamp`:
/// parsing succeeds exactly on valid RFC 3339 text, and the result is that
/// instant as Unix epoch seconds — a function of the text alone.
#[verifier::external_body]
pub(crate) fn parse_rfc3339_epoch(s: &str) -> (r: Option<i64>)
    ensures
        r == rfc3339_epoch(s@),
{
    match chrono::DateTime::parse_from_rfc3339(s) {
        Ok(dt) => Some(dt.timestamp()),
        Err(_) => None,
    }
}

/// Relies on chrono's `Utc::now`: the current wall-clock time as Unix epoch
/// seconds. Nothing is promised of the value.
#[verifier::external_body]
pub(crate) fn now_epoch() -> i64 {
    chrono::Utc::now().timestamp()
}

} // verus!
