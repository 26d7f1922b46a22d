//! The clock, and timestamps as RFC 3339 text, both from `chrono`.

use vstd::prelude::*;
use crate::models::Timestamp;

verus! {

/// The RFC 3339 text that `chrono` writes for the UTC time at `secs` seconds
/// and `nanos` nanoseconds past the Unix epoch; `None` where `chrono` cannot
/// represent that time.
pub uninterp spec fn rfc3339_text(secs: i64, nanos: u32) -> Option<Seq<char>>;

/// The seconds and nanoseconds past the Unix epoch of the time that `chrono`
/// reads from an RFC 3339 text; `None` where it rejects the text.
pub uninterp spec fn rfc3339_value(text: Seq<char>) -> Option<(i64, u32)>;

/// Whether a time is one that the clock can show: at or after the Unix
/// epoch, with less than a second of nanoseconds.
pub open spec fn is_reading(time: Timestamp) -> bool {
    time.secs >= 0 && time.nanos < 1_000_000_000
}

/// Calls `chrono::Utc::now` and takes its seconds and nanoseconds with
/// `timestamp` and `timestamp_subsec_nanos`. Trusted: `now` builds the time
/// from the span since the Unix epoch, so the seconds are not negative and
/// the nanoseconds are under one second. The reading itself is the system
/// clock's: a later call may give an earlier time.
#[verifier::external_body]
pub(crate) fn current_time() -> (now: Timestamp)
    ensures
        is_reading(now),
{
    let now = chrono::Utc::now();
    Timestamp { secs: now.timestamp(), nanos: now.timestamp_subsec_nanos() }
}

/// Calls `chrono::DateTime::from_timestamp` and, where that gives a time,
/// `to_rfc3339` on it. Trusted: the result is the text `chrono` writes for
/// this time, named `rfc3339_text`.
#[verifier::external_body]
pub(crate) fn format_rfc3339(time: Timestamp) -> (text: Option<String>)
    ensures
        text.is_some() == rfc3339_text(time.secs, time.nanos).is_some(),
        text matches Some(t) ==> rfc3339_text(time.secs, time.nanos) == Some(t@),
{
    match chrono::DateTime::from_timestamp(time.secs, time.nanos) {
        Some(moment) => Some(moment.to_rfc3339()),
        None => None,
    }
}

/// Calls `chrono::DateTime::parse_from_rfc3339` and takes the seconds and
/// nanoseconds of the result in UTC. Trusted: the result is the time that
/// `chrono` reads from the text, named `rfc3339_value`.
#[verifier::external_body]
pub(crate) fn parse_rfc3339(text: &str) -> (time: Option<Timestamp>)
    ensures
        time.is_some() == rfc3339_value(text@).is_some(),
        time matches Some(t) ==> rfc3339_value(text@) == Some((t.secs, t.nanos)),
{
    match chrono::DateTime::parse_from_rfc3339(text) {
        Ok(parsed) => {
            let moment = parsed.with_timezone(&chrono::Utc);
            Some(Timestamp { secs: moment.timestamp(), nanos: moment.timestamp_subsec_nanos() })
        },
        Err(_) => None,
    }
}

} // verus!
