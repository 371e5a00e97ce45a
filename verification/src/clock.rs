//! Points in time. The library keeps a point in time as RFC 3339 text where
//! it is stored, and as Unix time in whole seconds where it is reckoned with.
//! It never reads a clock: the caller hands the present in.

use crate::text::opt_text;
use vstd::prelude::*;

verus! {

/// The Unix time, in whole seconds, of the point in time that chrono reads
/// from `text` as RFC 3339; `None` where chrono rejects the text.
pub uninterp spec fn rfc3339_seconds(text: Seq<char>) -> Option<int>;

/// The RFC 3339 text that chrono writes for the point in time `secs` seconds
/// after the Unix epoch, in UTC; `None` where chrono has no date for it.
pub uninterp spec fn rfc3339_text(secs: int) -> Option<Seq<char>>;

/// Calls `DateTime::parse_from_rfc3339` of chrono and, where it accepts the
/// text, `DateTime::timestamp` on what it made. Trusted: the result is what
/// `rfc3339_seconds` names.
#[verifier::external_body]
pub(crate) fn parse_rfc3339(text: &str) -> (secs: Option<i64>)
    ensures
        secs is Some <==> rfc3339_seconds(text@) is Some,
        secs matches Some(t) ==> rfc3339_seconds(text@) == Some(t as int),
{
    chrono::DateTime::parse_from_rfc3339(text).ok().map(|t| t.timestamp())
}

/// Calls `DateTime::from_timestamp` of chrono with no nanoseconds and, where
/// it has a date, `DateTime::to_rfc3339` on it. Trusted: the result is what
/// `rfc3339_text` names.
#[verifier::external_body]
pub(crate) fn format_rfc3339(secs: i64) -> (text: Option<String>)
    ensures
        opt_text(text) == rfc3339_text(secs as int),
{
    chrono::DateTime::from_timestamp(secs, 0).map(|t| t.to_rfc3339())
}

/// The text under which the point in time `secs` is stored: its RFC 3339
/// form, or the empty text where it has none.
pub open spec fn stored_time(secs: int) -> Seq<char> {
    match rfc3339_text(secs) {
        Some(t) => t,
        None => Seq::empty(),
    }
}

/// The text to store for the point in time `secs`.
pub fn timestamp_text(secs: i64) -> (text: String)
    ensures
        text@ == stored_time(secs as int),
{
    match format_rfc3339(secs) {
        Some(t) => t,
        None => String::new(),
    }
}

/// The seconds that have passed at `now` since `then`.
pub open spec fn elapsed(then: int, now: int) -> int {
    now - then
}

/// Whether a point in time is more than `limit` seconds in the past at
/// `now`. A point in time that could not be read counts as long past.
pub open spec fn is_older_than(then: Option<int>, now: int, limit: int) -> bool {
    match then {
        Some(t) => elapsed(t, now) > limit,
        None => true,
    }
}

/// Whether `then` is more than `limit` seconds in the past at `now`; exactly
/// `limit` seconds is not. `None` stands for a time that could not be read,
/// and is older than any limit.
pub fn older_than(then: Option<i64>, now: i64, limit: u64) -> (older: bool)
    ensures
        older == is_older_than(
            match then {
                Some(t) => Some(t as int),
                None => None,
            },
            now as int,
            limit as int,
        ),
{
    match then {
        Some(t) => (now as i128) - (t as i128) > (limit as i128),
        None => true,
    }
}

/// Whether the time stored as `text` is more than `limit` seconds in the past
/// at `now`. A text that is no RFC 3339 time is older than any limit.
pub fn text_older_than(text: &str, now: i64, limit: u64) -> (older: bool)
    ensures
        older == is_older_than(rfc3339_seconds(text@), now as int, limit as int),
{
    older_than(parse_rfc3339(text), now, limit)
}

} // verus!
