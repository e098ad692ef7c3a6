//! Instants as the database rows carry them, and their RFC 3339 rendering
//! through `chrono`.
use vstd::prelude::*;

verus! {

/// An instant in UTC, as whole seconds and nanoseconds since the Unix epoch.
#[derive(Debug, Clone, Copy, PartialEq, Eq)]
pub struct UtcTimestamp {
    pub secs: i64,
    pub nanos: u32,
}

/// The instants `chrono::DateTime::<Utc>::from_timestamp` accepts, and so the
/// instants a `DateTime<Utc>` can hold: a date from January 1 of the year
/// -262143 to December 31 of 262142 (seconds -8_334_601_228_800 through
/// 8_210_266_876_799 from the epoch), and a nanosecond part below one second,
/// or below two seconds on the last second of a minute (a leap second).
pub open spec fn renderable(t: UtcTimestamp) -> bool {
    &&& -8_334_601_228_800 <= t.secs <= 8_210_266_876_799
    &&& t.nanos < 2_000_000_000
    &&& (t.nanos >= 1_000_000_000 ==> t.secs % 60 == 59)
}

/// The text `chrono::DateTime::<Utc>::to_rfc3339` gives for the instant.
pub uninterp spec fn rfc3339_text(secs: i64, nanos: u32) -> Seq<char>;

/// Renders an instant with `chrono::DateTime::<Utc>::to_rfc3339`.
///
/// Trusted: the contract says only that the text is the named function of the
/// instant; the format itself (date, time, fraction, `+00:00`) is left to
/// `chrono`. `renderable` is exactly where `DateTime::from_timestamp` gives
/// `Some`.
#[verifier::external_body]
pub fn rfc3339(t: UtcTimestamp) -> (r: String)
    requires
        renderable(t),
    ensures
        r@ == rfc3339_text(t.secs, t.nanos),
{
    chrono::DateTime::from_timestamp(t.secs, t.nanos).expect("renderable instant").to_rfc3339()
}

} // verus!
