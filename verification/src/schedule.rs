//! The calls that decide whether a workflow's schedule fields can be read:
//! `jiff` for the one-off schedule time, `cron` for the cron expression.
use std::str::FromStr;
use vstd::prelude::*;

verus! {

/// Whether `jiff` reads the text as a `jiff::Timestamp` (an RFC 3339 /
/// ISO 8601 instant with an offset). A function of the text alone: the
/// parser consults no time zone database for a timestamp.
pub uninterp spec fn parses_as_timestamp(text: Seq<char>) -> bool;

/// Whether the `cron` crate reads the text as a `cron::Schedule`.
pub uninterp spec fn parses_as_cron_schedule(text: Seq<char>) -> bool;

/// Parses a schedule time with `str::parse::<jiff::Timestamp>` and reports
/// whether that succeeded.
///
/// Trusted: the contract says only that the outcome is the named predicate
/// of the text; what the grammar accepts is left to `jiff`.
#[verifier::external_body]
pub fn timestamp_parses(text: &str) -> (ok: bool)
    ensures
        ok == parses_as_timestamp(text@),
{
    text.parse::<jiff::Timestamp>().is_ok()
}

/// Parses a cron expression with `cron::Schedule::from_str` and reports
/// whether that succeeded.
///
/// Trusted: the contract says only that the outcome is the named predicate
/// of the text; what the grammar accepts is left to `cron`.
#[verifier::external_body]
pub fn cron_expression_parses(text: &str) -> (ok: bool)
    ensures
        ok == parses_as_cron_schedule(text@),
{
    cron::Schedule::from_str(text).is_ok()
}

} // verus!
