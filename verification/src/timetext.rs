//! Parsing the free-text time fields of the search form.
//!
//! The fixed input format is `YYYY-MM-DD HH:MM:SS`, read as a UTC instant.
//! The calendar arithmetic is done by the `chrono` crate; the library only
//! names its result, so everything downstream is verified for whatever
//! epoch value the parse yields.

use vstd::prelude::*;

verus! {

/// The UTC epoch seconds denoted by `s` under the fixed
/// `YYYY-MM-DD HH:MM:SS` format, or `None` when `s` is not a valid
/// date-time in that format. The value is a function of the text alone.
pub uninterp spec fn epoch_of_datetime_text(s: Seq<char>) -> Option<i64>;

/// Relies on `chrono::NaiveDateTime::parse_from_str` with the fixed format
/// `"%Y-%m-%d %H:%M:%S"`, then `NaiveDateTime::and_utc` and
/// `DateTime::timestamp` to read the parsed instant as UTC epoch seconds.
/// The outcome depends on the characters of `s` alone.
#[verifier::external_body]
pub(crate) fn parse_datetime_text(s: &str) -> (r: Option<i64>)
    ensures
        r == epoch_of_datetime_text(s@),
{
    match chrono::NaiveDateTime::parse_from_str(s, "%Y-%m-%d %H:%M:%S") {
        Ok(dt) => Some(dt.and_utc().timestamp()),
        Err(_) => None,
    }
}

} // verus!
