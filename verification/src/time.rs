use vstd::prelude::*;

verus! {

/// The instant that an RFC 3339 text names, in whole seconds since the Unix
/// epoch; `None` for any other text.
pub uninterp spec fn rfc3339_timestamp(text: Seq<char>) -> Option<i64>;

/// The instant that `text` names when read by the strftime-like `format` as a
/// date and time of day in UTC, in whole seconds since the Unix epoch; `None`
/// where the text does not fit the format.
pub uninterp spec fn naive_timestamp(text: Seq<char>, format: Seq<char>) -> Option<i64>;

/// `chrono::DateTime::parse_from_rfc3339`, then `timestamp`.
#[verifier::external_body]
pub(crate) fn parse_rfc3339(text: &str) -> (r: Option<i64>)
    ensures
        r == rfc3339_timestamp(text@),
{
    chrono::DateTime::parse_from_rfc3339(text).ok().map(|t| t.timestamp())
}

/// `chrono::NaiveDateTime::parse_from_str`, the result taken as UTC, then
/// `timestamp`.
#[verifier::external_body]
pub(crate) fn parse_naive(text: &str, format: &str) -> (r: Option<i64>)
    ensures
        r == naive_timestamp(text@, format@),
{
    chrono::NaiveDateTime::parse_from_str(text, format).ok().map(|t| t.and_utc().timestamp())
}

} // verus!
