//! Reformatting of the records' creation timestamps.

use vstd::prelude::*;

verus! {

/// What `NaiveDateTime::parse_from_str(s, "%Y-%m-%dT%H:%M:%SZ")` followed by
/// the parsed value's `Display` yields for `s`: `None` where parsing fails,
/// else the `YYYY-MM-DD HH:MM:SS` text of the parsed value.
pub uninterp spec fn reformatted_timestamp(s: Seq<char>) -> Option<Seq<char>>;

/// A creation timestamp that is not of the form `YYYY-MM-DDTHH:MM:SSZ`.
#[derive(Debug, PartialEq, Eq, Clone)]
pub struct DateParseError {
    pub input: String,
}

/// Relies on chrono's NaiveDateTime::parse_from_str with the format
/// `%Y-%m-%dT%H:%M:%SZ`, and on NaiveDateTime's `Display` to write the parsed
/// value back as text.
#[verifier::external_body]
fn reformat_with_chrono(s: &str) -> (r: Option<String>)
    ensures
        match (r, reformatted_timestamp(s@)) {
            (Some(t), Some(u)) => t@ == u,
            (None, None) => true,
            _ => false,
        },
{
    match chrono::NaiveDateTime::parse_from_str(s, "%Y-%m-%dT%H:%M:%SZ") {
        Ok(d) => Some(d.to_string()),
        Err(_) => None,
    }
}

/// Rewrites an ISO-8601 timestamp `YYYY-MM-DDTHH:MM:SSZ` as
/// `YYYY-MM-DD HH:MM:SS`, without any time zone conversion.
pub fn reformat_timestamp(s: &str) -> (r: Result<String, DateParseError>)
    ensures
        match (r, reformatted_timestamp(s@)) {
            (Ok(t), Some(u)) => t@ == u,
            (Err(e), None) => e.input@ == s@,
            _ => false,
        },
{
    match reformat_with_chrono(s) {
        Some(t) => Ok(t),
        None => Err(DateParseError { input: String::from_str(s) }),
    }
}

} // verus!
