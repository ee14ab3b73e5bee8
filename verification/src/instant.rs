//! Observer instants given as RFC 3339 text: the text is read by `chrono`
//! into whole seconds since the Unix epoch and the nanoseconds past them.
use vstd::prelude::*;

use crate::text::{chars_of, string_from_chars};

verus! {

/// The Unix seconds and nanoseconds of the instant that RFC 3339 `text`
/// denotes, or `None` when it is not RFC 3339.
pub uninterp spec fn rfc3339_instant(text: Seq<char>) -> Option<(i64, u32)>;

/// `chrono::DateTime::parse_from_rfc3339`, and of the parsed value its
/// `timestamp` and `timestamp_subsec_nanos`. The grammar and the calendar
/// arithmetic are the crate's: the result is named, not stated.
#[verifier::external_body]
fn parse_rfc3339(text: &str) -> (r: Option<(i64, u32)>)
    ensures
        r == rfc3339_instant(text@),
{
    match chrono::DateTime::parse_from_rfc3339(text) {
        Ok(dt) => Some((dt.timestamp(), dt.timestamp_subsec_nanos())),
        Err(_) => None,
    }
}

/// A time argument that is not RFC 3339.
#[derive(Debug, Clone, PartialEq, Eq)]
pub struct InvalidTime {
    /// The text as given.
    pub text: String,
}

impl InvalidTime {
    /// The text a host prints for this error.
    pub open spec fn message_spec(&self) -> Seq<char> {
        "Invalid RFC3339 time: "@ + self.text@
    }

    pub fn message(&self) -> (r: String)
        ensures
            r@ == self.message_spec(),
    {
        let mut v = chars_of("Invalid RFC3339 time: ");
        crate::text::push_str(&mut v, self.text.as_str());
        proof {
            reveal_strlit("Invalid RFC3339 time: ");
        }
        string_from_chars(&v)
    }
}

/// Reads an observer instant: its Unix seconds and the nanoseconds past
/// them, or the error naming the text when it is not RFC 3339.
pub fn parse_utc_instant(text: &str) -> (r: Result<(i64, u32), InvalidTime>)
    ensures
        match rfc3339_instant(text@) {
            Some(t) => r == Ok::<(i64, u32), InvalidTime>(t),
            None => r matches Err(e) && e.text@ == text@,
        },
{
    match parse_rfc3339(text) {
        Some(t) => Ok(t),
        None => Err(InvalidTime { text: string_from_chars(&chars_of(text)) }),
    }
}

} // verus!
