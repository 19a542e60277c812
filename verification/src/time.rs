//! Instants in time, and the boundary to the date parser.

use vstd::prelude::*;

verus! {

/// An instant on the UTC time line: whole seconds since the start of 1970,
/// not counting leap seconds, and the nanoseconds past that second.
#[derive(Clone, Copy, Debug, PartialEq, Eq, Structural)]
pub struct Timestamp {
    pub secs: i64,
    pub nanos: u32,
}

/// The instant that `chrono` reads from a text, as seconds and nanoseconds:
/// `None` where `chrono` does not take the text for a date and time with an
/// offset from UTC.
pub uninterp spec fn utc_instant(text: Seq<char>) -> Option<(i64, u32)>;

/// Parses a date and time with `chrono`, as `str::parse::<DateTime<Utc>>`
/// does, and takes the instant out of it with `DateTime::timestamp` and
/// `DateTime::timestamp_subsec_nanos`.
///
/// Trusted: the result is a function of the text alone, named
/// [`utc_instant`]. It is `None` where `chrono` reports an error.
#[verifier::external_body]
pub(crate) fn parse_timestamp(text: &str) -> (at: Option<Timestamp>)
    ensures
        match at {
            Some(t) => utc_instant(text@) == Some((t.secs, t.nanos)),
            None => utc_instant(text@) is None,
        },
{
    match text.parse::<chrono::DateTime<chrono::Utc>>() {
        Ok(at) => Some(Timestamp { secs: at.timestamp(), nanos: at.timestamp_subsec_nanos() }),
        Err(_) => None,
    }
}

} // verus!
