//! Points in time, and reading them from RFC 3339 text.

use vstd::prelude::*;

use crate::error::FeedError;

verus! {

/// A point in time: whole seconds since the Unix epoch, and the nanoseconds
/// within that second.
#[derive(Clone, Copy, Debug, PartialEq, Eq, Structural)]
pub struct Timestamp {
    pub secs: i64,
    pub nanos: u32,
}

impl Timestamp {
    /// The nanoseconds are within one second.
    pub open spec fn wf(self) -> bool {
        self.nanos < 1_000_000_000
    }

    /// `self` lies strictly after `other`: the order of time for
    /// well-formed timestamps.
    pub open spec fn later_than(self, other: Timestamp) -> bool {
        self.secs > other.secs || (self.secs == other.secs && self.nanos > other.nanos)
    }

    /// The Unix epoch: the checkpoint of a feed that was never checked.
    pub fn epoch() -> (r: Timestamp)
        ensures
            r == (Timestamp { secs: 0, nanos: 0 }),
    {
        Timestamp { secs: 0, nanos: 0 }
    }

    pub fn is_after(&self, other: &Timestamp) -> (r: bool)
        ensures
            r == self.later_than(*other),
    {
        self.secs > other.secs || (self.secs == other.secs && self.nanos > other.nanos)
    }
}

/// Seconds and nanoseconds of the instant that RFC 3339 text denotes, if it
/// is well-formed.
pub uninterp spec fn rfc3339_of(s: Seq<char>) -> Option<(i64, u32)>;

/// Relies on `time::OffsetDateTime::parse` with the `Rfc3339` description,
/// and on `unix_timestamp` and `nanosecond` of its result: the outcome is a
/// function of the text alone.
#[verifier::external_body]
fn parse_rfc3339(s: &str) -> (r: Option<(i64, u32)>)
    ensures
        r == rfc3339_of(s@),
        r matches Some((_, n)) ==> n < 1_000_000_000,
{
    time::OffsetDateTime::parse(s, &time::format_description::well_known::Rfc3339)
        .ok()
        .map(|t| (t.unix_timestamp(), t.nanosecond()))
}

/// Turns the parts that RFC 3339 parsing produced for `text` into a
/// well-formed timestamp, or reports `text` as malformed.
pub fn from_parsed(parsed: Option<(i64, u32)>, text: &str) -> (r: Result<Timestamp, FeedError>)
    ensures
        match parsed {
            Some((s, n)) if n < 1_000_000_000 => r == Ok::<Timestamp, FeedError>(
                Timestamp { secs: s, nanos: n },
            ),
            _ => r matches Err(FeedError::De(m)) && m@ == text@,
        },
        r matches Ok(t) ==> t.wf(),
{
    match parsed {
        Some((secs, nanos)) => {
            if nanos < 1_000_000_000 {
                Ok(Timestamp { secs, nanos })
            } else {
                Err(FeedError::De(text.to_owned()))
            }
        },
        None => Err(FeedError::De(text.to_owned())),
    }
}

/// Reads an RFC 3339 timestamp such as `2022-01-01T00:00:00+02:00`.
pub fn deserialize(text: &str) -> (r: Result<Timestamp, FeedError>)
    ensures
        match rfc3339_of(text@) {
            Some((s, n)) => r == Ok::<Timestamp, FeedError>(Timestamp { secs: s, nanos: n }),
            None => r matches Err(FeedError::De(m)) && m@ == text@,
        },
        r matches Ok(t) ==> t.wf(),
{
    from_parsed(parse_rfc3339(text), text)
}

} // verus!
