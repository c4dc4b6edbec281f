//! The timestamp codec: an instant, written as an RFC 3339 date and time and
//! always rendered in UTC.

use vstd::prelude::*;
use crate::fault::Kind;

verus! {

/// The instant that `chrono` reads from a text, as seconds since the Unix
/// epoch and the nanoseconds beyond them; `None` where it refuses the text.
pub uninterp spec fn timestamp_reading(text: Seq<char>) -> Option<(i64, u32)>;

/// The text that `chrono` prints for an instant in UTC; `None` where it has
/// no date and time for these seconds and nanoseconds.
pub uninterp spec fn timestamp_text(secs: i64, nanos: u32) -> Option<Seq<char>>;

/// An instant: seconds since the Unix epoch, and the nanoseconds beyond them
/// (a second or more of them only within a leap second).
#[derive(Debug, Clone, Copy, PartialEq, Eq, Hash)]
pub struct Timestamp {
    secs: i64,
    nanos: u32,
}

impl View for Timestamp {
    type V = (i64, u32);

    closed spec fn view(&self) -> (i64, u32) {
        (self.secs, self.nanos)
    }
}

/// `FromStr` of `chrono::DateTime<Utc>`, with `timestamp` and
/// `timestamp_subsec_nanos` of the instant it read. Claimed of it: the result
/// depends on the text alone, and `DateTime::from_timestamp` accepts what
/// these two return, as its documentation guarantees.
#[verifier::external_body]
fn chrono_parse(text: &str) -> (r: Option<(i64, u32)>)
    ensures
        r == timestamp_reading(text@),
        r is Some ==> timestamp_text(r->Some_0.0, r->Some_0.1) is Some,
{
    text.parse::<chrono::DateTime<chrono::Utc>>().ok().map(
        |t| (t.timestamp(), t.timestamp_subsec_nanos()),
    )
}

/// `chrono::DateTime::from_timestamp`, printed by `to_rfc3339_opts` with as
/// many fractional digits as the instant needs and `Z` for the offset.
/// Claimed of it: whether there is a text, and the text, depend on the
/// seconds and nanoseconds alone.
#[verifier::external_body]
fn chrono_format(secs: i64, nanos: u32) -> (r: Option<String>)
    ensures
        match r {
            Some(text) => timestamp_text(secs, nanos) == Some(text@),
            None => timestamp_text(secs, nanos) is None,
        },
{
    chrono::DateTime::from_timestamp(secs, nanos).map(
        |t| t.to_rfc3339_opts(chrono::SecondsFormat::AutoSi, true),
    )
}

impl Timestamp {
    #[verifier::type_invariant]
    spec fn has_a_text(self) -> bool {
        timestamp_text(self.secs, self.nanos) is Some
    }

    /// What reading a text gives: the instant, or the refusal.
    pub open spec fn decoding(text: Seq<char>) -> Result<(i64, u32), Kind> {
        match timestamp_reading(text) {
            Some(parts) => Ok(parts),
            None => Err(Kind::InvalidTimestamp),
        }
    }

    /// The text of an instant that has one.
    pub open spec fn encoding(parts: (i64, u32)) -> Seq<char>
        recommends
            timestamp_text(parts.0, parts.1) is Some,
    {
        timestamp_text(parts.0, parts.1)->Some_0
    }

    /// Whether an instant has a text, and the text reads back as that
    /// instant.
    pub open spec fn reads_back(parts: (i64, u32)) -> bool {
        &&& timestamp_text(parts.0, parts.1) is Some
        &&& Timestamp::decoding(Timestamp::encoding(parts)) == Ok::<(i64, u32), Kind>(parts)
    }

    /// Reads an instant; the offset that the text gives is applied.
    pub fn decode(text: &str) -> (r: Result<Timestamp, Kind>)
        ensures
            match r {
                Ok(at) => Timestamp::decoding(text@) == Ok::<(i64, u32), Kind>(at@),
                Err(kind) => Timestamp::decoding(text@) == Err::<(i64, u32), Kind>(kind),
            },
            r is Ok ==> timestamp_text(r->Ok_0@.0, r->Ok_0@.1) is Some,
    {
        match chrono_parse(text) {
            Some((secs, nanos)) => Ok(Timestamp { secs, nanos }),
            None => Err(Kind::InvalidTimestamp),
        }
    }

    /// Writes the instant in UTC.
    pub fn encode(&self) -> (text: String)
        ensures
            timestamp_text(self@.0, self@.1) == Some(text@),
    {
        proof {
            use_type_invariant(self);
        }
        match chrono_format(self.secs, self.nanos) {
            Some(text) => text,
            None => String::new(),
        }
    }

    /// Whether two instants are the same.
    pub fn same_as(&self, other: &Timestamp) -> (same: bool)
        ensures
            same == (self@ == other@),
    {
        self.secs == other.secs && self.nanos == other.nanos
    }

    /// An instant from its parts; `None` where there is no date and time for
    /// them.
    pub fn new(secs: i64, nanos: u32) -> (r: Option<Timestamp>)
        ensures
            match r {
                Some(at) => at@ == (secs, nanos) && timestamp_text(secs, nanos) is Some,
                None => timestamp_text(secs, nanos) is None,
            },
    {
        match chrono_format(secs, nanos) {
            Some(_) => Some(Timestamp { secs, nanos }),
            None => None,
        }
    }

    /// Seconds since the Unix epoch.
    pub fn secs(&self) -> (secs: i64)
        ensures
            secs == self@.0,
    {
        self.secs
    }

    /// The nanoseconds beyond the whole seconds.
    pub fn nanos(&self) -> (nanos: u32)
        ensures
            nanos == self@.1,
    {
        self.nanos
    }
}

} // verus!
