use vstd::prelude::*;

verus! {

/// An instant as the Unix timestamp in whole seconds and the nanoseconds
/// past that second (above one billion only inside a leap second).
#[derive(Clone, Copy, Debug, PartialEq, Eq, Structural)]
pub struct Timestamp {
    pub secs: i64,
    pub nanos: u32,
}

/// Fixed delay after which a released handle becomes claimable again: 37 days.
pub const DROP_OFFSET_SECS: i64 = 3196800;

/// Instants are ordered by second, then by nanosecond.
pub open spec fn ts_le(a: Timestamp, b: Timestamp) -> bool {
    a.secs < b.secs || (a.secs == b.secs && a.nanos <= b.nanos)
}

/// The instant `t` moved forward by the drop offset, when the seconds fit in `i64`.
pub open spec fn shifted(t: Timestamp) -> Option<Timestamp> {
    if t.secs + DROP_OFFSET_SECS <= i64::MAX {
        Some(Timestamp { secs: (t.secs + DROP_OFFSET_SECS) as i64, nanos: t.nanos })
    } else {
        None
    }
}

/// What chrono reads from an RFC 3339 text as a UTC instant: seconds and nanoseconds.
pub uninterp spec fn utc_parse(s: Seq<char>) -> Option<(i64, u32)>;

/// The RFC 3339 text of an instant in the Europe/Paris time zone, when chrono
/// can represent it.
pub uninterp spec fn paris_rfc3339(secs: i64, nanos: u32) -> Option<Seq<char>>;

/// Relies on `<chrono::DateTime<Utc> as FromStr>::from_str`, then
/// `DateTime::timestamp` and `DateTime::timestamp_subsec_nanos`: the instant
/// that the text denotes, or `None` when chrono rejects the text.
#[verifier::external_body]
fn parse_utc(s: &str) -> (r: Option<(i64, u32)>)
    ensures
        r == utc_parse(s@),
{
    match s.parse::<chrono::DateTime<chrono::Utc>>() {
        Ok(d) => Some((d.timestamp(), d.timestamp_subsec_nanos())),
        Err(_) => None,
    }
}

/// Relies on `chrono::DateTime::from_timestamp`, then `with_timezone` to
/// `chrono_tz::Europe::Paris` and `to_rfc3339`: the text of the instant in Paris
/// time, or `None` when chrono cannot represent the instant.
#[verifier::external_body]
fn format_paris(secs: i64, nanos: u32) -> (r: Option<String>)
    ensures
        match r {
            Some(s) => paris_rfc3339(secs, nanos) == Some(s@),
            None => paris_rfc3339(secs, nanos) is None,
        },
{
    chrono::DateTime::from_timestamp(secs, nanos).map(
        |d| d.with_timezone(&chrono_tz::Europe::Paris).to_rfc3339(),
    )
}

/// The instant denoted by an RFC 3339 text, or `None` when it cannot be read.
pub open spec fn read_spec(s: Seq<char>) -> Option<Timestamp> {
    match utc_parse(s) {
        Some(p) => Some(Timestamp { secs: p.0, nanos: p.1 }),
        None => None,
    }
}

impl Timestamp {
    /// Reads an RFC 3339 text (any offset) as an instant.
    pub fn parse_rfc3339(s: &str) -> (r: Option<Timestamp>)
        ensures
            r == read_spec(s@),
    {
        match parse_utc(s) {
            Some(p) => Some(Timestamp { secs: p.0, nanos: p.1 }),
            None => None,
        }
    }

    /// The RFC 3339 text of this instant in the reporting time zone.
    pub fn to_paris_rfc3339(&self) -> (r: Option<String>)
        ensures
            match r {
                Some(s) => paris_rfc3339(self.secs, self.nanos) == Some(s@),
                None => paris_rfc3339(self.secs, self.nanos) is None,
            },
    {
        format_paris(self.secs, self.nanos)
    }

    /// This instant plus the drop offset, or `None` past the range of `i64` seconds.
    pub fn plus_drop_offset(&self) -> (r: Option<Timestamp>)
        ensures
            r == shifted(*self),
    {
        match self.secs.checked_add(DROP_OFFSET_SECS) {
            Some(s) => Some(Timestamp { secs: s, nanos: self.nanos }),
            None => None,
        }
    }
}

} // verus!
