//! End times of auctions: reading a date-time text and holding it against
//! the current time.

use vstd::prelude::*;

verus! {

/// A point in time: whole seconds since the Unix epoch, and the nanoseconds
/// into that second. During a leap second `nanos` runs past 999,999,999.
#[derive(Debug, Clone, Copy, PartialEq, Eq, Structural)]
pub struct Timestamp {
    pub secs: i64,
    pub nanos: u32,
}

impl Timestamp {
    /// Whether `self` is strictly later than `other`.
    pub open spec fn is_after(self, other: Timestamp) -> bool {
        self.secs > other.secs || (self.secs == other.secs && self.nanos > other.nanos)
    }

    /// Whether `self` is strictly later than `other`.
    pub fn after(&self, other: &Timestamp) -> (later: bool)
        ensures
            later == self.is_after(*other),
    {
        self.secs > other.secs || (self.secs == other.secs && self.nanos > other.nanos)
    }
}

/// Why an end time was turned down.
#[derive(Debug, Clone, Copy, PartialEq, Eq, Structural)]
pub enum DateError {
    /// The text is no RFC 3339 date-time.
    Malformed,
    /// The date-time is not strictly after the current time.
    NotInFuture,
}

impl DateError {
    /// The sentence that describes this error.
    pub fn message(&self) -> (text: String)
        ensures
            *self == DateError::Malformed ==> text@ == "Invalid ISO 8601 datetime format."@,
            *self == DateError::NotInFuture ==> text@ == "The datetime should be in the future."@,
    {
        match self {
            DateError::Malformed => "Invalid ISO 8601 datetime format.".to_owned(),
            DateError::NotInFuture => "The datetime should be in the future.".to_owned(),
        }
    }
}

/// What an RFC 3339 parser makes of `text`: the seconds since the epoch and
/// the nanoseconds of the moment it names, or `None` where it names none.
pub uninterp spec fn rfc3339_moment(text: Seq<char>) -> Option<(i64, u32)>;

/// `DateTime::parse_from_rfc3339`, with the parsed moment handed out as
/// `DateTime::timestamp` and `DateTime::timestamp_subsec_nanos`. The result
/// depends on the text alone.
#[verifier::external_body]
fn parse_rfc3339(text: &str) -> (moment: Option<(i64, u32)>)
    ensures
        moment == rfc3339_moment(text@),
{
    match chrono::DateTime::parse_from_rfc3339(text) {
        Ok(parsed) => Some((parsed.timestamp(), parsed.timestamp_subsec_nanos())),
        Err(_) => None,
    }
}

/// The moment that `text` names, as a `Timestamp`.
pub open spec fn parsed_end_time(text: Seq<char>) -> Option<Timestamp> {
    match rfc3339_moment(text) {
        Some(moment) => Some(Timestamp { secs: moment.0, nanos: moment.1 }),
        None => None,
    }
}

/// The verdict on an end time that was parsed to `end`, at time `now`.
pub open spec fn end_time_verdict(end: Option<Timestamp>, now: Timestamp) -> Result<(), DateError> {
    match end {
        None => Err(DateError::Malformed),
        Some(moment) => if moment.is_after(now) {
            Ok(())
        } else {
            Err(DateError::NotInFuture)
        },
    }
}

/// Reads `text` as an RFC 3339 date-time.
pub fn parse_end_time(text: &str) -> (end: Option<Timestamp>)
    ensures
        end == parsed_end_time(text@),
{
    match parse_rfc3339(text) {
        Some(moment) => Some(Timestamp { secs: moment.0, nanos: moment.1 }),
        None => None,
    }
}

/// Accepts a parsed end time exactly when it exists and lies strictly
/// after `now`.
pub fn check_end_time(end: Option<Timestamp>, now: Timestamp) -> (verdict: Result<(), DateError>)
    ensures
        verdict == end_time_verdict(end, now),
{
    match end {
        None => Err(DateError::Malformed),
        Some(moment) => if moment.after(&now) {
            Ok(())
        } else {
            Err(DateError::NotInFuture)
        },
    }
}

/// Accepts `datetime` exactly when it is an RFC 3339 date-time strictly
/// after `now`.
pub fn validate_iso8601_datetime(datetime: &str, now: Timestamp) -> (verdict: Result<(), DateError>)
    ensures
        verdict == end_time_verdict(parsed_end_time(datetime@), now),
{
    check_end_time(parse_end_time(datetime), now)
}

} // verus!
