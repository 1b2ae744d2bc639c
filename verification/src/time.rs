use crate::lookahead::FromLookAheadValue;
use crate::scalar::{ScalarAbs, ScalarValue};
use vstd::prelude::*;

verus! {

/// A point in time without a time zone, held as microseconds since the
/// Unix epoch of the written calendar fields.
#[derive(Debug, Clone, Copy, PartialEq, Eq, Structural)]
pub struct Timestamp {
    pub micros: i64,
}

/// A point in time in Coordinated Universal Time, held as microseconds
/// since the Unix epoch.
#[derive(Debug, Clone, Copy, PartialEq, Eq, Structural)]
pub struct UtcTimestamp {
    pub micros: i64,
}

/// A point in time with a fixed offset from Coordinated Universal Time:
/// microseconds since the Unix epoch together with the offset in seconds.
#[derive(Debug, Clone, Copy, PartialEq, Eq, Structural)]
pub struct OffsetTimestamp {
    pub micros: i64,
    pub offset_seconds: i32,
}

/// A calendar date, held as its day number counted from the first day of
/// the common era.
#[derive(Debug, Clone, Copy, PartialEq, Eq, Structural)]
pub struct CalendarDate {
    pub days_from_ce: i32,
}

/// The microseconds-since-epoch value written by an RFC 3339 timestamp read
/// without its offset, or absence when the text does not parse.
pub uninterp spec fn parsed_naive_datetime(s: Seq<char>) -> Option<i64>;

/// The microseconds-since-epoch value of a timestamp text read as
/// Coordinated Universal Time, or absence when the text does not parse.
pub uninterp spec fn parsed_utc_datetime(s: Seq<char>) -> Option<i64>;

/// The microseconds-since-epoch value and offset seconds of an RFC 3339
/// timestamp, or absence when the text does not parse.
pub uninterp spec fn parsed_offset_datetime(s: Seq<char>) -> Option<(i64, i32)>;

/// The day number from the first day of the common era written by a date
/// text, or absence when the text does not parse.
pub uninterp spec fn parsed_calendar_date(s: Seq<char>) -> Option<i32>;

/// Relies on chrono::NaiveDateTime::parse_from_str with the RFC 3339 parse
/// format, and on chrono's microseconds-since-epoch conversion: the result
/// depends on the characters alone.
#[verifier::external_body]
fn parse_naive_datetime_text(s: &str) -> (r: Option<i64>)
    ensures
        r == parsed_naive_datetime(s@),
{
    chrono::NaiveDateTime::parse_from_str(s, "%+").ok().map(|d| d.and_utc().timestamp_micros())
}

/// Relies on chrono's string parse of a timestamp in Coordinated Universal
/// Time, and on chrono's microseconds-since-epoch conversion: the result
/// depends on the characters alone.
#[verifier::external_body]
fn parse_utc_datetime_text(s: &str) -> (r: Option<i64>)
    ensures
        r == parsed_utc_datetime(s@),
{
    s.parse::<chrono::DateTime<chrono::Utc>>().ok().map(|d| d.timestamp_micros())
}

/// Relies on chrono::DateTime::parse_from_rfc3339, chrono's
/// microseconds-since-epoch conversion and chrono::FixedOffset's offset
/// seconds: the result depends on the characters alone.
#[verifier::external_body]
fn parse_offset_datetime_text(s: &str) -> (r: Option<(i64, i32)>)
    ensures
        r == parsed_offset_datetime(s@),
{
    chrono::DateTime::parse_from_rfc3339(s).ok().map(
        |d| (d.timestamp_micros(), d.offset().local_minus_utc()),
    )
}

/// Relies on chrono::NaiveDate::parse_from_str with the date-only format,
/// and on chrono::Datelike::num_days_from_ce: the result depends on the
/// characters alone.
#[verifier::external_body]
fn parse_calendar_date_text(s: &str) -> (r: Option<i32>)
    ensures
        r == parsed_calendar_date(s@),
{
    chrono::NaiveDate::parse_from_str(s, "%Y-%m-%d").ok().map(|d| chrono::Datelike::num_days_from_ce(&d))
}

impl FromLookAheadValue for Timestamp {
    /// A timestamp accepts a string node whose text parses.
    open spec fn converts(v: ScalarAbs) -> bool {
        v matches ScalarAbs::Text(s) && parsed_naive_datetime(s) is Some
    }

    open spec fn converted(v: ScalarAbs, r: Timestamp) -> bool {
        v matches ScalarAbs::Text(s) && parsed_naive_datetime(s) == Some(r.micros)
    }

    fn from_look_ahead(v: &ScalarValue) -> Option<Timestamp> {
        if let ScalarValue::Text(s) = v {
            match parse_naive_datetime_text(s.as_str()) {
                Some(m) => Some(Timestamp { micros: m }),
                None => None,
            }
        } else {
            None
        }
    }
}

impl FromLookAheadValue for UtcTimestamp {
    /// A timestamp in Coordinated Universal Time accepts a string node whose
    /// text parses.
    open spec fn converts(v: ScalarAbs) -> bool {
        v matches ScalarAbs::Text(s) && parsed_utc_datetime(s) is Some
    }

    open spec fn converted(v: ScalarAbs, r: UtcTimestamp) -> bool {
        v matches ScalarAbs::Text(s) && parsed_utc_datetime(s) == Some(r.micros)
    }

    fn from_look_ahead(v: &ScalarValue) -> Option<UtcTimestamp> {
        if let ScalarValue::Text(s) = v {
            match parse_utc_datetime_text(s.as_str()) {
                Some(m) => Some(UtcTimestamp { micros: m }),
                None => None,
            }
        } else {
            None
        }
    }
}

impl FromLookAheadValue for OffsetTimestamp {
    /// A fixed-offset timestamp accepts a string node whose text parses as
    /// RFC 3339.
    open spec fn converts(v: ScalarAbs) -> bool {
        v matches ScalarAbs::Text(s) && parsed_offset_datetime(s) is Some
    }

    open spec fn converted(v: ScalarAbs, r: OffsetTimestamp) -> bool {
        v matches ScalarAbs::Text(s) && parsed_offset_datetime(s) == Some(
            (r.micros, r.offset_seconds),
        )
    }

    fn from_look_ahead(v: &ScalarValue) -> Option<OffsetTimestamp> {
        if let ScalarValue::Text(s) = v {
            match parse_offset_datetime_text(s.as_str()) {
                Some(p) => Some(OffsetTimestamp { micros: p.0, offset_seconds: p.1 }),
                None => None,
            }
        } else {
            None
        }
    }
}

impl FromLookAheadValue for CalendarDate {
    /// A calendar date accepts a string node whose text parses as a
    /// date-only form.
    open spec fn converts(v: ScalarAbs) -> bool {
        v matches ScalarAbs::Text(s) && parsed_calendar_date(s) is Some
    }

    open spec fn converted(v: ScalarAbs, r: CalendarDate) -> bool {
        v matches ScalarAbs::Text(s) && parsed_calendar_date(s) == Some(r.days_from_ce)
    }

    fn from_look_ahead(v: &ScalarValue) -> Option<CalendarDate> {
        if let ScalarValue::Text(s) = v {
            match parse_calendar_date_text(s.as_str()) {
                Some(d) => Some(CalendarDate { days_from_ce: d }),
                None => None,
            }
        } else {
            None
        }
    }
}

} // verus!
