use wundergraph::lookahead::FromLookAheadValue;
use wundergraph::scalar::ScalarValue;
use wundergraph::time::{CalendarDate, OffsetTimestamp, Timestamp, UtcTimestamp};

#[test]
fn timestamp_parses_rfc3339_text() {
    let node = ScalarValue::Text(String::from("1970-01-01T00:00:00+00:00"));
    assert_eq!(Timestamp::from_look_ahead(&node), Some(Timestamp { micros: 0 }));
    let node = ScalarValue::Text(String::from("1970-01-01T00:00:01.500000+00:00"));
    assert_eq!(Timestamp::from_look_ahead(&node), Some(Timestamp { micros: 1_500_000 }));
}

#[test]
fn timestamp_rejects_other_text_and_tags() {
    assert_eq!(Timestamp::from_look_ahead(&ScalarValue::Text(String::from("yesterday"))), None);
    assert_eq!(Timestamp::from_look_ahead(&ScalarValue::Int(0)), None);
}

#[test]
fn utc_timestamp_parses_text() {
    let node = ScalarValue::Text(String::from("1970-01-01T00:00:00Z"));
    assert_eq!(UtcTimestamp::from_look_ahead(&node), Some(UtcTimestamp { micros: 0 }));
    let node = ScalarValue::Text(String::from("1970-01-02T00:00:00Z"));
    assert_eq!(UtcTimestamp::from_look_ahead(&node), Some(UtcTimestamp { micros: 86_400_000_000 }));
    assert_eq!(UtcTimestamp::from_look_ahead(&ScalarValue::Text(String::from("soon"))), None);
    assert_eq!(UtcTimestamp::from_look_ahead(&ScalarValue::Null), None);
}

#[test]
fn offset_timestamp_keeps_the_offset() {
    let node = ScalarValue::Text(String::from("1970-01-01T01:00:00+01:00"));
    assert_eq!(
        OffsetTimestamp::from_look_ahead(&node),
        Some(OffsetTimestamp { micros: 0, offset_seconds: 3600 })
    );
    let node = ScalarValue::Text(String::from("1970-01-01T00:00:00-05:00"));
    assert_eq!(
        OffsetTimestamp::from_look_ahead(&node),
        Some(OffsetTimestamp { micros: 18_000_000_000, offset_seconds: -18_000 })
    );
    assert_eq!(OffsetTimestamp::from_look_ahead(&ScalarValue::Text(String::from("x"))), None);
    assert_eq!(OffsetTimestamp::from_look_ahead(&ScalarValue::Boolean(true)), None);
}

#[test]
fn calendar_date_parses_date_only_text() {
    let node = ScalarValue::Text(String::from("1970-01-01"));
    assert_eq!(CalendarDate::from_look_ahead(&node), Some(CalendarDate { days_from_ce: 719_163 }));
    let node = ScalarValue::Text(String::from("0001-01-01"));
    assert_eq!(CalendarDate::from_look_ahead(&node), Some(CalendarDate { days_from_ce: 1 }));
    assert_eq!(CalendarDate::from_look_ahead(&ScalarValue::Text(String::from("01/01/1970"))), None);
    assert_eq!(CalendarDate::from_look_ahead(&ScalarValue::Int(0)), None);
}
