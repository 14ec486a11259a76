use sdlc_graph::dates::{midnight_utc, parse_datetime, parse_optional_datetime};

#[test]
fn rfc3339_instants() {
    let t = parse_datetime("2024-01-15T10:30:00Z").unwrap();
    assert_eq!(t.seconds, 1_705_314_600);
    assert_eq!(t.nanos, 0);
    let t = parse_datetime("2024-01-15T10:30:00.25+01:00").unwrap();
    assert_eq!(t.seconds, 1_705_311_000);
    assert_eq!(t.nanos, 250_000_000);
    let t = parse_datetime("1970-01-01 00:00:01Z").unwrap();
    assert_eq!(t.seconds, 1);
}

#[test]
fn plain_dates_are_midnight_utc() {
    let t = parse_datetime("2024-01-15").unwrap();
    assert_eq!(t.seconds, 1_705_276_800);
    assert_eq!(t.nanos, 0);
    assert_eq!(parse_datetime("1970-01-01").unwrap().seconds, 0);
    assert_eq!(parse_datetime("1969-12-31").unwrap().seconds, -86_400);
}

#[test]
fn unreadable_texts_are_refused() {
    assert!(parse_datetime("yesterday").is_err());
    assert!(parse_datetime("2024-02-30").is_err());
    assert!(parse_datetime("").is_err());
    let e = parse_datetime("2024-13-01").unwrap_err();
    assert!(!e.is_empty());
}

#[test]
fn optional_instants() {
    assert!(parse_optional_datetime(None).unwrap().is_none());
    assert_eq!(parse_optional_datetime(Some("2000-01-01".to_string())).unwrap().unwrap().seconds, 946_684_800);
    assert!(parse_optional_datetime(Some("nope".to_string())).is_err());
}

#[test]
fn midnight_from_day_numbers() {
    assert_eq!(midnight_utc(719_163).seconds, 0);
    assert_eq!(midnight_utc(719_164).seconds, 86_400);
    assert_eq!(midnight_utc(1).seconds, -62_135_596_800);
    assert_eq!(midnight_utc(i32::MAX).seconds, (i32::MAX as i64 - 719_163) * 86_400);
    assert_eq!(midnight_utc(0).nanos, 0);
}
