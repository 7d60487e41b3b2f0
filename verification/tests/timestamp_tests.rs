use eventkit_mcp_server::error::ErrorKind;
use eventkit_mcp_server::timestamp::{
    date_from_parse, parse_datetime, Timestamp, FOUR_DIGIT_YEARS_END, FOUR_DIGIT_YEARS_START,
    MAX_SECS, MIN_SECS,
};

fn chrono_accepts(secs: i64, nanos: u32) -> bool {
    chrono::DateTime::from_timestamp(secs, nanos).is_some()
}

#[test]
fn range_matches_chrono_at_both_ends() {
    for (secs, nanos) in [
        (MIN_SECS, 0u32),
        (MIN_SECS - 1, 0),
        (MAX_SECS, 0),
        (MAX_SECS + 1, 0),
        (MAX_SECS, 999_999_999),
        (0, 0),
        (59, 1_500_000_000),
        (58, 1_500_000_000),
        (-1, 1_000_000_000),
        (-2, 1_000_000_000),
        (119, 1_999_999_999),
        (119, 2_000_000_000),
    ] {
        assert_eq!(
            Timestamp::from_parts(secs, nanos).is_some(),
            chrono_accepts(secs, nanos),
            "secs {secs} nanos {nanos}"
        );
    }
}

#[test]
fn from_parts_keeps_parts() {
    let t = Timestamp::from_parts(1_782_896_400, 250).unwrap();
    assert_eq!(t.secs(), 1_782_896_400);
    assert_eq!(t.nanos(), 250);
}

#[test]
fn parse_datetime_reads_utc() {
    let t = parse_datetime("2026-07-01T09:00:00Z", "start").unwrap();
    let expected = chrono::DateTime::parse_from_rfc3339("2026-07-01T09:00:00Z").unwrap();
    assert_eq!(t.secs(), expected.timestamp());
    assert_eq!(t.secs(), 1_782_896_400);
    assert_eq!(t.nanos(), 0);
}

#[test]
fn parse_datetime_converts_offsets_to_utc() {
    let a = parse_datetime("2026-07-01T11:00:00+02:00", "start").unwrap();
    let b = parse_datetime("2026-07-01T09:00:00Z", "start").unwrap();
    assert_eq!(a, b);
}

#[test]
fn parse_datetime_keeps_fraction() {
    let t = parse_datetime("2026-07-01T09:00:00.5Z", "end").unwrap();
    assert_eq!(t.nanos(), 500_000_000);
}

#[test]
fn parse_datetime_rejects_malformed_text() {
    let e = parse_datetime("tomorrow", "due_date").unwrap_err();
    assert_eq!(e.kind, ErrorKind::InvalidParams);
    let chrono_err = chrono::DateTime::parse_from_rfc3339("tomorrow").unwrap_err();
    assert_eq!(e.message, format!("invalid due_date: {chrono_err}"));
}

#[test]
fn parse_datetime_rejects_missing_offset() {
    let e = parse_datetime("2026-07-01T09:00:00", "start").unwrap_err();
    assert_eq!(e.kind, ErrorKind::InvalidParams);
    assert!(e.message.starts_with("invalid start: "));
}

#[test]
fn to_rfc3339_writes_utc_offset() {
    let t = parse_datetime("2026-07-01T09:00:00Z", "start").unwrap();
    assert_eq!(t.to_rfc3339(), "2026-07-01T09:00:00+00:00");
}

#[test]
fn to_rfc3339_of_epoch() {
    let t = Timestamp::from_parts(0, 0).unwrap();
    assert_eq!(t.to_rfc3339(), "1970-01-01T00:00:00+00:00");
}

#[test]
fn to_rfc3339_writes_fraction() {
    let t = Timestamp::from_parts(0, 123_000_000).unwrap();
    assert_eq!(t.to_rfc3339(), "1970-01-01T00:00:00.123+00:00");
}

#[test]
fn to_rfc3339_at_range_end() {
    let t = Timestamp::from_parts(MAX_SECS, 0).unwrap();
    let expected = chrono::DateTime::from_timestamp(MAX_SECS, 0).unwrap().to_rfc3339();
    assert_eq!(t.to_rfc3339(), expected);
}

#[test]
fn date_from_parse_success() {
    let t = date_from_parse(Ok((10, 20)), "start").unwrap();
    assert_eq!((t.secs(), t.nanos()), (10, 20));
}

#[test]
fn date_from_parse_failure_message() {
    let e = date_from_parse(Err("premature end of input".to_string()), "end").unwrap_err();
    assert_eq!(e.kind, ErrorKind::InvalidParams);
    assert_eq!(e.message, "invalid end: premature end of input");
}

#[test]
fn parse_datetime_accepts_leap_second() {
    let t = parse_datetime("2016-12-31T23:59:60.5+05:30", "start").unwrap();
    let chrono_dt = chrono::DateTime::parse_from_rfc3339("2016-12-31T23:59:60.5+05:30").unwrap();
    assert_eq!(t.secs(), chrono_dt.timestamp());
    assert_eq!(t.nanos(), 1_500_000_000);
    assert_eq!(t.to_rfc3339(), chrono_dt.with_timezone(&chrono::Utc).to_rfc3339());
}

#[test]
fn four_digit_year_bounds_match_chrono() {
    let first = chrono::DateTime::parse_from_rfc3339("0000-01-01T00:00:00Z").unwrap();
    let last = chrono::DateTime::parse_from_rfc3339("9999-12-31T23:59:59Z").unwrap();
    assert_eq!(first.timestamp(), FOUR_DIGIT_YEARS_START);
    assert_eq!(last.timestamp(), FOUR_DIGIT_YEARS_END);
}

#[test]
fn written_dates_read_back() {
    for (secs, nanos) in [
        (FOUR_DIGIT_YEARS_START, 0u32),
        (FOUR_DIGIT_YEARS_END, 999_999_999),
        (0, 0),
        (1_782_896_400, 0),
        (1_782_896_400, 500_000_000),
        (1_782_896_400, 123_456),
        (1_782_896_400, 7),
        (-1, 1_250_000_000),
        (1_483_228_799, 1_000_000_000),
    ] {
        let t = Timestamp::from_parts(secs, nanos).unwrap();
        let text = t.to_rfc3339();
        assert_eq!(parse_datetime(&text, "start"), Ok(t), "{text}");
    }
}

#[test]
fn five_digit_year_does_not_read_back() {
    let t = Timestamp::from_parts(FOUR_DIGIT_YEARS_END + 1, 0).unwrap();
    let text = t.to_rfc3339();
    assert_eq!(text, "+10000-01-01T00:00:00+00:00");
    assert!(parse_datetime(&text, "start").is_err());
}
