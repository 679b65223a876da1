use systime::datetime::{
    format_instant, format_offset_datetime, nanos_since_epoch, parse_offset_datetime,
    parse_round_trip, to_instant, to_offset_datetime_utc, DateTimeError, FormatPattern, Instant,
    OffsetDatetime, ParsePattern,
};

fn parse(text: &str, pattern: ParsePattern) -> OffsetDatetime {
    parse_offset_datetime(text, pattern).expect("sample datetime parses")
}

#[test]
fn compact_pattern_fields() {
    let x = parse("961219163957+0000", ParsePattern::Compact);
    assert_eq!(x.seconds, 851_013_597);
    assert_eq!(x.nanos, 0);
    assert_eq!(x.offset, 0);
    assert_eq!(
        format_offset_datetime(&x, FormatPattern::IsoFractional).unwrap(),
        "1996-12-19T16:39:57+00:00"
    );
    assert_eq!(
        format_offset_datetime(&x, FormatPattern::ClockTime).unwrap(),
        "12/19/1996 16:39:57"
    );
}

#[test]
fn compact_pattern_with_offset() {
    let x = parse("961219163957+0530", ParsePattern::Compact);
    assert_eq!(x.offset, 19_800);
    assert_eq!(x.seconds, 851_013_597 - 19_800);
    assert_eq!(
        format_offset_datetime(&x, FormatPattern::IsoFractional).unwrap(),
        "1996-12-19T16:39:57+05:30"
    );
}

#[test]
fn internet_pattern_keeps_milliseconds() {
    let x = parse("2018-01-26T18:30:09.453Z", ParsePattern::Internet);
    assert_eq!(x.nanos, 453_000_000);
    assert_eq!(x.offset, 0);
}

#[test]
fn clock_time_truncates_fraction() {
    let x = parse("2021-01-01T05:00:00.003Z", ParsePattern::Internet);
    let t = to_instant(&x);
    assert_eq!(format_instant(&t, FormatPattern::ClockTime).unwrap(), "01/01/2021 05:00:00");
    let y = parse("2021-01-01T05:00:00.999Z", ParsePattern::Internet);
    assert_eq!(
        format_instant(&to_instant(&y), FormatPattern::ClockTime).unwrap(),
        "01/01/2021 05:00:00"
    );
}

#[test]
fn fractional_offset_format() {
    let x = parse("2021-01-01T05:00:00.003Z", ParsePattern::Internet);
    let t = to_instant(&x);
    assert_eq!(
        format_instant(&t, FormatPattern::IsoFractional).unwrap(),
        "2021-01-01T05:00:00.003+00:00"
    );
    assert_eq!(
        format_instant(&t, FormatPattern::Iso8601).unwrap(),
        "2021-01-01T05:00:00.003+00:00"
    );
}

#[test]
fn malformed_text_is_a_parse_error() {
    let r = parse_offset_datetime("not-a-date", ParsePattern::Internet);
    assert_eq!(
        r,
        Err(DateTimeError::Parse { text: "not-a-date".to_string(), pattern: "%+".to_string() })
    );
    let r = parse_offset_datetime("not-a-date", ParsePattern::Compact);
    assert_eq!(
        r,
        Err(DateTimeError::Parse {
            text: "not-a-date".to_string(),
            pattern: "%y%m%d%H%M%S%z".to_string()
        })
    );
    assert!(parse_offset_datetime("", ParsePattern::Compact).is_err());
    assert!(parse_offset_datetime("961319163957+0000", ParsePattern::Compact).is_err());
}

#[test]
fn round_trip_keeps_the_instant() {
    let (x, back) = parse_round_trip("2018-01-26T18:30:09.453+05:30", ParsePattern::Internet).unwrap();
    assert_eq!(x.offset, 19_800);
    assert_eq!(back.offset, 0);
    assert!(back.same_instant(&x));
    assert_eq!(back.seconds, x.seconds);
    assert_eq!(back.nanos, 453_000_000);
    assert_eq!(
        format_offset_datetime(&back, FormatPattern::ClockTime).unwrap(),
        "01/26/2018 13:00:09"
    );
}

#[test]
fn round_trip_of_parse_error() {
    assert!(matches!(
        parse_round_trip("not-a-date", ParsePattern::Compact),
        Err(DateTimeError::Parse { .. })
    ));
}

#[test]
fn leap_second_carries_into_next_second() {
    let x = parse("2016-12-31T23:59:60.5Z", ParsePattern::Internet);
    assert_eq!(x.nanos, 1_500_000_000);
    let t = to_instant(&x);
    assert_eq!(t, Instant { seconds: x.seconds + 1, nanos: 500_000_000 });
    let back = to_offset_datetime_utc(&t);
    assert!(back.same_instant(&x));
    assert_eq!(
        format_instant(&t, FormatPattern::IsoFractional).unwrap(),
        "2017-01-01T00:00:00.500+00:00"
    );
}

#[test]
fn conversions_between_instant_and_datetime() {
    let x = OffsetDatetime { seconds: 100, nanos: 7, offset: -3_600 };
    let t = to_instant(&x);
    assert_eq!(t, Instant { seconds: 100, nanos: 7 });
    assert_eq!(to_offset_datetime_utc(&t), OffsetDatetime { seconds: 100, nanos: 7, offset: 0 });
}

#[test]
fn checked_constructors() {
    assert_eq!(Instant::new(5, 999_999_999), Some(Instant { seconds: 5, nanos: 999_999_999 }));
    assert_eq!(Instant::new(5, 1_000_000_000), None);
    assert_eq!(
        OffsetDatetime::new(59, 1_000_000_000, -86_399),
        Some(OffsetDatetime { seconds: 59, nanos: 1_000_000_000, offset: -86_399 })
    );
    assert_eq!(OffsetDatetime::new(0, 0, 86_400), None);
    assert_eq!(OffsetDatetime::new(0, 2_000_000_000, 0), None);
    assert_eq!(OffsetDatetime::new(i64::MAX, 1_000_000_000, 0), None);
}

#[test]
fn out_of_range_values_are_not_formatted() {
    let bad_leap = OffsetDatetime { seconds: 0, nanos: 1_500_000_000, offset: 0 };
    assert_eq!(
        format_offset_datetime(&bad_leap, FormatPattern::Iso8601),
        Err(DateTimeError::OutOfRange)
    );
    let far = Instant { seconds: i64::MIN, nanos: 0 };
    assert_eq!(format_instant(&far, FormatPattern::ClockTime), Err(DateTimeError::OutOfRange));
}

#[test]
fn epoch_formats() {
    let t = Instant { seconds: 0, nanos: 0 };
    assert_eq!(format_instant(&t, FormatPattern::Iso8601).unwrap(), "1970-01-01T00:00:00+00:00");
    let before = Instant { seconds: -1, nanos: 250_000_000 };
    assert_eq!(
        format_instant(&before, FormatPattern::IsoFractional).unwrap(),
        "1969-12-31T23:59:59.250+00:00"
    );
}

#[test]
fn nanosecond_count() {
    assert_eq!(nanos_since_epoch(2, 5), 2_000_000_005);
    assert_eq!(nanos_since_epoch(-1, 250_000_000), -750_000_000);
    assert_eq!(nanos_since_epoch(i64::MIN, 0), i64::MIN as i128 * 1_000_000_000);
}
