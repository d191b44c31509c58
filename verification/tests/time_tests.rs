use chrono::{TimeZone, Utc};
use loki_mcp::time::{
    default_query_window, parse_relative_duration, parse_std_duration, parse_time_of_day,
    parse_time_reference, resolve_time_range, split_value_and_unit, Instant, Span, TimeFault, Zone,
};

fn at(year: i32, month: u32, day: u32, hour: u32, minute: u32, second: u32) -> Instant {
    let moment = Utc
        .with_ymd_and_hms(year, month, day, hour, minute, second)
        .single()
        .expect("fixed timestamp");
    Instant::new(moment.timestamp(), 0)
}

fn new_york() -> Zone {
    Zone::parse("America/New_York").expect("known zone")
}

#[test]
fn default_window_is_30_minutes() {
    let now = Utc::now();
    let end = Instant::new(now.timestamp(), now.timestamp_subsec_nanos() % 1_000_000_000);
    let (start, returned_end) = default_query_window(end);
    assert_eq!(returned_end, end);
    assert_eq!(returned_end.since(&start), Some(Span::from_secs(30 * 60)));
}

#[test]
fn parses_relative_duration_units() {
    assert_eq!(parse_relative_duration("5m").expect("valid"), Span::from_secs(5 * 60));
    assert_eq!(parse_relative_duration("250ms").expect("valid"), Span::from_millis(250));
}

#[test]
fn parses_std_duration_units() {
    assert_eq!(parse_std_duration("30s").expect("valid"), Span::from_secs(30));
    assert_eq!(parse_std_duration("2m").expect("valid"), Span::from_secs(120));
}

#[test]
fn parses_since_time_reference() {
    let now = at(2026, 2, 18, 20, 0, 0);
    let parsed = parse_time_reference("since 2pm", new_york(), now).expect("parse time");
    let expected = at(2026, 2, 18, 19, 0, 0);
    assert_eq!(parsed, expected);
}

#[test]
fn resolves_default_window_when_start_and_end_missing() {
    let now = at(2026, 2, 18, 12, 0, 0);
    let (start, end) = resolve_time_range(None, None, new_york(), now).expect("valid range");
    assert_eq!(end, now);
    assert_eq!(end.since(&start), Some(Span::from_secs(30 * 60)));
}

#[test]
fn rejects_inverted_ranges() {
    let now = at(2026, 2, 18, 12, 0, 0);
    let error = match resolve_time_range(
        Some("2026-02-18T13:00:00Z"),
        Some("2026-02-18T12:00:00Z"),
        new_york(),
        now,
    ) {
        Ok(_) => panic!("invalid range should fail"),
        Err(error) => error,
    };
    assert!(error.message().contains("start time must be less than or equal to end time"));
    assert_eq!(error.kind, TimeFault::Inverted);
}

#[test]
fn std_duration_knows_every_unit() {
    assert_eq!(parse_std_duration("1500ms").expect("valid"), Span { secs: 1, nanos: 500_000_000 });
    assert_eq!(parse_std_duration("3h").expect("valid"), Span::from_secs(10_800));
    assert_eq!(parse_std_duration("2d").expect("valid"), Span::from_secs(172_800));
    assert_eq!(parse_std_duration(" 1 5 M ").expect("valid"), Span::from_secs(900));
    assert_eq!(parse_std_duration("0").map_err(|e| e.kind), Err(TimeFault::MissingUnit));
    assert_eq!(parse_std_duration("0x").expect("zero needs no unit"), Span::from_secs(0));
}

#[test]
fn std_duration_names_each_failure() {
    assert_eq!(parse_std_duration("").map_err(|e| e.kind), Err(TimeFault::EmptyDuration));
    assert_eq!(parse_std_duration("  ").map_err(|e| e.message()), Err("duration must not be empty".to_string()));
    assert_eq!(parse_std_duration("15").map_err(|e| e.message()), Err("duration must include a unit suffix".to_string()));
    assert_eq!(
        parse_std_duration("m").map_err(|e| e.message()),
        Err("duration must include a numeric value and a unit suffix".to_string())
    );
    assert_eq!(
        parse_std_duration("99999999999999999999s").map_err(|e| e.message()),
        Err("invalid duration value: 99999999999999999999".to_string())
    );
    assert_eq!(
        parse_std_duration("5w").map_err(|e| e.message()),
        Err("unsupported duration unit: w".to_string())
    );
    assert_eq!(
        parse_std_duration("18446744073709551615m").map_err(|e| e.message()),
        Err("duration is too large".to_string())
    );
}

#[test]
fn relative_duration_must_be_positive() {
    assert_eq!(
        parse_relative_duration("0m").map_err(|e| e.message()),
        Err("duration must be greater than zero".to_string())
    );
    assert_eq!(parse_relative_duration("9223372036854775s").expect("largest"), Span::from_secs(9_223_372_036_854_775));
    assert_eq!(parse_relative_duration("9223372036854776s").map_err(|e| e.kind), Err(TimeFault::TooLarge));
    assert_eq!(parse_relative_duration("1D").expect("upper case"), Span::from_secs(86_400));
}

#[test]
fn splits_value_and_unit() {
    let (value, unit) = split_value_and_unit(" 25 0 ms ").expect("valid");
    assert_eq!(value, "250");
    assert_eq!(unit, "ms");
}

#[test]
fn time_of_day_reads_both_clocks() {
    assert_eq!(parse_time_of_day("2pm").expect("valid"), 14 * 3600);
    assert_eq!(parse_time_of_day("12am").expect("valid"), 0);
    assert_eq!(parse_time_of_day("12:30 PM").expect("valid"), 12 * 3600 + 30 * 60);
    assert_eq!(parse_time_of_day("9:05am").expect("valid"), 9 * 3600 + 5 * 60);
    assert_eq!(parse_time_of_day("14:30").expect("valid"), 14 * 3600 + 30 * 60);
    assert_eq!(parse_time_of_day("14").expect("valid"), 14 * 3600);
    assert_eq!(parse_time_of_day("7").expect("valid"), 7 * 3600);
    assert_eq!(
        parse_time_of_day("13pm").map_err(|e| e.message()),
        Err("unsupported time-of-day format: 13pm".to_string())
    );
    assert_eq!(parse_time_of_day("25:00").map_err(|e| e.kind), Err(TimeFault::UnsupportedTimeOfDay));
    assert_eq!(parse_time_of_day("9:60am").map_err(|e| e.kind), Err(TimeFault::UnsupportedTimeOfDay));
}

#[test]
fn time_references_of_every_kind() {
    let zone = new_york();
    let now = at(2026, 2, 18, 20, 0, 0);
    assert_eq!(parse_time_reference(" NOW ", zone, now).expect("now"), now);
    assert_eq!(
        parse_time_reference("2026-02-18T13:00:00+01:00", zone, now).expect("rfc3339"),
        at(2026, 2, 18, 12, 0, 0)
    );
    assert_eq!(parse_time_reference("today", zone, now).expect("today"), at(2026, 2, 18, 5, 0, 0));
    assert_eq!(parse_time_reference("Yesterday", zone, now).expect("yesterday"), at(2026, 2, 17, 5, 0, 0));
    assert_eq!(parse_time_reference("15m", zone, now).expect("relative"), at(2026, 2, 18, 19, 45, 0));
    assert_eq!(parse_time_reference("since 4pm", zone, now).expect("since"), at(2026, 2, 17, 21, 0, 0));
    assert_eq!(
        parse_time_reference("  ", zone, now).map_err(|e| e.message()),
        Err("time reference must not be empty".to_string())
    );
    assert_eq!(parse_time_reference("soon", zone, now).map_err(|e| e.kind), Err(TimeFault::MissingValueOrUnit));
    assert_eq!(parse_time_reference("15", zone, now).map_err(|e| e.kind), Err(TimeFault::MissingUnit));
}

#[test]
fn local_times_at_the_change_of_clocks() {
    let zone = new_york();
    // 2026-03-08 02:30 does not exist in New York; 2026-11-01 01:30 exists twice.
    let spring = at(2026, 3, 8, 12, 0, 0);
    assert_eq!(
        parse_time_reference("since 2:30", zone, spring).map_err(|e| e.message()),
        Err("time does not exist in timezone due to DST transition".to_string())
    );
    let autumn = at(2026, 11, 1, 12, 0, 0);
    assert_eq!(
        parse_time_reference("since 1:30", zone, autumn).expect("earlier of the two"),
        at(2026, 11, 1, 5, 30, 0)
    );
}

#[test]
fn leap_second_is_read_as_the_next_second() {
    let zone = new_york();
    let now = at(2026, 2, 18, 20, 0, 0);
    assert_eq!(
        parse_time_reference("2016-12-31T23:59:60Z", zone, now).expect("leap second"),
        at(2017, 1, 1, 0, 0, 0)
    );
}

#[test]
fn resolved_ranges_are_in_order() {
    let zone = new_york();
    let now = at(2026, 2, 18, 12, 0, 0);
    let cases: Vec<(Option<&str>, Option<&str>)> = vec![
        (None, None),
        (Some("1h"), None),
        (Some("2h"), Some("1h")),
        (Some("today"), Some("now")),
        (Some("2026-02-18T10:00:00Z"), Some("2026-02-18T11:00:00Z")),
    ];
    for (start, end) in cases {
        let (s, e) = resolve_time_range(start, end, zone, now).expect("valid range");
        assert!(!s.after(&e));
    }
    // the start is read against the end
    let (s, e) = resolve_time_range(Some("2h"), Some("1h"), zone, now).expect("valid range");
    assert_eq!(e, at(2026, 2, 18, 11, 0, 0));
    assert_eq!(s, at(2026, 2, 18, 9, 0, 0));
}

#[test]
fn instants_subtract_and_compare() {
    let a = Instant::new(10, 500_000_000);
    let b = Instant::new(12, 250_000_000);
    assert!(b.after(&a));
    assert_eq!(b.since(&a), Some(Span { secs: 1, nanos: 750_000_000 }));
    assert_eq!(a.since(&b), None);
    assert_eq!(b.minus(&Span { secs: 1, nanos: 750_000_000 }), Some(a));
    assert_eq!(Instant::new(i64::MIN, 0).minus(&Span::from_secs(1)), None);
    assert!(Span::from_millis(999).shorter_than(&Span::from_secs(1)));
}

#[test]
fn unknown_zone_is_none() {
    assert!(Zone::parse("Mars/Olympus").is_none());
    assert!(Zone::parse("Europe/Berlin").is_some());
}

#[test]
fn only_dated_texts_are_read_as_rfc3339() {
    let utc = Zone::parse("UTC").expect("zone");
    let now = Instant::new(1_771_416_000, 0);
    let read = |text: &str| parse_time_reference(text, utc, now).map_err(|e| e.kind);
    assert_eq!(read("2026-02-18T11:45:00Z"), Ok(Instant::new(1_771_415_100, 0)));
    assert_eq!(read("2026-02-18 11:45:00+00:00"), Ok(Instant::new(1_771_415_100, 0)));
    assert_eq!(read("15m"), Ok(Instant::new(1_771_415_100, 0)));
    assert_eq!(read("  15 M "), Ok(Instant::new(1_771_415_100, 0)));
    assert!(read("2026/02/18T11:45:00Z").is_err());
    assert!(read("15-m").is_err());
}
