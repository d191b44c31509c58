use loki_mcp::json::{Json, Number};
use loki_mcp::response::{
    detect_level, flatten_log_entries, format_log_result, nanos_to_rfc3339, normalize_pattern,
    parse_entry_timestamp, summary_payload, time_bucket_5m, truncate_lines, LogLineEntry,
    ResponseMode,
};
use loki_mcp::time::Instant;

fn words(s: &str) -> Json {
    Json::Text(s.to_string())
}

fn record(members: Vec<(&str, Json)>) -> Json {
    Json::Object(members.into_iter().map(|(k, v)| (k.to_string(), v)).collect())
}

fn stream(labels: Vec<(&str, &str)>, values: Vec<(String, String)>) -> Json {
    record(vec![
        ("stream", record(labels.into_iter().map(|(k, v)| (k, words(v))).collect())),
        (
            "values",
            Json::Array(values.into_iter().map(|(t, l)| Json::Array(vec![Json::Text(t), Json::Text(l)])).collect()),
        ),
    ])
}

fn log_data(lines: usize) -> Json {
    let base: i64 = 1_771_416_000_000_000_000;
    let values = (0..lines)
        .map(|i| {
            let level = if i % 4 == 0 { "ERROR" } else { "info" };
            ((base + (i as i64) * 1_000_000_000).to_string(), format!("{level} request {i} took {}ms", i * 3))
        })
        .collect();
    record(vec![("resultType", words("streams")), ("result", Json::Array(vec![stream(vec![("env", "prod"), ("app", "api")], values)]))])
}

fn count_of(value: &Json, key: &str) -> u64 {
    match value.get(key) {
        Some(Json::Number(Number::Unsigned(n))) => *n,
        other => panic!("no count under {key}: {other:?}"),
    }
}

fn text_of(value: &Json, key: &str) -> String {
    match value.get(key) {
        Some(Json::Text(s)) => s.clone(),
        other => panic!("no text under {key}: {other:?}"),
    }
}

fn entry(timestamp: &str, line: &str) -> LogLineEntry {
    LogLineEntry { timestamp: timestamp.to_string(), line: line.to_string(), stream: Vec::new() }
}

#[test]
fn smart_resolves_by_line_count() {
    assert_eq!(ResponseMode::Smart.resolve_for_line_count(0), ResponseMode::Raw);
    assert_eq!(ResponseMode::Smart.resolve_for_line_count(50), ResponseMode::Raw);
    assert_eq!(ResponseMode::Smart.resolve_for_line_count(51), ResponseMode::Truncated);
    assert_eq!(ResponseMode::Smart.resolve_for_line_count(500), ResponseMode::Truncated);
    assert_eq!(ResponseMode::Smart.resolve_for_line_count(501), ResponseMode::Summary);
    assert_eq!(ResponseMode::Raw.resolve_for_line_count(10_000), ResponseMode::Raw);
    assert_eq!(ResponseMode::Summary.resolve_for_line_count(1), ResponseMode::Summary);
    assert_eq!(ResponseMode::Truncated.resolve_for_line_count(1), ResponseMode::Truncated);
    assert_eq!(ResponseMode::default(), ResponseMode::Smart);
    assert_eq!(ResponseMode::parse("truncated"), Some(ResponseMode::Truncated));
    assert_eq!(ResponseMode::parse("Raw"), None);
    assert_eq!(ResponseMode::Summary.name(), "summary");
}

#[test]
fn smart_with_few_lines_is_raw_and_keeps_the_count() {
    for n in [0usize, 1, 50] {
        let data = log_data(n);
        let (mode, payload) = format_log_result(ResponseMode::Smart, data.clone());
        assert_eq!(mode, ResponseMode::Raw);
        assert_eq!(text_of(&payload, "mode"), "raw");
        assert_eq!(count_of(&payload, "total_lines"), n as u64);
        assert_eq!(format!("{:?}", payload.get("result")), format!("{:?}", Some(&data)));
    }
}

#[test]
fn smart_with_many_lines_is_truncated_to_fifteen_at_each_end() {
    let (mode, payload) = format_log_result(ResponseMode::Smart, log_data(120));
    assert_eq!(mode, ResponseMode::Truncated);
    assert_eq!(text_of(&payload, "mode"), "truncated");
    assert_eq!(count_of(&payload, "total_lines"), 120);
    assert_eq!(count_of(&payload, "shown_lines"), 30);
    assert_eq!(count_of(&payload, "omitted_lines"), 90);
    let lines = payload.get("lines").and_then(Json::as_array).expect("lines");
    assert_eq!(lines.len(), 30);
    assert_eq!(text_of(&lines[0], "line"), "ERROR request 0 took 0ms");
    assert_eq!(text_of(&lines[14], "line"), "info request 14 took 42ms");
    assert_eq!(text_of(&lines[15], "line"), "info request 105 took 315ms");
    assert_eq!(text_of(&lines[29], "line"), "info request 119 took 357ms");
    assert_eq!(text_of(&lines[0], "timestamp"), "2026-02-18T12:00:00+00:00");
    let labels = lines[0].get("stream").and_then(Json::as_object).expect("labels");
    assert_eq!(labels[0].0, "app");
    assert_eq!(labels[1].0, "env");
    let patterns = payload.get("pattern_summary").and_then(Json::as_array).expect("patterns");
    assert_eq!(patterns.len(), 2);
    assert!(patterns[0].get("sample").is_none());
}

#[test]
fn truncated_by_name_keeps_ten_at_each_end() {
    let (mode, payload) = format_log_result(ResponseMode::Truncated, log_data(30));
    assert_eq!(mode, ResponseMode::Truncated);
    assert_eq!(count_of(&payload, "shown_lines"), 20);
    assert_eq!(count_of(&payload, "omitted_lines"), 10);
    assert!(payload.get("pattern_summary").is_none());
    let (_, small) = format_log_result(ResponseMode::Truncated, log_data(20));
    assert_eq!(count_of(&small, "shown_lines"), 20);
    assert_eq!(count_of(&small, "omitted_lines"), 0);
}

#[test]
fn summary_counts_levels_patterns_and_buckets() {
    let (mode, payload) = format_log_result(ResponseMode::Smart, log_data(800));
    assert_eq!(mode, ResponseMode::Summary);
    assert_eq!(text_of(&payload, "mode"), "summary");
    assert_eq!(count_of(&payload, "total_lines"), 800);
    assert_eq!(text_of(&payload, "first_timestamp"), "2026-02-18T12:00:00+00:00");
    assert_eq!(text_of(&payload, "last_timestamp"), "2026-02-18T12:13:19+00:00");
    let levels = payload.get("level_breakdown").expect("levels");
    assert_eq!(count_of(levels, "error"), 200);
    assert_eq!(count_of(levels, "info"), 600);
    let patterns = payload.get("top_patterns").and_then(Json::as_array).expect("patterns");
    assert_eq!(patterns.len(), 2);
    assert_eq!(text_of(&patterns[0], "pattern"), "info request # took #ms");
    assert_eq!(count_of(&patterns[0], "count"), 600);
    assert_eq!(text_of(&patterns[1], "pattern"), "ERROR request # took #ms");
    assert_eq!(count_of(&patterns[1], "count"), 200);
    let sample = patterns[0].get("sample").expect("sample");
    assert_eq!(text_of(sample, "line"), "info request 1 took 3ms");
    let buckets = payload.get("time_distribution_5m").expect("buckets");
    assert_eq!(count_of(buckets, "2026-02-18T12:00:00+00:00"), 300);
    assert_eq!(count_of(buckets, "2026-02-18T12:05:00+00:00"), 300);
    assert_eq!(count_of(buckets, "2026-02-18T12:10:00+00:00"), 200);
    let (_, plain) = format_log_result(ResponseMode::Summary, log_data(3));
    let plain_patterns = plain.get("top_patterns").and_then(Json::as_array).expect("patterns");
    assert!(plain_patterns[0].get("sample").is_none());
}

#[test]
fn top_patterns_rank_by_count_then_by_text() {
    let mut entries = Vec::new();
    for i in 0..12 {
        for _ in 0..(if i < 2 { 3 } else { 1 }) {
            entries.push(entry("1", &format!("kind {} seen", (b'a' + (11 - i) as u8) as char)));
        }
    }
    let payload = summary_payload(&entries, false);
    let patterns = payload.get("top_patterns").and_then(Json::as_array).expect("patterns");
    assert_eq!(patterns.len(), 10);
    assert_eq!(text_of(&patterns[0], "pattern"), "kind k seen");
    assert_eq!(text_of(&patterns[1], "pattern"), "kind l seen");
    assert_eq!(text_of(&patterns[2], "pattern"), "kind a seen");
    assert_eq!(text_of(&patterns[9], "pattern"), "kind h seen");
    assert!(matches!(payload.get("first_timestamp"), Some(Json::Text(_))));
    let empty = summary_payload(&Vec::new(), true);
    assert!(matches!(empty.get("first_timestamp"), Some(Json::Null)));
    assert_eq!(count_of(&empty, "total_lines"), 0);
}

#[test]
fn flattening_skips_what_is_malformed() {
    let data = record(vec![(
        "result",
        Json::Array(vec![
            record(vec![("stream", record(vec![("b", words("2")), ("a", Json::Null)]))]),
            record(vec![
                ("stream", words("not labels")),
                (
                    "values",
                    Json::Array(vec![
                        Json::Array(vec![words("1771416000000000000"), words("first")]),
                        Json::Array(vec![words("1771416000000000000")]),
                        Json::Array(vec![Json::Null, words("no time")]),
                        words("no pair"),
                        Json::Array(vec![words("yesterday"), words("odd time")]),
                    ]),
                ),
            ]),
            stream(vec![("b", "2"), ("a", "1")], vec![("-1".to_string(), "before the epoch".to_string())]),
        ]),
    )]);
    let entries = flatten_log_entries(&data);
    assert_eq!(entries.len(), 3);
    assert_eq!(entries[0].timestamp, "2026-02-18T12:00:00+00:00");
    assert_eq!(entries[0].line, "first");
    assert!(entries[0].stream.is_empty());
    assert_eq!(entries[1].timestamp, "yesterday");
    assert_eq!(entries[2].timestamp, "1969-12-31T23:59:59.999999999+00:00");
    assert_eq!(entries[2].stream, vec![("a".to_string(), "1".to_string()), ("b".to_string(), "2".to_string())]);
    assert!(flatten_log_entries(&Json::Null).is_empty());
    assert!(flatten_log_entries(&record(vec![("result", words("x"))])).is_empty());
}

#[test]
fn levels_are_found_anywhere_in_the_line() {
    assert_eq!(detect_level("an ERROR happened"), Some("error".to_string()));
    assert_eq!(detect_level("warning: info follows"), Some("warn".to_string()));
    assert_eq!(detect_level("for your information"), Some("info".to_string()));
    assert_eq!(detect_level("Debug trace"), Some("debug".to_string()));
    assert_eq!(detect_level("stack TRACE"), Some("trace".to_string()));
    assert_eq!(detect_level("all is well"), None);
}

#[test]
fn patterns_hash_digits_and_single_out_spaces() {
    assert_eq!(normalize_pattern("took 125ms  for  id=42"), "took #ms for id=#");
    assert_eq!(normalize_pattern("  \t padded\n"), "padded");
    assert_eq!(normalize_pattern("1 2  3"), "# # #");
    assert_eq!(normalize_pattern("a1b22c"), "a#b#c");
    assert_eq!(normalize_pattern(""), "");
    assert_eq!(normalize_pattern("   "), "");
}

#[test]
fn truncation_keeps_the_edges() {
    let entries: Vec<LogLineEntry> = (0..7).map(|i| entry("t", &i.to_string())).collect();
    let (lines, omitted) = truncate_lines(&entries, 2);
    assert_eq!(lines.iter().map(|e| e.line.clone()).collect::<Vec<_>>(), vec!["0", "1", "5", "6"]);
    assert_eq!(omitted, 3);
    let (all, none) = truncate_lines(&entries, 4);
    assert_eq!(all.len(), 7);
    assert_eq!(none, 0);
    let (all, none) = truncate_lines(&entries, usize::MAX);
    assert_eq!(all.len(), 7);
    assert_eq!(none, 0);
    let (nothing, everything) = truncate_lines(&entries, 0);
    assert!(nothing.is_empty());
    assert_eq!(everything, 7);
}

#[test]
fn times_on_lines_are_read() {
    assert_eq!(nanos_to_rfc3339("0"), Some("1970-01-01T00:00:00+00:00".to_string()));
    assert_eq!(nanos_to_rfc3339("1500000000"), Some("1970-01-01T00:00:01.500+00:00".to_string()));
    assert_eq!(nanos_to_rfc3339("soon"), None);
    assert_eq!(parse_entry_timestamp("2026-02-18T12:00:00Z"), Some(Instant::new(1_771_416_000, 0)));
    assert_eq!(parse_entry_timestamp("1771416000000000001"), Some(Instant::new(1_771_416_000, 1)));
    assert_eq!(parse_entry_timestamp("-1"), Some(Instant::new(-1, 999_999_999)));
    assert_eq!(parse_entry_timestamp("never"), None);
    assert_eq!(time_bucket_5m(Instant::new(1_771_416_299, 5)), "2026-02-18T12:00:00+00:00");
    assert_eq!(time_bucket_5m(Instant::new(1_771_416_300, 0)), "2026-02-18T12:05:00+00:00");
    assert_eq!(time_bucket_5m(Instant::new(-1, 0)), "1969-12-31T23:55:00+00:00");
}
