use loki_mcp::guardrails::{
    evaluate, judge, merge_stats, needs_runtime_stats_fallback, parse_byte_size, Admission,
    GuardrailCheck, GuardrailDecision, GuardrailError, GuardrailRun, GuardrailSettings,
    GuardrailStep, SizeFault,
};
use loki_mcp::json::{Json, Number};
use loki_mcp::loki::types::LokiQueryStats;
use loki_mcp::time::{Instant, Span};

fn estimate(bytes: Option<u64>, streams: Option<u64>) -> LokiQueryStats {
    LokiQueryStats { bytes_processed: bytes, streams, chunks: None, entries: None, raw: Json::Null }
}

fn limits(max_bytes: Option<u64>, max_streams: Option<u64>, below: u64, shorter: u64) -> GuardrailSettings {
    GuardrailSettings {
        max_bytes_scanned: max_bytes,
        max_streams,
        skip_stats_if_streams_below: below,
        skip_stats_if_range_shorter_than: Span::from_secs(shorter),
    }
}

fn check(query: &str, start: i64, end: i64) -> GuardrailCheck {
    GuardrailCheck { query: query.to_string(), start: Instant::new(start, 0), end: Instant::new(end, 0) }
}

#[test]
fn rejects_on_bytes_limit() {
    let result = evaluate(100, 10, Some(50), Some(100));
    assert_eq!(result, GuardrailDecision::RejectBytes);
}

#[test]
fn rejects_on_stream_limit() {
    let result = evaluate(100, 101, Some(200), Some(100));
    assert_eq!(result, GuardrailDecision::RejectStreams);
}

#[test]
fn parses_decimal_and_binary_byte_sizes() {
    assert_eq!(parse_byte_size("500MB").expect("valid"), 500_000_000);
    assert_eq!(parse_byte_size("2GiB").expect("valid"), 2_147_483_648);
}

#[test]
fn allows_within_limits_and_without_limits() {
    assert_eq!(evaluate(50, 100, Some(50), Some(100)), GuardrailDecision::Allow);
    assert_eq!(evaluate(u64::MAX, u64::MAX, None, None), GuardrailDecision::Allow);
    assert_eq!(evaluate(u64::MAX, u64::MAX, Some(0), Some(0)), GuardrailDecision::Allow);
    assert_eq!(evaluate(51, 101, Some(50), Some(100)), GuardrailDecision::RejectBytes);
}

#[test]
fn byte_sizes_of_every_unit() {
    assert_eq!(parse_byte_size("7").expect("valid"), 7);
    assert_eq!(parse_byte_size("7 b").expect("valid"), 7);
    assert_eq!(parse_byte_size("3kb").expect("valid"), 3_000);
    assert_eq!(parse_byte_size("3GB").expect("valid"), 3_000_000_000);
    assert_eq!(parse_byte_size("3tb").expect("valid"), 3_000_000_000_000);
    assert_eq!(parse_byte_size("3KiB").expect("valid"), 3_072);
    assert_eq!(parse_byte_size("3mib").expect("valid"), 3_145_728);
    assert_eq!(parse_byte_size("1TiB").expect("valid"), 1_099_511_627_776);
}

#[test]
fn byte_sizes_name_each_failure() {
    assert_eq!(parse_byte_size(" ").map_err(|e| e.message()), Err("size must not be empty".to_string()));
    assert_eq!(parse_byte_size("MB").map_err(|e| e.message()), Err("size is missing numeric value".to_string()));
    assert_eq!(
        parse_byte_size("5XB").map_err(|e| e.message()),
        Err("unsupported byte size unit: XB".to_string())
    );
    assert_eq!(
        parse_byte_size("18446744073709551615KB").map_err(|e| e.message()),
        Err("byte size is too large".to_string())
    );
    assert_eq!(parse_byte_size("99999999999999999999").map_err(|e| e.kind), Err(SizeFault::InvalidValue));
}

#[test]
fn estimates_merge_count_by_count() {
    assert!(needs_runtime_stats_fallback(&estimate(None, Some(0))));
    assert!(!needs_runtime_stats_fallback(&estimate(Some(1), None)));
    let primary = LokiQueryStats {
        bytes_processed: Some(0),
        streams: Some(4),
        chunks: None,
        entries: Some(0),
        raw: Json::Null,
    };
    let fallback = LokiQueryStats {
        bytes_processed: Some(9),
        streams: Some(8),
        chunks: Some(2),
        entries: None,
        raw: Json::Bool(true),
    };
    let merged = merge_stats(primary, fallback);
    assert_eq!(merged.bytes_processed, Some(9));
    assert_eq!(merged.streams, Some(4));
    assert_eq!(merged.chunks, Some(2));
    assert_eq!(merged.entries, None);
    assert!(matches!(merged.raw, Json::Bool(true)));
}

#[test]
fn verdicts_fail_closed() {
    let settings = limits(Some(100), Some(10), 2, 0);
    assert_eq!(judge(&settings, &estimate(Some(1), None)), Err(GuardrailError::MissingStreams));
    assert_eq!(judge(&settings, &estimate(None, Some(1))), Ok(Admission::FewStreams(1)));
    assert_eq!(judge(&settings, &estimate(None, Some(5))), Err(GuardrailError::MissingBytes));
    assert_eq!(judge(&settings, &estimate(Some(100), Some(10))), Ok(Admission::WithinLimits(100, 10)));
    assert_eq!(
        judge(&settings, &estimate(Some(101), Some(5))),
        Err(GuardrailError::TooManyBytes { estimated: 101, limit: 100 })
    );
    assert_eq!(
        judge(&settings, &estimate(Some(5), Some(11))),
        Err(GuardrailError::TooManyStreams { estimated: 11, limit: 10 })
    );
}

#[test]
fn refusals_name_estimate_and_limit() {
    assert_eq!(
        GuardrailError::TooManyBytes { estimated: 101, limit: 100 }.message(),
        "query rejected by guardrail: estimated bytes scanned (101) exceeds configured limit (100). narrow labels or shorten the time range"
    );
    assert_eq!(
        GuardrailError::TooManyStreams { estimated: 11, limit: 10 }.message(),
        "query rejected by guardrail: estimated streams (11) exceeds configured limit (10). add narrower label selectors or shorten the time range"
    );
    assert_eq!(
        GuardrailError::MissingStreams.message(),
        "guardrail pre-check failed: Loki stats response is missing stream estimates. narrow the query or use a shorter range"
    );
    assert_eq!(
        GuardrailError::MissingBytes.message(),
        "guardrail pre-check failed: Loki stats response is missing byte estimates. narrow the query or use a shorter range"
    );
    assert_eq!(GuardrailError::NegativeRange.message(), "time range must not be negative");
    assert_eq!(
        GuardrailError::PrecheckFailed { start: Instant::new(0, 0), end: Instant::new(60, 0) }.message(),
        "guardrail pre-check failed for query. narrow the query or use a shorter range (start=1970-01-01 00:00:00 UTC, end=1970-01-01 00:01:00 UTC)"
    );
}

#[test]
fn run_skips_short_ranges_and_asks_for_the_rest() {
    let settings = limits(Some(100), None, 0, 900);
    let mut run = GuardrailRun::new(settings, vec![check("{a=\"b\"}", 0, 60), check("{a=\"b\"}", 0, 3600)]);
    assert_eq!(run.start(), GuardrailStep::AskStats(1));
    assert_eq!(run.admissions, vec![Admission::ShortRange]);
    assert_eq!(run.on_stats(Some(estimate(Some(50), Some(3)))), GuardrailStep::Admitted);
    assert_eq!(run.admissions, vec![Admission::ShortRange, Admission::WithinLimits(50, 3)]);
}

#[test]
fn run_falls_back_to_runtime_statistics() {
    let settings = limits(Some(100), None, 0, 0);
    let mut run = GuardrailRun::new(settings, vec![check("{a=\"b\"}", 0, 3600)]);
    assert_eq!(run.start(), GuardrailStep::AskStats(0));
    assert_eq!(run.on_stats(Some(estimate(Some(0), None))), GuardrailStep::AskRuntimeStats(0));
    assert_eq!(
        run.on_runtime_stats(Some(estimate(Some(500), Some(1)))),
        GuardrailStep::Refused(GuardrailError::TooManyBytes { estimated: 500, limit: 100 })
    );
}

#[test]
fn run_fails_closed_without_an_estimate() {
    let settings = limits(Some(100), None, 0, 0);
    let mut run = GuardrailRun::new(settings, vec![check("{a=\"b\"}", 10, 3600)]);
    assert_eq!(run.start(), GuardrailStep::AskStats(0));
    assert_eq!(
        run.on_stats(None),
        GuardrailStep::Refused(GuardrailError::PrecheckFailed {
            start: Instant::new(10, 0),
            end: Instant::new(3600, 0)
        })
    );
    let mut stray = GuardrailRun::new(settings, vec![]);
    assert_eq!(stray.on_stats(None), GuardrailStep::Refused(GuardrailError::OutOfTurn));
    let mut empty = GuardrailRun::new(settings, vec![]);
    assert_eq!(empty.start(), GuardrailStep::Admitted);
    let mut backwards = GuardrailRun::new(settings, vec![check("{a=\"b\"}", 10, 5)]);
    assert_eq!(backwards.start(), GuardrailStep::Refused(GuardrailError::NegativeRange));
}

#[test]
fn every_admission_is_within_policy() {
    let settings = limits(Some(1_000), Some(20), 5, 600);
    let checks = vec![check("q", 0, 60), check("q", 0, 3600), check("q", 0, 7200)];
    let mut run = GuardrailRun::new(settings, checks);
    assert_eq!(run.start(), GuardrailStep::AskStats(1));
    assert_eq!(run.on_stats(Some(estimate(None, Some(4)))), GuardrailStep::AskStats(2));
    assert_eq!(run.on_stats(Some(estimate(Some(1_000), Some(20)))), GuardrailStep::Admitted);
    assert_eq!(run.admissions.len(), run.checks.len());
    for admission in &run.admissions {
        match *admission {
            Admission::ShortRange => {}
            Admission::FewStreams(streams) => assert!(streams < 5),
            Admission::WithinLimits(bytes, streams) => assert!(bytes <= 1_000 && streams <= 20),
        }
    }
    let _ = Number::Unsigned(0);
}
