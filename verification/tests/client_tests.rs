use loki_mcp::error::{LokiMcpError, ToolError};
use loki_mcp::json::{Json, Number};
use loki_mcp::config::LokiConfig;
use loki_mcp::loki::client::{
    data_items, data_texts, evaluate_health, needs_api_probe, runtime_stats_from, timestamp_nanos,
    unwrap_envelope, unwrap_envelope_or_raw, validate_label_name, LokiClient, ReadinessProbe,
};
use loki_mcp::loki::types::{parse_u64_value, LokiQueryStats};
use loki_mcp::time::Instant;

fn client() -> LokiClient {
    LokiClient::new(&LokiConfig::default()).expect("client")
}

fn text(s: &str) -> Json {
    Json::Text(s.to_string())
}

fn number(n: u64) -> Json {
    Json::Number(Number::Unsigned(n))
}

fn object(members: Vec<(&str, Json)>) -> Json {
    Json::Object(members.into_iter().map(|(k, v)| (k.to_string(), v)).collect())
}

fn pairs(list: &[(&str, &str)]) -> Vec<(String, String)> {
    list.iter().map(|(k, v)| (k.to_string(), v.to_string())).collect()
}

#[test]
fn health_is_true_when_ready_endpoint_succeeds() {
    let (healthy, message) = evaluate_health(ReadinessProbe::Ready, false);
    assert!(healthy);
    assert!(message.is_none());
}

#[test]
fn health_is_true_when_ready_is_404_but_api_is_reachable() {
    let (healthy, message) =
        evaluate_health(ReadinessProbe::Status(404, "404 Not Found".to_string()), true);
    assert!(healthy);
    assert!(message.as_deref().unwrap_or_default().contains("Loki API endpoints are reachable"));
}

#[test]
fn health_is_false_when_ready_is_404_and_api_is_not_reachable() {
    let (healthy, message) =
        evaluate_health(ReadinessProbe::Status(404, "404 Not Found".to_string()), false);
    assert!(!healthy);
    assert_eq!(message.as_deref(), Some("loki returned status 404 Not Found"));
}

#[test]
fn health_is_false_when_ready_returns_server_error() {
    let (healthy, message) =
        evaluate_health(ReadinessProbe::Status(503, "503 Service Unavailable".to_string()), true);
    assert!(!healthy);
    assert_eq!(message.as_deref(), Some("loki returned status 503 Service Unavailable"));
}

#[test]
fn health_follows_the_probes() {
    let not_found = || ReadinessProbe::Status(404, "404 Not Found".to_string());
    assert!(needs_api_probe(&not_found(), false));
    assert!(!needs_api_probe(&not_found(), true));
    assert!(!needs_api_probe(&ReadinessProbe::Ready, false));
    let health = client().check_health(not_found(), Some(Json::Null), None, false);
    assert!(health.healthy);
    assert_eq!(
        health.message.as_deref(),
        Some("loki /ready returned status 404 Not Found; Loki API endpoints are reachable")
    );
    assert!(!client().check_health(not_found(), None, None, false).healthy);
    assert!(client().check_health(not_found(), None, None, true).healthy);
    let failed = client().check_health(ReadinessProbe::Error("connection refused".to_string()), None, None, true);
    assert!(!failed.healthy);
    assert_eq!(failed.message.as_deref(), Some("connection refused"));
}

#[test]
fn timestamps_are_nanoseconds() {
    assert_eq!(timestamp_nanos(Instant::new(1, 5)).expect("in range"), "1000000005");
    assert_eq!(timestamp_nanos(Instant::new(-1, 999_999_999)).expect("in range"), "-1");
    assert_eq!(timestamp_nanos(Instant::new(0, 0)).expect("in range"), "0");
    assert!(matches!(
        timestamp_nanos(Instant::new(9_223_372_037, 0)),
        Err(ToolError::TimestampOutOfRange)
    ));
    assert_eq!(
        timestamp_nanos(Instant::new(9_223_372_036, 854_775_807)).expect("largest"),
        "9223372036854775807"
    );
}

#[test]
fn requests_carry_their_parameters_in_order() {
    let start = Some(Instant::new(10, 0));
    let end = Some(Instant::new(20, 0));
    let request = client().labels(start, end).expect("labels");
    assert_eq!(request.path, "/loki/api/v1/labels");
    assert_eq!(request.params, pairs(&[("start", "10000000000"), ("end", "20000000000")]));
    assert_eq!(client().labels(None, None).expect("labels").params, pairs(&[]));

    let request = client().label_values("app", None, end, Some("{a=\"b\"}")).expect("values");
    assert_eq!(request.path, "/loki/api/v1/label/app/values");
    assert_eq!(request.params, pairs(&[("end", "20000000000"), ("query", "{a=\"b\"}")]));

    let matchers = vec!["{a=\"b\"}".to_string(), "{c=\"d\"}".to_string()];
    let request = client().series(&matchers, start, None).expect("series");
    assert_eq!(request.path, "/loki/api/v1/series");
    assert_eq!(
        request.params,
        pairs(&[("match[]", "{a=\"b\"}"), ("match[]", "{c=\"d\"}"), ("start", "10000000000")])
    );

    let request = client().query_logs("{a=\"b\"}", start, end, Some(100), Some("backward")).expect("logs");
    assert_eq!(request.path, "/loki/api/v1/query_range");
    assert_eq!(
        request.params,
        pairs(&[
            ("query", "{a=\"b\"}"),
            ("start", "10000000000"),
            ("end", "20000000000"),
            ("limit", "100"),
            ("direction", "backward")
        ])
    );
    let request = client().query_metrics("rate({a=\"b\"}[5m])", start, end, Some("30s")).expect("metrics");
    assert_eq!(
        request.params,
        pairs(&[
            ("query", "rate({a=\"b\"}[5m])"),
            ("start", "10000000000"),
            ("end", "20000000000"),
            ("step", "30s")
        ])
    );
    let request = client().query_stats("{a=\"b\"}", start, end).expect("stats");
    assert_eq!(request.path, "/loki/api/v1/index/stats");
    let request = client().query_runtime_stats("{a=\"b\"}", start, end).expect("runtime stats");
    assert_eq!(
        request.params,
        pairs(&[
            ("query", "{a=\"b\"}"),
            ("start", "10000000000"),
            ("end", "20000000000"),
            ("limit", "1"),
            ("direction", "backward")
        ])
    );
}

#[test]
fn label_names_are_checked() {
    assert!(validate_label_name("app_name:v2").is_ok());
    assert_eq!(validate_label_name("").map_err(|e| e.message()), Err("label must not be empty".to_string()));
    assert_eq!(
        validate_label_name("app-name").map_err(|e| e.message()),
        Err("label contains unsupported characters: app-name".to_string())
    );
    assert!(matches!(client().label_values("app-name", None, None, None), Err(ToolError::UnsupportedLabel(_))));
    assert_eq!(
        client().series(&Vec::new(), None, None).map_err(|e| e.message()).err(),
        Some("at least one series matcher is required".to_string())
    );
}

#[test]
fn envelopes_are_opened() {
    let ok = object(vec![("status", text("success")), ("data", Json::Array(vec![text("app"), text("env")]))]);
    let data = unwrap_envelope(&ok).expect("success");
    assert_eq!(data_texts(data).expect("texts"), vec!["app".to_string(), "env".to_string()]);
    let empty = object(vec![("status", text("success"))]);
    assert!(unwrap_envelope(&empty).expect("success").is_none());
    assert_eq!(data_texts(None).expect("nothing listed"), Vec::<String>::new());
    assert!(data_items(None).expect("nothing listed").is_empty());
    assert!(matches!(data_texts(Some(Json::Array(vec![number(1)]))), Err(ToolError::UndecodableResponse)));
    assert!(matches!(data_items(Some(text("x"))), Err(ToolError::UndecodableResponse)));

    let failed = object(vec![
        ("status", text("error")),
        ("errorType", text("bad_data")),
        ("error", text("parse error")),
    ]);
    assert_eq!(
        unwrap_envelope(&failed).map_err(|e| e.message()).err(),
        Some("loki api error (bad_data): parse error".to_string())
    );
    let bare = object(vec![("status", text("error"))]);
    assert_eq!(
        unwrap_envelope(&bare).map_err(|e| e.message()).err(),
        Some("loki api error (unknown_error): Loki returned an error response".to_string())
    );
    assert_eq!(
        unwrap_envelope(&object(vec![("data", number(1))])).map_err(|e| e.message()).err(),
        Some("failed to decode Loki JSON response".to_string())
    );
}

#[test]
fn statistics_come_with_or_without_envelope() {
    let raw = object(vec![("streams", number(3)), ("bytes", text("2048")), ("chunkCount", number(7))]);
    let stats = LokiQueryStats::from_value(unwrap_envelope_or_raw(raw).expect("raw"));
    assert_eq!(stats.streams, Some(3));
    assert_eq!(stats.bytes_processed, Some(2048));
    assert_eq!(stats.chunks, Some(7));
    assert_eq!(stats.entries, None);

    let wrapped = object(vec![
        ("status", text("success")),
        ("data", object(vec![("stream_count", number(9)), ("bytesProcessed", number(1))])),
    ]);
    let stats = LokiQueryStats::from_value(unwrap_envelope_or_raw(wrapped).expect("wrapped"));
    assert_eq!(stats.streams, Some(9));
    assert_eq!(stats.bytes_processed, Some(1));
    let failed = object(vec![("status", text("error"))]);
    assert!(matches!(unwrap_envelope_or_raw(failed), Err(ToolError::Api(_, _))));
    assert_eq!(parse_u64_value(&text("+12")), Some(12));
    assert_eq!(parse_u64_value(&Json::Number(Number::Negative(-1))), None);
    assert_eq!(parse_u64_value(&text("1.5")), None);
}

#[test]
fn runtime_statistics_are_read_from_the_summary() {
    let data = object(vec![
        ("result", Json::Array(vec![Json::Null, Json::Null])),
        (
            "stats",
            object(vec![(
                "summary",
                object(vec![
                    ("totalBytesProcessed", number(4096)),
                    ("totalLinesProcessed", text("12")),
                    ("totalChunksMatched", number(3)),
                ]),
            )]),
        ),
    ]);
    let stats = runtime_stats_from(data);
    assert_eq!(stats.bytes_processed, Some(4096));
    assert_eq!(stats.entries, Some(12));
    assert_eq!(stats.chunks, Some(3));
    assert_eq!(stats.streams, Some(2));
    assert!(stats.raw.get("summary").is_some());
    let silent = runtime_stats_from(object(vec![]));
    assert_eq!(silent.streams, None);
    assert_eq!(silent.bytes_processed, None);
}

#[test]
fn failures_are_worded() {
    assert_eq!(LokiMcpError::Config("x".to_string()).message(), "configuration error: x");
    assert_eq!(LokiMcpError::Loki("x".to_string()).message(), "loki request failed: x");
    assert_eq!(LokiMcpError::Tool("x".to_string()).message(), "tool error: x");
    assert_eq!(LokiMcpError::Guardrail("x".to_string()).message(), "guardrail rejection: x");
    assert_eq!(ToolError::InvalidParameters.message(), "invalid tool parameters");
    assert_eq!(ToolError::SavedQueryNotFound("errors".to_string()).message(), "saved query not found: errors");
    assert_eq!(ToolError::EmptyTailLabels.message(), "tail labels must not be empty");
    assert_eq!(
        ToolError::UnsupportedAggregation("sum".to_string()).message(),
        "unsupported aggregation: sum. expected one of count_over_time, rate, bytes_over_time, bytes_rate"
    );
    assert_eq!(ToolError::NegativeRange.message(), "time range must not be negative");
    assert_eq!(ToolError::UnknownTool("x".to_string()).message(), "unknown tool: x");
    assert_eq!(ToolError::Backend("request to Loki failed".to_string()).message(), "request to Loki failed");
    assert_eq!(ToolError::TimestampOutOfRange.message(), "timestamp is out of range for nanoseconds");
}
