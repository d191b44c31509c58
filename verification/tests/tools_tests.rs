use chrono::{TimeZone, Utc};
use loki_mcp::config::{Config, SavedQuery, SchemaField};
use loki_mcp::json::{Json, Number};
use loki_mcp::loki::client::{BackendRequest, LokiClient};
use loki_mcp::metrics::MetricsRegistry;
use loki_mcp::time::{Instant, Span, Zone};
use loki_mcp::tools::analysis::{compare_ranges, detect_patterns, query_stats, CompareRangesInput, DetectPatternsInput, QueryStatsInput};
use loki_mcp::tools::discovery::{label_values, list_labels, series};
use loki_mcp::tools::call::{CallStage, CallStep};
use loki_mcp::loki::types::LokiHealth;
use loki_mcp::tools::dispatch::{compare_counts, finish, health_to_json, FinishKind, Plan};
use loki_mcp::tools::query::{
    build_query, query_logs, query_metrics, run_saved_query, tail, QueryMetricsInput, RunSavedQueryInput,
    build_query_string, escape_logql_value, selector_from_labels, validate_aggregation,
    BuildQueryInput, QueryLogsInput, TailInput,
};
use loki_mcp::tools::utility::{explain_query, suggest_metric_rule, SuggestMetricRuleParams};
use loki_mcp::tools::{
    cache_key, is_cacheable_tool, is_guardrail_error, is_guardrailed_tool, is_known_tool,
    normalize_params, ToolRouter,
};

fn t(s: &str) -> Json {
    Json::Text(s.to_string())
}

fn n(v: u64) -> Json {
    Json::Number(Number::Unsigned(v))
}

fn outside(value: &Json) -> serde_json::Value {
    match value {
        Json::Null => serde_json::Value::Null,
        Json::Bool(b) => serde_json::Value::Bool(*b),
        Json::Number(Number::Unsigned(v)) => serde_json::Value::from(*v),
        Json::Number(Number::Negative(v)) => serde_json::Value::from(*v),
        Json::Real(text) => serde_json::from_str(text).expect("a number"),
        Json::Text(s) => serde_json::Value::String(s.clone()),
        Json::Array(items) => serde_json::Value::Array(items.iter().map(outside).collect()),
        Json::Object(members) => {
            serde_json::Value::Object(members.iter().map(|m| (m.0.clone(), outside(&m.1))).collect())
        }
    }
}

fn write_json(value: &Json) -> String {
    serde_json::to_string(&outside(value)).expect("written")
}

fn o(members: Vec<(&str, Json)>) -> Json {
    Json::Object(members.into_iter().map(|(k, v)| (k.to_string(), v)).collect())
}

fn noon() -> Instant {
    let moment = Utc.with_ymd_and_hms(2026, 2, 18, 12, 0, 0).single().expect("fixed timestamp");
    Instant::new(moment.timestamp(), 0)
}

fn settings() -> Config {
    let mut config = Config::default();
    config.server.timezone = "UTC".to_string();
    config.cache.enabled = true;
    config.cache.ttl = "60s".to_string();
    config.cache.skip_if_range_shorter_than = "1s".to_string();
    config.guardrails.max_bytes_scanned = "0".to_string();
    config.guardrails.max_streams = 0;
    config.labels = vec![SchemaField {
        name: "app".to_string(),
        description: "the application".to_string(),
        common_values: vec!["api".to_string()],
    }];
    config.saved_queries = vec![SavedQuery {
        name: "errors".to_string(),
        description: "all errors of the api".to_string(),
        query: "{app=\"api\"} |= \"error\"".to_string(),
        range: "1h".to_string(),
    }];
    config
}

fn router_with_counters(config: Config) -> ToolRouter {
    let metrics = MetricsRegistry::new("loki_mcp").expect("metrics");
    ToolRouter::new_with_metrics(config, Some(metrics)).expect("router should build")
}

fn counter(router: &ToolRouter, line: &str) -> bool {
    let text = router.metrics.as_ref().expect("metrics").render().expect("rendered");
    text.lines().any(|l| l == line)
}

fn success(data: Json) -> Json {
    o(vec![("status", t("success")), ("data", data)])
}

fn logs(lines: usize) -> Json {
    let values = (0..lines)
        .map(|i| Json::Array(vec![t(&(1_771_416_000_000_000_000i64 + i as i64).to_string()), t(&format!("line {i}"))]))
        .collect();
    o(vec![("result", Json::Array(vec![o(vec![("stream", o(vec![("app", t("api"))])), ("values", Json::Array(values))])]))])
}

fn asked(step: CallStep) -> Vec<BackendRequest> {
    match step {
        CallStep::Ask(requests) => requests,
        other => panic!("the tool should ask the backend, not {other:?}"),
    }
}

fn returned(step: CallStep) -> Json {
    match step {
        CallStep::Return(Ok(value)) => value,
        other => panic!("the tool should answer, not {other:?}"),
    }
}

fn failed(step: CallStep) -> String {
    match step {
        CallStep::Return(Err(error)) => error.message(),
        other => panic!("the tool should fail, not {other:?}"),
    }
}

fn param<'a>(request: &'a BackendRequest, name: &str) -> Option<&'a str> {
    request.params.iter().find(|p| p.0 == name).map(|p| p.1.as_str())
}

#[test]
fn cache_key_is_stable_for_equivalent_json_objects() {
    let first = o(vec![("b", n(2)), ("a", o(vec![("z", n(1)), ("m", n(3))]))]);
    let second = o(vec![("a", o(vec![("m", n(3)), ("z", n(1))])), ("b", n(2))]);

    let first_key = cache_key("loki_query_logs", &first).expect("cache key");
    let second_key = cache_key("loki_query_logs", &second).expect("cache key");
    assert_eq!(first_key, second_key);
}

#[test]
fn cache_key_is_the_tool_and_the_canonical_text() {
    let params = o(vec![("query", t("{a=\"b\"}")), ("limit", n(5)), ("deep", Json::Array(vec![o(vec![("y", Json::Null), ("x", Json::Bool(true))])]))]);
    assert_eq!(
        cache_key("loki_query_logs", &params).expect("cache key"),
        "loki_query_logs:{\"deep\":[{\"x\":true,\"y\":null}],\"limit\":5,\"query\":\"{a=\\\"b\\\"}\"}"
    );
    assert_ne!(
        cache_key("loki_query_logs", &params).expect("cache key"),
        cache_key("loki_query_metrics", &params).expect("cache key")
    );
    assert_eq!(
        cache_key("t", &Json::Array(vec![Json::Number(Number::Negative(-3)), Json::Real("1.5".to_string())])).expect("cache key"),
        "t:[-3,1.5]"
    );
    assert_eq!(write_json(&normalize_params(Json::Null)), "{}");
    assert_eq!(write_json(&normalize_params(n(1))), "1");
}

#[test]
fn canonical_form_sorts_names_at_every_depth() {
    let value = o(vec![("b", n(1)), ("a", Json::Array(vec![o(vec![("d", n(2)), ("c", n(3)), ("d", n(4))])]))]);
    let canonical = value.canonicalize();
    let names: Vec<&str> = canonical.as_object().expect("object").iter().map(|m| m.0.as_str()).collect();
    assert_eq!(names, vec!["a", "b"]);
    let inner = canonical.get("a").and_then(Json::as_array).expect("array")[0].as_object().expect("object");
    assert_eq!(inner.len(), 2);
    assert_eq!(inner[0].0, "c");
    assert_eq!(inner[1].0, "d");
    assert_eq!(inner[1].1.as_u64(), Some(4));
    assert_eq!(value.get("a").map(|v| v.is_null()), Some(false));
}

#[test]
fn tools_are_known_cached_and_guarded() {
    for name in ["loki_list_labels", "loki_label_values", "loki_series", "loki_query_stats"] {
        assert!(is_cacheable_tool(name) && !is_guardrailed_tool(name) && is_known_tool(name));
    }
    for name in [
        "loki_query_logs",
        "loki_query_metrics",
        "loki_build_query",
        "loki_tail",
        "loki_run_saved_query",
        "loki_detect_patterns",
        "loki_compare_ranges",
    ] {
        assert!(is_cacheable_tool(name) && is_guardrailed_tool(name) && is_known_tool(name));
    }
    for name in ["loki_describe_schema", "loki_explain_query", "loki_suggest_metric_rule", "loki_check_health"] {
        assert!(!is_cacheable_tool(name) && !is_guardrailed_tool(name) && is_known_tool(name));
    }
    assert!(!is_known_tool("loki_delete_everything"));
    assert!(is_guardrail_error("query rejected by GuardRail"));
    assert!(!is_guardrail_error("invalid tool parameters"));
}

#[test]
fn logql_is_built_from_the_filters() {
    let labels = vec![("app".to_string(), "api".to_string()), ("env".to_string(), "pr\"od\\".to_string())];
    assert_eq!(selector_from_labels(&labels), "{app=\"api\",env=\"pr\\\"od\\\\\"}");
    assert_eq!(selector_from_labels(&Vec::new()), "{}");
    assert_eq!(escape_logql_value("a\\b\"c"), "a\\\\b\\\"c");
    let input = BuildQueryInput {
        labels: Some(labels),
        structured_metadata: Some(vec![("trace_id".to_string(), "abc".to_string())]),
        line_filter: Some("timeout".to_string()),
        line_filter_regex: Some("5\\d\\d".to_string()),
        exclude: Some("health".to_string()),
        json_fields: Some(vec![("status".to_string(), "500".to_string())]),
        aggregation: None,
        aggregation_range: None,
        start: None,
        end: None,
        limit: None,
        response_mode: None,
    };
    assert_eq!(
        build_query_string(&input).expect("built"),
        "{app=\"api\",env=\"pr\\\"od\\\\\"} | trace_id=\"abc\" |= \"timeout\" |~ \"5\\\\d\\\\d\" != \"health\" | json | status=\"500\""
    );
    let bare = BuildQueryInput::decode(&o(vec![("json_fields", o(vec![]))])).expect("fits");
    assert_eq!(build_query_string(&bare).expect("built"), "{}");
    assert!(validate_aggregation("rate").is_ok());
    assert!(validate_aggregation("bytes_over_time").is_ok());
    assert_eq!(
        validate_aggregation("sum").map_err(|e| e.message()),
        Err("unsupported aggregation: sum. expected one of count_over_time, rate, bytes_over_time, bytes_rate".to_string())
    );
}

#[test]
fn arguments_are_read_strictly() {
    let input = QueryLogsInput::decode(&o(vec![
        ("query", t("{a=\"b\"}")),
        ("limit", n(7)),
        ("start", Json::Null),
        ("response_mode", t("raw")),
    ]))
    .expect("fits");
    assert_eq!(input.query, "{a=\"b\"}");
    assert_eq!(input.limit, Some(7));
    assert_eq!(input.start, None);
    assert_eq!(input.response_mode.map(|m| m.name()), Some("raw"));
    assert!(QueryLogsInput::decode(&o(vec![("query", t("q")), ("extra", n(1))])).is_none());
    assert!(QueryLogsInput::decode(&o(vec![])).is_none());
    assert!(QueryLogsInput::decode(&o(vec![("query", n(1))])).is_none());
    assert!(QueryLogsInput::decode(&o(vec![("query", t("q")), ("limit", t("7"))])).is_none());
    assert!(QueryLogsInput::decode(&o(vec![("query", t("q")), ("limit", n(4_294_967_296))])).is_none());
    assert!(QueryLogsInput::decode(&o(vec![("query", t("q")), ("response_mode", t("loud"))])).is_none());
    assert!(QueryLogsInput::decode(&Json::Array(vec![])).is_none());
    let tail = TailInput::decode(&o(vec![("labels", o(vec![("b", t("2")), ("a", t("1"))]))])).expect("fits");
    assert_eq!(tail.labels, vec![("a".to_string(), "1".to_string()), ("b".to_string(), "2".to_string())]);
    assert!(TailInput::decode(&o(vec![("labels", o(vec![("a", n(1))]))])).is_none());
    assert!(TailInput::decode(&Json::Null).is_none());
}

#[test]
fn describe_schema_tool_returns_configured_schema() {
    let mut router = ToolRouter::new(Config::default()).expect("router should build");
    let (_, step) = router.call("loki_describe_schema", o(vec![]), noon());
    let response = returned(step);
    assert!(response.get("labels").is_some());
    assert!(response.get("structured_metadata").is_some());
}

#[test]
fn schema_lists_what_is_configured() {
    let mut router = ToolRouter::new(settings()).expect("router should build");
    let (call, step) = router.call("loki_describe_schema", Json::Null, noon());
    assert_eq!(call.stage, CallStage::Done);
    assert_eq!(
        write_json(&returned(step)),
        "{\"labels\":[{\"common_values\":[\"api\"],\"description\":\"the application\",\"name\":\"app\"}],\"notes\":{\"label_selector_syntax\":\"{label=\\\"value\\\"}\",\"structured_metadata_filter_syntax\":\"{label=\\\"value\\\"} | field=\\\"value\\\"\"},\"saved_queries\":[{\"description\":\"all errors of the api\",\"name\":\"errors\",\"query\":\"{app=\\\"api\\\"} |= \\\"error\\\"\",\"range\":\"1h\"}],\"structured_metadata\":[]}"
    );
    let (_, step) = router.call("loki_describe_schema", o(vec![("x", n(1))]), noon());
    assert_eq!(failed(step), "invalid tool parameters");
}

#[test]
fn cache_hit_across_invocations() {
    let mut router = router_with_counters(settings());
    let (mut call, step) = router.call("loki_list_labels", o(vec![]), noon());
    assert!(call.use_cache && !call.cached);
    let requests = asked(step);
    assert_eq!(requests.len(), 1);
    assert_eq!(requests[0].path, "/loki/api/v1/labels");
    assert!(requests[0].params.is_empty());
    let body = success(Json::Array(vec![t("app"), t("env")]));
    let first = returned(router.on_answers(&mut call, vec![body], Json::Null));
    assert_eq!(write_json(&first), "{\"labels\":[\"app\",\"env\"]}");
    assert!(counter(&router, "loki_mcp_tool_cache_total{result=\"miss\",tool=\"loki_list_labels\"} 1"));

    let (again, step) = router.call("loki_list_labels", o(vec![]), noon());
    assert!(again.cached);
    assert_eq!(write_json(&returned(step)), write_json(&first));
    assert!(counter(&router, "loki_mcp_tool_cache_total{result=\"hit\",tool=\"loki_list_labels\"} 1"));
    assert!(counter(&router, "loki_mcp_tool_cache_total{result=\"miss\",tool=\"loki_list_labels\"} 1"));
}

#[test]
fn failures_and_short_ranges_are_not_cached() {
    let mut router = router_with_counters(settings());
    let (mut call, step) = router.call("loki_list_labels", o(vec![]), noon());
    let _ = asked(step);
    let step = router.on_answers(&mut call, vec![o(vec![("status", t("error")), ("error", t("boom"))])], Json::Null);
    assert_eq!(failed(step), "loki api error (unknown_error): boom");
    let (again, _) = router.call("loki_list_labels", o(vec![]), noon());
    assert!(!again.cached);

    let mut config = settings();
    config.cache.skip_if_range_shorter_than = "2h".to_string();
    let mut router = router_with_counters(config);
    let (call, _) = router.call("loki_query_logs", o(vec![("query", t("{a=\"b\"}")), ("start", t("1h"))]), noon());
    assert!(!call.use_cache);
    let (call, _) = router.call("loki_query_logs", o(vec![("query", t("{a=\"b\"}")), ("start", t("3h"))]), noon());
    assert!(call.use_cache);
    let (call, _) = router.call("loki_query_logs", o(vec![("oops", t("x"))]), noon());
    assert!(call.use_cache);
    let (call, _) = router.call("loki_list_labels", o(vec![]), noon());
    assert!(call.use_cache);
    let (call, _) = router.call("loki_list_labels", o(vec![("start", t("10m"))]), noon());
    assert!(!call.use_cache);
    assert_eq!(
        router.cache_range_duration("loki_compare_ranges", &o(vec![
            ("query", t("q")),
            ("baseline_start", t("3h")),
            ("baseline_end", t("1h")),
            ("compare_start", t("30m")),
            ("compare_end", t("now")),
        ]), noon()).ok(),
        Some(Some(Span::from_secs(1800)))
    );
    assert_eq!(router.cache_range_duration("loki_tail", &Json::Null, noon()).ok(), Some(Some(Span::from_secs(1800))));
    assert_eq!(router.cache_range_duration("loki_check_health", &Json::Null, noon()).ok(), Some(None));
}

#[test]
fn guardrail_rejection_by_bytes() {
    let mut config = settings();
    config.guardrails.max_bytes_scanned = "1B".to_string();
    config.guardrails.skip_stats_if_streams_below = 0;
    config.guardrails.skip_stats_if_range_shorter_than = "0s".to_string();
    let mut router = router_with_counters(config);
    let (mut call, step) = router.call("loki_query_logs", o(vec![("query", t("{app=\"api\"}"))]), noon());
    let request = match step {
        CallStep::AskStats(request) => request,
        other => panic!("the cost check should ask first, not {other:?}"),
    };
    assert_eq!(request.path, "/loki/api/v1/index/stats");
    assert_eq!(param(&request, "query"), Some("{app=\"api\"}"));
    assert_eq!(param(&request, "end"), Some("1771416000000000000"));
    assert_eq!(param(&request, "start"), Some("1771414200000000000"));
    let stats = o(vec![("streams", n(5)), ("bytes", n(1000))]);
    let message = failed(router.on_stats(&mut call, Some(stats), noon()));
    assert!(message.contains("guardrail"));
    assert_eq!(
        message,
        "query rejected by guardrail: estimated bytes scanned (1000) exceeds configured limit (1). narrow labels or shorten the time range"
    );
    assert!(counter(&router, "loki_mcp_tool_guardrail_rejections_total{tool=\"loki_query_logs\"} 1"));
    assert_eq!(call.stage, CallStage::Done);
}

#[test]
fn guardrails_fail_closed_and_fall_back() {
    let mut config = settings();
    config.guardrails.max_streams = 10;
    config.guardrails.skip_stats_if_streams_below = 0;
    config.guardrails.skip_stats_if_range_shorter_than = "15m".to_string();
    let mut router = router_with_counters(config);
    let query = o(vec![("query", t("{app=\"api\"}")), ("start", t("1h"))]);

    let (mut call, step) = router.call("loki_query_logs", query.clone(), noon());
    assert!(matches!(step, CallStep::AskStats(_)));
    let message = failed(router.on_stats(&mut call, None, noon()));
    assert_eq!(
        message,
        "guardrail pre-check failed for query. narrow the query or use a shorter range (start=2026-02-18 11:00:00 UTC, end=2026-02-18 12:00:00 UTC)"
    );

    let (mut call, _) = router.call("loki_query_logs", query.clone(), noon());
    let step = router.on_stats(&mut call, Some(o(vec![("streams", n(0)), ("bytes", n(0))])), noon());
    let runtime = match step {
        CallStep::AskRuntimeStats(request) => request,
        other => panic!("the cost check should run the query, not {other:?}"),
    };
    assert_eq!(param(&runtime, "limit"), Some("1"));
    assert_eq!(param(&runtime, "direction"), Some("backward"));
    let answer = success(o(vec![
        ("result", Json::Array(vec![Json::Null, Json::Null, Json::Null])),
        ("stats", o(vec![("summary", o(vec![("totalBytesProcessed", n(77))]))])),
    ]));
    let step = router.on_runtime_stats(&mut call, Some(answer), noon());
    let requests = asked(step);
    assert_eq!(requests[0].path, "/loki/api/v1/query_range");
    assert_eq!(call.stage, CallStage::Asking);

    let (mut call, _) = router.call("loki_query_logs", query.clone(), noon());
    let message = failed(router.on_stats(&mut call, Some(o(vec![("bytes", n(5))])), noon()));
    assert!(message.contains("missing stream estimates"));

    let short = o(vec![("query", t("{app=\"api\"}")), ("start", t("5m"))]);
    let (_, step) = router.call("loki_query_logs", short, noon());
    assert!(matches!(step, CallStep::Ask(_)));

    let (_, step) = router.call("loki_query_logs", o(vec![("query", t("q")), ("start", t("2026-02-18T12:00:00Z")), ("end", t("1h"))]), noon());
    assert_eq!(failed(step), "start time must be less than or equal to end time");
    let (mut stray, _) = router.call("loki_describe_schema", Json::Null, noon());
    assert!(failed(router.on_stats(&mut stray, None, noon())).contains("out of turn"));
}

#[test]
fn smart_resolution_to_summary() {
    let mut router = router_with_counters(settings());
    let (mut call, step) = router.call("loki_query_logs", o(vec![("query", t("{app=\"api\"}"))]), noon());
    let requests = asked(step);
    assert_eq!(param(&requests[0], "limit"), Some("100"));
    assert_eq!(param(&requests[0], "direction"), None);
    let response = returned(router.on_answers(&mut call, vec![success(logs(800))], Json::Null));
    assert!(matches!(response.get("response_mode_requested"), Some(Json::Text(m)) if m == "smart"));
    assert!(matches!(response.get("response_mode"), Some(Json::Text(m)) if m == "summary"));
    assert!(matches!(response.get("start"), Some(Json::Text(s)) if s == "2026-02-18T11:30:00Z"));
    assert!(matches!(response.get("end"), Some(Json::Text(s)) if s == "2026-02-18T12:00:00Z"));
    let payload = response.get("data").expect("data");
    assert!(payload.get("top_patterns").is_some());
    assert!(payload.get("level_breakdown").is_some());
    assert!(payload.get("time_distribution_5m").is_some());
}

#[test]
fn saved_query_override() {
    let mut router = router_with_counters(settings());
    let (mut call, step) = router.call(
        "loki_run_saved_query",
        o(vec![("name", t("errors")), ("override_range", t("15m"))]),
        noon(),
    );
    let requests = asked(step);
    assert_eq!(param(&requests[0], "query"), Some("{app=\"api\"} |= \"error\""));
    assert_eq!(param(&requests[0], "end"), Some("1771416000000000000"));
    assert_eq!(param(&requests[0], "start"), Some("1771415100000000000"));
    assert_eq!(param(&requests[0], "limit"), Some("100"));
    assert_eq!(param(&requests[0], "direction"), Some("backward"));
    let response = returned(router.on_answers(&mut call, vec![success(logs(2))], Json::Null));
    assert!(matches!(response.get("name"), Some(Json::Text(s)) if s == "errors"));
    assert!(matches!(response.get("description"), Some(Json::Text(s)) if s == "all errors of the api"));
    let (_, step) = router.call("loki_run_saved_query", o(vec![("name", t("errors"))]), noon());
    assert_eq!(param(&asked(step)[0], "start"), Some("1771412400000000000"));
    let (_, step) = router.call("loki_run_saved_query", o(vec![("name", t("nothing"))]), noon());
    assert_eq!(failed(step), "saved query not found: nothing");
}

#[test]
fn every_tool_asks_what_it_needs() {
    let router = ToolRouter::new(settings()).expect("router should build");
    let plan = |tool: &str, params: Json| router.dispatch(tool, &params, noon());
    let one = |plan: Result<Plan, loki_mcp::error::ToolError>| match plan {
        Ok(Plan::Ask(mut requests, finish)) => (requests.remove(0), finish),
        other => panic!("the tool should ask the backend, not {other:?}"),
    };
    let (request, finish) = one(plan("loki_label_values", o(vec![("label", t("app")), ("query", t("{a=\"b\"}"))])));
    assert_eq!(request.path, "/loki/api/v1/label/app/values");
    assert_eq!(finish.kind, FinishKind::LabelValues);
    let (request, _) = one(plan("loki_series", o(vec![("match", Json::Array(vec![t("{a=\"b\"}")])), ("end", t("now"))])));
    assert_eq!(param(&request, "match[]"), Some("{a=\"b\"}"));
    assert_eq!(param(&request, "start"), None);
    let (request, finish) = one(plan("loki_query_metrics", o(vec![("query", t("rate({a=\"b\"}[1m])")), ("step", t("30s"))])));
    assert_eq!(param(&request, "step"), Some("30s"));
    assert_eq!(finish.step, Some("30s".to_string()));
    let (request, _) = one(plan("loki_query_stats", o(vec![("query", t("{a=\"b\"}"))])));
    assert_eq!(request.path, "/loki/api/v1/index/stats");
    let (request, _) = one(plan("loki_detect_patterns", o(vec![("query", t("{a=\"b\"}")), ("step", t("1m"))])));
    assert_eq!(request.path, "/loki/api/v1/patterns");
    assert_eq!(param(&request, "step"), Some("1m"));
    let (request, _) = one(plan("loki_tail", o(vec![("labels", o(vec![("app", t("api"))]))])));
    assert_eq!(param(&request, "query"), Some("{app=\"api\"}"));
    assert_eq!(param(&request, "limit"), Some("50"));
    let (request, finish) = one(plan(
        "loki_build_query",
        o(vec![("labels", o(vec![("app", t("api"))])), ("aggregation", t("rate")), ("line_filter", t("x"))]),
    ));
    assert_eq!(param(&request, "query"), Some("rate({app=\"api\"} |= \"x\"[5m])"));
    assert_eq!(finish.kind, FinishKind::BuiltMetrics);
    let (request, finish) = one(plan("loki_build_query", o(vec![("limit", n(5))])));
    assert_eq!(param(&request, "query"), Some("{}"));
    assert_eq!(param(&request, "limit"), Some("5"));
    assert_eq!(param(&request, "direction"), Some("backward"));
    assert_eq!(finish.kind, FinishKind::Logs);
    match plan(
        "loki_compare_ranges",
        o(vec![
            ("query", t("q")),
            ("baseline_start", t("2h")),
            ("baseline_end", t("1h")),
            ("compare_start", t("1h")),
            ("compare_end", t("now")),
        ]),
    ) {
        Ok(Plan::Ask(requests, finish)) => {
            assert_eq!(requests.len(), 2);
            assert_eq!(param(&requests[0], "limit"), Some("1000"));
            assert_eq!(param(&requests[0], "end"), Some("1771412400000000000"));
            assert_eq!(param(&requests[1], "end"), Some("1771416000000000000"));
            assert_eq!(finish.instants.len(), 4);
        }
        other => panic!("two requests expected, not {other:?}"),
    }
    assert!(matches!(plan("loki_check_health", Json::Null), Ok(Plan::Health)));
    assert!(matches!(plan("loki_explain_query", o(vec![("query", t("q"))])), Ok(Plan::Answer(_))));
    assert!(matches!(
        plan("loki_suggest_metric_rule", o(vec![("query", t("q")), ("metric_name", t("m")), ("alert_threshold", Json::Real("0.5".to_string()))])),
        Ok(Plan::Answer(_))
    ));
    let message = |plan: Result<Plan, loki_mcp::error::ToolError>| plan.err().map(|e| e.message());
    assert_eq!(message(plan("loki_series", o(vec![("match", Json::Array(vec![]))]))), Some("at least one series matcher is required".to_string()));
    assert_eq!(message(plan("loki_tail", o(vec![("labels", o(vec![]))]))), Some("tail labels must not be empty".to_string()));
    assert_eq!(message(plan("loki_label_values", o(vec![("label", t("a-b"))]))), Some("label contains unsupported characters: a-b".to_string()));
    assert_eq!(message(plan("loki_build_query", o(vec![("aggregation", t("sum"))]))).map(|m| m.starts_with("unsupported aggregation: sum")), Some(true));
    assert_eq!(message(plan("loki_drop", Json::Null)), Some("unknown tool: loki_drop".to_string()));
    assert_eq!(message(plan("loki_list_labels", o(vec![("start", t("2026-02-18T12:00:00Z")), ("end", t("1h"))]))), Some("start time must be less than or equal to end time".to_string()));
}

#[test]
fn answers_are_finished_per_tool() {
    let router = ToolRouter::new(settings()).expect("router should build");
    let run = |tool: &str, params: Json, bodies: Vec<Json>, ratio: Json| match router.dispatch(tool, &params, noon()) {
        Ok(Plan::Ask(_, how)) => finish(how, bodies, ratio).map(|v| write_json(&v)).map_err(|e| e.message()),
        other => panic!("the tool should ask the backend, not {other:?}"),
    };
    assert_eq!(
        run("loki_label_values", o(vec![("label", t("app"))]), vec![success(Json::Array(vec![t("api")]))], Json::Null),
        Ok("{\"label\":\"app\",\"values\":[\"api\"]}".to_string())
    );
    assert_eq!(
        run("loki_series", o(vec![("match", Json::Array(vec![t("{a=\"b\"}")]))]), vec![success(Json::Array(vec![o(vec![("a", t("b"))])]))], Json::Null),
        Ok("{\"series\":[{\"a\":\"b\"}]}".to_string())
    );
    assert_eq!(
        run("loki_query_metrics", o(vec![("query", t("q"))]), vec![success(o(vec![("result", Json::Array(vec![]))]))], Json::Null),
        Ok("{\"data\":{\"result\":[]},\"end\":\"2026-02-18T12:00:00Z\",\"query\":\"q\",\"start\":\"2026-02-18T11:30:00Z\",\"step\":null}".to_string())
    );
    assert_eq!(
        run("loki_query_stats", o(vec![("query", t("q"))]), vec![o(vec![("streams", n(2)), ("bytes", n(10))])], Json::Null),
        Ok("{\"end\":\"2026-02-18T12:00:00Z\",\"query\":\"q\",\"start\":\"2026-02-18T11:30:00Z\",\"stats\":{\"bytes_processed\":10,\"chunks\":null,\"entries\":null,\"raw\":{\"bytes\":10,\"streams\":2},\"streams\":2}}".to_string())
    );
    assert_eq!(
        run("loki_detect_patterns", o(vec![("query", t("q"))]), vec![success(Json::Array(vec![]))], Json::Null),
        Ok("{\"end\":\"2026-02-18T12:00:00Z\",\"patterns\":[],\"query\":\"q\",\"start\":\"2026-02-18T11:30:00Z\"}".to_string())
    );
    let comparison = o(vec![
        ("query", t("q")),
        ("baseline_start", t("2h")),
        ("baseline_end", t("1h")),
        ("compare_start", t("1h")),
        ("compare_end", t("now")),
    ]);
    let bodies = vec![success(logs(4)), success(logs(1))];
    assert_eq!(compare_counts(&bodies).ok(), Some((4, 1)));
    assert_eq!(
        run("loki_compare_ranges", comparison, bodies, Json::Real("0.25".to_string())),
        Ok("{\"baseline\":{\"end\":\"2026-02-18T11:00:00Z\",\"line_count\":4,\"start\":\"2026-02-18T10:00:00Z\"},\"compare\":{\"end\":\"2026-02-18T12:00:00Z\",\"line_count\":1,\"start\":\"2026-02-18T11:00:00Z\"},\"delta\":{\"line_count\":-3,\"ratio\":0.25},\"query\":\"q\"}".to_string())
    );
    assert_eq!(
        run("loki_list_labels", Json::Null, vec![success(t("no list"))], Json::Null),
        Err("failed to decode Loki JSON response".to_string())
    );
    assert_eq!(run("loki_list_labels", Json::Null, vec![], Json::Null), Err("invalid tool parameters".to_string()));
    let (_, raw) = match router.dispatch("loki_query_logs", &o(vec![("query", t("q")), ("response_mode", t("raw"))]), noon()) {
        Ok(Plan::Ask(_, how)) => (how.kind, finish(how, vec![success(logs(2))], Json::Null).expect("finished")),
        other => panic!("the tool should ask the backend, not {other:?}"),
    };
    assert_eq!(raw.get("data").and_then(|d| d.get("total_lines")).and_then(Json::as_u64), Some(2));
}

#[test]
fn outside_answers_end_the_invocation() {
    let mut router = ToolRouter::new(settings()).expect("router should build");
    let (mut call, step) = router.call("loki_check_health", Json::Null, noon());
    assert!(matches!(step, CallStep::Health));
    assert_eq!(call.stage, CallStage::Outside);
    let step = router.on_outside(&mut call, Ok(o(vec![("healthy", Json::Bool(true))])));
    assert_eq!(write_json(&returned(step)), "{\"healthy\":true}");
    let (mut call, _) = router.call("loki_list_labels", Json::Null, noon());
    let step = router.on_outside(&mut call, Err("request to Loki failed".to_string()));
    assert_eq!(failed(step), "request to Loki failed");
    let step = router.on_answers(&mut call, vec![], Json::Null);
    assert_eq!(failed(step), "invalid tool parameters");
}

#[test]
fn router_refuses_what_it_cannot_read() {
    let fault = |change: fn(&mut Config)| {
        let mut config = Config::default();
        change(&mut config);
        ToolRouter::new(config).err().map(|e| e.message())
    };
    assert_eq!(fault(|c| c.server.timezone = "Mars/Olympus".to_string()), Some("invalid timezone: Mars/Olympus".to_string()));
    assert_eq!(fault(|c| c.cache.ttl = "x".to_string()), Some("invalid cache.ttl: x".to_string()));
    assert_eq!(fault(|c| c.cache.ttl = "400000d".to_string()), Some("invalid cache.ttl: 400000d".to_string()));
    assert_eq!(fault(|c| c.guardrails.max_bytes_scanned = "1XB".to_string()), Some("invalid guardrails.max_bytes_scanned: 1XB".to_string()));
    let router = ToolRouter::new(Config::default()).expect("router should build");
    assert_eq!(router.guardrails.max_bytes_scanned, Some(500_000_000));
    assert_eq!(router.guardrails.max_streams, Some(5000));
    assert_eq!(router.guardrails.skip_stats_if_range_shorter_than, Span::from_secs(900));
    assert_eq!(router.cache_skip_if_range_shorter_than, Span::from_secs(60));
    assert!(router.cache.is_some());
    assert!(router.guardrails.enabled());
}

#[test]
fn health_is_written_with_all_four_members() {
    let fit = LokiHealth { healthy: true, message: None, build_info: Some(o(vec![("version", t("3.0"))])), ring_status: None };
    assert_eq!(
        write_json(&health_to_json(fit)),
        "{\"build_info\":{\"version\":\"3.0\"},\"healthy\":true,\"message\":null,\"ring_status\":null}"
    );
    let unfit = LokiHealth {
        healthy: false,
        message: Some("loki returned status 503 Service Unavailable".to_string()),
        build_info: None,
        ring_status: None,
    };
    let written = health_to_json(unfit);
    assert!(matches!(written.get("healthy"), Some(Json::Bool(false))));
    assert_eq!(written.get("message").and_then(|m| m.as_str()).map(|m| m.as_str()), Some("loki returned status 503 Service Unavailable"));
}

#[test]
fn explains_the_parts_of_a_log_query() {
    let explained = explain_query("  {app=\"api\", env=\"prod\"} |= \"error\" | json | level=\"warn\"  ");
    assert_eq!(
        write_json(&explained),
        "{\"aggregation\":null,\"query\":\"{app=\\\"api\\\", env=\\\"prod\\\"} |= \\\"error\\\" | json | level=\\\"warn\\\"\",\"selector\":\"{app=\\\"api\\\", env=\\\"prod\\\"}\",\"stages\":[\"|= \\\"error\\\"\",\"| json\",\"| level=\\\"warn\\\"\"],\"type\":\"log\"}"
    );
    let filtered = explain_query("{a=\"b\"} != \"x\" | logfmt");
    let stages: Vec<&str> = filtered.get("stages").and_then(Json::as_array).expect("stages").iter().filter_map(|s| s.as_str().map(|s| s.as_str())).collect();
    assert_eq!(stages, vec!["!= \"x\"", "| logfmt"]);
    let bare = explain_query("{a=\"b\"}");
    assert_eq!(bare.get("stages").and_then(Json::as_array).map(|s| s.len()), Some(0));
}

#[test]
fn explains_the_parts_of_a_metric_query() {
    let explained = explain_query("sum by (app) (rate({app=\"api\"} |= \"error\" [5m]))");
    assert_eq!(explained.get("type").and_then(Json::as_str).map(|s| s.as_str()), Some("metric"));
    assert_eq!(explained.get("aggregation").and_then(Json::as_str).map(|s| s.as_str()), Some("sum"));
    assert_eq!(explained.get("selector").and_then(Json::as_str).map(|s| s.as_str()), Some("{app=\"api\"}"));
    let rate = explain_query("count_over_time({a=\"b\"}[1m])");
    assert_eq!(rate.get("aggregation").and_then(Json::as_str).map(|s| s.as_str()), Some("count_over_time"));
    let stages: Vec<&str> = rate.get("stages").and_then(Json::as_array).expect("stages").iter().filter_map(|s| s.as_str().map(|s| s.as_str())).collect();
    assert_eq!(stages, vec!["[1m])"]);
    let none = explain_query("no selector here");
    assert!(matches!(none.get("selector"), Some(Json::Null)));
    assert!(matches!(none.get("aggregation"), Some(Json::Null)));
    assert_eq!(none.get("type").and_then(Json::as_str).map(|s| s.as_str()), Some("log"));
    let open = explain_query("rate({a=\"b\"");
    assert!(matches!(open.get("selector"), Some(Json::Null)));
    assert_eq!(open.get("aggregation").and_then(Json::as_str).map(|s| s.as_str()), Some("rate"));
}

fn rule(kind: Option<&str>, threshold: Option<Json>, wait: Option<&str>) -> SuggestMetricRuleParams {
    SuggestMetricRuleParams {
        query: "sum(rate({app=\"api\"} |= \"error\" [5m]))".to_string(),
        metric_name: "api:errors:rate5m".to_string(),
        description: Some("errors of the api".to_string()),
        rule_type: kind.map(str::to_string),
        alert_threshold: threshold,
        alert_for: wait.map(str::to_string),
    }
}

#[test]
fn suggests_a_recording_rule_where_no_kind_is_named() {
    let suggested = suggest_metric_rule(&rule(None, None, None)).expect("a rule");
    assert_eq!(suggested.get("rule_type").and_then(Json::as_str).map(|s| s.as_str()), Some("recording"));
    assert_eq!(suggested.get("name").and_then(Json::as_str).map(|s| s.as_str()), Some("api:errors:rate5m"));
    assert_eq!(
        suggested.get("yaml").and_then(Json::as_str).map(|s| s.as_str()),
        Some("groups:\n  - name: api:errors:rate5m\n    rules:\n      - record: api:errors:rate5m\n        expr: sum(rate({app=\"api\"} |= \"error\" [5m]))\n")
    );
    assert_eq!(suggested.get("description").and_then(Json::as_str).map(|s| s.as_str()), Some("errors of the api"));
    assert!(suggested.get("for").is_none());
}

#[test]
fn suggests_an_alerting_rule_with_its_threshold() {
    let suggested = suggest_metric_rule(&rule(Some("alerting"), Some(Json::Real("0.5".to_string())), Some("10m"))).expect("a rule");
    assert_eq!(
        suggested.get("expr").and_then(Json::as_str).map(|s| s.as_str()),
        Some("(sum(rate({app=\"api\"} |= \"error\" [5m]))) > 0.5")
    );
    assert_eq!(suggested.get("for").and_then(Json::as_str).map(|s| s.as_str()), Some("10m"));
    assert_eq!(
        suggested.get("yaml").and_then(Json::as_str).map(|s| s.as_str()),
        Some("groups:\n  - name: api:errors:rate5m\n    rules:\n      - alert: api:errors:rate5m\n        expr: (sum(rate({app=\"api\"} |= \"error\" [5m]))) > 0.5\n        for: 10m\n")
    );
    let plain = suggest_metric_rule(&rule(Some("alerting"), None, None)).expect("a rule");
    assert_eq!(
        plain.get("expr").and_then(Json::as_str).map(|s| s.as_str()),
        Some("(sum(rate({app=\"api\"} |= \"error\" [5m]))) > 0")
    );
    assert_eq!(plain.get("for").and_then(Json::as_str).map(|s| s.as_str()), Some("5m"));
    let whole = suggest_metric_rule(&rule(Some("alerting"), Some(n(7)), None)).expect("a rule");
    assert!(whole.get("expr").and_then(Json::as_str).expect("expr").ends_with(" > 7"));
}

#[test]
fn refuses_a_rule_of_another_kind() {
    let error = suggest_metric_rule(&rule(Some("paging"), None, None)).expect_err("no such kind");
    assert_eq!(error.message(), "unsupported rule type: paging");
    let mut router = ToolRouter::new(settings()).expect("router should build");
    let (_, step) = router.call(
        "loki_suggest_metric_rule",
        o(vec![("query", t("q")), ("metric_name", t("m")), ("rule_type", t("paging"))]),
        noon(),
    );
    assert_eq!(failed(step), "unsupported rule type: paging");
    let (_, step) = router.call("loki_explain_query", o(vec![("query", t("{a=\"b\"} | json"))]), noon());
    assert_eq!(
        write_json(&returned(step)),
        "{\"aggregation\":null,\"query\":\"{a=\\\"b\\\"} | json\",\"selector\":\"{a=\\\"b\\\"}\",\"stages\":[\"| json\"],\"type\":\"log\"}"
    );
}

fn planned(plan: Result<Plan, loki_mcp::error::ToolError>) -> (Vec<BackendRequest>, FinishKind) {
    match plan {
        Ok(Plan::Ask(requests, how)) => (requests, how.kind),
        other => panic!("the tool should ask the backend, not {other:?}"),
    }
}

fn refused(plan: Result<Plan, loki_mcp::error::ToolError>) -> String {
    match plan {
        Err(error) => error.message(),
        other => panic!("the tool should fail, not {other:?}"),
    }
}

#[test]
fn each_tool_asks_its_endpoint() {
    let client = LokiClient::new(&settings().loki).expect("client");
    let utc = Zone::parse("UTC").expect("zone");
    let config = settings();
    let some = |text: &str| Some(text.to_string());

    let (requests, kind) = planned(list_labels(&client, utc, None, Some("now"), noon()));
    assert_eq!(kind, FinishKind::Labels);
    assert_eq!(requests[0].path, "/loki/api/v1/labels");
    assert_eq!(requests[0].params, vec![("end".to_string(), "1771416000000000000".to_string())]);
    assert_eq!(
        refused(list_labels(&client, utc, Some("2026-02-18T13:00:00Z"), Some("now"), noon())),
        "start time must be less than or equal to end time"
    );

    let (requests, kind) = planned(label_values(&client, utc, "app", None, None, Some("{env=\"prod\"}"), noon()));
    assert_eq!(kind, FinishKind::LabelValues);
    assert_eq!(requests[0].path, "/loki/api/v1/label/app/values");
    assert_eq!(param(&requests[0], "query"), Some("{env=\"prod\"}"));
    assert_eq!(refused(label_values(&client, utc, "a-b", None, None, None, noon())), "label contains unsupported characters: a-b");
    assert_eq!(refused(label_values(&client, utc, "", Some("soon"), None, None, noon())), "duration must include a numeric value and a unit suffix");

    let matchers = vec!["{a=\"b\"}".to_string(), "{c=\"d\"}".to_string()];
    let (requests, kind) = planned(series(&client, utc, &matchers, Some("1h"), None, noon()));
    assert_eq!(kind, FinishKind::Series);
    assert_eq!(requests[0].path, "/loki/api/v1/series");
    assert_eq!(
        requests[0].params,
        vec![
            ("match[]".to_string(), "{a=\"b\"}".to_string()),
            ("match[]".to_string(), "{c=\"d\"}".to_string()),
            ("start".to_string(), "1771412400000000000".to_string()),
        ]
    );
    assert_eq!(refused(series(&client, utc, &Vec::new(), None, None, noon())), "at least one series matcher is required");

    let logs = QueryLogsInput { query: "{a=\"b\"}".to_string(), start: some("1h"), end: None, limit: Some(7), direction: some("forward"), response_mode: None };
    let (requests, kind) = planned(query_logs(&client, utc, logs, noon()));
    assert_eq!(kind, FinishKind::Logs);
    assert_eq!(requests[0].path, "/loki/api/v1/query_range");
    assert_eq!(param(&requests[0], "limit"), Some("7"));
    assert_eq!(param(&requests[0], "direction"), Some("forward"));
    assert_eq!(param(&requests[0], "start"), Some("1771412400000000000"));

    let metrics = QueryMetricsInput { query: "rate({a=\"b\"}[5m])".to_string(), start: None, end: None, step: some("30s") };
    let (requests, kind) = planned(query_metrics(&client, utc, metrics, noon()));
    assert_eq!(kind, FinishKind::Metrics);
    assert_eq!(requests[0].path, "/loki/api/v1/query_range");
    assert_eq!(param(&requests[0], "step"), Some("30s"));
    assert_eq!(param(&requests[0], "limit"), None);

    let stats = QueryStatsInput { query: "{a=\"b\"}".to_string(), start: None, end: None };
    let (requests, kind) = planned(query_stats(&client, utc, stats, noon()));
    assert_eq!(kind, FinishKind::Stats);
    assert_eq!(requests[0].path, "/loki/api/v1/index/stats");
    assert_eq!(requests[0].params.len(), 3);

    let patterns = DetectPatternsInput { query: "{a=\"b\"}".to_string(), start: None, end: None, step: some("1m") };
    let (requests, kind) = planned(detect_patterns(&client, utc, patterns, noon()));
    assert_eq!(kind, FinishKind::Patterns);
    assert_eq!(requests[0].path, "/loki/api/v1/patterns");
    assert_eq!(param(&requests[0], "step"), Some("1m"));

    let compare = CompareRangesInput {
        query: "{a=\"b\"}".to_string(),
        baseline_start: "2h".to_string(),
        baseline_end: "1h".to_string(),
        compare_start: "1h".to_string(),
        compare_end: "now".to_string(),
    };
    let (requests, kind) = planned(compare_ranges(&client, utc, compare, noon()));
    assert_eq!(kind, FinishKind::Compare);
    assert_eq!(requests.len(), 2);
    assert_eq!(param(&requests[0], "start"), Some("1771408800000000000"));
    assert_eq!(param(&requests[0], "end"), Some("1771412400000000000"));
    assert_eq!(param(&requests[1], "start"), Some("1771412400000000000"));
    assert_eq!(param(&requests[1], "end"), Some("1771416000000000000"));
    assert_eq!(param(&requests[1], "limit"), Some("1000"));

    let built = BuildQueryInput {
        labels: Some(vec![("app".to_string(), "api".to_string())]),
        structured_metadata: None,
        line_filter: some("error"),
        line_filter_regex: None,
        exclude: None,
        json_fields: None,
        aggregation: some("rate"),
        aggregation_range: None,
        start: None,
        end: None,
        limit: None,
        response_mode: None,
    };
    let (requests, kind) = planned(build_query(&client, utc, built, noon()));
    assert_eq!(kind, FinishKind::BuiltMetrics);
    assert_eq!(param(&requests[0], "query"), Some("rate({app=\"api\"} |= \"error\"[5m])"));

    let tailed = TailInput { labels: vec![("app".to_string(), "api".to_string())], lines: None, response_mode: None };
    let (requests, kind) = planned(tail(&client, utc, tailed, noon()));
    assert_eq!(kind, FinishKind::Logs);
    assert_eq!(param(&requests[0], "query"), Some("{app=\"api\"}"));
    assert_eq!(param(&requests[0], "limit"), Some("50"));
    assert_eq!(param(&requests[0], "start"), Some("1771414200000000000"));
    let none = TailInput { labels: Vec::new(), lines: None, response_mode: None };
    assert_eq!(refused(tail(&client, utc, none, noon())), "tail labels must not be empty");

    let saved = RunSavedQueryInput { name: "errors".to_string(), override_range: some("15m"), response_mode: None };
    let (requests, kind) = planned(run_saved_query(&client, &config, utc, saved, noon()));
    assert_eq!(kind, FinishKind::SavedLogs);
    assert_eq!(param(&requests[0], "query"), Some("{app=\"api\"} |= \"error\""));
    assert_eq!(param(&requests[0], "start"), Some("1771415100000000000"));
    assert_eq!(param(&requests[0], "end"), Some("1771416000000000000"));
    let missing = RunSavedQueryInput { name: "nothing".to_string(), override_range: None, response_mode: None };
    assert_eq!(refused(run_saved_query(&client, &config, utc, missing, noon())), "saved query not found: nothing");
}

fn router_config(base_url: &str, run_id: &str, disable_guardrails: bool) -> Config {
    let mut config = Config::default();
    config.loki.url = base_url.to_string();
    config.loki.timeout = "30s".to_string();
    config.saved_queries = vec![SavedQuery {
        name: "seeded_logs".to_string(),
        description: "Logs seeded by integration test harness".to_string(),
        query: format!("{{test_run_id=\"{run_id}\"}}"),
        range: "30m".to_string(),
    }];

    if disable_guardrails {
        config.guardrails.max_bytes_scanned = "0B".to_string();
        config.guardrails.max_streams = 0;
    }

    config
}

#[test]
fn tool_router_uses_cache_when_loki_becomes_unavailable() {
    let mut config = router_config("http://127.0.0.1:3100", "run-1", true);
    config.cache.skip_if_range_shorter_than = "1s".to_string();
    config.cache.ttl = "5m".to_string();

    let mut router = ToolRouter::new(config).expect("router should build");
    let params = || o(vec![("query", t("{test_run_id=\"run-1\"}")), ("response_mode", t("raw"))]);

    let (mut call, step) = router.call("loki_query_logs", params(), noon());
    assert_eq!(asked(step).len(), 1);
    let first = returned(router.on_answers(&mut call, vec![success(logs(3))], Json::Null));

    // From here on nothing is asked of the backend, so that it may be gone.
    let (again, step) = router.call("loki_query_logs", params(), noon());
    assert!(again.cached);
    let second = returned(step);

    assert_eq!(write_json(&first), write_json(&second));
    assert_eq!(first.get("data").and_then(|d| d.get("mode")).and_then(Json::as_str).map(|s| s.as_str()), Some("raw"));
    assert_eq!(first.get("data").and_then(|d| d.get("total_lines")).and_then(Json::as_u64), Some(3));
}

#[test]
fn tool_router_guardrails_reject_over_threshold_query() {
    let mut config = router_config("http://127.0.0.1:3100", "run-1", false);
    config.cache.enabled = false;
    config.guardrails.max_bytes_scanned = "1B".to_string();
    config.guardrails.max_streams = 0;
    config.guardrails.skip_stats_if_streams_below = 0;
    config.guardrails.skip_stats_if_range_shorter_than = "0s".to_string();

    let mut router = ToolRouter::new(config).expect("router should build");
    let params = || o(vec![("query", t("{test_run_id=\"run-1\"}")), ("response_mode", t("raw"))]);

    let (mut call, step) = router.call("loki_query_logs", params(), noon());
    assert!(matches!(step, CallStep::AskStats(_)));
    let over = o(vec![("streams", n(1)), ("chunks", n(1)), ("bytes", n(4096)), ("entries", n(6))]);
    let error = failed(router.on_stats(&mut call, Some(over), noon()));
    assert!(error.contains("guardrail"));

    // Where the backend does not tell the cost, the check fails closed.
    let (mut call, _) = router.call("loki_query_logs", params(), noon());
    let error = failed(router.on_stats(&mut call, None, noon()));
    assert!(error.contains("guardrail"));
}

#[test]
fn comparison_refuses_a_range_that_runs_backwards() {
    let client = LokiClient::new(&settings().loki).expect("client");
    let utc = Zone::parse("UTC").expect("zone");
    let compare = |bs: &str, be: &str, cs: &str, ce: &str| CompareRangesInput {
        query: "{a=\"b\"}".to_string(),
        baseline_start: bs.to_string(),
        baseline_end: be.to_string(),
        compare_start: cs.to_string(),
        compare_end: ce.to_string(),
    };
    let backwards = compare("2026-02-18T13:00:00Z", "2026-02-18T12:00:00Z", "1h", "now");
    assert_eq!(
        refused(compare_ranges(&client, utc, backwards, noon())),
        "start time must be less than or equal to end time"
    );
    let second = compare("2h", "1h", "2026-02-18T12:00:00Z", "2026-02-18T11:59:59Z");
    assert_eq!(
        refused(compare_ranges(&client, utc, second, noon())),
        "start time must be less than or equal to end time"
    );
    let router = ToolRouter::new(settings()).expect("router should build");
    let plan = router.dispatch(
        "loki_compare_ranges",
        &o(vec![
            ("query", t("{a=\"b\"}")),
            ("baseline_start", t("2026-02-18T13:00:00Z")),
            ("baseline_end", t("2026-02-18T12:00:00Z")),
            ("compare_start", t("1h")),
            ("compare_end", t("now")),
        ]),
        noon(),
    );
    assert_eq!(refused(plan), "start time must be less than or equal to end time");
    let level = compare("1h", "1h", "now", "now");
    assert_eq!(planned(compare_ranges(&client, utc, level, noon())).0.len(), 2);
}

#[test]
fn labels_are_written_in_the_order_of_their_names() {
    let unsorted = vec![
        ("zone".to_string(), "b".to_string()),
        ("app".to_string(), "old".to_string()),
        ("env".to_string(), "prod".to_string()),
        ("app".to_string(), "api".to_string()),
    ];
    assert_eq!(selector_from_labels(&unsorted), "{app=\"api\",env=\"prod\",zone=\"b\"}");
    let built = BuildQueryInput {
        labels: Some(unsorted.clone()),
        structured_metadata: Some(vec![("trace".to_string(), "1".to_string()), ("span".to_string(), "2".to_string())]),
        line_filter: None,
        line_filter_regex: None,
        exclude: None,
        json_fields: Some(vec![("b".to_string(), "2".to_string()), ("a".to_string(), "1".to_string())]),
        aggregation: None,
        aggregation_range: None,
        start: None,
        end: None,
        limit: None,
        response_mode: None,
    };
    assert_eq!(
        build_query_string(&built).map_err(|e| e.message()),
        Ok("{app=\"api\",env=\"prod\",zone=\"b\"} | span=\"2\" | trace=\"1\" | json | a=\"1\" | b=\"2\"".to_string())
    );
}

#[test]
fn a_value_found_in_the_cache_ends_the_invocation() {
    let mut router = router_with_counters(settings());
    let found = o(vec![("labels", Json::Array(vec![t("app")]))]);
    let (call, step) = router.begin("loki_list_labels", Json::Null, Some(found), noon());
    assert!(call.cached);
    assert!(call.use_cache);
    assert_eq!(call.stage, CallStage::Done);
    assert!(call.run.is_none());
    assert_eq!(write_json(&returned(step)), "{\"labels\":[\"app\"]}");
    assert!(counter(&router, "loki_mcp_tool_cache_total{result=\"hit\",tool=\"loki_list_labels\"} 1"));

    let (call, step) = router.begin("loki_list_labels", Json::Null, None, noon());
    assert!(!call.cached);
    assert_eq!(asked(step).len(), 1);
    assert!(counter(&router, "loki_mcp_tool_cache_total{result=\"miss\",tool=\"loki_list_labels\"} 1"));
    assert!(counter(&router, "loki_mcp_tool_cache_total{result=\"hit\",tool=\"loki_list_labels\"} 1"));

    // A tool that does not go by the cache is run whatever is handed in.
    let (call, step) = router.begin("loki_check_health", Json::Null, Some(t("stale")), noon());
    assert!(!call.cached && !call.use_cache);
    assert!(matches!(step, CallStep::Health));
    assert!(router.probe("loki_check_health", &o(vec![]), noon()).is_none());
    assert!(router.probe("loki_list_labels", &o(vec![]), noon()).is_none());
}
