use loki_mcp::cache::QueryCache;
use loki_mcp::config::Config;
use loki_mcp::json::{Json, Number};
use loki_mcp::mcp::{
    build_tools, classify_error, elapsed_millis, extract_query_text, hash_string, header_value,
    resolve_identity, resolve_request_id, Answer, LokiMcpServer, Reply, RequestInfo, ServerStep,
};
use loki_mcp::metrics::{MetricsError, MetricsRegistry, Metric};
use loki_mcp::rate_limit::{denial_message, rate_limit_key, ToolRateLimiter};
use loki_mcp::recent_actions::{ActionOutcome, RecentActionInput, RecentActionsStore};
use loki_mcp::server::{
    build_recent_actions_store, list_limit, metrics, next_request_id, observe,
    recent_actions_endpoint, Body, ReadinessCache, ReadyStep,
};
use loki_mcp::time::{Instant, Span};
use std::collections::BTreeSet;
use std::hash::{Hash, Hasher};

fn s(v: &str) -> Json {
    Json::Text(v.to_string())
}

fn map(members: Vec<(&str, Json)>) -> Json {
    Json::Object(members.into_iter().map(|(k, v)| (k.to_string(), v)).collect())
}

fn action(tool: &str) -> RecentActionInput {
    RecentActionInput {
        request_id: Some("req-1".to_string()),
        tool: tool.to_string(),
        outcome: ActionOutcome::Success,
        duration_ms: 12,
        identity_hash: "hash".to_string(),
        tenant_id: None,
        query: Some("{app=\"api\"}".to_string()),
        error_class: None,
        error: None,
    }
}

fn plain_request() -> RequestInfo {
    RequestInfo {
        has_headers: true,
        identity_header: None,
        forwarded_for: None,
        request_id: Some(" req-7 ".to_string()),
        peer_ip: Some("192.0.2.1".to_string()),
    }
}

fn server(config: Config, trail: Option<RecentActionsStore>) -> LokiMcpServer {
    let metrics = MetricsRegistry::new(&config.metrics.prefix.clone()).expect("metrics");
    LokiMcpServer::new(config, metrics, trail).expect("server")
}

fn quiet() -> Config {
    let mut config = Config::default();
    config.server.timezone = "UTC".to_string();
    config.guardrails.max_bytes_scanned = "0".to_string();
    config.guardrails.max_streams = 0;
    config.rate_limit.enabled = false;
    config
}

fn counted(server: &LokiMcpServer, line: &str) -> bool {
    let text = server.tool_router.metrics.as_ref().expect("metrics").render().expect("rendered");
    text.lines().any(|l| l == line)
}

fn at(secs: i64) -> Instant {
    Instant::new(secs, 0)
}

#[test]
fn registers_all_spec_tools_with_unique_names() {
    let tools = build_tools();
    assert_eq!(tools.len(), 15);

    let unique_count = tools.iter().map(|tool| tool.name.to_string()).collect::<BTreeSet<String>>().len();

    assert_eq!(unique_count, 15);
}

#[test]
fn enforces_limit_per_tool_identity_key() {
    let mut limiter = ToolRateLimiter::new(1, 1).expect("limiter should build");

    assert!(limiter.check("loki_query_logs", "alice", None).is_ok());
    assert!(limiter.check("loki_query_logs", "alice", None).is_err());

    assert!(limiter.check("loki_query_logs", "bob", None).is_ok());
    assert!(limiter.check("loki_query_metrics", "alice", None).is_ok());
}

#[test]
fn keeps_most_recent_entries_with_max_capacity() {
    let mut store = RecentActionsStore::new(2, Span::from_secs(60), false, false);
    store.record(at(100), action("a"));
    store.record(at(101), action("b"));
    store.record(at(102), action("c"));

    let entries = store.list(at(103), 10);
    assert_eq!(entries.len(), 2);
    assert_eq!(entries[0].tool, "c");
    assert_eq!(entries[1].tool, "b");
}

#[test]
fn redacts_query_when_query_storage_disabled() {
    let mut store = RecentActionsStore::new(10, Span::from_secs(60), false, false);
    store.record(at(100), action("query"));

    let entries = store.list(at(100), 10);
    assert_eq!(entries.len(), 1);
    assert!(entries[0].query.is_none());
    assert!(entries[0].query_redacted);
}

#[test]
fn trail_keeps_text_where_told_to() {
    let mut store = RecentActionsStore::new(10, Span::from_secs(60), true, true);
    let mut input = action("query");
    input.error = Some("boom".to_string());
    input.error_class = Some("tool_error".to_string());
    store.record(Instant::new(100, 5), input);
    let entries = store.list(at(101), 10);
    assert_eq!(entries[0].query.as_deref(), Some("{app=\"api\"}"));
    assert!(!entries[0].query_redacted);
    assert_eq!(entries[0].error.as_deref(), Some("boom"));
    assert_eq!(entries[0].error_class.as_deref(), Some("tool_error"));
    assert_eq!(entries[0].timestamp, Instant::new(100, 5));
    assert_eq!(entries[0].duration_ms, 12);
    assert_eq!(entries[0].identity_hash, "hash");
    assert_eq!(entries[0].request_id.as_deref(), Some("req-1"));
    let mut silent = RecentActionsStore::new(10, Span::from_secs(60), true, false);
    let mut input = action("query");
    input.query = None;
    input.error = Some("boom".to_string());
    silent.record(at(1), input);
    let entries = silent.list(at(1), 10);
    assert!(entries[0].error.is_none() && entries[0].query.is_none() && !entries[0].query_redacted);
}

#[test]
fn trail_is_bounded_fresh_and_newest_first() {
    let mut store = RecentActionsStore::new(0, Span::from_secs(10), false, false);
    assert_eq!(store.max_entries, 1);
    store.record(at(0), action("a"));
    store.record(at(1), action("b"));
    assert_eq!(store.entries.len(), 1);
    assert_eq!(store.list(at(1), 5)[0].tool, "b");

    let mut store = RecentActionsStore::new(3, Span::from_secs(10), false, false);
    for (i, name) in ["a", "b", "c", "d", "e"].iter().enumerate() {
        store.record(at(i as i64 * 4), action(name));
        assert!(store.entries.len() <= 3);
        let now = at(i as i64 * 4);
        assert!(store.entries.iter().all(|e| now.since(&e.timestamp).map_or(true, |age| !Span::from_secs(10).shorter_than(&age))));
        assert!(store.entries.iter().zip(store.entries.iter().skip(1)).all(|(x, y)| !x.timestamp.after(&y.timestamp)));
    }
    // at 16 the entries of 8, 12 and 16 are within ten seconds
    let tools: Vec<String> = store.list(at(16), 0).into_iter().map(|e| e.tool).collect();
    assert_eq!(tools, vec!["e"]);
    let tools: Vec<String> = store.list(at(16), 2).into_iter().map(|e| e.tool).collect();
    assert_eq!(tools, vec!["e", "d"]);
    let tools: Vec<String> = store.list(at(16), 5000).into_iter().map(|e| e.tool).collect();
    assert_eq!(tools, vec!["e", "d", "c"]);
    // exactly ten seconds old is not yet too old; one nanosecond more is
    assert_eq!(store.list(at(18), 10).len(), 3);
    assert_eq!(store.list(Instant::new(18, 1), 10).len(), 2);
    assert_eq!(store.list(at(27), 10).len(), 0);
    let mut forever = RecentActionsStore::new(3, Span::from_secs(u64::MAX), false, false);
    forever.record(at(0), action("a"));
    assert_eq!(forever.list(at(i64::MAX), 1).len(), 1);
    assert_eq!(ActionOutcome::GuardrailReject.name(), "guardrail_reject");
    assert_eq!(ActionOutcome::InvalidTool.name(), "invalid_tool");
}

#[test]
fn rate_limit_denials_are_isolated() {
    let mut limiter = ToolRateLimiter::new(1, 2).expect("limiter should build");
    assert!(limiter.check("loki_tail", "alice", Some("t1")).is_ok());
    assert!(limiter.check("loki_tail", "alice", Some("t1")).is_ok());
    let denial = limiter.check("loki_tail", "alice", Some("t1")).expect_err("beyond the burst");
    assert!(denial.starts_with("rate limit exceeded for tool=loki_tail, identity=alice: "));
    for _ in 0..5 {
        assert!(limiter.check("loki_tail", "alice", Some("t1")).is_err());
    }
    assert!(limiter.check("loki_tail", "alice", Some("t2")).is_ok());
    assert!(limiter.check("loki_tail", "alice", None).is_ok());
    assert!(limiter.check("loki_tail", "bob", Some("t1")).is_ok());
    assert!(ToolRateLimiter::new(0, 1).is_none());
    assert!(ToolRateLimiter::new(1, 0).is_none());
    assert_eq!(rate_limit_key("loki_tail", "alice", None), "loki_tail|alice|default_tenant");
    assert_eq!(rate_limit_key("loki_tail", "alice", Some("team")), "loki_tail|alice|team");
    assert_eq!(denial_message("t", "i", "wait"), "rate limit exceeded for tool=t, identity=i: wait");
}

#[test]
fn cache_hands_out_what_was_stored() {
    let mut cache = QueryCache::new(10, Span::from_secs(60));
    assert!(cache.get("k").is_none());
    cache.insert("k".to_string(), map(vec![("a", Json::Number(Number::Unsigned(1)))]));
    let first = cache.get("k").expect("stored");
    let second = cache.get("k").expect("stored");
    assert_eq!(format!("{first:?}"), format!("{second:?}"));
    assert_eq!(first.get("a").and_then(Json::as_u64), Some(1));
    cache.insert("other".to_string(), Json::Null);
    assert_eq!(cache.get("k").and_then(|v| v.get("a").and_then(Json::as_u64)), Some(1));
    cache.insert("k".to_string(), Json::Bool(false));
    assert!(matches!(cache.get("k"), Some(Json::Bool(false))));
    assert!(cache.get("missing").is_none());
}

#[test]
fn counters_count_by_label() {
    let mut metrics = MetricsRegistry::new("svc").expect("metrics");
    metrics.inc_http_requests();
    metrics.inc_http_requests();
    metrics.inc_tool_call("loki_tail", "success");
    metrics.inc_tool_call("loki_tail", "success");
    metrics.inc_tool_call("loki_tail", "error");
    metrics.inc_tool_cache_hit("loki_tail");
    metrics.inc_tool_cache_miss("loki_tail");
    metrics.inc_tool_guardrail_rejection("loki_tail");
    metrics.inc_tool_rate_limited("loki_tail");
    metrics.inc_readiness_cache_hit();
    metrics.inc_readiness_cache_miss();
    metrics.inc_readiness_cache_miss();
    let text = metrics.render().expect("rendered");
    for line in [
        "svc_http_requests_total 2",
        "svc_tool_calls_total{outcome=\"success\",tool=\"loki_tail\"} 2",
        "svc_tool_calls_total{outcome=\"error\",tool=\"loki_tail\"} 1",
        "svc_tool_cache_total{result=\"hit\",tool=\"loki_tail\"} 1",
        "svc_tool_cache_total{result=\"miss\",tool=\"loki_tail\"} 1",
        "svc_tool_guardrail_rejections_total{tool=\"loki_tail\"} 1",
        "svc_tool_rate_limited_total{tool=\"loki_tail\"} 1",
        "svc_readiness_cache_total{result=\"hit\"} 1",
        "svc_readiness_cache_total{result=\"miss\"} 2",
    ] {
        assert!(text.lines().any(|l| l == line), "missing {line} in {text}");
    }
    assert_eq!(MetricsRegistry::new("not a name").err(), Some(MetricsError::Create(Metric::HttpRequests)));
    assert_eq!(MetricsRegistry::new("9lives").err(), Some(MetricsError::Create(Metric::HttpRequests)));
    assert_eq!(MetricsRegistry::new("caf\u{e9}").err(), Some(MetricsError::Create(Metric::HttpRequests)));
    assert!(MetricsRegistry::new("").is_ok());
    assert!(MetricsRegistry::new("a:b_9").is_ok());
    assert!(MetricsRegistry::new(":x").is_ok());
    assert_eq!(MetricsError::Create(Metric::ToolCalls).message(), "failed to create tool_calls_total metric");
    assert_eq!(MetricsError::Register(Metric::ToolCache).message(), "failed to register tool_cache_total metric");
    assert_eq!(MetricsError::Encode.message(), "failed encoding prometheus metrics");
}

#[test]
fn identity_fallback_chain() {
    let mut request = RequestInfo {
        has_headers: true,
        identity_header: None,
        forwarded_for: Some("10.0.0.5, 10.0.0.6".to_string()),
        request_id: None,
        peer_ip: Some("192.0.2.1".to_string()),
    };
    assert_eq!(resolve_identity(&request), "10.0.0.5");
    let mut hasher = std::collections::hash_map::DefaultHasher::new();
    "10.0.0.5".hash(&mut hasher);
    let expected = format!("{:016x}", hasher.finish());
    assert_eq!(hash_string("10.0.0.5"), expected);

    let mut trail_config = quiet();
    trail_config.recent_actions.enabled = true;
    let trail = RecentActionsStore::new(10, Span::from_secs(60), false, false);
    let mut server = server(trail_config, Some(trail));
    let (invocation, step) = server.call_tool("loki_describe_schema", None, &request, at(1_771_416_000));
    assert!(matches!(step, ServerStep::Reply(Reply::Structured(_))));
    assert_eq!(invocation.identity, "10.0.0.5");
    let entries = server.recent_actions.as_mut().expect("trail").list(at(1_771_416_000), 10);
    assert_eq!(entries.len(), 1);
    assert_eq!(entries[0].identity_hash, expected);
    assert_eq!(entries[0].identity_hash.len(), 16);

    request.identity_header = Some("  carol ".to_string());
    assert_eq!(resolve_identity(&request), "carol");
    request.identity_header = Some("   ".to_string());
    request.forwarded_for = Some(" , 10.0.0.6".to_string());
    assert_eq!(resolve_identity(&request), "192.0.2.1");
    request.peer_ip = None;
    assert_eq!(resolve_identity(&request), "unknown");
    request.forwarded_for = Some("10.0.0.9".to_string());
    assert_eq!(resolve_identity(&request), "10.0.0.9");
    request.has_headers = false;
    assert_eq!(resolve_identity(&request), "unknown");
    assert_eq!(resolve_request_id(&plain_request()), Some("req-7".to_string()));
    assert_eq!(header_value(&Some(" ".to_string())), None);
}

#[test]
fn identity_hash_is_sixteen_hex_digits() {
    for value in ["", "unknown", "10.0.0.5", "ünïcödé"] {
        let hash = hash_string(value);
        assert_eq!(hash.len(), 16);
        assert!(hash.chars().all(|c| c.is_ascii_digit() || ('a'..='f').contains(&c)));
        let mut hasher = std::collections::hash_map::DefaultHasher::new();
        value.hash(&mut hasher);
        assert_eq!(hash, format!("{:016x}", hasher.finish()));
    }
    assert_ne!(hash_string("a"), hash_string("b"));
}

#[test]
fn rate_limit_rejection() {
    let mut config = quiet();
    config.rate_limit.enabled = true;
    config.rate_limit.rps = 1;
    config.rate_limit.burst = 1;
    let trail = RecentActionsStore::new(10, Span::from_secs(60), true, true);
    let mut server = server(config, Some(trail));
    let request = plain_request();
    let arguments = map(vec![("query", s("{app=\"api\"}"))]);
    let now = at(1_771_416_000);

    let (mut first, step) = server.call_tool("loki_query_logs", Some(arguments.clone()), &request, now);
    assert!(matches!(step, ServerStep::Ask(_)));
    let body = map(vec![("status", s("success")), ("data", map(vec![("result", Json::Array(vec![]))]))]);
    let step = server.on_answer(&mut first, Answer::Bodies(vec![body], Json::Null), at(1_771_416_001));
    assert!(matches!(step, ServerStep::Reply(Reply::Structured(_))));

    let (second, step) = server.call_tool("loki_query_logs", Some(arguments), &request, now);
    assert!(second.call.is_none());
    let payload = match step {
        ServerStep::Reply(Reply::StructuredError(payload)) => payload,
        other => panic!("a denial expected, not {other:?}"),
    };
    assert!(matches!(payload.get("error"), Some(Json::Text(m)) if m.contains("rate limit exceeded")));
    assert!(matches!(payload.get("tool"), Some(Json::Text(m)) if m == "loki_query_logs"));
    assert!(matches!(payload.get("identity"), Some(Json::Text(m)) if m == "192.0.2.1"));
    assert!(counted(&server, "loki_mcp_tool_rate_limited_total{tool=\"loki_query_logs\"} 1"));
    assert!(counted(&server, "loki_mcp_tool_calls_total{outcome=\"rate_limited\",tool=\"loki_query_logs\"} 1"));
    assert!(counted(&server, "loki_mcp_tool_calls_total{outcome=\"success\",tool=\"loki_query_logs\"} 1"));

    let entries = server.recent_actions.as_mut().expect("trail").list(at(1_771_416_002), 10);
    assert_eq!(entries.len(), 2);
    assert!(matches!(entries[0].outcome, ActionOutcome::RateLimited));
    assert_eq!(entries[0].error_class.as_deref(), Some("rate_limited"));
    assert_eq!(entries[0].query.as_deref(), Some("{app=\"api\"}"));
    assert!(matches!(entries[1].outcome, ActionOutcome::Success));
    assert_eq!(entries[1].duration_ms, 1000);
    assert_eq!(entries[1].request_id.as_deref(), Some("req-7"));

    let other = RequestInfo { peer_ip: Some("192.0.2.2".to_string()), ..plain_request() };
    let (third, _) = server.call_tool("loki_query_logs", Some(map(vec![("query", s("q"))])), &other, now);
    assert!(third.call.is_some());
}

#[test]
fn unknown_tools_are_a_failure_of_the_protocol() {
    let trail = RecentActionsStore::new(10, Span::from_secs(60), false, true);
    let mut server = server(quiet(), Some(trail));
    let (invocation, step) = server.call_tool("loki_drop", Some(map(vec![("query", s("q"))])), &plain_request(), at(5));
    assert!(invocation.call.is_none());
    assert!(matches!(step, ServerStep::Reply(Reply::InvalidParams(m)) if m == "unknown tool: loki_drop"));
    assert!(counted(&server, "loki_mcp_tool_calls_total{outcome=\"invalid_tool\",tool=\"loki_drop\"} 1"));
    let entries = server.recent_actions.as_mut().expect("trail").list(at(5), 10);
    assert!(matches!(entries[0].outcome, ActionOutcome::InvalidTool));
    assert_eq!(entries[0].error.as_deref(), Some("unknown tool: loki_drop"));
    assert!(entries[0].query.is_none() && entries[0].query_redacted);
    assert!(server.get_tool("loki_tail").is_some());
    assert!(server.get_tool("loki_drop").is_none());
}

#[test]
fn failures_are_filed_by_their_words() {
    assert!(matches!(classify_error("query rejected by Guardrail: x"), (ActionOutcome::GuardrailReject, c) if c == "guardrail"));
    assert!(matches!(classify_error("invalid tool parameters"), (ActionOutcome::Error, c) if c == "tool_error"));
    let mut config = quiet();
    config.guardrails.max_streams = 1;
    config.guardrails.skip_stats_if_streams_below = 0;
    config.guardrails.skip_stats_if_range_shorter_than = "0s".to_string();
    let trail = RecentActionsStore::new(10, Span::from_secs(60), false, false);
    let mut server = server(config, Some(trail));
    let (mut invocation, step) = server.call_tool("loki_tail", Some(map(vec![("labels", map(vec![("app", s("api"))]))])), &plain_request(), at(1_771_416_000));
    assert!(matches!(step, ServerStep::AskStats(_)));
    let stats = map(vec![("streams", Json::Number(Number::Unsigned(2))), ("bytes", Json::Number(Number::Unsigned(1)))]);
    let step = server.on_answer(&mut invocation, Answer::Stats(Some(stats)), at(1_771_416_000));
    let payload = match step {
        ServerStep::Reply(Reply::StructuredError(payload)) => payload,
        other => panic!("a refusal expected, not {other:?}"),
    };
    assert!(matches!(payload.get("error"), Some(Json::Text(m)) if m.contains("estimated streams (2) exceeds configured limit (1)")));
    assert!(payload.get("identity").is_none());
    assert!(counted(&server, "loki_mcp_tool_calls_total{outcome=\"error\",tool=\"loki_tail\"} 1"));
    assert!(counted(&server, "loki_mcp_tool_guardrail_rejections_total{tool=\"loki_tail\"} 1"));
    let entries = server.recent_actions.as_mut().expect("trail").list(at(1_771_416_000), 10);
    assert!(matches!(entries[0].outcome, ActionOutcome::GuardrailReject));
    assert_eq!(entries[0].error_class.as_deref(), Some("guardrail"));
    let step = server.on_answer(&mut invocation, Answer::Outside(Ok(Json::Null)), at(1_771_416_000));
    assert!(matches!(step, ServerStep::Reply(Reply::Structured(Json::Null))));
    invocation.call = None;
    let step = server.on_answer(&mut invocation, Answer::Stats(None), at(1_771_416_000));
    assert!(matches!(step, ServerStep::Reply(Reply::StructuredError(_))));
}

#[test]
fn small_readings_of_an_invocation() {
    assert_eq!(extract_query_text(&map(vec![("query", s("q"))])), Some("q".to_string()));
    assert_eq!(extract_query_text(&map(vec![("query", Json::Null)])), None);
    assert_eq!(extract_query_text(&Json::Null), None);
    assert_eq!(elapsed_millis(Instant::new(1, 999_000_000), Instant::new(3, 1_000_000)), 1002);
    assert_eq!(elapsed_millis(at(5), at(4)), 0);
    assert_eq!(elapsed_millis(at(i64::MIN), at(i64::MAX)), 18_446_744_073_709_551_615 / 1);
}

fn fit() -> loki_mcp::loki::types::LokiHealth {
    loki_mcp::loki::types::LokiHealth { healthy: true, message: None, build_info: None, ring_status: None }
}

fn unfit(message: &str) -> loki_mcp::loki::types::LokiHealth {
    loki_mcp::loki::types::LokiHealth {
        healthy: false,
        message: Some(message.to_string()),
        build_info: None,
        ring_status: None,
    }
}

fn text_at<'a>(document: &'a Json, name: &str) -> Option<&'a str> {
    document.get(name).and_then(|member| member.as_str()).map(|text| text.as_str())
}

#[test]
fn readiness_is_remembered_for_three_seconds() {
    let mut metrics = MetricsRegistry::new("loki_mcp").expect("metrics");
    let mut cache = ReadinessCache::new();
    assert!(matches!(cache.readyz(&mut metrics, at(100)), ReadyStep::Probe));

    let (status, body) = cache.on_health(&fit(), at(100));
    assert_eq!(status, 200);
    assert_eq!(text_at(&body, "status"), Some("ready"));
    assert!(body.get("message").is_none());

    match cache.readyz(&mut metrics, at(103)) {
        ReadyStep::Answer(status, body) => {
            assert_eq!(status, 200);
            assert_eq!(text_at(&body, "status"), Some("ready"));
        }
        ReadyStep::Probe => panic!("the answer is three seconds old and still holds"),
    }
    assert!(matches!(cache.readyz(&mut metrics, Instant::new(103, 1)), ReadyStep::Probe));
    assert!(matches!(cache.readyz(&mut metrics, at(99)), ReadyStep::Answer(200, _)));

    let text = metrics.render().expect("rendered");
    assert!(text.lines().any(|l| l == "loki_mcp_readiness_cache_total{result=\"hit\"} 2"), "{text}");
    assert!(text.lines().any(|l| l == "loki_mcp_readiness_cache_total{result=\"miss\"} 2"), "{text}");
}

#[test]
fn unfit_backend_is_not_ready() {
    let mut cache = ReadinessCache::new();
    let (status, body) = cache.on_health(&unfit("loki returned status 503 Service Unavailable"), at(5));
    assert_eq!(status, 503);
    assert_eq!(text_at(&body, "status"), Some("not_ready"));
    assert_eq!(text_at(&body, "message"), Some("loki returned status 503 Service Unavailable"));
    let held = cache.read_cached_readiness(at(6)).expect("remembered");
    assert_eq!(held.status, 503);
    assert_eq!(held.observed_at, at(5));

    let silent = loki_mcp::loki::types::LokiHealth { healthy: false, message: None, build_info: None, ring_status: None };
    let seen = observe(&silent, at(7));
    assert_eq!(seen.status, 503);
    assert!(matches!(seen.body.get("message"), Some(Json::Null)));
}

#[test]
fn trail_endpoint_shows_the_newest_first() {
    assert_eq!(list_limit(None), 100);
    assert_eq!(list_limit(Some(0)), 1);
    assert_eq!(list_limit(Some(7)), 7);
    assert_eq!(list_limit(Some(5000)), 1000);

    let mut none: Option<RecentActionsStore> = None;
    let (status, body) = recent_actions_endpoint(&mut none, None, at(1));
    assert_eq!(status, 404);
    assert_eq!(text_at(&body, "error"), Some("recent actions tracking is disabled"));

    let mut store = RecentActionsStore::new(10, Span::from_secs(60), true, false);
    store.record(at(100), action("a"));
    let mut failed = action("b");
    failed.outcome = ActionOutcome::Error;
    failed.request_id = None;
    failed.error_class = Some("tool_error".to_string());
    failed.error = Some("boom".to_string());
    store.record(at(101), failed);
    let mut trail = Some(store);
    let (status, body) = recent_actions_endpoint(&mut trail, Some(1), at(102));
    assert_eq!(status, 200);
    assert_eq!(body.get("count").and_then(Json::as_u64), Some(1));
    let shown = body.get("actions").and_then(Json::as_array).expect("actions");
    assert_eq!(shown.len(), 1);
    let entry = &shown[0];
    assert_eq!(text_at(entry, "timestamp"), Some("1970-01-01T00:01:41Z"));
    assert_eq!(text_at(entry, "tool"), Some("b"));
    assert_eq!(text_at(entry, "outcome"), Some("error"));
    assert_eq!(entry.get("duration_ms").and_then(Json::as_u64), Some(12));
    assert_eq!(text_at(entry, "identity_hash"), Some("hash"));
    assert_eq!(text_at(entry, "query"), Some("{app=\"api\"}"));
    assert!(matches!(entry.get("query_redacted"), Some(Json::Bool(false))));
    assert_eq!(text_at(entry, "error_class"), Some("tool_error"));
    assert!(entry.get("error").is_none());
    assert!(entry.get("request_id").is_none());
    assert!(entry.get("tenant_id").is_none());

    let (_, all) = recent_actions_endpoint(&mut trail, None, at(200));
    assert_eq!(all.get("count").and_then(Json::as_u64), Some(0));
}

#[test]
fn trail_is_built_as_configured() {
    let mut config = Config::default();
    assert!(build_recent_actions_store(&config).expect("switched off").is_none());
    config.recent_actions.enabled = true;
    config.recent_actions.ttl = "2m".to_string();
    config.recent_actions.max_entries = 3;
    config.recent_actions.store_query_text = true;
    let store = build_recent_actions_store(&config).expect("read").expect("switched on");
    assert_eq!(store.max_entries, 3);
    assert_eq!(store.ttl, Span::from_secs(120));
    assert!(store.store_query_text);
    assert!(!store.store_error_text);
    config.recent_actions.ttl = "soon".to_string();
    let error = match build_recent_actions_store(&config) {
        Err(error) => error,
        Ok(_) => panic!("the time to live is no duration"),
    };
    assert_eq!(error.message(), "invalid recent_actions.ttl: soon");
}

#[test]
fn requests_are_numbered() {
    assert_eq!(next_request_id(1), "req-1");
    assert_eq!(next_request_id(0), "req-0");
    assert_eq!(next_request_id(u64::MAX), "req-18446744073709551615");
    let mut registry = MetricsRegistry::new("loki_mcp").expect("metrics");
    registry.inc_http_requests();
    match metrics(&registry) {
        (200, Body::Text(text)) => assert!(text.lines().any(|l| l == "loki_mcp_http_requests_total 1"), "{text}"),
        other => panic!("the counters should be written, not {other:?}"),
    }
}

#[test]
fn label_values_that_run_together_share_a_counter() {
    let mut registry = MetricsRegistry::new("loki_mcp").expect("metrics");
    registry.inc_tool_call("ab", "c");
    registry.inc_tool_call("a", "bc");
    registry.inc_tool_call("x", "y");
    let text = registry.render().expect("rendered");
    let lines: Vec<&str> = text.lines().filter(|l| l.starts_with("loki_mcp_tool_calls_total{")).collect();
    assert_eq!(lines.len(), 2, "{text}");
    assert!(lines.iter().any(|l| l.ends_with(" 2")), "{text}");
    assert!(lines.contains(&"loki_mcp_tool_calls_total{outcome=\"y\",tool=\"x\"} 1"), "{text}");
}

#[test]
fn a_caller_not_seen_before_is_admitted() {
    let mut config = quiet();
    config.rate_limit.enabled = true;
    config.rate_limit.rps = 1;
    config.rate_limit.burst = 1;
    let mut server = server(config, None);
    for name in ["alice", "bob", "carol"] {
        let request = RequestInfo {
            has_headers: true,
            identity_header: None,
            forwarded_for: Some(name.to_string()),
            request_id: None,
            peer_ip: None,
        };
        let (invocation, _) = server.call_tool("loki_describe_schema", None, &request, at(10));
        assert!(invocation.call.is_some(), "{name} is new and has a full bucket");
    }
}

fn invocation_of(tool: &str, who: &str) -> loki_mcp::mcp::Invocation {
    loki_mcp::mcp::Invocation {
        tool: tool.to_string(),
        identity: who.to_string(),
        identity_hash: hash_string(who),
        request_id: Some("req-9".to_string()),
        query_text: Some("{app=\"api\"}".to_string()),
        started: at(10),
        call: None,
    }
}

#[test]
fn a_denial_ends_the_invocation() {
    let trail = RecentActionsStore::new(10, Span::from_secs(60), true, true);
    let mut server = server(quiet(), Some(trail));
    let (invocation, step) = server.on_rate_limit(
        invocation_of("loki_query_logs", "alice"),
        Some(map(vec![("query", s("{app=\"api\"}"))])),
        Err("rate limit exceeded for tool=loki_query_logs, identity=alice: wait".to_string()),
        at(11),
    );
    assert!(invocation.call.is_none());
    match step {
        ServerStep::Reply(Reply::StructuredError(body)) => {
            assert_eq!(
                body.get("error").and_then(|e| e.as_str()).map(|e| e.as_str()),
                Some("rate limit exceeded for tool=loki_query_logs, identity=alice: wait")
            );
            assert_eq!(body.get("tool").and_then(|e| e.as_str()).map(|e| e.as_str()), Some("loki_query_logs"));
            assert_eq!(body.get("identity").and_then(|e| e.as_str()).map(|e| e.as_str()), Some("alice"));
        }
        other => panic!("a denial is told in a result, not {other:?}"),
    }
    assert!(counted(&server, "loki_mcp_tool_rate_limited_total{tool=\"loki_query_logs\"} 1"));
    assert!(counted(&server, "loki_mcp_tool_calls_total{outcome=\"rate_limited\",tool=\"loki_query_logs\"} 1"));
    let entries = server.recent_actions.as_mut().expect("trail").list(at(12), 10);
    assert_eq!(entries.len(), 1);
    assert_eq!(entries[0].outcome, ActionOutcome::RateLimited);
    assert_eq!(entries[0].error_class.as_deref(), Some("rate_limited"));
    assert_eq!(entries[0].duration_ms, 1000);

    let (invocation, step) = server.on_rate_limit(
        invocation_of("loki_describe_schema", "alice"),
        None,
        Ok(()),
        at(11),
    );
    assert!(invocation.call.is_some());
    assert!(matches!(step, ServerStep::Reply(Reply::Structured(_))));
    assert!(counted(&server, "loki_mcp_tool_calls_total{outcome=\"success\",tool=\"loki_describe_schema\"} 1"));
}
