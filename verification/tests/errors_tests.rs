use chrono::{TimeZone, Utc};
use loki_mcp::config::{flat_env_overrides_from_map, Config, ConfigFault};
use loki_mcp::error::ToolError;
use loki_mcp::guardrails::{parse_byte_size, GuardrailError, SizeFault};
use loki_mcp::json::Json;
use loki_mcp::loki::auth::LokiAuth;
use loki_mcp::loki::client::{validate_label_name, LokiClient};
use loki_mcp::time::{
    fold_leap_second, parse_relative_duration, parse_std_duration, parse_time_reference, Instant,
    TimeFault, Zone,
};
use loki_mcp::json::Number;
use loki_mcp::tools::call::CallStep;
use loki_mcp::tools::dispatch::Plan;
use loki_mcp::tools::utility::{suggest_metric_rule, SuggestMetricRuleParams};
use loki_mcp::tools::{duration_between, ensure_ordered_range, ToolRouter};

fn zone(name: &str) -> Zone {
    Zone::parse(name).expect("a zone of the database")
}

fn at(year: i32, month: u32, day: u32, hour: u32) -> Instant {
    let moment = Utc.with_ymd_and_hms(year, month, day, hour, 0, 0).single().expect("fixed timestamp");
    Instant::new(moment.timestamp(), 0)
}

fn text_members(members: Vec<(&str, &str)>) -> Json {
    Json::Object(members.into_iter().map(|(k, v)| (k.to_string(), Json::Text(v.to_string()))).collect())
}

#[test]
fn each_size_fault_has_its_text() {
    let fault = |text: &str| parse_byte_size(text).map_err(|e| (e.kind, e.message()));
    assert_eq!(fault(""), Err((SizeFault::Empty, "size must not be empty".to_string())));
    assert_eq!(fault("  "), Err((SizeFault::Empty, "size must not be empty".to_string())));
    assert_eq!(fault("MB"), Err((SizeFault::MissingValue, "size is missing numeric value".to_string())));
    assert_eq!(fault("5 xb"), Err((SizeFault::UnsupportedUnit, "unsupported byte size unit: XB".to_string())));
    assert_eq!(fault("18446744073709551615KB").map_err(|e| e.0), Err(SizeFault::TooLarge));
    assert_eq!(fault("18446744073709551615"), Ok(u64::MAX));
}

#[test]
fn each_duration_fault_has_its_input() {
    let std_fault = |text: &str| parse_std_duration(text).map_err(|e| e.kind);
    let relative_fault = |text: &str| parse_relative_duration(text).map_err(|e| e.kind);
    assert_eq!(std_fault("99999999999999999999s").map(|_| ()), Err(TimeFault::InvalidValue));
    assert_eq!(std_fault("5w").map(|_| ()), Err(TimeFault::UnsupportedUnit));
    assert_eq!(std_fault("18446744073709551615d").map(|_| ()), Err(TimeFault::TooLarge));
    assert_eq!(relative_fault("0m").map(|_| ()), Err(TimeFault::NotPositive));
    assert_eq!(relative_fault("5w").map(|_| ()), Err(TimeFault::UnsupportedUnit));
    assert_eq!(std_fault("0w").map(|s| s.secs), Ok(0));
}

#[test]
fn each_reference_fault_has_its_input() {
    let noon = at(2026, 2, 18, 12);
    let fault = |text: &str, zone: Zone, now: Instant| parse_time_reference(text, zone, now).map_err(|e| e.kind);
    assert_eq!(fault("", zone("UTC"), noon), Err(TimeFault::EmptyReference));
    assert_eq!(fault("   ", zone("UTC"), noon), Err(TimeFault::EmptyReference));
    assert_eq!(fault("since teatime", zone("UTC"), noon), Err(TimeFault::UnsupportedTimeOfDay));
    assert_eq!(fault("0s", zone("UTC"), noon), Err(TimeFault::NotPositive));

    // On 8 March 2026 the clocks of New York go from 02:00 to 03:00.
    let spring = at(2026, 3, 8, 16);
    assert_eq!(fault("since 2:30am", zone("America/New_York"), spring), Err(TimeFault::NonexistentLocalTime));
    assert_eq!(
        fault("since 3:30am", zone("America/New_York"), spring),
        Ok(Instant::new(Utc.with_ymd_and_hms(2026, 3, 8, 7, 30, 0).single().expect("fixed").timestamp(), 0))
    );

    let far = Instant::new(9_000_000_000_000, 0);
    assert_eq!(fault("today", zone("UTC"), far), Err(TimeFault::OutOfRange));
    assert_eq!(fault("5m", zone("UTC"), Instant::new(i64::MIN, 0)), Err(TimeFault::OutOfRange));
    assert_eq!(fold_leap_second(i64::MAX, 1_500_000_000).map_err(|e| e.kind), Err(TimeFault::OutOfRange));
    assert_eq!(fold_leap_second(59, 1_500_000_000).map_err(|e| e.kind), Ok(Instant::new(60, 500_000_000)));
}

#[test]
fn each_credential_fault_has_its_input() {
    let mut config = Config::default();
    config.loki.auth_type = "basic".to_string();
    let fault = |config: &Config| LokiAuth::from_config(&config.loki).map(|_| ()).map_err(|e| (e.kind, e.message()));
    assert_eq!(
        fault(&config),
        Err((ConfigFault::MissingUsername, "loki.username is required when loki.auth_type=basic".to_string()))
    );
    config.loki.username = Some("reader".to_string());
    assert_eq!(fault(&config).map_err(|e| e.0), Err(ConfigFault::MissingPassword));
    config.loki.auth_type = "bearer".to_string();
    assert_eq!(fault(&config).map_err(|e| e.0), Err(ConfigFault::MissingToken));
    config.loki.auth_type = "digest".to_string();
    assert_eq!(fault(&config), Err((ConfigFault::AuthKind, "unsupported loki auth type: digest".to_string())));
    config.loki.auth_type = "none".to_string();
    assert_eq!(fault(&config), Ok(()));
}

#[test]
fn router_refuses_a_zone_it_does_not_know() {
    let mut config = Config::default();
    config.server.timezone = "Mars/Olympus_Mons".to_string();
    let error = match ToolRouter::new(config) {
        Err(error) => error,
        Ok(_) => panic!("there is no such zone"),
    };
    assert_eq!(error.kind, ConfigFault::ZoneName);
    assert_eq!(error.message(), "invalid timezone: Mars/Olympus_Mons");
}

#[test]
fn environment_refuses_what_is_no_truth_value() {
    let vars = vec![
        ("LOKI_MCP_CACHE_MAX_ENTRIES".to_string(), "many".to_string()),
        ("LOKI_MCP_CACHE_ENABLED".to_string(), "yes".to_string()),
    ];
    let error = match flat_env_overrides_from_map(&vars) {
        Err(error) => error,
        Ok(_) => panic!("`yes` is no truth value"),
    };
    assert_eq!(error.kind, ConfigFault::EnvBool);
    assert_eq!(
        error.message(),
        "invalid value for LOKI_MCP_CACHE_ENABLED: yes (provided string was not `true` or `false`)"
    );

    let vars = vec![("LOKI_MCP_RECENT_ACTIONS_STORE_ERROR_TEXT".to_string(), " TRUE ".to_string())];
    let error = match flat_env_overrides_from_map(&vars) {
        Err(error) => error,
        Ok(_) => panic!("`TRUE` is no truth value"),
    };
    assert_eq!(error.kind, ConfigFault::EnvBool);

    let vars = vec![
        ("LOKI_MCP_RATE_LIMIT_BURST".to_string(), "4294967296".to_string()),
        ("LOKI_MCP_RATE_LIMIT_RPS".to_string(), " 2.5 ".to_string()),
    ];
    let error = match flat_env_overrides_from_map(&vars) {
        Err(error) => error,
        Ok(_) => panic!("the number does not fit"),
    };
    assert_eq!(error.kind, ConfigFault::EnvTooLarge);

    let vars = vec![
        ("LOKI_MCP_RATE_LIMIT_BURST".to_string(), "4294967295".to_string()),
        ("LOKI_MCP_RATE_LIMIT_RPS".to_string(), " 2.5 ".to_string()),
        ("LOKI_MCP_LISTEN".to_string(), "   ".to_string()),
    ];
    let overrides = flat_env_overrides_from_map(&vars).expect("read");
    assert!(overrides.server.is_none());
    assert!(overrides.cache.is_none());
    let rate_limit = overrides.rate_limit.expect("set");
    assert_eq!(rate_limit.burst, Some(u32::MAX));
    assert_eq!(rate_limit.rps.as_deref(), Some("2.5"));
    assert_eq!(rate_limit.enabled, None);
}

#[test]
fn each_tool_fault_has_its_input() {
    let client = LokiClient::new(&Config::default().loki).expect("client");
    assert!(matches!(client.series(&vec![], None, None), Err(ToolError::EmptyMatchers)));
    assert!(matches!(validate_label_name(""), Err(ToolError::EmptyLabel)));
    assert!(matches!(validate_label_name("a-b"), Err(ToolError::UnsupportedLabel(label)) if label == "a-b"));

    let mut config = Config::default();
    config.server.timezone = "UTC".to_string();
    let router = ToolRouter::new(config).expect("router should build");
    let noon = at(2026, 2, 18, 12);
    let plan = router.dispatch("loki_query_logs", &text_members(vec![("query", "{a=\"b\"}"), ("start", "5w")]), noon);
    match plan {
        Err(ToolError::Time(error)) => {
            assert_eq!(error.kind, TimeFault::UnsupportedUnit);
        }
        other => panic!("the start is no time, but {other:?}"),
    }
    let plan = router.dispatch(
        "loki_query_logs",
        &text_members(vec![
            ("query", "{a=\"b\"}"),
            ("start", "2026-02-18T12:00:00Z"),
            ("end", "2026-02-18T11:00:00Z"),
        ]),
        noon,
    );
    match plan {
        Err(ToolError::Time(error)) => assert_eq!(error.kind, TimeFault::Inverted),
        other => panic!("the range ends before it starts, but {other:?}"),
    }
    assert!(matches!(duration_between(noon, at(2026, 2, 18, 11)), Err(ToolError::NegativeRange)));
    assert_eq!(duration_between(at(2026, 2, 18, 11), noon).map(|span| span.secs).map_err(|e| e.message()), Ok(3600));
    assert!(matches!(ensure_ordered_range(noon, at(2026, 2, 18, 11)), Err(ToolError::Time(_))));
    assert!(ensure_ordered_range(noon, noon).is_ok());
    assert!(matches!(router.dispatch("loki_nothing", &Json::Null, noon), Err(ToolError::UnknownTool(name)) if name == "loki_nothing"));
    assert!(matches!(router.dispatch("loki_describe_schema", &Json::Null, noon), Ok(Plan::Answer(_))));

    let params = SuggestMetricRuleParams {
        query: "q".to_string(),
        metric_name: "m".to_string(),
        description: None,
        rule_type: Some("Recording".to_string()),
        alert_threshold: None,
        alert_for: None,
    };
    assert!(matches!(suggest_metric_rule(&params), Err(ToolError::UnsupportedRuleType(kind)) if kind == "Recording"));
}

#[test]
fn a_query_over_the_limit_fails_as_a_guardrail() {
    let mut config = Config::default();
    config.server.timezone = "UTC".to_string();
    config.guardrails.max_bytes_scanned = "1B".to_string();
    config.guardrails.skip_stats_if_streams_below = 0;
    config.guardrails.skip_stats_if_range_shorter_than = "0s".to_string();
    let mut router = ToolRouter::new(config).expect("router should build");
    let noon = at(2026, 2, 18, 12);
    let (mut call, step) = router.call("loki_query_logs", text_members(vec![("query", "{app=\"api\"}")]), noon);
    assert!(matches!(step, CallStep::AskStats(_)));
    let stats = Json::Object(vec![
        ("streams".to_string(), Json::Number(Number::Unsigned(5))),
        ("bytes".to_string(), Json::Number(Number::Unsigned(1000))),
    ]);
    match router.on_stats(&mut call, Some(stats), noon) {
        CallStep::Return(Err(ToolError::Guardrail(error))) => {
            assert!(matches!(error, GuardrailError::TooManyBytes { .. }), "{error:?}")
        }
        other => panic!("the query is over the limit, but {other:?}"),
    }
}

#[test]
fn router_refuses_a_client_it_cannot_make() {
    let fault = |config: Config| match ToolRouter::new(config) {
        Err(error) => Some((error.kind, error.message())),
        Ok(_) => None,
    };
    let mut config = Config::default();
    config.loki.timeout = "soon".to_string();
    assert_eq!(fault(config), Some((ConfigFault::LokiTimeout, "invalid loki.timeout: soon".to_string())));

    let mut config = Config::default();
    config.loki.auth_type = "bearer".to_string();
    assert_eq!(
        fault(config),
        Some((ConfigFault::MissingToken, "loki.token is required when loki.auth_type=bearer".to_string()))
    );

    let mut config = Config::default();
    config.loki.auth_type = "bearer".to_string();
    config.cache.ttl = "soon".to_string();
    config.server.timezone = "Nowhere".to_string();
    assert_eq!(fault(config).map(|f| f.0), Some(ConfigFault::ZoneName));

    let mut config = Config::default();
    config.loki.url = "http://loki:3100///".to_string();
    config.loki.tenant_id = Some("team-a".to_string());
    let router = ToolRouter::new(config).expect("router should build");
    assert_eq!(router.loki_client.base_url, "http://loki:3100");
    assert_eq!(router.loki_client.endpoint("/ready"), "http://loki:3100/ready");
    assert_eq!(router.loki_client.tenant_id.as_deref(), Some("team-a"));
}
