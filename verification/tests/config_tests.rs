use loki_mcp::config::{
    ensure_non_empty, env_parse_bool, env_parse_u32, env_parse_u64, env_string,
    flat_env_overrides_from_map, normalize_optional_string, normalized, option_if_not_empty,
    parse_byte_size, Cli, Config, ConfigFault, ConfigOverrides, IsEmpty, MetricsOverrides,
};
use loki_mcp::loki::auth::LokiAuth;
use loki_mcp::loki::client::LokiClient;
use loki_mcp::time::Span;

#[test]
fn default_config_has_expected_values() {
    let config = Config::default();
    assert_eq!(config.server.listen, "0.0.0.0:8080");
    assert_eq!(config.server.log_level, "info");
    assert_eq!(config.loki.timeout, "30s");
}

#[test]
fn parses_byte_sizes() {
    assert_eq!(parse_byte_size("500MB").expect("valid"), 500_000_000);
    assert_eq!(parse_byte_size("1GiB").expect("valid"), 1_073_741_824);
    assert_eq!(parse_byte_size("0").expect("valid"), 0);
}

#[test]
fn validation_rejects_invalid_auth_combinations() {
    let mut config = Config::default();
    config.loki.auth_type = "basic".to_string();
    config.loki.username = None;
    config.loki.password = None;

    let error = match config.validate(true) {
        Ok(()) => panic!("invalid auth should fail"),
        Err(error) => error,
    };
    assert!(error.message().contains("loki.username is required when loki.auth_type=basic"));
}

#[test]
fn default_config_is_valid() {
    let config = Config::default();
    assert!(config.validate(true).is_ok());
    assert_eq!(config.server.timezone, "America/New_York");
    assert_eq!(config.guardrails.max_bytes_scanned, "500MB");
    assert_eq!(config.guardrails.max_streams, 5000);
    assert_eq!(config.guardrails.skip_stats_if_streams_below, 50);
    assert_eq!(config.cache.max_entries, 1000);
    assert_eq!(config.rate_limit.burst, 30);
    assert_eq!(config.recent_actions.max_entries, 500);
    assert_eq!(config.metrics.prefix, "loki_mcp");
}

fn fault_of(change: fn(&mut Config), listen_ok: bool) -> (ConfigFault, String) {
    let mut config = Config::default();
    change(&mut config);
    match config.validate(listen_ok) {
        Ok(()) => panic!("the configuration should be refused"),
        Err(error) => (error.kind, error.message()),
    }
}

#[test]
fn validation_names_the_first_broken_rule() {
    assert_eq!(
        fault_of(|c| c.server.listen = " ".to_string(), true),
        (ConfigFault::EmptyField, "server.listen must not be empty".to_string())
    );
    assert_eq!(
        fault_of(|_| {}, false),
        (ConfigFault::ListenAddress, "server.listen must be host:port, got 0.0.0.0:8080".to_string())
    );
    assert_eq!(
        fault_of(|c| c.server.timezone = "Mars/Olympus".to_string(), true),
        (ConfigFault::Timezone, "invalid server.timezone: Mars/Olympus".to_string())
    );
    assert_eq!(
        fault_of(|c| c.loki.url = "no url at all".to_string(), true),
        (ConfigFault::Url, "invalid loki.url: no url at all".to_string())
    );
    assert_eq!(
        fault_of(
            |c| {
                c.loki.auth_type = "basic".to_string();
                c.loki.username = Some("u".to_string());
            },
            true,
        ),
        (ConfigFault::MissingPassword, "loki.password is required when loki.auth_type=basic".to_string())
    );
    assert_eq!(
        fault_of(|c| c.loki.auth_type = "bearer".to_string(), true),
        (ConfigFault::MissingToken, "loki.token is required when loki.auth_type=bearer".to_string())
    );
    assert_eq!(
        fault_of(|c| c.loki.auth_type = "digest".to_string(), true),
        (
            ConfigFault::AuthType,
            "unsupported loki.auth_type: digest. expected one of none/basic/bearer".to_string()
        )
    );
    assert_eq!(
        fault_of(|c| c.loki.timeout = "soon".to_string(), true),
        (ConfigFault::LokiTimeout, "invalid loki.timeout: soon".to_string())
    );
    assert_eq!(
        fault_of(|c| c.cache.ttl = "1w".to_string(), true),
        (ConfigFault::CacheTtl, "invalid cache.ttl: 1w".to_string())
    );
    assert_eq!(
        fault_of(|c| c.cache.skip_if_range_shorter_than = "".to_string(), true).0,
        ConfigFault::CacheSkipRange
    );
    assert_eq!(
        fault_of(|c| c.guardrails.skip_stats_if_range_shorter_than = "x".to_string(), true).0,
        ConfigFault::GuardrailSkipRange
    );
    assert_eq!(
        fault_of(|c| c.guardrails.max_bytes_scanned = "5XB".to_string(), true),
        (ConfigFault::MaxBytesScanned, "invalid guardrails.max_bytes_scanned: 5XB".to_string())
    );
    assert_eq!(
        fault_of(|c| c.cache.max_entries = 0, true),
        (ConfigFault::CacheMaxEntries, "cache.max_entries must be greater than zero".to_string())
    );
    assert_eq!(
        fault_of(|c| c.rate_limit.rps = 0, true),
        (ConfigFault::RateLimitRps, "rate_limit.rps must be > 0 when rate limiting is enabled".to_string())
    );
    assert_eq!(
        fault_of(|c| c.rate_limit.burst = 0, true),
        (
            ConfigFault::RateLimitBurst,
            "rate_limit.burst must be > 0 when rate limiting is enabled".to_string()
        )
    );
    assert_eq!(
        fault_of(|c| c.metrics.prefix = "".to_string(), true),
        (ConfigFault::EmptyField, "metrics.prefix must not be empty".to_string())
    );
    assert_eq!(
        fault_of(|c| c.recent_actions.ttl = "m".to_string(), true),
        (ConfigFault::RecentActionsTtl, "invalid recent_actions.ttl: m".to_string())
    );
    assert_eq!(
        fault_of(|c| c.recent_actions.max_entries = 0, true),
        (
            ConfigFault::RecentActionsMaxEntries,
            "recent_actions.max_entries must be greater than zero".to_string()
        )
    );
}

#[test]
fn switched_off_rate_limit_needs_no_rate() {
    let mut config = Config::default();
    config.rate_limit.enabled = false;
    config.rate_limit.rps = 0;
    config.rate_limit.burst = 0;
    assert!(config.validate(true).is_ok());
}

#[test]
fn normal_form_trims_and_tidies() {
    let mut config = Config::default();
    config.server.listen = "  127.0.0.1:9090 ".to_string();
    config.loki.auth_type = " Basic ".to_string();
    config.loki.username = Some("   ".to_string());
    config.loki.password = Some(" secret ".to_string());
    config.server.identity_header = Some("\tx-user\n".to_string());
    config.normalize();
    assert_eq!(config.server.listen, "127.0.0.1:9090");
    assert_eq!(config.loki.auth_type, "basic");
    assert_eq!(config.loki.username, None);
    assert_eq!(config.loki.password, Some("secret".to_string()));
    assert_eq!(config.server.identity_header, Some("x-user".to_string()));
}

#[test]
fn optional_texts_are_tidied() {
    assert_eq!(normalized(Some("  a b ".to_string())), Some("a b".to_string()));
    assert_eq!(normalized(Some(" \u{2003} ".to_string())), None);
    assert_eq!(normalized(None), None);
    let mut value = Some(" x ".to_string());
    normalize_optional_string(&mut value);
    assert_eq!(value, Some("x".to_string()));
    let mut blank = Some("".to_string());
    normalize_optional_string(&mut blank);
    assert_eq!(blank, None);
    assert!(ensure_non_empty("key", " v ").is_ok());
    assert_eq!(
        ensure_non_empty("key", " ").map_err(|e| e.message()),
        Err("key must not be empty".to_string())
    );
}

#[test]
fn credentials_follow_the_configuration() {
    let mut config = Config::default();
    assert!(matches!(LokiAuth::from_config(&config.loki), Ok(LokiAuth::Anonymous)));
    config.loki.auth_type = "basic".to_string();
    config.loki.username = Some("u".to_string());
    config.loki.password = Some("p".to_string());
    match LokiAuth::from_config(&config.loki) {
        Ok(LokiAuth::Basic { username, password }) => {
            assert_eq!(username, "u");
            assert_eq!(password, "p");
        }
        _ => panic!("basic credentials expected"),
    }
    config.loki.auth_type = "bearer".to_string();
    config.loki.token = Some("t".to_string());
    assert!(matches!(LokiAuth::from_config(&config.loki), Ok(LokiAuth::Bearer { .. })));
    config.loki.auth_type = "digest".to_string();
    assert_eq!(
        LokiAuth::from_config(&config.loki).map_err(|e| e.message()).err(),
        Some("unsupported loki auth type: digest".to_string())
    );
}

#[test]
fn client_settings_follow_the_configuration() {
    let mut config = Config::default();
    config.loki.url = "http://loki.example:3100///".to_string();
    config.loki.tenant_id = Some("team-a".to_string());
    let client = LokiClient::new(&config.loki).expect("client");
    assert_eq!(client.base_url, "http://loki.example:3100");
    assert_eq!(client.endpoint("/ready"), "http://loki.example:3100/ready");
    assert_eq!(client.tenant_id, Some("team-a".to_string()));
    assert_eq!(client.timeout, Span::from_secs(30));
    config.loki.timeout = "never".to_string();
    assert_eq!(
        LokiClient::new(&config.loki).map_err(|e| e.message()).err(),
        Some("invalid loki.timeout: never".to_string())
    );
}

fn environment(list: &[(&str, &str)]) -> Vec<(String, String)> {
    list.iter().map(|(k, v)| (k.to_string(), v.to_string())).collect()
}

fn bare_cli() -> Cli {
    Cli {
        config: "config.toml".to_string(),
        listen: None,
        timezone: None,
        log_level: None,
        identity_header: None,
        loki_url: None,
        loki_tenant_id: None,
        loki_auth_type: None,
        loki_username: None,
        loki_password: None,
        loki_token: None,
        loki_ca_cert: None,
        loki_timeout: None,
        cache_enabled: None,
        cache_ttl: None,
        cache_skip_if_range_shorter_than: None,
        cache_max_entries: None,
        guardrails_max_bytes_scanned: None,
        guardrails_max_streams: None,
        guardrails_skip_stats_if_streams_below: None,
        guardrails_skip_stats_if_range_shorter_than: None,
        rate_limit_enabled: None,
        rate_limit_rps: None,
        rate_limit_burst: None,
        metrics_prefix: None,
        recent_actions_enabled: None,
        recent_actions_max_entries: None,
        recent_actions_ttl: None,
        recent_actions_store_query_text: None,
        recent_actions_store_error_text: None,
    }
}

#[test]
fn flat_env_aliases_map_to_nested_fields() {
    let vars = environment(&[
        ("LOKI_MCP_LISTEN", "127.0.0.1:9090"),
        ("LOKI_MCP_LOKI_URL", "https://loki.example:3100"),
        ("LOKI_MCP_RATE_LIMIT_RPS", "25.5"),
    ]);

    let overrides: ConfigOverrides = flat_env_overrides_from_map(&vars).expect("overrides should parse");

    assert_eq!(overrides.server.expect("server").listen.as_deref(), Some("127.0.0.1:9090"));
    assert_eq!(overrides.loki.expect("loki").url.as_deref(), Some("https://loki.example:3100"));
    assert_eq!(overrides.rate_limit.expect("rate limit").rps.as_deref(), Some("25.5"));
    assert!(overrides.cache.is_none());
    assert!(overrides.metrics.is_none());
}

#[test]
fn environment_settings_are_read_strictly() {
    let vars = environment(&[
        ("LOKI_MCP_CACHE_ENABLED", " false "),
        ("LOKI_MCP_CACHE_MAX_ENTRIES", "+25"),
        ("LOKI_MCP_RATE_LIMIT_BURST", "7"),
        ("LOKI_MCP_METRICS_PREFIX", "   "),
        ("LOKI_MCP_RECENT_ACTIONS_STORE_QUERY_TEXT", "true"),
    ]);
    let overrides = flat_env_overrides_from_map(&vars).expect("overrides should parse");
    let cache = overrides.cache.expect("cache");
    assert_eq!(cache.enabled, Some(false));
    assert_eq!(cache.max_entries, Some(25));
    assert_eq!(overrides.rate_limit.expect("rate limit").burst, Some(7));
    assert_eq!(overrides.recent_actions.expect("recent actions").store_query_text, Some(true));
    assert!(overrides.metrics.is_none() && overrides.server.is_none());

    assert_eq!(env_string(&vars, "LOKI_MCP_METRICS_PREFIX"), None);
    assert_eq!(env_string(&vars, "LOKI_MCP_CACHE_ENABLED"), Some("false".to_string()));
    assert_eq!(env_parse_bool(&vars, "NOT_SET").ok(), Some(None));
    assert_eq!(
        env_parse_bool(&environment(&[("K", "yes")]), "K").map_err(|e| e.message()).err(),
        Some("invalid value for K: yes (provided string was not `true` or `false`)".to_string())
    );
    assert_eq!(
        env_parse_u64(&environment(&[("K", "12x")]), "K").map_err(|e| e.message()).err(),
        Some("invalid value for K: 12x (invalid digit found in string)".to_string())
    );
    assert_eq!(
        env_parse_u64(&environment(&[("K", "18446744073709551616")]), "K").map_err(|e| e.message()).err(),
        Some("invalid value for K: 18446744073709551616 (number too large to fit in target type)".to_string())
    );
    assert_eq!(env_parse_u32(&environment(&[("K", "4294967295")]), "K").ok(), Some(Some(u32::MAX)));
    assert_eq!(
        env_parse_u32(&environment(&[("K", "4294967296")]), "K").map_err(|e| e.kind).err(),
        Some(ConfigFault::EnvTooLarge)
    );
    assert_eq!(
        flat_env_overrides_from_map(&environment(&[("LOKI_MCP_GUARDRAILS_MAX_STREAMS", "-1")])).map_err(|e| e.kind).err(),
        Some(ConfigFault::EnvNumber)
    );
}

#[test]
fn command_line_overrides_are_tidied() {
    let mut cli = bare_cli();
    let nothing = ConfigOverrides::from_cli(&cli);
    assert!(nothing.server.is_none() && nothing.loki.is_none() && nothing.cache.is_none());
    assert!(nothing.guardrails.is_none() && nothing.rate_limit.is_none());
    assert!(nothing.metrics.is_none() && nothing.recent_actions.is_none());
    cli.listen = Some(" 0.0.0.0:1 ".to_string());
    cli.timezone = Some("  ".to_string());
    cli.cache_max_entries = Some(5);
    cli.rate_limit_rps = Some(" 2.5 ".to_string());
    cli.metrics_prefix = Some("svc".to_string());
    let overrides = ConfigOverrides::from_cli(&cli);
    let server = overrides.server.expect("server");
    assert_eq!(server.listen.as_deref(), Some("0.0.0.0:1"));
    assert_eq!(server.timezone, None);
    assert_eq!(overrides.cache.expect("cache").max_entries, Some(5));
    assert_eq!(overrides.rate_limit.expect("rate limit").rps.as_deref(), Some("2.5"));
    assert_eq!(overrides.metrics.expect("metrics").prefix.as_deref(), Some("svc"));
    assert!(MetricsOverrides { prefix: None }.is_empty());
    assert!(option_if_not_empty(MetricsOverrides { prefix: None }).is_none());
    assert!(option_if_not_empty(MetricsOverrides { prefix: Some("x".to_string()) }).is_some());
}

#[test]
fn urls_are_read_as_reqwest_reads_them() {
    let verdict = |url: &str| {
        let mut config = Config::default();
        config.loki.url = url.to_string();
        config.validate(true).map_err(|e| e.kind)
    };
    assert_eq!(verdict("https://loki.example:3100/base/"), Ok(()));
    assert_eq!(verdict("loki.example:3100"), Ok(()));
    assert_eq!(verdict("//loki.example"), Err(ConfigFault::Url));
    assert_eq!(verdict("http://"), Err(ConfigFault::Url));
    assert_eq!(verdict("   "), Err(ConfigFault::EmptyField));
}
