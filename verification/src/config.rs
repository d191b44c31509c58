//! The configuration that the server runs under: its groups, their
//! defaults, and the rules that a loaded configuration must meet.

use vstd::prelude::*;
use crate::guardrails::{byte_size, parse_byte_size as parse_size, SizeError, SizeFailure};
use crate::keyed::{find_named, first_named, named_view, Named};
use crate::text::{
    chars_of, join2, lower_chars, lowered, push_text, same_text, string_of, trim, trim_chars,
    trimmed, unsigned_reading,
};
use crate::time::{known_zone, parse_std_duration, std_duration, Zone};

verus! {

#[derive(Debug)]
pub struct ServerConfig {
    pub listen: String,
    pub timezone: String,
    pub log_level: String,
    pub identity_header: Option<String>,
}

#[derive(Debug)]
pub struct LokiConfig {
    pub url: String,
    pub tenant_id: Option<String>,
    pub auth_type: String,
    pub username: Option<String>,
    pub password: Option<String>,
    pub token: Option<String>,
    pub ca_cert: Option<String>,
    pub timeout: String,
}

#[derive(Debug)]
pub struct CacheConfig {
    pub enabled: bool,
    pub ttl: String,
    pub skip_if_range_shorter_than: String,
    pub max_entries: u64,
}

#[derive(Debug)]
pub struct GuardrailsConfig {
    pub max_bytes_scanned: String,
    pub max_streams: u64,
    pub skip_stats_if_streams_below: u64,
    pub skip_stats_if_range_shorter_than: String,
}

/// The rate limit. `rps` is the refill rate in tokens per second, rounded
/// up to a whole number; zero stands for a rate that is not positive.
#[derive(Debug)]
pub struct RateLimitConfig {
    pub enabled: bool,
    pub rps: u32,
    pub burst: u32,
}

#[derive(Debug)]
pub struct MetricsConfig {
    pub prefix: String,
}

#[derive(Debug)]
pub struct RecentActionsConfig {
    pub enabled: bool,
    pub max_entries: u64,
    pub ttl: String,
    pub store_query_text: bool,
    pub store_error_text: bool,
}

#[derive(Debug)]
pub struct SchemaField {
    pub name: String,
    pub description: String,
    pub common_values: Vec<String>,
}

#[derive(Debug)]
pub struct SavedQuery {
    pub name: String,
    pub description: String,
    pub query: String,
    pub range: String,
}

#[derive(Debug)]
pub struct Config {
    pub server: ServerConfig,
    pub loki: LokiConfig,
    pub cache: CacheConfig,
    pub guardrails: GuardrailsConfig,
    pub rate_limit: RateLimitConfig,
    pub metrics: MetricsConfig,
    pub recent_actions: RecentActionsConfig,
    pub labels: Vec<SchemaField>,
    pub structured_metadata: Vec<SchemaField>,
    pub saved_queries: Vec<SavedQuery>,
}

// ---------------------------------------------------------------------------
// Defaults
// ---------------------------------------------------------------------------
impl Default for ServerConfig {
    fn default() -> (r: Self)
        ensures
            r.listen@ == "0.0.0.0:8080"@,
            r.timezone@ == "America/New_York"@,
            r.log_level@ == "info"@,
            r.identity_header is None,
    {
        ServerConfig {
            listen: "0.0.0.0:8080".to_owned(),
            timezone: "America/New_York".to_owned(),
            log_level: "info".to_owned(),
            identity_header: None,
        }
    }
}

impl Default for LokiConfig {
    fn default() -> (r: Self)
        ensures
            r.url@ == "http://127.0.0.1:3100"@,
            r.auth_type@ == "none"@,
            r.timeout@ == "30s"@,
            r.tenant_id is None,
            r.username is None,
            r.password is None,
            r.token is None,
            r.ca_cert is None,
    {
        LokiConfig {
            url: "http://127.0.0.1:3100".to_owned(),
            tenant_id: None,
            auth_type: "none".to_owned(),
            username: None,
            password: None,
            token: None,
            ca_cert: None,
            timeout: "30s".to_owned(),
        }
    }
}

impl Default for CacheConfig {
    fn default() -> (r: Self)
        ensures
            r.enabled,
            r.ttl@ == "60s"@,
            r.skip_if_range_shorter_than@ == "60s"@,
            r.max_entries == 1000,
    {
        CacheConfig {
            enabled: true,
            ttl: "60s".to_owned(),
            skip_if_range_shorter_than: "60s".to_owned(),
            max_entries: 1000,
        }
    }
}

impl Default for GuardrailsConfig {
    fn default() -> (r: Self)
        ensures
            r.max_bytes_scanned@ == "500MB"@,
            r.max_streams == 5000,
            r.skip_stats_if_streams_below == 50,
            r.skip_stats_if_range_shorter_than@ == "15m"@,
    {
        GuardrailsConfig {
            max_bytes_scanned: "500MB".to_owned(),
            max_streams: 5000,
            skip_stats_if_streams_below: 50,
            skip_stats_if_range_shorter_than: "15m".to_owned(),
        }
    }
}

impl Default for RateLimitConfig {
    fn default() -> (r: Self)
        ensures
            r.enabled,
            r.rps == 10,
            r.burst == 30,
    {
        RateLimitConfig { enabled: true, rps: 10, burst: 30 }
    }
}

impl Default for MetricsConfig {
    fn default() -> (r: Self)
        ensures
            r.prefix@ == "loki_mcp"@,
    {
        MetricsConfig { prefix: "loki_mcp".to_owned() }
    }
}

impl Default for RecentActionsConfig {
    fn default() -> (r: Self)
        ensures
            !r.enabled,
            r.max_entries == 500,
            r.ttl@ == "30m"@,
            !r.store_query_text,
            !r.store_error_text,
    {
        RecentActionsConfig {
            enabled: false,
            max_entries: 500,
            ttl: "30m".to_owned(),
            store_query_text: false,
            store_error_text: false,
        }
    }
}

impl Default for Config {
    fn default() -> (r: Self)
        ensures
            r.server.listen@ == "0.0.0.0:8080"@,
            r.server.timezone@ == "America/New_York"@,
            r.server.log_level@ == "info"@,
            r.loki.url@ == "http://127.0.0.1:3100"@,
            r.loki.auth_type@ == "none"@,
            r.loki.timeout@ == "30s"@,
            r.cache.enabled && r.cache.max_entries == 1000,
            r.guardrails.max_bytes_scanned@ == "500MB"@,
            r.rate_limit.enabled && r.rate_limit.rps == 10 && r.rate_limit.burst == 30,
            r.metrics.prefix@ == "loki_mcp"@,
            !r.recent_actions.enabled,
            r.labels@.len() == 0,
            r.structured_metadata@.len() == 0,
            r.saved_queries@.len() == 0,
    {
        Config {
            server: ServerConfig::default(),
            loki: LokiConfig::default(),
            cache: CacheConfig::default(),
            guardrails: GuardrailsConfig::default(),
            rate_limit: RateLimitConfig::default(),
            metrics: MetricsConfig::default(),
            recent_actions: RecentActionsConfig::default(),
            labels: Vec::new(),
            structured_metadata: Vec::new(),
            saved_queries: Vec::new(),
        }
    }
}

// ---------------------------------------------------------------------------
// Normal form
// ---------------------------------------------------------------------------
/// An optional text in normal form: trimmed, and absent where nothing is
/// left.
pub open spec fn tidy(value: Option<Seq<char>>) -> Option<Seq<char>> {
    match value {
        Some(raw) => if trimmed(raw).len() == 0 {
            None
        } else {
            Some(trimmed(raw))
        },
        None => None,
    }
}

pub open spec fn view_of(value: Option<String>) -> Option<Seq<char>> {
    match value {
        Some(s) => Some(s@),
        None => None,
    }
}

pub fn normalized(value: Option<String>) -> (r: Option<String>)
    ensures
        view_of(r) == tidy(view_of(value)),
{
    match value {
        Some(raw) => {
            let t = trim(raw.as_str());
            if t.as_str().is_empty() {
                None
            } else {
                Some(t)
            }
        },
        None => None,
    }
}

pub fn normalize_optional_string(value: &mut Option<String>)
    ensures
        view_of(*final(value)) == tidy(view_of(*old(value))),
{
    let taken = value.take();
    *value = normalized(taken);
}

impl Config {
    /// The configuration in normal form: texts trimmed, the kind of
    /// authentication in lower case, optional texts tidied.
    pub open spec fn normal_form_of(&self, before: &Config) -> bool {
        &&& self.server.listen@ == trimmed(before.server.listen@)
        &&& self.server.timezone@ == trimmed(before.server.timezone@)
        &&& self.server.log_level@ == trimmed(before.server.log_level@)
        &&& view_of(self.server.identity_header) == tidy(view_of(before.server.identity_header))
        &&& self.loki.url@ == trimmed(before.loki.url@)
        &&& self.loki.auth_type@ == lowered(trimmed(before.loki.auth_type@))
        &&& self.loki.timeout@ == trimmed(before.loki.timeout@)
        &&& view_of(self.loki.tenant_id) == tidy(view_of(before.loki.tenant_id))
        &&& view_of(self.loki.username) == tidy(view_of(before.loki.username))
        &&& view_of(self.loki.password) == tidy(view_of(before.loki.password))
        &&& view_of(self.loki.token) == tidy(view_of(before.loki.token))
        &&& view_of(self.loki.ca_cert) == tidy(view_of(before.loki.ca_cert))
        &&& self.cache.ttl@ == trimmed(before.cache.ttl@)
        &&& self.cache.skip_if_range_shorter_than@ == trimmed(
            before.cache.skip_if_range_shorter_than@,
        )
        &&& self.cache.enabled == before.cache.enabled
        &&& self.cache.max_entries == before.cache.max_entries
        &&& self.guardrails.max_bytes_scanned@ == trimmed(before.guardrails.max_bytes_scanned@)
        &&& self.guardrails.skip_stats_if_range_shorter_than@ == trimmed(
            before.guardrails.skip_stats_if_range_shorter_than@,
        )
        &&& self.guardrails.max_streams == before.guardrails.max_streams
        &&& self.guardrails.skip_stats_if_streams_below
            == before.guardrails.skip_stats_if_streams_below
        &&& self.metrics.prefix@ == trimmed(before.metrics.prefix@)
        &&& self.recent_actions.ttl@ == trimmed(before.recent_actions.ttl@)
        &&& self.recent_actions.enabled == before.recent_actions.enabled
        &&& self.recent_actions.max_entries == before.recent_actions.max_entries
        &&& self.recent_actions.store_query_text == before.recent_actions.store_query_text
        &&& self.recent_actions.store_error_text == before.recent_actions.store_error_text
        &&& self.rate_limit == before.rate_limit
        &&& self.labels == before.labels
        &&& self.structured_metadata == before.structured_metadata
        &&& self.saved_queries == before.saved_queries
    }

    pub fn normalize(&mut self)
        ensures
            final(self).normal_form_of(old(self)),
    {
        self.server.listen = trim(self.server.listen.as_str());
        self.server.timezone = trim(self.server.timezone.as_str());
        self.server.log_level = trim(self.server.log_level.as_str());
        normalize_optional_string(&mut self.server.identity_header);
        self.loki.url = trim(self.loki.url.as_str());
        let kind = chars_of(self.loki.auth_type.as_str());
        let kind = trim_chars(&kind);
        let kind = lower_chars(&kind);
        self.loki.auth_type = string_of(&kind);
        self.loki.timeout = trim(self.loki.timeout.as_str());
        normalize_optional_string(&mut self.loki.tenant_id);
        normalize_optional_string(&mut self.loki.username);
        normalize_optional_string(&mut self.loki.password);
        normalize_optional_string(&mut self.loki.token);
        normalize_optional_string(&mut self.loki.ca_cert);
        self.cache.ttl = trim(self.cache.ttl.as_str());
        self.cache.skip_if_range_shorter_than = trim(
            self.cache.skip_if_range_shorter_than.as_str(),
        );
        self.guardrails.max_bytes_scanned = trim(self.guardrails.max_bytes_scanned.as_str());
        self.guardrails.skip_stats_if_range_shorter_than = trim(
            self.guardrails.skip_stats_if_range_shorter_than.as_str(),
        );
        self.metrics.prefix = trim(self.metrics.prefix.as_str());
        self.recent_actions.ttl = trim(self.recent_actions.ttl.as_str());
    }
}

// ---------------------------------------------------------------------------
// Rules
// ---------------------------------------------------------------------------
#[derive(Debug, Clone, Copy, PartialEq, Eq, Structural)]
pub enum ConfigFault {
    /// A text that must say something says nothing; the detail names it.
    EmptyField,
    ListenAddress,
    Timezone,
    Url,
    MissingUsername,
    MissingPassword,
    MissingToken,
    AuthType,
    LokiTimeout,
    CacheTtl,
    CacheSkipRange,
    GuardrailSkipRange,
    MaxBytesScanned,
    CacheMaxEntries,
    RateLimitRps,
    RateLimitBurst,
    RecentActionsTtl,
    RecentActionsMaxEntries,
    /// The kind of authentication is none that the backend client knows.
    AuthKind,
    /// The time zone is none that the database holds.
    ZoneName,
    /// A setting from the environment does not read as a truth value; the
    /// detail names the variable and the value.
    EnvBool,
    /// A setting from the environment does not read as a number.
    EnvNumber,
    /// A setting from the environment is a number too large.
    EnvTooLarge,
}

/// A rule that the configuration breaks, with the value it is about.
#[derive(Debug)]
pub struct ConfigError {
    pub kind: ConfigFault,
    pub detail: String,
}

pub type ConfigFailure = (ConfigFault, Seq<char>);

impl View for ConfigError {
    type V = ConfigFailure;

    open spec fn view(&self) -> ConfigFailure {
        (self.kind, self.detail@)
    }
}

/// The message of a broken rule.
pub open spec fn config_message(failure: ConfigFailure) -> Seq<char> {
    match failure.0 {
        ConfigFault::EmptyField => failure.1 + " must not be empty"@,
        ConfigFault::ListenAddress => "server.listen must be host:port, got "@ + failure.1,
        ConfigFault::Timezone => "invalid server.timezone: "@ + failure.1,
        ConfigFault::Url => "invalid loki.url: "@ + failure.1,
        ConfigFault::MissingUsername => "loki.username is required when loki.auth_type=basic"@,
        ConfigFault::MissingPassword => "loki.password is required when loki.auth_type=basic"@,
        ConfigFault::MissingToken => "loki.token is required when loki.auth_type=bearer"@,
        ConfigFault::AuthType => "unsupported loki.auth_type: "@ + failure.1
            + ". expected one of none/basic/bearer"@,
        ConfigFault::LokiTimeout => "invalid loki.timeout: "@ + failure.1,
        ConfigFault::CacheTtl => "invalid cache.ttl: "@ + failure.1,
        ConfigFault::CacheSkipRange => "invalid cache.skip_if_range_shorter_than: "@ + failure.1,
        ConfigFault::GuardrailSkipRange =>
            "invalid guardrails.skip_stats_if_range_shorter_than: "@ + failure.1,
        ConfigFault::MaxBytesScanned => "invalid guardrails.max_bytes_scanned: "@ + failure.1,
        ConfigFault::CacheMaxEntries => "cache.max_entries must be greater than zero"@,
        ConfigFault::RateLimitRps => "rate_limit.rps must be > 0 when rate limiting is enabled"@,
        ConfigFault::RateLimitBurst =>
            "rate_limit.burst must be > 0 when rate limiting is enabled"@,
        ConfigFault::RecentActionsTtl => "invalid recent_actions.ttl: "@ + failure.1,
        ConfigFault::RecentActionsMaxEntries =>
            "recent_actions.max_entries must be greater than zero"@,
        ConfigFault::AuthKind => "unsupported loki auth type: "@ + failure.1,
        ConfigFault::ZoneName => "invalid timezone: "@ + failure.1,
        ConfigFault::EnvBool => "invalid value for "@ + failure.1
            + " (provided string was not `true` or `false`)"@,
        ConfigFault::EnvNumber => "invalid value for "@ + failure.1
            + " (invalid digit found in string)"@,
        ConfigFault::EnvTooLarge => "invalid value for "@ + failure.1
            + " (number too large to fit in target type)"@,
    }
}

impl ConfigError {
    pub fn of(kind: ConfigFault) -> (r: ConfigError)
        ensures
            r@ == (kind, Seq::<char>::empty()),
    {
        ConfigError { kind, detail: String::new() }
    }

    pub fn about(kind: ConfigFault, detail: &str) -> (r: ConfigError)
        ensures
            r@ == (kind, detail@),
    {
        ConfigError { kind, detail: detail.to_owned() }
    }

    pub fn message(&self) -> (r: String)
        ensures
            r@ == config_message(self@),
    {
        let d = self.detail.as_str();
        match self.kind {
            ConfigFault::EmptyField => join2(d, " must not be empty"),
            ConfigFault::ListenAddress => join2("server.listen must be host:port, got ", d),
            ConfigFault::Timezone => join2("invalid server.timezone: ", d),
            ConfigFault::Url => join2("invalid loki.url: ", d),
            ConfigFault::MissingUsername =>
                "loki.username is required when loki.auth_type=basic".to_owned(),
            ConfigFault::MissingPassword =>
                "loki.password is required when loki.auth_type=basic".to_owned(),
            ConfigFault::MissingToken =>
                "loki.token is required when loki.auth_type=bearer".to_owned(),
            ConfigFault::AuthType => {
                let mut r = join2("unsupported loki.auth_type: ", d);
                push_text(&mut r, ". expected one of none/basic/bearer");
                r
            },
            ConfigFault::LokiTimeout => join2("invalid loki.timeout: ", d),
            ConfigFault::CacheTtl => join2("invalid cache.ttl: ", d),
            ConfigFault::CacheSkipRange => join2("invalid cache.skip_if_range_shorter_than: ", d),
            ConfigFault::GuardrailSkipRange => join2(
                "invalid guardrails.skip_stats_if_range_shorter_than: ",
                d,
            ),
            ConfigFault::MaxBytesScanned => join2("invalid guardrails.max_bytes_scanned: ", d),
            ConfigFault::CacheMaxEntries => "cache.max_entries must be greater than zero".to_owned(),
            ConfigFault::RateLimitRps =>
                "rate_limit.rps must be > 0 when rate limiting is enabled".to_owned(),
            ConfigFault::RateLimitBurst =>
                "rate_limit.burst must be > 0 when rate limiting is enabled".to_owned(),
            ConfigFault::RecentActionsTtl => join2("invalid recent_actions.ttl: ", d),
            ConfigFault::RecentActionsMaxEntries =>
                "recent_actions.max_entries must be greater than zero".to_owned(),
            ConfigFault::AuthKind => join2("unsupported loki auth type: ", d),
            ConfigFault::ZoneName => join2("invalid timezone: ", d),
            ConfigFault::EnvBool => crate::text::join3(
                "invalid value for ",
                d,
                " (provided string was not `true` or `false`)",
            ),
            ConfigFault::EnvNumber => crate::text::join3(
                "invalid value for ",
                d,
                " (invalid digit found in string)",
            ),
            ConfigFault::EnvTooLarge => crate::text::join3(
                "invalid value for ",
                d,
                " (number too large to fit in target type)",
            ),
        }
    }
}

pub fn ensure_non_empty(key: &str, value: &str) -> (r: Result<(), ConfigError>)
    ensures
        r is Ok == (trimmed(value@).len() > 0),
        r is Err ==> r->Err_0@ == (ConfigFault::EmptyField, key@),
{
    let t = trim(value);
    if t.as_str().is_empty() {
        Err(ConfigError::about(ConfigFault::EmptyField, key))
    } else {
        Ok(())
    }
}

/// The bytes that a size text states.
pub fn parse_byte_size(input: &str) -> (r: Result<u64, SizeError>)
    ensures
        match r {
            Ok(n) => byte_size(input@) == Ok::<_, SizeFailure>(n),
            Err(e) => byte_size(input@) == Err::<u64, _>(e@),
        },
{
    parse_size(input)
}

/// What the rule on authentication finds.
pub open spec fn auth_verdict(loki: &LokiConfig) -> Option<ConfigFailure> {
    if loki.auth_type@ == "none"@ {
        None
    } else if loki.auth_type@ == "basic"@ {
        if loki.username is None {
            Some((ConfigFault::MissingUsername, Seq::empty()))
        } else if loki.password is None {
            Some((ConfigFault::MissingPassword, Seq::empty()))
        } else {
            None
        }
    } else if loki.auth_type@ == "bearer"@ {
        if loki.token is None {
            Some((ConfigFault::MissingToken, Seq::empty()))
        } else {
            None
        }
    } else {
        Some((ConfigFault::AuthType, loki.auth_type@))
    }
}

/// Whether `reqwest` reads a text as a URL.
pub uninterp spec fn url_reading(text: Seq<char>) -> bool;

/// `reqwest::Url::parse`: whether the text reads as a URL.
#[verifier::external_body]
fn url_parses(text: &str) -> (r: bool)
    ensures
        r == url_reading(text@),
{
    reqwest::Url::parse(text).is_ok()
}

impl Config {
    /// The first rule that the configuration breaks, in the order in which
    /// the rules are held against it; `None` where it breaks none.
    /// `listen_is_address` says whether `server.listen` reads as a socket
    /// address.
    pub open spec fn verdict(&self, listen_is_address: bool) -> Option<ConfigFailure> {
        if trimmed(self.server.listen@).len() == 0 {
            Some((ConfigFault::EmptyField, "server.listen"@))
        } else if !listen_is_address {
            Some((ConfigFault::ListenAddress, self.server.listen@))
        } else if trimmed(self.server.timezone@).len() == 0 {
            Some((ConfigFault::EmptyField, "server.timezone"@))
        } else if known_zone(self.server.timezone@) is None {
            Some((ConfigFault::Timezone, self.server.timezone@))
        } else if trimmed(self.server.log_level@).len() == 0 {
            Some((ConfigFault::EmptyField, "server.log_level"@))
        } else if trimmed(self.loki.url@).len() == 0 {
            Some((ConfigFault::EmptyField, "loki.url"@))
        } else if !url_reading(self.loki.url@) {
            Some((ConfigFault::Url, self.loki.url@))
        } else if auth_verdict(&self.loki) is Some {
            auth_verdict(&self.loki)
        } else if std_duration(self.loki.timeout@) is Err {
            Some((ConfigFault::LokiTimeout, self.loki.timeout@))
        } else if std_duration(self.cache.ttl@) is Err {
            Some((ConfigFault::CacheTtl, self.cache.ttl@))
        } else if std_duration(self.cache.skip_if_range_shorter_than@) is Err {
            Some((ConfigFault::CacheSkipRange, self.cache.skip_if_range_shorter_than@))
        } else if std_duration(self.guardrails.skip_stats_if_range_shorter_than@) is Err {
            Some(
                (
                    ConfigFault::GuardrailSkipRange,
                    self.guardrails.skip_stats_if_range_shorter_than@,
                ),
            )
        } else if byte_size(self.guardrails.max_bytes_scanned@) is Err {
            Some((ConfigFault::MaxBytesScanned, self.guardrails.max_bytes_scanned@))
        } else if self.cache.max_entries == 0 {
            Some((ConfigFault::CacheMaxEntries, Seq::empty()))
        } else if self.rate_limit.enabled && self.rate_limit.rps == 0 {
            Some((ConfigFault::RateLimitRps, Seq::empty()))
        } else if self.rate_limit.enabled && self.rate_limit.burst == 0 {
            Some((ConfigFault::RateLimitBurst, Seq::empty()))
        } else if trimmed(self.metrics.prefix@).len() == 0 {
            Some((ConfigFault::EmptyField, "metrics.prefix"@))
        } else if std_duration(self.recent_actions.ttl@) is Err {
            Some((ConfigFault::RecentActionsTtl, self.recent_actions.ttl@))
        } else if self.recent_actions.max_entries == 0 {
            Some((ConfigFault::RecentActionsMaxEntries, Seq::empty()))
        } else {
            None
        }
    }

    fn check_auth(&self) -> (r: Result<(), ConfigError>)
        ensures
            r is Ok == auth_verdict(&self.loki) is None,
            r is Err ==> Some(r->Err_0@) == auth_verdict(&self.loki),
    {
        let kind = self.loki.auth_type.as_str();
        if same_text(kind, "none") {
            Ok(())
        } else if same_text(kind, "basic") {
            if self.loki.username.is_none() {
                Err(ConfigError::of(ConfigFault::MissingUsername))
            } else if self.loki.password.is_none() {
                Err(ConfigError::of(ConfigFault::MissingPassword))
            } else {
                Ok(())
            }
        } else if same_text(kind, "bearer") {
            if self.loki.token.is_none() {
                Err(ConfigError::of(ConfigFault::MissingToken))
            } else {
                Ok(())
            }
        } else {
            Err(ConfigError::about(ConfigFault::AuthType, kind))
        }
    }

    /// Holds the rules against the configuration.
    pub fn validate(&self, listen_is_address: bool) -> (r: Result<
        (),
        ConfigError,
    >)
        ensures
            r is Ok == self.verdict(listen_is_address) is None,
            r is Err ==> Some(r->Err_0@) == self.verdict(listen_is_address),
    {
        ensure_non_empty("server.listen", self.server.listen.as_str())?;
        if !listen_is_address {
            return Err(ConfigError::about(ConfigFault::ListenAddress, self.server.listen.as_str()));
        }
        ensure_non_empty("server.timezone", self.server.timezone.as_str())?;
        if Zone::parse(self.server.timezone.as_str()).is_none() {
            return Err(ConfigError::about(ConfigFault::Timezone, self.server.timezone.as_str()));
        }
        ensure_non_empty("server.log_level", self.server.log_level.as_str())?;
        ensure_non_empty("loki.url", self.loki.url.as_str())?;
        if !url_parses(self.loki.url.as_str()) {
            return Err(ConfigError::about(ConfigFault::Url, self.loki.url.as_str()));
        }
        self.check_auth()?;
        if parse_std_duration(self.loki.timeout.as_str()).is_err() {
            return Err(ConfigError::about(ConfigFault::LokiTimeout, self.loki.timeout.as_str()));
        }
        if parse_std_duration(self.cache.ttl.as_str()).is_err() {
            return Err(ConfigError::about(ConfigFault::CacheTtl, self.cache.ttl.as_str()));
        }
        if parse_std_duration(self.cache.skip_if_range_shorter_than.as_str()).is_err() {
            return Err(
                ConfigError::about(
                    ConfigFault::CacheSkipRange,
                    self.cache.skip_if_range_shorter_than.as_str(),
                ),
            );
        }
        if parse_std_duration(self.guardrails.skip_stats_if_range_shorter_than.as_str()).is_err() {
            return Err(
                ConfigError::about(
                    ConfigFault::GuardrailSkipRange,
                    self.guardrails.skip_stats_if_range_shorter_than.as_str(),
                ),
            );
        }
        if parse_size(self.guardrails.max_bytes_scanned.as_str()).is_err() {
            return Err(
                ConfigError::about(
                    ConfigFault::MaxBytesScanned,
                    self.guardrails.max_bytes_scanned.as_str(),
                ),
            );
        }
        if self.cache.max_entries == 0 {
            return Err(ConfigError::of(ConfigFault::CacheMaxEntries));
        }
        if self.rate_limit.enabled {
            if self.rate_limit.rps == 0 {
                return Err(ConfigError::of(ConfigFault::RateLimitRps));
            }
            if self.rate_limit.burst == 0 {
                return Err(ConfigError::of(ConfigFault::RateLimitBurst));
            }
        }
        ensure_non_empty("metrics.prefix", self.metrics.prefix.as_str())?;
        if parse_std_duration(self.recent_actions.ttl.as_str()).is_err() {
            return Err(
                ConfigError::about(ConfigFault::RecentActionsTtl, self.recent_actions.ttl.as_str()),
            );
        }
        if self.recent_actions.max_entries == 0 {
            return Err(ConfigError::of(ConfigFault::RecentActionsMaxEntries));
        }
        Ok(())
    }
}

// ---------------------------------------------------------------------------
// Overrides
// ---------------------------------------------------------------------------
/// The settings that the command line may give. The rate is kept as the
/// text that was given; it is read where numbers with a fraction are.
#[derive(Debug)]
pub struct Cli {
    pub config: String,
    pub listen: Option<String>,
    pub timezone: Option<String>,
    pub log_level: Option<String>,
    pub identity_header: Option<String>,
    pub loki_url: Option<String>,
    pub loki_tenant_id: Option<String>,
    pub loki_auth_type: Option<String>,
    pub loki_username: Option<String>,
    pub loki_password: Option<String>,
    pub loki_token: Option<String>,
    pub loki_ca_cert: Option<String>,
    pub loki_timeout: Option<String>,
    pub cache_enabled: Option<bool>,
    pub cache_ttl: Option<String>,
    pub cache_skip_if_range_shorter_than: Option<String>,
    pub cache_max_entries: Option<u64>,
    pub guardrails_max_bytes_scanned: Option<String>,
    pub guardrails_max_streams: Option<u64>,
    pub guardrails_skip_stats_if_streams_below: Option<u64>,
    pub guardrails_skip_stats_if_range_shorter_than: Option<String>,
    pub rate_limit_enabled: Option<bool>,
    pub rate_limit_rps: Option<String>,
    pub rate_limit_burst: Option<u32>,
    pub metrics_prefix: Option<String>,
    pub recent_actions_enabled: Option<bool>,
    pub recent_actions_max_entries: Option<u64>,
    pub recent_actions_ttl: Option<String>,
    pub recent_actions_store_query_text: Option<bool>,
    pub recent_actions_store_error_text: Option<bool>,
}

#[derive(Debug)]
pub struct ServerOverrides {
    pub listen: Option<String>,
    pub timezone: Option<String>,
    pub log_level: Option<String>,
    pub identity_header: Option<String>,
}

#[derive(Debug)]
pub struct LokiOverrides {
    pub url: Option<String>,
    pub tenant_id: Option<String>,
    pub auth_type: Option<String>,
    pub username: Option<String>,
    pub password: Option<String>,
    pub token: Option<String>,
    pub ca_cert: Option<String>,
    pub timeout: Option<String>,
}

#[derive(Debug)]
pub struct CacheOverrides {
    pub enabled: Option<bool>,
    pub ttl: Option<String>,
    pub skip_if_range_shorter_than: Option<String>,
    pub max_entries: Option<u64>,
}

#[derive(Debug)]
pub struct GuardrailsOverrides {
    pub max_bytes_scanned: Option<String>,
    pub max_streams: Option<u64>,
    pub skip_stats_if_streams_below: Option<u64>,
    pub skip_stats_if_range_shorter_than: Option<String>,
}

#[derive(Debug)]
pub struct RateLimitOverrides {
    pub enabled: Option<bool>,
    pub rps: Option<String>,
    pub burst: Option<u32>,
}

#[derive(Debug)]
pub struct MetricsOverrides {
    pub prefix: Option<String>,
}

#[derive(Debug)]
pub struct RecentActionsOverrides {
    pub enabled: Option<bool>,
    pub max_entries: Option<u64>,
    pub ttl: Option<String>,
    pub store_query_text: Option<bool>,
    pub store_error_text: Option<bool>,
}

/// The settings that override the configuration, group by group. A group
/// in which nothing is set is left out.
#[derive(Debug)]
pub struct ConfigOverrides {
    pub server: Option<ServerOverrides>,
    pub loki: Option<LokiOverrides>,
    pub cache: Option<CacheOverrides>,
    pub guardrails: Option<GuardrailsOverrides>,
    pub rate_limit: Option<RateLimitOverrides>,
    pub metrics: Option<MetricsOverrides>,
    pub recent_actions: Option<RecentActionsOverrides>,
}

/// A group of overrides knows whether anything is set in it.
pub trait IsEmpty {
    spec fn nothing_set(&self) -> bool;

    fn is_empty(&self) -> (r: bool)
        ensures
            r == self.nothing_set(),
    ;
}

impl IsEmpty for ServerOverrides {
    open spec fn nothing_set(&self) -> bool {
        self.listen is None && self.timezone is None && self.log_level is None
            && self.identity_header is None
    }

    fn is_empty(&self) -> (r: bool) {
        self.listen.is_none() && self.timezone.is_none() && self.log_level.is_none()
            && self.identity_header.is_none()
    }
}

impl IsEmpty for LokiOverrides {
    open spec fn nothing_set(&self) -> bool {
        self.url is None && self.tenant_id is None && self.auth_type is None && self.username
            is None && self.password is None && self.token is None && self.ca_cert is None
            && self.timeout is None
    }

    fn is_empty(&self) -> (r: bool) {
        self.url.is_none() && self.tenant_id.is_none() && self.auth_type.is_none()
            && self.username.is_none() && self.password.is_none() && self.token.is_none()
            && self.ca_cert.is_none() && self.timeout.is_none()
    }
}

impl IsEmpty for CacheOverrides {
    open spec fn nothing_set(&self) -> bool {
        self.enabled is None && self.ttl is None && self.skip_if_range_shorter_than is None
            && self.max_entries is None
    }

    fn is_empty(&self) -> (r: bool) {
        self.enabled.is_none() && self.ttl.is_none() && self.skip_if_range_shorter_than.is_none()
            && self.max_entries.is_none()
    }
}

impl IsEmpty for GuardrailsOverrides {
    open spec fn nothing_set(&self) -> bool {
        self.max_bytes_scanned is None && self.max_streams is None
            && self.skip_stats_if_streams_below is None && self.skip_stats_if_range_shorter_than
            is None
    }

    fn is_empty(&self) -> (r: bool) {
        self.max_bytes_scanned.is_none() && self.max_streams.is_none()
            && self.skip_stats_if_streams_below.is_none()
            && self.skip_stats_if_range_shorter_than.is_none()
    }
}

impl IsEmpty for RateLimitOverrides {
    open spec fn nothing_set(&self) -> bool {
        self.enabled is None && self.rps is None && self.burst is None
    }

    fn is_empty(&self) -> (r: bool) {
        self.enabled.is_none() && self.rps.is_none() && self.burst.is_none()
    }
}

impl IsEmpty for MetricsOverrides {
    open spec fn nothing_set(&self) -> bool {
        self.prefix is None
    }

    fn is_empty(&self) -> (r: bool) {
        self.prefix.is_none()
    }
}

impl IsEmpty for RecentActionsOverrides {
    open spec fn nothing_set(&self) -> bool {
        self.enabled is None && self.max_entries is None && self.ttl is None
            && self.store_query_text is None && self.store_error_text is None
    }

    fn is_empty(&self) -> (r: bool) {
        self.enabled.is_none() && self.max_entries.is_none() && self.ttl.is_none()
            && self.store_query_text.is_none() && self.store_error_text.is_none()
    }
}

/// The group, unless nothing is set in it.
pub fn option_if_not_empty<T: IsEmpty>(value: T) -> (r: Option<T>)
    ensures
        r == (if value.nothing_set() {
            None
        } else {
            Some(value)
        }),
{
    if value.is_empty() {
        None
    } else {
        Some(value)
    }
}

fn tidy_copy(value: &Option<String>) -> (r: Option<String>)
    ensures
        view_of(r) == tidy(view_of(*value)),
{
    match value {
        Some(raw) => {
            let t = trim(raw.as_str());
            if t.as_str().is_empty() {
                None
            } else {
                Some(t)
            }
        },
        None => None,
    }
}

/// The value of a variable of the environment: trimmed, and none where
/// the variable is not set or nothing is left.
pub open spec fn env_text(vars: Named<Seq<char>>, key: Seq<char>) -> Option<Seq<char>> {
    tidy(first_named(vars, key))
}

pub fn env_string(vars: &Vec<(String, String)>, key: &str) -> (r: Option<String>)
    ensures
        view_of(r) == env_text(named_view(vars@), key@),
{
    match find_named(vars, key) {
        Some(raw) => {
            let t = trim(raw.as_str());
            if t.as_str().is_empty() {
                None
            } else {
                Some(t)
            }
        },
        None => None,
    }
}

/// The variable and the value that a failure to read a setting names.
pub open spec fn env_detail(key: Seq<char>, value: Seq<char>) -> Seq<char> {
    key + ": "@ + value
}

fn env_failure(kind: ConfigFault, key: &str, value: &str) -> (r: ConfigError)
    ensures
        r@ == (kind, env_detail(key@, value@)),
{
    ConfigError { kind, detail: crate::text::join3(key, ": ", value) }
}

/// The truth value that a variable of the environment states.
pub open spec fn env_bool_of(vars: Named<Seq<char>>, key: Seq<char>) -> Result<
    Option<bool>,
    ConfigFailure,
> {
    match env_text(vars, key) {
        None => Ok(None),
        Some(text) => if text == "true"@ {
            Ok(Some(true))
        } else if text == "false"@ {
            Ok(Some(false))
        } else {
            Err((ConfigFault::EnvBool, env_detail(key, text)))
        },
    }
}

/// The number that a variable of the environment states, up to `limit`.
pub open spec fn env_number_of(vars: Named<Seq<char>>, key: Seq<char>, limit: u64) -> Result<
    Option<u64>,
    ConfigFailure,
> {
    match env_text(vars, key) {
        None => Ok(None),
        Some(text) => match unsigned_reading(text) {
            None => Err((ConfigFault::EnvNumber, env_detail(key, text))),
            Some(n) => if n <= limit {
                Ok(Some(n as u64))
            } else {
                Err((ConfigFault::EnvTooLarge, env_detail(key, text)))
            },
        },
    }
}

pub fn env_parse_bool(vars: &Vec<(String, String)>, key: &str) -> (r: Result<
    Option<bool>,
    ConfigError,
>)
    ensures
        match r {
            Ok(v) => env_bool_of(named_view(vars@), key@) == Ok::<_, ConfigFailure>(v),
            Err(e) => env_bool_of(named_view(vars@), key@) == Err::<Option<bool>, _>(e@),
        },
{
    match env_string(vars, key) {
        None => Ok(None),
        Some(text) => {
            if same_text(text.as_str(), "true") {
                Ok(Some(true))
            } else if same_text(text.as_str(), "false") {
                Ok(Some(false))
            } else {
                Err(env_failure(ConfigFault::EnvBool, key, text.as_str()))
            }
        },
    }
}

pub fn env_parse_u64(vars: &Vec<(String, String)>, key: &str) -> (r: Result<
    Option<u64>,
    ConfigError,
>)
    ensures
        match r {
            Ok(v) => env_number_of(named_view(vars@), key@, u64::MAX) == Ok::<_, ConfigFailure>(v),
            Err(e) => env_number_of(named_view(vars@), key@, u64::MAX) == Err::<Option<u64>, _>(
                e@,
            ),
        },
{
    match env_string(vars, key) {
        None => Ok(None),
        Some(text) => {
            let chars = chars_of(text.as_str());
            match crate::text::read_unsigned(&chars, u64::MAX) {
                Some(n) => Ok(Some(n)),
                None => {
                    if unsigned_shape(&chars) {
                        Err(env_failure(ConfigFault::EnvTooLarge, key, text.as_str()))
                    } else {
                        Err(env_failure(ConfigFault::EnvNumber, key, text.as_str()))
                    }
                },
            }
        },
    }
}

/// Whether a text is written as an unsigned number.
fn unsigned_shape(chars: &Vec<char>) -> (r: bool)
    ensures
        r == (unsigned_reading(chars@) is Some),
{
    let from: usize = if chars.len() > 0 && chars[0] == '+' {
        1
    } else {
        0
    };
    if from == chars.len() {
        return false;
    }
    let ghost body = chars@.subrange(from as int, chars@.len() as int);
    assert(body == if from == 1 {
        chars@.drop_first()
    } else {
        chars@
    });
    let mut i: usize = from;
    while i < chars.len()
        invariant
            from <= i <= chars.len(),
            body == chars@.subrange(from as int, chars@.len() as int),
            body == (if chars@.len() > 0 && chars@[0] == '+' {
                chars@.drop_first()
            } else {
                chars@
            }),
            body.len() > 0,
            forall|k: int| 0 <= k < i - from ==> crate::text::is_digit(#[trigger] body[k]),
        decreases chars.len() - i,
    {
        if !crate::text::char_is_digit(chars[i]) {
            assert(body[i - from] == chars@[i as int]);
            assert(!crate::text::all_digits(body));
            return false;
        }
        assert(body[i - from] == chars@[i as int]);
        i = i + 1;
    }
    assert(crate::text::all_digits(body));
    true
}

pub fn env_parse_u32(vars: &Vec<(String, String)>, key: &str) -> (r: Result<
    Option<u32>,
    ConfigError,
>)
    ensures
        match r {
            Ok(v) => env_number_of(named_view(vars@), key@, u32::MAX as u64) == Ok::<
                _,
                ConfigFailure,
            >(
                match v {
                    Some(n) => Some(n as u64),
                    None => None,
                },
            ),
            Err(e) => env_number_of(named_view(vars@), key@, u32::MAX as u64) == Err::<
                Option<u64>,
                _,
            >(e@),
        },
{
    match env_string(vars, key) {
        None => Ok(None),
        Some(text) => {
            let chars = chars_of(text.as_str());
            match crate::text::read_unsigned(&chars, 0xFFFF_FFFF) {
                Some(n) => Ok(Some(n as u32)),
                None => {
                    if unsigned_shape(&chars) {
                        Err(env_failure(ConfigFault::EnvTooLarge, key, text.as_str()))
                    } else {
                        Err(env_failure(ConfigFault::EnvNumber, key, text.as_str()))
                    }
                },
            }
        },
    }
}

// ---------------------------------------------------------------------------
// What the overrides say
// ---------------------------------------------------------------------------
/// The value of [`ServerOverrides`].
pub struct ServerOverridesV {
    pub listen: Option<Seq<char>>,
    pub timezone: Option<Seq<char>>,
    pub log_level: Option<Seq<char>>,
    pub identity_header: Option<Seq<char>>,
}

impl ServerOverridesV {
    /// Nothing is set.
    pub open spec fn blank(self) -> bool {
        self.listen is None
            && self.timezone is None
            && self.log_level is None
            && self.identity_header is None
    }
}

impl View for ServerOverrides {
    type V = ServerOverridesV;

    open spec fn view(&self) -> ServerOverridesV {
        ServerOverridesV {
            listen: view_of(self.listen),
            timezone: view_of(self.timezone),
            log_level: view_of(self.log_level),
            identity_header: view_of(self.identity_header),
        }
    }
}

/// The value of [`LokiOverrides`].
pub struct LokiOverridesV {
    pub url: Option<Seq<char>>,
    pub tenant_id: Option<Seq<char>>,
    pub auth_type: Option<Seq<char>>,
    pub username: Option<Seq<char>>,
    pub password: Option<Seq<char>>,
    pub token: Option<Seq<char>>,
    pub ca_cert: Option<Seq<char>>,
    pub timeout: Option<Seq<char>>,
}

impl LokiOverridesV {
    /// Nothing is set.
    pub open spec fn blank(self) -> bool {
        self.url is None
            && self.tenant_id is None
            && self.auth_type is None
            && self.username is None
            && self.password is None
            && self.token is None
            && self.ca_cert is None
            && self.timeout is None
    }
}

impl View for LokiOverrides {
    type V = LokiOverridesV;

    open spec fn view(&self) -> LokiOverridesV {
        LokiOverridesV {
            url: view_of(self.url),
            tenant_id: view_of(self.tenant_id),
            auth_type: view_of(self.auth_type),
            username: view_of(self.username),
            password: view_of(self.password),
            token: view_of(self.token),
            ca_cert: view_of(self.ca_cert),
            timeout: view_of(self.timeout),
        }
    }
}

/// The value of [`CacheOverrides`].
pub struct CacheOverridesV {
    pub enabled: Option<bool>,
    pub ttl: Option<Seq<char>>,
    pub skip_if_range_shorter_than: Option<Seq<char>>,
    pub max_entries: Option<u64>,
}

impl CacheOverridesV {
    /// Nothing is set.
    pub open spec fn blank(self) -> bool {
        self.enabled is None
            && self.ttl is None
            && self.skip_if_range_shorter_than is None
            && self.max_entries is None
    }
}

impl View for CacheOverrides {
    type V = CacheOverridesV;

    open spec fn view(&self) -> CacheOverridesV {
        CacheOverridesV {
            enabled: self.enabled,
            ttl: view_of(self.ttl),
            skip_if_range_shorter_than: view_of(self.skip_if_range_shorter_than),
            max_entries: self.max_entries,
        }
    }
}

/// The value of [`GuardrailsOverrides`].
pub struct GuardrailsOverridesV {
    pub max_bytes_scanned: Option<Seq<char>>,
    pub max_streams: Option<u64>,
    pub skip_stats_if_streams_below: Option<u64>,
    pub skip_stats_if_range_shorter_than: Option<Seq<char>>,
}

impl GuardrailsOverridesV {
    /// Nothing is set.
    pub open spec fn blank(self) -> bool {
        self.max_bytes_scanned is None
            && self.max_streams is None
            && self.skip_stats_if_streams_below is None
            && self.skip_stats_if_range_shorter_than is None
    }
}

impl View for GuardrailsOverrides {
    type V = GuardrailsOverridesV;

    open spec fn view(&self) -> GuardrailsOverridesV {
        GuardrailsOverridesV {
            max_bytes_scanned: view_of(self.max_bytes_scanned),
            max_streams: self.max_streams,
            skip_stats_if_streams_below: self.skip_stats_if_streams_below,
            skip_stats_if_range_shorter_than: view_of(self.skip_stats_if_range_shorter_than),
        }
    }
}

/// The value of [`RateLimitOverrides`].
pub struct RateLimitOverridesV {
    pub enabled: Option<bool>,
    pub rps: Option<Seq<char>>,
    pub burst: Option<u32>,
}

impl RateLimitOverridesV {
    /// Nothing is set.
    pub open spec fn blank(self) -> bool {
        self.enabled is None && self.rps is None && self.burst is None
    }
}

impl View for RateLimitOverrides {
    type V = RateLimitOverridesV;

    open spec fn view(&self) -> RateLimitOverridesV {
        RateLimitOverridesV {
            enabled: self.enabled,
            rps: view_of(self.rps),
            burst: self.burst,
        }
    }
}

/// The value of [`MetricsOverrides`].
pub struct MetricsOverridesV {
    pub prefix: Option<Seq<char>>,
}

impl MetricsOverridesV {
    /// Nothing is set.
    pub open spec fn blank(self) -> bool {
        self.prefix is None
    }
}

impl View for MetricsOverrides {
    type V = MetricsOverridesV;

    open spec fn view(&self) -> MetricsOverridesV {
        MetricsOverridesV {
            prefix: view_of(self.prefix),
        }
    }
}

/// The value of [`RecentActionsOverrides`].
pub struct RecentActionsOverridesV {
    pub enabled: Option<bool>,
    pub max_entries: Option<u64>,
    pub ttl: Option<Seq<char>>,
    pub store_query_text: Option<bool>,
    pub store_error_text: Option<bool>,
}

impl RecentActionsOverridesV {
    /// Nothing is set.
    pub open spec fn blank(self) -> bool {
        self.enabled is None
            && self.max_entries is None
            && self.ttl is None
            && self.store_query_text is None
            && self.store_error_text is None
    }
}

impl View for RecentActionsOverrides {
    type V = RecentActionsOverridesV;

    open spec fn view(&self) -> RecentActionsOverridesV {
        RecentActionsOverridesV {
            enabled: self.enabled,
            max_entries: self.max_entries,
            ttl: view_of(self.ttl),
            store_query_text: self.store_query_text,
            store_error_text: self.store_error_text,
        }
    }
}

/// The value of [`ConfigOverrides`].
pub struct ConfigOverridesV {
    pub server: Option<ServerOverridesV>,
    pub loki: Option<LokiOverridesV>,
    pub cache: Option<CacheOverridesV>,
    pub guardrails: Option<GuardrailsOverridesV>,
    pub rate_limit: Option<RateLimitOverridesV>,
    pub metrics: Option<MetricsOverridesV>,
    pub recent_actions: Option<RecentActionsOverridesV>,
}

/// The value of a group that may be left out.
pub open spec fn group_view<T: View>(group: Option<T>) -> Option<T::V> {
    match group {
        Some(g) => Some(g@),
        None => None,
    }
}

impl View for ConfigOverrides {
    type V = ConfigOverridesV;

    open spec fn view(&self) -> ConfigOverridesV {
        ConfigOverridesV {
            server: group_view(self.server),
            loki: group_view(self.loki),
            cache: group_view(self.cache),
            guardrails: group_view(self.guardrails),
            rate_limit: group_view(self.rate_limit),
            metrics: group_view(self.metrics),
            recent_actions: group_view(self.recent_actions),
        }
    }
}

/// The group, unless it is blank.
pub open spec fn kept<T>(blank: bool, group: T) -> Option<T> {
    if blank {
        None
    } else {
        Some(group)
    }
}

/// The overrides that the command line gives: each text tidied, each
/// group left out in which nothing is set.
pub open spec fn cli_overrides(cli: &Cli) -> ConfigOverridesV {
    let server = ServerOverridesV {
        listen: tidy(view_of(cli.listen)),
        timezone: tidy(view_of(cli.timezone)),
        log_level: tidy(view_of(cli.log_level)),
        identity_header: tidy(view_of(cli.identity_header)),
    };
    let loki = LokiOverridesV {
        url: tidy(view_of(cli.loki_url)),
        tenant_id: tidy(view_of(cli.loki_tenant_id)),
        auth_type: tidy(view_of(cli.loki_auth_type)),
        username: tidy(view_of(cli.loki_username)),
        password: tidy(view_of(cli.loki_password)),
        token: tidy(view_of(cli.loki_token)),
        ca_cert: tidy(view_of(cli.loki_ca_cert)),
        timeout: tidy(view_of(cli.loki_timeout)),
    };
    let cache = CacheOverridesV {
        enabled: cli.cache_enabled,
        ttl: tidy(view_of(cli.cache_ttl)),
        skip_if_range_shorter_than: tidy(view_of(cli.cache_skip_if_range_shorter_than)),
        max_entries: cli.cache_max_entries,
    };
    let guardrails = GuardrailsOverridesV {
        max_bytes_scanned: tidy(view_of(cli.guardrails_max_bytes_scanned)),
        max_streams: cli.guardrails_max_streams,
        skip_stats_if_streams_below: cli.guardrails_skip_stats_if_streams_below,
        skip_stats_if_range_shorter_than: tidy(view_of(cli.guardrails_skip_stats_if_range_shorter_than)),
    };
    let rate_limit = RateLimitOverridesV {
        enabled: cli.rate_limit_enabled,
        rps: tidy(view_of(cli.rate_limit_rps)),
        burst: cli.rate_limit_burst,
    };
    let metrics = MetricsOverridesV {
        prefix: tidy(view_of(cli.metrics_prefix)),
    };
    let recent_actions = RecentActionsOverridesV {
        enabled: cli.recent_actions_enabled,
        max_entries: cli.recent_actions_max_entries,
        ttl: tidy(view_of(cli.recent_actions_ttl)),
        store_query_text: cli.recent_actions_store_query_text,
        store_error_text: cli.recent_actions_store_error_text,
    };
    ConfigOverridesV {
        server: kept(server.blank(), server),
        loki: kept(loki.blank(), loki),
        cache: kept(cache.blank(), cache),
        guardrails: kept(guardrails.blank(), guardrails),
        rate_limit: kept(rate_limit.blank(), rate_limit),
        metrics: kept(metrics.blank(), metrics),
        recent_actions: kept(recent_actions.blank(), recent_actions),
    }
}

impl ConfigOverrides {
    /// The overrides that the command line gives: each text tidied.
    pub fn from_cli(cli: &Cli) -> (r: Self)
        ensures
            r@ == cli_overrides(cli),
    {
        let server = ServerOverrides {
            listen: tidy_copy(&cli.listen),
            timezone: tidy_copy(&cli.timezone),
            log_level: tidy_copy(&cli.log_level),
            identity_header: tidy_copy(&cli.identity_header),
        };
        let loki = LokiOverrides {
            url: tidy_copy(&cli.loki_url),
            tenant_id: tidy_copy(&cli.loki_tenant_id),
            auth_type: tidy_copy(&cli.loki_auth_type),
            username: tidy_copy(&cli.loki_username),
            password: tidy_copy(&cli.loki_password),
            token: tidy_copy(&cli.loki_token),
            ca_cert: tidy_copy(&cli.loki_ca_cert),
            timeout: tidy_copy(&cli.loki_timeout),
        };
        let cache = CacheOverrides {
            enabled: cli.cache_enabled,
            ttl: tidy_copy(&cli.cache_ttl),
            skip_if_range_shorter_than: tidy_copy(&cli.cache_skip_if_range_shorter_than),
            max_entries: cli.cache_max_entries,
        };
        let guardrails = GuardrailsOverrides {
            max_bytes_scanned: tidy_copy(&cli.guardrails_max_bytes_scanned),
            max_streams: cli.guardrails_max_streams,
            skip_stats_if_streams_below: cli.guardrails_skip_stats_if_streams_below,
            skip_stats_if_range_shorter_than: tidy_copy(
                &cli.guardrails_skip_stats_if_range_shorter_than,
            ),
        };
        let rate_limit = RateLimitOverrides {
            enabled: cli.rate_limit_enabled,
            rps: tidy_copy(&cli.rate_limit_rps),
            burst: cli.rate_limit_burst,
        };
        let metrics = MetricsOverrides { prefix: tidy_copy(&cli.metrics_prefix) };
        let recent_actions = RecentActionsOverrides {
            enabled: cli.recent_actions_enabled,
            max_entries: cli.recent_actions_max_entries,
            ttl: tidy_copy(&cli.recent_actions_ttl),
            store_query_text: cli.recent_actions_store_query_text,
            store_error_text: cli.recent_actions_store_error_text,
        };
        ConfigOverrides {
            server: option_if_not_empty(server),
            loki: option_if_not_empty(loki),
            cache: option_if_not_empty(cache),
            guardrails: option_if_not_empty(guardrails),
            rate_limit: option_if_not_empty(rate_limit),
            metrics: option_if_not_empty(metrics),
            recent_actions: option_if_not_empty(recent_actions),
        }
    }
}

/// A number that fits as one of 32 bits.
pub open spec fn narrowed(n: Option<u64>) -> Option<u32> {
    match n {
        Some(v) => Some(v as u32),
        None => None,
    }
}

/// What the environment says of the group `server`.
pub open spec fn env_server(vars: Named<Seq<char>>) -> ServerOverridesV {
    ServerOverridesV {
        listen: env_text(vars, "LOKI_MCP_LISTEN"@),
        timezone: env_text(vars, "LOKI_MCP_TIMEZONE"@),
        log_level: env_text(vars, "LOKI_MCP_LOG_LEVEL"@),
        identity_header: env_text(vars, "LOKI_MCP_IDENTITY_HEADER"@),
    }
}

fn read_env_server(vars: &Vec<(String, String)>) -> (r: ServerOverrides)
    ensures
        r@ == env_server(named_view(vars@)),
{
    ServerOverrides {
        listen: env_string(vars, "LOKI_MCP_LISTEN"),
        timezone: env_string(vars, "LOKI_MCP_TIMEZONE"),
        log_level: env_string(vars, "LOKI_MCP_LOG_LEVEL"),
        identity_header: env_string(vars, "LOKI_MCP_IDENTITY_HEADER"),
    }
}

/// What the environment says of the group `loki`.
pub open spec fn env_loki(vars: Named<Seq<char>>) -> LokiOverridesV {
    LokiOverridesV {
        url: env_text(vars, "LOKI_MCP_LOKI_URL"@),
        tenant_id: env_text(vars, "LOKI_MCP_LOKI_TENANT_ID"@),
        auth_type: env_text(vars, "LOKI_MCP_LOKI_AUTH_TYPE"@),
        username: env_text(vars, "LOKI_MCP_LOKI_USERNAME"@),
        password: env_text(vars, "LOKI_MCP_LOKI_PASSWORD"@),
        token: env_text(vars, "LOKI_MCP_LOKI_TOKEN"@),
        ca_cert: env_text(vars, "LOKI_MCP_LOKI_CA_CERT"@),
        timeout: env_text(vars, "LOKI_MCP_LOKI_TIMEOUT"@),
    }
}

fn read_env_loki(vars: &Vec<(String, String)>) -> (r: LokiOverrides)
    ensures
        r@ == env_loki(named_view(vars@)),
{
    LokiOverrides {
        url: env_string(vars, "LOKI_MCP_LOKI_URL"),
        tenant_id: env_string(vars, "LOKI_MCP_LOKI_TENANT_ID"),
        auth_type: env_string(vars, "LOKI_MCP_LOKI_AUTH_TYPE"),
        username: env_string(vars, "LOKI_MCP_LOKI_USERNAME"),
        password: env_string(vars, "LOKI_MCP_LOKI_PASSWORD"),
        token: env_string(vars, "LOKI_MCP_LOKI_TOKEN"),
        ca_cert: env_string(vars, "LOKI_MCP_LOKI_CA_CERT"),
        timeout: env_string(vars, "LOKI_MCP_LOKI_TIMEOUT"),
    }
}

/// What the environment says of the group `cache`, or the first of its
/// variables that does not state what it should.
pub open spec fn env_cache(vars: Named<Seq<char>>) -> Result<CacheOverridesV, ConfigFailure> {
    if env_bool_of(vars, "LOKI_MCP_CACHE_ENABLED"@) is Err {
        Err(env_bool_of(vars, "LOKI_MCP_CACHE_ENABLED"@)->Err_0)
    } else if env_number_of(vars, "LOKI_MCP_CACHE_MAX_ENTRIES"@, u64::MAX) is Err {
        Err(env_number_of(vars, "LOKI_MCP_CACHE_MAX_ENTRIES"@, u64::MAX)->Err_0)
    } else {
        Ok(
            CacheOverridesV {
                enabled: env_bool_of(vars, "LOKI_MCP_CACHE_ENABLED"@)->Ok_0,
                ttl: env_text(vars, "LOKI_MCP_CACHE_TTL"@),
                skip_if_range_shorter_than: env_text(vars, "LOKI_MCP_CACHE_SKIP_IF_RANGE_SHORTER_THAN"@),
                max_entries: env_number_of(vars, "LOKI_MCP_CACHE_MAX_ENTRIES"@, u64::MAX)->Ok_0,
            },
        )
    }
}

fn read_env_cache(vars: &Vec<(String, String)>) -> (r: Result<CacheOverrides, ConfigError>)
    ensures
        match r {
            Ok(group) => env_cache(named_view(vars@)) == Ok::<_, ConfigFailure>(group@),
            Err(e) => env_cache(named_view(vars@)) == Err::<CacheOverridesV, _>(e@),
        },
{
    let enabled = env_parse_bool(vars, "LOKI_MCP_CACHE_ENABLED")?;
    let max_entries = env_parse_u64(vars, "LOKI_MCP_CACHE_MAX_ENTRIES")?;
    Ok(
        CacheOverrides {
            enabled,
            ttl: env_string(vars, "LOKI_MCP_CACHE_TTL"),
            skip_if_range_shorter_than: env_string(vars, "LOKI_MCP_CACHE_SKIP_IF_RANGE_SHORTER_THAN"),
            max_entries,
        },
    )
}

/// What the environment says of the group `guardrails`, or the first of its
/// variables that does not state what it should.
pub open spec fn env_guardrails(vars: Named<Seq<char>>) -> Result<GuardrailsOverridesV, ConfigFailure> {
    if env_number_of(vars, "LOKI_MCP_GUARDRAILS_MAX_STREAMS"@, u64::MAX) is Err {
        Err(env_number_of(vars, "LOKI_MCP_GUARDRAILS_MAX_STREAMS"@, u64::MAX)->Err_0)
    } else if env_number_of(vars, "LOKI_MCP_GUARDRAILS_SKIP_STATS_IF_STREAMS_BELOW"@, u64::MAX) is Err {
        Err(env_number_of(vars, "LOKI_MCP_GUARDRAILS_SKIP_STATS_IF_STREAMS_BELOW"@, u64::MAX)->Err_0)
    } else {
        Ok(
            GuardrailsOverridesV {
                max_bytes_scanned: env_text(vars, "LOKI_MCP_GUARDRAILS_MAX_BYTES_SCANNED"@),
                max_streams: env_number_of(vars, "LOKI_MCP_GUARDRAILS_MAX_STREAMS"@, u64::MAX)->Ok_0,
                skip_stats_if_streams_below: env_number_of(vars, "LOKI_MCP_GUARDRAILS_SKIP_STATS_IF_STREAMS_BELOW"@, u64::MAX)->Ok_0,
                skip_stats_if_range_shorter_than: env_text(vars, "LOKI_MCP_GUARDRAILS_SKIP_STATS_IF_RANGE_SHORTER_THAN"@),
            },
        )
    }
}

fn read_env_guardrails(vars: &Vec<(String, String)>) -> (r: Result<GuardrailsOverrides, ConfigError>)
    ensures
        match r {
            Ok(group) => env_guardrails(named_view(vars@)) == Ok::<_, ConfigFailure>(group@),
            Err(e) => env_guardrails(named_view(vars@)) == Err::<GuardrailsOverridesV, _>(e@),
        },
{
    let max_streams = env_parse_u64(vars, "LOKI_MCP_GUARDRAILS_MAX_STREAMS")?;
    let skip_stats_if_streams_below = env_parse_u64(vars, "LOKI_MCP_GUARDRAILS_SKIP_STATS_IF_STREAMS_BELOW")?;
    Ok(
        GuardrailsOverrides {
            max_bytes_scanned: env_string(vars, "LOKI_MCP_GUARDRAILS_MAX_BYTES_SCANNED"),
            max_streams,
            skip_stats_if_streams_below,
            skip_stats_if_range_shorter_than: env_string(vars, "LOKI_MCP_GUARDRAILS_SKIP_STATS_IF_RANGE_SHORTER_THAN"),
        },
    )
}

/// What the environment says of the group `rate_limit`, or the first of its
/// variables that does not state what it should.
pub open spec fn env_rate_limit(vars: Named<Seq<char>>) -> Result<RateLimitOverridesV, ConfigFailure> {
    if env_bool_of(vars, "LOKI_MCP_RATE_LIMIT_ENABLED"@) is Err {
        Err(env_bool_of(vars, "LOKI_MCP_RATE_LIMIT_ENABLED"@)->Err_0)
    } else if env_number_of(vars, "LOKI_MCP_RATE_LIMIT_BURST"@, u32::MAX as u64) is Err {
        Err(env_number_of(vars, "LOKI_MCP_RATE_LIMIT_BURST"@, u32::MAX as u64)->Err_0)
    } else {
        Ok(
            RateLimitOverridesV {
                enabled: env_bool_of(vars, "LOKI_MCP_RATE_LIMIT_ENABLED"@)->Ok_0,
                rps: env_text(vars, "LOKI_MCP_RATE_LIMIT_RPS"@),
                burst: narrowed(env_number_of(vars, "LOKI_MCP_RATE_LIMIT_BURST"@, u32::MAX as u64)->Ok_0),
            },
        )
    }
}

fn read_env_rate_limit(vars: &Vec<(String, String)>) -> (r: Result<RateLimitOverrides, ConfigError>)
    ensures
        match r {
            Ok(group) => env_rate_limit(named_view(vars@)) == Ok::<_, ConfigFailure>(group@),
            Err(e) => env_rate_limit(named_view(vars@)) == Err::<RateLimitOverridesV, _>(e@),
        },
{
    let enabled = env_parse_bool(vars, "LOKI_MCP_RATE_LIMIT_ENABLED")?;
    let burst = env_parse_u32(vars, "LOKI_MCP_RATE_LIMIT_BURST")?;
    Ok(
        RateLimitOverrides {
            enabled,
            rps: env_string(vars, "LOKI_MCP_RATE_LIMIT_RPS"),
            burst,
        },
    )
}

/// What the environment says of the group `metrics`.
pub open spec fn env_metrics(vars: Named<Seq<char>>) -> MetricsOverridesV {
    MetricsOverridesV {
        prefix: env_text(vars, "LOKI_MCP_METRICS_PREFIX"@),
    }
}

fn read_env_metrics(vars: &Vec<(String, String)>) -> (r: MetricsOverrides)
    ensures
        r@ == env_metrics(named_view(vars@)),
{
    MetricsOverrides {
        prefix: env_string(vars, "LOKI_MCP_METRICS_PREFIX"),
    }
}

/// What the environment says of the group `recent_actions`, or the first of its
/// variables that does not state what it should.
pub open spec fn env_recent_actions(vars: Named<Seq<char>>) -> Result<RecentActionsOverridesV, ConfigFailure> {
    if env_bool_of(vars, "LOKI_MCP_RECENT_ACTIONS_ENABLED"@) is Err {
        Err(env_bool_of(vars, "LOKI_MCP_RECENT_ACTIONS_ENABLED"@)->Err_0)
    } else if env_number_of(vars, "LOKI_MCP_RECENT_ACTIONS_MAX_ENTRIES"@, u64::MAX) is Err {
        Err(env_number_of(vars, "LOKI_MCP_RECENT_ACTIONS_MAX_ENTRIES"@, u64::MAX)->Err_0)
    } else if env_bool_of(vars, "LOKI_MCP_RECENT_ACTIONS_STORE_QUERY_TEXT"@) is Err {
        Err(env_bool_of(vars, "LOKI_MCP_RECENT_ACTIONS_STORE_QUERY_TEXT"@)->Err_0)
    } else if env_bool_of(vars, "LOKI_MCP_RECENT_ACTIONS_STORE_ERROR_TEXT"@) is Err {
        Err(env_bool_of(vars, "LOKI_MCP_RECENT_ACTIONS_STORE_ERROR_TEXT"@)->Err_0)
    } else {
        Ok(
            RecentActionsOverridesV {
                enabled: env_bool_of(vars, "LOKI_MCP_RECENT_ACTIONS_ENABLED"@)->Ok_0,
                max_entries: env_number_of(vars, "LOKI_MCP_RECENT_ACTIONS_MAX_ENTRIES"@, u64::MAX)->Ok_0,
                ttl: env_text(vars, "LOKI_MCP_RECENT_ACTIONS_TTL"@),
                store_query_text: env_bool_of(vars, "LOKI_MCP_RECENT_ACTIONS_STORE_QUERY_TEXT"@)->Ok_0,
                store_error_text: env_bool_of(vars, "LOKI_MCP_RECENT_ACTIONS_STORE_ERROR_TEXT"@)->Ok_0,
            },
        )
    }
}

fn read_env_recent_actions(vars: &Vec<(String, String)>) -> (r: Result<RecentActionsOverrides, ConfigError>)
    ensures
        match r {
            Ok(group) => env_recent_actions(named_view(vars@)) == Ok::<_, ConfigFailure>(group@),
            Err(e) => env_recent_actions(named_view(vars@)) == Err::<RecentActionsOverridesV, _>(e@),
        },
{
    let enabled = env_parse_bool(vars, "LOKI_MCP_RECENT_ACTIONS_ENABLED")?;
    let max_entries = env_parse_u64(vars, "LOKI_MCP_RECENT_ACTIONS_MAX_ENTRIES")?;
    let store_query_text = env_parse_bool(vars, "LOKI_MCP_RECENT_ACTIONS_STORE_QUERY_TEXT")?;
    let store_error_text = env_parse_bool(vars, "LOKI_MCP_RECENT_ACTIONS_STORE_ERROR_TEXT")?;
    Ok(
        RecentActionsOverrides {
            enabled,
            max_entries,
            ttl: env_string(vars, "LOKI_MCP_RECENT_ACTIONS_TTL"),
            store_query_text,
            store_error_text,
        },
    )
}

/// The overrides that the variables `LOKI_MCP_…` of the environment give,
/// each group left out in which nothing is set; or the first of the
/// variables, in the order cache, guardrails, rate limit, recent actions,
/// that does not state what it should.
pub open spec fn env_overrides(vars: Named<Seq<char>>) -> Result<ConfigOverridesV, ConfigFailure> {
    if env_cache(vars) is Err {
        Err(env_cache(vars)->Err_0)
    } else if env_guardrails(vars) is Err {
        Err(env_guardrails(vars)->Err_0)
    } else if env_rate_limit(vars) is Err {
        Err(env_rate_limit(vars)->Err_0)
    } else if env_recent_actions(vars) is Err {
        Err(env_recent_actions(vars)->Err_0)
    } else {
        Ok(
            ConfigOverridesV {
                server: kept(env_server(vars).blank(), env_server(vars)),
                loki: kept(env_loki(vars).blank(), env_loki(vars)),
                cache: kept(env_cache(vars)->Ok_0.blank(), env_cache(vars)->Ok_0),
                guardrails: kept(env_guardrails(vars)->Ok_0.blank(), env_guardrails(vars)->Ok_0),
                rate_limit: kept(env_rate_limit(vars)->Ok_0.blank(), env_rate_limit(vars)->Ok_0),
                metrics: kept(env_metrics(vars).blank(), env_metrics(vars)),
                recent_actions: kept(env_recent_actions(vars)->Ok_0.blank(), env_recent_actions(vars)->Ok_0),
            },
        )
    }
}


/// The overrides that the variables `LOKI_MCP_…` of the environment give,
/// or the first of them that cannot be read, in the order cache,
/// guardrails, rate limit, recent actions.
pub fn flat_env_overrides_from_map(vars: &Vec<(String, String)>) -> (r: Result<
    ConfigOverrides,
    ConfigError,
>)
    ensures
        match r {
            Ok(overrides) => env_overrides(named_view(vars@)) == Ok::<_, ConfigFailure>(
                overrides@,
            ),
            Err(e) => env_overrides(named_view(vars@)) == Err::<ConfigOverridesV, _>(e@),
        },
{
    let server = read_env_server(vars);
    let loki = read_env_loki(vars);
    let cache = read_env_cache(vars)?;
    let guardrails = read_env_guardrails(vars)?;
    let rate_limit = read_env_rate_limit(vars)?;
    let metrics = read_env_metrics(vars);
    let recent_actions = read_env_recent_actions(vars)?;
    Ok(
        ConfigOverrides {
            server: option_if_not_empty(server),
            loki: option_if_not_empty(loki),
            cache: option_if_not_empty(cache),
            guardrails: option_if_not_empty(guardrails),
            rate_limit: option_if_not_empty(rate_limit),
            metrics: option_if_not_empty(metrics),
            recent_actions: option_if_not_empty(recent_actions),
        },
    )
}

} // verus!
