//! The server side of an invocation: who calls, whether the tool exists,
//! whether the caller is within the rate limit, and the trail and the
//! counters that every invocation leaves behind.

use vstd::prelude::*;
use std::hash::Hasher;
use std::collections::hash_map::DefaultHasher;
use vstd::std_specs::hash::DefaultHasherAdditionalSpecFns;
use vstd::string::StringSliceAdditionalSpecFns;
use crate::cache::found;
use crate::config::{tidy, Config, ConfigError};
use crate::error::ToolError;
use crate::json::{no_members, none, object_of, push_member, Json, JsonV};
use crate::loki::client::BackendRequest;
use crate::metrics::{bump, pair, single, MetricsRegistry, Tallies};
use crate::rate_limit::{denial_words, limit_key, ToolRateLimiter};
use crate::recent_actions::{
    newest, pruned, ActionOutcome, RecentAction, RecentActionInput, RecentActionsStore,
};
use crate::text::{
    chars_of, copy_chars, find_char, hex_digits, index_of, join2, push_hex, string_of, trim,
    trim_chars, trimmed,
};
use crate::time::Instant;
use crate::tools::{fingerprint, guardrail_words, is_guardrail_error, normal_params, ToolRouter};
use crate::tools::call::{CallStage, CallStep, StepV, ToolCall};
use crate::tools::dispatch::{PlanV, RequestV};

verus! {

// ---------------------------------------------------------------------------
// The tools on offer
// ---------------------------------------------------------------------------
/// A tool as it is announced: its name and what it does. Every tool only
/// reads, and asking twice changes nothing.
#[derive(Debug, Clone, Copy)]
pub struct ToolSpec {
    pub name: &'static str,
    pub description: &'static str,
}

pub open spec fn tool_names() -> Seq<Seq<char>> {
    Seq::empty().push("loki_describe_schema"@).push("loki_list_labels"@).push(
        "loki_label_values"@,
    ).push("loki_series"@).push("loki_query_logs"@).push("loki_query_metrics"@).push(
        "loki_build_query"@,
    ).push("loki_tail"@).push("loki_run_saved_query"@).push("loki_query_stats"@).push(
        "loki_detect_patterns"@,
    ).push("loki_compare_ranges"@).push("loki_explain_query"@).push(
        "loki_suggest_metric_rule"@,
    ).push("loki_check_health"@)
}

pub open spec fn names_of(tools: Seq<ToolSpec>) -> Seq<Seq<char>> {
    Seq::new(tools.len(), |i: int| tools[i].name@)
}

fn offer(tools: &mut Vec<ToolSpec>, name: &'static str, description: &'static str)
    ensures
        names_of(final(tools)@) == names_of(old(tools)@).push(name@),
{
    tools.push(ToolSpec { name, description });
    assert(names_of(tools@) =~= names_of(old(tools)@).push(name@));
}

/// The fifteen tools.
pub fn build_tools() -> (r: Vec<ToolSpec>)
    ensures
        names_of(r@) == tool_names(),
        r@.len() == 15,
{
    let mut tools: Vec<ToolSpec> = Vec::new();
    assert(names_of(tools@) =~= Seq::empty());
    offer(
        &mut tools,
        "loki_describe_schema",
        "Return configured label, structured metadata, and saved-query schema briefing.",
    );
    offer(
        &mut tools,
        "loki_list_labels",
        "List label names known to Loki, optionally scoped to a time range.",
    );
    offer(
        &mut tools,
        "loki_label_values",
        "List values for a label, optionally scoped by time and query selector.",
    );
    offer(
        &mut tools,
        "loki_series",
        "List matching series (unique label sets) for one or more LogQL matchers.",
    );
    offer(
        &mut tools,
        "loki_query_logs",
        "Run a LogQL log query with optional time range and result controls.",
    );
    offer(
        &mut tools,
        "loki_query_metrics",
        "Run a LogQL metric query and return numeric series data.",
    );
    offer(
        &mut tools,
        "loki_build_query",
        "Build LogQL from structured filters, then execute and return results.",
    );
    offer(&mut tools, "loki_tail", "Fetch the latest log lines for a required label set.");
    offer(
        &mut tools,
        "loki_run_saved_query",
        "Run a configured saved query by name with optional range override.",
    );
    offer(
        &mut tools,
        "loki_query_stats",
        "Return Loki index query statistics for cost estimation.",
    );
    offer(
        &mut tools,
        "loki_detect_patterns",
        "Detect recurring patterns from logs matching a query in a time range.",
    );
    offer(
        &mut tools,
        "loki_compare_ranges",
        "Compare line volumes for a query across two explicit ranges.",
    );
    offer(
        &mut tools,
        "loki_explain_query",
        "Explain key parts of a LogQL query (selector, stages, aggregation).",
    );
    offer(
        &mut tools,
        "loki_suggest_metric_rule",
        "Generate a recording or alerting rule from a LogQL query.",
    );
    offer(
        &mut tools,
        "loki_check_health",
        "Check Loki readiness/build/ring health status through the configured endpoint.",
    );
    assert(names_of(tools@).len() == 15);
    tools
}

// ---------------------------------------------------------------------------
// Who calls
// ---------------------------------------------------------------------------
/// What the transport knows of a request.
#[derive(Debug)]
pub struct RequestInfo {
    /// The request came over HTTP, so that it has headers at all.
    pub has_headers: bool,
    /// The value of the header that the configuration names for the
    /// identity, where one is named and the request bears it.
    pub identity_header: Option<String>,
    /// The value of `X-Forwarded-For`.
    pub forwarded_for: Option<String>,
    /// The value of `X-Request-Id`.
    pub request_id: Option<String>,
    /// The address of the peer.
    pub peer_ip: Option<String>,
}

pub open spec fn view_of(value: Option<String>) -> Option<Seq<char>> {
    match value {
        Some(s) => Some(s@),
        None => None,
    }
}

/// The value of a header: trimmed, and none where nothing is left.
pub fn header_value(raw: &Option<String>) -> (r: Option<String>)
    ensures
        view_of(r) == tidy(view_of(*raw)),
{
    match raw {
        Some(text) => {
            let t = trim(text.as_str());
            if t.as_str().is_empty() {
                None
            } else {
                Some(t)
            }
        },
        None => None,
    }
}

/// The first hop of a forwarding chain: what stands before the first
/// comma, trimmed.
pub open spec fn first_hop(chain: Seq<char>) -> Seq<char> {
    trimmed(chain.take(index_of(chain, ',')))
}

/// Who calls: the identity header, else the first hop that the request
/// was forwarded for, else the peer, else `unknown`.
pub open spec fn identity_of(request: &RequestInfo) -> Seq<char> {
    if !request.has_headers {
        "unknown"@
    } else if tidy(view_of(request.identity_header)) is Some {
        tidy(view_of(request.identity_header))->0
    } else if tidy(view_of(request.forwarded_for)) is Some && first_hop(
        tidy(view_of(request.forwarded_for))->0,
    ).len() > 0 {
        first_hop(tidy(view_of(request.forwarded_for))->0)
    } else if request.peer_ip is Some {
        request.peer_ip->0@
    } else {
        "unknown"@
    }
}

pub fn resolve_identity(request: &RequestInfo) -> (r: String)
    ensures
        r@ == identity_of(request),
{
    if !request.has_headers {
        return "unknown".to_owned();
    }
    if let Some(identity) = header_value(&request.identity_header) {
        return identity;
    }
    if let Some(chain) = header_value(&request.forwarded_for) {
        let chars = chars_of(chain.as_str());
        let comma = find_char(&chars, ',');
        let head = copy_chars(&chars, 0, comma);
        assert(chars@.subrange(0, comma as int) == chars@.take(comma as int));
        let hop = trim_chars(&head);
        if hop.len() > 0 {
            return string_of(&hop);
        }
    }
    match &request.peer_ip {
        Some(ip) => ip.clone(),
        None => "unknown".to_owned(),
    }
}

pub fn resolve_request_id(request: &RequestInfo) -> (r: Option<String>)
    ensures
        view_of(r) == (if request.has_headers {
            tidy(view_of(request.request_id))
        } else {
            None
        }),
{
    if !request.has_headers {
        return None;
    }
    header_value(&request.request_id)
}

/// The number that the standard hasher makes of a text: of its bytes and
/// the byte `0xFF` behind them.
pub open spec fn digest_of(text: Seq<char>) -> u64 {
    DefaultHasher::spec_finish(
        Seq::<Seq<u8>>::empty().push(vstd::utf8::encode_utf8(text)).push(
            Seq::<u8>::empty().push(0xFFu8),
        ),
    )
}

/// The hash of an identity: sixteen hexadecimal digits in lower case.
pub open spec fn identity_hash_of(value: Seq<char>) -> Seq<char> {
    hex_digits(digest_of(value) as nat, 16)
}

pub fn hash_string(value: &str) -> (r: String)
    ensures
        r@ == identity_hash_of(value@),
{
    let mut hasher = DefaultHasher::new();
    hasher.write(value.as_bytes());
    let mut mark: Vec<u8> = Vec::new();
    mark.push(0xFFu8);
    assert(mark@ =~= Seq::<u8>::empty().push(0xFFu8));
    hasher.write(mark.as_slice());
    let digest = hasher.finish();
    let mut r = String::new();
    push_hex(&mut r, digest, 16);
    assert(Seq::<char>::empty() + hex_digits(digest as nat, 16) == hex_digits(digest as nat, 16));
    r
}

/// The milliseconds from `started` to `now`: none where `now` is earlier,
/// and the largest number where there are more.
pub open spec fn millis_between(started: Instant, now: Instant) -> u64 {
    if now.at() <= started.at() {
        0
    } else if (now.at() - started.at()) / 1_000_000 > u64::MAX {
        u64::MAX
    } else {
        ((now.at() - started.at()) / 1_000_000) as u64
    }
}

pub fn elapsed_millis(started: Instant, now: Instant) -> (r: u64)
    requires
        started.wf(),
        now.wf(),
    ensures
        r == millis_between(started, now),
{
    match now.since(&started) {
        Some(span) => {
            let total: u128 = (span.secs as u128) * 1000 + (span.nanos / 1_000_000) as u128;
            assert(total == (now.at() - started.at()) / 1_000_000) by {
                assert(span.total() == now.at() - started.at());
                assert(span.total() == span.secs * 1_000_000_000 + span.nanos);
            }
            if total > 0xFFFF_FFFF_FFFF_FFFF {
                0xFFFF_FFFF_FFFF_FFFF
            } else {
                total as u64
            }
        },
        None => 0,
    }
}

/// The query that the arguments name, where they name one as a text.
pub open spec fn query_text_of(arguments: JsonV) -> Option<Seq<char>> {
    match arguments.member("query"@) {
        Some(JsonV::Text(q)) => Some(q),
        _ => None,
    }
}

pub fn extract_query_text(arguments: &Json) -> (r: Option<String>)
    ensures
        view_of(r) == query_text_of(arguments@),
{
    match arguments.get("query") {
        Some(Json::Text(q)) => Some(q.clone()),
        _ => None,
    }
}

/// How a failure is filed: as a refusal of the cost check where its
/// message says `guardrail`, in either case; else as a failure of the
/// tool.
pub open spec fn class_of(message: Seq<char>) -> (ActionOutcome, Seq<char>) {
    if guardrail_words(message) {
        (ActionOutcome::GuardrailReject, "guardrail"@)
    } else {
        (ActionOutcome::Error, "tool_error"@)
    }
}

pub fn classify_error(message: &str) -> (r: (ActionOutcome, String))
    ensures
        r.0 == class_of(message@).0,
        r.1@ == class_of(message@).1,
{
    if is_guardrail_error(message) {
        (ActionOutcome::GuardrailReject, "guardrail".to_owned())
    } else {
        (ActionOutcome::Error, "tool_error".to_owned())
    }
}

// ---------------------------------------------------------------------------
// The server
// ---------------------------------------------------------------------------
/// What goes back to the caller.
#[derive(Debug)]
pub enum Reply {
    /// The result of the tool.
    Structured(Json),
    /// A failure as a result: the message, the tool, and for a denial by
    /// the rate limit the caller.
    StructuredError(Json),
    /// A failure of the protocol: there is no such tool.
    InvalidParams(String),
}

pub enum ReplyV {
    Structured(JsonV),
    StructuredError(JsonV),
    InvalidParams(Seq<char>),
}

impl View for Reply {
    type V = ReplyV;

    open spec fn view(&self) -> ReplyV {
        match self {
            Reply::Structured(v) => ReplyV::Structured(v@),
            Reply::StructuredError(v) => ReplyV::StructuredError(v@),
            Reply::InvalidParams(m) => ReplyV::InvalidParams(m@),
        }
    }
}

/// What the server wants next: something of the backend, or the reply.
#[derive(Debug)]
pub enum ServerStep {
    AskStats(BackendRequest),
    AskRuntimeStats(BackendRequest),
    Ask(Vec<BackendRequest>),
    Health,
    Reply(Reply),
}

/// One invocation as the server follows it.
pub struct Invocation {
    pub tool: String,
    pub identity: String,
    pub identity_hash: String,
    pub request_id: Option<String>,
    pub query_text: Option<String>,
    pub started: Instant,
    pub call: Option<ToolCall>,
}

pub struct LokiMcpServer {
    pub tool_router: ToolRouter,
    pub tools: Vec<ToolSpec>,
    pub rate_limiter: Option<ToolRateLimiter>,
    pub identity_header: Option<String>,
    pub tenant_id: Option<String>,
    pub recent_actions: Option<RecentActionsStore>,
}

/// The failure of a tool as a result.
pub open spec fn error_json(message: Seq<char>, tool: Seq<char>) -> JsonV {
    JsonV::Object(none().push(("error"@, JsonV::Text(message))).push(("tool"@, JsonV::Text(tool))))
}

/// The denial by the rate limit as a result.
pub open spec fn denial_json(message: Seq<char>, tool: Seq<char>, identity: Seq<char>) -> JsonV {
    JsonV::Object(
        none().push(("error"@, JsonV::Text(message))).push(("tool"@, JsonV::Text(tool))).push(
            ("identity"@, JsonV::Text(identity)),
        ),
    )
}

/// The reply to an invocation that a tool has ended.
pub open spec fn reply_for(tool: Seq<char>, result: Result<JsonV, Seq<char>>) -> ReplyV {
    match result {
        Ok(v) => ReplyV::Structured(v),
        Err(m) => ReplyV::StructuredError(error_json(m, tool)),
    }
}

/// How an invocation that a tool has ended is filed.
pub open spec fn outcome_for(result: Result<JsonV, Seq<char>>) -> ActionOutcome {
    match result {
        Ok(_) => ActionOutcome::Success,
        Err(m) => class_of(m).0,
    }
}

/// The word under which an invocation that a tool has ended is counted.
pub open spec fn counted_as(result: Result<JsonV, Seq<char>>) -> Seq<char> {
    match result {
        Ok(_) => "success"@,
        Err(_) => "error"@,
    }
}

/// The entry says this of an invocation.
pub open spec fn files(
    entry: RecentAction,
    invocation: &Invocation,
    tenant_id: Option<String>,
    outcome: ActionOutcome,
    now: Instant,
) -> bool {
    &&& entry.timestamp == now
    &&& entry.tool@ == invocation.tool@
    &&& entry.outcome == outcome
    &&& entry.identity_hash@ == invocation.identity_hash@
    &&& view_of(entry.request_id) == view_of(invocation.request_id)
    &&& view_of(entry.tenant_id) == view_of(tenant_id)
    &&& entry.duration_ms == millis_between(invocation.started, now)
}

fn copy_optional(text: &Option<String>) -> (r: Option<String>)
    ensures
        r == *text,
{
    match text {
        Some(s) => Some(s.clone()),
        None => None,
    }
}

/// The tallies with one more invocation of the tool under an outcome.
pub open spec fn called(tallies: Tallies, tool: Seq<char>, outcome: Seq<char>) -> Tallies {
    Tallies { tool_calls: bump(tallies.tool_calls, pair(tool, outcome)), ..tallies }
}

/// The tallies with one more denial by the rate limit for the tool.
pub open spec fn limited(tallies: Tallies, tool: Seq<char>) -> Tallies {
    Tallies { rate_limited: bump(tallies.rate_limited, single(tool)), ..tallies }
}

/// The tallies after a step of the router has been followed: where the
/// tool has ended, the invocation is counted under how it ended.
pub open spec fn followed(tallies: Tallies, tool: Seq<char>, step: StepV) -> Tallies {
    match step {
        StepV::Return(result) => called(tallies, tool, counted_as(result)),
        _ => tallies,
    }
}

/// The counters have gone from `before` to the tallies `after`; where
/// there are no counters there are none afterwards.
pub open spec fn tallied(
    before: Option<MetricsRegistry>,
    after: Option<MetricsRegistry>,
    expected: spec_fn(Tallies) -> Tallies,
) -> bool {
    match (before, after) {
        (Some(b), Some(a)) => a@ == expected(b@),
        (None, None) => true,
        _ => false,
    }
}

/// The trail after an invocation has ended: its entry is the newest, and
/// says how it ended.
pub open spec fn filed(
    before: Option<RecentActionsStore>,
    after: Option<RecentActionsStore>,
    invocation: &Invocation,
    tenant_id: Option<String>,
    outcome: ActionOutcome,
    error_class: Option<Seq<char>>,
    error: Option<Seq<char>>,
    now: Instant,
) -> bool {
    match (before, after) {
        (Some(b), Some(a)) => {
            &&& a.entries@.len() >= 1
            &&& a.entries@.drop_last() == newest(
                pruned(b.entries@, now, b.ttl),
                b.max_entries - 1,
            )
            &&& files(a.entries@.last(), invocation, tenant_id, outcome, now)
            &&& view_of(a.entries@.last().error_class) == error_class
            &&& view_of(a.entries@.last().query) == (if b.store_query_text {
                view_of(invocation.query_text)
            } else {
                None
            })
            &&& a.entries@.last().query_redacted == (invocation.query_text is Some
                && !b.store_query_text)
            &&& view_of(a.entries@.last().error) == (if b.store_error_text {
                error
            } else {
                None
            })
            &&& a.max_entries == b.max_entries
            &&& a.ttl == b.ttl
            &&& a.store_query_text == b.store_query_text
            &&& a.store_error_text == b.store_error_text
        },
        (None, None) => true,
        _ => false,
    }
}

/// The class under which the end of an invocation is filed: none for a
/// result.
pub open spec fn class_for(result: Result<JsonV, Seq<char>>) -> Option<Seq<char>> {
    match result {
        Ok(_) => None,
        Err(m) => Some(class_of(m).1),
    }
}

/// The message that is filed with the end of an invocation: none for a
/// result.
pub open spec fn error_for(result: Result<JsonV, Seq<char>>) -> Option<Seq<char>> {
    match result {
        Ok(_) => None,
        Err(m) => Some(m),
    }
}

/// The trail after a step of the router has been followed: where the tool
/// has ended the invocation is filed, else the trail is as it was.
pub open spec fn trail_followed(
    before: Option<RecentActionsStore>,
    after: Option<RecentActionsStore>,
    invocation: &Invocation,
    tenant_id: Option<String>,
    step: StepV,
    now: Instant,
) -> bool {
    match step {
        StepV::Return(result) => filed(
            before,
            after,
            invocation,
            tenant_id,
            outcome_for(result),
            class_for(result),
            error_for(result),
            now,
        ),
        _ => after == before,
    }
}

/// The key under which the rate limit counts a caller of a tool: the
/// tool, who calls, and the tenant of the configuration or
/// `default_tenant`.
pub open spec fn caller_key(
    tool_name: Seq<char>,
    request: &RequestInfo,
    tenant_id: Option<String>,
) -> Seq<char> {
    limit_key(
        tool_name,
        identity_of(request),
        match tenant_id {
            Some(t) => t@,
            None => "default_tenant"@,
        },
    )
}

/// The limiter after it has been asked under a key: it keeps the key,
/// and what it keeps under every other key is as it was.
pub open spec fn asked_under(
    before: Map<Seq<char>, u64>,
    after: Map<Seq<char>, u64>,
    key: Seq<char>,
) -> bool {
    after.contains_key(key) && after.remove(key) == before.remove(key)
}

impl LokiMcpServer {
    /// What holds once the router has begun an invocation of `tool` with
    /// the arguments `args`: the call is the one the router began; the step
    /// is the result from the cache, or else what the first step of the
    /// router leads to; the counters, the cache and the trail are as the
    /// router and the end of the invocation leave them.
    pub open spec fn router_began(
        before: LokiMcpServer,
        after: LokiMcpServer,
        invocation: Invocation,
        step: ServerStepV,
        tool: Seq<char>,
        args: JsonV,
        now: Instant,
    ) -> bool {
        let call = invocation.call->0;
        let begun = begun_step(&before.tool_router, &call, step, now);
        &&& invocation.call is Some
        &&& call.tool@ == tool
        &&& call.params@ == args
        &&& call.use_cache == before.tool_router.cache_wanted(tool, args, now)
        &&& !call.cached ==> step == served(before.tool_router.first_step(tool, args, now), tool)
        &&& call.cached ==> step is Reply && step->Reply_0 is Structured && found(
            before.tool_router.cache->0@,
            fingerprint(tool, args),
            Some(step->Reply_0->Structured_0),
        )
        &&& tallied(
            before.tool_router.metrics,
            after.tool_router.metrics,
            |t: Tallies|
                followed(
                    ToolRouter::begun(
                        t,
                        tool,
                        call.use_cache,
                        call.cached,
                        before.tool_router.first_refusal(tool, args, now),
                    ),
                    tool,
                    begun,
                ),
        )
        &&& ToolRouter::stored_after(
            before.tool_router.cache,
            after.tool_router.cache,
            &call,
            begun,
        )
        &&& trail_followed(
            before.recent_actions,
            after.recent_actions,
            &invocation,
            before.tenant_id,
            begun,
            now,
        )
        &&& step is AskStats ==> call.stage == CallStage::Checking && call.run is Some
            && before.tool_router.run_begun(call.run->0, tool, args, now)
        &&& step is Ask ==> call.stage == CallStage::Asking && call.finish is Some && Ok::<
            PlanV,
            Seq<char>,
        >(PlanV::Ask(step->Ask_0, call.finish->0@)) == before.tool_router.planned(tool, args, now)
        &&& !(step is AskRuntimeStats)
    }

    pub open spec fn wf(&self) -> bool {
        &&& self.tool_router.wf()
        &&& self.recent_actions is Some ==> self.recent_actions->0.wf()
    }

    /// The server for a configuration: the rate limit where it is switched
    /// on, the fifteen tools, the counters handed to the router.
    pub fn new(
        config: Config,
        metrics: MetricsRegistry,
        recent_actions: Option<RecentActionsStore>,
    ) -> (r: Result<Self, ConfigError>)
        requires
            metrics.wf(),
            recent_actions is Some ==> recent_actions->0.wf(),
        ensures
            r is Ok == crate::tools::router_fault(&config) is None,
            r is Err ==> Some(r->Err_0@) == crate::tools::router_fault(&config),
            r is Ok ==> r->Ok_0.wf() && r->Ok_0.tool_router.metrics == Some(metrics)
                && r->Ok_0.recent_actions == recent_actions && (r->Ok_0.rate_limiter is Some) == (
            config.rate_limit.enabled && config.rate_limit.rps > 0 && config.rate_limit.burst > 0)
                && r->Ok_0.identity_header == config.server.identity_header && r->Ok_0.tenant_id
                == config.loki.tenant_id,
            r is Ok ==> names_of(r->Ok_0.tools@) == tool_names() && r->Ok_0.tools@.len() == 15,
            r is Ok && r->Ok_0.rate_limiter is Some ==> r->Ok_0.rate_limiter->0@
                == crate::rate_limit::nobody_admitted(),
            r is Ok ==> r->Ok_0.tool_router.config == config,
    {
        let rate_limiter = if config.rate_limit.enabled {
            ToolRateLimiter::new(config.rate_limit.rps, config.rate_limit.burst)
        } else {
            None
        };
        let identity_header = copy_optional(&config.server.identity_header);
        let tenant_id = copy_optional(&config.loki.tenant_id);
        let tool_router = ToolRouter::new_with_metrics(config, Some(metrics))?;
        Ok(
            LokiMcpServer {
                tool_router,
                tools: build_tools(),
                rate_limiter,
                identity_header,
                tenant_id,
                recent_actions,
            },
        )
    }

    /// The first tool of that name, where there is one.
    pub fn get_tool(&self, name: &str) -> (r: Option<ToolSpec>)
        ensures
            r is Some == names_of(self.tools@).contains(name@),
            r is Some ==> exists|i: int|
                0 <= i < self.tools@.len() && r->0 == self.tools@[i] && self.tools@[i].name@
                    == name@ && forall|k: int| 0 <= k < i ==> names_of(self.tools@)[k] != name@,
    {
        let mut i: usize = 0;
        while i < self.tools.len()
            invariant
                i <= self.tools.len(),
                forall|k: int| 0 <= k < i ==> names_of(self.tools@)[k] != name@,
            decreases self.tools.len() - i,
        {
            if crate::text::same_text(self.tools[i].name, name) {
                assert(names_of(self.tools@)[i as int] == name@);
                let found = self.tools[i];
                assert(found == self.tools@[i as int] && self.tools@[i as int].name@ == name@);
                return Some(found);
            }
            i = i + 1;
        }
        None
    }

    /// Counts the invocation and files it in the trail.
    pub fn record_action(
        &mut self,
        invocation: &Invocation,
        outcome: ActionOutcome,
        counted: &str,
        error_class: Option<String>,
        error: Option<String>,
        now: Instant,
    )
        requires
            old(self).wf(),
            now.wf(),
            invocation.started.wf(),
        ensures
            final(self).wf(),
            final(self).tool_router.config == old(self).tool_router.config,
            final(self).tool_router.timezone == old(self).tool_router.timezone,
            final(self).tool_router.cache == old(self).tool_router.cache,
            final(self).tool_router.guardrails == old(self).tool_router.guardrails,
            final(self).tool_router.cache_skip_if_range_shorter_than == old(self).tool_router.cache_skip_if_range_shorter_than,
            final(self).rate_limiter == old(self).rate_limiter,
            final(self).tenant_id == old(self).tenant_id,
            final(self).tools == old(self).tools,
            final(self).tool_router.metrics is Some == old(self).tool_router.metrics is Some,
            old(self).tool_router.metrics is Some ==> final(self).tool_router.metrics->0@
                == (Tallies {
                tool_calls: bump(
                    old(self).tool_router.metrics->0@.tool_calls,
                    pair(invocation.tool@, counted@),
                ),
                ..old(self).tool_router.metrics->0@
            }),
            filed(
                old(self).recent_actions,
                final(self).recent_actions,
                invocation,
                old(self).tenant_id,
                outcome,
                view_of(error_class),
                view_of(error),
                now,
            ),
    {
        match &mut self.tool_router.metrics {
            Some(metrics) => {
                metrics.inc_tool_call(invocation.tool.as_str(), counted);
            },
            None => {},
        }
        let input = RecentActionInput {
            request_id: copy_optional(&invocation.request_id),
            tool: invocation.tool.clone(),
            outcome,
            duration_ms: elapsed_millis(invocation.started, now),
            identity_hash: invocation.identity_hash.clone(),
            tenant_id: copy_optional(&self.tenant_id),
            query: copy_optional(&invocation.query_text),
            error_class,
            error,
        };
        match &mut self.recent_actions {
            Some(store) => {
                let ghost kept = newest(pruned(store.entries@, now, store.ttl), store.max_entries - 1);
                store.record(now, input);
                assert(store.entries@.drop_last() =~= kept);
            },
            None => {},
        }
    }

    /// Ends an invocation that a tool has ended: counts it, files it, and
    /// makes the reply.
    pub fn close(
        &mut self,
        invocation: &Invocation,
        result: Result<Json, ToolError>,
        now: Instant,
    ) -> (r: Reply)
        requires
            old(self).wf(),
            now.wf(),
            invocation.started.wf(),
        ensures
            final(self).wf(),
            r@ == reply_for(
                invocation.tool@,
                match result {
                    Ok(v) => Ok(v@),
                    Err(e) => Err(e.words()),
                },
            ),
            final(self).rate_limiter == old(self).rate_limiter,
            final(self).tenant_id == old(self).tenant_id,
            final(self).tools == old(self).tools,
            final(self).tool_router.cache == old(self).tool_router.cache,
            tallied(
                old(self).tool_router.metrics,
                final(self).tool_router.metrics,
                |t: Tallies|
                    called(
                        t,
                        invocation.tool@,
                        counted_as(
                            match result {
                                Ok(v) => Ok(v@),
                                Err(e) => Err(e.words()),
                            },
                        ),
                    ),
            ),
            filed(
                old(self).recent_actions,
                final(self).recent_actions,
                invocation,
                old(self).tenant_id,
                outcome_for(
                    match result {
                        Ok(v) => Ok(v@),
                        Err(e) => Err(e.words()),
                    },
                ),
                class_for(
                    match result {
                        Ok(v) => Ok(v@),
                        Err(e) => Err(e.words()),
                    },
                ),
                error_for(
                    match result {
                        Ok(v) => Ok(v@),
                        Err(e) => Err(e.words()),
                    },
                ),
                now,
            ),
    {
        match result {
            Ok(value) => {
                self.record_action(invocation, ActionOutcome::Success, "success", None, None, now);
                Reply::Structured(value)
            },
            Err(e) => {
                let message = e.message();
                let (outcome, error_class) = classify_error(message.as_str());
                self.record_action(
                    invocation,
                    outcome,
                    "error",
                    Some(error_class),
                    Some(message.clone()),
                    now,
                );
                let mut members = no_members();
                push_member(&mut members, "error", Json::Text(message));
                push_member(&mut members, "tool", Json::Text(invocation.tool.clone()));
                Reply::StructuredError(object_of(members))
            },
        }
    }

    /// Follows a step of the router: the reply where the tool has ended.
    pub fn follow(&mut self, invocation: &mut Invocation, step: CallStep, now: Instant) -> (r:
        ServerStep)
        requires
            old(self).wf(),
            now.wf(),
            old(invocation).started.wf(),
        ensures
            final(self).wf(),
            final(invocation).tool == old(invocation).tool,
            final(invocation).started == old(invocation).started,
            final(invocation).identity == old(invocation).identity,
            final(invocation).identity_hash == old(invocation).identity_hash,
            final(invocation).call == old(invocation).call,
            final(invocation).request_id == old(invocation).request_id,
            final(invocation).query_text == old(invocation).query_text,
            final(self).rate_limiter == old(self).rate_limiter,
            final(self).tenant_id == old(self).tenant_id,
            final(self).tools == old(self).tools,
            final(self).tool_router.cache == old(self).tool_router.cache,
            tallied(
                old(self).tool_router.metrics,
                final(self).tool_router.metrics,
                |t: Tallies| followed(t, old(invocation).tool@, step@),
            ),
            trail_followed(
                old(self).recent_actions,
                final(self).recent_actions,
                old(invocation),
                old(self).tenant_id,
                step@,
                now,
            ),
            match step {
                CallStep::AskStats(q) => r == ServerStep::AskStats(q),
                CallStep::AskRuntimeStats(q) => r == ServerStep::AskRuntimeStats(q),
                CallStep::Ask(list) => r == ServerStep::Ask(list),
                CallStep::Health => r == ServerStep::Health,
                CallStep::Return(result) => r is Reply && r->Reply_0@ == reply_for(
                    old(invocation).tool@,
                    match result {
                        Ok(v) => Ok(v@),
                        Err(e) => Err(e.words()),
                    },
                ),
            },
    {
        match step {
            CallStep::AskStats(q) => ServerStep::AskStats(q),
            CallStep::AskRuntimeStats(q) => ServerStep::AskRuntimeStats(q),
            CallStep::Ask(list) => ServerStep::Ask(list),
            CallStep::Health => ServerStep::Health,
            CallStep::Return(result) => ServerStep::Reply(self.close(invocation, result, now)),
        }
    }

    /// Goes on with an invocation of a known tool once the rate limit has
    /// answered. A denial ends the invocation: it is counted, filed and
    /// told in a result that names the tool and the caller, and neither the
    /// cache nor the cost check nor the backend is reached. An admission
    /// lets the router begin.
    pub fn on_rate_limit(
        &mut self,
        invocation: Invocation,
        arguments: Option<Json>,
        answer: Result<(), String>,
        now: Instant,
    ) -> (r: (Invocation, ServerStep))
        requires
            old(self).wf(),
            now.wf(),
            invocation.started.wf(),
            invocation.call is None,
        ensures
            final(self).wf(),
            r.0.tool == invocation.tool,
            r.0.identity == invocation.identity,
            r.0.identity_hash == invocation.identity_hash,
            r.0.request_id == invocation.request_id,
            r.0.query_text == invocation.query_text,
            r.0.started == invocation.started,
            final(self).rate_limiter == old(self).rate_limiter,
            final(self).tenant_id == old(self).tenant_id,
            final(self).tools == old(self).tools,
            r.0.call is Some == answer is Ok,
            answer is Err ==> r.1 is Reply && r.1->Reply_0@ == ReplyV::StructuredError(
                denial_json(answer->Err_0@, invocation.tool@, invocation.identity@),
            ) && final(self).tool_router.cache == old(self).tool_router.cache && tallied(
                old(self).tool_router.metrics,
                final(self).tool_router.metrics,
                |t: Tallies|
                    called(limited(t, invocation.tool@), invocation.tool@, "rate_limited"@),
            ) && filed(
                old(self).recent_actions,
                final(self).recent_actions,
                &r.0,
                old(self).tenant_id,
                ActionOutcome::RateLimited,
                Some("rate_limited"@),
                Some(answer->Err_0@),
                now,
            ),
            answer is Ok ==> Self::router_began(
                *old(self),
                *final(self),
                r.0,
                r.1@,
                invocation.tool@,
                normal_params(given_arguments(arguments)),
                now,
            ),
    {
        let mut invocation = invocation;
        match answer {
            Err(message) => {
                match &mut self.tool_router.metrics {
                    Some(metrics) => {
                        metrics.inc_tool_rate_limited(invocation.tool.as_str());
                    },
                    None => {},
                }
                self.record_action(
                    &invocation,
                    ActionOutcome::RateLimited,
                    "rate_limited",
                    Some("rate_limited".to_owned()),
                    Some(message.clone()),
                    now,
                );
                let mut members = no_members();
                push_member(&mut members, "error", Json::Text(message));
                push_member(&mut members, "tool", Json::Text(invocation.tool.clone()));
                push_member(&mut members, "identity", Json::Text(invocation.identity.clone()));
                (invocation, ServerStep::Reply(Reply::StructuredError(object_of(members))))
            },
            Ok(()) => {
                let arguments = match arguments {
                    Some(a) => a,
                    None => Json::Null,
                };
                let tool = invocation.tool.clone();
                let (call, step) = self.tool_router.call(tool.as_str(), arguments, now);
                invocation.call = Some(call);
                let next = self.follow(&mut invocation, step, now);
                (invocation, next)
            },
        }
    }

    /// Begins an invocation. An unknown tool is counted, filed and refused
    /// as a failure of the protocol. A caller beyond the rate limit is
    /// counted, filed and told so in a result. Else the router begins.
    pub fn call_tool(
        &mut self,
        tool_name: &str,
        arguments: Option<Json>,
        request: &RequestInfo,
        now: Instant,
    ) -> (r: (Invocation, ServerStep))
        requires
            old(self).wf(),
            now.wf(),
        ensures
            final(self).wf(),
            r.0.tool@ == tool_name@,
            r.0.identity@ == identity_of(request),
            r.0.identity_hash@ == identity_hash_of(identity_of(request)),
            r.0.started == now,
            !names_of(old(self).tools@).contains(tool_name@) ==> r.1 is Reply && r.1->Reply_0@
                == ReplyV::InvalidParams("unknown tool: "@ + tool_name@) && r.0.call is None

                    && final(self).rate_limiter == old(self).rate_limiter
                    && final(self).tool_router.cache == old(self).tool_router.cache,
            names_of(old(self).tools@).contains(tool_name@) && old(self).rate_limiter is None
                ==> r.0.call is Some && final(self).rate_limiter is None,
            names_of(old(self).tools@).contains(tool_name@) && old(self).rate_limiter is Some
                ==> final(self).rate_limiter is Some && asked_under(
                old(self).rate_limiter->0@,
                final(self).rate_limiter->0@,
                caller_key(tool_name@, request, old(self).tenant_id),
            ) && (!old(self).rate_limiter->0@.contains_key(
                caller_key(tool_name@, request, old(self).tenant_id),
            ) ==> r.0.call is Some),
            r.1 is AskStats ==> r.0.call is Some && r.0.call->0.stage == CallStage::Checking
                && r.0.call->0.run is Some && old(self).tool_router.run_begun(
                r.0.call->0.run->0,
                tool_name@,
                normal_params(given_arguments(arguments)),
                now,
            ),
            r.1 is Ask ==> r.0.call is Some && r.0.call->0.stage == CallStage::Asking
                && r.0.call->0.finish is Some && Ok::<PlanV, Seq<char>>(
                PlanV::Ask(r.1@->Ask_0, r.0.call->0.finish->0@),
            ) == old(self).tool_router.planned(
                tool_name@,
                normal_params(given_arguments(arguments)),
                now,
            ),
            !(r.1 is AskRuntimeStats),
            view_of(r.0.request_id) == (if request.has_headers {
                tidy(view_of(request.request_id))
            } else {
                None
            }),
            view_of(r.0.query_text) == query_text_of(given_arguments(arguments)),
            final(self).tenant_id == old(self).tenant_id,
            final(self).tools == old(self).tools,
            r.0.call is None && names_of(old(self).tools@).contains(tool_name@) ==> r.1 is Reply
                && (exists|wait: Seq<char>|
                r.1->Reply_0@ == ReplyV::StructuredError(
                    denial_json(
                        denial_words(tool_name@, identity_of(request), wait),
                        tool_name@,
                        identity_of(request),
                    ),
                ))
                    && final(self).rate_limiter is Some
                    && old(self).rate_limiter is Some
                    && final(self).rate_limiter->0@ == old(self).rate_limiter->0@
                    && final(self).tool_router.cache
                == old(self).tool_router.cache,
            r.0.call is Some ==> ({
                let call = r.0.call->0;
                let args = normal_params(given_arguments(arguments));
                &&& call.tool@ == tool_name@
                &&& call.params@ == args
                &&& call.use_cache == old(self).tool_router.cache_wanted(tool_name@, args, now)
                &&& !call.cached ==> r.1@ == served(
                    old(self).tool_router.first_step(tool_name@, args, now),
                    tool_name@,
                )
                &&& call.cached ==> r.1 is Reply && r.1->Reply_0 is Structured && found(
                    old(self).tool_router.cache->0@,
                    fingerprint(tool_name@, args),
                    Some(r.1->Reply_0->Structured_0@),
                )
            }),
            tallied(
                old(self).tool_router.metrics,
                final(self).tool_router.metrics,
                |t: Tallies|
                    if !names_of(old(self).tools@).contains(tool_name@) {
                        called(t, tool_name@, "invalid_tool"@)
                    } else if r.0.call is None {
                        called(limited(t, tool_name@), tool_name@, "rate_limited"@)
                    } else {
                        followed(
                            ToolRouter::begun(
                                t,
                                tool_name@,
                                r.0.call->0.use_cache,
                                r.0.call->0.cached,
                                old(self).tool_router.first_refusal(
                                    tool_name@,
                                    normal_params(given_arguments(arguments)),
                                    now,
                                ),
                            ),
                            tool_name@,
                            begun_step(&old(self).tool_router, &r.0.call->0, r.1@, now),
                        )
                    },
            ),
            r.0.call is Some ==> ToolRouter::stored_after(
                old(self).tool_router.cache,
                final(self).tool_router.cache,
                &r.0.call->0,
                begun_step(&old(self).tool_router, &r.0.call->0, r.1@, now),
            ),
            if !names_of(old(self).tools@).contains(tool_name@) {
                filed(
                    old(self).recent_actions,
                    final(self).recent_actions,
                    &r.0,
                    old(self).tenant_id,
                    ActionOutcome::InvalidTool,
                    Some("invalid_tool"@),
                    Some("unknown tool: "@ + tool_name@),
                    now,
                )
            } else if r.0.call is None {
                exists|wait: Seq<char>|
                    r.1->Reply_0@ == ReplyV::StructuredError(
                        denial_json(
                            denial_words(tool_name@, identity_of(request), wait),
                            tool_name@,
                            identity_of(request),
                        ),
                    ) && #[trigger] filed(
                        old(self).recent_actions,
                        final(self).recent_actions,
                        &r.0,
                        old(self).tenant_id,
                        ActionOutcome::RateLimited,
                        Some("rate_limited"@),
                        Some(denial_words(tool_name@, identity_of(request), wait)),
                        now,
                    )
            } else {
                trail_followed(
                    old(self).recent_actions,
                    final(self).recent_actions,
                    &r.0,
                    old(self).tenant_id,
                    begun_step(&old(self).tool_router, &r.0.call->0, r.1@, now),
                    now,
                )
            },
    {
        let identity = resolve_identity(request);
        let request_id = resolve_request_id(request);
        let identity_hash = hash_string(identity.as_str());
        let arguments = match arguments {
            Some(a) => a,
            None => Json::Null,
        };
        let query_text = extract_query_text(&arguments);
        let mut invocation = Invocation {
            tool: tool_name.to_owned(),
            identity,
            identity_hash,
            request_id,
            query_text,
            started: now,
            call: None,
        };
        if self.get_tool(tool_name).is_none() {
            let message = join2("unknown tool: ", tool_name);
            self.record_action(
                &invocation,
                ActionOutcome::InvalidTool,
                "invalid_tool",
                Some("invalid_tool".to_owned()),
                Some(message.clone()),
                now,
            );
            return (invocation, ServerStep::Reply(Reply::InvalidParams(message)));
        }
        let answer = match &mut self.rate_limiter {
            Some(limiter) => {
                let tenant: Option<&str> = match &self.tenant_id {
                    Some(t) => Some(t.as_str()),
                    None => None,
                };
                limiter.check(tool_name, invocation.identity.as_str(), tenant)
            },
            None => Ok(()),
        };
        self.on_rate_limit(invocation, Some(arguments), answer, now)
    }
}

// ---------------------------------------------------------------------------
// Answers
// ---------------------------------------------------------------------------
/// An answer that whoever talks to the backend hands back.
#[derive(Debug)]
pub enum Answer {
    /// To `AskStats`: the body, or nothing where the request failed.
    Stats(Option<Json>),
    /// To `AskRuntimeStats`: the body, or nothing where the request failed.
    RuntimeStats(Option<Json>),
    /// To `Ask`: the bodies in the order of the requests, and the quotient
    /// that a comparison shows.
    Bodies(Vec<Json>, Json),
    /// To `Ask` where a request failed, and to `Health`: the result, or
    /// the message of the failure.
    Outside(Result<Json, String>),
}

pub enum ServerStepV {
    AskStats(RequestV),
    AskRuntimeStats(RequestV),
    Ask(Seq<RequestV>),
    Health,
    Reply(ReplyV),
}

impl View for ServerStep {
    type V = ServerStepV;

    open spec fn view(&self) -> ServerStepV {
        match self {
            ServerStep::AskStats(q) => ServerStepV::AskStats(CallStep::AskStats(*q)@->AskStats_0),
            ServerStep::AskRuntimeStats(q) => ServerStepV::AskRuntimeStats(
                CallStep::AskRuntimeStats(*q)@->AskRuntimeStats_0,
            ),
            ServerStep::Ask(list) => ServerStepV::Ask(CallStep::Ask(*list)@->Ask_0),
            ServerStep::Health => ServerStepV::Health,
            ServerStep::Reply(reply) => ServerStepV::Reply(reply@),
        }
    }
}

/// The arguments of an invocation: `null` where none are given.
pub open spec fn given_arguments(arguments: Option<Json>) -> JsonV {
    match arguments {
        Some(a) => a@,
        None => JsonV::Null,
    }
}

/// The step of the server that a step of the router leads to.
pub open spec fn served(step: StepV, tool: Seq<char>) -> ServerStepV {
    match step {
        StepV::AskStats(q) => ServerStepV::AskStats(q),
        StepV::AskRuntimeStats(q) => ServerStepV::AskRuntimeStats(q),
        StepV::Ask(list) => ServerStepV::Ask(list),
        StepV::Health => ServerStepV::Health,
        StepV::Return(result) => ServerStepV::Reply(reply_for(tool, result)),
    }
}

/// The step of the router that an answer leads to.
pub open spec fn answered(
    router: &ToolRouter,
    call: &ToolCall,
    answer: &Answer,
    now: Instant,
) -> StepV {
    match answer {
        Answer::Stats(body) => if call.stage == CallStage::Checking && call.run is Some {
            router.guarded(
                call.run->0.checks@,
                call.run->0.stats_step(
                    crate::tools::call::stats_answer(crate::tools::call::body_view(*body)),
                ).1,
                call.tool@,
                call.params@,
                now,
            )
        } else {
            StepV::Return(
                Err(
                    crate::guardrails::guardrail_message(
                        crate::guardrails::GuardrailError::OutOfTurn,
                    ),
                ),
            )
        },
        Answer::RuntimeStats(body) => if call.stage == CallStage::Checking && call.run is Some {
            router.guarded(
                call.run->0.checks@,
                call.run->0.runtime_step(
                    crate::tools::call::runtime_answer(crate::tools::call::body_view(*body)),
                ).1,
                call.tool@,
                call.params@,
                now,
            )
        } else {
            StepV::Return(
                Err(
                    crate::guardrails::guardrail_message(
                        crate::guardrails::GuardrailError::OutOfTurn,
                    ),
                ),
            )
        },
        Answer::Bodies(bodies, ratio) => if call.stage == CallStage::Asking && call.finish
            is Some {
            StepV::Return(
                crate::tools::dispatch::finished(
                    call.finish->0@,
                    crate::json::items_view(bodies@),
                    ratio@,
                ),
            )
        } else {
            StepV::Return(Err("invalid tool parameters"@))
        },
        Answer::Outside(result) => StepV::Return(
            match result {
                Ok(v) => Ok(v@),
                Err(m) => Err(m@),
            },
        ),
    }
}

/// The message for an answer to an invocation that asked nothing.
/// The message with which the cost check ends the invocation on an
/// answer, where it does.
pub open spec fn answer_refusal(call: &ToolCall, answer: &Answer) -> Option<Seq<char>> {
    match answer {
        Answer::Stats(body) => if call.stage == CallStage::Checking && call.run is Some {
            ToolRouter::refusal(
                call.run->0.checks@,
                call.run->0.stats_step(
                    crate::tools::call::stats_answer(crate::tools::call::body_view(*body)),
                ).1,
            )
        } else {
            None
        },
        Answer::RuntimeStats(body) => if call.stage == CallStage::Checking && call.run is Some {
            ToolRouter::refusal(
                call.run->0.checks@,
                call.run->0.runtime_step(
                    crate::tools::call::runtime_answer(crate::tools::call::body_view(*body)),
                ).1,
            )
        } else {
            None
        },
        _ => None,
    }
}

/// The step with which the router has begun an invocation: the result
/// from the cache, or else its first step.
pub open spec fn begun_step(
    router: &ToolRouter,
    call: &ToolCall,
    step: ServerStepV,
    now: Instant,
) -> StepV {
    if call.cached {
        StepV::Return(Ok(step->Reply_0->Structured_0))
    } else {
        router.first_step(call.tool@, call.params@, now)
    }
}

/// Where an answer on the cost leads the run of the cost check.
pub open spec fn answer_outcome(call: &ToolCall, answer: &Answer) -> (
    Seq<crate::guardrails::Admission>,
    crate::guardrails::GuardrailStep,
) {
    match answer {
        Answer::RuntimeStats(body) => call.run->0.runtime_step(
            crate::tools::call::runtime_answer(crate::tools::call::body_view(*body)),
        ),
        Answer::Stats(body) => call.run->0.stats_step(
            crate::tools::call::stats_answer(crate::tools::call::body_view(*body)),
        ),
        _ => (call.run->0.admissions@, crate::guardrails::GuardrailStep::Admitted),
    }
}

pub open spec fn stray_words() -> Seq<char> {
    "the invocation is over"@
}

impl LokiMcpServer {
    /// Takes an answer and says what the server wants next. An
    /// invocation that is over is told so.
    pub fn on_answer(&mut self, invocation: &mut Invocation, answer: Answer, now: Instant) -> (r:
        ServerStep)
        requires
            old(self).wf(),
            now.wf(),
            old(invocation).started.wf(),
            old(invocation).call is Some
                && old(invocation).call->0.run is Some ==> old(invocation).call->0.run->0.wf(),
        ensures
            final(self).wf(),
            final(invocation).tool == old(invocation).tool,
            final(self).rate_limiter == old(self).rate_limiter,
            final(invocation).call is Some
                && final(invocation).call->0.run is Some ==> final(invocation).call->0.run->0.wf(),
            old(invocation).call is None ==> r@ == ServerStepV::Reply(
                reply_for(old(invocation).tool@, Err(stray_words())),
            ),
            old(invocation).call is Some ==> r@ == served(
                answered(&old(self).tool_router, &old(invocation).call->0, &answer, now),
                old(invocation).tool@,
            ),
            final(invocation).call is Some ==> old(invocation).call is Some
                && final(invocation).call->0.tool == old(invocation).call->0.tool
                && final(invocation).call->0.params == old(invocation).call->0.params
                && final(invocation).call->0.use_cache == old(invocation).call->0.use_cache,
            r is AskStats || r is AskRuntimeStats ==> old(invocation).call is Some
                && old(invocation).call->0.run is Some && final(invocation).call is Some
                && final(invocation).call->0.stage == CallStage::Checking
                && final(invocation).call->0.run is Some && ToolRouter::run_after(
                old(invocation).call->0.run->0,
                final(invocation).call->0.run->0,
                answer_outcome(&old(invocation).call->0, &answer),
            ),
            r is AskRuntimeStats ==> answer is Stats && final(invocation).call->0.run->0.primary
                is Some && crate::tools::call::stats_answer(
                crate::tools::call::body_view(answer->Stats_0),
            ) == Some(final(invocation).call->0.run->0.primary->0.counts()),
            r is Ask ==> old(invocation).call is Some && final(invocation).call is Some
                && final(invocation).call->0.stage == CallStage::Asking
                && final(invocation).call->0.finish is Some && Ok::<PlanV, Seq<char>>(
                PlanV::Ask(r@->Ask_0, final(invocation).call->0.finish->0@),
            ) == old(self).tool_router.planned(
                old(invocation).call->0.tool@,
                old(invocation).call->0.params@,
                now,
            ),
            final(invocation).request_id == old(invocation).request_id,
            final(invocation).query_text == old(invocation).query_text,
            final(invocation).identity == old(invocation).identity,
            final(invocation).identity_hash == old(invocation).identity_hash,
            final(invocation).started == old(invocation).started,
            final(self).tenant_id == old(self).tenant_id,
            final(self).tools == old(self).tools,
            tallied(
                old(self).tool_router.metrics,
                final(self).tool_router.metrics,
                |t: Tallies|
                    if old(invocation).call is None {
                        called(t, old(invocation).tool@, "error"@)
                    } else {
                        followed(
                            ToolRouter::rejected(
                                t,
                                old(invocation).call->0.tool@,
                                answer_refusal(&old(invocation).call->0, &answer),
                            ),
                            old(invocation).tool@,
                            answered(&old(self).tool_router, &old(invocation).call->0, &answer, now),
                        )
                    },
            ),
            if old(invocation).call is None {
                final(self).tool_router.cache == old(self).tool_router.cache
            } else {
                ToolRouter::stored_after(
                    old(self).tool_router.cache,
                    final(self).tool_router.cache,
                    &old(invocation).call->0,
                    answered(&old(self).tool_router, &old(invocation).call->0, &answer, now),
                )
            },
            if old(invocation).call is None {
                filed(
                    old(self).recent_actions,
                    final(self).recent_actions,
                    old(invocation),
                    old(self).tenant_id,
                    outcome_for(Err(stray_words())),
                    class_for(Err(stray_words())),
                    error_for(Err(stray_words())),
                    now,
                )
            } else {
                trail_followed(
                    old(self).recent_actions,
                    final(self).recent_actions,
                    old(invocation),
                    old(self).tenant_id,
                    answered(&old(self).tool_router, &old(invocation).call->0, &answer, now),
                    now,
                )
            },
    {
        let mut call = match invocation.call.take() {
            Some(call) => call,
            None => {
                let error = ToolError::Backend("the invocation is over".to_owned());
                return ServerStep::Reply(self.close(invocation, Err(error), now));
            },
        };
        let step = match answer {
            Answer::Stats(body) => self.tool_router.on_stats(&mut call, body, now),
            Answer::RuntimeStats(body) => self.tool_router.on_runtime_stats(&mut call, body, now),
            Answer::Bodies(bodies, ratio) => self.tool_router.on_answers(&mut call, bodies, ratio),
            Answer::Outside(result) => self.tool_router.on_outside(&mut call, result),
        };
        invocation.call = Some(call);
        self.follow(invocation, step, now)
    }
}

} // verus!
