//! What the HTTP endpoints around the tools decide: whether a remembered
//! answer on readiness still holds, what the endpoints answer with, how a
//! request is numbered.
//!
//! Nothing here listens or sends. Whoever serves the endpoints probes the
//! backend where [`ReadinessCache::readyz`] asks for it and hands the health
//! back.

use vstd::prelude::*;
use crate::config::{view_of, Config, ConfigError, ConfigFault};
use crate::json::{
    array_of, items_view, members_view, no_members, none, object_of, optional_text,
    optional_text_json, push_member, text_json, unsigned_json, Json, JsonV, Members, Number,
};
use crate::loki::types::LokiHealth;
use crate::metrics::{bump, single, MetricsRegistry, Tallies};
use crate::recent_actions::{
    bounded_limit, listing, pruned, room_for, RecentAction, RecentActionsStore,
};
use crate::text::{decimal, join2, u64_text};
use crate::time::{parse_std_duration, std_duration, Instant, Span};
use crate::tools::dispatch::{stamp_json, stamp_to_json};

verus! {

pub const OK: u16 = 200;

pub const NOT_FOUND: u16 = 404;

pub const INTERNAL_SERVER_ERROR: u16 = 500;

pub const SERVICE_UNAVAILABLE: u16 = 503;

// ---------------------------------------------------------------------------
// Readiness
// ---------------------------------------------------------------------------
/// For how many seconds an answer on readiness is remembered.
pub const READINESS_CACHE_TTL_SECONDS: u64 = 3;

/// An answer on readiness and when it was found.
#[derive(Debug)]
pub struct CachedReadiness {
    pub observed_at: Instant,
    pub status: u16,
    pub body: Json,
}

impl CachedReadiness {
    /// The answer still holds at `now`: it is no older than three seconds.
    pub open spec fn fresh(&self, now: Instant) -> bool {
        now.at() - self.observed_at.at() <= READINESS_CACHE_TTL_SECONDS * 1_000_000_000
    }

    pub fn is_fresh(&self, now: Instant) -> (r: bool)
        requires
            self.observed_at.wf(),
            now.wf(),
        ensures
            r == self.fresh(now),
    {
        match now.since(&self.observed_at) {
            Some(age) => !Span::from_secs(READINESS_CACHE_TTL_SECONDS).shorter_than(&age),
            None => true,
        }
    }
}

/// The body of a backend that is ready.
pub open spec fn ready_json() -> JsonV {
    JsonV::Object(none().push(("status"@, JsonV::Text("ready"@))))
}

/// The body of a backend that is not ready, with what is said about it.
pub open spec fn not_ready_json(message: Option<Seq<char>>) -> JsonV {
    JsonV::Object(
        none().push(("status"@, JsonV::Text("not_ready"@))).push(
            ("message"@, optional_text(message)),
        ),
    )
}

/// The status that the health of the backend is answered with.
pub open spec fn readiness_status(health: LokiHealth) -> u16 {
    if health.healthy {
        OK
    } else {
        SERVICE_UNAVAILABLE
    }
}

/// The body that the health of the backend is answered with.
pub open spec fn readiness_body(health: LokiHealth) -> JsonV {
    if health.healthy {
        ready_json()
    } else {
        not_ready_json(view_of(health.message))
    }
}

/// The answer on readiness that the health of the backend comes to.
pub fn observe(health: &LokiHealth, now: Instant) -> (r: CachedReadiness)
    ensures
        r.observed_at == now,
        r.status == readiness_status(*health),
        r.body@ == readiness_body(*health),
{
    let mut members = no_members();
    if health.healthy {
        push_member(&mut members, "status", text_json("ready"));
        CachedReadiness { observed_at: now, status: OK, body: object_of(members) }
    } else {
        push_member(&mut members, "status", text_json("not_ready"));
        push_member(&mut members, "message", optional_text_json(health.message.as_ref()));
        CachedReadiness { observed_at: now, status: SERVICE_UNAVAILABLE, body: object_of(members) }
    }
}

/// What the readiness endpoint does next.
#[derive(Debug)]
pub enum ReadyStep {
    /// The remembered answer holds: its status and its body.
    Answer(u16, Json),
    /// The backend has to be probed.
    Probe,
}

/// The one answer on readiness that is remembered.
#[derive(Debug)]
pub struct ReadinessCache {
    pub slot: Option<CachedReadiness>,
}

impl ReadinessCache {
    pub open spec fn wf(&self) -> bool {
        self.slot is Some ==> self.slot->0.observed_at.wf()
    }

    /// The remembered answer, where there is one and it still holds.
    pub open spec fn held(&self, now: Instant) -> Option<CachedReadiness> {
        if self.slot is Some && self.slot->0.fresh(now) {
            self.slot
        } else {
            None
        }
    }

    pub fn new() -> (r: Self)
        ensures
            r.slot is None,
            r.wf(),
    {
        ReadinessCache { slot: None }
    }

    /// The remembered answer where it still holds, as `held` says.
    pub fn read_cached_readiness(&self, now: Instant) -> (r: Option<CachedReadiness>)
        requires
            self.wf(),
            now.wf(),
        ensures
            r is Some == self.held(now) is Some,
            r is Some ==> r->0.observed_at == self.slot->0.observed_at && r->0.status
                == self.slot->0.status && r->0.body@ == self.slot->0.body@,
    {
        match &self.slot {
            Some(cached) => {
                if cached.is_fresh(now) {
                    Some(
                        CachedReadiness {
                            observed_at: cached.observed_at,
                            status: cached.status,
                            body: cached.body.duplicate(),
                        },
                    )
                } else {
                    None
                }
            },
            None => None,
        }
    }

    /// Remembers an answer in place of the one before.
    pub fn write_cached_readiness(&mut self, readiness: CachedReadiness)
        requires
            readiness.observed_at.wf(),
        ensures
            final(self).slot == Some(readiness),
            final(self).wf(),
    {
        self.slot = Some(readiness);
    }

    /// Serves the readiness endpoint as far as memory goes. An answer that
    /// still holds is given again and counted as a hit; else a miss is
    /// counted and the backend has to be probed.
    pub fn readyz(&self, metrics: &mut MetricsRegistry, now: Instant) -> (r: ReadyStep)
        requires
            self.wf(),
            now.wf(),
            old(metrics).wf(),
        ensures
            final(metrics).wf(),
            match r {
                ReadyStep::Answer(status, body) => self.held(now) is Some && status
                    == self.slot->0.status && body@ == self.slot->0.body@ && final(metrics)@ == (
                Tallies {
                    readiness_cache: bump(old(metrics)@.readiness_cache, single("hit"@)),
                    ..old(metrics)@
                }),
                ReadyStep::Probe => self.held(now) is None && final(metrics)@ == (Tallies {
                    readiness_cache: bump(old(metrics)@.readiness_cache, single("miss"@)),
                    ..old(metrics)@
                }),
            },
    {
        match self.read_cached_readiness(now) {
            Some(cached) => {
                metrics.inc_readiness_cache_hit();
                ReadyStep::Answer(cached.status, cached.body)
            },
            None => {
                metrics.inc_readiness_cache_miss();
                ReadyStep::Probe
            },
        }
    }

    /// Takes the health that a probe found: remembers the answer it comes
    /// to and gives it.
    pub fn on_health(&mut self, health: &LokiHealth, now: Instant) -> (r: (u16, Json))
        requires
            now.wf(),
        ensures
            final(self).wf(),
            final(self).slot is Some,
            final(self).slot->0.observed_at == now,
            final(self).slot->0.status == readiness_status(*health),
            final(self).slot->0.body@ == readiness_body(*health),
            r.0 == readiness_status(*health),
            r.1@ == readiness_body(*health),
    {
        let resolved = observe(health, now);
        let status = resolved.status;
        let body = resolved.body.duplicate();
        self.write_cached_readiness(resolved);
        (status, body)
    }
}

// ---------------------------------------------------------------------------
// The counters
// ---------------------------------------------------------------------------
/// What an endpoint answers with.
#[derive(Debug)]
pub enum Body {
    Text(String),
    Document(Json),
}

/// The failure of an endpoint as a document.
pub open spec fn failure_json(message: Seq<char>) -> JsonV {
    JsonV::Object(none().push(("error"@, JsonV::Text(message))))
}

fn failure(message: &str) -> (r: Json)
    ensures
        r@ == failure_json(message@),
{
    let mut members = no_members();
    push_member(&mut members, "error", text_json(message));
    object_of(members)
}

/// Serves the counters: their text, or the failure to write it.
pub fn metrics(registry: &MetricsRegistry) -> (r: (u16, Body))
    ensures
        r.0 == OK || r.0 == INTERNAL_SERVER_ERROR,
        r.0 == OK ==> r.1 is Text,
        r.0 == INTERNAL_SERVER_ERROR ==> r.1 is Document && r.1->Document_0@ == failure_json(
            "failed to render metrics"@,
        ),
{
    match registry.render() {
        Ok(body) => (OK, Body::Text(body)),
        Err(_) => (INTERNAL_SERVER_ERROR, Body::Document(failure("failed to render metrics"))),
    }
}

// ---------------------------------------------------------------------------
// The trail
// ---------------------------------------------------------------------------
/// How many entries of the trail are shown where no number is asked for.
pub const DEFAULT_LIST_LIMIT: usize = 100;

/// The number of entries to show: the number asked for, one hundred where
/// none is, and never under one nor over a thousand.
pub open spec fn shown(limit: Option<usize>) -> usize {
    let asked = match limit {
        Some(n) => n,
        None => DEFAULT_LIST_LIMIT,
    };
    if asked < 1 {
        1
    } else if asked > 1000 {
        1000
    } else {
        asked
    }
}

pub fn list_limit(limit: Option<usize>) -> (r: usize)
    ensures
        r == shown(limit),
        1 <= r <= 1000,
{
    let asked = match limit {
        Some(n) => n,
        None => DEFAULT_LIST_LIMIT,
    };
    if asked < 1 {
        1
    } else if asked > 1000 {
        1000
    } else {
        asked
    }
}

/// `members` with a text under `name`, where there is one.
pub open spec fn with_text(members: Members, name: Seq<char>, text: Option<Seq<char>>) -> Members {
    match text {
        Some(t) => members.push((name, JsonV::Text(t))),
        None => members,
    }
}

fn push_text(members: &mut Vec<(String, Json)>, name: &str, text: &Option<String>)
    ensures
        members_view(final(members)@) == with_text(
            members_view(old(members)@),
            name@,
            view_of(*text),
        ),
{
    match text {
        Some(t) => push_member(members, name, text_json(t.as_str())),
        None => {},
    }
}

/// An entry of the trail as a document. What the entry does not hold is
/// left out.
pub open spec fn action_json(action: RecentAction) -> JsonV {
    let m = none().push(("timestamp"@, stamp_json(action.timestamp)));
    let m = with_text(m, "request_id"@, view_of(action.request_id));
    let m = m.push(("tool"@, JsonV::Text(action.tool@)));
    let m = m.push(("outcome"@, JsonV::Text(action.outcome.word())));
    let m = m.push(("duration_ms"@, JsonV::Number(Number::Unsigned(action.duration_ms))));
    let m = m.push(("identity_hash"@, JsonV::Text(action.identity_hash@)));
    let m = with_text(m, "tenant_id"@, view_of(action.tenant_id));
    let m = with_text(m, "query"@, view_of(action.query));
    let m = m.push(("query_redacted"@, JsonV::Bool(action.query_redacted)));
    let m = with_text(m, "error_class"@, view_of(action.error_class));
    let m = with_text(m, "error"@, view_of(action.error));
    JsonV::Object(m)
}

pub fn action_to_json(action: &RecentAction) -> (r: Json)
    ensures
        r@ == action_json(*action),
{
    let mut members = no_members();
    push_member(&mut members, "timestamp", stamp_to_json(action.timestamp));
    push_text(&mut members, "request_id", &action.request_id);
    push_member(&mut members, "tool", text_json(action.tool.as_str()));
    push_member(&mut members, "outcome", text_json(action.outcome.name()));
    push_member(&mut members, "duration_ms", unsigned_json(action.duration_ms));
    push_member(&mut members, "identity_hash", text_json(action.identity_hash.as_str()));
    push_text(&mut members, "tenant_id", &action.tenant_id);
    push_text(&mut members, "query", &action.query);
    push_member(&mut members, "query_redacted", Json::Bool(action.query_redacted));
    push_text(&mut members, "error_class", &action.error_class);
    push_text(&mut members, "error", &action.error);
    object_of(members)
}

/// The entries shown: how many there are, and each as a document.
pub open spec fn actions_json(actions: Seq<RecentAction>) -> JsonV {
    JsonV::Object(
        none().push(("count"@, JsonV::Number(Number::Unsigned(actions.len() as u64)))).push(
            ("actions"@, JsonV::Array(Seq::new(actions.len(), |i: int| action_json(actions[i])))),
        ),
    )
}

pub fn actions_to_json(actions: &Vec<RecentAction>) -> (r: Json)
    ensures
        r@ == actions_json(actions@),
{
    let mut items: Vec<Json> = Vec::new();
    let mut i: usize = 0;
    while i < actions.len()
        invariant
            i <= actions.len(),
            items@.len() == i,
            forall|k: int| 0 <= k < i ==> (#[trigger] items@[k])@ == action_json(actions@[k]),
        decreases actions.len() - i,
    {
        items.push(action_to_json(&actions[i]));
        i = i + 1;
    }
    assert(items_view(items@) =~= Seq::new(actions@.len(), |i: int| action_json(actions@[i])));
    let mut members = no_members();
    push_member(&mut members, "count", unsigned_json(actions.len() as u64));
    push_member(&mut members, "actions", array_of(items));
    object_of(members)
}

/// Serves the trail: the newest entries first, as many as `shown` says,
/// after those that have outlived their time have left. Without a trail
/// the endpoint is not found.
pub fn recent_actions_endpoint(
    store: &mut Option<RecentActionsStore>,
    limit: Option<usize>,
    now: Instant,
) -> (r: (u16, Json))
    requires
        *old(store) is Some ==> (*old(store))->0.wf(),
        now.wf(),
    ensures
        *final(store) is Some == *old(store) is Some,
        *old(store) is None ==> r.0 == NOT_FOUND && r.1@ == failure_json(
            "recent actions tracking is disabled"@,
        ),
        *old(store) is Some ==> (*final(store))->0.wf() && (*final(store))->0.entries@ == pruned(
            (*old(store))->0.entries@,
            now,
            (*old(store))->0.ttl,
        ) && r.0 == OK && r.1@ == actions_json(
            listing((*final(store))->0.entries@, bounded_limit(shown(limit))),
        ),
{
    match store {
        Some(trail) => {
            let actions = trail.list(now, list_limit(limit));
            (OK, actions_to_json(&actions))
        },
        None => (NOT_FOUND, failure("recent actions tracking is disabled")),
    }
}

/// The trail that the configuration asks for: none where it is switched
/// off, and a failure where its time to live cannot be read.
pub fn build_recent_actions_store(config: &Config) -> (r: Result<
    Option<RecentActionsStore>,
    ConfigError,
>)
    ensures
        match r {
            Ok(None) => !config.recent_actions.enabled,
            Ok(Some(store)) => config.recent_actions.enabled && std_duration(
                config.recent_actions.ttl@,
            ) == Ok::<_, crate::time::Failure>(store.ttl) && store.wf() && store.entries@.len()
                == 0 && store.store_query_text == config.recent_actions.store_query_text
                && store.store_error_text == config.recent_actions.store_error_text
                && store.max_entries == room_for(config.recent_actions.max_entries),
            Err(e) => config.recent_actions.enabled && std_duration(config.recent_actions.ttl@)
                is Err && e@ == (ConfigFault::RecentActionsTtl, config.recent_actions.ttl@),
        },
{
    if !config.recent_actions.enabled {
        return Ok(None);
    }
    let ttl = match parse_std_duration(config.recent_actions.ttl.as_str()) {
        Ok(ttl) => ttl,
        Err(_) => {
            return Err(
                ConfigError::about(
                    ConfigFault::RecentActionsTtl,
                    config.recent_actions.ttl.as_str(),
                ),
            );
        },
    };
    Ok(
        Some(
            RecentActionsStore::new(
                config.recent_actions.max_entries,
                ttl,
                config.recent_actions.store_query_text,
                config.recent_actions.store_error_text,
            ),
        ),
    )
}

// ---------------------------------------------------------------------------
// Request numbers
// ---------------------------------------------------------------------------
/// The header that carries the number of a request.
pub const REQUEST_ID_HEADER: &'static str = "x-request-id";

/// The name of the request with that number.
pub fn next_request_id(id: u64) -> (r: String)
    ensures
        r@ == "req-"@ + decimal(id as nat),
{
    let number = u64_text(id);
    join2("req-", number.as_str())
}

} // verus!
