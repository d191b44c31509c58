//! One invocation from the first look at the cache to the result.
//!
//! Whoever talks to the backend drives the invocation: `call` says what
//! to do first, and each answer is handed to the function named after it,
//! which says what to do next, until a step says `Return`.

use vstd::prelude::*;
use crate::cache::{found, QueryCache};
use crate::error::ToolError;
use crate::guardrails::{
    guardrail_message, settle, stage_after, Admission, GuardrailCheck, GuardrailError, GuardrailRun,
    GuardrailStep, Stage,
};
use crate::json::{items_view, Json, JsonV};
use crate::loki::client::{
    pairs_view, query_params, runtime_stats_from, unwrap_envelope, unwrap_envelope_or_raw,
    BackendRequest,
};
use crate::loki::types::{Estimate, LokiQueryStats};
use crate::metrics::{bump, pair, single, MetricsRegistry, Tallies};
use crate::time::Instant;
use crate::tools::{
    check_queries, fingerprint, flat_queries, flat_ranges, guardrail_words, guardrailed,
    is_guardrail_error, normal_params, normalize_params, ToolRouter,
};
use crate::tools::dispatch::{
    finish, finished, logs_ask, requests_view, Finish, Plan, PlanV, RequestV,
};

verus! {

/// Where an invocation stands.
#[derive(Debug, Clone, Copy, PartialEq, Eq, Structural)]
pub enum CallStage {
    /// The cost check waits for an estimate.
    Checking,
    /// The tool waits for the answers of the backend.
    Asking,
    /// The tool waits for what is worked out elsewhere.
    Outside,
    Done,
}

/// One invocation under way.
pub struct ToolCall {
    pub tool: String,
    pub params: Json,
    /// The invocation goes by the cache.
    pub use_cache: bool,
    /// The result came from the cache.
    pub cached: bool,
    pub stage: CallStage,
    pub run: Option<GuardrailRun>,
    pub finish: Option<Finish>,
}

/// What to do next.
#[derive(Debug)]
pub enum CallStep {
    /// Ask the backend for the index statistics; answer with `on_stats`.
    AskStats(BackendRequest),
    /// Ask the backend to run the query for one line; answer with
    /// `on_runtime_stats`.
    AskRuntimeStats(BackendRequest),
    /// Send the requests; answer with `on_answers`.
    Ask(Vec<BackendRequest>),
    /// Probe the backend; answer with `on_outside`.
    Health,
    /// The invocation is over.
    Return(Result<Json, ToolError>),
}

pub enum StepV {
    AskStats(RequestV),
    AskRuntimeStats(RequestV),
    Ask(Seq<RequestV>),
    Health,
    Return(Result<JsonV, Seq<char>>),
}

impl View for CallStep {
    type V = StepV;

    open spec fn view(&self) -> StepV {
        match self {
            CallStep::AskStats(r) => StepV::AskStats((r.path@, pairs_view(r.params@))),
            CallStep::AskRuntimeStats(r) => StepV::AskRuntimeStats((r.path@, pairs_view(r.params@))),
            CallStep::Ask(list) => StepV::Ask(requests_view(list@)),
            CallStep::Health => StepV::Health,
            CallStep::Return(Ok(v)) => StepV::Return(Ok(v@)),
            CallStep::Return(Err(e)) => StepV::Return(Err(e.words())),
        }
    }
}

/// The request for the index statistics of a check; where it cannot be
/// written the check fails.
pub open spec fn stats_ask(check: GuardrailCheck) -> Result<RequestV, GuardrailError> {
    match query_params(check.query@, Some(check.start), Some(check.end)) {
        Some(p) => Ok(("/loki/api/v1/index/stats"@, p)),
        None => Err(GuardrailError::PrecheckFailed { start: check.start, end: check.end }),
    }
}

/// The request that runs the query of a check for one line.
pub open spec fn runtime_ask(check: GuardrailCheck) -> Result<RequestV, GuardrailError> {
    match logs_ask(check.query@, (check.start, check.end), 1, Some("backward"@)) {
        Ok(r) => Ok(r),
        Err(_) => Err(GuardrailError::PrecheckFailed { start: check.start, end: check.end }),
    }
}

/// The estimate that the answer to `AskStats` states: none where the
/// backend failed or reported an error.
pub open spec fn stats_answer(body: Option<JsonV>) -> Option<Estimate> {
    match body {
        Some(b) => match crate::loki::client::data_or_raw(b) {
            Ok(data) => Some(crate::loki::types::estimate_of(data)),
            Err(_) => None,
        },
        None => None,
    }
}

/// The estimate that the answer to `AskRuntimeStats` states.
pub open spec fn runtime_answer(body: Option<JsonV>) -> Option<Estimate> {
    match body {
        Some(b) => match crate::tools::dispatch::answer_data(b) {
            Ok(data) => Some(
                crate::loki::client::run_estimate(crate::tools::dispatch::or_null(data)),
            ),
            Err(_) => None,
        },
        None => None,
    }
}

pub open spec fn body_view(body: Option<Json>) -> Option<JsonV> {
    match body {
        Some(b) => Some(b@),
        None => None,
    }
}

impl ToolRouter {
    /// Whether the cost check applies to the tool.
    pub open spec fn guards(&self, tool_name: Seq<char>) -> bool {
        (self.guardrails.max_bytes_scanned is Some || self.guardrails.max_streams is Some)
            && guardrailed(tool_name)
    }

    /// The step that running the tool begins with.
    pub open spec fn dispatched(&self, tool_name: Seq<char>, params: JsonV, now: Instant) -> StepV {
        match self.planned(tool_name, params, now) {
            Err(w) => StepV::Return(Err(w)),
            Ok(PlanV::Answer(v)) => StepV::Return(Ok(v)),
            Ok(PlanV::Ask(requests, _)) => StepV::Ask(requests),
            Ok(PlanV::Health) => StepV::Health,
        }
    }

    /// The step that a step of the cost check leads to.
    pub open spec fn guarded(
        &self,
        checks: Seq<GuardrailCheck>,
        step: GuardrailStep,
        tool_name: Seq<char>,
        params: JsonV,
        now: Instant,
    ) -> StepV {
        match step {
            GuardrailStep::AskStats(i) => match stats_ask(checks[i as int]) {
                Ok(r) => StepV::AskStats(r),
                Err(e) => StepV::Return(Err(guardrail_message(e))),
            },
            GuardrailStep::AskRuntimeStats(i) => match runtime_ask(checks[i as int]) {
                Ok(r) => StepV::AskRuntimeStats(r),
                Err(e) => StepV::Return(Err(guardrail_message(e))),
            },
            GuardrailStep::Admitted => self.dispatched(tool_name, params, now),
            GuardrailStep::Refused(e) => StepV::Return(Err(guardrail_message(e))),
        }
    }

    /// The counters after a failure of the cost check has been counted:
    /// one more rejection for the tool where the message says so.
    pub open spec fn refusal_counted(
        before: Option<MetricsRegistry>,
        after: Option<MetricsRegistry>,
        tool_name: Seq<char>,
        message: Seq<char>,
    ) -> bool {
        match (before, after) {
            (Some(b), Some(a)) => a.wf() && if guardrail_words(message) {
                a@ == (Tallies {
                    guardrail_rejections: bump(b@.guardrail_rejections, single(tool_name)),
                    ..b@
                })
            } else {
                a@ == b@
            },
            (None, None) => true,
            _ => false,
        }
    }

    /// The message with which a step of the cost check ends the invocation,
    /// where it does: the check refuses, or the request for an estimate
    /// cannot be made.
    pub open spec fn refusal(checks: Seq<GuardrailCheck>, step: GuardrailStep) -> Option<Seq<char>> {
        match step {
            GuardrailStep::AskStats(i) => match stats_ask(checks[i as int]) {
                Ok(_) => None,
                Err(e) => Some(guardrail_message(e)),
            },
            GuardrailStep::AskRuntimeStats(i) => match runtime_ask(checks[i as int]) {
                Ok(_) => None,
                Err(e) => Some(guardrail_message(e)),
            },
            GuardrailStep::Admitted => None,
            GuardrailStep::Refused(e) => Some(guardrail_message(e)),
        }
    }

    /// The counters after a step of the cost check: where the step ends
    /// the invocation, its failure is counted; else nothing is.
    pub open spec fn check_counted(
        before: Option<MetricsRegistry>,
        after: Option<MetricsRegistry>,
        tool_name: Seq<char>,
        refusal: Option<Seq<char>>,
    ) -> bool {
        match refusal {
            Some(message) => Self::refusal_counted(before, after, tool_name, message),
            None => after == before,
        }
    }

    /// The message with which the cost check ends an invocation before
    /// anything is asked of the backend, where it does.
    pub open spec fn first_refusal(&self, tool_name: Seq<char>, params: JsonV, now: Instant) -> Option<
        Seq<char>,
    > {
        if self.guards(tool_name) {
            match self.guardrail_plan(tool_name, params, now) {
                Err(w) => Some(w),
                Ok(list) => {
                    let ranges = flat_ranges(list);
                    let step = settle(self.guardrails, ranges, Seq::empty()).1;
                    match step {
                        GuardrailStep::AskStats(i) => match query_params(
                            flat_queries(list)[i as int],
                            Some(ranges[i as int].0),
                            Some(ranges[i as int].1),
                        ) {
                            Some(_) => None,
                            None => Some(
                                guardrail_message(
                                    GuardrailError::PrecheckFailed {
                                        start: ranges[i as int].0,
                                        end: ranges[i as int].1,
                                    },
                                ),
                            ),
                        },
                        GuardrailStep::Refused(e) => Some(guardrail_message(e)),
                        _ => None,
                    }
                },
            }
        } else {
            None
        }
    }

    /// The tallies with a miss of the cache counted for the tool, where
    /// the invocation goes by the cache.
    pub open spec fn missed(tallies: Tallies, tool_name: Seq<char>, use_cache: bool) -> Tallies {
        if use_cache {
            Tallies { tool_cache: bump(tallies.tool_cache, pair(tool_name, "miss"@)), ..tallies }
        } else {
            tallies
        }
    }

    /// The tallies with a failure of the cost check counted for the tool,
    /// where there is one and its message says `guardrail`.
    pub open spec fn rejected(
        tallies: Tallies,
        tool_name: Seq<char>,
        refusal: Option<Seq<char>>,
    ) -> Tallies {
        if refusal is Some && guardrail_words(refusal->0) {
            Tallies {
                guardrail_rejections: bump(tallies.guardrail_rejections, single(tool_name)),
                ..tallies
            }
        } else {
            tallies
        }
    }

    /// The tallies with a hit of the cache counted for the tool.
    pub open spec fn hit(tallies: Tallies, tool_name: Seq<char>) -> Tallies {
        Tallies { tool_cache: bump(tallies.tool_cache, pair(tool_name, "hit"@)), ..tallies }
    }

    /// The tallies after an invocation has begun: a hit of the cache, or
    /// else the miss where the invocation goes by the cache and then the
    /// failure of the cost check where it ends the invocation.
    pub open spec fn begun(
        tallies: Tallies,
        tool_name: Seq<char>,
        use_cache: bool,
        cached: bool,
        refusal: Option<Seq<char>>,
    ) -> Tallies {
        if cached {
            Self::hit(tallies, tool_name)
        } else {
            Self::rejected(Self::missed(tallies, tool_name, use_cache), tool_name, refusal)
        }
    }

    /// The counters after an invocation has begun without a result from
    /// the cache: the miss is counted where the invocation goes by the
    /// cache, and then the failure of the cost check where it ends the
    /// invocation.
    pub open spec fn begun_counted(
        before: Option<MetricsRegistry>,
        after: Option<MetricsRegistry>,
        tool_name: Seq<char>,
        use_cache: bool,
        refusal: Option<Seq<char>>,
    ) -> bool {
        match (before, after) {
            (Some(b), Some(a)) => a.wf() && a@ == Self::rejected(
                Self::missed(b@, tool_name, use_cache),
                tool_name,
                refusal,
            ),
            (None, None) => true,
            _ => false,
        }
    }

    /// The cache after a step of an invocation: a result with which the
    /// invocation ends is stored under its fingerprint where the
    /// invocation goes by the cache; else the cache is as it was.
    pub open spec fn stored_after(
        before: Option<QueryCache>,
        after: Option<QueryCache>,
        call: &ToolCall,
        step: StepV,
    ) -> bool {
        match (before, after) {
            (Some(b), Some(a)) => a@ == (match step {
                StepV::Return(Ok(v)) => if call.use_cache {
                    b@.insert(fingerprint(call.tool@, call.params@), v)
                } else {
                    b@
                },
                _ => b@,
            }),
            (None, None) => true,
            _ => false,
        }
    }

    /// The run of the cost check as it stands after a step that asks the
    /// backend: over the same checks under the same settings, with the
    /// admissions and in the stage that the step leaves it in.
    pub open spec fn run_after(
        before: GuardrailRun,
        after: GuardrailRun,
        outcome: (Seq<Admission>, GuardrailStep),
    ) -> bool {
        &&& after.wf()
        &&& after.settings == before.settings
        &&& after.checks == before.checks
        &&& after.admissions@ == outcome.0
        &&& after.stage == stage_after(outcome.1)
    }

    /// The run of the cost check as it stands where an invocation begins
    /// by asking for an estimate: over the queries and ranges that the
    /// check of the tool looks at, under the limits of the router, past
    /// the ranges that need no estimate, and waiting for the answer.
    pub open spec fn run_begun(
        &self,
        run: GuardrailRun,
        tool_name: Seq<char>,
        params: JsonV,
        now: Instant,
    ) -> bool {
        let list = self.guardrail_plan(tool_name, params, now)->Ok_0;
        &&& self.guardrail_plan(tool_name, params, now) is Ok
        &&& run.wf()
        &&& run.settings == self.guardrails
        &&& run.ranges() == flat_ranges(list)
        &&& check_queries(run.checks@) == flat_queries(list)
        &&& run.stage == Stage::AwaitingStats
        &&& run.admissions@ == settle(self.guardrails, flat_ranges(list), Seq::empty()).0
    }

    /// Counts a failure of the cost check.
    pub fn refuse(&mut self, tool_name: &str, error: &ToolError)
        requires
            old(self).wf(),
        ensures
            final(self).wf(),
            final(self).config == old(self).config,
            final(self).timezone == old(self).timezone,
            final(self).cache == old(self).cache,
            final(self).guardrails == old(self).guardrails,
            final(self).cache_skip_if_range_shorter_than == old(
                self,
            ).cache_skip_if_range_shorter_than,
            Self::refusal_counted(old(self).metrics, final(self).metrics, tool_name@, error.words()),
    {
        let message = error.message();
        if is_guardrail_error(message.as_str()) {
            match &mut self.metrics {
                Some(metrics) => {
                    metrics.inc_tool_guardrail_rejection(tool_name);
                },
                None => {},
            }
        }
    }

    /// The counters after the cache has been looked at: one more hit or
    /// one more miss for the tool where the invocation goes by the cache.
    pub open spec fn lookup_counted(
        before: Option<MetricsRegistry>,
        after: Option<MetricsRegistry>,
        tool_name: Seq<char>,
        use_cache: bool,
        hit: bool,
    ) -> bool {
        match (before, after) {
            (Some(b), Some(a)) => a.wf() && if !use_cache {
                a@ == b@
            } else if hit {
                a@ == (Tallies { tool_cache: bump(b@.tool_cache, pair(tool_name, "hit"@)), ..b@ })
            } else {
                a@ == (Tallies { tool_cache: bump(b@.tool_cache, pair(tool_name, "miss"@)), ..b@ })
            },
            (None, None) => true,
            _ => false,
        }
    }

    /// Looks the invocation up in the cache where it goes by the cache.
    /// What is found is what was last stored under the fingerprint of the
    /// invocation; whether anything is found is up to the cache.
    pub fn probe(&self, tool_name: &str, params: &Json, now: Instant) -> (r: Option<Json>)
        requires
            self.wf(),
            now.wf(),
        ensures
            r is Some ==> self.cache_wanted(tool_name@, params@, now) && found(
                self.cache->0@,
                fingerprint(tool_name@, params@),
                Some(r->0@),
            ),
    {
        if !self.should_use_cache(tool_name, params, now) {
            return None;
        }
        match self.try_cache_get(tool_name, params) {
            Ok(hit) => hit,
            Err(_) => None,
        }
    }

    /// Counts the look at the cache: a hit or a miss for the tool where the
    /// invocation goes by the cache.
    fn count_lookup(&mut self, tool_name: &str, use_cache: bool, hit: bool)
        requires
            old(self).wf(),
        ensures
            final(self).wf(),
            final(self).config == old(self).config,
            final(self).loki_client == old(self).loki_client,
            final(self).timezone == old(self).timezone,
            final(self).cache == old(self).cache,
            final(self).guardrails == old(self).guardrails,
            final(self).cache_skip_if_range_shorter_than == old(
                self,
            ).cache_skip_if_range_shorter_than,
            Self::lookup_counted(old(self).metrics, final(self).metrics, tool_name@, use_cache, hit),
    {
        if use_cache {
            match &mut self.metrics {
                Some(metrics) => {
                    if hit {
                        metrics.inc_tool_cache_hit(tool_name);
                    } else {
                        metrics.inc_tool_cache_miss(tool_name);
                    }
                },
                None => {},
            }
        }
    }

    /// Ends an invocation: a result is stored in the cache where the
    /// invocation goes by it.
    pub fn complete(&mut self, call: &mut ToolCall, result: Result<Json, ToolError>) -> (step:
        CallStep)
        requires
            old(self).wf(),
        ensures
            final(self).wf(),
            final(self).config == old(self).config,
            final(self).timezone == old(self).timezone,
            final(self).metrics == old(self).metrics,
            final(self).guardrails == old(self).guardrails,
            final(self).cache_skip_if_range_shorter_than == old(
                self,
            ).cache_skip_if_range_shorter_than,
            step == CallStep::Return(result),
            Self::stored_after(old(self).cache, final(self).cache, old(call), step@),
            final(call).stage == CallStage::Done,
            final(call).run is None,
            final(call).finish is None,
            final(call).cached == old(call).cached,
            final(call).tool == old(call).tool,
            final(call).params == old(call).params,
            final(call).use_cache == old(call).use_cache,
            final(self).cache is Some == old(self).cache is Some,
            old(self).cache is Some ==> final(self).cache->0@ == (if result is Ok && old(
                call,
            ).use_cache {
                old(self).cache->0@.insert(
                    fingerprint(old(call).tool@, old(call).params@),
                    result->Ok_0@,
                )
            } else {
                old(self).cache->0@
            }),
    {
        call.stage = CallStage::Done;
        call.run = None;
        call.finish = None;
        match &result {
            Ok(value) => {
                if call.use_cache {
                    let _ = self.try_cache_put(call.tool.as_str(), &call.params, value);
                }
            },
            Err(_) => {},
        }
        CallStep::Return(result)
    }

    /// Runs the tool, the cost check being through.
    fn proceed(&mut self, call: &mut ToolCall, now: Instant) -> (step: CallStep)
        requires
            old(self).wf(),
            now.wf(),
        ensures
            final(self).wf(),
            final(self).config == old(self).config,
            final(self).timezone == old(self).timezone,
            final(self).metrics == old(self).metrics,
            final(self).guardrails == old(self).guardrails,
            final(self).cache_skip_if_range_shorter_than == old(
                self,
            ).cache_skip_if_range_shorter_than,
            final(call).tool == old(call).tool,
            final(call).params == old(call).params,
            final(call).use_cache == old(call).use_cache,
            final(call).cached == old(call).cached,
            step@ == old(self).dispatched(old(call).tool@, old(call).params@, now),
            Self::stored_after(old(self).cache, final(self).cache, old(call), step@),
            step is Ask ==> final(call).stage == CallStage::Asking && final(call).finish is Some
                && Ok::<PlanV, Seq<char>>(PlanV::Ask(requests_view(step->Ask_0@), final(call).finish->0@))
                == old(self).planned(old(call).tool@, old(call).params@, now),
            step is Health ==> final(call).stage
                == CallStage::Outside,
            step is Return ==> final(call).stage == CallStage::Done,
            !(step is AskStats) && !(step is AskRuntimeStats),
            final(call).run is None,
    {
        call.run = None;
        match self.dispatch(call.tool.as_str(), &call.params, now) {
            Err(e) => self.complete(call, Err(e)),
            Ok(Plan::Answer(value)) => self.complete(call, Ok(value)),
            Ok(Plan::Ask(requests, how)) => {
                call.finish = Some(how);
                call.stage = CallStage::Asking;
                CallStep::Ask(requests)
            },
            Ok(Plan::Health) => {
                call.stage = CallStage::Outside;
                CallStep::Health
            },
        }
    }

    /// Follows a step of the cost check.
    fn follow(&mut self, call: &mut ToolCall, step: GuardrailStep, now: Instant) -> (r: CallStep)
        requires
            old(self).wf(),
            now.wf(),
            old(call).run is Some,
            old(call).run->0.wf(),
            step is AskStats ==> step->AskStats_0 < old(call).run->0.checks@.len(),
            step is AskRuntimeStats ==> step->AskRuntimeStats_0 < old(call).run->0.checks@.len(),
        ensures
            final(self).wf(),
            final(self).config == old(self).config,
            final(self).timezone == old(self).timezone,
            final(self).guardrails == old(self).guardrails,
            final(self).cache_skip_if_range_shorter_than == old(
                self,
            ).cache_skip_if_range_shorter_than,
            final(call).tool == old(call).tool,
            final(call).params == old(call).params,
            final(call).use_cache == old(call).use_cache,
            final(call).cached == old(call).cached,
            r@ == old(self).guarded(
                old(call).run->0.checks@,
                step,
                old(call).tool@,
                old(call).params@,
                now,
            ),
            Self::check_counted(
                old(self).metrics,
                final(self).metrics,
                old(call).tool@,
                Self::refusal(old(call).run->0.checks@, step),
            ),
            Self::stored_after(old(self).cache, final(self).cache, old(call), r@),
            r is Ask ==> Ok::<PlanV, Seq<char>>(
                PlanV::Ask(requests_view(r->Ask_0@), final(call).finish->0@),
            ) == old(self).planned(old(call).tool@, old(call).params@, now),
            r is AskStats || r is AskRuntimeStats ==> final(call).stage == CallStage::Checking
                && final(call).run == old(call).run,
            final(call).run is Some ==> final(call).run == old(call).run,
            r is Ask ==> final(call).stage == CallStage::Asking && final(call).finish is Some,
            r is Health ==> final(call).stage
                == CallStage::Outside,
            r is Return ==> final(call).stage == CallStage::Done,
    {
        match step {
            GuardrailStep::AskStats(i) => {
                let made = match &call.run {
                    Some(run) => {
                        let check = &run.checks[i];
                        assert(check.start.wf() && check.end.wf());
                        match self.loki_client.query_stats(
                            check.query.as_str(),
                            Some(check.start),
                            Some(check.end),
                        ) {
                            Ok(request) => Ok(request),
                            Err(_) => Err(
                                GuardrailError::PrecheckFailed {
                                    start: check.start,
                                    end: check.end,
                                },
                            ),
                        }
                    },
                    None => Err(GuardrailError::OutOfTurn),
                };
                match made {
                    Ok(request) => {
                        call.stage = CallStage::Checking;
                        CallStep::AskStats(request)
                    },
                    Err(e) => {
                        let error = ToolError::Guardrail(e);
                        self.refuse(call.tool.as_str(), &error);
                        self.complete(call, Err(error))
                    },
                }
            },
            GuardrailStep::AskRuntimeStats(i) => {
                let made = match &call.run {
                    Some(run) => {
                        let check = &run.checks[i];
                        assert(check.start.wf() && check.end.wf());
                        match self.loki_client.query_runtime_stats(
                            check.query.as_str(),
                            Some(check.start),
                            Some(check.end),
                        ) {
                            Ok(request) => Ok(request),
                            Err(_) => Err(
                                GuardrailError::PrecheckFailed {
                                    start: check.start,
                                    end: check.end,
                                },
                            ),
                        }
                    },
                    None => Err(GuardrailError::OutOfTurn),
                };
                match made {
                    Ok(request) => {
                        call.stage = CallStage::Checking;
                        CallStep::AskRuntimeStats(request)
                    },
                    Err(e) => {
                        let error = ToolError::Guardrail(e);
                        self.refuse(call.tool.as_str(), &error);
                        self.complete(call, Err(error))
                    },
                }
            },
            GuardrailStep::Admitted => self.proceed(call, now),
            GuardrailStep::Refused(e) => {
                let error = ToolError::Guardrail(e);
                self.refuse(call.tool.as_str(), &error);
                self.complete(call, Err(error))
            },
        }
    }

    /// The step that an invocation begins with where the cache has no
    /// result for it: the cost check where it applies, else the tool.
    pub open spec fn first_step(&self, tool_name: Seq<char>, params: JsonV, now: Instant) -> StepV {
        if self.guards(tool_name) {
            match self.guardrail_plan(tool_name, params, now) {
                Err(w) => StepV::Return(Err(w)),
                Ok(list) => {
                    let ranges = flat_ranges(list);
                    let step = settle(self.guardrails, ranges, Seq::empty()).1;
                    match step {
                        GuardrailStep::AskStats(i) => match query_params(
                            flat_queries(list)[i as int],
                            Some(ranges[i as int].0),
                            Some(ranges[i as int].1),
                        ) {
                            Some(p) => StepV::AskStats(("/loki/api/v1/index/stats"@, p)),
                            None => StepV::Return(
                                Err(
                                    guardrail_message(
                                        GuardrailError::PrecheckFailed {
                                            start: ranges[i as int].0,
                                            end: ranges[i as int].1,
                                        },
                                    ),
                                ),
                            ),
                        },
                        GuardrailStep::Refused(e) => StepV::Return(Err(guardrail_message(e))),
                        _ => self.dispatched(tool_name, params, now),
                    }
                },
            }
        } else {
            self.dispatched(tool_name, params, now)
        }
    }

    /// What the cost check looks at depends on the configuration and the
    /// zone, not on the cache or the counters.
    pub proof fn checks_depend_on_settings(
        a: &ToolRouter,
        b: &ToolRouter,
        tool_name: Seq<char>,
        params: JsonV,
        now: Instant,
    )
        requires
            a.config == b.config,
            a.timezone == b.timezone,
        ensures
            a.guardrail_plan(tool_name, params, now) == b.guardrail_plan(tool_name, params, now),
    {
        reveal(ToolRouter::guardrail_plan);
    }

    /// What a tool begins with depends on the configuration and the zone,
    /// not on the cache or the counters.
    pub proof fn plans_depend_on_settings(
        a: &ToolRouter,
        b: &ToolRouter,
        tool_name: Seq<char>,
        params: JsonV,
        now: Instant,
    )
        requires
            a.config == b.config,
            a.timezone == b.timezone,
        ensures
            a.planned(tool_name, params, now) == b.planned(tool_name, params, now),
            a.dispatched(tool_name, params, now) == b.dispatched(tool_name, params, now),
    {
        reveal(ToolRouter::planned);
    }

    /// What an invocation begins with depends on the configuration, the
    /// zone and the limits, not on the cache or the counters.
    pub proof fn steps_depend_on_settings(
        a: &ToolRouter,
        b: &ToolRouter,
        tool_name: Seq<char>,
        params: JsonV,
        now: Instant,
    )
        requires
            a.config == b.config,
            a.timezone == b.timezone,
            a.guardrails == b.guardrails,
        ensures
            a.guardrail_plan(tool_name, params, now) == b.guardrail_plan(tool_name, params, now),
            a.planned(tool_name, params, now) == b.planned(tool_name, params, now),
            a.dispatched(tool_name, params, now) == b.dispatched(tool_name, params, now),
            a.first_step(tool_name, params, now) == b.first_step(tool_name, params, now),
    {
        Self::checks_depend_on_settings(a, b, tool_name, params, now);
        Self::plans_depend_on_settings(a, b, tool_name, params, now);
    }

    /// Begins an invocation with what the look-up in the cache found.
    /// Where the invocation goes by the cache and a result was found, the
    /// invocation ends with that result at once: a hit is counted, and
    /// neither the cost check nor the backend is asked. Else a miss is
    /// counted where the invocation goes by the cache, and the cost check
    /// begins where it applies to the tool, the tool itself where the
    /// check has nothing to ask.
    #[verifier::rlimit(100)]
    pub fn begin(
        &mut self,
        tool_name: &str,
        params: Json,
        found: Option<Json>,
        now: Instant,
    ) -> (r: (ToolCall, CallStep))
        requires
            old(self).wf(),
            now.wf(),
        ensures
            final(self).wf(),
            final(self).config == old(self).config,
            final(self).timezone == old(self).timezone,
            final(self).guardrails == old(self).guardrails,
            final(self).cache_skip_if_range_shorter_than == old(
                self,
            ).cache_skip_if_range_shorter_than,
            r.0.tool@ == tool_name@,
            r.0.params@ == normal_params(params@),
            r.0.use_cache == old(self).cache_wanted(tool_name@, normal_params(params@), now),
            r.0.cached == (r.0.use_cache && found is Some),
            r.0.cached ==> r.1@ == StepV::Return(Ok(found->0@)) && r.0.run is None && r.0.finish
                is None && final(self).cache == old(self).cache && Self::lookup_counted(
                old(self).metrics,
                final(self).metrics,
                tool_name@,
                true,
                true,
            ),
            !r.0.cached ==> r.1@ == old(self).first_step(
                tool_name@,
                normal_params(params@),
                now,
            ) && Self::stored_after(old(self).cache, final(self).cache, &r.0, r.1@)
                && Self::begun_counted(
                old(self).metrics,
                final(self).metrics,
                tool_name@,
                r.0.use_cache,
                old(self).first_refusal(tool_name@, normal_params(params@), now),
            ),
            r.1 is Return == (r.0.stage == CallStage::Done),
            r.1 is AskStats ==> r.0.stage == CallStage::Checking && r.0.run is Some
                && old(self).run_begun(r.0.run->0, tool_name@, normal_params(params@), now),
            r.1 is Ask ==> r.0.stage == CallStage::Asking && r.0.finish is Some && Ok::<
                PlanV,
                Seq<char>,
            >(PlanV::Ask(requests_view(r.1->Ask_0@), r.0.finish->0@)) == old(self).planned(
                tool_name@,
                normal_params(params@),
                now,
            ),
            !(r.1 is AskRuntimeStats),
    {
        let normalized = normalize_params(params);
        let use_cache = self.should_use_cache(tool_name, &normalized, now);
        let hit: Option<Json> = if use_cache {
            found
        } else {
            None
        };
        self.count_lookup(tool_name, use_cache, hit.is_some());
        let mut call = ToolCall {
            tool: tool_name.to_owned(),
            params: normalized,
            use_cache,
            cached: false,
            stage: CallStage::Done,
            run: None,
            finish: None,
        };
        if let Some(value) = hit {
            call.cached = true;
            return (call, CallStep::Return(Ok(value)));
        }
        proof {
            Self::steps_depend_on_settings(old(self), self, tool_name@, call.params@, now);
        }
        let run = match self.enforce_guardrails(tool_name, &call.params, now) {
            Ok(run) => run,
            Err(e) => {
                self.refuse(tool_name, &e);
                let step = self.complete(&mut call, Err(e));
                return (call, step);
            },
        };
        match run {
            None => {
                let step = self.proceed(&mut call, now);
                (call, step)
            },
            Some(mut run) => {
                let ghost list = self.guardrail_plan(tool_name@, call.params@, now)->Ok_0;
                assert(run.admissions@ =~= Seq::empty());
                let first = run.start();
                proof {
                    if first is AskStats {
                        let i = first->AskStats_0 as int;
                        assert(check_queries(run.checks@)[i] == run.checks@[i].query@);
                        assert(run.ranges()[i] == (run.checks@[i].start, run.checks@[i].end));
                    }
                }
                call.run = Some(run);
                let step = self.follow(&mut call, first, now);
                (call, step)
            },
        }
    }


    /// Begins an invocation: looks it up in the cache where it goes by the
    /// cache, and begins with what was found. A result from the cache is
    /// returned at once. Else the cost check begins where it applies to
    /// the tool, and the tool itself where the check has nothing to ask.
    #[verifier::rlimit(100)]
    pub fn call(&mut self, tool_name: &str, params: Json, now: Instant) -> (r: (ToolCall, CallStep))
        requires
            old(self).wf(),
            now.wf(),
        ensures
            final(self).wf(),
            final(self).config == old(self).config,
            final(self).timezone == old(self).timezone,
            final(self).guardrails == old(self).guardrails,
            final(self).cache_skip_if_range_shorter_than == old(
                self,
            ).cache_skip_if_range_shorter_than,
            r.0.tool@ == tool_name@,
            r.0.params@ == normal_params(params@),
            r.0.use_cache == old(self).cache_wanted(tool_name@, normal_params(params@), now),
            r.0.cached ==> r.0.use_cache && r.1 is Return && r.1->Return_0 is Ok && found(
                old(self).cache->0@,
                fingerprint(tool_name@, normal_params(params@)),
                Some(r.1->Return_0->Ok_0@),
            ) && final(self).cache == old(self).cache,
            !r.0.cached ==> r.1@ == old(self).first_step(
                tool_name@,
                normal_params(params@),
                now,
            ),
            Self::stored_after(old(self).cache, final(self).cache, &r.0, r.1@),
            r.0.cached ==> Self::lookup_counted(
                old(self).metrics,
                final(self).metrics,
                tool_name@,
                true,
                true,
            ),
            !r.0.cached ==> Self::begun_counted(
                old(self).metrics,
                final(self).metrics,
                tool_name@,
                r.0.use_cache,
                old(self).first_refusal(tool_name@, normal_params(params@), now),
            ),
            r.1 is Return == (r.0.stage == CallStage::Done),
            r.1 is AskStats ==> r.0.stage == CallStage::Checking && r.0.run is Some
                && old(self).run_begun(r.0.run->0, tool_name@, normal_params(params@), now),
            r.1 is Ask ==> r.0.stage == CallStage::Asking && r.0.finish is Some && Ok::<
                PlanV,
                Seq<char>,
            >(PlanV::Ask(requests_view(r.1->Ask_0@), r.0.finish->0@)) == old(self).planned(
                tool_name@,
                normal_params(params@),
                now,
            ),
            !(r.1 is AskRuntimeStats),
    {
        let normalized = normalize_params(params);
        let found = self.probe(tool_name, &normalized, now);
        let ghost held = self.cache;
        let ghost looked = crate::tools::dispatch::view_of(found);
        let r = self.begin(tool_name, normalized, found, now);
        proof {
            if r.0.cached && held is Some {
                assert(held->0@.insert(fingerprint(tool_name@, r.0.params@), looked->0) =~= held->0@);
            }
        }
        r
    }

    /// Takes the answer of the backend to `AskStats`: the body that came
    /// back, or nothing where the request failed.
    #[verifier::rlimit(100)]
    pub fn on_stats(&mut self, call: &mut ToolCall, body: Option<Json>, now: Instant) -> (r:
        CallStep)
        requires
            old(self).wf(),
            now.wf(),
            old(call).run is Some ==> old(call).run->0.wf(),
        ensures
            final(self).wf(),
            final(call).tool == old(call).tool,
            final(call).params == old(call).params,
            final(call).use_cache == old(call).use_cache,
            final(call).run is Some ==> final(call).run->0.wf(),
            Self::stored_after(old(self).cache, final(self).cache, old(call), r@),
            old(call).stage != CallStage::Checking || old(call).run is None ==> r@
                == StepV::Return(Err(guardrail_message(GuardrailError::OutOfTurn)))
                && final(self).metrics == old(self).metrics,
            old(call).stage == CallStage::Checking && old(call).run is Some ==> r@ == old(
                self,
            ).guarded(
                old(call).run->0.checks@,
                old(call).run->0.stats_step(stats_answer(body_view(body))).1,
                old(call).tool@,
                old(call).params@,
                now,
            ) && Self::check_counted(
                old(self).metrics,
                final(self).metrics,
                old(call).tool@,
                Self::refusal(
                    old(call).run->0.checks@,
                    old(call).run->0.stats_step(stats_answer(body_view(body))).1,
                ),
            ),
            r is Return == (final(call).stage == CallStage::Done),
            r is AskStats || r is AskRuntimeStats ==> final(call).stage == CallStage::Checking
                && old(call).run is Some && final(call).run is Some && Self::run_after(
                old(call).run->0,
                final(call).run->0,
                old(call).run->0.stats_step(stats_answer(body_view(body))),
            ),
            r is AskRuntimeStats ==> final(call).run->0.primary is Some
                && stats_answer(body_view(body)) == Some(final(call).run->0.primary->0.counts()),
            r is Ask ==> final(call).stage == CallStage::Asking && final(call).finish is Some
                && Ok::<PlanV, Seq<char>>(
                PlanV::Ask(requests_view(r->Ask_0@), final(call).finish->0@),
            ) == old(self).planned(old(call).tool@, old(call).params@, now),
    {
        let stats = match body {
            Some(b) => match unwrap_envelope_or_raw(b) {
                Ok(data) => Some(LokiQueryStats::from_value(data)),
                Err(_) => None,
            },
            None => None,
        };
        let mut run = match (call.stage, call.run.take()) {
            (CallStage::Checking, Some(run)) => run,
            _ => {
                return self.complete(call, Err(ToolError::Guardrail(GuardrailError::OutOfTurn)));
            },
        };
        let step = run.on_stats(stats);
        call.run = Some(run);
        self.follow(call, step, now)
    }

    /// Takes the answer of the backend to `AskRuntimeStats`.
    #[verifier::rlimit(100)]
    pub fn on_runtime_stats(&mut self, call: &mut ToolCall, body: Option<Json>, now: Instant) -> (r:
        CallStep)
        requires
            old(self).wf(),
            now.wf(),
            old(call).run is Some ==> old(call).run->0.wf(),
        ensures
            final(self).wf(),
            final(call).tool == old(call).tool,
            final(call).params == old(call).params,
            final(call).use_cache == old(call).use_cache,
            final(call).run is Some ==> final(call).run->0.wf(),
            Self::stored_after(old(self).cache, final(self).cache, old(call), r@),
            old(call).stage != CallStage::Checking || old(call).run is None ==> r@
                == StepV::Return(Err(guardrail_message(GuardrailError::OutOfTurn)))
                && final(self).metrics == old(self).metrics,
            old(call).stage == CallStage::Checking && old(call).run is Some ==> r@ == old(
                self,
            ).guarded(
                old(call).run->0.checks@,
                old(call).run->0.runtime_step(runtime_answer(body_view(body))).1,
                old(call).tool@,
                old(call).params@,
                now,
            ) && Self::check_counted(
                old(self).metrics,
                final(self).metrics,
                old(call).tool@,
                Self::refusal(
                    old(call).run->0.checks@,
                    old(call).run->0.runtime_step(runtime_answer(body_view(body))).1,
                ),
            ),
            r is Return == (final(call).stage == CallStage::Done),
            r is AskStats ==> final(call).stage == CallStage::Checking && old(call).run is Some
                && final(call).run is Some && Self::run_after(
                old(call).run->0,
                final(call).run->0,
                old(call).run->0.runtime_step(runtime_answer(body_view(body))),
            ),
            !(r is AskRuntimeStats),
            r is Ask ==> final(call).stage == CallStage::Asking && final(call).finish is Some
                && Ok::<PlanV, Seq<char>>(
                PlanV::Ask(requests_view(r->Ask_0@), final(call).finish->0@),
            ) == old(self).planned(old(call).tool@, old(call).params@, now),
    {
        let stats = match body {
            Some(b) => match unwrap_envelope(&b) {
                Ok(data) => Some(runtime_stats_from(crate::loki::client::data_value(data))),
                Err(_) => None,
            },
            None => None,
        };
        let mut run = match (call.stage, call.run.take()) {
            (CallStage::Checking, Some(run)) => run,
            _ => {
                return self.complete(call, Err(ToolError::Guardrail(GuardrailError::OutOfTurn)));
            },
        };
        let step = run.on_runtime_stats(stats);
        call.run = Some(run);
        self.follow(call, step, now)
    }

    /// Takes the answers of the backend to `Ask`, in the order of the
    /// requests, and ends the invocation with what the tool makes of
    /// them. `ratio` is only shown by a comparison.
    pub fn on_answers(&mut self, call: &mut ToolCall, answers: Vec<Json>, ratio: Json) -> (r:
        CallStep)
        requires
            old(self).wf(),
        ensures
            final(self).wf(),
            final(self).metrics == old(self).metrics,
            final(call).stage == CallStage::Done,
            final(call).run is None,
            final(call).tool == old(call).tool,
            final(call).params == old(call).params,
            final(call).use_cache == old(call).use_cache,
            old(call).stage != CallStage::Asking || old(call).finish is None ==> r@
                == StepV::Return(Err("invalid tool parameters"@)),
            old(call).stage == CallStage::Asking && old(call).finish is Some ==> r@
                == StepV::Return(finished(old(call).finish->0@, items_view(answers@), ratio@)),
            Self::stored_after(old(self).cache, final(self).cache, old(call), r@),
    {
        let how = match (call.stage, call.finish.take()) {
            (CallStage::Asking, Some(how)) => how,
            _ => {
                return self.complete(call, Err(ToolError::InvalidParameters));
            },
        };
        let result = finish(how, answers, ratio);
        self.complete(call, result)
    }

    /// Ends the invocation with a failure to reach the backend, or with
    /// what was worked out elsewhere.
    pub fn on_outside(&mut self, call: &mut ToolCall, result: Result<Json, String>) -> (r: CallStep)
        requires
            old(self).wf(),
        ensures
            final(self).wf(),
            final(self).metrics == old(self).metrics,
            final(call).stage == CallStage::Done,
            final(call).run is None,
            final(call).tool == old(call).tool,
            final(call).params == old(call).params,
            final(call).use_cache == old(call).use_cache,
            r@ == StepV::Return(
                match result {
                    Ok(v) => Ok(v@),
                    Err(m) => Err(m@),
                },
            ),
            Self::stored_after(old(self).cache, final(self).cache, old(call), r@),
    {
        match result {
            Ok(value) => self.complete(call, Ok(value)),
            Err(message) => self.complete(call, Err(ToolError::Backend(message))),
        }
    }
}

} // verus!
