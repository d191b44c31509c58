//! The tools and the path that every invocation takes: which tools there
//! are, which of them are cached and which are held to the cost limits,
//! under which fingerprint a result is cached, and which queries over
//! which ranges the cost check of an invocation looks at.

pub mod analysis;
pub mod call;
pub mod discovery;
pub mod dispatch;
pub mod params;
pub mod query;
pub mod utility;

use vstd::prelude::*;
use crate::cache::{found, nothing_stored, QueryCache, MAX_TTL_SECONDS};
use crate::config::{Config, ConfigError, ConfigFault, SavedQuery};
use crate::error::ToolError;
use crate::guardrails::{
    byte_size, guardrail_message, parse_byte_size, GuardrailCheck, GuardrailError, GuardrailRun,
    GuardrailSettings, Stage,
};
use crate::json::{Json, JsonV, Number};
use crate::loki::client::{client_fault, LokiClient};
use crate::metrics::MetricsRegistry;
use crate::text::{
    chars_contain, chars_of, has_infix, join3, lower_chars, lowered, occurs_at, same_text,
};
use crate::time::{
    fault_words, known_zone, optional_view, parse_std_duration, parse_time_reference,
    resolve_time_range, std_duration, time_range, time_reference, Failure, Instant, Span, TimeError,
    TimeFault, Zone,
};
use crate::tools::analysis::{CompareRangesInput, DetectPatternsInput, QueryStatsInput};
use crate::tools::discovery::{LabelValuesParams, SeriesParams, StartEndParams};
use crate::tools::query::{
    aggregate, aggregated, build_query_string, known_aggregation, query_text, range_or_default,
    selector_from_labels, selector_text, validate_aggregation, BuildQueryInput, QueryLogsInput,
    QueryMetricsInput, RunSavedQueryInput, TailInput,
};

verus! {

// ---------------------------------------------------------------------------
// The tools
// ---------------------------------------------------------------------------
/// The tools whose results are cached.
pub open spec fn cacheable(tool_name: Seq<char>) -> bool {
    tool_name == "loki_list_labels"@ || tool_name == "loki_label_values"@ || tool_name
        == "loki_series"@ || tool_name == "loki_query_logs"@ || tool_name == "loki_query_metrics"@
        || tool_name == "loki_build_query"@ || tool_name == "loki_tail"@ || tool_name
        == "loki_run_saved_query"@ || tool_name == "loki_query_stats"@ || tool_name
        == "loki_detect_patterns"@ || tool_name == "loki_compare_ranges"@
}

/// The tools that are held to the cost limits.
pub open spec fn guardrailed(tool_name: Seq<char>) -> bool {
    tool_name == "loki_query_logs"@ || tool_name == "loki_query_metrics"@ || tool_name
        == "loki_build_query"@ || tool_name == "loki_tail"@ || tool_name
        == "loki_run_saved_query"@ || tool_name == "loki_detect_patterns"@ || tool_name
        == "loki_compare_ranges"@
}

/// The tools that there are.
pub open spec fn known_tool(tool_name: Seq<char>) -> bool {
    cacheable(tool_name) || tool_name == "loki_describe_schema"@ || tool_name
        == "loki_explain_query"@ || tool_name == "loki_suggest_metric_rule"@ || tool_name
        == "loki_check_health"@
}

pub fn is_cacheable_tool(tool_name: &str) -> (r: bool)
    ensures
        r == cacheable(tool_name@),
{
    same_text(tool_name, "loki_list_labels") || same_text(tool_name, "loki_label_values")
        || same_text(tool_name, "loki_series") || same_text(tool_name, "loki_query_logs")
        || same_text(tool_name, "loki_query_metrics") || same_text(tool_name, "loki_build_query")
        || same_text(tool_name, "loki_tail") || same_text(tool_name, "loki_run_saved_query")
        || same_text(tool_name, "loki_query_stats") || same_text(tool_name, "loki_detect_patterns")
        || same_text(tool_name, "loki_compare_ranges")
}

pub fn is_guardrailed_tool(tool_name: &str) -> (r: bool)
    ensures
        r == guardrailed(tool_name@),
{
    same_text(tool_name, "loki_query_logs") || same_text(tool_name, "loki_query_metrics")
        || same_text(tool_name, "loki_build_query") || same_text(tool_name, "loki_tail")
        || same_text(tool_name, "loki_run_saved_query") || same_text(
        tool_name,
        "loki_detect_patterns",
    ) || same_text(tool_name, "loki_compare_ranges")
}

pub fn is_known_tool(tool_name: &str) -> (r: bool)
    ensures
        r == known_tool(tool_name@),
{
    is_cacheable_tool(tool_name) || same_text(tool_name, "loki_describe_schema") || same_text(
        tool_name,
        "loki_explain_query",
    ) || same_text(tool_name, "loki_suggest_metric_rule") || same_text(
        tool_name,
        "loki_check_health",
    )
}

/// A failure counts as one of the cost check where its message says
/// `guardrail`, in either case.
pub open spec fn guardrail_words(message: Seq<char>) -> bool {
    has_infix(lowered(message), "guardrail"@)
}

/// Every refusal of the cost check but that of a range that runs
/// backwards says `guardrail`, so that it is counted and filed as a
/// refusal of the cost check.
pub proof fn refusals_say_guardrail(e: GuardrailError)
    requires
        !(e is NegativeRange),
    ensures
        guardrail_words(guardrail_message(e)),
{
    reveal_strlit("guardrail");
    let m = guardrail_message(e);
    let low = lowered(m);
    match e {
        GuardrailError::NegativeRange => {},
        GuardrailError::PrecheckFailed { start, end } => {
            reveal_strlit(
                "guardrail pre-check failed for query. narrow the query or use a shorter range (start=",
            );
            assert(low.subrange(0, 9) =~= "guardrail"@);
            assert(occurs_at(low, "guardrail"@, 0));
        },
        GuardrailError::MissingStreams => {
            reveal_strlit(
                "guardrail pre-check failed: Loki stats response is missing stream estimates. narrow the query or use a shorter range",
            );
            assert(low.subrange(0, 9) =~= "guardrail"@);
            assert(occurs_at(low, "guardrail"@, 0));
        },
        GuardrailError::MissingBytes => {
            reveal_strlit(
                "guardrail pre-check failed: Loki stats response is missing byte estimates. narrow the query or use a shorter range",
            );
            assert(low.subrange(0, 9) =~= "guardrail"@);
            assert(occurs_at(low, "guardrail"@, 0));
        },
        GuardrailError::TooManyBytes { estimated, limit } => {
            reveal_strlit("query rejected by guardrail: estimated bytes scanned (");
            assert(low.subrange(18, 27) =~= "guardrail"@);
            assert(occurs_at(low, "guardrail"@, 18));
        },
        GuardrailError::TooManyStreams { estimated, limit } => {
            reveal_strlit("query rejected by guardrail: estimated streams (");
            assert(low.subrange(18, 27) =~= "guardrail"@);
            assert(occurs_at(low, "guardrail"@, 18));
        },
        GuardrailError::OutOfTurn => {
            reveal_strlit(
                "guardrail pre-check failed: the backend answered out of turn. narrow the query or use a shorter range",
            );
            assert(low.subrange(0, 9) =~= "guardrail"@);
            assert(occurs_at(low, "guardrail"@, 0));
        },
    }
}

pub fn is_guardrail_error(message: &str) -> (r: bool)
    ensures
        r == guardrail_words(message@),
{
    let raw = chars_of(message);
    let lower = lower_chars(&raw);
    chars_contain(&lower, &chars_of("guardrail"))
}

/// The arguments as the tools read them: no arguments are an empty object.
pub open spec fn normal_params(params: JsonV) -> JsonV {
    if params is Null {
        JsonV::Object(Seq::empty())
    } else {
        params
    }
}

pub fn normalize_params(params: Json) -> (r: Json)
    ensures
        r@ == normal_params(params@),
{
    if params.is_null() {
        let members: Vec<(String, Json)> = Vec::new();
        proof {
            crate::json::object_view(members);
            assert(crate::json::members_view(members@) =~= Seq::empty());
        }
        Json::Object(members)
    } else {
        params
    }
}

// ---------------------------------------------------------------------------
// Fingerprints
// ---------------------------------------------------------------------------
#[verifier::external_type_specification]
#[verifier::external_body]
pub struct ExValue(serde_json::Value);

/// The text that `serde_json` writes for a document.
pub uninterp spec fn written(value: JsonV) -> Seq<char>;

/// The document as a value of `serde_json`, part for part. A number kept
/// as text is read back by `serde_json`.
#[verifier::external_body]
fn to_outside(value: &Json) -> serde_json::Value {
    match value {
        Json::Null => serde_json::Value::Null,
        Json::Bool(b) => (*b).into(),
        Json::Number(Number::Unsigned(n)) => (*n).into(),
        Json::Number(Number::Negative(n)) => (*n).into(),
        Json::Real(text) => serde_json::from_str(text).unwrap_or_default(),
        Json::Text(s) => s.clone().into(),
        Json::Array(items) => items.iter().map(to_outside).collect(),
        Json::Object(members) => members.iter().map(|m| (m.0.clone(), to_outside(&m.1))).collect(),
    }
}

/// `serde_json::to_string` on the document.
#[verifier::external_body]
pub(crate) fn write_json(value: &Json) -> (r: String)
    ensures
        r@ == written(value@),
{
    serde_json::to_string(&to_outside(value)).unwrap_or_default()
}

/// The fingerprint of an invocation: the tool, a colon, and the arguments
/// written in canonical form.
pub open spec fn fingerprint(tool_name: Seq<char>, params: JsonV) -> Seq<char> {
    tool_name + ":"@ + written(params.canonical())
}

/// The fingerprint does not depend on the order of members: arguments
/// that differ only in the order of the members of their objects, at any
/// depth, have the same fingerprint under a tool.
pub proof fn fingerprint_ignores_order(tool_name: Seq<char>, a: JsonV, b: JsonV)
    requires
        a.reordered(b),
    ensures
        fingerprint(tool_name, a) == fingerprint(tool_name, b),
{
    crate::json::canonical_ignores_order(a, b);
}

pub fn cache_key(tool_name: &str, params: &Json) -> (r: Result<String, ToolError>)
    ensures
        r is Ok,
        r->Ok_0@ == fingerprint(tool_name@, params@),
{
    let canonical = params.canonicalize();
    let serialized = write_json(&canonical);
    Ok(join3(tool_name, ":", serialized.as_str()))
}

// ---------------------------------------------------------------------------
// Ranges
// ---------------------------------------------------------------------------
/// The message of a failure to read a time.
pub open spec fn time_words(failure: Failure) -> Seq<char> {
    fault_words(failure.0) + failure.1
}

pub open spec fn invalid_words() -> Seq<char> {
    "invalid tool parameters"@
}

/// The range that two optional time references mean, or the message of
/// what is wrong with them.
pub open spec fn window(
    start: Option<Seq<char>>,
    end: Option<Seq<char>>,
    zone: Zone,
    now: Instant,
) -> Result<(Instant, Instant), Seq<char>> {
    match time_range(start, end, zone, now) {
        Ok(range) => Ok(range),
        Err(f) => Err(time_words(f)),
    }
}

/// The instant that a time reference means, or the message of what is
/// wrong with it.
pub open spec fn moment(text: Seq<char>, zone: Zone, now: Instant) -> Result<Instant, Seq<char>> {
    match time_reference(text, zone, now) {
        Ok(at) => Ok(at),
        Err(f) => Err(time_words(f)),
    }
}

/// The length of a range, or the message that it runs backwards.
pub open spec fn length(range: (Instant, Instant)) -> Result<Span, Seq<char>> {
    match range.1.elapsed(range.0) {
        Some(span) => Ok(span),
        None => Err("time range must not be negative"@),
    }
}

pub fn as_text(text: &Option<String>) -> (r: Option<&str>)
    ensures
        optional_view(r) == crate::tools::params::text_of(*text),
{
    match text {
        Some(s) => Some(s.as_str()),
        None => None,
    }
}

pub fn window_of(start: Option<&str>, end: Option<&str>, zone: Zone, now: Instant) -> (r: Result<
    (Instant, Instant),
    ToolError,
>)
    requires
        now.wf(),
    ensures
        match r {
            Ok(range) => window(optional_view(start), optional_view(end), zone, now) == Ok::<
                _,
                Seq<char>,
            >(range),
            Err(e) => window(optional_view(start), optional_view(end), zone, now) == Err::<
                (Instant, Instant),
                _,
            >(e.words()),
        },
        r is Ok ==> r->Ok_0.0.wf() && r->Ok_0.1.wf() && !r->Ok_0.0.later_than(r->Ok_0.1),
{
    match resolve_time_range(start, end, zone, now) {
        Ok(range) => Ok(range),
        Err(e) => Err(ToolError::Time(e)),
    }
}

pub fn moment_of(text: &str, zone: Zone, now: Instant) -> (r: Result<Instant, ToolError>)
    requires
        now.wf(),
    ensures
        match r {
            Ok(at) => moment(text@, zone, now) == Ok::<_, Seq<char>>(at),
            Err(e) => moment(text@, zone, now) == Err::<Instant, _>(e.words()),
        },
        r is Ok ==> r->Ok_0.wf(),
{
    match parse_time_reference(text, zone, now) {
        Ok(at) => Ok(at),
        Err(e) => Err(ToolError::Time(e)),
    }
}

pub fn duration_between(start: Instant, end: Instant) -> (r: Result<Span, ToolError>)
    requires
        start.wf(),
        end.wf(),
    ensures
        match r {
            Ok(span) => length((start, end)) == Ok::<_, Seq<char>>(span),
            Err(e) => length((start, end)) == Err::<Span, _>(e.words()),
        },
        r is Ok ==> r->Ok_0.wf(),
{
    match end.since(&start) {
        Some(span) => Ok(span),
        None => Err(ToolError::NegativeRange),
    }
}

/// The message for a range that runs backwards.
pub open spec fn inverted_words() -> Seq<char> {
    "start time must be less than or equal to end time"@
}

pub fn ensure_ordered_range(start: Instant, end: Instant) -> (r: Result<(), ToolError>)
    ensures
        r is Ok == !start.later_than(end),
        r is Err ==> r->Err_0.words() == inverted_words(),
{
    if start.after(&end) {
        let e = TimeError::of(TimeFault::Inverted);
        assert(fault_words(TimeFault::Inverted) + Seq::<char>::empty() == inverted_words());
        Err(ToolError::Time(e))
    } else {
        Ok(())
    }
}

/// The length of the range that two optional time references mean.
pub open spec fn window_length(
    start: Option<Seq<char>>,
    end: Option<Seq<char>>,
    zone: Zone,
    now: Instant,
) -> Result<Span, Seq<char>> {
    match window(start, end, zone, now) {
        Ok(range) => length(range),
        Err(w) => Err(w),
    }
}

pub fn range_duration_from_bounds(
    start: Option<&str>,
    end: Option<&str>,
    zone: Zone,
    now: Instant,
) -> (r: Result<Span, ToolError>)
    requires
        now.wf(),
    ensures
        match r {
            Ok(span) => window_length(optional_view(start), optional_view(end), zone, now) == Ok::<
                _,
                Seq<char>,
            >(span),
            Err(e) => window_length(optional_view(start), optional_view(end), zone, now) == Err::<
                Span,
                _,
            >(e.words()),
        },
        r is Ok ==> r->Ok_0.wf(),
{
    let (start_time, end_time) = window_of(start, end, zone, now)?;
    duration_between(start_time, end_time)
}

/// The length that a discovery call is cached by: none where it gives no
/// bound.
pub open spec fn discovery_length(
    start: Option<Seq<char>>,
    end: Option<Seq<char>>,
    zone: Zone,
    now: Instant,
) -> Result<Option<Span>, Seq<char>> {
    if start is None && end is None {
        Ok(None)
    } else {
        match window_length(start, end, zone, now) {
            Ok(span) => Ok(Some(span)),
            Err(w) => Err(w),
        }
    }
}

pub fn optional_discovery_range(
    start: Option<&str>,
    end: Option<&str>,
    zone: Zone,
    now: Instant,
) -> (r: Result<Option<Span>, ToolError>)
    requires
        now.wf(),
    ensures
        match r {
            Ok(span) => discovery_length(optional_view(start), optional_view(end), zone, now)
                == Ok::<_, Seq<char>>(span),
            Err(e) => discovery_length(optional_view(start), optional_view(end), zone, now)
                == Err::<Option<Span>, _>(e.words()),
        },
        r is Ok && r->Ok_0 is Some ==> r->Ok_0->0.wf(),
{
    if start.is_none() && end.is_none() {
        return Ok(None);
    }
    let span = range_duration_from_bounds(start, end, zone, now)?;
    Ok(Some(span))
}

// ---------------------------------------------------------------------------
// Saved queries
// ---------------------------------------------------------------------------
/// The place of the first saved query of that name.
pub open spec fn saved_at(queries: Seq<SavedQuery>, name: Seq<char>) -> Option<int>
    decreases queries.len(),
{
    if queries.len() == 0 {
        None
    } else if queries[0].name@ == name {
        Some(0)
    } else {
        match saved_at(queries.drop_first(), name) {
            Some(i) => Some(i + 1),
            None => None,
        }
    }
}

pub fn find_saved_query<'a>(queries: &'a Vec<SavedQuery>, name: &str) -> (r: Option<&'a SavedQuery>)
    ensures
        r is Some == saved_at(queries@, name@) is Some,
        r is Some ==> 0 <= saved_at(queries@, name@)->0 < queries@.len() && *r->0
            == queries@[saved_at(queries@, name@)->0],
{
    let mut i: usize = 0;
    assert(queries@.skip(0) == queries@);
    while i < queries.len()
        invariant
            i <= queries.len(),
            saved_at(queries@, name@) == (match saved_at(queries@.skip(i as int), name@) {
                Some(k) => Some(k + i),
                None => None,
            }),
        decreases queries.len() - i,
    {
        proof {
            assert(queries@.skip(i as int)[0] == queries@[i as int]);
            assert(queries@.skip(i as int).drop_first() == queries@.skip(i + 1));
        }
        if same_text(queries[i].name.as_str(), name) {
            return Some(&queries[i]);
        }
        i = i + 1;
    }
    None
}

/// The message for a saved query that is not there.
pub open spec fn not_saved_words(name: Seq<char>) -> Seq<char> {
    "saved query not found: "@ + name
}

// ---------------------------------------------------------------------------
// The router
// ---------------------------------------------------------------------------
/// One query and the ranges over which the cost check looks at it.
#[derive(Debug)]
pub struct GuardrailQuery {
    pub query: String,
    pub ranges: Vec<(Instant, Instant)>,
}

pub type GuardrailQueryV = (Seq<char>, Seq<(Instant, Instant)>);

impl View for GuardrailQuery {
    type V = GuardrailQueryV;

    open spec fn view(&self) -> GuardrailQueryV {
        (self.query@, self.ranges@)
    }
}

pub open spec fn queries_view(list: Seq<GuardrailQuery>) -> Seq<GuardrailQueryV> {
    Seq::new(list.len(), |i: int| list[i]@)
}

/// What every invocation needs at hand.
pub struct ToolRouter {
    pub config: Config,
    pub loki_client: LokiClient,
    pub timezone: Zone,
    pub metrics: Option<MetricsRegistry>,
    pub cache: Option<QueryCache>,
    pub cache_skip_if_range_shorter_than: Span,
    pub guardrails: GuardrailSettings,
}

/// A limit of zero is no limit.
pub open spec fn limit_of(n: u64) -> Option<u64> {
    if n == 0 {
        None
    } else {
        Some(n)
    }
}

fn one_query(query: String, range: (Instant, Instant)) -> (r: Vec<GuardrailQuery>)
    ensures
        queries_view(r@) == Seq::<GuardrailQueryV>::empty().push(
            (query@, Seq::<(Instant, Instant)>::empty().push(range)),
        ),
        r@.len() == 1,
        r@[0].ranges@.len() == 1,
        r@[0].ranges@[0] == range,
{
    let mut ranges: Vec<(Instant, Instant)> = Vec::new();
    ranges.push(range);
    let mut r: Vec<GuardrailQuery> = Vec::new();
    r.push(GuardrailQuery { query, ranges });
    assert(r@[0].ranges@ =~= Seq::<(Instant, Instant)>::empty().push(range));
    assert(queries_view(r@) =~= Seq::<GuardrailQueryV>::empty().push(
        (query@, Seq::<(Instant, Instant)>::empty().push(range)),
    ));
    r
}

/// One query over one range, or the failure to find the range.
pub open spec fn one_check(query: Seq<char>, range: Result<(Instant, Instant), Seq<char>>) -> Result<
    Seq<GuardrailQueryV>,
    Seq<char>,
> {
    match range {
        Ok(r) => Ok(
            Seq::<GuardrailQueryV>::empty().push(
                (query, Seq::<(Instant, Instant)>::empty().push(r)),
            ),
        ),
        Err(w) => Err(w),
    }
}

/// The range of a saved query: its own, or the one given in its place,
/// counted back from now.
pub open spec fn saved_window(
    saved: SavedQuery,
    override_range: Option<Seq<char>>,
    zone: Zone,
    now: Instant,
) -> Result<(Instant, Instant), Seq<char>> {
    window(
        Some(
            match override_range {
                Some(r) => r,
                None => saved.range@,
            },
        ),
        None,
        zone,
        now,
    )
}

/// The two ranges that a comparison looks at, each in order.
pub open spec fn compared(
    input: crate::tools::analysis::CompareRangesInputV,
    zone: Zone,
    now: Instant,
) -> Result<((Instant, Instant), (Instant, Instant)), Seq<char>> {
    match moment(input.baseline_start, zone, now) {
        Err(w) => Err(w),
        Ok(bs) => match moment(input.baseline_end, zone, now) {
            Err(w) => Err(w),
            Ok(be) => if bs.later_than(be) {
                Err(inverted_words())
            } else {
                match moment(input.compare_start, zone, now) {
                    Err(w) => Err(w),
                    Ok(cs) => match moment(input.compare_end, zone, now) {
                        Err(w) => Err(w),
                        Ok(ce) => if cs.later_than(ce) {
                            Err(inverted_words())
                        } else {
                            Ok(((bs, be), (cs, ce)))
                        },
                    },
                }
            },
        },
    }
}

pub fn compared_ranges(input: &CompareRangesInput, zone: Zone, now: Instant) -> (r: Result<
    ((Instant, Instant), (Instant, Instant)),
    ToolError,
>)
    requires
        now.wf(),
    ensures
        match r {
            Ok(ranges) => compared(input@, zone, now) == Ok::<_, Seq<char>>(ranges),
            Err(e) => compared(input@, zone, now) == Err::<
                ((Instant, Instant), (Instant, Instant)),
                _,
            >(e.words()),
        },
        r is Ok ==> r->Ok_0.0.0.wf() && r->Ok_0.0.1.wf() && r->Ok_0.1.0.wf() && r->Ok_0.1.1.wf(),
{
    let baseline_start = moment_of(input.baseline_start.as_str(), zone, now)?;
    let baseline_end = moment_of(input.baseline_end.as_str(), zone, now)?;
    ensure_ordered_range(baseline_start, baseline_end)?;
    let compare_start = moment_of(input.compare_start.as_str(), zone, now)?;
    let compare_end = moment_of(input.compare_end.as_str(), zone, now)?;
    ensure_ordered_range(compare_start, compare_end)?;
    Ok(((baseline_start, baseline_end), (compare_start, compare_end)))
}

/// The query that `loki_build_query` runs: the one built from the filters,
/// wrapped in the aggregation where one is asked for.
pub open spec fn built_query(input: crate::tools::query::BuildQueryInputV) -> Result<
    Seq<char>,
    Seq<char>,
> {
    match input.aggregation {
        Some(name) => if known_aggregation(name) {
            Ok(aggregated(name, query_text(input), range_or_default(input.aggregation_range)))
        } else {
            Err(
                "unsupported aggregation: "@ + name
                    + ". expected one of count_over_time, rate, bytes_over_time, bytes_rate"@,
            )
        },
        None => Ok(query_text(input)),
    }
}

pub fn built_query_of(input: &BuildQueryInput) -> (r: Result<String, ToolError>)
    ensures
        match r {
            Ok(q) => built_query(input@) == Ok::<_, Seq<char>>(q@),
            Err(e) => built_query(input@) == Err::<Seq<char>, _>(e.words()),
        },
{
    let query = build_query_string(input)?;
    match &input.aggregation {
        Some(name) => {
            validate_aggregation(name.as_str())?;
            let range: &str = match &input.aggregation_range {
                Some(r) => r.as_str(),
                None => "5m",
            };
            Ok(aggregate(name.as_str(), query.as_str(), range))
        },
        None => Ok(query),
    }
}

impl ToolRouter {
    pub open spec fn wf(&self) -> bool {
        &&& self.guardrails.wf()
        &&& self.cache_skip_if_range_shorter_than.wf()
        &&& self.metrics is Some ==> self.metrics->0.wf()
    }

    /// What the cost check of an invocation looks at: per tool, the query
    /// and its ranges, or the message of what is wrong with the
    /// arguments. A tool that is not held to the limits has nothing
    /// looked at.
    #[verifier::opaque]
    pub open spec fn guardrail_plan(&self, tool_name: Seq<char>, params: JsonV, now: Instant) -> Result<
        Seq<GuardrailQueryV>,
        Seq<char>,
    > {
        let zone = self.timezone;
        if tool_name == "loki_query_logs"@ {
            if QueryLogsInput::fits(params) {
                let input = QueryLogsInput::reading(params);
                one_check(input.query, window(input.start, input.end, zone, now))
            } else {
                Err(invalid_words())
            }
        } else if tool_name == "loki_query_metrics"@ {
            if QueryMetricsInput::fits(params) {
                let input = QueryMetricsInput::reading(params);
                one_check(input.query, window(input.start, input.end, zone, now))
            } else {
                Err(invalid_words())
            }
        } else if tool_name == "loki_build_query"@ {
            if BuildQueryInput::fits(params) {
                let input = BuildQueryInput::reading(params);
                match built_query(input) {
                    Ok(query) => one_check(query, window(input.start, input.end, zone, now)),
                    Err(w) => Err(w),
                }
            } else {
                Err(invalid_words())
            }
        } else if tool_name == "loki_tail"@ {
            if TailInput::fits(params) {
                let input = TailInput::reading(params);
                if input.labels.len() == 0 {
                    Err("tail labels must not be empty"@)
                } else {
                    one_check(selector_text(input.labels), window(None, None, zone, now))
                }
            } else {
                Err(invalid_words())
            }
        } else if tool_name == "loki_run_saved_query"@ {
            if RunSavedQueryInput::fits(params) {
                let input = RunSavedQueryInput::reading(params);
                match saved_at(self.config.saved_queries@, input.name) {
                    Some(i) => one_check(
                        self.config.saved_queries@[i].query@,
                        saved_window(self.config.saved_queries@[i], input.override_range, zone, now),
                    ),
                    None => Err(not_saved_words(input.name)),
                }
            } else {
                Err(invalid_words())
            }
        } else if tool_name == "loki_detect_patterns"@ {
            if DetectPatternsInput::fits(params) {
                let input = DetectPatternsInput::reading(params);
                one_check(input.query, window(input.start, input.end, zone, now))
            } else {
                Err(invalid_words())
            }
        } else if tool_name == "loki_compare_ranges"@ {
            if CompareRangesInput::fits(params) {
                let input = CompareRangesInput::reading(params);
                match compared(input, zone, now) {
                    Ok((baseline, compare)) => Ok(
                        Seq::<GuardrailQueryV>::empty().push(
                            (
                                input.query,
                                Seq::<(Instant, Instant)>::empty().push(baseline).push(compare),
                            ),
                        ),
                    ),
                    Err(w) => Err(w),
                }
            } else {
                Err(invalid_words())
            }
        } else {
            Ok(Seq::empty())
        }
    }

    pub fn guardrail_queries(&self, tool_name: &str, params: &Json, now: Instant) -> (r: Result<
        Vec<GuardrailQuery>,
        ToolError,
    >)
        requires
            now.wf(),
        ensures
            match r {
                Ok(list) => self.guardrail_plan(tool_name@, params@, now) == Ok::<_, Seq<char>>(
                    queries_view(list@),
                ),
                Err(e) => self.guardrail_plan(tool_name@, params@, now) == Err::<
                    Seq<GuardrailQueryV>,
                    _,
                >(e.words()),
            },
            r is Ok ==> forall|i: int, j: int|
                0 <= i < r->Ok_0@.len() && 0 <= j < r->Ok_0@[i].ranges@.len() ==> (
                #[trigger] r->Ok_0@[i].ranges@[j]).0.wf() && r->Ok_0@[i].ranges@[j].1.wf(),
            r is Ok && guardrailed(tool_name@) ==> r->Ok_0@.len() == 1 && r->Ok_0@[0].ranges@.len()
                >= 1,
    {
        reveal(ToolRouter::guardrail_plan);
        let zone = self.timezone;
        if same_text(tool_name, "loki_query_logs") {
            let input = match QueryLogsInput::decode(params) {
                Some(input) => input,
                None => {
                    return Err(ToolError::InvalidParameters);
                },
            };
            let range = window_of(as_text(&input.start), as_text(&input.end), zone, now)?;
            Ok(one_query(input.query, range))
        } else if same_text(tool_name, "loki_query_metrics") {
            let input = match QueryMetricsInput::decode(params) {
                Some(input) => input,
                None => {
                    return Err(ToolError::InvalidParameters);
                },
            };
            let range = window_of(as_text(&input.start), as_text(&input.end), zone, now)?;
            Ok(one_query(input.query, range))
        } else if same_text(tool_name, "loki_build_query") {
            let input = match BuildQueryInput::decode(params) {
                Some(input) => input,
                None => {
                    return Err(ToolError::InvalidParameters);
                },
            };
            let query = built_query_of(&input)?;
            let range = window_of(as_text(&input.start), as_text(&input.end), zone, now)?;
            Ok(one_query(query, range))
        } else if same_text(tool_name, "loki_tail") {
            let input = match TailInput::decode(params) {
                Some(input) => input,
                None => {
                    return Err(ToolError::InvalidParameters);
                },
            };
            if input.labels.len() == 0 {
                return Err(ToolError::EmptyTailLabels);
            }
            let selector = selector_from_labels(&input.labels);
            let range = window_of(None, None, zone, now)?;
            Ok(one_query(selector, range))
        } else if same_text(tool_name, "loki_run_saved_query") {
            let input = match RunSavedQueryInput::decode(params) {
                Some(input) => input,
                None => {
                    return Err(ToolError::InvalidParameters);
                },
            };
            let saved = match find_saved_query(&self.config.saved_queries, input.name.as_str()) {
                Some(saved) => saved,
                None => {
                    return Err(ToolError::SavedQueryNotFound(input.name));
                },
            };
            let range_text: &str = match &input.override_range {
                Some(r) => r.as_str(),
                None => saved.range.as_str(),
            };
            let range = window_of(Some(range_text), None, zone, now)?;
            Ok(one_query(saved.query.clone(), range))
        } else if same_text(tool_name, "loki_detect_patterns") {
            let input = match DetectPatternsInput::decode(params) {
                Some(input) => input,
                None => {
                    return Err(ToolError::InvalidParameters);
                },
            };
            let range = window_of(as_text(&input.start), as_text(&input.end), zone, now)?;
            Ok(one_query(input.query, range))
        } else if same_text(tool_name, "loki_compare_ranges") {
            let input = match CompareRangesInput::decode(params) {
                Some(input) => input,
                None => {
                    return Err(ToolError::InvalidParameters);
                },
            };
            let (baseline, compare) = compared_ranges(&input, zone, now)?;
            let mut ranges: Vec<(Instant, Instant)> = Vec::new();
            ranges.push(baseline);
            ranges.push(compare);
            let mut list: Vec<GuardrailQuery> = Vec::new();
            let ghost shown = input.query@;
            list.push(GuardrailQuery { query: input.query, ranges });
            proof {
                assert(list@[0].ranges@ =~= Seq::<(Instant, Instant)>::empty().push(baseline).push(
                    compare,
                ));
                assert(queries_view(list@) =~= Seq::<GuardrailQueryV>::empty().push(
                    (shown, Seq::<(Instant, Instant)>::empty().push(baseline).push(compare)),
                ));
            }
            Ok(list)
        } else {
            let list: Vec<GuardrailQuery> = Vec::new();
            assert(queries_view(list@) =~= Seq::empty());
            Ok(list)
        }
    }

    /// The length by which an invocation is admitted to the cache: per
    /// tool, the length of the range it asks about; none for a discovery
    /// call without bounds and for a tool that is not cached.
    #[verifier::opaque]
    pub open spec fn range_length(&self, tool_name: Seq<char>, params: JsonV, now: Instant) -> Result<
        Option<Span>,
        Seq<char>,
    > {
        let zone = self.timezone;
        if tool_name == "loki_tail"@ {
            some_length(window_length(None, None, zone, now))
        } else if tool_name == "loki_compare_ranges"@ {
            if CompareRangesInput::fits(params) {
                match compared(CompareRangesInput::reading(params), zone, now) {
                    Ok((baseline, compare)) => match (length(baseline), length(compare)) {
                        (Ok(b), Ok(c)) => Ok(
                            Some(
                                if c.total() < b.total() {
                                    c
                                } else {
                                    b
                                },
                            ),
                        ),
                        (Err(w), _) => Err(w),
                        (_, Err(w)) => Err(w),
                    },
                    Err(w) => Err(w),
                }
            } else {
                Err(invalid_words())
            }
        } else if tool_name == "loki_list_labels"@ || tool_name == "loki_label_values"@ || tool_name
            == "loki_series"@ {
            match self.guardrail_or_bounds(tool_name, params) {
                Some((start, end)) => discovery_length(start, end, zone, now),
                None => Err(invalid_words()),
            }
        } else if tool_name == "loki_query_stats"@ {
            if QueryStatsInput::fits(params) {
                let input = QueryStatsInput::reading(params);
                some_length(window_length(input.start, input.end, zone, now))
            } else {
                Err(invalid_words())
            }
        } else if guardrailed(tool_name) {
            match self.guardrail_plan(tool_name, params, now) {
                Ok(list) => some_length(length(list[0].1[0])),
                Err(w) => Err(w),
            }
        } else {
            Ok(None)
        }
    }

    /// The bounds that a discovery call gives, where its arguments fit.
    pub open spec fn guardrail_or_bounds(&self, tool_name: Seq<char>, params: JsonV) -> Option<
        (Option<Seq<char>>, Option<Seq<char>>),
    > {
        if tool_name == "loki_list_labels"@ {
            if StartEndParams::fits(params) {
                Some((StartEndParams::reading(params).start, StartEndParams::reading(params).end))
            } else {
                None
            }
        } else if tool_name == "loki_label_values"@ {
            if LabelValuesParams::fits(params) {
                Some(
                    (
                        LabelValuesParams::reading(params).start,
                        LabelValuesParams::reading(params).end,
                    ),
                )
            } else {
                None
            }
        } else {
            if SeriesParams::fits(params) {
                Some((SeriesParams::reading(params).start, SeriesParams::reading(params).end))
            } else {
                None
            }
        }
    }

    #[verifier::rlimit(60)]
    pub fn cache_range_duration(&self, tool_name: &str, params: &Json, now: Instant) -> (r: Result<
        Option<Span>,
        ToolError,
    >)
        requires
            now.wf(),
        ensures
            match r {
                Ok(span) => self.range_length(tool_name@, params@, now) == Ok::<_, Seq<char>>(span),
                Err(e) => self.range_length(tool_name@, params@, now) == Err::<Option<Span>, _>(
                    e.words(),
                ),
            },
            r is Ok && r->Ok_0 is Some ==> r->Ok_0->0.wf(),
    {
        reveal(ToolRouter::guardrail_plan);
        reveal(ToolRouter::range_length);
        let zone = self.timezone;
        if same_text(tool_name, "loki_tail") {
            let span = range_duration_from_bounds(None, None, zone, now)?;
            Ok(Some(span))
        } else if same_text(tool_name, "loki_compare_ranges") {
            let input = match CompareRangesInput::decode(params) {
                Some(input) => input,
                None => {
                    return Err(ToolError::InvalidParameters);
                },
            };
            let (baseline, compare) = compared_ranges(&input, zone, now)?;
            let b = duration_between(baseline.0, baseline.1)?;
            let c = duration_between(compare.0, compare.1)?;
            if c.shorter_than(&b) {
                Ok(Some(c))
            } else {
                Ok(Some(b))
            }
        } else if same_text(tool_name, "loki_list_labels") {
            let input = match StartEndParams::decode(params) {
                Some(input) => input,
                None => {
                    return Err(ToolError::InvalidParameters);
                },
            };
            optional_discovery_range(as_text(&input.start), as_text(&input.end), zone, now)
        } else if same_text(tool_name, "loki_label_values") {
            let input = match LabelValuesParams::decode(params) {
                Some(input) => input,
                None => {
                    return Err(ToolError::InvalidParameters);
                },
            };
            optional_discovery_range(as_text(&input.start), as_text(&input.end), zone, now)
        } else if same_text(tool_name, "loki_series") {
            let input = match SeriesParams::decode(params) {
                Some(input) => input,
                None => {
                    return Err(ToolError::InvalidParameters);
                },
            };
            optional_discovery_range(as_text(&input.start), as_text(&input.end), zone, now)
        } else if same_text(tool_name, "loki_query_stats") {
            let input = match QueryStatsInput::decode(params) {
                Some(input) => input,
                None => {
                    return Err(ToolError::InvalidParameters);
                },
            };
            let span = range_duration_from_bounds(
                as_text(&input.start),
                as_text(&input.end),
                zone,
                now,
            )?;
            Ok(Some(span))
        } else if is_guardrailed_tool(tool_name) {
            let list = self.guardrail_queries(tool_name, params, now)?;
            let range = list[0].ranges[0];
            assert(queries_view(list@)[0] == list@[0]@);
            assert(range.0.wf() && range.1.wf());
            let span = duration_between(range.0, range.1)?;
            Ok(Some(span))
        } else {
            Ok(None)
        }
    }

    /// Whether an invocation goes by the cache: there is a cache, the tool
    /// is cached, and the range it asks about is not known to be shorter
    /// than the threshold. Arguments that cannot be read do not keep it
    /// from the cache; the tool itself will refuse them.
    pub open spec fn cache_wanted(&self, tool_name: Seq<char>, params: JsonV, now: Instant) -> bool {
        self.cache is Some && cacheable(tool_name) && (match self.range_length(
            tool_name,
            params,
            now,
        ) {
            Ok(Some(span)) => span.total() >= self.cache_skip_if_range_shorter_than.total(),
            _ => true,
        })
    }

    pub fn should_use_cache(&self, tool_name: &str, params: &Json, now: Instant) -> (r: bool)
        requires
            self.wf(),
            now.wf(),
        ensures
            r == self.cache_wanted(tool_name@, params@, now),
    {
        if self.cache.is_none() || !is_cacheable_tool(tool_name) {
            return false;
        }
        match self.cache_range_duration(tool_name, params, now) {
            Ok(Some(span)) => !span.shorter_than(&self.cache_skip_if_range_shorter_than),
            _ => true,
        }
    }

    /// Looks the invocation up in the cache.
    pub fn try_cache_get(&self, tool_name: &str, params: &Json) -> (r: Result<
        Option<Json>,
        ToolError,
    >)
        ensures
            r is Ok,
            self.cache is None ==> r->Ok_0 is None,
            self.cache is Some ==> found(
                self.cache->0@,
                fingerprint(tool_name@, params@),
                match r->Ok_0 {
                    Some(v) => Some(v@),
                    None => None,
                },
            ),
    {
        match &self.cache {
            Some(cache) => {
                let key = cache_key(tool_name, params)?;
                Ok(cache.get(key.as_str()))
            },
            None => Ok(None),
        }
    }

    /// Stores the result of the invocation in the cache.
    pub fn try_cache_put(&mut self, tool_name: &str, params: &Json, value: &Json) -> (r: Result<
        (),
        ToolError,
    >)
        ensures
            r is Ok,
            final(self).config == old(self).config,
            final(self).timezone == old(self).timezone,
            final(self).metrics == old(self).metrics,
            final(self).guardrails == old(self).guardrails,
            final(self).cache_skip_if_range_shorter_than == old(
                self,
            ).cache_skip_if_range_shorter_than,
            final(self).cache is Some == old(self).cache is Some,
            old(self).cache is Some ==> final(self).cache->0@ == old(self).cache->0@.insert(
                fingerprint(tool_name@, params@),
                value@,
            ),
    {
        let key = cache_key(tool_name, params)?;
        match &mut self.cache {
            Some(cache) => {
                cache.insert(key, value.duplicate());
            },
            None => {},
        }
        Ok(())
    }

    /// The check run of an invocation: none where no limit is set or the
    /// tool is not held to the limits.
    pub fn enforce_guardrails(&self, tool_name: &str, params: &Json, now: Instant) -> (r: Result<
        Option<GuardrailRun>,
        ToolError,
    >)
        requires
            self.wf(),
            now.wf(),
        ensures
            !(self.guardrails.max_bytes_scanned is Some || self.guardrails.max_streams is Some)
                || !guardrailed(tool_name@) ==> r is Ok && r->Ok_0 is None,
            (self.guardrails.max_bytes_scanned is Some || self.guardrails.max_streams is Some)
                && guardrailed(tool_name@) ==> (match r {
                Ok(run) => self.guardrail_plan(tool_name@, params@, now) is Ok && run is Some
                    && run->0.wf() && run->0.stage == Stage::Idle && run->0.admissions@.len() == 0
                    && run->0.settings == self.guardrails && run->0.ranges() == flat_ranges(
                    self.guardrail_plan(tool_name@, params@, now)->Ok_0,
                ) && check_queries(run->0.checks@) == flat_queries(
                    self.guardrail_plan(tool_name@, params@, now)->Ok_0,
                ),
                Err(e) => self.guardrail_plan(tool_name@, params@, now) == Err::<
                    Seq<GuardrailQueryV>,
                    _,
                >(e.words()),
            }),
    {
        if !self.guardrails.enabled() || !is_guardrailed_tool(tool_name) {
            return Ok(None);
        }
        let list = self.guardrail_queries(tool_name, params, now)?;
        let checks = flatten_checks(&list);
        Ok(Some(GuardrailRun::new(self.guardrails, checks)))
    }
}

pub open spec fn some_length(length: Result<Span, Seq<char>>) -> Result<Option<Span>, Seq<char>> {
    match length {
        Ok(span) => Ok(Some(span)),
        Err(w) => Err(w),
    }
}

/// The ranges of a list of queries, one after another.
pub open spec fn flat_ranges(list: Seq<GuardrailQueryV>) -> Seq<(Instant, Instant)>
    decreases list.len(),
{
    if list.len() == 0 {
        Seq::empty()
    } else {
        flat_ranges(list.drop_last()) + list.last().1
    }
}

/// The query of each range of a list of queries, in the order of
/// [`flat_ranges`].
pub open spec fn flat_queries(list: Seq<GuardrailQueryV>) -> Seq<Seq<char>>
    decreases list.len(),
{
    if list.len() == 0 {
        Seq::empty()
    } else {
        flat_queries(list.drop_last()) + Seq::new(list.last().1.len(), |i: int| list.last().0)
    }
}

pub open spec fn check_queries(checks: Seq<GuardrailCheck>) -> Seq<Seq<char>> {
    Seq::new(checks.len(), |i: int| checks[i].query@)
}

/// One check per query and range.
pub fn flatten_checks(list: &Vec<GuardrailQuery>) -> (r: Vec<GuardrailCheck>)
    requires
        forall|i: int, j: int|
            0 <= i < list@.len() && 0 <= j < list@[i].ranges@.len() ==> (
            #[trigger] list@[i].ranges@[j]).0.wf() && list@[i].ranges@[j].1.wf(),
    ensures
        crate::guardrails::ranges_of(r@) == flat_ranges(queries_view(list@)),
        check_queries(r@) == flat_queries(queries_view(list@)),
        forall|i: int| 0 <= i < r@.len() ==> (#[trigger] r@[i]).start.wf() && r@[i].end.wf(),
{
    let mut out: Vec<GuardrailCheck> = Vec::new();
    let ghost all = queries_view(list@);
    let mut i: usize = 0;
    assert(crate::guardrails::ranges_of(out@) =~= flat_ranges(all.take(0)));
    assert(check_queries(out@) =~= flat_queries(all.take(0)));
    while i < list.len()
        invariant
            i <= list.len(),
            all == queries_view(list@),
            crate::guardrails::ranges_of(out@) == flat_ranges(all.take(i as int)),
            check_queries(out@) == flat_queries(all.take(i as int)),
            forall|k: int| 0 <= k < out@.len() ==> (#[trigger] out@[k]).start.wf()
                && out@[k].end.wf(),
            forall|a: int, b: int|
                0 <= a < list@.len() && 0 <= b < list@[a].ranges@.len() ==> (
                #[trigger] list@[a].ranges@[b]).0.wf() && list@[a].ranges@[b].1.wf(),
        decreases list.len() - i,
    {
        let ghost before = crate::guardrails::ranges_of(out@);
        let ghost named = check_queries(out@);
        let ranges = &list[i].ranges;
        let mut j: usize = 0;
        assert(before + ranges@.take(0) =~= before);
        assert(named + Seq::new(0, |k: int| list@[i as int].query@) =~= named);
        while j < ranges.len()
            invariant
                j <= ranges.len(),
                i < list.len(),
                ranges == &list@[i as int].ranges,
                crate::guardrails::ranges_of(out@) == before + ranges@.take(j as int),
                check_queries(out@) == named + Seq::new(j as nat, |k: int| list@[i as int].query@),
                forall|k: int|
                    0 <= k < out@.len() ==> (#[trigger] out@[k]).start.wf() && out@[k].end.wf(),
                forall|a: int, b: int|
                    0 <= a < list@.len() && 0 <= b < list@[a].ranges@.len() ==> (
                    #[trigger] list@[a].ranges@[b]).0.wf() && list@[a].ranges@[b].1.wf(),
            decreases ranges.len() - j,
        {
            let range = ranges[j];
            assert(range == list@[i as int].ranges@[j as int]);
            let ghost so_far = crate::guardrails::ranges_of(out@);
            let ghost names_so_far = check_queries(out@);
            out.push(GuardrailCheck { query: list[i].query.clone(), start: range.0, end: range.1 });
            assert(crate::guardrails::ranges_of(out@) =~= so_far.push(range));
            assert(check_queries(out@) =~= names_so_far.push(list@[i as int].query@));
            assert(named + Seq::new((j + 1) as nat, |k: int| list@[i as int].query@) =~= (named
                + Seq::new(j as nat, |k: int| list@[i as int].query@)).push(
                list@[i as int].query@,
            ));
            assert(before + ranges@.take(j + 1) =~= (before + ranges@.take(j as int)).push(range));
            j = j + 1;
        }
        proof {
            assert(ranges@.take(ranges@.len() as int) == ranges@);
            assert(all.take(i + 1).drop_last() == all.take(i as int));
            assert(all.take(i + 1).last() == list@[i as int]@);
        }
        i = i + 1;
    }
    assert(all.take(list@.len() as int) == all);
    out
}

// ---------------------------------------------------------------------------
// Making a router
// ---------------------------------------------------------------------------
/// The limits that a configuration sets, where its texts can be read.
pub open spec fn settings_of(config: &Config) -> Option<GuardrailSettings> {
    match (
        byte_size(config.guardrails.max_bytes_scanned@),
        std_duration(config.guardrails.skip_stats_if_range_shorter_than@),
    ) {
        (Ok(bytes), Ok(span)) => Some(
            GuardrailSettings {
                max_bytes_scanned: limit_of(bytes),
                max_streams: limit_of(config.guardrails.max_streams),
                skip_stats_if_streams_below: config.guardrails.skip_stats_if_streams_below,
                skip_stats_if_range_shorter_than: span,
            },
        ),
        _ => None,
    }
}

/// The first thing in a configuration that keeps a router from being made.
pub open spec fn router_fault(config: &Config) -> Option<(ConfigFault, Seq<char>)> {
    if known_zone(config.server.timezone@) is None {
        Some((ConfigFault::ZoneName, config.server.timezone@))
    } else if client_fault(&config.loki) is Some {
        client_fault(&config.loki)
    } else if config.cache.enabled && !(std_duration(config.cache.ttl@) matches Ok(ttl) && ttl.secs
        < MAX_TTL_SECONDS) {
        Some((ConfigFault::CacheTtl, config.cache.ttl@))
    } else if std_duration(config.cache.skip_if_range_shorter_than@) is Err {
        Some((ConfigFault::CacheSkipRange, config.cache.skip_if_range_shorter_than@))
    } else if byte_size(config.guardrails.max_bytes_scanned@) is Err {
        Some((ConfigFault::MaxBytesScanned, config.guardrails.max_bytes_scanned@))
    } else if std_duration(config.guardrails.skip_stats_if_range_shorter_than@) is Err {
        Some(
            (
                ConfigFault::GuardrailSkipRange,
                config.guardrails.skip_stats_if_range_shorter_than@,
            ),
        )
    } else {
        None
    }
}

impl ToolRouter {
    pub fn new(config: Config) -> (r: Result<Self, ConfigError>)
        ensures
            r is Ok == router_fault(&config) is None,
            r is Err ==> Some(r->Err_0@) == router_fault(&config),
            r is Ok ==> r->Ok_0.wf() && r->Ok_0.config == config && r->Ok_0.metrics is None
                && Some(r->Ok_0.guardrails) == settings_of(&config),
    {
        Self::new_with_metrics(config, None)
    }

    /// A router for the configuration: the zone looked up, the cache made
    /// where it is switched on, the thresholds and limits read.
    pub fn new_with_metrics(config: Config, metrics: Option<MetricsRegistry>) -> (r: Result<
        Self,
        ConfigError,
    >)
        requires
            metrics is Some ==> metrics->0.wf(),
        ensures
            r is Ok == router_fault(&config) is None,
            r is Err ==> Some(r->Err_0@) == router_fault(&config),
            r is Ok ==> r->Ok_0.wf() && r->Ok_0.config == config && r->Ok_0.metrics == metrics
                && Some(r->Ok_0.guardrails) == settings_of(&config) && Some(r->Ok_0.timezone.tz)
                == known_zone(config.server.timezone@) && (r->Ok_0.cache is Some)
                == config.cache.enabled && (r->Ok_0.cache is Some ==> r->Ok_0.cache->0@
                == nothing_stored()) && std_duration(config.cache.skip_if_range_shorter_than@)
                == Ok::<_, Failure>(r->Ok_0.cache_skip_if_range_shorter_than),
    {
        let timezone = match Zone::parse(config.server.timezone.as_str()) {
            Some(zone) => zone,
            None => {
                return Err(ConfigError::about(ConfigFault::ZoneName, config.server.timezone.as_str()));
            },
        };
        let loki_client = LokiClient::new(&config.loki)?;
        let cache = if config.cache.enabled {
            let ttl = match parse_std_duration(config.cache.ttl.as_str()) {
                Ok(ttl) => ttl,
                Err(_) => {
                    return Err(ConfigError::about(ConfigFault::CacheTtl, config.cache.ttl.as_str()));
                },
            };
            if ttl.secs >= MAX_TTL_SECONDS {
                return Err(ConfigError::about(ConfigFault::CacheTtl, config.cache.ttl.as_str()));
            }
            Some(QueryCache::new(config.cache.max_entries, ttl))
        } else {
            None
        };
        let cache_skip_if_range_shorter_than = match parse_std_duration(
            config.cache.skip_if_range_shorter_than.as_str(),
        ) {
            Ok(span) => span,
            Err(_) => {
                return Err(
                    ConfigError::about(
                        ConfigFault::CacheSkipRange,
                        config.cache.skip_if_range_shorter_than.as_str(),
                    ),
                );
            },
        };
        let max_bytes = match parse_byte_size(config.guardrails.max_bytes_scanned.as_str()) {
            Ok(n) => n,
            Err(_) => {
                return Err(
                    ConfigError::about(
                        ConfigFault::MaxBytesScanned,
                        config.guardrails.max_bytes_scanned.as_str(),
                    ),
                );
            },
        };
        let max_bytes_scanned = if max_bytes == 0 {
            None
        } else {
            Some(max_bytes)
        };
        let max_streams = if config.guardrails.max_streams == 0 {
            None
        } else {
            Some(config.guardrails.max_streams)
        };
        let skip_stats_if_streams_below = config.guardrails.skip_stats_if_streams_below;
        let skip_stats_if_range_shorter_than = match parse_std_duration(
            config.guardrails.skip_stats_if_range_shorter_than.as_str(),
        ) {
            Ok(span) => span,
            Err(_) => {
                return Err(
                    ConfigError::about(
                        ConfigFault::GuardrailSkipRange,
                        config.guardrails.skip_stats_if_range_shorter_than.as_str(),
                    ),
                );
            },
        };
        Ok(
            ToolRouter {
                config,
                loki_client,
                timezone,
                metrics,
                cache,
                cache_skip_if_range_shorter_than,
                guardrails: GuardrailSettings {
                    max_bytes_scanned,
                    max_streams,
                    skip_stats_if_streams_below,
                    skip_stats_if_range_shorter_than,
                },
            },
        )
    }
}

} // verus!
