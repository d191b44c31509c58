//! What each tool asks of the backend and what it makes of the answers.
//!
//! A tool is run in two steps with the backend in between: the plan says
//! which requests to send, and the finish turns the answers into the
//! result of the tool.

use vstd::prelude::*;
use crate::error::ToolError;
use crate::json::{
    array_of, integer, integer_json, items_view, members_view, no_members, none, object_of,
    optional_text, optional_text_json, push_member, text_json, unsigned_json, Json, JsonV, Members,
    Number,
};
use crate::loki::client::{
    asks, data_items, data_or_raw, data_texts, data_value, envelope_data, limit_param, listed_items,
    listed_texts, optional_param, pairs_view, query_params, text_view, unwrap_envelope,
    unwrap_envelope_or_raw, BackendRequest, LokiClient, Pairs,
};
use crate::loki::types::{estimate_of, Estimate, LokiHealth, LokiQueryStats};
use crate::response::{format_log_result, shaped, ResponseMode};
use crate::text::texts;
use crate::time::{zulu_text, zulu_writing, Instant};
use crate::tools::{as_text, invalid_words, ToolRouter};
use crate::tools::analysis::{
    compare_plan, compare_ranges, count_lines, detect_patterns, line_count, patterns_plan,
    query_stats, stats_plan, CompareRangesInput, DetectPatternsInput, QueryStatsInput,
};
use crate::tools::discovery::{
    describe_schema, label_values, labels_plan, list_labels, schema_json, series, series_plan,
    values_plan, LabelValuesParams, NoParams, SeriesParams, StartEndParams,
};
use crate::tools::query::{
    build_plan, build_query, logs_plan, metrics_plan, query_logs, query_metrics, run_saved_query,
    saved_plan, tail, tail_plan, BuildQueryInput, QueryLogsInput, QueryMetricsInput,
    RunSavedQueryInput, TailInput,
};
use crate::tools::utility::{
    explain_query, explained, suggest_metric_rule, suggested, ExplainQueryParams,
    SuggestMetricRuleParams,
};

verus! {

// ---------------------------------------------------------------------------
// Small documents
// ---------------------------------------------------------------------------
/// An instant as a document: its RFC 3339 text with `Z`, or `null` where
/// the calendar cannot hold it.
pub open spec fn stamp_json(at: Instant) -> JsonV {
    match zulu_writing(at.secs, at.nanos) {
        Some(text) => JsonV::Text(text),
        None => JsonV::Null,
    }
}

pub fn stamp_to_json(at: Instant) -> (r: Json)
    ensures
        r@ == stamp_json(at),
{
    match zulu_text(at.secs, at.nanos) {
        Some(text) => Json::Text(text),
        None => Json::Null,
    }
}

/// A list of texts as a document.
pub open spec fn texts_json(list: Seq<Seq<char>>) -> JsonV {
    JsonV::Array(Seq::new(list.len(), |i: int| JsonV::Text(list[i])))
}

pub fn texts_to_json(list: &Vec<String>) -> (r: Json)
    ensures
        r@ == texts_json(texts(list@)),
{
    let mut items: Vec<Json> = Vec::new();
    let mut i: usize = 0;
    while i < list.len()
        invariant
            i <= list.len(),
            items@.len() == i,
            forall|k: int| 0 <= k < i ==> items@[k]@ == JsonV::Text(list@[k]@),
        decreases list.len() - i,
    {
        items.push(Json::Text(list[i].clone()));
        i = i + 1;
    }
    assert(items_view(items@) =~= texts_json(texts(list@))->Array_0);
    array_of(items)
}

/// An optional count as a document.
pub open spec fn count_json(n: Option<u64>) -> JsonV {
    match n {
        Some(v) => JsonV::Number(Number::Unsigned(v)),
        None => JsonV::Null,
    }
}

fn count_to_json(n: Option<u64>) -> (r: Json)
    ensures
        r@ == count_json(n),
{
    match n {
        Some(v) => unsigned_json(v),
        None => Json::Null,
    }
}

/// An estimate as a document, with the answer it was read from.
pub open spec fn stats_json(counts: Estimate, raw: JsonV) -> JsonV {
    JsonV::Object(
        none().push(("bytes_processed"@, count_json(counts.bytes_processed))).push(
            ("streams"@, count_json(counts.streams)),
        ).push(("chunks"@, count_json(counts.chunks))).push(
            ("entries"@, count_json(counts.entries)),
        ).push(("raw"@, raw)),
    )
}

pub fn stats_to_json(stats: LokiQueryStats) -> (r: Json)
    ensures
        r@ == stats_json(stats.counts(), stats.raw@),
{
    let mut members = no_members();
    push_member(&mut members, "bytes_processed", count_to_json(stats.bytes_processed));
    push_member(&mut members, "streams", count_to_json(stats.streams));
    push_member(&mut members, "chunks", count_to_json(stats.chunks));
    push_member(&mut members, "entries", count_to_json(stats.entries));
    push_member(&mut members, "raw", stats.raw);
    object_of(members)
}

/// The health of the backend as a document: whether it is fit, what is
/// said about it, and what it told of its build and its ring, each `null`
/// where there is none.
pub open spec fn health_json(health: LokiHealth) -> JsonV {
    JsonV::Object(
        none().push(("healthy"@, JsonV::Bool(health.healthy))).push(
            ("message"@, optional_text(crate::config::view_of(health.message))),
        ).push(("build_info"@, or_null(view_of(health.build_info)))).push(
            ("ring_status"@, or_null(view_of(health.ring_status))),
        ),
    )
}

pub fn health_to_json(health: LokiHealth) -> (r: Json)
    ensures
        r@ == health_json(health),
{
    let mut members = no_members();
    push_member(&mut members, "healthy", Json::Bool(health.healthy));
    push_member(&mut members, "message", optional_text_json(health.message.as_ref()));
    push_member(&mut members, "build_info", data_value(health.build_info));
    push_member(&mut members, "ring_status", data_value(health.ring_status));
    object_of(members)
}

// ---------------------------------------------------------------------------
// Finishing
// ---------------------------------------------------------------------------
/// What is made of the answers.
#[derive(Debug, Clone, Copy, PartialEq, Eq, Structural)]
pub enum FinishKind {
    /// The label names. No texts, no instants.
    Labels,
    /// The values of a label. Texts: the label.
    LabelValues,
    /// The series. No texts, no instants.
    Series,
    /// A log result, shaped. Texts: the query. Instants: start and end.
    Logs,
    /// The log result of a saved query, shaped. Texts: the name, the
    /// query, the description. Instants: start and end.
    SavedLogs,
    /// A metric result. Texts: the query. Instants: start and end.
    Metrics,
    /// The metric result of a built query. Texts: the query. Instants:
    /// start and end.
    BuiltMetrics,
    /// An estimate. Texts: the query. Instants: start and end.
    Stats,
    /// Patterns. Texts: the query. Instants: start and end.
    Patterns,
    /// Two log results, counted. Texts: the query. Instants: the start
    /// and end of the baseline, then of the range compared with it.
    Compare,
}

/// How an invocation is finished once the backend has answered.
#[derive(Debug)]
pub struct Finish {
    pub kind: FinishKind,
    pub texts: Vec<String>,
    pub instants: Vec<Instant>,
    pub mode: ResponseMode,
    pub step: Option<String>,
}

pub struct FinishV {
    pub kind: FinishKind,
    pub texts: Seq<Seq<char>>,
    pub instants: Seq<Instant>,
    pub mode: ResponseMode,
    pub step: Option<Seq<char>>,
}

impl View for Finish {
    type V = FinishV;

    open spec fn view(&self) -> FinishV {
        FinishV {
            kind: self.kind,
            texts: texts(self.texts@),
            instants: self.instants@,
            mode: self.mode,
            step: match self.step {
                Some(s) => Some(s@),
                None => None,
            },
        }
    }
}

/// How many texts, instants and answers a kind of finish goes with.
pub open spec fn shape_of(kind: FinishKind) -> (nat, nat, nat) {
    match kind {
        FinishKind::Labels => (0, 0, 1),
        FinishKind::LabelValues => (1, 0, 1),
        FinishKind::Series => (0, 0, 1),
        FinishKind::Logs => (1, 2, 1),
        FinishKind::SavedLogs => (3, 2, 1),
        FinishKind::Metrics => (1, 2, 1),
        FinishKind::BuiltMetrics => (1, 2, 1),
        FinishKind::Stats => (1, 2, 1),
        FinishKind::Patterns => (1, 2, 1),
        FinishKind::Compare => (1, 4, 2),
    }
}

fn shape(kind: FinishKind) -> (r: (usize, usize, usize))
    ensures
        r.0 == shape_of(kind).0,
        r.1 == shape_of(kind).1,
        r.2 == shape_of(kind).2,
{
    match kind {
        FinishKind::Labels => (0, 0, 1),
        FinishKind::LabelValues => (1, 0, 1),
        FinishKind::Series => (0, 0, 1),
        FinishKind::Logs => (1, 2, 1),
        FinishKind::SavedLogs => (3, 2, 1),
        FinishKind::Metrics => (1, 2, 1),
        FinishKind::BuiltMetrics => (1, 2, 1),
        FinishKind::Stats => (1, 2, 1),
        FinishKind::Patterns => (1, 2, 1),
        FinishKind::Compare => (1, 4, 2),
    }
}

/// The message of an answer that is no answer.
pub open spec fn undecodable_words() -> Seq<char> {
    "failed to decode Loki JSON response"@
}

pub open spec fn api_words(kind: Seq<char>, message: Seq<char>) -> Seq<char> {
    "loki api error ("@ + kind + "): "@ + message
}

/// The data of an answer in the envelope, or the message of its failure.
pub open spec fn answer_data(body: JsonV) -> Result<Option<JsonV>, Seq<char>> {
    match envelope_data(body) {
        None => Err(undecodable_words()),
        Some(Err((kind, message))) => Err(api_words(kind, message)),
        Some(Ok(data)) => Ok(data),
    }
}

pub open spec fn or_null(data: Option<JsonV>) -> JsonV {
    match data {
        Some(d) => d,
        None => JsonV::Null,
    }
}

pub open spec fn view_of(data: Option<Json>) -> Option<JsonV> {
    match data {
        Some(d) => Some(d@),
        None => None,
    }
}

pub fn answer_of(body: &Json) -> (r: Result<Option<Json>, ToolError>)
    ensures
        match r {
            Ok(data) => answer_data(body@) == Ok::<_, Seq<char>>(view_of(data)),
            Err(e) => answer_data(body@) == Err::<Option<JsonV>, _>(e.words()),
        },
{
    unwrap_envelope(body)
}

/// The head that the results over a range share: the query and the range.
pub open spec fn range_head(query: Seq<char>, start: Instant, end: Instant) -> Members {
    none().push(("query"@, JsonV::Text(query))).push(("start"@, stamp_json(start))).push(
        ("end"@, stamp_json(end)),
    )
}

fn push_range_head(members: &mut Vec<(String, Json)>, query: &String, start: Instant, end: Instant)
    ensures
        members_view(final(members)@) == members_view(old(members)@).push(
            ("query"@, JsonV::Text(query@)),
        ).push(("start"@, stamp_json(start))).push(("end"@, stamp_json(end))),
{
    push_member(members, "query", Json::Text(query.clone()));
    push_member(members, "start", stamp_to_json(start));
    push_member(members, "end", stamp_to_json(end));
}

/// The members that tell how a log result was shaped.
pub open spec fn shaped_tail(head: Members, requested: ResponseMode, data: JsonV) -> Members {
    head.push(("response_mode_requested"@, JsonV::Text(requested.word()))).push(
        ("response_mode"@, JsonV::Text(shaped(requested, data).0.word())),
    ).push(("data"@, shaped(requested, data).1))
}

fn push_shaped(members: &mut Vec<(String, Json)>, requested: ResponseMode, data: Json)
    ensures
        members_view(final(members)@) == shaped_tail(members_view(old(members)@), requested, data@),
{
    let (applied, formatted) = format_log_result(requested, data);
    push_member(members, "response_mode_requested", text_json(requested.name()));
    push_member(members, "response_mode", text_json(applied.name()));
    push_member(members, "data", formatted);
}

/// The difference of two counts as a signed number, held within its
/// range.
pub open spec fn count_delta(compare: u64, baseline: u64) -> i64 {
    if compare - baseline > i64::MAX {
        i64::MAX
    } else if compare - baseline < i64::MIN {
        i64::MIN
    } else {
        (compare - baseline) as i64
    }
}

fn delta_of(compare: u64, baseline: u64) -> (r: i64)
    ensures
        r == count_delta(compare, baseline),
{
    let d: i128 = compare as i128 - baseline as i128;
    if d > 0x7FFF_FFFF_FFFF_FFFF {
        0x7FFF_FFFF_FFFF_FFFF
    } else if d < -0x8000_0000_0000_0000 {
        -0x8000_0000_0000_0000
    } else {
        d as i64
    }
}

pub open spec fn side_json(start: Instant, end: Instant, lines: u64) -> JsonV {
    JsonV::Object(
        none().push(("start"@, stamp_json(start))).push(("end"@, stamp_json(end))).push(
            ("line_count"@, JsonV::Number(Number::Unsigned(lines))),
        ),
    )
}

fn side_to_json(start: Instant, end: Instant, lines: u64) -> (r: Json)
    ensures
        r@ == side_json(start, end, lines),
{
    let mut members = no_members();
    push_member(&mut members, "start", stamp_to_json(start));
    push_member(&mut members, "end", stamp_to_json(end));
    push_member(&mut members, "line_count", unsigned_json(lines));
    object_of(members)
}

/// What the answers come to. `ratio` is the quotient of the lines of the
/// range compared by those of the baseline, which whoever calls works
/// out; only a comparison shows it.
pub open spec fn finished(then: FinishV, answers: Seq<JsonV>, ratio: JsonV) -> Result<
    JsonV,
    Seq<char>,
> {
    let shape = shape_of(then.kind);
    if then.texts.len() != shape.0 || then.instants.len() != shape.1 || answers.len() != shape.2 {
        Err("invalid tool parameters"@)
    } else {
        match then.kind {
            FinishKind::Labels => match answer_data(answers[0]) {
                Err(w) => Err(w),
                Ok(data) => match listed_texts(data) {
                    Some(list) => Ok(JsonV::Object(none().push(("labels"@, texts_json(list))))),
                    None => Err(undecodable_words()),
                },
            },
            FinishKind::LabelValues => match answer_data(answers[0]) {
                Err(w) => Err(w),
                Ok(data) => match listed_texts(data) {
                    Some(list) => Ok(
                        JsonV::Object(
                            none().push(("label"@, JsonV::Text(then.texts[0]))).push(
                                ("values"@, texts_json(list)),
                            ),
                        ),
                    ),
                    None => Err(undecodable_words()),
                },
            },
            FinishKind::Series => match answer_data(answers[0]) {
                Err(w) => Err(w),
                Ok(data) => match listed_items(data) {
                    Some(list) => Ok(JsonV::Object(none().push(("series"@, JsonV::Array(list))))),
                    None => Err(undecodable_words()),
                },
            },
            FinishKind::Logs => match answer_data(answers[0]) {
                Err(w) => Err(w),
                Ok(data) => Ok(
                    JsonV::Object(
                        shaped_tail(
                            range_head(then.texts[0], then.instants[0], then.instants[1]),
                            then.mode,
                            or_null(data),
                        ),
                    ),
                ),
            },
            FinishKind::SavedLogs => match answer_data(answers[0]) {
                Err(w) => Err(w),
                Ok(data) => Ok(
                    JsonV::Object(
                        shaped_tail(
                            none().push(("name"@, JsonV::Text(then.texts[0]))).push(
                                ("query"@, JsonV::Text(then.texts[1])),
                            ).push(("description"@, JsonV::Text(then.texts[2]))).push(
                                ("start"@, stamp_json(then.instants[0])),
                            ).push(("end"@, stamp_json(then.instants[1]))),
                            then.mode,
                            or_null(data),
                        ),
                    ),
                ),
            },
            FinishKind::Metrics => match answer_data(answers[0]) {
                Err(w) => Err(w),
                Ok(data) => Ok(
                    JsonV::Object(
                        range_head(then.texts[0], then.instants[0], then.instants[1]).push(
                            ("step"@, crate::json::optional_text(then.step)),
                        ).push(("data"@, or_null(data))),
                    ),
                ),
            },
            FinishKind::BuiltMetrics => match answer_data(answers[0]) {
                Err(w) => Err(w),
                Ok(data) => Ok(
                    JsonV::Object(
                        range_head(then.texts[0], then.instants[0], then.instants[1]).push(
                            ("response_mode_requested"@, JsonV::Text(then.mode.word())),
                        ).push(("response_mode"@, JsonV::Text(then.mode.word()))).push(
                            ("data"@, or_null(data)),
                        ),
                    ),
                ),
            },
            FinishKind::Stats => match data_or_raw(answers[0]) {
                Err((kind, message)) => Err(api_words(kind, message)),
                Ok(data) => Ok(
                    JsonV::Object(
                        range_head(then.texts[0], then.instants[0], then.instants[1]).push(
                            ("stats"@, stats_json(estimate_of(data), data)),
                        ),
                    ),
                ),
            },
            FinishKind::Patterns => match answer_data(answers[0]) {
                Err(w) => Err(w),
                Ok(data) => Ok(
                    JsonV::Object(
                        range_head(then.texts[0], then.instants[0], then.instants[1]).push(
                            ("patterns"@, or_null(data)),
                        ),
                    ),
                ),
            },
            FinishKind::Compare => match (answer_data(answers[0]), answer_data(answers[1])) {
                (Err(w), _) => Err(w),
                (_, Err(w)) => Err(w),
                (Ok(baseline), Ok(compare)) => Ok(
                    JsonV::Object(
                        none().push(("query"@, JsonV::Text(then.texts[0]))).push(
                            (
                                "baseline"@,
                                side_json(
                                    then.instants[0],
                                    then.instants[1],
                                    line_count(or_null(baseline)),
                                ),
                            ),
                        ).push(
                            (
                                "compare"@,
                                side_json(
                                    then.instants[2],
                                    then.instants[3],
                                    line_count(or_null(compare)),
                                ),
                            ),
                        ).push(
                            (
                                "delta"@,
                                JsonV::Object(
                                    none().push(
                                        (
                                            "line_count"@,
                                            integer(
                                                count_delta(
                                                    line_count(or_null(compare)),
                                                    line_count(or_null(baseline)),
                                                ),
                                            ),
                                        ),
                                    ).push(("ratio"@, ratio)),
                                ),
                            ),
                        ),
                    ),
                ),
            },
        }
    }
}

/// The lines of the two answers of a comparison, those of the baseline
/// first.
pub fn compare_counts(answers: &Vec<Json>) -> (r: Result<(u64, u64), ToolError>)
    ensures
        r is Ok == (answers@.len() == 2 && answer_data(answers@[0]@) is Ok && answer_data(
            answers@[1]@,
        ) is Ok),
        r is Ok ==> r->Ok_0.0 == line_count(or_null(answer_data(answers@[0]@)->Ok_0))
            && r->Ok_0.1 == line_count(or_null(answer_data(answers@[1]@)->Ok_0)),
        r is Err ==> r->Err_0.words() == (if answers@.len() != 2 {
            invalid_words()
        } else if answer_data(answers@[0]@) is Err {
            answer_data(answers@[0]@)->Err_0
        } else {
            answer_data(answers@[1]@)->Err_0
        }),
{
    if answers.len() != 2 {
        return Err(ToolError::InvalidParameters);
    }
    let baseline = data_value(answer_of(&answers[0])?);
    let compare = data_value(answer_of(&answers[1])?);
    Ok((count_lines(&baseline), count_lines(&compare)))
}

fn data_or_null(data: Option<Json>) -> (r: Json)
    ensures
        r@ == or_null(view_of(data)),
{
    data_value(data)
}

/// Turns the answers of the backend into the result of the tool.
pub fn finish(then: Finish, answers: Vec<Json>, ratio: Json) -> (r: Result<Json, ToolError>)
    ensures
        match r {
            Ok(v) => finished(then@, items_view(answers@), ratio@) == Ok::<_, Seq<char>>(v@),
            Err(e) => finished(then@, items_view(answers@), ratio@) == Err::<JsonV, _>(e.words()),
        },
{
    let (t, i, a) = shape(then.kind);
    if then.texts.len() != t || then.instants.len() != i || answers.len() != a {
        return Err(ToolError::InvalidParameters);
    }
    let ghost bodies = items_view(answers@);
    assert(bodies[0] == answers@[0]@);
    let mut members = no_members();
    match then.kind {
        FinishKind::Labels => {
            let list = match data_texts(answer_of(&answers[0])?) {
                Ok(list) => list,
                Err(_) => {
                    return Err(ToolError::UndecodableResponse);
                },
            };
            push_member(&mut members, "labels", texts_to_json(&list));
            Ok(object_of(members))
        },
        FinishKind::LabelValues => {
            let list = match data_texts(answer_of(&answers[0])?) {
                Ok(list) => list,
                Err(_) => {
                    return Err(ToolError::UndecodableResponse);
                },
            };
            push_member(&mut members, "label", Json::Text(then.texts[0].clone()));
            push_member(&mut members, "values", texts_to_json(&list));
            Ok(object_of(members))
        },
        FinishKind::Series => {
            let list = match data_items(answer_of(&answers[0])?) {
                Ok(list) => list,
                Err(_) => {
                    return Err(ToolError::UndecodableResponse);
                },
            };
            push_member(&mut members, "series", array_of(list));
            Ok(object_of(members))
        },
        FinishKind::Logs => {
            let data = data_or_null(answer_of(&answers[0])?);
            push_range_head(&mut members, &then.texts[0], then.instants[0], then.instants[1]);
            push_shaped(&mut members, then.mode, data);
            Ok(object_of(members))
        },
        FinishKind::SavedLogs => {
            let data = data_or_null(answer_of(&answers[0])?);
            push_member(&mut members, "name", Json::Text(then.texts[0].clone()));
            push_member(&mut members, "query", Json::Text(then.texts[1].clone()));
            push_member(&mut members, "description", Json::Text(then.texts[2].clone()));
            push_member(&mut members, "start", stamp_to_json(then.instants[0]));
            push_member(&mut members, "end", stamp_to_json(then.instants[1]));
            push_shaped(&mut members, then.mode, data);
            Ok(object_of(members))
        },
        FinishKind::Metrics => {
            let data = data_or_null(answer_of(&answers[0])?);
            push_range_head(&mut members, &then.texts[0], then.instants[0], then.instants[1]);
            push_member(
                &mut members,
                "step",
                crate::json::optional_text_json(then.step.as_ref()),
            );
            push_member(&mut members, "data", data);
            Ok(object_of(members))
        },
        FinishKind::BuiltMetrics => {
            let data = data_or_null(answer_of(&answers[0])?);
            push_range_head(&mut members, &then.texts[0], then.instants[0], then.instants[1]);
            push_member(&mut members, "response_mode_requested", text_json(then.mode.name()));
            push_member(&mut members, "response_mode", text_json(then.mode.name()));
            push_member(&mut members, "data", data);
            Ok(object_of(members))
        },
        FinishKind::Stats => {
            let mut answers = answers;
            let body = match answers.pop() {
                Some(body) => body,
                None => {
                    return Err(ToolError::InvalidParameters);
                },
            };
            let data = unwrap_envelope_or_raw(body)?;
            let stats = LokiQueryStats::from_value(data);
            push_range_head(&mut members, &then.texts[0], then.instants[0], then.instants[1]);
            push_member(&mut members, "stats", stats_to_json(stats));
            Ok(object_of(members))
        },
        FinishKind::Patterns => {
            let data = data_or_null(answer_of(&answers[0])?);
            push_range_head(&mut members, &then.texts[0], then.instants[0], then.instants[1]);
            push_member(&mut members, "patterns", data);
            Ok(object_of(members))
        },
        FinishKind::Compare => {
            assert(bodies[1] == answers@[1]@);
            let baseline = data_or_null(answer_of(&answers[0])?);
            let compare = data_or_null(answer_of(&answers[1])?);
            let baseline_lines = count_lines(&baseline);
            let compare_lines = count_lines(&compare);
            let mut delta = no_members();
            push_member(
                &mut delta,
                "line_count",
                integer_json(delta_of(compare_lines, baseline_lines)),
            );
            push_member(&mut delta, "ratio", ratio);
            push_member(&mut members, "query", Json::Text(then.texts[0].clone()));
            push_member(
                &mut members,
                "baseline",
                side_to_json(then.instants[0], then.instants[1], baseline_lines),
            );
            push_member(
                &mut members,
                "compare",
                side_to_json(then.instants[2], then.instants[3], compare_lines),
            );
            push_member(&mut members, "delta", object_of(delta));
            Ok(object_of(members))
        },
    }
}

// ---------------------------------------------------------------------------
// Planning
// ---------------------------------------------------------------------------
/// What running a tool begins with.
#[derive(Debug)]
pub enum Plan {
    /// The tool answers at once.
    Answer(Json),
    /// The requests are sent to the backend, and their answers finished.
    Ask(Vec<BackendRequest>, Finish),
    /// The backend is probed for its health.
    Health,
}

pub type RequestV = (Seq<char>, Pairs);

pub enum PlanV {
    Answer(JsonV),
    Ask(Seq<RequestV>, FinishV),
    Health,
}

pub open spec fn requests_view(list: Seq<BackendRequest>) -> Seq<RequestV> {
    Seq::new(list.len(), |i: int| (list[i].path@, pairs_view(list[i].params@)))
}

impl View for Plan {
    type V = PlanV;

    open spec fn view(&self) -> PlanV {
        match self {
            Plan::Answer(v) => PlanV::Answer(v@),
            Plan::Ask(requests, then) => PlanV::Ask(requests_view(requests@), then@),
            Plan::Health => PlanV::Health,
        }
    }
}

pub open spec fn timestamp_words() -> Seq<char> {
    "timestamp is out of range for nanoseconds"@
}

/// The lines asked for where the caller names no number.
pub const DEFAULT_LIMIT: u32 = 100;

/// The lines that a tail asks for where the caller names no number.
pub const DEFAULT_TAIL_LINES: u32 = 50;

/// The lines that each side of a comparison asks for.
pub const COMPARE_LIMIT: u32 = 1000;

pub open spec fn or_limit(limit: Option<u32>, default: u32) -> u32 {
    match limit {
        Some(n) => n,
        None => default,
    }
}

/// The request for log lines.
pub open spec fn logs_ask(
    query: Seq<char>,
    range: (Instant, Instant),
    limit: u32,
    direction: Option<Seq<char>>,
) -> Result<RequestV, Seq<char>> {
    match query_params(query, Some(range.0), Some(range.1)) {
        Some(p) => Ok(
            (
                "/loki/api/v1/query_range"@,
                p + limit_param(Some(limit)) + optional_param("direction"@, direction),
            ),
        ),
        None => Err(timestamp_words()),
    }
}

/// The request for one of the other answers over a range: a metric
/// result, an estimate, or patterns.
pub open spec fn range_ask(
    path: Seq<char>,
    query: Seq<char>,
    range: (Instant, Instant),
    step: Option<Seq<char>>,
) -> Result<RequestV, Seq<char>> {
    match query_params(query, Some(range.0), Some(range.1)) {
        Some(p) => Ok((path, p + optional_param("step"@, step))),
        None => Err(timestamp_words()),
    }
}

pub open spec fn finish_over(
    kind: FinishKind,
    texts: Seq<Seq<char>>,
    range: (Instant, Instant),
    mode: ResponseMode,
    step: Option<Seq<char>>,
) -> FinishV {
    FinishV {
        kind,
        texts,
        instants: Seq::<Instant>::empty().push(range.0).push(range.1),
        mode,
        step,
    }
}

pub open spec fn mode_or_smart(mode: Option<ResponseMode>) -> ResponseMode {
    match mode {
        Some(m) => m,
        None => ResponseMode::Smart,
    }
}

/// One request and its finish.
pub open spec fn ask_one(request: Result<RequestV, Seq<char>>, then: FinishV) -> Result<
    PlanV,
    Seq<char>,
> {
    match request {
        Ok(r) => Ok(PlanV::Ask(Seq::<RequestV>::empty().push(r), then)),
        Err(w) => Err(w),
    }
}

pub fn one_request(request: BackendRequest) -> (r: Vec<BackendRequest>)
    ensures
        requests_view(r@) == Seq::<RequestV>::empty().push(
            (request.path@, pairs_view(request.params@)),
        ),
{
    let mut r: Vec<BackendRequest> = Vec::new();
    r.push(request);
    assert(requests_view(r@) =~= Seq::<RequestV>::empty().push(
        (request.path@, pairs_view(request.params@)),
    ));
    r
}

pub fn finish_with(
    kind: FinishKind,
    texts: Vec<String>,
    range: (Instant, Instant),
    mode: ResponseMode,
    step: Option<String>,
) -> (r: Finish)
    ensures
        r@ == finish_over(
            kind,
            crate::text::texts(texts@),
            range,
            mode,
            match step {
                Some(s) => Some(s@),
                None => None,
            },
        ),
{
    let mut instants: Vec<Instant> = Vec::new();
    instants.push(range.0);
    instants.push(range.1);
    assert(instants@ =~= Seq::<Instant>::empty().push(range.0).push(range.1));
    Finish { kind, texts, instants, mode, step }
}

pub fn one_text(a: String) -> (r: Vec<String>)
    ensures
        texts(r@) == Seq::<Seq<char>>::empty().push(a@),
{
    let mut r: Vec<String> = Vec::new();
    r.push(a);
    assert(texts(r@) =~= Seq::<Seq<char>>::empty().push(a@));
    r
}

pub fn logs_request(client: &LokiClient, query: &str, range: (Instant, Instant), limit: u32, direction: Option<&str>) -> (r:
    Result<BackendRequest, ToolError>)
    requires
        range.0.wf(),
        range.1.wf(),
    ensures
        match r {
            Ok(request) => logs_ask(query@, range, limit, text_view(direction)) == Ok::<
                _,
                Seq<char>,
            >((request.path@, pairs_view(request.params@))),
            Err(e) => logs_ask(query@, range, limit, text_view(direction)) == Err::<RequestV, _>(
                e.words(),
            ),
        },
{
    match client.query_logs(query, Some(range.0), Some(range.1), Some(limit), direction) {
        Ok(request) => Ok(request),
        Err(_) => Err(ToolError::TimestampOutOfRange),
    }
}

/// The mode asked for, or the smart one.
pub fn mode_of(mode: Option<ResponseMode>) -> (r: ResponseMode)
    ensures
        r == mode_or_smart(mode),
{
    match mode {
        Some(m) => m,
        None => ResponseMode::Smart,
    }
}

pub fn limit_of(limit: Option<u32>, default: u32) -> (r: u32)
    ensures
        r == or_limit(limit, default),
{
    match limit {
        Some(n) => n,
        None => default,
    }
}

pub fn copy_step(step: &Option<String>) -> (r: Option<String>)
    ensures
        r == *step,
{
    match step {
        Some(s) => Some(s.clone()),
        None => None,
    }
}

impl ToolRouter {
    /// What running a tool begins with.
    #[verifier::opaque]
    pub open spec fn planned(&self, tool_name: Seq<char>, params: JsonV, now: Instant) -> Result<
        PlanV,
        Seq<char>,
    > {
        if tool_name == "loki_describe_schema"@ {
            if NoParams::fits(params) {
                Ok(PlanV::Answer(schema_json(&self.config)))
            } else {
                Err(invalid_words())
            }
        } else if tool_name == "loki_list_labels"@ {
            if StartEndParams::fits(params) {
                let input = StartEndParams::reading(params);
                labels_plan(self.timezone, input.start, input.end, now)
            } else {
                Err(invalid_words())
            }
        } else if tool_name == "loki_label_values"@ {
            if LabelValuesParams::fits(params) {
                let input = LabelValuesParams::reading(params);
                values_plan(
                    self.timezone,
                    input.label,
                    input.start,
                    input.end,
                    input.query,
                    now,
                )
            } else {
                Err(invalid_words())
            }
        } else if tool_name == "loki_series"@ {
            if SeriesParams::fits(params) {
                let input = SeriesParams::reading(params);
                series_plan(self.timezone, input.matchers, input.start, input.end, now)
            } else {
                Err(invalid_words())
            }
        } else if tool_name == "loki_query_logs"@ {
            if QueryLogsInput::fits(params) {
                let input = QueryLogsInput::reading(params);
                logs_plan(self.timezone, input, now)
            } else {
                Err(invalid_words())
            }
        } else if tool_name == "loki_query_metrics"@ {
            if QueryMetricsInput::fits(params) {
                let input = QueryMetricsInput::reading(params);
                metrics_plan(self.timezone, input, now)
            } else {
                Err(invalid_words())
            }
        } else if tool_name == "loki_build_query"@ {
            if BuildQueryInput::fits(params) {
                let input = BuildQueryInput::reading(params);
                build_plan(self.timezone, input, now)
            } else {
                Err(invalid_words())
            }
        } else if tool_name == "loki_tail"@ {
            if TailInput::fits(params) {
                let input = TailInput::reading(params);
                tail_plan(self.timezone, input, now)
            } else {
                Err(invalid_words())
            }
        } else if tool_name == "loki_run_saved_query"@ {
            if RunSavedQueryInput::fits(params) {
                let input = RunSavedQueryInput::reading(params);
                saved_plan(&self.config, self.timezone, input, now)
            } else {
                Err(invalid_words())
            }
        } else if tool_name == "loki_query_stats"@ {
            if QueryStatsInput::fits(params) {
                let input = QueryStatsInput::reading(params);
                stats_plan(self.timezone, input, now)
            } else {
                Err(invalid_words())
            }
        } else if tool_name == "loki_detect_patterns"@ {
            if DetectPatternsInput::fits(params) {
                let input = DetectPatternsInput::reading(params);
                patterns_plan(self.timezone, input, now)
            } else {
                Err(invalid_words())
            }
        } else if tool_name == "loki_compare_ranges"@ {
            if CompareRangesInput::fits(params) {
                let input = CompareRangesInput::reading(params);
                compare_plan(self.timezone, input, now)
            } else {
                Err(invalid_words())
            }
        } else if tool_name == "loki_explain_query"@ {
            if ExplainQueryParams::fits(params) {
                Ok(PlanV::Answer(explained(ExplainQueryParams::reading(params).query)))
            } else {
                Err(invalid_words())
            }
        } else if tool_name == "loki_suggest_metric_rule"@ {
            if SuggestMetricRuleParams::fits(params) {
                match suggested(SuggestMetricRuleParams::reading(params)) {
                    Ok(rule) => Ok(PlanV::Answer(rule)),
                    Err(words) => Err(words),
                }
            } else {
                Err(invalid_words())
            }
        } else if tool_name == "loki_check_health"@ {
            if NoParams::fits(params) {
                Ok(PlanV::Health)
            } else {
                Err(invalid_words())
            }
        } else {
            Err("unknown tool: "@ + tool_name)
        }
    }

    /// Begins running a tool: reads its arguments and says what to ask of
    /// the backend.
    pub fn dispatch(&self, tool_name: &str, params: &Json, now: Instant) -> (r: Result<
        Plan,
        ToolError,
    >)
        requires
            now.wf(),
        ensures
            match r {
                Ok(plan) => self.planned(tool_name@, params@, now) == Ok::<_, Seq<char>>(plan@),
                Err(e) => self.planned(tool_name@, params@, now) == Err::<PlanV, _>(e.words()),
            },
    {
        reveal(ToolRouter::planned);
        let is = |name: &str| -> (b: bool)
            ensures
                b == (tool_name@ == name@),
            { crate::text::same_text(tool_name, name) };
        if is("loki_describe_schema") {
            match NoParams::decode(params) {
                Some(_) => Ok(Plan::Answer(describe_schema(&self.config))),
                None => Err(ToolError::InvalidParameters),
            }
        } else if is("loki_list_labels") {
            match StartEndParams::decode(params) {
                Some(input) => list_labels(
                    &self.loki_client,
                    self.timezone,
                    as_text(&input.start),
                    as_text(&input.end),
                    now,
                ),
                None => Err(ToolError::InvalidParameters),
            }
        } else if is("loki_label_values") {
            match LabelValuesParams::decode(params) {
                Some(input) => label_values(
                    &self.loki_client,
                    self.timezone,
                    input.label.as_str(),
                    as_text(&input.start),
                    as_text(&input.end),
                    as_text(&input.query),
                    now,
                ),
                None => Err(ToolError::InvalidParameters),
            }
        } else if is("loki_series") {
            match SeriesParams::decode(params) {
                Some(input) => series(
                    &self.loki_client,
                    self.timezone,
                    &input.matchers,
                    as_text(&input.start),
                    as_text(&input.end),
                    now,
                ),
                None => Err(ToolError::InvalidParameters),
            }
        } else if is("loki_query_logs") {
            match QueryLogsInput::decode(params) {
                Some(input) => query_logs(&self.loki_client, self.timezone, input, now),
                None => Err(ToolError::InvalidParameters),
            }
        } else if is("loki_query_metrics") {
            match QueryMetricsInput::decode(params) {
                Some(input) => query_metrics(&self.loki_client, self.timezone, input, now),
                None => Err(ToolError::InvalidParameters),
            }
        } else if is("loki_build_query") {
            match BuildQueryInput::decode(params) {
                Some(input) => build_query(&self.loki_client, self.timezone, input, now),
                None => Err(ToolError::InvalidParameters),
            }
        } else if is("loki_tail") {
            match TailInput::decode(params) {
                Some(input) => tail(&self.loki_client, self.timezone, input, now),
                None => Err(ToolError::InvalidParameters),
            }
        } else if is("loki_run_saved_query") {
            match RunSavedQueryInput::decode(params) {
                Some(input) => run_saved_query(
                    &self.loki_client,
                    &self.config,
                    self.timezone,
                    input,
                    now,
                ),
                None => Err(ToolError::InvalidParameters),
            }
        } else if is("loki_query_stats") {
            match QueryStatsInput::decode(params) {
                Some(input) => query_stats(&self.loki_client, self.timezone, input, now),
                None => Err(ToolError::InvalidParameters),
            }
        } else if is("loki_detect_patterns") {
            match DetectPatternsInput::decode(params) {
                Some(input) => detect_patterns(&self.loki_client, self.timezone, input, now),
                None => Err(ToolError::InvalidParameters),
            }
        } else if is("loki_compare_ranges") {
            match CompareRangesInput::decode(params) {
                Some(input) => compare_ranges(&self.loki_client, self.timezone, input, now),
                None => Err(ToolError::InvalidParameters),
            }
        } else if is("loki_explain_query") {
            match ExplainQueryParams::decode(params) {
                Some(input) => Ok(Plan::Answer(explain_query(input.query.as_str()))),
                None => Err(ToolError::InvalidParameters),
            }
        } else if is("loki_suggest_metric_rule") {
            match SuggestMetricRuleParams::decode(params) {
                Some(input) => match suggest_metric_rule(&input) {
                    Ok(rule) => Ok(Plan::Answer(rule)),
                    Err(e) => Err(e),
                },
                None => Err(ToolError::InvalidParameters),
            }
        } else if is("loki_check_health") {
            match NoParams::decode(params) {
                Some(_) => Ok(Plan::Health),
                None => Err(ToolError::InvalidParameters),
            }
        } else {
            Err(ToolError::UnknownTool(tool_name.to_owned()))
        }
    }
}

} // verus!
