//! The query tools: their arguments, the LogQL that is built from
//! structured filters, and what each tool asks of the backend.

use vstd::prelude::*;
use crate::config::Config;
use crate::error::ToolError;
use crate::json::{Json, JsonV};
use crate::keyed::{arranged, named_view, place, Named};
use crate::loki::client::LokiClient;
use crate::response::ResponseMode;
use crate::text::{chars_of, join, joined, lowered, push_text, same_text, texts, trimmed};
use crate::time::{relative_duration, relative_reference_counts_back, Failure, Instant, Span, Zone};
use crate::tools::{
    as_text, built_query, built_query_of, find_saved_query, not_saved_words, saved_at, saved_window,
    window, window_of,
};
use crate::tools::dispatch::{
    ask_one, finish_over, finish_with, limit_of, logs_ask, logs_request, mode_of, mode_or_smart,
    one_request, one_text, or_limit, range_ask, FinishKind, Plan, PlanV, DEFAULT_LIMIT,
    DEFAULT_TAIL_LINES,
};
use crate::tools::params::{
    check_known, given, know, labels_of, members_of, nothing_known, only_known, optional_labels,
    optional_mode, optional_text, optional_u32, read_optional_labels, read_optional_mode,
    read_optional_text, read_optional_u32, read_required_labels, read_required_text,
    required_labels, required_text, text_of,
};

verus! {

pub type Labels = Vec<(String, String)>;

/// The arguments of `loki_query_logs`.
#[derive(Debug)]
pub struct QueryLogsInput {
    pub query: String,
    pub start: Option<String>,
    pub end: Option<String>,
    pub limit: Option<u32>,
    pub direction: Option<String>,
    pub response_mode: Option<ResponseMode>,
}

/// The value of [`QueryLogsInput`].
pub struct QueryLogsInputV {
    pub query: Seq<char>,
    pub start: Option<Seq<char>>,
    pub end: Option<Seq<char>>,
    pub limit: Option<u32>,
    pub direction: Option<Seq<char>>,
    pub response_mode: Option<ResponseMode>,
}

impl View for QueryLogsInput {
    type V = QueryLogsInputV;

    open spec fn view(&self) -> QueryLogsInputV {
        QueryLogsInputV {
            query: self.query@,
            start: text_of(self.start),
            end: text_of(self.end),
            limit: self.limit,
            direction: text_of(self.direction),
            response_mode: self.response_mode,
        }
    }
}

impl QueryLogsInput {
    /// The names of the arguments.
    pub open spec fn fields() -> Seq<Seq<char>> {
        Seq::empty().push("query"@)
            .push("start"@)
            .push("end"@)
            .push("limit"@)
            .push("direction"@)
            .push("response_mode"@)
    }

    /// The arguments fit: an object or `null`, no member that is not known,
    /// each member of its kind, none missing that must be there.
    pub open spec fn fits(params: JsonV) -> bool {
        &&& given(params) is Some
        &&& only_known(given(params)->0, Self::fields())
        &&& required_text(given(params)->0, "query"@) is Some
        &&& optional_text(given(params)->0, "start"@) is Some
        &&& optional_text(given(params)->0, "end"@) is Some
        &&& optional_u32(given(params)->0, "limit"@) is Some
        &&& optional_text(given(params)->0, "direction"@) is Some
        &&& optional_mode(given(params)->0, "response_mode"@) is Some
    }

    /// What the arguments say.
    pub open spec fn reading(params: JsonV) -> QueryLogsInputV {
        QueryLogsInputV {
            query: required_text(given(params)->0, "query"@)->0,
            start: optional_text(given(params)->0, "start"@)->0,
            end: optional_text(given(params)->0, "end"@)->0,
            limit: optional_u32(given(params)->0, "limit"@)->0,
            direction: optional_text(given(params)->0, "direction"@)->0,
            response_mode: optional_mode(given(params)->0, "response_mode"@)->0,
        }
    }

    pub fn decode(params: &Json) -> (r: Option<Self>)
        ensures
            r is Some == Self::fits(params@),
            r is Some ==> r->0@ == Self::reading(params@),
    {
        let empty: Vec<(String, Json)> = Vec::new();
        let members = members_of(params, &empty)?;
        let mut known = nothing_known();
        know(&mut known, "query");
        know(&mut known, "start");
        know(&mut known, "end");
        know(&mut known, "limit");
        know(&mut known, "direction");
        know(&mut known, "response_mode");
        if !check_known(members, &known) {
            return None;
        }
        let query = read_required_text(members, "query")?;
        let start = read_optional_text(members, "start")?;
        let end = read_optional_text(members, "end")?;
        let limit = read_optional_u32(members, "limit")?;
        let direction = read_optional_text(members, "direction")?;
        let response_mode = read_optional_mode(members, "response_mode")?;
        Some(QueryLogsInput { query, start, end, limit, direction, response_mode })
    }
}

/// The arguments of `loki_query_metrics`.
#[derive(Debug)]
pub struct QueryMetricsInput {
    pub query: String,
    pub start: Option<String>,
    pub end: Option<String>,
    pub step: Option<String>,
}

/// The value of [`QueryMetricsInput`].
pub struct QueryMetricsInputV {
    pub query: Seq<char>,
    pub start: Option<Seq<char>>,
    pub end: Option<Seq<char>>,
    pub step: Option<Seq<char>>,
}

impl View for QueryMetricsInput {
    type V = QueryMetricsInputV;

    open spec fn view(&self) -> QueryMetricsInputV {
        QueryMetricsInputV {
            query: self.query@,
            start: text_of(self.start),
            end: text_of(self.end),
            step: text_of(self.step),
        }
    }
}

impl QueryMetricsInput {
    /// The names of the arguments.
    pub open spec fn fields() -> Seq<Seq<char>> {
        Seq::empty().push("query"@).push("start"@).push("end"@).push("step"@)
    }

    /// The arguments fit: an object or `null`, no member that is not known,
    /// each member of its kind, none missing that must be there.
    pub open spec fn fits(params: JsonV) -> bool {
        &&& given(params) is Some
        &&& only_known(given(params)->0, Self::fields())
        &&& required_text(given(params)->0, "query"@) is Some
        &&& optional_text(given(params)->0, "start"@) is Some
        &&& optional_text(given(params)->0, "end"@) is Some
        &&& optional_text(given(params)->0, "step"@) is Some
    }

    /// What the arguments say.
    pub open spec fn reading(params: JsonV) -> QueryMetricsInputV {
        QueryMetricsInputV {
            query: required_text(given(params)->0, "query"@)->0,
            start: optional_text(given(params)->0, "start"@)->0,
            end: optional_text(given(params)->0, "end"@)->0,
            step: optional_text(given(params)->0, "step"@)->0,
        }
    }

    pub fn decode(params: &Json) -> (r: Option<Self>)
        ensures
            r is Some == Self::fits(params@),
            r is Some ==> r->0@ == Self::reading(params@),
    {
        let empty: Vec<(String, Json)> = Vec::new();
        let members = members_of(params, &empty)?;
        let mut known = nothing_known();
        know(&mut known, "query");
        know(&mut known, "start");
        know(&mut known, "end");
        know(&mut known, "step");
        if !check_known(members, &known) {
            return None;
        }
        let query = read_required_text(members, "query")?;
        let start = read_optional_text(members, "start")?;
        let end = read_optional_text(members, "end")?;
        let step = read_optional_text(members, "step")?;
        Some(QueryMetricsInput { query, start, end, step })
    }
}

/// The arguments of `loki_build_query`.
#[derive(Debug)]
pub struct BuildQueryInput {
    pub labels: Option<Labels>,
    pub structured_metadata: Option<Labels>,
    pub line_filter: Option<String>,
    pub line_filter_regex: Option<String>,
    pub exclude: Option<String>,
    pub json_fields: Option<Labels>,
    pub aggregation: Option<String>,
    pub aggregation_range: Option<String>,
    pub start: Option<String>,
    pub end: Option<String>,
    pub limit: Option<u32>,
    pub response_mode: Option<ResponseMode>,
}

/// The value of [`BuildQueryInput`].
pub struct BuildQueryInputV {
    pub labels: Option<Named<Seq<char>>>,
    pub structured_metadata: Option<Named<Seq<char>>>,
    pub line_filter: Option<Seq<char>>,
    pub line_filter_regex: Option<Seq<char>>,
    pub exclude: Option<Seq<char>>,
    pub json_fields: Option<Named<Seq<char>>>,
    pub aggregation: Option<Seq<char>>,
    pub aggregation_range: Option<Seq<char>>,
    pub start: Option<Seq<char>>,
    pub end: Option<Seq<char>>,
    pub limit: Option<u32>,
    pub response_mode: Option<ResponseMode>,
}

impl View for BuildQueryInput {
    type V = BuildQueryInputV;

    open spec fn view(&self) -> BuildQueryInputV {
        BuildQueryInputV {
            labels: labels_of(self.labels),
            structured_metadata: labels_of(self.structured_metadata),
            line_filter: text_of(self.line_filter),
            line_filter_regex: text_of(self.line_filter_regex),
            exclude: text_of(self.exclude),
            json_fields: labels_of(self.json_fields),
            aggregation: text_of(self.aggregation),
            aggregation_range: text_of(self.aggregation_range),
            start: text_of(self.start),
            end: text_of(self.end),
            limit: self.limit,
            response_mode: self.response_mode,
        }
    }
}

impl BuildQueryInput {
    /// The names of the arguments.
    pub open spec fn fields() -> Seq<Seq<char>> {
        Seq::empty().push("labels"@)
            .push("structured_metadata"@)
            .push("line_filter"@)
            .push("line_filter_regex"@)
            .push("exclude"@)
            .push("json_fields"@)
            .push("aggregation"@)
            .push("aggregation_range"@)
            .push("start"@)
            .push("end"@)
            .push("limit"@)
            .push("response_mode"@)
    }

    /// The arguments fit: an object or `null`, no member that is not known,
    /// each member of its kind, none missing that must be there.
    pub open spec fn fits(params: JsonV) -> bool {
        &&& given(params) is Some
        &&& only_known(given(params)->0, Self::fields())
        &&& optional_labels(given(params)->0, "labels"@) is Some
        &&& optional_labels(given(params)->0, "structured_metadata"@) is Some
        &&& optional_text(given(params)->0, "line_filter"@) is Some
        &&& optional_text(given(params)->0, "line_filter_regex"@) is Some
        &&& optional_text(given(params)->0, "exclude"@) is Some
        &&& optional_labels(given(params)->0, "json_fields"@) is Some
        &&& optional_text(given(params)->0, "aggregation"@) is Some
        &&& optional_text(given(params)->0, "aggregation_range"@) is Some
        &&& optional_text(given(params)->0, "start"@) is Some
        &&& optional_text(given(params)->0, "end"@) is Some
        &&& optional_u32(given(params)->0, "limit"@) is Some
        &&& optional_mode(given(params)->0, "response_mode"@) is Some
    }

    /// What the arguments say.
    pub open spec fn reading(params: JsonV) -> BuildQueryInputV {
        BuildQueryInputV {
            labels: optional_labels(given(params)->0, "labels"@)->0,
            structured_metadata: optional_labels(given(params)->0, "structured_metadata"@)->0,
            line_filter: optional_text(given(params)->0, "line_filter"@)->0,
            line_filter_regex: optional_text(given(params)->0, "line_filter_regex"@)->0,
            exclude: optional_text(given(params)->0, "exclude"@)->0,
            json_fields: optional_labels(given(params)->0, "json_fields"@)->0,
            aggregation: optional_text(given(params)->0, "aggregation"@)->0,
            aggregation_range: optional_text(given(params)->0, "aggregation_range"@)->0,
            start: optional_text(given(params)->0, "start"@)->0,
            end: optional_text(given(params)->0, "end"@)->0,
            limit: optional_u32(given(params)->0, "limit"@)->0,
            response_mode: optional_mode(given(params)->0, "response_mode"@)->0,
        }
    }

    pub fn decode(params: &Json) -> (r: Option<Self>)
        ensures
            r is Some == Self::fits(params@),
            r is Some ==> r->0@ == Self::reading(params@),
    {
        let empty: Vec<(String, Json)> = Vec::new();
        let members = members_of(params, &empty)?;
        let mut known = nothing_known();
        know(&mut known, "labels");
        know(&mut known, "structured_metadata");
        know(&mut known, "line_filter");
        know(&mut known, "line_filter_regex");
        know(&mut known, "exclude");
        know(&mut known, "json_fields");
        know(&mut known, "aggregation");
        know(&mut known, "aggregation_range");
        know(&mut known, "start");
        know(&mut known, "end");
        know(&mut known, "limit");
        know(&mut known, "response_mode");
        if !check_known(members, &known) {
            return None;
        }
        let labels = read_optional_labels(members, "labels")?;
        let structured_metadata = read_optional_labels(members, "structured_metadata")?;
        let line_filter = read_optional_text(members, "line_filter")?;
        let line_filter_regex = read_optional_text(members, "line_filter_regex")?;
        let exclude = read_optional_text(members, "exclude")?;
        let json_fields = read_optional_labels(members, "json_fields")?;
        let aggregation = read_optional_text(members, "aggregation")?;
        let aggregation_range = read_optional_text(members, "aggregation_range")?;
        let start = read_optional_text(members, "start")?;
        let end = read_optional_text(members, "end")?;
        let limit = read_optional_u32(members, "limit")?;
        let response_mode = read_optional_mode(members, "response_mode")?;
        Some(BuildQueryInput { labels, structured_metadata, line_filter, line_filter_regex, exclude, json_fields, aggregation, aggregation_range, start, end, limit, response_mode })
    }
}

/// The arguments of `loki_tail`.
#[derive(Debug)]
pub struct TailInput {
    pub labels: Labels,
    pub lines: Option<u32>,
    pub response_mode: Option<ResponseMode>,
}

/// The value of [`TailInput`].
pub struct TailInputV {
    pub labels: Named<Seq<char>>,
    pub lines: Option<u32>,
    pub response_mode: Option<ResponseMode>,
}

impl View for TailInput {
    type V = TailInputV;

    open spec fn view(&self) -> TailInputV {
        TailInputV {
            labels: named_view(self.labels@),
            lines: self.lines,
            response_mode: self.response_mode,
        }
    }
}

impl TailInput {
    /// The names of the arguments.
    pub open spec fn fields() -> Seq<Seq<char>> {
        Seq::empty().push("labels"@).push("lines"@).push("response_mode"@)
    }

    /// The arguments fit: an object or `null`, no member that is not known,
    /// each member of its kind, none missing that must be there.
    pub open spec fn fits(params: JsonV) -> bool {
        &&& given(params) is Some
        &&& only_known(given(params)->0, Self::fields())
        &&& required_labels(given(params)->0, "labels"@) is Some
        &&& optional_u32(given(params)->0, "lines"@) is Some
        &&& optional_mode(given(params)->0, "response_mode"@) is Some
    }

    /// What the arguments say.
    pub open spec fn reading(params: JsonV) -> TailInputV {
        TailInputV {
            labels: required_labels(given(params)->0, "labels"@)->0,
            lines: optional_u32(given(params)->0, "lines"@)->0,
            response_mode: optional_mode(given(params)->0, "response_mode"@)->0,
        }
    }

    pub fn decode(params: &Json) -> (r: Option<Self>)
        ensures
            r is Some == Self::fits(params@),
            r is Some ==> r->0@ == Self::reading(params@),
    {
        let empty: Vec<(String, Json)> = Vec::new();
        let members = members_of(params, &empty)?;
        let mut known = nothing_known();
        know(&mut known, "labels");
        know(&mut known, "lines");
        know(&mut known, "response_mode");
        if !check_known(members, &known) {
            return None;
        }
        let labels = read_required_labels(members, "labels")?;
        let lines = read_optional_u32(members, "lines")?;
        let response_mode = read_optional_mode(members, "response_mode")?;
        Some(TailInput { labels, lines, response_mode })
    }
}

/// The arguments of `loki_run_saved_query`.
#[derive(Debug)]
pub struct RunSavedQueryInput {
    pub name: String,
    pub override_range: Option<String>,
    pub response_mode: Option<ResponseMode>,
}

/// The value of [`RunSavedQueryInput`].
pub struct RunSavedQueryInputV {
    pub name: Seq<char>,
    pub override_range: Option<Seq<char>>,
    pub response_mode: Option<ResponseMode>,
}

impl View for RunSavedQueryInput {
    type V = RunSavedQueryInputV;

    open spec fn view(&self) -> RunSavedQueryInputV {
        RunSavedQueryInputV {
            name: self.name@,
            override_range: text_of(self.override_range),
            response_mode: self.response_mode,
        }
    }
}

impl RunSavedQueryInput {
    /// The names of the arguments.
    pub open spec fn fields() -> Seq<Seq<char>> {
        Seq::empty().push("name"@).push("override_range"@).push("response_mode"@)
    }

    /// The arguments fit: an object or `null`, no member that is not known,
    /// each member of its kind, none missing that must be there.
    pub open spec fn fits(params: JsonV) -> bool {
        &&& given(params) is Some
        &&& only_known(given(params)->0, Self::fields())
        &&& required_text(given(params)->0, "name"@) is Some
        &&& optional_text(given(params)->0, "override_range"@) is Some
        &&& optional_mode(given(params)->0, "response_mode"@) is Some
    }

    /// What the arguments say.
    pub open spec fn reading(params: JsonV) -> RunSavedQueryInputV {
        RunSavedQueryInputV {
            name: required_text(given(params)->0, "name"@)->0,
            override_range: optional_text(given(params)->0, "override_range"@)->0,
            response_mode: optional_mode(given(params)->0, "response_mode"@)->0,
        }
    }

    pub fn decode(params: &Json) -> (r: Option<Self>)
        ensures
            r is Some == Self::fits(params@),
            r is Some ==> r->0@ == Self::reading(params@),
    {
        let empty: Vec<(String, Json)> = Vec::new();
        let members = members_of(params, &empty)?;
        let mut known = nothing_known();
        know(&mut known, "name");
        know(&mut known, "override_range");
        know(&mut known, "response_mode");
        if !check_known(members, &known) {
            return None;
        }
        let name = read_required_text(members, "name")?;
        let override_range = read_optional_text(members, "override_range")?;
        let response_mode = read_optional_mode(members, "response_mode")?;
        Some(RunSavedQueryInput { name, override_range, response_mode })
    }
}

// ---------------------------------------------------------------------------
// LogQL
// ---------------------------------------------------------------------------
/// What stands for one character inside a quoted LogQL value.
pub open spec fn escaped_char(c: char) -> Seq<char> {
    if c == '\\' {
        "\\\\"@
    } else if c == '"' {
        "\\\""@
    } else {
        Seq::empty().push(c)
    }
}

/// `s` with each backslash doubled and each double quote behind a
/// backslash.
pub open spec fn escaped(s: Seq<char>) -> Seq<char>
    decreases s.len(),
{
    if s.len() == 0 {
        Seq::empty()
    } else {
        escaped(s.drop_last()) + escaped_char(s.last())
    }
}

pub fn escape_logql_value(input: &str) -> (r: String)
    ensures
        r@ == escaped(input@),
{
    let raw = chars_of(input);
    let mut out = String::new();
    let mut i: usize = 0;
    while i < raw.len()
        invariant
            i <= raw.len(),
            out@ == escaped(raw@.take(i as int)),
        decreases raw.len() - i,
    {
        proof {
            assert(raw@.take(i + 1).drop_last() == raw@.take(i as int));
            assert(raw@.take(i + 1).last() == raw@[i as int]);
        }
        let c = raw[i];
        if c == '\\' {
            push_text(&mut out, "\\\\");
        } else if c == '"' {
            push_text(&mut out, "\\\"");
        } else {
            let ghost before = out@;
            out.push(c);
            assert(out@ == before + Seq::empty().push(c));
        }
        i = i + 1;
    }
    assert(raw@.take(raw@.len() as int) == raw@);
    out
}

/// `name="value"` with the value escaped.
pub open spec fn label_pair(name: Seq<char>, value: Seq<char>) -> Seq<char> {
    name + "=\""@ + escaped(value) + "\""@
}

pub open spec fn label_pairs(labels: Named<Seq<char>>) -> Seq<Seq<char>> {
    Seq::new(labels.len(), |i: int| label_pair(labels[i].0, labels[i].1))
}

/// The selector of a label set: the pairs in the order of their names,
/// between braces with commas between them. Of two labels of one name the
/// later counts.
pub open spec fn selector_text(labels: Named<Seq<char>>) -> Seq<char> {
    if arranged(labels).len() == 0 {
        "{}"@
    } else {
        "{"@ + joined(label_pairs(arranged(labels)), ","@) + "}"@
    }
}

/// The labels in the order of their names, of two of one name the later.
pub fn arrange(labels: &Labels) -> (r: Labels)
    ensures
        named_view(r@) == arranged(named_view(labels@)),
{
    let mut out: Labels = Vec::new();
    let mut i: usize = 0;
    let ghost all = named_view(labels@);
    assert(all.take(0) =~= Seq::empty());
    assert(named_view(out@) =~= Seq::empty());
    while i < labels.len()
        invariant
            i <= labels.len(),
            all == named_view(labels@),
            named_view(out@) == arranged(all.take(i as int)),
        decreases labels.len() - i,
    {
        proof {
            assert(all.take(i + 1).drop_last() =~= all.take(i as int));
            assert(all.take(i + 1).last() == all[i as int]);
        }
        place(&mut out, labels[i].0.clone(), labels[i].1.clone());
        i = i + 1;
    }
    assert(all.take(labels@.len() as int) =~= all);
    out
}

fn pair_text(name: &str, value: &str) -> (r: String)
    ensures
        r@ == label_pair(name@, value@),
{
    let mut r = name.to_owned();
    push_text(&mut r, "=\"");
    let quoted = escape_logql_value(value);
    push_text(&mut r, quoted.as_str());
    push_text(&mut r, "\"");
    r
}

pub fn selector_from_labels(labels: &Labels) -> (r: String)
    ensures
        r@ == selector_text(named_view(labels@)),
{
    let sorted = arrange(labels);
    if sorted.len() == 0 {
        return "{}".to_owned();
    }
    let mut pairs: Vec<String> = Vec::new();
    let mut i: usize = 0;
    while i < sorted.len()
        invariant
            i <= sorted.len(),
            pairs@.len() == i,
            forall|k: int| 0 <= k < i ==> pairs@[k]@ == label_pair(sorted@[k].0@, sorted@[k].1@),
        decreases sorted.len() - i,
    {
        pairs.push(pair_text(sorted[i].0.as_str(), sorted[i].1.as_str()));
        i = i + 1;
    }
    assert(texts(pairs@) =~= label_pairs(named_view(sorted@)));
    let inner = join(&pairs, ",");
    let mut r = "{".to_owned();
    push_text(&mut r, inner.as_str());
    push_text(&mut r, "}");
    r
}

/// `| name="value"` with the value escaped.
pub open spec fn field_filter(name: Seq<char>, value: Seq<char>) -> Seq<char> {
    "| "@ + label_pair(name, value)
}

/// A filter per field, in the order of the names of the fields.
pub open spec fn field_filters(fields: Option<Named<Seq<char>>>) -> Seq<Seq<char>> {
    match fields {
        Some(f) => Seq::new(
            arranged(f).len(),
            |i: int| field_filter(arranged(f)[i].0, arranged(f)[i].1),
        ),
        None => Seq::empty(),
    }
}

/// A line filter: the operator, then the text escaped between quotes.
pub open spec fn line_filter_part(operator: Seq<char>, text: Option<Seq<char>>) -> Seq<Seq<char>> {
    match text {
        Some(t) => Seq::empty().push(operator + " \""@ + escaped(t) + "\""@),
        None => Seq::empty(),
    }
}

/// The JSON stage: `| json`, then a filter per field; nothing where no
/// field is given.
pub open spec fn json_parts(fields: Option<Named<Seq<char>>>) -> Seq<Seq<char>> {
    match fields {
        Some(f) => if f.len() > 0 {
            Seq::empty().push("| json"@) + field_filters(fields)
        } else {
            Seq::empty()
        },
        None => Seq::empty(),
    }
}

/// The parts of the query in their order: the selector, the metadata
/// filters, the line filters `|=`, `|~`, `!=`, and the JSON stage.
pub open spec fn query_parts(input: BuildQueryInputV) -> Seq<Seq<char>> {
    Seq::empty().push(
        selector_text(
            match input.labels {
                Some(l) => l,
                None => Seq::empty(),
            },
        ),
    ) + field_filters(input.structured_metadata) + line_filter_part("|="@, input.line_filter)
        + line_filter_part("|~"@, input.line_filter_regex) + line_filter_part(
        "!="@,
        input.exclude,
    ) + json_parts(input.json_fields)
}

/// The LogQL that the filters state.
pub open spec fn query_text(input: BuildQueryInputV) -> Seq<char> {
    joined(query_parts(input), " "@)
}

fn push_filters(parts: &mut Vec<String>, fields: &Option<Labels>)
    ensures
        texts(final(parts)@) == texts(old(parts)@) + field_filters(labels_of(*fields)),
{
    let ghost before = texts(parts@);
    match fields {
        Some(given) => {
            let f = arrange(given);
            let ghost all = field_filters(labels_of(*fields));
            let mut i: usize = 0;
            assert(before + all.take(0) =~= before);
            while i < f.len()
                invariant
                    i <= f.len(),
                    named_view(f@) == arranged(named_view(given@)),
                    all == field_filters(Some(named_view(given@))),
                    texts(parts@) == before + all.take(i as int),
                decreases f.len() - i,
            {
                let mut part = "| ".to_owned();
                let pair = pair_text(f[i].0.as_str(), f[i].1.as_str());
                push_text(&mut part, pair.as_str());
                let ghost shown = part@;
                let ghost so_far = texts(parts@);
                parts.push(part);
                assert(texts(parts@) =~= so_far.push(shown));
                assert(all.take(i + 1) =~= all.take(i as int).push(shown));
                assert(before + all.take(i + 1) =~= (before + all.take(i as int)).push(shown));
                i = i + 1;
            }
            assert(all.take(f@.len() as int) == all);
        },
        None => {
            assert(before + Seq::<Seq<char>>::empty() =~= before);
        },
    }
}

fn push_line_filter(parts: &mut Vec<String>, operator: &str, text: &Option<String>)
    ensures
        texts(final(parts)@) == texts(old(parts)@) + line_filter_part(operator@, text_of(*text)),
{
    let ghost before = texts(parts@);
    match text {
        Some(t) => {
            let mut part = operator.to_owned();
            push_text(&mut part, " \"");
            let quoted = escape_logql_value(t.as_str());
            push_text(&mut part, quoted.as_str());
            push_text(&mut part, "\"");
            let ghost shown = part@;
            parts.push(part);
            assert(texts(parts@) =~= before + Seq::empty().push(shown));
        },
        None => {
            assert(before + Seq::<Seq<char>>::empty() =~= before);
        },
    }
}

pub fn build_query_string(input: &BuildQueryInput) -> (r: Result<String, ToolError>)
    ensures
        r is Ok,
        r->Ok_0@ == query_text(input@),
{
    let mut parts: Vec<String> = Vec::new();
    let selector = match &input.labels {
        Some(labels) => selector_from_labels(labels),
        None => {
            let none: Labels = Vec::new();
            assert(named_view(none@) =~= Seq::empty());
            selector_from_labels(&none)
        },
    };
    let ghost first = selector@;
    parts.push(selector);
    assert(texts(parts@) =~= Seq::empty().push(first));
    push_filters(&mut parts, &input.structured_metadata);
    push_line_filter(&mut parts, "|=", &input.line_filter);
    push_line_filter(&mut parts, "|~", &input.line_filter_regex);
    push_line_filter(&mut parts, "!=", &input.exclude);
    let ghost so_far = texts(parts@);
    let staged = match &input.json_fields {
        Some(f) => f.len() > 0,
        None => false,
    };
    if staged {
        parts.push("| json".to_owned());
        assert(texts(parts@) =~= so_far + Seq::empty().push("| json"@));
        push_filters(&mut parts, &input.json_fields);
        assert(texts(parts@) =~= so_far + json_parts(labels_of(input.json_fields)));
    } else {
        assert(so_far + json_parts(labels_of(input.json_fields)) =~= so_far);
    }
    Ok(join(&parts, " "))
}

/// The range aggregations that may wrap a query.
pub open spec fn known_aggregation(name: Seq<char>) -> bool {
    name == "count_over_time"@ || name == "rate"@ || name == "bytes_over_time"@ || name
        == "bytes_rate"@
}

pub fn validate_aggregation(aggregation: &str) -> (r: Result<(), ToolError>)
    ensures
        r is Ok == known_aggregation(aggregation@),
        r is Err ==> (r->Err_0 matches ToolError::UnsupportedAggregation(name) && name@
            == aggregation@),
{
    if same_text(aggregation, "count_over_time") || same_text(aggregation, "rate") || same_text(
        aggregation,
        "bytes_over_time",
    ) || same_text(aggregation, "bytes_rate") {
        Ok(())
    } else {
        Err(ToolError::UnsupportedAggregation(aggregation.to_owned()))
    }
}

/// The range over which a query is aggregated where none is given.
pub open spec fn range_or_default(range: Option<Seq<char>>) -> Seq<char> {
    match range {
        Some(r) => r,
        None => "5m"@,
    }
}

/// A query wrapped in a range aggregation: `name(query[range])`.
pub open spec fn aggregated(name: Seq<char>, query: Seq<char>, range: Seq<char>) -> Seq<char> {
    name + "("@ + query + "["@ + range + "])"@
}

pub fn aggregate(name: &str, query: &str, range: &str) -> (r: String)
    ensures
        r@ == aggregated(name@, query@, range@),
{
    let mut r = name.to_owned();
    push_text(&mut r, "(");
    push_text(&mut r, query);
    push_text(&mut r, "[");
    push_text(&mut r, range);
    push_text(&mut r, "])");
    r
}

// ---------------------------------------------------------------------------
// What the query tools ask of the backend
// ---------------------------------------------------------------------------
/// What `loki_query_logs` begins with: the query over the range found, for
/// 100 lines where no number is named.
pub open spec fn logs_plan(zone: Zone, input: QueryLogsInputV, now: Instant) -> Result<
    PlanV,
    Seq<char>,
> {
    match window(input.start, input.end, zone, now) {
        Err(w) => Err(w),
        Ok(range) => ask_one(
            logs_ask(input.query, range, or_limit(input.limit, DEFAULT_LIMIT), input.direction),
            finish_over(
                FinishKind::Logs,
                Seq::<Seq<char>>::empty().push(input.query),
                range,
                mode_or_smart(input.response_mode),
                None,
            ),
        ),
    }
}

pub fn query_logs(client: &LokiClient, timezone: Zone, input: QueryLogsInput, now: Instant) -> (r:
    Result<Plan, ToolError>)
    requires
        now.wf(),
    ensures
        match r {
            Ok(plan) => logs_plan(timezone, input@, now) == Ok::<_, Seq<char>>(plan@),
            Err(e) => logs_plan(timezone, input@, now) == Err::<PlanV, _>(e.words()),
        },
{
    let range = window_of(as_text(&input.start), as_text(&input.end), timezone, now)?;
    let request = logs_request(
        client,
        input.query.as_str(),
        range,
        limit_of(input.limit, DEFAULT_LIMIT),
        as_text(&input.direction),
    )?;
    let then = finish_with(
        FinishKind::Logs,
        one_text(input.query),
        range,
        mode_of(input.response_mode),
        None,
    );
    Ok(Plan::Ask(one_request(request), then))
}

/// What `loki_query_metrics` begins with: the query over the range found,
/// at the step that is given.
pub open spec fn metrics_plan(zone: Zone, input: QueryMetricsInputV, now: Instant) -> Result<
    PlanV,
    Seq<char>,
> {
    match window(input.start, input.end, zone, now) {
        Err(w) => Err(w),
        Ok(range) => ask_one(
            range_ask("/loki/api/v1/query_range"@, input.query, range, input.step),
            finish_over(
                FinishKind::Metrics,
                Seq::<Seq<char>>::empty().push(input.query),
                range,
                ResponseMode::Smart,
                input.step,
            ),
        ),
    }
}

pub fn query_metrics(client: &LokiClient, timezone: Zone, input: QueryMetricsInput, now: Instant) -> (r:
    Result<Plan, ToolError>)
    requires
        now.wf(),
    ensures
        match r {
            Ok(plan) => metrics_plan(timezone, input@, now) == Ok::<_, Seq<char>>(plan@),
            Err(e) => metrics_plan(timezone, input@, now) == Err::<PlanV, _>(e.words()),
        },
{
    let range = window_of(as_text(&input.start), as_text(&input.end), timezone, now)?;
    let request = match client.query_metrics(
        input.query.as_str(),
        Some(range.0),
        Some(range.1),
        as_text(&input.step),
    ) {
        Ok(request) => request,
        Err(_) => {
            return Err(ToolError::TimestampOutOfRange);
        },
    };
    let then = finish_with(
        FinishKind::Metrics,
        one_text(input.query),
        range,
        ResponseMode::Smart,
        input.step,
    );
    Ok(Plan::Ask(one_request(request), then))
}

/// What `loki_build_query` begins with: the range found; the query built;
/// then, where an aggregation is asked for, the aggregated query as a
/// metric query, else the query for log lines, newest first.
pub open spec fn build_plan(zone: Zone, input: BuildQueryInputV, now: Instant) -> Result<
    PlanV,
    Seq<char>,
> {
    match window(input.start, input.end, zone, now) {
        Err(w) => Err(w),
        Ok(range) => match built_query(input) {
            Err(w) => Err(w),
            Ok(query) => if input.aggregation is Some {
                ask_one(
                    range_ask("/loki/api/v1/query_range"@, query, range, None),
                    finish_over(
                        FinishKind::BuiltMetrics,
                        Seq::<Seq<char>>::empty().push(query),
                        range,
                        mode_or_smart(input.response_mode),
                        None,
                    ),
                )
            } else {
                ask_one(
                    logs_ask(query, range, or_limit(input.limit, DEFAULT_LIMIT), Some("backward"@)),
                    finish_over(
                        FinishKind::Logs,
                        Seq::<Seq<char>>::empty().push(query),
                        range,
                        mode_or_smart(input.response_mode),
                        None,
                    ),
                )
            },
        },
    }
}

pub fn build_query(client: &LokiClient, timezone: Zone, input: BuildQueryInput, now: Instant) -> (r:
    Result<Plan, ToolError>)
    requires
        now.wf(),
    ensures
        match r {
            Ok(plan) => build_plan(timezone, input@, now) == Ok::<_, Seq<char>>(plan@),
            Err(e) => build_plan(timezone, input@, now) == Err::<PlanV, _>(e.words()),
        },
{
    let range = window_of(as_text(&input.start), as_text(&input.end), timezone, now)?;
    let query = built_query_of(&input)?;
    let mode = mode_of(input.response_mode);
    if input.aggregation.is_some() {
        let request = match client.query_metrics(
            query.as_str(),
            Some(range.0),
            Some(range.1),
            None,
        ) {
            Ok(request) => request,
            Err(_) => {
                return Err(ToolError::TimestampOutOfRange);
            },
        };
        let then = finish_with(FinishKind::BuiltMetrics, one_text(query), range, mode, None);
        Ok(Plan::Ask(one_request(request), then))
    } else {
        let request = logs_request(
            client,
            query.as_str(),
            range,
            limit_of(input.limit, DEFAULT_LIMIT),
            Some("backward"),
        )?;
        let then = finish_with(FinishKind::Logs, one_text(query), range, mode, None);
        Ok(Plan::Ask(one_request(request), then))
    }
}

/// What `loki_tail` begins with: the selector of the labels, of which
/// there is one at the least, over the last 30 minutes, newest first, for
/// 50 lines where no number is named.
pub open spec fn tail_plan(zone: Zone, input: TailInputV, now: Instant) -> Result<PlanV, Seq<char>> {
    if input.labels.len() == 0 {
        Err("tail labels must not be empty"@)
    } else {
        match window(None, None, zone, now) {
            Err(w) => Err(w),
            Ok(range) => ask_one(
                logs_ask(
                    selector_text(input.labels),
                    range,
                    or_limit(input.lines, DEFAULT_TAIL_LINES),
                    Some("backward"@),
                ),
                finish_over(
                    FinishKind::Logs,
                    Seq::<Seq<char>>::empty().push(selector_text(input.labels)),
                    range,
                    mode_or_smart(input.response_mode),
                    None,
                ),
            ),
        }
    }
}

pub fn tail(client: &LokiClient, timezone: Zone, input: TailInput, now: Instant) -> (r: Result<
    Plan,
    ToolError,
>)
    requires
        now.wf(),
    ensures
        match r {
            Ok(plan) => tail_plan(timezone, input@, now) == Ok::<_, Seq<char>>(plan@),
            Err(e) => tail_plan(timezone, input@, now) == Err::<PlanV, _>(e.words()),
        },
{
    if input.labels.len() == 0 {
        return Err(ToolError::EmptyTailLabels);
    }
    let selector = selector_from_labels(&input.labels);
    let range = window_of(None, None, timezone, now)?;
    let request = logs_request(
        client,
        selector.as_str(),
        range,
        limit_of(input.lines, DEFAULT_TAIL_LINES),
        Some("backward"),
    )?;
    let then = finish_with(
        FinishKind::Logs,
        one_text(selector),
        range,
        mode_of(input.response_mode),
        None,
    );
    Ok(Plan::Ask(one_request(request), then))
}

/// What `loki_run_saved_query` begins with: the saved query of that name
/// over its range or the one given in its place, for 100 lines, newest
/// first.
pub open spec fn saved_plan(config: &Config, zone: Zone, input: RunSavedQueryInputV, now: Instant) -> Result<
    PlanV,
    Seq<char>,
> {
    match saved_at(config.saved_queries@, input.name) {
        None => Err(not_saved_words(input.name)),
        Some(i) => {
            let saved = config.saved_queries@[i];
            match saved_window(saved, input.override_range, zone, now) {
                Err(w) => Err(w),
                Ok(range) => ask_one(
                    logs_ask(saved.query@, range, DEFAULT_LIMIT, Some("backward"@)),
                    finish_over(
                        FinishKind::SavedLogs,
                        Seq::<Seq<char>>::empty().push(saved.name@).push(saved.query@).push(
                            saved.description@,
                        ),
                        range,
                        mode_or_smart(input.response_mode),
                        None,
                    ),
                ),
            }
        },
    }
}

/// A saved query that is run with a relative duration in place of its own
/// range asks once, for the saved text, from that long before now until
/// now, for 100 lines, newest first; the range that was saved with the
/// query is not looked at.
pub proof fn saved_query_runs_over_its_override(
    config: &Config,
    zone: Zone,
    input: RunSavedQueryInputV,
    now: Instant,
    i: int,
    span: Span,
    from: Instant,
)
    requires
        now.wf(),
        saved_at(config.saved_queries@, input.name) == Some(i),
        input.override_range is Some,
        relative_duration(lowered(trimmed(input.override_range->0))) == Ok::<_, Failure>(span),
        now.back(span) == Some(from),
    ensures
        from.at() == now.at() - span.total(),
        saved_plan(config, zone, input, now) == ask_one(
            logs_ask(
                config.saved_queries@[i].query@,
                (from, now),
                DEFAULT_LIMIT,
                Some("backward"@),
            ),
            finish_over(
                FinishKind::SavedLogs,
                Seq::<Seq<char>>::empty().push(config.saved_queries@[i].name@).push(
                    config.saved_queries@[i].query@,
                ).push(config.saved_queries@[i].description@),
                (from, now),
                mode_or_smart(input.response_mode),
                None,
            ),
        ),
{
    relative_reference_counts_back(input.override_range->0, zone, now, span);
    let t = now.at() - span.total();
    assert(from == crate::time::instant_at(t));
    assert(t <= now.at());
    assert(!from.later_than(now));
}

pub fn run_saved_query(
    client: &LokiClient,
    config: &Config,
    timezone: Zone,
    input: RunSavedQueryInput,
    now: Instant,
) -> (r: Result<Plan, ToolError>)
    requires
        now.wf(),
    ensures
        match r {
            Ok(plan) => saved_plan(config, timezone, input@, now) == Ok::<_, Seq<char>>(plan@),
            Err(e) => saved_plan(config, timezone, input@, now) == Err::<PlanV, _>(e.words()),
        },
{
    let saved = match find_saved_query(&config.saved_queries, input.name.as_str()) {
        Some(saved) => saved,
        None => {
            return Err(ToolError::SavedQueryNotFound(input.name));
        },
    };
    let range_text: &str = match &input.override_range {
        Some(r) => r.as_str(),
        None => saved.range.as_str(),
    };
    let range = window_of(Some(range_text), None, timezone, now)?;
    let request = logs_request(client, saved.query.as_str(), range, DEFAULT_LIMIT, Some("backward"))?;
    let mut shown: Vec<String> = Vec::new();
    shown.push(saved.name.clone());
    shown.push(saved.query.clone());
    shown.push(saved.description.clone());
    assert(texts(shown@) =~= Seq::<Seq<char>>::empty().push(saved.name@).push(saved.query@).push(
        saved.description@,
    ));
    let then = finish_with(
        FinishKind::SavedLogs,
        shown,
        range,
        mode_of(input.response_mode),
        None,
    );
    Ok(Plan::Ask(one_request(request), then))
}

} // verus!
