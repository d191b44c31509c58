//! The discovery tools: their arguments, the schema briefing, and what is
//! asked of the backend for label names, label values and series.

use vstd::prelude::*;
use crate::config::{Config, SavedQuery, SchemaField};
use crate::error::ToolError;
use crate::json::{
    array_of, items_view, no_members, none, object_of, push_member, text_json, Json, JsonV,
};
use crate::loki::client::{
    bounds_wf, label_name_ok, label_values_path, matcher_params, optional_param, range_params,
    validate_label_name, LokiClient,
};
use crate::response::ResponseMode;
use crate::text::texts;
use crate::time::{optional_view, Instant, Zone};
use crate::tools::{inverted_words, moment, moment_of};
use crate::tools::dispatch::{
    ask_one, one_request, one_text, texts_json, texts_to_json, timestamp_words, Finish, FinishKind,
    FinishV, Plan, PlanV,
};
use crate::tools::params::{
    check_known, given, know, members_of, nothing_known, only_known, optional_text,
    read_optional_text, read_required_text, read_required_texts, required_text, required_texts,
    text_of,
};

verus! {

/// The arguments of a tool that takes none.
#[derive(Debug)]
pub struct NoParams {
}

/// The value of [`NoParams`].
pub struct NoParamsV {
}

impl View for NoParams {
    type V = NoParamsV;

    open spec fn view(&self) -> NoParamsV {
        NoParamsV {
        }
    }
}

impl NoParams {
    /// The names of the arguments.
    pub open spec fn fields() -> Seq<Seq<char>> {
        Seq::empty()
    }

    /// The arguments fit: an object or `null`, no member that is not known,
    /// each member of its kind, none missing that must be there.
    pub open spec fn fits(params: JsonV) -> bool {
        &&& given(params) is Some
        &&& only_known(given(params)->0, Self::fields())
    }

    /// What the arguments say.
    pub open spec fn reading(params: JsonV) -> NoParamsV {
        NoParamsV {
        }
    }

    pub fn decode(params: &Json) -> (r: Option<Self>)
        ensures
            r is Some == Self::fits(params@),
            r is Some ==> r->0@ == Self::reading(params@),
    {
        let empty: Vec<(String, Json)> = Vec::new();
        let members = members_of(params, &empty)?;
        let mut known = nothing_known();
        if !check_known(members, &known) {
            return None;
        }
        Some(NoParams {  })
    }
}

/// The arguments of `loki_list_labels`.
#[derive(Debug)]
pub struct StartEndParams {
    pub start: Option<String>,
    pub end: Option<String>,
}

/// The value of [`StartEndParams`].
pub struct StartEndParamsV {
    pub start: Option<Seq<char>>,
    pub end: Option<Seq<char>>,
}

impl View for StartEndParams {
    type V = StartEndParamsV;

    open spec fn view(&self) -> StartEndParamsV {
        StartEndParamsV {
            start: text_of(self.start),
            end: text_of(self.end),
        }
    }
}

impl StartEndParams {
    /// The names of the arguments.
    pub open spec fn fields() -> Seq<Seq<char>> {
        Seq::empty().push("start"@).push("end"@)
    }

    /// The arguments fit: an object or `null`, no member that is not known,
    /// each member of its kind, none missing that must be there.
    pub open spec fn fits(params: JsonV) -> bool {
        &&& given(params) is Some
        &&& only_known(given(params)->0, Self::fields())
        &&& optional_text(given(params)->0, "start"@) is Some
        &&& optional_text(given(params)->0, "end"@) is Some
    }

    /// What the arguments say.
    pub open spec fn reading(params: JsonV) -> StartEndParamsV {
        StartEndParamsV {
            start: optional_text(given(params)->0, "start"@)->0,
            end: optional_text(given(params)->0, "end"@)->0,
        }
    }

    pub fn decode(params: &Json) -> (r: Option<Self>)
        ensures
            r is Some == Self::fits(params@),
            r is Some ==> r->0@ == Self::reading(params@),
    {
        let empty: Vec<(String, Json)> = Vec::new();
        let members = members_of(params, &empty)?;
        let mut known = nothing_known();
        know(&mut known, "start");
        know(&mut known, "end");
        if !check_known(members, &known) {
            return None;
        }
        let start = read_optional_text(members, "start")?;
        let end = read_optional_text(members, "end")?;
        Some(StartEndParams { start, end })
    }
}

/// The arguments of `loki_label_values`.
#[derive(Debug)]
pub struct LabelValuesParams {
    pub label: String,
    pub start: Option<String>,
    pub end: Option<String>,
    pub query: Option<String>,
}

/// The value of [`LabelValuesParams`].
pub struct LabelValuesParamsV {
    pub label: Seq<char>,
    pub start: Option<Seq<char>>,
    pub end: Option<Seq<char>>,
    pub query: Option<Seq<char>>,
}

impl View for LabelValuesParams {
    type V = LabelValuesParamsV;

    open spec fn view(&self) -> LabelValuesParamsV {
        LabelValuesParamsV {
            label: self.label@,
            start: text_of(self.start),
            end: text_of(self.end),
            query: text_of(self.query),
        }
    }
}

impl LabelValuesParams {
    /// The names of the arguments.
    pub open spec fn fields() -> Seq<Seq<char>> {
        Seq::empty().push("label"@).push("start"@).push("end"@).push("query"@)
    }

    /// The arguments fit: an object or `null`, no member that is not known,
    /// each member of its kind, none missing that must be there.
    pub open spec fn fits(params: JsonV) -> bool {
        &&& given(params) is Some
        &&& only_known(given(params)->0, Self::fields())
        &&& required_text(given(params)->0, "label"@) is Some
        &&& optional_text(given(params)->0, "start"@) is Some
        &&& optional_text(given(params)->0, "end"@) is Some
        &&& optional_text(given(params)->0, "query"@) is Some
    }

    /// What the arguments say.
    pub open spec fn reading(params: JsonV) -> LabelValuesParamsV {
        LabelValuesParamsV {
            label: required_text(given(params)->0, "label"@)->0,
            start: optional_text(given(params)->0, "start"@)->0,
            end: optional_text(given(params)->0, "end"@)->0,
            query: optional_text(given(params)->0, "query"@)->0,
        }
    }

    pub fn decode(params: &Json) -> (r: Option<Self>)
        ensures
            r is Some == Self::fits(params@),
            r is Some ==> r->0@ == Self::reading(params@),
    {
        let empty: Vec<(String, Json)> = Vec::new();
        let members = members_of(params, &empty)?;
        let mut known = nothing_known();
        know(&mut known, "label");
        know(&mut known, "start");
        know(&mut known, "end");
        know(&mut known, "query");
        if !check_known(members, &known) {
            return None;
        }
        let label = read_required_text(members, "label")?;
        let start = read_optional_text(members, "start")?;
        let end = read_optional_text(members, "end")?;
        let query = read_optional_text(members, "query")?;
        Some(LabelValuesParams { label, start, end, query })
    }
}

/// The arguments of `loki_series`.
#[derive(Debug)]
pub struct SeriesParams {
    pub matchers: Vec<String>,
    pub start: Option<String>,
    pub end: Option<String>,
}

/// The value of [`SeriesParams`].
pub struct SeriesParamsV {
    pub matchers: Seq<Seq<char>>,
    pub start: Option<Seq<char>>,
    pub end: Option<Seq<char>>,
}

impl View for SeriesParams {
    type V = SeriesParamsV;

    open spec fn view(&self) -> SeriesParamsV {
        SeriesParamsV {
            matchers: texts(self.matchers@),
            start: text_of(self.start),
            end: text_of(self.end),
        }
    }
}

impl SeriesParams {
    /// The names of the arguments.
    pub open spec fn fields() -> Seq<Seq<char>> {
        Seq::empty().push("match"@).push("start"@).push("end"@)
    }

    /// The arguments fit: an object or `null`, no member that is not known,
    /// each member of its kind, none missing that must be there.
    pub open spec fn fits(params: JsonV) -> bool {
        &&& given(params) is Some
        &&& only_known(given(params)->0, Self::fields())
        &&& required_texts(given(params)->0, "match"@) is Some
        &&& optional_text(given(params)->0, "start"@) is Some
        &&& optional_text(given(params)->0, "end"@) is Some
    }

    /// What the arguments say.
    pub open spec fn reading(params: JsonV) -> SeriesParamsV {
        SeriesParamsV {
            matchers: required_texts(given(params)->0, "match"@)->0,
            start: optional_text(given(params)->0, "start"@)->0,
            end: optional_text(given(params)->0, "end"@)->0,
        }
    }

    pub fn decode(params: &Json) -> (r: Option<Self>)
        ensures
            r is Some == Self::fits(params@),
            r is Some ==> r->0@ == Self::reading(params@),
    {
        let empty: Vec<(String, Json)> = Vec::new();
        let members = members_of(params, &empty)?;
        let mut known = nothing_known();
        know(&mut known, "match");
        know(&mut known, "start");
        know(&mut known, "end");
        if !check_known(members, &known) {
            return None;
        }
        let matchers = read_required_texts(members, "match")?;
        let start = read_optional_text(members, "start")?;
        let end = read_optional_text(members, "end")?;
        Some(SeriesParams { matchers, start, end })
    }
}

// ---------------------------------------------------------------------------
// The schema
// ---------------------------------------------------------------------------
pub open spec fn field_json(field: SchemaField) -> JsonV {
    JsonV::Object(
        none().push(("name"@, JsonV::Text(field.name@))).push(
            ("description"@, JsonV::Text(field.description@)),
        ).push(("common_values"@, texts_json(texts(field.common_values@)))),
    )
}

pub open spec fn fields_json(fields: Seq<SchemaField>) -> JsonV {
    JsonV::Array(Seq::new(fields.len(), |i: int| field_json(fields[i])))
}

pub open spec fn saved_json(query: SavedQuery) -> JsonV {
    JsonV::Object(
        none().push(("name"@, JsonV::Text(query.name@))).push(
            ("description"@, JsonV::Text(query.description@)),
        ).push(("query"@, JsonV::Text(query.query@))).push(("range"@, JsonV::Text(query.range@))),
    )
}

pub open spec fn saved_list_json(queries: Seq<SavedQuery>) -> JsonV {
    JsonV::Array(Seq::new(queries.len(), |i: int| saved_json(queries[i])))
}

/// The schema briefing: the labels, the metadata fields and the saved
/// queries of the configuration, with a note on the syntax.
pub open spec fn schema_json(config: &Config) -> JsonV {
    JsonV::Object(
        none().push(("labels"@, fields_json(config.labels@))).push(
            ("structured_metadata"@, fields_json(config.structured_metadata@)),
        ).push(("saved_queries"@, saved_list_json(config.saved_queries@))).push(
            (
                "notes"@,
                JsonV::Object(
                    none().push(
                        ("label_selector_syntax"@, JsonV::Text("{label=\"value\"}"@)),
                    ).push(
                        (
                            "structured_metadata_filter_syntax"@,
                            JsonV::Text("{label=\"value\"} | field=\"value\""@),
                        ),
                    ),
                ),
            ),
        ),
    )
}

fn fields_to_json(fields: &Vec<SchemaField>) -> (r: Json)
    ensures
        r@ == fields_json(fields@),
{
    let mut items: Vec<Json> = Vec::new();
    let mut i: usize = 0;
    while i < fields.len()
        invariant
            i <= fields.len(),
            items@.len() == i,
            forall|k: int| 0 <= k < i ==> items@[k]@ == field_json(fields@[k]),
        decreases fields.len() - i,
    {
        let mut members = no_members();
        push_member(&mut members, "name", Json::Text(fields[i].name.clone()));
        push_member(&mut members, "description", Json::Text(fields[i].description.clone()));
        push_member(&mut members, "common_values", texts_to_json(&fields[i].common_values));
        items.push(object_of(members));
        i = i + 1;
    }
    assert(items_view(items@) =~= fields_json(fields@)->Array_0);
    array_of(items)
}

fn saved_to_json(queries: &Vec<SavedQuery>) -> (r: Json)
    ensures
        r@ == saved_list_json(queries@),
{
    let mut items: Vec<Json> = Vec::new();
    let mut i: usize = 0;
    while i < queries.len()
        invariant
            i <= queries.len(),
            items@.len() == i,
            forall|k: int| 0 <= k < i ==> items@[k]@ == saved_json(queries@[k]),
        decreases queries.len() - i,
    {
        let mut members = no_members();
        push_member(&mut members, "name", Json::Text(queries[i].name.clone()));
        push_member(&mut members, "description", Json::Text(queries[i].description.clone()));
        push_member(&mut members, "query", Json::Text(queries[i].query.clone()));
        push_member(&mut members, "range", Json::Text(queries[i].range.clone()));
        items.push(object_of(members));
        i = i + 1;
    }
    assert(items_view(items@) =~= saved_list_json(queries@)->Array_0);
    array_of(items)
}

pub fn describe_schema(config: &Config) -> (r: Json)
    ensures
        r@ == schema_json(config),
{
    let mut notes = no_members();
    push_member(&mut notes, "label_selector_syntax", text_json("{label=\"value\"}"));
    push_member(
        &mut notes,
        "structured_metadata_filter_syntax",
        text_json("{label=\"value\"} | field=\"value\""),
    );
    let mut members = no_members();
    push_member(&mut members, "labels", fields_to_json(&config.labels));
    push_member(&mut members, "structured_metadata", fields_to_json(&config.structured_metadata));
    push_member(&mut members, "saved_queries", saved_to_json(&config.saved_queries));
    push_member(&mut members, "notes", object_of(notes));
    object_of(members)
}

// ---------------------------------------------------------------------------
// What the discovery tools ask of the backend
// ---------------------------------------------------------------------------
/// The bounds of a discovery call: the end read at `now`, the start read
/// at the end or at `now`; where both are given the start must not come
/// after the end.
pub open spec fn optional_range(
    start: Option<Seq<char>>,
    end: Option<Seq<char>>,
    zone: Zone,
    now: Instant,
) -> Result<(Option<Instant>, Option<Instant>), Seq<char>> {
    let end_time: Result<Option<Instant>, Seq<char>> = match end {
        Some(text) => match moment(text, zone, now) {
            Ok(at) => Ok(Some(at)),
            Err(w) => Err(w),
        },
        None => Ok(None),
    };
    match end_time {
        Err(w) => Err(w),
        Ok(e) => {
            let anchor = match e {
                Some(at) => at,
                None => now,
            };
            match start {
                None => Ok((None, e)),
                Some(text) => match moment(text, zone, anchor) {
                    Err(w) => Err(w),
                    Ok(s) => if e is Some && s.later_than(e->0) {
                        Err(inverted_words())
                    } else {
                        Ok((Some(s), e))
                    },
                },
            }
        },
    }
}

pub fn parse_optional_range(start: Option<&str>, end: Option<&str>, zone: Zone, now: Instant) -> (r:
    Result<(Option<Instant>, Option<Instant>), ToolError>)
    requires
        now.wf(),
    ensures
        match r {
            Ok(range) => optional_range(optional_view(start), optional_view(end), zone, now)
                == Ok::<_, Seq<char>>(range),
            Err(e) => optional_range(optional_view(start), optional_view(end), zone, now) == Err::<
                (Option<Instant>, Option<Instant>),
                _,
            >(e.words()),
        },
        r is Ok ==> bounds_wf(r->Ok_0.0, r->Ok_0.1),
{
    let end_time = match end {
        Some(text) => Some(moment_of(text, zone, now)?),
        None => None,
    };
    let anchor = match end_time {
        Some(at) => at,
        None => now,
    };
    let start_time = match start {
        Some(text) => Some(moment_of(text, zone, anchor)?),
        None => None,
    };
    if let (Some(s), Some(e)) = (start_time, end_time) {
        crate::tools::ensure_ordered_range(s, e)?;
    }
    Ok((start_time, end_time))
}

/// A finish that needs nothing but the answer.
pub open spec fn bare_finish(kind: FinishKind) -> FinishV {
    FinishV {
        kind,
        texts: Seq::<Seq<char>>::empty(),
        instants: Seq::<Instant>::empty(),
        mode: ResponseMode::Smart,
        step: None,
    }
}

fn finish_bare(kind: FinishKind) -> (r: Finish)
    ensures
        r@ == bare_finish(kind),
{
    let no_texts: Vec<String> = Vec::new();
    let no_instants: Vec<Instant> = Vec::new();
    assert(texts(no_texts@) =~= Seq::<Seq<char>>::empty());
    assert(no_instants@ =~= Seq::<Instant>::empty());
    Finish { kind, texts: no_texts, instants: no_instants, mode: ResponseMode::Smart, step: None }
}

/// What `loki_list_labels` begins with: the names of the labels within the
/// bounds that are given.
pub open spec fn labels_plan(
    zone: Zone,
    start: Option<Seq<char>>,
    end: Option<Seq<char>>,
    now: Instant,
) -> Result<PlanV, Seq<char>> {
    match optional_range(start, end, zone, now) {
        Err(w) => Err(w),
        Ok(range) => match range_params(range.0, range.1) {
            None => Err(timestamp_words()),
            Some(p) => ask_one(Ok(("/loki/api/v1/labels"@, p)), bare_finish(FinishKind::Labels)),
        },
    }
}

pub fn list_labels(
    client: &LokiClient,
    timezone: Zone,
    start: Option<&str>,
    end: Option<&str>,
    now: Instant,
) -> (r: Result<Plan, ToolError>)
    requires
        now.wf(),
    ensures
        match r {
            Ok(plan) => labels_plan(timezone, optional_view(start), optional_view(end), now) == Ok::<_, Seq<char>>(plan@),
            Err(e) => labels_plan(timezone, optional_view(start), optional_view(end), now) == Err::<PlanV, _>(e.words()),
        },
{
    let (s, e) = parse_optional_range(start, end, timezone, now)?;
    let request = match client.labels(s, e) {
        Ok(request) => request,
        Err(_) => {
            return Err(ToolError::TimestampOutOfRange);
        },
    };
    Ok(Plan::Ask(one_request(request), finish_bare(FinishKind::Labels)))
}

/// What `loki_label_values` begins with: the values of the label, whose
/// name must be one, within the bounds that are given and for the streams
/// that the query selects.
pub open spec fn values_plan(
    zone: Zone,
    label: Seq<char>,
    start: Option<Seq<char>>,
    end: Option<Seq<char>>,
    query: Option<Seq<char>>,
    now: Instant,
) -> Result<PlanV, Seq<char>> {
    match optional_range(start, end, zone, now) {
        Err(w) => Err(w),
        Ok(range) => if label.len() == 0 {
            Err("label must not be empty"@)
        } else if !label_name_ok(label) {
            Err("label contains unsupported characters: "@ + label)
        } else {
            match range_params(range.0, range.1) {
                None => Err(timestamp_words()),
                Some(p) => ask_one(
                    Ok((label_values_path(label), p + optional_param("query"@, query))),
                    FinishV {
                        texts: Seq::<Seq<char>>::empty().push(label),
                        ..bare_finish(FinishKind::LabelValues)
                    },
                ),
            }
        },
    }
}

pub fn label_values(
    client: &LokiClient,
    timezone: Zone,
    label: &str,
    start: Option<&str>,
    end: Option<&str>,
    query: Option<&str>,
    now: Instant,
) -> (r: Result<Plan, ToolError>)
    requires
        now.wf(),
    ensures
        match r {
            Ok(plan) => values_plan(
            timezone,
            label@,
            optional_view(start),
            optional_view(end),
            optional_view(query),
            now,
        ) == Ok::<_, Seq<char>>(plan@),
            Err(e) => values_plan(
            timezone,
            label@,
            optional_view(start),
            optional_view(end),
            optional_view(query),
            now,
        ) == Err::<PlanV, _>(e.words()),
        },
{
    let (s, e) = parse_optional_range(start, end, timezone, now)?;
    validate_label_name(label)?;
    let request = match client.label_values(label, s, e, query) {
        Ok(request) => request,
        Err(_) => {
            return Err(ToolError::TimestampOutOfRange);
        },
    };
    let no_instants: Vec<Instant> = Vec::new();
    assert(no_instants@ =~= Seq::<Instant>::empty());
    Ok(
        Plan::Ask(
            one_request(request),
            Finish {
                kind: FinishKind::LabelValues,
                texts: one_text(label.to_owned()),
                instants: no_instants,
                mode: ResponseMode::Smart,
                step: None,
            },
        ),
    )
}

/// What `loki_series` begins with: the series that match, one matcher at
/// the least, within the bounds that are given.
pub open spec fn series_plan(
    zone: Zone,
    matches: Seq<Seq<char>>,
    start: Option<Seq<char>>,
    end: Option<Seq<char>>,
    now: Instant,
) -> Result<PlanV, Seq<char>> {
    match optional_range(start, end, zone, now) {
        Err(w) => Err(w),
        Ok(range) => if matches.len() == 0 {
            Err("at least one series matcher is required"@)
        } else {
            match range_params(range.0, range.1) {
                None => Err(timestamp_words()),
                Some(p) => ask_one(
                    Ok(("/loki/api/v1/series"@, matcher_params(matches) + p)),
                    bare_finish(FinishKind::Series),
                ),
            }
        },
    }
}

pub fn series(
    client: &LokiClient,
    timezone: Zone,
    matches: &Vec<String>,
    start: Option<&str>,
    end: Option<&str>,
    now: Instant,
) -> (r: Result<Plan, ToolError>)
    requires
        now.wf(),
    ensures
        match r {
            Ok(plan) => series_plan(
            timezone,
            texts(matches@),
            optional_view(start),
            optional_view(end),
            now,
        ) == Ok::<_, Seq<char>>(plan@),
            Err(e) => series_plan(
            timezone,
            texts(matches@),
            optional_view(start),
            optional_view(end),
            now,
        ) == Err::<PlanV, _>(e.words()),
        },
{
    let (s, e) = parse_optional_range(start, end, timezone, now)?;
    let request = match client.series(matches, s, e) {
        Ok(request) => request,
        Err(ToolError::EmptyMatchers) => {
            return Err(ToolError::EmptyMatchers);
        },
        Err(_) => {
            return Err(ToolError::TimestampOutOfRange);
        },
    };
    Ok(Plan::Ask(one_request(request), finish_bare(FinishKind::Series)))
}

} // verus!
