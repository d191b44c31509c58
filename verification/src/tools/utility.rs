//! The tools that ask nothing of the backend: one says what the parts of a
//! query are, one writes a rule for a query.

use vstd::prelude::*;
use crate::error::ToolError;
use crate::json::{
    no_members, none, object_of, optional_text as text_or_null, optional_text_json, push_member,
    text_json, Json, JsonV,
};
use crate::text::{
    chars_of, chars_views, copy_chars, find_char, find_from, index_of, join2, leading_word,
    push_text, same_text, split, split_chars, string_of, string_of_range, texts, trim, trim_chars,
    trimmed, word_run,
};
use crate::tools::{write_json, written};
use crate::tools::dispatch::{texts_json, texts_to_json};
use crate::tools::params::{
    check_known, given, json_of, know, members_of, nothing_known, only_known, optional_number,
    optional_text, read_optional_number, read_optional_text, read_required_text, required_text,
    text_of,
};

verus! {

/// The arguments of `loki_explain_query`.
#[derive(Debug)]
pub struct ExplainQueryParams {
    pub query: String,
}

/// The value of [`ExplainQueryParams`].
pub struct ExplainQueryParamsV {
    pub query: Seq<char>,
}

impl View for ExplainQueryParams {
    type V = ExplainQueryParamsV;

    open spec fn view(&self) -> ExplainQueryParamsV {
        ExplainQueryParamsV {
            query: self.query@,
        }
    }
}

impl ExplainQueryParams {
    /// The names of the arguments.
    pub open spec fn fields() -> Seq<Seq<char>> {
        Seq::empty().push("query"@)
    }

    /// The arguments fit: an object or `null`, no member that is not known,
    /// each member of its kind, none missing that must be there.
    pub open spec fn fits(params: JsonV) -> bool {
        &&& given(params) is Some
        &&& only_known(given(params)->0, Self::fields())
        &&& required_text(given(params)->0, "query"@) is Some
    }

    /// What the arguments say.
    pub open spec fn reading(params: JsonV) -> ExplainQueryParamsV {
        ExplainQueryParamsV {
            query: required_text(given(params)->0, "query"@)->0,
        }
    }

    pub fn decode(params: &Json) -> (r: Option<Self>)
        ensures
            r is Some == Self::fits(params@),
            r is Some ==> r->0@ == Self::reading(params@),
    {
        let empty: Vec<(String, Json)> = Vec::new();
        let members = members_of(params, &empty)?;
        let mut known = nothing_known();
        know(&mut known, "query");
        if !check_known(members, &known) {
            return None;
        }
        let query = read_required_text(members, "query")?;
        Some(ExplainQueryParams { query })
    }
}

/// The arguments of `loki_suggest_metric_rule`.
#[derive(Debug)]
pub struct SuggestMetricRuleParams {
    pub query: String,
    pub metric_name: String,
    pub description: Option<String>,
    pub rule_type: Option<String>,
    pub alert_threshold: Option<Json>,
    pub alert_for: Option<String>,
}

/// The value of [`SuggestMetricRuleParams`].
pub struct SuggestMetricRuleParamsV {
    pub query: Seq<char>,
    pub metric_name: Seq<char>,
    pub description: Option<Seq<char>>,
    pub rule_type: Option<Seq<char>>,
    pub alert_threshold: Option<JsonV>,
    pub alert_for: Option<Seq<char>>,
}

impl View for SuggestMetricRuleParams {
    type V = SuggestMetricRuleParamsV;

    open spec fn view(&self) -> SuggestMetricRuleParamsV {
        SuggestMetricRuleParamsV {
            query: self.query@,
            metric_name: self.metric_name@,
            description: text_of(self.description),
            rule_type: text_of(self.rule_type),
            alert_threshold: json_of(self.alert_threshold),
            alert_for: text_of(self.alert_for),
        }
    }
}

impl SuggestMetricRuleParams {
    /// The names of the arguments.
    pub open spec fn fields() -> Seq<Seq<char>> {
        Seq::empty().push("query"@)
            .push("metric_name"@)
            .push("description"@)
            .push("rule_type"@)
            .push("alert_threshold"@)
            .push("alert_for"@)
    }

    /// The arguments fit: an object or `null`, no member that is not known,
    /// each member of its kind, none missing that must be there.
    pub open spec fn fits(params: JsonV) -> bool {
        &&& given(params) is Some
        &&& only_known(given(params)->0, Self::fields())
        &&& required_text(given(params)->0, "query"@) is Some
        &&& required_text(given(params)->0, "metric_name"@) is Some
        &&& optional_text(given(params)->0, "description"@) is Some
        &&& optional_text(given(params)->0, "rule_type"@) is Some
        &&& optional_number(given(params)->0, "alert_threshold"@) is Some
        &&& optional_text(given(params)->0, "alert_for"@) is Some
    }

    /// What the arguments say.
    pub open spec fn reading(params: JsonV) -> SuggestMetricRuleParamsV {
        SuggestMetricRuleParamsV {
            query: required_text(given(params)->0, "query"@)->0,
            metric_name: required_text(given(params)->0, "metric_name"@)->0,
            description: optional_text(given(params)->0, "description"@)->0,
            rule_type: optional_text(given(params)->0, "rule_type"@)->0,
            alert_threshold: optional_number(given(params)->0, "alert_threshold"@)->0,
            alert_for: optional_text(given(params)->0, "alert_for"@)->0,
        }
    }

    pub fn decode(params: &Json) -> (r: Option<Self>)
        ensures
            r is Some == Self::fits(params@),
            r is Some ==> r->0@ == Self::reading(params@),
    {
        let empty: Vec<(String, Json)> = Vec::new();
        let members = members_of(params, &empty)?;
        let mut known = nothing_known();
        know(&mut known, "query");
        know(&mut known, "metric_name");
        know(&mut known, "description");
        know(&mut known, "rule_type");
        know(&mut known, "alert_threshold");
        know(&mut known, "alert_for");
        if !check_known(members, &known) {
            return None;
        }
        let query = read_required_text(members, "query")?;
        let metric_name = read_required_text(members, "metric_name")?;
        let description = read_optional_text(members, "description")?;
        let rule_type = read_optional_text(members, "rule_type")?;
        let alert_threshold = read_optional_number(members, "alert_threshold")?;
        let alert_for = read_optional_text(members, "alert_for")?;
        Some(SuggestMetricRuleParams { query, metric_name, description, rule_type, alert_threshold, alert_for })
    }
}

// ---------------------------------------------------------------------------
// Explaining a query
// ---------------------------------------------------------------------------
/// Where the stream selector of a query ends: behind the first `}` that
/// follows its first `{`. Past the end of the query where it has none.
pub open spec fn selector_end(query: Seq<char>) -> int {
    let open = index_of(query, '{');
    open + index_of(query.skip(open), '}') + 1
}

/// The stream selector of a query: from its first `{` through the first
/// `}` behind it.
pub open spec fn selector_of(query: Seq<char>) -> Option<Seq<char>> {
    if selector_end(query) <= query.len() {
        Some(query.subrange(index_of(query, '{'), selector_end(query)))
    } else {
        None
    }
}

/// What follows the stream selector.
pub open spec fn pipeline_of(query: Seq<char>) -> Seq<char> {
    if selector_end(query) <= query.len() {
        query.skip(selector_end(query))
    } else {
        Seq::empty()
    }
}

/// Each part with the `|` that stood before it, trimmed.
pub open spec fn barred(parts: Seq<Seq<char>>) -> Seq<Seq<char>> {
    Seq::new(parts.len(), |i: int| trimmed("|"@ + parts[i]))
}

/// The stages of a pipeline: what stands before its first `|`, where that
/// is more than blanks, and then each `|` with what follows it up to the
/// next.
pub open spec fn stages_of(pipeline: Seq<char>) -> Seq<Seq<char>> {
    let parts = split(pipeline, '|');
    let head = trimmed(parts[0]);
    if head.len() == 0 {
        barred(parts.skip(1))
    } else {
        Seq::empty().push(head) + barred(parts.skip(1))
    }
}

/// The function that a query applies to its selector: the word at the
/// front of the query, where a `(` follows before the selector.
pub open spec fn aggregation_of(query: Seq<char>) -> Option<Seq<char>> {
    let head = trimmed(query.take(index_of(query, '{')));
    if word_run(head) > 0 && index_of(head, '(') < head.len() {
        Some(head.take(word_run(head)))
    } else {
        None
    }
}

/// Whether a query answers with lines or with numbers.
pub open spec fn kind_of(query: Seq<char>) -> Seq<char> {
    if aggregation_of(query) is Some {
        "metric"@
    } else {
        "log"@
    }
}

/// The parts of a query as a document.
pub open spec fn explained(query: Seq<char>) -> JsonV {
    let q = trimmed(query);
    JsonV::Object(
        none().push(("query"@, JsonV::Text(q))).push(("type"@, JsonV::Text(kind_of(q)))).push(
            ("selector"@, text_or_null(selector_of(q))),
        ).push(("stages"@, texts_json(stages_of(pipeline_of(q))))).push(
            ("aggregation"@, text_or_null(aggregation_of(q))),
        ),
    )
}

fn stages(pipeline: &Vec<char>) -> (r: Vec<String>)
    ensures
        texts(r@) == stages_of(pipeline@),
{
    let parts = split_chars(pipeline, '|');
    let ghost all = chars_views(parts@);
    let mut out: Vec<String> = Vec::new();
    let head = trim_chars(&parts[0]);
    if head.len() > 0 {
        out.push(string_of(&head));
    }
    let ghost first = texts(out@);
    let mut i: usize = 1;
    assert(texts(out@) =~= first + barred(all.skip(1)).take(0));
    while i < parts.len()
        invariant
            1 <= i <= parts.len(),
            all == chars_views(parts@),
            texts(out@) == first + barred(all.skip(1)).take(i - 1),
        decreases parts.len() - i,
    {
        let part = string_of(&parts[i]);
        let stage = trim(join2("|", part.as_str()).as_str());
        let ghost before = texts(out@);
        out.push(stage);
        assert(texts(out@) =~= before.push(stage@));
        assert(barred(all.skip(1)).take(i as int) =~= barred(all.skip(1)).take(i - 1).push(
            stage@,
        ));
        assert(first + barred(all.skip(1)).take(i as int) =~= (first + barred(all.skip(1)).take(
            i - 1,
        )).push(stage@));
        i = i + 1;
    }
    assert(barred(all.skip(1)).take(parts@.len() - 1) =~= barred(all.skip(1)));
    assert(first + barred(all.skip(1)) =~= stages_of(pipeline@));
    out
}

/// Says what the parts of a query are: its selector, the stages of its
/// pipeline and the function it aggregates with.
pub fn explain_query(query: &str) -> (r: Json)
    ensures
        r@ == explained(query@),
{
    let raw = chars_of(query);
    let q = trim_chars(&raw);
    let open = find_char(&q, '{');
    let close = find_from(&q, open, '}');
    let selector: Option<String> = if close < q.len() {
        Some(string_of_range(&q, open, close + 1))
    } else {
        None
    };
    let pipeline: Vec<char> = if close < q.len() {
        let rest = copy_chars(&q, close + 1, q.len());
        assert(q@.subrange(close + 1, q@.len() as int) == q@.skip(close + 1));
        rest
    } else {
        Vec::new()
    };
    assert(pipeline@ =~= pipeline_of(q@));
    let stage_list = stages(&pipeline);
    let front = copy_chars(&q, 0, open);
    assert(q@.subrange(0, open as int) == q@.take(open as int));
    let head = trim_chars(&front);
    let word = leading_word(&head);
    let aggregation: Option<String> = if word > 0 && find_char(&head, '(') < head.len() {
        let name = string_of_range(&head, 0, word);
        assert(head@.subrange(0, word as int) == head@.take(word as int));
        Some(name)
    } else {
        None
    };
    let kind = if aggregation.is_some() {
        "metric"
    } else {
        "log"
    };
    let mut members = no_members();
    push_member(&mut members, "query", text_json(string_of(&q).as_str()));
    push_member(&mut members, "type", text_json(kind));
    push_member(&mut members, "selector", optional_text_json(selector.as_ref()));
    push_member(&mut members, "stages", texts_to_json(&stage_list));
    push_member(&mut members, "aggregation", optional_text_json(aggregation.as_ref()));
    object_of(members)
}

// ---------------------------------------------------------------------------
// Suggesting a rule
// ---------------------------------------------------------------------------
/// The kind of rule that is asked for: a recording rule where none is
/// named.
pub open spec fn rule_kind(input: SuggestMetricRuleParamsV) -> Seq<char> {
    match input.rule_type {
        Some(kind) => kind,
        None => "recording"@,
    }
}

/// The threshold of an alert as it is written: zero where none is given.
pub open spec fn threshold_text(input: SuggestMetricRuleParamsV) -> Seq<char> {
    match input.alert_threshold {
        Some(number) => written(number),
        None => "0"@,
    }
}

/// The expression of an alert: the query over its threshold.
pub open spec fn alert_expr(input: SuggestMetricRuleParamsV) -> Seq<char> {
    "("@ + input.query + ") > "@ + threshold_text(input)
}

/// For how long the expression has to hold before the alert fires: five
/// minutes where nothing is said.
pub open spec fn alert_wait(input: SuggestMetricRuleParamsV) -> Seq<char> {
    match input.alert_for {
        Some(wait) => wait,
        None => "5m"@,
    }
}

/// The rule file of a recording rule.
pub open spec fn recording_yaml(input: SuggestMetricRuleParamsV) -> Seq<char> {
    "groups:\n  - name: "@ + input.metric_name + "\n    rules:\n      - record: "@
        + input.metric_name + "\n        expr: "@ + input.query + "\n"@
}

/// The rule file of an alerting rule.
pub open spec fn alerting_yaml(input: SuggestMetricRuleParamsV) -> Seq<char> {
    "groups:\n  - name: "@ + input.metric_name + "\n    rules:\n      - alert: "@
        + input.metric_name + "\n        expr: "@ + alert_expr(input) + "\n        for: "@
        + alert_wait(input) + "\n"@
}

/// The rule that is suggested for a query, or the words of the failure:
/// only recording and alerting rules are known.
pub open spec fn suggested(input: SuggestMetricRuleParamsV) -> Result<JsonV, Seq<char>> {
    if rule_kind(input) == "recording"@ {
        Ok(
            JsonV::Object(
                none().push(("rule_type"@, JsonV::Text("recording"@))).push(
                    ("name"@, JsonV::Text(input.metric_name)),
                ).push(("expr"@, JsonV::Text(input.query))).push(
                    ("description"@, text_or_null(input.description)),
                ).push(("yaml"@, JsonV::Text(recording_yaml(input)))),
            ),
        )
    } else if rule_kind(input) == "alerting"@ {
        Ok(
            JsonV::Object(
                none().push(("rule_type"@, JsonV::Text("alerting"@))).push(
                    ("name"@, JsonV::Text(input.metric_name)),
                ).push(("expr"@, JsonV::Text(alert_expr(input)))).push(
                    ("for"@, JsonV::Text(alert_wait(input))),
                ).push(("description"@, text_or_null(input.description))).push(
                    ("yaml"@, JsonV::Text(alerting_yaml(input))),
                ),
            ),
        )
    } else {
        Err("unsupported rule type: "@ + rule_kind(input))
    }
}

/// Writes a recording rule for a query, or an alerting rule where one is
/// asked for.
pub fn suggest_metric_rule(input: &SuggestMetricRuleParams) -> (r: Result<Json, ToolError>)
    ensures
        match r {
            Ok(v) => suggested(input@) == Ok::<_, Seq<char>>(v@),
            Err(e) => suggested(input@) == Err::<JsonV, _>(e.words()),
        },
{
    let kind: &str = match &input.rule_type {
        Some(kind) => kind.as_str(),
        None => "recording",
    };
    let name = input.metric_name.as_str();
    let query = input.query.as_str();
    if same_text(kind, "recording") {
        let mut yaml = "groups:\n  - name: ".to_owned();
        push_text(&mut yaml, name);
        push_text(&mut yaml, "\n    rules:\n      - record: ");
        push_text(&mut yaml, name);
        push_text(&mut yaml, "\n        expr: ");
        push_text(&mut yaml, query);
        push_text(&mut yaml, "\n");
        let mut members = no_members();
        push_member(&mut members, "rule_type", text_json("recording"));
        push_member(&mut members, "name", text_json(name));
        push_member(&mut members, "expr", text_json(query));
        push_member(&mut members, "description", optional_text_json(input.description.as_ref()));
        push_member(&mut members, "yaml", text_json(yaml.as_str()));
        Ok(object_of(members))
    } else if same_text(kind, "alerting") {
        let threshold = match &input.alert_threshold {
            Some(number) => write_json(number),
            None => "0".to_owned(),
        };
        let wait: &str = match &input.alert_for {
            Some(wait) => wait.as_str(),
            None => "5m",
        };
        let mut expr = "(".to_owned();
        push_text(&mut expr, query);
        push_text(&mut expr, ") > ");
        push_text(&mut expr, threshold.as_str());
        let mut yaml = "groups:\n  - name: ".to_owned();
        push_text(&mut yaml, name);
        push_text(&mut yaml, "\n    rules:\n      - alert: ");
        push_text(&mut yaml, name);
        push_text(&mut yaml, "\n        expr: ");
        push_text(&mut yaml, expr.as_str());
        push_text(&mut yaml, "\n        for: ");
        push_text(&mut yaml, wait);
        push_text(&mut yaml, "\n");
        let mut members = no_members();
        push_member(&mut members, "rule_type", text_json("alerting"));
        push_member(&mut members, "name", text_json(name));
        push_member(&mut members, "expr", text_json(expr.as_str()));
        push_member(&mut members, "for", text_json(wait));
        push_member(&mut members, "description", optional_text_json(input.description.as_ref()));
        push_member(&mut members, "yaml", text_json(yaml.as_str()));
        Ok(object_of(members))
    } else {
        Err(ToolError::UnsupportedRuleType(kind.to_owned()))
    }
}

} // verus!
