//! The requests that are sent to the backend and the reading of what comes
//! back. Sending is left to whoever holds the connection: a request is a
//! path with its parameters, an answer is a JSON document.

use vstd::prelude::*;
use crate::config::{ConfigError, ConfigFault, LokiConfig};
use crate::error::ToolError;
use crate::json::{find_member, items_view, lookup, members_view, Json, JsonV, Members};
use crate::loki::auth::{auth_of, LokiAuth};
use crate::loki::types::{count_of, parse_u64_value, Estimate, LokiHealth, LokiQueryStats};
use crate::text::{
    char_is_ascii_alphanumeric, chars_of, decimal, i64_text, is_ascii_alphanumeric, join2, join3,
    same_text, signed_decimal, string_of, texts, u64_text,
};
use crate::time::{parse_std_duration, std_duration, Instant, Span};

verus! {

/// What a connection to the backend is made with.
#[derive(Debug)]
pub struct LokiClient {
    pub base_url: String,
    pub tenant_id: Option<String>,
    pub auth: LokiAuth,
    pub timeout: Span,
}

/// The name under which the client introduces itself.
pub const USER_AGENT: &'static str = "loki-mcp/0.1.0";

/// The header that carries the tenant.
pub const TENANT_HEADER: &'static str = "X-Scope-OrgID";

/// One request: the path below the base URL, and the query parameters in
/// their order.
#[derive(Debug)]
pub struct BackendRequest {
    pub path: String,
    pub params: Vec<(String, String)>,
}

pub type Pairs = Seq<(Seq<char>, Seq<char>)>;

/// The texts of a list of parameters.
pub open spec fn pairs_view(params: Seq<(String, String)>) -> Pairs {
    Seq::new(params.len(), |i: int| (params[i].0@, params[i].1@))
}

pub fn push_pair(params: &mut Vec<(String, String)>, name: &str, value: String)
    ensures
        pairs_view(final(params)@) == pairs_view(old(params)@).push((name@, value@)),
{
    params.push((name.to_owned(), value));
    assert(pairs_view(params@) =~= pairs_view(old(params)@).push((name@, value@)));
}

// ---------------------------------------------------------------------------
// Times
// ---------------------------------------------------------------------------
/// The instant as a count of nanoseconds, where a signed 64-bit number
/// holds it.
pub open spec fn nanos_text(at: Instant) -> Option<Seq<char>> {
    if i64::MIN <= at.at() <= i64::MAX {
        Some(signed_decimal(at.at()))
    } else {
        None
    }
}

pub fn timestamp_nanos(value: Instant) -> (r: Result<String, ToolError>)
    requires
        value.wf(),
    ensures
        r is Ok == nanos_text(value) is Some,
        r is Ok ==> r->Ok_0@ == nanos_text(value)->0,
        r is Err ==> r->Err_0 is TimestampOutOfRange,
{
    let total: i128 = (value.secs as i128) * 1_000_000_000 + value.nanos as i128;
    if total < -0x8000_0000_0000_0000 || total > 0x7FFF_FFFF_FFFF_FFFF {
        return Err(ToolError::TimestampOutOfRange);
    }
    Ok(i64_text(total as i64))
}

/// The parameter that a bound of a range adds: none where there is no
/// bound; `None` where the bound cannot be written.
pub open spec fn bound_param(name: Seq<char>, at: Option<Instant>) -> Option<Pairs> {
    match at {
        None => Some(Seq::empty()),
        Some(a) => match nanos_text(a) {
            Some(text) => Some(Seq::empty().push((name, text))),
            None => None,
        },
    }
}

/// The parameters of a range: `start`, then `end`, each where given.
pub open spec fn range_params(start: Option<Instant>, end: Option<Instant>) -> Option<Pairs> {
    match (bound_param("start"@, start), bound_param("end"@, end)) {
        (Some(s), Some(e)) => Some(s + e),
        _ => None,
    }
}

pub open spec fn bounds_wf(start: Option<Instant>, end: Option<Instant>) -> bool {
    (start is Some ==> start->0.wf()) && (end is Some ==> end->0.wf())
}

pub fn append_time_range(
    params: &mut Vec<(String, String)>,
    start: Option<Instant>,
    end: Option<Instant>,
) -> (r: Result<(), ToolError>)
    requires
        bounds_wf(start, end),
    ensures
        r is Ok == range_params(start, end) is Some,
        r is Ok ==> pairs_view(final(params)@) == pairs_view(old(params)@) + range_params(
            start,
            end,
        )->0,
        r is Err ==> r->Err_0 is TimestampOutOfRange,
{
    let ghost before = pairs_view(params@);
    if let Some(at) = start {
        let text = timestamp_nanos(at)?;
        push_pair(params, "start", text);
    }
    let ghost middle = pairs_view(params@);
    assert(middle =~= before + bound_param("start"@, start)->0);
    if let Some(at) = end {
        let text = timestamp_nanos(at)?;
        push_pair(params, "end", text);
    }
    assert(pairs_view(params@) =~= before + range_params(start, end)->0);
    Ok(())
}

// ---------------------------------------------------------------------------
// Requests
// ---------------------------------------------------------------------------
pub open spec fn optional_param(name: Seq<char>, value: Option<Seq<char>>) -> Pairs {
    match value {
        Some(v) => Seq::empty().push((name, v)),
        None => Seq::empty(),
    }
}

pub open spec fn text_view(value: Option<&str>) -> Option<Seq<char>> {
    match value {
        Some(s) => Some(s@),
        None => None,
    }
}

fn push_optional(params: &mut Vec<(String, String)>, name: &str, value: Option<&str>)
    ensures
        pairs_view(final(params)@) == pairs_view(old(params)@) + optional_param(
            name@,
            text_view(value),
        ),
{
    let ghost before = pairs_view(params@);
    match value {
        Some(v) => {
            push_pair(params, name, v.to_owned());
            assert(pairs_view(params@) =~= before + optional_param(name@, text_view(value)));
        },
        None => {
            assert(before + optional_param(name@, text_view(value)) =~= before);
        },
    }
}

/// A request states this path and these parameters.
pub open spec fn asks(request: BackendRequest, path: Seq<char>, params: Pairs) -> bool {
    request.path@ == path && pairs_view(request.params@) == params
}

/// A label name: one or more of the ASCII letters and digits, `_` and `:`.
pub open spec fn label_name_ok(label: Seq<char>) -> bool {
    label.len() > 0 && forall|i: int|
        0 <= i < label.len() ==> is_ascii_alphanumeric(#[trigger] label[i]) || label[i] == '_'
            || label[i] == ':'
}

pub fn validate_label_name(label: &str) -> (r: Result<(), ToolError>)
    ensures
        r is Ok == label_name_ok(label@),
        r is Err ==> (if label@.len() == 0 {
            r->Err_0 is EmptyLabel
        } else {
            r->Err_0 matches ToolError::UnsupportedLabel(l) && l@ == label@
        }),
{
    let chars = chars_of(label);
    if chars.len() == 0 {
        return Err(ToolError::EmptyLabel);
    }
    let mut i: usize = 0;
    while i < chars.len()
        invariant
            i <= chars.len(),
            chars@ == label@,
            forall|k: int|
                0 <= k < i ==> is_ascii_alphanumeric(#[trigger] chars@[k]) || chars@[k] == '_'
                    || chars@[k] == ':',
        decreases chars.len() - i,
    {
        let c = chars[i];
        if !(char_is_ascii_alphanumeric(c) || c == '_' || c == ':') {
            return Err(ToolError::UnsupportedLabel(label.to_owned()));
        }
        i = i + 1;
    }
    Ok(())
}

/// The parameters of a query over a range.
pub open spec fn query_params(query: Seq<char>, start: Option<Instant>, end: Option<Instant>) -> Option<
    Pairs,
> {
    match range_params(start, end) {
        Some(r) => Some(Seq::empty().push(("query"@, query)) + r),
        None => None,
    }
}

/// The parameters of a request that runs a query over a range: the query,
/// then the bounds that are given.
pub fn query_over(query: &str, start: Option<Instant>, end: Option<Instant>) -> (r: Result<
    Vec<(String, String)>,
    ToolError,
>)
    requires
        bounds_wf(start, end),
    ensures
        r is Ok == query_params(query@, start, end) is Some,
        r is Ok ==> pairs_view(r->Ok_0@) == query_params(query@, start, end)->0,
        r is Err ==> r->Err_0 is TimestampOutOfRange,
{
    let mut params: Vec<(String, String)> = Vec::new();
    assert(pairs_view(params@) =~= Seq::empty());
    push_pair(&mut params, "query", query.to_owned());
    append_time_range(&mut params, start, end)?;
    Ok(params)
}

pub open spec fn label_values_path(label: Seq<char>) -> Seq<char> {
    "/loki/api/v1/label/"@ + label + "/values"@
}

/// One `match[]` parameter per matcher.
pub open spec fn matcher_params(matches: Seq<Seq<char>>) -> Pairs {
    Seq::new(matches.len(), |i: int| ("match[]"@, matches[i]))
}

pub open spec fn limit_param(limit: Option<u32>) -> Pairs {
    match limit {
        Some(n) => Seq::empty().push(("limit"@, decimal(n as nat))),
        None => Seq::empty(),
    }
}

// ---------------------------------------------------------------------------
// Requests
// ---------------------------------------------------------------------------
/// Each request is addressed by its path below the base URL of the client;
/// [`LokiClient::endpoint`] gives the full address.
impl LokiClient {
    /// The request for the names of the labels.
    pub fn labels(&self, start: Option<Instant>, end: Option<Instant>) -> (r: Result<
        BackendRequest,
        ToolError,
    >)
        requires
            bounds_wf(start, end),
        ensures
            r is Ok == range_params(start, end) is Some,
            r is Ok ==> asks(r->Ok_0, "/loki/api/v1/labels"@, range_params(start, end)->0),
            r is Err ==> r->Err_0 is TimestampOutOfRange,
    {
        let mut params: Vec<(String, String)> = Vec::new();
        assert(pairs_view(params@) =~= Seq::empty());
        append_time_range(&mut params, start, end)?;
        assert(Seq::<(Seq<char>, Seq<char>)>::empty() + range_params(start, end)->0 =~= range_params(
            start,
            end,
        )->0);
        Ok(BackendRequest { path: "/loki/api/v1/labels".to_owned(), params })
    }

    /// The request for the values of a label, where its name is one.
    pub fn label_values(
        &self,
        label: &str,
        start: Option<Instant>,
        end: Option<Instant>,
        query: Option<&str>,
    ) -> (r: Result<BackendRequest, ToolError>)
        requires
            bounds_wf(start, end),
        ensures
            r is Ok == (label_name_ok(label@) && range_params(start, end) is Some),
            r is Ok ==> asks(
                r->Ok_0,
                label_values_path(label@),
                range_params(start, end)->0 + optional_param("query"@, text_view(query)),
            ),
            r is Err ==> (if !label_name_ok(label@) {
                r->Err_0 is EmptyLabel || r->Err_0 is UnsupportedLabel
            } else {
                r->Err_0 is TimestampOutOfRange
            }),
    {
        validate_label_name(label)?;
        let mut params: Vec<(String, String)> = Vec::new();
        assert(pairs_view(params@) =~= Seq::empty());
        append_time_range(&mut params, start, end)?;
        assert(Seq::<(Seq<char>, Seq<char>)>::empty() + range_params(start, end)->0 =~= range_params(
            start,
            end,
        )->0);
        push_optional(&mut params, "query", query);
        Ok(BackendRequest { path: join3("/loki/api/v1/label/", label, "/values"), params })
    }

    /// The request for the series that match, one matcher at the least.
    pub fn series(&self, matches: &Vec<String>, start: Option<Instant>, end: Option<Instant>) -> (r:
        Result<BackendRequest, ToolError>)
        requires
            bounds_wf(start, end),
        ensures
            r is Ok == (matches@.len() > 0 && range_params(start, end) is Some),
            r is Ok ==> asks(
                r->Ok_0,
                "/loki/api/v1/series"@,
                matcher_params(texts(matches@)) + range_params(start, end)->0,
            ),
            r is Err ==> (if matches@.len() == 0 {
                r->Err_0 is EmptyMatchers
            } else {
                r->Err_0 is TimestampOutOfRange
            }),
    {
        if matches.len() == 0 {
            return Err(ToolError::EmptyMatchers);
        }
        let mut params: Vec<(String, String)> = Vec::new();
        let mut i: usize = 0;
        while i < matches.len()
            invariant
                i <= matches.len(),
                params@.len() == i,
                forall|k: int|
                    0 <= k < i ==> (#[trigger] params@[k]).0@ == "match[]"@ && params@[k].1@
                        == matches@[k]@,
            decreases matches.len() - i,
        {
            let name = "match[]".to_owned();
            let value = matches[i].clone();
            params.push((name, value));
            i = i + 1;
        }
        assert(pairs_view(params@) =~= matcher_params(texts(matches@)));
        append_time_range(&mut params, start, end)?;
        Ok(BackendRequest { path: "/loki/api/v1/series".to_owned(), params })
    }

    /// The request for the lines that a query finds over a range.
    pub fn query_logs(
        &self,
        query: &str,
        start: Option<Instant>,
        end: Option<Instant>,
        limit: Option<u32>,
        direction: Option<&str>,
    ) -> (r: Result<BackendRequest, ToolError>)
        requires
            bounds_wf(start, end),
        ensures
            r is Ok == query_params(query@, start, end) is Some,
            r is Ok ==> asks(
                r->Ok_0,
                "/loki/api/v1/query_range"@,
                query_params(query@, start, end)->0 + limit_param(limit) + optional_param(
                    "direction"@,
                    text_view(direction),
                ),
            ),
            r is Err ==> r->Err_0 is TimestampOutOfRange,
    {
        let mut params = query_over(query, start, end)?;
        let ghost before = pairs_view(params@);
        match limit {
            Some(n) => {
                push_pair(&mut params, "limit", u64_text(n as u64));
                assert(pairs_view(params@) =~= before + limit_param(limit));
            },
            None => {
                assert(before + limit_param(limit) =~= before);
            },
        }
        push_optional(&mut params, "direction", direction);
        Ok(BackendRequest { path: "/loki/api/v1/query_range".to_owned(), params })
    }

    /// The request for the numbers that a query gives over a range.
    pub fn query_metrics(
        &self,
        query: &str,
        start: Option<Instant>,
        end: Option<Instant>,
        step: Option<&str>,
    ) -> (r: Result<BackendRequest, ToolError>)
        requires
            bounds_wf(start, end),
        ensures
            r is Ok == query_params(query@, start, end) is Some,
            r is Ok ==> asks(
                r->Ok_0,
                "/loki/api/v1/query_range"@,
                query_params(query@, start, end)->0 + optional_param("step"@, text_view(step)),
            ),
            r is Err ==> r->Err_0 is TimestampOutOfRange,
    {
        let mut params = query_over(query, start, end)?;
        push_optional(&mut params, "step", step);
        Ok(BackendRequest { path: "/loki/api/v1/query_range".to_owned(), params })
    }

    /// The request for the estimate of what a query costs over a range.
    pub fn query_stats(&self, query: &str, start: Option<Instant>, end: Option<Instant>) -> (r: Result<
        BackendRequest,
        ToolError,
    >)
        requires
            bounds_wf(start, end),
        ensures
            r is Ok == query_params(query@, start, end) is Some,
            r is Ok ==> asks(
                r->Ok_0,
                "/loki/api/v1/index/stats"@,
                query_params(query@, start, end)->0,
            ),
            r is Err ==> r->Err_0 is TimestampOutOfRange,
    {
        let params = query_over(query, start, end)?;
        Ok(BackendRequest { path: "/loki/api/v1/index/stats".to_owned(), params })
    }

    /// The request for the patterns in the lines that a query finds.
    pub fn detect_patterns(
        &self,
        query: &str,
        start: Option<Instant>,
        end: Option<Instant>,
        step: Option<&str>,
    ) -> (r: Result<BackendRequest, ToolError>)
        requires
            bounds_wf(start, end),
        ensures
            r is Ok == query_params(query@, start, end) is Some,
            r is Ok ==> asks(
                r->Ok_0,
                "/loki/api/v1/patterns"@,
                query_params(query@, start, end)->0 + optional_param("step"@, text_view(step)),
            ),
            r is Err ==> r->Err_0 is TimestampOutOfRange,
    {
        let mut params = query_over(query, start, end)?;
        push_optional(&mut params, "step", step);
        Ok(BackendRequest { path: "/loki/api/v1/patterns".to_owned(), params })
    }

    /// The request whose answer tells what running the query costs: the query
    /// itself for one line, newest first.
    pub fn query_runtime_stats(&self, query: &str, start: Option<Instant>, end: Option<Instant>) -> (r:
        Result<BackendRequest, ToolError>)
        requires
            bounds_wf(start, end),
        ensures
            r is Ok == query_params(query@, start, end) is Some,
            r is Ok ==> asks(
                r->Ok_0,
                "/loki/api/v1/query_range"@,
                query_params(query@, start, end)->0 + limit_param(Some(1u32)) + optional_param(
                    "direction"@,
                    Some("backward"@),
                ),
            ),
            r is Err ==> r->Err_0 is TimestampOutOfRange,
    {
        self.query_logs(query, start, end, Some(1), Some("backward"))
    }
}

// ---------------------------------------------------------------------------
// Answers
// ---------------------------------------------------------------------------
/// The text of a member, where it is one.
pub open spec fn member_text(members: Members, key: Seq<char>) -> Option<Seq<char>> {
    match lookup(members, key) {
        Some(JsonV::Text(s)) => Some(s),
        _ => None,
    }
}

pub open spec fn or_words(text: Option<Seq<char>>, words: Seq<char>) -> Seq<char> {
    match text {
        Some(t) => t,
        None => words,
    }
}

/// What an answer in the envelope of the backend gives: the data where
/// the status is `success` (nothing where there is none), else the error
/// that the envelope reports; `None` where the answer is no envelope.
pub open spec fn envelope_data(body: JsonV) -> Option<Result<Option<JsonV>, (Seq<char>, Seq<char>)>> {
    match body {
        JsonV::Object(members) => match member_text(members, "status"@) {
            Some(status) => if status == "success"@ {
                Some(Ok(lookup(members, "data"@)))
            } else {
                Some(
                    Err(
                        (
                            or_words(member_text(members, "errorType"@), "unknown_error"@),
                            or_words(
                                member_text(members, "error"@),
                                "Loki returned an error response"@,
                            ),
                        ),
                    ),
                )
            },
            None => None,
        },
        _ => None,
    }
}

fn text_or(members: &Vec<(String, Json)>, key: &str, words: &str) -> (r: String)
    ensures
        r@ == or_words(member_text(members_view(members@), key@), words@),
{
    match find_member(members, key) {
        Some(Json::Text(s)) => s.clone(),
        _ => words.to_owned(),
    }
}

/// Takes the data out of an answer in the envelope.
pub fn unwrap_envelope(body: &Json) -> (r: Result<Option<Json>, ToolError>)
    ensures
        match envelope_data(body@) {
            None => r is Err && r->Err_0 is UndecodableResponse,
            Some(Err((kind, message))) => r is Err && (r->Err_0 matches ToolError::Api(k, m)
                && k@ == kind && m@ == message),
            Some(Ok(None)) => r is Ok && r->Ok_0 is None,
            Some(Ok(Some(data))) => r is Ok && r->Ok_0 is Some && r->Ok_0->0@ == data,
        },
{
    let members = match body.as_object() {
        Some(members) => members,
        None => {
            return Err(ToolError::UndecodableResponse);
        },
    };
    let status = match find_member(members, "status") {
        Some(Json::Text(s)) => s,
        _ => {
            return Err(ToolError::UndecodableResponse);
        },
    };
    if same_text(status.as_str(), "success") {
        match find_member(members, "data") {
            Some(data) => Ok(Some(data.duplicate())),
            None => Ok(None),
        }
    } else {
        Err(
            ToolError::Api(
                text_or(members, "errorType", "unknown_error"),
                text_or(members, "error", "Loki returned an error response"),
            ),
        )
    }
}

/// What an answer gives that may come with or without the envelope: the
/// answer itself where it has no text under `status`; else as in the
/// envelope, `null` standing for data that is not there.
pub open spec fn data_or_raw(body: JsonV) -> Result<JsonV, (Seq<char>, Seq<char>)> {
    match envelope_data(body) {
        None => Ok(body),
        Some(Ok(Some(data))) => Ok(data),
        Some(Ok(None)) => Ok(JsonV::Null),
        Some(Err(e)) => Err(e),
    }
}

pub fn unwrap_envelope_or_raw(body: Json) -> (r: Result<Json, ToolError>)
    ensures
        match data_or_raw(body@) {
            Ok(data) => r is Ok && r->Ok_0@ == data,
            Err((kind, message)) => r is Err && (r->Err_0 matches ToolError::Api(k, m) && k@
                == kind && m@ == message),
        },
{
    match unwrap_envelope(&body) {
        Ok(Some(data)) => Ok(data),
        Ok(None) => Ok(Json::Null),
        Err(ToolError::UndecodableResponse) => Ok(body),
        Err(e) => Err(e),
    }
}

/// The data of an answer as a document: `null` where there is none.
pub fn data_value(data: Option<Json>) -> (r: Json)
    ensures
        r@ == (match data {
            Some(d) => d@,
            None => JsonV::Null,
        }),
{
    match data {
        Some(d) => d,
        None => Json::Null,
    }
}

/// The texts that the data of an answer lists: none where there is no
/// data; `None` where the data is no list of texts.
pub open spec fn listed_texts(data: Option<JsonV>) -> Option<Seq<Seq<char>>> {
    match data {
        None => Some(Seq::empty()),
        Some(JsonV::Array(items)) => if forall|i: int|
            0 <= i < items.len() ==> (#[trigger] items[i]) is Text {
            Some(Seq::new(items.len(), |i: int| items[i]->Text_0))
        } else {
            None
        },
        Some(_) => None,
    }
}

pub fn data_texts(data: Option<Json>) -> (r: Result<Vec<String>, ToolError>)
    ensures
        r is Ok == listed_texts(
            match data {
                Some(d) => Some(d@),
                None => None,
            },
        ) is Some,
        r is Ok ==> texts(r->Ok_0@) == listed_texts(
            match data {
                Some(d) => Some(d@),
                None => None,
            },
        )->0,
        r is Err ==> r->Err_0 is UndecodableResponse,
{
    let mut out: Vec<String> = Vec::new();
    let value = match data {
        Some(value) => value,
        None => {
            assert(texts(out@) =~= Seq::empty());
            return Ok(out);
        },
    };
    let items = match value.as_array() {
        Some(items) => items,
        None => {
            return Err(ToolError::UndecodableResponse);
        },
    };
    let ghost all = items_view(items@);
    assert(value@ == JsonV::Array(all));
    assert(data == Some(value));
    let mut i: usize = 0;
    while i < items.len()
        invariant
            i <= items.len(),
            data == Some(value),
            value@ == JsonV::Array(all),
            all == items_view(items@),
            out@.len() == i,
            forall|k: int| 0 <= k < i ==> (#[trigger] all[k]) is Text && out@[k]@ == all[k]->Text_0,
        decreases items.len() - i,
    {
        assert(all[i as int] == items@[i as int]@);
        match &items[i] {
            Json::Text(s) => {
                out.push(s.clone());
            },
            _ => {
                assert(!(all[i as int] is Text));
                assert(listed_texts(Some(value@)) is None);
                return Err(ToolError::UndecodableResponse);
            },
        }
        i = i + 1;
    }
    assert(texts(out@) =~= listed_texts(Some(value@))->0);
    Ok(out)
}

/// The documents that the data of an answer lists: none where there is no
/// data; `None` where the data is no list.
pub open spec fn listed_items(data: Option<JsonV>) -> Option<Seq<JsonV>> {
    match data {
        None => Some(Seq::empty()),
        Some(JsonV::Array(items)) => Some(items),
        Some(_) => None,
    }
}

pub fn data_items(data: Option<Json>) -> (r: Result<Vec<Json>, ToolError>)
    ensures
        r is Ok == listed_items(
            match data {
                Some(d) => Some(d@),
                None => None,
            },
        ) is Some,
        r is Ok ==> items_view(r->Ok_0@) == listed_items(
            match data {
                Some(d) => Some(d@),
                None => None,
            },
        )->0,
        r is Err ==> r->Err_0 is UndecodableResponse,
{
    match data {
        None => {
            let out: Vec<Json> = Vec::new();
            assert(items_view(out@) =~= Seq::empty());
            Ok(out)
        },
        Some(Json::Array(items)) => {
            proof {
                crate::json::array_view(items);
            }
            Ok(items)
        },
        Some(_) => Err(ToolError::UndecodableResponse),
    }
}

// ---------------------------------------------------------------------------
// Statistics from a run
// ---------------------------------------------------------------------------
/// The summary of the statistics in a query answer.
pub open spec fn run_summary(data: JsonV) -> Option<JsonV> {
    match data.member("stats"@) {
        Some(stats) => stats.member("summary"@),
        None => None,
    }
}

pub open spec fn summary_count(data: JsonV, key: Seq<char>) -> Option<u64> {
    match run_summary(data) {
        Some(summary) => match summary.member(key) {
            Some(found) => count_of(found),
            None => None,
        },
        None => None,
    }
}

/// The estimate that the answer to a one-line run of the query gives.
/// The streams are counted by the groups in the result, which is fewer
/// than the run touched.
pub open spec fn run_estimate(data: JsonV) -> Estimate {
    Estimate {
        bytes_processed: summary_count(data, "totalBytesProcessed"@),
        streams: match data.member("result"@) {
            Some(JsonV::Array(groups)) => Some(groups.len() as u64),
            _ => None,
        },
        chunks: summary_count(data, "totalChunksMatched"@),
        entries: summary_count(data, "totalLinesProcessed"@),
    }
}

fn count_in_summary(data: &Json, key: &str) -> (r: Option<u64>)
    ensures
        r == summary_count(data@, key@),
{
    let stats = data.get("stats")?;
    let summary = stats.get("summary")?;
    let found = summary.get(key)?;
    parse_u64_value(found)
}

pub fn runtime_stats_from(data: Json) -> (r: LokiQueryStats)
    ensures
        r.counts() == run_estimate(data@),
        r.raw@ == (match data@.member("stats"@) {
            Some(stats) => stats,
            None => data@,
        }),
{
    let bytes_processed = count_in_summary(&data, "totalBytesProcessed");
    let entries = count_in_summary(&data, "totalLinesProcessed");
    let chunks = count_in_summary(&data, "totalChunksMatched");
    let streams = match data.get("result") {
        Some(found) => match found.as_array() {
            Some(groups) => {
                assert(items_view(groups@).len() == groups@.len());
                Some(groups.len() as u64)
            },
            None => None,
        },
        None => None,
    };
    let raw = match data.get("stats") {
        Some(stats) => stats.duplicate(),
        None => data,
    };
    LokiQueryStats { bytes_processed, streams, chunks, entries, raw }
}

// ---------------------------------------------------------------------------
// Health
// ---------------------------------------------------------------------------
/// What asking `/ready` came to.
#[derive(Debug)]
pub enum ReadinessProbe {
    Ready,
    /// A status that is no success: its code, and how it is written.
    Status(u16, String),
    /// The request failed, for this reason.
    Error(String),
}

pub const NOT_FOUND: u16 = 404;

/// Whether the API itself has to be tried: the backend has no `/ready`
/// and did not tell its build either.
pub open spec fn wants_api_probe(readiness: &ReadinessProbe, has_build_info: bool) -> bool {
    readiness matches ReadinessProbe::Status(code, _) && code == NOT_FOUND && !has_build_info
}

pub fn needs_api_probe(readiness: &ReadinessProbe, has_build_info: bool) -> (r: bool)
    ensures
        r == wants_api_probe(readiness, has_build_info),
{
    match readiness {
        ReadinessProbe::Status(code, _) => *code == NOT_FOUND && !has_build_info,
        _ => false,
    }
}

/// Whether the backend is fit, and what is said about it.
pub open spec fn health_of(readiness: ReadinessProbe, api_reachable: bool) -> (
    bool,
    Option<Seq<char>>,
) {
    match readiness {
        ReadinessProbe::Ready => (true, None),
        ReadinessProbe::Status(code, text) => if code == NOT_FOUND && api_reachable {
            (
                true,
                Some(
                    "loki /ready returned status "@ + text@
                        + "; Loki API endpoints are reachable"@,
                ),
            )
        } else {
            (false, Some("loki returned status "@ + text@))
        },
        ReadinessProbe::Error(reason) => (false, Some(reason@)),
    }
}

pub fn evaluate_health(readiness: ReadinessProbe, api_reachable: bool) -> (r: (
    bool,
    Option<String>,
))
    ensures
        r.0 == health_of(readiness, api_reachable).0,
        match r.1 {
            Some(m) => health_of(readiness, api_reachable).1 == Some(m@),
            None => health_of(readiness, api_reachable).1 is None,
        },
{
    match readiness {
        ReadinessProbe::Ready => (true, None),
        ReadinessProbe::Status(code, text) => {
            if code == NOT_FOUND && api_reachable {
                (
                    true,
                    Some(
                        join3(
                            "loki /ready returned status ",
                            text.as_str(),
                            "; Loki API endpoints are reachable",
                        ),
                    ),
                )
            } else {
                (false, Some(join2("loki returned status ", text.as_str())))
            }
        },
        ReadinessProbe::Error(reason) => (false, Some(reason)),
    }
}

/// Whether the API counts as reachable: `/ready` was not found, and either
/// the build was told or the API answered.
pub open spec fn api_reachable(
    readiness: ReadinessProbe,
    build_info: Option<Json>,
    api_answered: bool,
) -> bool {
    (readiness matches ReadinessProbe::Status(code, _) && code == NOT_FOUND) && (build_info
        is Some || api_answered)
}


/// `url` without the slashes at its end.
pub open spec fn without_trailing_slashes(url: Seq<char>) -> Seq<char>
    decreases url.len(),
{
    if url.len() > 0 && url.last() == '/' {
        without_trailing_slashes(url.drop_last())
    } else {
        url
    }
}

pub fn base_url(url: &str) -> (r: String)
    ensures
        r@ == without_trailing_slashes(url@),
{
    let chars = chars_of(url);
    let mut n: usize = chars.len();
    assert(chars@.take(n as int) == chars@);
    while n > 0 && chars[n - 1] == '/'
        invariant
            n <= chars.len(),
            without_trailing_slashes(chars@) == without_trailing_slashes(chars@.take(n as int)),
        decreases n,
    {
        assert(chars@.take(n as int).drop_last() == chars@.take(n - 1));
        n = n - 1;
    }
    let kept = crate::text::copy_chars(&chars, 0, n);
    assert(chars@.subrange(0, n as int) == chars@.take(n as int));
    string_of(&kept)
}

// ---------------------------------------------------------------------------
// Making the client
// ---------------------------------------------------------------------------
/// What in a configuration keeps a client from being made: a time-out
/// that is no duration, or credentials that do not fit their kind.
pub open spec fn client_fault(config: &LokiConfig) -> Option<(ConfigFault, Seq<char>)> {
    if std_duration(config.timeout@) is Err {
        Some((ConfigFault::LokiTimeout, config.timeout@))
    } else {
        match auth_of(config) {
            Ok(_) => None,
            Err(fault) => Some(fault),
        }
    }
}

impl LokiClient {
    /// The client that the configuration asks for: the time-out read, the
    /// credentials taken, the URL without the slashes at its end.
    pub fn new(config: &LokiConfig) -> (r: Result<Self, ConfigError>)
        ensures
            match r {
                Ok(client) => client_fault(config) is None && std_duration(config.timeout@) == Ok::<
                    _,
                    crate::time::Failure,
                >(client.timeout) && auth_of(config) == Ok::<_, (ConfigFault, Seq<char>)>(
                    client.auth,
                ) && client.base_url@ == without_trailing_slashes(config.url@) && client.tenant_id
                    == config.tenant_id && client.timeout.wf(),
                Err(e) => client_fault(config) == Some(e@),
            },
    {
        let timeout = match parse_std_duration(config.timeout.as_str()) {
            Ok(span) => span,
            Err(_) => {
                return Err(ConfigError::about(ConfigFault::LokiTimeout, config.timeout.as_str()));
            },
        };
        let auth = LokiAuth::from_config(config)?;
        let tenant_id = match &config.tenant_id {
            Some(t) => Some(t.clone()),
            None => None,
        };
        Ok(LokiClient { base_url: base_url(config.url.as_str()), tenant_id, auth, timeout })
    }

    /// The health of the backend from what the probes found. The API counts
    /// as reachable only where `/ready` was not found and either the build was
    /// told or the API answered.
    pub fn check_health(
        &self,
        readiness: ReadinessProbe,
        build_info: Option<Json>,
        ring_status: Option<Json>,
        api_answered: bool,
    ) -> (r: LokiHealth)
        ensures
            r.healthy == health_of(readiness, api_reachable(readiness, build_info, api_answered)).0,
            crate::config::view_of(r.message) == health_of(
                readiness,
                api_reachable(readiness, build_info, api_answered),
            ).1,
            r.build_info == build_info,
            r.ring_status == ring_status,
    {
        let api_reachable = match &readiness {
            ReadinessProbe::Status(code, _) => *code == NOT_FOUND && (build_info.is_some()
                || api_answered),
            _ => false,
        };
        let (healthy, message) = evaluate_health(readiness, api_reachable);
        LokiHealth { healthy, message, build_info, ring_status }
    }

    /// The address of a path at the backend.
    pub fn endpoint(&self, path: &str) -> (r: String)
        ensures
            r@ == self.base_url@ + path@,
    {
        join2(self.base_url.as_str(), path)
    }
}

} // verus!
