//! The analysis tools: their arguments, what they ask of the backend and
//! what they count.

use vstd::prelude::*;
use crate::error::ToolError;
use crate::json::{items_view, Json, JsonV};
use crate::loki::client::{pairs_view, BackendRequest, LokiClient};
use crate::response::ResponseMode;
use crate::time::{Instant, Zone};
use crate::tools::{as_text, compared, compared_ranges, window, window_of};
use crate::tools::dispatch::{
    ask_one, finish_over, finish_with, logs_ask, logs_request, one_request, one_text, range_ask,
    requests_view, Finish, FinishKind, FinishV, Plan, PlanV, RequestV, COMPARE_LIMIT,
};
use crate::tools::params::{
    check_known, given, know, members_of, nothing_known, only_known, optional_text,
    read_optional_text, read_required_text, required_text, text_of,
};

verus! {

/// The arguments of `loki_query_stats`.
#[derive(Debug)]
pub struct QueryStatsInput {
    pub query: String,
    pub start: Option<String>,
    pub end: Option<String>,
}

/// The value of [`QueryStatsInput`].
pub struct QueryStatsInputV {
    pub query: Seq<char>,
    pub start: Option<Seq<char>>,
    pub end: Option<Seq<char>>,
}

impl View for QueryStatsInput {
    type V = QueryStatsInputV;

    open spec fn view(&self) -> QueryStatsInputV {
        QueryStatsInputV {
            query: self.query@,
            start: text_of(self.start),
            end: text_of(self.end),
        }
    }
}

impl QueryStatsInput {
    /// The names of the arguments.
    pub open spec fn fields() -> Seq<Seq<char>> {
        Seq::empty().push("query"@).push("start"@).push("end"@)
    }

    /// The arguments fit: an object or `null`, no member that is not known,
    /// each member of its kind, none missing that must be there.
    pub open spec fn fits(params: JsonV) -> bool {
        &&& given(params) is Some
        &&& only_known(given(params)->0, Self::fields())
        &&& required_text(given(params)->0, "query"@) is Some
        &&& optional_text(given(params)->0, "start"@) is Some
        &&& optional_text(given(params)->0, "end"@) is Some
    }

    /// What the arguments say.
    pub open spec fn reading(params: JsonV) -> QueryStatsInputV {
        QueryStatsInputV {
            query: required_text(given(params)->0, "query"@)->0,
            start: optional_text(given(params)->0, "start"@)->0,
            end: optional_text(given(params)->0, "end"@)->0,
        }
    }

    pub fn decode(params: &Json) -> (r: Option<Self>)
        ensures
            r is Some == Self::fits(params@),
            r is Some ==> r->0@ == Self::reading(params@),
    {
        let empty: Vec<(String, Json)> = Vec::new();
        let members = members_of(params, &empty)?;
        let mut known = nothing_known();
        know(&mut known, "query");
        know(&mut known, "start");
        know(&mut known, "end");
        if !check_known(members, &known) {
            return None;
        }
        let query = read_required_text(members, "query")?;
        let start = read_optional_text(members, "start")?;
        let end = read_optional_text(members, "end")?;
        Some(QueryStatsInput { query, start, end })
    }
}

/// The arguments of `loki_detect_patterns`.
#[derive(Debug)]
pub struct DetectPatternsInput {
    pub query: String,
    pub start: Option<String>,
    pub end: Option<String>,
    pub step: Option<String>,
}

/// The value of [`DetectPatternsInput`].
pub struct DetectPatternsInputV {
    pub query: Seq<char>,
    pub start: Option<Seq<char>>,
    pub end: Option<Seq<char>>,
    pub step: Option<Seq<char>>,
}

impl View for DetectPatternsInput {
    type V = DetectPatternsInputV;

    open spec fn view(&self) -> DetectPatternsInputV {
        DetectPatternsInputV {
            query: self.query@,
            start: text_of(self.start),
            end: text_of(self.end),
            step: text_of(self.step),
        }
    }
}

impl DetectPatternsInput {
    /// The names of the arguments.
    pub open spec fn fields() -> Seq<Seq<char>> {
        Seq::empty().push("query"@).push("start"@).push("end"@).push("step"@)
    }

    /// The arguments fit: an object or `null`, no member that is not known,
    /// each member of its kind, none missing that must be there.
    pub open spec fn fits(params: JsonV) -> bool {
        &&& given(params) is Some
        &&& only_known(given(params)->0, Self::fields())
        &&& required_text(given(params)->0, "query"@) is Some
        &&& optional_text(given(params)->0, "start"@) is Some
        &&& optional_text(given(params)->0, "end"@) is Some
        &&& optional_text(given(params)->0, "step"@) is Some
    }

    /// What the arguments say.
    pub open spec fn reading(params: JsonV) -> DetectPatternsInputV {
        DetectPatternsInputV {
            query: required_text(given(params)->0, "query"@)->0,
            start: optional_text(given(params)->0, "start"@)->0,
            end: optional_text(given(params)->0, "end"@)->0,
            step: optional_text(given(params)->0, "step"@)->0,
        }
    }

    pub fn decode(params: &Json) -> (r: Option<Self>)
        ensures
            r is Some == Self::fits(params@),
            r is Some ==> r->0@ == Self::reading(params@),
    {
        let empty: Vec<(String, Json)> = Vec::new();
        let members = members_of(params, &empty)?;
        let mut known = nothing_known();
        know(&mut known, "query");
        know(&mut known, "start");
        know(&mut known, "end");
        know(&mut known, "step");
        if !check_known(members, &known) {
            return None;
        }
        let query = read_required_text(members, "query")?;
        let start = read_optional_text(members, "start")?;
        let end = read_optional_text(members, "end")?;
        let step = read_optional_text(members, "step")?;
        Some(DetectPatternsInput { query, start, end, step })
    }
}

/// The arguments of `loki_compare_ranges`.
#[derive(Debug)]
pub struct CompareRangesInput {
    pub query: String,
    pub baseline_start: String,
    pub baseline_end: String,
    pub compare_start: String,
    pub compare_end: String,
}

/// The value of [`CompareRangesInput`].
pub struct CompareRangesInputV {
    pub query: Seq<char>,
    pub baseline_start: Seq<char>,
    pub baseline_end: Seq<char>,
    pub compare_start: Seq<char>,
    pub compare_end: Seq<char>,
}

impl View for CompareRangesInput {
    type V = CompareRangesInputV;

    open spec fn view(&self) -> CompareRangesInputV {
        CompareRangesInputV {
            query: self.query@,
            baseline_start: self.baseline_start@,
            baseline_end: self.baseline_end@,
            compare_start: self.compare_start@,
            compare_end: self.compare_end@,
        }
    }
}

impl CompareRangesInput {
    /// The names of the arguments.
    pub open spec fn fields() -> Seq<Seq<char>> {
        Seq::empty().push("query"@)
            .push("baseline_start"@)
            .push("baseline_end"@)
            .push("compare_start"@)
            .push("compare_end"@)
    }

    /// The arguments fit: an object or `null`, no member that is not known,
    /// each member of its kind, none missing that must be there.
    pub open spec fn fits(params: JsonV) -> bool {
        &&& given(params) is Some
        &&& only_known(given(params)->0, Self::fields())
        &&& required_text(given(params)->0, "query"@) is Some
        &&& required_text(given(params)->0, "baseline_start"@) is Some
        &&& required_text(given(params)->0, "baseline_end"@) is Some
        &&& required_text(given(params)->0, "compare_start"@) is Some
        &&& required_text(given(params)->0, "compare_end"@) is Some
    }

    /// What the arguments say.
    pub open spec fn reading(params: JsonV) -> CompareRangesInputV {
        CompareRangesInputV {
            query: required_text(given(params)->0, "query"@)->0,
            baseline_start: required_text(given(params)->0, "baseline_start"@)->0,
            baseline_end: required_text(given(params)->0, "baseline_end"@)->0,
            compare_start: required_text(given(params)->0, "compare_start"@)->0,
            compare_end: required_text(given(params)->0, "compare_end"@)->0,
        }
    }

    pub fn decode(params: &Json) -> (r: Option<Self>)
        ensures
            r is Some == Self::fits(params@),
            r is Some ==> r->0@ == Self::reading(params@),
    {
        let empty: Vec<(String, Json)> = Vec::new();
        let members = members_of(params, &empty)?;
        let mut known = nothing_known();
        know(&mut known, "query");
        know(&mut known, "baseline_start");
        know(&mut known, "baseline_end");
        know(&mut known, "compare_start");
        know(&mut known, "compare_end");
        if !check_known(members, &known) {
            return None;
        }
        let query = read_required_text(members, "query")?;
        let baseline_start = read_required_text(members, "baseline_start")?;
        let baseline_end = read_required_text(members, "baseline_end")?;
        let compare_start = read_required_text(members, "compare_start")?;
        let compare_end = read_required_text(members, "compare_end")?;
        Some(CompareRangesInput { query, baseline_start, baseline_end, compare_start, compare_end })
    }
}

/// The number of values under `values` in a stream, none where it has no
/// such list.
pub open spec fn values_in(stream: JsonV) -> nat {
    match stream.member("values"@) {
        Some(JsonV::Array(values)) => values.len(),
        _ => 0,
    }
}

/// The values of all streams, counted.
pub open spec fn values_total(streams: Seq<JsonV>) -> nat
    decreases streams.len(),
{
    if streams.len() == 0 {
        0
    } else {
        values_total(streams.drop_last()) + values_in(streams.last())
    }
}

/// The lines of a log result: the values of the streams under `result`.
/// The count stays at the largest number where it would pass it.
pub open spec fn line_count(data: JsonV) -> u64 {
    match data.member("result"@) {
        Some(JsonV::Array(streams)) => if values_total(streams) <= u64::MAX {
            values_total(streams) as u64
        } else {
            u64::MAX
        },
        _ => 0,
    }
}

pub fn count_lines(data: &Json) -> (r: u64)
    ensures
        r == line_count(data@),
{
    let found = match data.get("result") {
        Some(found) => found,
        None => {
            return 0;
        },
    };
    let streams = match found.as_array() {
        Some(streams) => streams,
        None => {
            return 0;
        },
    };
    let ghost all = items_view(streams@);
    let mut count: u64 = 0;
    let mut full: bool = false;
    let mut i: usize = 0;
    while i < streams.len()
        invariant
            i <= streams.len(),
            all == items_view(streams@),
            !full ==> count == values_total(all.take(i as int)),
            full ==> count == u64::MAX && values_total(all.take(i as int)) > u64::MAX,
        decreases streams.len() - i,
    {
        proof {
            assert(all.take(i + 1).drop_last() == all.take(i as int));
            assert(all.take(i + 1).last() == streams@[i as int]@);
        }
        let here: u64 = match streams[i].get("values") {
            Some(values) => match values.as_array() {
                Some(list) => {
                    assert(items_view(list@).len() == list@.len());
                    list.len() as u64
                },
                None => 0,
            },
            None => 0,
        };
        if !full {
            if here > u64::MAX - count {
                full = true;
                count = u64::MAX;
            } else {
                count = count + here;
            }
        }
        i = i + 1;
    }
    assert(all.take(streams@.len() as int) == all);
    count
}

// ---------------------------------------------------------------------------
// What the analysis tools ask of the backend
// ---------------------------------------------------------------------------
/// What `loki_query_stats` begins with: the estimate for the query over
/// the range found.
pub open spec fn stats_plan(zone: Zone, input: QueryStatsInputV, now: Instant) -> Result<
    PlanV,
    Seq<char>,
> {
    match window(input.start, input.end, zone, now) {
        Err(w) => Err(w),
        Ok(range) => ask_one(
            range_ask("/loki/api/v1/index/stats"@, input.query, range, None),
            finish_over(
                FinishKind::Stats,
                Seq::<Seq<char>>::empty().push(input.query),
                range,
                ResponseMode::Smart,
                None,
            ),
        ),
    }
}

pub fn query_stats(client: &LokiClient, timezone: Zone, input: QueryStatsInput, now: Instant) -> (r:
    Result<Plan, ToolError>)
    requires
        now.wf(),
    ensures
        match r {
            Ok(plan) => stats_plan(timezone, input@, now) == Ok::<_, Seq<char>>(plan@),
            Err(e) => stats_plan(timezone, input@, now) == Err::<PlanV, _>(e.words()),
        },
{
    let range = window_of(as_text(&input.start), as_text(&input.end), timezone, now)?;
    let request = match client.query_stats(input.query.as_str(), Some(range.0), Some(range.1)) {
        Ok(request) => request,
        Err(_) => {
            return Err(ToolError::TimestampOutOfRange);
        },
    };
    assert(pairs_view(request.params@) + crate::loki::client::optional_param("step"@, None)
        =~= pairs_view(request.params@));
    let then = finish_with(FinishKind::Stats, one_text(input.query), range, ResponseMode::Smart, None);
    Ok(Plan::Ask(one_request(request), then))
}

/// What `loki_detect_patterns` begins with: the patterns of the query over
/// the range found, at the step that is given.
pub open spec fn patterns_plan(zone: Zone, input: DetectPatternsInputV, now: Instant) -> Result<
    PlanV,
    Seq<char>,
> {
    match window(input.start, input.end, zone, now) {
        Err(w) => Err(w),
        Ok(range) => ask_one(
            range_ask("/loki/api/v1/patterns"@, input.query, range, input.step),
            finish_over(
                FinishKind::Patterns,
                Seq::<Seq<char>>::empty().push(input.query),
                range,
                ResponseMode::Smart,
                None,
            ),
        ),
    }
}

pub fn detect_patterns(
    client: &LokiClient,
    timezone: Zone,
    input: DetectPatternsInput,
    now: Instant,
) -> (r: Result<Plan, ToolError>)
    requires
        now.wf(),
    ensures
        match r {
            Ok(plan) => patterns_plan(timezone, input@, now) == Ok::<_, Seq<char>>(plan@),
            Err(e) => patterns_plan(timezone, input@, now) == Err::<PlanV, _>(e.words()),
        },
{
    let range = window_of(as_text(&input.start), as_text(&input.end), timezone, now)?;
    let request = match client.detect_patterns(
        input.query.as_str(),
        Some(range.0),
        Some(range.1),
        as_text(&input.step),
    ) {
        Ok(request) => request,
        Err(_) => {
            return Err(ToolError::TimestampOutOfRange);
        },
    };
    let then = finish_with(
        FinishKind::Patterns,
        one_text(input.query),
        range,
        ResponseMode::Smart,
        None,
    );
    Ok(Plan::Ask(one_request(request), then))
}

/// What `loki_compare_ranges` begins with: the two ranges read, each in
/// order; then the query over the baseline and over the range compared
/// with it, each for 1000 lines, newest first.
pub open spec fn compare_plan(zone: Zone, input: CompareRangesInputV, now: Instant) -> Result<
    PlanV,
    Seq<char>,
> {
    match compared(input, zone, now) {
        Err(w) => Err(w),
        Ok(((bs, be), (cs, ce))) => match (
            logs_ask(input.query, (bs, be), COMPARE_LIMIT, Some("backward"@)),
            logs_ask(input.query, (cs, ce), COMPARE_LIMIT, Some("backward"@)),
        ) {
            (Err(w), _) => Err(w),
            (_, Err(w)) => Err(w),
            (Ok(first), Ok(second)) => Ok(
                PlanV::Ask(
                    Seq::<RequestV>::empty().push(first).push(second),
                    FinishV {
                        kind: FinishKind::Compare,
                        texts: Seq::<Seq<char>>::empty().push(input.query),
                        instants: Seq::<Instant>::empty().push(bs).push(be).push(cs).push(ce),
                        mode: ResponseMode::Smart,
                        step: None,
                    },
                ),
            ),
        },
    }
}

pub fn compare_ranges(
    client: &LokiClient,
    timezone: Zone,
    input: CompareRangesInput,
    now: Instant,
) -> (r: Result<Plan, ToolError>)
    requires
        now.wf(),
    ensures
        match r {
            Ok(plan) => compare_plan(timezone, input@, now) == Ok::<_, Seq<char>>(plan@),
            Err(e) => compare_plan(timezone, input@, now) == Err::<PlanV, _>(e.words()),
        },
{
    let ((bs, be), (cs, ce)) = compared_ranges(&input, timezone, now)?;
    let first = logs_request(client, input.query.as_str(), (bs, be), COMPARE_LIMIT, Some("backward"))?;
    let second = logs_request(client, input.query.as_str(), (cs, ce), COMPARE_LIMIT, Some("backward"))?;
    let mut requests: Vec<BackendRequest> = Vec::new();
    let ghost one = (first.path@, pairs_view(first.params@));
    let ghost two = (second.path@, pairs_view(second.params@));
    requests.push(first);
    requests.push(second);
    assert(requests_view(requests@) =~= Seq::<RequestV>::empty().push(one).push(two));
    let mut instants: Vec<Instant> = Vec::new();
    instants.push(bs);
    instants.push(be);
    instants.push(cs);
    instants.push(ce);
    assert(instants@ =~= Seq::<Instant>::empty().push(bs).push(be).push(cs).push(ce));
    Ok(
        Plan::Ask(
            requests,
            Finish {
                kind: FinishKind::Compare,
                texts: one_text(input.query),
                instants,
                mode: ResponseMode::Smart,
                step: None,
            },
        ),
    )
}

} // verus!
