//! The counters of the server, kept by `prometheus`.

use vstd::prelude::*;

verus! {

#[verifier::external_type_specification]
#[verifier::external_body]
pub struct ExRegistry(prometheus::Registry);

#[verifier::external_type_specification]
#[verifier::external_body]
pub struct ExPrometheusError(prometheus::Error);

/// A counter of `prometheus` without labels.
#[verifier::external_body]
pub struct Counter {
    inner: prometheus::IntCounter,
}

/// A family of counters of `prometheus`, one per list of label values.
#[verifier::external_body]
pub struct CounterFamily {
    inner: prometheus::IntCounterVec,
}

/// The count that a counter holds.
pub uninterp spec fn count(counter: Counter) -> u64;

/// The key under which a family keeps the counter of a list of label
/// values: a hash of the bytes of the values one after another, so that
/// lists whose values run together to the same text share a counter.
pub uninterp spec fn child_key(values: Seq<Seq<char>>) -> u64;

/// The counts of a family by key.
pub type Tally = Map<u64, u64>;

/// The count under each key that has been counted.
pub uninterp spec fn counts(family: CounterFamily) -> Map<u64, u64>;

/// The full name that a counter was made with.
pub uninterp spec fn counter_name(counter: Counter) -> Seq<char>;

/// The full name that a family was made with.
pub uninterp spec fn family_name(family: CounterFamily) -> Seq<char>;

/// The id that `prometheus` gives the descriptor of a counter or family of
/// that full name, made without constant labels: a hash of the name.
pub uninterp spec fn desc_id(name: Seq<char>) -> u64;

/// The ids of the descriptors and of the collectors that a registry holds.
pub uninterp spec fn enrolled(registry: prometheus::Registry) -> Set<u64>;

/// The full names that a registry has kept the labels and help text of.
pub uninterp spec fn seen(registry: prometheus::Registry) -> Set<Seq<char>>;

/// The names of the labels that a family was made with, in their order.
pub uninterp spec fn labels_of(family: CounterFamily) -> Seq<Seq<char>>;

/// A family in which nothing is counted.
pub open spec fn nothing_counted() -> Tally {
    Map::empty()
}

/// One more, wrapping round.
pub open spec fn next_count(n: u64) -> u64 {
    if n < u64::MAX {
        (n + 1) as u64
    } else {
        0
    }
}

/// The count under the key of a list of label values: zero where none
/// was counted.
pub open spec fn count_under(tally: Tally, values: Seq<Seq<char>>) -> u64 {
    if tally.contains_key(child_key(values)) {
        tally[child_key(values)]
    } else {
        0
    }
}

/// The texts of a list of names.
pub open spec fn words(list: Seq<&str>) -> Seq<Seq<char>> {
    Seq::new(list.len(), |i: int| list[i]@)
}

/// A character that may begin the name of a label: an ASCII letter or `_`.
pub open spec fn begins_label(c: char) -> bool {
    ('a' <= c && c <= 'z') || ('A' <= c && c <= 'Z') || c == '_'
}

/// A name that `prometheus` takes for a label: it begins with a letter or
/// `_`, and letters, digits and `_` follow.
pub open spec fn label_name_ok(name: Seq<char>) -> bool {
    &&& name.len() > 0
    &&& begins_label(name[0])
    &&& forall|i: int| 0 <= i < name.len() ==> begins_label(#[trigger] name[i])
        || '0' <= name[i] <= '9'
}

/// A name that `prometheus` takes for a counter: as for a label, and `:`
/// may stand wherever a letter may.
pub open spec fn metric_name_ok(name: Seq<char>) -> bool {
    &&& name.len() > 0
    &&& (begins_label(name[0]) || name[0] == ':')
    &&& forall|i: int|
        0 <= i < name.len() ==> begins_label(#[trigger] name[i])
            || name[i] == ':'
            || '0' <= name[i] <= '9'
}

/// Labels that `prometheus` takes for a family: each a name for a label,
/// and no two the same.
pub open spec fn labels_ok(labels: Seq<Seq<char>>) -> bool {
    &&& forall|i: int| 0 <= i < labels.len() ==> label_name_ok(#[trigger] labels[i])
    &&& forall|i: int, j: int|
        0 <= i < labels.len() && 0 <= j < labels.len() && i != j ==> labels[i] != labels[j]
}

/// `Registry::new` of `prometheus`: a registry that holds nothing.
#[verifier::external_body]
fn new_registry() -> (r: prometheus::Registry)
    ensures
        enrolled(r) == Set::<u64>::empty(),
        seen(r) == Set::<Seq<char>>::empty(),
{
    prometheus::Registry::new()
}

/// `Opts::new` and `IntCounter::with_opts` of `prometheus`: a counter at
/// zero. `prometheus` refuses an empty help text and a name that is none
/// for a counter, and nothing else.
#[verifier::external_body]
fn new_counter(name: &str, help: &str) -> (r: Result<Counter, prometheus::Error>)
    ensures
        r is Ok == (help@.len() > 0 && metric_name_ok(name@)),
        r is Ok ==> count(r->Ok_0) == 0,
        r is Ok ==> counter_name(r->Ok_0) == name@,
{
    let inner = prometheus::IntCounter::with_opts(prometheus::Opts::new(name, help))?;
    Ok(Counter { inner })
}

/// `Opts::new` and `IntCounterVec::new` of `prometheus`: a family with
/// those labels in which nothing is counted. `prometheus` refuses an
/// empty help text, a name that is none for a counter, a label whose name
/// is none for a label and a label named twice, and nothing else.
#[verifier::external_body]
fn new_family(name: &str, help: &str, labels: &Vec<&str>) -> (r: Result<CounterFamily, prometheus::Error>)
    ensures
        r is Ok == (help@.len() > 0 && metric_name_ok(name@) && labels_ok(words(labels@))),
        r is Ok ==> counts(r->Ok_0) == nothing_counted(),
        r is Ok ==> labels_of(r->Ok_0) == words(labels@),
        r is Ok ==> family_name(r->Ok_0) == name@,
{
    let inner = prometheus::IntCounterVec::new(prometheus::Opts::new(name, help), labels)?;
    Ok(CounterFamily { inner })
}

/// `Registry::register` of `prometheus` for a counter. The registry
/// refuses a descriptor whose id it holds, and one whose name it has seen
/// with other labels or another help text; a name it has not seen it does
/// not refuse. Where it takes the counter it holds the id and has seen the
/// name; where it refuses, it holds what it held.
#[verifier::external_body]
fn register_counter(registry: &mut prometheus::Registry, counter: &Counter) -> (r: Result<(), prometheus::Error>)
    ensures
        r is Ok ==> enrolled(*final(registry)) == enrolled(*old(registry)).insert(desc_id(counter_name(*counter))),
        r is Ok ==> seen(*final(registry)) == seen(*old(registry)).insert(counter_name(*counter)),
        r is Err ==> enrolled(*final(registry)) == enrolled(*old(registry)),
        enrolled(*old(registry)).contains(desc_id(counter_name(*counter))) ==> r is Err,
        !enrolled(*old(registry)).contains(desc_id(counter_name(*counter)))
            && !seen(*old(registry)).contains(counter_name(*counter)) ==> r is Ok,
{
    registry.register(Box::new(counter.inner.clone()))
}

/// `Registry::register` of `prometheus` for a family, as for a counter.
#[verifier::external_body]
fn register_family(registry: &mut prometheus::Registry, family: &CounterFamily) -> (r: Result<(), prometheus::Error>)
    ensures
        r is Ok ==> enrolled(*final(registry)) == enrolled(*old(registry)).insert(desc_id(family_name(*family))),
        r is Ok ==> seen(*final(registry)) == seen(*old(registry)).insert(family_name(*family)),
        r is Err ==> enrolled(*final(registry)) == enrolled(*old(registry)),
        enrolled(*old(registry)).contains(desc_id(family_name(*family))) ==> r is Err,
        !enrolled(*old(registry)).contains(desc_id(family_name(*family)))
            && !seen(*old(registry)).contains(family_name(*family)) ==> r is Ok,
{
    registry.register(Box::new(family.inner.clone()))
}

/// `IntCounter::inc` of `prometheus`.
#[verifier::external_body]
fn inc_counter(counter: &mut Counter)
    ensures
        count(*final(counter)) == next_count(count(*old(counter))),
        counter_name(*final(counter)) == counter_name(*old(counter)),
{
    counter.inner.inc()
}

/// `IntCounterVec::with_label_values` and `IntCounter::inc` of
/// `prometheus`: one more under the key of those label values, nothing
/// else changed. `with_label_values` panics unless there is a value for
/// each label.
#[verifier::external_body]
fn inc_family(family: &mut CounterFamily, values: &Vec<&str>)
    requires
        values@.len() == labels_of(*old(family)).len(),
    ensures
        counts(*final(family)) == counts(*old(family)).insert(
            child_key(words(values@)),
            next_count(count_under(counts(*old(family)), words(values@))),
        ),
        labels_of(*final(family)) == labels_of(*old(family)),
        family_name(*final(family)) == family_name(*old(family)),
{
    family.inner.with_label_values(values).inc()
}

/// `Registry::gather` and `TextEncoder::encode_utf8` of `prometheus`: the
/// registered counters in the text format.
#[verifier::external_body]
fn encode_registry(registry: &prometheus::Registry) -> (r: Result<String, prometheus::Error>) {
    let mut body = String::new();
    prometheus::TextEncoder::new().encode_utf8(&registry.gather(), &mut body)?;
    Ok(body)
}

/// Which counter a failure is about.
#[derive(Debug, Clone, Copy, PartialEq, Eq, Structural)]
pub enum Metric {
    HttpRequests,
    ToolCalls,
    ToolCache,
    ToolGuardrailRejections,
    ToolRateLimited,
    ReadinessCache,
}

#[derive(Debug, Clone, Copy, PartialEq, Eq, Structural)]
pub enum MetricsError {
    Create(Metric),
    Register(Metric),
    Encode,
}

/// The name of a counter behind the prefix.
pub open spec fn metric_word(metric: Metric) -> Seq<char> {
    match metric {
        Metric::HttpRequests => "http_requests_total"@,
        Metric::ToolCalls => "tool_calls_total"@,
        Metric::ToolCache => "tool_cache_total"@,
        Metric::ToolGuardrailRejections => "tool_guardrail_rejections_total"@,
        Metric::ToolRateLimited => "tool_rate_limited_total"@,
        Metric::ReadinessCache => "readiness_cache_total"@,
    }
}

pub open spec fn metrics_message(e: MetricsError) -> Seq<char> {
    match e {
        MetricsError::Create(m) => "failed to create "@ + metric_word(m) + " metric"@,
        MetricsError::Register(m) => "failed to register "@ + metric_word(m) + " metric"@,
        MetricsError::Encode => "failed encoding prometheus metrics"@,
    }
}

pub fn metric_name(metric: Metric) -> (r: &'static str)
    ensures
        r@ == metric_word(metric),
{
    match metric {
        Metric::HttpRequests => "http_requests_total",
        Metric::ToolCalls => "tool_calls_total",
        Metric::ToolCache => "tool_cache_total",
        Metric::ToolGuardrailRejections => "tool_guardrail_rejections_total",
        Metric::ToolRateLimited => "tool_rate_limited_total",
        Metric::ReadinessCache => "readiness_cache_total",
    }
}

impl MetricsError {
    pub fn message(&self) -> (r: String)
        ensures
            r@ == metrics_message(*self),
    {
        match *self {
            MetricsError::Create(m) => crate::text::join3(
                "failed to create ",
                metric_name(m),
                " metric",
            ),
            MetricsError::Register(m) => crate::text::join3(
                "failed to register ",
                metric_name(m),
                " metric",
            ),
            MetricsError::Encode => "failed encoding prometheus metrics".to_owned(),
        }
    }
}

/// The counters of the server.
pub struct MetricsRegistry {
    pub registry: prometheus::Registry,
    pub http_requests_total: Counter,
    pub tool_calls_total: CounterFamily,
    pub tool_cache_total: CounterFamily,
    pub tool_guardrail_rejections_total: CounterFamily,
    pub tool_rate_limited_total: CounterFamily,
    pub readiness_cache_total: CounterFamily,
}

/// What the counters say, each family by the keys of its label values,
/// and the ids that the registry holds.
pub struct Tallies {
    pub http_requests: u64,
    pub tool_calls: Tally,
    pub tool_cache: Tally,
    pub guardrail_rejections: Tally,
    pub rate_limited: Tally,
    pub readiness_cache: Tally,
    pub registered: Set<u64>,
}

impl View for MetricsRegistry {
    type V = Tallies;

    open spec fn view(&self) -> Tallies {
        Tallies {
            http_requests: count(self.http_requests_total),
            tool_calls: counts(self.tool_calls_total),
            tool_cache: counts(self.tool_cache_total),
            guardrail_rejections: counts(self.tool_guardrail_rejections_total),
            rate_limited: counts(self.tool_rate_limited_total),
            readiness_cache: counts(self.readiness_cache_total),
            registered: enrolled(self.registry),
        }
    }
}

/// The tally with one more under the key of the label values.
pub open spec fn bump(tally: Tally, values: Seq<Seq<char>>) -> Tally {
    tally.insert(child_key(values), next_count(count_under(tally, values)))
}

pub open spec fn pair(a: Seq<char>, b: Seq<char>) -> Seq<Seq<char>> {
    Seq::empty().push(a).push(b)
}

pub open spec fn single(a: Seq<char>) -> Seq<Seq<char>> {
    Seq::empty().push(a)
}

/// The full name of a counter: the prefix, `_`, and the name behind it.
pub open spec fn name_of(prefix: Seq<char>, metric: Metric) -> Seq<char> {
    prefix + "_"@ + metric_word(metric)
}

fn full_name(prefix: &str, metric: Metric) -> (r: String)
    ensures
        r@ == name_of(prefix@, metric),
{
    crate::text::join3(prefix, "_", metric_name(metric))
}

fn one_label(a: &'static str) -> (r: Vec<&'static str>)
    ensures
        words(r@) == Seq::<Seq<char>>::empty().push(a@),
        r@.len() == 1,
{
    let mut r: Vec<&'static str> = Vec::new();
    r.push(a);
    assert(words(r@) =~= Seq::<Seq<char>>::empty().push(a@));
    r
}

fn two_labels<'a>(a: &'a str, b: &'a str) -> (r: Vec<&'a str>)
    ensures
        words(r@) == Seq::<Seq<char>>::empty().push(a@).push(b@),
        r@.len() == 2,
{
    let mut r: Vec<&'a str> = Vec::new();
    r.push(a);
    r.push(b);
    assert(words(r@) =~= Seq::<Seq<char>>::empty().push(a@).push(b@));
    r
}

fn one_value<'a>(a: &'a str) -> (r: Vec<&'a str>)
    ensures
        words(r@) == Seq::<Seq<char>>::empty().push(a@),
        r@.len() == 1,
{
    let mut r: Vec<&'a str> = Vec::new();
    r.push(a);
    assert(words(r@) =~= Seq::<Seq<char>>::empty().push(a@));
    r
}

fn family(prefix: &str, metric: Metric, help: &str, labels: &Vec<&str>) -> (r: Result<
    CounterFamily,
    MetricsError,
>)
    ensures
        r is Ok == (help@.len() > 0 && metric_name_ok(name_of(prefix@, metric)) && labels_ok(
            words(labels@),
        )),
        r is Ok ==> counts(r->Ok_0) == nothing_counted() && labels_of(
            r->Ok_0,
        ) == words(labels@) && family_name(r->Ok_0) == name_of(prefix@, metric),
        r is Err ==> r->Err_0 == MetricsError::Create(metric),
{
    let name = full_name(prefix, metric);
    match new_family(name.as_str(), help, labels) {
        Ok(f) => Ok(f),
        Err(_) => Err(MetricsError::Create(metric)),
    }
}

/// Registers a family. The registry takes it unless it holds the id of
/// its name already; a name it has not seen it does not refuse. A refusal
/// is reported as the failure to register that counter.
fn enrol(registry: &mut prometheus::Registry, family: &CounterFamily, metric: Metric) -> (r: Result<
    (),
    MetricsError,
>)
    ensures
        r is Ok ==> enrolled(*final(registry)) == enrolled(*old(registry)).insert(
            desc_id(family_name(*family)),
        ) && seen(*final(registry)) == seen(*old(registry)).insert(family_name(*family)),
        r is Err ==> r->Err_0 == MetricsError::Register(metric) && enrolled(*final(registry))
            == enrolled(*old(registry)),
        enrolled(*old(registry)).contains(desc_id(family_name(*family))) ==> r is Err,
        !enrolled(*old(registry)).contains(desc_id(family_name(*family))) && !seen(
            *old(registry),
        ).contains(family_name(*family)) ==> r is Ok,
{
    match register_family(registry, family) {
        Ok(()) => Ok(()),
        Err(_) => Err(MetricsError::Register(metric)),
    }
}

/// The first of the six counters, in the order in which they are made,
/// whose full name under the prefix is none for a counter.
pub open spec fn first_refused(prefix: Seq<char>) -> Option<Metric> {
    if !metric_name_ok(name_of(prefix, Metric::HttpRequests)) {
        Some(Metric::HttpRequests)
    } else if !metric_name_ok(name_of(prefix, Metric::ToolCalls)) {
        Some(Metric::ToolCalls)
    } else if !metric_name_ok(name_of(prefix, Metric::ToolCache)) {
        Some(Metric::ToolCache)
    } else if !metric_name_ok(name_of(prefix, Metric::ToolGuardrailRejections)) {
        Some(Metric::ToolGuardrailRejections)
    } else if !metric_name_ok(name_of(prefix, Metric::ToolRateLimited)) {
        Some(Metric::ToolRateLimited)
    } else if !metric_name_ok(name_of(prefix, Metric::ReadinessCache)) {
        Some(Metric::ReadinessCache)
    } else {
        None
    }
}

/// The id of a counter under the prefix.
pub open spec fn id_of(prefix: Seq<char>, metric: Metric) -> u64 {
    desc_id(name_of(prefix, metric))
}

/// The ids of the six counters under the prefix.
pub open spec fn all_ids(prefix: Seq<char>) -> Set<u64> {
    Set::<u64>::empty().insert(id_of(prefix, Metric::HttpRequests)).insert(
        id_of(prefix, Metric::ToolCalls),
    ).insert(id_of(prefix, Metric::ToolCache)).insert(
        id_of(prefix, Metric::ToolGuardrailRejections),
    ).insert(id_of(prefix, Metric::ToolRateLimited)).insert(id_of(prefix, Metric::ReadinessCache))
}

/// The first of the six counters, in the order in which they are
/// registered, whose id is that of one registered before it.
pub open spec fn first_clash(prefix: Seq<char>) -> Option<Metric> {
    let a = id_of(prefix, Metric::HttpRequests);
    let b = id_of(prefix, Metric::ToolCalls);
    let c = id_of(prefix, Metric::ToolCache);
    let d = id_of(prefix, Metric::ToolGuardrailRejections);
    let e = id_of(prefix, Metric::ToolRateLimited);
    let f = id_of(prefix, Metric::ReadinessCache);
    if b == a {
        Some(Metric::ToolCalls)
    } else if c == a || c == b {
        Some(Metric::ToolCache)
    } else if d == a || d == b || d == c {
        Some(Metric::ToolGuardrailRejections)
    } else if e == a || e == b || e == c || e == d {
        Some(Metric::ToolRateLimited)
    } else if f == a || f == b || f == c || f == d || f == e {
        Some(Metric::ReadinessCache)
    } else {
        None
    }
}

/// The labels of the families are names that `prometheus` takes.
proof fn label_words()
    ensures
        labels_ok(pair("tool"@, "outcome"@)),
        labels_ok(pair("tool"@, "result"@)),
        labels_ok(single("tool"@)),
        labels_ok(single("result"@)),
{
    reveal_strlit("tool");
    reveal_strlit("outcome");
    reveal_strlit("result");
    assert(label_name_ok("tool"@));
    assert(label_name_ok("outcome"@));
    assert(label_name_ok("result"@));
    assert("tool"@ != "outcome"@);
    assert("tool"@ != "result"@);
}

impl MetricsRegistry {
    /// Each family has as many labels as it is counted by.
    pub open spec fn wf(&self) -> bool {
        &&& labels_of(self.tool_calls_total).len() == 2
        &&& labels_of(self.tool_cache_total).len() == 2
        &&& labels_of(self.tool_guardrail_rejections_total).len() == 1
        &&& labels_of(self.tool_rate_limited_total).len() == 1
        &&& labels_of(self.readiness_cache_total).len() == 1
    }

    /// Nothing is counted yet.
    pub open spec fn fresh(&self) -> bool {
        self@ == (Tallies {
            http_requests: 0,
            tool_calls: nothing_counted(),
            tool_cache: nothing_counted(),
            guardrail_rejections: nothing_counted(),
            rate_limited: nothing_counted(),
            readiness_cache: nothing_counted(),
            registered: self@.registered,
        })
    }

    /// Makes the six counters under the prefix and registers them in a
    /// registry of their own. The first whose full name is none for a
    /// counter is reported as not created. Where all six names are taken,
    /// the first whose id is that of one before it is reported as not
    /// registered. Else the six are made, nothing is counted, and the
    /// registry holds their ids.
    pub fn new(prefix: &str) -> (r: Result<Self, MetricsError>)
        ensures
            match r {
                Ok(made) => first_refused(prefix@) is None && first_clash(prefix@) is None
                    && made.wf() && made.fresh() && made@.registered == all_ids(prefix@),
                Err(MetricsError::Create(metric)) => first_refused(prefix@) == Some(metric),
                Err(MetricsError::Register(metric)) => first_refused(prefix@) is None
                    && first_clash(prefix@) == Some(metric),
                Err(MetricsError::Encode) => false,
            },
    {
        proof {
            reveal_strlit("Total HTTP requests handled by loki-mcp");
            reveal_strlit("Total MCP tool calls partitioned by tool and outcome");
            reveal_strlit("Total cache lookups partitioned by tool and result");
            reveal_strlit("Total MCP tool guardrail rejections partitioned by tool");
            reveal_strlit("Total MCP tool calls rejected by rate limiting partitioned by tool");
            reveal_strlit("Total readiness cache lookups partitioned by result");
            label_words();
        }
        let mut registry = new_registry();
        let http_name = full_name(prefix, Metric::HttpRequests);
        let http_requests_total = match new_counter(
            http_name.as_str(),
            "Total HTTP requests handled by loki-mcp",
        ) {
            Ok(c) => c,
            Err(_) => {
                return Err(MetricsError::Create(Metric::HttpRequests));
            },
        };
        let tool_calls_total = family(
            prefix,
            Metric::ToolCalls,
            "Total MCP tool calls partitioned by tool and outcome",
            &two_labels("tool", "outcome"),
        )?;
        let tool_cache_total = family(
            prefix,
            Metric::ToolCache,
            "Total cache lookups partitioned by tool and result",
            &two_labels("tool", "result"),
        )?;
        let tool_guardrail_rejections_total = family(
            prefix,
            Metric::ToolGuardrailRejections,
            "Total MCP tool guardrail rejections partitioned by tool",
            &one_label("tool"),
        )?;
        let tool_rate_limited_total = family(
            prefix,
            Metric::ToolRateLimited,
            "Total MCP tool calls rejected by rate limiting partitioned by tool",
            &one_label("tool"),
        )?;
        let readiness_cache_total = family(
            prefix,
            Metric::ReadinessCache,
            "Total readiness cache lookups partitioned by result",
            &one_label("result"),
        )?;
        match register_counter(&mut registry, &http_requests_total) {
            Ok(()) => {},
            Err(_) => {
                return Err(MetricsError::Register(Metric::HttpRequests));
            },
        }
        enrol(&mut registry, &tool_calls_total, Metric::ToolCalls)?;
        enrol(&mut registry, &tool_cache_total, Metric::ToolCache)?;
        enrol(&mut registry, &tool_guardrail_rejections_total, Metric::ToolGuardrailRejections)?;
        enrol(&mut registry, &tool_rate_limited_total, Metric::ToolRateLimited)?;
        enrol(&mut registry, &readiness_cache_total, Metric::ReadinessCache)?;
        Ok(
            MetricsRegistry {
                registry,
                http_requests_total,
                tool_calls_total,
                tool_cache_total,
                tool_guardrail_rejections_total,
                tool_rate_limited_total,
                readiness_cache_total,
            },
        )
    }

    pub fn inc_http_requests(&mut self)
        requires
            old(self).wf(),
        ensures
            final(self).wf(),
            final(self)@ == (Tallies {
                http_requests: next_count(old(self)@.http_requests),
                ..old(self)@
            }),
    {
        inc_counter(&mut self.http_requests_total);
    }

    pub fn inc_tool_call(&mut self, tool: &str, outcome: &str)
        requires
            old(self).wf(),
        ensures
            final(self).wf(),
            final(self)@ == (Tallies {
                tool_calls: bump(old(self)@.tool_calls, pair(tool@, outcome@)),
                ..old(self)@
            }),
    {
        inc_family(&mut self.tool_calls_total, &two_labels(tool, outcome));
    }

    pub fn inc_tool_cache_hit(&mut self, tool: &str)
        requires
            old(self).wf(),
        ensures
            final(self).wf(),
            final(self)@ == (Tallies {
                tool_cache: bump(old(self)@.tool_cache, pair(tool@, "hit"@)),
                ..old(self)@
            }),
    {
        inc_family(&mut self.tool_cache_total, &two_labels(tool, "hit"));
    }

    pub fn inc_tool_cache_miss(&mut self, tool: &str)
        requires
            old(self).wf(),
        ensures
            final(self).wf(),
            final(self)@ == (Tallies {
                tool_cache: bump(old(self)@.tool_cache, pair(tool@, "miss"@)),
                ..old(self)@
            }),
    {
        inc_family(&mut self.tool_cache_total, &two_labels(tool, "miss"));
    }

    pub fn inc_tool_guardrail_rejection(&mut self, tool: &str)
        requires
            old(self).wf(),
        ensures
            final(self).wf(),
            final(self)@ == (Tallies {
                guardrail_rejections: bump(old(self)@.guardrail_rejections, single(tool@)),
                ..old(self)@
            }),
    {
        inc_family(&mut self.tool_guardrail_rejections_total, &one_value(tool));
    }

    pub fn inc_tool_rate_limited(&mut self, tool: &str)
        requires
            old(self).wf(),
        ensures
            final(self).wf(),
            final(self)@ == (Tallies {
                rate_limited: bump(old(self)@.rate_limited, single(tool@)),
                ..old(self)@
            }),
    {
        inc_family(&mut self.tool_rate_limited_total, &one_value(tool));
    }

    pub fn inc_readiness_cache_hit(&mut self)
        requires
            old(self).wf(),
        ensures
            final(self).wf(),
            final(self)@ == (Tallies {
                readiness_cache: bump(old(self)@.readiness_cache, single("hit"@)),
                ..old(self)@
            }),
    {
        inc_family(&mut self.readiness_cache_total, &one_value("hit"));
    }

    pub fn inc_readiness_cache_miss(&mut self)
        requires
            old(self).wf(),
        ensures
            final(self).wf(),
            final(self)@ == (Tallies {
                readiness_cache: bump(old(self)@.readiness_cache, single("miss"@)),
                ..old(self)@
            }),
    {
        inc_family(&mut self.readiness_cache_total, &one_value("miss"));
    }

    /// The counters in the text format of `prometheus`.
    pub fn render(&self) -> (r: Result<String, MetricsError>)
        ensures
            r is Err ==> r->Err_0 == MetricsError::Encode,
    {
        match encode_registry(&self.registry) {
            Ok(body) => Ok(body),
            Err(_) => Err(MetricsError::Encode),
        }
    }
}

} // verus!
