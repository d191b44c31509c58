//! Cost limits: what a query may scan, and the check that holds a query to
//! it before the backend runs it.
//!
//! The check asks the backend for an estimate per range. It is written as a
//! run that is told each answer and says what to ask next, so that whoever
//! talks to the backend only carries messages.

use vstd::prelude::*;
use crate::loki::types::{Estimate, LokiQueryStats};
use crate::text::{
    chars_of, copy_chars, decimal, digit_run, digit_run_facts, digits_value, i64_text,
    leading_digits, push_decimal, push_text, read_unsigned, same_chars, signed_decimal, squeeze,
    squeezed, string_of, upper_chars, uppered,
};
use crate::time::{display_text, display_writing, Instant, Span};

verus! {

/// Outcome of holding one cost estimate against the configured limits.
#[derive(Debug, Clone, Copy, PartialEq, Eq, Structural)]
pub enum GuardrailDecision {
    Allow,
    RejectBytes,
    RejectStreams,
}

/// True when `limit` is set, positive, and `estimate` lies above it.
pub open spec fn exceeds(estimate: u64, limit: Option<u64>) -> bool {
    limit is Some && limit->0 > 0 && estimate > limit->0
}

/// The decision for a pair of estimates: the byte limit is consulted first,
/// then the stream limit; a limit that is absent or zero never rejects.
pub open spec fn decision(
    estimated_bytes_scanned: u64,
    estimated_streams: u64,
    max_bytes_scanned: Option<u64>,
    max_streams: Option<u64>,
) -> GuardrailDecision {
    if exceeds(estimated_bytes_scanned, max_bytes_scanned) {
        GuardrailDecision::RejectBytes
    } else if exceeds(estimated_streams, max_streams) {
        GuardrailDecision::RejectStreams
    } else {
        GuardrailDecision::Allow
    }
}

pub fn evaluate(
    estimated_bytes_scanned: u64,
    estimated_streams: u64,
    max_bytes_scanned: Option<u64>,
    max_streams: Option<u64>,
) -> (result: GuardrailDecision)
    ensures
        result == decision(
            estimated_bytes_scanned,
            estimated_streams,
            max_bytes_scanned,
            max_streams,
        ),
{
    if let Some(limit) = max_bytes_scanned {
        if limit > 0 && estimated_bytes_scanned > limit {
            return GuardrailDecision::RejectBytes;
        }
    }
    if let Some(limit) = max_streams {
        if limit > 0 && estimated_streams > limit {
            return GuardrailDecision::RejectStreams;
        }
    }
    GuardrailDecision::Allow
}

// ---------------------------------------------------------------------------
// Byte sizes in text
// ---------------------------------------------------------------------------
#[derive(Debug, Clone, Copy, PartialEq, Eq, Structural)]
pub enum SizeFault {
    Empty,
    MissingValue,
    InvalidValue,
    UnsupportedUnit,
    TooLarge,
}

/// Why a size text was not taken: the kind, and the piece of text it is
/// about.
#[derive(Debug)]
pub struct SizeError {
    pub kind: SizeFault,
    pub detail: String,
}

pub type SizeFailure = (SizeFault, Seq<char>);

impl View for SizeError {
    type V = SizeFailure;

    open spec fn view(&self) -> SizeFailure {
        (self.kind, self.detail@)
    }
}

/// The message of a size failure.
pub open spec fn size_message(failure: SizeFailure) -> Seq<char> {
    match failure.0 {
        SizeFault::Empty => "size must not be empty"@,
        SizeFault::MissingValue => "size is missing numeric value"@,
        SizeFault::InvalidValue => "invalid numeric size value: "@ + failure.1
            + " (number too large to fit in target type)"@,
        SizeFault::UnsupportedUnit => "unsupported byte size unit: "@ + failure.1,
        SizeFault::TooLarge => "byte size is too large"@,
    }
}

impl SizeError {
    pub fn message(&self) -> (r: String)
        ensures
            r@ == size_message(self@),
    {
        match self.kind {
            SizeFault::Empty => "size must not be empty".to_owned(),
            SizeFault::MissingValue => "size is missing numeric value".to_owned(),
            SizeFault::InvalidValue => {
                let mut r = "invalid numeric size value: ".to_owned();
                push_text(&mut r, self.detail.as_str());
                push_text(&mut r, " (number too large to fit in target type)");
                r
            },
            SizeFault::UnsupportedUnit => {
                let mut r = "unsupported byte size unit: ".to_owned();
                push_text(&mut r, self.detail.as_str());
                r
            },
            SizeFault::TooLarge => "byte size is too large".to_owned(),
        }
    }
}

/// Bytes in one unit: none or `B`, the decimal `KB` to `TB`, the binary
/// `KIB` to `TIB`.
pub open spec fn unit_bytes(unit: Seq<char>) -> Option<nat> {
    if unit == ""@ || unit == "B"@ {
        Some(1)
    } else if unit == "KB"@ {
        Some(1_000)
    } else if unit == "MB"@ {
        Some(1_000_000)
    } else if unit == "GB"@ {
        Some(1_000_000_000)
    } else if unit == "TB"@ {
        Some(1_000_000_000_000)
    } else if unit == "KIB"@ {
        Some(1_024)
    } else if unit == "MIB"@ {
        Some(1_048_576)
    } else if unit == "GIB"@ {
        Some(1_073_741_824)
    } else if unit == "TIB"@ {
        Some(1_099_511_627_776)
    } else {
        None
    }
}

/// The bytes that a size text states: digits, then a unit in either case,
/// ASCII whitespace anywhere.
pub open spec fn byte_size(input: Seq<char>) -> Result<u64, SizeFailure> {
    let compact = squeezed(input);
    let n = digit_run(compact);
    let value = compact.take(n);
    let unit = uppered(compact.skip(n));
    if compact.len() == 0 {
        Err((SizeFault::Empty, Seq::empty()))
    } else if n == 0 {
        Err((SizeFault::MissingValue, Seq::empty()))
    } else if digits_value(value) > u64::MAX {
        Err((SizeFault::InvalidValue, value))
    } else {
        match unit_bytes(unit) {
            None => Err((SizeFault::UnsupportedUnit, unit)),
            Some(k) => if digits_value(value) * k > u64::MAX {
                Err((SizeFault::TooLarge, Seq::empty()))
            } else {
                Ok((digits_value(value) * k) as u64)
            },
        }
    }
}

fn bytes_per_unit(unit: &Vec<char>) -> (r: Option<u64>)
    ensures
        r is Some == unit_bytes(unit@) is Some,
        r is Some ==> r->0 == unit_bytes(unit@)->0 && r->0 > 0,
{
    proof {
        reveal_strlit("");
    }
    if unit.len() == 0 || same_chars(unit, &chars_of("B")) {
        assert(unit@.len() == 0 ==> unit@ == ""@);
        Some(1)
    } else if same_chars(unit, &chars_of("KB")) {
        Some(1_000)
    } else if same_chars(unit, &chars_of("MB")) {
        Some(1_000_000)
    } else if same_chars(unit, &chars_of("GB")) {
        Some(1_000_000_000)
    } else if same_chars(unit, &chars_of("TB")) {
        Some(1_000_000_000_000)
    } else if same_chars(unit, &chars_of("KIB")) {
        Some(1_024)
    } else if same_chars(unit, &chars_of("MIB")) {
        Some(1_048_576)
    } else if same_chars(unit, &chars_of("GIB")) {
        Some(1_073_741_824)
    } else if same_chars(unit, &chars_of("TIB")) {
        Some(1_099_511_627_776)
    } else {
        None
    }
}

pub fn parse_byte_size(input: &str) -> (r: Result<u64, SizeError>)
    ensures
        match r {
            Ok(n) => byte_size(input@) == Ok::<_, SizeFailure>(n),
            Err(e) => byte_size(input@) == Err::<u64, _>(e@),
        },
{
    let compact = squeeze(input);
    if compact.len() == 0 {
        return Err(SizeError { kind: SizeFault::Empty, detail: String::new() });
    }
    let n = leading_digits(&compact);
    if n == 0 {
        return Err(SizeError { kind: SizeFault::MissingValue, detail: String::new() });
    }
    let value = copy_chars(&compact, 0, n);
    let unit_chars = copy_chars(&compact, n, compact.len());
    let unit = upper_chars(&unit_chars);
    proof {
        digit_run_facts(compact@);
        assert(compact@.subrange(0, n as int) == compact@.take(n as int));
        assert(compact@.subrange(n as int, compact@.len() as int) == compact@.skip(n as int));
        assert(value@.subrange(0, value@.len() as int) == value@);
    }
    let amount: u64 = match read_unsigned(&value, u64::MAX) {
        Some(a) => a,
        None => {
            return Err(SizeError { kind: SizeFault::InvalidValue, detail: string_of(&value) });
        },
    };
    let per: u64 = match bytes_per_unit(&unit) {
        Some(k) => k,
        None => {
            return Err(SizeError { kind: SizeFault::UnsupportedUnit, detail: string_of(&unit) });
        },
    };
    if amount > u64::MAX / per {
        assert(amount * per > u64::MAX) by (nonlinear_arith)
            requires
                amount > u64::MAX / per,
                per > 0,
        ;
        return Err(SizeError { kind: SizeFault::TooLarge, detail: String::new() });
    }
    assert(amount * per <= u64::MAX) by (nonlinear_arith)
        requires
            amount <= u64::MAX / per,
            per > 0,
    ;
    Ok(amount * per)
}

// ---------------------------------------------------------------------------
// Settings and estimates
// ---------------------------------------------------------------------------
/// The limits in force. A limit that is `None` does not apply.
#[derive(Debug, Clone, Copy)]
pub struct GuardrailSettings {
    pub max_bytes_scanned: Option<u64>,
    pub max_streams: Option<u64>,
    pub skip_stats_if_streams_below: u64,
    pub skip_stats_if_range_shorter_than: Span,
}

impl GuardrailSettings {
    pub open spec fn wf(self) -> bool {
        self.skip_stats_if_range_shorter_than.wf()
    }

    /// Whether any limit is set.
    pub fn enabled(self) -> (r: bool)
        ensures
            r == (self.max_bytes_scanned is Some || self.max_streams is Some),
    {
        self.max_bytes_scanned.is_some() || self.max_streams.is_some()
    }
}

pub open spec fn or_zero(n: Option<u64>) -> u64 {
    match n {
        Some(v) => v,
        None => 0,
    }
}

/// An estimate that tells neither bytes nor streams says nothing yet.
pub open spec fn silent(estimate: Estimate) -> bool {
    or_zero(estimate.bytes_processed) == 0 && or_zero(estimate.streams) == 0
}

pub fn needs_runtime_stats_fallback(stats: &LokiQueryStats) -> (r: bool)
    ensures
        r == silent(stats.counts()),
{
    let bytes: u64 = match stats.bytes_processed {
        Some(v) => v,
        None => 0,
    };
    let streams: u64 = match stats.streams {
        Some(v) => v,
        None => 0,
    };
    bytes == 0 && streams == 0
}

/// The first count where it is positive, else the second.
pub open spec fn preferred(primary: Option<u64>, fallback: Option<u64>) -> Option<u64> {
    if or_zero(primary) > 0 {
        primary
    } else {
        fallback
    }
}

/// Two estimates merged count by count.
pub open spec fn merged(primary: Estimate, fallback: Estimate) -> Estimate {
    Estimate {
        bytes_processed: preferred(primary.bytes_processed, fallback.bytes_processed),
        streams: preferred(primary.streams, fallback.streams),
        chunks: preferred(primary.chunks, fallback.chunks),
        entries: preferred(primary.entries, fallback.entries),
    }
}

fn prefer(primary: Option<u64>, fallback: Option<u64>) -> (r: Option<u64>)
    ensures
        r == preferred(primary, fallback),
{
    match primary {
        Some(v) => if v > 0 {
            primary
        } else {
            fallback
        },
        None => fallback,
    }
}

pub fn merge_stats(primary: LokiQueryStats, fallback: LokiQueryStats) -> (r: LokiQueryStats)
    ensures
        r.counts() == merged(primary.counts(), fallback.counts()),
        r.raw@ == (if primary.raw@ is Null {
            fallback.raw@
        } else {
            primary.raw@
        }),
{
    let bytes_processed = prefer(primary.bytes_processed, fallback.bytes_processed);
    let streams = prefer(primary.streams, fallback.streams);
    let chunks = prefer(primary.chunks, fallback.chunks);
    let entries = prefer(primary.entries, fallback.entries);
    let raw = if primary.raw.is_null() {
        fallback.raw
    } else {
        primary.raw
    };
    LokiQueryStats { bytes_processed, streams, chunks, entries, raw }
}

// ---------------------------------------------------------------------------
// Verdicts
// ---------------------------------------------------------------------------
/// Why a query was not let through.
#[derive(Debug, Clone, Copy, PartialEq, Eq, Structural)]
pub enum GuardrailError {
    /// The range ends before it starts.
    NegativeRange,
    /// The backend gave no estimate for the range.
    PrecheckFailed { start: Instant, end: Instant },
    MissingStreams,
    MissingBytes,
    TooManyBytes { estimated: u64, limit: u64 },
    TooManyStreams { estimated: u64, limit: u64 },
    /// An answer came that had not been asked for.
    OutOfTurn,
}

/// Why a range was let through.
#[derive(Debug, Clone, Copy, PartialEq, Eq, Structural)]
pub enum Admission {
    /// The range is shorter than the threshold below which none is checked.
    ShortRange,
    /// So many streams, fewer than the threshold below which none is checked.
    FewStreams(u64),
    /// So many bytes and streams, neither above its limit.
    WithinLimits(u64, u64),
}

/// What an estimate means under the settings.
pub open spec fn verdict(settings: GuardrailSettings, estimate: Estimate) -> Result<
    Admission,
    GuardrailError,
> {
    match estimate.streams {
        None => Err(GuardrailError::MissingStreams),
        Some(streams) => if streams < settings.skip_stats_if_streams_below {
            Ok(Admission::FewStreams(streams))
        } else {
            match estimate.bytes_processed {
                None => Err(GuardrailError::MissingBytes),
                Some(bytes) => match decision(
                    bytes,
                    streams,
                    settings.max_bytes_scanned,
                    settings.max_streams,
                ) {
                    GuardrailDecision::Allow => Ok(Admission::WithinLimits(bytes, streams)),
                    GuardrailDecision::RejectBytes => Err(
                        GuardrailError::TooManyBytes {
                            estimated: bytes,
                            limit: or_zero(settings.max_bytes_scanned),
                        },
                    ),
                    GuardrailDecision::RejectStreams => Err(
                        GuardrailError::TooManyStreams {
                            estimated: streams,
                            limit: or_zero(settings.max_streams),
                        },
                    ),
                },
            }
        },
    }
}

pub fn judge(settings: &GuardrailSettings, stats: &LokiQueryStats) -> (r: Result<
    Admission,
    GuardrailError,
>)
    ensures
        r == verdict(*settings, stats.counts()),
{
    let streams = match stats.streams {
        Some(s) => s,
        None => {
            return Err(GuardrailError::MissingStreams);
        },
    };
    if streams < settings.skip_stats_if_streams_below {
        return Ok(Admission::FewStreams(streams));
    }
    let bytes = match stats.bytes_processed {
        Some(b) => b,
        None => {
            return Err(GuardrailError::MissingBytes);
        },
    };
    match evaluate(bytes, streams, settings.max_bytes_scanned, settings.max_streams) {
        GuardrailDecision::Allow => Ok(Admission::WithinLimits(bytes, streams)),
        GuardrailDecision::RejectBytes => {
            let limit: u64 = match settings.max_bytes_scanned {
                Some(v) => v,
                None => 0,
            };
            Err(GuardrailError::TooManyBytes { estimated: bytes, limit })
        },
        GuardrailDecision::RejectStreams => {
            let limit: u64 = match settings.max_streams {
                Some(v) => v,
                None => 0,
            };
            Err(GuardrailError::TooManyStreams { estimated: streams, limit })
        },
    }
}

/// How an instant is written in a message.
pub open spec fn instant_words(at: Instant) -> Seq<char> {
    match display_writing(at.secs, at.nanos) {
        Some(t) => t,
        None => signed_decimal(at.secs as int),
    }
}

/// The message of a refusal. Each names the estimate and the limit where
/// there are any, and says how to make the query cheaper.
pub open spec fn guardrail_message(e: GuardrailError) -> Seq<char> {
    match e {
        GuardrailError::NegativeRange => "time range must not be negative"@,
        GuardrailError::PrecheckFailed { start, end } =>
            "guardrail pre-check failed for query. narrow the query or use a shorter range (start="@
            + instant_words(start) + ", end="@ + instant_words(end) + ")"@,
        GuardrailError::MissingStreams =>
            "guardrail pre-check failed: Loki stats response is missing stream estimates. narrow the query or use a shorter range"@,
        GuardrailError::MissingBytes =>
            "guardrail pre-check failed: Loki stats response is missing byte estimates. narrow the query or use a shorter range"@,
        GuardrailError::TooManyBytes { estimated, limit } =>
            "query rejected by guardrail: estimated bytes scanned ("@ + decimal(estimated as nat)
            + ") exceeds configured limit ("@ + decimal(limit as nat)
            + "). narrow labels or shorten the time range"@,
        GuardrailError::TooManyStreams { estimated, limit } =>
            "query rejected by guardrail: estimated streams ("@ + decimal(estimated as nat)
            + ") exceeds configured limit ("@ + decimal(limit as nat)
            + "). add narrower label selectors or shorten the time range"@,
        GuardrailError::OutOfTurn =>
            "guardrail pre-check failed: the backend answered out of turn. narrow the query or use a shorter range"@,
    }
}

fn push_instant(out: &mut String, at: Instant)
    ensures
        final(out)@ == old(out)@ + instant_words(at),
{
    match display_text(at.secs, at.nanos) {
        Some(t) => push_text(out, t.as_str()),
        None => {
            let t = i64_text(at.secs);
            push_text(out, t.as_str());
        },
    }
}

impl GuardrailError {
    pub fn message(&self) -> (r: String)
        ensures
            r@ == guardrail_message(*self),
    {
        match *self {
            GuardrailError::NegativeRange => "time range must not be negative".to_owned(),
            GuardrailError::PrecheckFailed { start, end } => {
                let mut r =
                    "guardrail pre-check failed for query. narrow the query or use a shorter range (start=".to_owned();
                push_instant(&mut r, start);
                push_text(&mut r, ", end=");
                push_instant(&mut r, end);
                push_text(&mut r, ")");
                r
            },
            GuardrailError::MissingStreams =>
                "guardrail pre-check failed: Loki stats response is missing stream estimates. narrow the query or use a shorter range".to_owned(),
            GuardrailError::MissingBytes =>
                "guardrail pre-check failed: Loki stats response is missing byte estimates. narrow the query or use a shorter range".to_owned(),
            GuardrailError::TooManyBytes { estimated, limit } => {
                let mut r = "query rejected by guardrail: estimated bytes scanned (".to_owned();
                push_decimal(&mut r, estimated);
                push_text(&mut r, ") exceeds configured limit (");
                push_decimal(&mut r, limit);
                push_text(&mut r, "). narrow labels or shorten the time range");
                r
            },
            GuardrailError::TooManyStreams { estimated, limit } => {
                let mut r = "query rejected by guardrail: estimated streams (".to_owned();
                push_decimal(&mut r, estimated);
                push_text(&mut r, ") exceeds configured limit (");
                push_decimal(&mut r, limit);
                push_text(&mut r, "). add narrower label selectors or shorten the time range");
                r
            },
            GuardrailError::OutOfTurn =>
                "guardrail pre-check failed: the backend answered out of turn. narrow the query or use a shorter range".to_owned(),
        }
    }
}

// ---------------------------------------------------------------------------
// The run
// ---------------------------------------------------------------------------
/// One query over one range, to be checked.
#[derive(Debug)]
pub struct GuardrailCheck {
    pub query: String,
    pub start: Instant,
    pub end: Instant,
}

#[derive(Debug, Clone, Copy, PartialEq, Eq, Structural)]
pub enum Stage {
    Idle,
    AwaitingStats,
    AwaitingRuntimeStats,
    Finished,
}

/// What the run wants next. The number is the index of the check that the
/// question is about.
#[derive(Debug, Clone, Copy, PartialEq, Eq, Structural)]
pub enum GuardrailStep {
    /// Ask the backend for the index statistics of the check.
    AskStats(usize),
    /// Ask the backend for the statistics that running the query reports.
    AskRuntimeStats(usize),
    /// Every check was let through.
    Admitted,
    Refused(GuardrailError),
}

/// The checks of one invocation, gone through in order.
pub struct GuardrailRun {
    pub settings: GuardrailSettings,
    pub checks: Vec<GuardrailCheck>,
    pub stage: Stage,
    pub primary: Option<LokiQueryStats>,
    pub admissions: Vec<Admission>,
}

/// The range is in order and shorter than the threshold.
pub open spec fn short_range(settings: GuardrailSettings, start: Instant, end: Instant) -> bool {
    !start.later_than(end) && end.at() - start.at()
        < settings.skip_stats_if_range_shorter_than.total()
}

/// The admission is true of the range under the settings.
pub open spec fn justified(
    settings: GuardrailSettings,
    start: Instant,
    end: Instant,
    admission: Admission,
) -> bool {
    match admission {
        Admission::ShortRange => short_range(settings, start, end),
        Admission::FewStreams(streams) => streams < settings.skip_stats_if_streams_below,
        Admission::WithinLimits(bytes, streams) => !exceeds(bytes, settings.max_bytes_scanned)
            && !exceeds(streams, settings.max_streams),
    }
}

/// The ranges of a list of checks.
pub open spec fn ranges_of(checks: Seq<GuardrailCheck>) -> Seq<(Instant, Instant)> {
    Seq::new(checks.len(), |i: int| (checks[i].start, checks[i].end))
}

/// Where going through the ranges leads once `admissions.len()` of them
/// are through: past every short range, to the first that needs an
/// estimate, to one that is out of order, or to the end.
pub open spec fn settle(
    settings: GuardrailSettings,
    ranges: Seq<(Instant, Instant)>,
    admissions: Seq<Admission>,
) -> (Seq<Admission>, GuardrailStep)
    decreases ranges.len() - admissions.len(),
{
    let cursor = admissions.len() as int;
    if cursor >= ranges.len() {
        (admissions, GuardrailStep::Admitted)
    } else {
        let (start, end) = ranges[cursor];
        if start.later_than(end) {
            (admissions, GuardrailStep::Refused(GuardrailError::NegativeRange))
        } else if short_range(settings, start, end) {
            settle(settings, ranges, admissions.push(Admission::ShortRange))
        } else {
            (admissions, GuardrailStep::AskStats(cursor as usize))
        }
    }
}

/// Where an estimate for the range in turn leads.
pub open spec fn judged(
    settings: GuardrailSettings,
    ranges: Seq<(Instant, Instant)>,
    admissions: Seq<Admission>,
    estimate: Estimate,
) -> (Seq<Admission>, GuardrailStep) {
    match verdict(settings, estimate) {
        Ok(admission) => settle(settings, ranges, admissions.push(admission)),
        Err(e) => (admissions, GuardrailStep::Refused(e)),
    }
}

/// The stage in which a step leaves the run.
pub open spec fn stage_after(step: GuardrailStep) -> Stage {
    match step {
        GuardrailStep::AskStats(_) => Stage::AwaitingStats,
        GuardrailStep::AskRuntimeStats(_) => Stage::AwaitingRuntimeStats,
        GuardrailStep::Admitted => Stage::Finished,
        GuardrailStep::Refused(_) => Stage::Finished,
    }
}

impl GuardrailRun {
    pub open spec fn ranges(&self) -> Seq<(Instant, Instant)> {
        ranges_of(self.checks@)
    }

    /// Where beginning leads.
    pub open spec fn first_step(&self) -> (Seq<Admission>, GuardrailStep) {
        if self.stage == Stage::Idle {
            settle(self.settings, self.ranges(), self.admissions@)
        } else {
            (self.admissions@, GuardrailStep::Refused(GuardrailError::OutOfTurn))
        }
    }

    /// Where the answer to `AskStats` leads: `None` stands for a backend
    /// that gave no estimate.
    pub open spec fn stats_step(&self, answer: Option<Estimate>) -> (
        Seq<Admission>,
        GuardrailStep,
    ) {
        let cursor = self.admissions@.len() as int;
        if self.stage != Stage::AwaitingStats {
            (self.admissions@, GuardrailStep::Refused(GuardrailError::OutOfTurn))
        } else {
            match answer {
                None => (
                    self.admissions@,
                    GuardrailStep::Refused(
                        GuardrailError::PrecheckFailed {
                            start: self.checks@[cursor].start,
                            end: self.checks@[cursor].end,
                        },
                    ),
                ),
                Some(counts) => if silent(counts) {
                    (self.admissions@, GuardrailStep::AskRuntimeStats(cursor as usize))
                } else {
                    judged(self.settings, self.ranges(), self.admissions@, counts)
                },
            }
        }
    }

    /// Where the answer to `AskRuntimeStats` leads.
    pub open spec fn runtime_step(&self, answer: Option<Estimate>) -> (
        Seq<Admission>,
        GuardrailStep,
    ) {
        let cursor = self.admissions@.len() as int;
        if self.stage != Stage::AwaitingRuntimeStats {
            (self.admissions@, GuardrailStep::Refused(GuardrailError::OutOfTurn))
        } else {
            match answer {
                None => (
                    self.admissions@,
                    GuardrailStep::Refused(
                        GuardrailError::PrecheckFailed {
                            start: self.checks@[cursor].start,
                            end: self.checks@[cursor].end,
                        },
                    ),
                ),
                Some(counts) => judged(
                    self.settings,
                    self.ranges(),
                    self.admissions@,
                    merged(self.primary->0.counts(), counts),
                ),
            }
        }
    }

    pub open spec fn wf(&self) -> bool {
        &&& self.settings.wf()
        &&& self.admissions@.len() <= self.checks@.len()
        &&& forall|i: int|
            0 <= i < self.checks@.len() ==> (#[trigger] self.checks@[i]).start.wf()
                && self.checks@[i].end.wf()
        &&& forall|i: int|
            0 <= i < self.admissions@.len() ==> justified(
                self.settings,
                self.checks@[i].start,
                self.checks@[i].end,
                #[trigger] self.admissions@[i],
            )
        &&& (self.stage == Stage::AwaitingStats || self.stage == Stage::AwaitingRuntimeStats)
            ==> self.admissions@.len() < self.checks@.len()
        &&& self.stage == Stage::AwaitingRuntimeStats ==> self.primary is Some
    }

    /// Every check has been let through.
    pub open spec fn cleared(&self) -> bool {
        self.admissions@.len() == self.checks@.len()
    }

    /// A run over `checks` that has not begun.
    pub fn new(settings: GuardrailSettings, checks: Vec<GuardrailCheck>) -> (r: GuardrailRun)
        requires
            settings.wf(),
            forall|i: int|
                0 <= i < checks@.len() ==> (#[trigger] checks@[i]).start.wf()
                    && checks@[i].end.wf(),
        ensures
            r.wf(),
            r.settings == settings,
            r.checks == checks,
            r.stage == Stage::Idle,
            r.admissions@.len() == 0,
    {
        GuardrailRun {
            settings,
            checks,
            stage: Stage::Idle,
            primary: None,
            admissions: Vec::new(),
        }
    }

    /// The check with that index.
    pub fn check(&self, index: usize) -> (r: Option<&GuardrailCheck>)
        ensures
            r is Some == (index < self.checks@.len()),
            r is Some ==> *r->0 == self.checks@[index as int],
    {
        if index < self.checks.len() {
            Some(&self.checks[index])
        } else {
            None
        }
    }

    fn proceed(&mut self) -> (step: GuardrailStep)
        requires
            old(self).wf(),
        ensures
            final(self).wf(),
            final(self).settings == old(self).settings,
            final(self).checks == old(self).checks,
            (final(self).admissions@, step) == settle(
                old(self).settings,
                old(self).ranges(),
                old(self).admissions@,
            ),
            final(self).stage == stage_after(step),
            step is Admitted ==> final(self).cleared(),
            step is AskStats ==> step->AskStats_0 == final(self).admissions@.len()
                && step->AskStats_0 < final(self).checks@.len(),
            !(step is AskRuntimeStats),
    {
        let ghost ranges = self.ranges();
        loop
            invariant
                self.wf(),
                self.settings == old(self).settings,
                self.checks == old(self).checks,
                ranges == old(self).ranges(),
                settle(self.settings, ranges, self.admissions@) == settle(
                    old(self).settings,
                    ranges,
                    old(self).admissions@,
                ),
            decreases self.checks@.len() - self.admissions@.len(),
        {
            let cursor = self.admissions.len();
            if cursor >= self.checks.len() {
                self.stage = Stage::Finished;
                return GuardrailStep::Admitted;
            }
            let start = self.checks[cursor].start;
            let end = self.checks[cursor].end;
            assert(ranges[cursor as int] == (start, end));
            let elapsed = match end.since(&start) {
                Some(span) => span,
                None => {
                    self.stage = Stage::Finished;
                    return GuardrailStep::Refused(GuardrailError::NegativeRange);
                },
            };
            if elapsed.shorter_than(&self.settings.skip_stats_if_range_shorter_than) {
                self.admissions.push(Admission::ShortRange);
                self.stage = Stage::Idle;
            } else {
                self.stage = Stage::AwaitingStats;
                return GuardrailStep::AskStats(cursor);
            }
        }
    }

    /// Begins the run.
    pub fn start(&mut self) -> (step: GuardrailStep)
        requires
            old(self).wf(),
        ensures
            final(self).wf(),
            final(self).settings == old(self).settings,
            final(self).checks == old(self).checks,
            old(self).stage == Stage::Idle ==> (final(self).admissions@, step) == settle(
                old(self).settings,
                old(self).ranges(),
                old(self).admissions@,
            ),
            old(self).stage != Stage::Idle ==> step == GuardrailStep::Refused(
                GuardrailError::OutOfTurn,
            ) && final(self).admissions@ == old(self).admissions@,
            final(self).stage == stage_after(step),
            step is Admitted ==> final(self).cleared(),
            (final(self).admissions@, step) == old(self).first_step(),
            step is AskStats ==> step->AskStats_0 < final(self).checks@.len(),
            !(step is AskRuntimeStats),
    {
        match self.stage {
            Stage::Idle => self.proceed(),
            _ => {
                self.stage = Stage::Finished;
                GuardrailStep::Refused(GuardrailError::OutOfTurn)
            },
        }
    }

    fn conclude(&mut self, stats: &LokiQueryStats) -> (step: GuardrailStep)
        requires
            old(self).wf(),
            old(self).admissions@.len() < old(self).checks@.len(),
        ensures
            final(self).wf(),
            final(self).settings == old(self).settings,
            final(self).checks == old(self).checks,
            (final(self).admissions@, step) == judged(
                old(self).settings,
                old(self).ranges(),
                old(self).admissions@,
                stats.counts(),
            ),
            final(self).stage == stage_after(step),
            step is Admitted ==> final(self).cleared(),
            step is AskStats ==> step->AskStats_0 < final(self).checks@.len(),
            !(step is AskRuntimeStats),
    {
        match judge(&self.settings, stats) {
            Ok(admission) => {
                self.admissions.push(admission);
                self.stage = Stage::Idle;
                self.primary = None;
                self.proceed()
            },
            Err(e) => {
                self.stage = Stage::Finished;
                GuardrailStep::Refused(e)
            },
        }
    }

    /// Takes the backend's answer to `AskStats`: an estimate, or nothing
    /// where the backend failed.
    pub fn on_stats(&mut self, answer: Option<LokiQueryStats>) -> (step: GuardrailStep)
        requires
            old(self).wf(),
        ensures
            final(self).wf(),
            (final(self).admissions@, step) == old(self).stats_step(
                match answer {
                    Some(stats) => Some(stats.counts()),
                    None => None,
                },
            ),
            step is AskStats ==> step->AskStats_0 < final(self).checks@.len(),
            step is AskRuntimeStats ==> step->AskRuntimeStats_0 < final(self).checks@.len(),
            step is AskRuntimeStats ==> answer is Some && final(self).primary == answer,
            final(self).settings == old(self).settings,
            final(self).checks == old(self).checks,
            final(self).stage == stage_after(step),
            step is Admitted ==> final(self).cleared(),
            old(self).stage != Stage::AwaitingStats ==> step == GuardrailStep::Refused(
                GuardrailError::OutOfTurn,
            ) && final(self).admissions@ == old(self).admissions@,
            old(self).stage == Stage::AwaitingStats ==> ({
                let cursor = old(self).admissions@.len() as int;
                match answer {
                    None => step == GuardrailStep::Refused(
                        GuardrailError::PrecheckFailed {
                            start: old(self).checks@[cursor].start,
                            end: old(self).checks@[cursor].end,
                        },
                    ) && final(self).admissions@ == old(self).admissions@,
                    Some(stats) => if silent(stats.counts()) {
                        step == GuardrailStep::AskRuntimeStats(cursor as usize)
                            && final(self).admissions@ == old(self).admissions@
                            && final(self).primary == Some(
                            stats,
                        )
                    } else {
                        (final(self).admissions@, step) == judged(
                            old(self).settings,
                            old(self).ranges(),
                            old(self).admissions@,
                            stats.counts(),
                        )
                    },
                }
            }),
    {
        match self.stage {
            Stage::AwaitingStats => {},
            _ => {
                self.stage = Stage::Finished;
                return GuardrailStep::Refused(GuardrailError::OutOfTurn);
            },
        }
        let cursor = self.admissions.len();
        match answer {
            None => {
                self.stage = Stage::Finished;
                GuardrailStep::Refused(
                    GuardrailError::PrecheckFailed {
                        start: self.checks[cursor].start,
                        end: self.checks[cursor].end,
                    },
                )
            },
            Some(stats) => {
                if needs_runtime_stats_fallback(&stats) {
                    self.primary = Some(stats);
                    self.stage = Stage::AwaitingRuntimeStats;
                    GuardrailStep::AskRuntimeStats(cursor)
                } else {
                    self.conclude(&stats)
                }
            },
        }
    }

    /// Takes the backend's answer to `AskRuntimeStats`, which is merged
    /// into the estimate that was silent.
    pub fn on_runtime_stats(&mut self, answer: Option<LokiQueryStats>) -> (step: GuardrailStep)
        requires
            old(self).wf(),
        ensures
            final(self).wf(),
            (final(self).admissions@, step) == old(self).runtime_step(
                match answer {
                    Some(stats) => Some(stats.counts()),
                    None => None,
                },
            ),
            step is AskStats ==> step->AskStats_0 < final(self).checks@.len(),
            !(step is AskRuntimeStats),
            final(self).settings == old(self).settings,
            final(self).checks == old(self).checks,
            final(self).stage == stage_after(step),
            step is Admitted ==> final(self).cleared(),
            old(self).stage != Stage::AwaitingRuntimeStats ==> step == GuardrailStep::Refused(
                GuardrailError::OutOfTurn,
            ) && final(self).admissions@ == old(self).admissions@,
            old(self).stage == Stage::AwaitingRuntimeStats ==> ({
                let cursor = old(self).admissions@.len() as int;
                match answer {
                    None => step == GuardrailStep::Refused(
                        GuardrailError::PrecheckFailed {
                            start: old(self).checks@[cursor].start,
                            end: old(self).checks@[cursor].end,
                        },
                    ) && final(self).admissions@ == old(self).admissions@,
                    Some(stats) => (final(self).admissions@, step) == judged(
                        old(self).settings,
                        old(self).ranges(),
                        old(self).admissions@,
                        merged(old(self).primary->0.counts(), stats.counts()),
                    ),
                }
            }),
    {
        match self.stage {
            Stage::AwaitingRuntimeStats => {},
            _ => {
                self.stage = Stage::Finished;
                return GuardrailStep::Refused(GuardrailError::OutOfTurn);
            },
        }
        let cursor = self.admissions.len();
        let primary = self.primary.take();
        self.stage = Stage::Idle;
        match (answer, primary) {
            (Some(stats), Some(first)) => {
                let all = merge_stats(first, stats);
                self.conclude(&all)
            },
            _ => {
                self.stage = Stage::Finished;
                GuardrailStep::Refused(
                    GuardrailError::PrecheckFailed {
                        start: self.checks[cursor].start,
                        end: self.checks[cursor].end,
                    },
                )
            },
        }
    }
}

/// Whoever is let through is within policy: once a run has cleared, every
/// range it went through was shorter than the threshold, or had fewer
/// streams than the threshold, or had bytes and streams within each limit
/// that is set.
pub proof fn cleared_run_is_within_policy(run: GuardrailRun, i: int)
    requires
        run.wf(),
        run.cleared(),
        0 <= i < run.checks@.len(),
    ensures
        match run.admissions@[i] {
            Admission::ShortRange => short_range(
                run.settings,
                run.checks@[i].start,
                run.checks@[i].end,
            ),
            Admission::FewStreams(streams) => streams < run.settings.skip_stats_if_streams_below,
            Admission::WithinLimits(bytes, streams) => !exceeds(
                bytes,
                run.settings.max_bytes_scanned,
            ) && !exceeds(streams, run.settings.max_streams),
        },
{
    let admission = run.admissions@[i];
    assert(justified(run.settings, run.checks@[i].start, run.checks@[i].end, admission));
}

} // verus!
