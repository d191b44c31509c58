//! Durations, instants and time references.
//!
//! An instant is a count of seconds and nanoseconds since the Unix epoch. The
//! calendar, the time zones and the RFC 3339 grammar come from `chrono` and
//! `chrono-tz`; what they answer is named here and the rules around it are
//! stated over those names.

use vstd::prelude::*;
use chrono::TimeZone;
use crate::text::{
    all_digits, chars_end_with, chars_of, copy_chars, digit_run, digit_run_facts, digits_value,
    find_char, has_prefix, has_suffix, index_of, join2, leading_digits, lower_chars, lowered,
    matches_at, read_unsigned, remove_char, same_chars, squeeze, squeezed, string_of, trim_chars,
    trimmed, unsigned_reading, without_char,
};

verus! {

pub const NANOS_PER_SECOND: u32 = 1_000_000_000;

pub const SECONDS_PER_DAY: i64 = 86_400;

/// Seconds of the look-back used where a range has no start: 30 minutes.
pub const DEFAULT_LOOKBACK_SECONDS: u64 = 1_800;

/// The calendar is asked only about instants within this many seconds of
/// the epoch (some 250 000 years either way).
pub const CALENDAR_REACH: i64 = 8_000_000_000_000;

// ---------------------------------------------------------------------------
// Span
// ---------------------------------------------------------------------------
/// A non-negative length of time.
#[derive(Debug, Clone, Copy, PartialEq, Eq, Structural)]
pub struct Span {
    pub secs: u64,
    pub nanos: u32,
}

impl Span {
    pub open spec fn wf(self) -> bool {
        self.nanos < NANOS_PER_SECOND
    }

    /// The length in nanoseconds.
    pub open spec fn total(self) -> int {
        self.secs * 1_000_000_000 + self.nanos
    }

    pub fn from_secs(secs: u64) -> (r: Span)
        ensures
            r == (Span { secs, nanos: 0 }),
            r.wf(),
    {
        Span { secs, nanos: 0 }
    }

    pub fn from_millis(millis: u64) -> (r: Span)
        ensures
            r.wf(),
            r.total() == millis * 1_000_000,
            r == (Span { secs: millis / 1000, nanos: ((millis % 1000) * 1_000_000) as u32 }),
    {
        Span { secs: millis / 1000, nanos: ((millis % 1000) * 1_000_000) as u32 }
    }

    /// `self < other`.
    pub fn shorter_than(&self, other: &Span) -> (r: bool)
        requires
            self.wf(),
            other.wf(),
        ensures
            r == (self.total() < other.total()),
    {
        self.secs < other.secs || (self.secs == other.secs && self.nanos < other.nanos)
    }
}

// ---------------------------------------------------------------------------
// Instant
// ---------------------------------------------------------------------------
/// A point in time: seconds since 1970-01-01T00:00:00Z and the nanoseconds
/// into that second.
#[derive(Debug, Clone, Copy, PartialEq, Eq, Structural)]
pub struct Instant {
    pub secs: i64,
    pub nanos: u32,
}

/// The instant that lies `t` nanoseconds after the epoch.
pub open spec fn instant_at(t: int) -> Instant {
    Instant { secs: (t / 1_000_000_000) as i64, nanos: (t % 1_000_000_000) as u32 }
}

impl Instant {
    pub open spec fn wf(self) -> bool {
        self.nanos < NANOS_PER_SECOND
    }

    /// Nanoseconds since the epoch.
    pub open spec fn at(self) -> int {
        self.secs * 1_000_000_000 + self.nanos
    }

    /// `self` comes strictly after `other`.
    pub open spec fn later_than(self, other: Instant) -> bool {
        self.secs > other.secs || (self.secs == other.secs && self.nanos > other.nanos)
    }

    /// `self` moved back by `span`, where that is still an instant.
    pub open spec fn back(self, span: Span) -> Option<Instant> {
        if self.at() - span.total() >= i64::MIN * 1_000_000_000 {
            Some(instant_at(self.at() - span.total()))
        } else {
            None
        }
    }

    /// The time from `start` to `self`, where `start` is no later.
    pub open spec fn elapsed(self, start: Instant) -> Option<Span> {
        if start.later_than(self) {
            None
        } else {
            let d = self.at() - start.at();
            Some(Span { secs: (d / 1_000_000_000) as u64, nanos: (d % 1_000_000_000) as u32 })
        }
    }

    pub fn new(secs: i64, nanos: u32) -> (r: Instant)
        requires
            nanos < NANOS_PER_SECOND,
        ensures
            r == (Instant { secs, nanos }),
            r.wf(),
    {
        Instant { secs, nanos }
    }

    pub fn after(&self, other: &Instant) -> (r: bool)
        ensures
            r == self.later_than(*other),
    {
        self.secs > other.secs || (self.secs == other.secs && self.nanos > other.nanos)
    }

    pub fn minus(&self, span: &Span) -> (r: Option<Instant>)
        requires
            self.wf(),
            span.wf(),
        ensures
            r == self.back(*span),
            r is Some ==> r->0.wf() && r->0.at() == self.at() - span.total() && !r->0.later_than(
                *self,
            ),
    {
        let borrow: i128 = if self.nanos < span.nanos {
            1
        } else {
            0
        };
        let nanos: u32 = if self.nanos < span.nanos {
            self.nanos + NANOS_PER_SECOND - span.nanos
        } else {
            self.nanos - span.nanos
        };
        let secs: i128 = self.secs as i128 - span.secs as i128 - borrow;
        assert(self.at() - span.total() == secs * 1_000_000_000 + nanos);
        if secs < -0x8000_0000_0000_0000 {
            None
        } else {
            Some(Instant { secs: secs as i64, nanos })
        }
    }

    pub fn since(&self, start: &Instant) -> (r: Option<Span>)
        requires
            self.wf(),
            start.wf(),
        ensures
            r == self.elapsed(*start),
            r is Some ==> r->0.wf() && r->0.total() == self.at() - start.at(),
    {
        if start.after(self) {
            return None;
        }
        let borrow: i128 = if self.nanos < start.nanos {
            1
        } else {
            0
        };
        let nanos: u32 = if self.nanos < start.nanos {
            self.nanos + NANOS_PER_SECOND - start.nanos
        } else {
            self.nanos - start.nanos
        };
        let secs: i128 = self.secs as i128 - start.secs as i128 - borrow;
        assert(self.at() - start.at() == secs * 1_000_000_000 + nanos);
        Some(Span { secs: secs as u64, nanos })
    }
}

// ---------------------------------------------------------------------------
// Errors
// ---------------------------------------------------------------------------
#[derive(Debug, Clone, Copy, PartialEq, Eq, Structural)]
pub enum TimeFault {
    EmptyDuration,
    MissingUnit,
    MissingValueOrUnit,
    InvalidValue,
    NotPositive,
    TooLarge,
    UnsupportedUnit,
    EmptyReference,
    UnsupportedTimeOfDay,
    NonexistentLocalTime,
    OutOfRange,
    Inverted,
}

/// Why a text was not taken: the kind, and the piece of text it is about.
#[derive(Debug)]
pub struct TimeError {
    pub kind: TimeFault,
    pub detail: String,
}

pub type Failure = (TimeFault, Seq<char>);

pub open spec fn fail(kind: TimeFault) -> Failure {
    (kind, Seq::empty())
}

impl View for TimeError {
    type V = Failure;

    open spec fn view(&self) -> Failure {
        (self.kind, self.detail@)
    }
}

/// The words with which the message of a failure begins.
pub open spec fn fault_words(kind: TimeFault) -> Seq<char> {
    match kind {
        TimeFault::EmptyDuration => "duration must not be empty"@,
        TimeFault::MissingUnit => "duration must include a unit suffix"@,
        TimeFault::MissingValueOrUnit => "duration must include a numeric value and a unit suffix"@,
        TimeFault::InvalidValue => "invalid duration value: "@,
        TimeFault::NotPositive => "duration must be greater than zero"@,
        TimeFault::TooLarge => "duration is too large"@,
        TimeFault::UnsupportedUnit => "unsupported duration unit: "@,
        TimeFault::EmptyReference => "time reference must not be empty"@,
        TimeFault::UnsupportedTimeOfDay => "unsupported time-of-day format: "@,
        TimeFault::NonexistentLocalTime => "time does not exist in timezone due to DST transition"@,
        TimeFault::OutOfRange => "time is out of range"@,
        TimeFault::Inverted => "start time must be less than or equal to end time"@,
    }
}

impl TimeError {
    pub fn of(kind: TimeFault) -> (r: TimeError)
        ensures
            r@ == fail(kind),
    {
        TimeError { kind, detail: String::new() }
    }

    pub fn about(kind: TimeFault, detail: String) -> (r: TimeError)
        ensures
            r@ == (kind, detail@),
    {
        TimeError { kind, detail }
    }

    /// The message of the failure: its words, then the text it is about.
    pub fn message(&self) -> (r: String)
        ensures
            r@ == fault_words(self.kind) + self.detail@,
    {
        let words: &str = match self.kind {
            TimeFault::EmptyDuration => "duration must not be empty",
            TimeFault::MissingUnit => "duration must include a unit suffix",
            TimeFault::MissingValueOrUnit => "duration must include a numeric value and a unit suffix",
            TimeFault::InvalidValue => "invalid duration value: ",
            TimeFault::NotPositive => "duration must be greater than zero",
            TimeFault::TooLarge => "duration is too large",
            TimeFault::UnsupportedUnit => "unsupported duration unit: ",
            TimeFault::EmptyReference => "time reference must not be empty",
            TimeFault::UnsupportedTimeOfDay => "unsupported time-of-day format: ",
            TimeFault::NonexistentLocalTime => "time does not exist in timezone due to DST transition",
            TimeFault::OutOfRange => "time is out of range",
            TimeFault::Inverted => "start time must be less than or equal to end time",
        };
        join2(words, self.detail.as_str())
    }
}

// ---------------------------------------------------------------------------
// Durations in text
// ---------------------------------------------------------------------------
/// A duration text taken apart: the digits it begins with and the unit that
/// follows, ASCII whitespace removed.
pub open spec fn split_parts(input: Seq<char>) -> Result<(Seq<char>, Seq<char>), Failure> {
    let compact = squeezed(input);
    let n = digit_run(compact);
    if compact.len() == 0 {
        Err(fail(TimeFault::EmptyDuration))
    } else if n == compact.len() {
        Err(fail(TimeFault::MissingUnit))
    } else if n == 0 {
        Err(fail(TimeFault::MissingValueOrUnit))
    } else {
        Ok((compact.take(n), compact.skip(n)))
    }
}

pub fn split_value_and_unit(input: &str) -> (r: Result<(String, String), TimeError>)
    ensures
        match r {
            Ok((value, unit)) => split_parts(input@) == Ok::<_, Failure>((value@, unit@)),
            Err(e) => split_parts(input@) == Err::<(Seq<char>, Seq<char>), _>(e@),
        },
        r is Ok ==> all_digits(r->Ok_0.0@) && r->Ok_0.0@.len() > 0,
{
    let compact = squeeze(input);
    if compact.len() == 0 {
        return Err(TimeError::of(TimeFault::EmptyDuration));
    }
    let n = leading_digits(&compact);
    if n == compact.len() {
        return Err(TimeError::of(TimeFault::MissingUnit));
    }
    if n == 0 {
        return Err(TimeError::of(TimeFault::MissingValueOrUnit));
    }
    let value = copy_chars(&compact, 0, n);
    let unit = copy_chars(&compact, n, compact.len());
    proof {
        digit_run_facts(compact@);
        assert(compact@.subrange(0, n as int) == compact@.take(n as int));
        assert(compact@.subrange(n as int, compact@.len() as int) == compact@.skip(n as int));
    }
    Ok((string_of(&value), string_of(&unit)))
}

/// Seconds in one of the units `s`, `m`, `h`, `d`.
pub open spec fn unit_seconds(unit: Seq<char>) -> Option<nat> {
    if unit == "s"@ {
        Some(1)
    } else if unit == "m"@ {
        Some(60)
    } else if unit == "h"@ {
        Some(3_600)
    } else if unit == "d"@ {
        Some(86_400)
    } else {
        None
    }
}

/// The span that `amount` of `unit` makes, where it is no longer than
/// `limit` seconds.
pub open spec fn span_of(amount: nat, unit: Seq<char>, limit: nat) -> Result<Span, Failure> {
    if unit == "ms"@ {
        Ok(Span { secs: (amount / 1000) as u64, nanos: ((amount % 1000) * 1_000_000) as u32 })
    } else {
        match unit_seconds(unit) {
            Some(k) => if amount * k <= limit {
                Ok(Span { secs: (amount * k) as u64, nanos: 0 })
            } else {
                Err(fail(TimeFault::TooLarge))
            },
            None => Err((TimeFault::UnsupportedUnit, unit)),
        }
    }
}

/// What a duration text of the configuration means: digits and a unit out
/// of `ms`, `s`, `m`, `h`, `d`, in either case. Zero needs no known unit.
pub open spec fn std_duration(input: Seq<char>) -> Result<Span, Failure> {
    match split_parts(input) {
        Err(e) => Err(e),
        Ok((value, unit)) => {
            let amount = digits_value(value);
            if amount > u64::MAX {
                Err((TimeFault::InvalidValue, value))
            } else if amount == 0 {
                Ok(Span { secs: 0, nanos: 0 })
            } else {
                span_of(amount, lowered(unit), u64::MAX as nat)
            }
        },
    }
}

/// Largest number of whole seconds that a relative duration may have.
pub const RELATIVE_LIMIT_SECONDS: u64 = 9_223_372_036_854_775;

/// What a relative duration means: as [`std_duration`], but the amount must
/// be positive and fit a signed 64-bit count, of milliseconds in the end.
pub open spec fn relative_duration(input: Seq<char>) -> Result<Span, Failure> {
    match split_parts(input) {
        Err(e) => Err(e),
        Ok((value, unit)) => {
            let amount = digits_value(value);
            if amount > i64::MAX {
                Err((TimeFault::InvalidValue, value))
            } else if amount == 0 {
                Err(fail(TimeFault::NotPositive))
            } else {
                span_of(amount, lowered(unit), RELATIVE_LIMIT_SECONDS as nat)
            }
        },
    }
}

fn span_from(amount: u64, unit: &Vec<char>, limit: u64) -> (r: Result<Span, TimeError>)
    ensures
        match r {
            Ok(span) => span_of(amount as nat, unit@, limit as nat) == Ok::<_, Failure>(span),
            Err(e) => span_of(amount as nat, unit@, limit as nat) == Err::<Span, _>(e@),
        },
        r is Ok ==> r->Ok_0.wf(),
{
    let ms = chars_of("ms");
    let s = chars_of("s");
    let m = chars_of("m");
    let h = chars_of("h");
    let d = chars_of("d");
    if same_chars(unit, &ms) {
        return Ok(Span::from_millis(amount));
    }
    let per: u64 = if same_chars(unit, &s) {
        1
    } else if same_chars(unit, &m) {
        60
    } else if same_chars(unit, &h) {
        3_600
    } else if same_chars(unit, &d) {
        86_400
    } else {
        return Err(TimeError::about(TimeFault::UnsupportedUnit, string_of(unit)));
    };
    assert(unit_seconds(unit@) == Some(per as nat));
    if amount > limit / per {
        assert(amount * per > limit) by (nonlinear_arith)
            requires
                amount > limit / per,
                per > 0,
        ;
        return Err(TimeError::of(TimeFault::TooLarge));
    }
    assert(amount * per <= limit) by (nonlinear_arith)
        requires
            amount <= limit / per,
            per > 0,
    ;
    Ok(Span::from_secs(amount * per))
}

pub fn parse_std_duration(input: &str) -> (r: Result<Span, TimeError>)
    ensures
        match r {
            Ok(span) => std_duration(input@) == Ok::<_, Failure>(span),
            Err(e) => std_duration(input@) == Err::<Span, _>(e@),
        },
        r is Ok ==> r->Ok_0.wf(),
{
    let (value, unit) = match split_value_and_unit(input) {
        Ok(parts) => parts,
        Err(e) => {
            return Err(e);
        },
    };
    let digits = chars_of(value.as_str());
    let amount: u64 = match read_unsigned(&digits, u64::MAX) {
        Some(n) => n,
        None => {
            return Err(TimeError::about(TimeFault::InvalidValue, value));
        },
    };
    if amount == 0 {
        return Ok(Span::from_secs(0));
    }
    let unit_chars = chars_of(unit.as_str());
    let lower = lower_chars(&unit_chars);
    span_from(amount, &lower, u64::MAX)
}

pub fn parse_relative_duration(input: &str) -> (r: Result<Span, TimeError>)
    ensures
        match r {
            Ok(span) => relative_duration(input@) == Ok::<_, Failure>(span),
            Err(e) => relative_duration(input@) == Err::<Span, _>(e@),
        },
        r is Ok ==> r->Ok_0.wf(),
{
    let (value, unit) = match split_value_and_unit(input) {
        Ok(parts) => parts,
        Err(e) => {
            return Err(e);
        },
    };
    let digits = chars_of(value.as_str());
    let amount: u64 = match read_unsigned(&digits, 0x7FFF_FFFF_FFFF_FFFF) {
        Some(n) => n,
        None => {
            return Err(TimeError::about(TimeFault::InvalidValue, value));
        },
    };
    if amount == 0 {
        return Err(TimeError::of(TimeFault::NotPositive));
    }
    let unit_chars = chars_of(unit.as_str());
    let lower = lower_chars(&unit_chars);
    span_from(amount, &lower, RELATIVE_LIMIT_SECONDS)
}

// ---------------------------------------------------------------------------
// The calendar
// ---------------------------------------------------------------------------
#[verifier::external_type_specification]
#[verifier::external_body]
pub struct ExTz(chrono_tz::Tz);

/// A time zone of the IANA database.
#[derive(Clone, Copy)]
pub struct Zone {
    pub tz: chrono_tz::Tz,
}

/// A local date and time looked up in a zone.
#[derive(Debug, Clone, Copy, PartialEq, Eq, Structural)]
pub enum LocalMoment {
    /// One instant has this local time; its Unix seconds.
    Single(i64),
    /// Two instants have it; the earlier first.
    Ambiguous(i64, i64),
    /// No instant has it.
    Missing,
    /// The calendar cannot hold this local time.
    Unrepresentable,
}

/// The zone that `chrono-tz` knows under `name`.
pub uninterp spec fn known_zone(name: Seq<char>) -> Option<chrono_tz::Tz>;

/// The instant that `chrono` reads from an RFC 3339 text: Unix seconds and
/// the nanoseconds into the second, which pass 10^9 within a leap second.
pub uninterp spec fn rfc3339_reading(text: Seq<char>) -> Option<(i64, u32)>;

/// The seconds from midnight that `chrono` reads from a text of the form
/// `%H:%M`.
pub uninterp spec fn clock_reading(text: Seq<char>) -> Option<u32>;

/// The local date and time in `zone` at an instant, as the seconds that the
/// same date and time would have in UTC.
pub uninterp spec fn wall_clock(zone: chrono_tz::Tz, secs: i64, nanos: u32) -> i64;

/// What `zone` makes of a local date and time given as in [`wall_clock`].
pub uninterp spec fn local_reading(zone: chrono_tz::Tz, wall: i64) -> LocalMoment;

/// The RFC 3339 text of an instant in UTC with the offset `+00:00`.
pub uninterp spec fn rfc3339_writing(secs: i64, nanos: u32) -> Option<Seq<char>>;

/// The RFC 3339 text of an instant in UTC with the offset `Z`.
pub uninterp spec fn zulu_writing(secs: i64, nanos: u32) -> Option<Seq<char>>;

/// `Tz::from_str` of `chrono-tz`: the zone of that name, `None` where the
/// database has none.
#[verifier::external_body]
fn zone_by_name(name: &str) -> (r: Option<chrono_tz::Tz>)
    ensures
        r == known_zone(name@),
{
    name.parse::<chrono_tz::Tz>().ok()
}

/// `DateTime::parse_from_rfc3339` of `chrono`, the result as Unix seconds
/// (`timestamp`) and nanoseconds (`timestamp_subsec_nanos`). `chrono` keeps
/// the nanoseconds below 2·10^9. It reads no text but one that begins with
/// the four digits of a year and a `-` behind them.
#[verifier::external_body]
pub(crate) fn rfc3339_parts(text: &str) -> (r: Option<(i64, u32)>)
    ensures
        r == rfc3339_reading(text@),
        r is Some ==> text@.len() > 4 && text@[4] == '-',
        match r {
            Some((_, nanos)) => nanos < 2_000_000_000,
            None => true,
        },
{
    let parsed = chrono::DateTime::parse_from_rfc3339(text).ok()?;
    Some((parsed.timestamp(), parsed.timestamp_subsec_nanos()))
}

/// `NaiveTime::parse_from_str` of `chrono` with the format `%H:%M`, the
/// result as `num_seconds_from_midnight`, which is below 86 400.
#[verifier::external_body]
fn clock_seconds(text: &str) -> (r: Option<u32>)
    ensures
        r == clock_reading(text@),
        r is Some ==> r->0 < 86_400,
{
    let parsed = chrono::NaiveTime::parse_from_str(text, "%H:%M").ok()?;
    Some(chrono::Timelike::num_seconds_from_midnight(&parsed))
}

/// `DateTime::with_timezone` and `naive_local` of `chrono`: the local date
/// and time in `zone` at the instant, read back as UTC seconds. The instant
/// is kept within the calendar's reach, where both are defined.
#[verifier::external_body]
fn wall_seconds(zone: chrono_tz::Tz, secs: i64, nanos: u32) -> (r: i64)
    requires
        -CALENDAR_REACH <= secs <= CALENDAR_REACH,
        nanos < NANOS_PER_SECOND,
    ensures
        r == wall_clock(zone, secs, nanos),
{
    let at = chrono::DateTime::from_timestamp(secs, nanos).unwrap_or_default();
    at.with_timezone(&zone).naive_local().and_utc().timestamp()
}

/// `TimeZone::from_local_datetime` of `chrono`, for the local date and time
/// that has `wall` seconds when read as UTC.
#[verifier::external_body]
fn local_moment(zone: chrono_tz::Tz, wall: i64) -> (r: LocalMoment)
    ensures
        r == local_reading(zone, wall),
{
    let Some(at) = chrono::DateTime::from_timestamp(wall, 0) else {
        return LocalMoment::Unrepresentable;
    };
    match zone.from_local_datetime(&at.naive_utc()) {
        chrono::LocalResult::Single(a) => LocalMoment::Single(a.timestamp()),
        chrono::LocalResult::Ambiguous(a, b) => LocalMoment::Ambiguous(a.timestamp(), b.timestamp()),
        chrono::LocalResult::None => LocalMoment::Missing,
    }
}

/// `DateTime::to_rfc3339` of `chrono` for the UTC instant; `None` where
/// `DateTime::from_timestamp` cannot hold the instant.
#[verifier::external_body]
pub(crate) fn rfc3339_text(secs: i64, nanos: u32) -> (r: Option<String>)
    ensures
        r is Some == rfc3339_writing(secs, nanos) is Some,
        r is Some ==> r->0@ == rfc3339_writing(secs, nanos)->0,
{
    Some(chrono::DateTime::from_timestamp(secs, nanos)?.to_rfc3339())
}

/// `DateTime::to_rfc3339_opts` of `chrono` with `SecondsFormat::AutoSi` and
/// `Z` for the offset, which is how `chrono` writes an instant into JSON;
/// `None` where `DateTime::from_timestamp` cannot hold the instant.
#[verifier::external_body]
pub(crate) fn zulu_text(secs: i64, nanos: u32) -> (r: Option<String>)
    ensures
        r is Some == zulu_writing(secs, nanos) is Some,
        r is Some ==> r->0@ == zulu_writing(secs, nanos)->0,
{
    let at = chrono::DateTime::from_timestamp(secs, nanos)?;
    Some(at.to_rfc3339_opts(chrono::SecondsFormat::AutoSi, true))
}

/// The text that `chrono` prints for a UTC instant, such as
/// `2026-02-18 12:00:00 UTC`.
pub uninterp spec fn display_writing(secs: i64, nanos: u32) -> Option<Seq<char>>;

/// `Display` of `chrono`'s `DateTime<Utc>`; `None` where
/// `DateTime::from_timestamp` cannot hold the instant.
#[verifier::external_body]
pub(crate) fn display_text(secs: i64, nanos: u32) -> (r: Option<String>)
    ensures
        r is Some == display_writing(secs, nanos) is Some,
        r is Some ==> r->0@ == display_writing(secs, nanos)->0,
{
    Some(format!("{}", chrono::DateTime::from_timestamp(secs, nanos)?))
}

impl Zone {
    /// The zone of that name, where the database has one.
    pub fn parse(name: &str) -> (r: Option<Zone>)
        ensures
            r is Some == known_zone(name@) is Some,
            r is Some ==> r->0.tz == known_zone(name@)->0,
    {
        match zone_by_name(name) {
            Some(tz) => Some(Zone { tz }),
            None => None,
        }
    }
}

// ---------------------------------------------------------------------------
// Time of day
// ---------------------------------------------------------------------------
/// Seconds from midnight of a twelve-hour time `H` or `H:MM`, before noon or
/// after it.
pub open spec fn meridiem_seconds(time_part: Seq<char>, pm: bool) -> Option<u32> {
    let colon = index_of(time_part, ':');
    let hour_text = time_part.take(colon);
    let minute_text = if colon < time_part.len() {
        time_part.skip(colon + 1)
    } else {
        "0"@
    };
    match (unsigned_reading(hour_text), unsigned_reading(minute_text)) {
        (Some(h), Some(m)) => if 1 <= h <= 12 && m <= 59 {
            Some(
                (((h % 12) + if pm {
                    12nat
                } else {
                    0nat
                }) * 3_600 + m * 60) as u32,
            )
        } else {
            None
        },
        _ => None,
    }
}

/// The text of a time of day made compact: trimmed, spaces removed, in
/// lower case.
pub open spec fn compact_clock(input: Seq<char>) -> Seq<char> {
    lowered(without_char(trimmed(input), ' '))
}

/// Seconds from midnight of a time of day: `H` or `H:MM` on the 24-hour
/// clock, or on the 12-hour clock with `am` or `pm` behind.
pub open spec fn time_of_day(input: Seq<char>) -> Result<u32, Failure> {
    let compact = compact_clock(input);
    if has_suffix(compact, "am"@) || has_suffix(compact, "pm"@) {
        match meridiem_seconds(compact.take(compact.len() - 2), has_suffix(compact, "pm"@)) {
            Some(t) => Ok(t),
            None => Err((TimeFault::UnsupportedTimeOfDay, input)),
        }
    } else if clock_reading(compact) is Some {
        Ok(clock_reading(compact)->0)
    } else if clock_reading(compact + ":00"@) is Some {
        Ok(clock_reading(compact + ":00"@)->0)
    } else {
        Err((TimeFault::UnsupportedTimeOfDay, input))
    }
}

fn twelve_hour(time_part: &Vec<char>, pm: bool) -> (r: Option<u32>)
    ensures
        r == meridiem_seconds(time_part@, pm),
        r is Some ==> r->0 < 86_400,
{
    let colon = find_char(time_part, ':');
    let hour_text = copy_chars(time_part, 0, colon);
    let minute_text = if colon < time_part.len() {
        copy_chars(time_part, colon + 1, time_part.len())
    } else {
        chars_of("0")
    };
    proof {
        assert(time_part@.subrange(0, colon as int) == time_part@.take(colon as int));
        if colon < time_part.len() {
            assert(time_part@.subrange(colon + 1, time_part@.len() as int) == time_part@.skip(
                colon + 1,
            ));
        }
    }
    let hour = read_unsigned(&hour_text, 0xFFFF_FFFF);
    let minute = read_unsigned(&minute_text, 0xFFFF_FFFF);
    match (hour, minute) {
        (Some(h), Some(m)) => {
            if 1 <= h && h <= 12 && m <= 59 {
                let base: u64 = if pm {
                    12
                } else {
                    0
                };
                Some((((h % 12) + base) * 3_600 + m * 60) as u32)
            } else {
                None
            }
        },
        _ => None,
    }
}

pub fn parse_time_of_day(input: &str) -> (r: Result<u32, TimeError>)
    ensures
        match r {
            Ok(t) => time_of_day(input@) == Ok::<_, Failure>(t),
            Err(e) => time_of_day(input@) == Err::<u32, _>(e@),
        },
        r is Ok ==> r->Ok_0 < 86_400,
{
    let raw = chars_of(input);
    let trimmed_chars = trim_chars(&raw);
    let spaceless = remove_char(&trimmed_chars, ' ');
    let compact = lower_chars(&spaceless);
    let am = chars_of("am");
    let pm = chars_of("pm");
    proof {
        reveal_strlit("am");
        reveal_strlit("pm");
    }
    let is_am = chars_end_with(&compact, &am);
    let is_pm = chars_end_with(&compact, &pm);
    if is_am || is_pm {
        let time_part = copy_chars(&compact, 0, compact.len() - 2);
        assert(compact@.subrange(0, compact@.len() - 2) == compact@.take(compact@.len() - 2));
        return match twelve_hour(&time_part, is_pm) {
            Some(t) => Ok(t),
            None => Err(TimeError::about(TimeFault::UnsupportedTimeOfDay, input.to_owned())),
        };
    }
    let text = string_of(&compact);
    if let Some(t) = clock_seconds(text.as_str()) {
        return Ok(t);
    }
    let padded = join2(text.as_str(), ":00");
    if let Some(t) = clock_seconds(padded.as_str()) {
        return Ok(t);
    }
    Err(TimeError::about(TimeFault::UnsupportedTimeOfDay, input.to_owned()))
}

// ---------------------------------------------------------------------------
// Time references
// ---------------------------------------------------------------------------
/// The instant of an RFC 3339 reading. A leap second is read as the second
/// that follows it.
pub open spec fn folded(secs: i64, nanos: u32) -> Result<Instant, Failure> {
    if nanos < NANOS_PER_SECOND {
        Ok(Instant { secs, nanos })
    } else if secs < i64::MAX && nanos < 2_000_000_000 {
        Ok(Instant { secs: (secs + 1) as i64, nanos: (nanos - NANOS_PER_SECOND) as u32 })
    } else {
        Err(fail(TimeFault::OutOfRange))
    }
}

pub open spec fn in_calendar(secs: i64) -> bool {
    -CALENDAR_REACH <= secs <= CALENDAR_REACH
}

/// The midnight before a local time, both as seconds.
pub open spec fn day_floor(wall: int) -> int {
    wall - wall % 86_400
}

/// The instant of a local time looked up in a zone: the earlier of two, and
/// none where the zone's clocks skip it.
pub open spec fn settled(moment: LocalMoment) -> Result<Instant, Failure> {
    match moment {
        LocalMoment::Single(s) => Ok(Instant { secs: s, nanos: 0 }),
        LocalMoment::Ambiguous(first, _) => Ok(Instant { secs: first, nanos: 0 }),
        LocalMoment::Missing => Err(fail(TimeFault::NonexistentLocalTime)),
        LocalMoment::Unrepresentable => Err(fail(TimeFault::OutOfRange)),
    }
}

pub open spec fn local_instant(zone: Zone, wall: int) -> Result<Instant, Failure> {
    if i64::MIN <= wall <= i64::MAX {
        settled(local_reading(zone.tz, wall as i64))
    } else {
        Err(fail(TimeFault::OutOfRange))
    }
}

/// The instant at which the local day of `now` began, or the day that lies
/// `days_back` days before it.
pub open spec fn day_start(zone: Zone, now: Instant, days_back: int) -> Result<Instant, Failure> {
    if !in_calendar(now.secs) {
        Err(fail(TimeFault::OutOfRange))
    } else {
        local_instant(
            zone,
            day_floor(wall_clock(zone.tz, now.secs, now.nanos) as int) - days_back * 86_400,
        )
    }
}

/// The latest instant at or before `now` at which the zone's clocks showed
/// the time of day `clock`, looking at today and yesterday.
pub open spec fn since_instant(zone: Zone, now: Instant, clock: Seq<char>) -> Result<
    Instant,
    Failure,
> {
    match time_of_day(clock) {
        Err(e) => Err(e),
        Ok(t) => if !in_calendar(now.secs) {
            Err(fail(TimeFault::OutOfRange))
        } else {
            let midnight = day_floor(wall_clock(zone.tz, now.secs, now.nanos) as int);
            match local_instant(zone, midnight + t) {
                Err(e) => Err(e),
                Ok(today) => if today.later_than(now) {
                    local_instant(zone, midnight - 86_400 + t)
                } else {
                    Ok(today)
                },
            }
        },
    }
}

/// What `chrono` reads from a text as an RFC 3339 time: nothing from a
/// text whose fifth character is no `-`.
pub open spec fn dated_reading(text: Seq<char>) -> Option<(i64, u32)> {
    if text.len() > 4 && text[4] == '-' {
        rfc3339_reading(text)
    } else {
        None
    }
}

/// What a time reference means at the instant `now` in `zone`.
pub open spec fn time_reference(input: Seq<char>, zone: Zone, now: Instant) -> Result<
    Instant,
    Failure,
> {
    let text = trimmed(input);
    let lower = lowered(text);
    if text.len() == 0 {
        Err(fail(TimeFault::EmptyReference))
    } else if let Some((secs, nanos)) = dated_reading(text) {
        folded(secs, nanos)
    } else if lower == "now"@ {
        Ok(now)
    } else if lower == "today"@ {
        day_start(zone, now, 0)
    } else if lower == "yesterday"@ {
        day_start(zone, now, 1)
    } else if has_prefix(lower, "since "@) {
        since_instant(zone, now, lower.skip(6))
    } else {
        match relative_duration(lower) {
            Err(e) => Err(e),
            Ok(span) => match now.back(span) {
                Some(at) => Ok(at),
                None => Err(fail(TimeFault::OutOfRange)),
            },
        }
    }
}

/// A text that begins with a character that is neither a digit nor ASCII
/// white space is no relative duration.
pub proof fn durations_begin_with_digits(text: Seq<char>)
    requires
        text.len() > 0,
        !crate::text::is_digit(text[0]),
        !crate::text::is_ascii_space(text[0]),
    ensures
        relative_duration(text) is Err,
{
    let rest = text.drop_first();
    assert(text =~= seq![text[0]] + rest);
    rest.lemma_filter_prepend(text[0], crate::text::not_ascii_space());
    let compact = crate::text::squeezed(text);
    assert(compact == seq![text[0]] + rest.filter(crate::text::not_ascii_space()));
    assert(compact[0] == text[0]);
    assert(crate::text::digit_run(compact) == 0);
}

/// A relative duration has no `-` among its characters.
pub proof fn durations_hold_no_dash(text: Seq<char>, i: int)
    requires
        relative_duration(text) is Ok,
        0 <= i < text.len(),
    ensures
        text[i] != '-',
{
    if text[i] == '-' {
        let keep = crate::text::not_ascii_space();
        let compact = crate::text::squeezed(text);
        text.lemma_filter_contains(keep, i);
        assert(compact.contains('-'));
        let k = choose|k: int| 0 <= k < compact.len() && compact[k] == '-';
        let n = crate::text::digit_run(compact);
        crate::text::digit_run_facts(compact);
        assert(split_parts(text) is Ok);
        assert(0 < n < compact.len());
        assert(k >= n) by {
            if k < n {
                assert(crate::text::is_digit(compact[k]));
            }
        }
        let raw = compact.skip(n);
        let unit = lowered(raw);
        assert(raw[k - n] == compact[k]);
        assert(unit[k - n] == '-');
        assert(unit.len() > k - n);
        reveal_strlit("ms");
        reveal_strlit("s");
        reveal_strlit("m");
        reveal_strlit("h");
        reveal_strlit("d");
        let amount = crate::text::digits_value(compact.take(n));
        assert(span_of(amount, unit, RELATIVE_LIMIT_SECONDS as nat) is Ok);
        assert(unit == "ms"@ || unit == "s"@ || unit == "m"@ || unit == "h"@ || unit == "d"@);
        if unit == "ms"@ {
            assert(k - n == 0 || k - n == 1);
        } else {
            assert(k - n == 0);
        }
    }
}

/// A relative duration means the instant that long before the anchor: it
/// is no RFC 3339 time, none of the words `now`, `today`, `yesterday`,
/// nor a time of day after `since`.
pub proof fn relative_reference_counts_back(input: Seq<char>, zone: Zone, now: Instant, span: Span)
    requires
        relative_duration(lowered(trimmed(input))) == Ok::<_, Failure>(span),
    ensures
        time_reference(input, zone, now) == (match now.back(span) {
            Some(at) => Ok::<_, Failure>(at),
            None => Err(fail(TimeFault::OutOfRange)),
        }),
{
    let text = trimmed(input);
    let lower = lowered(text);
    reveal_strlit("now");
    reveal_strlit("today");
    reveal_strlit("yesterday");
    reveal_strlit("since ");
    if lower.len() == 0 {
        reveal(Seq::filter);
        assert(crate::text::squeezed(lower) =~= Seq::<char>::empty());
    } else {
        if !crate::text::is_digit(lower[0]) && !crate::text::is_ascii_space(lower[0]) {
            durations_begin_with_digits(lower);
        }
        if has_prefix(lower, "since "@) {
            assert(lower.subrange(0, 6)[0] == 's');
        }
        if text.len() > 4 && text[4] == '-' {
            durations_hold_no_dash(lower, 4);
        }
    }
}

fn floor_day(wall: i64) -> (r: i128)
    ensures
        r == day_floor(wall as int),
{
    let w: i128 = wall as i128;
    let m: i128 = if w >= 0 {
        w % 86_400
    } else {
        86_399 - ((-(w + 1)) % 86_400)
    };
    w - m
}

fn local_lookup(zone: Zone, wall: i128) -> (r: Result<Instant, TimeError>)
    ensures
        match r {
            Ok(at) => local_instant(zone, wall as int) == Ok::<_, Failure>(at),
            Err(e) => local_instant(zone, wall as int) == Err::<Instant, _>(e@),
        },
        r is Ok ==> r->Ok_0.wf(),
{
    if wall < -0x8000_0000_0000_0000 || wall > 0x7FFF_FFFF_FFFF_FFFF {
        return Err(TimeError::of(TimeFault::OutOfRange));
    }
    match local_moment(zone.tz, wall as i64) {
        LocalMoment::Single(s) => Ok(Instant { secs: s, nanos: 0 }),
        LocalMoment::Ambiguous(first, _) => Ok(Instant { secs: first, nanos: 0 }),
        LocalMoment::Missing => Err(TimeError::of(TimeFault::NonexistentLocalTime)),
        LocalMoment::Unrepresentable => Err(TimeError::of(TimeFault::OutOfRange)),
    }
}

fn start_of_day(zone: Zone, now: Instant, days_back: u8) -> (r: Result<Instant, TimeError>)
    requires
        now.wf(),
    ensures
        match r {
            Ok(at) => day_start(zone, now, days_back as int) == Ok::<_, Failure>(at),
            Err(e) => day_start(zone, now, days_back as int) == Err::<Instant, _>(e@),
        },
        r is Ok ==> r->Ok_0.wf(),
{
    if now.secs < -CALENDAR_REACH || now.secs > CALENDAR_REACH {
        return Err(TimeError::of(TimeFault::OutOfRange));
    }
    let wall = wall_seconds(zone.tz, now.secs, now.nanos);
    let midnight = floor_day(wall);
    local_lookup(zone, midnight - (days_back as i128) * 86_400)
}

fn since_clock(zone: Zone, now: Instant, clock: &str) -> (r: Result<Instant, TimeError>)
    requires
        now.wf(),
    ensures
        match r {
            Ok(at) => since_instant(zone, now, clock@) == Ok::<_, Failure>(at),
            Err(e) => since_instant(zone, now, clock@) == Err::<Instant, _>(e@),
        },
        r is Ok ==> r->Ok_0.wf(),
{
    let t = match parse_time_of_day(clock) {
        Ok(t) => t,
        Err(e) => {
            return Err(e);
        },
    };
    if now.secs < -CALENDAR_REACH || now.secs > CALENDAR_REACH {
        return Err(TimeError::of(TimeFault::OutOfRange));
    }
    let wall = wall_seconds(zone.tz, now.secs, now.nanos);
    let midnight = floor_day(wall);
    let today = match local_lookup(zone, midnight + t as i128) {
        Ok(at) => at,
        Err(e) => {
            return Err(e);
        },
    };
    if today.after(&now) {
        local_lookup(zone, midnight - 86_400 + t as i128)
    } else {
        Ok(today)
    }
}

/// The instant of an RFC 3339 reading.
pub fn fold_leap_second(secs: i64, nanos: u32) -> (r: Result<Instant, TimeError>)
    ensures
        match r {
            Ok(at) => folded(secs, nanos) == Ok::<_, Failure>(at),
            Err(e) => folded(secs, nanos) == Err::<Instant, _>(e@),
        },
        r is Ok ==> r->Ok_0.wf(),
{
    if nanos < NANOS_PER_SECOND {
        Ok(Instant { secs, nanos })
    } else if secs < 0x7FFF_FFFF_FFFF_FFFF && nanos < 2_000_000_000 {
        Ok(Instant { secs: secs + 1, nanos: nanos - NANOS_PER_SECOND })
    } else {
        Err(TimeError::of(TimeFault::OutOfRange))
    }
}

pub fn parse_time_reference(input: &str, timezone: Zone, now: Instant) -> (r: Result<
    Instant,
    TimeError,
>)
    requires
        now.wf(),
    ensures
        match r {
            Ok(at) => time_reference(input@, timezone, now) == Ok::<_, Failure>(at),
            Err(e) => time_reference(input@, timezone, now) == Err::<Instant, _>(e@),
        },
        r is Ok ==> r->Ok_0.wf(),
{
    let raw = chars_of(input);
    let text = trim_chars(&raw);
    if text.len() == 0 {
        return Err(TimeError::of(TimeFault::EmptyReference));
    }
    let normalized = string_of(&text);
    if let Some((secs, nanos)) = rfc3339_parts(normalized.as_str()) {
        return fold_leap_second(secs, nanos);
    }
    let lower = lower_chars(&text);
    let word_now = chars_of("now");
    let word_today = chars_of("today");
    let word_yesterday = chars_of("yesterday");
    let word_since = chars_of("since ");
    if same_chars(&lower, &word_now) {
        return Ok(now);
    }
    if same_chars(&lower, &word_today) {
        return start_of_day(timezone, now, 0);
    }
    if same_chars(&lower, &word_yesterday) {
        return start_of_day(timezone, now, 1);
    }
    if matches_at(&lower, &word_since, 0) {
        proof {
            reveal_strlit("since ");
        }
        let rest = copy_chars(&lower, 6, lower.len());
        assert(lower@.subrange(6, lower@.len() as int) == lower@.skip(6));
        let clock = string_of(&rest);
        return since_clock(timezone, now, clock.as_str());
    }
    let relative = string_of(&lower);
    match parse_relative_duration(relative.as_str()) {
        Err(e) => Err(e),
        Ok(span) => match now.minus(&span) {
            Some(at) => Ok(at),
            None => Err(TimeError::of(TimeFault::OutOfRange)),
        },
    }
}

// ---------------------------------------------------------------------------
// Ranges
// ---------------------------------------------------------------------------
/// The window that ends at `end` and began 30 minutes before.
pub open spec fn default_window(end: Instant) -> (Instant, Instant) {
    (instant_at(end.at() - DEFAULT_LOOKBACK_SECONDS * 1_000_000_000), end)
}

pub fn default_query_window(end: Instant) -> (r: (Instant, Instant))
    requires
        end.wf(),
        end.secs - DEFAULT_LOOKBACK_SECONDS >= i64::MIN,
    ensures
        r == default_window(end),
        r.0.wf(),
        r.1.at() - r.0.at() == DEFAULT_LOOKBACK_SECONDS * 1_000_000_000,
{
    let start = Instant { secs: end.secs - 1_800, nanos: end.nanos };
    assert(end.at() - DEFAULT_LOOKBACK_SECONDS * 1_000_000_000 == start.at());
    (start, end)
}

pub open spec fn optional_view(text: Option<&str>) -> Option<Seq<char>> {
    match text {
        Some(s) => Some(s@),
        None => None,
    }
}

/// The range that two optional time references mean at `now`: the end is
/// `now` where none is given and is read first; the start is read against
/// the end and lies 30 minutes before it where none is given; a start after
/// the end is refused.
pub open spec fn time_range(
    start: Option<Seq<char>>,
    end: Option<Seq<char>>,
    zone: Zone,
    now: Instant,
) -> Result<(Instant, Instant), Failure> {
    let end_time = match end {
        Some(raw) => time_reference(raw, zone, now),
        None => Ok(now),
    };
    match end_time {
        Err(e) => Err(e),
        Ok(e) => {
            let start_time = match start {
                Some(raw) => time_reference(raw, zone, e),
                None => match e.back(Span { secs: DEFAULT_LOOKBACK_SECONDS, nanos: 0 }) {
                    Some(s) => Ok(s),
                    None => Err(fail(TimeFault::OutOfRange)),
                },
            };
            match start_time {
                Err(x) => Err(x),
                Ok(s) => if s.later_than(e) {
                    Err(fail(TimeFault::Inverted))
                } else {
                    Ok((s, e))
                },
            }
        },
    }
}

pub fn resolve_time_range(
    start: Option<&str>,
    end: Option<&str>,
    timezone: Zone,
    now: Instant,
) -> (r: Result<(Instant, Instant), TimeError>)
    requires
        now.wf(),
    ensures
        match r {
            Ok(range) => time_range(optional_view(start), optional_view(end), timezone, now)
                == Ok::<_, Failure>(range),
            Err(e) => time_range(optional_view(start), optional_view(end), timezone, now) == Err::<
                (Instant, Instant),
                _,
            >(e@),
        },
        r is Ok ==> r->Ok_0.0.wf() && r->Ok_0.1.wf() && !r->Ok_0.0.later_than(r->Ok_0.1)
            && r->Ok_0.0.at() <= r->Ok_0.1.at(),
{
    let end_time = match end {
        Some(raw) => match parse_time_reference(raw, timezone, now) {
            Ok(at) => at,
            Err(e) => {
                return Err(e);
            },
        },
        None => now,
    };
    let start_time = match start {
        Some(raw) => match parse_time_reference(raw, timezone, end_time) {
            Ok(at) => at,
            Err(e) => {
                return Err(e);
            },
        },
        None => match end_time.minus(&Span::from_secs(DEFAULT_LOOKBACK_SECONDS)) {
            Some(at) => at,
            None => {
                return Err(TimeError::of(TimeFault::OutOfRange));
            },
        },
    };
    if start_time.after(&end_time) {
        return Err(TimeError::of(TimeFault::Inverted));
    }
    Ok((start_time, end_time))
}

/// Every range that is found is in order: its start is not later than its
/// end.
pub proof fn found_ranges_are_in_order(
    start: Option<Seq<char>>,
    end: Option<Seq<char>>,
    zone: Zone,
    now: Instant,
)
    ensures
        time_range(start, end, zone, now) matches Ok(range) ==> !range.0.later_than(range.1),
{
}

} // verus!
