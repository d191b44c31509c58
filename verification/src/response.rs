//! Shaping a log result for the caller: whole, cut to its edges, or summed
//! up by level, pattern and time.

use vstd::prelude::*;
use crate::json::{
    array_of, items_view, lookup, members_view, no_members, none, object_of, push_member, text_json,
    unsigned_json, Json, JsonV, Members, Number,
};
use crate::keyed::{arranged, find_named, first_named, named_view, place, placed, Named};
use crate::text::{
    char_is_digit, char_is_space, chars_before, chars_contain, chars_of, copy_text, has_infix,
    i64_text, is_digit, is_space, lower_chars, lowered, parse_i64, same_text, signed_decimal,
    signed_reading, string_of, text_before,
};
use crate::time::{
    fold_leap_second, folded, rfc3339_parts, rfc3339_reading, rfc3339_text, rfc3339_writing,
    Instant,
};

verus! {

// ---------------------------------------------------------------------------
// Modes
// ---------------------------------------------------------------------------
/// How a log result is handed back.
#[derive(Debug, Clone, Copy, PartialEq, Eq, Structural)]
pub enum ResponseMode {
    Raw,
    Truncated,
    Summary,
    Smart,
}

impl Default for ResponseMode {
    fn default() -> (r: Self)
        ensures
            r == ResponseMode::Smart,
    {
        ResponseMode::Smart
    }
}

/// Up to this many lines a smart response is raw.
pub const SMART_RAW_LINES: usize = 50;

/// Up to this many lines a smart response is truncated.
pub const SMART_TRUNCATED_LINES: usize = 500;

impl ResponseMode {
    /// The mode applied to so many lines: `Smart` turns into one of the
    /// others by the count, every other mode stays.
    pub open spec fn resolved(self, line_count: nat) -> ResponseMode {
        match self {
            ResponseMode::Smart => if line_count <= SMART_RAW_LINES {
                ResponseMode::Raw
            } else if line_count <= SMART_TRUNCATED_LINES {
                ResponseMode::Truncated
            } else {
                ResponseMode::Summary
            },
            other => other,
        }
    }

    pub fn resolve_for_line_count(self, line_count: usize) -> (r: Self)
        ensures
            r == self.resolved(line_count as nat),
            r != ResponseMode::Smart,
    {
        match self {
            ResponseMode::Smart => {
                if line_count <= SMART_RAW_LINES {
                    ResponseMode::Raw
                } else if line_count <= SMART_TRUNCATED_LINES {
                    ResponseMode::Truncated
                } else {
                    ResponseMode::Summary
                }
            },
            other => other,
        }
    }

    /// The name of the mode in JSON.
    pub open spec fn word(self) -> Seq<char> {
        match self {
            ResponseMode::Raw => "raw"@,
            ResponseMode::Truncated => "truncated"@,
            ResponseMode::Summary => "summary"@,
            ResponseMode::Smart => "smart"@,
        }
    }

    /// The mode of that name.
    pub open spec fn named(word: Seq<char>) -> Option<ResponseMode> {
        if word == "raw"@ {
            Some(ResponseMode::Raw)
        } else if word == "truncated"@ {
            Some(ResponseMode::Truncated)
        } else if word == "summary"@ {
            Some(ResponseMode::Summary)
        } else if word == "smart"@ {
            Some(ResponseMode::Smart)
        } else {
            None
        }
    }

    pub fn name(self) -> (r: &'static str)
        ensures
            r@ == self.word(),
    {
        match self {
            ResponseMode::Raw => "raw",
            ResponseMode::Truncated => "truncated",
            ResponseMode::Summary => "summary",
            ResponseMode::Smart => "smart",
        }
    }

    pub fn parse(word: &str) -> (r: Option<ResponseMode>)
        ensures
            r == Self::named(word@),
    {
        if same_text(word, "raw") {
            Some(ResponseMode::Raw)
        } else if same_text(word, "truncated") {
            Some(ResponseMode::Truncated)
        } else if same_text(word, "summary") {
            Some(ResponseMode::Summary)
        } else if same_text(word, "smart") {
            Some(ResponseMode::Smart)
        } else {
            None
        }
    }
}

// ---------------------------------------------------------------------------
// Lines
// ---------------------------------------------------------------------------
/// One log line with the time it bears and the labels of its stream, the
/// labels in the order of their names.
#[derive(Debug)]
pub struct LogLineEntry {
    pub timestamp: String,
    pub line: String,
    pub stream: Vec<(String, String)>,
}

pub struct LogLineV {
    pub timestamp: Seq<char>,
    pub line: Seq<char>,
    pub stream: Named<Seq<char>>,
}

impl View for LogLineEntry {
    type V = LogLineV;

    open spec fn view(&self) -> LogLineV {
        LogLineV {
            timestamp: self.timestamp@,
            line: self.line@,
            stream: named_view(self.stream@),
        }
    }
}

pub open spec fn lines_view(entries: Seq<LogLineEntry>) -> Seq<LogLineV> {
    Seq::new(entries.len(), |i: int| entries[i]@)
}

pub fn copy_labels(labels: &Vec<(String, String)>) -> (r: Vec<(String, String)>)
    ensures
        named_view(r@) == named_view(labels@),
{
    let mut r: Vec<(String, String)> = Vec::new();
    let mut i: usize = 0;
    while i < labels.len()
        invariant
            i <= labels.len(),
            r@.len() == i,
            forall|k: int| 0 <= k < i ==> r@[k].0@ == labels@[k].0@ && r@[k].1@ == labels@[k].1@,
        decreases labels.len() - i,
    {
        r.push((labels[i].0.clone(), labels[i].1.clone()));
        i = i + 1;
    }
    assert(named_view(r@) =~= named_view(labels@));
    r
}

impl LogLineEntry {
    pub fn duplicate(&self) -> (r: LogLineEntry)
        ensures
            r@ == self@,
    {
        LogLineEntry {
            timestamp: self.timestamp.clone(),
            line: self.line.clone(),
            stream: copy_labels(&self.stream),
        }
    }
}

impl Clone for LogLineEntry {
    fn clone(&self) -> (r: Self)
        ensures
            r@ == self@,
    {
        self.duplicate()
    }
}

// ---------------------------------------------------------------------------
// Levels and patterns
// ---------------------------------------------------------------------------
/// The level of a line: the first of `error`, `warn`, `info`, `debug`,
/// `trace` that stands anywhere in it, in either case.
pub open spec fn level_of(line: Seq<char>) -> Option<Seq<char>> {
    let lower = lowered(line);
    if has_infix(lower, "error"@) {
        Some("error"@)
    } else if has_infix(lower, "warn"@) {
        Some("warn"@)
    } else if has_infix(lower, "info"@) {
        Some("info"@)
    } else if has_infix(lower, "debug"@) {
        Some("debug"@)
    } else if has_infix(lower, "trace"@) {
        Some("trace"@)
    } else {
        None
    }
}

pub fn detect_level(line: &str) -> (r: Option<String>)
    ensures
        r is Some == level_of(line@) is Some,
        r is Some ==> r->0@ == level_of(line@)->0,
{
    let raw = chars_of(line);
    let lower = lower_chars(&raw);
    if chars_contain(&lower, &chars_of("error")) {
        Some(copy_text("error"))
    } else if chars_contain(&lower, &chars_of("warn")) {
        Some(copy_text("warn"))
    } else if chars_contain(&lower, &chars_of("info")) {
        Some(copy_text("info"))
    } else if chars_contain(&lower, &chars_of("debug")) {
        Some(copy_text("debug"))
    } else if chars_contain(&lower, &chars_of("trace")) {
        Some(copy_text("trace"))
    } else {
        None
    }
}

/// `s` with every run of decimal digits replaced by one `#`.
pub open spec fn hashed(s: Seq<char>) -> Seq<char>
    decreases s.len(),
{
    if s.len() == 0 {
        Seq::empty()
    } else if !is_digit(s.last()) {
        hashed(s.drop_last()).push(s.last())
    } else if s.len() >= 2 && is_digit(s[s.len() - 2]) {
        hashed(s.drop_last())
    } else {
        hashed(s.drop_last()).push('#')
    }
}

/// `s` with every run of white space replaced by one space, and none at
/// either end.
pub open spec fn single_spaced(s: Seq<char>) -> Seq<char>
    decreases s.len(),
{
    if s.len() == 0 {
        Seq::empty()
    } else if is_space(s.last()) {
        single_spaced(s.drop_last())
    } else if s.len() >= 2 && is_space(s[s.len() - 2]) && single_spaced(s.drop_last()).len() > 0 {
        single_spaced(s.drop_last()).push(' ').push(s.last())
    } else {
        single_spaced(s.drop_last()).push(s.last())
    }
}

/// The pattern of a line: digit runs hashed, white space single.
pub open spec fn pattern_of(line: Seq<char>) -> Seq<char> {
    single_spaced(hashed(line))
}

pub fn normalize_pattern(line: &str) -> (r: String)
    ensures
        r@ == pattern_of(line@),
{
    let raw = chars_of(line);
    let mut hashes: Vec<char> = Vec::new();
    let mut i: usize = 0;
    while i < raw.len()
        invariant
            i <= raw.len(),
            hashes@ == hashed(raw@.take(i as int)),
        decreases raw.len() - i,
    {
        proof {
            assert(raw@.take(i + 1).drop_last() == raw@.take(i as int));
            assert(raw@.take(i + 1).last() == raw@[i as int]);
            if i >= 1 {
                assert(raw@.take(i + 1)[i - 1] == raw@[i - 1]);
            }
        }
        let c = raw[i];
        if !char_is_digit(c) {
            hashes.push(c);
        } else if i >= 1 && char_is_digit(raw[i - 1]) {
        } else {
            hashes.push('#');
        }
        i = i + 1;
    }
    assert(raw@.take(raw@.len() as int) == raw@);
    let mut out: Vec<char> = Vec::new();
    let mut j: usize = 0;
    while j < hashes.len()
        invariant
            j <= hashes.len(),
            out@ == single_spaced(hashes@.take(j as int)),
        decreases hashes.len() - j,
    {
        proof {
            assert(hashes@.take(j + 1).drop_last() == hashes@.take(j as int));
            assert(hashes@.take(j + 1).last() == hashes@[j as int]);
            if j >= 1 {
                assert(hashes@.take(j + 1)[j - 1] == hashes@[j - 1]);
            }
        }
        let c = hashes[j];
        if char_is_space(c) {
        } else if j >= 1 && char_is_space(hashes[j - 1]) && out.len() > 0 {
            out.push(' ');
            out.push(c);
        } else {
            out.push(c);
        }
        j = j + 1;
    }
    assert(hashes@.take(hashes@.len() as int) == hashes@);
    string_of(&out)
}

// ---------------------------------------------------------------------------
// Cutting to the edges
// ---------------------------------------------------------------------------
/// The lines that remain when only `edge` lines at either end are kept.
pub open spec fn edges<T>(entries: Seq<T>, edge: nat) -> Seq<T> {
    if entries.len() <= 2 * edge {
        entries
    } else {
        entries.take(edge as int) + entries.skip(entries.len() - edge)
    }
}

pub fn truncate_lines(entries: &Vec<LogLineEntry>, edge_count: usize) -> (r: (
    Vec<LogLineEntry>,
    usize,
))
    ensures
        lines_view(r.0@) == edges(lines_view(entries@), edge_count as nat),
        r.1 == entries@.len() - r.0@.len(),
{
    let whole = edge_count > entries.len() / 2 || entries.len() <= edge_count * 2;
    let mut lines: Vec<LogLineEntry> = Vec::new();
    let ghost all = lines_view(entries@);
    if whole {
        let mut i: usize = 0;
        while i < entries.len()
            invariant
                i <= entries.len(),
                lines@.len() == i,
                forall|k: int| 0 <= k < i ==> lines@[k]@ == entries@[k]@,
            decreases entries.len() - i,
        {
            lines.push(entries[i].duplicate());
            i = i + 1;
        }
        assert(lines_view(lines@) =~= all);
        return (lines, 0);
    }
    let mut i: usize = 0;
    while i < edge_count
        invariant
            i <= edge_count,
            edge_count * 2 < entries.len(),
            lines@.len() == i,
            forall|k: int| 0 <= k < i ==> lines@[k]@ == entries@[k]@,
        decreases edge_count - i,
    {
        lines.push(entries[i].duplicate());
        i = i + 1;
    }
    let from: usize = entries.len() - edge_count;
    let mut j: usize = from;
    while j < entries.len()
        invariant
            from <= j <= entries.len(),
            from == entries.len() - edge_count,
            edge_count * 2 < entries.len(),
            lines@.len() == edge_count + (j - from),
            forall|k: int| 0 <= k < edge_count ==> lines@[k]@ == entries@[k]@,
            forall|k: int| edge_count <= k < lines@.len() ==> lines@[k]@ == entries@[from + k - edge_count]@,
        decreases entries.len() - j,
    {
        lines.push(entries[j].duplicate());
        j = j + 1;
    }
    assert(lines_view(lines@) =~= all.take(edge_count as int) + all.skip(all.len() - edge_count));
    let omitted = entries.len() - lines.len();
    (lines, omitted)
}

// ---------------------------------------------------------------------------
// Times on lines
// ---------------------------------------------------------------------------
/// The RFC 3339 text of a count of nanoseconds since the epoch written in
/// decimal.
pub open spec fn stamp_writing(text: Seq<char>) -> Option<Seq<char>> {
    match signed_reading(text) {
        Some(n) => if i64::MIN <= n <= i64::MAX {
            rfc3339_writing((n / 1_000_000_000) as i64, (n % 1_000_000_000) as u32)
        } else {
            None
        },
        None => None,
    }
}

fn split_nanos(n: i64) -> (r: (i64, u32))
    ensures
        r.0 == n / 1_000_000_000,
        r.1 == n % 1_000_000_000,
{
    if n >= 0 {
        (n / 1_000_000_000, (n % 1_000_000_000) as u32)
    } else {
        let m: i64 = -(n + 1);
        let q: i64 = m / 1_000_000_000;
        let p: i64 = m % 1_000_000_000;
        (-q - 1, (999_999_999 - p) as u32)
    }
}

pub fn nanos_to_rfc3339(timestamp_nanos: &str) -> (r: Option<String>)
    ensures
        r is Some == stamp_writing(timestamp_nanos@) is Some,
        r is Some ==> r->0@ == stamp_writing(timestamp_nanos@)->0,
{
    let n = match parse_i64(timestamp_nanos) {
        Some(n) => n,
        None => {
            return None;
        },
    };
    let (secs, nanos) = split_nanos(n);
    rfc3339_text(secs, nanos)
}

/// The instant that an RFC 3339 text states.
pub open spec fn read_instant(text: Seq<char>) -> Option<Instant> {
    match rfc3339_reading(text) {
        Some((secs, nanos)) => match folded(secs, nanos) {
            Ok(at) => Some(at),
            Err(_) => None,
        },
        None => None,
    }
}

/// The instant that the time on a line states: an RFC 3339 text, or a
/// count of nanoseconds.
pub open spec fn entry_instant(timestamp: Seq<char>) -> Option<Instant> {
    if rfc3339_reading(timestamp) is Some {
        read_instant(timestamp)
    } else {
        match stamp_writing(timestamp) {
            Some(text) => read_instant(text),
            None => None,
        }
    }
}

fn instant_from_text(text: &str) -> (r: (bool, Option<Instant>))
    ensures
        r.0 == rfc3339_reading(text@) is Some,
        r.1 == read_instant(text@),
        r.1 is Some ==> r.1->0.wf(),
{
    match rfc3339_parts(text) {
        Some((secs, nanos)) => match fold_leap_second(secs, nanos) {
            Ok(at) => (true, Some(at)),
            Err(_) => (true, None),
        },
        None => (false, None),
    }
}

pub fn parse_entry_timestamp(timestamp: &str) -> (r: Option<Instant>)
    ensures
        r == entry_instant(timestamp@),
        r is Some ==> r->0.wf(),
{
    let (read, at) = instant_from_text(timestamp);
    if read {
        return at;
    }
    match nanos_to_rfc3339(timestamp) {
        Some(text) => {
            let (_, at) = instant_from_text(text.as_str());
            at
        },
        None => None,
    }
}

/// Seconds of a five-minute bucket.
pub const BUCKET_SECONDS: i64 = 300;

/// The text of the five-minute bucket that an instant falls into: the
/// RFC 3339 text of the bucket's start.
pub open spec fn bucket_text(at: Instant) -> Seq<char> {
    let start = (at.secs / 300) * 300;
    if start >= i64::MIN && rfc3339_writing(start as i64, 0) is Some {
        rfc3339_writing(start as i64, 0)->0
    } else if rfc3339_writing(at.secs, at.nanos) is Some {
        rfc3339_writing(at.secs, at.nanos)->0
    } else {
        signed_decimal(at.secs as int)
    }
}

pub fn time_bucket_5m(timestamp: Instant) -> (r: String)
    ensures
        r@ == bucket_text(timestamp),
{
    let secs: i128 = timestamp.secs as i128;
    let floor: i128 = if secs >= 0 {
        secs / 300
    } else {
        -((-(secs + 1)) / 300) - 1
    };
    let start: i128 = floor * 300;
    assert(floor == timestamp.secs as int / 300);
    if start >= -0x8000_0000_0000_0000 {
        if let Some(text) = rfc3339_text(start as i64, 0) {
            return text;
        }
    }
    if let Some(text) = rfc3339_text(timestamp.secs, timestamp.nanos) {
        return text;
    }
    i64_text(timestamp.secs)
}

// ---------------------------------------------------------------------------
// Flattening
// ---------------------------------------------------------------------------
/// The labels of a stream as texts; a label that is no text is empty.
pub open spec fn label_texts(members: Members) -> Named<Seq<char>> {
    Seq::new(
        members.len(),
        |i: int|
            (
                members[i].0,
                match members[i].1 {
                    JsonV::Text(s) => s,
                    _ => Seq::empty(),
                },
            ),
    )
}

pub open spec fn stream_labels(stream: JsonV) -> Named<Seq<char>> {
    match stream.member("stream"@) {
        Some(JsonV::Object(members)) => arranged(label_texts(members)),
        _ => Seq::empty(),
    }
}

/// The line that a value of a stream states: a pair of a time and a text.
pub open spec fn entry_of(value: JsonV, labels: Named<Seq<char>>) -> Option<LogLineV> {
    match value {
        JsonV::Array(pair) => if pair.len() == 2 {
            match (pair[0], pair[1]) {
                (JsonV::Text(stamp), JsonV::Text(line)) => Some(
                    LogLineV {
                        timestamp: match stamp_writing(stamp) {
                            Some(text) => text,
                            None => stamp,
                        },
                        line,
                        stream: labels,
                    },
                ),
                _ => None,
            }
        } else {
            None
        },
        _ => None,
    }
}

/// The lines that the values of a stream state, malformed values skipped.
pub open spec fn entries_of(values: Seq<JsonV>, labels: Named<Seq<char>>) -> Seq<LogLineV>
    decreases values.len(),
{
    if values.len() == 0 {
        Seq::empty()
    } else {
        match entry_of(values.last(), labels) {
            Some(entry) => entries_of(values.drop_last(), labels).push(entry),
            None => entries_of(values.drop_last(), labels),
        }
    }
}

pub open spec fn stream_entries(stream: JsonV) -> Seq<LogLineV> {
    match stream.member("values"@) {
        Some(JsonV::Array(values)) => entries_of(values, stream_labels(stream)),
        _ => Seq::empty(),
    }
}

/// The lines of all streams, stream after stream.
pub open spec fn gathered(streams: Seq<JsonV>) -> Seq<LogLineV>
    decreases streams.len(),
{
    if streams.len() == 0 {
        Seq::empty()
    } else {
        gathered(streams.drop_last()) + stream_entries(streams.last())
    }
}

/// The lines of a log result: those of the streams under `result`.
pub open spec fn flattened(raw: JsonV) -> Seq<LogLineV> {
    match raw.member("result"@) {
        Some(JsonV::Array(streams)) => gathered(streams),
        _ => Seq::empty(),
    }
}

fn labels_of(stream: &Json) -> (r: Vec<(String, String)>)
    ensures
        named_view(r@) == stream_labels(stream@),
{
    let mut out: Vec<(String, String)> = Vec::new();
    let found = match stream.get("stream") {
        Some(found) => found,
        None => {
            assert(named_view(out@) =~= Seq::empty());
            return out;
        },
    };
    let members = match found.as_object() {
        Some(members) => members,
        None => {
            assert(named_view(out@) =~= Seq::empty());
            return out;
        },
    };
    let ghost given = label_texts(members_view(members@));
    let mut i: usize = 0;
    assert(named_view(out@) =~= arranged(given.take(0)));
    while i < members.len()
        invariant
            i <= members.len(),
            given == label_texts(members_view(members@)),
            named_view(out@) == arranged(given.take(i as int)),
        decreases members.len() - i,
    {
        let value = match &members[i].1 {
            Json::Text(s) => s.clone(),
            _ => String::new(),
        };
        place(&mut out, members[i].0.clone(), value);
        proof {
            assert(given.take(i + 1).drop_last() == given.take(i as int));
            assert(given.take(i + 1).last() == given[i as int]);
        }
        i = i + 1;
    }
    assert(given.take(members@.len() as int) == given);
    out
}

fn entry_from(value: &Json, labels: &Vec<(String, String)>) -> (r: Option<LogLineEntry>)
    ensures
        r is Some == entry_of(value@, named_view(labels@)) is Some,
        r is Some ==> r->0@ == entry_of(value@, named_view(labels@))->0,
{
    let pair = match value.as_array() {
        Some(pair) => pair,
        None => {
            return None;
        },
    };
    if pair.len() != 2 {
        return None;
    }
    assert(items_view(pair@)[0] == pair@[0]@);
    assert(items_view(pair@)[1] == pair@[1]@);
    let stamp = match pair[0].as_str() {
        Some(s) => s,
        None => {
            return None;
        },
    };
    let line = match pair[1].as_str() {
        Some(s) => s,
        None => {
            return None;
        },
    };
    let timestamp = match nanos_to_rfc3339(stamp.as_str()) {
        Some(text) => text,
        None => stamp.clone(),
    };
    Some(LogLineEntry { timestamp, line: line.clone(), stream: copy_labels(labels) })
}

fn lines_of_stream(stream: &Json) -> (r: Vec<LogLineEntry>)
    ensures
        lines_view(r@) == stream_entries(stream@),
{
    let mut out: Vec<LogLineEntry> = Vec::new();
    let labels = labels_of(stream);
    let found = match stream.get("values") {
        Some(found) => found,
        None => {
            assert(lines_view(out@) =~= Seq::empty());
            return out;
        },
    };
    let values = match found.as_array() {
        Some(values) => values,
        None => {
            assert(lines_view(out@) =~= Seq::empty());
            return out;
        },
    };
    let ghost given = items_view(values@);
    let ghost names = named_view(labels@);
    let mut i: usize = 0;
    assert(lines_view(out@) =~= entries_of(given.take(0), names));
    while i < values.len()
        invariant
            i <= values.len(),
            given == items_view(values@),
            names == named_view(labels@),
            lines_view(out@) == entries_of(given.take(i as int), names),
        decreases values.len() - i,
    {
        proof {
            assert(given.take(i + 1).drop_last() == given.take(i as int));
            assert(given.take(i + 1).last() == values@[i as int]@);
        }
        let ghost before = lines_view(out@);
        match entry_from(&values[i], &labels) {
            Some(entry) => {
                let ghost shown = entry@;
                out.push(entry);
                assert(lines_view(out@) =~= before.push(shown));
            },
            None => {},
        }
        i = i + 1;
    }
    assert(given.take(values@.len() as int) == given);
    out
}

pub fn flatten_log_entries(raw_data: &Json) -> (r: Vec<LogLineEntry>)
    ensures
        lines_view(r@) == flattened(raw_data@),
{
    let mut entries: Vec<LogLineEntry> = Vec::new();
    let found = match raw_data.get("result") {
        Some(found) => found,
        None => {
            assert(lines_view(entries@) =~= Seq::empty());
            return entries;
        },
    };
    let streams = match found.as_array() {
        Some(streams) => streams,
        None => {
            assert(lines_view(entries@) =~= Seq::empty());
            return entries;
        },
    };
    let ghost given = items_view(streams@);
    let mut i: usize = 0;
    assert(lines_view(entries@) =~= gathered(given.take(0)));
    while i < streams.len()
        invariant
            i <= streams.len(),
            given == items_view(streams@),
            lines_view(entries@) == gathered(given.take(i as int)),
        decreases streams.len() - i,
    {
        proof {
            assert(given.take(i + 1).drop_last() == given.take(i as int));
            assert(given.take(i + 1).last() == streams@[i as int]@);
        }
        let ghost before = lines_view(entries@);
        let mut more = lines_of_stream(&streams[i]);
        let ghost added = lines_view(more@);
        entries.append(&mut more);
        assert(lines_view(entries@) =~= before + added);
        i = i + 1;
    }
    assert(given.take(streams@.len() as int) == given);
    entries
}

// ---------------------------------------------------------------------------
// Counting
// ---------------------------------------------------------------------------
/// One more than a count, which stays where it cannot grow.
pub open spec fn bumped(count: Option<u64>) -> u64 {
    match count {
        Some(c) => if c < u64::MAX {
            (c + 1) as u64
        } else {
            c
        },
        None => 1,
    }
}

/// The tally with one more under `key`.
pub open spec fn counted(tally: Named<u64>, key: Seq<char>) -> Named<u64> {
    placed(tally, key, bumped(first_named(tally, key)))
}

fn count_one(tally: &mut Vec<(String, u64)>, key: String)
    ensures
        named_view(final(tally)@) == counted(named_view(old(tally)@), key@),
{
    let next: u64 = match find_named(tally, key.as_str()) {
        Some(c) => if *c < u64::MAX {
            *c + 1
        } else {
            *c
        },
        None => 1,
    };
    place(tally, key, next);
}

/// How many lines have each level, the levels in the order of their names.
pub open spec fn level_tally(entries: Seq<LogLineV>) -> Named<u64>
    decreases entries.len(),
{
    if entries.len() == 0 {
        Seq::empty()
    } else {
        match level_of(entries.last().line) {
            Some(level) => counted(level_tally(entries.drop_last()), level),
            None => level_tally(entries.drop_last()),
        }
    }
}

/// How many lines have each pattern, the patterns in the order of their
/// texts.
pub open spec fn pattern_tally(entries: Seq<LogLineV>) -> Named<u64>
    decreases entries.len(),
{
    if entries.len() == 0 {
        Seq::empty()
    } else {
        counted(pattern_tally(entries.drop_last()), pattern_of(entries.last().line))
    }
}

/// How many lines fall into each five-minute bucket, the buckets in the
/// order of their texts. A line whose time cannot be read counts nowhere.
pub open spec fn bucket_tally(entries: Seq<LogLineV>) -> Named<u64>
    decreases entries.len(),
{
    if entries.len() == 0 {
        Seq::empty()
    } else {
        match entry_instant(entries.last().timestamp) {
            Some(at) => counted(bucket_tally(entries.drop_last()), bucket_text(at)),
            None => bucket_tally(entries.drop_last()),
        }
    }
}

/// The earlier of an instant and one that may be there.
pub open spec fn earlier(best: Option<Instant>, at: Instant) -> Instant {
    match best {
        Some(b) => if b.later_than(at) {
            at
        } else {
            b
        },
        None => at,
    }
}

/// The later of an instant and one that may be there.
pub open spec fn later(best: Option<Instant>, at: Instant) -> Instant {
    match best {
        Some(b) => if at.later_than(b) {
            at
        } else {
            b
        },
        None => at,
    }
}

/// The earliest time that a line bears.
pub open spec fn earliest(entries: Seq<LogLineV>) -> Option<Instant>
    decreases entries.len(),
{
    if entries.len() == 0 {
        None
    } else {
        match entry_instant(entries.last().timestamp) {
            Some(at) => Some(earlier(earliest(entries.drop_last()), at)),
            None => earliest(entries.drop_last()),
        }
    }
}

/// The latest time that a line bears.
pub open spec fn latest(entries: Seq<LogLineV>) -> Option<Instant>
    decreases entries.len(),
{
    if entries.len() == 0 {
        None
    } else {
        match entry_instant(entries.last().timestamp) {
            Some(at) => Some(later(latest(entries.drop_last()), at)),
            None => latest(entries.drop_last()),
        }
    }
}

// ---------------------------------------------------------------------------
// Ranking
// ---------------------------------------------------------------------------
/// `a` ranks before `b`: by the greater count, then by the name.
pub open spec fn outranks(a: (Seq<char>, u64), b: (Seq<char>, u64)) -> bool {
    a.1 > b.1 || (a.1 == b.1 && text_before(a.0, b.0))
}

/// The ranking with `item` put before the first entry that it outranks.
pub open spec fn slotted(ranking: Named<u64>, item: (Seq<char>, u64)) -> Named<u64>
    decreases ranking.len(),
{
    if ranking.len() == 0 {
        seq![item]
    } else if outranks(item, ranking[0]) {
        seq![item] + ranking
    } else {
        seq![ranking[0]] + slotted(ranking.drop_first(), item)
    }
}

/// The entries of a tally in the order of their rank.
pub open spec fn ranked(tally: Named<u64>) -> Named<u64>
    decreases tally.len(),
{
    if tally.len() == 0 {
        Seq::empty()
    } else {
        slotted(ranked(tally.drop_last()), tally.last())
    }
}

/// The patterns shown in a summary: so many at most.
pub const TOP_PATTERNS: usize = 10;

/// The patterns of the lines that rank first.
pub open spec fn top_patterns(entries: Seq<LogLineV>) -> Named<u64> {
    let all = ranked(pattern_tally(entries));
    if all.len() > TOP_PATTERNS {
        all.take(TOP_PATTERNS as int)
    } else {
        all
    }
}

proof fn slotted_past(ranking: Named<u64>, item: (Seq<char>, u64), n: int)
    requires
        0 <= n <= ranking.len(),
        forall|i: int| 0 <= i < n ==> !outranks(item, ranking[i]),
    ensures
        slotted(ranking, item) == ranking.take(n) + slotted(ranking.skip(n), item),
    decreases n,
{
    if n == 0 {
        assert(ranking.skip(0) == ranking);
        assert(ranking.take(0) + slotted(ranking, item) == slotted(ranking, item));
    } else {
        let rest = ranking.drop_first();
        assert forall|i: int| 0 <= i < n - 1 implies !outranks(item, rest[i]) by {
            assert(rest[i] == ranking[i + 1]);
        }
        slotted_past(rest, item, n - 1);
        assert(rest.skip(n - 1) == ranking.skip(n));
        assert(seq![ranking[0]] + (rest.take(n - 1) + slotted(ranking.skip(n), item))
            == ranking.take(n) + slotted(ranking.skip(n), item));
    }
}

fn slot(ranking: &mut Vec<(String, u64)>, name: String, count: u64)
    ensures
        named_view(final(ranking)@) == slotted(named_view(old(ranking)@), (name@, count)),
{
    let ghost before = named_view(ranking@);
    let ghost item = (name@, count);
    let key = chars_of(name.as_str());
    let mut i: usize = 0;
    while i < ranking.len()
        invariant
            i <= ranking.len(),
            *ranking == *old(ranking),
            before == named_view(ranking@),
            key@ == name@,
            item == (name@, count),
            forall|k: int| 0 <= k < i ==> !outranks(item, before[k]),
        decreases ranking.len() - i,
    {
        let here = chars_of(ranking[i].0.as_str());
        let there: u64 = ranking[i].1;
        if count > there || (count == there && chars_before(&key, &here)) {
            proof {
                slotted_past(before, item, i as int);
                assert(before.skip(i as int)[0] == before[i as int]);
            }
            ranking.insert(i, (name, count));
            proof {
                let after = named_view(ranking@);
                let expect = before.take(i as int) + (seq![item] + before.skip(i as int));
                assert(after.len() == expect.len());
                assert forall|k: int| 0 <= k < after.len() implies after[k] == expect[k] by {
                    if k < i {
                        assert(ranking@[k] == old(ranking)@[k]);
                    } else if k > i {
                        assert(ranking@[k] == old(ranking)@[k - 1]);
                    }
                }
                assert(after =~= expect);
            }
            return ;
        }
        i = i + 1;
    }
    proof {
        slotted_past(before, item, i as int);
        assert(before.skip(i as int) =~= Seq::empty());
        assert(before.take(i as int) == before);
    }
    ranking.push((name, count));
    proof {
        let after = named_view(ranking@);
        let expect = before + seq![item];
        assert(after.len() == expect.len());
        assert forall|k: int| 0 <= k < after.len() implies after[k] == expect[k] by {
            if k < i {
                assert(ranking@[k] == old(ranking)@[k]);
            }
        }
        assert(after =~= expect);
    }
}

fn rank(tally: &Vec<(String, u64)>) -> (r: Vec<(String, u64)>)
    ensures
        named_view(r@) == ranked(named_view(tally@)),
{
    let mut out: Vec<(String, u64)> = Vec::new();
    let ghost given = named_view(tally@);
    let mut i: usize = 0;
    assert(named_view(out@) =~= ranked(given.take(0)));
    while i < tally.len()
        invariant
            i <= tally.len(),
            given == named_view(tally@),
            named_view(out@) == ranked(given.take(i as int)),
        decreases tally.len() - i,
    {
        slot(&mut out, tally[i].0.clone(), tally[i].1);
        proof {
            assert(given.take(i + 1).drop_last() == given.take(i as int));
            assert(given.take(i + 1).last() == given[i as int]);
        }
        i = i + 1;
    }
    assert(given.take(tally@.len() as int) == given);
    out
}

// ---------------------------------------------------------------------------
// Payloads
// ---------------------------------------------------------------------------
/// The object that states a tally: each name with its count.
pub open spec fn counts_json(tally: Named<u64>) -> JsonV {
    JsonV::Object(
        Seq::new(tally.len(), |i: int| (tally[i].0, JsonV::Number(Number::Unsigned(tally[i].1)))),
    )
}

fn counts_to_json(tally: &Vec<(String, u64)>) -> (r: Json)
    ensures
        r@ == counts_json(named_view(tally@)),
{
    let mut members: Vec<(String, Json)> = Vec::new();
    let mut i: usize = 0;
    while i < tally.len()
        invariant
            i <= tally.len(),
            members@.len() == i,
            forall|k: int|
                0 <= k < i ==> members@[k].0@ == tally@[k].0@ && members@[k].1@ == JsonV::Number(
                    Number::Unsigned(tally@[k].1),
                ),
        decreases tally.len() - i,
    {
        members.push((tally[i].0.clone(), unsigned_json(tally[i].1)));
        i = i + 1;
    }
    assert(members_view(members@) =~= counts_json(named_view(tally@))->Object_0);
    object_of(members)
}

/// The object that states the labels of a stream.
pub open spec fn labels_json(labels: Named<Seq<char>>) -> JsonV {
    JsonV::Object(Seq::new(labels.len(), |i: int| (labels[i].0, JsonV::Text(labels[i].1))))
}

/// The object that states a line.
pub open spec fn line_json(entry: LogLineV) -> JsonV {
    JsonV::Object(
        none().push(("timestamp"@, JsonV::Text(entry.timestamp)))
            .push(("line"@, JsonV::Text(entry.line)))
            .push(("stream"@, labels_json(entry.stream))),
    )
}

pub open spec fn lines_json(entries: Seq<LogLineV>) -> JsonV {
    JsonV::Array(Seq::new(entries.len(), |i: int| line_json(entries[i])))
}

fn labels_to_json(labels: &Vec<(String, String)>) -> (r: Json)
    ensures
        r@ == labels_json(named_view(labels@)),
{
    let mut members: Vec<(String, Json)> = Vec::new();
    let mut i: usize = 0;
    while i < labels.len()
        invariant
            i <= labels.len(),
            members@.len() == i,
            forall|k: int|
                0 <= k < i ==> members@[k].0@ == labels@[k].0@ && members@[k].1@ == JsonV::Text(
                    labels@[k].1@,
                ),
        decreases labels.len() - i,
    {
        members.push((labels[i].0.clone(), Json::Text(labels[i].1.clone())));
        i = i + 1;
    }
    assert(members_view(members@) =~= labels_json(named_view(labels@))->Object_0);
    object_of(members)
}

fn line_to_json(entry: &LogLineEntry) -> (r: Json)
    ensures
        r@ == line_json(entry@),
{
    let mut members = no_members();
    push_member(&mut members, "timestamp", Json::Text(entry.timestamp.clone()));
    push_member(&mut members, "line", Json::Text(entry.line.clone()));
    push_member(&mut members, "stream", labels_to_json(&entry.stream));
    object_of(members)
}

fn lines_to_json(entries: &Vec<LogLineEntry>) -> (r: Json)
    ensures
        r@ == lines_json(lines_view(entries@)),
{
    let mut items: Vec<Json> = Vec::new();
    let mut i: usize = 0;
    while i < entries.len()
        invariant
            i <= entries.len(),
            items@.len() == i,
            forall|k: int| 0 <= k < i ==> items@[k]@ == line_json(entries@[k]@),
        decreases entries.len() - i,
    {
        items.push(line_to_json(&entries[i]));
        i = i + 1;
    }
    assert(items_view(items@) =~= lines_json(lines_view(entries@))->Array_0);
    array_of(items)
}

/// The first line that has the pattern.
pub open spec fn first_line_with(entries: Seq<LogLineV>, pattern: Seq<char>) -> Option<LogLineV>
    decreases entries.len(),
{
    if entries.len() == 0 {
        None
    } else if pattern_of(entries[0].line) == pattern {
        Some(entries[0])
    } else {
        first_line_with(entries.drop_first(), pattern)
    }
}

/// The sample shown with a pattern: the time and text of the first line
/// that has it.
pub open spec fn sample_json(entries: Seq<LogLineV>, pattern: Seq<char>) -> JsonV {
    match first_line_with(entries, pattern) {
        Some(entry) => JsonV::Object(
            none().push(("timestamp"@, JsonV::Text(entry.timestamp)))
                .push(("line"@, JsonV::Text(entry.line))),
        ),
        None => JsonV::Null,
    }
}

/// The object that states a pattern and its count, with a sample where
/// samples are asked for.
pub open spec fn pattern_json(
    entries: Seq<LogLineV>,
    item: (Seq<char>, u64),
    include_samples: bool,
) -> JsonV {
    if include_samples {
        JsonV::Object(
            none().push(("pattern"@, JsonV::Text(item.0)))
                .push(("count"@, JsonV::Number(Number::Unsigned(item.1))))
                .push(("sample"@, sample_json(entries, item.0))),
        )
    } else {
        JsonV::Object(
            none().push(("pattern"@, JsonV::Text(item.0)))
                .push(("count"@, JsonV::Number(Number::Unsigned(item.1)))),
        )
    }
}

pub open spec fn top_patterns_json(entries: Seq<LogLineV>, include_samples: bool) -> JsonV {
    let top = top_patterns(entries);
    JsonV::Array(Seq::new(top.len(), |i: int| pattern_json(entries, top[i], include_samples)))
}

fn sample_of(entries: &Vec<LogLineEntry>, pattern: &str) -> (r: Json)
    ensures
        r@ == sample_json(lines_view(entries@), pattern@),
{
    let ghost all = lines_view(entries@);
    let mut i: usize = 0;
    assert(all.skip(0) == all);
    while i < entries.len()
        invariant
            i <= entries.len(),
            all == lines_view(entries@),
            first_line_with(all, pattern@) == first_line_with(all.skip(i as int), pattern@),
        decreases entries.len() - i,
    {
        proof {
            assert(all.skip(i as int)[0] == entries@[i as int]@);
            assert(all.skip(i as int).drop_first() == all.skip(i + 1));
        }
        let here = normalize_pattern(entries[i].line.as_str());
        if same_text(here.as_str(), pattern) {
            let mut members = no_members();
            push_member(&mut members, "timestamp", Json::Text(entries[i].timestamp.clone()));
            push_member(&mut members, "line", Json::Text(entries[i].line.clone()));
            return object_of(members);
        }
        i = i + 1;
    }
    Json::Null
}

/// The instant as a document: its RFC 3339 text, or `null`.
pub open spec fn instant_json(at: Option<Instant>) -> JsonV {
    match at {
        Some(a) => match rfc3339_writing(a.secs, a.nanos) {
            Some(text) => JsonV::Text(text),
            None => JsonV::Null,
        },
        None => JsonV::Null,
    }
}

fn instant_to_json(at: Option<Instant>) -> (r: Json)
    ensures
        r@ == instant_json(at),
{
    match at {
        Some(a) => match rfc3339_text(a.secs, a.nanos) {
            Some(text) => Json::Text(text),
            None => Json::Null,
        },
        None => Json::Null,
    }
}

/// What a summary of the lines says.
pub open spec fn summary_json(entries: Seq<LogLineV>, include_samples: bool) -> JsonV {
    JsonV::Object(
        none().push(("mode"@, JsonV::Text("summary"@)))
            .push(("total_lines"@, JsonV::Number(Number::Unsigned(entries.len() as u64))))
            .push(("first_timestamp"@, instant_json(earliest(entries))))
            .push(("last_timestamp"@, instant_json(latest(entries))))
            .push(("level_breakdown"@, counts_json(level_tally(entries))))
            .push(("top_patterns"@, top_patterns_json(entries, include_samples)))
            .push(("time_distribution_5m"@, counts_json(bucket_tally(entries)))),
    )
}

fn top_patterns_to_json(
    entries: &Vec<LogLineEntry>,
    tally: &Vec<(String, u64)>,
    include_samples: bool,
) -> (r: Json)
    requires
        named_view(tally@) == pattern_tally(lines_view(entries@)),
    ensures
        r@ == top_patterns_json(lines_view(entries@), include_samples),
{
    let ranking = rank(tally);
    let shown: usize = if ranking.len() > TOP_PATTERNS {
        TOP_PATTERNS
    } else {
        ranking.len()
    };
    let ghost all = lines_view(entries@);
    let ghost top = top_patterns(all);
    assert(top.len() == shown);
    let mut items: Vec<Json> = Vec::new();
    let mut i: usize = 0;
    while i < shown
        invariant
            i <= shown <= ranking.len(),
            all == lines_view(entries@),
            top == top_patterns(all),
            top.len() == shown,
            forall|k: int| 0 <= k < shown ==> top[k] == named_view(ranking@)[k],
            items@.len() == i,
            forall|k: int| 0 <= k < i ==> items@[k]@ == pattern_json(all, top[k], include_samples),
        decreases shown - i,
    {
        assert(top[i as int] == (ranking@[i as int].0@, ranking@[i as int].1));
        let mut members = no_members();
        push_member(&mut members, "pattern", Json::Text(ranking[i].0.clone()));
        push_member(&mut members, "count", unsigned_json(ranking[i].1));
        if include_samples {
            push_member(&mut members, "sample", sample_of(entries, ranking[i].0.as_str()));
        }
        items.push(object_of(members));
        i = i + 1;
    }
    assert(items_view(items@) =~= top_patterns_json(all, include_samples)->Array_0);
    array_of(items)
}

pub fn summary_payload(entries: &Vec<LogLineEntry>, include_samples: bool) -> (r: Json)
    ensures
        r@ == summary_json(lines_view(entries@), include_samples),
{
    let mut levels: Vec<(String, u64)> = Vec::new();
    let mut patterns: Vec<(String, u64)> = Vec::new();
    let mut buckets: Vec<(String, u64)> = Vec::new();
    let mut first: Option<Instant> = None;
    let mut last: Option<Instant> = None;
    let ghost all = lines_view(entries@);
    let mut i: usize = 0;
    proof {
        assert(named_view(levels@) =~= level_tally(all.take(0)));
        assert(named_view(patterns@) =~= pattern_tally(all.take(0)));
        assert(named_view(buckets@) =~= bucket_tally(all.take(0)));
    }
    while i < entries.len()
        invariant
            i <= entries.len(),
            all == lines_view(entries@),
            named_view(levels@) == level_tally(all.take(i as int)),
            named_view(patterns@) == pattern_tally(all.take(i as int)),
            named_view(buckets@) == bucket_tally(all.take(i as int)),
            first == earliest(all.take(i as int)),
            last == latest(all.take(i as int)),
        decreases entries.len() - i,
    {
        proof {
            assert(all.take(i + 1).drop_last() == all.take(i as int));
            assert(all.take(i + 1).last() == entries@[i as int]@);
        }
        let entry = &entries[i];
        if let Some(level) = detect_level(entry.line.as_str()) {
            count_one(&mut levels, level);
        }
        count_one(&mut patterns, normalize_pattern(entry.line.as_str()));
        if let Some(at) = parse_entry_timestamp(entry.timestamp.as_str()) {
            first = Some(
                match first {
                    Some(b) => if b.after(&at) {
                        at
                    } else {
                        b
                    },
                    None => at,
                },
            );
            last = Some(
                match last {
                    Some(b) => if at.after(&b) {
                        at
                    } else {
                        b
                    },
                    None => at,
                },
            );
            count_one(&mut buckets, time_bucket_5m(at));
        }
        i = i + 1;
    }
    assert(all.take(entries@.len() as int) == all);
    let mut members = no_members();
    push_member(&mut members, "mode", text_json("summary"));
    push_member(&mut members, "total_lines", unsigned_json(entries.len() as u64));
    push_member(&mut members, "first_timestamp", instant_to_json(first));
    push_member(&mut members, "last_timestamp", instant_to_json(last));
    push_member(&mut members, "level_breakdown", counts_to_json(&levels));
    push_member(&mut members, "top_patterns", top_patterns_to_json(entries, &patterns, include_samples));
    push_member(&mut members, "time_distribution_5m", counts_to_json(&buckets));
    object_of(members)
}

// ---------------------------------------------------------------------------
// The shaper
// ---------------------------------------------------------------------------
/// Lines kept at either end of a truncated response in smart mode.
pub const SMART_EDGE: usize = 15;

/// Lines kept at either end of a truncated response asked for by name.
pub const PLAIN_EDGE: usize = 10;

pub open spec fn edge_for(requested: ResponseMode) -> nat {
    if requested == ResponseMode::Smart {
        SMART_EDGE as nat
    } else {
        PLAIN_EDGE as nat
    }
}

/// The raw payload: the backend's data as it came, with the line count.
pub open spec fn raw_json(raw: JsonV) -> JsonV {
    JsonV::Object(
        none().push(("mode"@, JsonV::Text("raw"@)))
            .push(("total_lines"@, JsonV::Number(Number::Unsigned(flattened(raw).len() as u64))))
            .push(("result"@, raw)),
    )
}

/// The truncated payload: the lines at either end, with the counts; in
/// smart mode also the patterns that rank first.
pub open spec fn truncated_json(requested: ResponseMode, raw: JsonV) -> JsonV {
    let entries = flattened(raw);
    let shown = edges(entries, edge_for(requested));
    let head = none().push(("mode"@, JsonV::Text("truncated"@)))
        .push(("total_lines"@, JsonV::Number(Number::Unsigned(entries.len() as u64))))
        .push(("shown_lines"@, JsonV::Number(Number::Unsigned(shown.len() as u64))))
        .push(("omitted_lines"@, JsonV::Number(Number::Unsigned((entries.len() - shown.len()) as u64))))
        .push(("lines"@, lines_json(shown)));
    if requested == ResponseMode::Smart {
        JsonV::Object(head.push(("pattern_summary"@, top_patterns_json(entries, false))))
    } else {
        JsonV::Object(head)
    }
}

/// The payload for a log result in the mode asked for.
pub open spec fn shaped(requested: ResponseMode, raw: JsonV) -> (ResponseMode, JsonV) {
    let entries = flattened(raw);
    match requested.resolved(entries.len()) {
        ResponseMode::Raw => (ResponseMode::Raw, raw_json(raw)),
        ResponseMode::Truncated => (ResponseMode::Truncated, truncated_json(requested, raw)),
        ResponseMode::Summary => (
            ResponseMode::Summary,
            summary_json(entries, requested == ResponseMode::Smart),
        ),
        ResponseMode::Smart => (ResponseMode::Raw, raw_json(raw)),
    }
}

fn pattern_counts(entries: &Vec<LogLineEntry>) -> (r: Vec<(String, u64)>)
    ensures
        named_view(r@) == pattern_tally(lines_view(entries@)),
{
    let mut patterns: Vec<(String, u64)> = Vec::new();
    let ghost all = lines_view(entries@);
    let mut i: usize = 0;
    assert(named_view(patterns@) =~= pattern_tally(all.take(0)));
    while i < entries.len()
        invariant
            i <= entries.len(),
            all == lines_view(entries@),
            named_view(patterns@) == pattern_tally(all.take(i as int)),
        decreases entries.len() - i,
    {
        proof {
            assert(all.take(i + 1).drop_last() == all.take(i as int));
            assert(all.take(i + 1).last() == entries@[i as int]@);
        }
        count_one(&mut patterns, normalize_pattern(entries[i].line.as_str()));
        i = i + 1;
    }
    assert(all.take(entries@.len() as int) == all);
    patterns
}

pub fn format_log_result(requested_mode: ResponseMode, raw_data: Json) -> (r: (ResponseMode, Json))
    ensures
        r.0 == shaped(requested_mode, raw_data@).0,
        r.1@ == shaped(requested_mode, raw_data@).1,
        r.0 == requested_mode.resolved(flattened(raw_data@).len()),
{
    let entries = flatten_log_entries(&raw_data);
    let applied_mode = requested_mode.resolve_for_line_count(entries.len());
    assert(lines_view(entries@).len() == entries@.len());
    match applied_mode {
        ResponseMode::Truncated => {
            let edge: usize = match requested_mode {
                ResponseMode::Smart => SMART_EDGE,
                _ => PLAIN_EDGE,
            };
            let (lines, omitted_lines) = truncate_lines(&entries, edge);
            assert(lines_view(lines@).len() == lines@.len());
            let mut members = no_members();
            push_member(&mut members, "mode", text_json("truncated"));
            push_member(&mut members, "total_lines", unsigned_json(entries.len() as u64));
            push_member(&mut members, "shown_lines", unsigned_json(lines.len() as u64));
            push_member(&mut members, "omitted_lines", unsigned_json(omitted_lines as u64));
            push_member(&mut members, "lines", lines_to_json(&lines));
            match requested_mode {
                ResponseMode::Smart => {
                    let tally = pattern_counts(&entries);
                    push_member(
                        &mut members,
                        "pattern_summary",
                        top_patterns_to_json(&entries, &tally, false),
                    );
                },
                _ => {},
            }
            (applied_mode, object_of(members))
        },
        ResponseMode::Summary => {
            let include_samples = match requested_mode {
                ResponseMode::Smart => true,
                _ => false,
            };
            (applied_mode, summary_payload(&entries, include_samples))
        },
        _ => {
            let mut members = no_members();
            push_member(&mut members, "mode", text_json("raw"));
            push_member(&mut members, "total_lines", unsigned_json(entries.len() as u64));
            push_member(&mut members, "result", raw_data);
            (ResponseMode::Raw, object_of(members))
        },
    }
}

/// A smart response of up to 50 lines is raw, hands the data back as it
/// came, and tells the number of lines.
pub proof fn smart_stays_raw_up_to_fifty(raw: JsonV)
    requires
        flattened(raw).len() <= SMART_RAW_LINES,
    ensures
        shaped(ResponseMode::Smart, raw).0 == ResponseMode::Raw,
        shaped(ResponseMode::Smart, raw).1 == raw_json(raw),
        lookup(
            shaped(ResponseMode::Smart, raw).1->Object_0,
            "total_lines"@,
        ) == Some(JsonV::Number(Number::Unsigned(flattened(raw).len() as u64))),
        lookup(shaped(ResponseMode::Smart, raw).1->Object_0, "result"@) == Some(raw),
        lookup(shaped(ResponseMode::Smart, raw).1->Object_0, "mode"@) == Some(
            JsonV::Text("raw"@),
        ),
{
    let members = raw_json(raw)->Object_0;
    reveal_strlit("mode");
    reveal_strlit("total_lines");
    reveal_strlit("result");
    assert(members.len() == 3);
    assert(members.last() == ("result"@, raw));
    assert(members.drop_last().last().0 == "total_lines"@);
    assert(members.drop_last().drop_last().last().0 == "mode"@);
    assert("mode"@ != "total_lines"@) by {
        assert("mode"@.len() == 4 && "total_lines"@.len() == 11);
    }
    assert("mode"@ != "result"@) by {
        assert("mode"@.len() == 4 && "result"@.len() == 6);
    }
    assert("total_lines"@ != "result"@) by {
        assert("result"@.len() == 6 && "total_lines"@.len() == 11);
    }
    reveal_with_fuel(lookup, 4);
}

} // verus!
