//! Values that the backend answers with.

use vstd::prelude::*;
use crate::json::{find_member, lookup, object_view, Json, JsonV, Members, Number};
use crate::text::{parse_u64, unsigned_reading};

verus! {

/// The envelope in which the backend wraps an answer.
pub struct LokiApiResponse<T> {
    pub status: String,
    pub data: T,
    pub warnings: Vec<String>,
    pub error: Option<String>,
    pub error_type: Option<String>,
}

/// Whether the backend is fit to serve, with what was learnt on the way.
pub struct LokiHealth {
    pub healthy: bool,
    pub message: Option<String>,
    pub build_info: Option<Json>,
    pub ring_status: Option<Json>,
}

/// The cost estimate of a query over a range.
pub struct LokiQueryStats {
    pub bytes_processed: Option<u64>,
    pub streams: Option<u64>,
    pub chunks: Option<u64>,
    pub entries: Option<u64>,
    pub raw: Json,
}

/// The four counts of an estimate.
pub struct Estimate {
    pub bytes_processed: Option<u64>,
    pub streams: Option<u64>,
    pub chunks: Option<u64>,
    pub entries: Option<u64>,
}

impl LokiQueryStats {
    pub open spec fn counts(&self) -> Estimate {
        Estimate {
            bytes_processed: self.bytes_processed,
            streams: self.streams,
            chunks: self.chunks,
            entries: self.entries,
        }
    }
}

/// The count that a JSON value states: an unsigned number, or a text that
/// reads as one.
pub open spec fn count_of(value: JsonV) -> Option<u64> {
    match value {
        JsonV::Number(Number::Unsigned(n)) => Some(n),
        JsonV::Text(s) => match unsigned_reading(s) {
            Some(n) => if n <= u64::MAX {
                Some(n as u64)
            } else {
                None
            },
            None => None,
        },
        _ => None,
    }
}

/// The count that the member `key` of an object states.
pub open spec fn member_count(members: Members, key: Seq<char>) -> Option<u64> {
    match lookup(members, key) {
        Some(found) => count_of(found),
        None => None,
    }
}

/// The count of an object under the first of three spellings of a name
/// that states one.
pub open spec fn count_under(value: JsonV, a: Seq<char>, b: Seq<char>, c: Seq<char>) -> Option<
    u64,
> {
    match value {
        JsonV::Object(members) => if member_count(members, a) is Some {
            member_count(members, a)
        } else if member_count(members, b) is Some {
            member_count(members, b)
        } else {
            member_count(members, c)
        },
        _ => None,
    }
}

/// The estimate that a stats document states.
pub open spec fn estimate_of(value: JsonV) -> Estimate {
    Estimate {
        bytes_processed: count_under(value, "bytes"@, "bytesProcessed"@, "bytes_processed"@),
        streams: count_under(value, "streams"@, "streamCount"@, "stream_count"@),
        chunks: count_under(value, "chunks"@, "chunkCount"@, "chunk_count"@),
        entries: count_under(value, "entries"@, "entryCount"@, "entry_count"@),
    }
}

pub fn parse_u64_value(value: &Json) -> (r: Option<u64>)
    ensures
        r == count_of(value@),
{
    match value {
        Json::Number(Number::Unsigned(n)) => Some(*n),
        Json::Text(s) => parse_u64(s.as_str()),
        _ => None,
    }
}

fn extract_u64(value: &Json, a: &str, b: &str, c: &str) -> (r: Option<u64>)
    ensures
        r == count_under(value@, a@, b@, c@),
{
    match value {
        Json::Object(members) => {
            proof {
                object_view(*members);
            }
            if let Some(found) = find_member(members, a) {
                if let Some(n) = parse_u64_value(found) {
                    return Some(n);
                }
            }
            if let Some(found) = find_member(members, b) {
                if let Some(n) = parse_u64_value(found) {
                    return Some(n);
                }
            }
            if let Some(found) = find_member(members, c) {
                if let Some(n) = parse_u64_value(found) {
                    return Some(n);
                }
            }
            None
        },
        _ => None,
    }
}

impl LokiQueryStats {
    /// Reads an estimate from a stats document, which is kept beside it.
    pub fn from_value(value: Json) -> (r: Self)
        ensures
            r.counts() == estimate_of(value@),
            r.raw@ == value@,
    {
        let bytes_processed = extract_u64(&value, "bytes", "bytesProcessed", "bytes_processed");
        let streams = extract_u64(&value, "streams", "streamCount", "stream_count");
        let chunks = extract_u64(&value, "chunks", "chunkCount", "chunk_count");
        let entries = extract_u64(&value, "entries", "entryCount", "entry_count");
        LokiQueryStats { bytes_processed, streams, chunks, entries, raw: value }
    }
}

} // verus!
