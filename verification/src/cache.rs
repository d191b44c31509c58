//! The cache of tool results, kept by `moka`.
//!
//! What the cache still holds depends on the clock and on how full it is,
//! so a look-up may come back empty at any time. What it does promise is
//! that a value it hands out is the one last stored under the key.

use vstd::prelude::*;
use crate::json::{Json, JsonV};
use crate::time::Span;

verus! {

#[verifier::external_type_specification]
#[verifier::external_body]
#[verifier::reject_recursive_types(K)]
#[verifier::reject_recursive_types(V)]
#[verifier::reject_recursive_types(S)]
pub struct ExCache<K, V, S>(moka::sync::Cache<K, V, S>);

/// The value last stored under each key, whether or not the cache still
/// holds it.
pub uninterp spec fn stored(cache: moka::sync::Cache<String, Json>) -> Map<Seq<char>, JsonV>;

/// A cache in which nothing was ever stored.
pub open spec fn nothing_stored() -> Map<Seq<char>, JsonV> {
    Map::empty()
}

/// The longest time to live that the cache takes: 1000 years of 365 days,
/// in seconds.
pub const MAX_TTL_SECONDS: u64 = 31_536_000_000;

/// `Cache::builder`, `max_capacity`, `time_to_live` and `build` of `moka`:
/// a cache in which nothing has been stored. `build` panics on a time to
/// live above 1000 years, which is left out, as are nanoseconds that
/// make up a second or more.
#[verifier::external_body]
fn build_cache(max_entries: u64, ttl_secs: u64, ttl_nanos: u32) -> (r: moka::sync::Cache<String, Json>)
    requires
        ttl_secs < MAX_TTL_SECONDS,
        ttl_nanos < 1_000_000_000,
    ensures
        stored(r) == nothing_stored(),
{
    moka::sync::Cache::builder().max_capacity(max_entries).time_to_live(
        std::time::Duration::new(ttl_secs, ttl_nanos),
    ).build()
}

/// `Cache::get` of `moka`: the value under the key where the cache holds
/// one, which is then the value last stored under it.
#[verifier::external_body]
fn cache_get(cache: &moka::sync::Cache<String, Json>, key: &str) -> (r: Option<Json>)
    ensures
        r is Some ==> stored(*cache).contains_key(key@) && r->0@ == stored(*cache)[key@],
{
    cache.get(key)
}

/// `Cache::insert` of `moka`: stores the value under the key in place of
/// any earlier one.
#[verifier::external_body]
fn cache_insert(cache: &mut moka::sync::Cache<String, Json>, key: String, value: Json)
    ensures
        stored(*final(cache)) == stored(*old(cache)).insert(key@, value@),
{
    cache.insert(key, value)
}

/// A bounded cache of tool results by fingerprint, each kept for a time.
pub struct QueryCache {
    pub cache: moka::sync::Cache<String, Json>,
}

impl View for QueryCache {
    type V = Map<Seq<char>, JsonV>;

    open spec fn view(&self) -> Map<Seq<char>, JsonV> {
        stored(self.cache)
    }
}

/// A look-up may find nothing; what it finds is what was last stored.
pub open spec fn found(entries: Map<Seq<char>, JsonV>, key: Seq<char>, result: Option<JsonV>) -> bool {
    result is Some ==> entries.contains_key(key) && result->0 == entries[key]
}

impl QueryCache {
    pub fn new(max_entries: u64, ttl: Span) -> (r: Self)
        requires
            ttl.wf(),
            ttl.secs < MAX_TTL_SECONDS,
        ensures
            r@ == nothing_stored(),
    {
        QueryCache { cache: build_cache(max_entries, ttl.secs, ttl.nanos) }
    }

    pub fn get(&self, key: &str) -> (r: Option<Json>)
        ensures
            found(
                self@,
                key@,
                match r {
                    Some(v) => Some(v@),
                    None => None,
                },
            ),
    {
        cache_get(&self.cache, key)
    }

    pub fn insert(&mut self, key: String, value: Json)
        ensures
            final(self)@ == old(self)@.insert(key@, value@),
    {
        cache_insert(&mut self.cache, key, value)
    }
}

/// Two look-ups under one key, with nothing stored in between, that both
/// find a value find the same: the value that was stored.
pub proof fn lookups_agree(
    entries: Map<Seq<char>, JsonV>,
    key: Seq<char>,
    first: Option<JsonV>,
    second: Option<JsonV>,
)
    requires
        found(entries, key, first),
        found(entries, key, second),
        first is Some,
        second is Some,
    ensures
        first == second,
        first == Some(entries[key]),
{
}

/// What is stored under a key is found there until something else is
/// stored under it: storing under another key changes nothing.
pub proof fn stored_value_stays(
    entries: Map<Seq<char>, JsonV>,
    key: Seq<char>,
    value: JsonV,
    other: Seq<char>,
    other_value: JsonV,
    result: Option<JsonV>,
)
    requires
        other != key,
        found(entries.insert(key, value).insert(other, other_value), key, result),
        result is Some,
    ensures
        result == Some(value),
{
}

} // verus!
