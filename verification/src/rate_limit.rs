//! The rate limit per tool, caller and tenant, kept by `governor`.

use vstd::prelude::*;
use crate::text::{join2, push_text};

verus! {

/// A keyed `governor` rate limiter with its clock.
#[verifier::external_body]
pub struct KeyedLimiter {
    inner: governor::DefaultKeyedRateLimiter<String>,
}

/// What the limiter keeps under each key that it has been asked about: the
/// time at which the bucket of the key is full again, in nanoseconds since
/// the limiter was made.
pub uninterp spec fn arrival_times(limiter: KeyedLimiter) -> Map<Seq<char>, u64>;

/// A limiter that has been asked about nobody.
pub open spec fn nobody_admitted() -> Map<Seq<char>, u64> {
    Map::empty()
}

/// `Quota::per_second`, `Quota::allow_burst` and `RateLimiter::keyed` of
/// `governor`: a limiter that keeps nothing yet. Both numbers must be
/// positive, as `NonZeroU32` asks.
#[verifier::external_body]
fn keyed_limiter(per_second: u32, burst: u32) -> (r: KeyedLimiter)
    requires
        per_second > 0,
        burst > 0,
    ensures
        arrival_times(r) == nobody_admitted(),
{
    let rate = std::num::NonZeroU32::new(per_second).unwrap_or(std::num::NonZeroU32::MIN);
    let most = std::num::NonZeroU32::new(burst).unwrap_or(std::num::NonZeroU32::MIN);
    let quota = governor::Quota::per_second(rate).allow_burst(most);
    KeyedLimiter { inner: governor::RateLimiter::keyed(quota) }
}

/// `RateLimiter::check_key` of `governor`. A key that the limiter keeps
/// nothing under has a full bucket and is admitted; whether another key is
/// admitted depends on the clock. Afterwards the limiter keeps the key.
/// Nothing changes under any other key, and a denial changes nothing at
/// all. A denial comes with the words in which `governor` says how long to
/// wait.
#[verifier::external_body]
fn check_key(limiter: &mut KeyedLimiter, key: &String) -> (r: Result<(), String>)
    ensures
        arrival_times(*final(limiter)).remove(key@) == arrival_times(*old(limiter)).remove(key@),
        arrival_times(*final(limiter)).contains_key(key@),
        !arrival_times(*old(limiter)).contains_key(key@) ==> r is Ok,
        r is Err ==> arrival_times(*final(limiter)) == arrival_times(*old(limiter)),
{
    match limiter.inner.check_key(key) {
        Ok(_) => Ok(()),
        Err(wait) => Err(format!("{wait}")),
    }
}

/// The limiter of the tools.
pub struct ToolRateLimiter {
    pub limiter: KeyedLimiter,
}

impl View for ToolRateLimiter {
    type V = Map<Seq<char>, u64>;

    open spec fn view(&self) -> Map<Seq<char>, u64> {
        arrival_times(self.limiter)
    }
}

pub open spec fn tenant_or_default(tenant_id: Option<&str>) -> Seq<char> {
    match tenant_id {
        Some(t) => t@,
        None => "default_tenant"@,
    }
}

/// The key under which a caller of a tool is counted.
pub open spec fn limit_key(tool_name: Seq<char>, identity: Seq<char>, tenant: Seq<char>) -> Seq<
    char,
> {
    tool_name + "|"@ + identity + "|"@ + tenant
}

/// The message of a denial.
pub open spec fn denial_words(tool_name: Seq<char>, identity: Seq<char>, wait: Seq<char>) -> Seq<
    char,
> {
    "rate limit exceeded for tool="@ + tool_name + ", identity="@ + identity + ": "@ + wait
}

pub fn rate_limit_key(tool_name: &str, identity: &str, tenant_id: Option<&str>) -> (r: String)
    ensures
        r@ == limit_key(tool_name@, identity@, tenant_or_default(tenant_id)),
{
    let mut key = join2(tool_name, "|");
    push_text(&mut key, identity);
    push_text(&mut key, "|");
    match tenant_id {
        Some(t) => push_text(&mut key, t),
        None => push_text(&mut key, "default_tenant"),
    }
    key
}

pub fn denial_message(tool_name: &str, identity: &str, wait: &str) -> (r: String)
    ensures
        r@ == denial_words(tool_name@, identity@, wait@),
{
    let mut message = join2("rate limit exceeded for tool=", tool_name);
    push_text(&mut message, ", identity=");
    push_text(&mut message, identity);
    push_text(&mut message, ": ");
    push_text(&mut message, wait);
    message
}

impl ToolRateLimiter {
    /// A limiter that refills `rps` tokens a second and holds `burst` at
    /// most; none where either is zero.
    pub fn new(rps: u32, burst: u32) -> (r: Option<Self>)
        ensures
            r is Some == (rps > 0 && burst > 0),
            r is Some ==> r->0@ == nobody_admitted(),
    {
        if rps == 0 || burst == 0 {
            return None;
        }
        Some(ToolRateLimiter { limiter: keyed_limiter(rps, burst) })
    }

    /// Asks for one token under the key of the caller. A caller whose key
    /// the limiter keeps nothing under finds a full bucket and is
    /// admitted; afterwards the limiter keeps the key. Whatever the
    /// answer, nothing changes under any other key, and a denial changes
    /// nothing at all; its message names the tool and the caller.
    pub fn check(&mut self, tool_name: &str, identity: &str, tenant_id: Option<&str>) -> (r: Result<
        (),
        String,
    >)
        ensures
            final(self)@.remove(limit_key(tool_name@, identity@, tenant_or_default(tenant_id)))
                == old(self)@.remove(
                limit_key(tool_name@, identity@, tenant_or_default(tenant_id)),
            ),
            final(self)@.contains_key(
                limit_key(tool_name@, identity@, tenant_or_default(tenant_id)),
            ),
            !old(self)@.contains_key(
                limit_key(tool_name@, identity@, tenant_or_default(tenant_id)),
            ) ==> r is Ok,
            r is Err ==> final(self)@ == old(self)@,
            r is Err ==> exists|wait: Seq<char>|
                r->Err_0@ == denial_words(tool_name@, identity@, wait),
    {
        let key = rate_limit_key(tool_name, identity, tenant_id);
        let answer = check_key(&mut self.limiter, &key);
        match answer {
            Ok(()) => Ok(()),
            Err(wait) => Err(denial_message(tool_name, identity, wait.as_str())),
        }
    }
}

/// Denials are isolated: a denial under one key leaves the limiter as it
/// was, so what it decides under any other key is what it would have
/// decided without the denial.
pub proof fn denial_is_isolated(
    before: Map<Seq<char>, u64>,
    after: Map<Seq<char>, u64>,
    denied: Seq<char>,
    other: Seq<char>,
)
    requires
        after == before,
        other != denied,
    ensures
        after.contains_key(other) == before.contains_key(other),
        after.contains_key(other) ==> after[other] == before[other],
{
}

/// An admission is isolated too: it changes at most what is kept under
/// its own key.
pub proof fn admission_is_isolated(
    before: Map<Seq<char>, u64>,
    after: Map<Seq<char>, u64>,
    admitted: Seq<char>,
    other: Seq<char>,
)
    requires
        after.remove(admitted) == before.remove(admitted),
        other != admitted,
    ensures
        after.contains_key(other) == before.contains_key(other),
        after.contains_key(other) ==> after[other] == before[other],
{
    assert(after.remove(admitted).contains_key(other) == after.contains_key(other));
    assert(before.remove(admitted).contains_key(other) == before.contains_key(other));
    if after.contains_key(other) {
        assert(after.remove(admitted)[other] == after[other]);
        assert(before.remove(admitted)[other] == before[other]);
    }
}

} // verus!
