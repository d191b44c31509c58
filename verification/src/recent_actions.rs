//! The audit trail: the last invocations, kept for a time and up to a
//! number.
//!
//! The clock is read by whoever records; the trail is told the instant.

use vstd::prelude::*;
use std::collections::VecDeque;
use crate::time::{Instant, Span, RELATIVE_LIMIT_SECONDS};

verus! {

/// How an invocation ended.
#[derive(Debug, Clone, Copy, PartialEq, Eq, Structural)]
pub enum ActionOutcome {
    Success,
    Error,
    RateLimited,
    GuardrailReject,
    InvalidTool,
}

impl ActionOutcome {
    pub open spec fn word(self) -> Seq<char> {
        match self {
            ActionOutcome::Success => "success"@,
            ActionOutcome::Error => "error"@,
            ActionOutcome::RateLimited => "rate_limited"@,
            ActionOutcome::GuardrailReject => "guardrail_reject"@,
            ActionOutcome::InvalidTool => "invalid_tool"@,
        }
    }

    /// The name of the outcome.
    pub fn name(self) -> (r: &'static str)
        ensures
            r@ == self.word(),
    {
        match self {
            ActionOutcome::Success => "success",
            ActionOutcome::Error => "error",
            ActionOutcome::RateLimited => "rate_limited",
            ActionOutcome::GuardrailReject => "guardrail_reject",
            ActionOutcome::InvalidTool => "invalid_tool",
        }
    }
}

/// One invocation as the trail keeps it.
#[derive(Debug)]
pub struct RecentAction {
    pub timestamp: Instant,
    pub request_id: Option<String>,
    pub tool: String,
    pub outcome: ActionOutcome,
    pub duration_ms: u64,
    pub identity_hash: String,
    pub tenant_id: Option<String>,
    pub query: Option<String>,
    pub query_redacted: bool,
    pub error_class: Option<String>,
    pub error: Option<String>,
}

/// One invocation as it is reported to the trail.
#[derive(Debug)]
pub struct RecentActionInput {
    pub request_id: Option<String>,
    pub tool: String,
    pub outcome: ActionOutcome,
    pub duration_ms: u64,
    pub identity_hash: String,
    pub tenant_id: Option<String>,
    pub query: Option<String>,
    pub error_class: Option<String>,
    pub error: Option<String>,
}

fn copy_optional(text: &Option<String>) -> (r: Option<String>)
    ensures
        r == *text,
{
    match text {
        Some(s) => Some(s.clone()),
        None => None,
    }
}

impl RecentAction {
    pub fn duplicate(&self) -> (r: RecentAction)
        ensures
            r == *self,
    {
        RecentAction {
            timestamp: self.timestamp,
            request_id: copy_optional(&self.request_id),
            tool: self.tool.clone(),
            outcome: self.outcome,
            duration_ms: self.duration_ms,
            identity_hash: self.identity_hash.clone(),
            tenant_id: copy_optional(&self.tenant_id),
            query: copy_optional(&self.query),
            query_redacted: self.query_redacted,
            error_class: copy_optional(&self.error_class),
            error: copy_optional(&self.error),
        }
    }
}

impl Clone for RecentAction {
    fn clone(&self) -> (r: Self)
        ensures
            r == *self,
    {
        self.duplicate()
    }
}

/// The most entries that one listing hands out.
pub const LIST_LIMIT: usize = 1000;

/// The trail.
pub struct RecentActionsStore {
    pub max_entries: usize,
    pub ttl: Span,
    pub store_query_text: bool,
    pub store_error_text: bool,
    pub entries: VecDeque<RecentAction>,
}

/// An entry of that time has outlived `ttl` at `now`. A time to live too
/// long to be counted in milliseconds never runs out.
pub open spec fn expired(now: Instant, timestamp: Instant, ttl: Span) -> bool {
    ttl.secs < RELATIVE_LIMIT_SECONDS && now.at() - timestamp.at() > ttl.total()
}

/// The entries without those at the front that have outlived `ttl`.
pub open spec fn pruned(entries: Seq<RecentAction>, now: Instant, ttl: Span) -> Seq<RecentAction>
    decreases entries.len(),
{
    if entries.len() > 0 && expired(now, entries[0].timestamp, ttl) {
        pruned(entries.drop_first(), now, ttl)
    } else {
        entries
    }
}

/// The last `room` entries.
pub open spec fn newest(entries: Seq<RecentAction>, room: int) -> Seq<RecentAction> {
    if entries.len() > room {
        entries.skip(entries.len() - room)
    } else {
        entries
    }
}

/// No entry bears a later time than one behind it.
pub open spec fn chronological(entries: Seq<RecentAction>) -> bool {
    forall|i: int, j: int|
        0 <= i < j < entries.len() ==> !entries[i].timestamp.later_than(entries[j].timestamp)
}

/// No entry has outlived `ttl` at `now`.
pub open spec fn all_fresh(entries: Seq<RecentAction>, now: Instant, ttl: Span) -> bool {
    forall|i: int| 0 <= i < entries.len() ==> !expired(now, (#[trigger] entries[i]).timestamp, ttl)
}

pub open spec fn all_wf(entries: Seq<RecentAction>) -> bool {
    forall|i: int| 0 <= i < entries.len() ==> (#[trigger] entries[i]).timestamp.wf()
}

/// The entry that the trail keeps of a report: the query only where
/// queries are kept, and marked as left out where one was given and is
/// not kept; the error only where errors are kept.
pub open spec fn entry_for(
    input: RecentActionInput,
    now: Instant,
    store_query_text: bool,
    store_error_text: bool,
) -> RecentAction {
    RecentAction {
        timestamp: now,
        request_id: input.request_id,
        tool: input.tool,
        outcome: input.outcome,
        duration_ms: input.duration_ms,
        identity_hash: input.identity_hash,
        tenant_id: input.tenant_id,
        query: if store_query_text {
            input.query
        } else {
            None
        },
        query_redacted: input.query is Some && !store_query_text,
        error_class: input.error_class,
        error: if store_error_text {
            input.error
        } else {
            None
        },
    }
}

/// The limit of a listing held within 1 and 1000.
pub open spec fn bounded_limit(limit: usize) -> int {
    if limit < 1 {
        1
    } else if limit > LIST_LIMIT {
        LIST_LIMIT as int
    } else {
        limit as int
    }
}

/// The newest entries first, `limit` at most.
pub open spec fn listing(entries: Seq<RecentAction>, limit: int) -> Seq<RecentAction> {
    Seq::new(
        if entries.len() < limit {
            entries.len()
        } else {
            limit as nat
        },
        |i: int| entries[entries.len() - 1 - i],
    )
}

proof fn pruned_is_suffix(entries: Seq<RecentAction>, now: Instant, ttl: Span)
    ensures
        pruned(entries, now, ttl).len() <= entries.len(),
        pruned(entries, now, ttl) == entries.skip(
            entries.len() - pruned(entries, now, ttl).len(),
        ),
        pruned(entries, now, ttl).len() > 0 ==> !expired(
            now,
            pruned(entries, now, ttl)[0].timestamp,
            ttl,
        ),
    decreases entries.len(),
{
    if entries.len() > 0 && expired(now, entries[0].timestamp, ttl) {
        let rest = entries.drop_first();
        pruned_is_suffix(rest, now, ttl);
        let kept = pruned(rest, now, ttl);
        assert(rest.skip(rest.len() - kept.len()) =~= entries.skip(entries.len() - kept.len()));
    } else {
        assert(entries.skip(0) =~= entries);
    }
}

/// In a trail in order of time, once the front is fresh all is fresh.
pub proof fn pruned_trail_is_fresh(entries: Seq<RecentAction>, now: Instant, ttl: Span)
    requires
        chronological(entries),
        all_wf(entries),
    ensures
        all_fresh(pruned(entries, now, ttl), now, ttl),
        chronological(pruned(entries, now, ttl)),
{
    pruned_is_suffix(entries, now, ttl);
    let kept = pruned(entries, now, ttl);
    let from = entries.len() - kept.len();
    assert forall|i: int| 0 <= i < kept.len() implies !expired(
        now,
        (#[trigger] kept[i]).timestamp,
        ttl,
    ) by {
        assert(kept[i] == entries[from + i]);
        assert(kept[0] == entries[from + 0]);
        assert(entries[from].timestamp.wf() && entries[from + i].timestamp.wf());
        if i > 0 {
            assert(!entries[from].timestamp.later_than(entries[from + i].timestamp));
        }
        assert(entries[from].timestamp.at() <= entries[from + i].timestamp.at());
    }
    assert forall|i: int, j: int| 0 <= i < j < kept.len() implies !kept[i].timestamp.later_than(
        kept[j].timestamp,
    ) by {
        assert(kept[i] == entries[from + i]);
        assert(kept[j] == entries[from + j]);
    }
}

/// The room of a trail that is asked to hold `max_entries`: one entry at
/// the least, and no more than the machine can count.
pub open spec fn room_for(max_entries: u64) -> int {
    if max_entries == 0 {
        1
    } else if max_entries > usize::MAX {
        usize::MAX as int
    } else {
        max_entries as int
    }
}

impl RecentActionsStore {
    pub open spec fn wf(&self) -> bool {
        &&& self.max_entries >= 1
        &&& self.ttl.wf()
        &&& self.entries@.len() <= self.max_entries
        &&& all_wf(self.entries@)
    }

    /// A trail of at most `max_entries` entries, one at the least.
    pub fn new(max_entries: u64, ttl: Span, store_query_text: bool, store_error_text: bool) -> (r:
        Self)
        requires
            ttl.wf(),
        ensures
            r.wf(),
            r.entries@.len() == 0,
            r.ttl == ttl,
            r.store_query_text == store_query_text,
            r.store_error_text == store_error_text,
            r.max_entries == room_for(max_entries),
    {
        let bounded: u64 = if max_entries == 0 {
            1
        } else {
            max_entries
        };
        let room: usize = if bounded > usize::MAX as u64 {
            usize::MAX
        } else {
            bounded as usize
        };
        RecentActionsStore {
            max_entries: room,
            ttl,
            store_query_text,
            store_error_text,
            entries: VecDeque::new(),
        }
    }

    fn prune_expired(&mut self, now: Instant)
        requires
            old(self).wf(),
            now.wf(),
        ensures
            final(self).wf(),
            final(self).entries@ == pruned(old(self).entries@, now, old(self).ttl),
            final(self).max_entries == old(self).max_entries,
            final(self).ttl == old(self).ttl,
            final(self).store_query_text == old(self).store_query_text,
            final(self).store_error_text == old(self).store_error_text,
    {
        if self.ttl.secs >= RELATIVE_LIMIT_SECONDS {
            return ;
        }
        while self.entries.len() > 0
            invariant
                self.wf(),
                now.wf(),
                self.ttl.secs < RELATIVE_LIMIT_SECONDS,
                self.max_entries == old(self).max_entries,
                self.ttl == old(self).ttl,
                self.store_query_text == old(self).store_query_text,
                self.store_error_text == old(self).store_error_text,
                pruned(self.entries@, now, self.ttl) == pruned(
                    old(self).entries@,
                    now,
                    old(self).ttl,
                ),
            decreases self.entries@.len(),
        {
            let stamp = self.entries[0].timestamp;
            let outlived = match now.since(&stamp) {
                Some(age) => self.ttl.shorter_than(&age),
                None => false,
            };
            if !outlived {
                return ;
            }
            let ghost before = self.entries@;
            let _ = self.entries.pop_front();
            assert(self.entries@ == before.drop_first());
        }
    }

    /// Records an invocation at `now`: entries that have outlived the time
    /// to live leave from the front, then the oldest until there is room,
    /// then the entry joins at the back.
    pub fn record(&mut self, now: Instant, input: RecentActionInput)
        requires
            old(self).wf(),
            now.wf(),
        ensures
            final(self).wf(),
            final(self).entries@ == newest(
                pruned(old(self).entries@, now, old(self).ttl),
                old(self).max_entries - 1,
            ).push(entry_for(input, now, old(self).store_query_text, old(self).store_error_text)),
            final(self).entries@.len() <= final(self).max_entries,
            final(self).max_entries == old(self).max_entries,
            final(self).ttl == old(self).ttl,
            final(self).store_query_text == old(self).store_query_text,
            final(self).store_error_text == old(self).store_error_text,
    {
        self.prune_expired(now);
        let ghost kept = self.entries@;
        while self.entries.len() >= self.max_entries
            invariant
                self.wf(),
                self.max_entries == old(self).max_entries,
                self.ttl == old(self).ttl,
                self.store_query_text == old(self).store_query_text,
                self.store_error_text == old(self).store_error_text,
                self.entries@.len() <= kept.len(),
                self.entries@ == kept.skip(kept.len() - self.entries@.len()),
                self.entries@.len() == kept.len() || self.entries@.len() >= self.max_entries - 1,
            decreases self.entries@.len(),
        {
            let _ = self.entries.pop_front();
        }
        assert(self.entries@ == newest(kept, self.max_entries - 1)) by {
            assert(kept.skip(0) =~= kept);
        }
        let query_redacted = input.query.is_some() && !self.store_query_text;
        let query = if self.store_query_text {
            input.query
        } else {
            None
        };
        let error = if self.store_error_text {
            input.error
        } else {
            None
        };
        self.entries.push_back(
            RecentAction {
                timestamp: now,
                request_id: input.request_id,
                tool: input.tool,
                outcome: input.outcome,
                duration_ms: input.duration_ms,
                identity_hash: input.identity_hash,
                tenant_id: input.tenant_id,
                query,
                query_redacted,
                error_class: input.error_class,
                error,
            },
        );
    }

    /// The newest entries first, at most `limit` of them and at most 1000,
    /// after those that have outlived the time to live have left.
    pub fn list(&mut self, now: Instant, limit: usize) -> (r: Vec<RecentAction>)
        requires
            old(self).wf(),
            now.wf(),
        ensures
            final(self).wf(),
            final(self).entries@ == pruned(old(self).entries@, now, old(self).ttl),
            r@ == listing(final(self).entries@, bounded_limit(limit)),
            final(self).max_entries == old(self).max_entries,
            final(self).ttl == old(self).ttl,
    {
        let bounded: usize = if limit < 1 {
            1
        } else if limit > LIST_LIMIT {
            LIST_LIMIT
        } else {
            limit
        };
        self.prune_expired(now);
        let count: usize = if self.entries.len() < bounded {
            self.entries.len()
        } else {
            bounded
        };
        let mut out: Vec<RecentAction> = Vec::new();
        let mut i: usize = 0;
        while i < count
            invariant
                i <= count <= self.entries@.len(),
                out@.len() == i,
                forall|k: int| 0 <= k < i ==> out@[k] == self.entries@[self.entries@.len() - 1 - k],
            decreases count - i,
        {
            let at: usize = self.entries.len() - 1 - i;
            out.push(self.entries[at].duplicate());
            i = i + 1;
        }
        assert(out@ =~= listing(self.entries@, bounded as int));
        out
    }
}

/// The trail never holds more than it has room for, and in a trail in
/// order of time no entry has outlived the time to live once a record or a
/// listing at `now` is done.
pub proof fn trail_is_bounded_and_fresh(
    before: Seq<RecentAction>,
    now: Instant,
    ttl: Span,
    room: int,
    entry: RecentAction,
)
    requires
        room >= 1,
        chronological(before),
        all_wf(before),
        entry.timestamp == now,
        ttl.wf(),
    ensures
        newest(pruned(before, now, ttl), room - 1).push(entry).len() <= room,
        all_fresh(newest(pruned(before, now, ttl), room - 1).push(entry), now, ttl),
        all_fresh(pruned(before, now, ttl), now, ttl),
{
    pruned_trail_is_fresh(before, now, ttl);
    let kept = pruned(before, now, ttl);
    let last = newest(kept, room - 1);
    let after = last.push(entry);
    assert forall|i: int| 0 <= i < after.len() implies !expired(
        now,
        (#[trigger] after[i]).timestamp,
        ttl,
    ) by {
        if i < last.len() {
            if kept.len() > room - 1 {
                assert(last[i] == kept[kept.len() - (room - 1) + i]);
            } else {
                assert(last[i] == kept[i]);
            }
        }
    }
}

/// Recording at a time no earlier than the last keeps the trail in order
/// of time.
pub proof fn record_keeps_order(
    before: Seq<RecentAction>,
    now: Instant,
    ttl: Span,
    room: int,
    entry: RecentAction,
)
    requires
        room >= 1,
        chronological(before),
        entry.timestamp == now,
        forall|i: int| 0 <= i < before.len() ==> !before[i].timestamp.later_than(now),
    ensures
        chronological(newest(pruned(before, now, ttl), room - 1).push(entry)),
{
    pruned_is_suffix(before, now, ttl);
    let kept = pruned(before, now, ttl);
    let from = before.len() - kept.len();
    let last = newest(kept, room - 1);
    let after = last.push(entry);
    let cut = kept.len() - last.len();
    assert forall|i: int| 0 <= i < last.len() implies last[i] == before[from + cut + i] by {
        if kept.len() > room - 1 {
            assert(last[i] == kept[cut + i]);
        } else {
            assert(last[i] == kept[i]);
        }
        assert(kept[cut + i] == before[from + cut + i]);
    }
    assert forall|i: int, j: int| 0 <= i < j < after.len() implies !after[i].timestamp.later_than(
        after[j].timestamp,
    ) by {
        assert(after[i] == before[from + cut + i]);
        if j < last.len() {
            assert(after[j] == before[from + cut + j]);
        }
    }
}

/// A listing hands out the newest entries: the first is the last one
/// recorded, and each comes no earlier than the next in a trail in order
/// of time.
pub proof fn listing_is_newest_first(entries: Seq<RecentAction>, limit: int, i: int)
    requires
        limit >= 1,
        0 <= i < listing(entries, limit).len(),
    ensures
        listing(entries, limit).len() == (if entries.len() < limit {
            entries.len() as int
        } else {
            limit
        }),
        listing(entries, limit)[i] == entries[entries.len() - 1 - i],
        chronological(entries) && i + 1 < listing(entries, limit).len() ==> !listing(
            entries,
            limit,
        )[i + 1].timestamp.later_than(listing(entries, limit)[i].timestamp),
{
}

} // verus!
