use vstd::prelude::*;

use crate::clock::unix_now;
use crate::text::{join_str, str_equals};

verus! {

/// How long the shared store keeps an entry, in seconds.
pub const LEDGER_TTL_SECS: u64 = 86400;

/// The outcome recorded for a processed event.
#[derive(Debug, Clone)]
pub enum EventResult {
    Success { user_id: u128, plan: String },
    Failed { error: String },
    Duplicate,
}

/// A ledger entry. `processed_at` is in Unix seconds.
#[derive(Debug, Clone)]
pub struct ProcessedEvent {
    pub event_id: String,
    pub processed_at: i64,
    pub result: EventResult,
}

/// The entry for `id` among `s`; a later entry wins over an earlier one.
pub open spec fn find_entry(s: Seq<ProcessedEvent>, id: Seq<char>) -> Option<ProcessedEvent>
    decreases s.len(),
{
    if s.len() == 0 {
        None
    } else if s.last().event_id@ == id {
        Some(s.last())
    } else {
        find_entry(s.drop_last(), id)
    }
}

/// What recording an entry does to the ledger: an id that is already there
/// keeps its entry; otherwise the new entry is added.
pub open spec fn record_effect(
    m: Map<Seq<char>, ProcessedEvent>,
    entry: ProcessedEvent,
) -> Map<Seq<char>, ProcessedEvent> {
    if m.contains_key(entry.event_id@) {
        m
    } else {
        m.insert(entry.event_id@, entry)
    }
}

/// The in-process idempotency ledger: at most one entry per event id, never
/// overwritten.
pub struct IdempotencyStore {
    processed_events: Vec<ProcessedEvent>,
}

impl View for IdempotencyStore {
    type V = Map<Seq<char>, ProcessedEvent>;

    closed spec fn view(&self) -> Map<Seq<char>, ProcessedEvent> {
        Map::new(
            |k: Seq<char>| find_entry(self.processed_events@, k) is Some,
            |k: Seq<char>| find_entry(self.processed_events@, k)->0,
        )
    }
}

impl IdempotencyStore {
    /// An empty ledger.
    pub fn new() -> (r: Self)
        ensures
            r@ == Map::<Seq<char>, ProcessedEvent>::empty(),
    {
        let r = IdempotencyStore { processed_events: Vec::new() };
        assert(r@ =~= Map::<Seq<char>, ProcessedEvent>::empty());
        r
    }

    /// Whether an entry for `event_id` exists.
    pub fn is_processed(&self, event_id: &str) -> (r: bool)
        ensures
            r == self@.contains_key(event_id@),
    {
        let s = &self.processed_events;
        let mut i: usize = s.len();
        assert(s@ =~= s@.subrange(0, i as int));
        while i > 0
            invariant
                s@ == self.processed_events@,
                i <= s@.len(),
                find_entry(s@, event_id@) == find_entry(s@.subrange(0, i as int), event_id@),
            decreases i,
        {
            let k = i - 1;
            if str_equals(s[k].event_id.as_str(), event_id) {
                assert(s@.subrange(0, i as int).last() == s@[k as int]);
                return true;
            }
            assert(s@.subrange(0, i as int).drop_last() =~= s@.subrange(0, k as int));
            i = k;
        }
        false
    }

    /// Records `result` for `event_id` at time `now`, unless the id already has
    /// an entry. True when this call added the entry.
    pub fn mark_processed_at(&mut self, event_id: String, result: EventResult, now: i64) -> (r: bool)
        ensures
            r == !old(self)@.contains_key(event_id@),
            final(self)@ == record_effect(
                old(self)@,
                (ProcessedEvent { event_id: event_id, processed_at: now, result: result }),
            ),
    {
        if self.is_processed(event_id.as_str()) {
            return false;
        }
        let entry = ProcessedEvent { event_id, processed_at: now, result };
        let ghost before = self.processed_events@;
        let ghost e = entry;
        self.processed_events.push(entry);
        proof {
            assert forall|k: Seq<char>| #[trigger] find_entry(self.processed_events@, k)
                == if k == e.event_id@ { Some(e) } else { find_entry(before, k) } by {
                assert(self.processed_events@.drop_last() =~= before);
            }
        }
        assert(self@ =~= old(self)@.insert(e.event_id@, e));
        true
    }

    /// Records `result` for `event_id` at the current time, as `mark_processed_at` does.
    pub fn mark_processed(&mut self, event_id: String, result: EventResult) -> (r: bool)
        ensures
            r == !old(self)@.contains_key(event_id@),
            exists|now: i64|
                final(self)@ == record_effect(
                    old(self)@,
                    (ProcessedEvent { event_id: event_id, processed_at: now, result: result }),
                ),
    {
        let now = unix_now();
        self.mark_processed_at(event_id, result, now)
    }
}

/// The key under which the shared store holds an event's entry.
pub fn shared_store_key(event_id: &str) -> (r: String)
    ensures
        r@ == "event:"@ + event_id@,
{
    join_str("event:", event_id)
}

/// Once an entry is recorded, its event id counts as processed.
pub proof fn recorded_is_processed(m: Map<Seq<char>, ProcessedEvent>, entry: ProcessedEvent)
    ensures
        record_effect(m, entry).contains_key(entry.event_id@),
{
}

/// Recording never removes or changes an entry that was there.
pub proof fn recorded_entries_are_kept(m: Map<Seq<char>, ProcessedEvent>, entry: ProcessedEvent, id: Seq<char>)
    requires
        m.contains_key(id),
    ensures
        record_effect(m, entry).contains_key(id),
        record_effect(m, entry)[id] == m[id],
{
}

} // verus!
