//! The progress store: per-search counters, keyed by search identifier.
//!
//! One record exists per started search. The engine running a search is the
//! only writer of its record; any number of queries may read it. The counter
//! for an identifier never decreases, and once `found` is set it is never
//! reset.

use vstd::prelude::*;
use std::collections::HashMap;

verus! {

broadcast use vstd::std_specs::hash::group_hash_axioms;

/// Progress counters for one search: how many trials have completed,
/// whether a matching address has been found, and the trial budget the
/// search was started with.
#[derive(Clone, Copy, PartialEq, Eq, Structural, Debug)]
pub struct ProgressRecord {
    pub attempts_completed: u64,
    pub found: bool,
    pub total_budget: u64,
}

impl ProgressRecord {
    /// The record a search with the given budget starts from: no attempts,
    /// nothing found.
    pub open spec fn started(budget: u64) -> ProgressRecord {
        ProgressRecord { attempts_completed: 0, found: false, total_budget: budget }
    }
}

/// Adding one attempt to a count, capped at the counter's width.
pub open spec fn bump(n: u64) -> u64 {
    if n == u64::MAX {
        n
    } else {
        (n + 1) as u64
    }
}

/// What one call of `increment_attempts` does to the store's contents: the
/// record for `id` gains one attempt, an unknown `id` changes nothing.
pub open spec fn increment_of(m: Map<u64, ProgressRecord>, id: u64) -> Map<u64, ProgressRecord> {
    if m.contains_key(id) {
        m.insert(
            id,
            ProgressRecord {
                attempts_completed: bump(m[id].attempts_completed),
                found: m[id].found,
                total_budget: m[id].total_budget,
            },
        )
    } else {
        m
    }
}

/// What one call of `mark_found` does to the store's contents: the record
/// for `id` has `found` set, an unknown `id` changes nothing.
pub open spec fn mark_of(m: Map<u64, ProgressRecord>, id: u64) -> Map<u64, ProgressRecord> {
    if m.contains_key(id) {
        m.insert(
            id,
            ProgressRecord {
                attempts_completed: m[id].attempts_completed,
                found: true,
                total_budget: m[id].total_budget,
            },
        )
    } else {
        m
    }
}

/// A mapping from search identifier to its progress record, shared between
/// the search that writes it and the queries that read it.
///
/// Records live until `stop_tracking`. The store cannot know when the last
/// poll for a resolved search has happened, so reaping is the caller's
/// decision, made once the outcome has been delivered; without it entries
/// accumulate for the life of the store.
pub struct ProgressStore {
    records: HashMap<u64, ProgressRecord>,
}

impl View for ProgressStore {
    type V = Map<u64, ProgressRecord>;

    closed spec fn view(&self) -> Map<u64, ProgressRecord> {
        self.records@
    }
}

impl ProgressStore {
    /// An empty store: no search is tracked.
    pub fn new() -> (r: ProgressStore)
        ensures
            r@ == Map::<u64, ProgressRecord>::empty(),
    {
        ProgressStore { records: HashMap::new() }
    }

    /// Registers a fresh zero-valued record for `id` with the search's
    /// trial budget, replacing any record that identifier already had.
    pub fn start_tracking(&mut self, id: u64, budget: u64)
        ensures
            final(self)@ == old(self)@.insert(id, ProgressRecord::started(budget)),
    {
        self.records.insert(
            id,
            ProgressRecord { attempts_completed: 0, found: false, total_budget: budget },
        );
    }

    /// Adds one completed attempt to the record for `id`; an unknown `id` is
    /// ignored. The count never decreases and `found` is untouched.
    pub fn increment_attempts(&mut self, id: u64)
        ensures
            final(self)@ == increment_of(old(self)@, id),
    {
        let cur: Option<ProgressRecord> = match self.records.get(&id) {
            Some(rec) => Some(*rec),
            None => None,
        };
        match cur {
            Some(rec) => {
                let bumped = if rec.attempts_completed == u64::MAX {
                    rec.attempts_completed
                } else {
                    rec.attempts_completed + 1
                };
                self.records.insert(
                    id,
                    ProgressRecord {
                        attempts_completed: bumped,
                        found: rec.found,
                        total_budget: rec.total_budget,
                    },
                );
            },
            None => {},
        }
    }

    /// Sets `found` for the record of `id`, keeping its count; an unknown
    /// `id` is ignored. Once set, no store operation but `start_tracking`
    /// resets it.
    pub fn mark_found(&mut self, id: u64)
        ensures
            final(self)@ == mark_of(old(self)@, id),
    {
        let cur: Option<ProgressRecord> = match self.records.get(&id) {
            Some(rec) => Some(*rec),
            None => None,
        };
        match cur {
            Some(rec) => {
                self.records.insert(
                    id,
                    ProgressRecord {
                        attempts_completed: rec.attempts_completed,
                        found: true,
                        total_budget: rec.total_budget,
                    },
                );
            },
            None => {},
        }
    }

    /// A snapshot of the record for `id`, or `None` for an identifier that
    /// was never tracked. Reading changes nothing and cannot fail.
    pub fn read_progress(&self, id: u64) -> (r: Option<ProgressRecord>)
        ensures
            self@.contains_key(id) ==> r == Some(self@[id]),
            !self@.contains_key(id) ==> r is None,
    {
        match self.records.get(&id) {
            Some(rec) => Some(*rec),
            None => None,
        }
    }

    /// Drops the record for `id`: the reap step for a search that has
    /// resolved and will not be polled again. Without it entries would
    /// accumulate for the life of the store.
    pub fn stop_tracking(&mut self, id: u64)
        ensures
            final(self)@ == old(self)@.remove(id),
    {
        let _ = self.records.remove(&id);
    }

    /// How many searches the store tracks.
    pub fn count(&self) -> (r: usize)
        ensures
            r == self@.len(),
    {
        self.records.len()
    }
}

/// The counter of a tracked record never decreases under the search's
/// writes, once its `found` flag is set neither write resets it, and its
/// budget never changes.
pub proof fn lemma_writes_keep_ordering(m: Map<u64, ProgressRecord>, id: u64, k: u64)
    requires
        m.contains_key(k),
    ensures
        increment_of(m, id).contains_key(k),
        increment_of(m, id)[k].attempts_completed >= m[k].attempts_completed,
        increment_of(m, id)[k].found == m[k].found,
        increment_of(m, id)[k].total_budget == m[k].total_budget,
        mark_of(m, id).contains_key(k),
        mark_of(m, id)[k].attempts_completed == m[k].attempts_completed,
        mark_of(m, id)[k].total_budget == m[k].total_budget,
        m[k].found ==> mark_of(m, id)[k].found,
{
}

/// Repeated increments of the record for `id`.
pub open spec fn increments_of(m: Map<u64, ProgressRecord>, id: u64, n: nat) -> Map<
    u64,
    ProgressRecord,
>
    decreases n,
{
    if n == 0 {
        m
    } else {
        increment_of(increments_of(m, id, (n - 1) as nat), id)
    }
}

/// A freshly tracked record incremented `n` times reads back a count of
/// exactly `n`, with nothing found and its budget kept: no update is lost
/// and none is invented.
pub proof fn lemma_increment_count(m: Map<u64, ProgressRecord>, id: u64, b: u64, n: nat)
    requires
        n <= u64::MAX,
    ensures
        increments_of(m.insert(id, ProgressRecord::started(b)), id, n).contains_key(id),
        increments_of(m.insert(id, ProgressRecord::started(b)), id, n)[id].attempts_completed
            == n,
        !increments_of(m.insert(id, ProgressRecord::started(b)), id, n)[id].found,
        increments_of(m.insert(id, ProgressRecord::started(b)), id, n)[id].total_budget == b,
    decreases n,
{
    if n > 0 {
        lemma_increment_count(m, id, b, (n - 1) as nat);
    }
}

} // verus!
