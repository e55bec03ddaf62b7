//! A bounded, chronological log of past query executions.
use std::time::Duration;
use vstd::prelude::*;
use vstd::slice::slice_subrange;

use crate::query::Query;

verus! {

/// One past execution.
#[derive(Debug, Clone)]
pub struct QueryHistoryEntry {
    pub query: Query,
    pub database: String,
    /// ISO-8601 time of the run.
    pub timestamp: String,
    pub execution_time: Duration,
    pub success: bool,
}

/// At most `max_entries` entries, oldest first. When an insertion overflows
/// the capacity, the oldest entry is evicted.
pub struct QueryHistory {
    entries: Vec<QueryHistoryEntry>,
    max_entries: usize,
}

/// The last `n` items of `s`, or all of `s` where it holds no more than `n`.
pub open spec fn last_n<T>(s: Seq<T>, n: nat) -> Seq<T> {
    if s.len() <= n {
        s
    } else {
        s.subrange(s.len() - n, s.len() as int)
    }
}

/// The log after appending `e` to `s` under capacity `max`.
pub open spec fn added<T>(s: Seq<T>, max: nat, e: T) -> Seq<T> {
    if s.len() + 1 > max {
        s.push(e).drop_first()
    } else {
        s.push(e)
    }
}

/// The log after appending each of `es` in turn to `s` under capacity `max`.
pub open spec fn added_all<T>(s: Seq<T>, max: nat, es: Seq<T>) -> Seq<T>
    decreases es.len(),
{
    if es.len() == 0 {
        s
    } else {
        added(added_all(s, max, es.drop_last()), max, es.last())
    }
}

/// Appending entries one at a time to a log that is within its capacity
/// keeps it within capacity, and what survives is exactly the most recent
/// `max` of everything inserted, in insertion order.
pub proof fn lemma_history_keeps_latest<T>(s: Seq<T>, max: nat, es: Seq<T>)
    requires
        s.len() <= max,
    ensures
        added_all(s, max, es).len() <= max,
        added_all(s, max, es) == last_n(s + es, max),
    decreases es.len(),
{
    if es.len() == 0 {
        assert(s + es =~= s);
    } else {
        let t = s + es.drop_last();
        let e = es.last();
        lemma_history_keeps_latest(s, max, es.drop_last());
        assert(s + es =~= t.push(e));
        let a = last_n(t, max);
        if t.len() + 1 > max {
            assert(added(a, max, e) =~= last_n(t.push(e), max));
        } else {
            assert(added(a, max, e) =~= last_n(t.push(e), max));
        }
    }
}

/// A history restored from saved entries with a capacity no smaller than
/// their number holds those entries unchanged, in the same order.
pub proof fn lemma_restore_keeps_entries<T>(saved: Seq<T>, max: nat)
    requires
        saved.len() <= max,
    ensures
        last_n(saved, max) == saved,
{
}

impl QueryHistory {
    /// The stored entries, oldest first.
    pub closed spec fn stored(&self) -> Seq<QueryHistoryEntry> {
        self.entries@
    }

    /// The most entries kept.
    pub closed spec fn capacity(&self) -> nat {
        self.max_entries as nat
    }

    /// Never more entries than the capacity.
    pub open spec fn wf(&self) -> bool {
        self.stored().len() <= self.capacity()
    }

    /// An empty history that keeps at most `max_entries` entries.
    pub fn new(max_entries: usize) -> (r: Self)
        ensures
            r.wf(),
            r.stored() == Seq::<QueryHistoryEntry>::empty(),
            r.capacity() == max_entries,
    {
        QueryHistory { entries: Vec::new(), max_entries }
    }

    /// A history restored from saved entries. Where there are more than
    /// `max_entries` of them, only the most recent `max_entries` are kept.
    pub fn from_entries(entries: Vec<QueryHistoryEntry>, max_entries: usize) -> (r: Self)
        ensures
            r.wf(),
            r.stored() == last_n(entries@, max_entries as nat),
            r.capacity() == max_entries,
    {
        let mut entries = entries;
        if entries.len() > max_entries {
            let at = entries.len() - max_entries;
            entries = entries.split_off(at);
        }
        QueryHistory { entries, max_entries }
    }

    /// Appends `entry`, evicting the oldest entry if the capacity is exceeded.
    pub fn add_entry(&mut self, entry: QueryHistoryEntry)
        requires
            old(self).wf(),
        ensures
            final(self).wf(),
            final(self).stored() == added(old(self).stored(), old(self).capacity(), entry),
            final(self).capacity() == old(self).capacity(),
    {
        self.entries.push(entry);
        if self.entries.len() > self.max_entries {
            self.entries.remove(0);
        }
        assert(self.entries@ =~= added(old(self).entries@, self.max_entries as nat, entry));
    }

    /// The last `count` entries (all of them where there are fewer), oldest
    /// first. Nothing is removed.
    pub fn get_recent(&self, count: usize) -> (r: &[QueryHistoryEntry])
        ensures
            r@ == last_n(self.stored(), count as nat),
            count >= self.stored().len() ==> r@ == self.stored(),
            count == 0 ==> r@.len() == 0,
            0 < count < self.stored().len() ==> r@ == self.stored().subrange(
                self.stored().len() - count,
                self.stored().len() as int,
            ),
    {
        let len = self.entries.len();
        let start = if count >= len {
            0
        } else {
            len - count
        };
        let r = slice_subrange(self.entries.as_slice(), start, len);
        assert(r@ =~= last_n(self.entries@, count as nat));
        r
    }

    /// Removes every entry; the capacity stays.
    pub fn clear(&mut self)
        ensures
            final(self).wf(),
            final(self).stored() == Seq::<QueryHistoryEntry>::empty(),
            final(self).capacity() == old(self).capacity(),
    {
        self.entries.clear();
    }

    /// The stored entries, oldest first.
    pub fn entries(&self) -> (r: &[QueryHistoryEntry])
        ensures
            r@ == self.stored(),
    {
        self.entries.as_slice()
    }

    /// The capacity.
    pub fn max_entries(&self) -> (r: usize)
        ensures
            r == self.capacity(),
    {
        self.max_entries
    }
}

} // verus!
