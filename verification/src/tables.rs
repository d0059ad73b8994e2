//! The shared correlation state: a monotonic id counter and two bounded
//! tables holding every in-flight invocation.
//!
//! The two tables are kept as one transactional pair: an accepted entry
//! inserts into both or into neither, so capacity pressure can never leave
//! one table updated and the other not. Insertion fails closed when a table
//! is at capacity — the new entry is dropped and every unrelated in-flight
//! correlation is untouched.

use vstd::prelude::*;
use std::collections::HashMap;
use crate::event::Event;
use crate::TraceError;

verus! {

/// Fixed capacity of each correlation table. There is no eviction: a full
/// table rejects new entries until exits retire old ones.
pub const TABLE_CAPACITY: usize = 1024;

/// The only mutable shared state of the tracer.
pub struct CorrelationState {
    /// Single-slot monotonic counter; the source of every correlation id.
    pub counter: u64,
    /// id-table: correlation id to in-flight event.
    pub events: HashMap<u64, Event>,
    /// pid-table: calling context to the id of its in-flight event.
    pub pid_index: HashMap<u64, u64>,
}

impl CorrelationState {
    /// The id-table's contents as a mathematical map.
    pub open spec fn events_view(self) -> Map<u64, Event> {
        self.events@
    }

    /// The pid-table's contents as a mathematical map.
    pub open spec fn pids_view(self) -> Map<u64, u64> {
        self.pid_index@
    }

    /// Well-formedness: both tables are within capacity; every stored event
    /// is keyed by its own id, which the counter has issued; and every
    /// pid-table entry points at an id-table entry for that same pid.
    pub open spec fn wf(self) -> bool {
        &&& self.events@.len() <= TABLE_CAPACITY
        &&& self.pid_index@.len() <= TABLE_CAPACITY
        &&& forall|id: u64|
            self.events@.contains_key(id) ==> {
                &&& #[trigger] self.events@[id].id == id
                &&& 1 <= id <= self.counter
            }
        &&& forall|p: u64|
            self.pid_index@.contains_key(p) ==> {
                &&& self.events@.contains_key(#[trigger] self.pid_index@[p])
                &&& self.events@[self.pid_index@[p]].pid == p
            }
    }

    /// The two lookup paths form a bijection: every id-table entry is also
    /// reachable through the pid-table. This holds as long as no process
    /// re-enters while it already has an in-flight correlation (a re-entry
    /// overwrites the pid mapping and orphans the old id-table entry).
    pub open spec fn balanced(self) -> bool {
        forall|id: u64|
            self.events@.contains_key(id) ==> {
                &&& self.pid_index@.contains_key(#[trigger] self.events@[id].pid)
                &&& self.pid_index@[self.events@[id].pid] == id
            }
    }

    /// True when recording an entry for `pid` would need room that a table
    /// does not have. The id-table always grows by one (ids are fresh); the
    /// pid-table grows only when `pid` has no mapping to overwrite.
    pub open spec fn entry_would_overflow(self, pid: u64) -> bool {
        ||| self.events@.len() >= TABLE_CAPACITY
        ||| (self.pid_index@.len() >= TABLE_CAPACITY && !self.pid_index@.contains_key(pid))
    }

    /// Empty tables, counter at its initial value.
    pub fn new() -> (r: Self)
        ensures
            r.wf(),
            r.balanced(),
            r.counter == 0,
            r.events_view() == Map::<u64, Event>::empty(),
            r.pids_view() == Map::<u64, u64>::empty(),
    {
        CorrelationState { counter: 0, events: HashMap::new(), pid_index: HashMap::new() }
    }

    /// Advances the shared counter and returns the new value; the tables
    /// are untouched.
    ///
    /// Issued values are strictly increasing until the 64-bit boundary.
    /// Wraparound is not specially handled: an astronomically long run
    /// would return the counter to zero and could in principle reissue an
    /// id. This is an accepted, documented limitation.
    pub fn issue(&mut self) -> (r: u64)
        ensures
            r == final(self).counter,
            old(self).counter < u64::MAX ==> final(self).counter == old(self).counter + 1,
            old(self).counter == u64::MAX ==> final(self).counter == 0,
            final(self).events@ == old(self).events@,
            final(self).pid_index@ == old(self).pid_index@,
    {
        self.counter = self.counter.wrapping_add(1);
        self.counter
    }

    /// Inserts an event into both tables, keyed by its id and its pid, or
    /// into neither.
    ///
    /// The event's id must be one the counter has issued and that is not
    /// already in flight; the entry path guarantees this by issuing a fresh
    /// id for each accepted invocation.
    ///
    /// At capacity the event is dropped with `TableFull` — no retry, no
    /// blocking, no change to either table.
    pub fn record_entry(&mut self, event: Event) -> (r: Result<(), TraceError>)
        requires
            old(self).wf(),
            1 <= event.id <= old(self).counter,
            !old(self).events@.contains_key(event.id),
        ensures
            final(self).wf(),
            final(self).counter == old(self).counter,
            old(self).entry_would_overflow(event.pid) ==> {
                &&& r == Err::<(), TraceError>(TraceError::TableFull)
                &&& final(self).events@ == old(self).events@
                &&& final(self).pid_index@ == old(self).pid_index@
            },
            !old(self).entry_would_overflow(event.pid) ==> {
                &&& r == Ok::<(), TraceError>(())
                &&& final(self).events@ == old(self).events@.insert(event.id, event)
                &&& final(self).pid_index@ == old(self).pid_index@.insert(event.pid, event.id)
                &&& (final(self).events@, final(self).pid_index@) == apply_op(
                    old(self).events@,
                    old(self).pid_index@,
                    TableOp::Entry(event),
                )
            },
            old(self).balanced() && old(self).entry_would_overflow(event.pid)
                ==> final(self).balanced(),
            old(self).balanced() && !old(self).pid_index@.contains_key(event.pid)
                ==> final(self).balanced(),
    {
        broadcast use vstd::std_specs::hash::group_hash_axioms;

        if self.events.len() >= TABLE_CAPACITY {
            return Err(TraceError::TableFull);
        }
        if self.pid_index.len() >= TABLE_CAPACITY && !self.pid_index.contains_key(&event.pid) {
            return Err(TraceError::TableFull);
        }
        self.events.insert(event.id, event);
        self.pid_index.insert(event.pid, event.id);
        Ok(())
    }

    /// Looks up the in-flight correlation for `pid` and retires it from
    /// both tables, returning the event.
    ///
    /// With no matching entry — the entry was filtered out, dropped under
    /// table pressure, or already retired — it fails with
    /// `NoMatchingEntry` and mutates nothing.
    pub fn resolve_exit(&mut self, pid: u64) -> (r: Result<Event, TraceError>)
        requires
            old(self).wf(),
        ensures
            final(self).wf(),
            final(self).counter == old(self).counter,
            !old(self).pid_index@.contains_key(pid) ==> {
                &&& r == Err::<Event, TraceError>(TraceError::NoMatchingEntry)
                &&& final(self).events@ == old(self).events@
                &&& final(self).pid_index@ == old(self).pid_index@
            },
            old(self).pid_index@.contains_key(pid) ==> {
                let id = old(self).pid_index@[pid];
                &&& r == Ok::<Event, TraceError>(old(self).events@[id])
                &&& final(self).events@ == old(self).events@.remove(id)
                &&& final(self).pid_index@ == old(self).pid_index@.remove(pid)
            },
            (final(self).events@, final(self).pid_index@) == apply_op(
                old(self).events@,
                old(self).pid_index@,
                TableOp::Exit(pid),
            ),
            old(self).balanced() ==> final(self).balanced(),
    {
        broadcast use vstd::std_specs::hash::group_hash_axioms;

        let id = match self.pid_index.get(&pid) {
            Some(id) => *id,
            None => {
                return Err(TraceError::NoMatchingEntry);
            },
        };
        let removed = self.events.remove(&id);
        self.pid_index.remove(&pid);
        match removed {
            Some(event) => Ok(event),
            None => {
                // wf rules this arm out: the pid-table never points at a
                // missing id-table entry.
                assert(false);
                Err(TraceError::NoMatchingEntry)
            },
        }
    }
}

/// One abstract operation on the correlation tables: what the entry path
/// does when it records an accepted invocation, and what the exit path
/// does when it resolves one.
#[derive(Clone, Copy)]
pub enum TableOp {
    /// An accepted entry recording this event.
    Entry(Event),
    /// An exit resolving this pid.
    Exit(u64),
}

/// The joint effect of one operation on the two table contents, exactly as
/// `record_entry` (within capacity) and `resolve_exit` perform it.
pub open spec fn apply_op(
    events: Map<u64, Event>,
    pids: Map<u64, u64>,
    op: TableOp,
) -> (Map<u64, Event>, Map<u64, u64>) {
    match op {
        TableOp::Entry(e) => (events.insert(e.id, e), pids.insert(e.pid, e.id)),
        TableOp::Exit(p) => if pids.contains_key(p) {
            (events.remove(pids[p]), pids.remove(p))
        } else {
            (events, pids)
        },
    }
}

/// The table contents after a whole run of operations.
pub open spec fn apply_ops(
    events: Map<u64, Event>,
    pids: Map<u64, u64>,
    ops: Seq<TableOp>,
) -> (Map<u64, Event>, Map<u64, u64>)
    decreases ops.len(),
{
    if ops.len() == 0 {
        (events, pids)
    } else {
        let next = apply_op(events, pids, ops[0]);
        apply_ops(next.0, next.1, ops.drop_first())
    }
}

/// The two lookup paths agree in both directions: every pid-table entry
/// points at an id-table entry for that pid, and every id-table entry is
/// reachable back through the pid-table.
pub open spec fn consistent(events: Map<u64, Event>, pids: Map<u64, u64>) -> bool {
    &&& forall|p: u64|
        #![trigger pids[p]]
        pids.contains_key(p) ==> {
            &&& events.contains_key(pids[p])
            &&& events[pids[p]].id == pids[p]
            &&& events[pids[p]].pid == p
        }
    &&& forall|id: u64|
        #![trigger events[id]]
        events.contains_key(id) ==> {
            &&& events[id].id == id
            &&& pids.contains_key(events[id].pid)
            &&& pids[events[id].pid] == id
        }
}

/// The pids whose correlations are still open after a run: in flight at
/// the start or entered during it, and not exited since.
pub open spec fn pending_after(pending: Set<u64>, ops: Seq<TableOp>) -> Set<u64>
    decreases ops.len(),
{
    if ops.len() == 0 {
        pending
    } else {
        let next = match ops[0] {
            TableOp::Entry(e) => pending.insert(e.pid),
            TableOp::Exit(p) => pending.remove(p),
        };
        pending_after(next, ops.drop_first())
    }
}

/// Every entry in the run is fresh at the moment it happens: its pid has
/// no in-flight correlation and its id is not in use. Distinct pids with
/// at most one outstanding call each, and counter-issued ids, give
/// exactly this.
pub open spec fn entries_fresh(
    events: Map<u64, Event>,
    pids: Map<u64, u64>,
    ops: Seq<TableOp>,
) -> bool
    decreases ops.len(),
{
    if ops.len() == 0 {
        true
    } else {
        let ok = match ops[0] {
            TableOp::Entry(e) => !events.contains_key(e.id) && !pids.contains_key(e.pid),
            TableOp::Exit(_) => true,
        };
        let next = apply_op(events, pids, ops[0]);
        ok && entries_fresh(next.0, next.1, ops.drop_first())
    }
}

/// One step preserves the two-way agreement of the tables, and tracks the
/// set of open pids exactly.
pub proof fn lemma_op_preserves_consistency(
    events: Map<u64, Event>,
    pids: Map<u64, u64>,
    op: TableOp,
)
    requires
        consistent(events, pids),
        op matches TableOp::Entry(e) ==> !events.contains_key(e.id) && !pids.contains_key(e.pid),
    ensures
        consistent(apply_op(events, pids, op).0, apply_op(events, pids, op).1),
        apply_op(events, pids, op).1.dom() == (match op {
            TableOp::Entry(e) => pids.dom().insert(e.pid),
            TableOp::Exit(p) => pids.dom().remove(p),
        }),
{
    match op {
        TableOp::Entry(e) => {
            let events2 = events.insert(e.id, e);
            let pids2 = pids.insert(e.pid, e.id);
            assert forall|p: u64| #![trigger pids2[p]] pids2.contains_key(p) implies {
                &&& events2.contains_key(pids2[p])
                &&& events2[pids2[p]].id == pids2[p]
                &&& events2[pids2[p]].pid == p
            } by {
                if p != e.pid {
                    assert(events.contains_key(pids[p]));
                }
            }
            assert forall|id: u64| #![trigger events2[id]] events2.contains_key(id) implies {
                &&& events2[id].id == id
                &&& pids2.contains_key(events2[id].pid)
                &&& pids2[events2[id].pid] == id
            } by {
                if id != e.id {
                    assert(pids.contains_key(events[id].pid));
                }
            }
        },
        TableOp::Exit(p) => {
            if !pids.contains_key(p) {
                assert(pids.dom().remove(p) =~= pids.dom());
            }
        },
    }
}

/// A whole run of fresh entries and exits preserves the agreement, and
/// leaves the pid-table holding exactly the still-open pids.
pub proof fn lemma_run_preserves_consistency(
    events: Map<u64, Event>,
    pids: Map<u64, u64>,
    ops: Seq<TableOp>,
)
    requires
        consistent(events, pids),
        entries_fresh(events, pids, ops),
    ensures
        consistent(apply_ops(events, pids, ops).0, apply_ops(events, pids, ops).1),
        apply_ops(events, pids, ops).1.dom() == pending_after(pids.dom(), ops),
    decreases ops.len(),
{
    if ops.len() > 0 {
        let next = apply_op(events, pids, ops[0]);
        lemma_op_preserves_consistency(events, pids, ops[0]);
        lemma_run_preserves_consistency(next.0, next.1, ops.drop_first());
    }
}

/// Drained-run law: starting from empty tables, any sequence of paired
/// entry and exit invocations — every entry fresh, every entered pid
/// exited by the end — leaves both tables empty again.
pub proof fn lemma_paired_run_drains(ops: Seq<TableOp>)
    requires
        entries_fresh(Map::<u64, Event>::empty(), Map::<u64, u64>::empty(), ops),
        pending_after(Set::<u64>::empty(), ops) == Set::<u64>::empty(),
    ensures
        apply_ops(Map::<u64, Event>::empty(), Map::<u64, u64>::empty(), ops).0 == Map::<
            u64,
            Event,
        >::empty(),
        apply_ops(Map::<u64, Event>::empty(), Map::<u64, u64>::empty(), ops).1 == Map::<
            u64,
            u64,
        >::empty(),
{
    let after = apply_ops(Map::<u64, Event>::empty(), Map::<u64, u64>::empty(), ops);
    assert(Map::<u64, u64>::empty().dom() =~= Set::<u64>::empty());
    lemma_run_preserves_consistency(
        Map::<u64, Event>::empty(),
        Map::<u64, u64>::empty(),
        ops,
    );
    assert(after.1 =~= Map::<u64, u64>::empty());
    assert forall|id: u64| !after.0.contains_key(id) by {
        if after.0.contains_key(id) {
            assert(after.1.contains_key(after.0[id].pid));
        }
    }
    assert(after.0 =~= Map::<u64, Event>::empty());
}

/// Drained-tables law: balanced tables with no in-flight pid hold no
/// in-flight event either. After any sequence of paired entry and exit
/// invocations on distinct pids, the pid-table is empty, so both are.
pub proof fn lemma_balanced_empty(s: CorrelationState)
    requires
        s.wf(),
        s.balanced(),
        s.pids_view().len() == 0,
    ensures
        s.events_view().len() == 0,
{
    broadcast use vstd::std_specs::hash::group_hash_axioms;

    if s.events_view().len() != 0 {
        let id = s.events_view().dom().choose();
        assert(s.events_view().dom().contains(id));
        assert(s.pids_view().dom().contains(s.events_view()[id].pid));
        assert(s.pids_view().dom().len() != 0);
    }
}

/// Cancellation law: recording a fresh correlation and then resolving the
/// same pid restores both tables exactly.
pub proof fn lemma_entry_exit_cancel(
    events: Map<u64, Event>,
    pids: Map<u64, u64>,
    event: Event,
)
    requires
        !events.contains_key(event.id),
        !pids.contains_key(event.pid),
    ensures
        events.insert(event.id, event).remove(event.id) == events,
        pids.insert(event.pid, event.id).remove(event.pid) == pids,
{
    assert(events.insert(event.id, event).remove(event.id) =~= events);
    assert(pids.insert(event.pid, event.id).remove(event.pid) =~= pids);
}

/// Distinctness law for issued ids: successive issuances below the
/// wraparound boundary return pairwise distinct values. A run long enough
/// to wrap the 64-bit counter is excluded, as the design accepts.
pub proof fn lemma_issued_ids_distinct(start: u64, ids: Seq<u64>)
    requires
        start + ids.len() <= u64::MAX,
        forall|k: int| 0 <= k < ids.len() ==> ids[k] == start + 1 + k,
    ensures
        forall|i: int, j: int| 0 <= i < j < ids.len() ==> ids[i] != ids[j],
{
}

} // verus!
