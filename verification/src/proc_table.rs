use vstd::prelude::*;

use crate::proc_data::{dec_slot, freed_slot, is_freed, slot_wf, Payload, Slot, State};
use crate::proc_stack::ProcStack;

verus! {

/// The arena backing every process allocation.  Each spawned process owns
/// one slot for the whole life of its two handles; a slot whose reference
/// count reached zero is retired in place (its memory is returned, and its
/// index is never handed out again), so a stale handle can never revive it.
pub struct ProcTable<R> {
    pub(crate) slots: Vec<Slot<R>>,
}

impl<R> View for ProcTable<R> {
    type V = Seq<Slot<R>>;

    closed spec fn view(&self) -> Seq<Slot<R>> {
        self.slots@
    }
}

/// Every live slot of the table is well formed.
pub open spec fn table_wf<R>(t: Seq<Slot<R>>) -> bool {
    forall|i: int| #![trigger t[i]] 0 <= i < t.len() && !is_freed(t[i]) ==> slot_wf(t[i])
}

/// A handle pointing at index `i` refers to a live allocation.
pub open spec fn live_at<R>(t: Seq<Slot<R>>, i: int) -> bool {
    0 <= i < t.len() && !is_freed(t[i])
}

/// The slot a handle refers to.
pub open spec fn slot_at<R>(t: Seq<Slot<R>>, i: int) -> Slot<R> {
    t[i]
}

/// How many allocations are still live.
pub open spec fn live_count<R>(t: Seq<Slot<R>>) -> int
    decreases t.len(),
{
    if t.len() == 0 {
        0
    } else {
        live_count(t.drop_last()) + if is_freed(t.last()) {
            0int
        } else {
            1int
        }
    }
}

/// Updating one slot never disturbs the others, and keeps the table well
/// formed as long as the new slot is itself well formed or freed.
pub proof fn lemma_update_keeps_table_wf<R>(t: Seq<Slot<R>>, i: int, s: Slot<R>)
    requires
        table_wf(t),
        0 <= i < t.len(),
        slot_wf(s) || is_freed(s),
    ensures
        table_wf(t.update(i, s)),
{
}

impl<R> ProcTable<R> {
    /// An arena with no processes.
    pub fn new() -> (r: ProcTable<R>)
        ensures
            r@.len() == 0,
            table_wf(r@),
    {
        ProcTable { slots: Vec::new() }
    }

    /// How many slots were ever allocated (live or retired).
    pub fn len(&self) -> (n: usize)
        ensures
            n == self@.len(),
    {
        self.slots.len()
    }

    /// How many process allocations are still live: spawned and not yet
    /// released by both of their handles.
    pub fn live_procs(&self) -> (n: usize)
        ensures
            n == live_count(self@),
    {
        let mut n: usize = 0;
        let mut i: usize = 0;
        while i < self.slots.len()
            invariant
                i <= self@.len(),
                n == live_count(self@.take(i as int)),
                n <= i,
            decreases self@.len() - i,
        {
            proof {
                assert(self@.take(i + 1).drop_last() =~= self@.take(i as int));
            }
            if self.slots[i].refs > 0 {
                n = n + 1;
            }
            i = i + 1;
        }
        proof {
            assert(self@.take(self@.len() as int) =~= self@);
        }
        n
    }

    /// Append one freshly spawned process; its index is the handle identity.
    pub(crate) fn push_slot(&mut self, s: Slot<R>) -> (i: usize)
        ensures
            final(self)@ == old(self)@.push(s),
            i as int == old(self)@.len(),
    {
        let i = self.slots.len();
        self.slots.push(s);
        i
    }

    /// Move the slot at `i` out for a transition, leaving retired space; the
    /// caller puts the successor slot back with `put_slot`.
    pub(crate) fn take_slot(&mut self, i: usize) -> (r: Slot<R>)
        requires
            i < old(self)@.len(),
        ensures
            final(self)@ == old(self)@.update(i as int, freed_slot()),
            r == old(self)@[i as int],
    {
        let mut cur: Slot<R> = freed_slot_exec();
        core::mem::swap(&mut self.slots[i], &mut cur);
        cur
    }

    /// Store the successor slot of a transition.
    pub(crate) fn put_slot(&mut self, i: usize, s: Slot<R>)
        requires
            i < old(self)@.len(),
        ensures
            final(self)@ == old(self)@.update(i as int, s),
    {
        self.slots[i] = s;
    }

    /// Read-only access to one slot, for metadata and diagnostics.
    pub(crate) fn borrow_slot(&self, i: usize) -> (r: &Slot<R>)
        requires
            i < self@.len(),
        ensures
            *r == self@[i as int],
    {
        &self.slots[i]
    }
}

/// Appending a well-formed slot keeps the table well formed.
pub proof fn lemma_push_keeps_table_wf<R>(t: Seq<Slot<R>>, s: Slot<R>)
    requires
        table_wf(t),
        slot_wf(s),
    ensures
        table_wf(t.push(s)),
{
    assert forall|i: int| 0 <= i < t.push(s).len() && !is_freed(#[trigger] t.push(s)[i]) implies slot_wf(
        t.push(s)[i],
    ) by {
        if i < t.len() {
            assert(t.push(s)[i] == t[i]);
        }
    }
}

/// The `decrement` operation of the table, as a value transition: drop one
/// strong reference and retire the slot when the last one goes.
pub(crate) fn decrement<R>(s: Slot<R>) -> (r: Slot<R>)
    requires
        s.refs >= 1,
    ensures
        r == dec_slot(s),
{
    if s.refs <= 1 {
        freed_slot_exec()
    } else {
        Slot { refs: s.refs - 1, ..s }
    }
}

/// The canonical retired slot, as a value.
pub(crate) fn freed_slot_exec<R>() -> (r: Slot<R>)
    ensures
        r == freed_slot::<R>(),
{
    Slot {
        state: State {
            scheduled: false,
            running: false,
            completed: false,
            closed: true,
            handle_alive: false,
            awaiter: false,
        },
        refs: 0,
        stack: ProcStack { pid: 0, affinity: None },
        payload: Payload::Empty,
    }
}

} // verus!
