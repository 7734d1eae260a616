use vstd::prelude::*;

use core::marker::PhantomData;

use crate::proc_data::{
    cancel_slot, is_freed, observes_cancellation, observes_pending, observes_value, poll_slot,
    release_handle_slot, Payload, PollOutcome, Slot, State,
};
use crate::proc_table::{
    decrement, lemma_update_keeps_table_wf, live_at, slot_at, table_wf, ProcTable,
};

verus! {

/// The output handle of one lightweight process.  It owns one of the two
/// strong references to the process allocation and produces the output —
/// or the cancellation signal — exactly once.
pub struct ProcHandle<R> {
    pub(crate) idx: usize,
    pub(crate) _output: PhantomData<R>,
}

/// What one poll of the output handle observed.  A terminal reply (`Ready`
/// or `Cancelled`) consumes the handle, so each process is observed at most
/// once; `Pending` hands the handle back with an awaiter registered.
pub enum PollReply<R> {
    Ready(R),
    Cancelled,
    Pending(ProcHandle<R>),
}

impl<R> ProcHandle<R> {
    /// The index of the process allocation this handle owns a reference to.
    pub closed spec fn id(self) -> int {
        self.idx as int
    }

    /// Make the output handle of the freshly spawned process at `i`.
    pub(crate) fn from_index(i: usize) -> (h: ProcHandle<R>)
        ensures
            h.id() == i,
    {
        ProcHandle { idx: i, _output: PhantomData }
    }

    /// Poll for the result.  Exactly one of the three replies comes, decided
    /// by the slot: a stored output is taken and the handle's reference
    /// released; a closed process without an output surfaces cancellation
    /// and releases the reference; otherwise an awaiter is registered and
    /// the handle survives.
    pub fn poll(self, table: &mut ProcTable<R>) -> (r: PollReply<R>)
        requires
            table_wf(old(table)@),
            live_at(old(table)@, self.id()),
            slot_at(old(table)@, self.id()).state.handle_alive,
        ensures
            table_wf(final(table)@),
            final(table)@ == old(table)@.update(
                self.id(),
                poll_slot(slot_at(old(table)@, self.id())),
            ),
            (r is Ready) <==> observes_value(slot_at(old(table)@, self.id())),
            (r is Cancelled) <==> observes_cancellation(slot_at(old(table)@, self.id())),
            (r is Pending) <==> observes_pending(slot_at(old(table)@, self.id())),
            r matches PollReply::Ready(v) ==> slot_at(old(table)@, self.id()).payload
                == Payload::Output(v),
            r matches PollReply::Pending(h) ==> h.id() == self.id() && slot_at(
                final(table)@,
                self.id(),
            ).state.awaiter && slot_at(final(table)@, self.id()).state.handle_alive,
            !(r is Pending) ==> (is_freed(slot_at(final(table)@, self.id())) <==> slot_at(
                old(table)@,
                self.id(),
            ).refs == 1),
    {
        let i = self.idx;
        let ghost t0 = old(table)@;
        let cur = table.take_slot(i);
        let Slot { state, refs, stack, payload } = cur;
        proof {
            crate::proc_data::lemma_transitions_preserve_wf(
                slot_at(t0, self.id()),
                PollOutcome::<R>::Pending,
            );
        }
        let reply = match payload {
            Payload::Output(v) => {
                let new = decrement(
                    Slot {
                        state: State {
                            closed: true,
                            handle_alive: false,
                            awaiter: false,
                            ..state
                        },
                        refs,
                        stack,
                        payload: Payload::Empty,
                    },
                );
                table.put_slot(i, new);
                PollReply::Ready(v)
            },
            p => {
                if state.closed {
                    let new = decrement(
                        Slot {
                            state: State { handle_alive: false, awaiter: false, ..state },
                            refs,
                            stack,
                            payload: p,
                        },
                    );
                    table.put_slot(i, new);
                    PollReply::Cancelled
                } else {
                    let new = Slot {
                        state: State { awaiter: true, ..state },
                        refs,
                        stack,
                        payload: p,
                    };
                    table.put_slot(i, new);
                    PollReply::Pending(ProcHandle { idx: i, _output: PhantomData })
                }
            },
        };
        proof {
            assert(table@ =~= t0.update(self.id(), poll_slot(slot_at(t0, self.id()))));
            lemma_update_keeps_table_wf(t0, self.id(), poll_slot(slot_at(t0, self.id())));
        }
        reply
    }

    /// Request cancellation from the output side; idempotent, frees nothing.
    pub fn cancel(&self, table: &mut ProcTable<R>)
        requires
            table_wf(old(table)@),
            live_at(old(table)@, self.id()),
        ensures
            table_wf(final(table)@),
            final(table)@ == old(table)@.update(
                self.id(),
                cancel_slot(slot_at(old(table)@, self.id())),
            ),
            live_at(final(table)@, self.id()),
    {
        let i = self.idx;
        let ghost t0 = old(table)@;
        let cur = table.take_slot(i);
        let new = if cur.state.closed {
            cur
        } else {
            Slot { state: State { closed: true, awaiter: false, ..cur.state }, ..cur }
        };
        table.put_slot(i, new);
        proof {
            crate::proc_data::lemma_transitions_preserve_wf(
                slot_at(t0, self.id()),
                PollOutcome::<R>::Pending,
            );
            assert(table@ =~= t0.update(self.id(), cancel_slot(slot_at(t0, self.id()))));
            lemma_update_keeps_table_wf(t0, self.id(), cancel_slot(slot_at(t0, self.id())));
        }
    }

    /// Drop the output handle.  The process is marked closed — so a still
    /// running or scheduled process will not be re-enqueued for nothing —
    /// an unclaimed output is discarded, and the handle's reference is
    /// released; the allocation itself survives while the runnable side
    /// still holds its reference.
    pub fn release(self, table: &mut ProcTable<R>)
        requires
            table_wf(old(table)@),
            live_at(old(table)@, self.id()),
            slot_at(old(table)@, self.id()).state.handle_alive,
        ensures
            table_wf(final(table)@),
            final(table)@ == old(table)@.update(
                self.id(),
                release_handle_slot(slot_at(old(table)@, self.id())),
            ),
            is_freed(slot_at(final(table)@, self.id())) <==> slot_at(old(table)@, self.id()).refs
                == 1,
    {
        let i = self.idx;
        let ghost t0 = old(table)@;
        let cur = table.take_slot(i);
        let Slot { state, refs, stack, payload } = cur;
        let cleared = match payload {
            Payload::Output(_) => Payload::Empty,
            p => p,
        };
        let new = decrement(
            Slot {
                state: State { closed: true, handle_alive: false, awaiter: false, ..state },
                refs,
                stack,
                payload: cleared,
            },
        );
        table.put_slot(i, new);
        proof {
            crate::proc_data::lemma_transitions_preserve_wf(
                slot_at(t0, self.id()),
                PollOutcome::<R>::Pending,
            );
            assert(table@ =~= t0.update(self.id(), release_handle_slot(slot_at(t0, self.id())))
            );
            lemma_update_keeps_table_wf(t0, self.id(), release_handle_slot(slot_at(t0, self.id())));
        }
    }
}

} // verus!
