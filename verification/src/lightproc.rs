use vstd::prelude::*;

use crate::proc_data::{
    begin_run_slot, cancel_slot, finish_run_slot, fresh_slot, is_freed, release_light_slot,
    run_enabled, schedule_slot, Payload, PollOutcome, Slot, State,
};
use crate::proc_stack::ProcStack;
use crate::proc_table::{
    decrement, lemma_push_keeps_table_wf, lemma_update_keeps_table_wf, live_at, slot_at, table_wf,
    ProcTable,
};
use crate::proc_handle::ProcHandle;
use crate::recoverable_handle::{CapturedPanic, RecoverableHandle};

verus! {

/// The runnable handle: the exclusively owned reference a scheduler or
/// worker uses to request execution or cancellation of one lightweight
/// process.
pub struct LightProc {
    pub(crate) idx: usize,
}

/// Token held by the single active runner between claiming the poll step
/// and reporting what the poll did.  While it exists the process's
/// `running` flag is set, and no second runner can claim the step.
pub struct RunGuard {
    pub(crate) idx: usize,
}

/// What claiming the poll step found: either the claim succeeded, or the
/// process was already closed, in which case its future was dropped
/// unpolled and the runnable's reference was released.
pub enum BeginRun {
    Polling(RunGuard),
    AlreadyClosed,
}

/// What one `run` call did.  `Suspended` hands the runnable back so the
/// caller may re-enqueue it; `Completed` stored (or discarded) the output;
/// `Panicked` reports an unrecovered payload panic to the runner;
/// `Closed` means the process was cancelled before the poll, and no work
/// was executed.
pub enum RunResult {
    Completed,
    Suspended(LightProc),
    Panicked,
    Closed,
}

impl RunGuard {
    /// The index of the process whose poll step this guard holds.
    pub closed spec fn id(self) -> int {
        self.idx as int
    }

    /// Report what the poll step did and give up the runner slot.  On
    /// suspension only the `running` flag is cleared; on completion the
    /// output is stored — unless the output handle is gone or the process
    /// was cancelled during the poll, in which case it is discarded — any
    /// waiter is woken and the runner's reference is released; a payload
    /// panic closes the process with nothing stored.
    pub fn finish<R>(self, table: &mut ProcTable<R>, outcome: PollOutcome<R>) -> (r: RunResult)
        requires
            table_wf(old(table)@),
            live_at(old(table)@, self.id()),
            slot_at(old(table)@, self.id()).state.running,
        ensures
            table_wf(final(table)@),
            final(table)@ == old(table)@.update(
                self.id(),
                finish_run_slot(slot_at(old(table)@, self.id()), outcome),
            ),
            (r is Suspended) <==> outcome is Pending,
            r matches RunResult::Suspended(p) ==> p.id() == self.id() && live_at(
                final(table)@,
                self.id(),
            ) && !slot_at(final(table)@, self.id()).state.running,
            outcome is Ready ==> r is Completed,
            outcome is Panicked ==> r is Panicked,
            outcome matches PollOutcome::Ready(v) ==> ((slot_at(
                old(table)@,
                self.id(),
            ).state.handle_alive && !slot_at(old(table)@, self.id()).state.closed && slot_at(
                old(table)@,
                self.id(),
            ).refs == 2) ==> slot_at(final(table)@, self.id()).payload == Payload::Output(v)),
    {
        let i = self.idx;
        let ghost t0 = old(table)@;
        let cur = table.take_slot(i);
        let Slot { state, refs, stack, payload } = cur;
        proof {
            crate::proc_data::lemma_transitions_preserve_wf(slot_at(t0, self.id()), outcome);
        }
        let r = match outcome {
            PollOutcome::Pending => {
                let new = Slot {
                    state: State { running: false, ..state },
                    refs,
                    stack,
                    payload,
                };
                table.put_slot(i, new);
                RunResult::Suspended(LightProc { idx: i })
            },
            PollOutcome::Ready(v) => {
                let keep = state.handle_alive && !state.closed;
                let new = decrement(
                    Slot {
                        state: State {
                            running: false,
                            completed: true,
                            closed: state.closed || !state.handle_alive,
                            awaiter: false,
                            ..state
                        },
                        refs,
                        stack,
                        payload: if keep {
                            Payload::Output(v)
                        } else {
                            Payload::Empty
                        },
                    },
                );
                table.put_slot(i, new);
                RunResult::Completed
            },
            PollOutcome::Panicked => {
                let new = decrement(
                    Slot {
                        state: State { running: false, closed: true, awaiter: false, ..state },
                        refs,
                        stack,
                        payload: Payload::Empty,
                    },
                );
                table.put_slot(i, new);
                RunResult::Panicked
            },
        };
        proof {
            assert(table@ =~= t0.update(
                self.id(),
                finish_run_slot(slot_at(t0, self.id()), outcome),
            ));
            lemma_update_keeps_table_wf(
                t0,
                self.id(),
                finish_run_slot(slot_at(t0, self.id()), outcome),
            );
        }
        r
    }
}

impl LightProc {
    /// The index of the process allocation this handle owns a reference to.
    pub closed spec fn id(self) -> int {
        self.idx as int
    }

    /// Spawn one lightweight process: allocate its slot — control header in
    /// the initial state, two references, the live future in place — and
    /// hand back the pair of owning handles, both referring to that slot.
    pub fn build<R>(table: &mut ProcTable<R>, stack: ProcStack) -> (r: (LightProc, ProcHandle<R>))
        requires
            table_wf(old(table)@),
        ensures
            table_wf(final(table)@),
            final(table)@ == old(table)@.push(fresh_slot(stack)),
            r.0.id() == old(table)@.len(),
            r.1.id() == old(table)@.len(),
    {
        let slot = Slot {
            state: State {
                scheduled: false,
                running: false,
                completed: false,
                closed: false,
                handle_alive: true,
                awaiter: false,
            },
            refs: 2,
            stack,
            payload: Payload::Future,
        };
        proof {
            lemma_push_keeps_table_wf(old(table)@, fresh_slot::<R>(stack));
        }
        let i = table.push_slot(slot);
        (LightProc { idx: i }, ProcHandle::from_index(i))
    }

    /// Spawn a process whose payload is instrumented at the poll boundary:
    /// its output is a result, and a payload panic is delivered as the
    /// captured-panic error through the same completion path (see
    /// `recover_poll`).
    pub fn recoverable<R>(table: &mut ProcTable<Result<R, CapturedPanic>>, stack: ProcStack) -> (r:
        (LightProc, RecoverableHandle<R>))
        requires
            table_wf(old(table)@),
        ensures
            table_wf(final(table)@),
            final(table)@ == old(table)@.push(fresh_slot(stack)),
            r.0.id() == old(table)@.len(),
            r.1.id() == old(table)@.len(),
    {
        let (proc, handle) = Self::build(table, stack);
        (proc, RecoverableHandle::wrap(handle))
    }

    /// Hand the runnable out for enqueueing.  A process that is not closed
    /// is marked scheduled and the runnable — carrying the same reference —
    /// is returned for the caller's scheduling callback to place on a run
    /// queue.  A closed process is not handed out again: the reference is
    /// released and nothing is returned.
    pub fn schedule<R>(self, table: &mut ProcTable<R>) -> (r: Option<LightProc>)
        requires
            table_wf(old(table)@),
            live_at(old(table)@, self.id()),
        ensures
            table_wf(final(table)@),
            final(table)@ == old(table)@.update(
                self.id(),
                schedule_slot(slot_at(old(table)@, self.id())),
            ),
            (r is Some) <==> !slot_at(old(table)@, self.id()).state.closed,
            r matches Some(p) ==> p.id() == self.id() && live_at(final(table)@, self.id())
                && slot_at(final(table)@, self.id()).state.scheduled,
    {
        let i = self.idx;
        let ghost t0 = old(table)@;
        let cur = table.take_slot(i);
        let closed = cur.state.closed;
        let new = if closed {
            decrement(cur)
        } else {
            Slot { state: State { scheduled: true, ..cur.state }, ..cur }
        };
        table.put_slot(i, new);
        proof {
            crate::proc_data::lemma_transitions_preserve_wf(
                slot_at(t0, self.id()),
                PollOutcome::<R>::Pending,
            );
            assert(table@ =~= t0.update(self.id(), schedule_slot(slot_at(t0, self.id()))));
            lemma_update_keeps_table_wf(t0, self.id(), schedule_slot(slot_at(t0, self.id())));
        }
        if closed {
            None
        } else {
            Some(LightProc { idx: i })
        }
    }

    /// Claim the single-runner slot.  Only one runner can hold it at a
    /// time: the claim requires that no runner is active, and sets the
    /// `running` flag that rejects any further claim until the guard is
    /// finished.  A process found closed is not polled at all: its future
    /// is dropped, any waiter woken, and the runnable's reference released.
    pub fn begin_run<R>(self, table: &mut ProcTable<R>) -> (r: BeginRun)
        requires
            table_wf(old(table)@),
            live_at(old(table)@, self.id()),
            run_enabled(slot_at(old(table)@, self.id())),
        ensures
            table_wf(final(table)@),
            final(table)@ == old(table)@.update(
                self.id(),
                begin_run_slot(slot_at(old(table)@, self.id())),
            ),
            (r is Polling) <==> !slot_at(old(table)@, self.id()).state.closed,
            r matches BeginRun::Polling(g) ==> g.id() == self.id() && live_at(
                final(table)@,
                self.id(),
            ) && slot_at(final(table)@, self.id()).state.running,
    {
        let i = self.idx;
        let ghost t0 = old(table)@;
        let cur = table.take_slot(i);
        let Slot { state, refs, stack, payload } = cur;
        let r;
        if state.closed {
            let new = decrement(
                Slot {
                    state: State { scheduled: false, awaiter: false, ..state },
                    refs,
                    stack,
                    payload: Payload::Empty,
                },
            );
            table.put_slot(i, new);
            r = BeginRun::AlreadyClosed;
        } else {
            let new = Slot {
                state: State { scheduled: false, running: true, ..state },
                refs,
                stack,
                payload,
            };
            table.put_slot(i, new);
            r = BeginRun::Polling(RunGuard { idx: i });
        }
        proof {
            crate::proc_data::lemma_transitions_preserve_wf(
                slot_at(t0, self.id()),
                PollOutcome::<R>::Pending,
            );
            assert(table@ =~= t0.update(self.id(), begin_run_slot(slot_at(t0, self.id()))));
            lemma_update_keeps_table_wf(t0, self.id(), begin_run_slot(slot_at(t0, self.id())));
        }
        r
    }

    /// Run the process for one poll step: claim the runner slot and report
    /// what the poll did in a single call.  `outcome` is what polling the
    /// stored future produced; a process found closed is not polled and
    /// `Closed` comes back with no work executed.
    pub fn run<R>(self, table: &mut ProcTable<R>, outcome: PollOutcome<R>) -> (r: RunResult)
        requires
            table_wf(old(table)@),
            live_at(old(table)@, self.id()),
            run_enabled(slot_at(old(table)@, self.id())),
        ensures
            table_wf(final(table)@),
            final(table)@ == old(table)@.update(
                self.id(),
                ({
                    let s0 = slot_at(old(table)@, self.id());
                    if s0.state.closed {
                        begin_run_slot(s0)
                    } else {
                        finish_run_slot(begin_run_slot(s0), outcome)
                    }
                }),
            ),
            (r is Closed) <==> slot_at(old(table)@, self.id()).state.closed,
            !slot_at(old(table)@, self.id()).state.closed ==> {
                &&& (r is Suspended) <==> outcome is Pending
                &&& outcome is Ready ==> r is Completed
                &&& outcome is Panicked ==> r is Panicked
            },
            r matches RunResult::Suspended(p) ==> p.id() == self.id() && live_at(
                final(table)@,
                self.id(),
            ),
            outcome matches PollOutcome::Ready(v) ==> ((!slot_at(old(table)@, self.id()).state.closed
                && slot_at(old(table)@, self.id()).state.handle_alive && slot_at(
                old(table)@,
                self.id(),
            ).refs == 2) ==> slot_at(final(table)@, self.id()).payload == Payload::Output(v)),
    {
        let ghost t0 = old(table)@;
        let ghost i = self.id();
        match self.begin_run(table) {
            BeginRun::AlreadyClosed => RunResult::Closed,
            BeginRun::Polling(guard) => {
                let r = guard.finish(table, outcome);
                proof {
                    assert(table@ =~= t0.update(
                        i,
                        finish_run_slot(begin_run_slot(slot_at(t0, i)), outcome),
                    ));
                }
                r
            },
        }
    }

    /// Request cancellation: mark the process closed so it is never
    /// re-enqueued and the output side resolves to "cancelled" once any
    /// in-flight poll finishes.  Idempotent; frees nothing by itself.
    pub fn cancel<R>(&self, table: &mut ProcTable<R>)
        requires
            table_wf(old(table)@),
            live_at(old(table)@, self.id()),
        ensures
            table_wf(final(table)@),
            final(table)@ == old(table)@.update(
                self.id(),
                cancel_slot(slot_at(old(table)@, self.id())),
            ),
            live_at(final(table)@, self.id()),
    {
        let i = self.idx;
        let ghost t0 = old(table)@;
        let cur = table.take_slot(i);
        let new = if cur.state.closed {
            cur
        } else {
            Slot { state: State { closed: true, awaiter: false, ..cur.state }, ..cur }
        };
        table.put_slot(i, new);
        proof {
            crate::proc_data::lemma_transitions_preserve_wf(
                slot_at(t0, self.id()),
                PollOutcome::<R>::Pending,
            );
            assert(table@ =~= t0.update(self.id(), cancel_slot(slot_at(t0, self.id()))));
            lemma_update_keeps_table_wf(t0, self.id(), cancel_slot(slot_at(t0, self.id())));
        }
    }

    /// Read the stack metadata embedded in the process allocation.  This
    /// needs no knowledge of the erased payload type's concrete future.
    pub fn stack<R>(&self, table: &ProcTable<R>) -> (r: ProcStack)
        requires
            table_wf(table@),
            live_at(table@, self.id()),
        ensures
            r == slot_at(table@, self.id()).stack,
    {
        table.borrow_slot(self.idx).stack
    }

    /// Read the control header's lifecycle flags, for diagnostics; like
    /// `stack`, this is independent of the erased payload type.
    pub fn state<R>(&self, table: &ProcTable<R>) -> (r: State)
        requires
            table_wf(table@),
            live_at(table@, self.id()),
        ensures
            r == slot_at(table@, self.id()).state,
    {
        table.borrow_slot(self.idx).state
    }

    /// Drop the runnable handle of a process that is not being run: cancel
    /// the process, drop its future unless it already completed, and
    /// release the runnable's reference — in that order, so a half-run
    /// future is never left behind, and the allocation is freed exactly
    /// when the output side is gone too.
    pub fn release<R>(self, table: &mut ProcTable<R>)
        requires
            table_wf(old(table)@),
            live_at(old(table)@, self.id()),
            !slot_at(old(table)@, self.id()).state.running,
        ensures
            table_wf(final(table)@),
            final(table)@ == old(table)@.update(
                self.id(),
                release_light_slot(slot_at(old(table)@, self.id())),
            ),
            is_freed(slot_at(final(table)@, self.id())) <==> slot_at(old(table)@, self.id()).refs
                == 1,
    {
        let i = self.idx;
        let ghost t0 = old(table)@;
        let cur = table.take_slot(i);
        let Slot { state, refs, stack, payload } = cur;
        let closed_state = if state.closed {
            state
        } else {
            State { closed: true, awaiter: false, ..state }
        };
        let cleared = if closed_state.completed {
            payload
        } else {
            Payload::Empty
        };
        let new = decrement(Slot { state: closed_state, refs, stack, payload: cleared });
        table.put_slot(i, new);
        proof {
            crate::proc_data::lemma_transitions_preserve_wf(
                slot_at(t0, self.id()),
                PollOutcome::<R>::Pending,
            );
            assert(table@ =~= t0.update(self.id(), release_light_slot(slot_at(t0, self.id()))));
            lemma_update_keeps_table_wf(t0, self.id(), release_light_slot(slot_at(t0, self.id())));
        }
    }
}

} // verus!
