use vstd::prelude::*;

use crate::proc_data::{
    cancel_slot, finish_run_slot, is_freed, observes_cancellation, observes_pending,
    observes_value, poll_slot, release_handle_slot, slot_wf, Payload, PollOutcome, Slot,
};
use crate::proc_handle::{PollReply, ProcHandle};
use crate::proc_table::{live_at, slot_at, table_wf, ProcTable};

verus! {

/// The error value delivered when a recoverable process's payload panicked
/// during a poll step.
#[derive(Clone, Copy, PartialEq, Eq, Structural, Debug)]
pub struct CapturedPanic;

/// The output handle of a recoverable process: the same surface as the
/// plain output handle, but the delivered value is a result — the payload's
/// own output, or the captured-panic error.
pub struct RecoverableHandle<R> {
    pub(crate) inner: ProcHandle<Result<R, CapturedPanic>>,
}

/// What one poll of a recoverable handle observed.
pub enum RecoverablePoll<R> {
    Ready(Result<R, CapturedPanic>),
    Cancelled,
    Pending(RecoverableHandle<R>),
}

/// What the instrumented poll boundary of a recoverable process reports for
/// a given payload poll: a panic is converted into an ordinary completion
/// carrying the captured-panic error, instead of unwinding into the runner.
pub open spec fn recover_spec<R>(o: PollOutcome<R>) -> PollOutcome<Result<R, CapturedPanic>> {
    match o {
        PollOutcome::Ready(v) => PollOutcome::Ready(Ok(v)),
        PollOutcome::Pending => PollOutcome::Pending,
        PollOutcome::Panicked => PollOutcome::Ready(Err(CapturedPanic)),
    }
}

/// The poll-boundary instrumentation of a recoverable process: what its
/// payload's poll did, converted to what the stored future reports.  Runners
/// of a recoverable process pass their poll outcome through this before
/// finishing the run.
pub fn recover_poll<R>(o: PollOutcome<R>) -> (r: PollOutcome<Result<R, CapturedPanic>>)
    ensures
        r == recover_spec(o),
{
    match o {
        PollOutcome::Ready(v) => PollOutcome::Ready(Ok(v)),
        PollOutcome::Pending => PollOutcome::Pending,
        PollOutcome::Panicked => PollOutcome::Ready(Err(CapturedPanic)),
    }
}

impl<R> RecoverableHandle<R> {
    /// The index of the process allocation this handle owns a reference to.
    pub closed spec fn id(self) -> int {
        self.inner.id()
    }

    /// Wrap the output handle of a freshly spawned recoverable process.
    pub(crate) fn wrap(inner: ProcHandle<Result<R, CapturedPanic>>) -> (h: RecoverableHandle<R>)
        ensures
            h.id() == inner.id(),
    {
        RecoverableHandle { inner }
    }

    /// Poll for the result; exactly as the plain output handle, with the
    /// delivered value being the payload's result-typed output.
    pub fn poll(self, table: &mut ProcTable<Result<R, CapturedPanic>>) -> (r: RecoverablePoll<R>)
        requires
            table_wf(old(table)@),
            live_at(old(table)@, self.id()),
            slot_at(old(table)@, self.id()).state.handle_alive,
        ensures
            table_wf(final(table)@),
            final(table)@ == old(table)@.update(
                self.id(),
                poll_slot(slot_at(old(table)@, self.id())),
            ),
            (r is Ready) <==> observes_value(slot_at(old(table)@, self.id())),
            (r is Cancelled) <==> observes_cancellation(slot_at(old(table)@, self.id())),
            (r is Pending) <==> observes_pending(slot_at(old(table)@, self.id())),
            r matches RecoverablePoll::Ready(v) ==> slot_at(old(table)@, self.id()).payload
                == Payload::Output(v),
            r matches RecoverablePoll::Pending(h) ==> h.id() == self.id(),
    {
        match self.inner.poll(table) {
            PollReply::Ready(v) => RecoverablePoll::Ready(v),
            PollReply::Cancelled => RecoverablePoll::Cancelled,
            PollReply::Pending(h) => RecoverablePoll::Pending(RecoverableHandle { inner: h }),
        }
    }

    /// Request cancellation; idempotent, frees nothing.
    pub fn cancel(&self, table: &mut ProcTable<Result<R, CapturedPanic>>)
        requires
            table_wf(old(table)@),
            live_at(old(table)@, self.id()),
        ensures
            table_wf(final(table)@),
            final(table)@ == old(table)@.update(
                self.id(),
                cancel_slot(slot_at(old(table)@, self.id())),
            ),
            live_at(final(table)@, self.id()),
    {
        self.inner.cancel(table)
    }

    /// Drop the handle, releasing its reference; see the plain handle.
    pub fn release(self, table: &mut ProcTable<Result<R, CapturedPanic>>)
        requires
            table_wf(old(table)@),
            live_at(old(table)@, self.id()),
            slot_at(old(table)@, self.id()).state.handle_alive,
        ensures
            table_wf(final(table)@),
            final(table)@ == old(table)@.update(
                self.id(),
                release_handle_slot(slot_at(old(table)@, self.id())),
            ),
            is_freed(slot_at(final(table)@, self.id())) <==> slot_at(old(table)@, self.id()).refs
                == 1,
    {
        self.inner.release(table)
    }
}

/// Recoverable-wrapper law: a payload panic during the poll of a
/// recoverable process is delivered as the captured-panic error through the
/// ordinary completion path, while the same panic on a plain process stores
/// nothing — the output side only ever sees cancellation, and the runner is
/// handed the panic (the run operation reports `Panicked`), so it is not
/// silently swallowed.
pub proof fn lemma_panic_recovery<R>(s: Slot<Result<R, CapturedPanic>>, p: Slot<R>)
    requires
        slot_wf(s),
        s.state.running,
        !s.state.closed,
        s.state.handle_alive,
        s.refs == 2,
        slot_wf(p),
        p.state.running,
    ensures
        finish_run_slot(s, recover_spec(PollOutcome::<R>::Panicked)).payload == Payload::Output(
            Err::<R, CapturedPanic>(CapturedPanic),
        ),
        observes_value(finish_run_slot(s, recover_spec(PollOutcome::<R>::Panicked))),
        !observes_value(finish_run_slot(p, PollOutcome::<R>::Panicked)),
        !is_freed(finish_run_slot(p, PollOutcome::<R>::Panicked)) ==> observes_cancellation(
            finish_run_slot(p, PollOutcome::<R>::Panicked),
        ),
{
}

} // verus!
