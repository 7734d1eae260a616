use vstd::prelude::*;

use crate::proc_stack::ProcStack;

verus! {

/// Lifecycle flags of one lightweight process, tracked in its control header.
///
/// `scheduled` — the runnable handle has been handed out for enqueueing;
/// `running` — a runner is inside the poll step right now;
/// `completed` — the payload finished and its output (if any) was stored;
/// `closed` — the process was cancelled or its output was consumed; a closed
/// process is never handed out for scheduling again;
/// `handle_alive` — the output handle has not been released yet;
/// `awaiter` — a waiter is registered on the output handle side.
#[derive(Clone, Copy, PartialEq, Eq, Structural, Debug)]
pub struct State {
    pub scheduled: bool,
    pub running: bool,
    pub completed: bool,
    pub closed: bool,
    pub handle_alive: bool,
    pub awaiter: bool,
}

/// What one poll step of the payload did: produced the output, suspended,
/// or aborted abruptly (the payload panicked).
pub enum PollOutcome<R> {
    Ready(R),
    Pending,
    Panicked,
}

/// The future/output storage of one process: a tagged union in time.
/// Before completion it holds the live future; after completion it holds the
/// output; once the future is dropped or the output is taken it is empty.
pub enum Payload<R> {
    Future,
    Output(R),
    Empty,
}

/// One process allocation: the control header (lifecycle flags and reference
/// count), the stack metadata, and the future/output storage.  A slot with
/// `refs == 0` stands for memory already returned to the allocator.
pub struct Slot<R> {
    pub state: State,
    pub refs: u64,
    pub stack: ProcStack,
    pub payload: Payload<R>,
}

/// The state every process starts in: not scheduled, not running, not
/// completed, not closed, output handle alive, no awaiter registered.
pub open spec fn initial_state() -> State {
    State {
        scheduled: false,
        running: false,
        completed: false,
        closed: false,
        handle_alive: true,
        awaiter: false,
    }
}

/// A freshly allocated process: two references (one per handle), the live
/// future in place.
pub open spec fn fresh_slot<R>(stack: ProcStack) -> Slot<R> {
    Slot { state: initial_state(), refs: 2, stack, payload: Payload::Future }
}

/// The canonical freed slot: no references, nothing stored.
pub open spec fn freed_slot<R>() -> Slot<R> {
    Slot {
        state: State {
            scheduled: false,
            running: false,
            completed: false,
            closed: true,
            handle_alive: false,
            awaiter: false,
        },
        refs: 0,
        stack: ProcStack { pid: 0, affinity: None },
        payload: Payload::Empty,
    }
}

/// The allocation has been returned; no operation may touch it again.
pub open spec fn is_freed<R>(s: Slot<R>) -> bool {
    s.refs == 0
}

/// Well-formedness of a live slot.  At most two references ever exist (one
/// per handle); the future is gone once the process completed; an output is
/// only ever stored by a completed process; an unfinished, uncancelled
/// process always still holds its future; and a runner polls a live future
/// of a process that has not completed.
pub open spec fn slot_wf<R>(s: Slot<R>) -> bool {
    &&& 1 <= s.refs <= 2
    &&& s.state.completed ==> !(s.payload is Future)
    &&& s.payload is Output ==> s.state.completed
    &&& (!s.state.completed && !s.state.closed) ==> s.payload is Future
    &&& s.state.running ==> (s.payload is Future && !s.state.completed)
}

/// The `decrement` operation of the table: drop one strong reference; the
/// allocation is freed when and only when the last reference goes.
pub open spec fn dec_slot<R>(s: Slot<R>) -> Slot<R> {
    if s.refs <= 1 {
        freed_slot()
    } else {
        Slot { refs: (s.refs - 1) as u64, ..s }
    }
}

/// Cancellation: set `closed` and wake any registered awaiter.  A process
/// that is already closed is left exactly as it is.
pub open spec fn cancel_slot<R>(s: Slot<R>) -> Slot<R> {
    if s.state.closed {
        s
    } else {
        Slot { state: State { closed: true, awaiter: false, ..s.state }, ..s }
    }
}

/// The `schedule` operation: a process that is not closed is marked
/// scheduled and the runnable handle is handed back for enqueueing; a closed
/// process only has the runnable's reference corrected (released).
pub open spec fn schedule_slot<R>(s: Slot<R>) -> Slot<R> {
    if s.state.closed {
        dec_slot(s)
    } else {
        Slot { state: State { scheduled: true, ..s.state }, ..s }
    }
}

/// First half of `run`: claim the single-runner flag.  A process found
/// closed has its future dropped unpolled, any waiter woken, and the
/// runner's reference released.
pub open spec fn begin_run_slot<R>(s: Slot<R>) -> Slot<R> {
    if s.state.closed {
        dec_slot(
            Slot {
                state: State { scheduled: false, awaiter: false, ..s.state },
                payload: Payload::Empty,
                ..s
            },
        )
    } else {
        Slot { state: State { scheduled: false, running: true, ..s.state }, ..s }
    }
}

/// Second half of `run`: record what the poll step did.  On suspension the
/// runner flag is cleared and nothing else changes.  On completion the
/// output is stored — or discarded, if the output handle is gone or the
/// process was cancelled during the poll — any waiter is woken, and the
/// runner's reference is released.  On a payload panic the process is
/// closed with nothing stored.
pub open spec fn finish_run_slot<R>(s: Slot<R>, o: PollOutcome<R>) -> Slot<R> {
    match o {
        PollOutcome::Pending => Slot { state: State { running: false, ..s.state }, ..s },
        PollOutcome::Ready(v) => {
            let keep = s.state.handle_alive && !s.state.closed;
            dec_slot(
                Slot {
                    state: State {
                        running: false,
                        completed: true,
                        closed: s.state.closed || !s.state.handle_alive,
                        awaiter: false,
                        ..s.state
                    },
                    payload: if keep {
                        Payload::Output(v)
                    } else {
                        Payload::Empty
                    },
                    ..s
                },
            )
        },
        PollOutcome::Panicked => dec_slot(
            Slot {
                state: State { running: false, closed: true, awaiter: false, ..s.state },
                payload: Payload::Empty,
                ..s
            },
        ),
    }
}

/// Dropping the runnable handle: cancel the process, drop the future if it
/// has not completed, and release the runnable's reference — in that order.
pub open spec fn release_light_slot<R>(s: Slot<R>) -> Slot<R> {
    let c = cancel_slot(s);
    dec_slot(
        Slot {
            payload: if c.state.completed {
                c.payload
            } else {
                Payload::Empty
            },
            ..c
        },
    )
}

/// Dropping the output handle: mark the process closed, discard an output
/// nobody will ever take, and release the handle's reference.  The runnable
/// side's reference, if still held, keeps the allocation alive.
pub open spec fn release_handle_slot<R>(s: Slot<R>) -> Slot<R> {
    dec_slot(
        Slot {
            state: State { closed: true, handle_alive: false, awaiter: false, ..s.state },
            payload: if s.payload is Output {
                Payload::Empty
            } else {
                s.payload
            },
            ..s
        },
    )
}

/// The output handle can take a value out of this slot.
pub open spec fn observes_value<R>(s: Slot<R>) -> bool {
    s.payload is Output
}

/// The output handle observes cancellation: the process is closed and no
/// output will ever be stored for it.
pub open spec fn observes_cancellation<R>(s: Slot<R>) -> bool {
    s.state.closed && !(s.payload is Output)
}

/// The output handle can only wait: the process is neither resolved nor
/// cancelled yet.
pub open spec fn observes_pending<R>(s: Slot<R>) -> bool {
    !s.state.closed && !(s.payload is Output)
}

/// Polling the output handle.  A stored output is taken (exactly once) and
/// the handle's reference released; a closed process without output releases
/// the reference as well, surfacing cancellation; otherwise an awaiter is
/// registered and the handle stays alive.
pub open spec fn poll_slot<R>(s: Slot<R>) -> Slot<R> {
    if observes_value(s) {
        dec_slot(
            Slot {
                state: State { closed: true, handle_alive: false, awaiter: false, ..s.state },
                payload: Payload::Empty,
                ..s
            },
        )
    } else if observes_cancellation(s) {
        dec_slot(Slot { state: State { handle_alive: false, awaiter: false, ..s.state }, ..s })
    } else {
        Slot { state: State { awaiter: true, ..s.state }, ..s }
    }
}

/// A runner may claim the poll step only while no other runner holds it and
/// the process has not already completed.
pub open spec fn run_enabled<R>(s: Slot<R>) -> bool {
    !s.state.running && !s.state.completed
}

/// Every transition keeps a live slot well formed (or frees it).
pub proof fn lemma_transitions_preserve_wf<R>(s: Slot<R>, o: PollOutcome<R>)
    requires
        slot_wf(s),
    ensures
        slot_wf(dec_slot(s)) || is_freed(dec_slot(s)),
        slot_wf(cancel_slot(s)),
        slot_wf(schedule_slot(s)) || is_freed(schedule_slot(s)),
        run_enabled(s) ==> slot_wf(begin_run_slot(s)) || is_freed(begin_run_slot(s)),
        s.state.running ==> slot_wf(finish_run_slot(s, o)) || is_freed(finish_run_slot(s, o)),
        !s.state.running ==> slot_wf(release_light_slot(s)) || is_freed(release_light_slot(s)),
        slot_wf(release_handle_slot(s)) || is_freed(release_handle_slot(s)),
        slot_wf(poll_slot(s)) || is_freed(poll_slot(s)),
{
}

/// At any instant the output side has exactly one of three observations
/// open to it: a stored value, cancellation, or "still pending"; and once a
/// value has been taken the slot never offers one again.  Together with the
/// fact that taking a value or observing cancellation consumes the output
/// handle, a spawned process resolves to at most one observed outcome.
pub proof fn lemma_exactly_one_observation<R>(s: Slot<R>)
    ensures
        observes_value(s) || observes_cancellation(s) || observes_pending(s),
        !(observes_value(s) && observes_cancellation(s)),
        !(observes_value(s) && observes_pending(s)),
        !(observes_cancellation(s) && observes_pending(s)),
        observes_value(s) ==> !observes_value(poll_slot(s)),
{
}

/// Dropping the runnable handle of a process that was never run or
/// scheduled: the future is dropped so no work can ever execute, the output
/// side observes cancellation, and polling the output handle then releases
/// the last reference, freeing the allocation.
pub proof fn lemma_drop_unused_runnable<R>(stack: ProcStack)
    ensures
        ({
            let s1 = release_light_slot(fresh_slot::<R>(stack));
            &&& !is_freed(s1)
            &&& s1.payload is Empty
            &&& observes_cancellation(s1)
            &&& is_freed(poll_slot(s1))
        }),
{
}

/// Reference-count law: with both handles alive, releasing either side alone
/// never frees the allocation, and releasing the remaining side afterwards
/// — in either order — frees it exactly then.
pub proof fn lemma_freed_iff_both_released<R>(s: Slot<R>)
    requires
        slot_wf(s),
        s.refs == 2,
    ensures
        !is_freed(release_light_slot(s)),
        !is_freed(release_handle_slot(s)),
        is_freed(release_handle_slot(release_light_slot(s))),
        is_freed(release_light_slot(release_handle_slot(s))),
{
}

/// Reference-count law, last owner: once only one reference is left, any
/// operation that releases it frees the allocation, and a freed slot is
/// never freed twice (every transition of this module requires a live slot).
pub proof fn lemma_last_reference_frees<R>(s: Slot<R>)
    requires
        slot_wf(s),
        s.refs == 1,
    ensures
        is_freed(release_light_slot(s)),
        is_freed(release_handle_slot(s)),
        s.state.closed ==> is_freed(begin_run_slot(s)),
        s.state.closed ==> is_freed(schedule_slot(s)),
{
}

/// Run-exclusivity: claiming the poll step of a runnable process leaves a
/// slot on which a second claim is rejected until the first runner finishes;
/// and a slot whose runner is active can never be claimed.
pub proof fn lemma_run_exclusive<R>(s: Slot<R>)
    ensures
        (!s.state.closed && run_enabled(s)) ==> {
            let s1 = begin_run_slot(s);
            s1.state.running && !run_enabled(s1)
        },
        s.state.running ==> !run_enabled(s),
{
}

/// Cancel idempotence: cancelling any number of times, in any interleaving,
/// leaves the slot exactly as a single cancellation does.
pub proof fn lemma_cancel_idempotent<R>(s: Slot<R>)
    ensures
        cancel_slot(cancel_slot(s)) == cancel_slot(s),
{
}

/// The straight-through life of a process that completes: spawned, handed
/// out for enqueueing once, run for one poll step that produces `v`.  The
/// output side then observes exactly `v` — no other value, and neither
/// cancellation nor pending — and taking it releases the last reference,
/// freeing the allocation; afterwards no observation is ever offered again.
pub proof fn lemma_spawn_to_value<R>(stack: ProcStack, v: R)
    ensures
        ({
            let polled = finish_run_slot(
                begin_run_slot(schedule_slot(fresh_slot::<R>(stack))),
                PollOutcome::Ready(v),
            );
            &&& polled.payload == Payload::Output(v)
            &&& observes_value(polled)
            &&& polled.state.completed
            &&& !is_freed(polled)
            &&& is_freed(poll_slot(polled))
        }),
{
}

/// A closed process is never handed out for scheduling again: the schedule
/// operation on it only corrects the reference count, and the caller gets
/// nothing to enqueue (stated on the handle operation itself).
pub proof fn lemma_schedule_after_close<R>(s: Slot<R>)
    requires
        slot_wf(s),
        s.state.closed,
    ensures
        schedule_slot(s) == dec_slot(s),
{
}

} // verus!
