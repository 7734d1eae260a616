use lightproc::lightproc::{BeginRun, LightProc, RunResult};
use lightproc::proc_data::PollOutcome;
use lightproc::proc_handle::PollReply;
use lightproc::proc_stack::ProcStack;
use lightproc::proc_table::ProcTable;
use lightproc::recoverable_handle::{recover_poll, CapturedPanic, RecoverablePoll};

#[test]
fn spawn_completes_end_to_end() {
    let mut table: ProcTable<i32> = ProcTable::new();
    let (proc, handle) = LightProc::build(&mut table, ProcStack::new(1));

    // The scheduling callback of the test stores the runnable in a queue
    // instead of handing it to real workers.
    let mut queue: Vec<LightProc> = Vec::new();
    match proc.schedule(&mut table) {
        Some(runnable) => queue.push(runnable),
        None => panic!("an open process must be handed out for enqueueing"),
    }

    // Drain the queue and run once; the future completes immediately.
    let runnable = queue.pop().unwrap();
    let result = runnable.run(&mut table, PollOutcome::Ready(42));
    assert!(matches!(result, RunResult::Completed));

    // No runnable came back, so nothing can ever be re-enqueued.
    assert!(queue.is_empty());

    match handle.poll(&mut table) {
        PollReply::Ready(v) => assert_eq!(v, 42),
        _ => panic!("the output handle must resolve to the stored value"),
    }
    assert_eq!(table.live_procs(), 0);
}

#[test]
fn drop_runnable_before_run_cancels() {
    let mut table: ProcTable<i32> = ProcTable::new();
    let (proc, handle) = LightProc::build(&mut table, ProcStack::new(2));

    proc.release(&mut table);
    assert_eq!(table.live_procs(), 1);

    match handle.poll(&mut table) {
        PollReply::Cancelled => {}
        _ => panic!("the output handle must observe cancellation"),
    }
    assert_eq!(table.live_procs(), 0);
}

#[test]
fn drop_output_before_completion() {
    let mut table: ProcTable<i32> = ProcTable::new();
    let (proc, handle) = LightProc::build(&mut table, ProcStack::new(3));

    handle.release(&mut table);
    assert_eq!(table.live_procs(), 1);

    // The process was closed by the handle drop: running it executes
    // nothing and releases the last reference.
    let result = proc.run(&mut table, PollOutcome::Ready(5));
    assert!(matches!(result, RunResult::Closed));
    assert_eq!(table.live_procs(), 0);
}

#[test]
fn drop_both_after_completion() {
    let mut table: ProcTable<i32> = ProcTable::new();
    let (proc, handle) = LightProc::build(&mut table, ProcStack::new(4));

    let result = proc.run(&mut table, PollOutcome::Ready(7));
    assert!(matches!(result, RunResult::Completed));
    assert_eq!(table.live_procs(), 1);

    handle.release(&mut table);
    assert_eq!(table.live_procs(), 0);
}

#[test]
fn cancel_is_idempotent() {
    let mut table: ProcTable<i32> = ProcTable::new();
    let (proc, handle) = LightProc::build(&mut table, ProcStack::new(5));

    proc.cancel(&mut table);
    proc.cancel(&mut table);
    handle.cancel(&mut table);

    match handle.poll(&mut table) {
        PollReply::Cancelled => {}
        _ => panic!("a cancelled process resolves to cancellation, once"),
    }
    assert_eq!(table.live_procs(), 1);

    proc.release(&mut table);
    assert_eq!(table.live_procs(), 0);
}

#[test]
fn cancel_during_poll_discards_output() {
    let mut table: ProcTable<i32> = ProcTable::new();
    let (proc, handle) = LightProc::build(&mut table, ProcStack::new(6));

    // Claim the poll step, then race a cancellation in before it finishes.
    let guard = match proc.begin_run(&mut table) {
        BeginRun::Polling(g) => g,
        BeginRun::AlreadyClosed => panic!("the process is open"),
    };
    handle.cancel(&mut table);

    let result = guard.finish(&mut table, PollOutcome::Ready(9));
    assert!(matches!(result, RunResult::Completed));

    // The output was discarded: only cancellation is observable.
    match handle.poll(&mut table) {
        PollReply::Cancelled => {}
        _ => panic!("a process cancelled during the poll delivers no value"),
    }
    assert_eq!(table.live_procs(), 0);
}

#[test]
fn suspension_hands_the_runnable_back() {
    let mut table: ProcTable<i32> = ProcTable::new();
    let (proc, handle) = LightProc::build(&mut table, ProcStack::new(7));

    let runnable = match proc.run(&mut table, PollOutcome::Pending) {
        RunResult::Suspended(p) => p,
        _ => panic!("a pending poll suspends the process"),
    };

    // The output side is not resolved yet; it registers an awaiter.
    let handle = match handle.poll(&mut table) {
        PollReply::Pending(h) => h,
        _ => panic!("an unfinished process leaves the output pending"),
    };

    // Re-enqueue and run to completion.
    let runnable = runnable.schedule(&mut table).unwrap();
    let result = runnable.run(&mut table, PollOutcome::Ready(3));
    assert!(matches!(result, RunResult::Completed));

    match handle.poll(&mut table) {
        PollReply::Ready(v) => assert_eq!(v, 3),
        _ => panic!("the awaited value must be delivered"),
    }
    assert_eq!(table.live_procs(), 0);
}

#[test]
fn schedule_after_cancel_hands_nothing_out() {
    let mut table: ProcTable<i32> = ProcTable::new();
    let (proc, handle) = LightProc::build(&mut table, ProcStack::new(8));

    handle.cancel(&mut table);
    assert!(proc.schedule(&mut table).is_none());
    assert_eq!(table.live_procs(), 1);

    match handle.poll(&mut table) {
        PollReply::Cancelled => {}
        _ => panic!("a cancelled process resolves to cancellation"),
    }
    assert_eq!(table.live_procs(), 0);
}

#[test]
fn stack_metadata_is_readable() {
    let mut table: ProcTable<i32> = ProcTable::new();
    let stack = ProcStack::new(7).with_affinity(2);
    let (proc, handle) = LightProc::build(&mut table, stack);

    let read = proc.stack(&table);
    assert_eq!(read.pid, 7);
    assert_eq!(read.affinity, Some(2));

    proc.release(&mut table);
    handle.release(&mut table);
    assert_eq!(table.live_procs(), 0);
}

#[test]
fn recoverable_panic_delivers_error() {
    let mut table: ProcTable<Result<u32, CapturedPanic>> = ProcTable::new();
    let (proc, handle) = LightProc::recoverable(&mut table, ProcStack::new(9));

    // The payload panics during its poll; the instrumented boundary turns
    // that into an ordinary completion carrying the error.
    let result = proc.run(&mut table, recover_poll::<u32>(PollOutcome::Panicked));
    assert!(matches!(result, RunResult::Completed));

    match handle.poll(&mut table) {
        RecoverablePoll::Ready(v) => assert_eq!(v, Err(CapturedPanic)),
        _ => panic!("the captured panic must be delivered as an error result"),
    }
    assert_eq!(table.live_procs(), 0);
}

#[test]
fn recoverable_success_delivers_value() {
    let mut table: ProcTable<Result<u32, CapturedPanic>> = ProcTable::new();
    let (proc, handle) = LightProc::recoverable(&mut table, ProcStack::new(10));

    let result = proc.run(&mut table, recover_poll::<u32>(PollOutcome::Ready(41)));
    assert!(matches!(result, RunResult::Completed));

    match handle.poll(&mut table) {
        RecoverablePoll::Ready(v) => assert_eq!(v, Ok(41)),
        _ => panic!("the value must be delivered"),
    }
    assert_eq!(table.live_procs(), 0);
}

#[test]
fn plain_panic_is_not_swallowed() {
    let mut table: ProcTable<i32> = ProcTable::new();
    let (proc, handle) = LightProc::build(&mut table, ProcStack::new(11));

    // Without the recovery wrapper the runner is handed the panic.
    let result = proc.run(&mut table, PollOutcome::Panicked);
    assert!(matches!(result, RunResult::Panicked));

    // The output side sees no value, only cancellation.
    match handle.poll(&mut table) {
        PollReply::Cancelled => {}
        _ => panic!("an unrecovered panic stores no output"),
    }
    assert_eq!(table.live_procs(), 0);
}
