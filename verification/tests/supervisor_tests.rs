use sys_core::supervisor::{
    aggregate_outcomes, listener_ready, run_verdict, JoinOutcome, LoopCommand, LoopExit, StepOutcome,
    StopFlag, WaitOutcome, WorkerFactory, WorkerLoop,
};
use sys_core::errors::WorkerError;

#[test]
fn stop_before_any_step_skips_worker() {
    // A loop scheduled after the stop signal fired makes no step at all.
    let (wl, cmd) = WorkerLoop::start(true);
    assert_eq!(cmd, LoopCommand::Exit { exit: LoopExit::Shutdown });
    assert_eq!(wl.step_count(), 0);
    assert!(wl.is_done());
    assert_eq!(wl.exit(), LoopExit::Shutdown);
}

#[test]
fn stop_after_one_step_exits_at_race() {
    // A loop that had already started makes at most one step once the stop
    // signal has fired: the race after the first step observes it.
    let (mut wl, cmd) = WorkerLoop::start(false);
    assert_eq!(cmd, LoopCommand::RunStep);
    let cmd = wl.on_step(StepOutcome::Completed { delay_ms: 250 });
    assert_eq!(cmd, LoopCommand::Wait { delay_ms: 250 });
    let cmd = wl.on_wait(WaitOutcome::Stopped);
    assert_eq!(cmd, LoopCommand::Exit { exit: LoopExit::Shutdown });
    assert_eq!(wl.step_count(), 1);
    assert_eq!(wl.exit(), LoopExit::Shutdown);
}

#[test]
fn fixed_delay_step_count() {
    // Fixed delay 10 in a run stopped at 50 time units: 50 / 10 + 1 = 6
    // steps, the last race observing the stop signal.
    let (mut wl, mut cmd) = WorkerLoop::start(false);
    let mut steps = 0u64;
    for _ in 0..5 {
        assert_eq!(cmd, LoopCommand::RunStep);
        cmd = wl.on_step(StepOutcome::Completed { delay_ms: 10 });
        steps += 1;
        assert_eq!(cmd, LoopCommand::Wait { delay_ms: 10 });
        cmd = wl.on_wait(WaitOutcome::Elapsed);
    }
    assert_eq!(cmd, LoopCommand::RunStep);
    cmd = wl.on_step(StepOutcome::Completed { delay_ms: 10 });
    steps += 1;
    cmd = wl.on_wait(WaitOutcome::Stopped);
    assert_eq!(cmd, LoopCommand::Exit { exit: LoopExit::Shutdown });
    assert_eq!(steps, 6);
    assert_eq!(wl.step_count(), 6);
}

#[test]
fn first_step_failure_is_terminal() {
    let (mut wl, cmd) = WorkerLoop::start(false);
    assert_eq!(cmd, LoopCommand::RunStep);
    let cmd = wl.on_step(StepOutcome::Failed);
    assert_eq!(cmd, LoopCommand::Exit { exit: LoopExit::StepError });
    assert_eq!(wl.step_count(), 1);
    assert!(wl.is_done());
    assert_eq!(wl.exit(), LoopExit::StepError);
    // The run itself still succeeds.
    let report = aggregate_outcomes(&vec![JoinOutcome::Finished { exit: LoopExit::StepError }]);
    assert!(run_verdict(&report).is_ok());
}

#[test]
fn double_fire_is_idempotent() {
    let mut stop = StopFlag::new();
    assert!(!stop.fired());
    stop.fire();
    stop.fire();
    assert!(stop.fired());

    let mut factory = WorkerFactory::new();
    factory.push("a".to_string());
    factory.fire_stop();
    factory.fire_stop();
    assert!(factory.stop_requested());
    assert_eq!(factory.worker_count(), 1);
}

#[test]
fn three_workers_scenario() {
    // A steps every 10ms and runs forever; B fails immediately; C asks for a
    // 10s delay. Stop fires at 50ms: A makes 6 steps (t = 0..50), B exits at
    // once with a step error, C makes one step and exits without waiting out
    // its delay; the run returns successfully.
    let mut factory = WorkerFactory::new();
    factory.push("A".to_string());
    factory.push("B".to_string());
    factory.push("C".to_string());
    assert_eq!(factory.worker_count(), 3);

    let (mut a, mut cmd_a) = factory.start_loop();
    let (mut b, cmd_b) = factory.start_loop();
    let (mut c, cmd_c) = factory.start_loop();

    for _ in 0..5 {
        assert_eq!(cmd_a, LoopCommand::RunStep);
        cmd_a = a.on_step(StepOutcome::Completed { delay_ms: 10 });
        cmd_a = match cmd_a {
            LoopCommand::Wait { .. } => a.on_wait(WaitOutcome::Elapsed),
            other => other,
        };
    }
    a.on_step(StepOutcome::Completed { delay_ms: 10 });
    let cmd_a = a.on_wait(WaitOutcome::Stopped);
    assert_eq!(cmd_a, LoopCommand::Exit { exit: LoopExit::Shutdown });
    assert_eq!(a.step_count(), 6);

    assert_eq!(cmd_b, LoopCommand::RunStep);
    let cmd_b = b.on_step(StepOutcome::Failed);
    assert_eq!(cmd_b, LoopCommand::Exit { exit: LoopExit::StepError });
    assert_eq!(b.step_count(), 1);

    assert_eq!(cmd_c, LoopCommand::RunStep);
    let cmd_c = c.on_step(StepOutcome::Completed { delay_ms: 10_000 });
    assert_eq!(cmd_c, LoopCommand::Wait { delay_ms: 10_000 });
    let cmd_c = c.on_wait(WaitOutcome::Stopped);
    assert_eq!(cmd_c, LoopCommand::Exit { exit: LoopExit::Shutdown });
    assert_eq!(c.step_count(), 1);

    let outcomes = vec![
        JoinOutcome::Finished { exit: a.exit() },
        JoinOutcome::Finished { exit: b.exit() },
        JoinOutcome::Finished { exit: c.exit() },
    ];
    let report = aggregate_outcomes(&outcomes);
    assert_eq!(report.errored, 1);
    assert_eq!(report.stopped, 2);
    assert_eq!(report.join_failed, 0);
    assert!(run_verdict(&report).is_ok());
}

#[test]
fn empty_registry_run_succeeds() {
    // No workers, stop fired immediately: nothing to join, success.
    let mut factory = WorkerFactory::new();
    assert_eq!(factory.worker_count(), 0);
    factory.fire_stop();
    let report = aggregate_outcomes(&Vec::new());
    assert_eq!(report.errored, 0);
    assert_eq!(report.stopped, 0);
    assert_eq!(report.join_failed, 0);
    assert!(run_verdict(&report).is_ok());
}

#[test]
fn join_failures_counted_separately() {
    let outcomes = vec![
        JoinOutcome::Finished { exit: LoopExit::Shutdown },
        JoinOutcome::Panicked,
        JoinOutcome::Cancelled,
        JoinOutcome::Finished { exit: LoopExit::StepError },
    ];
    let report = aggregate_outcomes(&outcomes);
    assert_eq!(report.errored, 1);
    assert_eq!(report.stopped, 1);
    assert_eq!(report.join_failed, 2);
}

#[test]
fn listener_ready_decides_run_start() {
    assert!(listener_ready(true).is_ok());
    match listener_ready(false) {
        Err(WorkerError::Notify { message }) => {
            assert_eq!(message, "failed to install the shutdown signal listener");
        }
        _ => panic!("listener install failure must surface as a notify error"),
    }
}

#[test]
fn registry_is_append_only_in_order() {
    let mut factory = WorkerFactory::new();
    factory.push("first".to_string());
    factory.push("second".to_string());
    assert_eq!(factory.worker_count(), 2);
    assert!(!factory.stop_requested());
}
