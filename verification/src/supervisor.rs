//! The worker-supervision core.
//!
//! A supervisor owns an append-only registry of workers, runs one independent
//! loop per worker, and coordinates an orderly shutdown when the broadcast
//! stop signal fires. Each loop repeatedly performs one unit of work
//! (`step`), then races the returned delay against the stop signal; a step
//! failure ends that loop alone, and the stop signal ends every loop at its
//! next race point.
//!
//! The host drives the actual tasks: it performs the steps, the sleeps and
//! the joins, and feeds every observation into the verified state machines
//! here, which decide what happens next. A spec-level timed simulation of one
//! loop (`sim_loop`) states the behaviour over a whole run, and the proof
//! functions at the end establish the shutdown and step-count laws against
//! it.

use vstd::prelude::*;
use vstd::arithmetic::div_mod::{lemma_basic_div, lemma_div_plus_one};

use crate::errors::WorkerError;

verus! {

/// Model of the broadcast stop signal: a level-triggered, idempotent event.
/// Once fired it stays fired, however many producers fire it and in whatever
/// order; consumers only ever ask whether it has fired.
pub struct StopFlag {
    fired: bool,
}

impl StopFlag {
    pub closed spec fn is_fired(&self) -> bool {
        self.fired
    }

    pub fn new() -> (r: Self)
        ensures
            !r.is_fired(),
    {
        StopFlag { fired: false }
    }

    /// Fire the signal. Idempotent: there is no precondition, and firing an
    /// already-fired signal leaves it fired, so any number of producers may
    /// fire concurrently-observed copies of this state without harm.
    pub fn fire(&mut self)
        ensures
            final(self).is_fired(),
    {
        self.fired = true;
    }

    pub fn fired(&self) -> (r: bool)
        ensures
            r == self.is_fired(),
    {
        self.fired
    }
}

/// What one `step()` call of a worker reported.
#[derive(Clone, Copy, Debug, PartialEq, Eq, Structural)]
pub enum StepOutcome {
    /// The step succeeded and asked to be re-run after this delay.
    Completed { delay_ms: u64 },
    /// The step failed; the failure is fatal for this worker's loop.
    Failed,
}

/// What the race between "sleep for the delay" and "stop signal fired"
/// resolved to.
#[derive(Clone, Copy, Debug, PartialEq, Eq, Structural)]
pub enum WaitOutcome {
    /// The delay elapsed first: run the next step.
    Elapsed,
    /// The stop signal fired first: exit without finishing the sleep.
    Stopped,
}

/// Why a worker loop reached its terminal state.
#[derive(Clone, Copy, Debug, PartialEq, Eq, Structural)]
pub enum LoopExit {
    /// The worker's own step failed; recorded, never escalated.
    StepError,
    /// The loop observed the stop signal.
    Shutdown,
}

/// What the host must do next for one worker loop.
#[derive(Clone, Copy, Debug, PartialEq, Eq, Structural)]
pub enum LoopCommand {
    /// Call the worker's `step()` and report its outcome.
    RunStep,
    /// Race a sleep of `delay_ms` against the stop signal and report which
    /// resolved first.
    Wait { delay_ms: u64 },
    /// The loop is finished; no further `step()` calls occur.
    Exit { exit: LoopExit },
}

/// Where one worker loop stands.
#[derive(Clone, Copy, Debug, PartialEq, Eq, Structural)]
pub enum LoopPhase {
    /// About to call `step()`.
    Stepping,
    /// Racing the returned delay against the stop signal.
    Waiting { delay_ms: u64 },
    /// Terminal.
    Done { exit: LoopExit },
}

/// The machine's transition out of the step state: a completed step moves
/// to the race on its delay, a failed step is terminal with a step-error
/// exit. The returned pair is the next phase and the command the host must
/// perform.
pub open spec fn step_transition(outcome: StepOutcome) -> (LoopPhase, LoopCommand) {
    match outcome {
        StepOutcome::Completed { delay_ms } => (
            LoopPhase::Waiting { delay_ms },
            LoopCommand::Wait { delay_ms },
        ),
        StepOutcome::Failed => (
            LoopPhase::Done { exit: LoopExit::StepError },
            LoopCommand::Exit { exit: LoopExit::StepError },
        ),
    }
}

/// The machine's transition out of the race state: an elapsed delay
/// re-enters the step state, an observed stop signal is terminal with a
/// shutdown exit.
pub open spec fn wait_transition(outcome: WaitOutcome) -> (LoopPhase, LoopCommand) {
    match outcome {
        WaitOutcome::Elapsed => (LoopPhase::Stepping, LoopCommand::RunStep),
        WaitOutcome::Stopped => (
            LoopPhase::Done { exit: LoopExit::Shutdown },
            LoopCommand::Exit { exit: LoopExit::Shutdown },
        ),
    }
}

/// The state machine of one worker's execution loop. The host owns one per
/// spawned loop task, performs each returned [`LoopCommand`], and hands the
/// observation back; the machine decides every transition.
pub struct WorkerLoop {
    phase: LoopPhase,
    steps: u64,
}

impl WorkerLoop {
    pub closed spec fn phase(&self) -> LoopPhase {
        self.phase
    }

    /// Number of `step()` calls made so far.
    pub closed spec fn steps(&self) -> u64 {
        self.steps
    }

    /// Start the loop. A loop that is scheduled only after the stop signal
    /// has already fired exits at once, with zero `step()` calls; otherwise
    /// the first step runs immediately.
    pub fn start(stop_already_fired: bool) -> (r: (Self, LoopCommand))
        ensures
            r.0.steps() == 0,
            stop_already_fired ==> r.0.phase() == (LoopPhase::Done { exit: LoopExit::Shutdown })
                && r.1 == (LoopCommand::Exit { exit: LoopExit::Shutdown }),
            !stop_already_fired ==> r.0.phase() == LoopPhase::Stepping
                && r.1 == LoopCommand::RunStep,
    {
        if stop_already_fired {
            (
                WorkerLoop { phase: LoopPhase::Done { exit: LoopExit::Shutdown }, steps: 0 },
                LoopCommand::Exit { exit: LoopExit::Shutdown },
            )
        } else {
            (WorkerLoop { phase: LoopPhase::Stepping, steps: 0 }, LoopCommand::RunStep)
        }
    }

    /// Record the outcome of one `step()` call. Success leads to the
    /// delay/stop race; failure is terminal for this loop alone and exits
    /// immediately.
    pub fn on_step(&mut self, outcome: StepOutcome) -> (cmd: LoopCommand)
        requires
            old(self).phase() == LoopPhase::Stepping,
            old(self).steps() < u64::MAX,
        ensures
            final(self).steps() == old(self).steps() + 1,
            final(self).phase() == step_transition(outcome).0,
            cmd == step_transition(outcome).1,
    {
        self.steps = self.steps + 1;
        match outcome {
            StepOutcome::Completed { delay_ms } => {
                self.phase = LoopPhase::Waiting { delay_ms };
                LoopCommand::Wait { delay_ms }
            },
            StepOutcome::Failed => {
                self.phase = LoopPhase::Done { exit: LoopExit::StepError };
                LoopCommand::Exit { exit: LoopExit::StepError }
            },
        }
    }

    /// Record how the delay/stop race resolved. An elapsed delay re-enters
    /// the step state; an observed stop signal is terminal, and no partial
    /// sleep is waited out.
    pub fn on_wait(&mut self, outcome: WaitOutcome) -> (cmd: LoopCommand)
        requires
            old(self).phase() is Waiting,
        ensures
            final(self).steps() == old(self).steps(),
            final(self).phase() == wait_transition(outcome).0,
            cmd == wait_transition(outcome).1,
    {
        match outcome {
            WaitOutcome::Elapsed => {
                self.phase = LoopPhase::Stepping;
                LoopCommand::RunStep
            },
            WaitOutcome::Stopped => {
                self.phase = LoopPhase::Done { exit: LoopExit::Shutdown };
                LoopCommand::Exit { exit: LoopExit::Shutdown }
            },
        }
    }

    pub fn step_count(&self) -> (r: u64)
        ensures
            r == self.steps(),
    {
        self.steps
    }

    pub fn is_done(&self) -> (r: bool)
        ensures
            r == (self.phase() is Done),
    {
        match self.phase {
            LoopPhase::Done { .. } => true,
            _ => false,
        }
    }

    /// The terminal outcome of this loop, once it is done.
    pub fn exit(&self) -> (r: LoopExit)
        requires
            self.phase() is Done,
        ensures
            self.phase() == (LoopPhase::Done { exit: r }),
    {
        match self.phase {
            LoopPhase::Done { exit } => exit,
            _ => LoopExit::Shutdown,
        }
    }
}

/// How one worker's loop task ended, as seen by the joiner.
#[derive(Clone, Copy, Debug, PartialEq, Eq, Structural)]
pub enum JoinOutcome {
    /// The loop ran to its terminal state and reported it.
    Finished { exit: LoopExit },
    /// The loop task crashed instead of returning: a defect of the loop
    /// machinery, recorded distinctly from a worker's own step failure.
    Panicked,
    /// The loop task was cancelled before it could return.
    Cancelled,
}

/// Aggregate view of a finished run: how many loops ended in each way.
#[derive(Clone, Copy, Debug, PartialEq, Eq, Structural)]
pub struct RunReport {
    /// Loops that exited because their worker's step failed.
    pub errored: usize,
    /// Loops that exited because they observed the stop signal.
    pub stopped: usize,
    /// Loop tasks that could not be joined at all.
    pub join_failed: usize,
}

pub open spec fn count_errored(s: Seq<JoinOutcome>) -> nat
    decreases s.len(),
{
    if s.len() == 0 {
        0
    } else {
        count_errored(s.drop_last()) + if s.last() == (JoinOutcome::Finished {
            exit: LoopExit::StepError,
        }) {
            1nat
        } else {
            0nat
        }
    }
}

pub open spec fn count_stopped(s: Seq<JoinOutcome>) -> nat
    decreases s.len(),
{
    if s.len() == 0 {
        0
    } else {
        count_stopped(s.drop_last()) + if s.last() == (JoinOutcome::Finished {
            exit: LoopExit::Shutdown,
        }) {
            1nat
        } else {
            0nat
        }
    }
}

pub open spec fn count_join_failed(s: Seq<JoinOutcome>) -> nat
    decreases s.len(),
{
    if s.len() == 0 {
        0
    } else {
        count_join_failed(s.drop_last()) + if s.last() is Panicked || s.last() is Cancelled {
            1nat
        } else {
            0nat
        }
    }
}

proof fn lemma_counts_partition(s: Seq<JoinOutcome>)
    ensures
        count_errored(s) + count_stopped(s) + count_join_failed(s) == s.len(),
    decreases s.len(),
{
    if s.len() > 0 {
        lemma_counts_partition(s.drop_last());
    }
}

/// Join the per-worker outcomes of a finished run into a report. Every
/// outcome falls in exactly one bucket, so the three counts partition the
/// registry.
pub fn aggregate_outcomes(outcomes: &Vec<JoinOutcome>) -> (r: RunReport)
    ensures
        r.errored == count_errored(outcomes@),
        r.stopped == count_stopped(outcomes@),
        r.join_failed == count_join_failed(outcomes@),
        r.errored + r.stopped + r.join_failed == outcomes@.len(),
{
    let mut errored: usize = 0;
    let mut stopped: usize = 0;
    let mut join_failed: usize = 0;
    let n = outcomes.len();
    let mut i: usize = 0;
    while i < n
        invariant
            i <= n,
            n == outcomes@.len(),
            errored == count_errored(outcomes@.take(i as int)),
            stopped == count_stopped(outcomes@.take(i as int)),
            join_failed == count_join_failed(outcomes@.take(i as int)),
            errored + stopped + join_failed == i,
        decreases n - i,
    {
        proof {
            lemma_counts_partition(outcomes@.take(i as int));
            assert(outcomes@.take(i + 1).drop_last() =~= outcomes@.take(i as int));
            assert(outcomes@.take(i + 1).last() == outcomes@[i as int]);
        }
        match outcomes[i] {
            JoinOutcome::Finished { exit: LoopExit::StepError } => {
                errored = errored + 1;
            },
            JoinOutcome::Finished { exit: LoopExit::Shutdown } => {
                stopped = stopped + 1;
            },
            JoinOutcome::Panicked => {
                join_failed = join_failed + 1;
            },
            JoinOutcome::Cancelled => {
                join_failed = join_failed + 1;
            },
        }
        i = i + 1;
    }
    proof {
        assert(outcomes@.take(n as int) =~= outcomes@);
    }
    RunReport { errored, stopped, join_failed }
}

/// The run's own result once every loop has joined: success, regardless of
/// how many individual workers failed. The supervisor's job is orderly
/// shutdown, not propagating worker failures, so worker-level outcomes are
/// visible only through the report.
pub fn run_verdict(report: &RunReport) -> (r: Result<(), WorkerError>)
    ensures
        r is Ok,
{
    let _ = report;
    Ok(())
}

/// Before any loop starts, installing the stop-signal listener must have
/// succeeded, since shutdown could otherwise never be requested. A failed
/// install is the one supervisor-level failure that reaches the caller.
pub fn listener_ready(installed: bool) -> (r: Result<(), WorkerError>)
    ensures
        installed <==> r is Ok,
        !installed ==> r == Err::<(), WorkerError>(
            WorkerError::Notify { message: "failed to install the shutdown signal listener" },
        ),
{
    if installed {
        Ok(())
    } else {
        Err(WorkerError::Notify { message: "failed to install the shutdown signal listener" })
    }
}

/// The supervisor's registry and stop signal. Workers are registered by
/// name before the run starts; the registry is append-only and frozen once
/// the host begins spawning loops. The host holds one [`WorkerLoop`] per
/// registered worker during the run.
pub struct WorkerFactory {
    names: Vec<String>,
    stop: StopFlag,
}

impl WorkerFactory {
    /// The registered workers' names, in registration order.
    pub closed spec fn registry(&self) -> Seq<String> {
        self.names@
    }

    pub closed spec fn stop_fired(&self) -> bool {
        self.stop.is_fired()
    }

    pub fn new() -> (r: Self)
        ensures
            r.registry().len() == 0,
            !r.stop_fired(),
    {
        WorkerFactory { names: Vec::new(), stop: StopFlag::new() }
    }

    /// Append a worker to the registry. Valid only before the run starts.
    pub fn push(&mut self, name: String)
        ensures
            final(self).registry() == old(self).registry().push(name),
            final(self).stop_fired() == old(self).stop_fired(),
    {
        self.names.push(name);
    }

    pub fn worker_count(&self) -> (r: usize)
        ensures
            r == self.registry().len(),
    {
        self.names.len()
    }

    /// Request shutdown. Idempotent, from any number of producers.
    pub fn fire_stop(&mut self)
        ensures
            final(self).stop_fired(),
            final(self).registry() == old(self).registry(),
    {
        self.stop.fire();
    }

    pub fn stop_requested(&self) -> (r: bool)
        ensures
            r == self.stop_fired(),
    {
        self.stop.fired()
    }

    /// Start the loop machine for one registered worker, observing the
    /// current stop signal: a loop scheduled after the stop signal fired
    /// makes no step at all.
    pub fn start_loop(&self) -> (r: (WorkerLoop, LoopCommand))
        ensures
            r.0.steps() == 0,
            self.stop_fired() ==> r.1 == (LoopCommand::Exit { exit: LoopExit::Shutdown }),
            !self.stop_fired() ==> r.0.phase() == LoopPhase::Stepping && r.1
                == LoopCommand::RunStep,
    {
        WorkerLoop::start(self.stop.fired())
    }
}

/// What a worker's `step()` would report on each successive call, for the
/// spec-level simulation: either it runs and asks for a re-poll delay, or it
/// fails.
pub enum StepBehavior {
    Runs { delay: nat },
    Fails,
}

/// The simulated outcome of one worker loop over a whole run.
pub struct SimOutcome {
    /// Number of `step()` calls the loop made.
    pub steps: nat,
    /// Its terminal state.
    pub exit: LoopExit,
    /// Whether the given behaviour prefix was long enough to drive the loop
    /// to its terminal state (the laws below always require it is).
    pub complete: bool,
}

/// Timed simulation of one worker loop that has already started.
///
/// `behavior[i]` is what the worker's `i`-th step reports; `remaining` is the
/// time left until the stop signal fires. A step itself is instantaneous in
/// this model: after a successful step asking for `delay`, the delay elapses
/// first exactly when it fits wholly in the remaining time; otherwise the
/// loop observes the stop signal at the race and exits. Once the stop signal
/// has fired (`remaining == 0`), a race never resolves to the sleep, however
/// short: the signal is level-triggered and cannot be missed.
pub open spec fn sim_loop(behavior: Seq<StepBehavior>, remaining: nat) -> SimOutcome
    decreases remaining, behavior.len(),
{
    if behavior.len() == 0 {
        SimOutcome { steps: 0, exit: LoopExit::Shutdown, complete: false }
    } else {
        match behavior[0] {
            StepBehavior::Fails => SimOutcome { steps: 1, exit: LoopExit::StepError, complete: true },
            StepBehavior::Runs { delay } => {
                if delay <= remaining && remaining > 0 {
                    let rest = sim_loop(behavior.drop_first(), (remaining - delay) as nat);
                    SimOutcome { steps: rest.steps + 1, exit: rest.exit, complete: rest.complete }
                } else {
                    SimOutcome { steps: 1, exit: LoopExit::Shutdown, complete: true }
                }
            },
        }
    }
}


/// Which way the delay/stop race resolves, `remaining` time units before
/// the stop signal fires: the sleep wins exactly when the whole delay still
/// fits; a stop signal that has already fired (`remaining == 0`) is never
/// missed, however short the sleep.
pub open spec fn race_outcome(delay_ms: u64, remaining: nat) -> WaitOutcome {
    if delay_ms <= remaining && remaining > 0 {
        WaitOutcome::Elapsed
    } else {
        WaitOutcome::Stopped
    }
}

/// A behaviour whose step outcome the machine can take in: every delay fits
/// the command's width.
pub open spec fn behavior_representable(behavior: Seq<StepBehavior>) -> bool {
    forall|i: int| 0 <= i < behavior.len() ==> (#[trigger] behavior[i]
        matches StepBehavior::Runs { delay } ==> delay <= u64::MAX)
}

/// The step outcome the host reports for one simulated step.
pub open spec fn step_outcome_of(b: StepBehavior) -> StepOutcome {
    match b {
        StepBehavior::Fails => StepOutcome::Failed,
        StepBehavior::Runs { delay } => StepOutcome::Completed { delay_ms: delay as u64 },
    }
}

/// One worker loop, rebuilt from the machine's own transition relation: at
/// each iteration the host performs a step, hands [`step_transition`] its
/// outcome, and — when told to wait — hands [`wait_transition`] the
/// [`race_outcome`]. This is exactly what a host following the machine's
/// commands does; [`lemma_machine_run_is_sim_loop`] shows it realizes the
/// timed simulation.
pub open spec fn machine_run(behavior: Seq<StepBehavior>, remaining: nat) -> SimOutcome
    decreases remaining, behavior.len(),
{
    if behavior.len() == 0 {
        SimOutcome { steps: 0, exit: LoopExit::Shutdown, complete: false }
    } else {
        match step_transition(step_outcome_of(behavior[0])).1 {
            LoopCommand::Exit { exit } => SimOutcome { steps: 1, exit, complete: true },
            LoopCommand::Wait { delay_ms } => {
                match wait_transition(race_outcome(delay_ms, remaining)).1 {
                    LoopCommand::RunStep => {
                        if delay_ms <= remaining {
                            let rest = machine_run(
                                behavior.drop_first(),
                                (remaining - delay_ms) as nat,
                            );
                            SimOutcome { steps: rest.steps + 1, exit: rest.exit, complete: rest.complete }
                        } else {
                            SimOutcome { steps: 1, exit: LoopExit::Shutdown, complete: true }
                        }
                    },
                    LoopCommand::Exit { exit } => SimOutcome { steps: 1, exit, complete: true },
                    LoopCommand::Wait { .. } => SimOutcome { steps: 1, exit: LoopExit::Shutdown, complete: true },
                }
            },
            LoopCommand::RunStep => SimOutcome { steps: 1, exit: LoopExit::Shutdown, complete: true },
        }
    }
}

/// A host that follows the machine's commands — stepping, racing each
/// returned delay against the stop signal, exiting when told to — realizes
/// the timed simulation: the laws proved of [`sim_loop`] hold of the
/// machine-driven loop.
pub proof fn lemma_machine_run_is_sim_loop(behavior: Seq<StepBehavior>, remaining: nat)
    requires
        behavior_representable(behavior),
    ensures
        machine_run(behavior, remaining) == sim_loop(behavior, remaining),
    decreases remaining, behavior.len(),
{
    if behavior.len() > 0 {
        match behavior[0] {
            StepBehavior::Fails => {},
            StepBehavior::Runs { delay } => {
                assert(behavior[0] matches StepBehavior::Runs { delay } ==> delay <= u64::MAX);
                if delay <= remaining && remaining > 0 {
                    let rest = behavior.drop_first();
                    assert(behavior_representable(rest)) by {
                        assert forall|i: int|
                            0 <= i < rest.len() implies (#[trigger] rest[i]
                            matches StepBehavior::Runs { delay } ==> delay <= u64::MAX) by {
                            assert(rest[i] == behavior[i + 1]);
                        }
                    }
                    lemma_machine_run_is_sim_loop(rest, (remaining - delay) as nat);
                }
            },
        }
    }
}

/// If the stop signal has already fired when a worker's loop starts, the
/// loop exits after at most one `step()` call — and with none at all if the
/// loop task had not even been scheduled yet, per [`WorkerLoop::start`].
/// Together with [`aggregate_outcomes`] and [`run_verdict`], firing the stop
/// signal before any step thus leads the whole run to return.
pub proof fn lemma_stop_before_any_step(behavior: Seq<StepBehavior>)
    ensures
        sim_loop(behavior, 0).steps <= 1,
        behavior.len() > 0 ==> sim_loop(behavior, 0).complete,
        behavior.len() > 0 && behavior[0] !is Fails ==> sim_loop(behavior, 0).exit
            == LoopExit::Shutdown,
{
}

/// A worker whose steps always succeed with a fixed positive delay `d` is
/// stepped exactly `t / d + 1` times in a run whose stop signal fires after
/// `t` time units, and its loop exits by shutdown: one step at time zero and
/// one each time the delay fits in the time still to run.
pub proof fn lemma_fixed_delay_step_count(behavior: Seq<StepBehavior>, d: nat, t: nat)
    requires
        d > 0,
        behavior.len() > t / d,
        forall|i: int| 0 <= i < behavior.len() ==> behavior[i] == (StepBehavior::Runs {
            delay: d,
        }),
    ensures
        sim_loop(behavior, t).steps == t / d + 1,
        sim_loop(behavior, t).exit == LoopExit::Shutdown,
        sim_loop(behavior, t).complete,
    decreases t,
{
    assert(behavior.len() > 0);
    assert(behavior[0] == (StepBehavior::Runs { delay: d }));
    if d <= t && t > 0 {
        let rest = behavior.drop_first();
        assert forall|i: int| 0 <= i < rest.len() implies rest[i] == (StepBehavior::Runs {
            delay: d,
        }) by {
            assert(rest[i] == behavior[i + 1]);
        }
        lemma_div_plus_one((t - d) as int, d as int);
        assert((t - d) / (d as int) == (t as int) / (d as int) - 1);
        lemma_fixed_delay_step_count(rest, d, (t - d) as nat);
    } else {
        lemma_basic_div(t as int, d as int);
        assert(t / d == 0);
    }
}

/// A worker whose first step fails makes exactly one `step()` call: its loop
/// is terminal immediately, with a step-error exit, whatever the stop signal
/// does. The run itself still succeeds: [`run_verdict`] returns `Ok` for
/// every report.
pub proof fn lemma_first_step_failure(behavior: Seq<StepBehavior>, remaining: nat)
    requires
        behavior.len() > 0,
        behavior[0] == StepBehavior::Fails,
    ensures
        sim_loop(behavior, remaining).steps == 1,
        sim_loop(behavior, remaining).exit == LoopExit::StepError,
        sim_loop(behavior, remaining).complete,
{
}

/// Simulation of a whole run: every registered worker's loop runs
/// independently against the same stop time.
pub open spec fn sim_run(behaviors: Seq<Seq<StepBehavior>>, remaining: nat) -> Seq<SimOutcome> {
    Seq::new(behaviors.len(), |i: int| sim_loop(behaviors[i], remaining))
}

/// Firing the stop signal before any step, over a whole registry: every
/// loop that was scheduled makes at most one step and then exits, whatever
/// the workers would have done — so the run returns without requiring any
/// worker's step, or after at most one invocation per worker.
pub proof fn lemma_stop_before_run(behaviors: Seq<Seq<StepBehavior>>)
    ensures
        forall|i: int| 0 <= i < behaviors.len() ==> #[trigger] sim_run(behaviors, 0)[i].steps
            <= 1,
        forall|i: int| 0 <= i < behaviors.len() && behaviors[i].len() > 0 ==> #[trigger] sim_run(
            behaviors,
            0,
        )[i].complete,
{
    assert forall|i: int| 0 <= i < behaviors.len() implies #[trigger] sim_run(behaviors, 0)[i].steps
        <= 1 && (behaviors[i].len() > 0 ==> sim_run(behaviors, 0)[i].complete) by {
        lemma_stop_before_any_step(behaviors[i]);
    }
}

/// Failure isolation: what one worker's loop does — including failing on
/// its first step — never affects any other worker's outcome. Changing one
/// worker's behaviour changes only that worker's entry in the run.
pub proof fn lemma_loops_independent(
    behaviors: Seq<Seq<StepBehavior>>,
    j: int,
    replacement: Seq<StepBehavior>,
    remaining: nat,
)
    requires
        0 <= j < behaviors.len(),
    ensures
        forall|i: int| 0 <= i < behaviors.len() && i != j ==> #[trigger] sim_run(
            behaviors.update(j, replacement),
            remaining,
        )[i] == sim_run(behaviors, remaining)[i],
{
}

} // verus!


