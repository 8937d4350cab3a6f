//! The per-worker tick/attempt/shutdown state machine and the supervisor
//! that owns one such state per worker.
//!
//! A worker cycles `Idle -> (tick) -> Probing -> (attempt returns) -> Idle`
//! and leaves for the terminal `Stopped` phase only once cancellation has
//! been observed: at a tick while idle, or at the completion of the attempt
//! that was in flight. The driving loop performs the waiting and the I/O;
//! every decision is taken here.

use vstd::prelude::*;

verus! {

/// The phase a worker is in between events.
#[derive(Clone, Copy, Debug, PartialEq, Eq, Structural)]
pub enum Phase {
    /// Waiting for the next tick.
    Idle,
    /// An attempt is in flight.
    Probing,
    /// Cancellation observed; the worker has exited its loop.
    Stopped,
}

/// What the driving loop must do after handing a tick to a worker.
#[derive(Clone, Copy, Debug, PartialEq, Eq, Structural)]
pub enum TickAction {
    /// Issue one probe attempt and report its outcome back.
    StartAttempt,
    /// Leave the worker's loop; no further attempt is made.
    Exit,
}

/// One worker's state: its phase and its attempt counters.
#[derive(Clone, Copy, Debug, PartialEq, Eq, Structural)]
pub struct WorkerState {
    pub phase: Phase,
    /// Attempts started so far.
    pub started: u64,
    /// Attempts that have returned, with either outcome.
    pub finished: u64,
    /// Attempts that returned an error. Never more than `finished`.
    pub failed: u64,
}

impl WorkerState {
    /// Every reachable worker state satisfies this: counters are consistent,
    /// and an attempt is in flight exactly in the probing phase.
    pub open spec fn wf(self) -> bool {
        &&& self.finished <= self.started
        &&& self.started <= self.finished + 1
        &&& (self.phase is Probing <==> self.started == self.finished + 1)
        &&& self.failed <= self.finished
    }

    /// The state a worker is created in.
    pub open spec fn initial() -> WorkerState {
        WorkerState { phase: Phase::Idle, started: 0, finished: 0, failed: 0 }
    }

    /// The tick transition: under cancellation the worker stops; otherwise
    /// it starts one attempt.
    pub open spec fn spec_tick(self, cancelled: bool) -> (WorkerState, TickAction) {
        if cancelled {
            (
                WorkerState {
                    phase: Phase::Stopped,
                    started: self.started,
                    finished: self.finished,
                    failed: self.failed,
                },
                TickAction::Exit,
            )
        } else {
            (
                WorkerState {
                    phase: Phase::Probing,
                    started: (self.started + 1) as u64,
                    finished: self.finished,
                    failed: self.failed,
                },
                TickAction::StartAttempt,
            )
        }
    }

    /// The attempt-completion transition: the in-flight attempt is counted,
    /// a failure is recorded but changes nothing else, and the worker stops
    /// only if cancellation has arrived meanwhile.
    pub open spec fn spec_attempt_done(self, succeeded: bool, cancelled: bool) -> WorkerState {
        WorkerState {
            phase: if cancelled {
                Phase::Stopped
            } else {
                Phase::Idle
            },
            started: self.started,
            finished: (self.finished + 1) as u64,
            failed: if succeeded {
                self.failed
            } else {
                (self.failed + 1) as u64
            },
        }
    }

    pub fn new() -> (r: WorkerState)
        ensures
            r == WorkerState::initial(),
            r.wf(),
    {
        WorkerState { phase: Phase::Idle, started: 0, finished: 0, failed: 0 }
    }

    /// Hands one tick to an idle worker and says what the loop must do next.
    pub fn on_tick(&mut self, cancelled: bool) -> (a: TickAction)
        requires
            old(self).wf(),
            old(self).phase is Idle,
            old(self).started < u64::MAX,
        ensures
            final(self).wf(),
            (*final(self), a) == old(self).spec_tick(cancelled),
    {
        if cancelled {
            self.phase = Phase::Stopped;
            TickAction::Exit
        } else {
            self.phase = Phase::Probing;
            self.started = self.started + 1;
            TickAction::StartAttempt
        }
    }

    /// Records the completion of the in-flight attempt.
    pub fn on_attempt_done(&mut self, succeeded: bool, cancelled: bool)
        requires
            old(self).wf(),
            old(self).phase is Probing,
        ensures
            final(self).wf(),
            *final(self) == old(self).spec_attempt_done(succeeded, cancelled),
    {
        self.finished = self.finished + 1;
        if !succeeded {
            self.failed = self.failed + 1;
        }
        if cancelled {
            self.phase = Phase::Stopped;
        } else {
            self.phase = Phase::Idle;
        }
    }
}

/// At most one attempt is ever in flight on a worker: in every well-formed
/// state the attempts started exceed the attempts finished by at most one,
/// and the tick transition — the only one that starts an attempt — is taken
/// only in the idle phase, where every started attempt has already returned.
pub proof fn lemma_single_flight(w: WorkerState)
    requires
        w.wf(),
    ensures
        w.started - w.finished <= 1,
        w.phase is Idle ==> w.started == w.finished,
        w.phase is Probing ==> w.started == w.finished + 1,
{
}

/// A failing attempt never stops the worker: completing an attempt without
/// cancellation returns the worker to the idle phase whatever the outcome,
/// and the next tick starts a new attempt.
pub proof fn lemma_failure_never_stops_worker(w: WorkerState, succeeded: bool)
    requires
        w.wf(),
        w.phase is Probing,
    ensures
        w.spec_attempt_done(succeeded, false).wf(),
        w.spec_attempt_done(succeeded, false).phase is Idle,
        w.spec_attempt_done(succeeded, false).spec_tick(false).1 is StartAttempt,
{
}

/// A worker seen mid-attempt when cancellation arrives completes that
/// attempt before stopping: the only transition out of the probing phase is
/// the completion of the attempt itself, which leaves no attempt in flight.
pub proof fn lemma_cancel_waits_for_attempt(w: WorkerState, succeeded: bool)
    requires
        w.wf(),
        w.phase is Probing,
    ensures
        w.spec_attempt_done(succeeded, true).phase is Stopped,
        w.spec_attempt_done(succeeded, true).finished == w.started,
{
}

/// One full cycle of a live worker: a tick that starts an attempt, then that
/// attempt's completion with the given outcome, with no cancellation.
pub open spec fn spec_cycle(w: WorkerState, succeeded: bool) -> WorkerState {
    w.spec_tick(false).0.spec_attempt_done(succeeded, false)
}

/// `n` consecutive cycles against a probe that errors every time.
pub open spec fn spec_failing_cycles(w: WorkerState, n: nat) -> WorkerState
    decreases n,
{
    if n == 0 {
        w
    } else {
        spec_cycle(spec_failing_cycles(w, (n - 1) as nat), false)
    }
}

/// A probe that always errors does not stop its worker: over any number of
/// cycles an idle worker stays idle and performs exactly one attempt per
/// cycle, every one of them recorded as failed and none escalated.
pub proof fn lemma_always_failing_probe_keeps_ticking(w: WorkerState, n: nat)
    requires
        w.wf(),
        w.phase is Idle,
        w.started + n <= u64::MAX,
    ensures
        spec_failing_cycles(w, n).wf(),
        spec_failing_cycles(w, n).phase is Idle,
        spec_failing_cycles(w, n).started == w.started + n,
        spec_failing_cycles(w, n).finished == w.finished + n,
        spec_failing_cycles(w, n).failed == w.failed + n,
    decreases n,
{
    if n > 0 {
        lemma_always_failing_probe_keeps_ticking(w, (n - 1) as nat);
    }
}

/// The supervisor: one state per worker, and the shared cancellation flag.
pub struct Supervisor {
    pub workers: Vec<WorkerState>,
    pub cancelled: bool,
}

impl Supervisor {
    /// Every worker's state is well formed.
    pub open spec fn wf(self) -> bool {
        forall|i: int| 0 <= i < self.workers@.len() ==> (#[trigger] self.workers@[i]).wf()
    }

    /// The run is over: every worker has observed cancellation and exited.
    pub open spec fn done(self) -> bool {
        forall|i: int|
            0 <= i < self.workers@.len() ==> (#[trigger] self.workers@[i]).phase is Stopped
    }

    /// Starts a supervisor over `n` fresh workers, none cancelled.
    pub fn new(n: usize) -> (r: Supervisor)
        requires
            n >= 1,
        ensures
            r.wf(),
            !r.cancelled,
            r.workers@.len() == n,
            forall|i: int| 0 <= i < n ==> #[trigger] r.workers@[i] == WorkerState::initial(),
    {
        let mut workers: Vec<WorkerState> = Vec::new();
        let mut k: usize = 0;
        while k < n
            invariant
                k <= n,
                workers@.len() == k,
                forall|i: int| 0 <= i < k ==> #[trigger] workers@[i] == WorkerState::initial(),
            decreases n - k,
        {
            workers.push(WorkerState::new());
            k = k + 1;
        }
        Supervisor { workers, cancelled: false }
    }

    /// Starts a supervisor with exactly one worker per probe, worker `i`
    /// bound to the probe with worker index `i`.
    pub fn for_probes(probes: &Vec<crate::probe::ProbeSpec>) -> (r: Supervisor)
        requires
            probes@.len() >= 1,
        ensures
            r.wf(),
            !r.cancelled,
            r.workers@.len() == probes@.len(),
            forall|i: int|
                0 <= i < probes@.len() ==> #[trigger] r.workers@[i] == WorkerState::initial(),
    {
        Supervisor::new(probes.len())
    }

    /// Raises the shared cancellation signal. No worker's state changes:
    /// each observes the signal at its own next event.
    pub fn cancel(&mut self)
        ensures
            final(self).cancelled,
            final(self).workers == old(self).workers,
    {
        self.cancelled = true;
    }

    /// Hands a tick to worker `i`.
    pub fn tick(&mut self, i: usize) -> (a: TickAction)
        requires
            old(self).wf(),
            i < old(self).workers@.len(),
            old(self).workers@[i as int].phase is Idle,
            old(self).workers@[i as int].started < u64::MAX,
        ensures
            final(self).wf(),
            final(self).cancelled == old(self).cancelled,
            final(self).workers@.len() == old(self).workers@.len(),
            (final(self).workers@[i as int], a) == old(self).workers@[i as int].spec_tick(
                old(self).cancelled,
            ),
            forall|j: int|
                0 <= j < old(self).workers@.len() && j != i ==> final(self).workers@[j] == old(
                    self,
                ).workers@[j],
    {
        let cancelled = self.cancelled;
        let mut w = self.workers[i];
        let a = w.on_tick(cancelled);
        self.workers.set(i, w);
        a
    }

    /// Records that worker `i`'s in-flight attempt returned.
    pub fn attempt_done(&mut self, i: usize, succeeded: bool)
        requires
            old(self).wf(),
            i < old(self).workers@.len(),
            old(self).workers@[i as int].phase is Probing,
        ensures
            final(self).wf(),
            final(self).cancelled == old(self).cancelled,
            final(self).workers@.len() == old(self).workers@.len(),
            final(self).workers@[i as int] == old(self).workers@[i as int].spec_attempt_done(
                succeeded,
                old(self).cancelled,
            ),
            forall|j: int|
                0 <= j < old(self).workers@.len() && j != i ==> final(self).workers@[j] == old(
                    self,
                ).workers@[j],
    {
        let cancelled = self.cancelled;
        let mut w = self.workers[i];
        w.on_attempt_done(succeeded, cancelled);
        self.workers.set(i, w);
    }

    /// True exactly when every worker has exited: the barrier the driving
    /// loop waits on before letting `run` return.
    pub fn all_stopped(&self) -> (b: bool)
        ensures
            b == self.done(),
    {
        let n = self.workers.len();
        let mut k: usize = 0;
        while k < n
            invariant
                k <= n,
                n == self.workers@.len(),
                forall|i: int| 0 <= i < k ==> (#[trigger] self.workers@[i]).phase is Stopped,
            decreases n - k,
        {
            if !(self.workers[k].phase == Phase::Stopped) {
                return false;
            }
            k = k + 1;
        }
        true
    }
}

/// The cancellation barrier: the supervisor is done only when every worker
/// has stopped, and a stopped worker has no attempt in flight — so a run
/// that returns at the barrier returns only after every started attempt,
/// on every worker, has completed.
pub proof fn lemma_cancellation_barrier(s: Supervisor)
    requires
        s.wf(),
        s.done(),
    ensures
        forall|i: int|
            0 <= i < s.workers@.len() ==> (#[trigger] s.workers@[i]).started == s.workers@[
                i
            ].finished,
{
}

} // verus!
