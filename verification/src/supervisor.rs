use vstd::prelude::*;

use crate::errors::StartupError;

verus! {

/// Fixed interval between two readiness probes, in milliseconds.
pub const POLL_INTERVAL_MS: u64 = 250;

/// Total wait budget for the backend to become ready, in milliseconds.
pub const WAIT_BUDGET_MS: u64 = 15000;

/// Interval at which the poll loop surfaces recent log lines, in
/// milliseconds.
pub const LOG_SNAPSHOT_INTERVAL_MS: u64 = 2000;

/// Where a captured output line came from.
#[derive(Clone, Copy, Debug, PartialEq, Eq, Structural)]
pub enum StreamTag {
    Stdout,
    Stderr,
    Lifecycle,
}

/// One captured line of backend output, tagged with its stream of
/// origin.
#[derive(Clone, Debug)]
pub struct LogLine {
    pub tag: StreamTag,
    pub text: String,
}

/// Phase of the supervised session.
#[derive(Clone, Copy, Debug, PartialEq, Eq, Structural)]
pub enum Phase {
    Init,
    Spawning,
    Waiting,
    Running,
    Failed,
    Terminated,
}

/// What the shell must do after the initial probe.
#[derive(Clone, Copy, Debug, PartialEq, Eq, Structural)]
pub enum StartDecision {
    UseExisting,
    SpawnBackend,
}

/// Result of one readiness poll step.
#[derive(Clone, Copy, Debug, PartialEq, Eq, Structural)]
pub enum PollOutcome {
    BackendReady,
    KeepWaiting,
    TimedOut { terminate_child: bool },
}

/// The per-session supervisor state: the phase, the ownership flag
/// (true iff this session spawned the backend), whether a spawned
/// child is still held alive, the elapsed share of the wait budget,
/// the fatal failure if one occurred, and the captured output log.
///
/// The shell guards one `Supervisor` value with a single lock shared
/// between the startup sequence, the output-draining task and the
/// shutdown callback; every decision is a method here.
#[derive(Debug)]
pub struct Supervisor {
    pub phase: Phase,
    pub owns_backend: bool,
    pub backend_alive: bool,
    pub waited_ms: u64,
    pub failure: Option<StartupError>,
    pub log: Vec<LogLine>,
}

impl Supervisor {
    /// Invariant of every reachable supervisor state.
    pub open spec fn inv(self) -> bool {
        &&& self.waited_ms <= WAIT_BUDGET_MS
    &&& (self.backend_alive ==> self.owns_backend)
        &&& (self.phase is Failed ==> self.failure is Some && !self.backend_alive)
        &&& (self.failure is Some ==> self.phase is Failed || self.phase is Terminated)
        &&& (self.phase is Init ==> !self.owns_backend && !self.backend_alive && self.waited_ms
            == 0 && self.failure is None)
        &&& (self.phase is Spawning ==> !self.owns_backend && !self.backend_alive
            && self.waited_ms < WAIT_BUDGET_MS && self.failure is None)
        &&& (self.phase is Waiting ==> self.owns_backend && self.backend_alive && self.waited_ms
            < WAIT_BUDGET_MS && self.failure is None)
        &&& (self.phase is Running ==> self.failure is None)
        &&& (self.phase is Terminated ==> !self.backend_alive)
    }
}

/// Transition taken on the initial health probe: a healthy backend is
/// reused without spawning (ownership stays false); otherwise the
/// session must spawn its own.
pub open spec fn step_probe(s: Supervisor, healthy: bool) -> (Supervisor, StartDecision) {
    if healthy {
        (Supervisor { phase: Phase::Running, ..s }, StartDecision::UseExisting)
    } else {
        (Supervisor { phase: Phase::Spawning, ..s }, StartDecision::SpawnBackend)
    }
}

/// Transition taken once the spawn attempt resolves: on success the
/// session owns a live child and starts waiting; on failure the
/// startup is fatally failed.
pub open spec fn step_spawned(s: Supervisor, ok: bool) -> Supervisor {
    if ok {
        Supervisor { phase: Phase::Waiting, owns_backend: true, backend_alive: true, ..s }
    } else {
        Supervisor { phase: Phase::Failed, failure: Some(StartupError::Spawn), ..s }
    }
}

/// Transition taken by one readiness poll: a healthy probe makes the
/// session run; otherwise the poll interval is charged against the
/// wait budget, and on exhaustion the startup fails with a health
/// timeout, terminating the child if this session owns one.
pub open spec fn step_poll(s: Supervisor, healthy: bool) -> (Supervisor, PollOutcome) {
    if healthy {
        (Supervisor { phase: Phase::Running, ..s }, PollOutcome::BackendReady)
    } else if s.waited_ms + POLL_INTERVAL_MS >= WAIT_BUDGET_MS {
        (
            Supervisor {
                phase: Phase::Failed,
                backend_alive: false,
                waited_ms: WAIT_BUDGET_MS,
                failure: Some(StartupError::HealthTimeout),
                ..s
            },
            PollOutcome::TimedOut { terminate_child: s.owns_backend && s.backend_alive },
        )
    } else {
        (
            Supervisor { waited_ms: (s.waited_ms + POLL_INTERVAL_MS) as u64, ..s },
            PollOutcome::KeepWaiting,
        )
    }
}

/// Transition taken on the shutdown signal.  The returned flag tells
/// the shell to terminate the child, and is set only when this session
/// owns a still-live child: a backend this session did not start is
/// never killed by this session.
pub open spec fn step_shutdown(s: Supervisor) -> (Supervisor, bool) {
    (
        Supervisor { phase: Phase::Terminated, backend_alive: false, ..s },
        s.owns_backend && s.backend_alive,
    )
}

impl Supervisor {
    /// A fresh session: nothing probed, nothing owned, empty log.
    pub fn new() -> (r: Supervisor)
        ensures
            r.phase is Init,
            !r.owns_backend,
            !r.backend_alive,
            r.waited_ms == 0,
            r.failure is None,
            r.log@ =~= Seq::<LogLine>::empty(),
            r.inv(),
    {
        Supervisor {
            phase: Phase::Init,
            owns_backend: false,
            backend_alive: false,
            waited_ms: 0,
            failure: Option::None,
            log: Vec::new(),
        }
    }

    /// Records the initial probe result and decides between reusing a
    /// healthy backend and spawning one.
    pub fn on_probe(&mut self, healthy: bool) -> (d: StartDecision)
        requires
            old(self).inv(),
            old(self).phase is Init,
        ensures
            (*final(self), d) == step_probe(*old(self), healthy),
            final(self).inv(),
    {
        if healthy {
            self.phase = Phase::Running;
            StartDecision::UseExisting
        } else {
            self.phase = Phase::Spawning;
            StartDecision::SpawnBackend
        }
    }

    /// Records the outcome of the single spawn attempt.
    pub fn on_spawned(&mut self, ok: bool)
        requires
            old(self).inv(),
            old(self).phase is Spawning,
        ensures
            *final(self) == step_spawned(*old(self), ok),
            final(self).inv(),
    {
        if ok {
            self.phase = Phase::Waiting;
            self.owns_backend = true;
            self.backend_alive = true;
        } else {
            self.phase = Phase::Failed;
            self.failure = Some(StartupError::Spawn);
        }
    }

    /// Advances the readiness poll loop by one probe.
    pub fn on_poll_tick(&mut self, healthy: bool) -> (o: PollOutcome)
        requires
            old(self).inv(),
            old(self).phase is Waiting,
        ensures
            (*final(self), o) == step_poll(*old(self), healthy),
            final(self).inv(),
    {
        if healthy {
            self.phase = Phase::Running;
            PollOutcome::BackendReady
        } else if self.waited_ms + POLL_INTERVAL_MS >= WAIT_BUDGET_MS {
            let terminate_child = self.owns_backend && self.backend_alive;
            self.phase = Phase::Failed;
            self.backend_alive = false;
            self.waited_ms = WAIT_BUDGET_MS;
            self.failure = Some(StartupError::HealthTimeout);
            PollOutcome::TimedOut { terminate_child }
        } else {
            self.waited_ms = self.waited_ms + POLL_INTERVAL_MS;
            PollOutcome::KeepWaiting
        }
    }

    /// Appends one captured output line; called by the shell's
    /// output-draining task under the supervisor lock.
    pub fn append_line(&mut self, tag: StreamTag, text: String)
        requires
            old(self).inv(),
        ensures
            final(self).log@ == old(self).log@.push(LogLine { tag, text }),
            final(self).phase == old(self).phase,
            final(self).owns_backend == old(self).owns_backend,
            final(self).backend_alive == old(self).backend_alive,
            final(self).waited_ms == old(self).waited_ms,
            final(self).failure == old(self).failure,
            final(self).inv(),
    {
        self.log.push(LogLine { tag, text });
    }

    /// A diagnostic snapshot: the text of the most recent `count` log
    /// lines, oldest first.
    pub fn recent_lines(&self, count: usize) -> (r: Vec<String>)
        ensures
            r@.len() == if count <= self.log@.len() {
                count as int
            } else {
                self.log@.len() as int
            },
            forall|i: int|
                0 <= i < r@.len() ==> r@[i]@ == self.log@[self.log@.len() - r@.len() + i].text@,
    {
        let total = self.log.len();
        let start = if count <= total {
            total - count
        } else {
            0
        };
        let mut r: Vec<String> = Vec::new();
        let mut i = start;
        while i < total
            invariant
                start <= i <= total,
                total == self.log@.len(),
                r@.len() == i - start,
                forall|j: int| 0 <= j < r@.len() ==> r@[j]@ == self.log@[start + j].text@,
            decreases total - i,
        {
            r.push(self.log[i].text.clone());
            i = i + 1;
        }
        r
    }

    /// Handles the shutdown signal: reports whether the shell must
    /// terminate the child, and releases it either way.  Calling this
    /// twice never asks for a second termination.
    pub fn on_shutdown(&mut self) -> (terminate: bool)
        requires
            old(self).inv(),
        ensures
            (*final(self), terminate) == step_shutdown(*old(self)),
            final(self).inv(),
    {
        let terminate = self.owns_backend && self.backend_alive;
        self.phase = Phase::Terminated;
        self.backend_alive = false;
        terminate
    }
}

/// The state reached after `n` consecutive unhealthy polls (stopping
/// early if the session leaves the waiting phase).
pub open spec fn run_unhealthy_polls(s: Supervisor, n: nat) -> Supervisor
    decreases n,
{
    if n == 0 || !(s.phase is Waiting) {
        s
    } else {
        run_unhealthy_polls(step_poll(s, false).0, (n - 1) as nat)
    }
}

/// Ownership law, reuse half: a session that found the backend already
/// healthy owns nothing, and its shutdown never terminates the
/// backend.
pub proof fn lemma_reused_backend_never_terminated(s: Supervisor)
    requires
        s.inv(),
        s.phase is Init,
    ensures
        !step_probe(s, true).0.owns_backend,
        step_probe(s, true).1 == StartDecision::UseExisting,
        !step_shutdown(step_probe(s, true).0).1,
{
}

/// Ownership law, general half: whatever state a non-owning session is
/// in, shutdown never asks for a termination.
pub proof fn lemma_non_owner_never_terminates(s: Supervisor)
    requires
        s.inv(),
        !s.owns_backend,
    ensures
        !step_shutdown(s).1,
{
}

/// Ownership law, spawn half: a session that spawned the backend
/// terminates it on shutdown exactly once — the first shutdown asks
/// for the termination, and no later shutdown ever asks again.
pub proof fn lemma_owned_backend_terminated_exactly_once(s: Supervisor)
    requires
        s.inv(),
        s.phase is Spawning,
    ensures
        step_spawned(s, true).owns_backend,
        step_spawned(s, true).backend_alive,
        step_shutdown(step_spawned(s, true)).1,
        !step_shutdown(step_shutdown(step_spawned(s, true)).0).1,
{
}

/// Timeout law: if the probe never succeeds, then as soon as the polls
/// exhaust the wait budget the session has failed with a health
/// timeout, and any child it owned has been terminated.
pub proof fn lemma_timeout_reported(s: Supervisor, n: nat)
    requires
        s.inv(),
        s.phase is Waiting,
        s.waited_ms + n * POLL_INTERVAL_MS >= WAIT_BUDGET_MS,
    ensures
        run_unhealthy_polls(s, n).phase is Failed,
        run_unhealthy_polls(s, n).failure == Some(StartupError::HealthTimeout),
        !run_unhealthy_polls(s, n).backend_alive,
        run_unhealthy_polls(s, n).owns_backend == s.owns_backend,
        run_unhealthy_polls(s, n).inv(),
    decreases n,
{
    if n == 0 {
        // impossible: a waiting state still has budget left
        assert(false);
    } else {
        let (s1, o) = step_poll(s, false);
        if s.waited_ms + POLL_INTERVAL_MS >= WAIT_BUDGET_MS {
            assert(s1.phase is Failed);
            assert(run_unhealthy_polls(s1, (n - 1) as nat) == s1);
        } else {
            assert(s1.phase is Waiting && s1.inv());
            assert(s1.waited_ms + (n - 1) * POLL_INTERVAL_MS >= WAIT_BUDGET_MS) by {
                assert(n * POLL_INTERVAL_MS == (n - 1) * POLL_INTERVAL_MS + POLL_INTERVAL_MS)
                    by (nonlinear_arith);
            }
            lemma_timeout_reported(s1, (n - 1) as nat);
        }
    }
}

} // verus!
