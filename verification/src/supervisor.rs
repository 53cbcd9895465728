//! Lifecycle of the single tracked worker process.
//!
//! `BotState` is the supervisor's record of "is a worker alive, since when".
//! All lifecycle operations are decisions over that record, from plain values
//! to plain values; the caller performs the process I/O they ask for (spawn a
//! worker, signal a PID, sleep a grace window) and serializes every call
//! through one mutual-exclusion domain.

use vstd::prelude::*;

verus! {

/// The supervisor's view of one live worker process: its PID.  The OS handle
/// and the two pipe endpoints stay with the caller, which created them.
#[derive(Clone, Copy, Debug, PartialEq, Eq, Structural)]
pub struct WorkerHandle {
    pub pid: u32,
}

/// Why a lifecycle operation was refused.
#[derive(Clone, Debug, PartialEq, Eq)]
pub enum SupervisorError {
    /// `start` was asked for while a worker is already tracked.
    AlreadyRunning,
    /// `stop` was asked for with no tracked worker.
    NotRunning,
    /// The OS refused to create the worker process; carries the OS error text.
    SpawnFailure(String),
    /// The mutual-exclusion primitive guarding the state is unusable;
    /// carries its error text.
    LockFailure(String),
}

/// The record of the tracked worker, together with the two fixed delays of
/// the termination protocol.  Exactly one instance exists per supervisor,
/// and every caller must hold exclusive access while operating on it.
pub struct BotState {
    /// The live worker, `None` when no worker is tracked.
    pub worker: Option<WorkerHandle>,
    /// When the tracked worker was started, in whole seconds of the caller's
    /// monotonic clock; set exactly when `worker` becomes `Some` and cleared
    /// exactly when it becomes `None` again.
    pub started_at: Option<u64>,
    /// Grace window between the polite termination signal and the hard kill,
    /// in milliseconds.
    pub grace_ms: u64,
    /// Pause between the stop phase and the start phase of a restart, in
    /// milliseconds.
    pub restart_pause_ms: u64,
}

impl BotState {
    /// The two-field invariant: the start time is recorded exactly while a
    /// worker is tracked.
    pub open spec fn wf(&self) -> bool {
        self.worker is Some <==> self.started_at is Some
    }

    /// Whether a worker is tracked right now.
    pub open spec fn is_running(&self) -> bool {
        self.worker is Some
    }

    /// The tracked worker's PID, if any.
    pub open spec fn pid(&self) -> Option<u32> {
        match self.worker {
            Some(w) => Some(w.pid),
            None => None,
        }
    }

    /// Seconds since the tracked worker was started, as reported against the
    /// clock reading `now`; zero when no worker is tracked.
    pub open spec fn spec_uptime(&self, now: u64) -> u64 {
        match self.started_at {
            Some(s) => if now >= s {
                (now - s) as u64
            } else {
                0
            },
            None => 0,
        }
    }

    /// A supervisor that tracks no worker, with the given termination grace
    /// window and restart pause.
    pub fn new(grace_ms: u64, restart_pause_ms: u64) -> (r: BotState)
        ensures
            r.wf(),
            !r.is_running(),
            r.started_at is None,
            r.grace_ms == grace_ms,
            r.restart_pause_ms == restart_pause_ms,
    {
        BotState { worker: None, started_at: None, grace_ms, restart_pause_ms }
    }

    /// Whether a start may go ahead: only while no worker is tracked.
    pub open spec fn start_allowed(&self) -> bool {
        !self.is_running()
    }

    /// The guard of `start`: refused with `AlreadyRunning` if and only if a
    /// worker is tracked.  Read-only; the caller spawns the worker only on
    /// `Ok` and then records it with `start_commit`, without releasing
    /// exclusive access in between.
    pub fn start_attempt(&self) -> (r: Result<(), SupervisorError>)
        ensures
            r is Ok <==> self.start_allowed(),
            !self.start_allowed() ==> r == Result::<(), SupervisorError>::Err(
                SupervisorError::AlreadyRunning,
            ),
    {
        match self.worker {
            Some(_) => Err(SupervisorError::AlreadyRunning),
            None => Ok(()),
        }
    }
}

/// What the caller must do to terminate the worker it was handed out of the
/// record: send the polite exit signal to `pid`, wait `grace_ms`, then
/// unconditionally hard-kill and reap the same process.
#[derive(Clone, Copy, Debug, PartialEq, Eq, Structural)]
pub struct StopAction {
    pub pid: u32,
    pub grace_ms: u64,
}

/// The result of `start_attempt`: `AlreadyRunning` if and only if a worker is
/// tracked.
pub open spec fn spec_start_guard(s: BotState) -> Result<(), SupervisorError> {
    if s.is_running() {
        Err(SupervisorError::AlreadyRunning)
    } else {
        Ok(())
    }
}

/// The record after a spawned worker with `pid` is committed at time `now`.
pub open spec fn spec_start_commit(s: BotState, pid: u32, now: u64) -> BotState {
    BotState { worker: Some(WorkerHandle { pid }), started_at: Some(now), ..s }
}

/// The record and the result after a `stop`: with a tracked worker, the
/// record is cleared and the termination action for that worker is issued;
/// without one, the record is untouched and the call is refused.
pub open spec fn spec_stop(s: BotState) -> (BotState, Result<StopAction, SupervisorError>) {
    match s.worker {
        Some(w) => (
            BotState { worker: None, started_at: None, ..s },
            Ok(StopAction { pid: w.pid, grace_ms: s.grace_ms }),
        ),
        None => (s, Err(SupervisorError::NotRunning)),
    }
}

/// The record and the issued action after the stop phase of a restart, which
/// swallows `NotRunning`: afterwards no worker is tracked either way.
pub open spec fn spec_restart_begin(s: BotState) -> (BotState, Option<StopAction>) {
    match s.worker {
        Some(w) => (
            BotState { worker: None, started_at: None, ..s },
            Some(StopAction { pid: w.pid, grace_ms: s.grace_ms }),
        ),
        None => (s, None),
    }
}

impl BotState {
    /// Records the worker the caller just spawned, with the clock reading at
    /// that moment, and returns the success message.  The caller must still
    /// hold the exclusive access under which `start_attempt` answered `Ok`.
    pub fn start_commit(&mut self, pid: u32, now: u64) -> (r: String)
        requires
            old(self).wf(),
            old(self).start_allowed(),
        ensures
            final(self).wf(),
            *final(self) == spec_start_commit(*old(self), pid, now),
            final(self).is_running(),
            final(self).pid() == Some(pid),
            final(self).started_at == Some(now),
            r@ == spec_start_message(pid),
    {
        self.worker = Some(WorkerHandle { pid });
        self.started_at = Some(now);
        start_message(pid)
    }

    /// Takes the tracked worker out of the record and tells the caller how to
    /// terminate it; refused with `NotRunning` when no worker is tracked, in
    /// which case nothing changes and no action is issued.
    pub fn stop(&mut self) -> (r: Result<StopAction, SupervisorError>)
        requires
            old(self).wf(),
        ensures
            final(self).wf(),
            !final(self).is_running(),
            *final(self) == spec_stop(*old(self)).0,
            r == spec_stop(*old(self)).1,
    {
        match self.worker {
            Some(w) => {
                let pid = w.pid;
                self.worker = None;
                self.started_at = None;
                Ok(StopAction { pid, grace_ms: self.grace_ms })
            },
            None => Err(SupervisorError::NotRunning),
        }
    }

    /// The stop phase of a restart: like `stop`, but a missing worker is not
    /// a failure.  The caller performs the returned termination action, if
    /// any, waits `restart_pause_ms`, and then goes through the start phase.
    pub fn restart_begin(&mut self) -> (r: Option<StopAction>)
        requires
            old(self).wf(),
        ensures
            final(self).wf(),
            !final(self).is_running(),
            *final(self) == spec_restart_begin(*old(self)).0,
            r == spec_restart_begin(*old(self)).1,
    {
        match self.stop() {
            Ok(action) => Some(action),
            Err(_) => None,
        }
    }

    /// Whether a status query must fall back to the out-of-band probe: only
    /// when no local worker is tracked.
    pub fn needs_fallback_probe(&self) -> (r: bool)
        ensures
            r == !self.is_running(),
    {
        match self.worker {
            Some(_) => false,
            None => true,
        }
    }

    /// The status report against the clock reading `now`.  `fallback_running`
    /// is what the out-of-band probe of the local health endpoint said when
    /// no worker is tracked, and `false` when the probe was not made or
    /// failed; it can only ever add to `is_running`, never override a tracked
    /// worker.
    pub fn status(&self, now: u64, fallback_running: bool) -> (r: BotStatus)
        requires
            self.wf(),
        ensures
            r == spec_status(*self, now, fallback_running),
    {
        BotStatus {
            is_running: self.worker_tracked() || fallback_running,
            uptime_seconds: self.uptime(now),
            pid: self.pid_exec(),
        }
    }

    /// The health report against the clock reading `now`: the status fields
    /// — fallback probe included, as in `status` — extended by the two
    /// OS-level checks of the tracked PID.  `fallback_running` is what the
    /// out-of-band probe of the local health endpoint said when no worker is
    /// tracked, `false` when the probe was not made or failed;
    /// `responsive_probe` is what the zero-signal probe of the tracked PID
    /// said (`true` on platforms without one); `memory_kb` is the
    /// resident-set query for that PID in kibibytes, `None` when
    /// unavailable.  The two PID checks are ignored when no PID is tracked.
    pub fn health(
        &self,
        now: u64,
        fallback_running: bool,
        responsive_probe: bool,
        memory_kb: Option<u64>,
    ) -> (r: BotHealth)
        requires
            self.wf(),
        ensures
            r == spec_health(*self, now, fallback_running, responsive_probe, memory_kb),
    {
        let pid = self.pid_exec();
        BotHealth {
            is_running: self.worker_tracked() || fallback_running,
            is_responsive: pid.is_some() && responsive_probe,
            uptime_seconds: self.uptime(now),
            pid,
            memory_kb: if pid.is_some() {
                memory_kb
            } else {
                None
            },
        }
    }

    /// Whether a worker is tracked right now.
    fn worker_tracked(&self) -> (r: bool)
        ensures
            r == self.is_running(),
    {
        match self.worker {
            Some(_) => true,
            None => false,
        }
    }

    /// The tracked worker's PID, if any.
    fn pid_exec(&self) -> (r: Option<u32>)
        ensures
            r == self.pid(),
    {
        match self.worker {
            Some(w) => Some(w.pid),
            None => None,
        }
    }

    /// Seconds since the tracked worker was started, against the clock
    /// reading `now`; zero when no worker is tracked or the clock reads
    /// earlier than the recorded start.
    pub fn uptime(&self, now: u64) -> (r: u64)
        ensures
            r == self.spec_uptime(now),
    {
        match self.started_at {
            Some(s) => if now >= s {
                now - s
            } else {
                0
            },
            None => 0,
        }
    }
}

/// The status report computed from the record, the clock and the fallback
/// probe.
pub open spec fn spec_status(s: BotState, now: u64, fallback_running: bool) -> BotStatus {
    BotStatus {
        is_running: s.is_running() || fallback_running,
        uptime_seconds: s.spec_uptime(now),
        pid: s.pid(),
    }
}

/// The health report computed from the record, the clock, the fallback
/// probe, and the two OS-level probes of the tracked PID; its `is_running`
/// is the status report's.
pub open spec fn spec_health(
    s: BotState,
    now: u64,
    fallback_running: bool,
    responsive_probe: bool,
    memory_kb: Option<u64>,
) -> BotHealth {
    BotHealth {
        is_running: s.is_running() || fallback_running,
        is_responsive: s.pid() is Some && responsive_probe,
        uptime_seconds: s.spec_uptime(now),
        pid: s.pid(),
        memory_kb: if s.pid() is Some {
            memory_kb
        } else {
            None
        },
    }
}

/// A point-in-time status report: whether a worker runs, for how long, and
/// under which PID.
#[derive(Clone, Copy, Debug, PartialEq, Eq, Structural)]
pub struct BotStatus {
    pub is_running: bool,
    pub uptime_seconds: u64,
    pub pid: Option<u32>,
}

/// A point-in-time health report: the status fields plus the zero-signal
/// responsiveness probe and the resident memory of the tracked PID, in
/// kibibytes.  Computed on demand, never cached.
#[derive(Clone, Copy, Debug, PartialEq, Eq, Structural)]
pub struct BotHealth {
    pub is_running: bool,
    pub is_responsive: bool,
    pub uptime_seconds: u64,
    pub pid: Option<u32>,
    pub memory_kb: Option<u64>,
}

/// The message a successful start reports: the fixed prefix followed by the
/// new worker's PID in decimal.
pub open spec fn spec_start_message(pid: u32) -> Seq<char> {
    "Bot started with PID: "@ + crate::text::spec_dec_digits(pid as nat)
}

/// Renders the success message of a start.
pub fn start_message(pid: u32) -> (r: String)
    ensures
        r@ == spec_start_message(pid),
{
    let mut s = String::from_str("Bot started with PID: ");
    let digits = crate::text::u64_to_string(pid as u64);
    s.append(digits.as_str());
    s
}

/// The message a successful stop reports.
pub open spec fn spec_stop_message() -> Seq<char> {
    "Bot stopped successfully"@
}

/// Renders the success message of a stop.
pub fn stop_message() -> (r: String)
    ensures
        r@ == spec_stop_message(),
{
    String::from_str("Bot stopped successfully")
}

impl SupervisorError {
    /// The error text surfaced to the caller, as the command surface words
    /// it.
    pub open spec fn spec_message(&self) -> Seq<char> {
        match self {
            SupervisorError::AlreadyRunning => "Bot is already running"@,
            SupervisorError::NotRunning => "Bot is not running"@,
            SupervisorError::SpawnFailure(e) => "Failed to start bot: "@ + e@,
            SupervisorError::LockFailure(e) => e@,
        }
    }

    /// Renders the error text surfaced to the caller.
    pub fn message(&self) -> (r: String)
        ensures
            r@ == self.spec_message(),
    {
        match self {
            SupervisorError::AlreadyRunning => String::from_str("Bot is already running"),
            SupervisorError::NotRunning => String::from_str("Bot is not running"),
            SupervisorError::SpawnFailure(e) => String::from_str("Failed to start bot: ").concat(
                e.as_str(),
            ),
            SupervisorError::LockFailure(e) => e.clone(),
        }
    }
}

/// Of consecutive starts with no stop in between, only the first succeeds:
/// once a start has committed a worker, the guard refuses every further
/// attempt with `AlreadyRunning`, and — the guard being read-only — the
/// tracked worker is left exactly as the first start recorded it.
pub proof fn lemma_only_first_start_succeeds(s: BotState, pid: u32, now: u64)
    requires
        s.wf(),
        s.start_allowed(),
    ensures
        ({
            let s1 = spec_start_commit(s, pid, now);
            &&& s1.wf()
            &&& !s1.start_allowed()
            &&& spec_start_guard(s1) == Result::<(), SupervisorError>::Err(
                SupervisorError::AlreadyRunning,
            )
            &&& s1.pid() == Some(pid)
        }),
{
}

/// A stop with no tracked worker is refused with `NotRunning` and changes
/// nothing: the record is untouched and no termination action is issued, so
/// the caller touches no process.
pub proof fn lemma_stop_without_worker_changes_nothing(s: BotState)
    requires
        s.wf(),
        !s.is_running(),
    ensures
        spec_stop(s).0 == s,
        spec_stop(s).1 == Result::<StopAction, SupervisorError>::Err(SupervisorError::NotRunning),
{
}

/// After any successful stop, a status query reports a stopped supervisor:
/// not running, zero uptime, no PID — whatever the clock reads, with the
/// fallback probe finding nothing.
pub proof fn lemma_status_after_stop(s: BotState, now: u64)
    requires
        s.wf(),
        s.is_running(),
    ensures
        spec_stop(s).1 is Ok,
        spec_status(spec_stop(s).0, now, false) == (BotStatus {
            is_running: false,
            uptime_seconds: 0u64,
            pid: None::<u32>,
        }),
{
}

/// A restart that finds no worker recovers as a fresh start would: the
/// swallowed stop phase leaves the record untouched and issues no action, so
/// the start phase behaves exactly as a start on the record as it was.
pub proof fn lemma_restart_recovers_from_stopped(s: BotState, pid: u32, now: u64)
    requires
        s.wf(),
        !s.is_running(),
    ensures
        spec_restart_begin(s).0 == s,
        spec_restart_begin(s).1 is None,
        spec_start_guard(spec_restart_begin(s).0) == spec_start_guard(s),
        spec_start_commit(spec_restart_begin(s).0, pid, now) == spec_start_commit(s, pid, now),
{
}

/// Between a start and the next stop the uptime that status and health
/// report never decreases as the clock advances, and the stop resets it to
/// zero.
pub proof fn lemma_uptime_monotonic(
    s: BotState,
    n1: u64,
    n2: u64,
    responsive_probe: bool,
    memory_kb: Option<u64>,
)
    requires
        s.wf(),
        s.is_running(),
        n1 <= n2,
    ensures
        spec_status(s, n1, false).uptime_seconds <= spec_status(s, n2, false).uptime_seconds,
        spec_health(s, n1, false, responsive_probe, memory_kb).uptime_seconds == spec_status(
            s,
            n1,
            false,
        ).uptime_seconds,
        spec_status(spec_stop(s).0, n2, false).uptime_seconds == 0,
{
}

/// A health report extends the status report taken at the same moment, with
/// the same fallback-probe answer: the fields they share agree.
pub proof fn lemma_health_extends_status(
    s: BotState,
    now: u64,
    fallback_running: bool,
    responsive_probe: bool,
    memory_kb: Option<u64>,
)
    requires
        s.wf(),
    ensures
        ({
            let h = spec_health(s, now, fallback_running, responsive_probe, memory_kb);
            let st = spec_status(s, now, fallback_running);
            &&& h.is_running == st.is_running
            &&& h.uptime_seconds == st.uptime_seconds
            &&& h.pid == st.pid
        }),
{
}

/// The default grace window of the two-phase termination, in milliseconds.
pub const DEFAULT_GRACE_MS: u64 = 500;

/// The pause between the two phases of a restart, in milliseconds.
pub const DEFAULT_RESTART_PAUSE_MS: u64 = 300;

impl Default for BotState {
    /// A fresh supervisor: no worker tracked, the fixed default delays.
    fn default() -> (r: BotState)
        ensures
            r.wf(),
            !r.is_running(),
            r.grace_ms == DEFAULT_GRACE_MS,
            r.restart_pause_ms == DEFAULT_RESTART_PAUSE_MS,
    {
        BotState::new(DEFAULT_GRACE_MS, DEFAULT_RESTART_PAUSE_MS)
    }
}

} // verus!
