//! Supervision of the backend worker process: the slot that owns its handle,
//! the bounded health poll, and what to do with each event of its output.

use vstd::prelude::*;
use crate::scan::{join_path, join_spec, main_separator};
use crate::text::{contains_seq, contains_str, starts_with_seq, starts_with_str};

verus! {

/// Attempts the health poll makes before giving up.
pub const MAX_HEALTH_ATTEMPTS: u32 = 60;

/// Pause between two health attempts, in milliseconds.
pub const HEALTH_RETRY_DELAY_MS: u64 = 500;

/// Bound on reading one health response, in seconds.
pub const HEALTH_READ_TIMEOUT_SECS: u64 = 2;

/// Delay before reporting a failed spawn, so that listeners can attach.
pub const STARTUP_FAILED_DELAY_SECS: u64 = 2;

/// The worker's health endpoint.
pub const HEALTH_ADDRESS: &'static str = "127.0.0.1:8425";

/// The request sent to the health endpoint.
pub const HEALTH_REQUEST: &'static str = "GET /health HTTP/1.1\r\nHost: 127.0.0.1:8425\r\nConnection: close\r\n\r\n";

/// The worker binary, relative to the application's bundled binaries.
pub const SIDECAR_BINARY: &'static str = "binaries/rmm-backend";

/// The environment variable that carries the worker's data directory.
pub const DATA_DIR_VARIABLE: &'static str = "RMM_DATA_DIR";

/// The data directory's name under the per-user application-data root.
pub const DATA_DIR_NAME: &'static str = "RipperModManager";

/// The data directory used when the per-user root cannot be resolved.
pub const FALLBACK_DATA_DIR: &'static str = "./data";

/// The worker's data directory: `DATA_DIR_NAME` under the per-user
/// application-data root when that could be resolved, else
/// `FALLBACK_DATA_DIR`.
pub fn worker_data_dir(local_data_root: Option<String>) -> (r: String)
    ensures
        local_data_root is None ==> r@ == FALLBACK_DATA_DIR@,
        local_data_root matches Some(root) ==> (r@ == join_spec(root@, DATA_DIR_NAME@, seq!['\\'])
            || r@ == join_spec(root@, DATA_DIR_NAME@, seq!['/'])),
{
    match local_data_root {
        Some(root) => {
            let sep = main_separator();
            join_path(root.as_str(), DATA_DIR_NAME, sep.as_str())
        },
        None => String::from_str(FALLBACK_DATA_DIR),
    }
}

/// Owns the handle of the running worker, if one was spawned and not yet
/// terminated.
pub struct Supervisor<H> {
    handle: Option<H>,
}

impl<H> Supervisor<H> {
    pub closed spec fn held(&self) -> Option<H> {
        self.handle
    }

    pub fn new() -> (r: Supervisor<H>)
        ensures
            r.held() is None,
    {
        Supervisor { handle: None }
    }

    pub fn is_running(&self) -> (r: bool)
        ensures
            r == self.held().is_some(),
    {
        self.handle.is_some()
    }

    /// Stores the handle of a freshly spawned worker and hands back the one
    /// it replaces, if any.
    pub fn attach(&mut self, handle: H) -> (r: Option<H>)
        ensures
            final(self).held() == Some(handle),
            r == old(self).held(),
    {
        let previous = self.handle.take();
        self.handle = Some(handle);
        previous
    }

    /// Takes the stored handle out, leaving none, so that the caller kills
    /// that process. With no handle stored this does nothing.
    pub fn terminate(&mut self) -> (r: Option<H>)
        ensures
            final(self).held() is None,
            r == old(self).held(),
    {
        self.handle.take()
    }
}

/// Terminating twice leaves no handle, and the second call hands back
/// nothing: there is no process left to kill.
pub proof fn lemma_terminate_idempotent<H>(
    s0: Supervisor<H>,
    s1: Supervisor<H>,
    r1: Option<H>,
    s2: Supervisor<H>,
    r2: Option<H>,
)
    requires
        s1.held() is None,
        r1 == s0.held(),
        s2.held() is None,
        r2 == s1.held(),
    ensures
        s2.held() is None,
        r2 is None,
        s0.held() is None ==> r1 is None,
{
}

/// What the health poll does after one attempt.
#[derive(Clone, Copy, Debug, PartialEq, Eq, Structural)]
pub enum PollStep {
    /// The worker answered healthy: report it ready and stop polling.
    Ready,
    /// Wait `HEALTH_RETRY_DELAY_MS` and try again; `report_progress` asks
    /// for a progress line in the log.
    Retry { attempt: u32, report_progress: bool },
    /// The attempt budget is spent: report that startup failed and stop.
    GiveUp,
}

pub open spec fn poll_step(attempts: nat, healthy: bool) -> PollStep {
    if healthy {
        PollStep::Ready
    } else if attempts + 1 < MAX_HEALTH_ATTEMPTS {
        PollStep::Retry {
            attempt: (attempts + 1) as u32,
            report_progress: (attempts + 1) % 10 == 0,
        }
    } else {
        PollStep::GiveUp
    }
}

/// The bounded health poll: counts attempts, and stops at the first healthy
/// answer or when the budget is spent.
pub struct HealthPoll {
    attempts: u32,
    finished: bool,
}

impl HealthPoll {
    pub closed spec fn attempts_made(&self) -> nat {
        self.attempts as nat
    }

    pub closed spec fn is_finished(&self) -> bool {
        self.finished
    }

    pub open spec fn wf(&self) -> bool {
        &&& self.attempts_made() <= MAX_HEALTH_ATTEMPTS
        &&& !self.is_finished() ==> self.attempts_made() < MAX_HEALTH_ATTEMPTS
    }

    pub fn new() -> (r: HealthPoll)
        ensures
            r.wf(),
            r.attempts_made() == 0,
            !r.is_finished(),
    {
        HealthPoll { attempts: 0, finished: false }
    }

    pub fn finished(&self) -> (r: bool)
        ensures
            r == self.is_finished(),
    {
        self.finished
    }

    pub fn attempts(&self) -> (r: u32)
        ensures
            r as nat == self.attempts_made(),
    {
        self.attempts
    }

    /// Records the outcome of one more attempt and says what to do next.
    pub fn record(&mut self, healthy: bool) -> (r: PollStep)
        requires
            old(self).wf(),
            !old(self).is_finished(),
        ensures
            final(self).wf(),
            final(self).attempts_made() == old(self).attempts_made() + 1,
            r == poll_step(old(self).attempts_made(), healthy),
            final(self).is_finished() == !(r is Retry),
    {
        self.attempts = self.attempts + 1;
        if healthy {
            self.finished = true;
            PollStep::Ready
        } else if self.attempts < MAX_HEALTH_ATTEMPTS {
            PollStep::Retry { attempt: self.attempts, report_progress: self.attempts % 10 == 0 }
        } else {
            self.finished = true;
            PollStep::GiveUp
        }
    }
}

/// Runs the poll from `attempts` attempts made against an endpoint whose
/// answer to attempt `i` (from 0) is `healthy(i)`: the number of attempts
/// made in all, and the final step.
pub open spec fn run_poll(attempts: nat, healthy: spec_fn(nat) -> bool) -> (nat, PollStep)
    decreases MAX_HEALTH_ATTEMPTS - attempts,
{
    if attempts >= MAX_HEALTH_ATTEMPTS {
        (attempts, PollStep::GiveUp)
    } else {
        let step = poll_step(attempts, healthy(attempts));
        if step is Retry {
            run_poll(attempts + 1, healthy)
        } else {
            (attempts + 1, step)
        }
    }
}

proof fn lemma_run_poll_never_healthy(a: nat, healthy: spec_fn(nat) -> bool)
    requires
        a < MAX_HEALTH_ATTEMPTS,
        forall|i: nat| i < MAX_HEALTH_ATTEMPTS ==> !#[trigger] healthy(i),
    ensures
        run_poll(a, healthy) == (MAX_HEALTH_ATTEMPTS as nat, PollStep::GiveUp),
    decreases MAX_HEALTH_ATTEMPTS - a,
{
    if a + 1 < MAX_HEALTH_ATTEMPTS {
        lemma_run_poll_never_healthy(a + 1, healthy);
    }
}

proof fn lemma_run_poll_healthy_at(a: nat, k: nat, healthy: spec_fn(nat) -> bool)
    requires
        a <= k < MAX_HEALTH_ATTEMPTS,
        healthy(k),
        forall|i: nat| i < k ==> !#[trigger] healthy(i),
    ensures
        run_poll(a, healthy) == (k + 1, PollStep::Ready),
    decreases k - a,
{
    if a < k {
        lemma_run_poll_healthy_at(a + 1, k, healthy);
    }
}

/// Against an endpoint that never answers healthy, the poll makes exactly
/// `MAX_HEALTH_ATTEMPTS` attempts and then gives up.
pub proof fn lemma_poll_gives_up(healthy: spec_fn(nat) -> bool)
    requires
        forall|i: nat| i < MAX_HEALTH_ATTEMPTS ==> !#[trigger] healthy(i),
    ensures
        run_poll(0, healthy) == (MAX_HEALTH_ATTEMPTS as nat, PollStep::GiveUp),
{
    lemma_run_poll_never_healthy(0, healthy);
}

/// Against an endpoint that first answers healthy at attempt `k` (from 0,
/// within the budget), the poll makes `k + 1` attempts, the last one
/// reporting the worker ready, and none after it.
pub proof fn lemma_poll_ready_once(healthy: spec_fn(nat) -> bool, k: nat)
    requires
        k < MAX_HEALTH_ATTEMPTS,
        healthy(k),
        forall|i: nat| i < k ==> !#[trigger] healthy(i),
    ensures
        run_poll(0, healthy) == (k + 1, PollStep::Ready),
{
    lemma_run_poll_healthy_at(0, k, healthy);
}

/// A health response counts as healthy when it holds a success status and
/// the readiness token.
pub open spec fn healthy_response(response: Seq<char>) -> bool {
    contains_seq(response, "200"@) && contains_seq(response, "healthy"@)
}

pub fn is_healthy_response(response: &str) -> (r: bool)
    ensures
        r == healthy_response(response@),
{
    contains_str(response, "200") && contains_str(response, "healthy")
}

/// An event of the worker's output stream.
#[derive(Clone, Copy, Debug, PartialEq, Eq, Structural)]
pub enum RelayEvent {
    Stdout,
    Stderr,
    Terminated,
    Error,
    Other,
}

/// What the output relay does with an event.
#[derive(Clone, Copy, Debug, PartialEq, Eq, Structural)]
pub enum RelayAction {
    /// Forward the line to the log at informational level.
    LogInfo,
    /// Report the worker as crashed and stop relaying.
    ReportCrashed,
    /// Log the error and stop relaying.
    LogErrorAndStop,
    /// Nothing to do.
    Ignore,
}

pub open spec fn relay_spec(e: RelayEvent) -> RelayAction {
    match e {
        RelayEvent::Stdout | RelayEvent::Stderr => RelayAction::LogInfo,
        RelayEvent::Terminated => RelayAction::ReportCrashed,
        RelayEvent::Error => RelayAction::LogErrorAndStop,
        RelayEvent::Other => RelayAction::Ignore,
    }
}

pub fn relay_action(e: RelayEvent) -> (r: RelayAction)
    ensures
        r == relay_spec(e),
{
    match e {
        RelayEvent::Stdout | RelayEvent::Stderr => RelayAction::LogInfo,
        RelayEvent::Terminated => RelayAction::ReportCrashed,
        RelayEvent::Error => RelayAction::LogErrorAndStop,
        RelayEvent::Other => RelayAction::Ignore,
    }
}

impl RelayAction {
    /// Whether the relay stops after this action.
    pub fn stops(&self) -> (r: bool)
        ensures
            r == (*self is ReportCrashed || *self is LogErrorAndStop),
    {
        match self {
            RelayAction::ReportCrashed | RelayAction::LogErrorAndStop => true,
            _ => false,
        }
    }
}

/// A signal sent to the user interface.
#[derive(Clone, Copy, Debug, PartialEq, Eq, Structural)]
pub enum BackendSignal {
    Ready,
    Crashed,
    StartupFailed,
}

impl BackendSignal {
    pub open spec fn topic_spec(self) -> Seq<char> {
        match self {
            BackendSignal::Ready => "backend-ready"@,
            BackendSignal::Crashed => "backend-crashed"@,
            BackendSignal::StartupFailed => "backend-startup-failed"@,
        }
    }

    /// The name of the signal's topic.
    pub fn topic(&self) -> (r: String)
        ensures
            r@ == self.topic_spec(),
    {
        match self {
            BackendSignal::Ready => String::from_str("backend-ready"),
            BackendSignal::Crashed => String::from_str("backend-crashed"),
            BackendSignal::StartupFailed => String::from_str("backend-startup-failed"),
        }
    }
}

/// The signal a finished poll sends, if it finished.
pub fn poll_signal(step: PollStep) -> (r: Option<BackendSignal>)
    ensures
        step is Ready ==> r == Some(BackendSignal::Ready),
        step is GiveUp ==> r == Some(BackendSignal::StartupFailed),
        step is Retry ==> r is None,
{
    match step {
        PollStep::Ready => Some(BackendSignal::Ready),
        PollStep::GiveUp => Some(BackendSignal::StartupFailed),
        PollStep::Retry { .. } => None,
    }
}

/// The topic on which a mod-download link from a second instance is
/// forwarded.
pub const LINK_TOPIC: &'static str = "nxm-link";

pub open spec fn is_mod_link(arg: Seq<char>) -> bool {
    starts_with_seq(arg, "nxm://"@)
}

/// The position of the first argument that is a mod-download link.
pub fn find_mod_link(argv: &Vec<String>) -> (r: Option<usize>)
    ensures
        r is None ==> forall|k: int| 0 <= k < argv@.len() ==> !is_mod_link(#[trigger] argv@[k]@),
        r matches Some(i) ==> i < argv@.len() && is_mod_link(argv@[i as int]@) && forall|k: int|
            0 <= k < i ==> !is_mod_link(#[trigger] argv@[k]@),
{
    let mut i: usize = 0;
    while i < argv.len()
        invariant
            i <= argv@.len(),
            forall|k: int| 0 <= k < i ==> !is_mod_link(#[trigger] argv@[k]@),
        decreases argv@.len() - i,
    {
        if starts_with_str(argv[i].as_str(), "nxm://") {
            return Some(i);
        }
        i = i + 1;
    }
    None
}

} // verus!
