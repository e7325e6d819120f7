//! The probe runner: configuration, per-attempt outcomes, and the loop's
//! state machine.
//!
//! A run is a sequence of attempts against one resolved target.  Each attempt
//! creates a fresh socket, binds it, tries a timed connect, optionally
//! exchanges a payload, and is then recorded here.  Recording is what drives
//! the run: every attempt counts exactly once, whatever its outcome, and the
//! run terminates exactly when a configured attempt limit is reached.  The
//! sockets, clocks and console live outside the library; only the decisions
//! are made here.

use vstd::prelude::*;

verus! {

/// The interval between attempts when none is configured, in seconds.
pub const DEFAULT_INTERVAL_SECS: u64 = 1;

/// The handshake timeout when none is configured, in seconds.
pub const DEFAULT_TIMEOUT_SECS: u64 = 4;

/// How many reply bytes one payload exchange reads at most.
pub const REPLY_CAP: usize = 1024;

/// The fixed configuration of one run, immutable once constructed.
#[derive(Clone, PartialEq, Eq, Debug)]
pub struct ProbeConfig {
    /// Target host: an IP literal or a name for the resolver.
    pub host: Vec<u8>,
    /// Target TCP port.
    pub port: u16,
    /// Seconds to sleep between attempts.
    pub interval_secs: u64,
    /// Seconds the handshake may take before the attempt fails.
    pub timeout_secs: u64,
    /// Stop after this many attempts; `None` means run until interrupted.
    pub count: Option<u64>,
    /// Local interface to pin each socket to, if any.
    pub boundif: Option<Vec<u8>>,
    /// Bytes to send after each successful connect, if any.
    pub payload: Option<Vec<u8>>,
}

impl ProbeConfig {
    /// Builds the configuration for a host and port with the default interval
    /// and timeout, no attempt limit, no bound interface and no payload.
    pub fn new(host: Vec<u8>, port: u16) -> (r: ProbeConfig)
        ensures
            r.host@ == host@,
            r.port == port,
            r.interval_secs == DEFAULT_INTERVAL_SECS,
            r.timeout_secs == DEFAULT_TIMEOUT_SECS,
            r.count is None,
            r.boundif is None,
            r.payload is None,
    {
        ProbeConfig {
            host,
            port,
            interval_secs: DEFAULT_INTERVAL_SECS,
            timeout_secs: DEFAULT_TIMEOUT_SECS,
            count: None,
            boundif: None,
            payload: None,
        }
    }
}

/// Where in an attempt a failure happened.
#[derive(Clone, Copy, PartialEq, Eq, Structural, Debug)]
pub enum FailureKind {
    /// The host never became an address; no attempt can be made.
    Resolution,
    /// The OS refused to allocate a socket for this attempt.
    SocketCreation,
    /// The interface lookup or the bind itself failed.
    Bind,
    /// The handshake timed out, was refused, or found no route.
    Connect,
    /// The payload write or the reply read failed after connecting.
    PayloadIo,
}

/// True for the failures that make the whole run meaningless, so the process
/// must stop with a non-zero status: a host that never resolved, and a bind
/// that could not pin the requested path.  Everything local to one attempt —
/// socket creation, the handshake, payload I/O — is reported and the run
/// goes on.
pub open spec fn spec_is_fatal(k: FailureKind) -> bool {
    k is Resolution || k is Bind
}

/// Returns whether the failure ends the whole run.
pub fn is_fatal(k: FailureKind) -> (r: bool)
    ensures
        r == spec_is_fatal(k),
{
    match k {
        FailureKind::Resolution => true,
        FailureKind::Bind => true,
        _ => false,
    }
}

/// What one attempt came to.
#[derive(Clone, Copy, PartialEq, Eq, Structural, Debug)]
pub enum AttemptOutcome {
    /// The handshake completed after this many milliseconds.
    Connected { elapsed_ms: u64 },
    /// The attempt failed at the given step with the given OS error code.
    Failed { kind: FailureKind, os_error: i32 },
}

/// Whether the run is still probing or has ended.
#[derive(Clone, Copy, PartialEq, Eq, Structural, Debug)]
pub enum RunStatus {
    Probing,
    Terminated,
}

/// The loop's whole mutable state: how many attempts are done, the limit,
/// and whether the run has ended.
#[derive(Clone, Copy, PartialEq, Eq, Structural, Debug)]
pub struct ProbeState {
    pub attempts_done: u64,
    pub limit: Option<u64>,
    pub status: RunStatus,
}

/// The state a run starts in: no attempt done yet, probing.
pub open spec fn spec_start(limit: Option<u64>) -> ProbeState {
    ProbeState { attempts_done: 0, limit, status: RunStatus::Probing }
}

/// The state after recording one more attempt: the counter grows by one and
/// the run terminates exactly when a limit is configured and now reached.
pub open spec fn spec_record(s: ProbeState) -> ProbeState {
    ProbeState {
        attempts_done: (s.attempts_done + 1) as u64,
        limit: s.limit,
        status: match s.limit {
            Some(c) => if s.attempts_done + 1 >= c {
                RunStatus::Terminated
            } else {
                RunStatus::Probing
            },
            None => RunStatus::Probing,
        },
    }
}

/// The state after `k` recorded attempts.
pub open spec fn spec_run(limit: Option<u64>, k: nat) -> ProbeState
    decreases k,
{
    if k == 0 {
        spec_start(limit)
    } else {
        spec_record(spec_run(limit, (k - 1) as nat))
    }
}

impl ProbeState {
    /// Starts a run with the configured attempt limit.
    pub fn start(limit: Option<u64>) -> (r: ProbeState)
        ensures
            r == spec_start(limit),
    {
        ProbeState { attempts_done: 0, limit, status: RunStatus::Probing }
    }

    /// Records one completed attempt.  The outcome does not matter: a failed
    /// handshake counts exactly like a successful one, and no attempt is ever
    /// retried or counted twice.
    pub fn record_attempt(&mut self, outcome: &AttemptOutcome)
        requires
            old(self).status is Probing,
            old(self).attempts_done < u64::MAX,
        ensures
            *final(self) == spec_record(*old(self)),
    {
        self.attempts_done = self.attempts_done + 1;
        match self.limit {
            Some(c) => if self.attempts_done >= c {
                self.status = RunStatus::Terminated;
            },
            None => {},
        }
    }
}

/// What the runner does once an attempt is recorded.
#[derive(Clone, Copy, PartialEq, Eq, Structural, Debug)]
pub enum RunnerAction {
    /// The limit is reached: the process ends with a success status.
    ExitSuccess,
    /// Sleep this many seconds, then begin the next attempt.
    SleepThenProbe { secs: u64 },
}

/// Decides the step after an attempt: a terminated run exits successfully,
/// a live one sleeps for the configured interval and probes again.
pub fn next_action(state: &ProbeState, interval_secs: u64) -> (r: RunnerAction)
    ensures
        state.status is Terminated ==> r == RunnerAction::ExitSuccess,
        state.status is Probing ==> r == (RunnerAction::SleepThenProbe { secs: interval_secs }),
{
    match state.status {
        RunStatus::Terminated => RunnerAction::ExitSuccess,
        RunStatus::Probing => RunnerAction::SleepThenProbe { secs: interval_secs },
    }
}

/// A run with attempt limit `n` probes for exactly `n` attempts: after every
/// earlier attempt it is still probing with the counter equal to the attempts
/// recorded so far, and after the `n`-th it is terminated.
pub proof fn lemma_exact_attempt_count(n: u64, k: nat)
    requires
        1 <= n,
        k <= n,
    ensures
        spec_run(Some(n), k).attempts_done == k,
        spec_run(Some(n), k).limit == Some(n),
        spec_run(Some(n), k).status == (if k < n {
            RunStatus::Probing
        } else {
            RunStatus::Terminated
        }),
    decreases k,
{
    if k > 0 {
        lemma_exact_attempt_count(n, (k - 1) as nat);
    }
}

/// A run with no attempt limit never terminates on its own: after any number
/// of recorded attempts it is still probing.
pub proof fn lemma_unlimited_run_keeps_probing(k: nat)
    requires
        k <= u64::MAX,
    ensures
        spec_run(None, k).attempts_done == k,
        spec_run(None, k).limit is None,
        spec_run(None, k).status == RunStatus::Probing,
    decreases k,
{
    if k > 0 {
        lemma_unlimited_run_keeps_probing((k - 1) as nat);
    }
}

} // verus!
