//! Daemon supervisor: classifies the notification daemon from the PID file,
//! the process-liveness probe and the HTTP health probe, and decides what
//! `ensure`, `stop` and `start` do. Reading the PID file, sending signals and
//! probing over HTTP happen outside; their answers come in as plain values.

use crate::text::spec_udec;
use crate::text::u16_string;
use vstd::prelude::*;
use vstd::string::*;

verus! {

/// Supervision state of the daemon, derived from three observations.
#[derive(PartialEq, Eq, Structural, Clone, Copy, Debug)]
pub enum DaemonState {
    /// No PID file: nothing to supervise.
    NotRunning,
    /// The PID file names a process that is no longer alive.
    StaleHandle,
    /// The process is alive but did not answer the health probe.
    RunningUnhealthy,
    /// The process is alive and answered the health probe.
    RunningHealthy,
}

/// Classification of the three observations: the recorded PID if a PID file
/// was present, whether that process is alive, and whether the health probe
/// answered. Liveness and health are only read when a PID was recorded.
pub open spec fn spec_classify(pid: Option<u32>, alive: bool, healthy: bool) -> DaemonState {
    match pid {
        None => DaemonState::NotRunning,
        Some(_) => if !alive {
            DaemonState::StaleHandle
        } else if healthy {
            DaemonState::RunningHealthy
        } else {
            DaemonState::RunningUnhealthy
        },
    }
}

/// Folds the three observations into a supervision state.
pub fn classify(pid: Option<u32>, alive: bool, healthy: bool) -> (r: DaemonState)
    ensures
        r == spec_classify(pid, alive, healthy),
{
    match pid {
        None => DaemonState::NotRunning,
        Some(_) => if !alive {
            DaemonState::StaleHandle
        } else if healthy {
            DaemonState::RunningHealthy
        } else {
            DaemonState::RunningUnhealthy
        },
    }
}

/// Whether the daemon counts as running: a recorded PID whose process is
/// alive and answers the health probe.
pub fn is_server_running(pid: Option<u32>, alive: bool, healthy: bool) -> (r: bool)
    ensures
        r == (spec_classify(pid, alive, healthy) is RunningHealthy),
{
    match pid {
        Some(_) => alive && healthy,
        None => false,
    }
}

/// What `ensure` does: nothing when the daemon is healthy, otherwise a fresh
/// start.
#[derive(PartialEq, Eq, Structural, Clone, Copy, Debug)]
pub enum EnsureAction {
    NoOp,
    StartDaemon,
}

/// The `ensure` decision.
pub open spec fn spec_ensure_action(st: DaemonState) -> EnsureAction {
    if st is RunningHealthy {
        EnsureAction::NoOp
    } else {
        EnsureAction::StartDaemon
    }
}

/// Decides what `ensure` does for a classified daemon state.
pub fn ensure_server(st: DaemonState) -> (r: EnsureAction)
    ensures
        r == spec_ensure_action(st),
        r is NoOp <==> st is RunningHealthy,
{
    match st {
        DaemonState::RunningHealthy => EnsureAction::NoOp,
        _ => EnsureAction::StartDaemon,
    }
}

/// Idempotence of `ensure` on a healthy daemon: it spawns nothing, and since
/// a no-op mutates neither the PID file nor the process, an immediately
/// following `ensure` observes the same three values and spawns nothing
/// either.
pub proof fn lemma_ensure_idempotent(pid: Option<u32>, alive: bool, healthy: bool)
    requires
        spec_classify(pid, alive, healthy) is RunningHealthy,
    ensures
        spec_ensure_action(spec_classify(pid, alive, healthy)) == EnsureAction::NoOp,
{
}

/// What `stop` does, decided from the PID file and process liveness.
#[derive(PartialEq, Eq, Structural, Clone, Copy, Debug)]
pub enum StopAction {
    /// Send a graceful termination signal and remove the PID file.
    SignalAndRemovePid,
    /// Remove the stale PID file; send no signal. Reported non-fatally.
    RemoveStalePid,
    /// No PID file: report that the daemon is not running.
    ReportNotRunning,
}

/// The `stop` decision. Stop never force-kills and never fails.
pub open spec fn spec_stop_action(pid: Option<u32>, alive: bool) -> StopAction {
    match pid {
        Some(_) => if alive {
            StopAction::SignalAndRemovePid
        } else {
            StopAction::RemoveStalePid
        },
        None => StopAction::ReportNotRunning,
    }
}

/// Decides what `stop` does.
pub fn stop_decision(pid: Option<u32>, alive: bool) -> (r: StopAction)
    ensures
        r == spec_stop_action(pid, alive),
{
    match pid {
        Some(_) => if alive {
            StopAction::SignalAndRemovePid
        } else {
            StopAction::RemoveStalePid
        },
        None => StopAction::ReportNotRunning,
    }
}

/// A stale PID file is removed without any signal being sent, whatever PID
/// it recorded.
pub proof fn lemma_stop_stale(pid: u32)
    ensures
        spec_stop_action(Some(pid), false) == StopAction::RemoveStalePid,
{
}

/// How the post-start probe is reported: a failed probe is a warning, never
/// fatal, since the daemon may still be initializing.
#[derive(PartialEq, Eq, Structural, Clone, Copy, Debug)]
pub enum StartReport {
    Started,
    StartedUnverified,
}

/// Classifies the one probe made after the grace period following a spawn.
pub fn start_report(probe_answered: bool) -> (r: StartReport)
    ensures
        r is Started <==> probe_answered,
{
    if probe_answered {
        StartReport::Started
    } else {
        StartReport::StartedUnverified
    }
}

/// Arguments with which the daemon re-invokes the current executable in the
/// daemon role.
pub fn serve_args(port: u16) -> (r: Vec<String>)
    ensures
        r@.len() == 3,
        r@[0]@ == "serve-notifications"@,
        r@[1]@ == "--notify-port"@,
        r@[2]@ == spec_udec(port as nat),
{
    let mut v: Vec<String> = Vec::new();
    v.push("serve-notifications".to_owned());
    v.push("--notify-port".to_owned());
    v.push(u16_string(port));
    v
}

/// The URL probed to check the daemon's health.
pub fn health_url(port: u16) -> (r: String)
    ensures
        r@ == "http://127.0.0.1:"@ + spec_udec(port as nat) + "/health"@,
{
    "http://127.0.0.1:".to_owned().concat(u16_string(port).as_str()).concat("/health")
}

} // verus!
