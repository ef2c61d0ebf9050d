use ai_pod::supervisor::{
    classify, ensure_server, health_url, is_server_running, serve_args, start_report,
    stop_decision, DaemonState, EnsureAction, StartReport, StopAction,
};
use ai_pod::text::{parse_u32, u16_string};

#[test]
fn classification_covers_every_observation() {
    assert_eq!(classify(None, false, false), DaemonState::NotRunning);
    assert_eq!(classify(None, true, true), DaemonState::NotRunning);
    assert_eq!(classify(Some(10), false, false), DaemonState::StaleHandle);
    assert_eq!(classify(Some(10), false, true), DaemonState::StaleHandle);
    assert_eq!(classify(Some(10), true, false), DaemonState::RunningUnhealthy);
    assert_eq!(classify(Some(10), true, true), DaemonState::RunningHealthy);
}

#[test]
fn running_means_alive_and_healthy() {
    assert!(is_server_running(Some(10), true, true));
    assert!(!is_server_running(Some(10), true, false));
    assert!(!is_server_running(Some(10), false, true));
    assert!(!is_server_running(None, true, true));
}

#[test]
fn ensure_is_a_no_op_only_on_healthy() {
    assert_eq!(ensure_server(DaemonState::RunningHealthy), EnsureAction::NoOp);
    assert_eq!(ensure_server(DaemonState::RunningUnhealthy), EnsureAction::StartDaemon);
    assert_eq!(ensure_server(DaemonState::StaleHandle), EnsureAction::StartDaemon);
    assert_eq!(ensure_server(DaemonState::NotRunning), EnsureAction::StartDaemon);
}

#[test]
fn double_ensure_on_healthy_daemon_spawns_nothing() {
    // first ensure: healthy, so no spawn and nothing is mutated
    let pid = Some(4321);
    let first = ensure_server(classify(pid, true, true));
    assert_eq!(first, EnsureAction::NoOp);
    // a no-op leaves the PID file and process as they were, so the second
    // ensure observes the same values and spawns nothing either
    let second = ensure_server(classify(pid, true, true));
    assert_eq!(second, EnsureAction::NoOp);
}

#[test]
fn stop_on_live_daemon_signals_and_removes() {
    assert_eq!(stop_decision(Some(10), true), StopAction::SignalAndRemovePid);
}

#[test]
fn stop_on_stale_pid_removes_without_signal() {
    assert_eq!(stop_decision(Some(10), false), StopAction::RemoveStalePid);
}

#[test]
fn stop_without_pid_file_only_reports() {
    assert_eq!(stop_decision(None, false), StopAction::ReportNotRunning);
}

#[test]
fn start_probe_is_reported_not_enforced() {
    assert_eq!(start_report(true), StartReport::Started);
    assert_eq!(start_report(false), StartReport::StartedUnverified);
}

#[test]
fn serve_command_line() {
    assert_eq!(serve_args(3000), vec!["serve-notifications", "--notify-port", "3000"]);
}

#[test]
fn health_probe_url() {
    assert_eq!(health_url(8125), "http://127.0.0.1:8125/health");
}

#[test]
fn decimal_rendering() {
    assert_eq!(u16_string(0), "0");
    assert_eq!(u16_string(7), "7");
    assert_eq!(u16_string(3000), "3000");
    assert_eq!(u16_string(65535), "65535");
}

#[test]
fn pid_parsing_accepts_trimmed_integers() {
    assert_eq!(parse_u32("1234"), Some(1234));
    assert_eq!(parse_u32(" 42\n"), Some(42));
    assert_eq!(parse_u32("0012"), Some(12));
    assert_eq!(parse_u32("4294967295"), Some(u32::MAX));
}

#[test]
fn pid_parsing_rejects_garbage() {
    assert_eq!(parse_u32(""), None);
    assert_eq!(parse_u32("  \n"), None);
    assert_eq!(parse_u32("abc"), None);
    assert_eq!(parse_u32("12a"), None);
    assert_eq!(parse_u32("-5"), None);
    assert_eq!(parse_u32("4294967296"), None);
    assert_eq!(parse_u32("99999999999999999999"), None);
}
