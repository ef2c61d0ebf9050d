use ai_pod::config::AppConfig;
use ai_pod::container::{
    attach_args, clean_actions, copy_notes_args, copy_settings_args, create_args,
    exists_query_args, launch_actions, list_args, observe_state, rm_args, running_query_args,
    start_args, stop_args, volume_rm_args, CleanAction, ContainerAction, ContainerState,
};

#[test]
fn probes_fold_into_state() {
    assert_eq!(observe_state(false, false), ContainerState::Absent);
    assert_eq!(observe_state(false, true), ContainerState::Absent);
    assert_eq!(observe_state(true, false), ContainerState::Stopped);
    assert_eq!(observe_state(true, true), ContainerState::Running);
}

#[test]
fn launch_from_absent_creates_once_then_attaches() {
    let v = launch_actions(ContainerState::Absent);
    assert_eq!(
        v,
        vec![ContainerAction::Create, ContainerAction::CopyContext, ContainerAction::Attach]
    );
}

#[test]
fn launch_from_stopped_starts_but_never_creates() {
    let v = launch_actions(ContainerState::Stopped);
    assert_eq!(v, vec![ContainerAction::Start, ContainerAction::Attach]);
    assert!(!v.contains(&ContainerAction::Create));
}

#[test]
fn launch_from_running_only_attaches() {
    let v = launch_actions(ContainerState::Running);
    assert_eq!(v, vec![ContainerAction::Attach]);
}

#[test]
fn clean_without_container_mutates_nothing() {
    assert_eq!(clean_actions(false, false), Vec::<CleanAction>::new());
    assert_eq!(clean_actions(false, true), Vec::<CleanAction>::new());
}

#[test]
fn clean_running_container_stops_first() {
    assert_eq!(
        clean_actions(true, true),
        vec![CleanAction::Stop, CleanAction::Remove, CleanAction::RemoveVolume]
    );
}

#[test]
fn clean_stopped_container_removes_and_drops_volume() {
    assert_eq!(clean_actions(true, false), vec![CleanAction::Remove, CleanAction::RemoveVolume]);
}

#[test]
fn exists_query_command_line() {
    assert_eq!(
        exists_query_args("aipod-0a1b2c3d4e5f"),
        vec!["ps", "-a", "--filter", "name=^aipod-0a1b2c3d4e5f$", "--format", "{{.Names}}"]
    );
}

#[test]
fn running_query_command_line() {
    assert_eq!(
        running_query_args("aipod-0a1b2c3d4e5f"),
        vec!["ps", "--filter", "name=^aipod-0a1b2c3d4e5f$", "--format", "{{.Names}}"]
    );
}

#[test]
fn create_command_line() {
    let v = create_args("/home/user/project", "aipod-0a1b2c3d4e5f", 3000);
    assert_eq!(
        v,
        vec![
            "run",
            "-dit",
            "--init",
            "--name",
            "aipod-0a1b2c3d4e5f",
            "-v",
            "/home/user/project:/app:Z",
            "-v",
            "aipod-0a1b2c3d4e5f-data:/home/dev/.ai-pod",
            "--add-host=host.containers.internal:host-gateway",
            "-e",
            "HOST_GATEWAY=host.containers.internal",
            "-e",
            "NOTIFY_URL=http://host.containers.internal:3000/notify",
            "ai-pod:latest"
        ]
    );
}

#[test]
fn copy_command_lines() {
    let c = AppConfig::new("/home/user");
    assert_eq!(
        copy_notes_args(&c, "aipod-0a1b2c3d4e5f"),
        vec![
            "cp",
            "/home/user/.ai-pod/runtime-NOTES.md",
            "aipod-0a1b2c3d4e5f:/home/dev/.ai-pod/NOTES.md"
        ]
    );
    assert_eq!(
        copy_settings_args(&c, "aipod-0a1b2c3d4e5f"),
        vec![
            "cp",
            "/home/user/.ai-pod/runtime-settings.json",
            "aipod-0a1b2c3d4e5f:/home/dev/.ai-pod/settings.json"
        ]
    );
}

#[test]
fn small_command_lines() {
    assert_eq!(start_args("aipod-aa"), vec!["start", "aipod-aa"]);
    assert_eq!(attach_args("aipod-aa"), vec!["attach", "aipod-aa"]);
    assert_eq!(stop_args("aipod-aa"), vec!["stop", "aipod-aa"]);
    assert_eq!(rm_args("aipod-aa"), vec!["rm", "aipod-aa"]);
    assert_eq!(volume_rm_args("aipod-aa"), vec!["volume", "rm", "aipod-aa-data"]);
}

#[test]
fn list_command_line() {
    assert_eq!(
        list_args(),
        vec![
            "ps",
            "-a",
            "--filter",
            "name=^aipod-",
            "--format",
            "{{.Names}}\t{{.Status}}\t{{.CreatedAt}}"
        ]
    );
}
