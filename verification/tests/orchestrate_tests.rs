use ai_pod::container::ContainerAction;
use ai_pod::image::hash_recipe;
use ai_pod::orchestrate::{launch_plan, LaunchObservation};

fn fresh_environment(recipe_digest: String) -> LaunchObservation {
    LaunchObservation {
        force_rebuild: false,
        image_exists: false,
        stored_digest: None,
        recipe_digest,
        daemon_pid: None,
        daemon_alive: false,
        daemon_healthy: false,
        container_exists: false,
        container_running: false,
    }
}

#[test]
fn fresh_launch_builds_starts_daemon_creates_and_attaches() {
    let digest = hash_recipe(b"FROM a");
    let plan = launch_plan(&fresh_environment(digest));
    assert!(plan.build_image);
    assert!(plan.start_daemon);
    assert_eq!(
        plan.container_actions,
        vec![ContainerAction::Create, ContainerAction::CopyContext, ContainerAction::Attach]
    );
}

#[test]
fn second_launch_reuses_everything() {
    let digest = hash_recipe(b"FROM a");
    // after the first launch: the image was built and its digest persisted,
    // the daemon is up and healthy, and the container exists but stopped
    // when the interactive session ended
    let obs = LaunchObservation {
        force_rebuild: false,
        image_exists: true,
        stored_digest: Some(digest.clone()),
        recipe_digest: digest,
        daemon_pid: Some(4321),
        daemon_alive: true,
        daemon_healthy: true,
        container_exists: true,
        container_running: false,
    };
    let plan = launch_plan(&obs);
    assert!(!plan.build_image);
    assert!(!plan.start_daemon);
    assert_eq!(plan.container_actions, vec![ContainerAction::Start, ContainerAction::Attach]);
    assert!(!plan.container_actions.contains(&ContainerAction::Create));
}

#[test]
fn launch_on_running_container_attaches_directly() {
    let digest = hash_recipe(b"FROM a");
    let obs = LaunchObservation {
        force_rebuild: false,
        image_exists: true,
        stored_digest: Some(digest.clone()),
        recipe_digest: digest,
        daemon_pid: Some(4321),
        daemon_alive: true,
        daemon_healthy: true,
        container_exists: true,
        container_running: true,
    };
    let plan = launch_plan(&obs);
    assert!(!plan.build_image);
    assert!(!plan.start_daemon);
    assert_eq!(plan.container_actions, vec![ContainerAction::Attach]);
}

#[test]
fn recipe_change_between_launches_rebuilds() {
    let old_digest = hash_recipe(b"FROM a");
    let new_digest = hash_recipe(b"FROM a\nRUN true");
    let obs = LaunchObservation {
        force_rebuild: false,
        image_exists: true,
        stored_digest: Some(old_digest),
        recipe_digest: new_digest,
        daemon_pid: Some(4321),
        daemon_alive: true,
        daemon_healthy: true,
        container_exists: true,
        container_running: false,
    };
    let plan = launch_plan(&obs);
    assert!(plan.build_image);
}

#[test]
fn stale_daemon_is_restarted_on_launch() {
    let digest = hash_recipe(b"FROM a");
    let obs = LaunchObservation {
        force_rebuild: false,
        image_exists: true,
        stored_digest: Some(digest.clone()),
        recipe_digest: digest,
        daemon_pid: Some(4321),
        daemon_alive: false,
        daemon_healthy: false,
        container_exists: true,
        container_running: true,
    };
    let plan = launch_plan(&obs);
    assert!(plan.start_daemon);
}
