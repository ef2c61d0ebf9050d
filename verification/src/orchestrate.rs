//! The launch flow: one pure decision over everything observed at entry.
//! Within one invocation the steps run strictly in this order: image gate,
//! then daemon ensure, then the container lifecycle dispatch. The caller
//! gathers the observations, asks for the plan, and executes it in that
//! order.

use crate::container::spec_launch_actions;
use crate::container::spec_observe;
use crate::container::launch_actions;
use crate::container::observe_state;
use crate::container::ContainerAction;
use crate::image::needs_build;
use crate::image::spec_needs_build;
use crate::supervisor::classify;
use crate::supervisor::ensure_server;
use crate::supervisor::spec_classify;
use vstd::prelude::*;

verus! {

/// Everything one launch observes before mutating anything: the rebuild
/// flag, the image and its persisted digest record, the current recipe
/// digest, the daemon's PID file and probe answers, and the container
/// probes.
pub struct LaunchObservation {
    pub force_rebuild: bool,
    pub image_exists: bool,
    pub stored_digest: Option<String>,
    pub recipe_digest: String,
    pub daemon_pid: Option<u32>,
    pub daemon_alive: bool,
    pub daemon_healthy: bool,
    pub container_exists: bool,
    pub container_running: bool,
}

/// What one launch does, in order: rebuild the image or not, start the
/// daemon or not, then the container operations.
pub struct LaunchPlan {
    pub build_image: bool,
    pub start_daemon: bool,
    pub container_actions: Vec<ContainerAction>,
}

/// Decides the whole launch from the observations: the image is rebuilt
/// exactly when the cache gate says so, the daemon is started exactly when
/// it is not healthy, and the container dispatch follows the observed
/// lifecycle state.
pub fn launch_plan(obs: &LaunchObservation) -> (r: LaunchPlan)
    ensures
        r.build_image == spec_needs_build(
            obs.force_rebuild,
            obs.image_exists,
            obs.stored_digest.deep_view(),
            obs.recipe_digest@,
        ),
        r.start_daemon == !(spec_classify(obs.daemon_pid, obs.daemon_alive, obs.daemon_healthy)
            is RunningHealthy),
        r.container_actions@ == spec_launch_actions(
            spec_observe(obs.container_exists, obs.container_running),
        ),
{
    let build_image = needs_build(
        obs.force_rebuild,
        obs.image_exists,
        &obs.stored_digest,
        &obs.recipe_digest,
    );
    let daemon_state = classify(obs.daemon_pid, obs.daemon_alive, obs.daemon_healthy);
    let start_daemon = match ensure_server(daemon_state) {
        crate::supervisor::EnsureAction::NoOp => false,
        crate::supervisor::EnsureAction::StartDaemon => true,
    };
    let state = observe_state(obs.container_exists, obs.container_running);
    let container_actions = launch_actions(state);
    LaunchPlan { build_image, start_daemon, container_actions }
}

} // verus!
