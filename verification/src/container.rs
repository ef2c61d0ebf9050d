//! Container lifecycle controller: the state machine over {Absent, Stopped,
//! Running} that decides, for one launch, which runtime operations run and in
//! which order, together with the exact command lines for each operation.

use crate::config::AppConfig;
use crate::identity::spec_volume_name;
use crate::identity::volume_name;
use crate::image::IMAGE_NAME;
use crate::text::spec_udec;
use crate::text::u16_string;
use vstd::prelude::*;
use vstd::string::*;

verus! {

/// Lifecycle state of the sandbox container, as the runtime reports it.
#[derive(PartialEq, Eq, Structural, Clone, Copy, Debug)]
pub enum ContainerState {
    Absent,
    Stopped,
    Running,
}

/// One runtime operation of a launch, in the order the controller runs them.
/// `CopyContext` copies the two materialized context files into a container
/// that was just created; it must come after `Create` and before `Attach`.
#[derive(PartialEq, Eq, Structural, Clone, Copy, Debug)]
pub enum ContainerAction {
    Create,
    CopyContext,
    Start,
    Attach,
}

/// One runtime operation of a clean.
#[derive(PartialEq, Eq, Structural, Clone, Copy, Debug)]
pub enum CleanAction {
    Stop,
    Remove,
    RemoveVolume,
}

/// State derived from the two runtime probes. A "running" report for a
/// container that does not exist is never read: absence wins.
pub open spec fn spec_observe(exists: bool, running: bool) -> ContainerState {
    if !exists {
        ContainerState::Absent
    } else if running {
        ContainerState::Running
    } else {
        ContainerState::Stopped
    }
}

/// Folds the two probe answers into a lifecycle state.
pub fn observe_state(exists: bool, running: bool) -> (r: ContainerState)
    ensures
        r == spec_observe(exists, running),
{
    if !exists {
        ContainerState::Absent
    } else if running {
        ContainerState::Running
    } else {
        ContainerState::Stopped
    }
}

/// The launch dispatch: create-if-absent, start-if-stopped, attach-always.
pub open spec fn spec_launch_actions(s: ContainerState) -> Seq<ContainerAction> {
    match s {
        ContainerState::Absent => seq![
            ContainerAction::Create,
            ContainerAction::CopyContext,
            ContainerAction::Attach,
        ],
        ContainerState::Stopped => seq![ContainerAction::Start, ContainerAction::Attach],
        ContainerState::Running => seq![ContainerAction::Attach],
    }
}

/// The operations one launch performs, given the observed state.
pub fn launch_actions(s: ContainerState) -> (r: Vec<ContainerAction>)
    ensures
        r@ == spec_launch_actions(s),
{
    let mut v: Vec<ContainerAction> = Vec::new();
    match s {
        ContainerState::Absent => {
            v.push(ContainerAction::Create);
            v.push(ContainerAction::CopyContext);
            v.push(ContainerAction::Attach);
        },
        ContainerState::Stopped => {
            v.push(ContainerAction::Start);
            v.push(ContainerAction::Attach);
        },
        ContainerState::Running => {
            v.push(ContainerAction::Attach);
        },
    }
    proof {
        assert(v@ =~= spec_launch_actions(s));
    }
    v
}

/// How one action moves the lifecycle state. Creation (`run -dit`) leaves a
/// running container; copying files and attaching do not change the state.
pub open spec fn spec_apply_action(s: ContainerState, a: ContainerAction) -> ContainerState {
    match a {
        ContainerAction::Create => ContainerState::Running,
        ContainerAction::CopyContext => s,
        ContainerAction::Start => ContainerState::Running,
        ContainerAction::Attach => s,
    }
}

/// State after a sequence of actions.
pub open spec fn spec_apply_actions(s: ContainerState, actions: Seq<ContainerAction>) -> ContainerState
    decreases actions.len(),
{
    if actions.len() == 0 {
        s
    } else {
        spec_apply_actions(spec_apply_action(s, actions.first()), actions.drop_first())
    }
}

/// Occurrences of a value in a sequence.
pub open spec fn spec_count<A>(s: Seq<A>, x: A) -> nat
    decreases s.len(),
{
    if s.len() == 0 {
        0
    } else {
        spec_count(s.drop_last(), x) + if s.last() == x {
            1nat
        } else {
            0nat
        }
    }
}

proof fn lemma_unroll3(a: ContainerAction, b: ContainerAction, c: ContainerAction)
    ensures
        seq![a, b, c].drop_last() =~= seq![a, b],
        seq![a, b].drop_last() =~= seq![a],
        seq![a].drop_last() =~= Seq::<ContainerAction>::empty(),
        seq![a, b, c].drop_first() =~= seq![b, c],
        seq![a, b].drop_first() =~= seq![b],
        seq![a].drop_first() =~= Seq::<ContainerAction>::empty(),
{
}

/// The launch dispatch law: from any observed state, the planned actions end
/// with the container running and attached; creation happens exactly once
/// from `Absent` and never otherwise; a start happens exactly once from
/// `Stopped` and never otherwise; attaching happens exactly once, last.
pub proof fn lemma_launch_dispatch(s: ContainerState)
    ensures
        spec_apply_actions(s, spec_launch_actions(s)) == ContainerState::Running,
        spec_count(spec_launch_actions(s), ContainerAction::Create) == if s is Absent {
            1nat
        } else {
            0nat
        },
        spec_count(spec_launch_actions(s), ContainerAction::Start) == if s is Stopped {
            1nat
        } else {
            0nat
        },
        spec_count(spec_launch_actions(s), ContainerAction::Attach) == 1,
        spec_launch_actions(s).last() == ContainerAction::Attach,
{
    reveal_with_fuel(spec_apply_actions, 5);
    reveal_with_fuel(spec_count, 5);
    match s {
        ContainerState::Absent => {
            lemma_unroll3(
                ContainerAction::Create,
                ContainerAction::CopyContext,
                ContainerAction::Attach,
            );
            lemma_unroll3(
                ContainerAction::CopyContext,
                ContainerAction::Attach,
                ContainerAction::Attach,
            );
            lemma_unroll3(ContainerAction::Attach, ContainerAction::Attach, ContainerAction::Attach);
        },
        ContainerState::Stopped => {
            lemma_unroll3(ContainerAction::Start, ContainerAction::Attach, ContainerAction::Attach);
            lemma_unroll3(ContainerAction::Attach, ContainerAction::Attach, ContainerAction::Attach);
        },
        ContainerState::Running => {
            lemma_unroll3(ContainerAction::Attach, ContainerAction::Attach, ContainerAction::Attach);
        },
    }
}

/// The clean dispatch: nothing for a container that does not exist; a stop
/// first when it is running; then removal of the container and its volume.
pub open spec fn spec_clean_actions(exists: bool, running: bool) -> Seq<CleanAction> {
    if !exists {
        Seq::empty()
    } else if running {
        seq![CleanAction::Stop, CleanAction::Remove, CleanAction::RemoveVolume]
    } else {
        seq![CleanAction::Remove, CleanAction::RemoveVolume]
    }
}

/// The operations one clean performs. On a workspace with no container this
/// is empty: clean then only reports and mutates nothing.
pub fn clean_actions(exists: bool, running: bool) -> (r: Vec<CleanAction>)
    ensures
        r@ == spec_clean_actions(exists, running),
        !exists ==> r@.len() == 0,
{
    let mut v: Vec<CleanAction> = Vec::new();
    if exists {
        if running {
            v.push(CleanAction::Stop);
        }
        v.push(CleanAction::Remove);
        v.push(CleanAction::RemoveVolume);
    }
    proof {
        assert(v@ =~= spec_clean_actions(exists, running));
    }
    v
}

/// Command line for querying whether a container with this exact name exists,
/// in any state.
pub fn exists_query_args(name: &str) -> (r: Vec<String>)
    ensures
        r@.len() == 6,
        r@[0]@ == "ps"@,
        r@[1]@ == "-a"@,
        r@[2]@ == "--filter"@,
        r@[3]@ == "name=^"@ + name@ + "$"@,
        r@[4]@ == "--format"@,
        r@[5]@ == "{{.Names}}"@,
{
    let mut v: Vec<String> = Vec::new();
    v.push("ps".to_owned());
    v.push("-a".to_owned());
    v.push("--filter".to_owned());
    v.push("name=^".to_owned().concat(name).concat("$"));
    v.push("--format".to_owned());
    v.push("{{.Names}}".to_owned());
    v
}

/// Command line for querying whether a container with this exact name is
/// running.
pub fn running_query_args(name: &str) -> (r: Vec<String>)
    ensures
        r@.len() == 5,
        r@[0]@ == "ps"@,
        r@[1]@ == "--filter"@,
        r@[2]@ == "name=^"@ + name@ + "$"@,
        r@[3]@ == "--format"@,
        r@[4]@ == "{{.Names}}"@,
{
    let mut v: Vec<String> = Vec::new();
    v.push("ps".to_owned());
    v.push("--filter".to_owned());
    v.push("name=^".to_owned().concat(name).concat("$"));
    v.push("--format".to_owned());
    v.push("{{.Names}}".to_owned());
    v
}

/// The callback URL the sandbox uses to reach the daemon on the host.
pub open spec fn spec_notify_url(port: u16) -> Seq<char> {
    "http://host.containers.internal:"@ + spec_udec(port as nat) + "/notify"@
}

/// Command line for creating the sandbox container: detached and
/// interactive, with the workspace mounted, the persistent data volume
/// mounted, the host-gateway alias added, and the callback environment
/// handed in.
pub fn create_args(workspace: &str, name: &str, port: u16) -> (r: Vec<String>)
    ensures
        r@.len() == 15,
        r@[0]@ == "run"@,
        r@[1]@ == "-dit"@,
        r@[2]@ == "--init"@,
        r@[3]@ == "--name"@,
        r@[4]@ == name@,
        r@[5]@ == "-v"@,
        r@[6]@ == workspace@ + ":/app:Z"@,
        r@[7]@ == "-v"@,
        r@[8]@ == spec_volume_name(name@) + ":/home/dev/.ai-pod"@,
        r@[9]@ == "--add-host=host.containers.internal:host-gateway"@,
        r@[10]@ == "-e"@,
        r@[11]@ == "HOST_GATEWAY=host.containers.internal"@,
        r@[12]@ == "-e"@,
        r@[13]@ == "NOTIFY_URL="@ + spec_notify_url(port),
        r@[14]@ == IMAGE_NAME@,
{
    let mut v: Vec<String> = Vec::new();
    v.push("run".to_owned());
    v.push("-dit".to_owned());
    v.push("--init".to_owned());
    v.push("--name".to_owned());
    v.push(name.to_owned());
    v.push("-v".to_owned());
    v.push(workspace.to_owned().concat(":/app:Z"));
    v.push("-v".to_owned());
    v.push(volume_name(name).concat(":/home/dev/.ai-pod"));
    v.push("--add-host=host.containers.internal:host-gateway".to_owned());
    v.push("-e".to_owned());
    v.push("HOST_GATEWAY=host.containers.internal".to_owned());
    v.push("-e".to_owned());
    let url = "http://host.containers.internal:".to_owned().concat(
        u16_string(port).as_str(),
    ).concat("/notify");
    v.push("NOTIFY_URL=".to_owned().concat(url.as_str()));
    v.push(IMAGE_NAME.to_owned());
    v
}

/// Command line for copying the merged notes file into a new container.
pub fn copy_notes_args(config: &AppConfig, name: &str) -> (r: Vec<String>)
    ensures
        r@.len() == 3,
        r@[0]@ == "cp"@,
        r@[1]@ == config.runtime_notes_md@,
        r@[2]@ == name@ + ":/home/dev/.ai-pod/NOTES.md"@,
{
    let mut v: Vec<String> = Vec::new();
    v.push("cp".to_owned());
    v.push(config.runtime_notes_md.clone());
    v.push(name.to_owned().concat(":/home/dev/.ai-pod/NOTES.md"));
    v
}

/// Command line for copying the merged settings file into a new container.
pub fn copy_settings_args(config: &AppConfig, name: &str) -> (r: Vec<String>)
    ensures
        r@.len() == 3,
        r@[0]@ == "cp"@,
        r@[1]@ == config.runtime_settings@,
        r@[2]@ == name@ + ":/home/dev/.ai-pod/settings.json"@,
{
    let mut v: Vec<String> = Vec::new();
    v.push("cp".to_owned());
    v.push(config.runtime_settings.clone());
    v.push(name.to_owned().concat(":/home/dev/.ai-pod/settings.json"));
    v
}

/// Command line for starting a stopped container.
pub fn start_args(name: &str) -> (r: Vec<String>)
    ensures
        r@.len() == 2,
        r@[0]@ == "start"@,
        r@[1]@ == name@,
{
    let mut v: Vec<String> = Vec::new();
    v.push("start".to_owned());
    v.push(name.to_owned());
    v
}

/// Command line for attaching to a running container (interactive hand-off).
pub fn attach_args(name: &str) -> (r: Vec<String>)
    ensures
        r@.len() == 2,
        r@[0]@ == "attach"@,
        r@[1]@ == name@,
{
    let mut v: Vec<String> = Vec::new();
    v.push("attach".to_owned());
    v.push(name.to_owned());
    v
}

/// Command line for stopping a running container.
pub fn stop_args(name: &str) -> (r: Vec<String>)
    ensures
        r@.len() == 2,
        r@[0]@ == "stop"@,
        r@[1]@ == name@,
{
    let mut v: Vec<String> = Vec::new();
    v.push("stop".to_owned());
    v.push(name.to_owned());
    v
}

/// Command line for removing a container.
pub fn rm_args(name: &str) -> (r: Vec<String>)
    ensures
        r@.len() == 2,
        r@[0]@ == "rm"@,
        r@[1]@ == name@,
{
    let mut v: Vec<String> = Vec::new();
    v.push("rm".to_owned());
    v.push(name.to_owned());
    v
}

/// Command line for removing a container's data volume.
pub fn volume_rm_args(name: &str) -> (r: Vec<String>)
    ensures
        r@.len() == 3,
        r@[0]@ == "volume"@,
        r@[1]@ == "rm"@,
        r@[2]@ == spec_volume_name(name@),
{
    let mut v: Vec<String> = Vec::new();
    v.push("volume".to_owned());
    v.push("rm".to_owned());
    v.push(volume_name(name));
    v
}

/// Command line for listing every container that follows this tool's naming
/// convention, with name, status and creation time.
pub fn list_args() -> (r: Vec<String>)
    ensures
        r@.len() == 6,
        r@[0]@ == "ps"@,
        r@[1]@ == "-a"@,
        r@[2]@ == "--filter"@,
        r@[3]@ == "name=^aipod-"@,
        r@[4]@ == "--format"@,
        r@[5]@ == "{{.Names}}\t{{.Status}}\t{{.CreatedAt}}"@,
{
    let mut v: Vec<String> = Vec::new();
    v.push("ps".to_owned());
    v.push("-a".to_owned());
    v.push("--filter".to_owned());
    v.push("name=^aipod-".to_owned());
    v.push("--format".to_owned());
    v.push("{{.Names}}\t{{.Status}}\t{{.CreatedAt}}".to_owned());
    v
}

} // verus!
