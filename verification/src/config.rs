//! On-disk locations used by the tool, all derived from the home directory.

use vstd::prelude::*;
use vstd::string::*;

verus! {

/// The paths the tool works with: the configuration directory, the image
/// recipe, the daemon's PID and log files, the persisted image digest, and
/// the two runtime context files copied into a freshly created container.
pub struct AppConfig {
    pub home_dir: String,
    pub config_dir: String,
    pub dockerfile_path: String,
    pub pid_file: String,
    pub log_file: String,
    pub hash_file: String,
    pub runtime_settings: String,
    pub runtime_notes_md: String,
}

impl AppConfig {
    /// Every path hangs off the configuration directory, which hangs off the
    /// home directory.
    pub open spec fn wf(&self) -> bool {
        &&& self.config_dir@ == self.home_dir@ + "/.ai-pod"@
        &&& self.dockerfile_path@ == self.config_dir@ + "/Dockerfile"@
        &&& self.pid_file@ == self.config_dir@ + "/server.pid"@
        &&& self.log_file@ == self.config_dir@ + "/server.log"@
        &&& self.hash_file@ == self.config_dir@ + "/image.sha256"@
        &&& self.runtime_settings@ == self.config_dir@ + "/runtime-settings.json"@
        &&& self.runtime_notes_md@ == self.config_dir@ + "/runtime-NOTES.md"@
    }

    /// Derives every path from the home directory. Total: path derivation
    /// itself has no failure mode.
    pub fn new(home_dir: &str) -> (r: AppConfig)
        ensures
            r.wf(),
            r.home_dir@ == home_dir@,
    {
        let config_dir = home_dir.to_owned().concat("/.ai-pod");
        AppConfig {
            home_dir: home_dir.to_owned(),
            dockerfile_path: config_dir.clone().concat("/Dockerfile"),
            pid_file: config_dir.clone().concat("/server.pid"),
            log_file: config_dir.clone().concat("/server.log"),
            hash_file: config_dir.clone().concat("/image.sha256"),
            runtime_settings: config_dir.clone().concat("/runtime-settings.json"),
            runtime_notes_md: config_dir.clone().concat("/runtime-NOTES.md"),
            config_dir,
        }
    }

    /// Host path of the user's settings file merged into the sandbox.
    pub fn user_settings_path(&self) -> (r: String)
        ensures
            r@ == self.home_dir@ + "/.config/ai-pod/settings.json"@,
    {
        self.home_dir.clone().concat("/.config/ai-pod/settings.json")
    }

    /// Host path of the user's notes file merged into the sandbox.
    pub fn user_notes_path(&self) -> (r: String)
        ensures
            r@ == self.home_dir@ + "/.config/ai-pod/NOTES.md"@,
    {
        self.home_dir.clone().concat("/.config/ai-pod/NOTES.md")
    }
}

} // verus!
