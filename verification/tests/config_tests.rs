use ai_pod::config::AppConfig;

#[test]
fn paths_derive_from_home() {
    let c = AppConfig::new("/home/user");
    assert_eq!(c.home_dir, "/home/user");
    assert_eq!(c.config_dir, "/home/user/.ai-pod");
    assert_eq!(c.dockerfile_path, "/home/user/.ai-pod/Dockerfile");
    assert_eq!(c.pid_file, "/home/user/.ai-pod/server.pid");
    assert_eq!(c.log_file, "/home/user/.ai-pod/server.log");
    assert_eq!(c.hash_file, "/home/user/.ai-pod/image.sha256");
    assert_eq!(c.runtime_settings, "/home/user/.ai-pod/runtime-settings.json");
    assert_eq!(c.runtime_notes_md, "/home/user/.ai-pod/runtime-NOTES.md");
}

#[test]
fn merged_file_sources_live_under_home() {
    let c = AppConfig::new("/home/user");
    assert_eq!(c.user_settings_path(), "/home/user/.config/ai-pod/settings.json");
    assert_eq!(c.user_notes_path(), "/home/user/.config/ai-pod/NOTES.md");
}
