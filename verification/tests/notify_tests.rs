use ai_pod::notify::{
    detect_backend, escape_quotes, notification_command, osascript_script, NotifyBackend,
};

#[test]
fn backend_priority() {
    assert_eq!(detect_backend(true, true), NotifyBackend::OsaScript);
    assert_eq!(detect_backend(true, false), NotifyBackend::OsaScript);
    assert_eq!(detect_backend(false, true), NotifyBackend::NotifySend);
    assert_eq!(detect_backend(false, false), NotifyBackend::Unavailable);
}

#[test]
fn quotes_are_escaped() {
    assert_eq!(escape_quotes("no quotes"), "no quotes");
    assert_eq!(escape_quotes("say \"hi\""), "say \\\"hi\\\"");
    assert_eq!(escape_quotes("\""), "\\\"");
    assert_eq!(escape_quotes(""), "");
}

#[test]
fn script_quotes_title_and_message() {
    assert_eq!(
        osascript_script("Tool", "Task completed."),
        "display notification \"Task completed.\" with title \"Tool\""
    );
    assert_eq!(
        osascript_script("T\"t", "M"),
        "display notification \"M\" with title \"T\\\"t\""
    );
}

#[test]
fn script_backend_command() {
    let (prog, args) = notification_command(NotifyBackend::OsaScript, "Tool", "Done").unwrap();
    assert_eq!(prog, "osascript");
    assert_eq!(args, vec!["-e", "display notification \"Done\" with title \"Tool\""]);
}

#[test]
fn send_backend_command() {
    let (prog, args) = notification_command(NotifyBackend::NotifySend, "Tool", "Done").unwrap();
    assert_eq!(prog, "notify-send");
    assert_eq!(args, vec!["Tool", "Done"]);
}

#[test]
fn unavailable_backend_has_no_command() {
    assert!(notification_command(NotifyBackend::Unavailable, "Tool", "Done").is_none());
}
