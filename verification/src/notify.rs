//! Notification dispatch: choosing a desktop-notification backend and
//! assembling the exact command handed to it. Delivery is fire-and-forget;
//! probing for the backends and running the command happen outside.

use vstd::prelude::*;
use vstd::string::*;

verus! {

/// The desktop-notification backend available on this host.
#[derive(PartialEq, Eq, Structural, Clone, Copy, Debug)]
pub enum NotifyBackend {
    OsaScript,
    NotifySend,
    Unavailable,
}

/// Backend choice: the script runner is preferred; the send tool is the
/// fallback; otherwise delivery is unavailable and only logged.
pub open spec fn spec_detect_backend(has_osascript: bool, has_notify_send: bool) -> NotifyBackend {
    if has_osascript {
        NotifyBackend::OsaScript
    } else if has_notify_send {
        NotifyBackend::NotifySend
    } else {
        NotifyBackend::Unavailable
    }
}

/// Chooses the backend from the two probe answers.
pub fn detect_backend(has_osascript: bool, has_notify_send: bool) -> (r: NotifyBackend)
    ensures
        r == spec_detect_backend(has_osascript, has_notify_send),
{
    if has_osascript {
        NotifyBackend::OsaScript
    } else if has_notify_send {
        NotifyBackend::NotifySend
    } else {
        NotifyBackend::Unavailable
    }
}

/// The input with every double quote preceded by a backslash.
pub open spec fn spec_escape_quotes(s: Seq<char>) -> Seq<char>
    decreases s.len(),
{
    if s.len() == 0 {
        s
    } else {
        spec_escape_quotes(s.drop_last()) + if s.last() == '"' {
            seq!['\\', '"']
        } else {
            seq![s.last()]
        }
    }
}

/// Escapes double quotes so the text can stand inside a quoted script
/// argument.
pub fn escape_quotes(s: &str) -> (r: String)
    ensures
        r@ == spec_escape_quotes(s@),
{
    let len = s.unicode_len();
    let mut out = String::new();
    proof {
        assert(s@.take(0) =~= Seq::<char>::empty());
    }
    let mut i: usize = 0;
    while i < len
        invariant
            i <= len,
            len == s@.len(),
            out@ == spec_escape_quotes(s@.take(i as int)),
        decreases len - i,
    {
        let c = s.get_char(i);
        proof {
            assert(s@.take(i as int + 1).drop_last() =~= s@.take(i as int));
            assert(s@.take(i as int + 1).last() == s@[i as int]);
        }
        if c == '"' {
            out.append("\\\"");
            proof {
                reveal_strlit("\\\"");
                assert("\\\""@ =~= seq!['\\', '"']);
            }
        } else {
            let piece = s.substring_char(i, i + 1);
            out.append(piece);
            proof {
                assert(s@.subrange(i as int, i as int + 1) =~= seq![s@[i as int]]);
            }
        }
        i += 1;
    }
    proof {
        assert(s@.take(len as int) =~= s@);
    }
    out
}

/// The script handed to the script runner for one notification.
pub open spec fn spec_osascript_script(title: Seq<char>, message: Seq<char>) -> Seq<char> {
    "display notification \""@ + spec_escape_quotes(message) + "\" with title \""@
        + spec_escape_quotes(title) + "\""@
}

/// Builds the notification script, quoting the title and message.
pub fn osascript_script(title: &str, message: &str) -> (r: String)
    ensures
        r@ == spec_osascript_script(title@, message@),
{
    "display notification \"".to_owned().concat(escape_quotes(message).as_str()).concat(
        "\" with title \"",
    ).concat(escape_quotes(title).as_str()).concat("\"")
}

/// The command for delivering one notification: a program and its arguments,
/// or nothing when no backend is available.
pub fn notification_command(backend: NotifyBackend, title: &str, message: &str) -> (r: Option<
    (String, Vec<String>),
>)
    ensures
        backend is OsaScript ==> {
            let (prog, args) = r.unwrap();
            &&& r is Some
            &&& prog@ == "osascript"@
            &&& args@.len() == 2
            &&& args@[0]@ == "-e"@
            &&& args@[1]@ == spec_osascript_script(title@, message@)
        },
        backend is NotifySend ==> {
            let (prog, args) = r.unwrap();
            &&& r is Some
            &&& prog@ == "notify-send"@
            &&& args@.len() == 2
            &&& args@[0]@ == title@
            &&& args@[1]@ == message@
        },
        backend is Unavailable ==> r is None,
{
    match backend {
        NotifyBackend::OsaScript => {
            let mut args: Vec<String> = Vec::new();
            args.push("-e".to_owned());
            args.push(osascript_script(title, message));
            Some(("osascript".to_owned(), args))
        },
        NotifyBackend::NotifySend => {
            let mut args: Vec<String> = Vec::new();
            args.push(title.to_owned());
            args.push(message.to_owned());
            Some(("notify-send".to_owned(), args))
        },
        NotifyBackend::Unavailable => None,
    }
}

} // verus!
