use pinentry_wukong::command::Command;
use pinentry_wukong::error::ErrorKind;
use pinentry_wukong::server::{Effect, HostInfo, PinentryServer, Reply, Step};
use pinentry_wukong::state::{ConfirmResult, GetPinResult, SecretBytes};

fn info() -> HostInfo {
    HostInfo { version: "1.2.3".to_string(), pid: 4242, flavor: "wukong:tty".to_string() }
}

fn is_ok(r: &Reply) -> bool {
    matches!(r, Reply::Success(None))
}

fn data_text(r: &Reply) -> String {
    match r {
        Reply::Data(bytes) => String::from_utf8(bytes.clone()).unwrap(),
        other => panic!("expected a data line, got {other:?}"),
    }
}

fn err_kind(r: &Reply) -> ErrorKind {
    match r {
        Reply::Failure(e) => e.kind,
        other => panic!("expected an error, got {other:?}"),
    }
}

fn ttyinfo(server: &mut PinentryServer) -> Step {
    server.handle_command(Command::GetInfo("ttyinfo".into()), &info())
}

#[test]
fn test_option_ttyname_conhost() {
    let mut server = PinentryServer::new(true, 60, false);
    assert!(server.handle_option("ttyname", "/conhost/1234").is_ok());
}

#[test]
fn test_option_ttyname_conhost_zero_pid() {
    let mut server = PinentryServer::new(true, 60, false);
    assert!(server.handle_option("ttyname", "/conhost/0").is_ok());
}

#[test]
fn test_option_ttyname_conhost_large_pid() {
    let mut server = PinentryServer::new(true, 60, false);
    assert!(server.handle_option("ttyname", "/conhost/4294967295").is_ok());
}

#[test]
fn test_option_ttyname_invalid_format() {
    let mut server = PinentryServer::new(true, 60, false);
    assert!(server.handle_option("ttyname", "not-a-valid-path").is_ok());
}

#[test]
fn test_getinfo_ttyinfo_after_ttyname() {
    let mut server = PinentryServer::new(true, 60, false);
    server.handle_option("ttyname", "/conhost/5678").unwrap();
    let step = ttyinfo(&mut server);
    assert_eq!(step.replies.len(), 2);
    let text = data_text(&step.replies[0]);
    assert!(text.contains("/conhost/5678"), "ttyinfo should contain /conhost/5678: {text}");
    assert!(is_ok(&step.replies[1]));
}

#[test]
fn test_getinfo_ttyinfo_default() {
    let mut server = PinentryServer::new(true, 60, false);
    let step = ttyinfo(&mut server);
    assert_eq!(step.replies.len(), 2);
    let text = data_text(&step.replies[0]);
    assert!(text.contains('-'), "ttyinfo should contain '-' for unset fields: {text}");
    assert!(is_ok(&step.replies[1]));
}

#[test]
fn ttyinfo_lists_the_terminal_fields() {
    let mut server = PinentryServer::new(true, 60, false);
    assert_eq!(data_text(&ttyinfo(&mut server).replies[0]), "- - - - -");
    server.handle_option("ttyname", "/dev/pts/3").unwrap();
    server.handle_option("ttytype", "xterm").unwrap();
    server.handle_option("display", ":0").unwrap();
    assert_eq!(data_text(&ttyinfo(&mut server).replies[0]), "/dev/pts/3 xterm :0 - -");
}

#[test]
fn getinfo_reports_version_pid_and_flavor() {
    let mut server = PinentryServer::new(true, 60, false);
    let step = server.handle_command(Command::GetInfo("pid".into()), &info());
    assert_eq!(data_text(&step.replies[0]), "4242");
    let step = server.handle_command(Command::GetInfo("version".into()), &info());
    assert_eq!(data_text(&step.replies[0]), "1.2.3");
    let step = server.handle_command(Command::GetInfo("flavor".into()), &info());
    assert_eq!(data_text(&step.replies[0]), "wukong:tty");
    let step = server.handle_command(Command::GetInfo("colour".into()), &info());
    assert_eq!(step.replies.len(), 1);
    assert_eq!(err_kind(&step.replies[0]), ErrorKind::InvalidParameter);
}

#[test]
fn greeting_and_unexpected_end() {
    match PinentryServer::greeting() {
        Reply::Success(Some(m)) => assert_eq!(m, "Pleased to meet you!"),
        other => panic!("unexpected greeting {other:?}"),
    }
    match PinentryServer::handle_end() {
        Reply::Failure(e) => {
            assert_eq!(e.kind, ErrorKind::General);
            assert_eq!(e.message.as_deref(), Some("unexpected END"));
        }
        other => panic!("unexpected reply {other:?}"),
    }
}

#[test]
fn unknown_option_is_refused_and_changes_nothing() {
    let mut server = PinentryServer::new(true, 60, false);
    let err = server.handle_option("colour", "blue").unwrap_err();
    assert_eq!(err.kind, ErrorKind::UnknownCommand);
    assert_eq!(err.message.as_deref(), Some("unknown option: colour"));
    assert!(server.state.grab);
    assert!(server.handle_option("owner", "1234/host").is_ok());
    server.handle_option("no-grab", "").unwrap();
    assert!(!server.state.grab);
}

#[test]
fn setters_answer_ok_and_set_state() {
    let mut server = PinentryServer::new(true, 60, false);
    let step = server.handle_command(Command::SetDesc("Unlock".into()), &info());
    assert!(matches!(step.effect, Effect::Nothing));
    assert_eq!(step.replies.len(), 1);
    assert!(is_ok(&step.replies[0]));
    assert_eq!(server.state.description.as_deref(), Some("Unlock"));
    server.handle_command(Command::SetPrompt("PIN:".into()), &info());
    assert_eq!(server.state.prompt, "PIN:");
}

#[test]
fn settimeout_is_stored() {
    let mut server = PinentryServer::new(true, 60, false);
    server.handle_command(Command::SetTimeout(15), &info());
    assert_eq!(server.state.timeout, 15);
}

#[test]
fn setkeyinfo_clear_forgets_the_key() {
    let mut server = PinentryServer::new(true, 60, true);
    server.handle_command(Command::SetKeyInfo("n/ABCD".into()), &info());
    assert_eq!(server.state.keyinfo.as_deref(), Some("n/ABCD"));
    server.handle_command(Command::SetKeyInfo(String::new()), &info());
    assert_eq!(server.state.keyinfo, None);
}

#[test]
fn getpin_asks_the_cache_once_with_consent() {
    let mut server = PinentryServer::new(true, 60, true);
    server.handle_option("allow-external-password-cache", "").unwrap();
    server.handle_command(Command::SetKeyInfo("n/ABCD".into()), &info());
    let step = server.handle_command(Command::GetPin, &info());
    match step.effect {
        Effect::LookupCache(k) => assert_eq!(k, "n/ABCD"),
        other => panic!("expected a cache lookup, got {other:?}"),
    }
    assert!(step.replies.is_empty());
    // Nothing cached: the dialog is shown.
    let step = server.after_lookup(None);
    assert!(matches!(step.effect, Effect::PromptPin));
    // A second GETPIN in the same session goes straight to the dialog.
    let step = server.handle_command(Command::GetPin, &info());
    assert!(matches!(step.effect, Effect::PromptPin));
}

#[test]
fn cached_passphrase_is_answered_from_cache() {
    let mut server = PinentryServer::new(true, 60, true);
    server.handle_option("allow-external-password-cache", "").unwrap();
    server.handle_command(Command::SetKeyInfo("n/ABCD".into()), &info());
    server.handle_command(Command::GetPin, &info());
    let step = server.after_lookup(Some(SecretBytes::from_vec(b"hunter2".to_vec())));
    assert_eq!(step.replies.len(), 3);
    match &step.replies[0] {
        Reply::Status(k, v) => {
            assert_eq!(k, "PASSWORD_FROM_CACHE");
            assert_eq!(v, "");
        }
        other => panic!("expected a status line, got {other:?}"),
    }
    assert_eq!(data_text(&step.replies[1]), "hunter2");
    assert!(is_ok(&step.replies[2]));
    assert!(server.state.pin_from_cache);
}

#[test]
fn getpin_without_consent_skips_the_cache() {
    let mut server = PinentryServer::new(true, 60, true);
    server.handle_command(Command::SetKeyInfo("n/ABCD".into()), &info());
    let step = server.handle_command(Command::GetPin, &info());
    assert!(matches!(step.effect, Effect::PromptPin));
}

#[test]
fn entered_passphrase_is_saved_only_with_consent() {
    let mut server = PinentryServer::new(true, 60, true);
    server.handle_option("allow-external-password-cache", "").unwrap();
    server.handle_command(Command::SetKeyInfo("n/ABCD".into()), &info());
    let step = server.after_pin(Ok(GetPinResult::Pin(SecretBytes::from_vec(b"pw".to_vec()))));
    match step.effect {
        Effect::SaveCache(k, s) => {
            assert_eq!(k, "n/ABCD");
            assert_eq!(s.as_bytes(), b"pw");
        }
        other => panic!("expected a save, got {other:?}"),
    }
    assert_eq!(data_text(&step.replies[0]), "pw");
    assert!(is_ok(&step.replies[1]));

    // RESET revokes the consent.
    server.handle_reset();
    server.handle_command(Command::SetKeyInfo("n/ABCD".into()), &info());
    let step = server.after_pin(Ok(GetPinResult::Pin(SecretBytes::from_vec(b"pw".to_vec()))));
    assert!(matches!(step.effect, Effect::Nothing));
}

#[test]
fn dialog_answers_clear_the_error_text() {
    let mut server = PinentryServer::new(true, 60, false);
    server.handle_command(Command::SetError("Bad passphrase".into()), &info());
    let step = server.after_pin(Ok(GetPinResult::Canceled));
    assert_eq!(err_kind(&step.replies[0]), ErrorKind::Canceled);
    assert_eq!(server.state.error, None);
}

#[test]
fn empty_passphrase_is_answered_with_ok_only() {
    let mut server = PinentryServer::new(true, 60, false);
    let step = server.after_pin(Ok(GetPinResult::Pin(SecretBytes::new())));
    assert_eq!(step.replies.len(), 1);
    assert!(is_ok(&step.replies[0]));
}

#[test]
fn closed_dialog_reports_button_info() {
    let mut server = PinentryServer::new(true, 60, false);
    let step = server.after_pin(Ok(GetPinResult::Closed));
    assert_eq!(step.replies.len(), 2);
    match &step.replies[0] {
        Reply::Status(k, v) => {
            assert_eq!(k, "BUTTON_INFO");
            assert_eq!(v, "close");
        }
        other => panic!("expected a status line, got {other:?}"),
    }
    assert_eq!(err_kind(&step.replies[1]), ErrorKind::Canceled);
}

#[test]
fn failed_dialog_reports_general_error() {
    let mut server = PinentryServer::new(true, 60, false);
    let step = server.after_pin(Err("no terminal".to_string()));
    match &step.replies[0] {
        Reply::Failure(e) => {
            assert_eq!(e.kind, ErrorKind::General);
            assert_eq!(e.message.as_deref(), Some("no terminal"));
        }
        other => panic!("expected an error, got {other:?}"),
    }
}

#[test]
fn confirm_outcomes_map_to_replies() {
    let mut server = PinentryServer::new(true, 60, false);
    let step = server.handle_command(Command::Confirm { one_button: true }, &info());
    assert!(matches!(step.effect, Effect::PromptConfirm));
    assert!(server.state.one_button);
    assert!(is_ok(&server.after_confirm(Ok(ConfirmResult::Accepted)).replies[0]));
    assert_eq!(err_kind(&server.after_confirm(Ok(ConfirmResult::Canceled)).replies[0]), ErrorKind::Canceled);
    assert_eq!(err_kind(&server.after_confirm(Ok(ConfirmResult::NotOk)).replies[0]), ErrorKind::NotConfirmed);
    assert_eq!(server.after_confirm(Ok(ConfirmResult::Closed)).replies.len(), 2);
    let step = server.handle_command(Command::Message, &info());
    assert!(matches!(step.effect, Effect::PromptMessage));
    assert!(is_ok(&server.after_message(Ok(())).replies[0]));
}

#[test]
fn clearpassphrase_clears_the_cache_entry() {
    let mut server = PinentryServer::new(true, 60, true);
    let step = server.handle_command(Command::ClearPassphrase("n/ABCD".into()), &info());
    match step.effect {
        Effect::ClearCache(k) => assert_eq!(k, "n/ABCD"),
        other => panic!("expected a clear, got {other:?}"),
    }
    assert!(is_ok(&step.replies[0]));
    let mut server = PinentryServer::new(true, 60, false);
    let step = server.handle_command(Command::ClearPassphrase("n/ABCD".into()), &info());
    assert!(matches!(step.effect, Effect::Nothing));
}

#[test]
fn new_server_uses_given_settings() {
    let server = PinentryServer::new(false, 15, false);
    assert!(!server.state.grab);
    assert_eq!(server.state.timeout, 15);
    assert_eq!(server.state.prompt, "Passphrase:");
    assert_eq!(server.state.ok, "OK");
    assert_eq!(server.state.cancel, "Cancel");
}

#[test]
fn caller_feedback_skips_the_cache() {
    let mut server = PinentryServer::new(true, 60, true);
    server.handle_option("allow-external-password-cache", "").unwrap();
    server.handle_command(Command::SetKeyInfo("n/ABCD".into()), &info());
    server.handle_command(Command::SetError("Bad passphrase".into()), &info());
    let step = server.handle_command(Command::GetPin, &info());
    assert!(matches!(step.effect, Effect::PromptPin));
    assert_eq!(server.state.error.as_deref(), Some("Bad passphrase"));
}

#[test]
fn every_dialog_answer_consumes_caller_feedback() {
    let mut server = PinentryServer::new(true, 60, false);
    server.handle_command(Command::SetError("Try again".into()), &info());
    server.handle_command(Command::Confirm { one_button: false }, &info());
    server.after_confirm(Ok(ConfirmResult::Canceled));
    assert_eq!(server.state.error, None);

    server.handle_command(Command::SetError("Note".into()), &info());
    server.handle_command(Command::Message, &info());
    server.after_message(Err("no terminal".to_string()));
    assert_eq!(server.state.error.as_deref(), Some("Note"));
    server.after_message(Ok(()));
    assert_eq!(server.state.error, None);
}
