use assuan::Request;
use pinentry_wukong::command::Command;
use pinentry_wukong::error::ErrorKind;

fn parse_line(line: &[u8]) -> Command {
    let mut buf = line.to_vec();
    let req = Request::parse(&mut buf).unwrap();
    Command::try_from(req).unwrap()
}

#[test]
fn test_parse_setdesc() {
    let cmd = parse_line(b"SETDESC Enter passphrase to unlock");
    assert_eq!(cmd, Command::SetDesc("Enter passphrase to unlock".into()));
}

#[test]
fn test_parse_setprompt() {
    let cmd = parse_line(b"SETPROMPT Passphrase:");
    assert_eq!(cmd, Command::SetPrompt("Passphrase:".into()));
}

#[test]
fn test_parse_seterror() {
    let cmd = parse_line(b"SETERROR Bad passphrase");
    assert_eq!(cmd, Command::SetError("Bad passphrase".into()));
}

#[test]
fn test_parse_settitle() {
    let cmd = parse_line(b"SETTITLE Unlock Key");
    assert_eq!(cmd, Command::SetTitle("Unlock Key".into()));
}

#[test]
fn test_parse_getpin() {
    let cmd = parse_line(b"GETPIN");
    assert_eq!(cmd, Command::GetPin);
}

#[test]
fn test_parse_confirm() {
    let cmd = parse_line(b"CONFIRM");
    assert_eq!(cmd, Command::Confirm { one_button: false });
}

#[test]
fn test_parse_confirm_one_button() {
    let cmd = parse_line(b"CONFIRM --one-button");
    assert_eq!(cmd, Command::Confirm { one_button: true });
}

#[test]
fn test_parse_message() {
    let cmd = parse_line(b"MESSAGE");
    assert_eq!(cmd, Command::Message);
}

#[test]
fn test_parse_setkeyinfo() {
    let cmd = parse_line(b"SETKEYINFO ABC123");
    assert_eq!(cmd, Command::SetKeyInfo("ABC123".into()));
}

#[test]
fn test_parse_setkeyinfo_clear() {
    let cmd = parse_line(b"SETKEYINFO --clear");
    assert_eq!(cmd, Command::SetKeyInfo(String::new()));
}

#[test]
fn test_parse_settimeout() {
    let cmd = parse_line(b"SETTIMEOUT 30");
    assert_eq!(cmd, Command::SetTimeout(30));
}

#[test]
fn test_parse_settimeout_empty() {
    let cmd = parse_line(b"SETTIMEOUT");
    assert_eq!(cmd, Command::SetTimeout(0));
}

#[test]
fn test_parse_unknown() {
    let mut buf = b"FOOBAR".to_vec();
    let req = Request::parse(&mut buf).unwrap();
    let result = Command::try_from(req);
    assert!(result.is_err());
}

#[test]
fn test_parse_case_insensitive() {
    // Command names from Request are already uppercased.
    let cmd = parse_line(b"getpin");
    assert_eq!(cmd, Command::GetPin);
}

#[test]
fn unknown_command_names_the_command() {
    let err = Command::parse("FOOBAR", None).unwrap_err();
    assert_eq!(err.kind, ErrorKind::UnknownCommand);
    assert_eq!(err.message.as_deref(), Some("unknown command: FOOBAR"));
}

#[test]
fn clearpassphrase_needs_a_key() {
    let err = Command::parse("CLEARPASSPHRASE", None).unwrap_err();
    assert_eq!(err.kind, ErrorKind::InvalidParameter);
    assert_eq!(err.message.as_deref(), Some("empty key"));
    let cmd = Command::parse("CLEARPASSPHRASE", Some("n/ABCD".into())).unwrap();
    assert_eq!(cmd, Command::ClearPassphrase("n/ABCD".into()));
}

#[test]
fn settimeout_rejects_non_numbers() {
    let err = Command::parse("SETTIMEOUT", Some("soon".into())).unwrap_err();
    assert_eq!(err.kind, ErrorKind::InvalidParameter);
    assert_eq!(err.message.as_deref(), Some("invalid timeout"));
    let err = Command::parse("SETTIMEOUT", Some("4294967296".into())).unwrap_err();
    assert_eq!(err.kind, ErrorKind::InvalidParameter);
    assert_eq!(Command::parse("SETTIMEOUT", Some("+7".into())).unwrap(), Command::SetTimeout(7));
    assert_eq!(
        Command::parse("SETTIMEOUT", Some("4294967295".into())).unwrap(),
        Command::SetTimeout(4294967295)
    );
}

#[test]
fn setkeyinfo_without_argument_clears() {
    assert_eq!(Command::parse("SETKEYINFO", None).unwrap(), Command::SetKeyInfo(String::new()));
}

#[test]
fn confirm_finds_flag_anywhere() {
    assert_eq!(
        Command::parse("CONFIRM", Some("x --one-button y".into())).unwrap(),
        Command::Confirm { one_button: true }
    );
}

#[test]
fn text_setters_keep_their_argument() {
    assert_eq!(Command::parse("SETOK", Some("Yes".into())).unwrap(), Command::SetOk("Yes".into()));
    assert_eq!(Command::parse("SETNOTOK", Some("No".into())).unwrap(), Command::SetNotOk("No".into()));
    assert_eq!(Command::parse("SETCANCEL", None).unwrap(), Command::SetCancel(String::new()));
    assert_eq!(Command::parse("SETREPEAT", Some("Again".into())).unwrap(), Command::SetRepeat("Again".into()));
    assert_eq!(Command::parse("SETQUALITYBAR_TT", Some("q".into())).unwrap(), Command::SetQualityBarTt("q".into()));
    assert_eq!(Command::parse("SETGENPIN_TT", Some("g".into())).unwrap(), Command::SetGenPinTt("g".into()));
    assert_eq!(Command::parse("GETINFO", Some("pid".into())).unwrap(), Command::GetInfo("pid".into()));
}

#[test]
fn other_requests_are_not_commands() {
    let mut buf = b"OPTION ttyname=/dev/pts/1".to_vec();
    let req = Request::parse(&mut buf).unwrap();
    assert!(Command::try_from(req).is_err());
}
