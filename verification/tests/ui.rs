use pinentry_wukong::state::{ConfirmResult, GetPinResult, PinentryState};
use pinentry_wukong::ui::detect::{detect_ui_mode, UiBackend, UiMode};
use pinentry_wukong::ui::dialog::{
    confirm_result, confirm_turn, desc_lines, dialog_tick, getpin_turn, handle_confirm_key, handle_getpin_key, message_key_closes, ConfirmAction,
    ConfirmFocus, GetPinAction, GetPinFocus, Tick,
};
use pinentry_wukong::ui::keys::{
    crossterm_event_to_key, input_record_to_key, ByteEvent, DecodeState, EventCode, Key, KeyDecoder, Wait,
    SHIFT_PRESSED, VK_DOWN, VK_LEFT, VK_RIGHT, VK_UP,
};
use pinentry_wukong::ui::tty::{
    confirm_answer, confirm_prompt_text, message_prompt_text, pin_prompt_text, tty_confirm_result, tty_path,
    tty_pin_result, TtyUi,
};
use pinentry_wukong::ui::tui::{button_text, dialog_title, masked_input, notok_label, submitted_pin, TuiUi};

fn decode(bytes: &[u8]) -> Vec<Key> {
    let mut d = KeyDecoder::new();
    let mut keys = Vec::new();
    for &b in bytes {
        if let Some(k) = d.feed(ByteEvent::Byte(b)) {
            keys.push(k);
        }
    }
    if let Some(k) = d.feed(ByteEvent::Quiet) {
        keys.push(k);
    }
    keys
}

#[test]
fn printable_bytes_decode_to_characters() {
    assert_eq!(decode(b"ab 1~"), vec![Key::Char('a'), Key::Char('b'), Key::Char(' '), Key::Char('1'), Key::Char('~')]);
}

#[test]
fn control_bytes_decode_to_keys() {
    assert_eq!(
        decode(b"\r\n\x7f\x08\x03\t"),
        vec![Key::Enter, Key::Enter, Key::Backspace, Key::Backspace, Key::CtrlC, Key::Tab]
    );
    assert_eq!(decode(b"\x01"), vec![]);
}

#[test]
fn escape_sequences_decode_to_arrows() {
    assert_eq!(decode(b"\x1b[A\x1b[B\x1b[C\x1b[D\x1b[Z"), vec![Key::Up, Key::Down, Key::Right, Key::Left, Key::BackTab]);
}

#[test]
fn lone_escape_is_esc_after_quiet() {
    let mut d = KeyDecoder::new();
    assert_eq!(d.wait(), Wait::Block);
    assert_eq!(d.feed(ByteEvent::Byte(0x1b)), None);
    assert_eq!(d.state, DecodeState::Escape);
    assert_eq!(d.wait(), Wait::Millis(50));
    assert_eq!(d.feed(ByteEvent::Quiet), Some(Key::Esc));
    assert_eq!(d.state, DecodeState::Ground);
}

#[test]
fn unknown_sequence_is_drained() {
    // ESC [ 1 ; 5 m : an attribute sequence, swallowed up to its final byte.
    let mut d = KeyDecoder::new();
    for &b in b"\x1b[1;5" {
        assert_eq!(d.feed(ByteEvent::Byte(b)), None);
    }
    assert_eq!(d.state, DecodeState::Drain);
    assert_eq!(d.wait(), Wait::Millis(5));
    assert_eq!(d.feed(ByteEvent::Byte(b'm')), None);
    assert_eq!(d.state, DecodeState::Ground);
    assert_eq!(d.feed(ByteEvent::Byte(b'x')), Some(Key::Char('x')));
}

#[test]
fn escape_followed_by_other_byte_is_dropped() {
    assert_eq!(decode(b"\x1bOx"), vec![Key::Char('x')]);
}

#[test]
fn console_records_map_to_keys() {
    assert_eq!(input_record_to_key(true, true, 0x0003, 0, 0), Some(Key::CtrlC));
    assert_eq!(input_record_to_key(true, true, 0x000d, 0, 0), Some(Key::Enter));
    assert_eq!(input_record_to_key(true, true, 0x0008, 0, 0), Some(Key::Backspace));
    assert_eq!(input_record_to_key(true, true, 0x0009, 0, 0), Some(Key::Tab));
    assert_eq!(input_record_to_key(true, true, 0x0009, SHIFT_PRESSED, 0), Some(Key::BackTab));
    assert_eq!(input_record_to_key(true, true, 0x001b, 0, 0), Some(Key::Esc));
    assert_eq!(input_record_to_key(true, true, 0, 0, VK_LEFT), Some(Key::Left));
    assert_eq!(input_record_to_key(true, true, 0, 0, VK_UP), Some(Key::Up));
    assert_eq!(input_record_to_key(true, true, 0, 0, VK_RIGHT), Some(Key::Right));
    assert_eq!(input_record_to_key(true, true, 0, 0, VK_DOWN), Some(Key::Down));
    assert_eq!(input_record_to_key(true, true, 0, 0, 0x10), None);
    assert_eq!(input_record_to_key(true, true, 'é' as u16, 0, 0), Some(Key::Char('é')));
    assert_eq!(input_record_to_key(true, true, 0xd800, 0, 0), None);
    assert_eq!(input_record_to_key(true, false, 'a' as u16, 0, 0), None);
    assert_eq!(input_record_to_key(false, true, 'a' as u16, 0, 0), None);
}

#[test]
fn terminal_events_map_to_keys() {
    assert_eq!(crossterm_event_to_key(EventCode::Char('c'), true), Some(Key::CtrlC));
    assert_eq!(crossterm_event_to_key(EventCode::Char('c'), false), Some(Key::Char('c')));
    assert_eq!(crossterm_event_to_key(EventCode::Char('x'), true), Some(Key::Char('x')));
    assert_eq!(crossterm_event_to_key(EventCode::Enter, false), Some(Key::Enter));
    assert_eq!(crossterm_event_to_key(EventCode::Left, false), Some(Key::Left));
    assert_eq!(crossterm_event_to_key(EventCode::Other, false), None);
}

#[test]
fn focus_cycles() {
    let f = GetPinFocus::Input;
    assert_eq!(f.next(), GetPinFocus::OkButton);
    assert_eq!(f.next().next().next(), f);
    assert_eq!(f.next().prev(), f);
    assert_eq!(ConfirmFocus::OkButton.next(true), ConfirmFocus::NotOkButton);
    assert_eq!(ConfirmFocus::OkButton.next(false), ConfirmFocus::CancelButton);
    assert_eq!(ConfirmFocus::CancelButton.next(true), ConfirmFocus::OkButton);
}

#[test]
fn typing_and_erasing_in_the_input() {
    let mut focus = GetPinFocus::Input;
    let mut input = String::new();
    for c in "abc".chars() {
        assert_eq!(handle_getpin_key(Key::Char(c), &mut focus, &mut input), GetPinAction::Continue);
    }
    assert_eq!(input, "abc");
    assert_eq!(handle_getpin_key(Key::Backspace, &mut focus, &mut input), GetPinAction::Continue);
    assert_eq!(input, "ab");
    assert_eq!(handle_getpin_key(Key::Enter, &mut focus, &mut input), GetPinAction::Submit);
    let mut empty = String::new();
    assert_eq!(handle_getpin_key(Key::Backspace, &mut focus, &mut empty), GetPinAction::Continue);
    assert_eq!(empty, "");
}

#[test]
fn buttons_of_the_passphrase_dialog() {
    let mut focus = GetPinFocus::Input;
    let mut input = "pw".to_string();
    assert_eq!(handle_getpin_key(Key::Tab, &mut focus, &mut input), GetPinAction::Continue);
    assert_eq!(focus, GetPinFocus::OkButton);
    assert_eq!(handle_getpin_key(Key::Char('x'), &mut focus, &mut input), GetPinAction::Continue);
    assert_eq!(input, "pw");
    assert_eq!(handle_getpin_key(Key::Char(' '), &mut focus, &mut input), GetPinAction::Submit);
    assert_eq!(handle_getpin_key(Key::Right, &mut focus, &mut input), GetPinAction::Continue);
    assert_eq!(focus, GetPinFocus::CancelButton);
    assert_eq!(handle_getpin_key(Key::Enter, &mut focus, &mut input), GetPinAction::Cancel);
    assert_eq!(handle_getpin_key(Key::BackTab, &mut focus, &mut input), GetPinAction::Continue);
    assert_eq!(focus, GetPinFocus::OkButton);
    assert_eq!(handle_getpin_key(Key::Esc, &mut focus, &mut input), GetPinAction::Cancel);
    assert_eq!(handle_getpin_key(Key::CtrlC, &mut focus, &mut input), GetPinAction::Cancel);
}

#[test]
fn confirmation_dialog_keys() {
    let mut focus = ConfirmFocus::OkButton;
    assert_eq!(handle_confirm_key(Key::Enter, &mut focus, true), ConfirmAction::Accept);
    assert_eq!(handle_confirm_key(Key::Tab, &mut focus, true), ConfirmAction::Continue);
    assert_eq!(focus, ConfirmFocus::NotOkButton);
    assert_eq!(handle_confirm_key(Key::Char(' '), &mut focus, true), ConfirmAction::NotOk);
    assert_eq!(handle_confirm_key(Key::Left, &mut focus, true), ConfirmAction::Continue);
    assert_eq!(focus, ConfirmFocus::OkButton);
    assert_eq!(handle_confirm_key(Key::BackTab, &mut focus, true), ConfirmAction::Continue);
    assert_eq!(focus, ConfirmFocus::CancelButton);
    assert_eq!(handle_confirm_key(Key::Left, &mut focus, false), ConfirmAction::Continue);
    assert_eq!(focus, ConfirmFocus::OkButton);
    assert_eq!(handle_confirm_key(Key::Right, &mut focus, false), ConfirmAction::Continue);
    assert_eq!(focus, ConfirmFocus::CancelButton);
    assert_eq!(handle_confirm_key(Key::Enter, &mut focus, false), ConfirmAction::Cancel);
    assert_eq!(handle_confirm_key(Key::Esc, &mut focus, false), ConfirmAction::Cancel);
}

#[test]
fn message_dialog_closes_on_confirming_keys() {
    assert!(message_key_closes(Key::Enter));
    assert!(message_key_closes(Key::Esc));
    assert!(message_key_closes(Key::Char(' ')));
    assert!(message_key_closes(Key::CtrlC));
    assert!(!message_key_closes(Key::Char('q')));
    assert!(!message_key_closes(Key::Tab));
}

#[test]
fn deadline_of_the_dialogs() {
    assert_eq!(dialog_tick(0, 123_456), Tick::Poll(100));
    assert_eq!(dialog_tick(60, 0), Tick::Poll(60_000));
    assert_eq!(dialog_tick(60, 59_250), Tick::Poll(750));
    assert_eq!(dialog_tick(60, 60_000), Tick::Expired);
    assert_eq!(dialog_tick(1, u64::MAX), Tick::Expired);
}

#[test]
fn description_rows() {
    assert_eq!(desc_lines("", 40), 0);
    assert_eq!(desc_lines("abc", 0), 0);
    assert_eq!(desc_lines("abc", 40), 1);
    assert_eq!(desc_lines("abcdefghij", 4), 3);
    assert_eq!(desc_lines("abcd", 4), 1);
    assert_eq!(desc_lines("ab\n\ncd", 10), 3);
    assert_eq!(desc_lines("ab\r\ncd\n", 10), 2);
    assert_eq!(desc_lines("\n", 10), 1);
    assert_eq!(desc_lines("ééé", 2), 2);
}

fn state_with(desc: Option<&str>, error: Option<&str>, notok: Option<&str>) -> PinentryState {
    let mut s = PinentryState::new();
    s.description = desc.map(|d| d.to_string());
    s.error = error.map(|e| e.to_string());
    s.notok = notok.map(|n| n.to_string());
    s
}

#[test]
fn line_prompts() {
    let s = state_with(Some("Unlock key"), Some("Bad passphrase"), None);
    assert_eq!(pin_prompt_text(&s), "Unlock key\nBad passphrase\nPassphrase: ");
    assert_eq!(confirm_prompt_text(&s), "Unlock key\nBad passphrase\n[OK] [Cancel]? ");
    assert_eq!(message_prompt_text(&s), "Unlock key\nBad passphrase\n[OK] ");
    let s = state_with(None, None, Some("No"));
    assert_eq!(pin_prompt_text(&s), "Passphrase: ");
    assert_eq!(confirm_prompt_text(&s), "[OK] [No] [Cancel]? ");
    assert_eq!(message_prompt_text(&s), "[OK] ");
}

#[test]
fn terminal_device() {
    let mut s = PinentryState::new();
    assert_eq!(tty_path(&s), "/dev/tty");
    s.ttyname = Some("/dev/pts/7".to_string());
    assert_eq!(tty_path(&s), "/dev/pts/7");
}

#[test]
fn line_passphrase_outcome() {
    assert!(matches!(tty_pin_result(""), GetPinResult::Canceled));
    match tty_pin_result("pässword") {
        GetPinResult::Pin(s) => assert_eq!(s.as_bytes(), "pässword".as_bytes()),
        other => panic!("expected a passphrase, got {other:?}"),
    }
}

#[test]
fn line_confirmation_answers() {
    assert_eq!(confirm_answer("", false), ConfirmResult::Accepted);
    assert_eq!(confirm_answer("yes", false), ConfirmResult::Accepted);
    assert_eq!(confirm_answer("cancel", true), ConfirmResult::Canceled);
    assert_eq!(confirm_answer("maybe", true), ConfirmResult::NotOk);
    assert_eq!(confirm_answer("maybe", false), ConfirmResult::Canceled);
    assert_eq!(tty_confirm_result(5, "  YES \n", false), ConfirmResult::Accepted);
    assert_eq!(tty_confirm_result(3, "No\n", true), ConfirmResult::Canceled);
    assert_eq!(tty_confirm_result(1, "\n", true), ConfirmResult::Accepted);
    assert_eq!(tty_confirm_result(4, "Ok\r\n", false), ConfirmResult::Accepted);
    assert_eq!(tty_confirm_result(0, "", false), ConfirmResult::NotOk);
    assert_eq!(tty_confirm_result(6, "later\n", true), ConfirmResult::NotOk);
}

#[test]
fn full_screen_texts() {
    let mut s = PinentryState::new();
    assert_eq!(dialog_title(&s), "pinentry-wukong");
    assert_eq!(notok_label(&s), "Not OK");
    s.title = Some("Unlock".to_string());
    s.notok = Some("Never".to_string());
    assert_eq!(dialog_title(&s), "Unlock");
    assert_eq!(notok_label(&s), "Never");
    assert_eq!(masked_input("pä1"), "•••");
    assert_eq!(masked_input(""), "");
    assert_eq!(button_text("OK"), " [ OK ] ");
}

#[test]
fn mode_names_round_trip() {
    for m in [UiMode::Tui, UiMode::Tty, UiMode::Auto, UiMode::PreferTty, UiMode::PreferGui] {
        assert_eq!(UiMode::parse(m.as_str()), Ok(m));
        assert_eq!(m.as_str().parse::<UiMode>(), Ok(m));
    }
    assert_eq!(UiMode::PreferGui.as_str(), "prefer-gui");
    assert_eq!(
        UiMode::parse("gui"),
        Err("unknown UI mode: gui (valid: auto, tty, tui, prefer-tty, prefer-gui)".to_string())
    );
}

#[test]
fn terminal_detection() {
    assert_eq!(detect_ui_mode(Some("xterm-256color")), UiMode::Tui);
    assert_eq!(detect_ui_mode(Some("dumb")), UiMode::Tty);
    assert_eq!(detect_ui_mode(Some("")), UiMode::Tty);
    assert_eq!(detect_ui_mode(None), UiMode::Tty);
}

#[test]
fn modes_resolve_to_front_ends() {
    assert_eq!(UiMode::Tty.resolve(Some("xterm")), UiMode::Tty);
    assert_eq!(UiMode::Tui.resolve(None), UiMode::Tui);
    assert_eq!(UiMode::Auto.resolve(Some("xterm")), UiMode::Tui);
    assert_eq!(UiMode::Auto.resolve(Some("dumb")), UiMode::Tty);
    assert_eq!(UiMode::PreferTty.resolve(None), UiMode::Tty);
    assert_eq!(UiMode::PreferTty.resolve(Some("xterm")), UiMode::Tui);
    assert_eq!(UiMode::PreferGui.resolve(Some("xterm")), UiMode::Tui);
    assert_eq!(UiMode::Tui.create_ui(), UiBackend::Tui(TuiUi::new()));
    assert_eq!(UiMode::Tty.create_ui(), UiBackend::Tty(TtyUi::new()));
    assert_eq!(UiMode::Tui.create_ui().flavor(), "wukong:tui");
    assert_eq!(UiMode::Tty.create_ui().flavor(), "wukong:tty");
    assert_eq!(TtyUi::new().flavor(), "wukong:tty");
    assert_eq!(TuiUi::new().flavor(), "wukong:tui");
}

fn run_getpin_keys(keys: &[Key]) -> (GetPinFocus, String, Option<GetPinAction>) {
    let mut focus = GetPinFocus::Input;
    let mut input = String::new();
    for &k in keys {
        let a = handle_getpin_key(k, &mut focus, &mut input);
        if a != GetPinAction::Continue {
            return (focus, input, Some(a));
        }
    }
    (focus, input, None)
}

#[test]
fn typed_text_is_what_enter_submits() {
    let keys = [
        Key::Char('h'), Key::Char('x'), Key::Backspace, Key::Char('ü'), Key::Char('!'), Key::Enter,
    ];
    let (focus, input, action) = run_getpin_keys(&keys);
    assert_eq!(focus, GetPinFocus::Input);
    assert_eq!(input, "hü!");
    assert_eq!(action, Some(GetPinAction::Submit));
    assert_eq!(masked_input(&input), "•••");
    match submitted_pin(&input) {
        GetPinResult::Pin(p) => assert_eq!(p.as_bytes(), "hü!".as_bytes()),
        other => panic!("expected a passphrase, got {other:?}"),
    }
    let (_, input, action) = run_getpin_keys(&[Key::Backspace, Key::Esc, Key::Char('a')]);
    assert_eq!(input, "");
    assert_eq!(action, Some(GetPinAction::Cancel));
}

fn run_confirm_keys(keys: &[Key], has_notok: bool) -> Option<ConfirmAction> {
    let mut focus = ConfirmFocus::OkButton;
    for &k in keys {
        let a = handle_confirm_key(k, &mut focus, has_notok);
        if a != ConfirmAction::Continue {
            return Some(a);
        }
    }
    None
}

#[test]
fn confirmation_key_series() {
    assert_eq!(run_confirm_keys(&[Key::Enter], true), Some(ConfirmAction::Accept));
    assert_eq!(run_confirm_keys(&[Key::Char(' ')], false), Some(ConfirmAction::Accept));
    assert_eq!(run_confirm_keys(&[Key::Esc, Key::Enter], true), Some(ConfirmAction::Cancel));
    assert_eq!(run_confirm_keys(&[Key::CtrlC], false), Some(ConfirmAction::Cancel));
    assert_eq!(run_confirm_keys(&[Key::Left, Key::Enter], true), Some(ConfirmAction::Cancel));
    assert_eq!(run_confirm_keys(&[Key::Tab, Key::Enter], true), Some(ConfirmAction::NotOk));
    // Without the button, no series reaches "not ok".
    let all = [Key::Tab, Key::BackTab, Key::Left, Key::Right, Key::Up, Key::Char('x')];
    for &a in &all {
        for &b in &all {
            for last in [Key::Enter, Key::Char(' ')] {
                assert_ne!(run_confirm_keys(&[a, b, last], false), Some(ConfirmAction::NotOk));
            }
        }
    }
}

#[test]
fn confirmation_answers() {
    assert_eq!(confirm_result(ConfirmAction::Continue), None);
    assert_eq!(confirm_result(ConfirmAction::Accept), Some(ConfirmResult::Accepted));
    assert_eq!(confirm_result(ConfirmAction::NotOk), Some(ConfirmResult::NotOk));
    assert_eq!(confirm_result(ConfirmAction::Cancel), Some(ConfirmResult::Canceled));
}

#[test]
fn dialog_turns() {
    let mut focus = ConfirmFocus::OkButton;
    assert_eq!(confirm_turn(Tick::Expired, Some(Key::Enter), &mut focus, true), Some(ConfirmResult::Canceled));
    assert_eq!(confirm_turn(Tick::Poll(10), None, &mut focus, true), None);
    assert_eq!(confirm_turn(Tick::Poll(10), Some(Key::Tab), &mut focus, true), None);
    assert_eq!(focus, ConfirmFocus::NotOkButton);
    assert_eq!(confirm_turn(Tick::Poll(10), Some(Key::Enter), &mut focus, true), Some(ConfirmResult::NotOk));
    assert_eq!(confirm_turn(dialog_tick(5, 5_000), None, &mut focus, true), Some(ConfirmResult::Canceled));

    let mut focus = GetPinFocus::Input;
    let mut input = String::new();
    assert!(getpin_turn(Tick::Poll(10), Some(Key::Char('p')), &mut focus, &mut input).is_none());
    assert!(getpin_turn(Tick::Poll(10), None, &mut focus, &mut input).is_none());
    assert!(getpin_turn(Tick::Poll(10), Some(Key::Char('w')), &mut focus, &mut input).is_none());
    match getpin_turn(Tick::Poll(10), Some(Key::Enter), &mut focus, &mut input) {
        Some(GetPinResult::Pin(p)) => assert_eq!(p.as_bytes(), b"pw"),
        other => panic!("expected a passphrase, got {other:?}"),
    }
    assert!(matches!(
        getpin_turn(Tick::Expired, Some(Key::Enter), &mut focus, &mut input),
        Some(GetPinResult::Canceled)
    ));
    assert!(matches!(
        getpin_turn(Tick::Poll(10), Some(Key::Esc), &mut focus, &mut input),
        Some(GetPinResult::Canceled)
    ));
}
