//! Dialog behaviour independent of how it is drawn: focus movement, key
//! handling of the passphrase, confirmation and message dialogs, the input
//! deadline and description layout.

use vstd::prelude::*;

use vstd::utf8::encode_utf8;

use crate::server::PinOutcome;
use crate::state::{ConfirmResult, GetPinResult};
use crate::text::{pop_char, push_char};
use crate::ui::keys::Key;
use crate::ui::tui::submitted_pin;

verus! {

// ---------------------------------------------------------------------------
// Focus
// ---------------------------------------------------------------------------

/// Focus in the passphrase dialog.
#[derive(Debug, Clone, Copy, PartialEq, Eq)]
pub enum GetPinFocus {
    Input,
    OkButton,
    CancelButton,
}

/// Focus in the confirmation dialog.
#[derive(Debug, Clone, Copy, PartialEq, Eq)]
pub enum ConfirmFocus {
    OkButton,
    NotOkButton,
    CancelButton,
}

/// The next element in tab order: input, OK, Cancel, then input again.
pub open spec fn pin_focus_next(f: GetPinFocus) -> GetPinFocus {
    match f {
        GetPinFocus::Input => GetPinFocus::OkButton,
        GetPinFocus::OkButton => GetPinFocus::CancelButton,
        GetPinFocus::CancelButton => GetPinFocus::Input,
    }
}

/// The previous element in tab order.
pub open spec fn pin_focus_prev(f: GetPinFocus) -> GetPinFocus {
    match f {
        GetPinFocus::Input => GetPinFocus::CancelButton,
        GetPinFocus::OkButton => GetPinFocus::Input,
        GetPinFocus::CancelButton => GetPinFocus::OkButton,
    }
}

/// The next button of the confirmation dialog; "not ok" only when it is shown.
pub open spec fn confirm_focus_next(f: ConfirmFocus, has_notok: bool) -> ConfirmFocus {
    match f {
        ConfirmFocus::OkButton => if has_notok { ConfirmFocus::NotOkButton } else { ConfirmFocus::CancelButton },
        ConfirmFocus::NotOkButton => ConfirmFocus::CancelButton,
        ConfirmFocus::CancelButton => ConfirmFocus::OkButton,
    }
}

impl GetPinFocus {
    /// Move forward in tab order.
    pub fn next(self) -> (r: Self)
        ensures
            r == pin_focus_next(self),
    {
        match self {
            GetPinFocus::Input => GetPinFocus::OkButton,
            GetPinFocus::OkButton => GetPinFocus::CancelButton,
            GetPinFocus::CancelButton => GetPinFocus::Input,
        }
    }

    /// Move backward in tab order.
    pub fn prev(self) -> (r: Self)
        ensures
            r == pin_focus_prev(self),
    {
        match self {
            GetPinFocus::Input => GetPinFocus::CancelButton,
            GetPinFocus::OkButton => GetPinFocus::Input,
            GetPinFocus::CancelButton => GetPinFocus::OkButton,
        }
    }
}

impl ConfirmFocus {
    /// Move forward through the shown buttons.
    pub fn next(self, has_notok: bool) -> (r: Self)
        ensures
            r == confirm_focus_next(self, has_notok),
    {
        match self {
            ConfirmFocus::OkButton => if has_notok { ConfirmFocus::NotOkButton } else { ConfirmFocus::CancelButton },
            ConfirmFocus::NotOkButton => ConfirmFocus::CancelButton,
            ConfirmFocus::CancelButton => ConfirmFocus::OkButton,
        }
    }
}

/// Tab and Shift+Tab undo each other in the passphrase dialog.
pub proof fn lemma_pin_focus_inverse(f: GetPinFocus)
    ensures
        pin_focus_prev(pin_focus_next(f)) == f,
        pin_focus_next(pin_focus_prev(f)) == f,
{
}

/// Three Tabs bring the focus back where it was.
pub proof fn lemma_pin_focus_cycle(f: GetPinFocus)
    ensures
        pin_focus_next(pin_focus_next(pin_focus_next(f))) == f,
{
}

/// The confirmation buttons form a cycle: three steps with the "not ok"
/// button, two without it; the hidden button is never reached from a shown one.
pub proof fn lemma_confirm_focus_cycle(f: ConfirmFocus)
    ensures
        confirm_focus_next(confirm_focus_next(confirm_focus_next(f, true), true), true) == f,
        f != ConfirmFocus::NotOkButton ==> confirm_focus_next(confirm_focus_next(f, false), false) == f,
        confirm_focus_next(f, false) != ConfirmFocus::NotOkButton,
{
}

// ---------------------------------------------------------------------------
// Passphrase dialog keys
// ---------------------------------------------------------------------------

/// What a key does to the passphrase dialog.
#[derive(Debug, Clone, Copy, PartialEq, Eq)]
pub enum GetPinAction {
    Continue,
    Submit,
    Cancel,
}

/// The focus, the input and the action after `key` in the passphrase dialog.
pub open spec fn getpin_key_spec(key: Key, focus: GetPinFocus, input: Seq<char>) -> (GetPinFocus, Seq<char>, GetPinAction) {
    match key {
        Key::CtrlC | Key::Esc => (focus, input, GetPinAction::Cancel),
        _ => match focus {
            GetPinFocus::Input => match key {
                Key::Enter => (focus, input, GetPinAction::Submit),
                Key::Tab => (pin_focus_next(focus), input, GetPinAction::Continue),
                Key::BackTab => (pin_focus_prev(focus), input, GetPinAction::Continue),
                Key::Backspace => (focus, if input.len() > 0 { input.drop_last() } else { input }, GetPinAction::Continue),
                Key::Char(c) => (focus, input.push(c), GetPinAction::Continue),
                _ => (focus, input, GetPinAction::Continue),
            },
            GetPinFocus::OkButton => match key {
                Key::Enter | Key::Char(' ') => (focus, input, GetPinAction::Submit),
                Key::Tab | Key::Right => (pin_focus_next(focus), input, GetPinAction::Continue),
                Key::BackTab | Key::Left => (pin_focus_prev(focus), input, GetPinAction::Continue),
                _ => (focus, input, GetPinAction::Continue),
            },
            GetPinFocus::CancelButton => match key {
                Key::Enter | Key::Char(' ') => (focus, input, GetPinAction::Cancel),
                Key::Tab | Key::Right => (pin_focus_next(focus), input, GetPinAction::Continue),
                Key::BackTab | Key::Left => (pin_focus_prev(focus), input, GetPinAction::Continue),
                _ => (focus, input, GetPinAction::Continue),
            },
        },
    }
}

/// Apply a key to the passphrase dialog.
pub fn handle_getpin_key(key: Key, focus: &mut GetPinFocus, input: &mut String) -> (a: GetPinAction)
    ensures
        (*final(focus), final(input)@, a) == getpin_key_spec(key, *old(focus), old(input)@),
{
    match key {
        Key::CtrlC | Key::Esc => GetPinAction::Cancel,
        _ => match *focus {
            GetPinFocus::Input => match key {
                Key::Enter => GetPinAction::Submit,
                Key::Tab => {
                    *focus = focus.next();
                    GetPinAction::Continue
                },
                Key::BackTab => {
                    *focus = focus.prev();
                    GetPinAction::Continue
                },
                Key::Backspace => {
                    pop_char(input);
                    GetPinAction::Continue
                },
                Key::Char(c) => {
                    push_char(input, c);
                    GetPinAction::Continue
                },
                _ => GetPinAction::Continue,
            },
            GetPinFocus::OkButton => match key {
                Key::Enter => GetPinAction::Submit,
                Key::Char(' ') => GetPinAction::Submit,
                Key::Tab | Key::Right => {
                    *focus = focus.next();
                    GetPinAction::Continue
                },
                Key::BackTab | Key::Left => {
                    *focus = focus.prev();
                    GetPinAction::Continue
                },
                _ => GetPinAction::Continue,
            },
            GetPinFocus::CancelButton => match key {
                Key::Enter => GetPinAction::Cancel,
                Key::Char(' ') => GetPinAction::Cancel,
                Key::Tab | Key::Right => {
                    *focus = focus.next();
                    GetPinAction::Continue
                },
                Key::BackTab | Key::Left => {
                    *focus = focus.prev();
                    GetPinAction::Continue
                },
                _ => GetPinAction::Continue,
            },
        },
    }
}

/// Which keys answer the passphrase dialog: Escape and Ctrl+C cancel from
/// anywhere; Enter and Space act alike on each button, submitting on OK and
/// canceling on Cancel; Enter in the field submits. No answer changes the
/// focus or the input.
pub proof fn lemma_getpin_answers(key: Key, focus: GetPinFocus, input: Seq<char>)
    ensures
        getpin_key_spec(key, focus, input).2 == GetPinAction::Cancel <==> (
            key == Key::Esc || key == Key::CtrlC
            || (focus == GetPinFocus::CancelButton && (key == Key::Enter || key == Key::Char(' ')))),
        getpin_key_spec(key, focus, input).2 == GetPinAction::Submit <==> (
            key != Key::Esc && key != Key::CtrlC && (
                (focus == GetPinFocus::Input && key == Key::Enter)
                || (focus == GetPinFocus::OkButton && (key == Key::Enter || key == Key::Char(' '))))),
        getpin_key_spec(key, focus, input).2 != GetPinAction::Continue
            ==> getpin_key_spec(key, focus, input).0 == focus && getpin_key_spec(key, focus, input).1 == input,
        getpin_key_spec(Key::Enter, GetPinFocus::OkButton, input) == (GetPinFocus::OkButton, input, GetPinAction::Submit),
        getpin_key_spec(Key::Char(' '), GetPinFocus::OkButton, input) == (GetPinFocus::OkButton, input, GetPinAction::Submit),
{
}

/// Typing a character and erasing it leaves the input as it was.
pub proof fn lemma_type_then_erase(c: char, input: Seq<char>)
    ensures
        ({
            let (f1, i1, a1) = getpin_key_spec(Key::Char(c), GetPinFocus::Input, input);
            let (f2, i2, a2) = getpin_key_spec(Key::Backspace, f1, i1);
            f2 == GetPinFocus::Input && i2 == input && a1 == GetPinAction::Continue && a2 == GetPinAction::Continue
        }),
{
    assert(input.push(c).drop_last() =~= input);
}

/// Escape and Ctrl+C cancel the passphrase dialog from any focus and never
/// change the input.
pub proof fn lemma_escape_cancels(key: Key, focus: GetPinFocus, input: Seq<char>)
    requires
        key == Key::Esc || key == Key::CtrlC,
    ensures
        getpin_key_spec(key, focus, input) == (focus, input, GetPinAction::Cancel),
{
}

/// The input only changes while the input field has the focus.
pub proof fn lemma_buttons_keep_input(key: Key, focus: GetPinFocus, input: Seq<char>)
    requires
        focus != GetPinFocus::Input,
    ensures
        getpin_key_spec(key, focus, input).1 == input,
{
}

/// What a series of keys does to the passphrase dialog: the focus, the input
/// and the first action other than `Continue`, if any (keys after it are not read).
pub open spec fn getpin_run(keys: Seq<Key>, focus: GetPinFocus, input: Seq<char>) -> (GetPinFocus, Seq<char>, Option<GetPinAction>)
    decreases keys.len(),
{
    if keys.len() == 0 {
        (focus, input, None)
    } else {
        let (f2, i2, a) = getpin_key_spec(keys[0], focus, input);
        if a == GetPinAction::Continue {
            getpin_run(keys.drop_first(), f2, i2)
        } else {
            (f2, i2, Some(a))
        }
    }
}

/// A key that edits the passphrase field: a character or Backspace.
pub open spec fn is_edit_key(k: Key) -> bool {
    k is Char || k is Backspace
}

/// The text left by typing `keys` after `input`: each character is appended,
/// each Backspace removes the last character (if any), other keys are ignored.
pub open spec fn typed(keys: Seq<Key>, input: Seq<char>) -> Seq<char>
    decreases keys.len(),
{
    if keys.len() == 0 {
        input
    } else {
        typed(keys.drop_first(), match keys[0] {
            Key::Char(c) => input.push(c),
            Key::Backspace => if input.len() > 0 { input.drop_last() } else { input },
            _ => input,
        })
    }
}

/// Typing characters and Backspaces in the field and then Enter submits
/// exactly the text typed; the focus never leaves the field.
pub proof fn lemma_typed_then_enter_submits(keys: Seq<Key>, input: Seq<char>)
    requires
        forall|i: int| 0 <= i < keys.len() ==> is_edit_key(#[trigger] keys[i]),
    ensures
        getpin_run(keys.push(Key::Enter), GetPinFocus::Input, input)
            == (GetPinFocus::Input, typed(keys, input), Some(GetPinAction::Submit)),
    decreases keys.len(),
{
    let all = keys.push(Key::Enter);
    if keys.len() == 0 {
        assert(all.drop_first() =~= Seq::<Key>::empty());
        assert(all[0] == Key::Enter);
    } else {
        let rest = keys.drop_first();
        assert(is_edit_key(keys[0]));
        assert forall|i: int| 0 <= i < rest.len() implies is_edit_key(#[trigger] rest[i]) by {
            assert(rest[i] == keys[i + 1]);
        }
        assert(all.drop_first() =~= rest.push(Key::Enter));
        assert(all[0] == keys[0]);
        let next = match keys[0] {
            Key::Char(c) => input.push(c),
            Key::Backspace => if input.len() > 0 { input.drop_last() } else { input },
            _ => input,
        };
        lemma_typed_then_enter_submits(rest, next);
    }
}

/// Escape or Ctrl+C as the first key cancels the passphrase dialog at once,
/// whatever follows.
pub proof fn lemma_getpin_first_escape_cancels(keys: Seq<Key>, focus: GetPinFocus, input: Seq<char>)
    requires
        keys.len() > 0,
        keys[0] == Key::Esc || keys[0] == Key::CtrlC,
    ensures
        getpin_run(keys, focus, input) == (focus, input, Some(GetPinAction::Cancel)),
{
}

// ---------------------------------------------------------------------------
// Confirmation and message dialog keys
// ---------------------------------------------------------------------------

/// What a key does to the confirmation dialog.
#[derive(Debug, Clone, Copy, PartialEq, Eq)]
pub enum ConfirmAction {
    Continue,
    Accept,
    NotOk,
    Cancel,
}

/// The focus and the action after `key` in the confirmation dialog.
pub open spec fn confirm_key_spec(key: Key, focus: ConfirmFocus, has_notok: bool) -> (ConfirmFocus, ConfirmAction) {
    match key {
        Key::CtrlC | Key::Esc => (focus, ConfirmAction::Cancel),
        _ => match focus {
            ConfirmFocus::OkButton => match key {
                Key::Enter | Key::Char(' ') => (focus, ConfirmAction::Accept),
                Key::Tab | Key::Right => (confirm_focus_next(focus, has_notok), ConfirmAction::Continue),
                Key::BackTab | Key::Left => (ConfirmFocus::CancelButton, ConfirmAction::Continue),
                _ => (focus, ConfirmAction::Continue),
            },
            ConfirmFocus::NotOkButton => match key {
                Key::Enter | Key::Char(' ') => (focus, ConfirmAction::NotOk),
                Key::Tab | Key::Right => (confirm_focus_next(focus, has_notok), ConfirmAction::Continue),
                Key::BackTab | Key::Left => (ConfirmFocus::OkButton, ConfirmAction::Continue),
                _ => (focus, ConfirmAction::Continue),
            },
            ConfirmFocus::CancelButton => match key {
                Key::Enter | Key::Char(' ') => (focus, ConfirmAction::Cancel),
                Key::Tab | Key::Right => (ConfirmFocus::OkButton, ConfirmAction::Continue),
                Key::BackTab | Key::Left => (
                    if has_notok { ConfirmFocus::NotOkButton } else { ConfirmFocus::OkButton },
                    ConfirmAction::Continue,
                ),
                _ => (focus, ConfirmAction::Continue),
            },
        },
    }
}

/// Apply a key to the confirmation dialog.
pub fn handle_confirm_key(key: Key, focus: &mut ConfirmFocus, has_notok: bool) -> (a: ConfirmAction)
    ensures
        (*final(focus), a) == confirm_key_spec(key, *old(focus), has_notok),
{
    match key {
        Key::CtrlC | Key::Esc => ConfirmAction::Cancel,
        _ => match *focus {
            ConfirmFocus::OkButton => match key {
                Key::Enter => ConfirmAction::Accept,
                Key::Char(' ') => ConfirmAction::Accept,
                Key::Tab | Key::Right => {
                    *focus = focus.next(has_notok);
                    ConfirmAction::Continue
                },
                Key::BackTab | Key::Left => {
                    *focus = ConfirmFocus::CancelButton;
                    ConfirmAction::Continue
                },
                _ => ConfirmAction::Continue,
            },
            ConfirmFocus::NotOkButton => match key {
                Key::Enter => ConfirmAction::NotOk,
                Key::Char(' ') => ConfirmAction::NotOk,
                Key::Tab | Key::Right => {
                    *focus = focus.next(has_notok);
                    ConfirmAction::Continue
                },
                Key::BackTab | Key::Left => {
                    *focus = ConfirmFocus::OkButton;
                    ConfirmAction::Continue
                },
                _ => ConfirmAction::Continue,
            },
            ConfirmFocus::CancelButton => match key {
                Key::Enter => ConfirmAction::Cancel,
                Key::Char(' ') => ConfirmAction::Cancel,
                Key::Tab | Key::Right => {
                    *focus = ConfirmFocus::OkButton;
                    ConfirmAction::Continue
                },
                Key::BackTab | Key::Left => {
                    *focus = if has_notok { ConfirmFocus::NotOkButton } else { ConfirmFocus::OkButton };
                    ConfirmAction::Continue
                },
                _ => ConfirmAction::Continue,
            },
        },
    }
}

/// Without a "not ok" button the confirmation dialog never answers "not ok"
/// and never focuses that button.
pub proof fn lemma_confirm_without_notok(key: Key, focus: ConfirmFocus)
    requires
        focus != ConfirmFocus::NotOkButton,
    ensures
        confirm_key_spec(key, focus, false).1 != ConfirmAction::NotOk,
        confirm_key_spec(key, focus, false).0 != ConfirmFocus::NotOkButton,
{
}

/// What a series of keys does to the confirmation dialog: the first action
/// other than `Continue`, if any (keys after it are not read).
pub open spec fn confirm_run(keys: Seq<Key>, focus: ConfirmFocus, has_notok: bool) -> Option<ConfirmAction>
    decreases keys.len(),
{
    if keys.len() == 0 {
        None
    } else {
        let (f2, a) = confirm_key_spec(keys[0], focus, has_notok);
        if a == ConfirmAction::Continue {
            confirm_run(keys.drop_first(), f2, has_notok)
        } else {
            Some(a)
        }
    }
}

/// Without a "not ok" button no series of keys, from any shown button,
/// ever answers "not ok".
pub proof fn lemma_confirm_run_without_notok(keys: Seq<Key>, focus: ConfirmFocus)
    requires
        focus != ConfirmFocus::NotOkButton,
    ensures
        confirm_run(keys, focus, false) != Some(ConfirmAction::NotOk),
    decreases keys.len(),
{
    if keys.len() > 0 {
        lemma_confirm_without_notok(keys[0], focus);
        let (f2, a) = confirm_key_spec(keys[0], focus, false);
        if a == ConfirmAction::Continue {
            lemma_confirm_run_without_notok(keys.drop_first(), f2);
        }
    }
}

/// Escape or Ctrl+C as the first key cancels the confirmation at once.
pub proof fn lemma_confirm_first_escape_cancels(keys: Seq<Key>, focus: ConfirmFocus, has_notok: bool)
    requires
        keys.len() > 0,
        keys[0] == Key::Esc || keys[0] == Key::CtrlC,
    ensures
        confirm_run(keys, focus, has_notok) == Some(ConfirmAction::Cancel),
{
}

/// The result of a finished confirmation dialog action.
pub open spec fn confirm_outcome(a: ConfirmAction) -> Option<ConfirmResult> {
    match a {
        ConfirmAction::Continue => None,
        ConfirmAction::Accept => Some(ConfirmResult::Accepted),
        ConfirmAction::NotOk => Some(ConfirmResult::NotOk),
        ConfirmAction::Cancel => Some(ConfirmResult::Canceled),
    }
}

/// The answer of the confirmation dialog after an action: none while it
/// continues; a timeout is answered like Cancel.
pub fn confirm_result(a: ConfirmAction) -> (r: Option<ConfirmResult>)
    ensures
        r == confirm_outcome(a),
{
    match a {
        ConfirmAction::Continue => None,
        ConfirmAction::Accept => Some(ConfirmResult::Accepted),
        ConfirmAction::NotOk => Some(ConfirmResult::NotOk),
        ConfirmAction::Cancel => Some(ConfirmResult::Canceled),
    }
}

/// Whether `key` closes the message dialog (Enter, Escape, Space or Ctrl+C).
pub open spec fn message_closes_spec(key: Key) -> bool {
    key == Key::Enter || key == Key::Esc || key == Key::Char(' ') || key == Key::CtrlC
}

/// Whether `key` closes the message dialog.
pub fn message_key_closes(key: Key) -> (r: bool)
    ensures
        r == message_closes_spec(key),
{
    match key {
        Key::Enter | Key::Esc | Key::CtrlC => true,
        Key::Char(c) => c == ' ',
        _ => false,
    }
}

// ---------------------------------------------------------------------------
// Input deadline
// ---------------------------------------------------------------------------

/// What a dialog loop does next about its deadline.
#[derive(Debug, Clone, Copy, PartialEq, Eq)]
pub enum Tick {
    /// The timeout has passed: the dialog is canceled.
    Expired,
    /// Poll for input for at most this many milliseconds.
    Poll(u64),
}

/// The poll interval of a dialog without timeout.
pub open spec fn idle_poll_ms() -> u64 {
    100
}

/// The deadline rule: without timeout poll every 100 ms; with one, poll
/// until it passes and then give up.
pub open spec fn tick_spec(timeout_secs: u32, elapsed_ms: u64) -> Tick {
    if timeout_secs == 0 {
        Tick::Poll(idle_poll_ms())
    } else if elapsed_ms >= timeout_secs as u64 * 1000 {
        Tick::Expired
    } else {
        Tick::Poll((timeout_secs as u64 * 1000 - elapsed_ms) as u64)
    }
}

/// Where a dialog stands with respect to its timeout after `elapsed_ms`.
pub fn dialog_tick(timeout_secs: u32, elapsed_ms: u64) -> (t: Tick)
    ensures
        t == tick_spec(timeout_secs, elapsed_ms),
{
    if timeout_secs == 0 {
        Tick::Poll(100)
    } else {
        let limit = timeout_secs as u64 * 1000;
        if elapsed_ms >= limit {
            Tick::Expired
        } else {
            Tick::Poll(limit - elapsed_ms)
        }
    }
}

/// A dialog with a timeout never waits past it.
pub proof fn lemma_tick_within_deadline(timeout_secs: u32, elapsed_ms: u64)
    requires
        timeout_secs > 0,
    ensures
        tick_spec(timeout_secs, elapsed_ms) matches Tick::Poll(ms) ==> elapsed_ms + ms == timeout_secs as u64 * 1000,
        (tick_spec(timeout_secs, elapsed_ms) == Tick::Expired) <==> elapsed_ms >= timeout_secs as u64 * 1000,
{
}

/// A dialog without timeout never expires and polls every 100 ms.
pub proof fn lemma_no_timeout_never_expires(elapsed_ms: u64)
    ensures
        tick_spec(0, elapsed_ms) == Tick::Poll(idle_poll_ms()),
{
}

// ---------------------------------------------------------------------------
// Dialog turns
// ---------------------------------------------------------------------------

/// A turn of a dialog loop: the deadline as checked at its start, and the
/// key read within it, if any.
pub type Turn = (Tick, Option<Key>);

/// Whether the deadline had not passed at any of the turns.
pub open spec fn in_time(turns: Seq<Turn>) -> bool {
    forall|i: int| 0 <= i < turns.len() ==> (#[trigger] turns[i]).0 is Poll
}

/// The keys read during a series of turns, in order.
pub open spec fn keys_of(turns: Seq<Turn>) -> Seq<Key>
    decreases turns.len(),
{
    if turns.len() == 0 {
        Seq::empty()
    } else {
        match turns[0].1 {
            Some(k) => seq![k] + keys_of(turns.drop_first()),
            None => keys_of(turns.drop_first()),
        }
    }
}

/// One turn of the confirmation dialog: a passed deadline cancels it;
/// otherwise the key read, if any, is applied.
pub open spec fn confirm_turn_spec(tick: Tick, key: Option<Key>, focus: ConfirmFocus, has_notok: bool) -> (ConfirmFocus, Option<ConfirmResult>) {
    match tick {
        Tick::Expired => (focus, Some(ConfirmResult::Canceled)),
        Tick::Poll(_) => match key {
            None => (focus, None),
            Some(k) => (confirm_key_spec(k, focus, has_notok).0, confirm_outcome(confirm_key_spec(k, focus, has_notok).1)),
        },
    }
}

/// Play one turn of the confirmation dialog; returns its answer once there is one.
pub fn confirm_turn(tick: Tick, key: Option<Key>, focus: &mut ConfirmFocus, has_notok: bool) -> (r: Option<ConfirmResult>)
    ensures
        (*final(focus), r) == confirm_turn_spec(tick, key, *old(focus), has_notok),
{
    match tick {
        Tick::Expired => Some(ConfirmResult::Canceled),
        Tick::Poll(_) => match key {
            None => None,
            Some(k) => confirm_result(handle_confirm_key(k, focus, has_notok)),
        },
    }
}

/// The answer of the confirmation dialog after a series of turns: that of
/// the first turn that answers, if any.
pub open spec fn confirm_dialog(turns: Seq<Turn>, focus: ConfirmFocus, has_notok: bool) -> Option<ConfirmResult>
    decreases turns.len(),
{
    if turns.len() == 0 {
        None
    } else {
        let (f2, r) = confirm_turn_spec(turns[0].0, turns[0].1, focus, has_notok);
        if r is Some {
            r
        } else {
            confirm_dialog(turns.drop_first(), f2, has_notok)
        }
    }
}

/// The answer of a deciding action, if any.
pub open spec fn run_answer(o: Option<ConfirmAction>) -> Option<ConfirmResult> {
    match o {
        Some(a) => confirm_outcome(a),
        None => None,
    }
}

/// While the deadline holds, the confirmation dialog answers as its keys
/// decide, whatever turns pass without a key.
pub proof fn lemma_confirm_dialog_follows_keys(turns: Seq<Turn>, focus: ConfirmFocus, has_notok: bool)
    requires
        in_time(turns),
    ensures
        confirm_dialog(turns, focus, has_notok) == run_answer(confirm_run(keys_of(turns), focus, has_notok)),
    decreases turns.len(),
{
    if turns.len() > 0 {
        let rest = turns.drop_first();
        assert(in_time(rest)) by {
            assert forall|i: int| 0 <= i < rest.len() implies (#[trigger] rest[i]).0 is Poll by {
                assert(rest[i] == turns[i + 1]);
            }
        }
        assert(turns[0].0 is Poll);
        match turns[0].1 {
            Some(k) => {
                let ks = seq![k] + keys_of(rest);
                assert(ks[0] == k);
                assert(ks.drop_first() =~= keys_of(rest));
                let (f2, a) = confirm_key_spec(k, focus, has_notok);
                if a == ConfirmAction::Continue {
                    lemma_confirm_dialog_follows_keys(rest, f2, has_notok);
                }
            },
            None => {
                lemma_confirm_dialog_follows_keys(rest, focus, has_notok);
            },
        }
    }
}

/// A confirmation with a timeout whose deadline has passed is canceled.
pub proof fn lemma_confirm_timeout_cancels(
    timeout_secs: u32,
    elapsed_ms: u64,
    key: Option<Key>,
    focus: ConfirmFocus,
    has_notok: bool,
)
    requires
        timeout_secs > 0,
        elapsed_ms >= timeout_secs as u64 * 1000,
    ensures
        confirm_turn_spec(tick_spec(timeout_secs, elapsed_ms), key, focus, has_notok).1 == Some(ConfirmResult::Canceled),
{
}

/// Without a "not ok" button, no series of turns answers "not ok".
pub proof fn lemma_confirm_dialog_without_notok(turns: Seq<Turn>, focus: ConfirmFocus)
    requires
        focus != ConfirmFocus::NotOkButton,
    ensures
        confirm_dialog(turns, focus, false) != Some(ConfirmResult::NotOk),
    decreases turns.len(),
{
    if turns.len() > 0 {
        match turns[0].1 {
            Some(k) => lemma_confirm_without_notok(k, focus),
            None => {},
        }
        let (f2, r) = confirm_turn_spec(turns[0].0, turns[0].1, focus, false);
        if r is None {
            lemma_confirm_dialog_without_notok(turns.drop_first(), f2);
        }
    }
}

/// The answer of the passphrase dialog after an action on the field
/// `input`: Submit gives its text as UTF-8 bytes, Cancel cancels.
pub open spec fn pin_action_outcome(a: GetPinAction, input: Seq<char>) -> Option<PinOutcome> {
    match a {
        GetPinAction::Continue => None,
        GetPinAction::Submit => Some(PinOutcome::Pin(encode_utf8(input))),
        GetPinAction::Cancel => Some(PinOutcome::Canceled),
    }
}

/// The abstract answer of the passphrase dialog.
pub open spec fn pin_answer_view(r: Option<GetPinResult>) -> Option<PinOutcome> {
    match r {
        Some(GetPinResult::Pin(p)) => Some(PinOutcome::Pin(p@)),
        Some(GetPinResult::Canceled) => Some(PinOutcome::Canceled),
        Some(GetPinResult::Closed) => Some(PinOutcome::Closed),
        None => None,
    }
}

/// One turn of the passphrase dialog: a passed deadline cancels it;
/// otherwise the key read, if any, is applied.
pub open spec fn getpin_turn_spec(tick: Tick, key: Option<Key>, focus: GetPinFocus, input: Seq<char>) -> (GetPinFocus, Seq<char>, Option<PinOutcome>) {
    match tick {
        Tick::Expired => (focus, input, Some(PinOutcome::Canceled)),
        Tick::Poll(_) => match key {
            None => (focus, input, None),
            Some(k) => {
                let (f2, i2, a) = getpin_key_spec(k, focus, input);
                (f2, i2, pin_action_outcome(a, i2))
            },
        },
    }
}

/// Play one turn of the passphrase dialog; returns its answer once there is one.
pub fn getpin_turn(tick: Tick, key: Option<Key>, focus: &mut GetPinFocus, input: &mut String) -> (r: Option<GetPinResult>)
    ensures
        (*final(focus), final(input)@, pin_answer_view(r)) == getpin_turn_spec(tick, key, *old(focus), old(input)@),
{
    match tick {
        Tick::Expired => Some(GetPinResult::Canceled),
        Tick::Poll(_) => match key {
            None => None,
            Some(k) => match handle_getpin_key(k, focus, input) {
                GetPinAction::Continue => None,
                GetPinAction::Submit => Some(submitted_pin(input.as_str())),
                GetPinAction::Cancel => Some(GetPinResult::Canceled),
            },
        },
    }
}

/// The answer of the passphrase dialog after a series of turns: that of
/// the first turn that answers, if any.
pub open spec fn getpin_dialog(turns: Seq<Turn>, focus: GetPinFocus, input: Seq<char>) -> Option<PinOutcome>
    decreases turns.len(),
{
    if turns.len() == 0 {
        None
    } else {
        let (f2, i2, r) = getpin_turn_spec(turns[0].0, turns[0].1, focus, input);
        if r is Some {
            r
        } else {
            getpin_dialog(turns.drop_first(), f2, i2)
        }
    }
}

/// The answer of a run of keys on the passphrase dialog, if it decides.
pub open spec fn pin_run_answer(run: (GetPinFocus, Seq<char>, Option<GetPinAction>)) -> Option<PinOutcome> {
    match run.2 {
        Some(a) => pin_action_outcome(a, run.1),
        None => None,
    }
}

/// While the deadline holds, the passphrase dialog answers as its keys
/// decide, whatever turns pass without a key.
pub proof fn lemma_getpin_dialog_follows_keys(turns: Seq<Turn>, focus: GetPinFocus, input: Seq<char>)
    requires
        in_time(turns),
    ensures
        getpin_dialog(turns, focus, input) == pin_run_answer(getpin_run(keys_of(turns), focus, input)),
    decreases turns.len(),
{
    if turns.len() > 0 {
        let rest = turns.drop_first();
        assert(in_time(rest)) by {
            assert forall|i: int| 0 <= i < rest.len() implies (#[trigger] rest[i]).0 is Poll by {
                assert(rest[i] == turns[i + 1]);
            }
        }
        assert(turns[0].0 is Poll);
        match turns[0].1 {
            Some(k) => {
                let ks = seq![k] + keys_of(rest);
                assert(ks[0] == k);
                assert(ks.drop_first() =~= keys_of(rest));
                let (f2, i2, a) = getpin_key_spec(k, focus, input);
                if a == GetPinAction::Continue {
                    lemma_getpin_dialog_follows_keys(rest, f2, i2);
                }
            },
            None => {
                lemma_getpin_dialog_follows_keys(rest, focus, input);
            },
        }
    }
}

/// Typing characters and Backspaces in the field and then Enter, while the
/// deadline holds and whatever turns pass without a key, answers with the
/// UTF-8 bytes of exactly the text typed.
pub proof fn lemma_typed_dialog_submits(turns: Seq<Turn>, keys: Seq<Key>, input: Seq<char>)
    requires
        in_time(turns),
        keys_of(turns) == keys.push(Key::Enter),
        forall|i: int| 0 <= i < keys.len() ==> is_edit_key(#[trigger] keys[i]),
    ensures
        getpin_dialog(turns, GetPinFocus::Input, input) == Some(PinOutcome::Pin(encode_utf8(typed(keys, input)))),
{
    lemma_getpin_dialog_follows_keys(turns, GetPinFocus::Input, input);
    lemma_typed_then_enter_submits(keys, input);
}

/// A passphrase dialog with a timeout whose deadline has passed is canceled.
pub proof fn lemma_getpin_timeout_cancels(timeout_secs: u32, elapsed_ms: u64, key: Option<Key>, focus: GetPinFocus, input: Seq<char>)
    requires
        timeout_secs > 0,
        elapsed_ms >= timeout_secs as u64 * 1000,
    ensures
        getpin_turn_spec(tick_spec(timeout_secs, elapsed_ms), key, focus, input).2 == Some(PinOutcome::Canceled),
{
}

// ---------------------------------------------------------------------------
// Description layout
// ---------------------------------------------------------------------------

/// Position of the first line feed in `s`, or its length if there is none.
pub open spec fn first_newline(s: Seq<char>) -> nat
    decreases s.len(),
{
    if s.len() == 0 {
        0
    } else if s[0] == '\n' {
        0
    } else {
        1 + first_newline(s.drop_first())
    }
}

/// A line without its carriage return, if it has one at the end.
pub open spec fn strip_cr(l: Seq<char>) -> Seq<char> {
    if l.len() > 0 && l.last() == '\r' { l.drop_last() } else { l }
}

/// The lines of a text as `str::lines` splits it: at `\n` or `\r\n`, with
/// no empty line after a final line ending.
pub open spec fn lines_of(s: Seq<char>) -> Seq<Seq<char>>
    decreases s.len(),
{
    if s.len() == 0 {
        Seq::empty()
    } else {
        let i = first_newline(s);
        if i >= s.len() {
            seq![s]
        } else {
            seq![strip_cr(s.take(i as int))] + lines_of(s.skip(i as int + 1))
        }
    }
}

/// Rows a line takes when wrapped at `w` columns; an empty line takes one.
pub open spec fn line_rows(len: nat, w: nat) -> nat {
    if len == 0 { 1 } else { ((len + w - 1) / w as int) as nat }
}

/// Rows taken by all the lines.
pub open spec fn rows_of(ls: Seq<Seq<char>>, w: nat) -> nat
    decreases ls.len(),
{
    if ls.len() == 0 { 0 } else { line_rows(ls[0].len(), w) + rows_of(ls.drop_first(), w) }
}

/// Rows the description takes at `width` columns: none for an empty text or
/// zero width, otherwise the rows of all lines and at least one.
pub open spec fn desc_rows(text: Seq<char>, width: nat) -> nat {
    if text.len() == 0 || width == 0 {
        0
    } else {
        let r = rows_of(lines_of(text), width);
        if r < 1 { 1 } else { r }
    }
}

proof fn lemma_line_rows_bound(len: nat, w: nat)
    requires
        w >= 1,
    ensures
        line_rows(len, w) <= if len == 0 { 1 } else { len },
        line_rows(len, w) >= 1,
{
    if len > 0 {
        assert((len + w - 1) / (w as int) <= len) by (nonlinear_arith)
            requires len >= 1, w >= 1;
        assert((len + w - 1) / (w as int) >= 1) by (nonlinear_arith)
            requires len >= 1, w >= 1;
    }
}

proof fn lemma_first_newline_at(s: Seq<char>, j: int)
    requires
        0 <= j <= s.len(),
        forall|k: int| 0 <= k < j ==> s[k] != '\n',
        j == s.len() || s[j] == '\n',
    ensures
        first_newline(s) == j,
    decreases j,
{
    if j > 0 {
        let t = s.drop_first();
        assert forall|k: int| 0 <= k < j - 1 implies t[k] != '\n' by {
            assert(t[k] == s[k + 1]);
        }
        if j - 1 < t.len() {
            assert(t[j - 1] == s[j]);
        }
        lemma_first_newline_at(t, j - 1);
    }
}

fn line_rows_exec(len: usize, w: usize) -> (r: usize)
    requires
        w >= 1,
    ensures
        r == line_rows(len as nat, w as nat),
{
    if len == 0 {
        1
    } else {
        let q = len / w;
        let m = len % w;
        proof {
            assert(q * w + m == len && 0 <= m < w) by (nonlinear_arith)
                requires w >= 1, q == len / w, m == len % w;
            if m != 0 {
                assert(q < len) by (nonlinear_arith)
                    requires w >= 1, m > 0, q * w + m == len, q >= 0;
            }
        }
        let r = if m == 0 { q } else { q + 1 };
        assert(r as int == (len + w - 1) / (w as int)) by (nonlinear_arith)
            requires
                w >= 1,
                q * w + m == len,
                0 <= m < w,
                m == 0 ==> r == q,
                m != 0 ==> r == q + 1,
        ;
        r
    }
}

/// Rows the description takes in a box `width` columns wide.
pub fn desc_lines(text: &str, width: u16) -> (r: usize)
    ensures
        r == desc_rows(text@, width as nat),
{
    let cs = crate::text::chars_of(text);
    let n = cs.len();
    if n == 0 || width == 0 {
        return 0;
    }
    let w = width as usize;
    let mut total: usize = 0;
    let mut start: usize = 0;
    assert(cs@.skip(0) =~= cs@);
    while start < n
        invariant
            n == cs@.len(),
            cs@ == text@,
            w >= 1,
            w == width,
            start <= n,
            total <= start,
            rows_of(lines_of(cs@), w as nat) == total + rows_of(lines_of(cs@.skip(start as int)), w as nat),
        decreases n - start,
    {
        let ghost rest = cs@.skip(start as int);
        let mut j: usize = start;
        while j < n && cs[j] != '\n'
            invariant
                start <= j <= n,
                n == cs@.len(),
                forall|k: int| start <= k < j ==> cs@[k] != '\n',
            decreases n - j,
        {
            j = j + 1;
        }
        proof {
            assert forall|k: int| 0 <= k < j - start implies rest[k] != '\n' by {
                assert(rest[k] == cs@[start + k]);
            }
            if j < n {
                assert(rest[j - start] == cs@[j as int]);
            }
            lemma_first_newline_at(rest, j - start);
        }
        if j == n {
            let len = n - start;
            let r = line_rows_exec(len, w);
            proof {
                lemma_line_rows_bound(len as nat, w as nat);
                assert(lines_of(rest) == seq![rest]);
                assert(rest.len() == len);
                assert(lines_of(cs@.skip(n as int)) =~= Seq::<Seq<char>>::empty()) by {
                    assert(cs@.skip(n as int) =~= Seq::<char>::empty());
                }
                assert(rows_of(seq![rest], w as nat) == line_rows(rest.len(), w as nat) + rows_of(seq![rest].drop_first(), w as nat));
                assert(seq![rest].drop_first() =~= Seq::<Seq<char>>::empty());
            }
            total = total + r;
            start = n;
        } else {
            let has_cr = j > start && cs[j - 1] == '\r';
            let len = if has_cr { j - 1 - start } else { j - start };
            let r = line_rows_exec(len, w);
            proof {
                let line = strip_cr(rest.take((j - start) as int));
                assert(line.len() == len);
                lemma_line_rows_bound(len as nat, w as nat);
                assert(rest.skip((j - start) as int + 1) =~= cs@.skip(j + 1));
                let ls = lines_of(rest);
                assert(ls == seq![line] + lines_of(cs@.skip(j + 1)));
                assert(ls[0] == line);
                assert(ls.drop_first() =~= lines_of(cs@.skip(j + 1)));
            }
            total = total + r;
            start = j + 1;
        }
    }
    proof {
        assert(cs@.skip(start as int) =~= Seq::<char>::empty());
        assert(cs@.skip(0) =~= cs@);
    }
    if total < 1 { 1 } else { total }
}

} // verus!
