//! The full-screen terminal front end: the texts its dialogs show. Drawing
//! and key reading are done by the caller; key handling is in
//! [`crate::ui::dialog`].

use vstd::prelude::*;

use vstd::utf8::encode_utf8;

use crate::state::{GetPinResult, PinentryState, PinentryStateView, SecretBytes};
use crate::text::{clone_string, lit, push_char};

verus! {

/// The full-screen terminal front end.
#[derive(Debug, Clone, Copy, PartialEq, Eq)]
pub struct TuiUi;

/// Flavor reported by the full-screen front end.
pub open spec fn tui_flavor() -> Seq<char> {
    "wukong:tui"@
}

impl TuiUi {
    /// A full-screen front end.
    pub fn new() -> (ui: Self)
        ensures
            ui == TuiUi,
    {
        TuiUi
    }

    /// The UI flavor identifier.
    pub fn flavor(&self) -> (r: &'static str)
        ensures
            r@ == tui_flavor(),
    {
        "wukong:tui"
    }
}

/// The dialog title: the one set by SETTITLE, else the program name.
pub open spec fn title_spec(st: PinentryStateView) -> Seq<char> {
    match st.title {
        Some(t) => t,
        None => "pinentry-wukong"@,
    }
}

/// The title shown in the dialog frame.
pub fn dialog_title(state: &PinentryState) -> (r: String)
    ensures
        r@ == title_spec(state@),
{
    match &state.title {
        Some(t) => clone_string(t),
        None => lit("pinentry-wukong"),
    }
}

/// The label of the "not ok" button: the one set by SETNOTOK, else `Not OK`.
pub open spec fn notok_label_spec(st: PinentryStateView) -> Seq<char> {
    match st.notok {
        Some(n) => n,
        None => "Not OK"@,
    }
}

/// The label of the "not ok" button.
pub fn notok_label(state: &PinentryState) -> (r: String)
    ensures
        r@ == notok_label_spec(state@),
{
    match &state.notok {
        Some(n) => clone_string(n),
        None => lit("Not OK"),
    }
}

/// The input field: one bullet per character typed, never the characters.
pub fn masked_input(input: &str) -> (r: String)
    ensures
        r@ == Seq::new(input@.len(), |i: int| '•'),
{
    let n = input.unicode_len();
    let mut out = String::new();
    let mut i: usize = 0;
    while i < n
        invariant
            n == input@.len(),
            i <= n,
            out@ == Seq::new(i as nat, |k: int| '•'),
        decreases n - i,
    {
        push_char(&mut out, '•');
        i = i + 1;
        assert(out@ =~= Seq::new(i as nat, |k: int| '•'));
    }
    out
}

/// A button as drawn: the label between brackets, padded by spaces.
pub fn button_text(label: &str) -> (r: String)
    ensures
        r@ == " [ "@ + label@ + " ] "@,
{
    let mut out = lit(" [ ");
    out.append(label);
    out.append(" ] ");
    out
}

/// The answer of a submitted passphrase field: its text as UTF-8 bytes.
pub fn submitted_pin(input: &str) -> (r: GetPinResult)
    ensures
        r matches GetPinResult::Pin(p) && p@ == encode_utf8(input@),
{
    GetPinResult::Pin(SecretBytes::from_vec(input.as_bytes_vec()))
}

} // verus!
