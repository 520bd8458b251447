//! The line-based terminal front end: which device it opens, the text it
//! writes before reading, and how it reads the answers.

use vstd::prelude::*;

use vstd::utf8::encode_utf8;

use crate::state::{ConfirmResult, GetPinResult, PinentryState, PinentryStateView, SecretBytes};
use crate::text::{clone_string, lit, str_eq};

verus! {

/// The line-based terminal front end.
#[derive(Debug, Clone, Copy, PartialEq, Eq)]
pub struct TtyUi;

/// Flavor reported by the line-based front end.
pub open spec fn tty_flavor() -> Seq<char> {
    "wukong:tty"@
}

impl TtyUi {
    /// A line-based front end.
    pub fn new() -> (ui: Self)
        ensures
            ui == TtyUi,
    {
        TtyUi
    }

    /// The UI flavor identifier.
    pub fn flavor(&self) -> (r: &'static str)
        ensures
            r@ == tty_flavor(),
    {
        "wukong:tty"
    }
}

// ---------------------------------------------------------------------------
// Device and prompts
// ---------------------------------------------------------------------------

/// The terminal device: the one named by `OPTION ttyname`, else `/dev/tty`.
pub open spec fn tty_path_spec(st: PinentryStateView) -> Seq<char> {
    match st.ttyname {
        Some(t) => t,
        None => "/dev/tty"@,
    }
}

/// Which terminal device to open.
pub fn tty_path(state: &PinentryState) -> (r: String)
    ensures
        r@ == tty_path_spec(state@),
{
    match &state.ttyname {
        Some(t) => clone_string(t),
        None => lit("/dev/tty"),
    }
}

/// The description on a line of its own, if there is one.
pub open spec fn desc_line(st: PinentryStateView) -> Seq<char> {
    match st.description {
        Some(d) => d + "\n"@,
        None => Seq::empty(),
    }
}

/// The caller's feedback (SETERROR) verbatim on a line of its own, if there is any.
pub open spec fn error_line(st: PinentryStateView) -> Seq<char> {
    match st.error {
        Some(e) => e + "\n"@,
        None => Seq::empty(),
    }
}

/// What is written before the passphrase is read.
pub open spec fn pin_prompt_spec(st: PinentryStateView) -> Seq<char> {
    desc_line(st) + error_line(st) + st.prompt + " "@
}

/// The button line of the confirmation prompt.
pub open spec fn confirm_buttons(st: PinentryStateView) -> Seq<char> {
    match st.notok {
        Some(n) => "["@ + st.ok + "] ["@ + n + "] ["@ + st.cancel + "]? "@,
        None => "["@ + st.ok + "] ["@ + st.cancel + "]? "@,
    }
}

/// What is written before the confirmation answer is read.
pub open spec fn confirm_prompt_spec(st: PinentryStateView) -> Seq<char> {
    desc_line(st) + error_line(st) + confirm_buttons(st)
}

/// What is written before the message is acknowledged.
pub open spec fn message_prompt_spec(st: PinentryStateView) -> Seq<char> {
    desc_line(st) + error_line(st) + "[OK] "@
}

fn push_desc_and_error(out: &mut String, state: &PinentryState)
    ensures
        final(out)@ == old(out)@ + desc_line(state@) + error_line(state@),
{
    let ghost start = out@;
    if let Some(d) = &state.description {
        out.append(d.as_str());
        out.append("\n");
    }
    assert(out@ == start + desc_line(state@));
    let ghost mid = out@;
    if let Some(e) = &state.error {
        out.append(e.as_str());
        out.append("\n");
    }
    assert(out@ == mid + error_line(state@));
}

/// The text written before the passphrase is read.
pub fn pin_prompt_text(state: &PinentryState) -> (r: String)
    ensures
        r@ == pin_prompt_spec(state@),
{
    let mut out = String::new();
    push_desc_and_error(&mut out, state);
    out.append(state.prompt.as_str());
    out.append(" ");
    assert(out@ =~= pin_prompt_spec(state@));
    out
}

/// The text written before the confirmation answer is read.
pub fn confirm_prompt_text(state: &PinentryState) -> (r: String)
    ensures
        r@ == confirm_prompt_spec(state@),
{
    let mut out = String::new();
    push_desc_and_error(&mut out, state);
    let ghost head = out@;
    out.append("[");
    out.append(state.ok.as_str());
    match &state.notok {
        Some(n) => {
            out.append("] [");
            out.append(n.as_str());
        },
        None => {},
    }
    out.append("] [");
    out.append(state.cancel.as_str());
    out.append("]? ");
    assert(out@ =~= head + confirm_buttons(state@));
    out
}

/// The text written before the message is acknowledged.
pub fn message_prompt_text(state: &PinentryState) -> (r: String)
    ensures
        r@ == message_prompt_spec(state@),
{
    let mut out = String::new();
    push_desc_and_error(&mut out, state);
    out.append("[OK] ");
    assert(out@ =~= message_prompt_spec(state@));
    out
}

/// The outcome of a passphrase read without echo: an empty line cancels.
pub fn tty_pin_result(pin: &str) -> (r: GetPinResult)
    ensures
        pin@.len() == 0 ==> r == GetPinResult::Canceled,
        pin@.len() > 0 ==> (r matches GetPinResult::Pin(s) && s@ == encode_utf8(pin@)),
{
    if pin.is_empty() {
        GetPinResult::Canceled
    } else {
        let bytes = pin.as_bytes_vec();
        GetPinResult::Pin(SecretBytes::from_vec(bytes))
    }
}

// ---------------------------------------------------------------------------
// Line-based confirmation
// ---------------------------------------------------------------------------

/// Whether `c` is Unicode white space (`char::is_whitespace`).
pub open spec fn is_white(c: char) -> bool {
    ||| ('\u{9}' <= c && c <= '\u{d}')
    ||| c == ' '
    ||| c == '\u{85}'
    ||| c == '\u{a0}'
    ||| c == '\u{1680}'
    ||| ('\u{2000}' <= c && c <= '\u{200a}')
    ||| c == '\u{2028}'
    ||| c == '\u{2029}'
    ||| c == '\u{202f}'
    ||| c == '\u{205f}'
    ||| c == '\u{3000}'
}

/// `t` is `s` with leading and trailing white space removed.
pub open spec fn is_trim_of(t: Seq<char>, s: Seq<char>) -> bool {
    exists|i: int, j: int| {
        &&& 0 <= i <= j <= s.len()
        &&& t == s.subrange(i, j)
        &&& (forall|k: int| 0 <= k < i ==> is_white(#[trigger] s[k]))
        &&& (forall|k: int| j <= k < s.len() ==> is_white(#[trigger] s[k]))
        &&& (i < j ==> !is_white(s[i]) && !is_white(s[j - 1]))
    }
}

/// `str::trim`: the slice without leading and trailing white space.
#[verifier::external_body]
fn str_trim(s: &str) -> (r: &str)
    ensures
        is_trim_of(r@, s@),
{
    s.trim()
}

/// The lower-case form of a text, as `str::to_lowercase` maps it (Unicode case mapping).
pub uninterp spec fn lowercased(s: Seq<char>) -> Seq<char>;

/// `str::to_lowercase`: the text mapped to lower case.
#[verifier::external_body]
fn str_to_lowercase(s: &str) -> (r: String)
    ensures
        r@ == lowercased(s@),
{
    s.to_lowercase()
}

/// The meaning of a normalized answer to the line-based confirmation: empty,
/// `y`, `yes` or `ok` accept; `n`, `no` or `cancel` cancel; anything else
/// is "not ok" when that button exists and a cancel otherwise.
pub open spec fn answer_spec(word: Seq<char>, has_notok: bool) -> ConfirmResult {
    if word.len() == 0 || word == "y"@ || word == "yes"@ || word == "ok"@ {
        ConfirmResult::Accepted
    } else if word == "n"@ || word == "no"@ || word == "cancel"@ {
        ConfirmResult::Canceled
    } else if has_notok {
        ConfirmResult::NotOk
    } else {
        ConfirmResult::Canceled
    }
}

/// Interpret an answer that is already trimmed and in lower case.
pub fn confirm_answer(word: &str, has_notok: bool) -> (r: ConfirmResult)
    ensures
        r == answer_spec(word@, has_notok),
{
    if word.is_empty() || str_eq(word, "y") || str_eq(word, "yes") || str_eq(word, "ok") {
        ConfirmResult::Accepted
    } else if str_eq(word, "n") || str_eq(word, "no") || str_eq(word, "cancel") {
        ConfirmResult::Canceled
    } else if has_notok {
        ConfirmResult::NotOk
    } else {
        ConfirmResult::Canceled
    }
}

/// Interpret what the line-based confirmation prompt read: nothing at all
/// (end of input) is "not ok"; otherwise the line is trimmed and lower-cased,
/// then read by [`confirm_answer`].
pub fn tty_confirm_result(bytes_read: usize, line: &str, has_notok: bool) -> (r: ConfirmResult)
    ensures
        bytes_read == 0 ==> r == ConfirmResult::NotOk,
        bytes_read > 0 ==> exists|t: Seq<char>| is_trim_of(t, line@) && r == answer_spec(lowercased(t), has_notok),
{
    if bytes_read == 0 {
        return ConfirmResult::NotOk;
    }
    let t = str_trim(line);
    let lower = str_to_lowercase(t);
    let r = confirm_answer(lower.as_str(), has_notok);
    assert(is_trim_of(t@, line@) && r == answer_spec(lowercased(t@), has_notok));
    r
}

/// The meaning of each answer word, whatever buttons are shown: an empty
/// answer, `y`, `yes` and `ok` accept; `n`, `no` and `cancel` cancel; any
/// other word is "not ok" when that button is shown and cancels otherwise.
pub proof fn lemma_answer_words(word: Seq<char>, has_notok: bool)
    ensures
        answer_spec(Seq::empty(), has_notok) == ConfirmResult::Accepted,
        answer_spec(seq!['y'], has_notok) == ConfirmResult::Accepted,
        answer_spec(seq!['y', 'e', 's'], has_notok) == ConfirmResult::Accepted,
        answer_spec(seq!['o', 'k'], has_notok) == ConfirmResult::Accepted,
        answer_spec(seq!['n'], has_notok) == ConfirmResult::Canceled,
        answer_spec(seq!['n', 'o'], has_notok) == ConfirmResult::Canceled,
        answer_spec(seq!['c', 'a', 'n', 'c', 'e', 'l'], has_notok) == ConfirmResult::Canceled,
        !(word.len() == 0 || word == seq!['y'] || word == seq!['y', 'e', 's'] || word == seq!['o', 'k']
            || word == seq!['n'] || word == seq!['n', 'o'] || word == seq!['c', 'a', 'n', 'c', 'e', 'l'])
            ==> answer_spec(word, has_notok) == if has_notok { ConfirmResult::NotOk } else { ConfirmResult::Canceled },
{
    reveal_strlit("y");
    reveal_strlit("yes");
    reveal_strlit("ok");
    reveal_strlit("n");
    reveal_strlit("no");
    reveal_strlit("cancel");
    assert("y"@ =~= seq!['y']);
    assert("yes"@ =~= seq!['y', 'e', 's']);
    assert("ok"@ =~= seq!['o', 'k']);
    assert("n"@ =~= seq!['n']);
    assert("no"@ =~= seq!['n', 'o']);
    assert("cancel"@ =~= seq!['c', 'a', 'n', 'c', 'e', 'l']);
    assert(seq!['n'][0] != seq!['y'][0]);
    assert(seq!['n', 'o'][0] != seq!['o', 'k'][0]);
    assert(seq!['n'] != seq!['y']);
    assert(seq!['n', 'o'] != seq!['o', 'k']);
    assert(seq!['n'].len() != seq!['y', 'e', 's'].len());
    assert(seq!['n'].len() != seq!['o', 'k'].len());
    assert(seq!['n', 'o'].len() != seq!['y'].len());
    assert(seq!['n', 'o'].len() != seq!['y', 'e', 's'].len());
}

} // verus!
