//! Pinentry session state and the secret buffer type.

use vstd::prelude::*;

verus! {

/// Result of a GETPIN interaction.
#[derive(Debug)]
pub enum GetPinResult {
    /// The user entered a passphrase.
    Pin(SecretBytes),
    /// The user canceled the dialog.
    Canceled,
    /// The dialog window was closed.
    Closed,
}

/// Result of a CONFIRM interaction.
#[derive(Debug, Clone, Copy, PartialEq, Eq)]
pub enum ConfirmResult {
    /// The user accepted (OK button).
    Accepted,
    /// The user canceled (Cancel button).
    Canceled,
    /// The user pressed the "not ok" button.
    NotOk,
    /// The dialog window was closed.
    Closed,
}

/// A byte buffer holding passphrase material.
///
/// `wipe` overwrites the bytes with zeros and empties the buffer.
#[derive(Debug, Clone)]
pub struct SecretBytes(pub Vec<u8>);

impl View for SecretBytes {
    type V = Seq<u8>;

    open spec fn view(&self) -> Seq<u8> {
        self.0@
    }
}

/// Zeroes the elements of `v` and empties it (`zeroize::Zeroize::zeroize` on a `Vec<u8>`).
///
/// The crate zeroes the initialized elements and the spare capacity, then
/// clears the vector; the contract states only that the vector ends empty.
#[verifier::external_body]
fn zeroize_vec(v: &mut Vec<u8>)
    ensures
        final(v)@ == Seq::<u8>::empty(),
{
    zeroize::Zeroize::zeroize(v);
}

impl SecretBytes {
    /// An empty secret.
    pub fn new() -> (s: Self)
        ensures
            s@ == Seq::<u8>::empty(),
    {
        SecretBytes(Vec::new())
    }

    /// Wrap the given bytes.
    pub fn from_vec(v: Vec<u8>) -> (s: Self)
        ensures
            s@ == v@,
    {
        SecretBytes(v)
    }

    /// The secret bytes.
    pub fn as_bytes(&self) -> (b: &[u8])
        ensures
            b@ == self@,
    {
        self.0.as_slice()
    }

    /// Number of bytes in the secret.
    pub fn len(&self) -> (n: usize)
        ensures
            n == self@.len(),
    {
        self.0.len()
    }

    /// Whether the secret holds no bytes.
    pub fn is_empty(&self) -> (b: bool)
        ensures
            b == (self@.len() == 0),
    {
        self.0.len() == 0
    }

    /// Overwrite the secret with zeros and leave it empty.
    pub fn wipe(&mut self)
        ensures
            final(self)@ == Seq::<u8>::empty(),
    {
        zeroize_vec(&mut self.0);
    }
}

impl From<Vec<u8>> for SecretBytes {
    fn from(v: Vec<u8>) -> (s: Self) {
        SecretBytes(v)
    }
}

impl vstd::std_specs::convert::FromSpecImpl<Vec<u8>> for SecretBytes {
    open spec fn obeys_from_spec() -> bool {
        true
    }

    open spec fn from_spec(v: Vec<u8>) -> SecretBytes {
        SecretBytes(v)
    }
}

impl Default for SecretBytes {
    fn default() -> (s: Self)
        ensures
            s@ == Seq::<u8>::empty(),
    {
        SecretBytes::new()
    }
}


/// Abstract contents of a [`PinentryState`]: every text field by its characters.
pub struct PinentryStateView {
    pub title: Option<Seq<char>>,
    pub description: Option<Seq<char>>,
    pub error: Option<Seq<char>>,
    pub prompt: Seq<char>,
    pub ok: Seq<char>,
    pub notok: Option<Seq<char>>,
    pub cancel: Seq<char>,
    pub keyinfo: Option<Seq<char>>,
    pub allow_external_password_cache: bool,
    pub tried_password_cache: bool,
    pub may_cache_password: bool,
    pub pin_from_cache: bool,
    pub display: Option<Seq<char>>,
    pub ttyname: Option<Seq<char>>,
    pub ttytype: Option<Seq<char>>,
    pub lc_ctype: Option<Seq<char>>,
    pub lc_messages: Option<Seq<char>>,
    pub timeout: u32,
    pub grab: bool,
    pub repeat_passphrase: Option<Seq<char>>,
    pub repeat_error_string: Option<Seq<char>>,
    pub repeat_ok_string: Option<Seq<char>>,
    pub quality_bar: Option<Seq<char>>,
    pub quality_bar_tt: Option<Seq<char>>,
    pub one_button: bool,
}

/// The characters of an optional string.
pub open spec fn opt_view(o: Option<String>) -> Option<Seq<char>> {
    match o {
        Some(s) => Some(s@),
        None => None,
    }
}

/// Default prompt label.
pub open spec fn default_prompt() -> Seq<char> {
    seq!['P', 'a', 's', 's', 'p', 'h', 'r', 'a', 's', 'e', ':']
}

/// Default OK button label.
pub open spec fn default_ok() -> Seq<char> {
    seq!['O', 'K']
}

/// Default Cancel button label.
pub open spec fn default_cancel() -> Seq<char> {
    seq!['C', 'a', 'n', 'c', 'e', 'l']
}

/// Default input timeout in seconds.
pub open spec fn default_timeout() -> u32 {
    60
}

/// The state of a fresh session.
pub open spec fn initial_state() -> PinentryStateView {
    PinentryStateView {
        title: None,
        description: None,
        error: None,
        prompt: default_prompt(),
        ok: default_ok(),
        notok: None,
        cancel: default_cancel(),
        keyinfo: None,
        allow_external_password_cache: false,
        tried_password_cache: false,
        may_cache_password: false,
        pin_from_cache: false,
        display: None,
        ttyname: None,
        ttytype: None,
        lc_ctype: None,
        lc_messages: None,
        timeout: default_timeout(),
        grab: true,
        repeat_passphrase: None,
        repeat_error_string: None,
        repeat_ok_string: None,
        quality_bar: None,
        quality_bar_tt: None,
        one_button: false,
    }
}

impl PinentryStateView {
    /// The state after RESET: per-request fields back to their defaults,
    /// session-level options kept.
    pub open spec fn reset(self) -> PinentryStateView {
        PinentryStateView {
            title: None,
            description: None,
            error: None,
            prompt: default_prompt(),
            ok: default_ok(),
            notok: None,
            cancel: default_cancel(),
            repeat_passphrase: None,
            repeat_error_string: None,
            repeat_ok_string: None,
            quality_bar: None,
            quality_bar_tt: None,
            pin_from_cache: false,
            may_cache_password: false,
            ..self
        }
    }

    /// Whether two states agree on every session-level option.
    pub open spec fn same_session(self, other: PinentryStateView) -> bool {
        &&& self.keyinfo == other.keyinfo
        &&& self.allow_external_password_cache == other.allow_external_password_cache
        &&& self.tried_password_cache == other.tried_password_cache
        &&& self.display == other.display
        &&& self.ttyname == other.ttyname
        &&& self.ttytype == other.ttytype
        &&& self.lc_ctype == other.lc_ctype
        &&& self.lc_messages == other.lc_messages
        &&& self.timeout == other.timeout
        &&& self.grab == other.grab
        &&& self.one_button == other.one_button
    }
}

/// The pinentry state.
///
/// Accumulates everything received through Assuan commands (SETDESC,
/// SETPROMPT, SETERROR, OPTION, ...) before a GETPIN, CONFIRM or MESSAGE.
#[derive(Debug)]
pub struct PinentryState {
    /// Window title (SETTITLE).
    pub title: Option<String>,
    /// Description text (SETDESC).
    pub description: Option<String>,
    /// Error message (SETERROR), shown with the next dialog.
    pub error: Option<String>,
    /// Input prompt label (SETPROMPT), default `Passphrase:`.
    pub prompt: String,
    /// OK button label (SETOK), default `OK`.
    pub ok: String,
    /// "Not OK" button label (SETNOTOK).
    pub notok: Option<String>,
    /// Cancel button label (SETCANCEL), default `Cancel`.
    pub cancel: String,
    /// Key identifier for keychain caching (SETKEYINFO).
    pub keyinfo: Option<String>,
    /// Whether an external password cache may be used (OPTION allow-external-password-cache).
    pub allow_external_password_cache: bool,
    /// Whether the password cache was already consulted in this session.
    pub tried_password_cache: bool,
    /// Whether the entered passphrase may be stored in the cache.
    pub may_cache_password: bool,
    /// Whether the passphrase came from the cache.
    pub pin_from_cache: bool,
    /// X display name.
    pub display: Option<String>,
    /// TTY name.
    pub ttyname: Option<String>,
    /// TTY type.
    pub ttytype: Option<String>,
    /// LC_CTYPE value.
    pub lc_ctype: Option<String>,
    /// LC_MESSAGES value.
    pub lc_messages: Option<String>,
    /// Input timeout in seconds, 0 for none.
    pub timeout: u32,
    /// Whether to grab keyboard focus.
    pub grab: bool,
    /// Repeat-passphrase prompt (SETREPEAT).
    pub repeat_passphrase: Option<String>,
    /// Repeat mismatch error text (SETREPEATERROR).
    pub repeat_error_string: Option<String>,
    /// Repeat match text (SETREPEATOK).
    pub repeat_ok_string: Option<String>,
    /// Quality bar label (SETQUALITYBAR).
    pub quality_bar: Option<String>,
    /// Quality bar tooltip (SETQUALITYBAR_TT).
    pub quality_bar_tt: Option<String>,
    /// Whether the confirmation dialog has a single button.
    pub one_button: bool,
}

impl View for PinentryState {
    type V = PinentryStateView;

    open spec fn view(&self) -> PinentryStateView {
        PinentryStateView {
            title: opt_view(self.title),
            description: opt_view(self.description),
            error: opt_view(self.error),
            prompt: self.prompt@,
            ok: self.ok@,
            notok: opt_view(self.notok),
            cancel: self.cancel@,
            keyinfo: opt_view(self.keyinfo),
            allow_external_password_cache: self.allow_external_password_cache,
            tried_password_cache: self.tried_password_cache,
            may_cache_password: self.may_cache_password,
            pin_from_cache: self.pin_from_cache,
            display: opt_view(self.display),
            ttyname: opt_view(self.ttyname),
            ttytype: opt_view(self.ttytype),
            lc_ctype: opt_view(self.lc_ctype),
            lc_messages: opt_view(self.lc_messages),
            timeout: self.timeout,
            grab: self.grab,
            repeat_passphrase: opt_view(self.repeat_passphrase),
            repeat_error_string: opt_view(self.repeat_error_string),
            repeat_ok_string: opt_view(self.repeat_ok_string),
            quality_bar: opt_view(self.quality_bar),
            quality_bar_tt: opt_view(self.quality_bar_tt),
            one_button: self.one_button,
        }
    }
}

fn prompt_default() -> (s: String)
    ensures
        s@ == default_prompt(),
{
    let s = String::from_str("Passphrase:");
    proof {
        reveal_strlit("Passphrase:");
    }
    assert(s@ =~= default_prompt());
    s
}

fn ok_default() -> (s: String)
    ensures
        s@ == default_ok(),
{
    let s = String::from_str("OK");
    proof {
        reveal_strlit("OK");
    }
    assert(s@ =~= default_ok());
    s
}

fn cancel_default() -> (s: String)
    ensures
        s@ == default_cancel(),
{
    let s = String::from_str("Cancel");
    proof {
        reveal_strlit("Cancel");
    }
    assert(s@ =~= default_cancel());
    s
}

impl PinentryState {
    /// A fresh session state with default labels, a 60 second timeout and
    /// keyboard grabbing enabled.
    pub fn new() -> (s: Self)
        ensures
            s@ == initial_state(),
    {
        PinentryState {
            title: None,
            description: None,
            error: None,
            prompt: prompt_default(),
            ok: ok_default(),
            notok: None,
            cancel: cancel_default(),
            keyinfo: None,
            allow_external_password_cache: false,
            tried_password_cache: false,
            may_cache_password: false,
            pin_from_cache: false,
            display: None,
            ttyname: None,
            ttytype: None,
            lc_ctype: None,
            lc_messages: None,
            timeout: 60,
            grab: true,
            repeat_passphrase: None,
            repeat_error_string: None,
            repeat_ok_string: None,
            quality_bar: None,
            quality_bar_tt: None,
            one_button: false,
        }
    }

    /// Reset per-request fields (title, description, error, prompt,
    /// buttons, repeat and quality-bar texts, cache flags of the request);
    /// session-level options (grab, display, tty, timeout, keyinfo, ...) stay.
    pub fn reset(&mut self)
        ensures
            final(self)@ == old(self)@.reset(),
    {
        self.title = None;
        self.description = None;
        self.error = None;
        self.prompt = prompt_default();
        self.ok = ok_default();
        self.notok = None;
        self.cancel = cancel_default();
        self.repeat_passphrase = None;
        self.repeat_error_string = None;
        self.repeat_ok_string = None;
        self.quality_bar = None;
        self.quality_bar_tt = None;
        self.pin_from_cache = false;
        self.may_cache_password = false;
    }
}

impl Default for PinentryState {
    fn default() -> (s: Self)
        ensures
            s@ == initial_state(),
    {
        PinentryState::new()
    }
}

/// RESET keeps every session-level option.
pub proof fn lemma_reset_keeps_session(s: PinentryStateView)
    ensures
        s.reset().same_session(s),
{
}

/// RESET is idempotent: a second RESET changes nothing.
pub proof fn lemma_reset_idempotent(s: PinentryStateView)
    ensures
        s.reset().reset() == s.reset(),
{
}

/// RESET of a fresh session leaves it fresh.
pub proof fn lemma_reset_initial()
    ensures
        initial_state().reset() == initial_state(),
{
}

/// RESET brings every per-request field back to the value a fresh session
/// has: no title, description, error, "not ok" label, repeat texts or
/// quality bar; the default prompt and button labels; no passphrase from
/// the cache and no consent to store one.
pub proof fn lemma_reset_clears_request(s: PinentryStateView)
    ensures
        s.reset().title is None,
        s.reset().description is None,
        s.reset().error is None,
        s.reset().notok is None,
        s.reset().repeat_passphrase is None,
        s.reset().repeat_error_string is None,
        s.reset().repeat_ok_string is None,
        s.reset().quality_bar is None,
        s.reset().quality_bar_tt is None,
        s.reset().prompt == seq!['P', 'a', 's', 's', 'p', 'h', 'r', 'a', 's', 'e', ':'],
        s.reset().ok == seq!['O', 'K'],
        s.reset().cancel == seq!['C', 'a', 'n', 'c', 'e', 'l'],
        !s.reset().pin_from_cache,
        !s.reset().may_cache_password,
        s.reset().prompt == initial_state().prompt,
        s.reset().ok == initial_state().ok,
        s.reset().cancel == initial_state().cancel,
{
}

} // verus!
