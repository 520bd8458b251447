//! The pinentry side of the Assuan conversation, as a state machine.
//!
//! The caller owns the pipe, the dialogs and the keychain. It hands each
//! request to a method here and gets back a [`Step`]: an [`Effect`] to
//! perform and the reply lines to send. When the effect is a dialog or a
//! cache lookup, the caller reports its outcome to the matching `after_*`
//! method, which yields the next step.

use vstd::prelude::*;
use vstd::utf8::encode_utf8;

use crate::command::{Command, CommandView};
use crate::error::{ErrorKind, ProtocolError, ProtocolErrorView};
use crate::state::{ConfirmResult, GetPinResult, PinentryState, PinentryStateView, SecretBytes, initial_state, opt_view};
use crate::text::{clone_string, decimal, format_u32, lit, parse_u32_spec, str_eq};

verus! {

/// A response line sent to the client.
#[derive(Debug)]
pub enum Reply {
    /// `OK [message]`.
    Success(Option<String>),
    /// `ERR code [message]`.
    Failure(ProtocolError),
    /// `S keyword value`.
    Status(String, String),
    /// `D data`.
    Data(Vec<u8>),
}

/// Abstract contents of a [`Reply`].
pub enum ReplyView {
    Success(Option<Seq<char>>),
    Failure(ProtocolErrorView),
    Status(Seq<char>, Seq<char>),
    Data(Seq<u8>),
}

impl View for Reply {
    type V = ReplyView;

    open spec fn view(&self) -> ReplyView {
        match self {
            Reply::Success(m) => ReplyView::Success(opt_view(*m)),
            Reply::Failure(e) => ReplyView::Failure(e@),
            Reply::Status(k, v) => ReplyView::Status(k@, v@),
            Reply::Data(d) => ReplyView::Data(d@),
        }
    }
}

/// Outside work the caller performs before sending the replies of a step.
#[derive(Debug)]
pub enum Effect {
    /// Nothing to do.
    Nothing,
    /// Remove the cached passphrase stored under this key info; the outcome is only logged.
    ClearCache(String),
    /// Store the passphrase under this key info; the outcome is only logged.
    SaveCache(String, SecretBytes),
    /// Look up the cached passphrase for this key info and report it to `after_lookup`.
    LookupCache(String),
    /// Show the passphrase dialog for the current state and report to `after_pin`.
    PromptPin,
    /// Show the confirmation dialog and report to `after_confirm`.
    PromptConfirm,
    /// Show the message dialog and report to `after_message`.
    PromptMessage,
}

/// Abstract contents of an [`Effect`].
pub enum EffectView {
    Nothing,
    ClearCache(Seq<char>),
    SaveCache(Seq<char>, Seq<u8>),
    LookupCache(Seq<char>),
    PromptPin,
    PromptConfirm,
    PromptMessage,
}

impl View for Effect {
    type V = EffectView;

    open spec fn view(&self) -> EffectView {
        match self {
            Effect::Nothing => EffectView::Nothing,
            Effect::ClearCache(k) => EffectView::ClearCache(k@),
            Effect::SaveCache(k, s) => EffectView::SaveCache(k@, s@),
            Effect::LookupCache(k) => EffectView::LookupCache(k@),
            Effect::PromptPin => EffectView::PromptPin,
            Effect::PromptConfirm => EffectView::PromptConfirm,
            Effect::PromptMessage => EffectView::PromptMessage,
        }
    }
}

/// One step of a command: the effect to perform, then the lines to send.
#[derive(Debug)]
pub struct Step {
    pub effect: Effect,
    pub replies: Vec<Reply>,
}

/// Abstract contents of a [`Step`].
pub struct StepView {
    pub effect: EffectView,
    pub replies: Seq<ReplyView>,
}

impl View for Step {
    type V = StepView;

    open spec fn view(&self) -> StepView {
        StepView { effect: self.effect@, replies: self.replies@.map_values(|r: Reply| r@) }
    }
}

/// Facts about the running program that GETINFO reports.
#[derive(Debug)]
pub struct HostInfo {
    /// Program version.
    pub version: String,
    /// Process id.
    pub pid: u32,
    /// UI flavor identifier.
    pub flavor: String,
}

/// Abstract contents of a [`HostInfo`].
pub struct HostInfoView {
    pub version: Seq<char>,
    pub pid: u32,
    pub flavor: Seq<char>,
}

impl View for HostInfo {
    type V = HostInfoView;

    open spec fn view(&self) -> HostInfoView {
        HostInfoView { version: self.version@, pid: self.pid, flavor: self.flavor@ }
    }
}

/// Terminal options given on the command line, which a session starts with
/// until the client sets them with OPTION.
#[derive(Debug, Clone, PartialEq, Eq)]
pub struct TerminalOptions {
    pub display: Option<String>,
    pub ttyname: Option<String>,
    pub ttytype: Option<String>,
    pub lc_ctype: Option<String>,
    pub lc_messages: Option<String>,
}

/// Abstract contents of [`TerminalOptions`].
pub struct TerminalOptionsView {
    pub display: Option<Seq<char>>,
    pub ttyname: Option<Seq<char>>,
    pub ttytype: Option<Seq<char>>,
    pub lc_ctype: Option<Seq<char>>,
    pub lc_messages: Option<Seq<char>>,
}

impl View for TerminalOptions {
    type V = TerminalOptionsView;

    open spec fn view(&self) -> TerminalOptionsView {
        TerminalOptionsView {
            display: opt_view(self.display),
            ttyname: opt_view(self.ttyname),
            ttytype: opt_view(self.ttytype),
            lc_ctype: opt_view(self.lc_ctype),
            lc_messages: opt_view(self.lc_messages),
        }
    }
}

/// The pinentry server: session state plus whether a keychain is attached.
#[derive(Debug)]
pub struct PinentryServer {
    pub state: PinentryState,
    pub has_keychain: bool,
}

/// Abstract contents of a [`PinentryServer`].
pub struct ServerView {
    pub state: PinentryStateView,
    pub has_keychain: bool,
}

impl View for PinentryServer {
    type V = ServerView;

    open spec fn view(&self) -> ServerView {
        ServerView { state: self.state@, has_keychain: self.has_keychain }
    }
}

// ---------------------------------------------------------------------------
// Specification of the protocol
// ---------------------------------------------------------------------------

/// `OK` without message.
pub open spec fn ok_line() -> ReplyView {
    ReplyView::Success(None)
}

/// `ERR` of the given kind, without message.
pub open spec fn err_line(kind: ErrorKind) -> ReplyView {
    ReplyView::Failure(ProtocolErrorView { kind, message: None })
}

/// `S BUTTON_INFO close`.
pub open spec fn closed_status() -> ReplyView {
    ReplyView::Status("BUTTON_INFO"@, "close"@)
}

/// A step with no effect.
pub open spec fn finish(replies: Seq<ReplyView>) -> StepView {
    StepView { effect: EffectView::Nothing, replies }
}

/// A step that waits for outside work before anything is sent.
pub open spec fn await_effect(effect: EffectView) -> StepView {
    StepView { effect, replies: Seq::empty() }
}

/// Options that are accepted and have no effect.
pub open spec fn ignored_option(key: Seq<char>) -> bool {
    ||| key == "owner"@
    ||| key == "parent-wid"@
    ||| key == "touch-file"@
    ||| key == "default-ok"@
    ||| key == "default-cancel"@
    ||| key == "default-prompt"@
    ||| key == "default-pwmngr"@
    ||| key == "default-cf-visi"@
    ||| key == "default-tt-visi"@
    ||| key == "default-tt-hide"@
    ||| key == "default-capshint"@
    ||| key == "default-yes"@
    ||| key == "default-no"@
    ||| key == "invisible-char"@
    ||| key == "formatted-passphrase"@
    ||| key == "formatted-passphrase-hint"@
    ||| key == "constraints-enforce"@
    ||| key == "constraints-hint-short"@
    ||| key == "constraints-hint-long"@
    ||| key == "constraints-error-title"@
    ||| key == "allow-emacs-prompt"@
    ||| key == "debug-wait"@
}

/// The state after `OPTION key=value`, or the error it is answered with.
pub open spec fn option_spec(s: ServerView, key: Seq<char>, value: Seq<char>) -> Result<PinentryStateView, ProtocolErrorView> {
    let st = s.state;
    if key == "no-grab"@ {
        Ok(PinentryStateView { grab: false, ..st })
    } else if key == "grab"@ {
        Ok(PinentryStateView { grab: true, ..st })
    } else if key == "display"@ {
        Ok(PinentryStateView { display: Some(value), ..st })
    } else if key == "ttyname"@ {
        Ok(PinentryStateView { ttyname: Some(value), ..st })
    } else if key == "ttytype"@ {
        Ok(PinentryStateView { ttytype: Some(value), ..st })
    } else if key == "lc-ctype"@ {
        Ok(PinentryStateView { lc_ctype: Some(value), ..st })
    } else if key == "lc-messages"@ {
        Ok(PinentryStateView { lc_messages: Some(value), ..st })
    } else if key == "allow-external-password-cache"@ {
        Ok(PinentryStateView {
            allow_external_password_cache: true,
            tried_password_cache: false,
            may_cache_password: if s.has_keychain { true } else { st.may_cache_password },
            ..st
        })
    } else if ignored_option(key) {
        Ok(st)
    } else {
        Err(ProtocolErrorView { kind: ErrorKind::UnknownCommand, message: Some("unknown option: "@ + key) })
    }
}

/// Whether the next GETPIN consults the password cache first.
pub open spec fn cache_lookup_due(st: PinentryStateView) -> bool {
    &&& st.allow_external_password_cache
    &&& st.keyinfo is Some
    &&& !st.tried_password_cache
    &&& st.error is None
}

/// GETPIN: consult the cache when due, else show the dialog.
pub open spec fn getpin_spec(s: ServerView) -> (PinentryStateView, StepView) {
    let st = s.state;
    if cache_lookup_due(st) {
        let st2 = PinentryStateView { tried_password_cache: true, ..st };
        if s.has_keychain {
            (st2, await_effect(EffectView::LookupCache(st.keyinfo->0)))
        } else {
            (st2, await_effect(EffectView::PromptPin))
        }
    } else {
        (st, await_effect(EffectView::PromptPin))
    }
}

/// The text of a TTY field for GETINFO ttyinfo: the value or `-`.
pub open spec fn or_dash(o: Option<Seq<char>>) -> Seq<char> {
    match o {
        Some(s) => s,
        None => "-"@,
    }
}

/// GETINFO ttyinfo: `ttyname ttytype display - -`.
pub open spec fn ttyinfo_text(st: PinentryStateView) -> Seq<char> {
    or_dash(st.ttyname) + " "@ + or_dash(st.ttytype) + " "@ + or_dash(st.display) + " - -"@
}

/// The answer to GETINFO.
pub open spec fn getinfo_spec(st: PinentryStateView, what: Seq<char>, info: HostInfoView) -> Seq<ReplyView> {
    if what == "version"@ {
        seq![ReplyView::Data(encode_utf8(info.version)), ok_line()]
    } else if what == "pid"@ {
        seq![ReplyView::Data(encode_utf8(decimal(info.pid as nat))), ok_line()]
    } else if what == "flavor"@ {
        seq![ReplyView::Data(encode_utf8(info.flavor)), ok_line()]
    } else if what == "ttyinfo"@ {
        seq![ReplyView::Data(encode_utf8(ttyinfo_text(st))), ok_line()]
    } else {
        seq![err_line(ErrorKind::InvalidParameter)]
    }
}

/// The state and step after a command.
pub open spec fn command_spec(s: ServerView, cmd: CommandView, info: HostInfoView) -> (PinentryStateView, StepView) {
    let st = s.state;
    let done = finish(seq![ok_line()]);
    match cmd {
        CommandView::SetDesc(x) => (PinentryStateView { description: Some(x), ..st }, done),
        CommandView::SetPrompt(x) => (PinentryStateView { prompt: x, ..st }, done),
        CommandView::SetError(x) => (PinentryStateView { error: Some(x), ..st }, done),
        CommandView::SetTitle(x) => (PinentryStateView { title: Some(x), ..st }, done),
        CommandView::SetOk(x) => (PinentryStateView { ok: x, ..st }, done),
        CommandView::SetNotOk(x) => (PinentryStateView { notok: Some(x), ..st }, done),
        CommandView::SetCancel(x) => (PinentryStateView { cancel: x, ..st }, done),
        CommandView::SetKeyInfo(x) => (
            PinentryStateView { keyinfo: if x.len() == 0 { None } else { Some(x) }, ..st },
            done,
        ),
        CommandView::ClearPassphrase(k) => (
            st,
            if s.has_keychain {
                StepView { effect: EffectView::ClearCache(k), replies: seq![ok_line()] }
            } else {
                done
            },
        ),
        CommandView::SetQualityBar(x) => (PinentryStateView { quality_bar: Some(x), ..st }, done),
        CommandView::SetQualityBarTt(x) => (PinentryStateView { quality_bar_tt: Some(x), ..st }, done),
        CommandView::SetRepeat(x) => (PinentryStateView { repeat_passphrase: Some(x), ..st }, done),
        CommandView::SetRepeatError(x) => (PinentryStateView { repeat_error_string: Some(x), ..st }, done),
        CommandView::SetRepeatOk(x) => (PinentryStateView { repeat_ok_string: Some(x), ..st }, done),
        CommandView::SetGenPin(_) => (st, done),
        CommandView::SetGenPinTt(_) => (st, done),
        CommandView::SetTimeout(n) => (PinentryStateView { timeout: n, ..st }, done),
        CommandView::GetPin => getpin_spec(s),
        CommandView::Confirm { one_button } => (
            if one_button { PinentryStateView { one_button: true, ..st } } else { st },
            await_effect(EffectView::PromptConfirm),
        ),
        CommandView::Message => (st, await_effect(EffectView::PromptMessage)),
        CommandView::GetInfo(what) => (st, finish(getinfo_spec(st, what, info))),
    }
}

/// The state and step after the cache lookup reported `cached`.
pub open spec fn after_lookup_spec(s: ServerView, cached: Option<Seq<u8>>) -> (PinentryStateView, StepView) {
    match cached {
        Some(c) if c.len() > 0 => (
            PinentryStateView { pin_from_cache: true, ..s.state },
            finish(seq![ReplyView::Status("PASSWORD_FROM_CACHE"@, Seq::empty()), ReplyView::Data(c), ok_line()]),
        ),
        _ => (s.state, await_effect(EffectView::PromptPin)),
    }
}

/// Abstract outcome of the passphrase dialog.
pub enum PinOutcome {
    Pin(Seq<u8>),
    Canceled,
    Closed,
}

/// Abstract view of a passphrase dialog result.
pub open spec fn pin_result_view(r: Result<GetPinResult, String>) -> Result<PinOutcome, Seq<char>> {
    match r {
        Ok(GetPinResult::Pin(s)) => Ok(PinOutcome::Pin(s@)),
        Ok(GetPinResult::Canceled) => Ok(PinOutcome::Canceled),
        Ok(GetPinResult::Closed) => Ok(PinOutcome::Closed),
        Err(m) => Err(m@),
    }
}

/// The reply to a dialog that failed with `msg`.
pub open spec fn ui_failure(msg: Seq<char>) -> ReplyView {
    ReplyView::Failure(ProtocolErrorView { kind: ErrorKind::General, message: Some(msg) })
}

/// Whether an entered passphrase is stored in the cache.
pub open spec fn save_due(st: PinentryStateView) -> bool {
    st.allow_external_password_cache && st.keyinfo is Some && st.may_cache_password
}

/// The state and step after the passphrase dialog returned `r`.
///
/// Any answer of the dialog consumes the caller's error text.
pub open spec fn after_pin_spec(s: ServerView, r: Result<PinOutcome, Seq<char>>) -> (PinentryStateView, StepView) {
    match r {
        Err(msg) => (s.state, finish(seq![ui_failure(msg)])),
        Ok(outcome) => {
            let st = PinentryStateView { error: None, ..s.state };
            match outcome {
                PinOutcome::Pin(p) => {
                    let st2 = PinentryStateView { repeat_passphrase: None, ..st };
                    if p.len() == 0 {
                        (st2, finish(seq![ok_line()]))
                    } else if save_due(st) && s.has_keychain {
                        (st2, StepView {
                            effect: EffectView::SaveCache(st.keyinfo->0, p),
                            replies: seq![ReplyView::Data(p), ok_line()],
                        })
                    } else {
                        (st2, finish(seq![ReplyView::Data(p), ok_line()]))
                    }
                },
                PinOutcome::Canceled => (st, finish(seq![err_line(ErrorKind::Canceled)])),
                PinOutcome::Closed => (st, finish(seq![closed_status(), err_line(ErrorKind::Canceled)])),
            }
        },
    }
}

/// The replies after the confirmation dialog returned `r`.
pub open spec fn confirm_replies(r: Result<ConfirmResult, Seq<char>>) -> Seq<ReplyView> {
    match r {
        Err(msg) => seq![ui_failure(msg)],
        Ok(ConfirmResult::Accepted) => seq![ok_line()],
        Ok(ConfirmResult::Canceled) => seq![err_line(ErrorKind::Canceled)],
        Ok(ConfirmResult::NotOk) => seq![err_line(ErrorKind::NotConfirmed)],
        Ok(ConfirmResult::Closed) => seq![closed_status(), err_line(ErrorKind::Canceled)],
    }
}

/// The state after a dialog answered (`answered`) or failed: an answer
/// consumes the caller's error text.
pub open spec fn after_dialog_state(st: PinentryStateView, answered: bool) -> PinentryStateView {
    if answered { PinentryStateView { error: None, ..st } } else { st }
}

/// The state and step after the confirmation dialog returned `r`.
pub open spec fn after_confirm_spec(s: ServerView, r: Result<ConfirmResult, Seq<char>>) -> (PinentryStateView, StepView) {
    (after_dialog_state(s.state, r is Ok), finish(confirm_replies(r)))
}

/// The state and step after the message dialog returned `r`.
pub open spec fn after_message_spec(s: ServerView, r: Result<(), Seq<char>>) -> (PinentryStateView, StepView) {
    (after_dialog_state(s.state, r is Ok), finish(match r {
        Ok(_) => seq![ok_line()],
        Err(m) => seq![ui_failure(m)],
    }))
}

/// Abstract view of a dialog result carrying an error message.
pub open spec fn ui_result_view<T>(r: Result<T, String>) -> Result<T, Seq<char>> {
    match r {
        Ok(v) => Ok(v),
        Err(m) => Err(m@),
    }
}

// ---------------------------------------------------------------------------
// Implementation
// ---------------------------------------------------------------------------

fn ok_reply() -> (r: Reply)
    ensures
        r@ == ok_line(),
{
    Reply::Success(None)
}

fn err_reply(kind: ErrorKind) -> (r: Reply)
    ensures
        r@ == err_line(kind),
{
    Reply::Failure(ProtocolError::bare(kind))
}

fn closed_reply() -> (r: Reply)
    ensures
        r@ == closed_status(),
{
    Reply::Status(lit("BUTTON_INFO"), lit("close"))
}

fn text_data(s: &str) -> (r: Reply)
    ensures
        r@ == ReplyView::Data(encode_utf8(s@)),
{
    Reply::Data(s.as_bytes_vec())
}

fn done_ok() -> (st: Step)
    ensures
        st@ == finish(seq![ok_line()]),
{
    let mut v: Vec<Reply> = Vec::new();
    v.push(ok_reply());
    let st = Step { effect: Effect::Nothing, replies: v };
    assert(st@.replies =~= seq![ok_line()]);
    st
}

fn await_step(effect: Effect) -> (st: Step)
    ensures
        st@ == await_effect(effect@),
{
    let st = Step { effect, replies: Vec::new() };
    assert(st@.replies =~= Seq::<ReplyView>::empty());
    st
}

fn replies1(a: Reply) -> (v: Vec<Reply>)
    ensures
        v@.map_values(|r: Reply| r@) == seq![a@],
{
    let mut v: Vec<Reply> = Vec::new();
    v.push(a);
    assert(v@.map_values(|r: Reply| r@) =~= seq![a@]);
    v
}

fn replies2(a: Reply, b: Reply) -> (v: Vec<Reply>)
    ensures
        v@.map_values(|r: Reply| r@) == seq![a@, b@],
{
    let mut v: Vec<Reply> = Vec::new();
    v.push(a);
    v.push(b);
    assert(v@.map_values(|r: Reply| r@) =~= seq![a@, b@]);
    v
}

fn replies3(a: Reply, b: Reply, c: Reply) -> (v: Vec<Reply>)
    ensures
        v@.map_values(|r: Reply| r@) == seq![a@, b@, c@],
{
    let mut v: Vec<Reply> = Vec::new();
    v.push(a);
    v.push(b);
    v.push(c);
    assert(v@.map_values(|r: Reply| r@) =~= seq![a@, b@, c@]);
    v
}

fn dash_or(o: &Option<String>) -> (r: String)
    ensures
        r@ == or_dash(opt_view(*o)),
{
    match o {
        Some(s) => clone_string(s),
        None => lit("-"),
    }
}

fn is_ignored_option(key: &str) -> (r: bool)
    ensures
        r == ignored_option(key@),
{
    str_eq(key, "owner") || str_eq(key, "parent-wid") || str_eq(key, "touch-file")
        || str_eq(key, "default-ok") || str_eq(key, "default-cancel")
        || str_eq(key, "default-prompt") || str_eq(key, "default-pwmngr")
        || str_eq(key, "default-cf-visi") || str_eq(key, "default-tt-visi")
        || str_eq(key, "default-tt-hide") || str_eq(key, "default-capshint")
        || str_eq(key, "default-yes") || str_eq(key, "default-no")
        || str_eq(key, "invisible-char") || str_eq(key, "formatted-passphrase")
        || str_eq(key, "formatted-passphrase-hint") || str_eq(key, "constraints-enforce")
        || str_eq(key, "constraints-hint-short") || str_eq(key, "constraints-hint-long")
        || str_eq(key, "constraints-error-title") || str_eq(key, "allow-emacs-prompt")
        || str_eq(key, "debug-wait")
}

impl PinentryServer {
    /// A server for a fresh session with the given grab and timeout settings.
    pub fn new(grab: bool, timeout: u32, has_keychain: bool) -> (srv: Self)
        ensures
            srv@.state == (PinentryStateView { grab, timeout, ..initial_state() }),
            srv@.has_keychain == has_keychain,
    {
        let mut state = PinentryState::new();
        state.timeout = timeout;
        state.grab = grab;
        PinentryServer { state, has_keychain }
    }

    /// A server for a fresh session that starts with the terminal options of
    /// the command line.
    pub fn with_terminal(grab: bool, timeout: u32, has_keychain: bool, term: TerminalOptions) -> (srv: Self)
        ensures
            srv@.state == (PinentryStateView {
                grab,
                timeout,
                display: term@.display,
                ttyname: term@.ttyname,
                ttytype: term@.ttytype,
                lc_ctype: term@.lc_ctype,
                lc_messages: term@.lc_messages,
                ..initial_state()
            }),
            srv@.has_keychain == has_keychain,
    {
        let mut srv = PinentryServer::new(grab, timeout, has_keychain);
        srv.state.display = term.display;
        srv.state.ttyname = term.ttyname;
        srv.state.ttytype = term.ttytype;
        srv.state.lc_ctype = term.lc_ctype;
        srv.state.lc_messages = term.lc_messages;
        srv
    }

    /// The greeting sent when the session starts: `OK Pleased to meet you!`.
    pub fn greeting() -> (r: Reply)
        ensures
            r@ == ReplyView::Success(Some("Pleased to meet you!"@)),
    {
        Reply::Success(Some(lit("Pleased to meet you!")))
    }

    /// RESET: per-request fields return to their defaults. The `OK` is sent
    /// by the protocol layer.
    pub fn handle_reset(&mut self)
        ensures
            final(self)@.state == old(self)@.state.reset(),
            final(self)@.has_keychain == old(self)@.has_keychain,
    {
        self.state.reset();
    }

    /// END outside an inquiry: `ERR` general with message `unexpected END`.
    pub fn handle_end() -> (r: Reply)
        ensures
            r@ == ReplyView::Failure(ProtocolErrorView { kind: ErrorKind::General, message: Some("unexpected END"@) }),
    {
        Reply::Failure(ProtocolError::with_message(ErrorKind::General, "unexpected END"))
    }

    /// OPTION key=value. On success the caller answers `OK`; on error the
    /// state is unchanged and the error is answered.
    pub fn handle_option(&mut self, key: &str, value: &str) -> (r: Result<(), ProtocolError>)
        ensures
            final(self)@.has_keychain == old(self)@.has_keychain,
            match option_spec(old(self)@, key@, value@) {
                Ok(st) => r is Ok && final(self)@.state == st,
                Err(e) => r matches Err(err) && err@ == e && final(self)@.state == old(self)@.state,
            },
    {
        if str_eq(key, "no-grab") {
            self.state.grab = false;
        } else if str_eq(key, "grab") {
            self.state.grab = true;
        } else if str_eq(key, "display") {
            self.state.display = Some(lit(value));
        } else if str_eq(key, "ttyname") {
            self.state.ttyname = Some(lit(value));
        } else if str_eq(key, "ttytype") {
            self.state.ttytype = Some(lit(value));
        } else if str_eq(key, "lc-ctype") {
            self.state.lc_ctype = Some(lit(value));
        } else if str_eq(key, "lc-messages") {
            self.state.lc_messages = Some(lit(value));
        } else if str_eq(key, "allow-external-password-cache") {
            self.state.allow_external_password_cache = true;
            self.state.tried_password_cache = false;
            if self.has_keychain {
                self.state.may_cache_password = true;
            }
        } else if is_ignored_option(key) {
        } else {
            let msg = lit("unknown option: ").concat(key);
            return Err(ProtocolError { kind: ErrorKind::UnknownCommand, message: Some(msg) });
        }
        Ok(())
    }

    fn handle_getinfo(&self, what: &str, info: &HostInfo) -> (st: Step)
        ensures
            st@ == finish(getinfo_spec(self@.state, what@, info@)),
    {
        let replies = if str_eq(what, "version") {
            replies2(text_data(info.version.as_str()), ok_reply())
        } else if str_eq(what, "pid") {
            let pid = format_u32(info.pid);
            replies2(text_data(pid.as_str()), ok_reply())
        } else if str_eq(what, "flavor") {
            replies2(text_data(info.flavor.as_str()), ok_reply())
        } else if str_eq(what, "ttyinfo") {
            let mut text = dash_or(&self.state.ttyname);
            text.append(" ");
            text.append(dash_or(&self.state.ttytype).as_str());
            text.append(" ");
            text.append(dash_or(&self.state.display).as_str());
            text.append(" - -");
            assert(text@ == ttyinfo_text(self@.state));
            replies2(text_data(text.as_str()), ok_reply())
        } else {
            replies1(err_reply(ErrorKind::InvalidParameter))
        };
        Step { effect: Effect::Nothing, replies }
    }

    fn begin_getpin(&mut self) -> (st: Step)
        ensures
            final(self)@.has_keychain == old(self)@.has_keychain,
            (final(self)@.state, st@) == getpin_spec(old(self)@),
    {
        let due = self.state.allow_external_password_cache && self.state.keyinfo.is_some()
            && !self.state.tried_password_cache && self.state.error.is_none();
        if due {
            self.state.tried_password_cache = true;
            if self.has_keychain {
                let key = match &self.state.keyinfo {
                    Some(k) => clone_string(k),
                    None => String::new(),
                };
                return await_step(Effect::LookupCache(key));
            }
        }
        await_step(Effect::PromptPin)
    }

    /// Apply a parsed command. Commands that only set state answer `OK`;
    /// GETPIN, CONFIRM and MESSAGE ask for a dialog (or a cache lookup)
    /// first; GETINFO answers with a data line.
    pub fn handle_command(&mut self, cmd: Command, info: &HostInfo) -> (st: Step)
        ensures
            final(self)@.has_keychain == old(self)@.has_keychain,
            (final(self)@.state, st@) == command_spec(old(self)@, cmd@, info@),
    {
        match cmd {
            Command::SetDesc(x) => {
                self.state.description = Some(x);
                done_ok()
            },
            Command::SetPrompt(x) => {
                self.state.prompt = x;
                done_ok()
            },
            Command::SetError(x) => {
                self.state.error = Some(x);
                done_ok()
            },
            Command::SetTitle(x) => {
                self.state.title = Some(x);
                done_ok()
            },
            Command::SetOk(x) => {
                self.state.ok = x;
                done_ok()
            },
            Command::SetNotOk(x) => {
                self.state.notok = Some(x);
                done_ok()
            },
            Command::SetCancel(x) => {
                self.state.cancel = x;
                done_ok()
            },
            Command::SetKeyInfo(x) => {
                self.state.keyinfo = if x.as_str().is_empty() { None } else { Some(x) };
                done_ok()
            },
            Command::ClearPassphrase(k) => {
                if self.has_keychain {
                    let st = Step { effect: Effect::ClearCache(k), replies: replies1(ok_reply()) };
                    st
                } else {
                    done_ok()
                }
            },
            Command::SetQualityBar(x) => {
                self.state.quality_bar = Some(x);
                done_ok()
            },
            Command::SetQualityBarTt(x) => {
                self.state.quality_bar_tt = Some(x);
                done_ok()
            },
            Command::SetRepeat(x) => {
                self.state.repeat_passphrase = Some(x);
                done_ok()
            },
            Command::SetRepeatError(x) => {
                self.state.repeat_error_string = Some(x);
                done_ok()
            },
            Command::SetRepeatOk(x) => {
                self.state.repeat_ok_string = Some(x);
                done_ok()
            },
            Command::SetGenPin(_) => done_ok(),
            Command::SetGenPinTt(_) => done_ok(),
            Command::SetTimeout(n) => {
                self.state.timeout = n;
                done_ok()
            },
            Command::GetPin => self.begin_getpin(),
            Command::Confirm { one_button } => {
                if one_button {
                    self.state.one_button = true;
                }
                await_step(Effect::PromptConfirm)
            },
            Command::Message => await_step(Effect::PromptMessage),
            Command::GetInfo(what) => self.handle_getinfo(what.as_str(), info),
        }
    }

    /// Continue GETPIN with the outcome of the cache lookup: a non-empty
    /// cached passphrase is answered directly, otherwise the dialog is shown.
    pub fn after_lookup(&mut self, cached: Option<SecretBytes>) -> (st: Step)
        ensures
            final(self)@.has_keychain == old(self)@.has_keychain,
            (final(self)@.state, st@) == after_lookup_spec(old(self)@, match cached {
                Some(c) => Some(c@),
                None => None,
            }),
    {
        match cached {
            Some(c) => {
                if c.is_empty() {
                    await_step(Effect::PromptPin)
                } else {
                    self.state.pin_from_cache = true;
                    let SecretBytes(bytes) = c;
                    let replies = replies3(
                        Reply::Status(lit("PASSWORD_FROM_CACHE"), String::new()),
                        Reply::Data(bytes),
                        ok_reply(),
                    );
                    Step { effect: Effect::Nothing, replies }
                }
            },
            None => await_step(Effect::PromptPin),
        }
    }

    /// Finish GETPIN with the outcome of the passphrase dialog.
    pub fn after_pin(&mut self, result: Result<GetPinResult, String>) -> (st: Step)
        ensures
            final(self)@.has_keychain == old(self)@.has_keychain,
            (final(self)@.state, st@) == after_pin_spec(old(self)@, pin_result_view(result)),
    {
        match result {
            Err(msg) => {
                let e = ProtocolError { kind: ErrorKind::General, message: Some(msg) };
                Step { effect: Effect::Nothing, replies: replies1(Reply::Failure(e)) }
            },
            Ok(outcome) => {
                self.state.error = None;
                match outcome {
                    GetPinResult::Pin(secret) => {
                        self.state.repeat_passphrase = None;
                        if secret.is_empty() {
                            done_ok()
                        } else {
                            let save = self.state.allow_external_password_cache
                                && self.state.keyinfo.is_some() && self.state.may_cache_password;
                            if save && self.has_keychain {
                                let key = match &self.state.keyinfo {
                                    Some(k) => clone_string(k),
                                    None => String::new(),
                                };
                                let copy = vstd::slice::slice_to_vec(secret.as_bytes());
                                let SecretBytes(bytes) = secret;
                                Step {
                                    effect: Effect::SaveCache(key, SecretBytes(copy)),
                                    replies: replies2(Reply::Data(bytes), ok_reply()),
                                }
                            } else {
                                let SecretBytes(bytes) = secret;
                                Step { effect: Effect::Nothing, replies: replies2(Reply::Data(bytes), ok_reply()) }
                            }
                        }
                    },
                    GetPinResult::Canceled => {
                        Step { effect: Effect::Nothing, replies: replies1(err_reply(ErrorKind::Canceled)) }
                    },
                    GetPinResult::Closed => {
                        Step {
                            effect: Effect::Nothing,
                            replies: replies2(closed_reply(), err_reply(ErrorKind::Canceled)),
                        }
                    },
                }
            },
        }
    }

    /// Finish CONFIRM with the outcome of the confirmation dialog.
    pub fn after_confirm(&mut self, result: Result<ConfirmResult, String>) -> (st: Step)
        ensures
            final(self)@.has_keychain == old(self)@.has_keychain,
            (final(self)@.state, st@) == after_confirm_spec(old(self)@, ui_result_view(result)),
    {
        let replies = match result {
            Err(msg) => replies1(Reply::Failure(ProtocolError { kind: ErrorKind::General, message: Some(msg) })),
            Ok(answer) => {
                self.state.error = None;
                match answer {
                    ConfirmResult::Accepted => replies1(ok_reply()),
                    ConfirmResult::Canceled => replies1(err_reply(ErrorKind::Canceled)),
                    ConfirmResult::NotOk => replies1(err_reply(ErrorKind::NotConfirmed)),
                    ConfirmResult::Closed => replies2(closed_reply(), err_reply(ErrorKind::Canceled)),
                }
            },
        };
        Step { effect: Effect::Nothing, replies }
    }

    /// Finish MESSAGE with the outcome of the message dialog.
    pub fn after_message(&mut self, result: Result<(), String>) -> (st: Step)
        ensures
            final(self)@.has_keychain == old(self)@.has_keychain,
            (final(self)@.state, st@) == after_message_spec(old(self)@, ui_result_view(result)),
    {
        let replies = match result {
            Ok(()) => {
                self.state.error = None;
                replies1(ok_reply())
            },
            Err(msg) => replies1(Reply::Failure(ProtocolError { kind: ErrorKind::General, message: Some(msg) })),
        };
        Step { effect: Effect::Nothing, replies }
    }
}

// ---------------------------------------------------------------------------
// Laws of the protocol
// ---------------------------------------------------------------------------

/// Caller feedback is consumed: whatever the next dialog answers (passphrase,
/// confirmation or message), the error text set by SETERROR is gone
/// afterwards; a dialog that failed leaves it for the next one.
pub proof fn lemma_feedback_consumed(s: ServerView, outcome: PinOutcome, answer: ConfirmResult, msg: Seq<char>)
    ensures
        after_pin_spec(s, Ok(outcome)).0.error is None,
        after_confirm_spec(s, Ok(answer)).0.error is None,
        after_message_spec(s, Ok(())).0.error is None,
        after_pin_spec(s, Err(msg)).0 == s.state,
        after_confirm_spec(s, Err(msg)).0 == s.state,
        after_message_spec(s, Err(msg)).0 == s.state,
{
}

/// Caller feedback reaches the dialog: while an error text is set, GETPIN
/// skips the cache and shows the dialog with the error text unchanged.
pub proof fn lemma_feedback_shown(s: ServerView)
    requires
        s.state.error is Some,
    ensures
        getpin_spec(s).1 == await_effect(EffectView::PromptPin),
        getpin_spec(s).0 == s.state,
{
}

/// The password cache is consulted at most once per session: after a GETPIN
/// no further GETPIN is due for a lookup.
pub proof fn lemma_cache_lookup_once(s: ServerView)
    ensures
        !cache_lookup_due(getpin_spec(s).0),
{
}

/// Once the cache was tried, it stays tried across every command, every
/// dialog outcome and RESET; only OPTION allow-external-password-cache
/// clears the mark.
pub proof fn lemma_cache_tried_persists(
    s: ServerView,
    cmd: CommandView,
    info: HostInfoView,
    cached: Option<Seq<u8>>,
    r: Result<PinOutcome, Seq<char>>,
)
    requires
        s.state.tried_password_cache,
    ensures
        command_spec(s, cmd, info).0.tried_password_cache,
        after_lookup_spec(s, cached).0.tried_password_cache,
        after_pin_spec(s, r).0.tried_password_cache,
        s.state.reset().tried_password_cache,
{
}

/// A passphrase is stored in the keychain only when the client allowed the
/// external cache, named the key and the user's consent stands, and a
/// keychain is attached; the stored bytes are the bytes answered.
pub proof fn lemma_save_requires_consent(s: ServerView, r: Result<PinOutcome, Seq<char>>)
    ensures
        after_pin_spec(s, r).1.effect matches EffectView::SaveCache(k, p) ==> {
            &&& s.has_keychain
            &&& s.state.allow_external_password_cache
            &&& s.state.keyinfo == Some(k)
            &&& s.state.may_cache_password
            &&& r == Ok::<PinOutcome, Seq<char>>(PinOutcome::Pin(p))
            &&& after_pin_spec(s, r).1.replies == seq![ReplyView::Data(p), ok_line()]
        },
{
}

/// After RESET nothing is stored in the cache until the consent is renewed.
pub proof fn lemma_reset_revokes_consent(s: ServerView, r: Result<PinOutcome, Seq<char>>)
    ensures
        !(after_pin_spec(ServerView { state: s.state.reset(), ..s }, r).1.effect is SaveCache),
{
}

/// A non-empty cached passphrase answers GETPIN without a dialog, with the
/// cached bytes verbatim.
pub proof fn lemma_cached_pin_answered(s: ServerView, c: Seq<u8>)
    requires
        c.len() > 0,
    ensures
        after_lookup_spec(s, Some(c)).1.effect is Nothing,
        after_lookup_spec(s, Some(c)).1.replies[1] == ReplyView::Data(c),
        after_lookup_spec(s, Some(c)).0.pin_from_cache,
{
}

/// SETKEYINFO --clear forgets the key info.
pub proof fn lemma_setkeyinfo_clear(s: ServerView, info: HostInfoView)
    ensures
        crate::command::spec_command("SETKEYINFO"@, Some("--clear"@)) == Ok::<CommandView, ProtocolErrorView>(CommandView::SetKeyInfo(Seq::empty())),
        command_spec(s, CommandView::SetKeyInfo(Seq::empty()), info).0.keyinfo is None,
{
    crate::command::lemma_command_names_distinct();
}

/// SETTIMEOUT with the decimal text of any number sets exactly that timeout.
pub proof fn lemma_settimeout_roundtrip(s: ServerView, n: u32, info: HostInfoView)
    ensures
        crate::command::spec_command("SETTIMEOUT"@, Some(decimal(n as nat))) == Ok::<CommandView, ProtocolErrorView>(CommandView::SetTimeout(n)),
        command_spec(s, CommandView::SetTimeout(n), info).0.timeout == n,
{
    crate::text::lemma_parse_decimal_roundtrip(n);
    crate::text::lemma_decimal_nonempty(n as nat);
    crate::command::lemma_command_names_distinct();
    assert(parse_u32_spec(decimal(n as nat)) == Some(n));
}

/// A setter command answers exactly one `OK` and asks for no outside work.
pub proof fn lemma_setters_answer_ok(s: ServerView, cmd: CommandView, info: HostInfoView)
    requires
        !(cmd is GetPin || cmd is Confirm || cmd is Message || cmd is GetInfo || cmd is ClearPassphrase),
    ensures
        command_spec(s, cmd, info).1 == finish(seq![ok_line()]),
{
}

/// The terminal named by OPTION ttyname is what GETINFO ttyinfo reports
/// first, whatever the name looks like; unset fields are reported as `-`.
pub proof fn lemma_ttyname_reported(s: ServerView, v: Seq<char>, info: HostInfoView)
    ensures
        option_spec(s, "ttyname"@, v) matches Ok(st) && command_spec(
            ServerView { state: st, ..s },
            CommandView::GetInfo("ttyinfo"@),
            info,
        ) == (st, finish(seq![
            ReplyView::Data(encode_utf8(v + " "@ + or_dash(s.state.ttytype) + " "@ + or_dash(s.state.display) + " - -"@)),
            ok_line(),
        ])),
{
    reveal_strlit("ttyname");
    reveal_strlit("no-grab");
    reveal_strlit("grab");
    reveal_strlit("display");
    reveal_strlit("ttyinfo");
    reveal_strlit("version");
    reveal_strlit("pid");
    reveal_strlit("flavor");
    assert("ttyname"@[0] != "no-grab"@[0]);
    assert("ttyname"@[0] != "grab"@[0]);
    assert("ttyname"@[0] != "display"@[0]);
    assert("ttyname"@ != "no-grab"@);
    assert("ttyname"@ != "grab"@);
    assert("ttyname"@ != "display"@);
    assert("ttyinfo"@[0] != "version"@[0]);
    assert("ttyinfo"@ != "version"@);
    assert("ttyinfo"@ != "pid"@);
    assert("ttyinfo"@ != "flavor"@);
}

/// A passphrase entered in the dialog is always handed to the client: for
/// every state and every non-empty passphrase, the replies are exactly a data
/// line with those bytes and `OK`, whether or not it is also saved to the
/// keychain.
pub proof fn lemma_entered_pin_sent(s: ServerView, p: Seq<u8>)
    requires
        p.len() > 0,
    ensures
        after_pin_spec(s, Ok(PinOutcome::Pin(p))).1.replies == seq![ReplyView::Data(p), ReplyView::Success(None)],
{
}

/// An empty passphrase is answered with `OK` alone and nothing is saved.
pub proof fn lemma_empty_pin_ok_only(s: ServerView)
    ensures
        after_pin_spec(s, Ok(PinOutcome::Pin(Seq::empty()))).1
            == (StepView { effect: EffectView::Nothing, replies: seq![ReplyView::Success(None)] }),
{
}

} // verus!
