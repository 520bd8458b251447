//! The Assuan commands understood by the pinentry.

use vstd::prelude::*;

use crate::state::opt_view;
use crate::error::{ErrorKind, ProtocolError, ProtocolErrorView};
use crate::text::{contains_seq, contains_str, parse_u32, parse_u32_spec, str_eq};

verus! {

#[verifier::external_type_specification]
#[verifier::external_body]
pub struct ExRequest(assuan::Request);

/// A parsed application command.
#[derive(Debug, PartialEq, Eq)]
pub enum Command {
    /// SETDESC: description text.
    SetDesc(String),
    /// SETPROMPT: prompt label.
    SetPrompt(String),
    /// SETERROR: error text for the next dialog.
    SetError(String),
    /// SETTITLE: window title.
    SetTitle(String),
    /// SETOK: OK button label.
    SetOk(String),
    /// SETNOTOK: "not ok" button label.
    SetNotOk(String),
    /// SETCANCEL: Cancel button label.
    SetCancel(String),
    /// SETKEYINFO: key identifier for caching; empty clears it.
    SetKeyInfo(String),
    /// CLEARPASSPHRASE: drop the cached passphrase of a key.
    ClearPassphrase(String),
    /// SETQUALITYBAR.
    SetQualityBar(String),
    /// SETQUALITYBAR_TT.
    SetQualityBarTt(String),
    /// SETREPEAT.
    SetRepeat(String),
    /// SETREPEATERROR.
    SetRepeatError(String),
    /// SETREPEATOK.
    SetRepeatOk(String),
    /// SETGENPIN (accepted, no effect).
    SetGenPin(String),
    /// SETGENPIN_TT (accepted, no effect).
    SetGenPinTt(String),
    /// SETTIMEOUT: input timeout in seconds.
    SetTimeout(u32),
    /// GETPIN: ask for the passphrase.
    GetPin,
    /// CONFIRM: ask for a confirmation.
    Confirm { one_button: bool },
    /// MESSAGE: show a message.
    Message,
    /// GETINFO: report information.
    GetInfo(String),
}

/// Abstract contents of a [`Command`].
pub enum CommandView {
    SetDesc(Seq<char>),
    SetPrompt(Seq<char>),
    SetError(Seq<char>),
    SetTitle(Seq<char>),
    SetOk(Seq<char>),
    SetNotOk(Seq<char>),
    SetCancel(Seq<char>),
    SetKeyInfo(Seq<char>),
    ClearPassphrase(Seq<char>),
    SetQualityBar(Seq<char>),
    SetQualityBarTt(Seq<char>),
    SetRepeat(Seq<char>),
    SetRepeatError(Seq<char>),
    SetRepeatOk(Seq<char>),
    SetGenPin(Seq<char>),
    SetGenPinTt(Seq<char>),
    SetTimeout(u32),
    GetPin,
    Confirm { one_button: bool },
    Message,
    GetInfo(Seq<char>),
}

impl View for Command {
    type V = CommandView;

    open spec fn view(&self) -> CommandView {
        match self {
            Command::SetDesc(s) => CommandView::SetDesc(s@),
            Command::SetPrompt(s) => CommandView::SetPrompt(s@),
            Command::SetError(s) => CommandView::SetError(s@),
            Command::SetTitle(s) => CommandView::SetTitle(s@),
            Command::SetOk(s) => CommandView::SetOk(s@),
            Command::SetNotOk(s) => CommandView::SetNotOk(s@),
            Command::SetCancel(s) => CommandView::SetCancel(s@),
            Command::SetKeyInfo(s) => CommandView::SetKeyInfo(s@),
            Command::ClearPassphrase(s) => CommandView::ClearPassphrase(s@),
            Command::SetQualityBar(s) => CommandView::SetQualityBar(s@),
            Command::SetQualityBarTt(s) => CommandView::SetQualityBarTt(s@),
            Command::SetRepeat(s) => CommandView::SetRepeat(s@),
            Command::SetRepeatError(s) => CommandView::SetRepeatError(s@),
            Command::SetRepeatOk(s) => CommandView::SetRepeatOk(s@),
            Command::SetGenPin(s) => CommandView::SetGenPin(s@),
            Command::SetGenPinTt(s) => CommandView::SetGenPinTt(s@),
            Command::SetTimeout(n) => CommandView::SetTimeout(*n),
            Command::GetPin => CommandView::GetPin,
            Command::Confirm { one_button } => CommandView::Confirm { one_button: *one_button },
            Command::Message => CommandView::Message,
            Command::GetInfo(s) => CommandView::GetInfo(s@),
        }
    }
}

/// The abstract value of a parse result.
pub open spec fn parse_result_view(r: Result<Command, ProtocolError>) -> Result<CommandView, ProtocolErrorView> {
    match r {
        Ok(c) => Ok(c@),
        Err(e) => Err(e@),
    }
}

/// The error for an argument that is missing or malformed.
pub open spec fn param_error(msg: Seq<char>) -> ProtocolErrorView {
    ProtocolErrorView { kind: ErrorKind::InvalidParameter, message: Some(msg) }
}

/// What a command line with upper-case `name` and the optional decoded
/// arguments `args` means.
pub open spec fn spec_command(name: Seq<char>, args: Option<Seq<char>>) -> Result<CommandView, ProtocolErrorView> {
    let a = match args {
        Some(x) => x,
        None => Seq::<char>::empty(),
    };
    if name == "SETDESC"@ {
        Ok(CommandView::SetDesc(a))
    } else if name == "SETPROMPT"@ {
        Ok(CommandView::SetPrompt(a))
    } else if name == "SETERROR"@ {
        Ok(CommandView::SetError(a))
    } else if name == "SETTITLE"@ {
        Ok(CommandView::SetTitle(a))
    } else if name == "SETOK"@ {
        Ok(CommandView::SetOk(a))
    } else if name == "SETNOTOK"@ {
        Ok(CommandView::SetNotOk(a))
    } else if name == "SETCANCEL"@ {
        Ok(CommandView::SetCancel(a))
    } else if name == "SETKEYINFO"@ {
        if a.len() == 0 || a == "--clear"@ {
            Ok(CommandView::SetKeyInfo(Seq::<char>::empty()))
        } else {
            Ok(CommandView::SetKeyInfo(a))
        }
    } else if name == "CLEARPASSPHRASE"@ {
        if a.len() == 0 {
            Err(param_error("empty key"@))
        } else {
            Ok(CommandView::ClearPassphrase(a))
        }
    } else if name == "SETQUALITYBAR"@ {
        Ok(CommandView::SetQualityBar(a))
    } else if name == "SETQUALITYBAR_TT"@ {
        Ok(CommandView::SetQualityBarTt(a))
    } else if name == "SETREPEAT"@ {
        Ok(CommandView::SetRepeat(a))
    } else if name == "SETREPEATERROR"@ {
        Ok(CommandView::SetRepeatError(a))
    } else if name == "SETREPEATOK"@ {
        Ok(CommandView::SetRepeatOk(a))
    } else if name == "SETGENPIN"@ {
        Ok(CommandView::SetGenPin(a))
    } else if name == "SETGENPIN_TT"@ {
        Ok(CommandView::SetGenPinTt(a))
    } else if name == "SETTIMEOUT"@ {
        if a.len() == 0 {
            Ok(CommandView::SetTimeout(0))
        } else {
            match parse_u32_spec(a) {
                Some(n) => Ok(CommandView::SetTimeout(n)),
                None => Err(param_error("invalid timeout"@)),
            }
        }
    } else if name == "GETPIN"@ {
        Ok(CommandView::GetPin)
    } else if name == "CONFIRM"@ {
        Ok(CommandView::Confirm { one_button: contains_seq(a, "--one-button"@) })
    } else if name == "MESSAGE"@ {
        Ok(CommandView::Message)
    } else if name == "GETINFO"@ {
        Ok(CommandView::GetInfo(a))
    } else {
        Err(ProtocolErrorView { kind: ErrorKind::UnknownCommand, message: Some("unknown command: "@ + name) })
    }
}

/// The error for a request that is not an application command.
pub open spec fn not_a_command() -> ProtocolErrorView {
    ProtocolErrorView { kind: ErrorKind::General, message: Some("not an application command"@) }
}

/// The command name and arguments that a request carries: the two fields
/// of `Request::Command`, or `None` for any other kind of request.
pub uninterp spec fn request_parts(req: assuan::Request) -> Option<(Seq<char>, Option<Seq<char>>)>;

/// The characters of a command name and its optional arguments.
pub open spec fn parts_view(p: Option<(String, Option<String>)>) -> Option<(Seq<char>, Option<Seq<char>>)> {
    match p {
        Some((n, a)) => Some((n@, opt_view(a))),
        None => None,
    }
}

/// The command name and arguments of a `Request::Command`, or `None` for any
/// other request (moves the two fields out of `assuan::Request::Command`).
#[verifier::external_body]
fn request_command_parts(req: assuan::Request) -> (r: Option<(String, Option<String>)>)
    ensures
        parts_view(r) == request_parts(req),
{
    match req {
        assuan::Request::Command { name, args } => Some((name, args)),
        _ => None,
    }
}

/// The names that the grammar tests before SETKEYINFO and SETTIMEOUT differ
/// from these two.
pub proof fn lemma_command_names_distinct()
    ensures
        "SETKEYINFO"@ != "SETDESC"@,
        "SETKEYINFO"@ != "SETPROMPT"@,
        "SETKEYINFO"@ != "SETERROR"@,
        "SETKEYINFO"@ != "SETTITLE"@,
        "SETKEYINFO"@ != "SETOK"@,
        "SETKEYINFO"@ != "SETNOTOK"@,
        "SETKEYINFO"@ != "SETCANCEL"@,
        "SETTIMEOUT"@ != "SETDESC"@,
        "SETTIMEOUT"@ != "SETPROMPT"@,
        "SETTIMEOUT"@ != "SETERROR"@,
        "SETTIMEOUT"@ != "SETTITLE"@,
        "SETTIMEOUT"@ != "SETOK"@,
        "SETTIMEOUT"@ != "SETNOTOK"@,
        "SETTIMEOUT"@ != "SETCANCEL"@,
        "SETTIMEOUT"@ != "SETKEYINFO"@,
        "SETTIMEOUT"@ != "CLEARPASSPHRASE"@,
        "SETTIMEOUT"@ != "SETQUALITYBAR"@,
        "SETTIMEOUT"@ != "SETQUALITYBAR_TT"@,
        "SETTIMEOUT"@ != "SETREPEAT"@,
        "SETTIMEOUT"@ != "SETREPEATERROR"@,
        "SETTIMEOUT"@ != "SETREPEATOK"@,
        "SETTIMEOUT"@ != "SETGENPIN"@,
        "SETTIMEOUT"@ != "SETGENPIN_TT"@,
{
    reveal_strlit("SETKEYINFO");
    reveal_strlit("SETTIMEOUT");
    reveal_strlit("SETDESC");
    reveal_strlit("SETPROMPT");
    reveal_strlit("SETERROR");
    reveal_strlit("SETTITLE");
    reveal_strlit("SETOK");
    reveal_strlit("SETNOTOK");
    reveal_strlit("SETCANCEL");
    reveal_strlit("CLEARPASSPHRASE");
    reveal_strlit("SETQUALITYBAR");
    reveal_strlit("SETQUALITYBAR_TT");
    reveal_strlit("SETREPEAT");
    reveal_strlit("SETREPEATERROR");
    reveal_strlit("SETREPEATOK");
    reveal_strlit("SETGENPIN");
    reveal_strlit("SETGENPIN_TT");
    // Where the solver needs it, the letter in which two names differ.
    assert("SETKEYINFO"@[3] != "SETTIMEOUT"@[3]);
    assert("SETTIMEOUT"@[5] != "SETTITLE"@[5]);
}

impl Command {
    /// Interpret a command line: `name` is the upper-cased command word and
    /// `args` the percent-decoded arguments, if any.
    pub fn parse(name: &str, args: Option<String>) -> (r: Result<Command, ProtocolError>)
        ensures
            parse_result_view(r) == spec_command(name@, opt_view(args)),
    {
        let a = match args {
            Some(x) => x,
            None => String::new(),
        };
        if str_eq(name, "SETDESC") {
            Ok(Command::SetDesc(a))
        } else if str_eq(name, "SETPROMPT") {
            Ok(Command::SetPrompt(a))
        } else if str_eq(name, "SETERROR") {
            Ok(Command::SetError(a))
        } else if str_eq(name, "SETTITLE") {
            Ok(Command::SetTitle(a))
        } else if str_eq(name, "SETOK") {
            Ok(Command::SetOk(a))
        } else if str_eq(name, "SETNOTOK") {
            Ok(Command::SetNotOk(a))
        } else if str_eq(name, "SETCANCEL") {
            Ok(Command::SetCancel(a))
        } else if str_eq(name, "SETKEYINFO") {
            if a.as_str().is_empty() || str_eq(a.as_str(), "--clear") {
                Ok(Command::SetKeyInfo(String::new()))
            } else {
                Ok(Command::SetKeyInfo(a))
            }
        } else if str_eq(name, "CLEARPASSPHRASE") {
            if a.as_str().is_empty() {
                Err(ProtocolError::with_message(ErrorKind::InvalidParameter, "empty key"))
            } else {
                Ok(Command::ClearPassphrase(a))
            }
        } else if str_eq(name, "SETQUALITYBAR") {
            Ok(Command::SetQualityBar(a))
        } else if str_eq(name, "SETQUALITYBAR_TT") {
            Ok(Command::SetQualityBarTt(a))
        } else if str_eq(name, "SETREPEAT") {
            Ok(Command::SetRepeat(a))
        } else if str_eq(name, "SETREPEATERROR") {
            Ok(Command::SetRepeatError(a))
        } else if str_eq(name, "SETREPEATOK") {
            Ok(Command::SetRepeatOk(a))
        } else if str_eq(name, "SETGENPIN") {
            Ok(Command::SetGenPin(a))
        } else if str_eq(name, "SETGENPIN_TT") {
            Ok(Command::SetGenPinTt(a))
        } else if str_eq(name, "SETTIMEOUT") {
            if a.as_str().is_empty() {
                Ok(Command::SetTimeout(0))
            } else {
                match parse_u32(a.as_str()) {
                    Some(n) => Ok(Command::SetTimeout(n)),
                    None => Err(ProtocolError::with_message(ErrorKind::InvalidParameter, "invalid timeout")),
                }
            }
        } else if str_eq(name, "GETPIN") {
            Ok(Command::GetPin)
        } else if str_eq(name, "CONFIRM") {
            let one_button = contains_str(a.as_str(), "--one-button");
            Ok(Command::Confirm { one_button })
        } else if str_eq(name, "MESSAGE") {
            Ok(Command::Message)
        } else if str_eq(name, "GETINFO") {
            Ok(Command::GetInfo(a))
        } else {
            let msg = String::from_str("unknown command: ").concat(name);
            Err(ProtocolError { kind: ErrorKind::UnknownCommand, message: Some(msg) })
        }
    }

    /// Interpret an Assuan request. Application commands are parsed by
    /// [`Command::parse`]; any other request is answered with a general error.
    pub fn try_from(req: assuan::Request) -> (r: Result<Command, ProtocolError>)
        ensures
            match request_parts(req) {
                Some((n, a)) => parse_result_view(r) == spec_command(n, a),
                None => parse_result_view(r) == Err::<CommandView, ProtocolErrorView>(not_a_command()),
            },
    {
        match request_command_parts(req) {
            Some((name, args)) => {
                let ghost av = opt_view(args);
                let r = Command::parse(name.as_str(), args);
                assert(parse_result_view(r) == spec_command(name@, av));
                r
            },
            None => Err(ProtocolError::with_message(ErrorKind::General, "not an application command")),
        }
    }
}

} // verus!
