//! Choice of the terminal front end.

use vstd::prelude::*;

use crate::text::{lit, str_eq};
use crate::ui::tty::{TtyUi, tty_flavor};
use crate::ui::tui::{TuiUi, tui_flavor};

verus! {

/// Which UI backend to use.
#[derive(Debug, Clone, Copy, PartialEq, Eq)]
pub enum UiMode {
    /// Full-screen terminal UI (requires a TTY).
    Tui,
    /// Simple line-based TTY fallback.
    Tty,
    /// Auto-detect based on terminal capabilities.
    Auto,
    /// Prefer TTY, fall back to TUI.
    PreferTty,
    /// Prefer GUI, fall back to TUI then TTY.
    PreferGui,
}

/// The name of a mode, as written on the command line and in the configuration.
pub open spec fn mode_name(m: UiMode) -> Seq<char> {
    match m {
        UiMode::Tui => "tui"@,
        UiMode::Tty => "tty"@,
        UiMode::Auto => "auto"@,
        UiMode::PreferTty => "prefer-tty"@,
        UiMode::PreferGui => "prefer-gui"@,
    }
}

/// The error for a name that is no mode.
pub open spec fn unknown_mode_message(s: Seq<char>) -> Seq<char> {
    "unknown UI mode: "@ + s + " (valid: auto, tty, tui, prefer-tty, prefer-gui)"@
}

/// The mode a name stands for.
pub open spec fn parse_mode_spec(s: Seq<char>) -> Result<UiMode, Seq<char>> {
    if s == "tui"@ {
        Ok(UiMode::Tui)
    } else if s == "tty"@ {
        Ok(UiMode::Tty)
    } else if s == "auto"@ {
        Ok(UiMode::Auto)
    } else if s == "prefer-tty"@ {
        Ok(UiMode::PreferTty)
    } else if s == "prefer-gui"@ {
        Ok(UiMode::PreferGui)
    } else {
        Err(unknown_mode_message(s))
    }
}

/// The characters of an optional string slice.
pub open spec fn opt_str_view(o: Option<&str>) -> Option<Seq<char>> {
    match o {
        Some(s) => Some(s@),
        None => None,
    }
}

/// The mode the terminal calls for: the full-screen UI unless `TERM` is
/// unset, empty or `dumb`.
pub open spec fn detect_spec(term: Option<Seq<char>>) -> UiMode {
    match term {
        Some(t) => if t != "dumb"@ && t.len() > 0 { UiMode::Tui } else { UiMode::Tty },
        None => UiMode::Tty,
    }
}

/// A concrete mode: one that names a front end.
pub open spec fn is_concrete(m: UiMode) -> bool {
    m == UiMode::Tui || m == UiMode::Tty
}

/// The concrete mode that `m` stands for under terminal type `term`.
pub open spec fn resolve_spec(m: UiMode, term: Option<Seq<char>>) -> UiMode {
    match m {
        UiMode::Tui | UiMode::Tty => m,
        UiMode::Auto => detect_spec(term),
        UiMode::PreferTty => if detect_spec(term) == UiMode::Tty { UiMode::Tty } else { UiMode::Tui },
        UiMode::PreferGui => detect_spec(term),
    }
}

/// Detect the appropriate UI mode from the value of `TERM` (`None` when unset).
pub fn detect_ui_mode(term: Option<&str>) -> (m: UiMode)
    ensures
        m == detect_spec(opt_str_view(term)),
{
    match term {
        Some(t) => {
            if !str_eq(t, "dumb") && !t.is_empty() {
                UiMode::Tui
            } else {
                UiMode::Tty
            }
        },
        None => UiMode::Tty,
    }
}

/// A front end, chosen by a concrete mode.
#[derive(Debug, Clone, Copy, PartialEq, Eq)]
pub enum UiBackend {
    Tui(TuiUi),
    Tty(TtyUi),
}

impl UiBackend {
    /// The flavor identifier of the chosen front end.
    pub fn flavor(&self) -> (r: &'static str)
        ensures
            r@ == match self {
                UiBackend::Tui(_) => tui_flavor(),
                UiBackend::Tty(_) => tty_flavor(),
            },
    {
        match self {
            UiBackend::Tui(ui) => ui.flavor(),
            UiBackend::Tty(ui) => ui.flavor(),
        }
    }
}

impl UiMode {
    /// The name of the mode.
    pub fn as_str(&self) -> (r: &'static str)
        ensures
            r@ == mode_name(*self),
    {
        match self {
            UiMode::Tui => "tui",
            UiMode::Tty => "tty",
            UiMode::Auto => "auto",
            UiMode::PreferTty => "prefer-tty",
            UiMode::PreferGui => "prefer-gui",
        }
    }

    /// The mode named `s`, or the error that lists the valid names.
    pub fn parse(s: &str) -> (r: Result<UiMode, String>)
        ensures
            match r {
                Ok(m) => parse_mode_spec(s@) == Ok::<UiMode, Seq<char>>(m),
                Err(e) => parse_mode_spec(s@) == Err::<UiMode, Seq<char>>(e@),
            },
    {
        if str_eq(s, "tui") {
            Ok(UiMode::Tui)
        } else if str_eq(s, "tty") {
            Ok(UiMode::Tty)
        } else if str_eq(s, "auto") {
            Ok(UiMode::Auto)
        } else if str_eq(s, "prefer-tty") {
            Ok(UiMode::PreferTty)
        } else if str_eq(s, "prefer-gui") {
            Ok(UiMode::PreferGui)
        } else {
            let mut msg = lit("unknown UI mode: ");
            msg.append(s);
            msg.append(" (valid: auto, tty, tui, prefer-tty, prefer-gui)");
            Err(msg)
        }
    }

    /// Resolve to a concrete mode (Tui or Tty), given the value of `TERM`.
    ///
    /// `Auto` and `PreferGui` (no GUI exists) follow the terminal; `PreferTty`
    /// takes the line-based UI when the terminal calls for it, else the
    /// full-screen one.
    pub fn resolve(self, term: Option<&str>) -> (m: UiMode)
        ensures
            m == resolve_spec(self, opt_str_view(term)),
    {
        match self {
            UiMode::Tui | UiMode::Tty => self,
            UiMode::Auto => detect_ui_mode(term),
            UiMode::PreferTty => {
                match detect_ui_mode(term) {
                    UiMode::Tty => UiMode::Tty,
                    _ => UiMode::Tui,
                }
            },
            UiMode::PreferGui => detect_ui_mode(term),
        }
    }

    /// The front end of a concrete mode.
    pub fn create_ui(&self) -> (b: UiBackend)
        requires
            is_concrete(*self),
        ensures
            *self == UiMode::Tui ==> b == UiBackend::Tui(TuiUi),
            *self == UiMode::Tty ==> b == UiBackend::Tty(TtyUi),
    {
        match self {
            UiMode::Tui => UiBackend::Tui(TuiUi::new()),
            _ => UiBackend::Tty(TtyUi::new()),
        }
    }
}

impl core::str::FromStr for UiMode {
    type Err = String;

    fn from_str(s: &str) -> (r: Result<UiMode, String>)
        ensures
            match r {
                Ok(m) => parse_mode_spec(s@) == Ok::<UiMode, Seq<char>>(m),
                Err(e) => parse_mode_spec(s@) == Err::<UiMode, Seq<char>>(e@),
            },
    {
        UiMode::parse(s)
    }
}

/// Different modes have different names.
pub proof fn lemma_mode_names_distinct(a: UiMode, b: UiMode)
    requires
        a != b,
    ensures
        mode_name(a) != mode_name(b),
{
    reveal_strlit("tui");
    reveal_strlit("tty");
    reveal_strlit("auto");
    reveal_strlit("prefer-tty");
    reveal_strlit("prefer-gui");
    assert("tui"@.len() == 3 && "tty"@.len() == 3 && "auto"@.len() == 4);
    assert("prefer-tty"@.len() == 10 && "prefer-gui"@.len() == 10);
    assert("tui"@[1] != "tty"@[1]);
    assert("prefer-tty"@[7] != "prefer-gui"@[7]);
    if mode_name(a) == mode_name(b) {
        assert(mode_name(a)[1] == mode_name(b)[1]);
        assert(mode_name(a)[7] == mode_name(b)[7]);
    }
}

/// Reading back the name of a mode gives the mode.
pub proof fn lemma_parse_name_roundtrip(m: UiMode)
    ensures
        parse_mode_spec(mode_name(m)) == Ok::<UiMode, Seq<char>>(m),
{
    if m != UiMode::Tui {
        lemma_mode_names_distinct(m, UiMode::Tui);
    }
    if m != UiMode::Tty {
        lemma_mode_names_distinct(m, UiMode::Tty);
    }
    if m != UiMode::Auto {
        lemma_mode_names_distinct(m, UiMode::Auto);
    }
    if m != UiMode::PreferTty {
        lemma_mode_names_distinct(m, UiMode::PreferTty);
    }
}

/// Every mode resolves to a concrete one, a concrete mode resolves to itself,
/// and resolving twice changes nothing.
pub proof fn lemma_resolve_concrete(m: UiMode, term: Option<Seq<char>>)
    ensures
        is_concrete(resolve_spec(m, term)),
        is_concrete(m) ==> resolve_spec(m, term) == m,
        resolve_spec(resolve_spec(m, term), term) == resolve_spec(m, term),
{
}

} // verus!
