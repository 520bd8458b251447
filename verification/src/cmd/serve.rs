//! The `serve` subcommand: how its settings are chosen from the command
//! line, the configuration and the terminal.

use vstd::prelude::*;

use crate::config::{Config, ConfigView};
use crate::server::TerminalOptions;
use crate::state::opt_view;
use crate::text::clone_string;
use crate::ui::detect::{UiMode, opt_str_view, parse_mode_spec, resolve_spec};

verus! {

/// Arguments of the `serve` subcommand.
#[derive(Debug, Clone)]
pub struct Args {
    /// X display name (ignored on non-X11).
    pub display: Option<String>,
    /// TTY terminal node name.
    pub ttyname: Option<String>,
    /// TTY terminal type.
    pub ttytype: Option<String>,
    /// TTY LC_CTYPE value.
    pub lc_ctype: Option<String>,
    /// TTY LC_MESSAGES value.
    pub lc_messages: Option<String>,
    /// Input timeout in seconds (default: 60).
    pub timeout: Option<u32>,
    /// Grab keyboard only when the window is focused.
    pub no_global_grab: bool,
    /// Force a specific UI mode.
    pub ui: Option<UiMode>,
}

impl Default for Args {
    fn default() -> (a: Self)
        ensures
            a.display is None,
            a.ttyname is None,
            a.ttytype is None,
            a.lc_ctype is None,
            a.lc_messages is None,
            a.timeout is None,
            !a.no_global_grab,
            a.ui is None,
    {
        Args {
            display: None,
            ttyname: None,
            ttytype: None,
            lc_ctype: None,
            lc_messages: None,
            timeout: None,
            no_global_grab: false,
            ui: None,
        }
    }
}

/// The requested mode: the command line's, else the configuration's when
/// it names a mode, else `Auto`.
pub open spec fn requested_mode(cli: Option<UiMode>, cfg_ui: Option<Seq<char>>) -> UiMode {
    match cli {
        Some(m) => m,
        None => match cfg_ui {
            Some(u) => match parse_mode_spec(u) {
                Ok(m) => m,
                Err(_) => UiMode::Auto,
            },
            None => UiMode::Auto,
        },
    }
}

/// The UI mode asked for, before it is resolved against the terminal.
pub fn select_ui_mode(cli: Option<UiMode>, cfg_ui: Option<&str>) -> (m: UiMode)
    ensures
        m == requested_mode(cli, opt_str_view(cfg_ui)),
{
    match cli {
        Some(m) => m,
        None => match cfg_ui {
            Some(u) => match UiMode::parse(u) {
                Ok(m) => m,
                Err(_) => UiMode::Auto,
            },
            None => UiMode::Auto,
        },
    }
}

/// The input timeout: the command line's, else the configuration's, else 60 seconds.
pub open spec fn timeout_spec(cli: Option<u32>, cfg: Option<u32>) -> u32 {
    match cli {
        Some(t) => t,
        None => match cfg {
            Some(t) => t,
            None => 60,
        },
    }
}

/// Resolve the input timeout in seconds.
pub fn resolve_timeout(cli: Option<u32>, cfg: Option<u32>) -> (t: u32)
    ensures
        t == timeout_spec(cli, cfg),
{
    match cli {
        Some(t) => t,
        None => match cfg {
            Some(t) => t,
            None => 60,
        },
    }
}

/// What the server runs with.
#[derive(Debug, Clone, PartialEq, Eq)]
pub struct ServeSettings {
    /// The concrete UI mode.
    pub ui_mode: UiMode,
    /// Whether keyboard focus is grabbed.
    pub grab: bool,
    /// Input timeout in seconds.
    pub timeout: u32,
    /// Whether the keyring is used.
    pub keyring: bool,
    /// Terminal options the session starts with.
    pub terminal: TerminalOptions,
}

fn clone_opt(o: &Option<String>) -> (r: Option<String>)
    ensures
        opt_view(r) == opt_view(*o),
{
    match o {
        Some(s) => Some(clone_string(s)),
        None => None,
    }
}

/// Choose the settings of the server from the arguments, the configuration,
/// the keyring decision and the value of `TERM`: the UI mode is the
/// command line's, else the configuration's, else `Auto`, resolved against
/// the terminal; the terminal options are those of the command line.
pub fn serve_settings(args: &Args, cfg: &Config, keyring: bool, term: Option<&str>) -> (s: ServeSettings)
    ensures
        s.ui_mode == resolve_spec(requested_mode(args.ui, cfg@.ui), opt_str_view(term)),
        s.grab == !args.no_global_grab,
        s.timeout == timeout_spec(args.timeout, cfg@.timeout),
        s.keyring == keyring,
        s.terminal@.display == opt_view(args.display),
        s.terminal@.ttyname == opt_view(args.ttyname),
        s.terminal@.ttytype == opt_view(args.ttytype),
        s.terminal@.lc_ctype == opt_view(args.lc_ctype),
        s.terminal@.lc_messages == opt_view(args.lc_messages),
{
    let cfg_ui: Option<&str> = match &cfg.general.ui {
        Some(u) => Some(u.as_str()),
        None => None,
    };
    let mode = select_ui_mode(args.ui, cfg_ui);
    let ui_mode = mode.resolve(term);
    ServeSettings {
        ui_mode,
        grab: !args.no_global_grab,
        timeout: resolve_timeout(args.timeout, cfg.general.timeout),
        keyring,
        terminal: TerminalOptions {
            display: clone_opt(&args.display),
            ttyname: clone_opt(&args.ttyname),
            ttytype: clone_opt(&args.ttytype),
            lc_ctype: clone_opt(&args.lc_ctype),
            lc_messages: clone_opt(&args.lc_messages),
        },
    }
}

} // verus!
