//! The configuration: its values, their defaults, the rules a loaded file
//! must meet, and where the configuration and log files live.

use vstd::prelude::*;

use crate::text::{lit, str_eq};

verus! {

/// Default config file template shown by `config edit` and `config list`.
pub const DEFAULT_TEMPLATE: &'static str = "[logging]\nenabled = false\n# level = \"INFO\"\n\n# [general]\n# timeout = 60\n# ui = \"auto\"\n# keyring = true\n";

/// Top-level configuration.
#[derive(Debug, Clone)]
pub struct Config {
    pub logging: LoggingConfig,
    pub general: GeneralConfig,
}

/// Logging configuration.
#[derive(Debug, Clone)]
pub struct LoggingConfig {
    /// Whether logging is enabled.
    pub enabled: bool,
    /// Log level (OFF, ERROR, WARN, INFO, DEBUG, TRACE).
    pub level: String,
}

/// General configuration.
#[derive(Debug, Clone)]
pub struct GeneralConfig {
    /// Input timeout in seconds. None uses the built-in default (60).
    pub timeout: Option<u32>,
    /// UI mode override. None uses auto-detection.
    pub ui: Option<String>,
    /// Whether to use the system keyring.
    pub keyring: bool,
}

/// Abstract contents of a [`Config`].
pub struct ConfigView {
    pub logging_enabled: bool,
    pub level: Seq<char>,
    pub timeout: Option<u32>,
    pub ui: Option<Seq<char>>,
    pub keyring: bool,
}

impl View for Config {
    type V = ConfigView;

    open spec fn view(&self) -> ConfigView {
        ConfigView {
            logging_enabled: self.logging.enabled,
            level: self.logging.level@,
            timeout: self.general.timeout,
            ui: match self.general.ui {
                Some(u) => Some(u@),
                None => None,
            },
            keyring: self.general.keyring,
        }
    }
}

/// The configuration used when no file sets a value.
pub open spec fn default_config() -> ConfigView {
    ConfigView { logging_enabled: false, level: "INFO"@, timeout: None, ui: None, keyring: true }
}

impl Default for LoggingConfig {
    fn default() -> (c: Self)
        ensures
            c.enabled == false,
            c.level@ == "INFO"@,
    {
        LoggingConfig { enabled: false, level: lit("INFO") }
    }
}

impl Default for GeneralConfig {
    fn default() -> (c: Self)
        ensures
            c.timeout is None,
            c.ui is None,
            c.keyring == true,
    {
        GeneralConfig { timeout: None, ui: None, keyring: true }
    }
}

impl Default for Config {
    fn default() -> (c: Self)
        ensures
            c@ == default_config(),
    {
        Config { logging: LoggingConfig::default(), general: GeneralConfig::default() }
    }
}

/// The log levels a configuration may name.
pub open spec fn valid_level(l: Seq<char>) -> bool {
    ||| l == "OFF"@
    ||| l == "ERROR"@
    ||| l == "WARN"@
    ||| l == "INFO"@
    ||| l == "DEBUG"@
    ||| l == "TRACE"@
}

/// The UI modes a configuration may name.
pub open spec fn valid_ui(u: Seq<char>) -> bool {
    ||| u == "auto"@
    ||| u == "tty"@
    ||| u == "tui"@
    ||| u == "prefer-tty"@
    ||| u == "prefer-gui"@
}

/// The error for an unknown log level.
pub open spec fn invalid_level_message(l: Seq<char>) -> Seq<char> {
    "invalid logging level '"@ + l + "', must be one of: OFF, ERROR, WARN, INFO, DEBUG, TRACE"@
}

/// The error for an unknown UI mode.
pub open spec fn invalid_ui_message(u: Seq<char>) -> Seq<char> {
    "invalid ui mode '"@ + u + "', must be one of: auto, tty, tui, prefer-tty, prefer-gui"@
}

/// What validation says of a configuration: the level is checked first,
/// then the UI mode if one is set.
pub open spec fn validate_spec(c: ConfigView) -> Result<(), Seq<char>> {
    if !valid_level(c.level) {
        Err(invalid_level_message(c.level))
    } else {
        match c.ui {
            Some(u) => if valid_ui(u) { Ok(()) } else { Err(invalid_ui_message(u)) },
            None => Ok(()),
        }
    }
}

fn is_valid_level(l: &str) -> (r: bool)
    ensures
        r == valid_level(l@),
{
    str_eq(l, "OFF") || str_eq(l, "ERROR") || str_eq(l, "WARN") || str_eq(l, "INFO")
        || str_eq(l, "DEBUG") || str_eq(l, "TRACE")
}

fn is_valid_ui(u: &str) -> (r: bool)
    ensures
        r == valid_ui(u@),
{
    str_eq(u, "auto") || str_eq(u, "tty") || str_eq(u, "tui") || str_eq(u, "prefer-tty")
        || str_eq(u, "prefer-gui")
}

impl Config {
    /// Validate config values.
    pub fn validate(&self) -> (r: Result<(), String>)
        ensures
            match r {
                Ok(()) => validate_spec(self@) == Ok::<(), Seq<char>>(()),
                Err(e) => validate_spec(self@) == Err::<(), Seq<char>>(e@),
            },
    {
        if !is_valid_level(self.logging.level.as_str()) {
            let mut msg = lit("invalid logging level '");
            msg.append(self.logging.level.as_str());
            msg.append("', must be one of: OFF, ERROR, WARN, INFO, DEBUG, TRACE");
            return Err(msg);
        }
        match &self.general.ui {
            Some(u) => {
                if !is_valid_ui(u.as_str()) {
                    let mut msg = lit("invalid ui mode '");
                    msg.append(u.as_str());
                    msg.append("', must be one of: auto, tty, tui, prefer-tty, prefer-gui");
                    return Err(msg);
                }
            },
            None => {},
        }
        Ok(())
    }
}

/// The default configuration passes validation.
pub proof fn lemma_default_config_valid()
    ensures
        validate_spec(default_config()) == Ok::<(), Seq<char>>(()),
{
}

// ---------------------------------------------------------------------------
// File locations
// ---------------------------------------------------------------------------

/// The characters of an optional string.
pub open spec fn opt_chars(o: Option<String>) -> Option<Seq<char>> {
    match o {
        Some(s) => Some(s@),
        None => None,
    }
}

/// The characters of each part of a path.
pub open spec fn parts_view(v: Vec<String>) -> Seq<Seq<char>> {
    v@.map_values(|s: String| s@)
}

/// The parts of the config file path, joined in order: the path given on
/// the command line, else `<XDG_CONFIG_HOME>/pinentry-wukong/config.toml`,
/// else `config.toml` in the platform's config directory, else
/// `pinentry-wukong-config.toml`.
pub open spec fn config_path_spec(
    cli_path: Option<Seq<char>>,
    xdg_config_home: Option<Seq<char>>,
    platform_config_dir: Option<Seq<char>>,
) -> Seq<Seq<char>> {
    match cli_path {
        Some(p) => seq![p],
        None => match xdg_config_home {
            Some(x) => seq![x, "pinentry-wukong"@, "config.toml"@],
            None => match platform_config_dir {
                Some(d) => seq![d, "config.toml"@],
                None => seq!["pinentry-wukong-config.toml"@],
            },
        },
    }
}

/// The parts of the log file path, joined in order:
/// `<XDG_CACHE_HOME>/pinentry-wukong.log`, else `pinentry-wukong.log` in
/// the platform's cache directory, else `pinentry-wukong.log`.
pub open spec fn log_path_spec(xdg_cache_home: Option<Seq<char>>, platform_cache_dir: Option<Seq<char>>) -> Seq<Seq<char>> {
    match xdg_cache_home {
        Some(x) => seq![x, "pinentry-wukong.log"@],
        None => match platform_cache_dir {
            Some(d) => seq![d, "pinentry-wukong.log"@],
            None => seq!["pinentry-wukong.log"@],
        },
    }
}

fn parts1(a: String) -> (v: Vec<String>)
    ensures
        parts_view(v) == seq![a@],
{
    let mut v: Vec<String> = Vec::new();
    v.push(a);
    assert(parts_view(v) =~= seq![a@]);
    v
}

fn parts2(a: String, b: String) -> (v: Vec<String>)
    ensures
        parts_view(v) == seq![a@, b@],
{
    let mut v: Vec<String> = Vec::new();
    v.push(a);
    v.push(b);
    assert(parts_view(v) =~= seq![a@, b@]);
    v
}

fn parts3(a: String, b: String, c: String) -> (v: Vec<String>)
    ensures
        parts_view(v) == seq![a@, b@, c@],
{
    let mut v: Vec<String> = Vec::new();
    v.push(a);
    v.push(b);
    v.push(c);
    assert(parts_view(v) =~= seq![a@, b@, c@]);
    v
}

/// The config file path, as the parts to join. The caller reads
/// `XDG_CONFIG_HOME` and the platform's config directory.
pub fn resolve_config_path(
    cli_path: Option<String>,
    xdg_config_home: Option<String>,
    platform_config_dir: Option<String>,
) -> (parts: Vec<String>)
    ensures
        parts_view(parts) == config_path_spec(opt_chars(cli_path), opt_chars(xdg_config_home), opt_chars(platform_config_dir)),
{
    match cli_path {
        Some(p) => parts1(p),
        None => match xdg_config_home {
            Some(x) => parts3(x, lit("pinentry-wukong"), lit("config.toml")),
            None => match platform_config_dir {
                Some(d) => parts2(d, lit("config.toml")),
                None => parts1(lit("pinentry-wukong-config.toml")),
            },
        },
    }
}

/// The log file path, as the parts to join. The caller reads
/// `XDG_CACHE_HOME` and the platform's cache directory.
pub fn resolve_log_path(xdg_cache_home: Option<String>, platform_cache_dir: Option<String>) -> (parts: Vec<String>)
    ensures
        parts_view(parts) == log_path_spec(opt_chars(xdg_cache_home), opt_chars(platform_cache_dir)),
{
    match xdg_cache_home {
        Some(x) => parts2(x, lit("pinentry-wukong.log")),
        None => match platform_cache_dir {
            Some(d) => parts2(d, lit("pinentry-wukong.log")),
            None => parts1(lit("pinentry-wukong.log")),
        },
    }
}

} // verus!
