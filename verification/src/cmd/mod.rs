//! Command-line level decisions: which subcommand runs, the effective log
//! level, and whether the keyring is used.

use vstd::prelude::*;

use crate::text::str_eq;

pub mod serve;
pub mod config;

verus! {

/// A subcommand.
#[derive(Debug)]
pub enum Command {
    /// Run the pinentry server.
    Serve(serve::Args),
    /// Generate shell completions.
    Completions(CompletionsArgs),
    /// Manage configuration.
    Config(config::Args),
}

/// Arguments of the `completions` subcommand.
#[derive(Debug, Clone)]
pub struct CompletionsArgs {
    /// The shell to generate completions for.
    pub shell: String,
}

/// A log level filter, from most to least quiet.
#[derive(Debug, Clone, Copy, PartialEq, Eq, Structural)]
pub enum LogLevel {
    Off,
    Error,
    Warn,
    Info,
    Debug,
    Trace,
}

/// The level a configuration names; anything else (which validation
/// rejects) falls back to `Info`.
pub open spec fn level_of_name(level: Seq<char>) -> LogLevel {
    if level == "OFF"@ {
        LogLevel::Off
    } else if level == "ERROR"@ {
        LogLevel::Error
    } else if level == "WARN"@ {
        LogLevel::Warn
    } else if level == "INFO"@ {
        LogLevel::Info
    } else if level == "DEBUG"@ {
        LogLevel::Debug
    } else if level == "TRACE"@ {
        LogLevel::Trace
    } else {
        LogLevel::Info
    }
}

/// Parse the log level string from the configuration.
pub fn parse_level_filter(level: &str) -> (l: LogLevel)
    ensures
        l == level_of_name(level@),
{
    if str_eq(level, "OFF") {
        LogLevel::Off
    } else if str_eq(level, "ERROR") {
        LogLevel::Error
    } else if str_eq(level, "WARN") {
        LogLevel::Warn
    } else if str_eq(level, "INFO") {
        LogLevel::Info
    } else if str_eq(level, "DEBUG") {
        LogLevel::Debug
    } else if str_eq(level, "TRACE") {
        LogLevel::Trace
    } else {
        LogLevel::Info
    }
}

/// The level applied to the HTTP libraries' own logs: one step quieter
/// at `Info` and `Debug`, unchanged otherwise.
pub open spec fn dependency_level_spec(l: LogLevel) -> LogLevel {
    match l {
        LogLevel::Info => LogLevel::Warn,
        LogLevel::Debug => LogLevel::Info,
        _ => l,
    }
}

/// The level for the HTTP libraries' own logs.
pub fn dependency_level(l: LogLevel) -> (r: LogLevel)
    ensures
        r == dependency_level_spec(l),
{
    match l {
        LogLevel::Info => LogLevel::Warn,
        LogLevel::Debug => LogLevel::Info,
        _ => l,
    }
}

/// The rank of a level, from `Off` (0) to `Trace` (5).
pub open spec fn rank(l: LogLevel) -> int {
    match l {
        LogLevel::Off => 0,
        LogLevel::Error => 1,
        LogLevel::Warn => 2,
        LogLevel::Info => 3,
        LogLevel::Debug => 4,
        LogLevel::Trace => 5,
    }
}

/// The libraries never log more than the program itself.
pub proof fn lemma_dependency_level_not_louder(l: LogLevel)
    ensures
        rank(dependency_level_spec(l)) <= rank(l),
        l == LogLevel::Off ==> dependency_level_spec(l) == LogLevel::Off,
{
}

/// The error for `--debug` together with `-v`/`-q` asking for another level.
pub open spec fn verbosity_conflict_message() -> Seq<char> {
    "cannot use --debug with -v/-q (conflicting verbosity levels)"@
}

/// The effective log level and whether logging is on: `--debug` means
/// `Debug` (and conflicts with `-v`/`-q` flags that ask for another level
/// other than off); else explicit `-v`/`-q` flags decide, `Off` meaning
/// no logging; else the configuration decides.
pub open spec fn logging_spec(
    debug: bool,
    verbose_present: bool,
    verbose_level: LogLevel,
    cfg_level: Seq<char>,
    cfg_enabled: bool,
) -> Result<(LogLevel, bool), Seq<char>> {
    if debug && verbose_present && verbose_level != LogLevel::Off && verbose_level != LogLevel::Debug {
        Err(verbosity_conflict_message())
    } else if debug {
        Ok((LogLevel::Debug, true))
    } else if verbose_present {
        Ok((verbose_level, verbose_level != LogLevel::Off))
    } else {
        Ok((level_of_name(cfg_level), cfg_enabled))
    }
}

/// Resolve the effective log level and whether logging is enabled.
/// `verbose_present` is whether `-v` or `-q` was given, `verbose_level`
/// the level those flags select.
pub fn resolve_logging(
    debug: bool,
    verbose_present: bool,
    verbose_level: LogLevel,
    cfg_level: &str,
    cfg_enabled: bool,
) -> (r: Result<(LogLevel, bool), String>)
    ensures
        match r {
            Ok(v) => logging_spec(debug, verbose_present, verbose_level, cfg_level@, cfg_enabled) == Ok::<(LogLevel, bool), Seq<char>>(v),
            Err(e) => logging_spec(debug, verbose_present, verbose_level, cfg_level@, cfg_enabled) == Err::<(LogLevel, bool), Seq<char>>(e@),
        },
{
    if debug && verbose_present && verbose_level != LogLevel::Off && verbose_level != LogLevel::Debug {
        Err(crate::text::lit("cannot use --debug with -v/-q (conflicting verbosity levels)"))
    } else if debug {
        Ok((LogLevel::Debug, true))
    } else if verbose_present {
        Ok((verbose_level, verbose_level != LogLevel::Off))
    } else {
        Ok((parse_level_filter(cfg_level), cfg_enabled))
    }
}

/// Whether a logger is set up: logging is enabled at a level other than `Off`.
pub fn logger_wanted(level: LogLevel, enabled: bool) -> (r: bool)
    ensures
        r == (enabled && level != LogLevel::Off),
{
    enabled && level != LogLevel::Off
}

/// Whether the keyring is used: `--no-keyring` wins, then `--keyring`,
/// then the configuration.
pub fn resolve_keyring(no_keyring: bool, keyring: bool, cfg_keyring: bool) -> (r: bool)
    ensures
        r == if no_keyring { false } else if keyring { true } else { cfg_keyring },
{
    if no_keyring {
        false
    } else if keyring {
        true
    } else {
        cfg_keyring
    }
}

/// Logging is off whenever the effective level is `Off`, and on at `Debug`
/// whenever `--debug` is accepted.
pub proof fn lemma_logging_consistent(
    debug: bool,
    verbose_present: bool,
    verbose_level: LogLevel,
    cfg_level: Seq<char>,
    cfg_enabled: bool,
)
    ensures
        logging_spec(debug, verbose_present, verbose_level, cfg_level, cfg_enabled) matches Ok((l, on)) ==> (
            (debug ==> l == LogLevel::Debug && on) && (verbose_present && !debug ==> (on <==> l != LogLevel::Off))),
        (debug && (!verbose_present || verbose_level == LogLevel::Off || verbose_level == LogLevel::Debug))
            ==> logging_spec(debug, verbose_present, verbose_level, cfg_level, cfg_enabled) is Ok,
{
}

} // verus!
