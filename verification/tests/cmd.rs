use pinentry_wukong::cmd::config::{choose_editor, render_config_listing, Args, ConfigCommand, ConfigListing};
use pinentry_wukong::cmd::serve::{resolve_timeout, select_ui_mode, serve_settings, Args as ServeArgs, ServeSettings};
use pinentry_wukong::cmd::{
    dependency_level, logger_wanted, parse_level_filter, resolve_keyring, resolve_logging, Command,
    CompletionsArgs, LogLevel,
};
use pinentry_wukong::config::Config;
use pinentry_wukong::server::{PinentryServer, TerminalOptions};
use pinentry_wukong::ui::tty::tty_path;
use pinentry_wukong::cmd::config::{config_listing_text, format_item, TomlItem};
use pinentry_wukong::ui::detect::UiMode;

#[test]
fn level_names() {
    assert_eq!(parse_level_filter("OFF"), LogLevel::Off);
    assert_eq!(parse_level_filter("ERROR"), LogLevel::Error);
    assert_eq!(parse_level_filter("WARN"), LogLevel::Warn);
    assert_eq!(parse_level_filter("INFO"), LogLevel::Info);
    assert_eq!(parse_level_filter("DEBUG"), LogLevel::Debug);
    assert_eq!(parse_level_filter("TRACE"), LogLevel::Trace);
    assert_eq!(parse_level_filter("debug"), LogLevel::Info);
}

#[test]
fn dependency_logs_are_quieter() {
    assert_eq!(dependency_level(LogLevel::Off), LogLevel::Off);
    assert_eq!(dependency_level(LogLevel::Error), LogLevel::Error);
    assert_eq!(dependency_level(LogLevel::Warn), LogLevel::Warn);
    assert_eq!(dependency_level(LogLevel::Info), LogLevel::Warn);
    assert_eq!(dependency_level(LogLevel::Debug), LogLevel::Info);
    assert_eq!(dependency_level(LogLevel::Trace), LogLevel::Trace);
}

#[test]
fn debug_flag_conflicts_with_other_verbosity() {
    assert_eq!(
        resolve_logging(true, true, LogLevel::Trace, "INFO", false),
        Err("cannot use --debug with -v/-q (conflicting verbosity levels)".to_string())
    );
    assert_eq!(resolve_logging(true, true, LogLevel::Debug, "INFO", false), Ok((LogLevel::Debug, true)));
    // -q (off) does not conflict: --debug wins.
    assert_eq!(resolve_logging(true, true, LogLevel::Off, "INFO", false), Ok((LogLevel::Debug, true)));
    assert_eq!(resolve_logging(true, false, LogLevel::Error, "INFO", false), Ok((LogLevel::Debug, true)));
}

#[test]
fn verbosity_flags_then_config_decide() {
    assert_eq!(resolve_logging(false, true, LogLevel::Trace, "INFO", false), Ok((LogLevel::Trace, true)));
    assert_eq!(resolve_logging(false, true, LogLevel::Off, "INFO", true), Ok((LogLevel::Off, false)));
    assert_eq!(resolve_logging(false, false, LogLevel::Error, "WARN", true), Ok((LogLevel::Warn, true)));
    assert_eq!(resolve_logging(false, false, LogLevel::Error, "INFO", false), Ok((LogLevel::Info, false)));
    assert!(logger_wanted(LogLevel::Warn, true));
    assert!(!logger_wanted(LogLevel::Off, true));
    assert!(!logger_wanted(LogLevel::Trace, false));
}

#[test]
fn keyring_flags() {
    assert!(!resolve_keyring(true, false, true));
    assert!(resolve_keyring(false, true, false));
    assert!(resolve_keyring(false, false, true));
    assert!(!resolve_keyring(false, false, false));
}

#[test]
fn ui_mode_selection() {
    assert_eq!(select_ui_mode(Some(UiMode::Tty), Some("tui")), UiMode::Tty);
    assert_eq!(select_ui_mode(None, Some("prefer-tty")), UiMode::PreferTty);
    assert_eq!(select_ui_mode(None, Some("gui")), UiMode::Auto);
    assert_eq!(select_ui_mode(None, None), UiMode::Auto);
}

#[test]
fn timeout_selection() {
    assert_eq!(resolve_timeout(Some(5), Some(30)), 5);
    assert_eq!(resolve_timeout(None, Some(30)), 30);
    assert_eq!(resolve_timeout(None, None), 60);
    assert_eq!(resolve_timeout(Some(0), None), 0);
}

#[test]
fn serve_settings_combine_sources() {
    let mut cfg = Config::default();
    cfg.general.timeout = Some(20);
    cfg.general.ui = Some("prefer-tty".to_string());
    let args = ServeArgs::default();
    let none = TerminalOptions { display: None, ttyname: None, ttytype: None, lc_ctype: None, lc_messages: None };
    assert_eq!(
        serve_settings(&args, &cfg, true, Some("xterm")),
        ServeSettings { ui_mode: UiMode::Tui, grab: true, timeout: 20, keyring: true, terminal: none.clone() }
    );
    let args = ServeArgs { timeout: Some(3), no_global_grab: true, ui: Some(UiMode::Auto), ..ServeArgs::default() };
    assert_eq!(
        serve_settings(&args, &cfg, false, Some("dumb")),
        ServeSettings { ui_mode: UiMode::Tty, grab: false, timeout: 3, keyring: false, terminal: none }
    );
}

#[test]
fn command_line_terminal_options_reach_the_session() {
    let args = ServeArgs {
        display: Some(":1".into()),
        ttyname: Some("/dev/pts/9".into()),
        ttytype: Some("vt100".into()),
        lc_ctype: Some("C.UTF-8".into()),
        lc_messages: Some("C".into()),
        ..ServeArgs::default()
    };
    let settings = serve_settings(&args, &Config::default(), true, None);
    assert_eq!(settings.terminal.ttyname.as_deref(), Some("/dev/pts/9"));
    let server = PinentryServer::with_terminal(settings.grab, settings.timeout, true, settings.terminal);
    assert_eq!(server.state.ttyname.as_deref(), Some("/dev/pts/9"));
    assert_eq!(server.state.display.as_deref(), Some(":1"));
    assert_eq!(server.state.ttytype.as_deref(), Some("vt100"));
    assert_eq!(server.state.lc_ctype.as_deref(), Some("C.UTF-8"));
    assert_eq!(server.state.lc_messages.as_deref(), Some("C"));
    assert_eq!(server.state.timeout, 60);
    assert_eq!(tty_path(&server.state), "/dev/pts/9");
}

#[test]
fn editor_choice() {
    assert_eq!(choose_editor(Some("code -w"), Some("nano"), false), "code -w");
    assert_eq!(choose_editor(Some(""), Some("nano"), false), "nano");
    assert_eq!(choose_editor(None, Some(""), false), "vi");
    assert_eq!(choose_editor(None, None, true), "notepad");
}

#[test]
fn listing_of_an_empty_file() {
    let listing = ConfigListing {
        enabled: None,
        level: None,
        has_general_keys: false,
        timeout: None,
        ui: None,
        keyring: None,
    };
    assert_eq!(
        render_config_listing(&listing),
        "[logging]\n# enabled = false\n# level = \"INFO\"\n\n# [general]\n# timeout = 60\n# ui = \"auto\"\n# keyring = true\n"
    );
}

#[test]
fn listing_shows_user_values() {
    let listing = ConfigListing {
        enabled: Some("true".into()),
        level: Some("\"DEBUG\"".into()),
        has_general_keys: true,
        timeout: Some("30".into()),
        ui: None,
        keyring: Some("false".into()),
    };
    assert_eq!(
        render_config_listing(&listing),
        "[logging]\nenabled = true\nlevel = \"DEBUG\"\n\n[general]\ntimeout = 30\n# ui = \"auto\"\nkeyring = false\n"
    );
}

#[test]
fn subcommand_values() {
    let c = Command::Config(Args { command: ConfigCommand::Path });
    assert!(matches!(c, Command::Config(Args { command: ConfigCommand::Path })));
    let c = Command::Completions(CompletionsArgs { shell: "bash".into() });
    assert!(matches!(c, Command::Completions(ref a) if a.shell == "bash"));
    assert!(matches!(Command::Serve(ServeArgs::default()), Command::Serve(_)));
}

#[test]
fn listing_of_a_toml_file() {
    let text = config_listing_text("[logging]\nenabled = true\nlevel = \"DEBUG\"\n\n[general]\ntimeout = 30\n").unwrap();
    assert_eq!(
        text,
        "[logging]\nenabled = true\nlevel = \"DEBUG\"\n\n[general]\ntimeout = 30\n# ui = \"auto\"\n# keyring = true\n"
    );
}

#[test]
fn listing_of_empty_and_odd_files() {
    assert_eq!(
        config_listing_text("").unwrap(),
        "[logging]\n# enabled = false\n# level = \"INFO\"\n\n# [general]\n# timeout = 60\n# ui = \"auto\"\n# keyring = true\n"
    );
    // An empty [general] table is listed as commented out.
    assert!(config_listing_text("[general]\n").unwrap().contains("\n# [general]\n"));
    let text = config_listing_text("[general]\ntimeout = -5\nui = true\nkeyring = 1.5\n").unwrap();
    assert!(text.contains("\n[general]\ntimeout = -5\nui = true\nkeyring = 1.5\n"));
    let text = config_listing_text("[general]\nkeyring = 2.0\n").unwrap();
    assert!(text.ends_with("keyring = 2\n"));
    assert!(config_listing_text("[logging").is_err());
}

#[test]
fn toml_values_are_shown_by_type() {
    assert_eq!(format_item(&TomlItem::Str("tui".into())), "\"tui\"");
    assert_eq!(format_item(&TomlItem::Int(-9223372036854775808)), "-9223372036854775808");
    assert_eq!(format_item(&TomlItem::Int(0)), "0");
    assert_eq!(format_item(&TomlItem::Int(9223372036854775807)), "9223372036854775807");
    assert_eq!(format_item(&TomlItem::Bool(false)), "false");
    assert_eq!(format_item(&TomlItem::Float("1.5".into())), "1.5");
}
