use pinentry_wukong::config::{
    resolve_config_path, resolve_log_path, Config, GeneralConfig, LoggingConfig, DEFAULT_TEMPLATE,
};

fn config(enabled: bool, level: &str, timeout: Option<u32>, ui: Option<&str>, keyring: bool) -> Config {
    Config {
        logging: LoggingConfig { enabled, level: level.to_string() },
        general: GeneralConfig { timeout, ui: ui.map(|u| u.to_string()), keyring },
    }
}

#[test]
fn test_default_config() {
    let config = Config::default();
    assert!(!config.logging.enabled);
    assert_eq!(config.logging.level, "INFO");
    assert_eq!(config.general.timeout, None);
    assert_eq!(config.general.ui, None);
    assert!(config.general.keyring);
}

#[test]
fn test_parse_full_config() {
    // [logging] enabled = true, level = "DEBUG"; [general] timeout = 30, ui = "tui", keyring = false
    let config = config(true, "DEBUG", Some(30), Some("tui"), false);
    config.validate().unwrap();
    assert!(config.logging.enabled);
    assert_eq!(config.logging.level, "DEBUG");
    assert_eq!(config.general.timeout, Some(30));
    assert_eq!(config.general.ui.as_deref(), Some("tui"));
    assert!(!config.general.keyring);
}

#[test]
fn test_parse_partial_config() {
    // [logging] enabled = true; everything else from the defaults
    let mut config = Config::default();
    config.logging.enabled = true;
    config.validate().unwrap();
    assert!(config.logging.enabled);
    assert_eq!(config.logging.level, "INFO"); // default
    assert_eq!(config.general.timeout, None); // default
    assert!(config.general.keyring); // default
}

#[test]
fn test_invalid_level() {
    // [logging] level = "VERBOSE"
    let mut config = Config::default();
    config.logging.level = "VERBOSE".to_string();
    assert!(config.validate().is_err());
}

#[test]
fn test_invalid_ui_mode() {
    // [general] ui = "gui"
    let mut config = Config::default();
    config.general.ui = Some("gui".to_string());
    assert!(config.validate().is_err());
}

#[test]
fn default_config_validates() {
    assert_eq!(Config::default().validate(), Ok(()));
}

#[test]
fn every_level_and_mode_name_validates() {
    for level in ["OFF", "ERROR", "WARN", "INFO", "DEBUG", "TRACE"] {
        for ui in ["auto", "tty", "tui", "prefer-tty", "prefer-gui"] {
            assert_eq!(config(false, level, None, Some(ui), true).validate(), Ok(()));
        }
    }
}

#[test]
fn invalid_values_are_named_in_the_error() {
    assert_eq!(
        config(false, "info", None, None, true).validate(),
        Err("invalid logging level 'info', must be one of: OFF, ERROR, WARN, INFO, DEBUG, TRACE".to_string())
    );
    assert_eq!(
        config(false, "INFO", None, Some("gui"), true).validate(),
        Err("invalid ui mode 'gui', must be one of: auto, tty, tui, prefer-tty, prefer-gui".to_string())
    );
    // The level is checked first.
    assert_eq!(
        config(false, "LOUD", None, Some("gui"), true).validate(),
        Err("invalid logging level 'LOUD', must be one of: OFF, ERROR, WARN, INFO, DEBUG, TRACE".to_string())
    );
}

#[test]
fn config_path_priority() {
    assert_eq!(
        resolve_config_path(Some("/etc/p.toml".into()), Some("/x".into()), Some("/d".into())),
        vec!["/etc/p.toml".to_string()]
    );
    assert_eq!(
        resolve_config_path(None, Some("/x".into()), Some("/d".into())),
        vec!["/x".to_string(), "pinentry-wukong".to_string(), "config.toml".to_string()]
    );
    assert_eq!(
        resolve_config_path(None, None, Some("/d".into())),
        vec!["/d".to_string(), "config.toml".to_string()]
    );
    assert_eq!(resolve_config_path(None, None, None), vec!["pinentry-wukong-config.toml".to_string()]);
}

#[test]
fn log_path_priority() {
    assert_eq!(
        resolve_log_path(Some("/cache".into()), Some("/d".into())),
        vec!["/cache".to_string(), "pinentry-wukong.log".to_string()]
    );
    assert_eq!(
        resolve_log_path(None, Some("/d".into())),
        vec!["/d".to_string(), "pinentry-wukong.log".to_string()]
    );
    assert_eq!(resolve_log_path(None, None), vec!["pinentry-wukong.log".to_string()]);
}

#[test]
fn template_starts_with_logging_section() {
    assert!(DEFAULT_TEMPLATE.starts_with("[logging]\nenabled = false\n"));
    assert!(DEFAULT_TEMPLATE.ends_with("# keyring = true\n"));
}
