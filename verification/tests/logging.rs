use rusty_jack::logging::{
    expand_tilde, pad_level, pad_module, resolve_level, resolve_log_file_path, use_utc_timestamps,
    DaemonLoggingOptions, LogLevel,
};

#[test]
fn test_expand_tilde() {
    assert_eq!(
        expand_tilde("~/Library/Logs/rusty-jack.log", Some("/Users/example")),
        "/Users/example/Library/Logs/rusty-jack.log"
    );
}

#[test]
fn expand_tilde_edge_cases() {
    assert_eq!(expand_tilde("~/x", None), "~/x");
    assert_eq!(expand_tilde("/var/log/x", Some("/Users/example")), "/var/log/x");
    assert_eq!(expand_tilde("~//abs", Some("/Users/example")), "/abs");
    assert_eq!(expand_tilde("~/x", Some("/Users/example/")), "/Users/example/x");
}

#[test]
fn test_pad_module_truncates_long_targets() {
    assert_eq!(pad_module("rusty_jack::daemon"), "daemon      ");
    assert_eq!(pad_module("verylongmodulename"), "verylongmodu");
}

#[test]
fn pad_module_uses_rightmost_separator() {
    assert_eq!(pad_module("a:::b"), "b           ");
    assert_eq!(pad_module("setup"), "setup       ");
    assert_eq!(pad_module("ééééééé"), "ééééééé");
}

#[test]
fn test_pad_level() {
    assert_eq!(pad_level(LogLevel::Info), "INFO    ");
    assert_eq!(pad_level(LogLevel::Warn), "WARN    ");
}

#[test]
fn level_and_file_resolution() {
    assert_eq!(resolve_level(" INFO ", None), "info");
    assert_eq!(resolve_level("info", Some("  ")), "info");
    assert_eq!(resolve_level("info", Some("debug")), "debug");
    assert_eq!(
        resolve_log_file_path("~/Library/Logs/rusty-jack.log", None, Some("/Users/a")),
        "/Users/a/Library/Logs/rusty-jack.log"
    );
    assert_eq!(resolve_log_file_path("~/x.log", Some("/tmp/y.log"), Some("/Users/a")), "/tmp/y.log");
    assert!(use_utc_timestamps(Some("yes")));
    assert!(!use_utc_timestamps(Some("no")));
    assert!(!use_utc_timestamps(None));
    let options = DaemonLoggingOptions::default();
    assert_eq!(options.level, "info");
    assert!(options.console);
}
