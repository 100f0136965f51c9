use rusty_jack::config::{load_config_optional, validate_result, validate_result_lines, Config, DeviceSelectorConfig, ValidateResult};
use rusty_jack::eqmac::{ensure_eqmac_running, eqmac_recheck_under_lock, EqMacEnsureAction, EqMacEnsureResult, EqMacLaunchAction};
use rusty_jack::launchd::{escape_xml, unescape_xml};
use rusty_jack::list_fmt::terminal_supports_color;
use rusty_jack::network::{lan_connectivity_ready, NetworkAccessSnapshot};
use rusty_jack::output_device::OutputDevice;
use rusty_jack::policy::{select_routing_target, RoutingTargetSource};
use rusty_jack::transport::TransportKind;
use rusty_jack::RustyJackError;
use std::cell::Cell;

fn action(r: Result<EqMacEnsureResult, RustyJackError>) -> EqMacEnsureAction {
    r.unwrap().action
}

#[test]
fn ensure_eqmac_running_not_installed_reads_nothing() {
    let reads = Cell::new(0);
    let r = ensure_eqmac_running(
        false,
        || {
            reads.set(reads.get() + 1);
            true
        },
        || true,
        || Ok(EqMacEnsureResult { action: EqMacEnsureAction::Restarted }),
        || Ok(EqMacLaunchAction::Launched),
        || {},
    );
    assert_eq!(action(r), EqMacEnsureAction::NotInstalled);
    assert_eq!(reads.get(), 0);
}

#[test]
fn ensure_eqmac_running_healthy_is_already_running() {
    let r = ensure_eqmac_running(
        true,
        || true,
        || true,
        || Ok(EqMacEnsureResult { action: EqMacEnsureAction::Restarted }),
        || Ok(EqMacLaunchAction::Launched),
        || {},
    );
    assert_eq!(action(r), EqMacEnsureAction::AlreadyRunning);
}

#[test]
fn ensure_eqmac_running_stale_rechecks_under_lock() {
    let r = ensure_eqmac_running(
        true,
        || true,
        || false,
        || eqmac_recheck_under_lock(false, true, || Ok(EqMacEnsureResult { action: EqMacEnsureAction::Restarted })),
        || Ok(EqMacLaunchAction::Launched),
        || {},
    );
    assert_eq!(action(r), EqMacEnsureAction::Restarted);
}

#[test]
fn ensure_eqmac_running_launches_and_waits() {
    let waited = Cell::new(false);
    let r = ensure_eqmac_running(
        true,
        || false,
        || false,
        || Ok(EqMacEnsureResult { action: EqMacEnsureAction::Restarted }),
        || Ok(EqMacLaunchAction::Launched),
        || waited.set(true),
    );
    assert_eq!(action(r), EqMacEnsureAction::Launched);
    assert!(waited.get());
}

#[test]
fn ensure_eqmac_running_launch_reports_missing_app_or_error() {
    let r = ensure_eqmac_running(
        true,
        || false,
        || false,
        || Ok(EqMacEnsureResult { action: EqMacEnsureAction::Restarted }),
        || Ok(EqMacLaunchAction::NotInstalled),
        || {},
    );
    assert_eq!(action(r), EqMacEnsureAction::NotInstalled);
    let r = ensure_eqmac_running(
        true,
        || false,
        || false,
        || Ok(EqMacEnsureResult { action: EqMacEnsureAction::Restarted }),
        || Err(RustyJackError::AppLaunch("failed to launch eqMac: boom".into())),
        || {},
    );
    assert!(matches!(r, Err(RustyJackError::AppLaunch(_))));
}

#[test]
fn eqmac_recheck_under_lock_respects_recovery_and_cooldown() {
    let restart = || Ok(EqMacEnsureResult { action: EqMacEnsureAction::Restarted });
    assert_eq!(action(eqmac_recheck_under_lock(true, true, restart)), EqMacEnsureAction::AlreadyRunning);
    assert_eq!(action(eqmac_recheck_under_lock(false, false, restart)), EqMacEnsureAction::AlreadyRunning);
    assert_eq!(action(eqmac_recheck_under_lock(false, true, restart)), EqMacEnsureAction::Restarted);
}

#[test]
fn lan_connectivity_needs_an_interface_address() {
    let snap = |ip: Option<&str>| NetworkAccessSnapshot {
        interface: "en0".into(),
        gateway: Some("192.168.1.1".into()),
        ip_address: ip.map(|s| s.to_string()),
    };
    assert!(lan_connectivity_ready(&Ok(Some(snap(Some("192.168.1.20"))))));
    assert!(!lan_connectivity_ready(&Ok(Some(snap(Some(""))))));
    assert!(!lan_connectivity_ready(&Ok(Some(snap(None)))));
    assert!(!lan_connectivity_ready(&Ok(None)));
    assert!(!lan_connectivity_ready(&Err(RustyJackError::Config("route failed".into()))));
}

#[test]
fn validate_result_reports_canonicalization() {
    let same = validate_result("/tmp/c.json", "{}", "{}");
    let ValidateResult::Valid { config_path, canonicalized } = &same;
    assert_eq!(config_path, "/tmp/c.json");
    assert!(!canonicalized);
    assert_eq!(validate_result_lines(&same), vec!["Config is valid".to_string(), "  path: /tmp/c.json".to_string()]);
    let rewritten = validate_result("/tmp/c.json", "{\"b\":1,\"a\":2}", "{\"a\":2,\"b\":1}");
    let lines = validate_result_lines(&rewritten);
    assert_eq!(lines.len(), 3);
    assert_eq!(lines[2], "  note: rewrote file in canonical key order");
}

#[test]
fn terminal_color_needs_tty_and_no_no_color() {
    assert!(terminal_supports_color(true, false));
    assert!(!terminal_supports_color(true, true));
    assert!(!terminal_supports_color(false, false));
}

#[test]
fn xml_unescape_inverts_escape_on_samples() {
    for s in ["", "plain", "a&b<c>\"d'e", "&amp;&lt;", "&&;;<<>>", "path/with spaces & 'quotes'"] {
        assert_eq!(unescape_xml(&escape_xml(s)), s);
    }
}

fn out(uid: &str, alive: bool, transport: TransportKind) -> OutputDevice {
    OutputDevice {
        id: 1,
        uid: uid.into(),
        name: uid.into(),
        transport,
        is_alive: alive,
        is_default: false,
        is_active: false,
        monitor_name: None,
    }
}

fn config(preferred: &str, fallbacks: &[&str]) -> Config {
    let mut config = Config::default();
    config.preferred_device = DeviceSelectorConfig { name: None, uid: Some(preferred.into()) };
    config.fallback_uids = fallbacks.iter().map(|s| s.to_string()).collect();
    config
}

#[test]
fn preferred_output_wins_over_live_fallbacks() {
    let devices = vec![out("fb-1", true, TransportKind::Usb), out("pref", true, TransportKind::Hdmi)];
    let t = select_routing_target(&config("pref", &["fb-1"]), &devices).unwrap();
    assert_eq!(t.uid, "pref");
    assert_eq!(t.source, RoutingTargetSource::Preferred);
}

#[test]
fn fallbacks_are_tried_in_configured_order() {
    let devices = vec![
        out("fb-3", true, TransportKind::Usb),
        out("fb-2", true, TransportKind::Usb),
        out("fb-1", false, TransportKind::Usb),
        out("pref", false, TransportKind::Hdmi),
    ];
    let t = select_routing_target(&config("pref", &["fb-1", "fb-2", "fb-3"]), &devices).unwrap();
    assert_eq!(t.uid, "fb-2");
    assert_eq!(t.source, RoutingTargetSource::Fallback { index: 1 });
}

#[test]
fn test_load_picker_config_explicit_missing_errors() {
    let path = "/no/such/rusty-jack-config.json";
    let r = load_config_optional(path, false, true, || Ok(Config::default()));
    assert!(r.is_err());
    assert_eq!(r.unwrap_err().detail_message(), "config file not found: /no/such/rusty-jack-config.json");
}

#[test]
fn load_config_optional_missing_implicit_is_none_and_loads_existing() {
    assert!(load_config_optional("/tmp/absent.json", false, false, || Ok(Config::default())).unwrap().is_none());
    let loaded = load_config_optional("/tmp/c.json", true, false, || Ok(config("pref", &[]))).unwrap();
    assert_eq!(loaded.unwrap().preferred_device.uid.as_deref(), Some("pref"));
    let failed = load_config_optional("/tmp/c.json", true, true, || Err(RustyJackError::Config("bad".into())));
    assert!(failed.is_err());
}

use rusty_jack::apply::{daemon_switch_line, print_text_lines, ApplyResult};
use rusty_jack::hal::VolumeEnsureResult;
use rusty_jack::install_command::{cleanup_orphaned_eqmac_driver, eqmac_cleanup_result_lines, OrphanedEqMacDriverCleanupResult};
use rusty_jack::system_default::DeviceList;
use rusty_jack::uninstall_command::{restore_audio_best_effort, restore_audio_result_lines, RestoreAudioResult};

fn switched(volume: Option<VolumeEnsureResult>, source: RoutingTargetSource, also: bool) -> ApplyResult {
    ApplyResult::Switched {
        from_uid: Some("builtin".into()),
        to_uid: "hdmi-1".into(),
        device_name: "HDMI".into(),
        monitor_name: Some("DELL U3219Q".into()),
        source,
        also_set_system_output: also,
        volume,
    }
}

fn listed() -> DeviceList {
    let mut builtin = out("builtin", true, TransportKind::BuiltIn);
    builtin.name = "MacBook Pro Speakers".into();
    DeviceList { devices: vec![builtin], system_default: None }
}

#[test]
fn print_text_lines_reports_switch_and_volume() {
    let v = VolumeEnsureResult { target: 13, actual: Some(13), verified: true, attempts: 1 };
    let (out, err) = print_text_lines(&switched(Some(v), RoutingTargetSource::Preferred, true), &listed());
    assert_eq!(
        out,
        vec![
            "Switched default output to HDMI (DELL U3219Q) (preferred device)".to_string(),
            "  from: MacBook Pro Speakers".to_string(),
            "  to:   HDMI (DELL U3219Q)".to_string(),
            "  also set system (alert) output".to_string(),
            "  volume set to 13%".to_string(),
        ]
    );
    assert!(err.is_empty());
}

#[test]
fn print_text_lines_reports_volume_readback_and_warnings() {
    let v = VolumeEnsureResult { target: 13, actual: Some(12), verified: true, attempts: 3 };
    let (out, _) = print_text_lines(&switched(Some(v), RoutingTargetSource::Fallback { index: 2 }, false), &listed());
    assert_eq!(out[0], "Switched default output to HDMI (DELL U3219Q) (fallback #2)");
    assert_eq!(out[3], "  volume set to 13% (read back 12% after 3 attempts)");
    let v = VolumeEnsureResult { target: 40, actual: Some(20), verified: false, attempts: 5 };
    let (out, err) = print_text_lines(&switched(Some(v), RoutingTargetSource::Picker, false), &listed());
    assert_eq!(out.len(), 3);
    assert_eq!(err, vec!["  warning: volume target 40% but read back 20% after 5 attempts".to_string()]);
    let v = VolumeEnsureResult { target: 40, actual: None, verified: false, attempts: 5 };
    let (_, err) = print_text_lines(&switched(Some(v), RoutingTargetSource::BuiltInFallback, false), &listed());
    assert_eq!(err, vec!["  warning: could not verify volume 40% after 5 attempts".to_string()]);
}

#[test]
fn print_text_lines_reports_no_change() {
    let r = ApplyResult::NoChange {
        uid: "hdmi-1".into(),
        device_name: "HDMI".into(),
        monitor_name: None,
        reason: "default output already on target".into(),
    };
    let (out, err) = print_text_lines(&r, &listed());
    assert_eq!(out, vec!["No change: default output already on target".to_string(), "  device: HDMI".to_string()]);
    assert!(err.is_empty());
    assert_eq!(daemon_switch_line(&r, &listed()), None);
}

#[test]
fn daemon_switch_line_names_the_left_output() {
    let line = daemon_switch_line(&switched(None, RoutingTargetSource::Preferred, true), &listed());
    assert_eq!(line.as_deref(), Some("daemon: switched default output from MacBook Pro Speakers to HDMI (hdmi-1)"));
}

#[test]
fn orphaned_eqmac_cleanup_paths() {
    let path = "/Library/Audio/Plug-Ins/HAL/eqMac.driver";
    let none = cleanup_orphaned_eqmac_driver(None, true, || Ok(true), |_: &str| Ok(true)).unwrap();
    assert!(matches!(none, OrphanedEqMacDriverCleanupResult::NotFound));
    assert!(eqmac_cleanup_result_lines(&none).is_empty());
    let rec = cleanup_orphaned_eqmac_driver(Some(path.into()), false, || Ok(true), |_: &str| Ok(true)).unwrap();
    assert_eq!(
        eqmac_cleanup_result_lines(&rec),
        vec![
            "".to_string(),
            "Orphaned eqMac driver".to_string(),
            format!("  path:    {path}"),
            format!("  cleanup: sudo rm -rf {path}"),
        ]
    );
    let skipped = cleanup_orphaned_eqmac_driver(Some(path.into()), true, || Ok(false), |_: &str| Ok(true)).unwrap();
    assert!(matches!(skipped, OrphanedEqMacDriverCleanupResult::Skipped { ref reason, .. } if reason == "user declined orphaned eqMac driver removal"));
    let removed = cleanup_orphaned_eqmac_driver(Some(path.into()), true, || Ok(true), |p: &str| Ok(p == path)).unwrap();
    assert!(matches!(removed, OrphanedEqMacDriverCleanupResult::Removed { .. }));
    let failed = cleanup_orphaned_eqmac_driver(Some(path.into()), true, || Ok(true), |_: &str| Ok(false));
    assert_eq!(failed.unwrap_err().detail_message(), format!("failed to remove orphaned eqMac driver with `sudo rm -rf {path}`"));
}

#[test]
fn restore_audio_best_effort_outcomes() {
    assert!(matches!(restore_audio_best_effort(Ok(None), |_: &str| Ok(()), || {}).unwrap(), RestoreAudioResult::NotFound));
    let forgotten = Cell::new(false);
    let restored = restore_audio_best_effort(Ok(Some("builtin".into())), |u: &str| if u == "builtin" { Ok(()) } else { Err(RustyJackError::CoreAudio("x".into())) }, || forgotten.set(true)).unwrap();
    assert!(matches!(restored, RestoreAudioResult::Restored { ref uid } if uid == "builtin"));
    assert!(forgotten.get());
    assert_eq!(restore_audio_result_lines(&restored).0, vec!["Restored default output".to_string(), "  uid: builtin".to_string()]);
    let failed = restore_audio_best_effort(Ok(Some("gone".into())), |_: &str| Err(RustyJackError::CoreAudio("no device".into())), || {}).unwrap();
    let (out, err) = restore_audio_result_lines(&failed);
    assert!(out.is_empty());
    assert_eq!(err, vec![
        "Warning: failed to restore default output".to_string(),
        "  uid: gone".to_string(),
        "  error: coreaudio error: no device".to_string(),
    ]);
    assert!(restore_audio_best_effort(Err(RustyJackError::Io("state unreadable".into())), |_: &str| Ok(()), || {}).is_err());
}

use rusty_jack::display::{monitor_lookup_is_defined, profiler_vendor_is_sliceable};

#[test]
fn monitor_lookup_guard_rejects_split_multibyte_vendor() {
    assert!(profiler_vendor_is_sliceable("AC10"));
    assert!(profiler_vendor_is_sliceable("abc"));
    assert!(profiler_vendor_is_sliceable("é10"));
    assert!(!profiler_vendor_is_sliceable("aé1"));
    assert!(monitor_lookup_is_defined("AppleHDAEngineOutputDP:0,1,0,1,0:0:{AC10-A120-30594A4C}"));
    assert!(monitor_lookup_is_defined("BuiltInSpeakerDevice"));
    assert!(!monitor_lookup_is_defined("AppleHDAEngineOutputDP:0,1,0,1,0:0:{aé1-A120-30594A4C}"));
}

#[test]
fn eqmac_recheck_restarts_at_most_once_per_cooldown() {
    let restart = || Ok(EqMacEnsureResult { action: EqMacEnsureAction::Restarted });
    let recheck = |healthy: bool, record: Option<&str>, now: u64| {
        action(rusty_jack::eqmac::eqmac_recheck_with_cooldown(healthy, record, now, 300, restart))
    };
    assert_eq!(recheck(false, None, 1_000), EqMacEnsureAction::Restarted);
    assert_eq!(recheck(false, Some("900\n"), 1_000), EqMacEnsureAction::AlreadyRunning);
    assert_eq!(recheck(false, Some("600"), 1_000), EqMacEnsureAction::Restarted);
    assert_eq!(recheck(false, Some("garbage"), 1_000), EqMacEnsureAction::Restarted);
    assert_eq!(recheck(true, None, 1_000), EqMacEnsureAction::AlreadyRunning);
}
