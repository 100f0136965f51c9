use rusty_jack::eqmac::{
    eqmac_app_path, eqmac_driver_backup_info_from_bundle, eqmac_driver_backup_metadata_path,
    eqmac_driver_backup_path, eqmac_driver_backup_record, eqmac_install_state, eqmac_is_running,
    ensure_eqmac_for_target, restart_eqmac_for_target, EqMacInstallState,
};
use rusty_jack::hal::{
    default_output_is_virtual_router, parse_system_volume_output, read_effective_output_volume,
    system_volume_script,
};
use rusty_jack::process_detect::ProcessInfo;
use rusty_jack::hal::volume_within_tolerance;
use rusty_jack::eqmac::{
    classify_eqmac_launch, eqmac_driver_backup_dir_for_config_path, eqmac_ensure_step,
    eqmac_launch_outcome, eqmac_restart_cooldown_elapsed, eqmac_should_restart,
    eqmac_volume_control_is_healthy, format_ensure_messages, orphaned_eqmac_hal_driver_path,
    routing_needs_eqmac, EqMacEnsureAction, EqMacEnsureResult, EqMacEnsureStep, EqMacLaunchAction,
};
use rusty_jack::network::{host_ready_for_scalar_webapi_wake, parse_route_value};
use rusty_jack::output_device::OutputDevice;
use rusty_jack::transport::TransportKind;
use rusty_jack::version::{normalize_commit_hash, BinaryVersion};
use rusty_jack::RustyJackError;

fn device(uid: &str, transport: TransportKind) -> OutputDevice {
    OutputDevice {
        id: 1,
        uid: uid.into(),
        name: "Out".into(),
        transport,
        is_alive: true,
        is_default: false,
        is_active: false,
        monitor_name: None,
    }
}

#[test]
fn test_config_error_display() {
    let err = RustyJackError::Config("missing preferred_device_uid".into());
    assert!(err.message().contains("configuration error"));
    assert!(err.message().contains("preferred_device_uid"));
}

#[test]
fn test_detail_message_strips_speaker_prefix() {
    let err = RustyJackError::Speaker("url=http://192.168.1.1:54480/sony/system: connect failed".into());
    assert_eq!(err.detail_message(), "url=http://192.168.1.1:54480/sony/system: connect failed");
    assert!(!err.detail_message().contains("speaker wake error"));
    assert!(err.message().starts_with("speaker wake error"));
}

#[test]
fn test_coreaudio_error_is_send() {
    fn assert_send<T: Send>() {}
    assert_send::<RustyJackError>();
}

#[test]
fn test_parse_route_value() {
    let output = "\n   route to: default\ndestination: default\n       mask: default\n    gateway: 192.168.86.1\n  interface: en0\n";
    assert_eq!(parse_route_value(output, "interface").as_deref(), Some("en0"));
    assert_eq!(parse_route_value(output, "gateway").as_deref(), Some("192.168.86.1"));
    assert_eq!(parse_route_value(output, "missing"), None);
}

#[test]
fn test_host_ready_for_scalar_webapi_wake_requires_host() {
    assert!(!host_ready_for_scalar_webapi_wake(None, || true, |_| Ok(true)).unwrap());
    assert!(!host_ready_for_scalar_webapi_wake(Some(""), || true, |_| Ok(true)).unwrap());
    assert!(host_ready_for_scalar_webapi_wake(Some(" speaker.local "), || true, |h: &str| Ok(h == "speaker.local")).unwrap());
    assert!(!host_ready_for_scalar_webapi_wake(Some("speaker.local"), || false, |_| Ok(true)).unwrap());
}

#[test]
fn test_routing_needs_eqmac_for_hdmi() {
    let devices = vec![device("hdmi", TransportKind::Hdmi)];
    assert!(routing_needs_eqmac(&devices, "hdmi"));
}

#[test]
fn test_routing_needs_eqmac_not_for_builtin() {
    let devices = vec![device("builtin", TransportKind::BuiltIn)];
    assert!(!routing_needs_eqmac(&devices, "builtin"));
    assert!(!routing_needs_eqmac(&devices, "missing"));
}

#[test]
fn test_format_ensure_launched_message() {
    let lines = format_ensure_messages(EqMacEnsureResult { action: EqMacEnsureAction::Launched });
    assert_eq!(lines.len(), 1);
    assert!(lines[0].contains("Started eqMac"));
}

#[test]
fn test_format_ensure_restarted_message() {
    let lines = format_ensure_messages(EqMacEnsureResult { action: EqMacEnsureAction::Restarted });
    assert_eq!(lines.len(), 1);
    assert!(lines[0].contains("Restarted eqMac"));
    assert!(lines[0].contains("virtual default was missing"));
}

#[test]
fn test_format_ensure_not_installed_stays_quiet() {
    let lines = format_ensure_messages(EqMacEnsureResult { action: EqMacEnsureAction::NotInstalled });
    assert!(lines.is_empty());
}

#[test]
fn test_missing_eqmac_app_is_not_fatal() {
    let result = classify_eqmac_launch(false, "Unable to find application named 'eqMac'\n").unwrap();
    assert_eq!(result, EqMacLaunchAction::NotInstalled);
}

#[test]
fn test_eqmac_driver_backup_dir_uses_config_parent() {
    let backup_dir = eqmac_driver_backup_dir_for_config_path("/Users/example/.config/rusty-jack/config.json");
    assert_eq!(backup_dir, "/Users/example/.config/rusty-jack/driver-backups");
}

#[test]
fn test_eqmac_volume_control_healthy_requires_running_and_virtual_default() {
    assert!(eqmac_volume_control_is_healthy(true, true));
    assert!(!eqmac_volume_control_is_healthy(true, false));
    assert!(!eqmac_volume_control_is_healthy(false, true));
    assert!(!eqmac_volume_control_is_healthy(false, false));
}

#[test]
fn test_eqmac_restart_cooldown_reads_persisted_timestamp() {
    let now: u64 = 1_700_000_000;
    let record = format!("{now}\n");
    assert!(!eqmac_restart_cooldown_elapsed(Some(&record), now, 60));
    let old = now.saturating_sub(60 + 5);
    let record = format!("{old}\n");
    assert!(eqmac_restart_cooldown_elapsed(Some(&record), now, 60));
    assert!(eqmac_restart_cooldown_elapsed(None, now, 60));
    assert!(eqmac_restart_cooldown_elapsed(Some("garbage"), now, 60));
}

#[test]
fn test_other_eqmac_launch_failure_stays_fatal() {
    let err = classify_eqmac_launch(false, "permission denied").unwrap_err();
    assert!(matches!(err, RustyJackError::AppLaunch(_)));
    assert_eq!(err.detail_message(), "failed to launch eqMac: permission denied");
}

#[test]
fn eqmac_steps_follow_install_and_health() {
    assert_eq!(eqmac_ensure_step(false, false, false), EqMacEnsureStep::Done(EqMacEnsureAction::NotInstalled));
    assert_eq!(eqmac_ensure_step(true, true, true), EqMacEnsureStep::Done(EqMacEnsureAction::AlreadyRunning));
    assert_eq!(eqmac_ensure_step(true, true, false), EqMacEnsureStep::RecheckUnderLock);
    assert_eq!(eqmac_ensure_step(true, false, false), EqMacEnsureStep::Launch);
    assert!(eqmac_should_restart(false, true));
    assert!(!eqmac_should_restart(true, true));
    assert!(!eqmac_should_restart(false, false));
    assert_eq!(eqmac_launch_outcome(EqMacLaunchAction::Launched, true), EqMacEnsureAction::Restarted);
    assert_eq!(eqmac_launch_outcome(EqMacLaunchAction::Launched, false), EqMacEnsureAction::Launched);
    assert_eq!(eqmac_launch_outcome(EqMacLaunchAction::NotInstalled, true), EqMacEnsureAction::NotInstalled);
}

#[test]
fn orphaned_driver_only_without_app() {
    assert_eq!(orphaned_eqmac_hal_driver_path(false, true), Some("/Library/Audio/Plug-Ins/HAL/eqMac.driver"));
    assert_eq!(orphaned_eqmac_hal_driver_path(true, true), None);
    assert_eq!(orphaned_eqmac_hal_driver_path(false, false), None);
}

#[test]
fn test_normalize_commit_hash_short() {
    assert_eq!(normalize_commit_hash("abc1234").as_deref(), Some("abc1234"));
}

#[test]
fn test_normalize_commit_hash_long() {
    assert_eq!(
        normalize_commit_hash("abcdef0123456789abcdef0123456789abcdef01").as_deref(),
        Some("abcdef012345")
    );
}

#[test]
fn test_normalize_commit_hash_empty() {
    assert_eq!(normalize_commit_hash(""), None);
}

#[test]
fn binary_version_display_and_matches() {
    let v = BinaryVersion { version: "0.4.1".into(), commit: "abc1234".into() };
    assert_eq!(v.display(), "0.4.1 (commit abc1234)");
    assert!(v.matches(&v.clone()));
}

#[test]
fn test_volume_within_tolerance() {
    assert!(volume_within_tolerance(13, 13, 0));
    assert!(volume_within_tolerance(12, 13, 1));
    assert!(volume_within_tolerance(14, 13, 1));
    assert!(!volume_within_tolerance(10, 13, 1));
}

#[test]
fn eqmac_paths_and_state() {
    assert_eq!(eqmac_install_state(true), EqMacInstallState::Installed);
    assert_eq!(eqmac_install_state(false), EqMacInstallState::NotInstalled);
    assert_eq!(eqmac_app_path(true).as_deref(), Some("/Applications/eqMac.app"));
    assert_eq!(eqmac_app_path(false), None);
    let config = "/Users/a/.config/rusty-jack/config.json";
    assert_eq!(
        eqmac_driver_backup_path(Some(config)).as_deref(),
        Some("/Users/a/.config/rusty-jack/driver-backups/eqMac.driver")
    );
    assert_eq!(
        eqmac_driver_backup_metadata_path(Some(config)).as_deref(),
        Some("/Users/a/.config/rusty-jack/driver-backups/eqMac.driver.json")
    );
    assert_eq!(eqmac_driver_backup_path(None), None);
    let info = eqmac_driver_backup_info_from_bundle(Some("/b/eqMac.driver"), true, Some("1.2".into())).unwrap();
    assert_eq!(info.original_path, "/Library/Audio/Plug-Ins/HAL/eqMac.driver");
    assert_eq!(info.backup_path, "/b/eqMac.driver");
    assert!(eqmac_driver_backup_info_from_bundle(Some("/b/eqMac.driver"), false, None).is_none());
    let record = eqmac_driver_backup_record("/b/eqMac.driver", None, Some(1_700_000_000));
    assert_eq!(record.backed_up_at_unix, Some(1_700_000_000));
    let procs = vec![ProcessInfo { pid: 7, name: Some("EQMAC".into()), cmd: vec![], exe: None }];
    assert!(eqmac_is_running(&procs));
    assert!(!eqmac_is_running(&[]));
}

#[test]
fn eqmac_ensure_and_restart_for_target() {
    let hdmi = OutputDevice {
        id: 1,
        uid: "hdmi".into(),
        name: "HDMI".into(),
        transport: TransportKind::Hdmi,
        is_alive: true,
        is_default: false,
        is_active: false,
        monitor_name: None,
    };
    let devices = vec![hdmi];
    let r = ensure_eqmac_for_target(&devices, "builtin", || panic!("not needed")).unwrap();
    assert_eq!(r.action, EqMacEnsureAction::NotNeeded);
    let r = ensure_eqmac_for_target(&devices, "hdmi", || Ok(EqMacEnsureResult { action: EqMacEnsureAction::Launched })).unwrap();
    assert_eq!(r.action, EqMacEnsureAction::Launched);
    let r = restart_eqmac_for_target(&devices, "hdmi", false, || panic!("not installed")).unwrap();
    assert_eq!(r.action, EqMacEnsureAction::NotInstalled);
    let r = restart_eqmac_for_target(&devices, "hdmi", true, || Ok(EqMacEnsureResult { action: EqMacEnsureAction::Restarted })).unwrap();
    assert_eq!(r.action, EqMacEnsureAction::Restarted);
}

#[test]
fn volume_helpers() {
    assert!(default_output_is_virtual_router(Some("EQMOutputCapture")));
    assert!(default_output_is_virtual_router(Some("com.bitgapp.eqMacDriver")));
    assert!(!default_output_is_virtual_router(Some("BuiltInSpeakerDevice")));
    assert!(!default_output_is_virtual_router(None));
    assert_eq!(read_effective_output_volume(true, || panic!("device not read"), || Some(40)), Some(40));
    assert_eq!(read_effective_output_volume(false, || Ok(Some(20)), || panic!("system not read")), Some(20));
    assert_eq!(read_effective_output_volume(false, || Ok(None), || Some(40)), Some(40));
    assert_eq!(system_volume_script(120), "set volume output volume 100");
    assert_eq!(parse_system_volume_output(true, " 37\n"), Some(37));
    assert_eq!(parse_system_volume_output(true, "300"), None);
    assert_eq!(parse_system_volume_output(false, "37"), None);
}
