use rusty_jack::config::{Config, DeviceSelectorConfig, ScalarWebApiDeviceConfig};
use rusty_jack::privacy_permissions::{
    accessibility_prompt_needed, check_privacy_permissions, ensure_privacy_permissions,
    ensure_privacy_permissions_for_setup, local_network_prompt_needed,
    local_network_status_from_discovery, note_accessibility_prompted, privacy_status_lines,
    record_local_network_reprobe, SetupConfig,
};

fn scalar_enabled_config() -> Config {
    let mut config = Config::default();
    config.scalar_webapi_device = Some(ScalarWebApiDeviceConfig {
        enabled: true,
        model: "SRS-ZR5".into(),
        host: Some("192.168.86.18".into()),
        port: 54_480,
        path: "sony/av".into(),
        mac_output: DeviceSelectorConfig { name: None, uid: Some("uid".into()) },
        triggers: vec!["output_selected".into()],
        wake_debounce_ms: 5_000,
        request_timeout_ms: 3_000,
        require_quick_start: true,
    });
    config
}

fn event_tap_config() -> Config {
    let mut config = Config::default();
    config.activity_monitor = "event_tap".into();
    config
}

/// The Accessibility trust query as it answers for an untrusted process.
fn untrusted() -> bool {
    false
}

fn no_probe() -> Option<bool> {
    None
}

#[test]
fn test_check_privacy_permissions_idle_without_scalar_skips() {
    let status = check_privacy_permissions(&Config::default(), untrusted, no_probe);
    assert!(!status.accessibility_required);
    assert!(!status.local_network_required);
    assert!(!status.force_daemon_restart);
    assert!(status.accessibility_trusted.is_none());
    assert!(status.local_network_ok.is_none());
}

#[test]
fn test_check_privacy_permissions_requires_accessibility_for_event_tap() {
    let status = check_privacy_permissions(&event_tap_config(), untrusted, no_probe);
    assert!(status.accessibility_required);
    assert!(status.accessibility_trusted.is_some());
    assert!(!status.local_network_required);
}

#[test]
fn test_check_privacy_permissions_local_network_ok_when_probe_hears_device() {
    let status = check_privacy_permissions(&scalar_enabled_config(), untrusted, || Some(true));
    assert!(status.local_network_required);
    assert_eq!(status.local_network_ok, Some(true));
    assert!(status.notes.iter().any(|note| note.contains("found at least one device")));
}

#[test]
fn test_check_privacy_permissions_local_network_inconclusive_when_probe_empty() {
    let status = check_privacy_permissions(&scalar_enabled_config(), untrusted, || None);
    assert!(status.local_network_required);
    assert!(status.local_network_ok.is_none());
    assert!(status
        .notes
        .iter()
        .any(|note| note.contains("inconclusive") || note.contains("not treating as denied")));
}

#[test]
fn test_ensure_privacy_permissions_forces_restart_for_event_tap() {
    let status = ensure_privacy_permissions(&event_tap_config(), false, untrusted, no_probe);
    assert!(status.force_daemon_restart);
    assert!(status
        .notes
        .iter()
        .any(|note| note.contains("upgrade --force") || note.contains("Accessibility")));
}

#[test]
fn test_ensure_privacy_permissions_forces_restart_for_scalar_webapi() {
    let status = ensure_privacy_permissions(&scalar_enabled_config(), false, untrusted, || None);
    assert!(status.local_network_required);
    assert!(status.force_daemon_restart);
}

#[test]
fn test_local_network_status_from_discovery_maps_ssdp_outcomes() {
    assert_eq!(local_network_status_from_discovery(Ok(1)), Some(true));
    assert_eq!(local_network_status_from_discovery(Ok(3)), Some(true));
    assert_eq!(local_network_status_from_discovery(Ok(0)), None);
    assert_eq!(local_network_status_from_discovery(Err(())), None);
}

#[test]
fn ensure_privacy_permissions_for_setup_skips_without_usable_config() {
    let status = ensure_privacy_permissions_for_setup(
        &SetupConfig::Failed("missing field `preferred_device`".into()),
        false,
        untrusted,
        no_probe,
    );
    assert!(!status.force_daemon_restart);
    assert_eq!(
        status.notes,
        vec!["skipped privacy checks (config load failed: missing field `preferred_device`)"]
    );
    let status = ensure_privacy_permissions_for_setup(&SetupConfig::Missing, false, untrusted, no_probe);
    assert_eq!(status.notes, vec!["no config loaded; skipped privacy permission checks"]);
    let status = ensure_privacy_permissions_for_setup(
        &SetupConfig::Loaded(event_tap_config()),
        false,
        untrusted,
        no_probe,
    );
    assert!(status.force_daemon_restart);
}

#[test]
fn noninteractive_notes_and_summary_lines() {
    let status = ensure_privacy_permissions(&event_tap_config(), false, untrusted, no_probe);
    assert_eq!(
        status.notes,
        vec![
            "Accessibility permission missing (required for activity_monitor=event_tap)",
            "grant Accessibility to rusty-jack, then run: rusty-jack upgrade --force",
        ]
    );
    assert!(accessibility_prompt_needed(&status));
    assert!(!local_network_prompt_needed(&status));
    assert_eq!(
        privacy_status_lines(&status),
        vec![
            "",
            "Privacy permissions",
            "  Accessibility: missing",
            "  note: Accessibility permission missing (required for activity_monitor=event_tap)",
            "  note: grant Accessibility to rusty-jack, then run: rusty-jack upgrade --force",
            "  daemon: force-restarted so permission changes apply",
        ]
    );
    let idle = check_privacy_permissions(&Config::default(), untrusted, no_probe);
    assert!(privacy_status_lines(&idle).is_empty());
}

#[test]
fn interactive_ensure_leaves_prompts_to_caller() {
    let mut status = ensure_privacy_permissions(&scalar_enabled_config(), true, || true, || None);
    assert!(status.force_daemon_restart);
    assert_eq!(status.notes.len(), 1);
    assert!(local_network_prompt_needed(&status));
    record_local_network_reprobe(&mut status, Some(true));
    assert_eq!(status.local_network_ok, Some(true));
    assert_eq!(status.notes.last().unwrap(), "Local Network SSDP probe succeeded after grant");
    note_accessibility_prompted(&mut status);
    assert!(status.notes.last().unwrap().contains("after daemon restart"));
}
