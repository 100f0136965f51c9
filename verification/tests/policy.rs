use rusty_jack::config::{is_placeholder_uid, validate_config, Config, DeviceSelectorConfig, ScalarWebApiDeviceConfig};
use rusty_jack::config::{default_scalar_webapi_device_path, default_scalar_webapi_device_triggers};
use rusty_jack::output_device::OutputDevice;
use rusty_jack::policy::{evaluate_policy, select_fallback_target, select_routing_target, RoutingTargetSource, SelectTargetError};
use rusty_jack::system_default::DeviceList;
use rusty_jack::transport::TransportKind;
use rusty_jack::RustyJackError;

fn hdmi(uid: &str, monitor: &str, active: bool) -> OutputDevice {
    OutputDevice {
        id: 1,
        uid: uid.into(),
        name: "HDMI".into(),
        transport: TransportKind::Hdmi,
        is_alive: true,
        is_default: false,
        is_active: active,
        monitor_name: Some(monitor.into()),
    }
}

fn config_with_uid(uid: &str) -> Config {
    let mut config = Config::default();
    config.switch_delay_ms = 500;
    config.preferred_device = DeviceSelectorConfig { name: None, uid: Some(uid.into()) };
    config
}

fn config_with_fallback(preferred_uid: &str, fallback_uid: &str) -> Config {
    let mut config = config_with_uid(preferred_uid);
    config.fallback_uids = vec![fallback_uid.into()];
    config
}

#[test]
fn test_no_config_not_configured() {
    let list = DeviceList { devices: vec![hdmi("hdmi-1", "TV", true)], system_default: None };
    let policy = evaluate_policy(&list, None, None, None);
    assert!(!policy.configured);
    assert_eq!(policy.message, "no config at ~/.config/rusty-jack/config.json");
    assert_eq!(policy.active_device_uid.as_deref(), Some("hdmi-1"));
}

#[test]
fn test_matches_preferred_by_monitor_name() {
    let list = DeviceList { devices: vec![hdmi("hdmi-1", "DELL U3219Q", true)], system_default: None };
    let policy = evaluate_policy(&list, Some(&config_with_uid("hdmi-1")), None, None);
    assert_eq!(policy.matches_preferred, Some(true));
    assert_eq!(policy.preferred_device_uid.as_deref(), Some("hdmi-1"));
    assert_eq!(policy.message, "active output matches preferred device");
}

#[test]
fn test_does_not_match_preferred() {
    let list = DeviceList {
        devices: vec![hdmi("hdmi-1", "DELL U3219Q", true), hdmi("hdmi-2", "DELL U3223QE", false)],
        system_default: None,
    };
    let policy = evaluate_policy(&list, Some(&config_with_uid("hdmi-2")), None, None);
    assert_eq!(policy.matches_preferred, Some(false));
    assert_eq!(policy.message, "active output is `hdmi-1`; preferred is `hdmi-2`");
}

#[test]
fn test_monitor_not_found() {
    let list = DeviceList { devices: vec![hdmi("hdmi-1", "LG TV", true)], system_default: None };
    let policy = evaluate_policy(&list, Some(&config_with_uid("missing-uid")), None, None);
    assert!(policy.message.contains("no connected output"));
}

#[test]
fn test_select_routing_target_by_monitor() {
    let devices = vec![hdmi("hdmi-1", "DELL U3219Q", true)];
    let target = select_routing_target(&config_with_uid("hdmi-1"), &devices).unwrap();
    assert_eq!(target.uid, "hdmi-1");
    assert!(matches!(target.source, RoutingTargetSource::Preferred));
}

#[test]
fn test_select_routing_target_uses_fallback() {
    let devices = vec![hdmi("dp-1", "DELL U3223QE", true)];
    let target = select_routing_target(&config_with_fallback("hdmi-1", "dp-1"), &devices).unwrap();
    assert_eq!(target.uid, "dp-1");
    assert!(matches!(target.source, RoutingTargetSource::Fallback { index: 0 }));
}

#[test]
fn test_select_routing_target_uses_builtin_when_no_fallback_configured() {
    let mut builtin = hdmi("BuiltInSpeakerDevice", "Built-in", false);
    builtin.name = "Mac mini Speakers".into();
    builtin.monitor_name = None;
    builtin.transport = TransportKind::BuiltIn;
    let devices = vec![builtin];
    let target = select_routing_target(&config_with_uid("hdmi-1"), &devices).unwrap();
    assert_eq!(target.uid, "BuiltInSpeakerDevice");
    assert!(matches!(target.source, RoutingTargetSource::BuiltInFallback));
}

#[test]
fn select_routing_target_errors_without_candidates() {
    let devices = vec![hdmi("dp-1", "TV", false)];
    let err = select_routing_target(&config_with_uid("hdmi-1"), &devices).unwrap_err();
    assert!(matches!(err, SelectTargetError::NoCandidateAvailable));
    assert_eq!(err.message(), "no preferred or fallback output device is connected");
    let err = select_routing_target(&Config::default(), &devices).unwrap_err();
    assert!(matches!(err, SelectTargetError::Resolve(_)));
}

#[test]
fn fallback_skips_placeholders_and_dead_devices() {
    let mut dead = hdmi("dp-1", "TV", false);
    dead.is_alive = false;
    let devices = vec![dead, hdmi("dp-2", "TV", false)];
    let mut config = config_with_uid("hdmi-1");
    config.fallback_uids = vec!["PASTE-UID-HERE".into(), "dp-1".into(), "dp-2".into()];
    let target = select_fallback_target(&config, &devices).unwrap();
    assert_eq!(target.uid, "dp-2");
    assert!(matches!(target.source, RoutingTargetSource::Fallback { index: 2 }));
}

#[test]
fn test_is_placeholder_uid() {
    assert!(is_placeholder_uid("PASTE-UID-FROM-rusty-jack-list"));
    assert!(is_placeholder_uid(""));
    assert!(!is_placeholder_uid("AppleHDAEngineOutput:1B,0,1,1:0"));
}

#[test]
fn test_scalar_webapi_device_endpoint_url_from_hostname() {
    let protocol_path = default_scalar_webapi_device_path();
    let api = ScalarWebApiDeviceConfig {
        enabled: true,
        model: "ScalarWebAPI device".into(),
        host: Some("scalarwebapi-device.local".into()),
        port: 10_000,
        path: protocol_path.clone(),
        mac_output: DeviceSelectorConfig::default(),
        triggers: default_scalar_webapi_device_triggers(),
        wake_debounce_ms: 30_000,
        request_timeout_ms: 3_000,
        require_quick_start: true,
    };
    let expected_url = format!("http://scalarwebapi-device.local:10000/{protocol_path}");
    assert_eq!(api.endpoint_url().as_deref(), Some(expected_url.as_str()));
}

#[test]
fn endpoint_url_trims_slashes_and_requires_host() {
    let mut api = ScalarWebApiDeviceConfig {
        enabled: true,
        model: "m".into(),
        host: Some("  10.0.0.2 ".into()),
        port: 80,
        path: "//x/y".into(),
        mac_output: DeviceSelectorConfig::default(),
        triggers: vec![],
        wake_debounce_ms: 0,
        request_timeout_ms: 0,
        require_quick_start: false,
    };
    assert_eq!(api.endpoint_url().as_deref(), Some("http://10.0.0.2:80/x/y"));
    api.path = "".into();
    assert_eq!(api.endpoint_url().as_deref(), Some("http://10.0.0.2:80"));
    api.host = Some("   ".into());
    assert_eq!(api.endpoint_url(), None);
}

#[test]
fn validate_config_reports_each_problem() {
    let mut config = config_with_uid("hdmi-1");
    assert!(validate_config(&config).is_ok());
    config.volume = Some(101);
    match validate_config(&config) {
        Err(RustyJackError::Config(m)) => assert_eq!(m, "volume must be between 0 and 100"),
        other => panic!("unexpected {other:?}"),
    }
    config.volume = Some(100);
    config.poll_interval_ms = 0;
    assert!(validate_config(&config).is_err());
}

#[test]
fn default_config_values() {
    let config = Config::default();
    assert_eq!(config.version, 1);
    assert!(config.auto_switch);
    assert_eq!(config.poll_interval_ms, 3_000);
    assert_eq!(config.activity_monitor, "idle");
    assert!(config.fallback_uids.is_empty());
}
