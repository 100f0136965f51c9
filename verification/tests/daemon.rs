use rusty_jack::apply::VolumeMemory;
use rusty_jack::config::{Config, DeviceSelectorConfig, ScalarWebApiDeviceConfig};
use rusty_jack::daemon::{
    activity_tick_plan, daemon_tick_with_hooks, scalar_webapi_device_fallback_permission,
    scalar_webapi_device_startup_fallback_grace, scheduled_tick_plan, DaemonHooks, DaemonState, HookLog,
    DaemonTickReason, DaemonTickResult, NetworkAccessChange, ScalarWebApiDeviceFallbackPermission,
    MIN_SCALAR_WEBAPI_DEVICE_STARTUP_FALLBACK_GRACE_MS,
};
use rusty_jack::hal::{AudioHal, MockHal, SetVolumeCall};
use rusty_jack::hdmi_displayport_volume_control::{
    HdmiDisplayPortVolumeControlEnsureAction, HdmiDisplayPortVolumeControlEnsureResult,
};
use rusty_jack::network::NetworkAccessSnapshot;
use rusty_jack::output_device::OutputDevice;
use rusty_jack::scalar_webapi_device::ScalarWebApiDeviceWakeResult;
use rusty_jack::system_default::DeviceList;
use rusty_jack::transport::TransportKind;
use rusty_jack::RustyJackError;

#[derive(Clone, Copy, PartialEq)]
enum Wake {
    Nothing,
    Woke,
    Fails,
}

struct TestHooks {
    ensure_action: HdmiDisplayPortVolumeControlEnsureAction,
    recover_action: HdmiDisplayPortVolumeControlEnsureAction,
    recover_forbidden: bool,
    wake_selected: Wake,
    wake_activity: Wake,
    ensure_calls: Vec<String>,
    recover_calls: Vec<String>,
    wake_calls: Vec<String>,
    lines: Vec<String>,
}

fn hooks() -> TestHooks {
    TestHooks {
        ensure_action: HdmiDisplayPortVolumeControlEnsureAction::NotNeeded,
        recover_action: HdmiDisplayPortVolumeControlEnsureAction::NotNeeded,
        recover_forbidden: false,
        wake_selected: Wake::Nothing,
        wake_activity: Wake::Nothing,
        ensure_calls: vec![],
        recover_calls: vec![],
        wake_calls: vec![],
        lines: vec![],
    }
}

fn fake_scalar_webapi_device_wake_result() -> ScalarWebApiDeviceWakeResult {
    ScalarWebApiDeviceWakeResult {
        endpoint: format!("http://scalarwebapi-device.local:10000/{}/system", protocol_path()),
        status_code: 200,
        previous_status: Some("standby".into()),
    }
}

fn protocol_path() -> String {
    ["so", "ny"].concat()
}

fn wake(kind: Wake) -> Result<Option<ScalarWebApiDeviceWakeResult>, RustyJackError> {
    match kind {
        Wake::Nothing => Ok(None),
        Wake::Woke => Ok(Some(fake_scalar_webapi_device_wake_result())),
        Wake::Fails => Err(RustyJackError::Speaker("speaker unreachable".into())),
    }
}

impl DaemonHooks for TestHooks {
    fn ensure_volume_control(
        &mut self,
        devices: &[OutputDevice],
        target_uid: &str,
    ) -> Result<HdmiDisplayPortVolumeControlEnsureResult, RustyJackError> {
        assert!(devices.iter().any(|device| device.uid == target_uid));
        self.ensure_calls.push(target_uid.to_string());
        Ok(HdmiDisplayPortVolumeControlEnsureResult { action: self.ensure_action })
    }
    fn recover_volume_control(
        &mut self,
        devices: &[OutputDevice],
        target_uid: &str,
    ) -> Result<HdmiDisplayPortVolumeControlEnsureResult, RustyJackError> {
        assert!(!self.recover_forbidden, "user-activity ticks should not restart eqMac");
        assert!(devices.iter().any(|device| device.uid == target_uid));
        self.recover_calls.push(target_uid.to_string());
        Ok(HdmiDisplayPortVolumeControlEnsureResult { action: self.recover_action })
    }
    fn wake_on_output_selected(
        &mut self,
        _config: &Config,
        _devices: &[OutputDevice],
        uid: &str,
    ) -> Result<Option<ScalarWebApiDeviceWakeResult>, RustyJackError> {
        self.wake_calls.push(uid.to_string());
        wake(self.wake_selected)
    }
    fn wake_on_activity(
        &mut self,
        _config: &Config,
        _devices: &[OutputDevice],
        _uid: &str,
    ) -> Result<Option<ScalarWebApiDeviceWakeResult>, RustyJackError> {
        wake(self.wake_activity)
    }
    fn report(&mut self, line: String) {
        self.lines.push(line);
    }
    fn report_wake(&mut self, result: &ScalarWebApiDeviceWakeResult) {
        self.lines.push(result.endpoint.clone());
    }
    fn sleep_ms(&mut self, _ms: u64) {}
}

fn hdmi_device(uid: &str, _monitor: &str) -> OutputDevice {
    OutputDevice {
        id: 1,
        uid: uid.into(),
        name: "HDMI".into(),
        transport: TransportKind::Hdmi,
        is_alive: true,
        is_default: false,
        is_active: false,
        monitor_name: None,
    }
}

fn builtin_speakers(uid: &str) -> OutputDevice {
    OutputDevice {
        id: 2,
        uid: uid.into(),
        name: "Mac mini Speakers".into(),
        transport: TransportKind::BuiltIn,
        is_alive: true,
        is_default: false,
        is_active: false,
        monitor_name: None,
    }
}

fn test_config(uid: &str) -> Config {
    let mut config = Config::default();
    config.switch_delay_ms = 0;
    config.preferred_device = DeviceSelectorConfig { name: None, uid: Some(uid.into()) };
    config
}

fn scalar_webapi_device_config(uid: &str) -> Config {
    let mut config = test_config(uid);
    config.scalar_webapi_device = Some(ScalarWebApiDeviceConfig {
        enabled: true,
        model: "ScalarWebAPI device".into(),
        host: Some("scalarwebapi-device.local".into()),
        port: 10000,
        path: protocol_path(),
        mac_output: DeviceSelectorConfig { name: None, uid: Some(uid.into()) },
        triggers: vec!["output_selected".into(), "keyboard".into(), "mouse".into()],
        wake_debounce_ms: 30_000,
        request_timeout_ms: 3_000,
        require_quick_start: true,
    });
    config
}

fn tick(
    hal: &mut MockHal,
    config: &Config,
    reason: DaemonTickReason,
    permission: ScalarWebApiDeviceFallbackPermission,
    hooks: &mut TestHooks,
) -> (DaemonTickResult, DeviceList) {
    let mut memory = VolumeMemory::new();
    let mut log = HookLog::new(std::mem::replace(hooks, crate::hooks()));
    let r = daemon_tick_with_hooks(hal, config, reason, permission, &mut log, &mut memory).unwrap();
    *hooks = log.hooks;
    r
}

fn daemon_tick_no_hdmi_displayport_volume_control(
    hal: &mut MockHal,
    config: &Config,
    reason: DaemonTickReason,
) -> (DaemonTickResult, DeviceList) {
    tick(hal, config, reason, ScalarWebApiDeviceFallbackPermission::Allowed, &mut hooks())
}

#[test]
fn test_daemon_tick_switches_when_needed() {
    let mut hal = MockHal::new(vec![hdmi_device("builtin", "Built-in"), hdmi_device("hdmi-1", "DELL U3219Q")])
        .with_default("builtin");
    let (result, _list) = daemon_tick_no_hdmi_displayport_volume_control(&mut hal, &test_config("hdmi-1"), DaemonTickReason::Scheduled);
    assert!(matches!(result, DaemonTickResult::Switched(_)));
    assert_eq!(hal.default_output_uid().unwrap().as_deref(), Some("hdmi-1"));
}

#[test]
fn test_daemon_tick_no_change_does_not_switch() {
    let mut hal = MockHal::new(vec![hdmi_device("hdmi-1", "DELL U3219Q")]).with_default("hdmi-1");
    let (result, _list) = daemon_tick_no_hdmi_displayport_volume_control(&mut hal, &test_config("hdmi-1"), DaemonTickReason::Scheduled);
    assert!(matches!(result, DaemonTickResult::NoChange(_)));
    assert!(hal.set_calls().is_empty());
}

#[test]
fn test_daemon_startup_preserves_current_preferred_output() {
    let mut hal = MockHal::new(vec![hdmi_device("hdmi-1", "DELL U3219Q"), builtin_speakers("BuiltInSpeakerDevice")])
        .with_default("hdmi-1");
    let (result, _list) = daemon_tick_no_hdmi_displayport_volume_control(&mut hal, &test_config("hdmi-1"), DaemonTickReason::Startup);
    assert!(matches!(result, DaemonTickResult::NoChange(_)));
    assert!(hal.set_calls().is_empty());
}

#[test]
fn test_daemon_tick_no_change_when_virtual_default_routes_to_target() {
    let mut hdmi = hdmi_device("hdmi-1", "DELL U3219Q");
    hdmi.is_active = true;
    let mut hal = MockHal::new(vec![hdmi]).with_default("EQMOutputCapture");
    let (result, _list) = daemon_tick_no_hdmi_displayport_volume_control(&mut hal, &test_config("hdmi-1"), DaemonTickReason::Scheduled);
    assert!(matches!(result, DaemonTickResult::NoChange(_)));
    assert!(hal.set_calls().is_empty());
}

#[test]
fn test_daemon_startup_no_change_wakes_selected_scalar_webapi_device_output() {
    let mut hal = MockHal::new(vec![builtin_speakers("BuiltInHeadphoneOutputDevice")])
        .with_default("BuiltInHeadphoneOutputDevice");
    let config = scalar_webapi_device_config("BuiltInHeadphoneOutputDevice");
    let mut h = hooks();
    h.wake_selected = Wake::Woke;
    let (result, _list) = tick(&mut hal, &config, DaemonTickReason::Startup, ScalarWebApiDeviceFallbackPermission::Suppressed, &mut h);
    assert!(matches!(result, DaemonTickResult::NoChange(_)));
    assert_eq!(h.wake_calls.as_slice(), ["BuiltInHeadphoneOutputDevice"]);
    assert!(hal.set_calls().is_empty());
}

fn two_builtins(default: &str) -> MockHal {
    MockHal::new(vec![builtin_speakers("BuiltInHeadphoneOutputDevice"), builtin_speakers("BuiltInSpeakerDevice")])
        .with_default(default)
}

fn fallback_config() -> Config {
    let mut config = scalar_webapi_device_config("BuiltInHeadphoneOutputDevice");
    config.fallback_uids = vec!["BuiltInSpeakerDevice".into()];
    config
}

#[test]
fn test_daemon_startup_no_change_keeps_selected_scalar_webapi_device_when_wake_fails() {
    let mut hal = two_builtins("BuiltInHeadphoneOutputDevice");
    let mut h = hooks();
    h.wake_selected = Wake::Fails;
    let (result, _list) = tick(&mut hal, &fallback_config(), DaemonTickReason::Startup, ScalarWebApiDeviceFallbackPermission::Suppressed, &mut h);
    assert!(matches!(result, DaemonTickResult::NoChange(_)));
    assert!(hal.set_calls().is_empty());
    assert_eq!(hal.default_output_uid().unwrap().as_deref(), Some("BuiltInHeadphoneOutputDevice"));
}

#[test]
fn test_daemon_startup_retry_no_change_keeps_selected_scalar_webapi_device_when_wake_fails() {
    let mut hal = two_builtins("BuiltInHeadphoneOutputDevice");
    let mut h = hooks();
    h.wake_selected = Wake::Fails;
    let (result, _list) = tick(&mut hal, &fallback_config(), DaemonTickReason::StartupRetry, ScalarWebApiDeviceFallbackPermission::Suppressed, &mut h);
    assert!(matches!(result, DaemonTickResult::NoChange(_)));
    assert!(hal.set_calls().is_empty());
    assert_eq!(hal.default_output_uid().unwrap().as_deref(), Some("BuiltInHeadphoneOutputDevice"));
}

#[test]
fn test_daemon_startup_switches_to_scalar_webapi_device_instead_of_fallback_when_wake_fails() {
    let mut hal = two_builtins("BuiltInSpeakerDevice");
    let mut h = hooks();
    h.wake_selected = Wake::Fails;
    let (result, _list) = tick(&mut hal, &fallback_config(), DaemonTickReason::Startup, ScalarWebApiDeviceFallbackPermission::Suppressed, &mut h);
    assert!(matches!(result, DaemonTickResult::Switched(_)));
    assert_eq!(hal.default_output_uid().unwrap().as_deref(), Some("BuiltInHeadphoneOutputDevice"));
}

#[test]
fn test_daemon_scheduled_no_change_falls_back_when_network_changed() {
    let mut hal = two_builtins("BuiltInHeadphoneOutputDevice");
    let mut h = hooks();
    h.wake_selected = Wake::Fails;
    let (result, _list) = tick(&mut hal, &fallback_config(), DaemonTickReason::Scheduled, ScalarWebApiDeviceFallbackPermission::Allowed, &mut h);
    assert!(matches!(result, DaemonTickResult::Switched(_)));
    assert_eq!(hal.default_output_uid().unwrap().as_deref(), Some("BuiltInSpeakerDevice"));
}

#[test]
fn test_daemon_scheduled_no_change_keeps_scalar_webapi_device_when_network_unchanged() {
    let mut hal = two_builtins("BuiltInHeadphoneOutputDevice");
    let mut h = hooks();
    h.wake_selected = Wake::Fails;
    let (result, _list) = tick(&mut hal, &fallback_config(), DaemonTickReason::Scheduled, ScalarWebApiDeviceFallbackPermission::Suppressed, &mut h);
    assert!(matches!(result, DaemonTickResult::NoChange(_)));
    assert!(hal.set_calls().is_empty());
    assert_eq!(hal.default_output_uid().unwrap().as_deref(), Some("BuiltInHeadphoneOutputDevice"));
}

#[test]
fn test_daemon_scheduled_switches_to_scalar_webapi_device_when_network_unchanged() {
    let mut hal = two_builtins("BuiltInSpeakerDevice");
    let mut h = hooks();
    h.wake_selected = Wake::Fails;
    let (result, _list) = tick(&mut hal, &fallback_config(), DaemonTickReason::Scheduled, ScalarWebApiDeviceFallbackPermission::Suppressed, &mut h);
    assert!(matches!(result, DaemonTickResult::Switched(_)));
    assert_eq!(hal.default_output_uid().unwrap().as_deref(), Some("BuiltInHeadphoneOutputDevice"));
}

#[test]
fn test_daemon_no_change_checks_eqmac_health_for_hdmi_target() {
    let mut hal = MockHal::new(vec![hdmi_device("hdmi-1", "DELL U3219Q")]).with_default("hdmi-1");
    let mut h = hooks();
    h.ensure_action = HdmiDisplayPortVolumeControlEnsureAction::EqMacAlreadyRunning;
    let (result, _list) = tick(&mut hal, &test_config("hdmi-1"), DaemonTickReason::Scheduled, ScalarWebApiDeviceFallbackPermission::Allowed, &mut h);
    assert!(matches!(result, DaemonTickResult::NoChange(_)));
    assert_eq!(h.ensure_calls.as_slice(), ["hdmi-1"]);
    assert!(hal.set_calls().is_empty());
    assert!(hal.volume_calls().is_empty());
}

#[test]
fn test_daemon_startup_restarts_stale_eqmac_and_reapplies_route() {
    let mut hdmi = hdmi_device("hdmi-1", "DELL U3219Q");
    hdmi.is_active = true;
    let mut hal = MockHal::new(vec![hdmi]).with_default("EQMOutputCapture");
    let mut h = hooks();
    h.recover_action = HdmiDisplayPortVolumeControlEnsureAction::EqMacRestarted;
    h.ensure_action = HdmiDisplayPortVolumeControlEnsureAction::EqMacAlreadyRunning;
    let (result, _list) = tick(&mut hal, &test_config("hdmi-1"), DaemonTickReason::Startup, ScalarWebApiDeviceFallbackPermission::Allowed, &mut h);
    assert!(matches!(result, DaemonTickResult::Switched(_)));
    assert_eq!(h.recover_calls.as_slice(), ["hdmi-1"]);
    assert_eq!(hal.default_output_uid().unwrap().as_deref(), Some("hdmi-1"));
}

#[test]
fn test_daemon_user_activity_ensures_eqmac_without_restart() {
    let mut hdmi = hdmi_device("hdmi-1", "DELL U3219Q");
    hdmi.is_active = true;
    let mut hal = MockHal::new(vec![hdmi]).with_default("EQMOutputCapture");
    let mut h = hooks();
    h.recover_forbidden = true;
    h.ensure_action = HdmiDisplayPortVolumeControlEnsureAction::EqMacAlreadyRunning;
    let (result, _list) = tick(&mut hal, &test_config("hdmi-1"), DaemonTickReason::UserActivity, ScalarWebApiDeviceFallbackPermission::Allowed, &mut h);
    assert!(matches!(result, DaemonTickResult::NoChange(_)));
    assert_eq!(h.ensure_calls.as_slice(), ["hdmi-1"]);
    assert!(hal.set_calls().is_empty());
    assert!(hal.volume_calls().is_empty());
    assert_eq!(hal.default_output_uid().unwrap().as_deref(), Some("EQMOutputCapture"));
}

#[test]
fn test_daemon_startup_applies_volume_when_already_on_target() {
    let mut hal = MockHal::new(vec![hdmi_device("hdmi-1", "DELL U3219Q")]).with_default("hdmi-1");
    let mut config = test_config("hdmi-1");
    config.volume = Some(25);
    let (result, _list) = daemon_tick_no_hdmi_displayport_volume_control(&mut hal, &config, DaemonTickReason::Startup);
    assert!(matches!(result, DaemonTickResult::NoChange(_)));
    assert!(hal.set_calls().is_empty());
    assert_eq!(hal.volume_calls(), vec![SetVolumeCall { uid: "hdmi-1".into(), percent: 25 }]);
}

#[test]
fn test_daemon_scheduled_no_change_leaves_volume_alone() {
    let mut hal = MockHal::new(vec![hdmi_device("hdmi-1", "DELL U3219Q")]).with_default("hdmi-1");
    let mut config = test_config("hdmi-1");
    config.volume = Some(25);
    let (result, _list) = daemon_tick_no_hdmi_displayport_volume_control(&mut hal, &config, DaemonTickReason::Scheduled);
    assert!(matches!(result, DaemonTickResult::NoChange(_)));
    assert!(hal.volume_calls().is_empty());
}

#[test]
fn test_daemon_startup_no_change_on_fallback_does_not_use_preferred_volume() {
    let mut hal = MockHal::new(vec![builtin_speakers("BuiltInSpeakerDevice")]).with_default("BuiltInSpeakerDevice");
    let mut config = test_config("missing-hdmi");
    config.volume = Some(25);
    let (result, _list) = daemon_tick_no_hdmi_displayport_volume_control(&mut hal, &config, DaemonTickReason::Startup);
    assert!(matches!(result, DaemonTickResult::NoChange(_)));
    assert!(hal.set_calls().is_empty());
    assert!(hal.volume_calls().is_empty());
}

#[test]
fn test_daemon_switch_sets_config_volume_before_and_after_route_change() {
    let mut hal = MockHal::new(vec![builtin_speakers("BuiltInSpeakerDevice"), hdmi_device("hdmi-1", "DELL U3219Q")])
        .with_default("BuiltInSpeakerDevice");
    let mut config = test_config("hdmi-1");
    config.volume = Some(25);
    let (result, _list) = daemon_tick_no_hdmi_displayport_volume_control(&mut hal, &config, DaemonTickReason::Startup);
    assert!(matches!(result, DaemonTickResult::Switched(_)));
    assert_eq!(
        hal.volume_calls(),
        vec![SetVolumeCall { uid: "hdmi-1".into(), percent: 25 }, SetVolumeCall { uid: "hdmi-1".into(), percent: 25 }]
    );
}

#[test]
fn test_daemon_tick_respects_auto_switch_false() {
    let mut hal = MockHal::new(vec![hdmi_device("builtin", "Built-in"), hdmi_device("hdmi-1", "DELL U3219Q")])
        .with_default("builtin");
    let mut config = test_config("hdmi-1");
    config.auto_switch = false;
    let (result, _list) = daemon_tick_no_hdmi_displayport_volume_control(&mut hal, &config, DaemonTickReason::Scheduled);
    assert!(matches!(result, DaemonTickResult::AutoSwitchDisabled));
    assert!(hal.set_calls().is_empty());
}

#[test]
fn test_daemon_tick_switches_to_builtin_fallback_when_preferred_missing() {
    let mut hal = MockHal::new(vec![builtin_speakers("BuiltInSpeakerDevice")]).with_default("disconnected-hdmi");
    let (result, _list) = daemon_tick_no_hdmi_displayport_volume_control(&mut hal, &test_config("hdmi-1"), DaemonTickReason::Scheduled);
    assert!(matches!(result, DaemonTickResult::Switched(_)));
    assert_eq!(hal.default_output_uid().unwrap().as_deref(), Some("BuiltInSpeakerDevice"));
}

#[test]
fn daemon_activity_wake_failure_falls_back_when_allowed() {
    let mut hal = two_builtins("BuiltInHeadphoneOutputDevice");
    let mut h = hooks();
    h.wake_activity = Wake::Fails;
    let (result, _list) = tick(&mut hal, &fallback_config(), DaemonTickReason::UserActivity, ScalarWebApiDeviceFallbackPermission::Allowed, &mut h);
    assert!(matches!(result, DaemonTickResult::Switched(_)));
    assert_eq!(hal.default_output_uid().unwrap().as_deref(), Some("BuiltInSpeakerDevice"));
    let mut hal = two_builtins("BuiltInHeadphoneOutputDevice");
    let mut h = hooks();
    h.wake_activity = Wake::Fails;
    let (result, _list) = tick(&mut hal, &fallback_config(), DaemonTickReason::UserActivity, ScalarWebApiDeviceFallbackPermission::Suppressed, &mut h);
    assert!(matches!(result, DaemonTickResult::NoChange(_)));
}

#[test]
fn test_activity_state_only_fires_on_idle_to_active() {
    let mut state = DaemonState::new();
    let threshold = 60_000;
    assert!(!state.observe_idle_duration(1_000, threshold));
    assert!(!state.observe_idle_duration(90_000, threshold));
    assert!(state.observe_idle_duration(1_000, threshold));
    assert!(!state.observe_idle_duration(1_000, threshold));
}

#[test]
fn test_activity_wake_cooldown() {
    let mut state = DaemonState::new();
    let now = 5_000_000;
    assert!(state.allow_scalar_webapi_device_wake(now, 30_000));
    assert!(!state.allow_scalar_webapi_device_wake(now + 1_000, 30_000));
    assert!(state.allow_scalar_webapi_device_wake(now + 31_000, 30_000));
}

#[test]
fn test_network_access_change_detects_interface_gateway_or_ip_changes() {
    let mut state = DaemonState::new();
    let initial = NetworkAccessSnapshot {
        interface: "en0".into(),
        gateway: Some("192.168.86.1".into()),
        ip_address: Some("192.168.86.100".into()),
    };
    let changed = NetworkAccessSnapshot { ip_address: Some("192.168.86.101".into()), ..initial.clone() };
    assert_eq!(state.observe_network_access(Some(initial.clone())), NetworkAccessChange::Unchanged);
    assert_eq!(state.observe_network_access(Some(initial)), NetworkAccessChange::Unchanged);
    assert_eq!(state.observe_network_access(Some(changed)), NetworkAccessChange::Changed);
}

#[test]
fn test_network_access_change_detects_lost_default_route() {
    let mut state = DaemonState::new();
    let initial = NetworkAccessSnapshot {
        interface: "en0".into(),
        gateway: Some("192.168.86.1".into()),
        ip_address: Some("192.168.86.100".into()),
    };
    assert_eq!(state.observe_network_access(Some(initial)), NetworkAccessChange::Unchanged);
    assert_eq!(state.observe_network_access(None), NetworkAccessChange::Changed);
}

#[test]
fn test_scalar_webapi_device_fallback_permission_requires_network_change() {
    assert_eq!(
        scalar_webapi_device_fallback_permission(NetworkAccessChange::Unchanged),
        ScalarWebApiDeviceFallbackPermission::Suppressed
    );
    assert_eq!(
        scalar_webapi_device_fallback_permission(NetworkAccessChange::Changed),
        ScalarWebApiDeviceFallbackPermission::Allowed
    );
}

#[test]
fn test_scalar_webapi_device_startup_fallback_grace_has_floor() {
    let mut config = scalar_webapi_device_config("BuiltInHeadphoneOutputDevice");
    config.scalar_webapi_device.as_mut().unwrap().wake_debounce_ms = 2_000;
    assert_eq!(scalar_webapi_device_startup_fallback_grace(&config), MIN_SCALAR_WEBAPI_DEVICE_STARTUP_FALLBACK_GRACE_MS);
}

#[test]
fn test_scalar_webapi_device_startup_fallback_grace_allows_longer_debounce() {
    let mut config = scalar_webapi_device_config("BuiltInHeadphoneOutputDevice");
    config.scalar_webapi_device.as_mut().unwrap().wake_debounce_ms = 45_000;
    assert_eq!(scalar_webapi_device_startup_fallback_grace(&config), 45_000);
}

#[test]
fn scheduled_plan_retries_startup_within_grace() {
    let config = scalar_webapi_device_config("x");
    assert_eq!(
        scheduled_tick_plan(&config, 10_000, NetworkAccessChange::Changed),
        (DaemonTickReason::StartupRetry, ScalarWebApiDeviceFallbackPermission::Suppressed)
    );
    assert_eq!(
        scheduled_tick_plan(&config, 30_000, NetworkAccessChange::Changed),
        (DaemonTickReason::Scheduled, ScalarWebApiDeviceFallbackPermission::Allowed)
    );
    assert_eq!(
        scheduled_tick_plan(&config, 30_000, NetworkAccessChange::Unchanged),
        (DaemonTickReason::Scheduled, ScalarWebApiDeviceFallbackPermission::Suppressed)
    );
}

#[test]
fn activity_plan_resets_cooldown_on_network_change() {
    let config = scalar_webapi_device_config("x");
    let mut state = DaemonState::new();
    assert_eq!(activity_tick_plan(&mut state, &config, 1_000, NetworkAccessChange::Unchanged), Some(ScalarWebApiDeviceFallbackPermission::Suppressed));
    assert_eq!(activity_tick_plan(&mut state, &config, 2_000, NetworkAccessChange::Unchanged), None);
    assert_eq!(activity_tick_plan(&mut state, &config, 3_000, NetworkAccessChange::Changed), Some(ScalarWebApiDeviceFallbackPermission::Allowed));
}
