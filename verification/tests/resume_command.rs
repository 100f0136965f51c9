use rusty_jack::apply::VolumeMemory;
use rusty_jack::config::{Config, DeviceSelectorConfig};
use rusty_jack::daemon::{DaemonHooks, HookLog};
use rusty_jack::hal::{MockHal, SetVolumeCall};
use rusty_jack::hdmi_displayport_volume_control::{
    HdmiDisplayPortVolumeControlEnsureAction, HdmiDisplayPortVolumeControlEnsureResult,
};
use rusty_jack::launchd::{DaemonPauseReason, DaemonStatus};
use rusty_jack::output_device::OutputDevice;
use rusty_jack::resume_command::{
    apply_policy_before_resume, picker_override_resume_warning, picker_override_selected_label,
    prepare_audio_before_resume, prepared_audio_line, resume_cancelled_message, ResumePreparation,
};
use rusty_jack::scalar_webapi_device::ScalarWebApiDeviceWakeResult;
use rusty_jack::transport::TransportKind;
use rusty_jack::RustyJackError;

struct QuietHooks;

impl DaemonHooks for QuietHooks {
    fn ensure_volume_control(
        &mut self,
        _devices: &[OutputDevice],
        _target_uid: &str,
    ) -> Result<HdmiDisplayPortVolumeControlEnsureResult, RustyJackError> {
        Ok(HdmiDisplayPortVolumeControlEnsureResult { action: HdmiDisplayPortVolumeControlEnsureAction::NotNeeded })
    }
    fn recover_volume_control(
        &mut self,
        _devices: &[OutputDevice],
        _target_uid: &str,
    ) -> Result<HdmiDisplayPortVolumeControlEnsureResult, RustyJackError> {
        Ok(HdmiDisplayPortVolumeControlEnsureResult { action: HdmiDisplayPortVolumeControlEnsureAction::NotNeeded })
    }
    fn wake_on_output_selected(
        &mut self,
        _config: &Config,
        _devices: &[OutputDevice],
        _uid: &str,
    ) -> Result<Option<ScalarWebApiDeviceWakeResult>, RustyJackError> {
        Ok(None)
    }
    fn wake_on_activity(
        &mut self,
        _config: &Config,
        _devices: &[OutputDevice],
        _uid: &str,
    ) -> Result<Option<ScalarWebApiDeviceWakeResult>, RustyJackError> {
        Ok(None)
    }
    fn report(&mut self, _line: String) {}
    fn report_wake(&mut self, _result: &ScalarWebApiDeviceWakeResult) {}
    fn sleep_ms(&mut self, _ms: u64) {}
}

fn config_with_volume(volume: Option<u8>) -> Config {
    let mut config = Config::default();
    config.poll_interval_ms = 3_000;
    config.switch_delay_ms = 500;
    config.preferred_device = DeviceSelectorConfig { name: None, uid: Some("hdmi".into()) };
    config.volume = volume;
    config
}

fn device(uid: &str, active: bool) -> OutputDevice {
    OutputDevice {
        id: 1,
        uid: uid.into(),
        name: "Output".into(),
        transport: TransportKind::Hdmi,
        is_alive: true,
        is_default: active,
        is_active: active,
        monitor_name: None,
    }
}

#[test]
fn test_apply_policy_before_resume_switches_and_restores_volume() {
    let mut hal = MockHal::new(vec![device("builtin", true), device("hdmi", false)]).with_default("builtin");

    let restored =
        apply_policy_before_resume(&mut hal, &config_with_volume(Some(25)), &mut HookLog::new(QuietHooks), &mut VolumeMemory::new())
            .unwrap();

    assert_eq!(restored, Some(25));
    assert_eq!(
        hal.volume_calls(),
        vec![SetVolumeCall { uid: "hdmi".into(), percent: 25 }, SetVolumeCall { uid: "hdmi".into(), percent: 25 }]
    );
}

#[test]
fn test_apply_policy_before_resume_restores_volume_when_already_on_target() {
    let mut hal = MockHal::new(vec![device("hdmi", true)]).with_default("hdmi");

    let restored =
        apply_policy_before_resume(&mut hal, &config_with_volume(Some(25)), &mut HookLog::new(QuietHooks), &mut VolumeMemory::new())
            .unwrap();

    assert_eq!(restored, Some(25));
    assert_eq!(hal.volume_calls(), vec![SetVolumeCall { uid: "hdmi".into(), percent: 25 }]);
}

#[test]
fn test_apply_policy_before_resume_skips_without_config_volume() {
    let mut hal = MockHal::new(vec![device("builtin", true)]).with_default("builtin");

    let restored =
        apply_policy_before_resume(&mut hal, &config_with_volume(None), &mut HookLog::new(QuietHooks), &mut VolumeMemory::new())
            .unwrap();

    assert_eq!(restored, None);
    assert!(hal.volume_calls().is_empty());
}

#[test]
fn test_picker_override_resume_warning_mentions_manual_pick() {
    let reason = DaemonPauseReason::picker_override("line-out".into(), "Line Out".into(), Some("hdmi".into()));

    let warning = picker_override_resume_warning(&reason);

    assert!(warning.contains("manually picked Line Out"));
    assert!(warning.contains("configured preferred output `hdmi`"));
}

#[test]
fn test_picker_override_selected_label() {
    let reason = DaemonPauseReason::picker_override("line-out".into(), "Line Out".into(), None);

    assert_eq!(picker_override_selected_label(&reason), "Line Out");
}

fn paused(reason: Option<DaemonPauseReason>) -> DaemonStatus {
    DaemonStatus::Paused {
        label: "com.example.rusty-jack".into(),
        plist_path: "/p".into(),
        service: "gui/501/com.example.rusty-jack".into(),
        pause_reason: reason,
    }
}

#[test]
fn prepare_before_resume_asks_after_manual_pick() {
    let mut hal = MockHal::new(vec![device("builtin", true), device("hdmi", false)]).with_default("builtin");
    let config = config_with_volume(Some(25));
    let reason = DaemonPauseReason::picker_override("builtin".into(), "Output".into(), Some("hdmi".into()));
    let r = prepare_audio_before_resume(&mut hal, &paused(Some(reason)), Some(&config), true, || Ok(false), &mut HookLog::new(QuietHooks), &mut VolumeMemory::new())
        .unwrap();
    assert!(matches!(r, ResumePreparation::Cancelled { selected_label } if selected_label == "Output"));
    assert!(hal.set_calls().is_empty());

    let reason = DaemonPauseReason::picker_override("builtin".into(), "Output".into(), Some("hdmi".into()));
    let r = prepare_audio_before_resume(&mut hal, &paused(Some(reason)), Some(&config), true, || Ok(true), &mut HookLog::new(QuietHooks), &mut VolumeMemory::new())
        .unwrap();
    assert!(matches!(r, ResumePreparation::Continue { prepared_volume: Some(25) }));
    assert_eq!(hal.set_calls(), vec!["hdmi".to_string()]);

    let running = DaemonStatus::NotInstalled { plist_path: "/p".into() };
    let r = prepare_audio_before_resume(&mut hal, &running, Some(&config), true, || panic!("no prompt"), &mut HookLog::new(QuietHooks), &mut VolumeMemory::new())
        .unwrap();
    assert!(matches!(r, ResumePreparation::Continue { prepared_volume: None }));
    assert_eq!(resume_cancelled_message("Line Out"), "Cancelled. Daemon is still paused and Line Out remains selected.");
    assert_eq!(prepared_audio_line(25), "  prepared audio: routed and restored to 25%");
}
