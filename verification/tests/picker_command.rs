use rusty_jack::apply::{ApplyResult, VolumeMemory};
use rusty_jack::config::{Config, DeviceSelectorConfig};
use rusty_jack::hal::{AudioHal, MockHal, SetVolumeCall};
use rusty_jack::launchd::DaemonPauseReason;
use rusty_jack::output_device::OutputDevice;
use rusty_jack::picker_command::{
    append_or_merge_picker_note, native_driver_picker_notes, override_pause_reason,
    override_pause_step, picker_notes, run_picker, selection_overrides_preferred,
    OverridePauseStep, PickerRunOutcome,
};
use rusty_jack::transport::TransportKind;

fn device(uid: &str, name: &str, active: bool) -> OutputDevice {
    OutputDevice {
        id: 1,
        uid: uid.into(),
        name: name.into(),
        transport: TransportKind::BuiltIn,
        is_alive: true,
        is_default: false,
        is_active: active,
        monitor_name: None,
    }
}

fn hdmi(uid: &str) -> OutputDevice {
    OutputDevice { transport: TransportKind::Hdmi, uid: uid.into(), name: "HDMI".into(), ..device(uid, "HDMI", false) }
}

#[test]
fn test_run_picker_by_index() {
    let mut hal = MockHal::new(vec![device("builtin", "Built-in Output", true), hdmi("hdmi")]).with_default("builtin");
    let mut memory = VolumeMemory::new();
    let outcome = run_picker(&mut hal, true, false, Some(1), None, &mut memory, false).unwrap();
    assert!(matches!(outcome, PickerRunOutcome::Switched { result: ApplyResult::Switched { .. } }));
    assert_eq!(hal.default_output_uid().unwrap().as_deref(), Some("hdmi"));
}

#[test]
fn test_run_picker_preserves_volume_for_manual_pick() {
    let mut hal = MockHal::new(vec![device("builtin", "Built-in Output", true), hdmi("hdmi")])
        .with_default("builtin")
        .with_output_volume(33);
    let mut memory = VolumeMemory::new();
    run_picker(&mut hal, true, false, Some(1), None, &mut memory, false).unwrap();

    assert_eq!(
        hal.volume_calls(),
        vec![SetVolumeCall { uid: "hdmi".into(), percent: 33 }, SetVolumeCall { uid: "hdmi".into(), percent: 33 }]
    );
}

#[test]
fn test_run_picker_no_change_json() {
    let mut hal = MockHal::new(vec![device("builtin", "Built-in Output", true)]).with_default("builtin");
    let mut memory = VolumeMemory::new();
    run_picker(&mut hal, true, false, Some(0), None, &mut memory, false).unwrap();
    assert!(hal.set_calls().is_empty());
}

#[test]
fn run_picker_applies_volume_for_preferred() {
    let mut config = Config::default();
    config.preferred_device = DeviceSelectorConfig { name: None, uid: Some("hdmi".into()) };
    config.volume = Some(25);
    let mut hal = MockHal::new(vec![device("builtin", "Built-in Output", true), hdmi("hdmi")]).with_default("builtin");
    let mut memory = VolumeMemory::new();
    run_picker(&mut hal, true, false, Some(1), Some(&config), &mut memory, true).unwrap();
    assert_eq!(
        hal.volume_calls(),
        vec![SetVolumeCall { uid: "hdmi".into(), percent: 25 }, SetVolumeCall { uid: "hdmi".into(), percent: 25 }]
    );
}

#[test]
fn run_picker_override_needs_confirmation_or_refuses() {
    let mut config = Config::default();
    config.preferred_device = DeviceSelectorConfig { name: None, uid: Some("hdmi".into()) };
    let devices = vec![device("builtin", "Built-in Output", false), hdmi("hdmi")];
    let mut hal = MockHal::new(devices.clone_devices()).with_default("hdmi");
    let mut memory = VolumeMemory::new();
    let err = run_picker(&mut hal, true, false, Some(0), Some(&config), &mut memory, true).unwrap_err();
    assert!(err.message().contains("while the daemon is running"));
    let outcome = run_picker(&mut hal, false, true, Some(0), Some(&config), &mut memory, true).unwrap();
    assert!(matches!(outcome, PickerRunOutcome::NeedsConfirmation { selection: 0, .. }));
    assert!(hal.set_calls().is_empty());
}

trait CloneDevices {
    fn clone_devices(&self) -> Vec<OutputDevice>;
}

impl CloneDevices for Vec<OutputDevice> {
    fn clone_devices(&self) -> Vec<OutputDevice> {
        self.iter().map(OutputDevice::duplicate).collect()
    }
}

#[test]
fn test_native_driver_picker_notes_for_hdmi_when_missing() {
    let devices = vec![device("Built-in Output", "Built-in Output", true), hdmi("hdmi")];

    assert_eq!(
        native_driver_picker_notes(&devices, false),
        vec![("hdmi".to_string(), "native driver recommended for volume keys".to_string())]
    );
    assert!(native_driver_picker_notes(&devices, true).is_empty());
}

#[test]
fn test_picker_notes_merge_same_uid() {
    let mut notes = vec![("hdmi".to_string(), "ScalarWebAPI: standby".to_string())];
    append_or_merge_picker_note(&mut notes, "hdmi".into(), "native driver recommended for volume keys".into());

    assert_eq!(
        notes,
        vec![("hdmi".to_string(), "ScalarWebAPI: standby; native driver recommended for volume keys".to_string())]
    );
    append_or_merge_picker_note(&mut notes, "dp".into(), "x".into());
    assert_eq!(notes.len(), 2);
    let mut empty = vec![("dp".to_string(), String::new())];
    append_or_merge_picker_note(&mut empty, "dp".into(), "y".into());
    assert_eq!(empty, vec![("dp".to_string(), "y".to_string())]);
}

#[test]
fn picker_notes_merge_power_and_driver_notes() {
    let devices = vec![hdmi("hdmi")];
    let notes = picker_notes(vec![("hdmi".to_string(), "ScalarWebAPI: standby".to_string())], &devices, false);
    assert_eq!(notes, vec![("hdmi".to_string(), "ScalarWebAPI: standby; native driver recommended for volume keys".to_string())]);
}

#[test]
fn override_decisions() {
    let d = hdmi("hdmi");
    assert!(!selection_overrides_preferred(None, "hdmi"));
    assert!(!selection_overrides_preferred(Some("hdmi"), "hdmi"));
    assert!(selection_overrides_preferred(Some("builtin"), "hdmi"));
    assert!(matches!(override_pause_step(false, true, Some("builtin"), &d, false), OverridePauseStep::Continue));
    match override_pause_step(false, true, Some("builtin"), &d, true) {
        OverridePauseStep::Confirm { notice } => assert!(notice.starts_with("The daemon is running. Picking HDMI instead")),
        other => panic!("{other:?}"),
    }
    let DaemonPauseReason::PickerOverride { selected_uid, selected_label, preferred_uid } = override_pause_reason(&d, Some("builtin"));
    assert_eq!((selected_uid.as_str(), selected_label.as_str(), preferred_uid.as_deref()), ("hdmi", "HDMI", Some("builtin")));
}
