use rusty_jack::config::{Config, DeviceSelectorConfig};
use rusty_jack::output_device::OutputDevice;
use rusty_jack::passthrough::{
    passthrough_status_note, plan_passthrough, plan_passthrough_with_native_driver,
    PassthroughController, PassthroughMode, PassthroughPlan, PASSTHROUGH_SKELETON_DRIVER_STAGE,
    RUSTY_JACK_VIRTUAL_OUTPUT_UID,
};
use rusty_jack::system_default::HalDriverInfo;
use rusty_jack::transport::TransportKind;

fn config_with_hdmi_preferred(volume: Option<u8>) -> Config {
    let mut config = Config::default();
    config.poll_interval_ms = 3_000;
    config.preferred_device = DeviceSelectorConfig { name: Some("HDMI".into()), uid: Some("hdmi".into()) };
    config.volume = volume;
    config
}

fn hdmi_device(active: bool) -> OutputDevice {
    OutputDevice {
        id: 2,
        uid: "hdmi".into(),
        name: "HDMI".into(),
        transport: TransportKind::Hdmi,
        is_alive: true,
        is_default: false,
        is_active: active,
        monitor_name: None,
    }
}

fn builtin_device(active: bool) -> OutputDevice {
    OutputDevice {
        id: 1,
        uid: "builtin".into(),
        name: "Built-in Output".into(),
        transport: TransportKind::BuiltIn,
        is_alive: true,
        is_default: false,
        is_active: active,
        monitor_name: None,
    }
}

fn fake_driver() -> HalDriverInfo {
    HalDriverInfo {
        name: "Rusty Jack".into(),
        bundle_id: "com.the-hcma.rusty-jack.driver".into(),
        version: Some("0.1.1".into()),
        stage: Some(PASSTHROUGH_SKELETON_DRIVER_STAGE.into()),
        install_path: "/tmp/RustyJack.driver".into(),
    }
}

fn plan(volume_percent: u8) -> PassthroughPlan {
    PassthroughPlan {
        virtual_output_uid: RUSTY_JACK_VIRTUAL_OUTPUT_UID.into(),
        physical_uid: "hdmi".into(),
        physical_name: "HDMI".into(),
        volume_percent,
        driver_stage: Some(PASSTHROUGH_SKELETON_DRIVER_STAGE.into()),
    }
}

#[test]
fn test_plan_passthrough_skips_non_hdmi_target() {
    let mut config = config_with_hdmi_preferred(Some(40));
    config.preferred_device =
        DeviceSelectorConfig { name: Some("Built-in Output".into()), uid: Some("builtin".into()) };
    let devices = vec![builtin_device(true), hdmi_device(false)];
    assert!(plan_passthrough_with_native_driver(&config, &devices, &fake_driver()).is_none());
}

#[test]
fn test_plan_passthrough_without_native_driver_is_none() {
    let config = config_with_hdmi_preferred(Some(40));
    let devices = vec![hdmi_device(true)];
    assert!(plan_passthrough(&config, &devices, &[]).is_none());
}

#[test]
fn test_plan_passthrough_with_native_driver_and_hdmi_target() {
    let config = config_with_hdmi_preferred(Some(40));
    let devices = vec![builtin_device(false), hdmi_device(true)];
    let plan = plan_passthrough_with_native_driver(&config, &devices, &fake_driver()).unwrap();

    assert_eq!(plan.physical_uid, "hdmi");
    assert_eq!(plan.volume_percent, 40);
    // The renderer's gain is the percent as a scalar.
    assert!((f32::from(plan.volume_percent) / 100.0 - 0.4).abs() < f32::EPSILON);
    assert_eq!(plan.virtual_output_uid, RUSTY_JACK_VIRTUAL_OUTPUT_UID);
    let plan = plan_passthrough(&config, &devices, &[fake_driver()]).unwrap();
    assert_eq!(plan.driver_stage.as_deref(), Some(PASSTHROUGH_SKELETON_DRIVER_STAGE));
}

#[test]
fn test_passthrough_controller_apply_plan_is_idempotent() {
    let mut controller = PassthroughController::new();

    let armed = controller.apply_plan(Some(plan(25)));
    assert_eq!(controller.mode(), PassthroughMode::Skeleton);
    assert_eq!(
        armed.as_deref(),
        Some("passthrough skeleton: armed for HDMI at 25% (virtual com.the-hcma.rusty-jack.driver.output \u{2192} physical hdmi)")
    );
    assert_eq!(controller.apply_plan(Some(plan(25))), None);
    assert_eq!(controller.mode(), PassthroughMode::Skeleton);
    assert_eq!(
        controller.apply_plan(Some(plan(30))).as_deref(),
        Some("passthrough skeleton: retargeted HDMI \u{2192} HDMI at 30%")
    );
    assert_eq!(
        controller.apply_plan(None).as_deref(),
        Some("passthrough skeleton: disarmed (was HDMI at 30%)")
    );
    assert_eq!(controller.mode(), PassthroughMode::Disabled);
}

#[test]
fn passthrough_status_note_only_when_armed() {
    let p = plan(40);
    assert_eq!(passthrough_status_note(PassthroughMode::Disabled, Some(&p)), None);
    assert_eq!(passthrough_status_note(PassthroughMode::Skeleton, None), None);
    assert_eq!(
        passthrough_status_note(PassthroughMode::Skeleton, Some(&p)).as_deref(),
        Some("passthrough skeleton armed for HDMI at 40% via Rusty Jack; live CoreAudio I/O is not wired yet")
    );
}
