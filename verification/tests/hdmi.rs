use rusty_jack::eqmac::{EqMacEnsureAction, EqMacEnsureResult, EqMacInstallState};
use rusty_jack::hdmi_displayport_volume_control::{
    connected_hdmi_displayport_output_present, driver_offer_message, driver_offer_messages,
    driver_recommendation_reason, ensure_hdmi_displayport_volume_control_for_target,
    format_ensure_messages, hdmi_displayport_volume_control_status, hdmi_displayport_volume_control_step,
    map_eqmac_result, native_driver_info, native_driver_scope, native_driver_scope_note,
    native_driver_virtual_output_warning, native_driver_warning, route_needs_hdmi_displayport_volume_control,
    HdmiDisplayPortVolumeControlEnsureAction, HdmiDisplayPortVolumeControlEnsureResult,
    HdmiDisplayPortVolumeControlStep, RUSTY_JACK_DRIVER_BUNDLE_ID, RUSTY_JACK_VIRTUAL_OUTPUT_UID,
};
use rusty_jack::output_device::OutputDevice;
use rusty_jack::passthrough::{PASSTHROUGH_ACTIVE_DRIVER_STAGE, PASSTHROUGH_SKELETON_DRIVER_STAGE};
use rusty_jack::system_default::HalDriverInfo;
use rusty_jack::transport::TransportKind;

fn device(uid: &str, transport: TransportKind) -> OutputDevice {
    OutputDevice {
        id: 1,
        uid: uid.into(),
        name: "Out".into(),
        transport,
        is_alive: true,
        is_default: false,
        is_active: false,
        monitor_name: None,
    }
}

fn driver(stage: Option<&str>, path: &str) -> HalDriverInfo {
    HalDriverInfo {
        name: "Rusty Jack".into(),
        bundle_id: RUSTY_JACK_DRIVER_BUNDLE_ID.into(),
        version: Some("0.1.1".into()),
        stage: stage.map(str::to_string),
        install_path: path.into(),
    }
}

#[test]
fn test_route_needs_volume_control_for_hdmi() {
    let devices = vec![device("hdmi", TransportKind::Hdmi)];
    assert!(route_needs_hdmi_displayport_volume_control(&devices, "hdmi"));
}

#[test]
fn test_route_needs_volume_control_for_displayport() {
    let devices = vec![device("dp", TransportKind::DisplayPort)];
    assert!(route_needs_hdmi_displayport_volume_control(&devices, "dp"));
}

#[test]
fn test_route_needs_volume_control_not_for_usb() {
    let devices = vec![device("usb", TransportKind::Usb)];
    assert!(!route_needs_hdmi_displayport_volume_control(&devices, "usb"));
}

#[test]
fn test_connected_output_present_requires_alive_output() {
    let mut hdmi = device("hdmi", TransportKind::Hdmi);
    hdmi.is_alive = false;
    let devices = vec![device("builtin", TransportKind::BuiltIn), hdmi];
    assert!(!connected_hdmi_displayport_output_present(&devices));
    let devices = vec![device("builtin", TransportKind::BuiltIn), device("hdmi", TransportKind::Hdmi)];
    assert!(connected_hdmi_displayport_output_present(&devices));
}

#[test]
fn test_driver_offer_without_eqmac_does_not_mention_eqmac() {
    let message = driver_offer_message(false);
    assert!(!message.contains("eqMac"));
    assert!(driver_offer_message(true).contains("eqMac"));
}

#[test]
fn test_driver_recommendation_reason_for_selected_builtin() {
    assert_eq!(
        driver_recommendation_reason(Some(false), true, false).as_deref(),
        Some("selected output is not HDMI/DisplayPort")
    );
}

#[test]
fn test_driver_recommendation_reason_for_selected_hdmi() {
    assert_eq!(
        driver_recommendation_reason(Some(true), true, false).as_deref(),
        Some("selected output is HDMI/DisplayPort")
    );
}

#[test]
fn test_native_driver_scope_note_for_user_install() {
    let home = "/Users/example";
    let path = format!("{home}/Library/Audio/Plug-Ins/HAL/RustyJack.driver");
    assert_eq!(native_driver_scope(&path, Some(home)), "user");
    assert_eq!(native_driver_scope_note(&path, Some(home)), "user-scope HAL driver; no sudo required");
    assert_eq!(native_driver_scope("/Library/Audio/Plug-Ins/HAL/RustyJack.driver", Some(home)), "system");
    assert_eq!(native_driver_scope("/opt/RustyJack.driver", None), "custom");
}

#[test]
fn test_native_driver_warning_for_null_output_stage() {
    assert!(native_driver_warning(Some("virtual-output-null")).unwrap().contains("null output"));
    assert!(native_driver_warning(None).unwrap().contains("null output"));
}

#[test]
fn test_native_driver_warning_for_passthrough_skeleton_stage() {
    assert!(native_driver_warning(Some(PASSTHROUGH_SKELETON_DRIVER_STAGE)).unwrap().contains("passthrough skeleton"));
    assert_eq!(native_driver_warning(Some(PASSTHROUGH_ACTIVE_DRIVER_STAGE)), None);
}

#[test]
fn test_native_driver_virtual_output_warning_when_bundle_without_device() {
    let devices = vec![device("hdmi", TransportKind::Hdmi)];
    let d = driver(Some(PASSTHROUGH_ACTIVE_DRIVER_STAGE), "/Library/Audio/Plug-Ins/HAL/RustyJack.driver");
    let warning = native_driver_virtual_output_warning(&devices, Some(&d), None).unwrap();
    assert!(warning.contains("virtual output"));
    assert!(warning.contains("coreaudiod"));
    assert!(warning.contains("use a system-scope install"));
    let devices = vec![device(RUSTY_JACK_VIRTUAL_OUTPUT_UID, TransportKind::Virtual)];
    assert_eq!(native_driver_virtual_output_warning(&devices, Some(&d), None), None);
}

#[test]
fn native_driver_found_by_bundle_or_name() {
    let other = || HalDriverInfo {
        name: "eqMac".into(),
        bundle_id: "com.bitgapp.eqmac.driver".into(),
        version: None,
        stage: None,
        install_path: "/x".into(),
    };
    let by_name = HalDriverInfo {
        name: "My RUSTY JACK build".into(),
        bundle_id: "org.example".into(),
        version: None,
        stage: None,
        install_path: "/y".into(),
    };
    assert!(native_driver_info(&[other()]).is_none());
    assert_eq!(native_driver_info(&[other(), by_name]).unwrap().install_path, "/y");
}

#[test]
fn volume_control_step_prefers_native_driver() {
    let devices = vec![device("hdmi", TransportKind::Hdmi), device("usb", TransportKind::Usb)];
    let d = driver(None, "/Library/Audio/Plug-Ins/HAL/RustyJack.driver");
    assert_eq!(
        hdmi_displayport_volume_control_step(&devices, "usb", &[], EqMacInstallState::Installed),
        HdmiDisplayPortVolumeControlStep::Done(HdmiDisplayPortVolumeControlEnsureAction::NotNeeded)
    );
    assert_eq!(
        hdmi_displayport_volume_control_step(&devices, "hdmi", &[d], EqMacInstallState::Installed),
        HdmiDisplayPortVolumeControlStep::Done(HdmiDisplayPortVolumeControlEnsureAction::NativeDriverInstalled)
    );
    assert_eq!(
        hdmi_displayport_volume_control_step(&devices, "hdmi", &[], EqMacInstallState::NotInstalled),
        HdmiDisplayPortVolumeControlStep::Done(HdmiDisplayPortVolumeControlEnsureAction::NativeDriverRecommended)
    );
    assert_eq!(
        hdmi_displayport_volume_control_step(&devices, "hdmi", &[], EqMacInstallState::Installed),
        HdmiDisplayPortVolumeControlStep::UseEqMac
    );
}

#[test]
fn ensure_calls_eqmac_only_when_it_provides() {
    let devices = vec![device("hdmi", TransportKind::Hdmi)];
    let result = ensure_hdmi_displayport_volume_control_for_target(&devices, "hdmi", &[], EqMacInstallState::Installed, || {
        Ok(EqMacEnsureResult { action: EqMacEnsureAction::Launched })
    })
    .unwrap();
    assert_eq!(result.action, HdmiDisplayPortVolumeControlEnsureAction::EqMacLaunched);
    let result = ensure_hdmi_displayport_volume_control_for_target(&devices, "hdmi", &[], EqMacInstallState::NotInstalled, || {
        panic!("eqMac is not installed")
    })
    .unwrap();
    assert_eq!(result.action, HdmiDisplayPortVolumeControlEnsureAction::NativeDriverRecommended);
    assert_eq!(
        map_eqmac_result(EqMacEnsureResult { action: EqMacEnsureAction::NotInstalled }).action,
        HdmiDisplayPortVolumeControlEnsureAction::NativeDriverRecommended
    );
}

#[test]
fn ensure_messages_per_action() {
    let r = |action| HdmiDisplayPortVolumeControlEnsureResult { action };
    assert!(format_ensure_messages(r(HdmiDisplayPortVolumeControlEnsureAction::NotNeeded)).is_empty());
    assert_eq!(
        format_ensure_messages(r(HdmiDisplayPortVolumeControlEnsureAction::EqMacLaunched)),
        vec!["Started eqMac for HDMI/DisplayPort audio volume control.".to_string()]
    );
    assert_eq!(format_ensure_messages(r(HdmiDisplayPortVolumeControlEnsureAction::NativeDriverRecommended)), driver_offer_messages());
}

#[test]
fn status_recommends_driver_for_connected_output() {
    let devices = vec![device("hdmi", TransportKind::Hdmi)];
    let status = hdmi_displayport_volume_control_status(&devices, &[], None, Some("/Applications/eqMac.app".into()), None, None, None);
    assert!(status.connected_output_present);
    assert!(!status.native_driver_installed);
    assert!(status.native_driver_recommended);
    assert_eq!(status.native_driver_recommendation_reason.as_deref(), Some("connected HDMI/DisplayPort output detected"));
    assert!(status.recommendation.unwrap().contains("eqMac is installed"));
    assert!(status.eqmac_installed);

    let d = driver(Some("virtual-output-null"), "/Library/Audio/Plug-Ins/HAL/RustyJack.driver");
    let status = hdmi_displayport_volume_control_status(&devices, &[d], None, None, None, None, None);
    assert!(status.native_driver_installed);
    assert!(!status.native_driver_recommended);
    assert_eq!(status.native_driver_scope.as_deref(), Some("system"));
    let warning = status.native_driver_warning.unwrap();
    assert!(warning.starts_with("Rusty Jack is currently a null output"));
    assert!(warning.contains(" CoreAudio has not published"));
    assert!(status.recommendation.is_none());
}
