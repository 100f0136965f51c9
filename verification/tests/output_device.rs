use rusty_jack::hal::{AudioHal, MockHal};
use rusty_jack::device_select::{resolve_device_selector, DeviceSelector, ResolveError};
use rusty_jack::output_device::{filter_hdmi_devices, is_routable_output, OutputDevice};
use rusty_jack::transport::TransportKind;

fn sample(uid: &str, name: &str, transport: TransportKind, default: bool) -> OutputDevice {
    OutputDevice {
        id: 1,
        uid: uid.into(),
        name: name.into(),
        transport,
        is_alive: true,
        is_default: default,
        is_active: default,
        monitor_name: None,
    }
}

#[test]
fn test_filter_hdmi_includes_hdmi_and_dp() {
    let devices = vec![
        sample("builtin", "MacBook Speakers", TransportKind::BuiltIn, true),
        sample("hdmi-1", "LG TV", TransportKind::Hdmi, false),
        sample("dp-1", "Studio Display", TransportKind::DisplayPort, false),
    ];
    let filtered = filter_hdmi_devices(&devices);
    assert_eq!(filtered.len(), 2);
    assert!(filtered.iter().any(|d| d.uid == "hdmi-1"));
    assert!(filtered.iter().any(|d| d.uid == "dp-1"));
}

#[test]
fn test_excludes_aggregate_name() {
    let devices = vec![sample(
        "agg",
        "CADefaultDeviceAggregate-123",
        TransportKind::Hdmi,
        false,
    )];
    assert!(filter_hdmi_devices(&devices).is_empty());
}

#[test]
fn test_is_excluded_by_name() {
    assert!(OutputDevice::is_excluded_by_name("Foo (eqMac)"));
    assert!(!OutputDevice::is_excluded_by_name("CalDigit TS4 Audio"));
}

#[test]
fn test_zoom_device_not_selectable() {
    let zoom = sample("zoom.us:123", "ZoomAudioDevice", TransportKind::Virtual, false);
    assert!(!zoom.is_selectable());
    assert!(zoom.non_selectable_reason().unwrap().contains("app virtual"));
}

#[test]
fn test_hdmi_device_is_selectable() {
    let hdmi = sample("hdmi-1", "HDMI", TransportKind::Hdmi, false);
    assert!(hdmi.is_selectable());
}

#[test]
fn test_aggregate_not_selectable() {
    let agg = sample("agg", "Multi Output", TransportKind::Aggregate, false);
    assert!(!agg.is_selectable());
}

#[test]
fn friendly_label_appends_monitor_name() {
    let mut d = sample("hdmi-1", "HDMI", TransportKind::Hdmi, false);
    assert_eq!(d.friendly_label(), "HDMI");
    d.monitor_name = Some("DELL U3219Q".into());
    assert_eq!(d.friendly_label(), "HDMI (DELL U3219Q)");
}

#[test]
fn non_selectable_reasons_in_priority_order() {
    let router = sample("x", "Speakers (eqMac)", TransportKind::Aggregate, false);
    assert_eq!(router.non_selectable_reason(), Some("virtual router entry"));
    let agg = sample("x", "Multi Output", TransportKind::Aggregate, false);
    assert_eq!(agg.non_selectable_reason(), Some("aggregate device"));
    let ok = sample("x", "Speakers", TransportKind::Usb, false);
    assert_eq!(ok.non_selectable_reason(), None);
    assert!(is_routable_output("x", "Speakers", TransportKind::Usb));
    assert!(!is_routable_output("ZOOM.US:1", "Zoom", TransportKind::Virtual));
}

#[test]
fn internal_builtin_is_only_builtin_transport() {
    assert!(sample("b", "Speakers", TransportKind::BuiltIn, false).is_internal_builtin_output());
    assert!(!sample("u", "Speakers", TransportKind::Usb, false).is_internal_builtin_output());
}

#[test]
fn test_resolve_by_uid() {
    let devices = vec![sample("hdmi-1", "HDMI", TransportKind::Hdmi, true)];
    let selector = DeviceSelector { uid: Some("hdmi-1".into()) };
    assert_eq!(resolve_device_selector(&selector, &devices).unwrap(), "hdmi-1");
}

#[test]
fn test_resolve_by_uid_not_found() {
    let devices = vec![sample("hdmi-1", "HDMI", TransportKind::Hdmi, true)];
    let selector = DeviceSelector { uid: Some("missing".into()) };
    assert!(matches!(
        resolve_device_selector(&selector, &devices),
        Err(ResolveError::UidNotFound(uid)) if uid == "missing"
    ));
}

#[test]
fn resolve_without_uid_is_not_specified() {
    let devices = vec![sample("hdmi-1", "HDMI", TransportKind::Hdmi, true)];
    let selector = DeviceSelector { uid: Some("   ".into()) };
    assert!(matches!(
        resolve_device_selector(&selector, &devices),
        Err(ResolveError::NotSpecified)
    ));
    assert!(matches!(
        resolve_device_selector(&DeviceSelector { uid: None }, &devices),
        Err(ResolveError::NotSpecified)
    ));
}

#[test]
fn test_list_hdmi_filter_via_mock() {
    let devices = vec![
        OutputDevice {
            id: 1,
            uid: "builtin".into(),
            name: "Speakers".into(),
            transport: TransportKind::BuiltIn,
            is_alive: true,
            is_default: true,
            is_active: true,
            monitor_name: None,
        },
        OutputDevice {
            id: 2,
            uid: "hdmi-uid".into(),
            name: "Monitor".into(),
            transport: TransportKind::Hdmi,
            is_alive: true,
            is_default: false,
            is_active: false,
            monitor_name: None,
        },
    ];
    let hal = MockHal::new(devices);
    let all = hal.list_outputs().unwrap().devices;
    let hdmi = filter_hdmi_devices(&all);
    assert_eq!(hdmi.len(), 1);
    assert_eq!(hdmi[0].uid, "hdmi-uid");
}
