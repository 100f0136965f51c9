use rusty_jack::coreaudio_active::{is_builtin_route_label, resolve_active_uid};
use rusty_jack::coreaudio_display::{
    connected_display_name_for_audio_uid, display_matches_audio_identity,
    display_vendor_matches_audio, parse_audio_display_identity, preferred_output_name,
    AudioDisplayIdentity, DisplayInfo,
};
use rusty_jack::output_device::OutputDevice;
use rusty_jack::transport::TransportKind;

fn device(uid: &str, name: &str, monitor: Option<&str>, transport: TransportKind) -> OutputDevice {
    OutputDevice {
        id: 1,
        uid: uid.into(),
        name: name.into(),
        transport,
        is_alive: true,
        is_default: false,
        is_active: false,
        monitor_name: monitor.map(str::to_string),
    }
}

#[test]
fn test_direct_default_match() {
    let devices = vec![device("builtin", "Speakers", None, TransportKind::BuiltIn)];
    assert_eq!(resolve_active_uid("builtin", "Speakers", &devices).as_deref(), Some("builtin"));
}

#[test]
fn test_eqmac_virtual_maps_to_monitor() {
    let devices = vec![
        device("hdmi", "HDMI", Some("DELL U3219Q"), TransportKind::Hdmi),
        device("dp", "DisplayPort", Some("DELL U3223QE"), TransportKind::DisplayPort),
    ];
    assert_eq!(
        resolve_active_uid("EQMOutputCapture", "DELL U3219Q (eqMac)", &devices).as_deref(),
        Some("hdmi")
    );
}

#[test]
fn test_eqmac_internal_speakers_maps_to_builtin() {
    let devices = vec![
        device("builtin", "Built-in Output", None, TransportKind::BuiltIn),
        device("hdmi", "HDMI", Some("DELL U3219Q"), TransportKind::Hdmi),
    ];
    assert_eq!(
        resolve_active_uid("EQMOutputCapture", "Internal Speakers (eqMac)", &devices).as_deref(),
        Some("builtin")
    );
}

#[test]
fn test_eqmac_built_in_output_maps_to_builtin() {
    let devices = vec![device("builtin", "Built-in Output", None, TransportKind::BuiltIn)];
    assert_eq!(
        resolve_active_uid("EQMOutputCapture", "Built-in Output (eqMac)", &devices).as_deref(),
        Some("builtin")
    );
}

#[test]
fn resolve_active_uid_plain_unknown_default_is_none() {
    let devices = vec![device("hdmi", "HDMI", Some("DELL U3219Q"), TransportKind::Hdmi)];
    assert_eq!(resolve_active_uid("usb-dac", "DELL U3219Q", &devices), None);
}

#[test]
fn resolve_active_uid_falls_back_to_monitor_in_router_name() {
    let devices = vec![device("dp", "DisplayPort", Some("DELL U3223QE"), TransportKind::DisplayPort)];
    assert_eq!(
        resolve_active_uid("eqMacDriver", "Routed to DELL U3223QE", &devices).as_deref(),
        Some("dp")
    );
    assert_eq!(resolve_active_uid("eqMacDriver", "Routed elsewhere", &devices), None);
}

#[test]
fn builtin_route_labels() {
    assert!(is_builtin_route_label("MacBook Pro Speakers"));
    assert!(is_builtin_route_label("speakers"));
    assert!(is_builtin_route_label("BuiltIn"));
    assert!(!is_builtin_route_label("External Speakers"));
}

#[test]
fn test_parse_audio_display_identity() {
    assert_eq!(
        parse_audio_display_identity("AppleHDAEngineOutputDP:0,1,0,1,0:0:{AC10-A120-30594A4C}"),
        Some(AudioDisplayIdentity { vendor: 0xac10, product: 0xa120, serial: 0x3059_4a4c })
    );
}

#[test]
fn parse_audio_display_identity_rejects_malformed_groups() {
    assert_eq!(parse_audio_display_identity("AppleHDAEngineOutputDP:0,1"), None);
    assert_eq!(parse_audio_display_identity("x:{AC10-A120}"), None);
    assert_eq!(parse_audio_display_identity("x:{AC10-A120-1-2}"), None);
    assert_eq!(parse_audio_display_identity("x:{1AC10-A120-1}"), None);
    assert_eq!(parse_audio_display_identity("x:{AC10-A120-1"), None);
    assert_eq!(
        parse_audio_display_identity("x:{ac10-+a120-0}"),
        Some(AudioDisplayIdentity { vendor: 0xac10, product: 0xa120, serial: 0 })
    );
}

#[test]
fn test_display_identity_matches_byte_swapped_vendor() {
    let display = DisplayInfo {
        vendor: 0x10ac,
        product: 0xa120,
        serial: 0x3059_4a4c,
        name: Some("DELL U3219Q".into()),
    };
    let identity = AudioDisplayIdentity { vendor: 0xac10, product: 0xa120, serial: 0x3059_4a4c };
    assert!(display_matches_audio_identity(&display, identity));
}

#[test]
fn test_display_identity_rejects_different_product() {
    let display = DisplayInfo {
        vendor: 0x10ac,
        product: 0x4273,
        serial: 0x424d_414c,
        name: Some("DELL U3223QE".into()),
    };
    let identity = AudioDisplayIdentity { vendor: 0xac10, product: 0xa120, serial: 0x3059_4a4c };
    assert!(!display_matches_audio_identity(&display, identity));
}

#[test]
fn display_vendor_uses_low_half_only() {
    assert!(display_vendor_matches_audio(0x5555_ac10, 0xac10));
    assert!(display_vendor_matches_audio(0x10ac, 0xac10));
    assert!(!display_vendor_matches_audio(0x10ad, 0xac10));
}

#[test]
fn test_preferred_output_name_keeps_generic_when_not_alive() {
    assert_eq!(
        preferred_output_name(
            "AppleHDAEngineOutputDP:0,1,0,1,0:0:{AC10-A120-30594A4C}",
            "HDMI",
            TransportKind::Hdmi,
            false,
            &[],
        ),
        "HDMI"
    );
}

#[test]
fn preferred_output_name_uses_matching_online_display() {
    let displays = vec![
        DisplayInfo { vendor: 0x10ac, product: 0x4273, serial: 0, name: Some("DELL U3223QE".into()) },
        DisplayInfo { vendor: 0x10ac, product: 0xa120, serial: 0, name: Some("DELL U3219Q".into()) },
    ];
    let uid = "AppleHDAEngineOutputDP:0,1,0,1,0:0:{AC10-A120-30594A4C}";
    assert_eq!(preferred_output_name(uid, "HDMI", TransportKind::Hdmi, true, &displays), "DELL U3219Q");
    assert_eq!(preferred_output_name(uid, "AirPods", TransportKind::Bluetooth, true, &displays), "AirPods");
    assert_eq!(connected_display_name_for_audio_uid("no-identity", &displays), None);
}

use rusty_jack::display::{
    monitor_name_for_audio_uid, monitors_from_profiler, normalize_hex, parse_apple_engine_uid,
    uid_vendor_to_profiler_format, MonitorEntry, ProfilerDisplay,
};

#[test]
fn test_parse_apple_hda_uid() {
    let (v, p, s) =
        parse_apple_engine_uid("AppleHDAEngineOutputDP:0,1,0,1,0:0:{AC10-A120-30594A4C}").unwrap();
    assert_eq!(v, "ac10");
    assert_eq!(p, "a120");
    assert_eq!(s, "30594a4c");
    assert_eq!(uid_vendor_to_profiler_format(&v), "10ac");
}

#[test]
fn test_match_monitor_from_sample() {
    let uid = "AppleHDAEngineOutputDP:0,1,0,1,0:0:{AC10-A120-30594A4C}";
    let (v, p, s) = parse_apple_engine_uid(uid).unwrap();
    assert_eq!(uid_vendor_to_profiler_format(&v), "10ac");
    assert_eq!(p, "a120");
    assert_eq!(s, "30594a4c");
}

#[test]
fn parse_apple_engine_uid_edge_cases() {
    assert_eq!(parse_apple_engine_uid("{AC10-A120}"), None);
    assert_eq!(parse_apple_engine_uid("x:{AC10--1}"), None);
    assert_eq!(parse_apple_engine_uid("x:AC10-A120-1"), None);
    let (v, p, s) = parse_apple_engine_uid("{ AC10 -A120-1-extra}").unwrap();
    assert_eq!((v.as_str(), p.as_str(), s.as_str()), ("ac10", "a120", "1"));
}

#[test]
fn profiler_vendor_format_swaps_only_four_byte_ids() {
    assert_eq!(uid_vendor_to_profiler_format(" AC10 "), "10ac");
    assert_eq!(uid_vendor_to_profiler_format("abc"), "abc");
    assert_eq!(uid_vendor_to_profiler_format("ABCDE"), "abcde");
    assert_eq!(uid_vendor_to_profiler_format("éé"), "éé");
    assert_eq!(uid_vendor_to_profiler_format("abé"), "éab");
    assert_eq!(normalize_hex("  10AC\n"), "10ac");
}

fn entry(name: &str, vendor: &str, product: &str, serial: Option<&str>) -> MonitorEntry {
    MonitorEntry {
        name: name.into(),
        vendor_id: vendor.into(),
        product_id: product.into(),
        serial_number: serial.map(str::to_string),
    }
}

#[test]
fn monitor_name_prefers_serial_match_then_model() {
    let uid = "AppleHDAEngineOutputDP:0,1,0,1,0:0:{AC10-A120-30594A4C}";
    let monitors = vec![
        entry("Other serial", "10ac", "a120", Some("deadbeef")),
        entry("Exact", "10ac", "a120", Some("30594a4c")),
    ];
    assert_eq!(monitor_name_for_audio_uid(uid, &monitors).as_deref(), Some("Exact"));
    let monitors = vec![entry("Only model", "10ac", "a120", Some("deadbeef"))];
    assert_eq!(monitor_name_for_audio_uid(uid, &monitors).as_deref(), Some("Only model"));
    let monitors = vec![entry("No serial", "10ac", "a120", None)];
    assert_eq!(monitor_name_for_audio_uid(uid, &monitors).as_deref(), Some("No serial"));
    let monitors = vec![entry("Different", "10ac", "4273", None)];
    assert_eq!(monitor_name_for_audio_uid(uid, &monitors), None);
    assert_eq!(monitor_name_for_audio_uid("BuiltInSpeakerDevice", &monitors), None);
}

#[test]
fn monitors_from_profiler_keeps_complete_entries() {
    let gpus = vec![
        vec![
            ProfilerDisplay {
                name: Some("DELL U3219Q".into()),
                vendor_id: Some(" 10AC ".into()),
                product_id: Some("A120".into()),
                serial_number: Some("30594A4C".into()),
            },
            ProfilerDisplay {
                name: None,
                vendor_id: Some("10ac".into()),
                product_id: Some("a120".into()),
                serial_number: None,
            },
        ],
        vec![],
        vec![ProfilerDisplay {
            name: Some("DELL U3223QE".into()),
            vendor_id: Some("10ac".into()),
            product_id: Some("4273".into()),
            serial_number: None,
        }],
    ];
    let monitors = monitors_from_profiler(&gpus);
    assert_eq!(monitors.len(), 2);
    assert_eq!(monitors[0].name, "DELL U3219Q");
    assert_eq!(monitors[0].vendor_id, "10ac");
    assert_eq!(monitors[0].product_id, "a120");
    assert_eq!(monitors[0].serial_number.as_deref(), Some("30594a4c"));
    assert_eq!(monitors[1].name, "DELL U3223QE");
    assert_eq!(monitors[1].serial_number, None);
}
