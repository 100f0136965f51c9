use rusty_jack::hal_plugin::{driver_bundle_info, match_hal_driver, DriverPlist, PlistValue};
use rusty_jack::system_default::HalDriverInfo;

fn driver(name: &str, bundle_id: &str) -> HalDriverInfo {
    HalDriverInfo {
        name: name.into(),
        bundle_id: bundle_id.into(),
        version: None,
        stage: None,
        install_path: format!("/Library/Audio/Plug-Ins/HAL/{name}.driver"),
    }
}

fn installed() -> Vec<HalDriverInfo> {
    vec![
        driver("BlackHole 2ch", "audio.existential.BlackHole2ch"),
        driver("eqMac", "com.bitgapp.eqmac.driver"),
        driver("ZoomAudioDevice", "zoom.us.ZoomAudioDevice"),
    ]
}

#[test]
fn test_match_eqmac_driver_by_uid() {
    let drivers = installed();
    let driver =
        match_hal_driver("EQMOutputCapture", "DELL U3219Q (eqMac)", Some("Bitgapp Ltd"), None, &drivers);
    assert!(driver.is_some(), "expected eqMac driver on this machine");
    assert_eq!(driver.unwrap().bundle_id, "com.bitgapp.eqmac.driver");
}

#[test]
fn match_hal_driver_prefers_plugin_bundle_id() {
    let drivers = installed();
    let d = match_hal_driver("EQMOutputCapture", "x", None, Some("zoom.us.ZoomAudioDevice"), &drivers)
        .unwrap();
    assert_eq!(d.name, "ZoomAudioDevice");
    // An unknown bundle id falls through to the family rules.
    let d = match_hal_driver("EQMOutputCapture", "x", None, Some("missing"), &drivers).unwrap();
    assert_eq!(d.name, "eqMac");
}

#[test]
fn match_hal_driver_families() {
    let drivers = installed();
    assert_eq!(
        match_hal_driver("BlackHole2ch_UID", "BlackHole 2ch", None, None, &drivers).unwrap().name,
        "BlackHole 2ch"
    );
    assert_eq!(
        match_hal_driver("zoom.us.device", "Zoom", None, None, &drivers).unwrap().name,
        "ZoomAudioDevice"
    );
    assert!(match_hal_driver("usb-dac", "USB DAC", None, None, &drivers).is_none());
    assert!(match_hal_driver("EQMOutputCapture", "x", None, None, &[]).is_none());
}

#[test]
fn driver_bundle_info_name_and_version_fallbacks() {
    let plist = DriverPlist {
        bundle_identifier: PlistValue::Text("com.example.driver".into()),
        bundle_name: PlistValue::Missing,
        bundle_display_name: PlistValue::Text("Example".into()),
        short_version: PlistValue::Missing,
        bundle_version: PlistValue::Text("42".into()),
    };
    let info = driver_bundle_info(&plist, "/x/Example.driver").unwrap();
    assert_eq!(info.name, "Example");
    assert_eq!(info.version.as_deref(), Some("42"));
    assert_eq!(info.install_path, "/x/Example.driver");

    // A present but non-string name does not fall through to the display name.
    let plist = DriverPlist {
        bundle_identifier: PlistValue::Text("com.example.driver".into()),
        bundle_name: PlistValue::Other,
        bundle_display_name: PlistValue::Text("Example".into()),
        short_version: PlistValue::Text("1.2".into()),
        bundle_version: PlistValue::Text("42".into()),
    };
    let info = driver_bundle_info(&plist, "/x").unwrap();
    assert_eq!(info.name, "com.example.driver");
    assert_eq!(info.version.as_deref(), Some("1.2"));

    let plist = DriverPlist {
        bundle_identifier: PlistValue::Other,
        bundle_name: PlistValue::Missing,
        bundle_display_name: PlistValue::Missing,
        short_version: PlistValue::Missing,
        bundle_version: PlistValue::Missing,
    };
    assert!(driver_bundle_info(&plist, "/x").is_none());
}
