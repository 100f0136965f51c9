use rusty_jack::native_driver::{
    bundle_unavailable_message, eqmac_restore_backup_info, install_bundled_native_driver,
    install_bundled_native_driver_to_system_hal, install_for_connected_hdmi_displayport,
    install_result_lines, native_driver_candidates, native_driver_install_path, plan_swap_in,
    remove_native_driver_if_installed, restore_eqmac_hal_driver, swap_in_for_testing,
    swap_out_for_testing, uninstall_if_installed, uninstall_prompt, upgrade_if_materially_changed,
    upgrade_result_lines, validate_driver_source, DriverOnDisk, DriverSwapInResult,
    DriverSwapOutResult, EqMacHalRestoreResult, NativeDriverInstallResult,
    NativeDriverUninstallResult, NativeDriverUpgradeResult, SwapInEqMacAction,
    NATIVE_DRIVER_USER_INSTALL_OFFERED,
};
use rusty_jack::output_device::OutputDevice;
use rusty_jack::system_default::HalDriverInfo;
use rusty_jack::transport::TransportKind;
use rusty_jack::RustyJackError;
use std::cell::RefCell;

const BUNDLE_ID: &str = "com.the-hcma.rusty-jack.driver";
const SOURCE: &str = "/opt/homebrew/share/rusty-jack/RustyJack.driver";

fn driver(path: &str, version: Option<&str>) -> HalDriverInfo {
    HalDriverInfo {
        name: "Rusty Jack".into(),
        bundle_id: BUNDLE_ID.into(),
        version: version.map(str::to_string),
        stage: None,
        install_path: path.into(),
    }
}

fn hdmi() -> OutputDevice {
    OutputDevice {
        id: 1,
        uid: "hdmi-1".into(),
        name: "HDMI".into(),
        transport: TransportKind::Hdmi,
        is_alive: true,
        is_default: true,
        is_active: true,
        monitor_name: None,
    }
}

fn never_bool() -> Result<bool, RustyJackError> {
    panic!("not expected to run")
}

fn never_unit() -> Result<(), RustyJackError> {
    panic!("not expected to run")
}

fn ok_unit() -> Result<(), RustyJackError> {
    Ok(())
}

#[test]
fn test_swap_in_eqmac_state_plan() {
    assert_eq!(plan_swap_in(true, false), SwapInEqMacAction::BackUpSystemDriver);
    assert_eq!(plan_swap_in(false, true), SwapInEqMacAction::AlreadyBackedUp);
    assert_eq!(plan_swap_in(false, false), SwapInEqMacAction::NoEqMacDriver);
    assert_eq!(plan_swap_in(true, true), SwapInEqMacAction::Conflict);
}

#[test]
fn user_install_paths_and_messages() {
    assert_eq!(
        native_driver_install_path(Some("/Users/a")).as_deref(),
        Some("/Users/a/Library/Audio/Plug-Ins/HAL/RustyJack.driver")
    );
    assert_eq!(native_driver_install_path(None), None);
    assert_eq!(
        native_driver_candidates(Some("/Users/a")),
        vec![
            "/Library/Audio/Plug-Ins/HAL/RustyJack.driver".to_string(),
            "/Users/a/Library/Audio/Plug-Ins/HAL/RustyJack.driver".to_string()
        ]
    );
    assert_eq!(native_driver_candidates(Some("/")), vec!["/Library/Audio/Plug-Ins/HAL/RustyJack.driver".to_string()]);
    assert!(bundle_unavailable_message().contains("RUSTY_JACK_DRIVER_BUNDLE"));
    assert_eq!(
        uninstall_prompt("/Users/a/Library/Audio/Plug-Ins/HAL/RustyJack.driver", Some("/Users/a")),
        "Remove Rusty Jack native audio driver at /Users/a/Library/Audio/Plug-Ins/HAL/RustyJack.driver? user-scope HAL driver; no sudo required."
    );
}

#[test]
fn validate_driver_source_checks_name_and_bundle_id() {
    let good = driver(SOURCE, Some("1"));
    assert!(validate_driver_source(SOURCE, Some("RustyJack.driver"), Some(&good)).is_ok());
    match validate_driver_source("/x/Other.driver", Some("Other.driver"), Some(&good)) {
        Err(RustyJackError::Config(m)) => assert_eq!(m, "driver source must be named RustyJack.driver: /x/Other.driver"),
        other => panic!("{other:?}"),
    }
    let mut wrong = good;
    wrong.bundle_id = "com.example".into();
    match validate_driver_source(SOURCE, Some("RustyJack.driver"), Some(&wrong)) {
        Err(RustyJackError::Config(m)) => {
            assert_eq!(m, format!("driver bundle id com.example does not match expected {BUNDLE_ID}"))
        }
        other => panic!("{other:?}"),
    }
    assert!(matches!(validate_driver_source(SOURCE, Some("RustyJack.driver"), None), Err(RustyJackError::Config(_))));
}

#[test]
fn install_for_connected_outputs_respects_policy() {
    assert!(!NATIVE_DRIVER_USER_INSTALL_OFFERED);
    let r = install_for_connected_hdmi_displayport(&[], &[], true, Some(SOURCE), None, None, true, never_bool, never_unit);
    assert!(matches!(r, Ok(NativeDriverInstallResult::NotNeededNoHdmiDisplayPort)));
    let installed = vec![driver("/Users/a/Library/Audio/Plug-Ins/HAL/RustyJack.driver", Some("1.0"))];
    let r = install_for_connected_hdmi_displayport(&[hdmi()], &installed, true, Some(SOURCE), None, None, true, never_bool, never_unit);
    assert!(matches!(r, Ok(NativeDriverInstallResult::AlreadyInstalled { version: Some(v), .. }) if v == "1.0"));
    let r = install_for_connected_hdmi_displayport(&[hdmi()], &[], false, Some(SOURCE), None, None, true, never_bool, never_unit);
    assert!(matches!(r, Ok(NativeDriverInstallResult::NotOffered)));
    let r = install_for_connected_hdmi_displayport(&[hdmi()], &[], true, None, None, None, true, never_bool, never_unit);
    assert!(matches!(r, Ok(NativeDriverInstallResult::BundleUnavailable { .. })));
    let r = install_for_connected_hdmi_displayport(&[hdmi()], &[], true, Some(SOURCE), None, None, false, never_bool, never_unit);
    assert!(matches!(r, Ok(NativeDriverInstallResult::Skipped { .. })));
    let r = install_for_connected_hdmi_displayport(&[hdmi()], &[], true, Some(SOURCE), None, None, true, || Ok(false), never_unit);
    assert!(matches!(r, Ok(NativeDriverInstallResult::Skipped { reason }) if reason == "user declined native driver install"));
    let info = driver(SOURCE, Some("2.0"));
    let r = install_for_connected_hdmi_displayport(&[hdmi()], &[], true, Some(SOURCE), Some(&info), Some("/Users/a/x.driver"), true, || Ok(true), ok_unit);
    match r {
        Ok(NativeDriverInstallResult::Installed { source_path, install_path, version }) => {
            assert_eq!(source_path, SOURCE);
            assert_eq!(install_path, "/Users/a/x.driver");
            assert_eq!(version.as_deref(), Some("2.0"));
        }
        other => panic!("{other:?}"),
    }
    let r = install_for_connected_hdmi_displayport(&[hdmi()], &[], true, Some(SOURCE), Some(&info), None, true, || Ok(true), never_unit);
    assert!(matches!(r, Err(RustyJackError::Config(m)) if m.contains("HOME is not set")));
}

#[test]
fn uninstall_and_upgrade_flows() {
    let installed = vec![driver("/Users/a/Library/Audio/Plug-Ins/HAL/RustyJack.driver", Some("1.0"))];
    assert!(matches!(uninstall_if_installed(&[], true, never_bool, never_unit), Ok(NativeDriverUninstallResult::NotInstalled)));
    assert!(matches!(uninstall_if_installed(&installed, false, never_bool, never_unit), Ok(NativeDriverUninstallResult::Skipped { .. })));
    assert!(matches!(uninstall_if_installed(&installed, true, || Ok(true), ok_unit), Ok(NativeDriverUninstallResult::Removed { version: Some(_), .. })));

    let same = driver(SOURCE, Some("1.0"));
    let newer = driver(SOURCE, Some("1.1"));
    let r = upgrade_if_materially_changed(&installed, Some(SOURCE), Some(&same), true, true, || Ok(false), never_bool, never_unit);
    assert!(matches!(r, Ok(NativeDriverUpgradeResult::UpToDate { .. })));
    let r = upgrade_if_materially_changed(&installed, Some(SOURCE), Some(&newer), false, true, never_bool, never_bool, never_unit);
    assert!(matches!(r, Ok(NativeDriverUpgradeResult::UpToDate { .. })));
    let r = upgrade_if_materially_changed(&installed, Some(SOURCE), Some(&newer), true, true, never_bool, || Ok(true), ok_unit);
    match r {
        Ok(NativeDriverUpgradeResult::Upgraded { from_version, to_version, .. }) => {
            assert_eq!(from_version.as_deref(), Some("1.0"));
            assert_eq!(to_version.as_deref(), Some("1.1"));
        }
        other => panic!("{other:?}"),
    }
    let r = upgrade_if_materially_changed(&installed, None, None, true, true, never_bool, never_bool, never_unit);
    assert!(matches!(r, Ok(NativeDriverUpgradeResult::BundleUnavailable { .. })));
    let lines = upgrade_result_lines(
        &NativeDriverUpgradeResult::Upgraded {
            source_path: SOURCE.into(),
            install_path: "/p".into(),
            from_version: None,
            to_version: Some("2".into()),
        },
        None,
    );
    assert_eq!(lines, vec!["Upgraded Rusty Jack native audio driver", "  version: (unknown) -> 2", "  path:    /p"]);
}

#[test]
fn bundled_installs_skip_unchanged_drivers() {
    let system = vec![driver("/Library/Audio/Plug-Ins/HAL/RustyJack.driver", Some("1.0"))];
    let same = driver(SOURCE, Some("1.0"));
    let r = install_bundled_native_driver_to_system_hal(&system, Some(SOURCE), Some(&same), || Ok(false), never_unit, never_unit);
    assert!(matches!(r, Ok(NativeDriverInstallResult::AlreadyInstalled { .. })));
    let user = vec![driver("/Users/a/Library/Audio/Plug-Ins/HAL/RustyJack.driver", Some("1.0"))];
    let r = install_bundled_native_driver_to_system_hal(&user, Some(SOURCE), Some(&same), never_bool, ok_unit, ok_unit);
    assert!(matches!(r, Ok(NativeDriverInstallResult::Installed { install_path, .. }) if install_path == "/Library/Audio/Plug-Ins/HAL/RustyJack.driver"));
    let r = install_bundled_native_driver(&user, Some(SOURCE), Some(&same), Some("/Users/a/x"), || Ok(true), ok_unit);
    assert!(matches!(r, Ok(NativeDriverInstallResult::Installed { .. })));
    let r = install_bundled_native_driver(&[], Some(SOURCE), Some(&same), None, never_bool, never_unit);
    assert!(matches!(r, Err(RustyJackError::Config(_))));
    let lines = install_result_lines(
        &NativeDriverInstallResult::AlreadyInstalled { install_path: "/Library/Audio/Plug-Ins/HAL/RustyJack.driver".into(), version: Some("1.0".into()) },
        None,
    );
    assert_eq!(
        lines,
        vec![
            "Rusty Jack native audio driver already installed",
            "  path:    /Library/Audio/Plug-Ins/HAL/RustyJack.driver",
            "  scope:   system-scope HAL driver; sudo may be required",
            "  version: 1.0",
        ]
    );
}

#[test]
fn remove_native_driver_removes_every_copy() {
    assert!(matches!(remove_native_driver_if_installed(&[], |_| Ok(())), Ok(NativeDriverUninstallResult::NotInstalled)));
    let found = vec![
        DriverOnDisk { path: "/Library/Audio/Plug-Ins/HAL/RustyJack.driver".into(), version: Some("1".into()) },
        DriverOnDisk { path: "/Users/a/Library/Audio/Plug-Ins/HAL/RustyJack.driver".into(), version: None },
    ];
    let removed = RefCell::new(Vec::new());
    let r = remove_native_driver_if_installed(&found, |i| {
        removed.borrow_mut().push(i);
        Ok(())
    });
    assert_eq!(*removed.borrow(), vec![0, 1]);
    assert!(matches!(r, Ok(NativeDriverUninstallResult::Removed { install_path, version: None }) if install_path.starts_with("/Users")));
    let r = remove_native_driver_if_installed(&found, |_| Err(RustyJackError::Io("denied".into())));
    assert!(matches!(r, Err(RustyJackError::Io(_))));
}

#[test]
fn swap_in_and_out_decisions() {
    let r = swap_in_for_testing(true, Some("/b"), true, None, true, true, never_bool, || Ok(None), || Ok(NativeDriverInstallResult::NotOffered));
    assert!(matches!(r, Ok(DriverSwapInResult::Skipped { command: None, reason }) if reason.contains("inspect before swapping")));
    let r = swap_in_for_testing(true, Some("/b"), false, None, false, false, never_bool, || Ok(None), || Ok(NativeDriverInstallResult::NotOffered));
    assert!(matches!(r, Ok(DriverSwapInResult::Skipped { command: Some(_), .. })));
    let r = swap_in_for_testing(false, Some("/b"), false, None, false, false, never_bool, || Ok(None), || Ok(NativeDriverInstallResult::NotOffered));
    assert!(matches!(r, Ok(DriverSwapInResult::SwappedIn { eqmac_backup: None, .. })));
    let r = swap_in_for_testing(false, None, false, None, false, false, never_bool, || Ok(None), || Ok(NativeDriverInstallResult::NotOffered));
    assert!(matches!(r, Err(RustyJackError::Config(_))));

    let r = swap_out_for_testing(true, false, false, None, never_bool, || Ok(NativeDriverUninstallResult::NotInstalled), |_| Ok(EqMacHalRestoreResult::NotNeeded));
    assert!(matches!(r, Ok(DriverSwapOutResult::Skipped { command: Some(_), .. })));
    let r = swap_out_for_testing(false, false, false, None, never_bool, || Ok(NativeDriverUninstallResult::NotInstalled), |_| Ok(EqMacHalRestoreResult::NotNeeded));
    assert!(matches!(r, Ok(DriverSwapOutResult::UpToDate { .. })));
    let r = swap_out_for_testing(
        true,
        true,
        false,
        Some("/Users/a/backup/eqMac.driver"),
        never_bool,
        || Ok(NativeDriverUninstallResult::NotInstalled),
        |allow| {
            assert!(allow);
            Ok(EqMacHalRestoreResult::RestoredFromBackup { install_path: "/Library/Audio/Plug-Ins/HAL/eqMac.driver".into(), version: None })
        },
    );
    match r {
        Ok(DriverSwapOutResult::SwappedOut { restored_eqmac: Some(info), .. }) => {
            assert_eq!(info.backup_path, "/Users/a/backup/eqMac.driver");
        }
        other => panic!("{other:?}"),
    }
}

#[test]
fn restore_eqmac_paths() {
    let r = restore_eqmac_hal_driver(false, false, false, None, false, false, None, false,
        || Ok(NativeDriverUninstallResult::NotInstalled), never_unit, never_unit, never_unit, never_unit, || None, never_unit);
    assert!(matches!(r, Ok(EqMacHalRestoreResult::NotNeeded)));
    let r = restore_eqmac_hal_driver(true, false, true, None, true, true, None, true,
        || Ok(NativeDriverUninstallResult::NotInstalled), never_unit, never_unit, never_unit, never_unit, || None, never_unit);
    assert!(matches!(r, Err(RustyJackError::Config(m)) if m.contains("requires sudo")));
    let steps = RefCell::new(Vec::new());
    let r = restore_eqmac_hal_driver(true, true, true, Some("2.1".into()), true, true, None, true,
        || Ok(NativeDriverUninstallResult::NotInstalled),
        || { steps.borrow_mut().push("rm"); Ok(()) },
        || { steps.borrow_mut().push("restore"); Ok(()) },
        || { steps.borrow_mut().push("forget"); Ok(()) },
        never_unit,
        || None,
        || { steps.borrow_mut().push("restart"); Ok(()) });
    assert_eq!(*steps.borrow(), vec!["rm", "restore", "forget", "restart"]);
    assert!(matches!(r, Ok(EqMacHalRestoreResult::RestoredFromBackup { version: Some(v), .. }) if v == "2.1"));
    let r = restore_eqmac_hal_driver(true, true, false, None, false, false, None, false,
        || Ok(NativeDriverUninstallResult::NotInstalled), never_unit, never_unit, never_unit, never_unit, || None, never_unit);
    assert!(matches!(r, Err(RustyJackError::Config(m)) if m.contains("no managed backup or embedded copy")));
    let r = restore_eqmac_hal_driver(true, true, false, None, false, false, None, true,
        || Ok(NativeDriverUninstallResult::NotInstalled), never_unit, never_unit, never_unit, ok_unit, || Some("3".into()), ok_unit);
    assert!(matches!(r, Ok(EqMacHalRestoreResult::ReinstalledFromAppBundle { version: Some(v), .. }) if v == "3"));
    let info = eqmac_restore_backup_info(&EqMacHalRestoreResult::ReinstalledFromAppBundle {
        install_path: "/Library/Audio/Plug-Ins/HAL/eqMac.driver".into(),
        source_path: "x".into(),
        version: None,
    }, None).unwrap();
    assert_eq!(info.backup_path, "/Applications/eqMac.app/Contents/Resources/Embedded/eqMac.driver");
}
