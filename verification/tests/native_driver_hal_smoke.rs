use rusty_jack::native_driver::{DriverSwapInResult, NativeDriverInstallResult};
use rusty_jack::native_driver_hal_smoke::{
    check_smoke_snapshot, check_smoke_swap_in, hal_driver_smoke_enabled, hal_smoke_snapshot,
    missing_virtual_output_hint, run_hal_driver_smoke, smoke_config_for_hdmi, swap_out_hal_smoke,
    system_driver_moves_allowed, virtual_output_listed, virtual_output_wait_step, HalSmokeSnapshot,
    VirtualOutputWait,
};
use rusty_jack::output_device::OutputDevice;
use rusty_jack::passthrough::RUSTY_JACK_VIRTUAL_OUTPUT_UID;
use rusty_jack::transport::TransportKind;
use rusty_jack::RustyJackError;

fn device(uid: &str, transport: TransportKind, alive: bool) -> OutputDevice {
    OutputDevice {
        id: 1,
        uid: uid.into(),
        name: "HDMI".into(),
        transport,
        is_alive: alive,
        is_default: false,
        is_active: false,
        monitor_name: Some("DELL U3219Q".into()),
    }
}

fn ready_snapshot() -> HalSmokeSnapshot {
    HalSmokeSnapshot {
        bundled_driver_available: true,
        system_rusty_jack_installed: true,
        eqmac_hal_present: false,
        virtual_output_listed: true,
        passthrough_ring_path: "/tmp/rusty-jack/ring".into(),
        passthrough_ring_open_ok: true,
        passthrough_plan_ready: true,
    }
}

#[test]
fn test_virtual_output_listed_detects_uid() {
    let devices = vec![OutputDevice {
        id: 1,
        uid: RUSTY_JACK_VIRTUAL_OUTPUT_UID.into(),
        name: "Rusty Jack".into(),
        transport: TransportKind::Virtual,
        is_alive: true,
        is_default: false,
        is_active: false,
        monitor_name: None,
    }];
    assert!(virtual_output_listed(&devices));
    assert!(!virtual_output_listed(&[]));
}

#[test]
fn test_system_driver_moves_allowed_requires_smoke_or_interactive() {
    let smoke = hal_driver_smoke_enabled(None);
    assert!(!system_driver_moves_allowed(false, smoke));
    assert!(system_driver_moves_allowed(true, smoke));
    assert!(system_driver_moves_allowed(false, hal_driver_smoke_enabled(Some("yes"))));
    assert!(!hal_driver_smoke_enabled(Some("0")));
}

#[test]
fn smoke_config_targets_first_live_hdmi() {
    let devices = vec![device("dead", TransportKind::Hdmi, false), device("dp-1", TransportKind::DisplayPort, true)];
    let config = smoke_config_for_hdmi(&devices).unwrap();
    assert_eq!(config.preferred_device.uid.as_deref(), Some("dp-1"));
    assert_eq!(config.preferred_device.name.as_deref(), Some("HDMI (DELL U3219Q)"));
    assert_eq!(config.volume, Some(25));
    assert_eq!(config.poll_interval_ms, 2_000);
    assert!(matches!(smoke_config_for_hdmi(&[device("usb", TransportKind::Usb, true)]), Err(RustyJackError::Config(_))));
}

#[test]
fn wait_step_times_out_with_hint() {
    let listed = vec![device(RUSTY_JACK_VIRTUAL_OUTPUT_UID, TransportKind::Virtual, true)];
    assert!(matches!(virtual_output_wait_step(&listed, true, 20, false), VirtualOutputWait::Found));
    assert!(matches!(virtual_output_wait_step(&[], false, 20, false), VirtualOutputWait::KeepWaiting));
    match virtual_output_wait_step(&[], true, 20, true) {
        VirtualOutputWait::TimedOut(RustyJackError::Config(m)) => {
            assert!(m.starts_with("timed out after 20s waiting for CoreAudio virtual output com.the-hcma.rusty-jack.driver.output. "));
            assert!(m.ends_with(&missing_virtual_output_hint(true)));
        }
        other => panic!("{other:?}"),
    }
    assert!(missing_virtual_output_hint(false).contains("may not have loaded the bundle"));
}

#[test]
fn smoke_checks_and_run() {
    let snap = hal_smoke_snapshot(&[], true, true, false, "/ring", true, true);
    assert!(!snap.virtual_output_listed);
    assert!(matches!(check_smoke_snapshot(snap), Err(RustyJackError::Config(m)) if m.contains("did not publish")));
    let mut bad_ring = ready_snapshot();
    bad_ring.passthrough_ring_open_ok = false;
    assert!(matches!(check_smoke_snapshot(bad_ring), Err(RustyJackError::Config(m)) if m == "could not open passthrough ring at /tmp/rusty-jack/ring"));
    assert_eq!(check_smoke_snapshot(ready_snapshot()).unwrap(), ready_snapshot());

    let skipped = DriverSwapInResult::Skipped { reason: "nope".into(), command: None };
    assert!(matches!(check_smoke_swap_in(&skipped), Err(RustyJackError::Config(m)) if m == "driver swap-in skipped: nope"));
    let not_offered = DriverSwapInResult::SwappedIn { eqmac_backup: None, native_driver: NativeDriverInstallResult::NotOffered };
    assert!(matches!(check_smoke_swap_in(&not_offered), Err(RustyJackError::Config(m)) if m == "driver swap-in did not install native driver: NotOffered"));

    let r = run_hal_driver_smoke(false, true, || panic!("no swap"), || panic!("no wait"), |_| panic!("no snapshot"));
    assert!(matches!(r, Err(RustyJackError::Config(m)) if m == "set RUSTY_JACK_HAL_DRIVER_SMOKE=1 before running HAL driver smoke tests"));
    let r = run_hal_driver_smoke(
        true,
        true,
        || Ok(DriverSwapInResult::SwappedIn {
            eqmac_backup: None,
            native_driver: NativeDriverInstallResult::AlreadyInstalled { install_path: "/p".into(), version: None },
        }),
        || Ok(vec![device("hdmi-1", TransportKind::Hdmi, true)]),
        |config| {
            assert_eq!(config.preferred_device.uid.as_deref(), Some("hdmi-1"));
            Ok(ready_snapshot())
        },
    );
    assert_eq!(r.unwrap(), ready_snapshot());
    assert!(swap_out_hal_smoke(|| Ok::<u8, RustyJackError>(1), || Ok::<u8, RustyJackError>(2)).is_ok());
}
