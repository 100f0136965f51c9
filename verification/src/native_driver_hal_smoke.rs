//! Hardware smoke checks for the native HAL driver.
//!
//! `RUSTY_JACK_HAL_DRIVER_SMOKE=1` opts into moving HAL plug-ins without
//! prompts. The probes (device listing, bundle lookup, ring open) and the
//! waiting are the caller's; the decisions and the smoke configuration are here.
use crate::config::{Config, DeviceSelectorConfig};
use crate::error::RustyJackError;
use crate::native_driver::{DriverSwapInResult, NativeDriverInstallResult};
use crate::output_device::{first_where, lemma_first_where, lemma_first_where_at, OutputDevice};
use crate::passthrough::RUSTY_JACK_VIRTUAL_OUTPUT_UID;
use crate::text::{concat2, concat3, owned, str_eq, u64_to_text};
use crate::transport::TransportKind;
use vstd::prelude::*;

verus! {

/// Environment variable that opts into mutating HAL plugins without prompts.
pub const HAL_DRIVER_SMOKE_ENV: &'static str = "RUSTY_JACK_HAL_DRIVER_SMOKE";

/// How often and how long to wait for the virtual output to appear.
pub const VIRTUAL_OUTPUT_POLL_INTERVAL_MS: u64 = 500;
pub const VIRTUAL_OUTPUT_DEFAULT_TIMEOUT_MS: u64 = 20000;

/// The smoke variable is set to `1`, `true` or `yes`.
pub fn hal_driver_smoke_enabled(value: Option<&str>) -> (r: bool)
    ensures
        r == (value matches Some(v) && (v@ == "1"@ || v@ == "true"@ || v@ == "yes"@)),
{
    match value {
        Some(v) => str_eq(v, "1") || str_eq(v, "true") || str_eq(v, "yes"),
        None => false,
    }
}

/// Interactive CLI or HAL smoke env allows sudo HAL moves without a dialog.
pub fn system_driver_moves_allowed(interactive: bool, smoke_enabled: bool) -> (r: bool)
    ensures
        r == (interactive || smoke_enabled),
{
    interactive || smoke_enabled
}

pub open spec fn spec_virtual_listed(devices: Seq<OutputDevice>) -> bool {
    exists|i: int| 0 <= i < devices.len() && (#[trigger] devices[i]).uid@ == RUSTY_JACK_VIRTUAL_OUTPUT_UID@
}

/// Whether CoreAudio currently lists the Rusty Jack virtual output UID.
pub fn virtual_output_listed(devices: &[OutputDevice]) -> (r: bool)
    ensures
        r == spec_virtual_listed(devices@),
{
    let mut i: usize = 0;
    while i < devices.len()
        invariant
            i <= devices@.len(),
            forall|j: int| 0 <= j < i ==> (#[trigger] devices@[j]).uid@ != RUSTY_JACK_VIRTUAL_OUTPUT_UID@,
        decreases devices@.len() - i,
    {
        if str_eq(devices[i].uid.as_str(), RUSTY_JACK_VIRTUAL_OUTPUT_UID) {
            return true;
        }
        i = i + 1;
    }
    false
}

pub open spec fn spec_missing_hint(helper_running: bool) -> Seq<char> {
    "Check Console for `amfid: ... RustyJack ... signature not valid: -67050` (adhoc-signed drivers are often rejected)."@
        + " "@ + "Production builds need a Developer ID\u{2013}signed RustyJack.driver."@ + " "@ + if helper_running {
        "CoreAudio spawned `Core Audio Driver (RustyJack.driver)` but did not publish the virtual device \u{2014} signing or driver registration is the likely blocker."@
    } else {
        "No `Core Audio Driver (RustyJack.driver)` helper process \u{2014} coreaudiod may not have loaded the bundle."@
    }
}

/// The process name to look for when the virtual output does not appear.
pub const DRIVER_HELPER_NEEDLE: &'static str = "Core Audio Driver (RustyJack.driver)";

/// What to check when the virtual output never appeared, depending on
/// whether CoreAudio's driver helper process is running.
pub fn missing_virtual_output_hint(helper_running: bool) -> (r: String)
    ensures
        r@ == spec_missing_hint(helper_running),
{
    let a = concat3(
        "Check Console for `amfid: ... RustyJack ... signature not valid: -67050` (adhoc-signed drivers are often rejected).",
        " ",
        "Production builds need a Developer ID\u{2013}signed RustyJack.driver.",
    );
    let last = if helper_running {
        "CoreAudio spawned `Core Audio Driver (RustyJack.driver)` but did not publish the virtual device \u{2014} signing or driver registration is the likely blocker."
    } else {
        "No `Core Audio Driver (RustyJack.driver)` helper process \u{2014} coreaudiod may not have loaded the bundle."
    };
    concat3(a.as_str(), " ", last)
}

/// One poll while waiting for the virtual output.
#[derive(Debug)]
pub enum VirtualOutputWait {
    Found,
    KeepWaiting,
    TimedOut(RustyJackError),
}

/// Decide after a poll: found when listed, else time out once the deadline has
/// passed (`timeout_secs` and the hint go into the error), else keep waiting.
pub fn virtual_output_wait_step(
    devices: &[OutputDevice],
    deadline_passed: bool,
    timeout_secs: u64,
    helper_running: bool,
) -> (r: VirtualOutputWait)
    ensures
        spec_virtual_listed(devices@) ==> r is Found,
        !spec_virtual_listed(devices@) && !deadline_passed ==> r is KeepWaiting,
        !spec_virtual_listed(devices@) && deadline_passed ==> (r matches VirtualOutputWait::TimedOut(
            RustyJackError::Config(m),
        ) && m@ == "timed out after "@ + crate::text::decimal(timeout_secs as nat)
            + "s waiting for CoreAudio virtual output "@ + RUSTY_JACK_VIRTUAL_OUTPUT_UID@ + ". "@
            + spec_missing_hint(helper_running)),
{
    if virtual_output_listed(devices) {
        return VirtualOutputWait::Found;
    }
    if !deadline_passed {
        return VirtualOutputWait::KeepWaiting;
    }
    let secs = u64_to_text(timeout_secs);
    let a = concat3("timed out after ", secs.as_str(), "s waiting for CoreAudio virtual output ");
    let b = concat3(a.as_str(), RUSTY_JACK_VIRTUAL_OUTPUT_UID, ". ");
    let hint = missing_virtual_output_hint(helper_running);
    VirtualOutputWait::TimedOut(RustyJackError::Config(concat2(b.as_str(), hint.as_str())))
}

pub open spec fn smoke_target_pred() -> spec_fn(OutputDevice) -> bool {
    |d: OutputDevice|
        d.is_alive && d.spec_selectable() && (d.transport == TransportKind::Hdmi || d.transport
            == TransportKind::DisplayPort)
}

/// Minimal config targeting the first alive HDMI/DisplayPort output.
pub fn smoke_config_for_hdmi(devices: &[OutputDevice]) -> (r: Result<Config, RustyJackError>)
    ensures
        match first_where(devices@, smoke_target_pred()) {
            None => r matches Err(RustyJackError::Config(m)) && m@
                == "no alive HDMI/DisplayPort output for HAL driver smoke test"@,
            Some(k) => r matches Ok(c) && {
                &&& c.preferred_device.uid matches Some(u) && u@ == devices@[k].uid@
                &&& c.preferred_device.name matches Some(n) && n@
                    == devices@[k].spec_friendly_label()
                &&& c.version == 1 && c.auto_switch && c.poll_interval_ms == 2000
                &&& c.switch_delay_ms == 500 && c.activity_idle_threshold_ms == 60000
                &&& c.activity_poll_interval_ms == 1000 && c.activity_monitor@ == "idle"@
                &&& !c.activity_event_tap_include_mouse_move
                &&& c.preferred_device_uid is None && c.fallback_uids@.len() == 0
                &&& c.also_set_system_output && c.volume == Some(25u8)
                &&& c.scalar_webapi_device is None
            },
        },
{
    let ghost p = smoke_target_pred();
    let mut i: usize = 0;
    while i < devices.len()
        invariant
            i <= devices@.len(),
            p == smoke_target_pred(),
            forall|j: int| 0 <= j < i ==> !p(devices@[j]),
        decreases devices@.len() - i,
    {
        let d = &devices[i];
        if d.is_alive && d.is_selectable() && (d.transport == TransportKind::Hdmi || d.transport
            == TransportKind::DisplayPort) {
            proof {
                lemma_first_where_at(devices@, p, i as int);
            }
            return Ok(
                Config {
                    version: 1,
                    auto_switch: true,
                    poll_interval_ms: 2000,
                    switch_delay_ms: 500,
                    activity_idle_threshold_ms: 60000,
                    activity_poll_interval_ms: 1000,
                    activity_monitor: owned("idle"),
                    activity_event_tap_include_mouse_move: false,
                    preferred_device: DeviceSelectorConfig {
                        name: Some(d.friendly_label()),
                        uid: Some(d.uid.clone()),
                    },
                    preferred_device_uid: None,
                    fallback_uids: Vec::new(),
                    also_set_system_output: true,
                    volume: Some(25),
                    scalar_webapi_device: None,
                },
            );
        }
        i = i + 1;
    }
    proof {
        lemma_first_where(devices@, p);
    }
    Err(RustyJackError::Config(owned("no alive HDMI/DisplayPort output for HAL driver smoke test")))
}

/// Snapshot used by smoke tests and agents to see what still blocks passthrough.
#[derive(Debug, Clone, PartialEq, Eq)]
pub struct HalSmokeSnapshot {
    pub bundled_driver_available: bool,
    pub system_rusty_jack_installed: bool,
    pub eqmac_hal_present: bool,
    pub virtual_output_listed: bool,
    pub passthrough_ring_path: String,
    pub passthrough_ring_open_ok: bool,
    pub passthrough_plan_ready: bool,
}

/// Inspect post-install state from what the caller probed: the listed
/// devices, the bundle and plug-in folders, the ring, and whether a
/// passthrough plan (native driver installed) can be built.
pub fn hal_smoke_snapshot(
    devices: &[OutputDevice],
    bundled_driver_available: bool,
    system_rusty_jack_installed: bool,
    eqmac_hal_present: bool,
    passthrough_ring_path: &str,
    passthrough_ring_open_ok: bool,
    passthrough_plan_ready: bool,
) -> (r: HalSmokeSnapshot)
    ensures
        r.bundled_driver_available == bundled_driver_available,
        r.system_rusty_jack_installed == system_rusty_jack_installed,
        r.eqmac_hal_present == eqmac_hal_present,
        r.virtual_output_listed == spec_virtual_listed(devices@),
        r.passthrough_ring_path@ == passthrough_ring_path@,
        r.passthrough_ring_open_ok == passthrough_ring_open_ok,
        r.passthrough_plan_ready == passthrough_plan_ready,
{
    HalSmokeSnapshot {
        bundled_driver_available,
        system_rusty_jack_installed,
        eqmac_hal_present,
        virtual_output_listed: virtual_output_listed(devices),
        passthrough_ring_path: owned(passthrough_ring_path),
        passthrough_ring_open_ok,
        passthrough_plan_ready,
    }
}

/// Swap in for smoke tests: quit eqMac (`quit_eqmac`), then swap in
/// non-interactively (`swap_in`).
pub fn swap_in_hal_smoke<Q, S>(quit_eqmac: Q, swap_in: S) -> (r: Result<DriverSwapInResult, RustyJackError>) where
    Q: FnOnce() -> Result<(), RustyJackError>,
    S: FnOnce() -> Result<DriverSwapInResult, RustyJackError>,

    requires
        call_requires(quit_eqmac, ()),
        call_requires(swap_in, ()),
    ensures
        exists|q: Result<(), RustyJackError>|
            #![trigger call_ensures(quit_eqmac, (), q)]
            call_ensures(quit_eqmac, (), q) && match q {
                Err(e) => r matches Err(e2) && e2 == e,
                Ok(_) => call_ensures(swap_in, (), r),
            },
{
    let ghost fq = quit_eqmac;
    let q = quit_eqmac();
    assert(call_ensures(fq, (), q));
    match q {
        Err(e) => {
            return Err(e);
        },
        Ok(_) => {},
    }
    swap_in()
}

/// Smoke teardown: restore eqMac, then remove Rusty Jack from the HAL folders.
pub fn swap_out_hal_smoke<R, N, A, B>(restore: R, remove: N) -> (r: Result<(), RustyJackError>) where
    R: FnOnce() -> Result<A, RustyJackError>,
    N: FnOnce() -> Result<B, RustyJackError>,

    requires
        call_requires(restore, ()),
        call_requires(remove, ()),
    ensures
        exists|a: Result<A, RustyJackError>|
            #![trigger call_ensures(restore, (), a)]
            call_ensures(restore, (), a) && match a {
                Err(e) => r matches Err(e2) && e2 == e,
                Ok(_) => exists|b: Result<B, RustyJackError>|
                    #![trigger call_ensures(remove, (), b)]
                    call_ensures(remove, (), b) && match b {
                        Err(e) => r matches Err(e2) && e2 == e,
                        Ok(_) => r is Ok,
                    },
            },
{
    let ghost fr = restore;
    let a = restore();
    assert(call_ensures(fr, (), a));
    match a {
        Err(e) => {
            return Err(e);
        },
        Ok(_) => {},
    }
    let ghost fn_ = remove;
    let b = remove();
    assert(call_ensures(fn_, (), b));
    match b {
        Err(e) => Err(e),
        Ok(_) => Ok(()),
    }
}

/// Short description of an install outcome for error messages.
pub open spec fn spec_install_outcome_name(result: NativeDriverInstallResult) -> Seq<char> {
    match result {
        NativeDriverInstallResult::NotNeededNoHdmiDisplayPort => "NotNeededNoHdmiDisplayPort"@,
        NativeDriverInstallResult::NotOffered => "NotOffered"@,
        NativeDriverInstallResult::AlreadyInstalled { .. } => "AlreadyInstalled"@,
        NativeDriverInstallResult::Installed { .. } => "Installed"@,
        NativeDriverInstallResult::Skipped { reason } => "Skipped: "@ + reason@,
        NativeDriverInstallResult::BundleUnavailable { message } => "BundleUnavailable: "@ + message@,
    }
}

fn install_outcome_name(result: &NativeDriverInstallResult) -> (r: String)
    ensures
        r@ == spec_install_outcome_name(*result),
{
    match result {
        NativeDriverInstallResult::NotNeededNoHdmiDisplayPort => owned("NotNeededNoHdmiDisplayPort"),
        NativeDriverInstallResult::NotOffered => owned("NotOffered"),
        NativeDriverInstallResult::AlreadyInstalled { .. } => owned("AlreadyInstalled"),
        NativeDriverInstallResult::Installed { .. } => owned("Installed"),
        NativeDriverInstallResult::Skipped { reason } => concat2("Skipped: ", reason.as_str()),
        NativeDriverInstallResult::BundleUnavailable { message } => concat2(
            "BundleUnavailable: ",
            message.as_str(),
        ),
    }
}

/// A swap-in that left the native driver in place (installed now or before);
/// otherwise the reason as an error.
pub fn check_smoke_swap_in(swap: &DriverSwapInResult) -> (r: Result<(), RustyJackError>)
    ensures
        match swap {
            DriverSwapInResult::SwappedIn { native_driver, .. } => match native_driver {
                NativeDriverInstallResult::Installed { .. } => r is Ok,
                NativeDriverInstallResult::AlreadyInstalled { .. } => r is Ok,
                other => r matches Err(RustyJackError::Config(m)) && m@
                    == "driver swap-in did not install native driver: "@
                    + spec_install_outcome_name(*other),
            },
            DriverSwapInResult::Skipped { reason, .. } => r matches Err(RustyJackError::Config(m))
                && m@ == "driver swap-in skipped: "@ + reason@,
        },
{
    match swap {
        DriverSwapInResult::SwappedIn { native_driver, .. } => match native_driver {
            NativeDriverInstallResult::Installed { .. } => Ok(()),
            NativeDriverInstallResult::AlreadyInstalled { .. } => Ok(()),
            other => {
                let name = install_outcome_name(other);
                Err(
                    RustyJackError::Config(
                        concat2("driver swap-in did not install native driver: ", name.as_str()),
                    ),
                )
            },
        },
        DriverSwapInResult::Skipped { reason, .. } => Err(
            RustyJackError::Config(concat2("driver swap-in skipped: ", reason.as_str())),
        ),
    }
}

/// A snapshot passes when the virtual output is listed, the ring opens and a
/// passthrough plan can be built; otherwise the first missing piece is the
/// error.
pub fn check_smoke_snapshot(snapshot: HalSmokeSnapshot) -> (r: Result<HalSmokeSnapshot, RustyJackError>)
    ensures
        !snapshot.virtual_output_listed ==> (r matches Err(RustyJackError::Config(m)) && m@
            == "Rusty Jack HAL bundle is installed but CoreAudio did not publish the virtual output"@),
        snapshot.virtual_output_listed && !snapshot.passthrough_ring_open_ok ==> (r matches Err(
            RustyJackError::Config(m),
        ) && m@ == "could not open passthrough ring at "@ + snapshot.passthrough_ring_path@),
        snapshot.virtual_output_listed && snapshot.passthrough_ring_open_ok
            && !snapshot.passthrough_plan_ready ==> (r matches Err(RustyJackError::Config(m)) && m@
            == "passthrough plan could not be built; check preferred HDMI/DP target and driver stage"@),
        snapshot.virtual_output_listed && snapshot.passthrough_ring_open_ok
            && snapshot.passthrough_plan_ready ==> r == Ok::<HalSmokeSnapshot, RustyJackError>(
            snapshot,
        ),
{
    if !snapshot.virtual_output_listed {
        return Err(
            RustyJackError::Config(
                owned("Rusty Jack HAL bundle is installed but CoreAudio did not publish the virtual output"),
            ),
        );
    }
    if !snapshot.passthrough_ring_open_ok {
        return Err(
            RustyJackError::Config(
                concat2("could not open passthrough ring at ", snapshot.passthrough_ring_path.as_str()),
            ),
        );
    }
    if !snapshot.passthrough_plan_ready {
        return Err(
            RustyJackError::Config(
                owned(
                    "passthrough plan could not be built; check preferred HDMI/DP target and driver stage",
                ),
            ),
        );
    }
    Ok(snapshot)
}

/// End-to-end HAL smoke: refuse unless opted in and a bundle exists, then
/// swap in (`swap_in`), wait for the virtual output (`wait`), build the smoke
/// config and take a snapshot under it (`snapshot`), and check it.
pub fn run_hal_driver_smoke<S, W, P>(
    smoke_enabled: bool,
    bundled_driver_available: bool,
    swap_in: S,
    wait: W,
    snapshot: P,
) -> (r: Result<HalSmokeSnapshot, RustyJackError>) where
    S: FnOnce() -> Result<DriverSwapInResult, RustyJackError>,
    W: FnOnce() -> Result<Vec<OutputDevice>, RustyJackError>,
    P: FnOnce(&Config) -> Result<HalSmokeSnapshot, RustyJackError>,

    requires
        call_requires(swap_in, ()),
        call_requires(wait, ()),
        forall|c: &Config| call_requires(snapshot, (c,)),
    ensures
        !smoke_enabled ==> (r matches Err(RustyJackError::Config(m)) && m@ == "set "@
            + HAL_DRIVER_SMOKE_ENV@ + "=1 before running HAL driver smoke tests"@),
        smoke_enabled && !bundled_driver_available ==> (r matches Err(RustyJackError::Config(m))
            && m@
            == "bundled RustyJack.driver not found; run `make driver-bundle` or `make install` first"@),
        r matches Ok(s) ==> smoke_enabled && bundled_driver_available && s.virtual_output_listed
            && s.passthrough_ring_open_ok && s.passthrough_plan_ready && (exists|c: &Config|
            #[trigger] call_ensures(snapshot, (c,), Ok::<HalSmokeSnapshot, RustyJackError>(s))),
{
    if !smoke_enabled {
        return Err(
            RustyJackError::Config(
                concat3("set ", HAL_DRIVER_SMOKE_ENV, "=1 before running HAL driver smoke tests"),
            ),
        );
    }
    if !bundled_driver_available {
        return Err(
            RustyJackError::Config(
                owned(
                    "bundled RustyJack.driver not found; run `make driver-bundle` or `make install` first",
                ),
            ),
        );
    }
    let swap = swap_in()?;
    check_smoke_swap_in(&swap)?;
    let devices = wait()?;
    let config = smoke_config_for_hdmi(&devices)?;
    let ghost fp = snapshot;
    let snap = snapshot(&config);
    assert(call_ensures(fp, (&config,), snap));
    match snap {
        Err(e) => Err(e),
        Ok(s) => {
            let checked = check_smoke_snapshot(s);
            match checked {
                Ok(x) => {
                    assert(call_ensures(fp, (&config,), Ok::<HalSmokeSnapshot, RustyJackError>(x)));
                    Ok(x)
                },
                Err(e) => Err(e),
            }
        },
    }
}

} // verus!
