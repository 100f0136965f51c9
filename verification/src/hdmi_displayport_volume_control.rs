//! HDMI/DisplayPort audio volume control: when a route needs it, which provider
//! (native driver or eqMac) supplies it, and what the status report says.
use crate::eqmac::{EqMacDriverBackupInfo, EqMacEnsureAction, EqMacEnsureResult, EqMacInstallState};
use crate::error::RustyJackError;
use crate::output_device::{find_uid, index_of_uid, lemma_index_of_uid, opt_view, OutputDevice};
use crate::passthrough::PASSTHROUGH_SKELETON_DRIVER_STAGE;
use crate::system_default::HalDriverInfo;
use crate::text::{
    concat2, concat3, contains, lower, opt_str_eq, owned, seq_contains, seq_starts_with,
    starts_with, str_eq, to_lower,
};
use crate::transport::TransportKind;
use vstd::prelude::*;

verus! {

pub const RUSTY_JACK_DRIVER_BUNDLE_ID: &'static str = "com.the-hcma.rusty-jack.driver";

pub const RUSTY_JACK_DRIVER_NAME: &'static str = "Rusty Jack";

/// CoreAudio UID published by the Rusty Jack HAL driver virtual output.
pub const RUSTY_JACK_VIRTUAL_OUTPUT_UID: &'static str = "com.the-hcma.rusty-jack.driver.output";

/// Directory suffix (under a home directory, or at the root) of installed HAL plug-ins.
pub const USER_HAL_SUFFIX: &'static str = "/Library/Audio/Plug-Ins/HAL/";

/// What HDMI/DisplayPort volume-control support did for a selected route.
#[derive(Debug, Clone, Copy, PartialEq, Eq, Structural)]
pub enum HdmiDisplayPortVolumeControlEnsureAction {
    /// Target route is not an HDMI/DisplayPort output.
    NotNeeded,
    /// Rusty Jack's native driver is installed and should own HDMI/DP volume control.
    NativeDriverInstalled,
    /// eqMac is installed and already running as compatibility fallback.
    EqMacAlreadyRunning,
    /// eqMac was launched as compatibility fallback.
    EqMacLaunched,
    /// eqMac was restarted to recover a stale compatibility-fallback route.
    EqMacRestarted,
    /// HDMI/DisplayPort route, but the Rusty Jack native driver is not installed.
    NativeDriverRecommended,
}

/// Outcome of ensuring HDMI/DisplayPort volume control is available.
#[derive(Debug, Clone, Copy, PartialEq, Eq, Structural)]
pub struct HdmiDisplayPortVolumeControlEnsureResult {
    pub action: HdmiDisplayPortVolumeControlEnsureAction,
}

/// Status shown by `status` and `install --json`.
#[derive(Debug)]
pub struct HdmiDisplayPortVolumeControlStatus {
    pub connected_output_present: bool,
    pub native_driver_installed: bool,
    pub native_driver_recommended: bool,
    pub native_driver_recommendation_reason: Option<String>,
    pub native_driver_install_path: Option<String>,
    pub native_driver_scope: Option<String>,
    pub native_driver_stage: Option<String>,
    pub native_driver_warning: Option<String>,
    pub native_driver: Option<HalDriverInfo>,
    pub eqmac_installed: bool,
    pub eqmac_app_path: Option<String>,
    pub eqmac_hal_driver_path: Option<String>,
    pub orphaned_eqmac_hal_driver_path: Option<String>,
    pub eqmac_driver_backup: Option<EqMacDriverBackupInfo>,
    pub recommendation: Option<String>,
}

/// What remains to be done to give a route volume control.
#[derive(Debug, Clone, Copy, PartialEq, Eq, Structural)]
pub enum HdmiDisplayPortVolumeControlStep {
    /// Settled without touching eqMac.
    Done(HdmiDisplayPortVolumeControlEnsureAction),
    /// eqMac is installed and the native driver is not: let eqMac provide it.
    UseEqMac,
}

pub open spec fn spec_is_hdmi_displayport(d: OutputDevice) -> bool {
    d.transport == TransportKind::Hdmi || d.transport == TransportKind::DisplayPort
}

fn is_hdmi_displayport_output(device: &OutputDevice) -> (r: bool)
    ensures
        r == spec_is_hdmi_displayport(*device),
{
    match device.transport {
        TransportKind::Hdmi => true,
        TransportKind::DisplayPort => true,
        _ => false,
    }
}

/// The first device with `uid` is an HDMI or DisplayPort output.
pub open spec fn spec_route_needs(devices: Seq<OutputDevice>, uid: Seq<char>) -> bool {
    match index_of_uid(devices, uid) {
        Some(k) => spec_is_hdmi_displayport(devices[k]),
        None => false,
    }
}

/// True when routing to `uid` needs HDMI/DisplayPort audio volume control.
pub fn route_needs_hdmi_displayport_volume_control(devices: &[OutputDevice], uid: &str) -> (r:
    bool)
    ensures
        r == spec_route_needs(devices@, uid@),
{
    proof {
        lemma_index_of_uid(devices@, uid@);
    }
    match find_uid(devices, uid) {
        Some(k) => is_hdmi_displayport_output(&devices[k]),
        None => false,
    }
}

pub open spec fn spec_connected_present(devices: Seq<OutputDevice>) -> bool {
    exists|i: int|
        0 <= i < devices.len() && #[trigger] devices[i].is_alive && devices[i].spec_selectable()
            && spec_is_hdmi_displayport(devices[i])
}

/// True when a connected, selectable HDMI or DisplayPort output is visible.
pub fn connected_hdmi_displayport_output_present(devices: &[OutputDevice]) -> (r: bool)
    ensures
        r == spec_connected_present(devices@),
{
    let mut i: usize = 0;
    while i < devices.len()
        invariant
            i <= devices@.len(),
            forall|j: int|
                0 <= j < i ==> !(#[trigger] devices@[j].is_alive && devices@[j].spec_selectable()
                    && spec_is_hdmi_displayport(devices@[j])),
        decreases devices@.len() - i,
    {
        let d = &devices[i];
        if d.is_alive && d.is_selectable() && is_hdmi_displayport_output(d) {
            assert(devices@[i as int].is_alive);
            return true;
        }
        i = i + 1;
    }
    false
}

/// A HAL driver bundle that is Rusty Jack's own.
pub open spec fn spec_is_native_driver(d: HalDriverInfo) -> bool {
    d.bundle_id@ == RUSTY_JACK_DRIVER_BUNDLE_ID@ || seq_contains(
        lower(d.name@),
        lower(RUSTY_JACK_DRIVER_NAME@),
    )
}

/// Index of the first native driver bundle in `s`.
pub open spec fn first_native_driver(s: Seq<HalDriverInfo>) -> Option<int>
    decreases s.len(),
{
    if s.len() == 0 {
        None
    } else {
        match first_native_driver(s.drop_last()) {
            Some(k) => Some(k),
            None => if spec_is_native_driver(s.last()) {
                Some(s.len() - 1)
            } else {
                None
            },
        }
    }
}

pub proof fn lemma_first_native_driver(s: Seq<HalDriverInfo>)
    ensures
        match first_native_driver(s) {
            Some(k) => 0 <= k < s.len() && spec_is_native_driver(s[k]) && forall|j: int|
                0 <= j < k ==> !spec_is_native_driver(#[trigger] s[j]),
            None => forall|j: int| 0 <= j < s.len() ==> !spec_is_native_driver(#[trigger] s[j]),
        },
    decreases s.len(),
{
    if s.len() > 0 {
        let d = s.drop_last();
        lemma_first_native_driver(d);
        assert(forall|j: int| 0 <= j < d.len() ==> d[j] == s[j]);
    }
}

/// The installed Rusty Jack driver among `drivers`, if any.
pub open spec fn spec_native_driver(drivers: Seq<HalDriverInfo>) -> Option<HalDriverInfo> {
    match first_native_driver(drivers) {
        Some(k) => Some(drivers[k]),
        None => None,
    }
}

/// Installed Rusty Jack HAL driver among the installed bundles, when present.
pub fn native_driver_info(drivers: &[HalDriverInfo]) -> (r: Option<HalDriverInfo>)
    ensures
        r == spec_native_driver(drivers@),
{
    let driver_name = to_lower(RUSTY_JACK_DRIVER_NAME);
    let mut i: usize = 0;
    while i < drivers.len()
        invariant
            i <= drivers@.len(),
            driver_name@ == lower(RUSTY_JACK_DRIVER_NAME@),
            forall|j: int| 0 <= j < i ==> !spec_is_native_driver(#[trigger] drivers@[j]),
        decreases drivers@.len() - i,
    {
        let d = &drivers[i];
        let lowered = to_lower(d.name.as_str());
        if str_eq(d.bundle_id.as_str(), RUSTY_JACK_DRIVER_BUNDLE_ID) || contains(
            lowered.as_str(),
            driver_name.as_str(),
        ) {
            proof {
                lemma_first_native_driver(drivers@);
                let f = first_native_driver(drivers@);
                if f != Some(i as int) {
                    match f {
                        Some(k) => {
                            if k > i {
                                assert(!spec_is_native_driver(drivers@[i as int]));
                            }
                        },
                        None => {
                            assert(!spec_is_native_driver(drivers@[i as int]));
                        },
                    }
                }
            }
            return Some(d.duplicate());
        }
        i = i + 1;
    }
    proof {
        lemma_first_native_driver(drivers@);
        if let Some(k) = first_native_driver(drivers@) {
            assert(!spec_is_native_driver(drivers@[k]));
        }
    }
    None
}

/// The first decision of ensuring (or recovering) volume control for a route.
pub open spec fn spec_step(
    devices: Seq<OutputDevice>,
    target_uid: Seq<char>,
    drivers: Seq<HalDriverInfo>,
    eqmac_state: EqMacInstallState,
) -> HdmiDisplayPortVolumeControlStep {
    if !spec_route_needs(devices, target_uid) {
        HdmiDisplayPortVolumeControlStep::Done(HdmiDisplayPortVolumeControlEnsureAction::NotNeeded)
    } else if spec_native_driver(drivers) is Some {
        HdmiDisplayPortVolumeControlStep::Done(
            HdmiDisplayPortVolumeControlEnsureAction::NativeDriverInstalled,
        )
    } else if eqmac_state == EqMacInstallState::NotInstalled {
        HdmiDisplayPortVolumeControlStep::Done(
            HdmiDisplayPortVolumeControlEnsureAction::NativeDriverRecommended,
        )
    } else {
        HdmiDisplayPortVolumeControlStep::UseEqMac
    }
}

/// Decide how a route gets volume control: not needed, the native driver, a
/// recommendation to install it, or eqMac.
pub fn hdmi_displayport_volume_control_step(
    devices: &[OutputDevice],
    target_uid: &str,
    drivers: &[HalDriverInfo],
    eqmac_state: EqMacInstallState,
) -> (r: HdmiDisplayPortVolumeControlStep)
    ensures
        r == spec_step(devices@, target_uid@, drivers@, eqmac_state),
{
    if !route_needs_hdmi_displayport_volume_control(devices, target_uid) {
        return HdmiDisplayPortVolumeControlStep::Done(
            HdmiDisplayPortVolumeControlEnsureAction::NotNeeded,
        );
    }
    if native_driver_info(drivers).is_some() {
        return HdmiDisplayPortVolumeControlStep::Done(
            HdmiDisplayPortVolumeControlEnsureAction::NativeDriverInstalled,
        );
    }
    match eqmac_state {
        EqMacInstallState::NotInstalled => HdmiDisplayPortVolumeControlStep::Done(
            HdmiDisplayPortVolumeControlEnsureAction::NativeDriverRecommended,
        ),
        EqMacInstallState::Installed => HdmiDisplayPortVolumeControlStep::UseEqMac,
    }
}

pub open spec fn spec_map_eqmac_action(a: EqMacEnsureAction) -> HdmiDisplayPortVolumeControlEnsureAction {
    match a {
        EqMacEnsureAction::NotNeeded => HdmiDisplayPortVolumeControlEnsureAction::NotNeeded,
        EqMacEnsureAction::AlreadyRunning => HdmiDisplayPortVolumeControlEnsureAction::EqMacAlreadyRunning,
        EqMacEnsureAction::Launched => HdmiDisplayPortVolumeControlEnsureAction::EqMacLaunched,
        EqMacEnsureAction::Restarted => HdmiDisplayPortVolumeControlEnsureAction::EqMacRestarted,
        EqMacEnsureAction::NotInstalled => HdmiDisplayPortVolumeControlEnsureAction::NativeDriverRecommended,
    }
}

/// Translate what eqMac did into the volume-control action.
pub fn map_eqmac_result(eqmac: EqMacEnsureResult) -> (r: HdmiDisplayPortVolumeControlEnsureResult)
    ensures
        r.action == spec_map_eqmac_action(eqmac.action),
{
    result(
        match eqmac.action {
            EqMacEnsureAction::NotNeeded => HdmiDisplayPortVolumeControlEnsureAction::NotNeeded,
            EqMacEnsureAction::AlreadyRunning => HdmiDisplayPortVolumeControlEnsureAction::EqMacAlreadyRunning,
            EqMacEnsureAction::Launched => HdmiDisplayPortVolumeControlEnsureAction::EqMacLaunched,
            EqMacEnsureAction::Restarted => HdmiDisplayPortVolumeControlEnsureAction::EqMacRestarted,
            EqMacEnsureAction::NotInstalled => HdmiDisplayPortVolumeControlEnsureAction::NativeDriverRecommended,
        },
    )
}

fn result(action: HdmiDisplayPortVolumeControlEnsureAction) -> (r:
    HdmiDisplayPortVolumeControlEnsureResult)
    ensures
        r.action == action,
{
    HdmiDisplayPortVolumeControlEnsureResult { action }
}

/// What an eqMac outcome becomes for the volume-control report.
pub open spec fn spec_from_eqmac(e: Result<EqMacEnsureResult, RustyJackError>) -> Result<
    HdmiDisplayPortVolumeControlEnsureResult,
    RustyJackError,
> {
    match e {
        Ok(x) => Ok(HdmiDisplayPortVolumeControlEnsureResult { action: spec_map_eqmac_action(x.action) }),
        Err(err) => Err(err),
    }
}

/// Ensure an HDMI/DisplayPort route has volume control, preferring Rusty Jack's
/// driver over eqMac. `ensure_eqmac` launches eqMac for the route; it need only
/// be callable when eqMac is the provider, so in every other case it is left
/// uncalled.
pub fn ensure_hdmi_displayport_volume_control_for_target<F>(
    devices: &[OutputDevice],
    target_uid: &str,
    drivers: &[HalDriverInfo],
    eqmac_state: EqMacInstallState,
    ensure_eqmac: F,
) -> (r: Result<HdmiDisplayPortVolumeControlEnsureResult, RustyJackError>) where
    F: FnOnce() -> Result<EqMacEnsureResult, RustyJackError>,

    requires
        spec_step(devices@, target_uid@, drivers@, eqmac_state) is UseEqMac ==> call_requires(
            ensure_eqmac,
            (),
        ),
    ensures
        match spec_step(devices@, target_uid@, drivers@, eqmac_state) {
            HdmiDisplayPortVolumeControlStep::Done(a) => r == Ok::<
                HdmiDisplayPortVolumeControlEnsureResult,
                RustyJackError,
            >(HdmiDisplayPortVolumeControlEnsureResult { action: a }),
            HdmiDisplayPortVolumeControlStep::UseEqMac => exists|e|
                call_ensures(ensure_eqmac, (), e) && r == spec_from_eqmac(e),
        },
{
    match hdmi_displayport_volume_control_step(devices, target_uid, drivers, eqmac_state) {
        HdmiDisplayPortVolumeControlStep::Done(a) => Ok(result(a)),
        HdmiDisplayPortVolumeControlStep::UseEqMac => {
            let ghost f = ensure_eqmac;
            let e = ensure_eqmac();
            let r = match e {
                Ok(x) => Ok(map_eqmac_result(x)),
                Err(err) => Err(err),
            };
            assert(call_ensures(f, (), e) && r == spec_from_eqmac(e));
            r
        },
    }
}

/// Recover an HDMI/DisplayPort route after wake: `restart_eqmac` relaunches
/// eqMac; it need only be callable when eqMac is the provider (installed, and
/// the native driver is not), so in every other case it is left uncalled.
pub fn recover_hdmi_displayport_volume_control_for_target<F>(
    devices: &[OutputDevice],
    target_uid: &str,
    drivers: &[HalDriverInfo],
    eqmac_state: EqMacInstallState,
    restart_eqmac: F,
) -> (r: Result<HdmiDisplayPortVolumeControlEnsureResult, RustyJackError>) where
    F: FnOnce() -> Result<EqMacEnsureResult, RustyJackError>,

    requires
        spec_step(devices@, target_uid@, drivers@, eqmac_state) is UseEqMac ==> call_requires(
            restart_eqmac,
            (),
        ),
    ensures
        match spec_step(devices@, target_uid@, drivers@, eqmac_state) {
            HdmiDisplayPortVolumeControlStep::Done(a) => r == Ok::<
                HdmiDisplayPortVolumeControlEnsureResult,
                RustyJackError,
            >(HdmiDisplayPortVolumeControlEnsureResult { action: a }),
            HdmiDisplayPortVolumeControlStep::UseEqMac => exists|e|
                call_ensures(restart_eqmac, (), e) && r == spec_from_eqmac(e),
        },
{
    ensure_hdmi_displayport_volume_control_for_target(
        devices,
        target_uid,
        drivers,
        eqmac_state,
        restart_eqmac,
    )
}

pub open spec fn spec_driver_offer_messages() -> Seq<Seq<char>> {
    seq![
        "warning: HDMI/DisplayPort volume keys need Rusty Jack's native audio driver."@,
        "  Install the Rusty Jack driver to control volume for connected HDMI/DisplayPort outputs."@,
    ]
}

/// User-facing offer copy for interactive commands.
pub fn driver_offer_messages() -> (r: Vec<String>)
    ensures
        r@.map_values(|s: String| s@) == spec_driver_offer_messages(),
{
    let mut v: Vec<String> = Vec::new();
    v.push(owned("warning: HDMI/DisplayPort volume keys need Rusty Jack's native audio driver."));
    v.push(
        owned(
            "  Install the Rusty Jack driver to control volume for connected HDMI/DisplayPort outputs.",
        ),
    );
    assert(v@.map_values(|s: String| s@) =~= spec_driver_offer_messages());
    v
}

pub open spec fn spec_ensure_messages(action: HdmiDisplayPortVolumeControlEnsureAction) -> Seq<
    Seq<char>,
> {
    match action {
        HdmiDisplayPortVolumeControlEnsureAction::EqMacLaunched => seq![
            "Started eqMac for HDMI/DisplayPort audio volume control."@,
        ],
        HdmiDisplayPortVolumeControlEnsureAction::EqMacRestarted => seq![
            "Restarted eqMac to recover HDMI/DisplayPort audio."@,
        ],
        HdmiDisplayPortVolumeControlEnsureAction::NativeDriverRecommended => spec_driver_offer_messages(),
        _ => seq![],
    }
}

/// Human-readable messages after ensuring HDMI/DisplayPort volume control.
pub fn format_ensure_messages(result: HdmiDisplayPortVolumeControlEnsureResult) -> (r: Vec<String>)
    ensures
        r@.map_values(|s: String| s@) == spec_ensure_messages(result.action),
{
    match result.action {
        HdmiDisplayPortVolumeControlEnsureAction::EqMacLaunched => {
            let mut v: Vec<String> = Vec::new();
            v.push(owned("Started eqMac for HDMI/DisplayPort audio volume control."));
            assert(v@.map_values(|s: String| s@) =~= spec_ensure_messages(result.action));
            v
        },
        HdmiDisplayPortVolumeControlEnsureAction::EqMacRestarted => {
            let mut v: Vec<String> = Vec::new();
            v.push(owned("Restarted eqMac to recover HDMI/DisplayPort audio."));
            assert(v@.map_values(|s: String| s@) =~= spec_ensure_messages(result.action));
            v
        },
        HdmiDisplayPortVolumeControlEnsureAction::NativeDriverRecommended => driver_offer_messages(),
        _ => {
            let v: Vec<String> = Vec::new();
            assert(v@.map_values(|s: String| s@) =~= spec_ensure_messages(result.action));
            v
        },
    }
}

/// Where a HAL driver is installed: the user's plug-ins, the system's, or elsewhere.
pub open spec fn spec_native_driver_scope(install_path: Seq<char>, home: Option<Seq<char>>) -> Seq<
    char,
> {
    if home is Some && seq_starts_with(install_path, home.unwrap() + USER_HAL_SUFFIX@) {
        "user"@
    } else if seq_starts_with(install_path, USER_HAL_SUFFIX@) {
        "system"@
    } else {
        "custom"@
    }
}

/// Scope of a HAL driver install path, given the user's home directory.
pub fn native_driver_scope(install_path: &str, home: Option<&str>) -> (r: &'static str)
    ensures
        r@ == spec_native_driver_scope(install_path@, match home {
            Some(h) => Some(h@),
            None => None,
        }),
{
    if let Some(h) = home {
        let user_dir = concat2(h, USER_HAL_SUFFIX);
        if starts_with(install_path, user_dir.as_str()) {
            return "user";
        }
    }
    if starts_with(install_path, USER_HAL_SUFFIX) {
        "system"
    } else {
        "custom"
    }
}

pub open spec fn spec_scope_note(scope: Seq<char>) -> Seq<char> {
    if scope == "user"@ {
        "user-scope HAL driver; no sudo required"@
    } else if scope == "system"@ {
        "system-scope HAL driver; sudo may be required"@
    } else {
        "custom HAL driver location"@
    }
}

/// One-line explanation of a driver install scope.
pub fn native_driver_scope_note(install_path: &str, home: Option<&str>) -> (r: &'static str)
    ensures
        r@ == spec_scope_note(
            spec_native_driver_scope(install_path@, match home {
                Some(h) => Some(h@),
                None => None,
            }),
        ),
{
    let scope = native_driver_scope(install_path, home);
    if str_eq(scope, "user") {
        "user-scope HAL driver; no sudo required"
    } else if str_eq(scope, "system") {
        "system-scope HAL driver; sudo may be required"
    } else {
        "custom HAL driver location"
    }
}

pub open spec fn spec_recommendation_reason(
    target_needs_driver: Option<bool>,
    connected_output_present: bool,
    native_driver_installed: bool,
) -> Seq<char> {
    match target_needs_driver {
        Some(false) => "selected output is not HDMI/DisplayPort"@,
        Some(true) => if native_driver_installed {
            "native driver is already installed"@
        } else {
            "selected output is HDMI/DisplayPort"@
        },
        None => if native_driver_installed {
            "native driver is already installed"@
        } else if connected_output_present {
            "connected HDMI/DisplayPort output detected"@
        } else {
            "no connected HDMI/DisplayPort output detected"@
        },
    }
}

/// Why the native driver is, or is not, recommended.
pub fn driver_recommendation_reason(
    target_needs_driver: Option<bool>,
    connected_output_present: bool,
    native_driver_installed: bool,
) -> (r: Option<String>)
    ensures
        opt_view(r) == Some(
            spec_recommendation_reason(
                target_needs_driver,
                connected_output_present,
                native_driver_installed,
            ),
        ),
{
    match target_needs_driver {
        Some(false) => Some(owned("selected output is not HDMI/DisplayPort")),
        Some(true) => if native_driver_installed {
            Some(owned("native driver is already installed"))
        } else {
            Some(owned("selected output is HDMI/DisplayPort"))
        },
        None => if native_driver_installed {
            Some(owned("native driver is already installed"))
        } else if connected_output_present {
            Some(owned("connected HDMI/DisplayPort output detected"))
        } else {
            Some(owned("no connected HDMI/DisplayPort output detected"))
        },
    }
}

pub open spec fn spec_null_output_warning() -> Seq<char> {
    "Rusty Jack is currently a null output until passthrough audio is implemented."@
}

pub open spec fn spec_skeleton_warning() -> Seq<char> {
    "Rusty Jack passthrough skeleton is armed in the daemon; live CoreAudio capture/render is not wired yet."@
}

pub open spec fn spec_native_driver_warning(stage: Option<Seq<char>>) -> Option<Seq<char>> {
    match stage {
        None => Some(spec_null_output_warning()),
        Some(s) => if s == "virtual-output-null"@ || s == "loadable-skeleton"@ {
            Some(spec_null_output_warning())
        } else if s == PASSTHROUGH_SKELETON_DRIVER_STAGE@ {
            Some(spec_skeleton_warning())
        } else {
            None
        },
    }
}

/// Caveat for a driver stage that does not pass audio through yet.
pub fn native_driver_warning(stage: Option<&str>) -> (r: Option<String>)
    ensures
        opt_view(r) == spec_native_driver_warning(match stage {
            Some(s) => Some(s@),
            None => None,
        }),
{
    match stage {
        None => Some(
            owned("Rusty Jack is currently a null output until passthrough audio is implemented."),
        ),
        Some(s) => if str_eq(s, "virtual-output-null") || str_eq(s, "loadable-skeleton") {
            Some(
                owned(
                    "Rusty Jack is currently a null output until passthrough audio is implemented.",
                ),
            )
        } else if str_eq(s, PASSTHROUGH_SKELETON_DRIVER_STAGE) {
            Some(
                owned(
                    "Rusty Jack passthrough skeleton is armed in the daemon; live CoreAudio capture/render is not wired yet.",
                ),
            )
        } else {
            None
        },
    }
}

pub open spec fn spec_virtual_output_warning(
    devices: Seq<OutputDevice>,
    driver: Option<HalDriverInfo>,
    home: Option<Seq<char>>,
) -> Option<Seq<char>> {
    match driver {
        None => None,
        Some(d) => if index_of_uid(devices, RUSTY_JACK_VIRTUAL_OUTPUT_UID@) is Some {
            None
        } else {
            Some(
                "CoreAudio has not published the Rusty Jack virtual output yet; use a "@
                    + spec_native_driver_scope(d.install_path@, home)
                    + "-scope install under /Library/Audio/Plug-Ins/HAL/, restart coreaudiod, and a signed driver build for production."@,
            )
        },
    }
}

/// Warning when the driver bundle is installed but CoreAudio lists no virtual output.
pub fn native_driver_virtual_output_warning(
    devices: &[OutputDevice],
    driver: Option<&HalDriverInfo>,
    home: Option<&str>,
) -> (r: Option<String>)
    ensures
        opt_view(r) == spec_virtual_output_warning(
            devices@,
            match driver {
                Some(d) => Some(*d),
                None => None,
            },
            match home {
                Some(h) => Some(h@),
                None => None,
            },
        ),
{
    let d = match driver {
        Some(d) => d,
        None => {
            return None;
        },
    };
    proof {
        lemma_index_of_uid(devices@, RUSTY_JACK_VIRTUAL_OUTPUT_UID@);
    }
    if find_uid(devices, RUSTY_JACK_VIRTUAL_OUTPUT_UID).is_some() {
        return None;
    }
    let scope = native_driver_scope(d.install_path.as_str(), home);
    Some(
        concat3(
            "CoreAudio has not published the Rusty Jack virtual output yet; use a ",
            scope,
            "-scope install under /Library/Audio/Plug-Ins/HAL/, restart coreaudiod, and a signed driver build for production.",
        ),
    )
}

pub open spec fn spec_driver_offer_message(eqmac_installed: bool) -> Seq<char> {
    if eqmac_installed {
        "Rusty Jack native audio driver is recommended for HDMI/DisplayPort volume keys; eqMac is installed and remains available as a fallback."@
    } else {
        "Rusty Jack native audio driver is recommended for HDMI/DisplayPort volume keys."@
    }
}

/// One-line recommendation of the native driver.
pub fn driver_offer_message(eqmac_installed: bool) -> (r: String)
    ensures
        r@ == spec_driver_offer_message(eqmac_installed),
{
    if eqmac_installed {
        owned(
            "Rusty Jack native audio driver is recommended for HDMI/DisplayPort volume keys; eqMac is installed and remains available as a fallback.",
        )
    } else {
        owned("Rusty Jack native audio driver is recommended for HDMI/DisplayPort volume keys.")
    }
}

pub open spec fn opt_str_seq(o: Option<&str>) -> Option<Seq<char>> {
    match o {
        Some(s) => Some(s@),
        None => None,
    }
}

/// Whether the named route needs HDMI/DisplayPort volume control, when a route is named.
pub open spec fn spec_target_needs(devices: Seq<OutputDevice>, target: Option<Seq<char>>) -> Option<
    bool,
> {
    match target {
        Some(u) => Some(spec_route_needs(devices, u)),
        None => None,
    }
}

pub open spec fn spec_recommended(
    target_needs: Option<bool>,
    connected_output_present: bool,
    native_driver_installed: bool,
) -> bool {
    (match target_needs {
        Some(b) => b,
        None => connected_output_present,
    }) && !native_driver_installed
}

/// The stage caveat and the missing-virtual-output warning, joined by a space.
pub open spec fn spec_status_warning(
    devices: Seq<OutputDevice>,
    driver: Option<HalDriverInfo>,
    home: Option<Seq<char>>,
) -> Option<Seq<char>> {
    let base = match driver {
        Some(d) => spec_native_driver_warning(opt_view(d.stage)),
        None => None,
    };
    match spec_virtual_output_warning(devices, driver, home) {
        Some(x) => Some(
            match base {
                Some(b) => b + " "@ + x,
                None => x,
            },
        ),
        None => base,
    }
}

/// Status and recommendation for the visible devices, for a specific route when
/// one is named. The installed HAL drivers, the home directory and what is known
/// of eqMac on disk are given.
pub fn hdmi_displayport_volume_control_status_for_target(
    devices: &[OutputDevice],
    target_uid: Option<&str>,
    drivers: &[HalDriverInfo],
    home: Option<&str>,
    eqmac_app_path: Option<String>,
    eqmac_hal_driver_path: Option<String>,
    orphaned_eqmac_hal_driver_path: Option<String>,
    eqmac_driver_backup: Option<EqMacDriverBackupInfo>,
) -> (s: HdmiDisplayPortVolumeControlStatus)
    ensures
        s.connected_output_present == spec_connected_present(devices@),
        s.native_driver == spec_native_driver(drivers@),
        s.native_driver_installed == spec_native_driver(drivers@) is Some,
        s.native_driver_recommended == spec_recommended(
            spec_target_needs(devices@, opt_str_seq(target_uid)),
            spec_connected_present(devices@),
            spec_native_driver(drivers@) is Some,
        ),
        opt_view(s.native_driver_recommendation_reason) == Some(
            spec_recommendation_reason(
                spec_target_needs(devices@, opt_str_seq(target_uid)),
                spec_connected_present(devices@),
                spec_native_driver(drivers@) is Some,
            ),
        ),
        opt_view(s.native_driver_install_path) == match spec_native_driver(drivers@) {
            Some(d) => Some(d.install_path@),
            None => None::<Seq<char>>,
        },
        opt_view(s.native_driver_scope) == match spec_native_driver(drivers@) {
            Some(d) => Some(spec_native_driver_scope(d.install_path@, opt_str_seq(home))),
            None => None::<Seq<char>>,
        },
        s.native_driver_stage == match spec_native_driver(drivers@) {
            Some(d) => d.stage,
            None => None::<String>,
        },
        opt_view(s.native_driver_warning) == spec_status_warning(
            devices@,
            spec_native_driver(drivers@),
            opt_str_seq(home),
        ),
        s.eqmac_installed == eqmac_app_path is Some,
        s.eqmac_app_path == eqmac_app_path,
        s.eqmac_hal_driver_path == eqmac_hal_driver_path,
        s.orphaned_eqmac_hal_driver_path == orphaned_eqmac_hal_driver_path,
        s.eqmac_driver_backup == eqmac_driver_backup,
        opt_view(s.recommendation) == if s.native_driver_recommended {
            Some(spec_driver_offer_message(eqmac_app_path is Some))
        } else {
            None::<Seq<char>>
        },
{
    let connected_output_present = connected_hdmi_displayport_output_present(devices);
    let native_driver = native_driver_info(drivers);
    let native_driver_installed = native_driver.is_some();
    let target_needs_driver: Option<bool> = match target_uid {
        Some(uid) => Some(route_needs_hdmi_displayport_volume_control(devices, uid)),
        None => None,
    };
    let native_driver_recommended = (match target_needs_driver {
        Some(b) => b,
        None => connected_output_present,
    }) && !native_driver_installed;
    let native_driver_recommendation_reason = driver_recommendation_reason(
        target_needs_driver,
        connected_output_present,
        native_driver_installed,
    );
    let mut native_driver_install_path: Option<String> = None;
    let mut native_driver_scope_text: Option<String> = None;
    let mut native_driver_stage: Option<String> = None;
    let mut native_driver_warning_text: Option<String> = None;
    if let Some(d) = &native_driver {
        native_driver_install_path = Some(d.install_path.clone());
        native_driver_scope_text = Some(owned(native_driver_scope(d.install_path.as_str(), home)));
        native_driver_stage = crate::output_device::clone_opt_string(&d.stage);
        native_driver_warning_text = native_driver_warning(
            match &d.stage {
                Some(st) => Some(st.as_str()),
                None => None,
            },
        );
    }
    let extra = native_driver_virtual_output_warning(
        devices,
        match &native_driver {
            Some(d) => Some(d),
            None => None,
        },
        home,
    );
    if let Some(x) = extra {
        native_driver_warning_text = Some(
            match native_driver_warning_text {
                Some(existing) => concat3(existing.as_str(), " ", x.as_str()),
                None => x,
            },
        );
    }
    let eqmac_installed = eqmac_app_path.is_some();
    let recommendation = if native_driver_recommended {
        Some(driver_offer_message(eqmac_installed))
    } else {
        None
    };
    HdmiDisplayPortVolumeControlStatus {
        connected_output_present,
        native_driver_installed,
        native_driver_recommended,
        native_driver_recommendation_reason,
        native_driver_install_path,
        native_driver_scope: native_driver_scope_text,
        native_driver_stage,
        native_driver_warning: native_driver_warning_text,
        native_driver,
        eqmac_installed,
        eqmac_app_path,
        eqmac_hal_driver_path,
        orphaned_eqmac_hal_driver_path,
        eqmac_driver_backup,
        recommendation,
    }
}

/// Status and recommendation for the visible device set, with no route named.
pub fn hdmi_displayport_volume_control_status(
    devices: &[OutputDevice],
    drivers: &[HalDriverInfo],
    home: Option<&str>,
    eqmac_app_path: Option<String>,
    eqmac_hal_driver_path: Option<String>,
    orphaned_eqmac_hal_driver_path: Option<String>,
    eqmac_driver_backup: Option<EqMacDriverBackupInfo>,
) -> (s: HdmiDisplayPortVolumeControlStatus)
    ensures
        s.connected_output_present == spec_connected_present(devices@),
        s.native_driver == spec_native_driver(drivers@),
        s.native_driver_installed == spec_native_driver(drivers@) is Some,
        s.native_driver_recommended == (spec_connected_present(devices@) && spec_native_driver(
            drivers@,
        ) is None),
        opt_view(s.native_driver_recommendation_reason) == Some(
            spec_recommendation_reason(
                None,
                spec_connected_present(devices@),
                spec_native_driver(drivers@) is Some,
            ),
        ),
        opt_view(s.native_driver_install_path) == match spec_native_driver(drivers@) {
            Some(d) => Some(d.install_path@),
            None => None::<Seq<char>>,
        },
        opt_view(s.native_driver_scope) == match spec_native_driver(drivers@) {
            Some(d) => Some(spec_native_driver_scope(d.install_path@, opt_str_seq(home))),
            None => None::<Seq<char>>,
        },
        s.native_driver_stage == match spec_native_driver(drivers@) {
            Some(d) => d.stage,
            None => None::<String>,
        },
        opt_view(s.native_driver_warning) == spec_status_warning(
            devices@,
            spec_native_driver(drivers@),
            opt_str_seq(home),
        ),
        s.eqmac_installed == eqmac_app_path is Some,
        s.eqmac_app_path == eqmac_app_path,
        s.eqmac_hal_driver_path == eqmac_hal_driver_path,
        s.orphaned_eqmac_hal_driver_path == orphaned_eqmac_hal_driver_path,
        s.eqmac_driver_backup == eqmac_driver_backup,
        opt_view(s.recommendation) == if s.native_driver_recommended {
            Some(spec_driver_offer_message(eqmac_app_path is Some))
        } else {
            None::<Seq<char>>
        },
{
    hdmi_displayport_volume_control_status_for_target(
        devices,
        None,
        drivers,
        home,
        eqmac_app_path,
        eqmac_hal_driver_path,
        orphaned_eqmac_hal_driver_path,
        eqmac_driver_backup,
    )
}

} // verus!
