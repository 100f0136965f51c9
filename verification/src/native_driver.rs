//! Lifecycle of the Rusty Jack CoreAudio HAL driver bundle.
//!
//! Every operation here reads a few facts (which drivers are installed, where
//! the bundled driver is, what its Info.plist says) and then decides. The
//! facts are arguments; the effects (prompts, copies, `sudo` steps) are
//! closures the caller supplies, run only on the paths that need them.
use crate::eqmac::{join_path, join_path_str, EqMacDriverBackupInfo, EQMAC_EMBEDDED_DRIVER_PATH, EQMAC_HAL_DRIVER_PATH};
use crate::error::RustyJackError;
use crate::hdmi_displayport_volume_control::{
    connected_hdmi_displayport_output_present, native_driver_info, spec_connected_present,
    spec_native_driver, RUSTY_JACK_DRIVER_BUNDLE_ID,
};
use crate::output_device::OutputDevice;
use crate::system_default::HalDriverInfo;
use crate::text::{concat2, concat3, owned, str_eq};
use vstd::prelude::*;

verus! {

pub const RUSTY_JACK_DRIVER_BUNDLE_NAME: &'static str = "RustyJack.driver";

/// System-wide HAL plug-in folder.
pub const SYSTEM_HAL_DIR: &'static str = "/Library/Audio/Plug-Ins/HAL";

/// Where the driver lives when installed system-wide.
pub const SYSTEM_NATIVE_DRIVER_PATH: &'static str = "/Library/Audio/Plug-Ins/HAL/RustyJack.driver";

/// User install prompts stay off until a signed native driver release ships.
pub const NATIVE_DRIVER_USER_INSTALL_OFFERED: bool = false;

#[derive(Debug)]
pub enum NativeDriverInstallResult {
    NotNeededNoHdmiDisplayPort,
    /// User install prompts are disabled until a signed native driver release ships.
    NotOffered,
    AlreadyInstalled { install_path: String, version: Option<String> },
    Installed { source_path: String, install_path: String, version: Option<String> },
    Skipped { reason: String },
    BundleUnavailable { message: String },
}

#[derive(Debug)]
pub enum NativeDriverUninstallResult {
    NotInstalled,
    Removed { install_path: String, version: Option<String> },
    Skipped { install_path: String, reason: String },
}

#[derive(Debug)]
pub enum NativeDriverUpgradeResult {
    NotInstalled,
    UpToDate { install_path: String, version: Option<String> },
    Upgraded {
        source_path: String,
        install_path: String,
        from_version: Option<String>,
        to_version: Option<String>,
    },
    Skipped { install_path: String, reason: String },
    BundleUnavailable { install_path: String, message: String },
}

#[derive(Debug)]
pub enum DriverSwapInResult {
    SwappedIn {
        eqmac_backup: Option<EqMacDriverBackupInfo>,
        native_driver: NativeDriverInstallResult,
    },
    Skipped { reason: String, command: Option<String> },
}

/// Outcome of restoring eqMac's system HAL driver after native-driver testing.
#[derive(Debug)]
pub enum EqMacHalRestoreResult {
    NotNeeded,
    RestoredFromBackup { install_path: String, version: Option<String> },
    ReinstalledFromAppBundle { install_path: String, source_path: String, version: Option<String> },
    AlreadyPresent { install_path: String, version: Option<String> },
}

#[derive(Debug)]
pub enum DriverSwapOutResult {
    SwappedOut {
        restored_eqmac: Option<EqMacDriverBackupInfo>,
        native_driver: NativeDriverUninstallResult,
    },
    UpToDate { message: String },
    Skipped { reason: String, command: Option<String> },
}

/// What swapping in the native driver does with eqMac's system driver.
#[derive(Debug, Clone, Copy, PartialEq, Eq, Structural)]
pub enum SwapInEqMacAction {
    BackUpSystemDriver,
    AlreadyBackedUp,
    NoEqMacDriver,
    Conflict,
}

/// Back up a present eqMac driver; reuse a backup; or refuse when both exist.
pub fn plan_swap_in(eqmac_present: bool, backup_present: bool) -> (r: SwapInEqMacAction)
    ensures
        r == (if eqmac_present && !backup_present {
            SwapInEqMacAction::BackUpSystemDriver
        } else if !eqmac_present && backup_present {
            SwapInEqMacAction::AlreadyBackedUp
        } else if !eqmac_present && !backup_present {
            SwapInEqMacAction::NoEqMacDriver
        } else {
            SwapInEqMacAction::Conflict
        }),
{
    match (eqmac_present, backup_present) {
        (true, false) => SwapInEqMacAction::BackUpSystemDriver,
        (false, true) => SwapInEqMacAction::AlreadyBackedUp,
        (false, false) => SwapInEqMacAction::NoEqMacDriver,
        (true, true) => SwapInEqMacAction::Conflict,
    }
}

pub open spec fn spec_bundle_unavailable_message() -> Seq<char> {
    "no bundled "@ + RUSTY_JACK_DRIVER_BUNDLE_NAME@
        + " found; install from a package that includes the driver bundle or set RUSTY_JACK_DRIVER_BUNDLE"@
}

pub fn bundle_unavailable_message() -> (r: String)
    ensures
        r@ == spec_bundle_unavailable_message(),
{
    concat3(
        "no bundled ",
        RUSTY_JACK_DRIVER_BUNDLE_NAME,
        " found; install from a package that includes the driver bundle or set RUSTY_JACK_DRIVER_BUNDLE",
    )
}

pub open spec fn spec_user_install_path(home: Seq<char>) -> Seq<char> {
    join_path(join_path(home, "Library/Audio/Plug-Ins/HAL"@), RUSTY_JACK_DRIVER_BUNDLE_NAME@)
}

/// The user-scoped install location under `home`.
pub fn native_driver_install_path(home: Option<&str>) -> (r: Option<String>)
    ensures
        match home {
            Some(h) => r is Some && r.unwrap()@ == spec_user_install_path(h@),
            None => r is None,
        },
{
    match home {
        Some(h) => {
            let dir = join_path_str(h, "Library/Audio/Plug-Ins/HAL");
            Some(join_path_str(dir.as_str(), RUSTY_JACK_DRIVER_BUNDLE_NAME))
        },
        None => None,
    }
}

pub open spec fn missing_plist_message(source: Seq<char>) -> Seq<char> {
    "driver bundle "@ + source + " is missing a readable Info.plist"@
}

fn missing_plist(source: &str) -> (r: RustyJackError)
    ensures
        r == RustyJackError::Config(r->Config_0) && r->Config_0@ == missing_plist_message(source@),
{
    RustyJackError::Config(concat3("driver bundle ", source, " is missing a readable Info.plist"))
}

pub open spec fn no_home_message() -> Seq<char> {
    "HOME is not set; cannot locate HAL Plug-Ins directory"@
}

/// A driver source must be a `RustyJack.driver` bundle carrying Rusty Jack's
/// bundle id.
pub open spec fn spec_validate_source(
    source: Seq<char>,
    file_name: Option<Seq<char>>,
    info: Option<HalDriverInfo>,
) -> Option<Seq<char>> {
    if file_name != Some(RUSTY_JACK_DRIVER_BUNDLE_NAME@) {
        Some("driver source must be named "@ + RUSTY_JACK_DRIVER_BUNDLE_NAME@ + ": "@ + source)
    } else {
        match info {
            None => Some(missing_plist_message(source)),
            Some(i) => if i.bundle_id@ != RUSTY_JACK_DRIVER_BUNDLE_ID@ {
                Some(
                    "driver bundle id "@ + i.bundle_id@ + " does not match expected "@
                        + RUSTY_JACK_DRIVER_BUNDLE_ID@,
                )
            } else {
                None
            },
        }
    }
}

pub open spec fn opt_text(o: Option<&str>) -> Option<Seq<char>> {
    match o {
        Some(s) => Some(s@),
        None => None,
    }
}

/// Check a driver source before copying it; the error carries the reason.
pub fn validate_driver_source(source: &str, file_name: Option<&str>, info: Option<&HalDriverInfo>) -> (r:
    Result<(), RustyJackError>)
    ensures
        match spec_validate_source(
            source@,
            opt_text(file_name),
            match info {
                Some(i) => Some(*i),
                None => None,
            },
        ) {
            None => r is Ok,
            Some(m) => r matches Err(RustyJackError::Config(e)) && e@ == m,
        },
{
    let named = match file_name {
        Some(n) => str_eq(n, RUSTY_JACK_DRIVER_BUNDLE_NAME),
        None => false,
    };
    if !named {
        let head = concat3("driver source must be named ", RUSTY_JACK_DRIVER_BUNDLE_NAME, ": ");
        return Err(RustyJackError::Config(concat2(head.as_str(), source)));
    }
    match info {
        None => Err(missing_plist(source)),
        Some(i) => if !str_eq(i.bundle_id.as_str(), RUSTY_JACK_DRIVER_BUNDLE_ID) {
            let head = concat3("driver bundle id ", i.bundle_id.as_str(), " does not match expected ");
            Err(RustyJackError::Config(concat2(head.as_str(), RUSTY_JACK_DRIVER_BUNDLE_ID)))
        } else {
            Ok(())
        },
    }
}

pub open spec fn opt_view(o: Option<String>) -> Option<Seq<char>> {
    match o {
        Some(s) => Some(s@),
        None => None,
    }
}

fn opt_eq(a: &Option<String>, b: &Option<String>) -> (r: bool)
    ensures
        r == (opt_view(*a) == opt_view(*b)),
{
    match (a, b) {
        (Some(x), Some(y)) => str_eq(x.as_str(), y.as_str()),
        (None, None) => true,
        _ => false,
    }
}

fn clone_opt(o: &Option<String>) -> (r: Option<String>)
    ensures
        r == *o,
{
    match o {
        Some(s) => Some(s.clone()),
        None => None,
    }
}

/// The bundle differs from the installed driver: another version, or (same
/// version) the file trees differ as `dirs_differ` reports.
pub fn driver_materially_changed<D>(
    source_info: &HalDriverInfo,
    installed: &HalDriverInfo,
    dirs_differ: D,
) -> (r: Result<bool, RustyJackError>) where D: FnOnce() -> Result<bool, RustyJackError>,
    requires
        call_requires(dirs_differ, ()),
    ensures
        opt_view(source_info.version) != opt_view(installed.version) ==> r matches Ok(true),
        opt_view(source_info.version) == opt_view(installed.version) ==> call_ensures(
            dirs_differ,
            (),
            r,
        ),
{
    if !opt_eq(&source_info.version, &installed.version) {
        return Ok(true);
    }
    dirs_differ()
}

/// Install the driver for the current user when an HDMI/DisplayPort output is
/// connected and the driver is missing. `confirm` asks the user; `install`
/// copies the bundle from `source_path` to `install_path`.
pub fn install_for_connected_hdmi_displayport<C, I>(
    devices: &[OutputDevice],
    drivers: &[HalDriverInfo],
    offered: bool,
    source_path: Option<&str>,
    source_info: Option<&HalDriverInfo>,
    install_path: Option<&str>,
    interactive: bool,
    confirm: C,
    install: I,
) -> (r: Result<NativeDriverInstallResult, RustyJackError>) where
    C: FnOnce() -> Result<bool, RustyJackError>,
    I: FnOnce() -> Result<(), RustyJackError>,

    requires
        call_requires(confirm, ()),
        call_requires(install, ()),
    ensures
        !spec_connected_present(devices@) ==> r matches Ok(
            NativeDriverInstallResult::NotNeededNoHdmiDisplayPort,
        ),
        spec_connected_present(devices@) ==> match spec_native_driver(drivers@) {
            Some(d) => r matches Ok(
                NativeDriverInstallResult::AlreadyInstalled { install_path: p, version: v },
            ) && p == d.install_path && v == d.version,
            None => if !offered {
                r matches Ok(NativeDriverInstallResult::NotOffered)
            } else if source_path is None {
                r matches Ok(NativeDriverInstallResult::BundleUnavailable { message: m }) && m@
                    == spec_bundle_unavailable_message()
            } else if !interactive {
                r matches Ok(NativeDriverInstallResult::Skipped { reason: s }) && s@
                    == "run `rusty-jack install` interactively to install the native driver"@
            } else {
                exists|answer: Result<bool, RustyJackError>|
                    #![trigger call_ensures(confirm, (), answer)]
                    call_ensures(confirm, (), answer) && match answer {
                        Err(e) => r matches Err(e2) && e2 == e,
                        Ok(false) => r matches Ok(NativeDriverInstallResult::Skipped { reason: s })
                            && s@ == "user declined native driver install"@,
                        Ok(true) => match (source_info, install_path) {
                            (None, _) => r matches Err(RustyJackError::Config(e)) && e@
                                == missing_plist_message(source_path.unwrap()@),
                            (Some(_), None) => r matches Err(RustyJackError::Config(e)) && e@
                                == no_home_message(),
                            (Some(info), Some(dest)) => exists|done: Result<(), RustyJackError>|
                                #![trigger call_ensures(install, (), done)]
                                call_ensures(install, (), done) && match done {
                                    Err(e) => r == Err::<NativeDriverInstallResult, RustyJackError>(
                                        e,
                                    ),
                                    Ok(()) => r matches Ok(
                                        NativeDriverInstallResult::Installed {
                                            source_path: sp,
                                            install_path: ip,
                                            version: v,
                                        },
                                    ) && sp@ == source_path.unwrap()@ && ip@ == dest@ && v
                                        == info.version,
                                },
                        },
                    }
            }
        },
{
    if !connected_hdmi_displayport_output_present(devices) {
        return Ok(NativeDriverInstallResult::NotNeededNoHdmiDisplayPort);
    }
    if let Some(driver) = native_driver_info(drivers) {
        return Ok(
            NativeDriverInstallResult::AlreadyInstalled {
                install_path: driver.install_path,
                version: driver.version,
            },
        );
    }
    if !offered {
        return Ok(NativeDriverInstallResult::NotOffered);
    }
    let source = match source_path {
        Some(s) => s,
        None => {
            return Ok(
                NativeDriverInstallResult::BundleUnavailable { message: bundle_unavailable_message() },
            );
        },
    };
    if !interactive {
        return Ok(
            NativeDriverInstallResult::Skipped {
                reason: owned("run `rusty-jack install` interactively to install the native driver"),
            },
        );
    }
    let ghost c = confirm;
    let answer = confirm();
    assert(call_ensures(c, (), answer));
    match answer {
        Err(e) => {
            return Err(e);
        },
        Ok(false) => {
            return Ok(
                NativeDriverInstallResult::Skipped {
                    reason: owned("user declined native driver install"),
                },
            );
        },
        Ok(true) => {},
    }
    let info = match source_info {
        Some(i) => i,
        None => {
            return Err(missing_plist(source));
        },
    };
    let dest = match install_path {
        Some(d) => d,
        None => {
            return Err(RustyJackError::Config(owned("HOME is not set; cannot locate HAL Plug-Ins directory")));
        },
    };
    let ghost f = install;
    let done = install();
    assert(call_ensures(f, (), done));
    match done {
        Err(e) => Err(e),
        Ok(()) => Ok(
            NativeDriverInstallResult::Installed {
                source_path: owned(source),
                install_path: owned(dest),
                version: clone_opt(&info.version),
            },
        ),
    }
}


/// The question asked before removing the driver.
pub fn uninstall_prompt(install_path: &str, home: Option<&str>) -> (r: String)
    ensures
        r@ == "Remove Rusty Jack native audio driver at "@ + install_path@ + "? "@
            + crate::hdmi_displayport_volume_control::spec_scope_note(
            crate::hdmi_displayport_volume_control::spec_native_driver_scope(
                install_path@,
                opt_text(home),
            ),
        ) + "."@,
{
    let note = crate::hdmi_displayport_volume_control::native_driver_scope_note(install_path, home);
    let head = concat3("Remove Rusty Jack native audio driver at ", install_path, "? ");
    concat3(head.as_str(), note, ".")
}

/// Remove the installed driver after the user agrees. `confirm` asks (see
/// [`uninstall_prompt`]); `remove` deletes the bundle.
pub fn uninstall_if_installed<C, R>(
    drivers: &[HalDriverInfo],
    interactive: bool,
    confirm: C,
    remove: R,
) -> (r: Result<NativeDriverUninstallResult, RustyJackError>) where
    C: FnOnce() -> Result<bool, RustyJackError>,
    R: FnOnce() -> Result<(), RustyJackError>,

    requires
        call_requires(confirm, ()),
        call_requires(remove, ()),
    ensures
        match spec_native_driver(drivers@) {
            None => r matches Ok(NativeDriverUninstallResult::NotInstalled),
            Some(d) => if !interactive {
                r matches Ok(NativeDriverUninstallResult::Skipped { install_path: p, reason: s })
                    && p == d.install_path && s@
                    == "run `rusty-jack uninstall` interactively to remove the native driver"@
            } else {
                exists|answer: Result<bool, RustyJackError>|
                    #![trigger call_ensures(confirm, (), answer)]
                    call_ensures(confirm, (), answer) && match answer {
                        Err(e) => r matches Err(e2) && e2 == e,
                        Ok(false) => r matches Ok(
                            NativeDriverUninstallResult::Skipped { install_path: p, reason: s },
                        ) && p == d.install_path && s@ == "user declined native driver removal"@,
                        Ok(true) => exists|done: Result<(), RustyJackError>|
                            #![trigger call_ensures(remove, (), done)]
                            call_ensures(remove, (), done) && match done {
                                Err(e) => r matches Err(e2) && e2 == e,
                                Ok(()) => r matches Ok(
                                    NativeDriverUninstallResult::Removed { install_path: p, version: v },
                                ) && p == d.install_path && v == d.version,
                            },
                    }
            },
        },
{
    let driver = match native_driver_info(drivers) {
        Some(d) => d,
        None => {
            return Ok(NativeDriverUninstallResult::NotInstalled);
        },
    };
    if !interactive {
        return Ok(
            NativeDriverUninstallResult::Skipped {
                install_path: driver.install_path,
                reason: owned("run `rusty-jack uninstall` interactively to remove the native driver"),
            },
        );
    }
    let ghost c = confirm;
    let answer = confirm();
    assert(call_ensures(c, (), answer));
    match answer {
        Err(e) => {
            return Err(e);
        },
        Ok(false) => {
            return Ok(
                NativeDriverUninstallResult::Skipped {
                    install_path: driver.install_path,
                    reason: owned("user declined native driver removal"),
                },
            );
        },
        Ok(true) => {},
    }
    let ghost f = remove;
    let done = remove();
    assert(call_ensures(f, (), done));
    match done {
        Err(e) => Err(e),
        Ok(()) => Ok(
            NativeDriverUninstallResult::Removed {
                install_path: driver.install_path,
                version: driver.version,
            },
        ),
    }
}

/// The question asked before upgrading the driver.
pub fn upgrade_prompt(install_path: &str) -> (r: String)
    ensures
        r@ == "Upgrade Rusty Jack native audio driver at "@ + install_path@ + "?"@,
{
    concat3("Upgrade Rusty Jack native audio driver at ", install_path, "?")
}

/// The changed-bundle verdict that `dirs_differ` leads to.
pub open spec fn changed_verdict(
    source_info: HalDriverInfo,
    installed: HalDriverInfo,
    dirs: Result<bool, RustyJackError>,
) -> Result<bool, RustyJackError> {
    if opt_view(source_info.version) != opt_view(installed.version) {
        Ok(true)
    } else {
        dirs
    }
}

/// Upgrade the installed driver from the bundled one when it changed and the
/// user agrees. `dirs_differ` compares the bundle trees, `confirm` asks (see
/// [`upgrade_prompt`]), `install` copies the bundle over the installed one.
pub fn upgrade_if_materially_changed<D, C, I>(
    drivers: &[HalDriverInfo],
    source_path: Option<&str>,
    source_info: Option<&HalDriverInfo>,
    offered: bool,
    interactive: bool,
    dirs_differ: D,
    confirm: C,
    install: I,
) -> (r: Result<NativeDriverUpgradeResult, RustyJackError>) where
    D: FnOnce() -> Result<bool, RustyJackError>,
    C: FnOnce() -> Result<bool, RustyJackError>,
    I: FnOnce() -> Result<(), RustyJackError>,

    requires
        call_requires(dirs_differ, ()),
        call_requires(confirm, ()),
        call_requires(install, ()),
    ensures
        match spec_native_driver(drivers@) {
            None => r matches Ok(NativeDriverUpgradeResult::NotInstalled),
            Some(d) => match (source_path, source_info) {
                (None, _) => r matches Ok(
                    NativeDriverUpgradeResult::BundleUnavailable { install_path: p, message: m },
                ) && p == d.install_path && m@ == spec_bundle_unavailable_message(),
                (Some(src), None) => r matches Err(RustyJackError::Config(e)) && e@
                    == missing_plist_message(src@),
                (Some(src), Some(info)) => exists|dirs: Result<bool, RustyJackError>|
                    #![trigger changed_verdict(*info, d, dirs)]
                    (opt_view(info.version) == opt_view(d.version) ==> call_ensures(
                        dirs_differ,
                        (),
                        dirs,
                    )) && match changed_verdict(*info, d, dirs) {
                        Err(e) => r matches Err(e2) && e2 == e,
                        Ok(changed) => if !changed || !offered {
                            r matches Ok(
                                NativeDriverUpgradeResult::UpToDate { install_path: p, version: v },
                            ) && p == d.install_path && v == d.version
                        } else if !interactive {
                            r matches Ok(
                                NativeDriverUpgradeResult::Skipped { install_path: p, reason: s },
                            ) && p == d.install_path && s@
                                == "run `rusty-jack upgrade` interactively to upgrade the native driver"@
                        } else {
                            exists|answer: Result<bool, RustyJackError>|
                                #![trigger call_ensures(confirm, (), answer)]
                                call_ensures(confirm, (), answer) && match answer {
                                    Err(e) => r matches Err(e2) && e2 == e,
                                    Ok(false) => r matches Ok(
                                        NativeDriverUpgradeResult::Skipped {
                                            install_path: p,
                                            reason: s,
                                        },
                                    ) && p == d.install_path && s@
                                        == "user declined native driver upgrade"@,
                                    Ok(true) => exists|done: Result<(), RustyJackError>|
                                        #![trigger call_ensures(install, (), done)]
                                        call_ensures(install, (), done) && match done {
                                            Err(e) => r matches Err(e2) && e2 == e,
                                            Ok(()) => r matches Ok(
                                                NativeDriverUpgradeResult::Upgraded {
                                                    source_path: sp,
                                                    install_path: p,
                                                    from_version: fv,
                                                    to_version: tv,
                                                },
                                            ) && sp@ == src@ && p == d.install_path && fv
                                                == d.version && tv == info.version,
                                        },
                                }
                        },
                    },
            },
        },
{
    let installed = match native_driver_info(drivers) {
        Some(d) => d,
        None => {
            return Ok(NativeDriverUpgradeResult::NotInstalled);
        },
    };
    let source = match source_path {
        Some(s) => s,
        None => {
            return Ok(
                NativeDriverUpgradeResult::BundleUnavailable {
                    install_path: installed.install_path,
                    message: bundle_unavailable_message(),
                },
            );
        },
    };
    let info = match source_info {
        Some(i) => i,
        None => {
            return Err(missing_plist(source));
        },
    };
    let ghost fd = dirs_differ;
    let changed = driver_materially_changed(info, &installed, dirs_differ);
    assert(exists|dirs: Result<bool, RustyJackError>|
        #![trigger changed_verdict(*info, installed, dirs)]
        (opt_view(info.version) == opt_view(installed.version) ==> call_ensures(fd, (), dirs))
            && changed_verdict(*info, installed, dirs) == changed) by {
        if opt_view(info.version) == opt_view(installed.version) {
            assert(changed_verdict(*info, installed, changed) == changed);
        } else {
            assert(changed_verdict(*info, installed, changed) == changed);
        }
    }
    let changed = match changed {
        Err(e) => {
            return Err(e);
        },
        Ok(c) => c,
    };
    if !changed || !offered {
        return Ok(
            NativeDriverUpgradeResult::UpToDate {
                install_path: installed.install_path,
                version: installed.version,
            },
        );
    }
    if !interactive {
        return Ok(
            NativeDriverUpgradeResult::Skipped {
                install_path: installed.install_path,
                reason: owned("run `rusty-jack upgrade` interactively to upgrade the native driver"),
            },
        );
    }
    let ghost c = confirm;
    let answer = confirm();
    assert(call_ensures(c, (), answer));
    match answer {
        Err(e) => {
            return Err(e);
        },
        Ok(false) => {
            return Ok(
                NativeDriverUpgradeResult::Skipped {
                    install_path: installed.install_path,
                    reason: owned("user declined native driver upgrade"),
                },
            );
        },
        Ok(true) => {},
    }
    let ghost f = install;
    let done = install();
    assert(call_ensures(f, (), done));
    match done {
        Err(e) => Err(e),
        Ok(()) => Ok(
            NativeDriverUpgradeResult::Upgraded {
                source_path: owned(source),
                install_path: installed.install_path,
                from_version: installed.version,
                to_version: clone_opt(&info.version),
            },
        ),
    }
}


/// After a successful copy to `install_path`: the `Installed` result.
pub open spec fn installed_as(
    r: Result<NativeDriverInstallResult, RustyJackError>,
    source: Seq<char>,
    install_path: Seq<char>,
    info: HalDriverInfo,
) -> bool {
    r matches Ok(NativeDriverInstallResult::Installed { source_path: sp, install_path: ip, version: v })
        && sp@ == source && ip@ == install_path && v == info.version
}

/// The system-wide copy: `sudo_install`, then `remove_user_copy`, the first
/// failure ending the install.
pub open spec fn system_copy_outcome<S, U>(
    sudo_install: S,
    remove_user_copy: U,
    r: Result<NativeDriverInstallResult, RustyJackError>,
    source: Seq<char>,
    info: HalDriverInfo,
) -> bool where
    S: FnOnce() -> Result<(), RustyJackError>,
    U: FnOnce() -> Result<(), RustyJackError>,
 {
    exists|done: Result<(), RustyJackError>|
        #![trigger call_ensures(sudo_install, (), done)]
        call_ensures(sudo_install, (), done) && match done {
            Err(e) => r matches Err(e2) && e2 == e,
            Ok(_) => exists|cleaned: Result<(), RustyJackError>|
                #![trigger call_ensures(remove_user_copy, (), cleaned)]
                call_ensures(remove_user_copy, (), cleaned) && match cleaned {
                    Err(e) => r matches Err(e2) && e2 == e,
                    Ok(_) => installed_as(r, source, SYSTEM_NATIVE_DRIVER_PATH@, info),
                },
        }
}

/// A single copy by `install` to `install_path`.
pub open spec fn copy_outcome<I>(
    install: I,
    r: Result<NativeDriverInstallResult, RustyJackError>,
    source: Seq<char>,
    install_path: Seq<char>,
    info: HalDriverInfo,
) -> bool where I: FnOnce() -> Result<(), RustyJackError> {
    exists|done: Result<(), RustyJackError>|
        #![trigger call_ensures(install, (), done)]
        call_ensures(install, (), done) && match done {
            Err(e) => r matches Err(e2) && e2 == e,
            Ok(_) => installed_as(r, source, install_path, info),
        }
}

/// Keep an installed driver `d` when it is unchanged (`dirs_differ` decides
/// at equal versions); otherwise `otherwise` holds.
pub open spec fn unless_unchanged<D>(
    dirs_differ: D,
    r: Result<NativeDriverInstallResult, RustyJackError>,
    info: HalDriverInfo,
    d: HalDriverInfo,
    otherwise: bool,
) -> bool where D: FnOnce() -> Result<bool, RustyJackError> {
    exists|dirs: Result<bool, RustyJackError>|
        #![trigger changed_verdict(info, d, dirs)]
        (opt_view(info.version) == opt_view(d.version) ==> call_ensures(dirs_differ, (), dirs))
            && match changed_verdict(info, d, dirs) {
            Err(e) => r matches Err(e2) && e2 == e,
            Ok(false) => r matches Ok(
                NativeDriverInstallResult::AlreadyInstalled { install_path: p, version: v },
            ) && p == d.install_path && v == d.version,
            Ok(true) => otherwise,
        }
}

/// Install the bundled driver under `/Library/Audio/Plug-Ins/HAL` (through
/// `sudo_install`), unless the same driver is already there; then drop any
/// user-scoped copy (`remove_user_copy`).
pub fn install_bundled_native_driver_to_system_hal<D, S, U>(
    drivers: &[HalDriverInfo],
    source_path: Option<&str>,
    source_info: Option<&HalDriverInfo>,
    dirs_differ: D,
    sudo_install: S,
    remove_user_copy: U,
) -> (r: Result<NativeDriverInstallResult, RustyJackError>) where
    D: FnOnce() -> Result<bool, RustyJackError>,
    S: FnOnce() -> Result<(), RustyJackError>,
    U: FnOnce() -> Result<(), RustyJackError>,

    requires
        call_requires(dirs_differ, ()),
        call_requires(sudo_install, ()),
        call_requires(remove_user_copy, ()),
    ensures
        match (source_path, source_info) {
            (None, _) => r matches Ok(NativeDriverInstallResult::BundleUnavailable { message: m })
                && m@ == spec_bundle_unavailable_message(),
            (Some(src), None) => r matches Err(RustyJackError::Config(e)) && e@
                == missing_plist_message(src@),
            (Some(src), Some(info)) => match spec_native_driver(drivers@) {
                Some(d) => if d.install_path@ == SYSTEM_NATIVE_DRIVER_PATH@ {
                    unless_unchanged(
                        dirs_differ,
                        r,
                        *info,
                        d,
                        system_copy_outcome(sudo_install, remove_user_copy, r, src@, *info),
                    )
                } else {
                    system_copy_outcome(sudo_install, remove_user_copy, r, src@, *info)
                },
                None => system_copy_outcome(sudo_install, remove_user_copy, r, src@, *info),
            },
        },
{
    let source = match source_path {
        Some(s) => s,
        None => {
            return Ok(
                NativeDriverInstallResult::BundleUnavailable { message: bundle_unavailable_message() },
            );
        },
    };
    let info = match source_info {
        Some(i) => i,
        None => {
            return Err(missing_plist(source));
        },
    };
    if let Some(installed) = native_driver_info(drivers) {
        if str_eq(installed.install_path.as_str(), SYSTEM_NATIVE_DRIVER_PATH) {
            let ghost fd = dirs_differ;
            let changed = driver_materially_changed(info, &installed, dirs_differ);
            assert(changed_verdict(*info, installed, changed) == changed);
            match changed {
                Err(e) => {
                    return Err(e);
                },
                Ok(false) => {
                    return Ok(
                        NativeDriverInstallResult::AlreadyInstalled {
                            install_path: installed.install_path,
                            version: installed.version,
                        },
                    );
                },
                Ok(true) => {},
            }
        }
    }
    let ghost fs = sudo_install;
    let done = sudo_install();
    assert(call_ensures(fs, (), done));
    match done {
        Err(e) => {
            return Err(e);
        },
        Ok(_) => {},
    }
    let ghost fu = remove_user_copy;
    let cleaned = remove_user_copy();
    assert(call_ensures(fu, (), cleaned));
    match cleaned {
        Err(e) => {
            return Err(e);
        },
        Ok(_) => {},
    }
    Ok(
        NativeDriverInstallResult::Installed {
            source_path: owned(source),
            install_path: owned(SYSTEM_NATIVE_DRIVER_PATH),
            version: clone_opt(&info.version),
        },
    )
}

/// Install the bundled driver for the current user (at `install_path`),
/// unless an unchanged copy is already installed.
pub fn install_bundled_native_driver<D, I>(
    drivers: &[HalDriverInfo],
    source_path: Option<&str>,
    source_info: Option<&HalDriverInfo>,
    install_path: Option<&str>,
    dirs_differ: D,
    install: I,
) -> (r: Result<NativeDriverInstallResult, RustyJackError>) where
    D: FnOnce() -> Result<bool, RustyJackError>,
    I: FnOnce() -> Result<(), RustyJackError>,

    requires
        call_requires(dirs_differ, ()),
        call_requires(install, ()),
    ensures
        match (source_path, source_info, install_path) {
            (None, _, _) => r matches Ok(NativeDriverInstallResult::BundleUnavailable { message: m })
                && m@ == spec_bundle_unavailable_message(),
            (Some(src), None, _) => r matches Err(RustyJackError::Config(e)) && e@
                == missing_plist_message(src@),
            (Some(_), Some(_), None) => r matches Err(RustyJackError::Config(e)) && e@
                == no_home_message(),
            (Some(src), Some(info), Some(dest)) => match spec_native_driver(drivers@) {
                Some(d) => unless_unchanged(
                    dirs_differ,
                    r,
                    *info,
                    d,
                    copy_outcome(install, r, src@, dest@, *info),
                ),
                None => copy_outcome(install, r, src@, dest@, *info),
            },
        },
{
    let source = match source_path {
        Some(s) => s,
        None => {
            return Ok(
                NativeDriverInstallResult::BundleUnavailable { message: bundle_unavailable_message() },
            );
        },
    };
    let info = match source_info {
        Some(i) => i,
        None => {
            return Err(missing_plist(source));
        },
    };
    let dest = match install_path {
        Some(d) => d,
        None => {
            return Err(RustyJackError::Config(owned("HOME is not set; cannot locate HAL Plug-Ins directory")));
        },
    };
    if let Some(installed) = native_driver_info(drivers) {
        let changed = driver_materially_changed(info, &installed, dirs_differ);
        assert(changed_verdict(*info, installed, changed) == changed);
        match changed {
            Err(e) => {
                return Err(e);
            },
            Ok(false) => {
                return Ok(
                    NativeDriverInstallResult::AlreadyInstalled {
                        install_path: installed.install_path,
                        version: installed.version,
                    },
                );
            },
            Ok(true) => {},
        }
    }
    let ghost f = install;
    let done = install();
    assert(call_ensures(f, (), done));
    match done {
        Err(e) => {
            return Err(e);
        },
        Ok(_) => {},
    }
    Ok(
        NativeDriverInstallResult::Installed {
            source_path: owned(source),
            install_path: owned(dest),
            version: clone_opt(&info.version),
        },
    )
}

/// Where the driver may be installed: system-wide, then the user's copy when
/// that is a different place.
pub open spec fn spec_candidates(home: Option<Seq<char>>) -> Seq<Seq<char>> {
    match home {
        Some(h) => if spec_user_install_path(h) == SYSTEM_NATIVE_DRIVER_PATH@ {
            seq![SYSTEM_NATIVE_DRIVER_PATH@]
        } else {
            seq![SYSTEM_NATIVE_DRIVER_PATH@, spec_user_install_path(h)]
        },
        None => seq![SYSTEM_NATIVE_DRIVER_PATH@],
    }
}

pub fn native_driver_candidates(home: Option<&str>) -> (r: Vec<String>)
    ensures
        crate::text::texts(r@) == spec_candidates(opt_text(home)),
{
    let mut out: Vec<String> = Vec::new();
    crate::text::push_line(&mut out, owned(SYSTEM_NATIVE_DRIVER_PATH));
    if let Some(user) = native_driver_install_path(home) {
        if !str_eq(user.as_str(), SYSTEM_NATIVE_DRIVER_PATH) {
            crate::text::push_line(&mut out, user);
        }
    }
    assert(crate::text::texts(out@) =~= spec_candidates(opt_text(home)));
    out
}

/// A driver bundle found on disk, with its version when readable.
#[derive(Debug)]
pub struct DriverOnDisk {
    pub path: String,
    pub version: Option<String>,
}

/// `remove(k)` succeeded.
pub open spec fn removal_ok<R>(remove: R, k: usize) -> bool where
    R: Fn(usize) -> Result<(), RustyJackError>,
 {
    exists|d: Result<(), RustyJackError>|
        #![trigger call_ensures(remove, (k,), d)]
        call_ensures(remove, (k,), d) && d is Ok
}

/// Remove every installed copy (`remove(i)` deletes `found[i]`), stopping at
/// the first failure; report the last copy removed.
pub fn remove_native_driver_if_installed<R>(found: &[DriverOnDisk], remove: R) -> (r: Result<
    NativeDriverUninstallResult,
    RustyJackError,
>) where R: Fn(usize) -> Result<(), RustyJackError>,
    requires
        forall|i: usize| i < found@.len() ==> call_requires(remove, (i,)),
    ensures
        found@.len() == 0 ==> r matches Ok(NativeDriverUninstallResult::NotInstalled),
        found@.len() > 0 ==> match r {
            Ok(NativeDriverUninstallResult::Removed { install_path: p, version: v }) => {
                &&& p == found@.last().path
                &&& v == found@.last().version
                &&& forall|i: usize| i < found@.len() ==> #[trigger] removal_ok(remove, i)
            },
            Err(e) => exists|i: usize|
                i < found@.len() && #[trigger] call_ensures(
                    remove,
                    (i,),
                    Err::<(), RustyJackError>(e),
                ),
            _ => false,
        },
{
    if found.len() == 0 {
        return Ok(NativeDriverUninstallResult::NotInstalled);
    }
    let mut i: usize = 0;
    while i < found.len()
        invariant
            i <= found@.len(),
            forall|k: usize| k < found@.len() ==> call_requires(remove, (k,)),
            forall|k: usize| k < i ==> #[trigger] removal_ok(remove, k),
        decreases found@.len() - i,
    {
        let done = remove(i);
        let ghost d = done;
        assert(call_ensures(remove, (i,), d));
        match done {
            Err(e) => {
                return Err(e);
            },
            Ok(_) => {
                assert(removal_ok(remove, i));
            },
        }
        i = i + 1;
    }
    let last = &found[found.len() - 1];
    Ok(
        NativeDriverUninstallResult::Removed {
            install_path: last.path.clone(),
            version: clone_opt(&last.version),
        },
    )
}

pub open spec fn backup_conflict_reason(backup_path: Seq<char>) -> Seq<char> {
    "eqMac driver exists at "@ + EQMAC_HAL_DRIVER_PATH@
        + " and a managed backup also exists at "@ + backup_path
        + "; inspect before swapping"@
}

/// `install_system` runs; its result goes into the swap-in outcome.
pub open spec fn install_with_backup<S>(
    install_system: S,
    eqmac_backup: Option<EqMacDriverBackupInfo>,
    r: Result<DriverSwapInResult, RustyJackError>,
) -> bool where S: FnOnce() -> Result<NativeDriverInstallResult, RustyJackError> {
    exists|inst: Result<NativeDriverInstallResult, RustyJackError>|
        #![trigger call_ensures(install_system, (), inst)]
        call_ensures(install_system, (), inst) && match inst {
            Err(e) => r matches Err(e2) && e2 == e,
            Ok(n) => r matches Ok(DriverSwapInResult::SwappedIn { eqmac_backup: b, native_driver: n2 })
                && b == eqmac_backup && n2 == n,
        }
}

/// `backup` moves eqMac's driver aside, then `install_system` runs.
pub open spec fn backup_then_install<B, S>(
    backup: B,
    install_system: S,
    r: Result<DriverSwapInResult, RustyJackError>,
) -> bool where
    B: FnOnce() -> Result<Option<EqMacDriverBackupInfo>, RustyJackError>,
    S: FnOnce() -> Result<NativeDriverInstallResult, RustyJackError>,
 {
    exists|saved: Result<Option<EqMacDriverBackupInfo>, RustyJackError>|
        #![trigger call_ensures(backup, (), saved)]
        call_ensures(backup, (), saved) && match saved {
            Err(e) => r matches Err(e2) && e2 == e,
            Ok(info) => install_with_backup(install_system, info, r),
        }
}

/// Swap the native driver in for a system HAL test: move eqMac's system
/// driver aside (`backup`, after `confirm` when interactive), then install
/// system-wide (`install_system`). Each step need only be callable where it is
/// used, so when the swap is skipped nothing is backed up or installed, and the
/// install follows only a successful backup (or no eqMac driver at all).
pub fn swap_in_for_testing<C, B, S>(
    eqmac_present: bool,
    backup_path: Option<&str>,
    backup_present: bool,
    existing_backup: Option<EqMacDriverBackupInfo>,
    allow_moves: bool,
    interactive: bool,
    confirm: C,
    backup: B,
    install_system: S,
) -> (r: Result<DriverSwapInResult, RustyJackError>) where
    C: FnOnce() -> Result<bool, RustyJackError>,
    B: FnOnce() -> Result<Option<EqMacDriverBackupInfo>, RustyJackError>,
    S: FnOnce() -> Result<NativeDriverInstallResult, RustyJackError>,

    requires
        backup_path is Some && eqmac_present && !backup_present && allow_moves && interactive
            ==> call_requires(confirm, ()),
        backup_path is Some && eqmac_present && !backup_present && allow_moves && !interactive
            ==> call_requires(backup, ()),
        backup_path is Some && eqmac_present && !backup_present && allow_moves && interactive
            ==> forall|answer: Result<bool, RustyJackError>|
            #![trigger call_ensures(confirm, (), answer)]
            call_ensures(confirm, (), answer) && answer == Ok::<bool, RustyJackError>(true)
                ==> call_requires(backup, ()),
        backup_path is Some && eqmac_present && !backup_present && allow_moves ==> forall|
            saved: Result<Option<EqMacDriverBackupInfo>, RustyJackError>,
        |
            #![trigger call_ensures(backup, (), saved)]
            call_ensures(backup, (), saved) && saved is Ok ==> call_requires(install_system, ()),
        backup_path is Some && !eqmac_present ==> call_requires(install_system, ()),
    ensures
        match backup_path {
            None => r matches Err(RustyJackError::Config(e)) && e@
                == "HOME is not set; cannot locate eqMac driver backup path"@,
            Some(bp) => if eqmac_present && backup_present {
                r matches Ok(DriverSwapInResult::Skipped { reason: s, command: None }) && s@
                    == backup_conflict_reason(bp@)
            } else if eqmac_present {
                if !allow_moves {
                    r matches Ok(DriverSwapInResult::Skipped { reason: s, command: Some(c) }) && s@
                        == "moving the system eqMac HAL driver requires interactive confirmation (or set RUSTY_JACK_HAL_DRIVER_SMOKE=1)"@
                        && c@ == "rusty-jack driver swap-in"@
                } else if interactive {
                    exists|answer: Result<bool, RustyJackError>|
                        #![trigger call_ensures(confirm, (), answer)]
                        call_ensures(confirm, (), answer) && match answer {
                            Err(e) => r matches Err(e2) && e2 == e,
                            Ok(false) => r matches Ok(
                                DriverSwapInResult::Skipped { reason: s, command: None },
                            ) && s@ == "user declined driver swap-in"@,
                            Ok(true) => backup_then_install(backup, install_system, r),
                        }
                } else {
                    backup_then_install(backup, install_system, r)
                }
            } else {
                install_with_backup(
                    install_system,
                    if backup_present {
                        existing_backup
                    } else {
                        None
                    },
                    r,
                )
            },
        },
{
    let bp = match backup_path {
        Some(p) => p,
        None => {
            return Err(RustyJackError::Config(owned("HOME is not set; cannot locate eqMac driver backup path")));
        },
    };
    let action = plan_swap_in(eqmac_present, backup_present);
    let eqmac_backup = match action {
        SwapInEqMacAction::BackUpSystemDriver => {
            if !allow_moves {
                return Ok(
                    DriverSwapInResult::Skipped {
                        reason: owned(
                            "moving the system eqMac HAL driver requires interactive confirmation (or set RUSTY_JACK_HAL_DRIVER_SMOKE=1)",
                        ),
                        command: Some(owned("rusty-jack driver swap-in")),
                    },
                );
            }
            if interactive {
                let ghost fc = confirm;
                let answer = confirm();
                assert(call_ensures(fc, (), answer));
                match answer {
                    Err(e) => {
                        return Err(e);
                    },
                    Ok(false) => {
                        return Ok(
                            DriverSwapInResult::Skipped {
                                reason: owned("user declined driver swap-in"),
                                command: None,
                            },
                        );
                    },
                    Ok(true) => {},
                }
            }
            let ghost fb = backup;
            let saved = backup();
            assert(call_ensures(fb, (), saved));
            match saved {
                Err(e) => {
                    return Err(e);
                },
                Ok(info) => info,
            }
        },
        SwapInEqMacAction::AlreadyBackedUp => existing_backup,
        SwapInEqMacAction::NoEqMacDriver => None,
        SwapInEqMacAction::Conflict => {
            let head = concat3(
                "eqMac driver exists at ",
                EQMAC_HAL_DRIVER_PATH,
                " and a managed backup also exists at ",
            );
            return Ok(
                DriverSwapInResult::Skipped {
                    reason: concat3(head.as_str(), bp, "; inspect before swapping"),
                    command: None,
                },
            );
        },
    };
    let ghost fi = install_system;
    let installed = install_system();
    assert(call_ensures(fi, (), installed));
    match installed {
        Err(e) => Err(e),
        Ok(native_driver) => Ok(DriverSwapInResult::SwappedIn { eqmac_backup, native_driver }),
    }
}


pub open spec fn sudo_required_message() -> Seq<char> {
    "restoring eqMac's HAL driver requires sudo (or set RUSTY_JACK_HAL_DRIVER_SMOKE=1)"@
}

pub open spec fn embedded_missing_message() -> Seq<char> {
    "eqMac is installed but its HAL driver is missing at "@ + EQMAC_HAL_DRIVER_PATH@
        + " and no managed backup or embedded copy exists at "@ + EQMAC_EMBEDDED_DRIVER_PATH@
}

/// `step` runs; a failure ends the restore with its error, success leads to
/// `next`.
pub open spec fn step_then<F>(
    step: F,
    r: Result<EqMacHalRestoreResult, RustyJackError>,
    next: bool,
) -> bool where F: FnOnce() -> Result<(), RustyJackError> {
    exists|d: Result<(), RustyJackError>|
        #![trigger call_ensures(step, (), d)]
        call_ensures(step, (), d) && match d {
            Err(e) => r matches Err(e2) && e2 == e,
            Ok(_) => next,
        }
}

/// Whether restoring eqMac's HAL driver goes ahead: eqMac is installed, and sudo
/// is allowed or no step needs it (no backup to restore and the driver valid).
pub open spec fn spec_restore_proceeds(
    app_installed: bool,
    allow_sudo: bool,
    backup_present: bool,
    eqmac_valid: bool,
) -> bool {
    app_installed && !(!allow_sudo && (backup_present || !eqmac_valid))
}

/// Restore eqMac's system HAL driver after native-driver testing, when eqMac is
/// installed: from the managed backup when there is one, else keep a valid
/// driver in place, else reinstall the copy embedded in `eqMac.app`; CoreAudio
/// is restarted in each case. The native driver is removed first
/// (`remove_native`, whose outcome does not matter here). Each step need only
/// be callable in the cases that use it, so when eqMac is absent or sudo is
/// refused nothing is removed, and nothing is restored or reinstalled that the
/// case does not call for.
pub fn restore_eqmac_hal_driver<N, M, B, F, E, V, R>(
    app_installed: bool,
    allow_sudo: bool,
    backup_present: bool,
    backup_version: Option<String>,
    eqmac_present: bool,
    eqmac_valid: bool,
    eqmac_version: Option<String>,
    embedded_present: bool,
    remove_native: N,
    remove_eqmac: M,
    restore_backup: B,
    forget_backup: F,
    install_embedded: E,
    read_version: V,
    restart_coreaudiod: R,
) -> (r: Result<EqMacHalRestoreResult, RustyJackError>) where
    N: FnOnce() -> Result<NativeDriverUninstallResult, RustyJackError>,
    M: FnOnce() -> Result<(), RustyJackError>,
    B: FnOnce() -> Result<(), RustyJackError>,
    F: FnOnce() -> Result<(), RustyJackError>,
    E: FnOnce() -> Result<(), RustyJackError>,
    V: FnOnce() -> Option<String>,
    R: FnOnce() -> Result<(), RustyJackError>,

    requires
        spec_restore_proceeds(app_installed, allow_sudo, backup_present, eqmac_valid) ==> {
            &&& call_requires(remove_native, ())
            &&& eqmac_present && (backup_present || (!eqmac_valid && embedded_present))
                ==> call_requires(remove_eqmac, ())
            &&& backup_present ==> call_requires(restore_backup, ()) && call_requires(
                forget_backup,
                (),
            )
            &&& backup_present || eqmac_valid || embedded_present ==> call_requires(
                restart_coreaudiod,
                (),
            )
            &&& !backup_present && !eqmac_valid && embedded_present ==> call_requires(
                install_embedded,
                (),
            ) && call_requires(read_version, ())
        },
    ensures
        if !app_installed {
            r matches Ok(EqMacHalRestoreResult::NotNeeded)
        } else if !allow_sudo && (backup_present || !eqmac_valid) {
            r matches Err(RustyJackError::Config(m)) && m@ == sudo_required_message()
        } else if backup_present {
            ({
                let restored = step_then(
                    restore_backup,
                    r,
                    step_then(
                        forget_backup,
                        r,
                        step_then(
                            restart_coreaudiod,
                            r,
                            r matches Ok(
                                EqMacHalRestoreResult::RestoredFromBackup { install_path: p, version: v },
                            ) && p@ == EQMAC_HAL_DRIVER_PATH@ && v == backup_version,
                        ),
                    ),
                );
                if eqmac_present {
                    step_then(remove_eqmac, r, restored)
                } else {
                    restored
                }
            })
        } else if eqmac_valid {
            step_then(
                restart_coreaudiod,
                r,
                r matches Ok(EqMacHalRestoreResult::AlreadyPresent { install_path: p, version: v })
                    && p@ == EQMAC_HAL_DRIVER_PATH@ && v == eqmac_version,
            )
        } else if !embedded_present {
            r matches Err(RustyJackError::Config(m)) && m@ == embedded_missing_message()
        } else {
            ({
                let reinstalled = step_then(
                    install_embedded,
                    r,
                    exists|v: Option<String>|
                        #![trigger call_ensures(read_version, (), v)]
                        call_ensures(read_version, (), v) && step_then(
                            restart_coreaudiod,
                            r,
                            r matches Ok(
                                EqMacHalRestoreResult::ReinstalledFromAppBundle {
                                    install_path: p,
                                    source_path: sp,
                                    version: v2,
                                },
                            ) && p@ == EQMAC_HAL_DRIVER_PATH@ && sp@ == EQMAC_EMBEDDED_DRIVER_PATH@
                                && v2 == v,
                        ),
                );
                if eqmac_present {
                    step_then(remove_eqmac, r, reinstalled)
                } else {
                    reinstalled
                }
            })
        },
{
    if !app_installed {
        return Ok(EqMacHalRestoreResult::NotNeeded);
    }
    if !allow_sudo && (backup_present || !eqmac_valid) {
        return Err(
            RustyJackError::Config(
                owned(
                    "restoring eqMac's HAL driver requires sudo (or set RUSTY_JACK_HAL_DRIVER_SMOKE=1)",
                ),
            ),
        );
    }
    let _ = remove_native();
    if backup_present {
        if eqmac_present {
            let ghost f = remove_eqmac;
            let d = remove_eqmac();
            assert(call_ensures(f, (), d));
            match d {
                Err(e) => {
                    return Err(e);
                },
                Ok(_) => {},
            }
        }
        let ghost fb = restore_backup;
        let d = restore_backup();
        assert(call_ensures(fb, (), d));
        match d {
            Err(e) => {
                return Err(e);
            },
            Ok(_) => {},
        }
        let ghost ff = forget_backup;
        let d = forget_backup();
        assert(call_ensures(ff, (), d));
        match d {
            Err(e) => {
                return Err(e);
            },
            Ok(_) => {},
        }
        let ghost fr = restart_coreaudiod;
        let d = restart_coreaudiod();
        assert(call_ensures(fr, (), d));
        match d {
            Err(e) => {
                return Err(e);
            },
            Ok(_) => {},
        }
        return Ok(
            EqMacHalRestoreResult::RestoredFromBackup {
                install_path: owned(EQMAC_HAL_DRIVER_PATH),
                version: backup_version,
            },
        );
    }
    if eqmac_valid {
        let ghost fr = restart_coreaudiod;
        let d = restart_coreaudiod();
        assert(call_ensures(fr, (), d));
        match d {
            Err(e) => {
                return Err(e);
            },
            Ok(_) => {},
        }
        return Ok(
            EqMacHalRestoreResult::AlreadyPresent {
                install_path: owned(EQMAC_HAL_DRIVER_PATH),
                version: eqmac_version,
            },
        );
    }
    if !embedded_present {
        let head = concat3(
            "eqMac is installed but its HAL driver is missing at ",
            EQMAC_HAL_DRIVER_PATH,
            " and no managed backup or embedded copy exists at ",
        );
        return Err(RustyJackError::Config(concat2(head.as_str(), EQMAC_EMBEDDED_DRIVER_PATH)));
    }
    if eqmac_present {
        let ghost f = remove_eqmac;
        let d = remove_eqmac();
        assert(call_ensures(f, (), d));
        match d {
            Err(e) => {
                return Err(e);
            },
            Ok(_) => {},
        }
    }
    let ghost fi = install_embedded;
    let d = install_embedded();
    assert(call_ensures(fi, (), d));
    match d {
        Err(e) => {
            return Err(e);
        },
        Ok(_) => {},
    }
    let ghost fv = read_version;
    let version = read_version();
    assert(call_ensures(fv, (), version));
    let ghost fr = restart_coreaudiod;
    let d = restart_coreaudiod();
    assert(call_ensures(fr, (), d));
    match d {
        Err(e) => {
            return Err(e);
        },
        Ok(_) => {},
    }
    Ok(
        EqMacHalRestoreResult::ReinstalledFromAppBundle {
            install_path: owned(EQMAC_HAL_DRIVER_PATH),
            source_path: owned(EQMAC_EMBEDDED_DRIVER_PATH),
            version,
        },
    )
}

/// The eqMac driver a restore put back, as a backup record: from the managed
/// backup (at `backup_path`, or empty when unknown) or from the app bundle.
pub open spec fn spec_restored_info(
    result: EqMacHalRestoreResult,
    backup_path: Option<Seq<char>>,
    info: Option<EqMacDriverBackupInfo>,
) -> bool {
    match result {
        EqMacHalRestoreResult::RestoredFromBackup { version, .. } => info matches Some(i)
            && i.original_path@ == EQMAC_HAL_DRIVER_PATH@ && i.backup_path@ == (match backup_path {
            Some(b) => b,
            None => Seq::<char>::empty(),
        }) && i.version == version && i.backed_up_at_unix is None,
        EqMacHalRestoreResult::ReinstalledFromAppBundle { version, .. } => info matches Some(i)
            && i.original_path@ == EQMAC_HAL_DRIVER_PATH@ && i.backup_path@
            == EQMAC_EMBEDDED_DRIVER_PATH@ && i.version == version && i.backed_up_at_unix is None,
        _ => info is None,
    }
}

pub fn eqmac_restore_backup_info(result: &EqMacHalRestoreResult, backup_path: Option<&str>) -> (r:
    Option<EqMacDriverBackupInfo>)
    ensures
        spec_restored_info(*result, opt_text(backup_path), r),
{
    match result {
        EqMacHalRestoreResult::NotNeeded => None,
        EqMacHalRestoreResult::AlreadyPresent { .. } => None,
        EqMacHalRestoreResult::RestoredFromBackup { version, .. } => {
            let bp = match backup_path {
                Some(b) => owned(b),
                None => String::new(),
            };
            Some(
                EqMacDriverBackupInfo {
                    original_path: owned(EQMAC_HAL_DRIVER_PATH),
                    backup_path: bp,
                    version: clone_opt(version),
                    backed_up_at_unix: None,
                },
            )
        },
        EqMacHalRestoreResult::ReinstalledFromAppBundle { version, .. } => Some(
            EqMacDriverBackupInfo {
                original_path: owned(EQMAC_HAL_DRIVER_PATH),
                backup_path: owned(EQMAC_EMBEDDED_DRIVER_PATH),
                version: clone_opt(version),
                backed_up_at_unix: None,
            },
        ),
    }
}

/// After the native driver is removed (`native`) and eqMac restored
/// (`restored`): up to date when neither had anything to do.
pub open spec fn swap_out_tail<N, R>(
    remove_native: N,
    restore: R,
    allow_moves: bool,
    backup_path: Option<Seq<char>>,
    r: Result<DriverSwapOutResult, RustyJackError>,
) -> bool where
    N: FnOnce() -> Result<NativeDriverUninstallResult, RustyJackError>,
    R: FnOnce(bool) -> Result<EqMacHalRestoreResult, RustyJackError>,
 {
    exists|n: Result<NativeDriverUninstallResult, RustyJackError>|
        #![trigger call_ensures(remove_native, (), n)]
        call_ensures(remove_native, (), n) && match n {
            Err(e) => r matches Err(e2) && e2 == e,
            Ok(native) => exists|rs: Result<EqMacHalRestoreResult, RustyJackError>|
                #![trigger call_ensures(restore, (allow_moves,), rs)]
                call_ensures(restore, (allow_moves,), rs) && match rs {
                    Err(e) => r matches Err(e2) && e2 == e,
                    Ok(res) => if res is NotNeeded && native is NotInstalled {
                        r matches Ok(DriverSwapOutResult::UpToDate { message: m }) && m@
                            == "Rusty Jack driver is absent and eqMac is not installed"@
                    } else {
                        r matches Ok(
                            DriverSwapOutResult::SwappedOut { restored_eqmac: b, native_driver: n2 },
                        ) && n2 == native && spec_restored_info(res, backup_path, b)
                    },
                },
        }
}

/// Undo a swap-in: remove the native driver (`remove_native`) and restore
/// eqMac's driver (`restore`, told whether system moves are allowed).
pub fn swap_out_for_testing<C, N, R>(
    app_installed: bool,
    allow_moves: bool,
    interactive: bool,
    backup_path: Option<&str>,
    confirm: C,
    remove_native: N,
    restore: R,
) -> (r: Result<DriverSwapOutResult, RustyJackError>) where
    C: FnOnce() -> Result<bool, RustyJackError>,
    N: FnOnce() -> Result<NativeDriverUninstallResult, RustyJackError>,
    R: FnOnce(bool) -> Result<EqMacHalRestoreResult, RustyJackError>,

    requires
        call_requires(confirm, ()),
        call_requires(remove_native, ()),
        call_requires(restore, (allow_moves,)),
    ensures
        if !allow_moves && app_installed {
            r matches Ok(DriverSwapOutResult::Skipped { reason: s, command: Some(c) }) && s@
                == "restoring the system eqMac HAL driver requires interactive confirmation (or set RUSTY_JACK_HAL_DRIVER_SMOKE=1)"@
                && c@ == "rusty-jack driver swap-out"@
        } else if interactive && app_installed {
            exists|answer: Result<bool, RustyJackError>|
                #![trigger call_ensures(confirm, (), answer)]
                call_ensures(confirm, (), answer) && match answer {
                    Err(e) => r matches Err(e2) && e2 == e,
                    Ok(false) => r matches Ok(DriverSwapOutResult::Skipped { reason: s, command: None })
                        && s@ == "user declined driver swap-out"@,
                    Ok(true) => swap_out_tail(
                        remove_native,
                        restore,
                        allow_moves,
                        opt_text(backup_path),
                        r,
                    ),
                }
        } else {
            swap_out_tail(remove_native, restore, allow_moves, opt_text(backup_path), r)
        },
{
    if !allow_moves && app_installed {
        return Ok(
            DriverSwapOutResult::Skipped {
                reason: owned(
                    "restoring the system eqMac HAL driver requires interactive confirmation (or set RUSTY_JACK_HAL_DRIVER_SMOKE=1)",
                ),
                command: Some(owned("rusty-jack driver swap-out")),
            },
        );
    }
    if interactive && app_installed {
        let ghost fc = confirm;
        let answer = confirm();
        assert(call_ensures(fc, (), answer));
        match answer {
            Err(e) => {
                return Err(e);
            },
            Ok(false) => {
                return Ok(
                    DriverSwapOutResult::Skipped {
                        reason: owned("user declined driver swap-out"),
                        command: None,
                    },
                );
            },
            Ok(true) => {},
        }
    }
    let ghost fnat = remove_native;
    let n = remove_native();
    assert(call_ensures(fnat, (), n));
    let native_driver = match n {
        Err(e) => {
            return Err(e);
        },
        Ok(x) => x,
    };
    let ghost fres = restore;
    let rs = restore(allow_moves);
    assert(call_ensures(fres, (allow_moves,), rs));
    let restored = match rs {
        Err(e) => {
            return Err(e);
        },
        Ok(x) => x,
    };
    let restored_eqmac = eqmac_restore_backup_info(&restored, backup_path);
    let nothing_to_do = match (&restored, &native_driver) {
        (EqMacHalRestoreResult::NotNeeded, NativeDriverUninstallResult::NotInstalled) => true,
        _ => false,
    };
    if nothing_to_do {
        return Ok(
            DriverSwapOutResult::UpToDate {
                message: owned("Rusty Jack driver is absent and eqMac is not installed"),
            },
        );
    }
    Ok(DriverSwapOutResult::SwappedOut { restored_eqmac, native_driver })
}


// ---------------------------------------------------------------------------
// Human-readable summaries
// ---------------------------------------------------------------------------

pub open spec fn scope_note_for(path: Seq<char>, home: Option<Seq<char>>) -> Seq<char> {
    crate::hdmi_displayport_volume_control::spec_scope_note(
        crate::hdmi_displayport_volume_control::spec_native_driver_scope(path, home),
    )
}

/// Where a driver is, its scope, and its version when known.
pub open spec fn spec_path_lines(path: Seq<char>, version: Option<Seq<char>>, home: Option<
    Seq<char>,
>) -> Seq<Seq<char>> {
    seq!["  path:    "@ + path, "  scope:   "@ + scope_note_for(path, home)] + match version {
        Some(v) => seq!["  version: "@ + v],
        None => seq![],
    }
}

fn push_path_lines(out: &mut Vec<String>, path: &str, version: &Option<String>, home: Option<&str>)
    ensures
        crate::text::texts(final(out)@) == crate::text::texts(old(out)@) + spec_path_lines(
            path@,
            opt_view(*version),
            opt_text(home),
        ),
{
    let ghost before = crate::text::texts(out@);
    crate::text::push_line(out, concat2("  path:    ", path));
    let note = crate::hdmi_displayport_volume_control::native_driver_scope_note(path, home);
    crate::text::push_line(out, concat2("  scope:   ", note));
    if let Some(v) = version {
        crate::text::push_line(out, concat2("  version: ", v.as_str()));
    }
    assert(crate::text::texts(out@) =~= before + spec_path_lines(
        path@,
        opt_view(*version),
        opt_text(home),
    ));
}

pub open spec fn spec_install_lines(result: NativeDriverInstallResult, home: Option<Seq<char>>) -> Seq<
    Seq<char>,
> {
    match result {
        NativeDriverInstallResult::NotNeededNoHdmiDisplayPort => seq![],
        NativeDriverInstallResult::NotOffered => seq![],
        NativeDriverInstallResult::AlreadyInstalled { install_path, version } => seq![
            "Rusty Jack native audio driver already installed"@,
        ] + spec_path_lines(install_path@, opt_view(version), home),
        NativeDriverInstallResult::Installed { install_path, version, .. } => seq![
            "Installed Rusty Jack native audio driver"@,
        ] + spec_path_lines(install_path@, opt_view(version), home) + seq![
            "  note: restart audio apps if volume keys do not pick up the driver immediately"@,
        ],
        NativeDriverInstallResult::Skipped { reason } => seq![
            "Skipped native audio driver install"@,
            "  reason: "@ + reason@,
        ],
        NativeDriverInstallResult::BundleUnavailable { message } => seq![
            "Rusty Jack native audio driver bundle not available"@,
            "  note: "@ + message@,
        ],
    }
}

fn push_install_lines(out: &mut Vec<String>, result: &NativeDriverInstallResult, home: Option<&str>)
    ensures
        crate::text::texts(final(out)@) == crate::text::texts(old(out)@) + spec_install_lines(
            *result,
            opt_text(home),
        ),
{
    let ghost before = crate::text::texts(out@);
    match result {
        NativeDriverInstallResult::NotNeededNoHdmiDisplayPort => {},
        NativeDriverInstallResult::NotOffered => {},
        NativeDriverInstallResult::AlreadyInstalled { install_path, version } => {
            crate::text::push_line(out, owned("Rusty Jack native audio driver already installed"));
            push_path_lines(out, install_path.as_str(), version, home);
        },
        NativeDriverInstallResult::Installed { install_path, version, .. } => {
            crate::text::push_line(out, owned("Installed Rusty Jack native audio driver"));
            push_path_lines(out, install_path.as_str(), version, home);
            crate::text::push_line(
                out,
                owned("  note: restart audio apps if volume keys do not pick up the driver immediately"),
            );
        },
        NativeDriverInstallResult::Skipped { reason } => {
            crate::text::push_line(out, owned("Skipped native audio driver install"));
            crate::text::push_line(out, concat2("  reason: ", reason.as_str()));
        },
        NativeDriverInstallResult::BundleUnavailable { message } => {
            crate::text::push_line(out, owned("Rusty Jack native audio driver bundle not available"));
            crate::text::push_line(out, concat2("  note: ", message.as_str()));
        },
    }
    assert(crate::text::texts(out@) =~= before + spec_install_lines(*result, opt_text(home)));
}

/// The summary printed after an install.
pub fn install_result_lines(result: &NativeDriverInstallResult, home: Option<&str>) -> (r: Vec<String>)
    ensures
        crate::text::texts(r@) == spec_install_lines(*result, opt_text(home)),
{
    let mut out: Vec<String> = Vec::new();
    push_install_lines(&mut out, result, home);
    assert(crate::text::texts(out@) =~= spec_install_lines(*result, opt_text(home)));
    out
}

pub open spec fn spec_uninstall_lines(result: NativeDriverUninstallResult, home: Option<Seq<char>>) -> Seq<
    Seq<char>,
> {
    match result {
        NativeDriverUninstallResult::NotInstalled => seq![],
        NativeDriverUninstallResult::Removed { install_path, version } => seq![
            "Removed Rusty Jack native audio driver"@,
        ] + spec_path_lines(install_path@, opt_view(version), home),
        NativeDriverUninstallResult::Skipped { install_path, reason } => seq![
            "Kept Rusty Jack native audio driver"@,
            "  path:   "@ + install_path@,
            "  reason: "@ + reason@,
        ],
    }
}

fn push_uninstall_lines(out: &mut Vec<String>, result: &NativeDriverUninstallResult, home: Option<&str>)
    ensures
        crate::text::texts(final(out)@) == crate::text::texts(old(out)@) + spec_uninstall_lines(
            *result,
            opt_text(home),
        ),
{
    let ghost before = crate::text::texts(out@);
    match result {
        NativeDriverUninstallResult::NotInstalled => {},
        NativeDriverUninstallResult::Removed { install_path, version } => {
            crate::text::push_line(out, owned("Removed Rusty Jack native audio driver"));
            push_path_lines(out, install_path.as_str(), version, home);
        },
        NativeDriverUninstallResult::Skipped { install_path, reason } => {
            crate::text::push_line(out, owned("Kept Rusty Jack native audio driver"));
            crate::text::push_line(out, concat2("  path:   ", install_path.as_str()));
            crate::text::push_line(out, concat2("  reason: ", reason.as_str()));
        },
    }
    assert(crate::text::texts(out@) =~= before + spec_uninstall_lines(*result, opt_text(home)));
}

/// The summary printed after an uninstall.
pub fn uninstall_result_lines(result: &NativeDriverUninstallResult, home: Option<&str>) -> (r: Vec<
    String,
>)
    ensures
        crate::text::texts(r@) == spec_uninstall_lines(*result, opt_text(home)),
{
    let mut out: Vec<String> = Vec::new();
    push_uninstall_lines(&mut out, result, home);
    assert(crate::text::texts(out@) =~= spec_uninstall_lines(*result, opt_text(home)));
    out
}

pub open spec fn or_unknown(v: Option<String>) -> Seq<char> {
    match v {
        Some(s) => s@,
        None => "(unknown)"@,
    }
}

pub open spec fn spec_upgrade_lines(result: NativeDriverUpgradeResult, home: Option<Seq<char>>) -> Seq<
    Seq<char>,
> {
    match result {
        NativeDriverUpgradeResult::NotInstalled => seq![],
        NativeDriverUpgradeResult::UpToDate { install_path, version } => seq![
            "Rusty Jack native audio driver is up to date"@,
        ] + spec_path_lines(install_path@, opt_view(version), home),
        NativeDriverUpgradeResult::Upgraded { install_path, from_version, to_version, .. } => seq![
            "Upgraded Rusty Jack native audio driver"@,
            "  version: "@ + or_unknown(from_version) + " -> "@ + or_unknown(to_version),
            "  path:    "@ + install_path@,
        ],
        NativeDriverUpgradeResult::Skipped { install_path, reason } => seq![
            "Skipped native audio driver upgrade"@,
            "  path:   "@ + install_path@,
            "  reason: "@ + reason@,
        ],
        NativeDriverUpgradeResult::BundleUnavailable { install_path, message } => seq![
            "Rusty Jack native audio driver bundle not available"@,
            "  installed: "@ + install_path@,
            "  note:      "@ + message@,
        ],
    }
}

fn unknown_or(v: &Option<String>) -> (r: String)
    ensures
        r@ == or_unknown(*v),
{
    match v {
        Some(s) => s.clone(),
        None => owned("(unknown)"),
    }
}

/// The summary printed after an upgrade.
pub fn upgrade_result_lines(result: &NativeDriverUpgradeResult, home: Option<&str>) -> (r: Vec<String>)
    ensures
        crate::text::texts(r@) == spec_upgrade_lines(*result, opt_text(home)),
{
    let mut out: Vec<String> = Vec::new();
    match result {
        NativeDriverUpgradeResult::NotInstalled => {},
        NativeDriverUpgradeResult::UpToDate { install_path, version } => {
            crate::text::push_line(&mut out, owned("Rusty Jack native audio driver is up to date"));
            push_path_lines(&mut out, install_path.as_str(), version, home);
        },
        NativeDriverUpgradeResult::Upgraded { install_path, from_version, to_version, .. } => {
            crate::text::push_line(&mut out, owned("Upgraded Rusty Jack native audio driver"));
            let from = unknown_or(from_version);
            let to = unknown_or(to_version);
            let head = concat3("  version: ", from.as_str(), " -> ");
            crate::text::push_line(&mut out, concat2(head.as_str(), to.as_str()));
            crate::text::push_line(&mut out, concat2("  path:    ", install_path.as_str()));
        },
        NativeDriverUpgradeResult::Skipped { install_path, reason } => {
            crate::text::push_line(&mut out, owned("Skipped native audio driver upgrade"));
            crate::text::push_line(&mut out, concat2("  path:   ", install_path.as_str()));
            crate::text::push_line(&mut out, concat2("  reason: ", reason.as_str()));
        },
        NativeDriverUpgradeResult::BundleUnavailable { install_path, message } => {
            crate::text::push_line(&mut out, owned("Rusty Jack native audio driver bundle not available"));
            crate::text::push_line(&mut out, concat2("  installed: ", install_path.as_str()));
            crate::text::push_line(&mut out, concat2("  note:      ", message.as_str()));
        },
    }
    assert(crate::text::texts(out@) =~= spec_upgrade_lines(*result, opt_text(home)));
    out
}

pub open spec fn spec_retry_lines(command: Option<String>) -> Seq<Seq<char>> {
    match command {
        Some(c) => seq!["  retry:  "@ + c@],
        None => seq![],
    }
}

pub open spec fn spec_swap_in_lines(result: DriverSwapInResult, home: Option<Seq<char>>) -> Seq<Seq<char>> {
    match result {
        DriverSwapInResult::SwappedIn { eqmac_backup, native_driver } => seq![
            "Swapped in Rusty Jack native audio driver for testing"@,
        ] + match eqmac_backup {
            Some(info) => seq![
                "  eqMac backup: "@ + info.backup_path@,
                "  eqMac original: "@ + info.original_path@,
            ],
            None => seq!["  eqMac backup: not needed; system eqMac driver was not present"@],
        } + spec_install_lines(native_driver, home) + seq!["  restore: rusty-jack driver swap-out"@],
        DriverSwapInResult::Skipped { reason, command } => seq![
            "Skipped driver swap-in"@,
            "  reason: "@ + reason@,
        ] + spec_retry_lines(command),
    }
}

/// The summary printed after `driver swap-in`.
pub fn swap_in_result_lines(result: &DriverSwapInResult, home: Option<&str>) -> (r: Vec<String>)
    ensures
        crate::text::texts(r@) == spec_swap_in_lines(*result, opt_text(home)),
{
    let mut out: Vec<String> = Vec::new();
    match result {
        DriverSwapInResult::SwappedIn { eqmac_backup, native_driver } => {
            crate::text::push_line(&mut out, owned("Swapped in Rusty Jack native audio driver for testing"));
            match eqmac_backup {
                Some(info) => {
                    crate::text::push_line(&mut out, concat2("  eqMac backup: ", info.backup_path.as_str()));
                    crate::text::push_line(
                        &mut out,
                        concat2("  eqMac original: ", info.original_path.as_str()),
                    );
                },
                None => {
                    crate::text::push_line(
                        &mut out,
                        owned("  eqMac backup: not needed; system eqMac driver was not present"),
                    );
                },
            }
            push_install_lines(&mut out, native_driver, home);
            crate::text::push_line(&mut out, owned("  restore: rusty-jack driver swap-out"));
        },
        DriverSwapInResult::Skipped { reason, command } => {
            crate::text::push_line(&mut out, owned("Skipped driver swap-in"));
            crate::text::push_line(&mut out, concat2("  reason: ", reason.as_str()));
            if let Some(c) = command {
                crate::text::push_line(&mut out, concat2("  retry:  ", c.as_str()));
            }
        },
    }
    assert(crate::text::texts(out@) =~= spec_swap_in_lines(*result, opt_text(home)));
    out
}

pub open spec fn spec_restore_lines(result: EqMacHalRestoreResult, home: Option<Seq<char>>) -> Seq<
    Seq<char>,
> {
    match result {
        EqMacHalRestoreResult::NotNeeded => seq!["eqMac is not installed; no HAL restore needed"@],
        EqMacHalRestoreResult::RestoredFromBackup { install_path, version } => seq![
            "Restored eqMac HAL driver from managed backup"@,
        ] + spec_path_lines(install_path@, opt_view(version), home) + seq!["  coreaudiod restarted"@],
        EqMacHalRestoreResult::ReinstalledFromAppBundle { install_path, source_path, version } => seq![
            "Reinstalled eqMac HAL driver from app bundle"@,
        ] + spec_path_lines(install_path@, opt_view(version), home) + seq![
            "  source:  "@ + source_path@,
            "  coreaudiod restarted"@,
        ],
        EqMacHalRestoreResult::AlreadyPresent { install_path, version } => seq![
            "eqMac HAL driver already present; refreshed CoreAudio"@,
        ] + spec_path_lines(install_path@, opt_view(version), home),
    }
}

/// The summary printed after `driver restore-eqmac`.
pub fn eqmac_restore_result_lines(result: &EqMacHalRestoreResult, home: Option<&str>) -> (r: Vec<
    String,
>)
    ensures
        crate::text::texts(r@) == spec_restore_lines(*result, opt_text(home)),
{
    let mut out: Vec<String> = Vec::new();
    match result {
        EqMacHalRestoreResult::NotNeeded => {
            crate::text::push_line(&mut out, owned("eqMac is not installed; no HAL restore needed"));
        },
        EqMacHalRestoreResult::RestoredFromBackup { install_path, version } => {
            crate::text::push_line(&mut out, owned("Restored eqMac HAL driver from managed backup"));
            push_path_lines(&mut out, install_path.as_str(), version, home);
            crate::text::push_line(&mut out, owned("  coreaudiod restarted"));
        },
        EqMacHalRestoreResult::ReinstalledFromAppBundle { install_path, source_path, version } => {
            crate::text::push_line(&mut out, owned("Reinstalled eqMac HAL driver from app bundle"));
            push_path_lines(&mut out, install_path.as_str(), version, home);
            crate::text::push_line(&mut out, concat2("  source:  ", source_path.as_str()));
            crate::text::push_line(&mut out, owned("  coreaudiod restarted"));
        },
        EqMacHalRestoreResult::AlreadyPresent { install_path, version } => {
            crate::text::push_line(&mut out, owned("eqMac HAL driver already present; refreshed CoreAudio"));
            push_path_lines(&mut out, install_path.as_str(), version, home);
        },
    }
    assert(crate::text::texts(out@) =~= spec_restore_lines(*result, opt_text(home)));
    out
}

pub open spec fn spec_swap_out_lines(result: DriverSwapOutResult, home: Option<Seq<char>>) -> Seq<
    Seq<char>,
> {
    match result {
        DriverSwapOutResult::SwappedOut { restored_eqmac, native_driver } => seq![
            "Swapped out Rusty Jack native audio driver"@,
        ] + match restored_eqmac {
            Some(info) => seq!["  restored eqMac: "@ + info.original_path@],
            None => seq!["  restored eqMac: not needed (eqMac not installed or already present)"@],
        } + seq!["  repair:   rusty-jack driver restore-eqmac"@] + spec_uninstall_lines(
            native_driver,
            home,
        ),
        DriverSwapOutResult::UpToDate { message } => seq![
            "Driver swap-out is up to date"@,
            "  note: "@ + message@,
        ],
        DriverSwapOutResult::Skipped { reason, command } => seq![
            "Skipped driver swap-out"@,
            "  reason: "@ + reason@,
        ] + spec_retry_lines(command),
    }
}

/// The summary printed after `driver swap-out`.
pub fn swap_out_result_lines(result: &DriverSwapOutResult, home: Option<&str>) -> (r: Vec<String>)
    ensures
        crate::text::texts(r@) == spec_swap_out_lines(*result, opt_text(home)),
{
    let mut out: Vec<String> = Vec::new();
    match result {
        DriverSwapOutResult::SwappedOut { restored_eqmac, native_driver } => {
            crate::text::push_line(&mut out, owned("Swapped out Rusty Jack native audio driver"));
            match restored_eqmac {
                Some(info) => {
                    crate::text::push_line(
                        &mut out,
                        concat2("  restored eqMac: ", info.original_path.as_str()),
                    );
                },
                None => {
                    crate::text::push_line(
                        &mut out,
                        owned("  restored eqMac: not needed (eqMac not installed or already present)"),
                    );
                },
            }
            crate::text::push_line(&mut out, owned("  repair:   rusty-jack driver restore-eqmac"));
            push_uninstall_lines(&mut out, native_driver, home);
        },
        DriverSwapOutResult::UpToDate { message } => {
            crate::text::push_line(&mut out, owned("Driver swap-out is up to date"));
            crate::text::push_line(&mut out, concat2("  note: ", message.as_str()));
        },
        DriverSwapOutResult::Skipped { reason, command } => {
            crate::text::push_line(&mut out, owned("Skipped driver swap-out"));
            crate::text::push_line(&mut out, concat2("  reason: ", reason.as_str()));
            if let Some(c) = command {
                crate::text::push_line(&mut out, concat2("  retry:  ", c.as_str()));
            }
        },
    }
    assert(crate::text::texts(out@) =~= spec_swap_out_lines(*result, opt_text(home)));
    out
}

} // verus!
