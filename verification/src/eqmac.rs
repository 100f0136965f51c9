//! eqMac compatibility fallback: when it is needed, and what to do about it.
use crate::error::RustyJackError;
use crate::output_device::{index_of_uid, lemma_index_of_uid, find_uid, OutputDevice};
use crate::text::{
    concat2, contains, owned, parse_u64, parse_u64_str, seq_contains, trim, trim_str,
};
use vstd::prelude::*;

verus! {

pub const EQMAC_APP_PATH: &'static str = "/Applications/eqMac.app";
pub const EQMAC_EMBEDDED_DRIVER_PATH: &'static str = "/Applications/eqMac.app/Contents/Resources/Embedded/eqMac.driver";
pub const EQMAC_HAL_DRIVER_PATH: &'static str = "/Library/Audio/Plug-Ins/HAL/eqMac.driver";
/// Minimum time between automatic eqMac restarts, in seconds.
pub const EQMAC_RESTART_COOLDOWN_SECS: u64 = 60;

/// Whether eqMac is present on the system.
#[derive(Debug, Clone, Copy, PartialEq, Eq, Structural)]
pub enum EqMacInstallState {
    NotInstalled,
    Installed,
}

/// What ensuring eqMac did.
#[derive(Debug, Clone, Copy, PartialEq, Eq, Structural)]
pub enum EqMacEnsureAction {
    /// Target route does not need eqMac (e.g. built-in only).
    NotNeeded,
    /// eqMac was already running.
    AlreadyRunning,
    /// eqMac was launched successfully.
    Launched,
    /// eqMac was restarted to recover a stale route.
    Restarted,
    /// HDMI-class route but eqMac is not installed.
    NotInstalled,
}

/// Outcome of ensuring eqMac is available for software volume on HDMI/DP.
#[derive(Debug, Clone, Copy, PartialEq, Eq, Structural)]
pub struct EqMacEnsureResult {
    pub action: EqMacEnsureAction,
}

/// Metadata for a managed backup of the eqMac HAL driver.
#[derive(Debug)]
pub struct EqMacDriverBackupInfo {
    pub original_path: String,
    pub backup_path: String,
    pub version: Option<String>,
    pub backed_up_at_unix: Option<u64>,
}

/// Result of asking `open -a eqMac` to start the app.
#[derive(Debug, Clone, Copy, PartialEq, Eq, Structural)]
pub enum EqMacLaunchAction {
    Launched,
    NotInstalled,
}

pub open spec fn spec_routing_needs_eqmac(devices: Seq<OutputDevice>, uid: Seq<char>) -> bool {
    match index_of_uid(devices, uid) {
        Some(k) => devices[k].transport.spec_is_hdmi_class(),
        None => false,
    }
}

/// True when routing to `uid` needs a virtual volume router (HDMI-class outputs).
pub fn routing_needs_eqmac(devices: &[OutputDevice], uid: &str) -> (r: bool)
    ensures
        r == spec_routing_needs_eqmac(devices@, uid@),
{
    proof {
        lemma_index_of_uid(devices@, uid@);
    }
    match find_uid(devices, uid) {
        Some(k) => devices[k].transport.is_hdmi_class(),
        None => false,
    }
}

/// True when eqMac is running and owns the system default (volume keys can work).
pub fn eqmac_volume_control_is_healthy(running: bool, virtual_default_active: bool) -> (r: bool)
    ensures
        r == (running && virtual_default_active),
{
    running && virtual_default_active
}

pub open spec fn spec_ensure_messages(action: EqMacEnsureAction) -> Seq<Seq<char>> {
    match action {
        EqMacEnsureAction::Launched => seq!["Started eqMac (software volume for HDMI/DisplayPort)."@],
        EqMacEnsureAction::Restarted => seq![
            "Restarted eqMac to restore HDMI/DisplayPort volume control (virtual default was missing)."@,
        ],
        _ => seq![],
    }
}

/// Human-readable lines for stderr after ensuring eqMac.
pub fn format_ensure_messages(result: EqMacEnsureResult) -> (r: Vec<String>)
    ensures
        r@.map_values(|s: String| s@) == spec_ensure_messages(result.action),
{
    let mut v: Vec<String> = Vec::new();
    match result.action {
        EqMacEnsureAction::Launched => {
            v.push(owned("Started eqMac (software volume for HDMI/DisplayPort)."));
        },
        EqMacEnsureAction::Restarted => {
            v.push(
                owned(
                    "Restarted eqMac to restore HDMI/DisplayPort volume control (virtual default was missing).",
                ),
            );
        },
        _ => {},
    }
    assert(v@.map_values(|s: String| s@) =~= spec_ensure_messages(result.action));
    v
}

/// Interpret the exit status and stderr of `open -a eqMac`.
pub fn classify_eqmac_launch(success: bool, stderr: &str) -> (r: Result<
    EqMacLaunchAction,
    RustyJackError,
>)
    ensures
        success ==> r == Ok::<EqMacLaunchAction, RustyJackError>(EqMacLaunchAction::Launched),
        !success && seq_contains(stderr@, "Unable to find application named"@) ==> r == Ok::<
            EqMacLaunchAction,
            RustyJackError,
        >(EqMacLaunchAction::NotInstalled),
        !success && !seq_contains(stderr@, "Unable to find application named"@) ==> (r matches Err(
            RustyJackError::AppLaunch(m),
        ) && m@ == "failed to launch eqMac: "@ + stderr@),
{
    if success {
        return Ok(EqMacLaunchAction::Launched);
    }
    if contains(stderr, "Unable to find application named") {
        return Ok(EqMacLaunchAction::NotInstalled);
    }
    Err(RustyJackError::AppLaunch(concat2("failed to launch eqMac: ", stderr)))
}

/// Next step when ensuring eqMac for a route that needs it.
#[derive(Debug, Clone, Copy, PartialEq, Eq, Structural)]
pub enum EqMacEnsureStep {
    /// Nothing more to do; report this action.
    Done(EqMacEnsureAction),
    /// eqMac runs but lost the virtual default: re-check under the restart lock.
    RecheckUnderLock,
    /// eqMac is installed but not running: launch it.
    Launch,
}

/// First decision of `ensure_eqmac_running`, from what the system reports.
pub fn eqmac_ensure_step(installed: bool, running: bool, virtual_default_active: bool) -> (r:
    EqMacEnsureStep)
    ensures
        !installed ==> r == EqMacEnsureStep::Done(EqMacEnsureAction::NotInstalled),
        installed && running && virtual_default_active ==> r == EqMacEnsureStep::Done(
            EqMacEnsureAction::AlreadyRunning,
        ),
        installed && running && !virtual_default_active ==> r == EqMacEnsureStep::RecheckUnderLock,
        installed && !running ==> r == EqMacEnsureStep::Launch,
{
    if !installed {
        return EqMacEnsureStep::Done(EqMacEnsureAction::NotInstalled);
    }
    if running {
        if eqmac_volume_control_is_healthy(true, virtual_default_active) {
            return EqMacEnsureStep::Done(EqMacEnsureAction::AlreadyRunning);
        }
        return EqMacEnsureStep::RecheckUnderLock;
    }
    EqMacEnsureStep::Launch
}

/// Decision under the restart lock: restart only when still unhealthy and the
/// restart cooldown has elapsed.
pub fn eqmac_should_restart(virtual_default_active_now: bool, cooldown_elapsed: bool) -> (r: bool)
    ensures
        r == (!virtual_default_active_now && cooldown_elapsed),
{
    !eqmac_volume_control_is_healthy(true, virtual_default_active_now) && cooldown_elapsed
}

/// Action reported after a launch (`restart == false`) or relaunch (`restart == true`).
pub fn eqmac_launch_outcome(launch: EqMacLaunchAction, restart: bool) -> (r: EqMacEnsureAction)
    ensures
        launch == EqMacLaunchAction::NotInstalled ==> r == EqMacEnsureAction::NotInstalled,
        launch == EqMacLaunchAction::Launched && restart ==> r == EqMacEnsureAction::Restarted,
        launch == EqMacLaunchAction::Launched && !restart ==> r == EqMacEnsureAction::Launched,
{
    match launch {
        EqMacLaunchAction::NotInstalled => EqMacEnsureAction::NotInstalled,
        EqMacLaunchAction::Launched => if restart {
            EqMacEnsureAction::Restarted
        } else {
            EqMacEnsureAction::Launched
        },
    }
}

/// Whether the restart cooldown has elapsed, given the persisted restart timestamp
/// (seconds since the epoch, as text) and the current time.
pub fn eqmac_restart_cooldown_elapsed(
    last_restart_record: Option<&str>,
    now_unix_secs: u64,
    cooldown_secs: u64,
) -> (r: bool)
    ensures
        r == match last_restart_record {
            None => true,
            Some(raw) => match parse_u64(trim(raw@)) {
                None => true,
                Some(at) => now_unix_secs < at || now_unix_secs - at >= cooldown_secs,
            },
        },
{
    let raw = match last_restart_record {
        Some(raw) => raw,
        None => {
            return true;
        },
    };
    match parse_u64_str(trim_str(raw)) {
        None => true,
        Some(at) => now_unix_secs < at || now_unix_secs - at >= cooldown_secs,
    }
}

/// Directory that holds managed driver backups: `driver-backups` beside the config file.
pub open spec fn spec_backup_dir(config_path: Seq<char>) -> Seq<char> {
    join_path(parent_path(config_path), "driver-backups"@)
}

/// Parent directory of a file path (`Path::parent` for paths that end in a file name).
pub open spec fn parent_path(p: Seq<char>) -> Seq<char> {
    match crate::text::last_index_of(p, '/') {
        None => Seq::empty(),
        Some(k) => if k == 0 {
            seq!['/']
        } else {
            p.subrange(0, k)
        },
    }
}

/// `base` joined with a relative `name` (`Path::join`).
pub open spec fn join_path(base: Seq<char>, name: Seq<char>) -> Seq<char> {
    if base.len() == 0 {
        name
    } else if base.last() == '/' {
        base + name
    } else {
        base + "/"@ + name
    }
}

pub fn parent_path_str<'a>(p: &'a str) -> (r: &'a str)
    ensures
        r@ == parent_path(p@),
{
    match crate::text::rsplit_once_char(p, '/') {
        None => {
            proof {
                reveal_strlit("");
                assert(""@ =~= Seq::<char>::empty());
            }
            ""
        },
        Some((head, tail)) => {
            proof {
                crate::text::lemma_last_index_of_bounds(p@, '/');
            }
            if head.unicode_len() == 0 {
                proof {
                    reveal_strlit("/");
                    assert("/"@ =~= seq!['/']);
                }
                "/"
            } else {
                head
            }
        },
    }
}

pub fn join_path_str(base: &str, name: &str) -> (r: String)
    ensures
        r@ == join_path(base@, name@),
{
    let n = base.unicode_len();
    if n == 0 {
        owned(name)
    } else if base.get_char(n - 1) == '/' {
        concat2(base, name)
    } else {
        crate::text::concat3(base, "/", name)
    }
}

/// Managed backup directory for a given config file path.
pub fn eqmac_driver_backup_dir_for_config_path(config_path: &str) -> (r: String)
    ensures
        r@ == spec_backup_dir(config_path@),
{
    join_path_str(parent_path_str(config_path), "driver-backups")
}

/// A leftover eqMac HAL driver without the app bundle is not a usable fallback.
pub fn orphaned_eqmac_hal_driver_path(app_present: bool, driver_present: bool) -> (r: Option<
    &'static str,
>)
    ensures
        r is Some <==> (!app_present && driver_present),
        r matches Some(p) ==> p@ == "/Library/Audio/Plug-Ins/HAL/eqMac.driver"@,
{
    if !app_present && driver_present {
        Some(EQMAC_HAL_DRIVER_PATH)
    } else {
        None
    }
}


/// The eqMac application's process name.
pub const EQMAC_APP_NAME: &'static str = "eqMac";

/// File names inside the managed backup directory.
pub const EQMAC_DRIVER_BACKUP_DIR_NAME: &'static str = "driver-backups";
pub const EQMAC_DRIVER_BACKUP_METADATA_NAME: &'static str = "eqMac.driver.json";

/// Whether the eqMac app bundle is present.
pub fn eqmac_install_state(app_present: bool) -> (r: EqMacInstallState)
    ensures
        r == (if app_present {
            EqMacInstallState::Installed
        } else {
            EqMacInstallState::NotInstalled
        }),
{
    if app_present {
        EqMacInstallState::Installed
    } else {
        EqMacInstallState::NotInstalled
    }
}

/// Path to the eqMac app bundle when present.
pub fn eqmac_app_path(app_present: bool) -> (r: Option<String>)
    ensures
        app_present ==> (r matches Some(p) && p@ == EQMAC_APP_PATH@),
        !app_present ==> r is None,
{
    if app_present {
        Some(owned(EQMAC_APP_PATH))
    } else {
        None
    }
}

/// Path to the eqMac HAL driver when present.
pub fn eqmac_hal_driver_path(driver_present: bool) -> (r: Option<String>)
    ensures
        driver_present ==> (r matches Some(p) && p@ == EQMAC_HAL_DRIVER_PATH@),
        !driver_present ==> r is None,
{
    if driver_present {
        Some(owned(EQMAC_HAL_DRIVER_PATH))
    } else {
        None
    }
}

pub open spec fn opt_text(o: Option<&str>) -> Option<Seq<char>> {
    match o {
        Some(s) => Some(s@),
        None => None,
    }
}

/// Managed backup directory, beside the default config file (when known).
pub fn eqmac_driver_backup_dir(config_path: Option<&str>) -> (r: Option<String>)
    ensures
        match config_path {
            Some(c) => r matches Some(d) && d@ == spec_backup_dir(c@),
            None => r is None,
        },
{
    match config_path {
        Some(c) => Some(eqmac_driver_backup_dir_for_config_path(c)),
        None => None,
    }
}

/// Managed backup path for the eqMac HAL driver bundle.
pub fn eqmac_driver_backup_path(config_path: Option<&str>) -> (r: Option<String>)
    ensures
        match config_path {
            Some(c) => r matches Some(p) && p@ == join_path(spec_backup_dir(c@), "eqMac.driver"@),
            None => r is None,
        },
{
    match eqmac_driver_backup_dir(config_path) {
        Some(dir) => Some(join_path_str(dir.as_str(), "eqMac.driver")),
        None => None,
    }
}

/// Managed metadata path for the eqMac HAL driver backup.
pub fn eqmac_driver_backup_metadata_path(config_path: Option<&str>) -> (r: Option<String>)
    ensures
        match config_path {
            Some(c) => r matches Some(p) && p@ == join_path(
                spec_backup_dir(c@),
                EQMAC_DRIVER_BACKUP_METADATA_NAME@,
            ),
            None => r is None,
        },
{
    match eqmac_driver_backup_dir(config_path) {
        Some(dir) => Some(join_path_str(dir.as_str(), EQMAC_DRIVER_BACKUP_METADATA_NAME)),
        None => None,
    }
}

/// The backup record when no metadata file could be read: the bundle found at
/// the managed backup path (if it exists there), with its version.
pub fn eqmac_driver_backup_info_from_bundle(
    backup_path: Option<&str>,
    bundle_present: bool,
    version: Option<String>,
) -> (r: Option<EqMacDriverBackupInfo>)
    ensures
        match backup_path {
            Some(p) => if bundle_present {
                r matches Some(i) && i.original_path@ == EQMAC_HAL_DRIVER_PATH@ && i.backup_path@
                    == p@ && i.version == version && i.backed_up_at_unix is None
            } else {
                r is None
            },
            None => r is None,
        },
{
    match backup_path {
        Some(p) => if bundle_present {
            Some(
                EqMacDriverBackupInfo {
                    original_path: owned(EQMAC_HAL_DRIVER_PATH),
                    backup_path: owned(p),
                    version,
                    backed_up_at_unix: None,
                },
            )
        } else {
            None
        },
        None => None,
    }
}

/// The record written when eqMac's driver is moved to the managed backup.
pub fn eqmac_driver_backup_record(
    backup_path: &str,
    version: Option<String>,
    now_unix_secs: Option<u64>,
) -> (r: EqMacDriverBackupInfo)
    ensures
        r.original_path@ == EQMAC_HAL_DRIVER_PATH@,
        r.backup_path@ == backup_path@,
        r.version == version,
        r.backed_up_at_unix == now_unix_secs,
{
    EqMacDriverBackupInfo {
        original_path: owned(EQMAC_HAL_DRIVER_PATH),
        backup_path: owned(backup_path),
        version,
        backed_up_at_unix: now_unix_secs,
    }
}

/// True when the eqMac application process is running.
pub fn eqmac_is_running(processes: &[crate::process_detect::ProcessInfo]) -> (r: bool)
    ensures
        r == exists|j: int|
            0 <= j < processes@.len() && crate::process_detect::spec_exact_name(
                #[trigger] processes@[j],
                EQMAC_APP_NAME@,
            ),
{
    crate::process_detect::any_process_with_exact_name(processes, EQMAC_APP_NAME)
}

/// Ensure eqMac for a route: nothing to do unless the route needs a software
/// volume router; otherwise `ensure_running` does the work. `ensure_running`
/// need only be callable when the route needs eqMac, so otherwise it is left
/// uncalled.
pub fn ensure_eqmac_for_target<F>(devices: &[OutputDevice], target_uid: &str, ensure_running: F) -> (r:
    Result<EqMacEnsureResult, RustyJackError>) where
    F: FnOnce() -> Result<EqMacEnsureResult, RustyJackError>,

    requires
        spec_routing_needs_eqmac(devices@, target_uid@) ==> call_requires(ensure_running, ()),
    ensures
        !spec_routing_needs_eqmac(devices@, target_uid@) ==> (r matches Ok(res) && res.action
            == EqMacEnsureAction::NotNeeded),
        spec_routing_needs_eqmac(devices@, target_uid@) ==> call_ensures(ensure_running, (), r),
{
    if !routing_needs_eqmac(devices, target_uid) {
        return Ok(EqMacEnsureResult { action: EqMacEnsureAction::NotNeeded });
    }
    ensure_running()
}

/// Restart eqMac for a route that needs HDMI/DP software volume, when it is
/// installed; `restart` does the relaunch (under the restart lock). `restart`
/// need only be callable in that case, so otherwise it is left uncalled.
pub fn restart_eqmac_for_target<F>(
    devices: &[OutputDevice],
    target_uid: &str,
    app_present: bool,
    restart: F,
) -> (r: Result<EqMacEnsureResult, RustyJackError>) where
    F: FnOnce() -> Result<EqMacEnsureResult, RustyJackError>,

    requires
        spec_routing_needs_eqmac(devices@, target_uid@) && app_present ==> call_requires(restart, ()),
    ensures
        !spec_routing_needs_eqmac(devices@, target_uid@) ==> (r matches Ok(res) && res.action
            == EqMacEnsureAction::NotNeeded),
        spec_routing_needs_eqmac(devices@, target_uid@) && !app_present ==> (r matches Ok(res)
            && res.action == EqMacEnsureAction::NotInstalled),
        spec_routing_needs_eqmac(devices@, target_uid@) && app_present ==> call_ensures(restart, (), r),
{
    if !routing_needs_eqmac(devices, target_uid) {
        return Ok(EqMacEnsureResult { action: EqMacEnsureAction::NotNeeded });
    }
    if eqmac_install_state(app_present) == EqMacInstallState::NotInstalled {
        return Ok(EqMacEnsureResult { action: EqMacEnsureAction::NotInstalled });
    }
    restart()
}


/// Under the restart lock: restart eqMac (with `restart`) only when it is still
/// missing the virtual default and the restart cooldown has elapsed; otherwise
/// report it as already running. `restart` need only be callable in that case,
/// so otherwise it is left uncalled.
pub fn eqmac_recheck_under_lock<F>(virtual_default_active_now: bool, cooldown_elapsed: bool, restart: F) -> (r:
    Result<EqMacEnsureResult, RustyJackError>) where
    F: FnOnce() -> Result<EqMacEnsureResult, RustyJackError>,

    requires
        !virtual_default_active_now && cooldown_elapsed ==> call_requires(restart, ()),
    ensures
        !virtual_default_active_now && cooldown_elapsed ==> call_ensures(restart, (), r),
        !(!virtual_default_active_now && cooldown_elapsed) ==> r == Ok::<
            EqMacEnsureResult,
            RustyJackError,
        >(EqMacEnsureResult { action: EqMacEnsureAction::AlreadyRunning }),
{
    if eqmac_should_restart(virtual_default_active_now, cooldown_elapsed) {
        restart()
    } else {
        Ok(EqMacEnsureResult { action: EqMacEnsureAction::AlreadyRunning })
    }
}

/// The recheck under the restart lock, from what it reads: whether eqMac has the
/// virtual default now, the persisted time of the last restart (seconds since
/// the epoch, as text) and the current time. eqMac is restarted (`restart`) at
/// most once per `cooldown_secs`: only when it still lacks the virtual default
/// and the cooldown since the recorded restart has elapsed (or nothing usable is
/// recorded); otherwise it is reported as already running and `restart` is left
/// uncalled.
pub fn eqmac_recheck_with_cooldown<F>(
    virtual_default_active_now: bool,
    last_restart_record: Option<&str>,
    now_unix_secs: u64,
    cooldown_secs: u64,
    restart: F,
) -> (r: Result<EqMacEnsureResult, RustyJackError>) where
    F: FnOnce() -> Result<EqMacEnsureResult, RustyJackError>,

    requires
        ({
            let elapsed = match last_restart_record {
                None => true,
                Some(raw) => match parse_u64(trim(raw@)) {
                    None => true,
                    Some(at) => now_unix_secs < at || now_unix_secs - at >= cooldown_secs,
                },
            };
            !virtual_default_active_now && elapsed ==> call_requires(restart, ())
        }),
    ensures
        ({
            let elapsed = match last_restart_record {
                None => true,
                Some(raw) => match parse_u64(trim(raw@)) {
                    None => true,
                    Some(at) => now_unix_secs < at || now_unix_secs - at >= cooldown_secs,
                },
            };
            &&& !virtual_default_active_now && elapsed ==> call_ensures(restart, (), r)
            &&& !(!virtual_default_active_now && elapsed) ==> r == Ok::<
                EqMacEnsureResult,
                RustyJackError,
            >(EqMacEnsureResult { action: EqMacEnsureAction::AlreadyRunning })
        }),
{
    let elapsed = eqmac_restart_cooldown_elapsed(last_restart_record, now_unix_secs, cooldown_secs);
    eqmac_recheck_under_lock(virtual_default_active_now, elapsed, restart)
}

/// Start eqMac when installed but not running; when it runs without the virtual
/// default, `recheck_under_lock` decides on a restart. `is_running` and
/// `virtual_default_active` read the system; `launch` runs `open -a eqMac` and
/// `wait_for_startup` gives a launched app its startup time. Each step need
/// only be callable where it is used, so nothing is read or run when eqMac is
/// absent, eqMac is launched only after `is_running` reported it stopped, and
/// the recheck runs only when it runs without the virtual default.
pub fn ensure_eqmac_running<R, V, K, L, W>(
    app_present: bool,
    is_running: R,
    virtual_default_active: V,
    recheck_under_lock: K,
    launch: L,
    wait_for_startup: W,
) -> (r: Result<EqMacEnsureResult, RustyJackError>) where
    R: FnOnce() -> bool,
    V: FnOnce() -> bool,
    K: FnOnce() -> Result<EqMacEnsureResult, RustyJackError>,
    L: FnOnce() -> Result<EqMacLaunchAction, RustyJackError>,
    W: FnOnce(),

    requires
        app_present ==> call_requires(is_running, ()),
        forall|running: bool|
            #![trigger call_ensures(is_running, (), running)]
            call_ensures(is_running, (), running) ==> (running ==> call_requires(
                virtual_default_active,
                (),
            )) && (!running ==> call_requires(launch, ())),
        forall|healthy: bool|
            #![trigger call_ensures(virtual_default_active, (), healthy)]
            call_ensures(virtual_default_active, (), healthy) && !healthy ==> call_requires(
                recheck_under_lock,
                (),
            ),
        forall|launched: Result<EqMacLaunchAction, RustyJackError>|
            #![trigger call_ensures(launch, (), launched)]
            call_ensures(launch, (), launched) && launched == Ok::<
                EqMacLaunchAction,
                RustyJackError,
            >(EqMacLaunchAction::Launched) ==> call_requires(wait_for_startup, ()),
    ensures
        !app_present ==> r == Ok::<EqMacEnsureResult, RustyJackError>(
            EqMacEnsureResult { action: EqMacEnsureAction::NotInstalled },
        ),
        app_present ==> exists|running: bool|
            #![trigger call_ensures(is_running, (), running)]
            call_ensures(is_running, (), running) && if running {
                exists|healthy: bool|
                    #![trigger call_ensures(virtual_default_active, (), healthy)]
                    call_ensures(virtual_default_active, (), healthy) && if healthy {
                        r == Ok::<EqMacEnsureResult, RustyJackError>(
                            EqMacEnsureResult { action: EqMacEnsureAction::AlreadyRunning },
                        )
                    } else {
                        call_ensures(recheck_under_lock, (), r)
                    }
            } else {
                exists|launched: Result<EqMacLaunchAction, RustyJackError>|
                    #![trigger call_ensures(launch, (), launched)]
                    call_ensures(launch, (), launched) && match launched {
                        Err(e) => r == Err::<EqMacEnsureResult, RustyJackError>(e),
                        Ok(a) => r == Ok::<EqMacEnsureResult, RustyJackError>(
                            EqMacEnsureResult {
                                action: if a == EqMacLaunchAction::Launched {
                                    EqMacEnsureAction::Launched
                                } else {
                                    EqMacEnsureAction::NotInstalled
                                },
                            },
                        ),
                    }
            },
{
    if eqmac_install_state(app_present) == EqMacInstallState::NotInstalled {
        return Ok(EqMacEnsureResult { action: EqMacEnsureAction::NotInstalled });
    }
    let running = is_running();
    if running {
        let healthy = virtual_default_active();
        return match eqmac_ensure_step(true, true, healthy) {
            EqMacEnsureStep::Done(action) => Ok(EqMacEnsureResult { action }),
            _ => recheck_under_lock(),
        };
    }
    match launch() {
        Err(e) => Err(e),
        Ok(a) => {
            if a == EqMacLaunchAction::Launched {
                wait_for_startup();
            }
            Ok(EqMacEnsureResult { action: eqmac_launch_outcome(a, false) })
        },
    }
}

} // verus!
