//! Daemon supervision: the state carried between polls and one policy
//! evaluation ("tick"), with the outside work behind hooks.
use crate::apply::{
    no_change_result, preferred_uid, remember_active_non_preferred, remembers_on_leave, spec_remembered,
    switch_fails, switch_output,
    switch_outcome, volume_for_target, ApplyResult, SwitchOptions, VolumeMemory,
};
use crate::config::Config;
use crate::device_select::{spec_resolves_to, DeviceSelector};
use crate::error::RustyJackError;
use crate::hal::{failures_kept, AudioHal};
use crate::hdmi_displayport_volume_control::{
    format_ensure_messages, HdmiDisplayPortVolumeControlEnsureAction,
    HdmiDisplayPortVolumeControlEnsureResult,
};
use crate::network::NetworkAccessSnapshot;
use crate::scalar_webapi_device::ScalarWebApiDeviceWakeResult;
use crate::output_device::{active_pred, find_active, first_where, lemma_first_where, OutputDevice};
use crate::policy::{
    opt_seq, select_fallback_target, select_routing_target, spec_select_fallback,
    spec_select_routing_target, RoutingTarget, RoutingTargetSource,
};
use crate::system_default::DeviceList;
use crate::text::{concat2, owned, str_eq};
use vstd::prelude::*;

verus! {

/// Floor of the startup window in which a failed ScalarWebAPI wake does not fall back.
pub const MIN_SCALAR_WEBAPI_DEVICE_STARTUP_FALLBACK_GRACE_MS: u64 = 30000;

/// Why the daemon is evaluating policy.
#[derive(Debug, Clone, Copy, PartialEq, Eq, Structural)]
pub enum DaemonTickReason {
    Startup,
    StartupRetry,
    Scheduled,
    UserActivity,
}

/// Whether the network changed since the previous observation.
#[derive(Debug, Clone, Copy, PartialEq, Eq, Structural)]
pub enum NetworkAccessChange {
    Unchanged,
    Changed,
}

/// Whether a failed ScalarWebAPI wake may route to a fallback output.
#[derive(Debug, Clone, Copy, PartialEq, Eq, Structural)]
pub enum ScalarWebApiDeviceFallbackPermission {
    Allowed,
    Suppressed,
}

/// Mutable state carried between daemon polls. Times are milliseconds of a
/// monotonic clock.
#[derive(Debug)]
pub struct DaemonState {
    pub was_idle: Option<bool>,
    pub last_scalar_webapi_device_activity_wake_ms: Option<u64>,
    pub network_access_observed: bool,
    pub network_access: Option<NetworkAccessSnapshot>,
}

/// Two optional snapshots describe the same network access.
pub open spec fn same_access(a: Option<NetworkAccessSnapshot>, b: Option<NetworkAccessSnapshot>) -> bool {
    match (a, b) {
        (Some(x), Some(y)) => x.same_as(&y),
        (None, None) => true,
        _ => false,
    }
}

/// Time from `earlier` to `now`, zero when `now` is not later.
pub open spec fn elapsed_since(now: u64, earlier: u64) -> u64 {
    if now >= earlier {
        (now - earlier) as u64
    } else {
        0
    }
}

/// One idle-time sample: the new idle flag, and whether it completes an
/// idle -> active transition.
pub open spec fn idle_transition(was_idle: Option<bool>, idle_ms: u64, threshold_ms: u64) -> (
    Option<bool>,
    bool,
) {
    (Some(idle_ms >= threshold_ms), was_idle == Some(true) && idle_ms < threshold_ms)
}

/// One activity-wake request: the new time of the last wake, and whether this
/// request is allowed (no earlier wake, or the earlier one is at least `cooldown_ms` old).
pub open spec fn wake_decision(last: Option<u64>, now_ms: u64, cooldown_ms: u64) -> (
    Option<u64>,
    bool,
) {
    if last matches Some(l) && elapsed_since(now_ms, l) < cooldown_ms {
        (last, false)
    } else {
        (Some(now_ms), true)
    }
}

/// One network observation: observed flag, remembered snapshot, and whether it
/// counts as a change (never on the first observation).
pub open spec fn network_transition(
    observed: bool,
    previous: Option<NetworkAccessSnapshot>,
    snapshot: Option<NetworkAccessSnapshot>,
) -> (bool, Option<NetworkAccessSnapshot>, NetworkAccessChange) {
    (
        true,
        snapshot,
        if observed && !same_access(previous, snapshot) {
            NetworkAccessChange::Changed
        } else {
            NetworkAccessChange::Unchanged
        },
    )
}

impl DaemonState {
    pub fn new() -> (r: DaemonState)
        ensures
            r.was_idle is None,
            r.last_scalar_webapi_device_activity_wake_ms is None,
            !r.network_access_observed,
            r.network_access is None,
    {
        DaemonState {
            was_idle: None,
            last_scalar_webapi_device_activity_wake_ms: None,
            network_access_observed: false,
            network_access: None,
        }
    }

    /// Record the current idle time; true only on an idle -> active transition.
    pub fn observe_idle_duration(&mut self, idle_ms: u64, idle_threshold_ms: u64) -> (r: bool)
        ensures
            (final(self).was_idle, r) == idle_transition(old(self).was_idle, idle_ms, idle_threshold_ms),
            final(self).last_scalar_webapi_device_activity_wake_ms == old(
                self,
            ).last_scalar_webapi_device_activity_wake_ms,
            final(self).network_access_observed == old(self).network_access_observed,
            final(self).network_access == old(self).network_access,
    {
        let is_idle = idle_ms >= idle_threshold_ms;
        let became_active = match self.was_idle {
            Some(true) => !is_idle,
            _ => false,
        };
        self.was_idle = Some(is_idle);
        became_active
    }

    /// Allow an activity wake unless the previous one is less than `cooldown_ms` old;
    /// an allowed wake starts a new cooldown at `now_ms`.
    pub fn allow_scalar_webapi_device_wake(&mut self, now_ms: u64, cooldown_ms: u64) -> (r: bool)
        ensures
            (final(self).last_scalar_webapi_device_activity_wake_ms, r) == wake_decision(
                old(self).last_scalar_webapi_device_activity_wake_ms,
                now_ms,
                cooldown_ms,
            ),
            final(self).was_idle == old(self).was_idle,
            final(self).network_access_observed == old(self).network_access_observed,
            final(self).network_access == old(self).network_access,
    {
        if let Some(last) = self.last_scalar_webapi_device_activity_wake_ms {
            let elapsed: u64 = if now_ms >= last {
                now_ms - last
            } else {
                0
            };
            if elapsed < cooldown_ms {
                return false;
            }
        }
        self.last_scalar_webapi_device_activity_wake_ms = Some(now_ms);
        true
    }

    /// Allow an immediate ScalarWebAPI activity wake after network recovery.
    pub fn reset_scalar_webapi_device_wake_cooldown(&mut self)
        ensures
            final(self).last_scalar_webapi_device_activity_wake_ms is None,
            final(self).was_idle == old(self).was_idle,
            final(self).network_access_observed == old(self).network_access_observed,
            final(self).network_access == old(self).network_access,
    {
        self.last_scalar_webapi_device_activity_wake_ms = None;
    }

    /// Record the current network access; `Changed` when it differs from the
    /// previous observation (the first observation never counts as a change).
    pub fn observe_network_access(&mut self, snapshot: Option<NetworkAccessSnapshot>) -> (r:
        NetworkAccessChange)
        ensures
            (final(self).network_access_observed, final(self).network_access, r)
                == network_transition(old(self).network_access_observed, old(self).network_access, snapshot),
            final(self).was_idle == old(self).was_idle,
            final(self).last_scalar_webapi_device_activity_wake_ms == old(
                self,
            ).last_scalar_webapi_device_activity_wake_ms,
    {
        let differs = match (&self.network_access, &snapshot) {
            (Some(previous), Some(current)) => !previous.equals(current),
            (Some(_), None) => true,
            (None, Some(_)) => true,
            (None, None) => false,
        };
        let changed = self.network_access_observed && differs;
        self.network_access_observed = true;
        self.network_access = snapshot;
        if changed {
            NetworkAccessChange::Changed
        } else {
            NetworkAccessChange::Unchanged
        }
    }
}

/// The first idle-time sample never fires a trigger.
pub proof fn law_first_sample_never_fires(idle_ms: u64, threshold_ms: u64)
    ensures
        !idle_transition(None, idle_ms, threshold_ms).1,
{
}

/// An idle period followed by activity fires the idle -> active trigger.
pub proof fn law_activity_after_idle_fires(
    was_idle: Option<bool>,
    idle_ms: u64,
    active_ms: u64,
    threshold_ms: u64,
)
    requires
        idle_ms >= threshold_ms,
        active_ms < threshold_ms,
    ensures
        idle_transition(idle_transition(was_idle, idle_ms, threshold_ms).0, active_ms, threshold_ms).1,
{
}

/// The idle -> active trigger fires once per idle period: a sample of activity
/// after a sample of activity fires nothing.
pub proof fn law_trigger_fires_once(
    was_idle: Option<bool>,
    first_ms: u64,
    second_ms: u64,
    threshold_ms: u64,
)
    requires
        first_ms < threshold_ms,
    ensures
        !idle_transition(idle_transition(was_idle, first_ms, threshold_ms).0, second_ms, threshold_ms).1,
{
}

/// After an allowed wake at `first_ms`, a request less than `cooldown_ms` later is
/// refused and one at least `cooldown_ms` later is allowed.
pub proof fn law_wake_cooldown(last: Option<u64>, first_ms: u64, second_ms: u64, cooldown_ms: u64)
    requires
        wake_decision(last, first_ms, cooldown_ms).1,
        first_ms <= second_ms,
    ensures
        wake_decision(wake_decision(last, first_ms, cooldown_ms).0, second_ms, cooldown_ms).1 == (
        second_ms - first_ms >= cooldown_ms),
{
}

/// With no earlier wake (as after a cooldown reset) a wake is always allowed.
pub proof fn law_wake_after_reset(now_ms: u64, cooldown_ms: u64)
    ensures
        wake_decision(None, now_ms, cooldown_ms) == (Some(now_ms), true),
{
}

/// The first network observation is never a change; observing the same access
/// again is no change; observing a different one after an observation is a change.
pub proof fn law_network_change_detection(
    observed: bool,
    previous: Option<NetworkAccessSnapshot>,
    first: Option<NetworkAccessSnapshot>,
    second: Option<NetworkAccessSnapshot>,
)
    ensures
        network_transition(false, previous, first).2 == NetworkAccessChange::Unchanged,
        ({
            let (o, p, _) = network_transition(observed, previous, first);
            network_transition(o, p, second).2 == if same_access(first, second) {
                NetworkAccessChange::Unchanged
            } else {
                NetworkAccessChange::Changed
            }
        }),
        network_transition(network_transition(observed, previous, first).0, network_transition(observed, previous, first).1, first).2
            == NetworkAccessChange::Unchanged,
{
}

/// A network change allows the fallback; an unchanged network suppresses it.
pub fn scalar_webapi_device_fallback_permission(change: NetworkAccessChange) -> (r:
    ScalarWebApiDeviceFallbackPermission)
    ensures
        r == (match change {
            NetworkAccessChange::Changed => ScalarWebApiDeviceFallbackPermission::Allowed,
            NetworkAccessChange::Unchanged => ScalarWebApiDeviceFallbackPermission::Suppressed,
        }),
{
    match change {
        NetworkAccessChange::Changed => ScalarWebApiDeviceFallbackPermission::Allowed,
        NetworkAccessChange::Unchanged => ScalarWebApiDeviceFallbackPermission::Suppressed,
    }
}

pub open spec fn spec_allow_fallback(
    reason: DaemonTickReason,
    permission: ScalarWebApiDeviceFallbackPermission,
) -> bool {
    permission == ScalarWebApiDeviceFallbackPermission::Allowed && (reason
        == DaemonTickReason::Scheduled || reason == DaemonTickReason::UserActivity)
}

/// A failed wake may fall back only when permitted, and never during startup.
pub fn allow_scalar_webapi_device_fallback(
    reason: DaemonTickReason,
    permission: ScalarWebApiDeviceFallbackPermission,
) -> (r: bool)
    ensures
        r == spec_allow_fallback(reason, permission),
{
    permission == ScalarWebApiDeviceFallbackPermission::Allowed && (reason
        == DaemonTickReason::Scheduled || reason == DaemonTickReason::UserActivity)
}


/// Outcome of one daemon policy evaluation.
#[derive(Debug)]
pub enum DaemonTickResult {
    AutoSwitchDisabled,
    Switched(ApplyResult),
    NoChange(ApplyResult),
}

/// One call of a [`DaemonHooks`] method, with the UID, device list, config or
/// line it was given and what it returned.
pub enum HookEvent {
    EnsureVolumeControl {
        uid: Ghost<Seq<char>>,
        devices: Ghost<Seq<OutputDevice>>,
        result: Result<HdmiDisplayPortVolumeControlEnsureResult, RustyJackError>,
    },
    RecoverVolumeControl {
        uid: Ghost<Seq<char>>,
        devices: Ghost<Seq<OutputDevice>>,
        result: Result<HdmiDisplayPortVolumeControlEnsureResult, RustyJackError>,
    },
    WakeOnOutputSelected {
        uid: Ghost<Seq<char>>,
        devices: Ghost<Seq<OutputDevice>>,
        config: Ghost<Config>,
        result: Result<Option<ScalarWebApiDeviceWakeResult>, RustyJackError>,
    },
    WakeOnActivity {
        uid: Ghost<Seq<char>>,
        devices: Ghost<Seq<OutputDevice>>,
        config: Ghost<Config>,
        result: Result<Option<ScalarWebApiDeviceWakeResult>, RustyJackError>,
    },
    Report { line: String },
    ReportWake { result: ScalarWebApiDeviceWakeResult },
    Sleep { ms: u64 },
}

/// Outside work a daemon tick asks for: volume-control providers, ScalarWebAPI
/// wakes, progress lines and the post-switch delay.
pub trait DaemonHooks {
    /// Make sure the route to `target_uid` has volume control.
    fn ensure_volume_control(&mut self, devices: &[OutputDevice], target_uid: &str) -> Result<
        HdmiDisplayPortVolumeControlEnsureResult,
        RustyJackError,
    >;

    /// Recover stale volume control for `target_uid` (restarting eqMac when needed).
    fn recover_volume_control(&mut self, devices: &[OutputDevice], target_uid: &str) -> Result<
        HdmiDisplayPortVolumeControlEnsureResult,
        RustyJackError,
    >;

    /// Wake the ScalarWebAPI device attached to output `uid` because it was selected.
    fn wake_on_output_selected(&mut self, config: &Config, devices: &[OutputDevice], uid: &str) -> Result<
        Option<ScalarWebApiDeviceWakeResult>,
        RustyJackError,
    >;

    /// Wake the ScalarWebAPI device attached to output `uid` because the user is active.
    fn wake_on_activity(&mut self, config: &Config, devices: &[OutputDevice], uid: &str) -> Result<
        Option<ScalarWebApiDeviceWakeResult>,
        RustyJackError,
    >;

    /// A progress or warning line for the daemon log.
    fn report(&mut self, line: String);

    /// A successful wake, for the daemon log.
    fn report_wake(&mut self, result: &ScalarWebApiDeviceWakeResult);

    /// Pause for `ms` milliseconds.
    fn sleep_ms(&mut self, ms: u64);
}

/// [`DaemonHooks`] with a ghost record of every call made through it, in order,
/// with what each returned.
pub struct HookLog<K> {
    pub hooks: K,
    pub log: Ghost<Seq<HookEvent>>,
}

impl<K: DaemonHooks> HookLog<K> {
    /// Every call made through this log so far.
    pub open spec fn events(&self) -> Seq<HookEvent> {
        self.log@
    }

    /// Start recording calls to `hooks`.
    pub fn new(hooks: K) -> (r: HookLog<K>)
        ensures
            r.hooks == hooks,
            r.events() == Seq::<HookEvent>::empty(),
    {
        HookLog { hooks, log: Ghost(Seq::empty()) }
    }

    /// Make sure the route to `target_uid` has volume control.
    pub fn ensure_volume_control(&mut self, devices: &[OutputDevice], target_uid: &str) -> (r: Result<
        HdmiDisplayPortVolumeControlEnsureResult,
        RustyJackError,
    >)
        ensures
            final(self).events() == old(self).events().push(
                HookEvent::EnsureVolumeControl { uid: Ghost(target_uid@), devices: Ghost(devices@), result: r },
            ),
    {
        let r = self.hooks.ensure_volume_control(devices, target_uid);
        proof {
            self.log@ = self.log@.push(HookEvent::EnsureVolumeControl { uid: Ghost(target_uid@), devices: Ghost(devices@), result: r });
        }
        r
    }

    /// Recover stale volume control for `target_uid` (restarting eqMac when needed).
    pub fn recover_volume_control(&mut self, devices: &[OutputDevice], target_uid: &str) -> (r: Result<
        HdmiDisplayPortVolumeControlEnsureResult,
        RustyJackError,
    >)
        ensures
            final(self).events() == old(self).events().push(
                HookEvent::RecoverVolumeControl { uid: Ghost(target_uid@), devices: Ghost(devices@), result: r },
            ),
    {
        let r = self.hooks.recover_volume_control(devices, target_uid);
        proof {
            self.log@ = self.log@.push(HookEvent::RecoverVolumeControl { uid: Ghost(target_uid@), devices: Ghost(devices@), result: r });
        }
        r
    }

    /// Wake the ScalarWebAPI device attached to output `uid` because it was selected.
    pub fn wake_on_output_selected(&mut self, config: &Config, devices: &[OutputDevice], uid: &str) -> (r:
        Result<Option<ScalarWebApiDeviceWakeResult>, RustyJackError>)
        ensures
            final(self).events() == old(self).events().push(
                HookEvent::WakeOnOutputSelected { uid: Ghost(uid@), devices: Ghost(devices@), config: Ghost(*config), result: r },
            ),
    {
        let r = self.hooks.wake_on_output_selected(config, devices, uid);
        proof {
            self.log@ = self.log@.push(HookEvent::WakeOnOutputSelected { uid: Ghost(uid@), devices: Ghost(devices@), config: Ghost(*config), result: r });
        }
        r
    }

    /// Wake the ScalarWebAPI device attached to output `uid` because the user is active.
    pub fn wake_on_activity(&mut self, config: &Config, devices: &[OutputDevice], uid: &str) -> (r: Result<
        Option<ScalarWebApiDeviceWakeResult>,
        RustyJackError,
    >)
        ensures
            final(self).events() == old(self).events().push(
                HookEvent::WakeOnActivity { uid: Ghost(uid@), devices: Ghost(devices@), config: Ghost(*config), result: r },
            ),
    {
        let r = self.hooks.wake_on_activity(config, devices, uid);
        proof {
            self.log@ = self.log@.push(HookEvent::WakeOnActivity { uid: Ghost(uid@), devices: Ghost(devices@), config: Ghost(*config), result: r });
        }
        r
    }

    /// A progress or warning line for the daemon log.
    pub fn report(&mut self, line: String)
        ensures
            final(self).events() == old(self).events().push(HookEvent::Report { line }),
    {
        let ghost l = line;
        self.hooks.report(line);
        proof {
            self.log@ = self.log@.push(HookEvent::Report { line: l });
        }
    }

    /// A successful wake, for the daemon log.
    pub fn report_wake(&mut self, result: &ScalarWebApiDeviceWakeResult)
        ensures
            final(self).events() == old(self).events().push(HookEvent::ReportWake { result: *result }),
    {
        self.hooks.report_wake(result);
        proof {
            self.log@ = self.log@.push(HookEvent::ReportWake { result: *result });
        }
    }

    /// Pause for `ms` milliseconds.
    pub fn sleep_ms(&mut self, ms: u64)
        ensures
            final(self).events() == old(self).events().push(HookEvent::Sleep { ms }),
    {
        self.hooks.sleep_ms(ms);
        proof {
            self.log@ = self.log@.push(HookEvent::Sleep { ms });
        }
    }
}

/// A hook call that does outside work, with what the daemon reads of its result:
/// whether a wake failed, and whether a recovery restarted eqMac.
pub enum HookCall {
    EnsureVolumeControl { devices: Ghost<Seq<OutputDevice>> },
    RecoverVolumeControl { restarted: bool, devices: Ghost<Seq<OutputDevice>> },
    WakeOnOutputSelected { failed: bool, devices: Ghost<Seq<OutputDevice>>, config: Ghost<Config> },
    WakeOnActivity { failed: bool, devices: Ghost<Seq<OutputDevice>>, config: Ghost<Config> },
}

/// A recovery result that restarted eqMac.
pub open spec fn restarted_eqmac(result: Result<HdmiDisplayPortVolumeControlEnsureResult, RustyJackError>) -> bool {
    result matches Ok(vc) && vc.action == HdmiDisplayPortVolumeControlEnsureAction::EqMacRestarted
}

/// The hook call an event records; progress lines, wake reports and sleeps are none.
pub open spec fn call_of(e: HookEvent) -> Seq<(HookCall, Seq<char>)> {
    match e {
        HookEvent::EnsureVolumeControl { uid, devices, .. } => seq![
            (HookCall::EnsureVolumeControl { devices }, uid@),
        ],
        HookEvent::RecoverVolumeControl { uid, devices, result } => seq![
            (HookCall::RecoverVolumeControl { restarted: restarted_eqmac(result), devices }, uid@),
        ],
        HookEvent::WakeOnOutputSelected { uid, devices, config, result } => seq![
            (HookCall::WakeOnOutputSelected { failed: result is Err, devices, config }, uid@),
        ],
        HookEvent::WakeOnActivity { uid, devices, config, result } => seq![
            (HookCall::WakeOnActivity { failed: result is Err, devices, config }, uid@),
        ],
        _ => seq![],
    }
}

/// The outside-work hook calls among `events`, in order.
pub open spec fn hook_calls(events: Seq<HookEvent>) -> Seq<(HookCall, Seq<char>)>
    decreases events.len(),
{
    if events.len() == 0 {
        seq![]
    } else {
        hook_calls(events.drop_last()) + call_of(events.last())
    }
}

/// One more event adds its call, if it is one.
pub proof fn lemma_hook_calls_push(events: Seq<HookEvent>, e: HookEvent)
    ensures
        hook_calls(events.push(e)) == hook_calls(events) + call_of(e),
{
    assert(events.push(e).drop_last() =~= events);
}

/// The hook calls of two stretches of events follow each other.
pub proof fn lemma_hook_calls_add(a: Seq<HookEvent>, b: Seq<HookEvent>)
    ensures
        hook_calls(a + b) == hook_calls(a) + hook_calls(b),
    decreases b.len(),
{
    if b.len() == 0 {
        assert(a + b =~= a);
        assert(hook_calls(a) + hook_calls(b) =~= hook_calls(a));
    } else {
        lemma_hook_calls_add(a, b.drop_last());
        assert((a + b).drop_last() =~= a + b.drop_last());
        assert((a + b).last() == b.last());
        assert(hook_calls(a) + hook_calls(b.drop_last()) + call_of(b.last()) =~= hook_calls(a)
            + hook_calls(b));
    }
}

/// The HAL's default output and its write logs are as they were.
pub open spec fn hal_unchanged<H: AudioHal>(before: H, after: H) -> bool {
    &&& after.model_default() == before.model_default()
    &&& after.default_log() == before.default_log()
    &&& after.volume_log() == before.volume_log()
}

/// The UID a routing result names.
pub open spec fn applied_uid(res: ApplyResult) -> Seq<char> {
    match res {
        ApplyResult::Switched { to_uid, .. } => to_uid@,
        ApplyResult::NoChange { uid, .. } => uid@,
    }
}

/// What a daemon switch to `uid` did to the default output: one write when the
/// default moved, none when it was already there.
pub open spec fn tick_switch<H: AudioHal>(
    before: H,
    after: H,
    uid: Seq<char>,
    also_system: bool,
    res: ApplyResult,
) -> bool {
    &&& applied_uid(res) == uid
    &&& match res {
        ApplyResult::Switched { from_uid, .. } => {
            &&& opt_seq(from_uid) == before.model_default()
            &&& before.model_default() != Some(uid)
            &&& after.model_default() == Some(uid)
            &&& after.default_log() == before.default_log().push((uid, also_system))
        },
        ApplyResult::NoChange { .. } => {
            &&& after.model_default() == before.model_default()
            &&& after.default_log() == before.default_log()
        },
    }
}

/// The UID audio is routed to now: the active device, or else the default output.
pub open spec fn spec_current_routed(devices: Seq<OutputDevice>, default: Option<Seq<char>>) -> Option<
    Seq<char>,
> {
    match first_where(devices, active_pred()) {
        Some(k) => Some(devices[k].uid@),
        None => default,
    }
}

/// UID of the output audio is routed to now.
pub fn current_routed_output_uid(list: &DeviceList, default_uid: Option<&str>) -> (r: Option<
    String,
>)
    ensures
        opt_seq(r) == spec_current_routed(
            list.devices@,
            match default_uid {
                Some(d) => Some(d@),
                None => None,
            },
        ),
{
    proof {
        lemma_first_where(list.devices@, active_pred());
    }
    match find_active(list.devices.as_slice()) {
        Some(k) => Some(list.devices[k].uid.clone()),
        None => match default_uid {
            Some(d) => Some(owned(d)),
            None => None,
        },
    }
}

/// The fallback target, unless it is the output being replaced.
pub open spec fn spec_fallback_excluding(
    config: Config,
    devices: Seq<OutputDevice>,
    excluded: Seq<char>,
) -> Option<RoutingTarget> {
    match spec_select_fallback(config, devices) {
        Some(t) => if t.uid@ != excluded {
            Some(t)
        } else {
            None
        },
        None => None,
    }
}

/// Fallback target other than `excluded_uid`.
pub fn fallback_excluding(config: &Config, devices: &[OutputDevice], excluded_uid: &str) -> (r:
    Option<RoutingTarget>)
    ensures
        r == spec_fallback_excluding(*config, devices@, excluded_uid@),
{
    match select_fallback_target(config, devices) {
        Some(t) => if str_eq(t.uid.as_str(), excluded_uid) {
            None
        } else {
            Some(t)
        },
        None => None,
    }
}

/// An output the daemon may settle on: the policy target, or the fallback that
/// stands in for it.
pub open spec fn spec_candidate(config: Config, devices: Seq<OutputDevice>, uid: Seq<char>) -> bool {
    match spec_select_routing_target(config, devices) {
        Ok(t) => uid == t.uid@ || (spec_fallback_excluding(config, devices, t.uid@) matches Some(f)
            && uid == f.uid@),
        Err(_) => false,
    }
}

/// Wake the device behind the selected output; when the wake fails and a fallback
/// is permitted, route to the fallback instead.
pub fn scalar_webapi_device_checked_target_or_fallback<K: DaemonHooks>(
    hooks: &mut HookLog<K>,
    config: &Config,
    devices: &[OutputDevice],
    target: RoutingTarget,
    reason: DaemonTickReason,
    permission: ScalarWebApiDeviceFallbackPermission,
) -> (r: RoutingTarget)
    ensures
        final(hooks).events().len() > old(hooks).events().len(),
        final(hooks).events().subrange(0, old(hooks).events().len() as int) == old(hooks).events(),
        final(hooks).events()[old(hooks).events().len() as int] matches HookEvent::WakeOnOutputSelected {
            uid,
            result,
            ..
        } && uid@ == target.uid@ && if result is Err && spec_allow_fallback(reason, permission)
            && spec_fallback_excluding(*config, devices@, target.uid@) is Some {
            spec_fallback_excluding(*config, devices@, target.uid@) == Some(r)
        } else {
            r == target
        },
        hook_calls(final(hooks).events()) == hook_calls(old(hooks).events()).push(
            (
                HookCall::WakeOnOutputSelected {
                    devices: Ghost(devices@),
                    config: Ghost(*config),
                    failed: final(hooks).events()[old(hooks).events().len() as int]->WakeOnOutputSelected_result is Err,
                },
                target.uid@,
            ),
        ),
{
    let ghost n = hooks.events().len() as int;
    let woken = hooks.wake_on_output_selected(config, devices, target.uid.as_str());
    let ghost mid = hooks.events();
    proof {
        lemma_hook_calls_push(old(hooks).events(), mid.last());
        assert(old(hooks).events().push(mid.last()) =~= mid);
    }
    match woken {
        Ok(Some(result)) => {
            hooks.report_wake(&result);
            proof {
                lemma_hook_calls_push(mid, HookEvent::ReportWake { result });
            }
        },
        Ok(None) => {},
        Err(err) => {
            let line = concat2("warning: ", err.message().as_str());
            let ghost l1 = line;
            hooks.report(line);
            proof {
                lemma_hook_calls_push(mid, HookEvent::Report { line: l1 });
            }
            if allow_scalar_webapi_device_fallback(reason, permission) {
                if let Some(fallback) = fallback_excluding(config, devices, target.uid.as_str()) {
                    let ghost mid2 = hooks.events();
                    let line2 = crate::text::concat3(
                        "warning: using fallback output ",
                        crate::text::concat3(
                            fallback.name.as_str(),
                            " (",
                            fallback.uid.as_str(),
                        ).as_str(),
                        ") because the selected ScalarWebAPI device is unreachable",
                    );
                    let ghost l2 = line2;
                    hooks.report(line2);
                    proof {
                        lemma_hook_calls_push(mid2, HookEvent::Report { line: l2 });
                        assert(hooks.events()[n] == mid2[n]);
                    }
                    return fallback;
                }
            }
        },
    }
    target
}

/// On user activity, wake the device behind the current output; when the wake
/// fails and a fallback is permitted, name the fallback to switch to.
pub fn scalar_webapi_device_activity_fallback_target<K: DaemonHooks>(
    hooks: &mut HookLog<K>,
    config: &Config,
    devices: &[OutputDevice],
    target_uid: &str,
    permission: ScalarWebApiDeviceFallbackPermission,
) -> (r: Option<RoutingTarget>)
    ensures
        final(hooks).events().len() > old(hooks).events().len(),
        final(hooks).events().subrange(0, old(hooks).events().len() as int) == old(hooks).events(),
        final(hooks).events()[old(hooks).events().len() as int] matches HookEvent::WakeOnActivity {
            uid,
            result,
            ..
        } && uid@ == target_uid@ && r == if result is Err && spec_allow_fallback(
            DaemonTickReason::UserActivity,
            permission,
        ) {
            spec_fallback_excluding(*config, devices@, target_uid@)
        } else {
            None
        },
        hook_calls(final(hooks).events()) == hook_calls(old(hooks).events()).push(
            (
                HookCall::WakeOnActivity {
                    devices: Ghost(devices@),
                    config: Ghost(*config),
                    failed: final(hooks).events()[old(hooks).events().len() as int]->WakeOnActivity_result is Err,
                },
                target_uid@,
            ),
        ),
{
    let ghost n = hooks.events().len() as int;
    let woken = hooks.wake_on_activity(config, devices, target_uid);
    let ghost mid = hooks.events();
    proof {
        lemma_hook_calls_push(old(hooks).events(), mid.last());
        assert(old(hooks).events().push(mid.last()) =~= mid);
    }
    match woken {
        Ok(Some(result)) => {
            hooks.report_wake(&result);
            proof {
                lemma_hook_calls_push(mid, HookEvent::ReportWake { result });
            }
            None
        },
        Ok(None) => None,
        Err(err) => {
            let line = concat2("warning: ", err.message().as_str());
            let ghost l1 = line;
            hooks.report(line);
            proof {
                lemma_hook_calls_push(mid, HookEvent::Report { line: l1 });
            }
            if allow_scalar_webapi_device_fallback(DaemonTickReason::UserActivity, permission) {
                fallback_excluding(config, devices, target_uid)
            } else {
                None
            }
        },
    }
}

/// Volume a daemon switch applies to `target`.
pub open spec fn spec_daemon_volume(
    config: Config,
    target: RoutingTarget,
    preferred: Option<Seq<char>>,
    memory: VolumeMemory,
) -> Option<u8> {
    if preferred == Some(target.uid@) || target.source == RoutingTargetSource::Preferred {
        config.volume
    } else {
        spec_remembered(memory.entries@, target.uid@)
    }
}

/// A daemon switch writes the volume that belongs to the output it switches
/// to, exactly as `apply` does. The preferred output gets the configured
/// volume whatever the memory holds. Any other target gets its own remembered
/// volume: `v` right after `v` was recorded for its UID (so an output the user
/// left at 40% comes back at 40%), and no volume write at all when the memory
/// has no record of it.
pub proof fn law_daemon_volume_belongs_to_target(
    config: Config,
    target: RoutingTarget,
    preferred: Option<Seq<char>>,
    memory: VolumeMemory,
    after: VolumeMemory,
    other: VolumeMemory,
    entry: (String, u8),
)
    ensures
        spec_daemon_volume(config, target, preferred, memory) == crate::apply::spec_volume_for_target(
            config,
            target,
            preferred,
            memory.entries@,
        ),
        preferred == Some(target.uid@) || target.source == RoutingTargetSource::Preferred ==> spec_daemon_volume(
            config,
            target,
            preferred,
            memory,
        ) == config.volume && spec_daemon_volume(config, target, preferred, other) == config.volume,
        preferred != Some(target.uid@) && target.source != RoutingTargetSource::Preferred ==> {
            &&& (after.entries@ == memory.entries@.push(entry) && entry.0@ == target.uid@
                ==> spec_daemon_volume(config, target, preferred, after) == Some(entry.1))
            &&& ((forall|i: int|
                0 <= i < memory.entries@.len() ==> (#[trigger] memory.entries@[i]).0@ != target.uid@)
                ==> spec_daemon_volume(config, target, preferred, memory) is None)
        },
{
    if forall|i: int|
        0 <= i < memory.entries@.len() ==> (#[trigger] memory.entries@[i]).0@ != target.uid@ {
        crate::apply::lemma_remembered_absent(memory.entries@, target.uid@);
    }
    crate::apply::law_remember_then_recall(memory.entries@, entry, target.uid@);
}

fn opt_owned(o: Option<&str>) -> (r: Option<String>)
    ensures
        opt_seq(r) == match o {
            Some(s) => Some(s@),
            None => None,
        },
{
    match o {
        Some(s) => Some(owned(s)),
        None => None,
    }
}

fn sleep_switch_delay<K: DaemonHooks>(hooks: &mut HookLog<K>, config: &Config)
    ensures
        final(hooks).events() == if config.switch_delay_ms != 0 {
            old(hooks).events().push(HookEvent::Sleep { ms: config.switch_delay_ms })
        } else {
            old(hooks).events()
        },
        hook_calls(final(hooks).events()) == hook_calls(old(hooks).events()),
{
    if config.switch_delay_ms != 0 {
        let ghost before = hooks.events();
        hooks.sleep_ms(config.switch_delay_ms);
        proof {
            lemma_hook_calls_push(before, HookEvent::Sleep { ms: config.switch_delay_ms });
            assert(hook_calls(hooks.events()) =~= hook_calls(before));
        }
    }
}

/// Switch to `target` after making sure its route has volume control and
/// remembering the volume of the output being left.
pub fn switch_daemon_target<H: AudioHal, K: DaemonHooks>(
    hal: &mut H,
    hooks: &mut HookLog<K>,
    config: &Config,
    list: &DeviceList,
    target: &RoutingTarget,
    preferred: Option<&str>,
    memory: &mut VolumeMemory,
) -> (r: Result<ApplyResult, RustyJackError>)
    ensures
        final(hal).obeys_model() == old(hal).obeys_model(),
        old(hal).obeys_model() ==> (r matches Ok(res) ==> switch_outcome(
            *old(hal),
            *final(hal),
            *target,
            SwitchOptions {
                also_set_system_output: config.also_set_system_output,
                volume: spec_daemon_volume(
                    *config,
                    *target,
                    match preferred {
                        Some(p) => Some(p@),
                        None => None,
                    },
                    *final(memory),
                ),
            },
            res,
        )),
        final(hooks).events().len() > old(hooks).events().len(),
        final(hooks).events().subrange(0, old(hooks).events().len() as int) == old(hooks).events(),
        old(hal).obeys_model() ==> (final(hooks).events()[old(hooks).events().len() as int] matches HookEvent::EnsureVolumeControl {
            uid,
            result,
            ..
        } && uid@ == target.uid@ && match result {
            Err(e) => r == Err::<ApplyResult, RustyJackError>(e) && *final(hal) == *old(hal)
                && final(memory).entries@ == old(memory).entries@,
            Ok(_) => {
                &&& remembers_on_leave(
                    old(memory).entries@,
                    final(memory).entries@,
                    list.devices@,
                    match preferred {
                        Some(p) => Some(p@),
                        None => None,
                    },
                    target.uid@,
                    |u: Seq<char>| old(hal).reported_volume(u),
                )
                &&& r is Err == switch_fails(
                    *old(hal),
                    *target,
                    SwitchOptions {
                        also_set_system_output: config.also_set_system_output,
                        volume: spec_daemon_volume(
                            *config,
                            *target,
                            match preferred {
                                Some(p) => Some(p@),
                                None => None,
                            },
                            *final(memory),
                        ),
                    },
                )
            },
        }),
        old(hal).obeys_model() ==> (failures_kept(*old(hal), *final(hal))),
        old(hal).obeys_model() ==> (r is Err ==> hal_may_fail(*old(hal)) || volume_control_failed(
            final(hooks).events(),
            old(hooks).events().len() as int,
        )),
        hook_calls(final(hooks).events()) == hook_calls(old(hooks).events()).push(
            (HookCall::EnsureVolumeControl { devices: Ghost(list.devices@) }, target.uid@),
        ),
{
    let ghost k = hooks.events().len() as int;
    let ensured = hooks.ensure_volume_control(list.devices.as_slice(), target.uid.as_str());
    proof {
        lemma_hook_calls_push(old(hooks).events(), hooks.events().last());
        assert(old(hooks).events().push(hooks.events().last()) =~= hooks.events());
    }
    let volume_control = match ensured {
        Ok(v) => v,
        Err(e) => {
            assert(failed_volume_control(hooks.events()[k]));
            return Err(e);
        },
    };
    let lines = format_ensure_messages(volume_control);
    report_lines(hooks, lines);
    remember_active_non_preferred(
        &*hal,
        list.devices.as_slice(),
        preferred,
        target.uid.as_str(),
        memory,
    );
    let preferred_owned = opt_owned(preferred);
    let volume = volume_for_target(config, target, &preferred_owned, memory);
    let result = switch_output(
        hal,
        target,
        &SwitchOptions { also_set_system_output: config.also_set_system_output, volume },
    )?;
    if let ApplyResult::Switched { .. } = &result {
        sleep_switch_delay(hooks, config);
    }
    Ok(result)
}

/// On startup, apply the target's volume even when the route does not change.
pub fn ensure_startup_volume<H: AudioHal>(
    hal: &mut H,
    config: &Config,
    reason: DaemonTickReason,
    target: &RoutingTarget,
    preferred: &Option<String>,
    memory: &VolumeMemory,
) -> (r: Result<(), RustyJackError>)
    ensures
        final(hal).obeys_model() == old(hal).obeys_model(),
        old(hal).obeys_model() ==> (final(hal).model_default() == old(hal).model_default()),
        old(hal).obeys_model() ==> (final(hal).default_log() == old(hal).default_log()),
        old(hal).obeys_model() ==> (reason != DaemonTickReason::Startup ==> final(hal).volume_log() == old(hal).volume_log()),
        old(hal).obeys_model() ==> (reason == DaemonTickReason::Startup ==> final(hal).volume_log() == old(hal).volume_log()
            + match spec_daemon_volume(*config, *target, opt_seq(*preferred), *memory) {
            Some(v) => seq![(target.uid@, v)],
            None => Seq::<(Seq<char>, u8)>::empty(),
        }),
        old(hal).obeys_model() ==> (r is Err == (reason == DaemonTickReason::Startup && match spec_daemon_volume(
            *config,
            *target,
            opt_seq(*preferred),
            *memory,
        ) {
            Some(v) => old(hal).set_volume_fails(target.uid@, v),
            None => false,
        })),
        old(hal).obeys_model() ==> (failures_kept(*old(hal), *final(hal))),
{
    if reason != DaemonTickReason::Startup {
        return Ok(());
    }
    match volume_for_target(config, target, preferred, memory) {
        Some(volume) => {
            let ghost before = *hal;
            let written = hal.set_output_volume(target.uid.as_str(), volume);
            assert(old(hal).obeys_model() ==> hal.volume_log() =~= before.volume_log() + seq![(target.uid@, volume)]);
            match written {
                Ok(_) => Ok(()),
                Err(e) => Err(e),
            }
        },
        None => {
            assert(hal.volume_log() =~= hal.volume_log() + Seq::<(Seq<char>, u8)>::empty());
            Ok(())
        },
    }
}


/// The report events of `lines`, in order.
pub open spec fn report_events(lines: Seq<String>) -> Seq<HookEvent> {
    lines.map_values(|l: String| HookEvent::Report { line: l })
}

fn report_lines<K: DaemonHooks>(hooks: &mut HookLog<K>, lines: Vec<String>)
    ensures
        final(hooks).events() == old(hooks).events() + report_events(lines@),
        hook_calls(final(hooks).events()) == hook_calls(old(hooks).events()),
{
    let mut i: usize = 0;
    while i < lines.len()
        invariant
            i <= lines@.len(),
            hooks.events() == old(hooks).events() + report_events(lines@.take(i as int)),
            hook_calls(hooks.events()) == hook_calls(old(hooks).events()),
        decreases lines@.len() - i,
    {
        let line = lines[i].clone();
        let ghost before = hooks.events();
        hooks.report(line);
        proof {
            lemma_hook_calls_push(before, HookEvent::Report { line: lines@[i as int] });
            assert(hook_calls(hooks.events()) =~= hook_calls(before));
            assert(lines@.take(i + 1) =~= lines@.take(i as int).push(lines@[i as int]));
            assert(report_events(lines@.take(i + 1)) =~= report_events(lines@.take(i as int)).push(
                HookEvent::Report { line: lines@[i as int] },
            ));
        }
        i = i + 1;
    }
    assert(lines@.take(lines@.len() as int) =~= lines@);
}

/// Whether the daemon logs the messages of a volume-control outcome.
pub open spec fn spec_should_log(
    action: HdmiDisplayPortVolumeControlEnsureAction,
    reason: DaemonTickReason,
    relaunched: HdmiDisplayPortVolumeControlEnsureAction,
) -> bool {
    action == relaunched || (reason == DaemonTickReason::Startup && action
        == HdmiDisplayPortVolumeControlEnsureAction::NativeDriverRecommended)
}

fn should_log(
    action: HdmiDisplayPortVolumeControlEnsureAction,
    reason: DaemonTickReason,
    relaunched: HdmiDisplayPortVolumeControlEnsureAction,
) -> (r: bool)
    ensures
        r == spec_should_log(action, reason, relaunched),
{
    action == relaunched || (reason == DaemonTickReason::Startup && action
        == HdmiDisplayPortVolumeControlEnsureAction::NativeDriverRecommended)
}
/// A volume-control hook call that returned an error.
pub open spec fn failed_volume_control(e: HookEvent) -> bool {
    match e {
        HookEvent::EnsureVolumeControl { result, .. } => result is Err,
        HookEvent::RecoverVolumeControl { result, .. } => result is Err,
        _ => false,
    }
}

/// Some volume-control hook call from position `from` on returned an error.
pub open spec fn volume_control_failed(events: Seq<HookEvent>, from: int) -> bool {
    exists|i: int| from <= i < events.len() && #[trigger] failed_volume_control(events[i])
}

/// Keep volume control healthy for the current route. Off startup this only
/// ensures it; on startup it recovers it, and a recovery that relaunched eqMac
/// re-applies the route.
pub fn recover_hdmi_displayport_volume_control_for_daemon_target<H: AudioHal, K: DaemonHooks>(
    hal: &mut H,
    hooks: &mut HookLog<K>,
    config: &Config,
    list: &DeviceList,
    target: &RoutingTarget,
    preferred: Option<&str>,
    reason: DaemonTickReason,
    memory: &mut VolumeMemory,
) -> (r: Result<Option<ApplyResult>, RustyJackError>)
    ensures
        final(hal).obeys_model() == old(hal).obeys_model(),
        old(hal).obeys_model() ==> (reason != DaemonTickReason::Startup ==> hal_unchanged(*old(hal), *final(hal))),
        old(hal).obeys_model() ==> (r matches Ok(None) ==> hal_unchanged(*old(hal), *final(hal))),
        old(hal).obeys_model() ==> (r matches Ok(Some(res)) ==> reason == DaemonTickReason::Startup && tick_switch(
            *old(hal),
            *final(hal),
            target.uid@,
            config.also_set_system_output,
            res,
        )),
        final(hooks).events().len() > old(hooks).events().len(),
        final(hooks).events().subrange(0, old(hooks).events().len() as int) == old(hooks).events(),
        old(hal).obeys_model() ==> (match final(hooks).events()[old(hooks).events().len() as int] {
            HookEvent::EnsureVolumeControl { uid, result, .. } => reason != DaemonTickReason::Startup
                && uid@ == target.uid@ && match result {
                Err(e) => r == Err::<Option<ApplyResult>, RustyJackError>(e),
                Ok(_) => r matches Ok(None),
            },
            HookEvent::RecoverVolumeControl { uid, result, .. } => reason == DaemonTickReason::Startup
                && uid@ == target.uid@ && match result {
                Err(e) => r == Err::<Option<ApplyResult>, RustyJackError>(e),
                Ok(vc) => if vc.action != HdmiDisplayPortVolumeControlEnsureAction::EqMacRestarted {
                    r matches Ok(None)
                } else {
                    r is Err ==> volume_control_failed(
                        final(hooks).events(),
                        old(hooks).events().len() + 1int,
                    ) || switch_fails(
                        *old(hal),
                        *target,
                        SwitchOptions {
                            also_set_system_output: config.also_set_system_output,
                            volume: spec_daemon_volume(
                                *config,
                                *target,
                                match preferred {
                                    Some(p) => Some(p@),
                                    None => None,
                                },
                                *final(memory),
                            ),
                        },
                    ) || (spec_daemon_volume(
                        *config,
                        *target,
                        match preferred {
                            Some(p) => Some(p@),
                            None => None,
                        },
                        *final(memory),
                    ) matches Some(v) && old(hal).set_volume_fails(target.uid@, v))
                },
            },
            _ => false,
        }),
        old(hal).obeys_model() ==> (failures_kept(*old(hal), *final(hal))),
        old(hal).obeys_model() ==> (r is Err ==> hal_may_fail(*old(hal)) || volume_control_failed(
            final(hooks).events(),
            old(hooks).events().len() as int,
        )),
        reason != DaemonTickReason::Startup ==> hook_calls(final(hooks).events()) == hook_calls(
            old(hooks).events(),
        ).push((HookCall::EnsureVolumeControl { devices: Ghost(list.devices@) }, target.uid@)),
        reason != DaemonTickReason::Startup ==> (r is Ok ==> r matches Ok(None)),
        reason == DaemonTickReason::Startup ==> ({
            let restarted = restarted_eqmac(
                final(hooks).events()[old(hooks).events().len() as int]->RecoverVolumeControl_result,
            );
            &&& hook_calls(final(hooks).events()) == hook_calls(old(hooks).events()).push(
                (HookCall::RecoverVolumeControl { restarted, devices: Ghost(list.devices@) }, target.uid@),
            ) + if restarted {
                seq![(HookCall::EnsureVolumeControl { devices: Ghost(list.devices@) }, target.uid@)]
            } else {
                seq![]
            }
            &&& (r is Ok ==> (restarted <==> r matches Ok(Some(_))))
        }),
        r matches Ok(None) ==> final(memory).entries@ == old(memory).entries@,
{
    let ghost k0 = hooks.events().len() as int;
    if reason != DaemonTickReason::Startup {
        let ensured = hooks.ensure_volume_control(
            list.devices.as_slice(),
            target.uid.as_str(),
        );
        proof {
            lemma_hook_calls_push(old(hooks).events(), hooks.events().last());
            assert(old(hooks).events().push(hooks.events().last()) =~= hooks.events());
        }
        let volume_control = match ensured {
            Ok(v) => v,
            Err(e) => {
                assert(failed_volume_control(hooks.events()[k0]));
                return Err(e);
            },
        };
        if should_log(
            volume_control.action,
            reason,
            HdmiDisplayPortVolumeControlEnsureAction::EqMacLaunched,
        ) {
            report_lines(hooks, format_ensure_messages(volume_control));
        }
        return Ok(None);
    }
    let recovered_result = hooks.recover_volume_control(
        list.devices.as_slice(),
        target.uid.as_str(),
    );
    proof {
        lemma_hook_calls_push(old(hooks).events(), hooks.events().last());
        assert(old(hooks).events().push(hooks.events().last()) =~= hooks.events());
    }
    let ghost recover_calls = hook_calls(hooks.events());
    let volume_control = match recovered_result {
        Ok(v) => v,
        Err(e) => {
            assert(failed_volume_control(hooks.events()[k0]));
            return Err(e);
        },
    };
    let recovered = volume_control.action
        == HdmiDisplayPortVolumeControlEnsureAction::EqMacRestarted;
    if should_log(
        volume_control.action,
        reason,
        HdmiDisplayPortVolumeControlEnsureAction::EqMacRestarted,
    ) {
        report_lines(hooks, format_ensure_messages(volume_control));
    }
    if recovered {
        let ghost mid = hooks.events();
        let ghost k = old(hooks).events().len() as int;
        assert(mid[k] == HookEvent::RecoverVolumeControl { uid: Ghost(target.uid@), devices: Ghost(list.devices@), result: Ok::<HdmiDisplayPortVolumeControlEnsureResult, RustyJackError>(volume_control) });
        let result = match switch_daemon_target(hal, hooks, config, list, target, preferred, memory) {
            Ok(res) => res,
            Err(e) => {
                proof {
                    assert(hooks.events().subrange(0, mid.len() as int)[k] == hooks.events()[k]);
                    assert(hook_calls(hooks.events()) =~= hook_calls(old(hooks).events()).push(
                        (HookCall::RecoverVolumeControl { restarted: true, devices: Ghost(list.devices@) }, target.uid@),
                    ) + seq![(HookCall::EnsureVolumeControl { devices: Ghost(list.devices@) }, target.uid@)]);
                    if failed_volume_control(hooks.events()[mid.len() as int]) {
                        assert(volume_control_failed(hooks.events(), k + 1));
                    }
                }
                return Err(e);
            },
        };
        proof {
            assert(hooks.events().subrange(0, mid.len() as int)[k] == hooks.events()[k]);
            assert(hook_calls(hooks.events()) =~= hook_calls(old(hooks).events()).push(
                (HookCall::RecoverVolumeControl { restarted: true, devices: Ghost(list.devices@) }, target.uid@),
            ) + seq![(HookCall::EnsureVolumeControl { devices: Ghost(list.devices@) }, target.uid@)]);
        }
        let preferred_owned = opt_owned(preferred);
        match ensure_startup_volume(hal, config, reason, target, &preferred_owned, memory) {
            Ok(_) => {},
            Err(e) => {
                return Err(e);
            },
        }
        return Ok(Some(result));
    }
    Ok(None)
}

/// What the daemon settles on, stated of one tick.
pub open spec fn tick_outcome<H: AudioHal>(
    before: H,
    after: H,
    config: Config,
    reason: DaemonTickReason,
    permission: ScalarWebApiDeviceFallbackPermission,
    res: DaemonTickResult,
    devices: Seq<OutputDevice>,
) -> bool {
    &&& (res is AutoSwitchDisabled <==> !config.auto_switch)
    &&& (!config.auto_switch ==> hal_unchanged(before, after))
    &&& (config.auto_switch ==> spec_select_routing_target(config, devices) is Ok)
    &&& match res {
        DaemonTickResult::AutoSwitchDisabled => true,
        DaemonTickResult::NoChange(a) => {
            &&& a matches ApplyResult::NoChange { reason: why, .. } && why@
                == "active output already on target"@
            &&& spec_candidate(config, devices, applied_uid(a))
            &&& spec_current_routed(devices, before.model_default()) == Some(applied_uid(a))
            &&& !spec_allow_fallback(reason, permission) ==> applied_uid(a) == spec_select_routing_target(
                config,
                devices,
            )->Ok_0.uid@
            &&& after.model_default() == before.model_default()
            &&& after.default_log() == before.default_log()
            &&& reason != DaemonTickReason::Startup ==> after.volume_log() == before.volume_log()
        },
        DaemonTickResult::Switched(a) => {
            &&& spec_candidate(config, devices, applied_uid(a))
            &&& !spec_allow_fallback(reason, permission) ==> applied_uid(a) == spec_select_routing_target(
                config,
                devices,
            )->Ok_0.uid@
            &&& tick_switch(before, after, applied_uid(a), config.also_set_system_output, a)
        },
    }
}
/// Some HAL operation can fail: reading the default, or writing a default or a volume.
pub open spec fn hal_may_fail<H: AudioHal>(hal: H) -> bool {
    ||| hal.read_fails()
    ||| exists|u: Seq<char>, s: bool| #[trigger] hal.set_default_fails(u, s)
    ||| exists|u: Seq<char>, p: u8| #[trigger] hal.set_volume_fails(u, p)
}
/// A daemon tick may fail: listing fails, or with auto-switch on, no target can be
/// selected, some HAL operation can fail, or a volume-control hook call from
/// position `from` on returned an error.
pub open spec fn tick_may_fail<H: AudioHal>(hal: H, config: Config, events: Seq<HookEvent>, from: int) -> bool {
    ||| hal.list_fails()
    ||| config.auto_switch && (spec_select_routing_target(config, hal.model_devices()) is Err
        || hal_may_fail(hal) || volume_control_failed(events, from))
}

/// Whether a tick asks a ScalarWebAPI device to wake: always when audio is
/// already on the policy target, else unless the tick is for user activity.
pub open spec fn tick_wakes(config: Config, devices: Seq<OutputDevice>, default: Option<Seq<char>>, reason: DaemonTickReason) -> bool {
    let t = spec_select_routing_target(config, devices)->Ok_0;
    spec_current_routed(devices, default) == Some(t.uid@) || reason != DaemonTickReason::UserActivity
}

/// Whether a tick falls back: the wake failed, a fallback is permitted, and
/// there is a fallback other than the policy target.
pub open spec fn tick_falls_back(
    config: Config,
    devices: Seq<OutputDevice>,
    default: Option<Seq<char>>,
    reason: DaemonTickReason,
    permission: ScalarWebApiDeviceFallbackPermission,
    wake_failed: bool,
) -> bool {
    let t = spec_select_routing_target(config, devices)->Ok_0;
    &&& tick_wakes(config, devices, default, reason)
    &&& wake_failed
    &&& spec_allow_fallback(reason, permission)
    &&& spec_fallback_excluding(config, devices, t.uid@) is Some
}

/// The output a tick settles on: the policy target, or its fallback.
pub open spec fn tick_settled_target(
    config: Config,
    devices: Seq<OutputDevice>,
    default: Option<Seq<char>>,
    reason: DaemonTickReason,
    permission: ScalarWebApiDeviceFallbackPermission,
    wake_failed: bool,
) -> RoutingTarget {
    let t = spec_select_routing_target(config, devices)->Ok_0;
    if tick_falls_back(config, devices, default, reason, permission, wake_failed) {
        spec_fallback_excluding(config, devices, t.uid@)->Some_0
    } else {
        t
    }
}

/// The wake call of a tick, if it makes one.
pub open spec fn tick_wake_calls(
    config: Config,
    devices: Seq<OutputDevice>,
    default: Option<Seq<char>>,
    reason: DaemonTickReason,
    wake_failed: bool,
) -> Seq<(HookCall, Seq<char>)> {
    let t = spec_select_routing_target(config, devices)->Ok_0;
    if !tick_wakes(config, devices, default, reason) {
        seq![]
    } else if spec_current_routed(devices, default) == Some(t.uid@) && reason
        == DaemonTickReason::UserActivity {
        seq![(HookCall::WakeOnActivity { failed: wake_failed, devices: Ghost(devices), config: Ghost(config) }, t.uid@)]
    } else {
        seq![(HookCall::WakeOnOutputSelected { failed: wake_failed, devices: Ghost(devices), config: Ghost(config) }, t.uid@)]
    }
}

/// The volume-control calls of a tick for the settled output `u`.
pub open spec fn tick_volume_control_calls(
    devices: Seq<OutputDevice>,
    settled_on: bool,
    reason: DaemonTickReason,
    u: Seq<char>,
    restarted: bool,
) -> Seq<(HookCall, Seq<char>)> {
    if settled_on && reason == DaemonTickReason::Startup {
        seq![(HookCall::RecoverVolumeControl { restarted, devices: Ghost(devices) }, u)] + if restarted {
            seq![(HookCall::EnsureVolumeControl { devices: Ghost(devices) }, u)]
        } else {
            seq![]
        }
    } else {
        seq![(HookCall::EnsureVolumeControl { devices: Ghost(devices) }, u)]
    }
}

/// The hook calls a successful tick makes: the wake of the policy target (on
/// activity when audio is already there, else on selection), then for the
/// settled output either ensuring volume control, or at startup when audio is
/// already there, recovering it and, after an eqMac restart, ensuring it again.
pub open spec fn tick_hook_calls(
    config: Config,
    devices: Seq<OutputDevice>,
    default: Option<Seq<char>>,
    reason: DaemonTickReason,
    permission: ScalarWebApiDeviceFallbackPermission,
    wake_failed: bool,
    restarted: bool,
) -> Seq<(HookCall, Seq<char>)> {
    let t = spec_select_routing_target(config, devices)->Ok_0;
    let cur = spec_current_routed(devices, default);
    let on = cur == Some(t.uid@);
    let u = tick_settled_target(config, devices, default, reason, permission, wake_failed).uid@;
    let wake = tick_wake_calls(config, devices, default, reason, wake_failed);
    wake + tick_volume_control_calls(devices, cur == Some(u), reason, u, restarted)
}

/// What a successful tick did: when audio already reaches the settled output it
/// reports no change and leaves the default alone (at startup writing the
/// target's volume, or switching again after an eqMac restart); otherwise it
/// switches the default output to it.
pub open spec fn tick_result<H: AudioHal>(
    before: H,
    after: H,
    config: Config,
    reason: DaemonTickReason,
    permission: ScalarWebApiDeviceFallbackPermission,
    memory: VolumeMemory,
    wake_failed: bool,
    restarted: bool,
    res: DaemonTickResult,
) -> bool {
    let devices = before.model_devices();
    let default = before.model_default();
    let target = tick_settled_target(config, devices, default, reason, permission, wake_failed);
    let u = target.uid@;
    let preferred = spec_resolves_to(DeviceSelector { uid: config.spec_preferred_uid() }, devices);
    if spec_current_routed(devices, default) == Some(u) && !(reason == DaemonTickReason::Startup
        && restarted) {
        &&& res matches DaemonTickResult::NoChange(a) && applied_uid(a) == u
        &&& after.model_default() == before.model_default()
        &&& after.default_log() == before.default_log()
        &&& after.volume_log() == before.volume_log() + if reason == DaemonTickReason::Startup {
            match spec_daemon_volume(config, target, preferred, memory) {
                Some(v) => seq![(u, v)],
                None => seq![],
            }
        } else {
            seq![]
        }
    } else {
        res matches DaemonTickResult::Switched(a) && tick_switch(
            before,
            after,
            u,
            config.also_set_system_output,
            a,
        )
    }
}

/// The end of a tick whose settled output `target` already has the audio:
/// keep its volume control healthy and report no change, unless a startup
/// recovery restarted eqMac and the route was applied again.
fn settle_on_target<H: AudioHal, K: DaemonHooks>(
    hal: &mut H,
    hooks: &mut HookLog<K>,
    config: &Config,
    list: DeviceList,
    target: RoutingTarget,
    preferred: &Option<String>,
    reason: DaemonTickReason,
    memory: &mut VolumeMemory,
    permission: ScalarWebApiDeviceFallbackPermission,
    wake_failed: Ghost<bool>,
) -> (r: Result<(DaemonTickResult, DeviceList), RustyJackError>)
    requires
        old(hal).obeys_model() ==> (list.devices@ == old(hal).model_devices()),
        old(hal).obeys_model() ==> (list.system_default == old(hal).model_system_default()),
        config.auto_switch,
        spec_select_routing_target(*config, list.devices@) is Ok,
        old(hal).obeys_model() ==> (target == tick_settled_target(
            *config,
            list.devices@,
            old(hal).model_default(),
            reason,
            permission,
            wake_failed@,
        )),
        old(hal).obeys_model() ==> (spec_current_routed(list.devices@, old(hal).model_default()) == Some(target.uid@)),
        opt_seq(*preferred) == spec_resolves_to(
            DeviceSelector { uid: config.spec_preferred_uid() },
            list.devices@,
        ),
    ensures
        final(hal).obeys_model() == old(hal).obeys_model(),
        old(hal).obeys_model() ==> (r matches Ok((res, l)) ==> l.devices@ == list.devices@ && l.system_default
            == list.system_default && tick_outcome(
            *old(hal),
            *final(hal),
            *config,
            reason,
            permission,
            res,
            list.devices@,
        ) && exists|restarted: bool|
            {
                &&& hook_calls(final(hooks).events()) == hook_calls(old(hooks).events())
                    + #[trigger] tick_volume_control_calls(list.devices@, true, reason, target.uid@, restarted)
                &&& tick_result(
                    *old(hal),
                    *final(hal),
                    *config,
                    reason,
                    permission,
                    *old(memory),
                    wake_failed@,
                    restarted,
                    res,
                )
            }),
        old(hal).obeys_model() ==> (r is Err ==> hal_may_fail(*old(hal)) || volume_control_failed(
            final(hooks).events(),
            old(hooks).events().len() as int,
        )),
{
    let preferred_ref: Option<&str> = match preferred {
        Some(p) => Some(p.as_str()),
        None => None,
    };
    let ghost n = hooks.events().len() as int;
    let ghost h0 = hook_calls(hooks.events());
    let ghost mem0 = *memory;
    let recovered = recover_hdmi_displayport_volume_control_for_daemon_target(
        hal,
        hooks,
        config,
        &list,
        &target,
        preferred_ref,
        reason,
        memory,
    );
    let ghost x = reason == DaemonTickReason::Startup && restarted_eqmac(
        hooks.events()[n]->RecoverVolumeControl_result,
    );
    let ghost mid = *hal;
    match recovered {
        Err(e) => {
            return Err(e);
        },
        Ok(Some(result)) => {
            proof {
                assert(hook_calls(hooks.events()) =~= h0 + tick_volume_control_calls(
                    list.devices@,
                    true,
                    reason,
                    target.uid@,
                    x,
                ));
            }
            return Ok((DaemonTickResult::Switched(result), list));
        },
        Ok(None) => {},
    }
    match ensure_startup_volume(hal, config, reason, &target, preferred, memory) {
        Err(e) => {
            proof {
                let v = spec_daemon_volume(*config, target, opt_seq(*preferred), *memory)->Some_0;
                if old(hal).obeys_model() {
                    assert(mid.set_volume_fails(target.uid@, v));
                    assert(old(hal).set_volume_fails(target.uid@, v));
                }
            }
            return Err(e);
        },
        Ok(_) => {},
    }
    let result = no_change_result(&target, "active output already on target");
    proof {
        assert(hook_calls(hooks.events()) =~= h0 + tick_volume_control_calls(
            list.devices@,
            true,
            reason,
            target.uid@,
            x,
        ));
        assert(memory.entries@ == mem0.entries@);
        assert(spec_daemon_volume(*config, target, opt_seq(*preferred), *memory) == spec_daemon_volume(
            *config,
            target,
            opt_seq(*preferred),
            mem0,
        ));
    }
    Ok((DaemonTickResult::NoChange(result), list))
}

/// Evaluate policy once: list outputs, pick the target (waking ScalarWebAPI
/// devices and falling back when permitted), keep volume control healthy, and
/// switch when audio is not already routed there.
#[verifier::rlimit(60)]
#[verifier::spinoff_prover]
pub fn daemon_tick_with_hooks<H: AudioHal, K: DaemonHooks>(
    hal: &mut H,
    config: &Config,
    reason: DaemonTickReason,
    permission: ScalarWebApiDeviceFallbackPermission,
    hooks: &mut HookLog<K>,
    memory: &mut VolumeMemory,
) -> (r: Result<(DaemonTickResult, DeviceList), RustyJackError>)
    ensures
        final(hal).obeys_model() == old(hal).obeys_model(),
        old(hal).obeys_model() ==> (r matches Ok((res, list)) ==> tick_outcome(
            *old(hal),
            *final(hal),
            *config,
            reason,
            permission,
            res,
            list.devices@,
        )),
        old(hal).obeys_model() ==> (r matches Ok((_, list)) ==> list.devices@ == old(hal).model_devices()),
        old(hal).obeys_model() ==> (old(hal).list_fails() ==> r is Err),
        old(hal).obeys_model() ==> (!old(hal).list_fails() && !config.auto_switch ==> r matches Ok(
            (DaemonTickResult::AutoSwitchDisabled, _),
        )),
        old(hal).obeys_model() ==> (!old(hal).list_fails() && config.auto_switch ==> match spec_select_routing_target(
            *config,
            old(hal).model_devices(),
        ) {
            Err(e) => r matches Err(RustyJackError::Config(m)) && m@ == e.spec_message(),
            Ok(_) => r is Err ==> hal_may_fail(*old(hal)) || volume_control_failed(
                final(hooks).events(),
                old(hooks).events().len() as int,
            ),
        }),
        old(hal).obeys_model() ==> (r matches Ok((_, list)) ==> list.system_default == old(hal).model_system_default()),
        old(hal).obeys_model() ==> (!config.auto_switch ==> final(hooks).events() == old(hooks).events() && *final(hal)
            == *old(hal) && final(memory).entries@ == old(memory).entries@),
        old(hal).obeys_model() ==> (r matches Ok((res, _)) ==> config.auto_switch ==> exists|wake_failed: bool, restarted: bool|
            {
                &&& hook_calls(final(hooks).events()) == hook_calls(old(hooks).events())
                    + #[trigger] tick_hook_calls(
                    *config,
                    old(hal).model_devices(),
                    old(hal).model_default(),
                    reason,
                    permission,
                    wake_failed,
                    restarted,
                )
                &&& tick_result(
                    *old(hal),
                    *final(hal),
                    *config,
                    reason,
                    permission,
                    *old(memory),
                    wake_failed,
                    restarted,
                    res,
                )
            }),
{
    let list = hal.list_outputs()?;
    if !config.auto_switch {
        return Ok((DaemonTickResult::AutoSwitchDisabled, list));
    }
    let target = match select_routing_target(config, list.devices.as_slice()) {
        Ok(t) => t,
        Err(err) => {
            return Err(RustyJackError::Config(err.message()));
        },
    };
    let ghost devices = list.devices@;
    let ghost default = old(hal).model_default();
    let ghost h0 = hook_calls(hooks.events());
    let ghost mem0 = *memory;
    let preferred = preferred_uid(config, list.devices.as_slice());
    let preferred_ref: Option<&str> = match &preferred {
        Some(p) => Some(p.as_str()),
        None => None,
    };
    let default_uid = hal.default_output_uid()?;
    let current_uid = current_routed_output_uid(
        &list,
        match &default_uid {
            Some(d) => Some(d.as_str()),
            None => None,
        },
    );
    let ghost cur = spec_current_routed(devices, default);
    assert(old(hal).obeys_model() ==> (old(hal).obeys_model() ==> opt_seq(current_uid) == cur));
    let on_target = match &current_uid {
        Some(c) => str_eq(c.as_str(), target.uid.as_str()),
        None => false,
    };
    let ghost mut w: bool = false;
    if on_target {
        if reason == DaemonTickReason::UserActivity {
            let ghost n = hooks.events().len() as int;
            let fb = scalar_webapi_device_activity_fallback_target(
                hooks,
                config,
                list.devices.as_slice(),
                target.uid.as_str(),
                permission,
            );
            proof {
                w = hooks.events()[n]->WakeOnActivity_result is Err;
                assert(old(hal).obeys_model() ==> (hook_calls(hooks.events()) =~= h0 + tick_wake_calls(
                    *config,
                    devices,
                    default,
                    reason,
                    w,
                )));
            }
            if let Some(fallback) = fb {
                let result = switch_daemon_target(
                    hal,
                    hooks,
                    config,
                    &list,
                    &fallback,
                    preferred_ref,
                    memory,
                )?;
                proof {
                    let u = fallback.uid@;
                    assert(old(hal).obeys_model() ==> (tick_settled_target(*config, devices, default, reason, permission, w)
                        == fallback));
                    assert(old(hal).obeys_model() ==> (hook_calls(hooks.events()) =~= h0 + tick_hook_calls(
                        *config,
                        devices,
                        default,
                        reason,
                        permission,
                        w,
                        false,
                    )));
                    assert(old(hal).obeys_model() ==> (tick_result(
                        *old(hal),
                        *hal,
                        *config,
                        reason,
                        permission,
                        mem0,
                        w,
                        false,
                        DaemonTickResult::Switched(result),
                    )));
                }
                return Ok((DaemonTickResult::Switched(result), list));
            }
            assert(old(hal).obeys_model() ==> (tick_settled_target(*config, devices, default, reason, permission, w) == target));
        } else {
            let policy_target = target.duplicate();
            let ghost n = hooks.events().len() as int;
            let checked_target = scalar_webapi_device_checked_target_or_fallback(
                hooks,
                config,
                list.devices.as_slice(),
                policy_target,
                reason,
                permission,
            );
            proof {
                w = hooks.events()[n]->WakeOnOutputSelected_result is Err;
                assert(old(hal).obeys_model() ==> (hook_calls(hooks.events()) =~= h0 + tick_wake_calls(
                    *config,
                    devices,
                    default,
                    reason,
                    w,
                )));
            }
            if !str_eq(checked_target.uid.as_str(), target.uid.as_str()) {
                let result = switch_daemon_target(
                    hal,
                    hooks,
                    config,
                    &list,
                    &checked_target,
                    preferred_ref,
                    memory,
                )?;
                proof {
                    assert(old(hal).obeys_model() ==> (tick_settled_target(*config, devices, default, reason, permission, w)
                        == checked_target));
                    assert(old(hal).obeys_model() ==> (hook_calls(hooks.events()) =~= h0 + tick_hook_calls(
                        *config,
                        devices,
                        default,
                        reason,
                        permission,
                        w,
                        false,
                    )));
                    assert(old(hal).obeys_model() ==> (tick_result(
                        *old(hal),
                        *hal,
                        *config,
                        reason,
                        permission,
                        mem0,
                        w,
                        false,
                        DaemonTickResult::Switched(result),
                    )));
                }
                return Ok((DaemonTickResult::Switched(result), list));
            }
            assert(old(hal).obeys_model() ==> (tick_settled_target(*config, devices, default, reason, permission, w) == target));
        }
        let ghost h_mid = hook_calls(hooks.events());
        let settled = settle_on_target(
            hal,
            hooks,
            config,
            list,
            target,
            &preferred,
            reason,
            memory,
            permission,
            Ghost(w),
        );
        proof {
            if settled is Ok {
                let res = settled->Ok_0.0;
                let x = choose|x: bool|
                    {
                        &&& hook_calls(hooks.events()) == h_mid + #[trigger] tick_volume_control_calls(
                            devices,
                            true,
                            reason,
                            tick_settled_target(*config, devices, default, reason, permission, w).uid@,
                            x,
                        )
                        &&& tick_result(
                            *old(hal),
                            *hal,
                            *config,
                            reason,
                            permission,
                            mem0,
                            w,
                            x,
                            res,
                        )
                    };
                assert(old(hal).obeys_model() ==> (hook_calls(hooks.events()) =~= h0 + tick_hook_calls(
                    *config,
                    devices,
                    default,
                    reason,
                    permission,
                    w,
                    x,
                )));
            }
        }
        return settled;
    }
    let ghost n = hooks.events().len() as int;
    let target = if reason != DaemonTickReason::UserActivity {
        let checked = scalar_webapi_device_checked_target_or_fallback(
            hooks,
            config,
            list.devices.as_slice(),
            target,
            reason,
            permission,
        );
        proof {
            w = hooks.events()[n]->WakeOnOutputSelected_result is Err;
        }
        checked
    } else {
        target
    };
    proof {
        assert(old(hal).obeys_model() ==> (hook_calls(hooks.events()) =~= h0 + tick_wake_calls(
            *config,
            devices,
            default,
            reason,
            w,
        )));
        assert(old(hal).obeys_model() ==> (tick_settled_target(*config, devices, default, reason, permission, w) == target));
    }
    let on_target = match &current_uid {
        Some(c) => str_eq(c.as_str(), target.uid.as_str()),
        None => false,
    };
    if on_target {
        let ghost h_mid = hook_calls(hooks.events());
        let settled = settle_on_target(
            hal,
            hooks,
            config,
            list,
            target,
            &preferred,
            reason,
            memory,
            permission,
            Ghost(w),
        );
        proof {
            if settled is Ok {
                let res = settled->Ok_0.0;
                let x = choose|x: bool|
                    {
                        &&& hook_calls(hooks.events()) == h_mid + #[trigger] tick_volume_control_calls(
                            devices,
                            true,
                            reason,
                            tick_settled_target(*config, devices, default, reason, permission, w).uid@,
                            x,
                        )
                        &&& tick_result(
                            *old(hal),
                            *hal,
                            *config,
                            reason,
                            permission,
                            mem0,
                            w,
                            x,
                            res,
                        )
                    };
                assert(old(hal).obeys_model() ==> (hook_calls(hooks.events()) =~= h0 + tick_hook_calls(
                    *config,
                    devices,
                    default,
                    reason,
                    permission,
                    w,
                    x,
                )));
            }
        }
        return settled;
    }
    let result = switch_daemon_target(hal, hooks, config, &list, &target, preferred_ref, memory)?;
    proof {
        assert(old(hal).obeys_model() ==> (hook_calls(hooks.events()) =~= h0 + tick_hook_calls(
            *config,
            devices,
            default,
            reason,
            permission,
            w,
            false,
        )));
        assert(old(hal).obeys_model() ==> (tick_result(
            *old(hal),
            *hal,
            *config,
            reason,
            permission,
            mem0,
            w,
            false,
            DaemonTickResult::Switched(result),
        )));
    }
    Ok((DaemonTickResult::Switched(result), list))
}

/// Evaluate policy once with fallbacks permitted.
pub fn daemon_tick<H: AudioHal, K: DaemonHooks>(
    hal: &mut H,
    config: &Config,
    reason: DaemonTickReason,
    hooks: &mut HookLog<K>,
    memory: &mut VolumeMemory,
) -> (r: Result<(DaemonTickResult, DeviceList), RustyJackError>)
    ensures
        final(hal).obeys_model() == old(hal).obeys_model(),
        old(hal).obeys_model() ==> (r matches Ok((res, list)) ==> tick_outcome(
            *old(hal),
            *final(hal),
            *config,
            reason,
            ScalarWebApiDeviceFallbackPermission::Allowed,
            res,
            list.devices@,
        )),
        old(hal).obeys_model() ==> (r matches Ok((_, list)) ==> list.devices@ == old(hal).model_devices()),
        old(hal).obeys_model() ==> (old(hal).list_fails() ==> r is Err),
        old(hal).obeys_model() ==> (!old(hal).list_fails() && !config.auto_switch ==> r matches Ok(
            (DaemonTickResult::AutoSwitchDisabled, _),
        )),
        old(hal).obeys_model() ==> (!old(hal).list_fails() && config.auto_switch ==> match spec_select_routing_target(
            *config,
            old(hal).model_devices(),
        ) {
            Err(e) => r matches Err(RustyJackError::Config(m)) && m@ == e.spec_message(),
            Ok(_) => r is Err ==> hal_may_fail(*old(hal)) || volume_control_failed(
                final(hooks).events(),
                old(hooks).events().len() as int,
            ),
        }),
        old(hal).obeys_model() ==> (r is Err ==> tick_may_fail(*old(hal), *config, final(hooks).events(), old(hooks).events().len() as int)),
        old(hal).obeys_model() ==> (r matches Ok((_, list)) ==> list.system_default == old(hal).model_system_default()),
        old(hal).obeys_model() ==> (!config.auto_switch ==> final(hooks).events() == old(hooks).events() && *final(hal)
            == *old(hal) && final(memory).entries@ == old(memory).entries@),
        old(hal).obeys_model() ==> (r matches Ok((res, _)) ==> config.auto_switch ==> exists|wake_failed: bool, restarted: bool|
            {
                &&& hook_calls(final(hooks).events()) == hook_calls(old(hooks).events())
                    + #[trigger] tick_hook_calls(
                    *config,
                    old(hal).model_devices(),
                    old(hal).model_default(),
                    reason,
                    ScalarWebApiDeviceFallbackPermission::Allowed,
                    wake_failed,
                    restarted,
                )
                &&& tick_result(
                    *old(hal),
                    *final(hal),
                    *config,
                    reason,
                    ScalarWebApiDeviceFallbackPermission::Allowed,
                    *old(memory),
                    wake_failed,
                    restarted,
                    res,
                )
            }),
{
    daemon_tick_with_hooks(
        hal,
        config,
        reason,
        ScalarWebApiDeviceFallbackPermission::Allowed,
        hooks,
        memory,
    )
}

pub open spec fn spec_wake_cooldown_ms(config: Config) -> u64 {
    match config.scalar_webapi_device {
        Some(api) => api.wake_debounce_ms,
        None => 0,
    }
}

/// Minimum time between activity wakes: the configured debounce, or none.
pub fn scalar_webapi_device_wake_cooldown(config: &Config) -> (r: u64)
    ensures
        r == spec_wake_cooldown_ms(*config),
{
    match &config.scalar_webapi_device {
        Some(api) => api.wake_debounce_ms,
        None => 0,
    }
}

pub open spec fn spec_startup_fallback_grace_ms(config: Config) -> u64 {
    if spec_wake_cooldown_ms(config) > MIN_SCALAR_WEBAPI_DEVICE_STARTUP_FALLBACK_GRACE_MS {
        spec_wake_cooldown_ms(config)
    } else {
        MIN_SCALAR_WEBAPI_DEVICE_STARTUP_FALLBACK_GRACE_MS
    }
}

/// Startup window without fallbacks: the wake debounce, but at least the floor.
pub fn scalar_webapi_device_startup_fallback_grace(config: &Config) -> (r: u64)
    ensures
        r == spec_startup_fallback_grace_ms(*config),
        r >= MIN_SCALAR_WEBAPI_DEVICE_STARTUP_FALLBACK_GRACE_MS,
        r >= spec_wake_cooldown_ms(*config),
{
    let cooldown = scalar_webapi_device_wake_cooldown(config);
    if cooldown > MIN_SCALAR_WEBAPI_DEVICE_STARTUP_FALLBACK_GRACE_MS {
        cooldown
    } else {
        MIN_SCALAR_WEBAPI_DEVICE_STARTUP_FALLBACK_GRACE_MS
    }
}

/// Reason and fallback permission of the tick at the end of a poll interval,
/// `since_startup_ms` after the daemon started.
pub fn scheduled_tick_plan(
    config: &Config,
    since_startup_ms: u64,
    change: NetworkAccessChange,
) -> (r: (DaemonTickReason, ScalarWebApiDeviceFallbackPermission))
    ensures
        since_startup_ms < spec_startup_fallback_grace_ms(*config) ==> r == (
            DaemonTickReason::StartupRetry,
            ScalarWebApiDeviceFallbackPermission::Suppressed,
        ),
        since_startup_ms >= spec_startup_fallback_grace_ms(*config) ==> r.0
            == DaemonTickReason::Scheduled && (r.1 == ScalarWebApiDeviceFallbackPermission::Allowed
            <==> change == NetworkAccessChange::Changed),
{
    if since_startup_ms < scalar_webapi_device_startup_fallback_grace(config) {
        (DaemonTickReason::StartupRetry, ScalarWebApiDeviceFallbackPermission::Suppressed)
    } else {
        (DaemonTickReason::Scheduled, scalar_webapi_device_fallback_permission(change))
    }
}

/// After an idle -> active transition at `now_ms`: a changed network clears the
/// wake cooldown; when a wake is then allowed, the permission of the activity tick.
pub fn activity_tick_plan(
    state: &mut DaemonState,
    config: &Config,
    now_ms: u64,
    change: NetworkAccessChange,
) -> (r: Option<ScalarWebApiDeviceFallbackPermission>)
    ensures
        ({
            let last = if change == NetworkAccessChange::Changed {
                None
            } else {
                old(state).last_scalar_webapi_device_activity_wake_ms
            };
            let allowed = !(last matches Some(l) && elapsed_since(now_ms, l) < spec_wake_cooldown_ms(
                *config,
            ));
            &&& r is Some == allowed
            &&& allowed ==> final(state).last_scalar_webapi_device_activity_wake_ms == Some(now_ms)
            &&& !allowed ==> final(state).last_scalar_webapi_device_activity_wake_ms == last
            &&& r matches Some(p) ==> (p == ScalarWebApiDeviceFallbackPermission::Allowed <==> change
                == NetworkAccessChange::Changed)
        }),
        final(state).was_idle == old(state).was_idle,
        final(state).network_access_observed == old(state).network_access_observed,
        final(state).network_access == old(state).network_access,
{
    if change == NetworkAccessChange::Changed {
        state.reset_scalar_webapi_device_wake_cooldown();
    }
    let cooldown = scalar_webapi_device_wake_cooldown(config);
    if state.allow_scalar_webapi_device_wake(now_ms, cooldown) {
        Some(scalar_webapi_device_fallback_permission(change))
    } else {
        None
    }
}

} // verus!
