//! Routing policy: which output should be active, and how the current route compares.
use crate::config::{is_placeholder_uid, spec_placeholder, Config};
use crate::device_select::{
    resolve_device_selector, spec_resolves_to, DeviceSelector, ResolveError,
};
use crate::output_device::{
    active_pred, clone_opt_string, find_active, find_uid, first_where, index_of_uid,
    lemma_first_where, lemma_first_where_at, lemma_index_of_uid, OutputDevice,
};
use crate::system_default::DeviceList;
use crate::text::{concat3, owned};
use vstd::prelude::*;

verus! {

/// Why a device was chosen as the routing target.
#[derive(Debug, Clone, Copy, PartialEq, Eq, Structural)]
pub enum RoutingTargetSource {
    Preferred,
    Fallback { index: usize },
    BuiltInFallback,
    Picker,
}

/// Device to route system audio to.
#[derive(Debug)]
pub struct RoutingTarget {
    pub uid: String,
    pub name: String,
    pub monitor_name: Option<String>,
    pub source: RoutingTargetSource,
}

/// Failed to pick a routing target from config + live devices.
#[derive(Debug)]
pub enum SelectTargetError {
    Resolve(ResolveError),
    NoCandidateAvailable,
}

impl SelectTargetError {
    pub open spec fn spec_message(&self) -> Seq<char> {
        match self {
            SelectTargetError::Resolve(e) => e.spec_message(),
            SelectTargetError::NoCandidateAvailable => "no preferred or fallback output device is connected"@,
        }
    }

    pub fn message(&self) -> (r: String)
        ensures
            r@ == self.spec_message(),
    {
        match self {
            SelectTargetError::Resolve(e) => e.message(),
            SelectTargetError::NoCandidateAvailable => owned(
                "no preferred or fallback output device is connected",
            ),
        }
    }
}

impl RoutingTarget {
    pub fn duplicate(&self) -> (r: RoutingTarget)
        ensures
            r == *self,
    {
        RoutingTarget {
            uid: self.uid.clone(),
            name: self.name.clone(),
            monitor_name: clone_opt_string(&self.monitor_name),
            source: self.source,
        }
    }
}

/// The target that routes to `d` for the given reason.
pub open spec fn target_of(d: OutputDevice, source: RoutingTargetSource) -> RoutingTarget {
    RoutingTarget { uid: d.uid, name: d.name, monitor_name: d.monitor_name, source }
}

pub fn to_routing_target(device: &OutputDevice, source: RoutingTargetSource) -> (r: RoutingTarget)
    ensures
        r == target_of(*device, source),
{
    RoutingTarget {
        uid: device.uid.clone(),
        name: device.name.clone(),
        monitor_name: clone_opt_string(&device.monitor_name),
        source,
    }
}

/// Predicate: a live device with the given UID.
pub open spec fn alive_uid_pred(uid: Seq<char>) -> spec_fn(OutputDevice) -> bool {
    |d: OutputDevice| d.uid@ == uid && d.is_alive
}

/// Predicate: the Mac's internal built-in output.
pub open spec fn builtin_pred() -> spec_fn(OutputDevice) -> bool {
    |d: OutputDevice| d.spec_internal_builtin()
}

/// Position of the first live device with UID `uid`.
pub fn find_alive_uid(devices: &[OutputDevice], uid: &str) -> (r: Option<usize>)
    ensures
        match r {
            Some(k) => first_where(devices@, alive_uid_pred(uid@)) == Some(k as int),
            None => first_where(devices@, alive_uid_pred(uid@)) is None,
        },
{
    let ghost p = alive_uid_pred(uid@);
    let mut i: usize = 0;
    while i < devices.len()
        invariant
            i <= devices@.len(),
            p == alive_uid_pred(uid@),
            forall|j: int| 0 <= j < i ==> !p(devices@[j]),
        decreases devices@.len() - i,
    {
        if devices[i].is_alive && crate::text::str_eq(devices[i].uid.as_str(), uid) {
            proof {
                lemma_first_where_at(devices@, p, i as int);
            }
            return Some(i);
        }
        i = i + 1;
    }
    proof {
        lemma_first_where(devices@, p);
    }
    None
}

/// Position of the first internal built-in output.
pub fn find_builtin(devices: &[OutputDevice]) -> (r: Option<usize>)
    ensures
        match r {
            Some(k) => first_where(devices@, builtin_pred()) == Some(k as int),
            None => first_where(devices@, builtin_pred()) is None,
        },
{
    let ghost p = builtin_pred();
    let mut i: usize = 0;
    while i < devices.len()
        invariant
            i <= devices@.len(),
            p == builtin_pred(),
            forall|j: int| 0 <= j < i ==> !p(devices@[j]),
        decreases devices@.len() - i,
    {
        if devices[i].is_internal_builtin_output() {
            proof {
                lemma_first_where_at(devices@, p, i as int);
            }
            return Some(i);
        }
        i = i + 1;
    }
    proof {
        lemma_first_where(devices@, p);
    }
    None
}

/// First configured fallback (from position `i` on) that names a live device:
/// the fallback's position and the device's position.
pub open spec fn fallback_from(fallbacks: Seq<String>, devices: Seq<OutputDevice>, i: int) -> Option<
    (int, int),
>
    decreases fallbacks.len() - i,
{
    if i < 0 || i >= fallbacks.len() {
        None
    } else if !spec_placeholder(fallbacks[i]@) && first_where(
        devices,
        alive_uid_pred(fallbacks[i]@),
    ) is Some {
        Some((i, first_where(devices, alive_uid_pred(fallbacks[i]@)).unwrap()))
    } else {
        fallback_from(fallbacks, devices, i + 1)
    }
}

/// The configured fallback, or the built-in output when no fallback is live.
pub open spec fn spec_select_fallback(config: Config, devices: Seq<OutputDevice>) -> Option<
    RoutingTarget,
> {
    match fallback_from(config.fallback_uids@, devices, 0) {
        Some((fi, di)) => Some(
            target_of(devices[di], RoutingTargetSource::Fallback { index: fi as usize }),
        ),
        None => match first_where(devices, builtin_pred()) {
            Some(k) => Some(target_of(devices[k], RoutingTargetSource::BuiltInFallback)),
            None => None,
        },
    }
}

/// Pick the configured fallback, or the Mac's internal built-in output when none is live.
pub fn select_fallback_target(config: &Config, devices: &[OutputDevice]) -> (r: Option<
    RoutingTarget,
>)
    ensures
        r == spec_select_fallback(*config, devices@),
{
    let n = config.fallback_uids.len();
    let mut i: usize = 0;
    while i < n
        invariant
            n == config.fallback_uids@.len(),
            i <= n,
            fallback_from(config.fallback_uids@, devices@, 0) == fallback_from(
                config.fallback_uids@,
                devices@,
                i as int,
            ),
        decreases n - i,
    {
        let fallback_uid = config.fallback_uids[i].as_str();
        if !is_placeholder_uid(fallback_uid) {
            if let Some(k) = find_alive_uid(devices, fallback_uid) {
                proof {
                    lemma_first_where(devices@, alive_uid_pred(fallback_uid@));
                }
                return Some(
                    to_routing_target(&devices[k], RoutingTargetSource::Fallback { index: i }),
                );
            }
        }
        i = i + 1;
    }
    proof {
        lemma_first_where(devices@, builtin_pred());
    }
    match find_builtin(devices) {
        Some(k) => Some(to_routing_target(&devices[k], RoutingTargetSource::BuiltInFallback)),
        None => None,
    }
}

/// What `select_routing_target` returns: the preferred device when it is live, else
/// the fallback choice, else an error.
pub open spec fn spec_select_routing_target(config: Config, devices: Seq<OutputDevice>) -> Result<
    RoutingTarget,
    SelectTargetError,
> {
    let selector = DeviceSelector { uid: config.spec_preferred_uid() };
    if selector.spec_is_empty() {
        Err(SelectTargetError::Resolve(ResolveError::NotSpecified))
    } else {
        match first_where(devices, alive_uid_pred(selector.uid.unwrap()@)) {
            Some(k) => Ok(target_of(devices[k], RoutingTargetSource::Preferred)),
            None => match spec_select_fallback(config, devices) {
                Some(t) => Ok(t),
                None => Err(SelectTargetError::NoCandidateAvailable),
            },
        }
    }
}

/// Pick the best connected output device from config (preferred, then fallbacks).
pub fn select_routing_target(config: &Config, devices: &[OutputDevice]) -> (r: Result<
    RoutingTarget,
    SelectTargetError,
>)
    ensures
        r == spec_select_routing_target(*config, devices@),
{
    let selector = config.preferred_selector();
    match resolve_device_selector(&selector, devices) {
        Ok(uid) => {
            proof {
                lemma_first_where(devices@, alive_uid_pred(uid@));
            }
            if let Some(k) = find_alive_uid(devices, uid.as_str()) {
                return Ok(to_routing_target(&devices[k], RoutingTargetSource::Preferred));
            }
        },
        Err(ResolveError::NotSpecified) => {
            return Err(SelectTargetError::Resolve(ResolveError::NotSpecified));
        },
        Err(ResolveError::UidNotFound(_)) => {
            proof {
                lemma_index_of_uid(devices@, selector.uid.unwrap()@);
                lemma_first_where(devices@, alive_uid_pred(selector.uid.unwrap()@));
            }
        },
    }
    match select_fallback_target(config, devices) {
        Some(t) => Ok(t),
        None => Err(SelectTargetError::NoCandidateAvailable),
    }
}

/// Status of the active output against configured policy.
#[derive(Debug)]
pub struct PolicyStatus {
    pub configured: bool,
    pub config_path: Option<String>,
    pub preferred_device_uid: Option<String>,
    pub active_device_uid: Option<String>,
    pub matches_preferred: Option<bool>,
    pub preferred_present: Option<bool>,
    pub preferred_alive: Option<bool>,
    pub auto_switch: Option<bool>,
    pub config_volume: Option<u8>,
    pub message: String,
}

/// UID of the first device marked active.
pub open spec fn spec_active_uid(devices: Seq<OutputDevice>) -> Option<Seq<char>> {
    match first_where(devices, active_pred()) {
        Some(k) => Some(devices[k].uid@),
        None => None,
    }
}

pub open spec fn opt_seq(o: Option<String>) -> Option<Seq<char>> {
    match o {
        Some(s) => Some(s@),
        None => None,
    }
}

/// UID of the device currently marked active.
pub fn active_uid(list: &DeviceList) -> (r: Option<String>)
    ensures
        opt_seq(r) == spec_active_uid(list.devices@),
{
    proof {
        lemma_first_where(list.devices@, active_pred());
    }
    match find_active(list.devices.as_slice()) {
        Some(k) => Some(list.devices[k].uid.clone()),
        None => None,
    }
}

pub open spec fn spec_policy_message(config: Config, devices: Seq<OutputDevice>) -> Seq<char> {
    let selector = DeviceSelector { uid: config.spec_preferred_uid() };
    match spec_resolves_to(selector, devices) {
        Some(uid) => {
            let k = index_of_uid(devices, uid).unwrap();
            if !devices[k].is_alive {
                "preferred device `"@ + uid + "` is not alive"@
            } else if spec_active_uid(devices) == Some(uid) {
                "active output matches preferred device"@
            } else {
                "active output is `"@ + (match spec_active_uid(devices) {
                    Some(a) => a,
                    None => "(none)"@,
                }) + "`; preferred is `"@ + uid + "`"@
            }
        },
        None => if selector.spec_is_empty() {
            "set preferred_device.uid"@
        } else {
            "no connected output has device uid `"@ + selector.uid.unwrap()@ + "`"@
        },
    }
}

/// Evaluate whether the active output matches configured policy.
///
/// `config_path` is the path the config was read from; `default_path` is the
/// per-user default location used in the hint when no config was loaded.
pub fn evaluate_policy(
    list: &DeviceList,
    config: Option<&Config>,
    config_path: Option<&str>,
    default_path: Option<&str>,
) -> (r: PolicyStatus)
    ensures
        r.configured == config is Some,
        opt_seq(r.config_path) == match config_path {
            Some(p) => Some(p@),
            None => None::<Seq<char>>,
        },
        opt_seq(r.active_device_uid) == spec_active_uid(list.devices@),
        config is None ==> {
            &&& r.preferred_device_uid is None
            &&& r.matches_preferred is None
            &&& r.preferred_present is None
            &&& r.preferred_alive is None
            &&& r.auto_switch is None
            &&& r.config_volume is None
            &&& r.message@ == "no config at "@ + match config_path {
                Some(p) => p@,
                None => match default_path {
                    Some(d) => d@,
                    None => "~/.config/rusty-jack/config.json"@,
                },
            }
        },
        config is Some ==> {
            let c = *config.unwrap();
            let resolved = spec_resolves_to(
                DeviceSelector { uid: c.spec_preferred_uid() },
                list.devices@,
            );
            &&& r.auto_switch == Some(c.auto_switch)
            &&& r.config_volume == c.volume
            &&& opt_seq(r.preferred_device_uid) == resolved
            &&& r.matches_preferred == match resolved {
                Some(u) => Some(spec_active_uid(list.devices@) == Some(u)),
                None => None::<bool>,
            }
            &&& r.preferred_present == match resolved {
                Some(u) => Some(true),
                None => None::<bool>,
            }
            &&& r.preferred_alive == match resolved {
                Some(u) => Some(list.devices@[index_of_uid(list.devices@, u).unwrap()].is_alive),
                None => None::<bool>,
            }
            &&& r.message@ == spec_policy_message(c, list.devices@)
        },
{
    let path_copy = match config_path {
        Some(p) => Some(owned(p)),
        None => None,
    };
    let active = active_uid(list);
    let config = match config {
        Some(c) => c,
        None => {
            let hint = match config_path {
                Some(p) => p,
                None => match default_path {
                    Some(d) => d,
                    None => "~/.config/rusty-jack/config.json",
                },
            };
            return PolicyStatus {
                configured: false,
                config_path: path_copy,
                preferred_device_uid: None,
                active_device_uid: active,
                matches_preferred: None,
                preferred_present: None,
                preferred_alive: None,
                auto_switch: None,
                config_volume: None,
                message: crate::text::concat2("no config at ", hint),
            };
        },
    };
    let selector = config.preferred_selector();
    let resolved = resolve_device_selector(&selector, list.devices.as_slice());
    let (preferred_uid, message, matches, present, alive) = match resolved {
        Ok(uid) => {
            let k_opt = find_uid(list.devices.as_slice(), uid.as_str());
            proof {
                lemma_index_of_uid(list.devices@, uid@);
            }
            let k = match k_opt {
                Some(k) => k,
                None => {
                    proof {
                        assert(false);
                    }
                    0
                },
            };
            let device = &list.devices[k];
            let matches = match &active {
                Some(a) => crate::text::str_eq(a.as_str(), uid.as_str()),
                None => false,
            };
            let message = if !device.is_alive {
                concat3("preferred device `", uid.as_str(), "` is not alive")
            } else if matches {
                owned("active output matches preferred device")
            } else {
                let shown = match &active {
                    Some(a) => a.as_str(),
                    None => "(none)",
                };
                let mut m = concat3("active output is `", shown, "`; preferred is `");
                m.append(uid.as_str());
                m.append("`");
                m
            };
            let alive = device.is_alive;
            (Some(uid), message, Some(matches), Some(true), Some(alive))
        },
        Err(ResolveError::NotSpecified) => (
            None,
            owned("set preferred_device.uid"),
            None,
            None,
            None,
        ),
        Err(err) => (None, err.message(), None, None, None),
    };
    PolicyStatus {
        configured: true,
        config_path: path_copy,
        preferred_device_uid: preferred_uid,
        active_device_uid: active,
        matches_preferred: matches,
        preferred_present: present,
        preferred_alive: alive,
        auto_switch: Some(config.auto_switch),
        config_volume: config.volume,
        message,
    }
}


/// Where `fallback_from` finds a fallback, it names a live device and every fallback
/// before it is a placeholder or names no live device.
pub proof fn lemma_fallback_from(fallbacks: Seq<String>, devices: Seq<OutputDevice>, i: int)
    requires
        0 <= i,
    ensures
        match fallback_from(fallbacks, devices, i) {
            Some((fi, di)) => {
                &&& i <= fi < fallbacks.len()
                &&& 0 <= di < devices.len()
                &&& !spec_placeholder(fallbacks[fi]@)
                &&& devices[di].uid@ == fallbacks[fi]@
                &&& devices[di].is_alive
                &&& forall|j: int|
                    i <= j < fi ==> (spec_placeholder(fallbacks[j]@) || first_where(
                        devices,
                        alive_uid_pred(fallbacks[j]@),
                    ) is None)
            },
            None => forall|j: int|
                i <= j < fallbacks.len() ==> (spec_placeholder(fallbacks[j]@) || first_where(
                    devices,
                    alive_uid_pred(fallbacks[j]@),
                ) is None),
        },
    decreases fallbacks.len() - i,
{
    if i < fallbacks.len() {
        lemma_first_where(devices, alive_uid_pred(fallbacks[i]@));
        lemma_fallback_from(fallbacks, devices, i + 1);
    }
}

/// The preferred output wins whenever it is configured and connected: the routing
/// target is then the first live device with the preferred UID, whatever the fallbacks.
pub proof fn law_preferred_output_wins(config: Config, devices: Seq<OutputDevice>, k: int)
    requires
        config.spec_preferred_uid() matches Some(u) && !spec_placeholder(u@),
        0 <= k < devices.len(),
        devices[k].is_alive,
        devices[k].uid@ == config.spec_preferred_uid().unwrap()@,
    ensures
        spec_select_routing_target(config, devices) matches Ok(t) && t.source
            == RoutingTargetSource::Preferred && t.uid@ == config.spec_preferred_uid().unwrap()@,
{
    let p = alive_uid_pred(config.spec_preferred_uid().unwrap()@);
    lemma_first_where(devices, p);
    assert(p(devices[k]));
}

/// Fallbacks are tried in configured order: a fallback target is a live device named
/// by the fallback at its index, the preferred output is not connected, and no earlier
/// fallback names a live device.
pub proof fn law_fallbacks_in_order(config: Config, devices: Seq<OutputDevice>)
    requires
        spec_select_routing_target(config, devices) matches Ok(t) && t.source is Fallback,
    ensures
        ({
            let t = spec_select_routing_target(config, devices).unwrap();
            let i = t.source->index as int;
            &&& 0 <= i < config.fallback_uids@.len()
            &&& t.uid@ == config.fallback_uids@[i]@
            &&& exists|d: int| 0 <= d < devices.len() && devices[d].is_alive && devices[d].uid@ == t.uid@
            &&& forall|d: int|
                0 <= d < devices.len() && devices[d].is_alive ==> devices[d].uid@
                    != config.spec_preferred_uid().unwrap()@
            &&& forall|j: int, d: int|
                0 <= j < i && 0 <= d < devices.len() && devices[d].is_alive
                    && !spec_placeholder(config.fallback_uids@[j]@) ==> devices[d].uid@
                    != config.fallback_uids@[j]@
        }),
{
    let pref = config.spec_preferred_uid().unwrap()@;
    lemma_first_where(devices, alive_uid_pred(pref));
    lemma_fallback_from(config.fallback_uids@, devices, 0);
    lemma_first_where(devices, builtin_pred());
    let fb = fallback_from(config.fallback_uids@, devices, 0);
    assert(fb is Some);
    let (fi, di) = fb.unwrap();
    assert(devices[di].is_alive && devices[di].uid@ == config.fallback_uids@[fi]@);
    let t = spec_select_routing_target(config, devices).unwrap();
    assert(fi < config.fallback_uids.len());
    assert(t.source->index as int == fi);
    assert(t.uid@ == devices[di].uid@);
    assert forall|d: int| 0 <= d < devices.len() && devices[d].is_alive implies devices[d].uid@
        != pref by {
        assert(!alive_uid_pred(pref)(devices[d]));
    }
    assert forall|j: int, d: int|
        0 <= j < fi && 0 <= d < devices.len() && devices[d].is_alive && !spec_placeholder(
            config.fallback_uids@[j]@,
        ) implies devices[d].uid@ != config.fallback_uids@[j]@ by {
        lemma_first_where(devices, alive_uid_pred(config.fallback_uids@[j]@));
        assert(!alive_uid_pred(config.fallback_uids@[j]@)(devices[d]));
    }
}

/// Every routing target names a device of the list; unless it is the built-in
/// fallback, that device is live.
pub proof fn law_target_is_connected(config: Config, devices: Seq<OutputDevice>)
    requires
        spec_select_routing_target(config, devices) is Ok,
    ensures
        ({
            let t = spec_select_routing_target(config, devices).unwrap();
            exists|d: int|
                0 <= d < devices.len() && devices[d].uid@ == t.uid@ && (t.source
                    != RoutingTargetSource::BuiltInFallback ==> devices[d].is_alive)
        }),
{
    let t = spec_select_routing_target(config, devices).unwrap();
    let sel = config.spec_preferred_uid();
    lemma_first_where(devices, alive_uid_pred(sel.unwrap()@));
    lemma_fallback_from(config.fallback_uids@, devices, 0);
    lemma_first_where(devices, builtin_pred());
    match first_where(devices, alive_uid_pred(sel.unwrap()@)) {
        Some(k) => {
            assert(devices[k].uid@ == t.uid@);
        },
        None => match fallback_from(config.fallback_uids@, devices, 0) {
            Some((fi, di)) => {
                assert(devices[di].uid@ == t.uid@);
            },
            None => {
                let k = first_where(devices, builtin_pred()).unwrap();
                assert(devices[k].uid@ == t.uid@);
            },
        },
    }
}


/// With no fallback configured, an unplugged preferred output falls back to the Mac's
/// built-in output whenever the list has one.
pub proof fn law_builtin_when_no_fallbacks(config: Config, devices: Seq<OutputDevice>, k: int)
    requires
        config.spec_preferred_uid() matches Some(u) && !spec_placeholder(u@),
        config.fallback_uids@.len() == 0,
        forall|d: int|
            0 <= d < devices.len() && devices[d].is_alive ==> devices[d].uid@
                != config.spec_preferred_uid().unwrap()@,
        0 <= k < devices.len(),
        devices[k].spec_internal_builtin(),
    ensures
        spec_select_routing_target(config, devices) matches Ok(t) && t.source
            == RoutingTargetSource::BuiltInFallback,
{
    let p = alive_uid_pred(config.spec_preferred_uid().unwrap()@);
    lemma_first_where(devices, p);
    lemma_first_where(devices, builtin_pred());
    assert(builtin_pred()(devices[k]));
    if first_where(devices, p) is Some {
        assert(p(devices[first_where(devices, p).unwrap()]));
    }
    lemma_fallback_from(config.fallback_uids@, devices, 0);
}

} // verus!
