//! Resolve which listed device is actively playing system audio.
//!
//! When a virtual router such as eqMac is the system default, the default UID
//! is not one of the listed outputs; the router's name says where it sends the
//! audio ("DELL U3219Q (eqMac)").
use crate::output_device::{
    find_uid, first_where, index_of_uid, lemma_first_where, lemma_first_where_at,
    lemma_index_of_uid, spec_excluded_by_name, OutputDevice,
};
use crate::text::{
    contains, eq_ignore_ascii_case, eq_ignore_case, lower, owned, seq_contains, str_eq,
    strip_suffix, strip_suffix_str, to_lower, trim, trim_str,
};
use crate::transport::TransportKind;
use vstd::prelude::*;

verus! {

/// A route label that names the Mac's own speakers.
pub open spec fn spec_builtin_route_label(label: Seq<char>) -> bool {
    let l = lower(label);
    ||| seq_contains(l, "built-in"@)
    ||| seq_contains(l, "builtin"@)
    ||| seq_contains(l, "internal speaker"@)
    ||| (seq_contains(l, "macbook"@) && seq_contains(l, "speaker"@))
    ||| l == "speakers"@
}

pub fn is_builtin_route_label(label: &str) -> (r: bool)
    ensures
        r == spec_builtin_route_label(label@),
{
    let l = to_lower(label);
    let s = l.as_str();
    contains(s, "built-in") || contains(s, "builtin") || contains(s, "internal speaker") || (
    contains(s, "macbook") && contains(s, "speaker")) || str_eq(s, "speakers")
}

/// The device an eqMac route name points at: same name or monitor name (ASCII
/// case-insensitive), or the built-in output for a built-in speaker label.
pub open spec fn spec_route_target(device: OutputDevice, target: Seq<char>) -> bool {
    ||| eq_ignore_case(device.name@, target)
    ||| (device.monitor_name matches Some(m) && eq_ignore_case(m@, target))
    ||| (spec_builtin_route_label(target) && device.transport == TransportKind::BuiltIn)
}

pub fn matches_eqmac_route_target(device: &OutputDevice, target: &str) -> (r: bool)
    ensures
        r == spec_route_target(*device, target@),
{
    if eq_ignore_ascii_case(device.name.as_str(), target) {
        return true;
    }
    if let Some(monitor) = &device.monitor_name {
        if eq_ignore_ascii_case(monitor.as_str(), target) {
            return true;
        }
    }
    is_builtin_route_label(target) && device.transport == TransportKind::BuiltIn
}

pub open spec fn route_target_pred(target: Seq<char>) -> spec_fn(OutputDevice) -> bool {
    |d: OutputDevice| spec_route_target(d, target)
}

/// The device's monitor name occurs in the router's name.
pub open spec fn monitor_in_name_pred(name: Seq<char>) -> spec_fn(OutputDevice) -> bool {
    |d: OutputDevice| d.monitor_name matches Some(m) && seq_contains(name, m@)
}

/// The default output is a virtual router (aggregate or eqMac) rather than a
/// plain device.
pub open spec fn spec_router_default(default_uid: Seq<char>, default_name: Seq<char>) -> bool {
    spec_excluded_by_name(default_name) || seq_contains(default_uid, "EQM"@) || seq_contains(
        lower(default_uid),
        "eqmac"@,
    )
}

/// Which listed UID is the active route, given the system default.
pub open spec fn spec_active_uid_for(
    default_uid: Seq<char>,
    default_name: Seq<char>,
    devices: Seq<OutputDevice>,
) -> Option<Seq<char>> {
    if index_of_uid(devices, default_uid) is Some {
        Some(default_uid)
    } else if !spec_router_default(default_uid, default_name) {
        None
    } else {
        let by_route = match strip_suffix(default_name, " (eqMac)"@) {
            Some(stripped) => first_where(devices, route_target_pred(trim(stripped))),
            None => None,
        };
        match by_route {
            Some(k) => Some(devices[k].uid@),
            None => match first_where(devices, monitor_in_name_pred(default_name)) {
                Some(k) => Some(devices[k].uid@),
                None => None,
            },
        }
    }
}

pub open spec fn opt_text(o: Option<String>) -> Option<Seq<char>> {
    match o {
        Some(s) => Some(s@),
        None => None,
    }
}

fn find_route_target(devices: &[OutputDevice], target: &str) -> (r: Option<usize>)
    ensures
        match r {
            Some(k) => k < devices@.len() && first_where(devices@, route_target_pred(target@)) == Some(
                k as int,
            ),
            None => first_where(devices@, route_target_pred(target@)) is None,
        },
{
    let ghost p = route_target_pred(target@);
    let mut i: usize = 0;
    while i < devices.len()
        invariant
            i <= devices@.len(),
            p == route_target_pred(target@),
            forall|j: int| 0 <= j < i ==> !p(devices@[j]),
        decreases devices@.len() - i,
    {
        if matches_eqmac_route_target(&devices[i], target) {
            proof {
                lemma_first_where_at(devices@, p, i as int);
            }
            return Some(i);
        }
        i = i + 1;
    }
    proof {
        lemma_first_where(devices@, p);
    }
    None
}

fn find_monitor_in_name(devices: &[OutputDevice], name: &str) -> (r: Option<usize>)
    ensures
        match r {
            Some(k) => k < devices@.len() && first_where(devices@, monitor_in_name_pred(name@)) == Some(
                k as int,
            ),
            None => first_where(devices@, monitor_in_name_pred(name@)) is None,
        },
{
    let ghost p = monitor_in_name_pred(name@);
    let mut i: usize = 0;
    while i < devices.len()
        invariant
            i <= devices@.len(),
            p == monitor_in_name_pred(name@),
            forall|j: int| 0 <= j < i ==> !p(devices@[j]),
        decreases devices@.len() - i,
    {
        let hit = match &devices[i].monitor_name {
            Some(m) => contains(name, m.as_str()),
            None => false,
        };
        if hit {
            proof {
                lemma_first_where_at(devices@, p, i as int);
            }
            return Some(i);
        }
        i = i + 1;
    }
    proof {
        lemma_first_where(devices@, p);
    }
    None
}

/// Map the system default output to a UID in `devices` (handles virtual
/// routers like eqMac).
pub fn resolve_active_uid(default_uid: &str, default_name: &str, devices: &[OutputDevice]) -> (r:
    Option<String>)
    ensures
        opt_text(r) == spec_active_uid_for(default_uid@, default_name@, devices@),
{
    if find_uid(devices, default_uid).is_some() {
        return Some(owned(default_uid));
    }
    let lowered = to_lower(default_uid);
    if !OutputDevice::is_excluded_by_name(default_name) && !contains(default_uid, "EQM")
        && !contains(lowered.as_str(), "eqmac") {
        return None;
    }
    if let Some(stripped) = strip_suffix_str(default_name, " (eqMac)") {
        let target = trim_str(stripped);
        if let Some(k) = find_route_target(devices, target) {
            return Some(devices[k].uid.clone());
        }
    }
    match find_monitor_in_name(devices, default_name) {
        Some(k) => Some(devices[k].uid.clone()),
        None => None,
    }
}

} // verus!
