//! Output device model and selectability rules.
use crate::text::{concat3, contains, lower, seq_contains, str_eq, to_lower};
use crate::transport::TransportKind;
use vstd::prelude::*;

verus! {

/// A CoreAudio output endpoint exposed to users and config.
#[derive(Debug)]
pub struct OutputDevice {
    pub id: u32,
    pub uid: String,
    pub name: String,
    pub transport: TransportKind,
    pub is_alive: bool,
    pub is_default: bool,
    /// Device currently routing audible system audio (may differ from the default
    /// when a virtual router is the default).
    pub is_active: bool,
    /// Matched display product name (HDMI/DP), when available.
    pub monitor_name: Option<String>,
}

pub open spec fn opt_view(o: Option<String>) -> Option<Seq<char>> {
    match o {
        Some(s) => Some(s@),
        None => None,
    }
}

pub fn clone_opt_string(o: &Option<String>) -> (r: Option<String>)
    ensures
        r == *o,
{
    match o {
        Some(s) => Some(s.clone()),
        None => None,
    }
}

/// Name markers of virtual router entries that never count as speakers.
pub open spec fn spec_excluded_by_name(name: Seq<char>) -> bool {
    seq_contains(name, "CADefaultDeviceAggregate"@) || seq_contains(name, "(eqMac)"@)
}

/// Application-owned virtual outputs (conference tools) that are not speakers.
pub open spec fn spec_app_virtual(uid: Seq<char>, name: Seq<char>) -> bool {
    seq_contains(name, "ZoomAudio"@) || seq_contains(lower(uid), "zoom.us"@)
}

pub open spec fn spec_routable(uid: Seq<char>, name: Seq<char>, transport: TransportKind) -> bool {
    !spec_excluded_by_name(name) && transport != TransportKind::Aggregate && !spec_app_virtual(
        uid,
        name,
    )
}

pub open spec fn spec_non_selectable_reason(
    uid: Seq<char>,
    name: Seq<char>,
    transport: TransportKind,
) -> Option<Seq<char>> {
    if spec_excluded_by_name(name) {
        Some("virtual router entry"@)
    } else if transport == TransportKind::Aggregate {
        Some("aggregate device"@)
    } else if spec_app_virtual(uid, name) {
        Some("app virtual audio — not a speaker"@)
    } else {
        None
    }
}

pub open spec fn opt_str_view(o: Option<&str>) -> Option<Seq<char>> {
    match o {
        Some(s) => Some(s@),
        None => None,
    }
}

impl OutputDevice {
    pub open spec fn spec_selectable(&self) -> bool {
        spec_routable(self.uid@, self.name@, self.transport)
    }

    pub open spec fn spec_matches_hdmi(&self) -> bool {
        self.transport.spec_is_hdmi_class() && !spec_excluded_by_name(self.name@)
    }

    pub open spec fn spec_friendly_label(&self) -> Seq<char> {
        match self.monitor_name {
            Some(m) => self.name@ + " ("@ + m@ + ")"@,
            None => self.name@,
        }
    }

    /// The Mac's own speaker / headphone hardware.
    pub open spec fn spec_internal_builtin(&self) -> bool {
        self.transport == TransportKind::BuiltIn
    }

    /// A field-by-field copy.
    pub fn duplicate(&self) -> (r: OutputDevice)
        ensures
            r == *self,
    {
        OutputDevice {
            id: self.id,
            uid: self.uid.clone(),
            name: self.name.clone(),
            transport: self.transport,
            is_alive: self.is_alive,
            is_default: self.is_default,
            is_active: self.is_active,
            monitor_name: clone_opt_string(&self.monitor_name),
        }
    }

    /// True for virtual router entries (macOS default aggregates and eqMac's own device).
    pub fn is_excluded_by_name(name: &str) -> (r: bool)
        ensures
            r == spec_excluded_by_name(name@),
    {
        contains(name, "CADefaultDeviceAggregate") || contains(name, "(eqMac)")
    }

    /// True when the device can be chosen as the system output route.
    pub fn is_selectable(&self) -> (r: bool)
        ensures
            r == self.spec_selectable(),
    {
        is_routable_output(self.uid.as_str(), self.name.as_str(), self.transport)
    }

    /// Short explanation when [`Self::is_selectable`] is false.
    pub fn non_selectable_reason(&self) -> (r: Option<&'static str>)
        ensures
            opt_str_view(r) == spec_non_selectable_reason(self.uid@, self.name@, self.transport),
    {
        non_selectable_reason(self.uid.as_str(), self.name.as_str(), self.transport)
    }

    pub fn matches_hdmi_filter(&self) -> (r: bool)
        ensures
            r == self.spec_matches_hdmi(),
    {
        self.transport.is_hdmi_class() && !Self::is_excluded_by_name(self.name.as_str())
    }

    /// Human-readable label (monitor name in parentheses when available).
    pub fn friendly_label(&self) -> (r: String)
        ensures
            r@ == self.spec_friendly_label(),
    {
        match &self.monitor_name {
            Some(monitor) => {
                let mut s = concat3(self.name.as_str(), " (", monitor.as_str());
                s.append(")");
                s
            },
            None => self.name.clone(),
        }
    }

    /// True for the Mac's internal built-in output hardware.
    pub fn is_internal_builtin_output(&self) -> (r: bool)
        ensures
            r == self.spec_internal_builtin(),
    {
        self.transport == TransportKind::BuiltIn
    }
}

fn is_app_virtual_output(uid: &str, name: &str) -> (r: bool)
    ensures
        r == spec_app_virtual(uid@, name@),
{
    let uid_lower = to_lower(uid);
    contains(name, "ZoomAudio") || contains(uid_lower.as_str(), "zoom.us")
}

/// Whether this endpoint can route audible system output (excludes app virtual drivers).
pub fn is_routable_output(uid: &str, name: &str, transport: TransportKind) -> (r: bool)
    ensures
        r == spec_routable(uid@, name@, transport),
{
    if OutputDevice::is_excluded_by_name(name) {
        return false;
    }
    if transport == TransportKind::Aggregate {
        return false;
    }
    !is_app_virtual_output(uid, name)
}

/// Why an endpoint cannot be chosen, or `None` when it can.
pub fn non_selectable_reason(uid: &str, name: &str, transport: TransportKind) -> (r: Option<
    &'static str,
>)
    ensures
        opt_str_view(r) == spec_non_selectable_reason(uid@, name@, transport),
{
    if OutputDevice::is_excluded_by_name(name) {
        return Some("virtual router entry");
    }
    if transport == TransportKind::Aggregate {
        return Some("aggregate device");
    }
    if is_app_virtual_output(uid, name) {
        return Some("app virtual audio — not a speaker");
    }
    None
}

/// Devices shown by `list --hdmi`, in their original order.
pub fn filter_hdmi_devices(devices: &[OutputDevice]) -> (r: Vec<OutputDevice>)
    ensures
        r@ == devices@.filter(|d: OutputDevice| d.spec_matches_hdmi()),
{
    let mut out: Vec<OutputDevice> = Vec::new();
    let mut i: usize = 0;
    while i < devices.len()
        invariant
            i <= devices@.len(),
            out@ == devices@.take(i as int).filter(|d: OutputDevice| d.spec_matches_hdmi()),
        decreases devices@.len() - i,
    {
        reveal_with_fuel(Seq::<_>::filter, 1);
        assert(devices@.take(i + 1).drop_last() =~= devices@.take(i as int));
        if devices[i].matches_hdmi_filter() {
            out.push(devices[i].duplicate());
        }
        i = i + 1;
    }
    assert(devices@.take(devices@.len() as int) =~= devices@);
    out
}

/// Index of the first device whose UID is `uid`.
pub open spec fn index_of_uid(devices: Seq<OutputDevice>, uid: Seq<char>) -> Option<int>
    decreases devices.len(),
{
    if devices.len() == 0 {
        None
    } else {
        match index_of_uid(devices.drop_last(), uid) {
            Some(k) => Some(k),
            None => if devices.last().uid@ == uid {
                Some(devices.len() - 1)
            } else {
                None
            },
        }
    }
}

pub proof fn lemma_index_of_uid(devices: Seq<OutputDevice>, uid: Seq<char>)
    ensures
        match index_of_uid(devices, uid) {
            Some(k) => 0 <= k < devices.len() && devices[k].uid@ == uid && forall|j: int|
                0 <= j < k ==> devices[j].uid@ != uid,
            None => forall|j: int| 0 <= j < devices.len() ==> devices[j].uid@ != uid,
        },
    decreases devices.len(),
{
    if devices.len() > 0 {
        let d = devices.drop_last();
        lemma_index_of_uid(d, uid);
        assert(forall|j: int| 0 <= j < d.len() ==> d[j] == devices[j]);
    }
}

/// Position of the first device with the given UID.
pub fn find_uid(devices: &[OutputDevice], uid: &str) -> (r: Option<usize>)
    ensures
        match r {
            Some(k) => index_of_uid(devices@, uid@) == Some(k as int),
            None => index_of_uid(devices@, uid@) is None,
        },
{
    let mut i: usize = 0;
    while i < devices.len()
        invariant
            i <= devices@.len(),
            forall|j: int| 0 <= j < i ==> devices@[j].uid@ != uid@,
        decreases devices@.len() - i,
    {
        if str_eq(devices[i].uid.as_str(), uid) {
            proof {
                lemma_index_of_uid(devices@, uid@);
                if let Some(k) = index_of_uid(devices@, uid@) {
                    assert(k == i);
                }
            }
            return Some(i);
        }
        i = i + 1;
    }
    proof {
        lemma_index_of_uid(devices@, uid@);
    }
    None
}

} // verus!

verus! {

/// Index of the first element of `s` that satisfies `p`.
pub open spec fn first_where<T>(s: Seq<T>, p: spec_fn(T) -> bool) -> Option<int>
    decreases s.len(),
{
    if s.len() == 0 {
        None
    } else {
        match first_where(s.drop_last(), p) {
            Some(k) => Some(k),
            None => if p(s.last()) {
                Some(s.len() - 1)
            } else {
                None
            },
        }
    }
}

pub proof fn lemma_first_where<T>(s: Seq<T>, p: spec_fn(T) -> bool)
    ensures
        match first_where(s, p) {
            Some(k) => 0 <= k < s.len() && p(s[k]) && forall|j: int| 0 <= j < k ==> !p(s[j]),
            None => forall|j: int| 0 <= j < s.len() ==> !p(s[j]),
        },
    decreases s.len(),
{
    if s.len() > 0 {
        let d = s.drop_last();
        lemma_first_where(d, p);
        assert(forall|j: int| 0 <= j < d.len() ==> d[j] == s[j]);
    }
}

/// The first index satisfying `p` is `i` when `s[i]` does and nothing before it does.
pub proof fn lemma_first_where_at<T>(s: Seq<T>, p: spec_fn(T) -> bool, i: int)
    requires
        0 <= i < s.len(),
        p(s[i]),
        forall|j: int| 0 <= j < i ==> !p(s[j]),
    ensures
        first_where(s, p) == Some(i),
{
    lemma_first_where(s, p);
}

/// Predicate: the device routes audible output.
pub open spec fn active_pred() -> spec_fn(OutputDevice) -> bool {
    |d: OutputDevice| d.is_active
}

/// Position of the first device marked active.
pub fn find_active(devices: &[OutputDevice]) -> (r: Option<usize>)
    ensures
        match r {
            Some(k) => first_where(devices@, active_pred()) == Some(k as int),
            None => first_where(devices@, active_pred()) is None,
        },
{
    let ghost p = active_pred();
    let mut i: usize = 0;
    while i < devices.len()
        invariant
            i <= devices@.len(),
            p == active_pred(),
            forall|j: int| 0 <= j < i ==> !p(devices@[j]),
        decreases devices@.len() - i,
    {
        if devices[i].is_active {
            proof {
                lemma_first_where_at(devices@, p, i as int);
            }
            return Some(i);
        }
        i = i + 1;
    }
    proof {
        lemma_first_where(devices@, p);
    }
    None
}

} // verus!
