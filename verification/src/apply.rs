//! Apply routing policy once: choose the target and switch the default output.
use crate::config::Config;
use crate::device_select::{resolve_device_selector, spec_resolves_to, DeviceSelector};
use crate::error::RustyJackError;
use crate::hal::{failures_kept, AudioHal, HalWrite, VolumeEnsureResult};
use crate::output_device::{
    active_pred, clone_opt_string, find_active, find_uid, first_where, index_of_uid,
    lemma_first_where, lemma_index_of_uid, OutputDevice,
};
use crate::policy::{
    opt_seq, select_routing_target, spec_select_routing_target, RoutingTarget, RoutingTargetSource,
};
use crate::system_default::DeviceList;
use crate::text::{concat2, concat3, decimal, owned, str_eq, texts, u64_to_text};
use vstd::prelude::*;

verus! {

/// Options when switching the default output device.
#[derive(Debug, Clone, Copy, PartialEq, Eq, Structural)]
pub struct SwitchOptions {
    pub also_set_system_output: bool,
    /// When `Some`, set output volume after switching. Omitted for manual picks.
    pub volume: Option<u8>,
}

/// Result of applying a routing target.
#[derive(Debug)]
pub enum ApplyResult {
    Switched {
        from_uid: Option<String>,
        to_uid: String,
        device_name: String,
        monitor_name: Option<String>,
        source: RoutingTargetSource,
        also_set_system_output: bool,
        volume: Option<VolumeEnsureResult>,
    },
    NoChange { uid: String, device_name: String, monitor_name: Option<String>, reason: String },
}

/// Volume writes a switch performs: the target volume before and after the route change.
pub open spec fn switch_volume_writes(volume: Option<u8>, uid: Seq<char>) -> Seq<(Seq<char>, u8)> {
    match volume {
        Some(p) => seq![(uid, p), (uid, p)],
        None => seq![],
    }
}

/// The writes a switch to `uid` made after `before`, in order and all
/// successful: with a volume, that volume, then the default output, then the
/// volume again, whose result is the reported `volume`; without one, only the
/// default output.
pub open spec fn switch_writes(
    before: Seq<HalWrite>,
    after: Seq<HalWrite>,
    uid: Seq<char>,
    options: SwitchOptions,
    volume: Option<VolumeEnsureResult>,
) -> bool {
    let n = before.len() as int;
    &&& after.len() >= n
    &&& after.subrange(0, n) == before
    &&& match options.volume {
        Some(p) => {
            &&& after.len() == n + 3
            &&& after[n] matches HalWrite::SetVolume { uid: u, percent, result } && u@ == uid
                && percent == p && result is Ok
            &&& after[n + 1] matches HalWrite::SetDefault { uid: u, also_system, result } && u@
                == uid && also_system == options.also_set_system_output && result is Ok
            &&& after[n + 2] matches HalWrite::SetVolume { uid: u, percent, result } && u@ == uid
                && percent == p && result is Ok && volume == Some(result->Ok_0)
        },
        None => {
            &&& after.len() == n + 1
            &&& after[n] matches HalWrite::SetDefault { uid: u, also_system, result } && u@ == uid
                && also_system == options.also_set_system_output && result is Ok
            &&& volume is None
        },
    }
}

/// What a successful `switch_output` did to the HAL and what it reported.
pub open spec fn switch_outcome<H: AudioHal>(
    before: H,
    after: H,
    target: RoutingTarget,
    options: SwitchOptions,
    result: ApplyResult,
) -> bool {
    match result {
        ApplyResult::NoChange { uid, device_name, monitor_name, reason } => {
            &&& before.model_default() == Some(target.uid@)
            &&& uid == target.uid && device_name == target.name && monitor_name
                == target.monitor_name
            &&& reason@ == "default output already on target"@
            &&& after.model_default() == before.model_default()
            &&& after.default_log() == before.default_log()
            &&& after.volume_log() == before.volume_log()
            &&& after.write_log() == before.write_log()
        },
        ApplyResult::Switched {
            from_uid,
            to_uid,
            device_name,
            monitor_name,
            source,
            also_set_system_output,
            volume,
        } => {
            &&& before.model_default() != Some(target.uid@)
            &&& opt_seq(from_uid) == before.model_default()
            &&& to_uid == target.uid && device_name == target.name && monitor_name
                == target.monitor_name && source == target.source
            &&& also_set_system_output == options.also_set_system_output
            &&& (volume is Some <==> options.volume is Some)
            &&& after.model_default() == Some(target.uid@)
            &&& after.default_log() == before.default_log().push(
                (target.uid@, options.also_set_system_output),
            )
            &&& after.volume_log() == before.volume_log() + switch_volume_writes(
                options.volume,
                target.uid@,
            )
            &&& switch_writes(before.write_log(), after.write_log(), target.uid@, options, volume)
        },
    }
}

/// Whether switching to `target` fails: reading the default fails, or the route
/// differs and writing the volume or the default output fails.
pub open spec fn switch_fails<H: AudioHal>(hal: H, target: RoutingTarget, options: SwitchOptions) -> bool {
    hal.read_fails() || (hal.model_default() != Some(target.uid@) && ((options.volume matches Some(
        p,
    ) && hal.set_volume_fails(target.uid@, p)) || hal.set_default_fails(
        target.uid@,
        options.also_set_system_output,
    )))
}

/// Switch the default output to `target` when it differs from the current default.
pub fn switch_output<H: AudioHal>(hal: &mut H, target: &RoutingTarget, options: &SwitchOptions) -> (r:
    Result<ApplyResult, RustyJackError>)
    ensures
        final(hal).obeys_model() == old(hal).obeys_model(),
        old(hal).obeys_model() ==> (r matches Ok(res) ==> switch_outcome(*old(hal), *final(hal), *target, *options, res)),
        old(hal).obeys_model() ==> (r is Err == switch_fails(*old(hal), *target, *options)),
        old(hal).obeys_model() ==> (failures_kept(*old(hal), *final(hal))),
{
    let current = hal.default_output_uid()?;
    let same = match &current {
        Some(c) => str_eq(c.as_str(), target.uid.as_str()),
        None => false,
    };
    if same {
        return Ok(no_change_result(target, "default output already on target"));
    }
    let ghost before = *hal;
    if let Some(percent) = options.volume {
        let _ = hal.set_output_volume(target.uid.as_str(), percent)?;
    }
    let ghost mid = *hal;
    hal.set_default_output(target.uid.as_str(), options.also_set_system_output)?;
    let ghost mid2 = *hal;
    let volume = match options.volume {
        Some(percent) => Some(hal.set_output_volume(target.uid.as_str(), percent)?),
        None => None,
    };
    proof {
        if old(hal).obeys_model() {
            let n = before.write_log().len() as int;
            match options.volume {
                Some(p) => {
                    assert(hal.write_log().subrange(0, n) =~= before.write_log());
                    assert(hal.write_log()[n] == mid.write_log()[n]);
                    assert(hal.write_log()[n + 1] == mid2.write_log()[n + 1]);
                },
                None => {
                    assert(hal.write_log().subrange(0, n) =~= before.write_log());
                },
            }
            match options.volume {
                Some(p) => {
                    assert(hal.volume_log() =~= before.volume_log() + switch_volume_writes(
                        options.volume,
                        target.uid@,
                    ));
                },
                None => {
                    assert(hal.volume_log() =~= before.volume_log() + switch_volume_writes(
                        options.volume,
                        target.uid@,
                    ));
                },
            }
        }
    }
    Ok(
        ApplyResult::Switched {
            from_uid: current,
            to_uid: target.uid.clone(),
            device_name: target.name.clone(),
            monitor_name: clone_opt_string(&target.monitor_name),
            source: target.source,
            also_set_system_output: options.also_set_system_output,
            volume,
        },
    )
}

pub fn no_change_result(target: &RoutingTarget, reason: &str) -> (r: ApplyResult)
    ensures
        r matches ApplyResult::NoChange { uid, device_name, monitor_name, reason: why } && uid
            == target.uid && device_name == target.name && monitor_name == target.monitor_name
            && why@ == reason@,
{
    ApplyResult::NoChange {
        uid: target.uid.clone(),
        device_name: target.name.clone(),
        monitor_name: clone_opt_string(&target.monitor_name),
        reason: owned(reason),
    }
}

/// The configured preferred device's UID, when it is connected.
pub fn preferred_uid(config: &Config, devices: &[OutputDevice]) -> (r: Option<String>)
    ensures
        opt_seq(r) == spec_resolves_to(DeviceSelector { uid: config.spec_preferred_uid() }, devices@),
{
    match resolve_device_selector(&config.preferred_selector(), devices) {
        Ok(uid) => Some(uid),
        Err(_) => None,
    }
}

/// Per-device output volumes remembered for non-preferred outputs.
#[derive(Debug)]
pub struct VolumeMemory {
    pub entries: Vec<(String, u8)>,
}

/// The last remembered volume for `uid`.
pub open spec fn spec_remembered(entries: Seq<(String, u8)>, uid: Seq<char>) -> Option<u8>
    decreases entries.len(),
{
    if entries.len() == 0 {
        None
    } else if entries.last().0@ == uid {
        Some(entries.last().1)
    } else {
        spec_remembered(entries.drop_last(), uid)
    }
}

impl VolumeMemory {
    pub fn new() -> (r: VolumeMemory)
        ensures
            r.entries@.len() == 0,
    {
        VolumeMemory { entries: Vec::new() }
    }

    /// The volume last remembered for `uid`.
    pub fn remembered_volume(&self, uid: &str) -> (r: Option<u8>)
        ensures
            r == spec_remembered(self.entries@, uid@),
    {
        let mut i: usize = self.entries.len();
        assert(self.entries@.take(i as int) =~= self.entries@);
        while i > 0
            invariant
                i <= self.entries@.len(),
                spec_remembered(self.entries@, uid@) == spec_remembered(
                    self.entries@.take(i as int),
                    uid@,
                ),
            decreases i,
        {
            proof {
                let t = self.entries@.take(i as int);
                assert(t.drop_last() =~= self.entries@.take(i - 1));
            }
            if str_eq(self.entries[i - 1].0.as_str(), uid) {
                return Some(self.entries[i - 1].1);
            }
            i = i - 1;
        }
        None
    }

    /// Remember `percent` as the current volume of `uid`.
    pub fn remember(&mut self, uid: &str, percent: u8)
        ensures
            spec_remembered(final(self).entries@, uid@) == Some(percent),
            forall|other: Seq<char>|
                other != uid@ ==> spec_remembered(final(self).entries@, other) == spec_remembered(
                    old(self).entries@,
                    other,
                ),
    {
        self.entries.push((owned(uid), percent));
        assert(self.entries@.drop_last() =~= old(self).entries@);
    }
}

/// The configured volume for the preferred device, the remembered volume otherwise.
pub open spec fn spec_volume_for_target(
    config: Config,
    target: RoutingTarget,
    preferred: Option<Seq<char>>,
    entries: Seq<(String, u8)>,
) -> Option<u8> {
    if preferred == Some(target.uid@) || target.source == RoutingTargetSource::Preferred {
        config.volume
    } else {
        spec_remembered(entries, target.uid@)
    }
}

/// How the memory changes when leaving the active output for `target_uid`: the
/// active output's reported volume is recorded unless it is the preferred output or
/// the target itself (or reports nothing); no other output's memory changes.
pub open spec fn remembers_on_leave(
    before: Seq<(String, u8)>,
    after: Seq<(String, u8)>,
    devices: Seq<OutputDevice>,
    preferred: Option<Seq<char>>,
    target_uid: Seq<char>,
    reported: spec_fn(Seq<char>) -> Option<u8>,
) -> bool {
    match first_where(devices, active_pred()) {
        Some(k) => {
            let a = devices[k].uid@;
            if preferred == Some(a) || a == target_uid {
                after == before
            } else {
                &&& spec_remembered(after, a) == match reported(a) {
                    Some(v) => Some(v),
                    None => spec_remembered(before, a),
                }
                &&& forall|other: Seq<char>|
                    other != a ==> spec_remembered(after, other) == spec_remembered(before, other)
            }
        },
        None => after == before,
    }
}

/// Volume to apply on a switch: the configured volume for the preferred device,
/// the remembered volume otherwise.
pub fn volume_for_target(
    config: &Config,
    target: &RoutingTarget,
    preferred_uid: &Option<String>,
    memory: &VolumeMemory,
) -> (r: Option<u8>)
    ensures
        r == spec_volume_for_target(*config, *target, opt_seq(*preferred_uid), memory.entries@),
{
    let is_preferred = match preferred_uid {
        Some(p) => str_eq(p.as_str(), target.uid.as_str()),
        None => false,
    };
    if is_preferred || target.source == RoutingTargetSource::Preferred {
        return config.volume;
    }
    memory.remembered_volume(target.uid.as_str())
}

/// Before leaving a non-preferred active output, remember its current volume.
pub fn remember_active_non_preferred<H: AudioHal>(
    hal: &H,
    devices: &[OutputDevice],
    preferred_uid: Option<&str>,
    target_uid: &str,
    memory: &mut VolumeMemory,
)
    ensures
        hal.obeys_model() ==> (remembers_on_leave(
            old(memory).entries@,
            final(memory).entries@,
            devices@,
            crate::output_device::opt_str_view(preferred_uid),
            target_uid@,
            |u: Seq<char>| hal.reported_volume(u),
        )),
{
    proof {
        lemma_first_where(devices@, active_pred());
    }
    let k = match find_active(devices) {
        Some(k) => k,
        None => {
            return ;
        },
    };
    let active = devices[k].uid.as_str();
    let is_preferred = match preferred_uid {
        Some(p) => str_eq(p, active),
        None => false,
    };
    if is_preferred || str_eq(active, target_uid) {
        return ;
    }
    if let Some(v) = hal.output_volume_percent(active) {
        memory.remember(active, v);
    }
}

/// The device's friendly label, the virtual default's name, or the UID itself.
pub open spec fn spec_label_for_uid(list: DeviceList, uid: Seq<char>) -> Seq<char> {
    match index_of_uid(list.devices@, uid) {
        Some(k) => list.devices@[k].spec_friendly_label(),
        None => match list.system_default {
            Some(sd) => if sd.uid@ == uid {
                sd.name@
            } else {
                uid
            },
            None => uid,
        },
    }
}

/// Label for a UID in a device-list snapshot: the device's friendly label, the
/// virtual default's name, or the UID itself.
pub fn label_for_uid(list: &DeviceList, uid: &str) -> (r: String)
    ensures
        r@ == spec_label_for_uid(*list, uid@),
{
    proof {
        lemma_index_of_uid(list.devices@, uid@);
    }
    if let Some(k) = find_uid(list.devices.as_slice(), uid) {
        return list.devices[k].friendly_label();
    }
    if let Some(sd) = &list.system_default {
        if str_eq(sd.uid.as_str(), uid) {
            return sd.name.clone();
        }
    }
    owned(uid)
}

/// The switch options of a policy apply: the configured volume for the preferred
/// device, the remembered volume otherwise.
pub open spec fn policy_switch_options(
    config: Config,
    devices: Seq<OutputDevice>,
    entries: Seq<(String, u8)>,
) -> SwitchOptions {
    SwitchOptions {
        also_set_system_output: config.also_set_system_output,
        volume: if spec_resolves_to(DeviceSelector { uid: config.spec_preferred_uid() }, devices)
            == Some(spec_select_routing_target(config, devices)->Ok_0.uid@)
            || spec_select_routing_target(config, devices)->Ok_0.source
            == RoutingTargetSource::Preferred {
            config.volume
        } else {
            spec_remembered(entries, spec_select_routing_target(config, devices)->Ok_0.uid@)
        },
    }
}

/// Apply config policy: resolve the target and set the default output when needed.
pub fn apply_policy<H: AudioHal>(hal: &mut H, config: &Config, memory: &mut VolumeMemory) -> (r:
    Result<(ApplyResult, DeviceList), RustyJackError>)
    ensures
        final(hal).obeys_model() == old(hal).obeys_model(),
        old(hal).obeys_model() ==> (r matches Ok((res, list)) ==> {
            &&& list.devices@ == old(hal).model_devices()
            &&& spec_select_routing_target(*config, list.devices@) is Ok
            &&& switch_outcome(
                *old(hal),
                *final(hal),
                spec_select_routing_target(*config, list.devices@)->Ok_0,
                policy_switch_options(*config, list.devices@, final(memory).entries@),
                res,
            )
        }),
        old(hal).obeys_model() ==> (old(hal).list_fails() ==> r is Err && final(memory).entries@ == old(memory).entries@),
        old(hal).obeys_model() ==> (!old(hal).list_fails() ==> match spec_select_routing_target(*config, old(hal).model_devices()) {
            Err(e) => r matches Err(RustyJackError::Config(m)) && m@ == e.spec_message()
                && final(memory).entries@ == old(memory).entries@,
            Ok(t) => {
                &&& remembers_on_leave(
                    old(memory).entries@,
                    final(memory).entries@,
                    old(hal).model_devices(),
                    spec_resolves_to(
                        DeviceSelector { uid: config.spec_preferred_uid() },
                        old(hal).model_devices(),
                    ),
                    t.uid@,
                    |u: Seq<char>| old(hal).reported_volume(u),
                )
                &&& r is Err == switch_fails(
                    *old(hal),
                    t,
                    policy_switch_options(*config, old(hal).model_devices(), final(memory).entries@),
                )
            },
        }),
{
    let list = hal.list_outputs()?;
    let target = match select_routing_target(config, list.devices.as_slice()) {
        Ok(t) => t,
        Err(err) => {
            return Err(RustyJackError::Config(err.message()));
        },
    };
    let preferred = preferred_uid(config, list.devices.as_slice());
    let preferred_ref: Option<&str> = match &preferred {
        Some(p) => Some(p.as_str()),
        None => None,
    };
    remember_active_non_preferred(
        hal,
        list.devices.as_slice(),
        preferred_ref,
        target.uid.as_str(),
        memory,
    );
    let volume = volume_for_target(config, &target, &preferred, memory);
    let result = switch_output(
        hal,
        &target,
        &SwitchOptions { also_set_system_output: config.also_set_system_output, volume },
    )?;
    Ok((result, list))
}


/// Read-after-write of the volume memory: after `remember(uid, percent)` the memory
/// gives `percent` for `uid`, and what it gives for any other output is unchanged.
pub proof fn law_remember_then_recall(
    before: Seq<(String, u8)>,
    entry: (String, u8),
    other: Seq<char>,
)
    ensures
        spec_remembered(before.push(entry), entry.0@) == Some(entry.1),
        other != entry.0@ ==> spec_remembered(before.push(entry), other) == spec_remembered(
            before,
            other,
        ),
{
    assert(before.push(entry).drop_last() =~= before);
}

/// A non-preferred output keeps its own volume: when it is the active output and is
/// left for another target, the volume it reported is the volume applied when the
/// daemon or picker switches back to it.
pub proof fn law_volume_restored_on_return(
    config: Config,
    before: Seq<(String, u8)>,
    after: Seq<(String, u8)>,
    devices: Seq<OutputDevice>,
    preferred: Option<Seq<char>>,
    leaving_for: Seq<char>,
    reported: spec_fn(Seq<char>) -> Option<u8>,
    back: RoutingTarget,
)
    requires
        remembers_on_leave(before, after, devices, preferred, leaving_for, reported),
        first_where(devices, active_pred()) matches Some(k) && devices[k].uid@ == back.uid@,
        back.uid@ != leaving_for,
        preferred != Some(back.uid@),
        back.source != RoutingTargetSource::Preferred,
        reported(back.uid@) is Some,
    ensures
        spec_volume_for_target(config, back, preferred, after) == reported(back.uid@),
{
}

/// A memory with no record for `uid` gives nothing for it.
pub proof fn lemma_remembered_absent(entries: Seq<(String, u8)>, uid: Seq<char>)
    requires
        forall|i: int| 0 <= i < entries.len() ==> (#[trigger] entries[i]).0@ != uid,
    ensures
        spec_remembered(entries, uid) is None,
    decreases entries.len(),
{
    if entries.len() > 0 {
        let init = entries.drop_last();
        assert forall|i: int| 0 <= i < init.len() implies (#[trigger] init[i]).0@ != uid by {
            assert(init[i] == entries[i]);
        }
        assert(entries.last() == entries[entries.len() - 1]);
        lemma_remembered_absent(init, uid);
    }
}

/// The volume `apply` sets belongs to the output it switches to. For the
/// preferred output (the one the preferred selector resolves to, or a target
/// chosen as preferred) it is the configured volume, whatever the memory
/// holds. For any other target it is that target's own remembered volume:
/// nothing when the memory has no record of its UID (the configured volume is
/// never carried over to it), and `v` right after `v` was recorded for it.
pub proof fn law_apply_volume_belongs_to_target(
    config: Config,
    devices: Seq<OutputDevice>,
    entries: Seq<(String, u8)>,
    other_entries: Seq<(String, u8)>,
    entry: (String, u8),
)
    ensures
        spec_select_routing_target(config, devices) matches Ok(t) ==> {
            let is_preferred = spec_resolves_to(DeviceSelector { uid: config.spec_preferred_uid() }, devices)
                == Some(t.uid@) || t.source == RoutingTargetSource::Preferred;
            &&& is_preferred ==> policy_switch_options(config, devices, entries).volume == config.volume
                && policy_switch_options(config, devices, other_entries).volume == config.volume
            &&& !is_preferred && (forall|i: int|
                0 <= i < entries.len() ==> (#[trigger] entries[i]).0@ != t.uid@)
                ==> policy_switch_options(config, devices, entries).volume is None
            &&& !is_preferred && entry.0@ == t.uid@ ==> policy_switch_options(
                config,
                devices,
                entries.push(entry),
            ).volume == Some(entry.1)
        },
{
    if let Ok(t) = spec_select_routing_target(config, devices) {
        if forall|i: int| 0 <= i < entries.len() ==> (#[trigger] entries[i]).0@ != t.uid@ {
            lemma_remembered_absent(entries, t.uid@);
        }
        law_remember_then_recall(entries, entry, t.uid@);
    }
}

/// Leaving some other output never disturbs what is remembered for `uid`.
pub proof fn law_memory_kept_when_leaving_others(
    before: Seq<(String, u8)>,
    after: Seq<(String, u8)>,
    devices: Seq<OutputDevice>,
    preferred: Option<Seq<char>>,
    leaving_for: Seq<char>,
    reported: spec_fn(Seq<char>) -> Option<u8>,
    uid: Seq<char>,
)
    requires
        remembers_on_leave(before, after, devices, preferred, leaving_for, reported),
        !(first_where(devices, active_pred()) matches Some(k) && devices[k].uid@ == uid),
    ensures
        spec_remembered(after, uid) == spec_remembered(before, uid),
{
}


/// `name`, followed by the monitor name in parentheses when there is one.
pub open spec fn spec_name_with_monitor(name: Seq<char>, monitor_name: Option<String>) -> Seq<char> {
    match monitor_name {
        Some(m) => name + " ("@ + m@ + ")"@,
        None => name,
    }
}

/// How a routing target was chosen, as a report says it.
pub open spec fn spec_via(source: RoutingTargetSource) -> Seq<char> {
    match source {
        RoutingTargetSource::Preferred => "preferred device"@,
        RoutingTargetSource::Fallback { index } => "fallback #"@ + decimal(index as nat),
        RoutingTargetSource::BuiltInFallback => "built-in fallback"@,
        RoutingTargetSource::Picker => "picker"@,
    }
}

/// Report lines for a volume write: (standard output, warnings).
pub open spec fn spec_volume_report(v: VolumeEnsureResult) -> (Seq<Seq<char>>, Seq<Seq<char>>) {
    let target = decimal(v.target as nat);
    if v.verified {
        match v.actual {
            Some(a) => if a == v.target {
                (seq!["  volume set to "@ + target + "%"@], seq![])
            } else {
                (
                    seq![
                        "  volume set to "@ + target + "% (read back "@ + decimal(a as nat)
                            + "% after "@ + decimal(v.attempts as nat) + " attempts)"@,
                    ],
                    seq![],
                )
            },
            None => (seq!["  volume set to "@ + target + "%"@], seq![]),
        }
    } else {
        match v.actual {
            Some(a) => (
                seq![],
                seq![
                    "  warning: volume target "@ + target + "% but read back "@ + decimal(a as nat)
                        + "% after "@ + decimal(v.attempts as nat) + " attempts"@,
                ],
            ),
            None => (
                seq![],
                seq![
                    "  warning: could not verify volume "@ + target + "% after "@ + decimal(
                        v.attempts as nat,
                    ) + " attempts"@,
                ],
            ),
        }
    }
}

/// The report of an apply or picker result: (standard output lines, warning lines).
pub open spec fn spec_print_text(result: ApplyResult, list: DeviceList) -> (Seq<Seq<char>>, Seq<Seq<char>>) {
    match result {
        ApplyResult::Switched {
            from_uid,
            device_name,
            monitor_name,
            source,
            also_set_system_output,
            volume,
            ..
        } => {
            let to = spec_name_with_monitor(device_name@, monitor_name);
            let from = match from_uid {
                Some(u) => spec_label_for_uid(list, u@),
                None => "(none)"@,
            };
            let head = seq![
                "Switched default output to "@ + to + " ("@ + spec_via(source) + ")"@,
                "  from: "@ + from,
                "  to:   "@ + to,
            ];
            let head = if also_set_system_output {
                head.push("  also set system (alert) output"@)
            } else {
                head
            };
            match volume {
                Some(v) => (head + spec_volume_report(v).0, spec_volume_report(v).1),
                None => (head, seq![]),
            }
        },
        ApplyResult::NoChange { device_name, monitor_name, reason, .. } => (
            seq![
                "No change: "@ + reason@,
                "  device: "@ + spec_name_with_monitor(device_name@, monitor_name),
            ],
            seq![],
        ),
    }
}

fn name_with_monitor(name: &str, monitor_name: &Option<String>) -> (r: String)
    ensures
        r@ == spec_name_with_monitor(name@, *monitor_name),
{
    match monitor_name {
        Some(m) => concat3(name, " (", concat2(m.as_str(), ")").as_str()),
        None => owned(name),
    }
}

fn via_text(source: RoutingTargetSource) -> (r: String)
    ensures
        r@ == spec_via(source),
{
    match source {
        RoutingTargetSource::Preferred => owned("preferred device"),
        RoutingTargetSource::Fallback { index } => {
            let n = usize_text(index);
            concat2("fallback #", n.as_str())
        },
        RoutingTargetSource::BuiltInFallback => owned("built-in fallback"),
        RoutingTargetSource::Picker => owned("picker"),
    }
}

fn usize_text(n: usize) -> (r: String)
    ensures
        r@ == decimal(n as nat),
{
    u64_to_text(n as u64)
}

/// The human-readable report of an apply or picker result: standard output
/// lines and warning lines.
pub fn print_text_lines(result: &ApplyResult, list: &DeviceList) -> (r: (Vec<String>, Vec<String>))
    ensures
        texts(r.0@) == spec_print_text(*result, *list).0,
        texts(r.1@) == spec_print_text(*result, *list).1,
{
    let mut out: Vec<String> = Vec::new();
    let mut err: Vec<String> = Vec::new();
    match result {
        ApplyResult::Switched {
            from_uid,
            device_name,
            monitor_name,
            source,
            also_set_system_output,
            volume,
            ..
        } => {
            let to = name_with_monitor(device_name.as_str(), monitor_name);
            let from = match from_uid {
                Some(u) => label_for_uid(list, u.as_str()),
                None => owned("(none)"),
            };
            let via = via_text(*source);
            let a = concat3("Switched default output to ", to.as_str(), " (");
            out.push(concat3(a.as_str(), via.as_str(), ")"));
            out.push(concat2("  from: ", from.as_str()));
            out.push(concat2("  to:   ", to.as_str()));
            if *also_set_system_output {
                out.push(owned("  also set system (alert) output"));
            }
            if let Some(v) = volume {
                let t = u64_to_text(v.target as u64);
                let n = u64_to_text(v.attempts as u64);
                if v.verified {
                    match v.actual {
                        Some(a) => {
                            if a == v.target {
                                out.push(concat3("  volume set to ", t.as_str(), "%"));
                            } else {
                                let at = u64_to_text(a as u64);
                                let b = concat3("  volume set to ", t.as_str(), "% (read back ");
                                let c = concat3(b.as_str(), at.as_str(), "% after ");
                                out.push(concat3(c.as_str(), n.as_str(), " attempts)"));
                            }
                        },
                        None => {
                            out.push(concat3("  volume set to ", t.as_str(), "%"));
                        },
                    }
                } else {
                    match v.actual {
                        Some(a) => {
                            let at = u64_to_text(a as u64);
                            let b = concat3("  warning: volume target ", t.as_str(), "% but read back ");
                            let c = concat3(b.as_str(), at.as_str(), "% after ");
                            err.push(concat3(c.as_str(), n.as_str(), " attempts"));
                        },
                        None => {
                            let b = concat3("  warning: could not verify volume ", t.as_str(), "% after ");
                            err.push(concat3(b.as_str(), n.as_str(), " attempts"));
                        },
                    }
                }
            }
        },
        ApplyResult::NoChange { device_name, monitor_name, reason, .. } => {
            let label = name_with_monitor(device_name.as_str(), monitor_name);
            out.push(concat2("No change: ", reason.as_str()));
            out.push(concat2("  device: ", label.as_str()));
        },
    }
    proof {
        assert(texts(out@) =~= spec_print_text(*result, *list).0);
        assert(texts(err@) =~= spec_print_text(*result, *list).1);
    }
    (out, err)
}

/// The daemon's log line for a switch, naming the output it left by its label.
pub fn daemon_switch_line(result: &ApplyResult, list: &DeviceList) -> (r: Option<String>)
    ensures
        match *result {
            ApplyResult::Switched { from_uid, to_uid, device_name, .. } => r matches Some(line)
                && line@ == "daemon: switched default output from "@ + spec_label_for_uid(
                *list,
                match from_uid {
                    Some(u) => u@,
                    None => "(none)"@,
                },
            ) + " to "@ + device_name@ + " ("@ + to_uid@ + ")"@,
            ApplyResult::NoChange { .. } => r is None,
        },
{
    match result {
        ApplyResult::Switched { from_uid, to_uid, device_name, .. } => {
            let from_key = match from_uid {
                Some(u) => u.as_str(),
                None => "(none)",
            };
            let from = label_for_uid(list, from_key);
            let a = concat3("daemon: switched default output from ", from.as_str(), " to ");
            let b = concat3(a.as_str(), device_name.as_str(), " (");
            Some(concat3(b.as_str(), to_uid.as_str(), ")"))
        },
        ApplyResult::NoChange { .. } => None,
    }
}

} // verus!
