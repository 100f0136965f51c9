//! `rusty-jack picker`: choose an output device and switch to it.
//!
//! The interactive list, prompts and printing belong to the terminal front
//! end; this module decides the per-device notes, whether a manual pick pauses
//! the daemon, which volume the picked device gets, and performs the switch.
use crate::apply::{
    remember_active_non_preferred, remembers_on_leave, spec_remembered, switch_fails, switch_outcome,
    ApplyResult,
    SwitchOptions, VolumeMemory,
};
use crate::config::Config;
use crate::error::RustyJackError;
use crate::hal::AudioHal;
use crate::hdmi_displayport_volume_control::{route_needs_hdmi_displayport_volume_control, spec_route_needs};
use crate::launchd::{DaemonPauseReason, PauseResult};
use crate::output_device::{find_active, first_where, active_pred, lemma_first_where, OutputDevice};
use crate::device_select::{spec_resolves_to, DeviceSelector};
use crate::picker::{
    note_view, pick_and_switch, pick_device_index_with_notes, preferred_uid_from_config,
    spec_pick, volume_for_preferred_pick, PickSelection,
};
use crate::policy::{opt_seq, RoutingTarget, RoutingTargetSource};
use crate::text::{concat2, concat3, owned, str_eq};
use vstd::prelude::*;

verus! {

pub open spec fn native_note() -> Seq<char> {
    "native driver recommended for volume keys"@
}

/// Notes for the first `n` devices: HDMI/DP outputs that are live and
/// routable get the native-driver recommendation.
pub open spec fn native_notes_upto(all: Seq<OutputDevice>, n: int) -> Seq<(Seq<char>, Seq<char>)>
    decreases n,
{
    if n <= 0 {
        seq![]
    } else {
        let d = all[n - 1];
        if d.is_alive && d.spec_selectable() && spec_route_needs(all, d.uid@) {
            native_notes_upto(all, n - 1).push((d.uid@, native_note()))
        } else {
            native_notes_upto(all, n - 1)
        }
    }
}

pub open spec fn spec_native_notes(devices: Seq<OutputDevice>, installed: bool) -> Seq<
    (Seq<char>, Seq<char>),
> {
    if installed {
        seq![]
    } else {
        native_notes_upto(devices, devices.len() as int)
    }
}

/// Recommend the native driver on HDMI/DP outputs while it is not installed.
pub fn native_driver_picker_notes(devices: &[OutputDevice], native_driver_installed: bool) -> (r: Vec<
    (String, String),
>)
    ensures
        note_view(r@) == spec_native_notes(devices@, native_driver_installed),
{
    let mut out: Vec<(String, String)> = Vec::new();
    if native_driver_installed {
        assert(note_view(out@) =~= seq![]);
        return out;
    }
    let mut i: usize = 0;
    while i < devices.len()
        invariant
            i <= devices@.len(),
            note_view(out@) == native_notes_upto(devices@, i as int),
        decreases devices@.len() - i,
    {
        let d = &devices[i];
        let ghost before = out@;
        if d.is_alive && d.is_selectable() && route_needs_hdmi_displayport_volume_control(
            devices,
            d.uid.as_str(),
        ) {
            out.push((d.uid.clone(), owned("native driver recommended for volume keys")));
            assert(note_view(out@) =~= note_view(before).push((d.uid@, native_note())));
        }
        i = i + 1;
    }
    out
}

/// Index of the first note for `uid`.
pub open spec fn note_index(notes: Seq<(Seq<char>, Seq<char>)>, uid: Seq<char>) -> Option<int>
    decreases notes.len(),
{
    if notes.len() == 0 {
        None
    } else {
        match note_index(notes.drop_last(), uid) {
            Some(k) => Some(k),
            None => if notes.last().0 == uid {
                Some(notes.len() - 1)
            } else {
                None
            },
        }
    }
}

proof fn lemma_note_index(notes: Seq<(Seq<char>, Seq<char>)>, uid: Seq<char>)
    ensures
        match note_index(notes, uid) {
            Some(k) => 0 <= k < notes.len() && notes[k].0 == uid && forall|j: int|
                0 <= j < k ==> notes[j].0 != uid,
            None => forall|j: int| 0 <= j < notes.len() ==> notes[j].0 != uid,
        },
    decreases notes.len(),
{
    if notes.len() > 0 {
        let d = notes.drop_last();
        lemma_note_index(d, uid);
        assert(forall|j: int| 0 <= j < d.len() ==> d[j] == notes[j]);
    }
}

/// Add a note for `uid`, or extend its existing note (`existing; note`).
pub open spec fn spec_merge_note(notes: Seq<(Seq<char>, Seq<char>)>, uid: Seq<char>, note: Seq<char>) -> Seq<
    (Seq<char>, Seq<char>),
> {
    match note_index(notes, uid) {
        Some(k) => notes.update(
            k,
            (
                uid,
                if notes[k].1.len() == 0 {
                    note
                } else {
                    notes[k].1 + "; "@ + note
                },
            ),
        ),
        None => notes.push((uid, note)),
    }
}

pub fn append_or_merge_picker_note(notes: &mut Vec<(String, String)>, uid: String, note: String)
    ensures
        note_view(final(notes)@) == spec_merge_note(note_view(old(notes)@), uid@, note@),
{
    proof {
        lemma_note_index(note_view(notes@), uid@);
    }
    let mut i: usize = 0;
    while i < notes.len()
        invariant
            i <= notes@.len(),
            notes@ == old(notes)@,
            forall|j: int| 0 <= j < i ==> (#[trigger] notes@[j]).0@ != uid@,
        decreases notes@.len() - i,
    {
        if str_eq(notes[i].0.as_str(), uid.as_str()) {
            let merged = if notes[i].1.unicode_len() == 0 {
                note
            } else {
                concat3(notes[i].1.as_str(), "; ", note.as_str())
            };
            proof {
                lemma_note_index(note_view(notes@), uid@);
                assert(note_view(notes@)[i as int].0 == uid@);
                if let Some(k) = note_index(note_view(notes@), uid@) {
                    if k < i {
                        assert(note_view(notes@)[k].0 == notes@[k].0@);
                    }
                    assert(k == i);
                }
            }
            let ghost before = notes@;
            notes.set(i, (uid, merged));
            assert(note_view(notes@) =~= spec_merge_note(note_view(before), uid@, note@));
            return ;
        }
        i = i + 1;
    }
    proof {
        lemma_note_index(note_view(notes@), uid@);
    }
    let ghost before = notes@;
    notes.push((uid, note));
    assert(note_view(notes@) =~= note_view(before).push((uid@, note@)));
}

/// Fold `extra` notes into `notes`, in order.
pub open spec fn merge_all(notes: Seq<(Seq<char>, Seq<char>)>, extra: Seq<(Seq<char>, Seq<char>)>) -> Seq<
    (Seq<char>, Seq<char>),
>
    decreases extra.len(),
{
    if extra.len() == 0 {
        notes
    } else {
        spec_merge_note(merge_all(notes, extra.drop_last()), extra.last().0, extra.last().1)
    }
}

/// The picker's per-device notes: the speaker power notes, with the
/// native-driver recommendations merged in.
pub fn picker_notes(
    power_notes: Vec<(String, String)>,
    devices: &[OutputDevice],
    native_driver_installed: bool,
) -> (r: Vec<(String, String)>)
    ensures
        note_view(r@) == merge_all(
            note_view(power_notes@),
            spec_native_notes(devices@, native_driver_installed),
        ),
{
    let mut notes = power_notes;
    let extra = native_driver_picker_notes(devices, native_driver_installed);
    let ghost start = note_view(notes@);
    let mut i: usize = 0;
    while i < extra.len()
        invariant
            i <= extra@.len(),
            note_view(notes@) == merge_all(start, note_view(extra@).subrange(0, i as int)),
        decreases extra@.len() - i,
    {
        let (uid, note) = (extra[i].0.clone(), extra[i].1.clone());
        append_or_merge_picker_note(&mut notes, uid, note);
        assert(note_view(extra@).subrange(0, i + 1).drop_last() =~= note_view(extra@).subrange(
            0,
            i as int,
        ));
        i = i + 1;
    }
    assert(note_view(extra@).subrange(0, extra@.len() as int) =~= note_view(extra@));
    notes
}

/// For a manual pick, the volume the active output reports (none when nothing is
/// active or the pick is the active output itself).
pub open spec fn spec_manual_pick_volume<H: AudioHal>(
    hal: H,
    devices: Seq<OutputDevice>,
    picked_uid: Seq<char>,
) -> Option<u8> {
    match first_where(devices, active_pred()) {
        None => None,
        Some(k) => if devices[k].uid@ == picked_uid {
            None
        } else {
            hal.reported_volume(devices[k].uid@)
        },
    }
}

/// The volume of the active device, when a different device was picked.
pub fn volume_for_manual_pick<H: AudioHal>(hal: &H, devices: &[OutputDevice], picked_uid: &str) -> (r:
    Option<u8>)
    ensures
        hal.obeys_model() ==> (r == spec_manual_pick_volume(*hal, devices@, picked_uid@)),
{
    proof {
        lemma_first_where(devices@, active_pred());
    }
    let k = match find_active(devices) {
        Some(k) => k,
        None => {
            return None;
        },
    };
    let active = devices[k].uid.as_str();
    if str_eq(active, picked_uid) {
        return None;
    }
    hal.output_volume_percent(active)
}

/// A pick overrides the configured preferred output when there is one and
/// the pick is another device.
pub fn selection_overrides_preferred(preferred_uid: Option<&str>, selected_uid: &str) -> (r: bool)
    ensures
        r == (preferred_uid matches Some(p) && p@ != selected_uid@),
{
    match preferred_uid {
        Some(p) => !str_eq(p, selected_uid),
        None => false,
    }
}

/// What to do about the daemon before a manual pick is applied.
#[derive(Debug)]
pub enum OverridePauseStep {
    /// Go ahead without pausing.
    Continue,
    /// Refuse: the pick needs confirmation that this run cannot ask for.
    Refuse(String),
    /// Ask the user (with this notice printed first) before pausing.
    Confirm { notice: String },
}

pub open spec fn refuse_message(label: Seq<char>) -> Seq<char> {
    "picker selected `"@ + label
        + "` while the daemon is running; rerun interactively to confirm pausing auto-routing, or run `rusty-jack pause` first"@
}

pub open spec fn pause_notice(label: Seq<char>) -> Seq<char> {
    "The daemon is running. Picking "@ + label
        + " instead of the configured preferred output will pause auto-routing until you run `rusty-jack resume`."@
}

/// Overriding the preferred output while the daemon runs pauses
/// auto-routing; that needs the user's confirmation.
pub fn override_pause_step(
    json: bool,
    interactive: bool,
    preferred_uid: Option<&str>,
    device: &OutputDevice,
    daemon_running: bool,
) -> (r: OverridePauseStep)
    ensures
        !(preferred_uid matches Some(p) && p@ != device.uid@) || !daemon_running ==> r is Continue,
        (preferred_uid matches Some(p) && p@ != device.uid@) && daemon_running && (json
            || !interactive) ==> (r matches OverridePauseStep::Refuse(m) && m@ == refuse_message(
            device.spec_friendly_label(),
        )),
        (preferred_uid matches Some(p) && p@ != device.uid@) && daemon_running && !json
            && interactive ==> (r matches OverridePauseStep::Confirm { notice: n } && n@
            == pause_notice(device.spec_friendly_label())),
{
    if !selection_overrides_preferred(preferred_uid, device.uid.as_str()) {
        return OverridePauseStep::Continue;
    }
    if !daemon_running {
        return OverridePauseStep::Continue;
    }
    let label = device.friendly_label();
    if json || !interactive {
        return OverridePauseStep::Refuse(
            concat3(
                "picker selected `",
                label.as_str(),
                "` while the daemon is running; rerun interactively to confirm pausing auto-routing, or run `rusty-jack pause` first",
            ),
        );
    }
    OverridePauseStep::Confirm {
        notice: concat3(
            "The daemon is running. Picking ",
            label.as_str(),
            " instead of the configured preferred output will pause auto-routing until you run `rusty-jack resume`.",
        ),
    }
}

/// The reason recorded when the user agrees to pause for a manual pick.
pub fn override_pause_reason(device: &OutputDevice, preferred_uid: Option<&str>) -> (r: DaemonPauseReason)
    ensures
        r matches DaemonPauseReason::PickerOverride { selected_uid: s, selected_label: l, preferred_uid: p }
            && s@ == device.uid@ && l@ == device.spec_friendly_label() && opt_seq(p)
            == crate::output_device::opt_str_view(preferred_uid),
{
    let preferred = match preferred_uid {
        Some(p) => Some(owned(p)),
        None => None,
    };
    DaemonPauseReason::picker_override(device.uid.clone(), device.friendly_label(), preferred)
}

/// The pause reason to report after pausing: kept when the daemon was paused,
/// dropped when it was not installed.
pub fn pause_reason_after(result: &PauseResult, reason: DaemonPauseReason) -> (r: Option<
    DaemonPauseReason,
>)
    ensures
        result is Paused ==> r == Some(reason),
        result is NotInstalled ==> r is None,
{
    match result {
        PauseResult::Paused { .. } => Some(reason),
        PauseResult::NotInstalled { .. } => None,
    }
}

/// The volume a pick gets: the configured volume for the preferred device,
/// else the volume remembered for the picked device, else (`manual`) the
/// volume the previously active device had.
pub open spec fn spec_pick_volume(
    preferred_pick: Option<u8>,
    remembered: Option<u8>,
    manual: Option<u8>,
) -> Option<u8> {
    if preferred_pick is Some {
        preferred_pick
    } else if remembered is Some {
        remembered
    } else {
        manual
    }
}
/// The routing target of a pick of `d`.
pub open spec fn pick_target(d: OutputDevice) -> RoutingTarget {
    RoutingTarget { uid: d.uid, name: d.name, monitor_name: d.monitor_name, source: RoutingTargetSource::Picker }
}

/// The switch options of a pick of `uid`: the system-output setting of the config,
/// and the preferred volume, the remembered volume or the manual-pick volume.
pub open spec fn pick_switch_options<H: AudioHal>(
    hal: H,
    devices: Seq<OutputDevice>,
    config: Option<&Config>,
    entries: Seq<(String, u8)>,
    uid: Seq<char>,
) -> SwitchOptions {
    SwitchOptions {
        also_set_system_output: match config {
            Some(c) => c.also_set_system_output,
            None => true,
        },
        volume: spec_pick_volume(
            volume_for_preferred_pick_spec(config, devices, uid),
            spec_remembered(entries, uid),
            spec_manual_pick_volume(hal, devices, uid),
        ),
    }
}

/// A pick of a device other than the preferred output restores the volume
/// remembered for that device: `v` right after `v` was recorded for its UID,
/// and in general the remembered volume whatever the output being left
/// reports (the same for every HAL state). Only when nothing is remembered for
/// the pick does it take the volume of the output being left. A pick of the
/// preferred output takes the configured volume.
pub proof fn law_pick_volume_prefers_memory<H: AudioHal>(
    hal: H,
    other_hal: H,
    devices: Seq<OutputDevice>,
    config: Option<&Config>,
    entries: Seq<(String, u8)>,
    uid: Seq<char>,
    entry: (String, u8),
)
    ensures
        volume_for_preferred_pick_spec(config, devices, uid) is Some ==> pick_switch_options(
            hal,
            devices,
            config,
            entries,
            uid,
        ).volume == volume_for_preferred_pick_spec(config, devices, uid),
        volume_for_preferred_pick_spec(config, devices, uid) is None ==> {
            &&& (entry.0@ == uid ==> pick_switch_options(hal, devices, config, entries.push(entry), uid).volume
                == Some(entry.1))
            &&& (spec_remembered(entries, uid) is Some ==> pick_switch_options(hal, devices, config, entries, uid).volume
                == spec_remembered(entries, uid) && pick_switch_options(
                other_hal,
                devices,
                config,
                entries,
                uid,
            ).volume == pick_switch_options(hal, devices, config, entries, uid).volume)
            &&& (spec_remembered(entries, uid) is None ==> pick_switch_options(hal, devices, config, entries, uid).volume
                == spec_manual_pick_volume(hal, devices, uid))
        },
{
    crate::apply::law_remember_then_recall(entries, entry, uid);
}

/// Apply a pick of `devices[selection]`: choose its volume, remember the
/// volume of the non-preferred output being left, and switch.
pub fn apply_pick<H: AudioHal>(
    hal: &mut H,
    devices: &[OutputDevice],
    config: Option<&Config>,
    memory: &mut VolumeMemory,
    selection: usize,
    preferred_uid: Option<&str>,
) -> (r: Result<ApplyResult, RustyJackError>)
    requires
        selection < devices@.len(),
    ensures
        final(hal).obeys_model() == old(hal).obeys_model(),
        old(hal).obeys_model() ==> (r matches Ok(res) ==> switch_outcome(
            *old(hal),
            *final(hal),
            RoutingTarget {
                uid: devices@[selection as int].uid,
                name: devices@[selection as int].name,
                monitor_name: devices@[selection as int].monitor_name,
                source: RoutingTargetSource::Picker,
            },
            pick_switch_options(
                *old(hal),
                devices@,
                config,
                old(memory).entries@,
                devices@[selection as int].uid@,
            ),
            res,
        )),
        old(hal).obeys_model() ==> (remembers_on_leave(
            old(memory).entries@,
            final(memory).entries@,
            devices@,
            crate::output_device::opt_str_view(preferred_uid),
            devices@[selection as int].uid@,
            |u: Seq<char>| old(hal).reported_volume(u),
        )),
        old(hal).obeys_model() ==> (r is Err == switch_fails(*old(hal), pick_target(devices@[selection as int]), pick_switch_options(
            *old(hal),
            devices@,
            config,
            old(memory).entries@,
            devices@[selection as int].uid@,
        ))),
{
    let uid = devices[selection].uid.as_str();
    let also_set_system_output = match config {
        Some(c) => c.also_set_system_output,
        None => true,
    };
    let preferred_pick = volume_for_preferred_pick(config, devices, uid);
    let remembered = memory.remembered_volume(uid);
    let volume = if preferred_pick.is_some() {
        preferred_pick
    } else if remembered.is_some() {
        remembered
    } else {
        volume_for_manual_pick(&*hal, devices, uid)
    };
    remember_active_non_preferred(&*hal, devices, preferred_uid, uid, memory);
    pick_and_switch(hal, devices, selection, also_set_system_output, volume)
}

/// What `volume_for_preferred_pick` returns.
pub open spec fn volume_for_preferred_pick_spec(config: Option<&Config>, devices: Seq<OutputDevice>, picked: Seq<char>) -> Option<u8> {
    match config {
        Some(c) => if c.volume is Some && crate::device_select::spec_resolves_to(
            crate::device_select::DeviceSelector { uid: c.spec_preferred_uid() },
            devices,
        ) == Some(picked) {
            c.volume
        } else {
            None
        },
        None => None,
    }
}

/// Result of a scripted picker run.
#[derive(Debug)]
pub enum PickerRunOutcome {
    Cancelled,
    /// The daemon runs and the pick overrides the preferred output: ask the
    /// user (after printing `notice`) before applying `selection`.
    NeedsConfirmation { selection: usize, notice: String },
    Switched { result: ApplyResult },
}

/// The configured preferred output (resolved against `devices`) is not device `i`.
pub open spec fn picks_non_preferred(config: Option<&Config>, devices: Seq<OutputDevice>, i: int) -> bool {
    match config {
        Some(c) => spec_resolves_to(DeviceSelector { uid: c.spec_preferred_uid() }, devices) matches Some(
            p,
        ) && p != devices[i].uid@,
        None => false,
    }
}

/// The UID a switch result names.
pub open spec fn applied_to(result: ApplyResult) -> Seq<char> {
    match result {
        ApplyResult::Switched { to_uid, .. } => to_uid@,
        ApplyResult::NoChange { uid, .. } => uid@,
    }
}

/// A picker run with `--index` (or JSON output): pick, check the daemon
/// override, and switch. The interactive list is the terminal front end's.
pub fn run_picker<H: AudioHal>(
    hal: &mut H,
    json: bool,
    interactive: bool,
    index: Option<usize>,
    config: Option<&Config>,
    memory: &mut VolumeMemory,
    daemon_running: bool,
) -> (r: Result<PickerRunOutcome, RustyJackError>)
    ensures
        final(hal).obeys_model() == old(hal).obeys_model(),
        index is None ==> r is Err,
        !(r matches Ok(PickerRunOutcome::Cancelled)),
        old(hal).obeys_model() ==> (old(hal).list_fails() ==> r is Err && *final(hal) == *old(hal)),
        old(hal).obeys_model() ==> (!old(hal).list_fails() ==> match spec_pick(old(hal).model_devices(), index) {
            Err(m) => r matches Err(RustyJackError::Config(e)) && e@ == m,
            Ok(PickSelection::Cancelled) => r matches Ok(PickerRunOutcome::Cancelled),
            Ok(PickSelection::Selected(i)) => {
                let devices = old(hal).model_devices();
                if daemon_running && picks_non_preferred(config, devices, i as int) {
                    &&& *final(hal) == *old(hal)
                    &&& if json || !interactive {
                        r matches Err(RustyJackError::Config(m)) && m@ == refuse_message(
                            devices[i as int].spec_friendly_label(),
                        )
                    } else {
                        r matches Ok(PickerRunOutcome::NeedsConfirmation { selection, notice })
                            && selection == i && notice@ == pause_notice(
                            devices[i as int].spec_friendly_label(),
                        )
                    }
                } else {
                    &&& r is Err == switch_fails(
                        *old(hal),
                        pick_target(devices[i as int]),
                        pick_switch_options(*old(hal), devices, config, old(memory).entries@, devices[i as int].uid@),
                    )
                    &&& r matches Ok(PickerRunOutcome::Switched { result }) ==> applied_to(result)
                        == devices[i as int].uid@ && switch_outcome(
                        *old(hal),
                        *final(hal),
                        pick_target(devices[i as int]),
                        pick_switch_options(*old(hal), devices, config, old(memory).entries@, devices[i as int].uid@),
                        result,
                    )
                }
            },
        }),
{
    let list = hal.list_outputs()?;
    let devices = &list.devices;
    let preferred = preferred_uid_from_config(config, devices);
    let preferred_uid = match &preferred {
        Some(p) => Some(p.as_str()),
        None => None,
    };
    let notes: Vec<(String, String)> = Vec::new();
    let selection = match pick_device_index_with_notes(devices, index, preferred_uid, &notes)? {
        PickSelection::Cancelled => {
            return Ok(PickerRunOutcome::Cancelled);
        },
        PickSelection::Selected(i) => i,
    };
    match override_pause_step(json, interactive, preferred_uid, &devices[selection], daemon_running) {
        OverridePauseStep::Continue => {},
        OverridePauseStep::Refuse(m) => {
            return Err(RustyJackError::Config(m));
        },
        OverridePauseStep::Confirm { notice } => {
            return Ok(PickerRunOutcome::NeedsConfirmation { selection, notice });
        },
    }
    let result = apply_pick(hal, devices, config, memory, selection, preferred_uid)?;
    Ok(PickerRunOutcome::Switched { result })
}

} // verus!
