//! Output device picking: row labels, index checks, and the key handling of the
//! interactive picker.
use crate::apply::{switch_fails, switch_output, switch_outcome, ApplyResult, SwitchOptions};
use crate::config::Config;
use crate::device_select::{resolve_device_selector, spec_resolves_to, DeviceSelector};
use crate::error::RustyJackError;
use crate::hal::AudioHal;
use crate::list_fmt::{ANSI_CYAN, ANSI_DIM, ANSI_GREEN, ANSI_RESET};
use crate::output_device::{
    clone_opt_string, find_uid, first_where, index_of_uid, lemma_first_where, lemma_first_where_at,
    lemma_index_of_uid, opt_str_view, OutputDevice,
};
use crate::policy::{opt_seq, RoutingTarget, RoutingTargetSource};
use crate::text::{concat2, concat3, decimal, owned, push_line, str_eq, texts, trim, trim_str, u64_to_text};
use vstd::prelude::*;

verus! {

/// Outcome of an interactive or scripted device pick.
#[derive(Debug, Clone, Copy, PartialEq, Eq, Structural)]
pub enum PickSelection {
    Selected(usize),
    Cancelled,
}

/// JSON result when the user cancels the interactive picker.
#[derive(Debug)]
pub struct PickerCancelled {
    pub status: &'static str,
}

impl PickerCancelled {
    pub fn new() -> (r: PickerCancelled)
        ensures
            r.status@ == "cancelled"@,
    {
        PickerCancelled { status: "cancelled" }
    }
}

impl Default for PickerCancelled {
    fn default() -> (r: PickerCancelled)
        ensures
            r.status@ == "cancelled"@,
    {
        PickerCancelled::new()
    }
}

/// Title line of the interactive picker.
pub const PICKER_PROMPT: &'static str = "Select output device (↑↓, Enter, p preferred, Esc to cancel)  (> active, * preferred, dim = not routable)";

/// Seconds between refreshes of the per-device notes while the picker is open.
pub const PICKER_REFRESH_INTERVAL_MS: u64 = 2000;

/// The configured preferred device UID, when it is connected.
pub fn preferred_uid_from_config(config: Option<&Config>, devices: &[OutputDevice]) -> (r: Option<
    String,
>)
    ensures
        opt_seq(r) == match config {
            Some(c) => spec_resolves_to(DeviceSelector { uid: c.spec_preferred_uid() }, devices@),
            None => None,
        },
{
    let config = match config {
        Some(c) => c,
        None => {
            return None;
        },
    };
    match resolve_device_selector(&config.preferred_selector(), devices) {
        Ok(uid) => Some(uid),
        Err(_) => None,
    }
}

pub open spec fn spec_picker_prefix(active: bool, preferred: bool) -> Seq<char> {
    if active && preferred {
        ">* "@
    } else if active {
        ">  "@
    } else if preferred {
        "*  "@
    } else {
        "   "@
    }
}

fn picker_prefix(active: bool, preferred: bool) -> (r: &'static str)
    ensures
        r@ == spec_picker_prefix(active, preferred),
{
    if active && preferred {
        ">* "
    } else if active {
        ">  "
    } else if preferred {
        "*  "
    } else {
        "   "
    }
}

pub open spec fn spec_reason_of(d: OutputDevice) -> Option<Seq<char>> {
    crate::output_device::spec_non_selectable_reason(d.uid@, d.name@, d.transport)
}

pub open spec fn spec_picker_body(d: OutputDevice, preferred: bool) -> Seq<char> {
    spec_picker_prefix(d.is_active, preferred) + d.spec_friendly_label() + " — "@
        + d.transport.spec_label() + match spec_reason_of(d) {
        Some(reason) => " — "@ + reason,
        None => Seq::<char>::empty(),
    }
}

pub open spec fn spec_colorize_picker(text: Seq<char>, d: OutputDevice, preferred: bool, use_color: bool) -> Seq<char> {
    if !use_color {
        text
    } else if !d.spec_selectable() {
        ANSI_DIM@ + text + ANSI_RESET@
    } else if d.is_active {
        ANSI_GREEN@ + text + ANSI_RESET@
    } else if preferred {
        ANSI_CYAN@ + text + ANSI_RESET@
    } else {
        text
    }
}

pub open spec fn spec_picker_label(d: OutputDevice, preferred_uid: Option<Seq<char>>, use_color: bool) -> Seq<char> {
    let preferred = preferred_uid == Some(d.uid@);
    spec_colorize_picker(spec_picker_body(d, preferred), d, preferred, use_color)
}

/// A picker row: active and preferred markers, label, transport, and why the
/// device cannot be routed to; colored when asked.
pub fn format_picker_label_with_options(
    device: &OutputDevice,
    preferred_uid: Option<&str>,
    use_color: bool,
) -> (r: String)
    ensures
        r@ == spec_picker_label(*device, opt_str_view(preferred_uid), use_color),
{
    let preferred = match preferred_uid {
        Some(p) => str_eq(p, device.uid.as_str()),
        None => false,
    };
    let mut body = concat3(
        picker_prefix(device.is_active, preferred),
        device.friendly_label().as_str(),
        " — ",
    );
    body.append(device.transport.label());
    if let Some(reason) = device.non_selectable_reason() {
        body.append(" — ");
        body.append(reason);
    }
    assert(body@ =~= spec_picker_body(*device, preferred));
    if !use_color {
        body
    } else if !device.is_selectable() {
        concat3(ANSI_DIM, body.as_str(), ANSI_RESET)
    } else if device.is_active {
        concat3(ANSI_GREEN, body.as_str(), ANSI_RESET)
    } else if preferred {
        concat3(ANSI_CYAN, body.as_str(), ANSI_RESET)
    } else {
        body
    }
}

/// A picker row without preferred marker or color.
pub fn format_picker_label(device: &OutputDevice) -> (r: String)
    ensures
        r@ == spec_picker_label(*device, None, false),
{
    format_picker_label_with_options(device, None, false)
}

pub open spec fn spec_unroutable_message(d: OutputDevice) -> Seq<char> {
    d.spec_friendly_label() + " — "@ + match spec_reason_of(d) {
        Some(reason) => reason,
        None => "not a routable output"@,
    }
}

fn reason_text(device: &OutputDevice) -> (r: &'static str)
    ensures
        r@ == match spec_reason_of(*device) {
            Some(reason) => reason,
            None => "not a routable output"@,
        },
{
    match device.non_selectable_reason() {
        Some(reason) => reason,
        None => "not a routable output",
    }
}

/// A device can be picked only when it is routable.
pub fn ensure_selectable(device: &OutputDevice) -> (r: Result<(), RustyJackError>)
    ensures
        device.spec_selectable() <==> r is Ok,
        r matches Err(RustyJackError::Config(m)) ==> m@ == spec_unroutable_message(*device),
        r is Err ==> r matches Err(RustyJackError::Config(_)),
{
    if device.is_selectable() {
        return Ok(());
    }
    Err(RustyJackError::Config(concat3(device.friendly_label().as_str(), " — ", reason_text(device))))
}

pub open spec fn active_selectable_pred() -> spec_fn(OutputDevice) -> bool {
    |d: OutputDevice| d.is_active && d.spec_selectable()
}

pub open spec fn selectable_pred() -> spec_fn(OutputDevice) -> bool {
    |d: OutputDevice| d.spec_selectable()
}

pub open spec fn spec_default_picker_index(devices: Seq<OutputDevice>) -> int {
    match first_where(devices, active_selectable_pred()) {
        Some(k) => k,
        None => match first_where(devices, selectable_pred()) {
            Some(k) => k,
            None => 0,
        },
    }
}

fn first_matching(devices: &[OutputDevice], need_active: bool) -> (r: Option<usize>)
    ensures
        ({
            let p = if need_active {
                active_selectable_pred()
            } else {
                selectable_pred()
            };
            match r {
                Some(k) => first_where(devices@, p) == Some(k as int),
                None => first_where(devices@, p) is None,
            }
        }),
{
    let ghost p = if need_active {
        active_selectable_pred()
    } else {
        selectable_pred()
    };
    let mut i: usize = 0;
    while i < devices.len()
        invariant
            i <= devices@.len(),
            p == if need_active {
                active_selectable_pred()
            } else {
                selectable_pred()
            },
            forall|j: int| 0 <= j < i ==> !p(devices@[j]),
        decreases devices@.len() - i,
    {
        if (!need_active || devices[i].is_active) && devices[i].is_selectable() {
            proof {
                lemma_first_where_at(devices@, p, i as int);
            }
            return Some(i);
        }
        i = i + 1;
    }
    proof {
        lemma_first_where(devices@, p);
    }
    None
}

/// Row the interactive picker starts on: the active routable device, else the
/// first routable one, else the first row.
pub fn default_picker_index(devices: &[OutputDevice]) -> (r: usize)
    ensures
        r == spec_default_picker_index(devices@),
{
    match first_matching(devices, true) {
        Some(k) => k,
        None => match first_matching(devices, false) {
            Some(k) => k,
            None => 0,
        },
    }
}

/// Row of the preferred device, when one is named and listed.
pub fn preferred_picker_index(devices: &[OutputDevice], preferred_uid: Option<&str>) -> (r: Option<
    usize,
>)
    ensures
        match preferred_uid {
            None => r is None,
            Some(p) => match index_of_uid(devices@, p@) {
                Some(k) => r == Some(k as usize),
                None => r is None,
            },
        },
{
    let p = match preferred_uid {
        Some(p) => p,
        None => {
            return None;
        },
    };
    proof {
        lemma_index_of_uid(devices@, p@);
    }
    find_uid(devices, p)
}

pub open spec fn spec_out_of_range(index: usize, len: nat) -> Seq<char> {
    "device index "@ + decimal(index as nat) + " out of range (0–"@ + decimal((len - 1) as nat) + ")"@
}

pub open spec fn no_tty_message() -> Seq<char> {
    "interactive picker requires a TTY — pass --index or redirect from a terminal"@
}

/// What a pick gives without an interactive terminal: the indexed device when
/// it is in range and routable.
pub open spec fn spec_pick(devices: Seq<OutputDevice>, index: Option<usize>) -> Result<PickSelection, Seq<char>> {
    if devices.len() == 0 {
        Err("no output devices available to pick"@)
    } else {
        match index {
            Some(i) => if i >= devices.len() {
                Err(spec_out_of_range(i, devices.len()))
            } else if !devices[i as int].spec_selectable() {
                Err(spec_unroutable_message(devices[i as int]))
            } else {
                Ok(PickSelection::Selected(i))
            },
            None => Err(no_tty_message()),
        }
    }
}

pub open spec fn config_error_is(r: Result<PickSelection, RustyJackError>, s: Result<PickSelection, Seq<char>>) -> bool {
    match (r, s) {
        (Ok(a), Ok(b)) => a == b,
        (Err(RustyJackError::Config(m)), Err(t)) => m@ == t,
        _ => false,
    }
}

/// Pick by `index` (the `list` IDX column). Without an index this refuses: the
/// interactive picker runs only on a terminal, outside this function.
pub fn pick_device_index(devices: &[OutputDevice], index: Option<usize>, preferred_uid: Option<&str>) -> (r:
    Result<PickSelection, RustyJackError>)
    ensures
        config_error_is(r, spec_pick(devices@, index)),
{
    if devices.len() == 0 {
        return Err(RustyJackError::Config(owned("no output devices available to pick")));
    }
    match index {
        Some(i) => {
            if i >= devices.len() {
                let mut m = concat3("device index ", u64_to_text(i as u64).as_str(), " out of range (0–");
                m.append(u64_to_text((devices.len() - 1) as u64).as_str());
                m.append(")");
                return Err(RustyJackError::Config(m));
            }
            match ensure_selectable(&devices[i]) {
                Ok(()) => Ok(PickSelection::Selected(i)),
                Err(e) => Err(e),
            }
        },
        None => Err(
            RustyJackError::Config(
                owned("interactive picker requires a TTY — pass --index or redirect from a terminal"),
            ),
        ),
    }
}

/// [`pick_device_index`] for a picker that shows per-device notes.
pub fn pick_device_index_with_notes(
    devices: &[OutputDevice],
    index: Option<usize>,
    preferred_uid: Option<&str>,
    notes: &[(String, String)],
) -> (r: Result<PickSelection, RustyJackError>)
    ensures
        config_error_is(r, spec_pick(devices@, index)),
{
    pick_device_index(devices, index, preferred_uid)
}

pub open spec fn note_view(notes: Seq<(String, String)>) -> Seq<(Seq<char>, Seq<char>)> {
    notes.map_values(|n: (String, String)| (n.0@, n.1@))
}

/// The note given for `uid` (the first one).
pub open spec fn spec_note_for(notes: Seq<(Seq<char>, Seq<char>)>, uid: Seq<char>) -> Option<Seq<char>>
    decreases notes.len(),
{
    if notes.len() == 0 {
        None
    } else if notes[0].0 == uid {
        Some(notes[0].1)
    } else {
        spec_note_for(notes.drop_first(), uid)
    }
}

/// The note shown beside device `uid`.
pub fn note_for_uid<'a>(notes: &'a [(String, String)], uid: &str) -> (r: Option<&'a str>)
    ensures
        opt_str_view(r) == spec_note_for(note_view(notes@), uid@),
{
    let ghost nv = note_view(notes@);
    let mut i: usize = 0;
    assert(nv.subrange(0, nv.len() as int) =~= nv);
    while i < notes.len()
        invariant
            i <= notes@.len(),
            nv == note_view(notes@),
            spec_note_for(nv, uid@) == spec_note_for(nv.subrange(i as int, nv.len() as int), uid@),
        decreases notes@.len() - i,
    {
        assert(nv.subrange(i as int, nv.len() as int).drop_first() =~= nv.subrange(i + 1, nv.len() as int));
        if str_eq(notes[i].0.as_str(), uid) {
            return Some(notes[i].1.as_str());
        }
        i = i + 1;
    }
    None
}

pub open spec fn spec_append_note(label: Seq<char>, note: Option<Seq<char>>) -> Seq<char> {
    match note {
        Some(n) => if trim(n).len() > 0 {
            label + " — "@ + n
        } else {
            label
        },
        None => label,
    }
}

/// `label — note`, unless the note is missing or blank.
pub fn append_picker_note(label: String, note: Option<&str>) -> (r: String)
    ensures
        r@ == spec_append_note(label@, opt_str_view(note)),
{
    let note = match note {
        Some(n) => n,
        None => {
            return label;
        },
    };
    if trim_str(note).unicode_len() == 0 {
        return label;
    }
    let mut label = label;
    label.append(" — ");
    label.append(note);
    label
}

/// The configured volume when the picked device is the configured preferred one.
pub fn volume_for_preferred_pick(config: Option<&Config>, devices: &[OutputDevice], picked_uid: &str) -> (r:
    Option<u8>)
    ensures
        r == match config {
            Some(c) => if c.volume is Some && spec_resolves_to(
                DeviceSelector { uid: c.spec_preferred_uid() },
                devices@,
            ) == Some(picked_uid@) {
                c.volume
            } else {
                None
            },
            None => None,
        },
{
    let c = match config {
        Some(c) => c,
        None => {
            return None;
        },
    };
    let volume = match c.volume {
        Some(v) => v,
        None => {
            return None;
        },
    };
    match preferred_uid_from_config(Some(c), devices) {
        Some(p) => if str_eq(p.as_str(), picked_uid) {
            Some(volume)
        } else {
            None
        },
        None => None,
    }
}

/// Switch to the device at `index` of `devices`, as a picker choice.
pub fn pick_and_switch<H: AudioHal>(
    hal: &mut H,
    devices: &[OutputDevice],
    index: usize,
    also_set_system_output: bool,
    volume: Option<u8>,
) -> (r: Result<ApplyResult, RustyJackError>)
    ensures
        final(hal).obeys_model() == old(hal).obeys_model(),
        index >= devices@.len() ==> (r matches Err(RustyJackError::Config(m)) && m@ == "device index "@
            + decimal(index as nat) + " out of range"@),
        old(hal).obeys_model() ==> (index < devices@.len() ==> (r matches Ok(res) ==> switch_outcome(
            *old(hal),
            *final(hal),
            RoutingTarget {
                uid: devices@[index as int].uid,
                name: devices@[index as int].name,
                monitor_name: devices@[index as int].monitor_name,
                source: RoutingTargetSource::Picker,
            },
            SwitchOptions { also_set_system_output, volume },
            res,
        ))),
        old(hal).obeys_model() ==> (index < devices@.len() ==> r is Err == switch_fails(
            *old(hal),
            RoutingTarget {
                uid: devices@[index as int].uid,
                name: devices@[index as int].name,
                monitor_name: devices@[index as int].monitor_name,
                source: RoutingTargetSource::Picker,
            },
            SwitchOptions { also_set_system_output, volume },
        )),
{
    if index >= devices.len() {
        return Err(
            RustyJackError::Config(
                concat3("device index ", u64_to_text(index as u64).as_str(), " out of range"),
            ),
        );
    }
    let device = &devices[index];
    let target = RoutingTarget {
        uid: device.uid.clone(),
        name: device.name.clone(),
        monitor_name: clone_opt_string(&device.monitor_name),
        source: RoutingTargetSource::Picker,
    };
    switch_output(hal, &target, &SwitchOptions { also_set_system_output, volume })
}


/// A key press the interactive picker reacts to.
#[derive(Debug, Clone, Copy, PartialEq, Eq, Structural)]
pub enum PickerKey {
    /// Esc or `q`.
    Cancel,
    /// `p` or `P`: jump to the preferred device.
    Preferred,
    Up,
    Down,
    Enter,
    /// The terminal was resized.
    Resize,
    Other,
}

/// Cursor row and status message of the interactive picker.
#[derive(Debug)]
pub struct PickerState {
    pub selected: usize,
    pub message: Option<String>,
}

/// What the picker does after a key.
#[derive(Debug, Clone, Copy, PartialEq, Eq, Structural)]
pub enum PickerOutcome {
    /// Keep running; redraw the screen when asked.
    Stay { redraw: bool },
    Done(PickSelection),
}

pub open spec fn preferred_unroutable_message(d: OutputDevice) -> Seq<char> {
    "Cannot switch to preferred device "@ + spec_unroutable_message(d) + "."@
}

pub open spec fn enter_unroutable_message(d: OutputDevice) -> Seq<char> {
    "Cannot switch to "@ + spec_unroutable_message(d) + ". Pick a speaker, monitor, or dock output."@
}

/// Handle one key of the interactive picker.
pub fn picker_key_step(
    devices: &[OutputDevice],
    preferred_uid: Option<&str>,
    state: &mut PickerState,
    key: PickerKey,
) -> (r: PickerOutcome)
    requires
        old(state).selected < devices@.len(),
    ensures
        final(state).selected < devices@.len(),
        key == PickerKey::Cancel ==> r == PickerOutcome::Done(PickSelection::Cancelled),
        key == PickerKey::Up ==> final(state).selected == if old(state).selected == 0 {
            0
        } else {
            (old(state).selected - 1) as usize
        } && final(state).message is None && r == (PickerOutcome::Stay { redraw: true }),
        key == PickerKey::Down ==> final(state).selected == if old(state).selected + 1
            < devices@.len() {
            (old(state).selected + 1) as usize
        } else {
            (devices@.len() - 1) as usize
        } && final(state).message is None && r == (PickerOutcome::Stay { redraw: true }),
        key == PickerKey::Enter ==> {
            let d = devices@[old(state).selected as int];
            &&& final(state).selected == old(state).selected
            &&& d.spec_selectable() ==> r == PickerOutcome::Done(
                PickSelection::Selected(old(state).selected),
            )
            &&& !d.spec_selectable() ==> r == (PickerOutcome::Stay { redraw: true })
                && opt_seq(final(state).message) == Some(enter_unroutable_message(d))
        },
        key == PickerKey::Preferred ==> match (match preferred_uid {
            Some(p) => index_of_uid(devices@, p@),
            None => None,
        }) {
            Some(k) => final(state).selected == k && if devices@[k].spec_selectable() {
                r == PickerOutcome::Done(PickSelection::Selected(k as usize))
            } else {
                r == (PickerOutcome::Stay { redraw: true }) && opt_seq(final(state).message) == Some(
                    preferred_unroutable_message(devices@[k]),
                )
            },
            None => final(state).selected == old(state).selected && r == (PickerOutcome::Stay {
                redraw: true,
            }) && opt_seq(final(state).message) == Some(
                "No preferred device is configured and available."@,
            ),
        },
        key == PickerKey::Resize ==> r == (PickerOutcome::Stay { redraw: true })
            && final(state).selected == old(state).selected,
        key == PickerKey::Other ==> r == (PickerOutcome::Stay { redraw: false })
            && final(state).selected == old(state).selected,
{
    match key {
        PickerKey::Cancel => PickerOutcome::Done(PickSelection::Cancelled),
        PickerKey::Preferred => {
            proof {
                if let Some(p) = preferred_uid {
                    lemma_index_of_uid(devices@, p@);
                }
            }
            match preferred_picker_index(devices, preferred_uid) {
                Some(index) => {
                    state.selected = index;
                    let device = &devices[index];
                    if device.is_selectable() {
                        return PickerOutcome::Done(PickSelection::Selected(index));
                    }
                    let mut m = concat3(
                        "Cannot switch to preferred device ",
                        device.friendly_label().as_str(),
                        " — ",
                    );
                    m.append(reason_text(device));
                    m.append(".");
                    state.message = Some(m);
                    PickerOutcome::Stay { redraw: true }
                },
                None => {
                    state.message = Some(owned("No preferred device is configured and available."));
                    PickerOutcome::Stay { redraw: true }
                },
            }
        },
        PickerKey::Up => {
            if state.selected > 0 {
                state.selected = state.selected - 1;
            }
            state.message = None;
            PickerOutcome::Stay { redraw: true }
        },
        PickerKey::Down => {
            if state.selected < devices.len() - 1 {
                state.selected = state.selected + 1;
            } else {
                state.selected = devices.len() - 1;
            }
            state.message = None;
            PickerOutcome::Stay { redraw: true }
        },
        PickerKey::Enter => {
            let device = &devices[state.selected];
            if device.is_selectable() {
                return PickerOutcome::Done(PickSelection::Selected(state.selected));
            }
            let mut m = concat3("Cannot switch to ", device.friendly_label().as_str(), " — ");
            m.append(reason_text(device));
            m.append(". Pick a speaker, monitor, or dock output.");
            state.message = Some(m);
            PickerOutcome::Stay { redraw: true }
        },
        PickerKey::Resize => PickerOutcome::Stay { redraw: true },
        PickerKey::Other => PickerOutcome::Stay { redraw: false },
    }
}

pub open spec fn spec_picker_row(
    devices: Seq<OutputDevice>,
    preferred_uid: Option<Seq<char>>,
    notes: Seq<(Seq<char>, Seq<char>)>,
    selected: int,
    use_color: bool,
    i: int,
) -> Seq<char> {
    (if i == selected {
        "> "@
    } else {
        "  "@
    }) + spec_append_note(
        spec_picker_label(devices[i], preferred_uid, use_color),
        spec_note_for(notes, devices[i].uid@),
    )
}

/// The lines of the interactive picker screen.
pub open spec fn spec_picker_screen(
    devices: Seq<OutputDevice>,
    preferred_uid: Option<Seq<char>>,
    notes: Seq<(Seq<char>, Seq<char>)>,
    selected: int,
    message: Option<Seq<char>>,
    use_color: bool,
) -> Seq<Seq<char>> {
    seq![PICKER_PROMPT@, ""@] + Seq::new(
        devices.len(),
        |i: int| spec_picker_row(devices, preferred_uid, notes, selected, use_color, i),
    ) + match message {
        Some(m) => seq![""@, m],
        None => seq![],
    }
}

/// Lines of the interactive picker screen, top to bottom.
pub fn picker_screen_lines(
    devices: &[OutputDevice],
    preferred_uid: Option<&str>,
    notes: &[(String, String)],
    selected: usize,
    message: Option<&str>,
    use_color: bool,
) -> (r: Vec<String>)
    ensures
        texts(r@) == spec_picker_screen(
            devices@,
            opt_str_view(preferred_uid),
            note_view(notes@),
            selected as int,
            opt_str_view(message),
            use_color,
        ),
{
    let ghost rows = Seq::new(
        devices@.len(),
        |i: int| spec_picker_row(
            devices@,
            opt_str_view(preferred_uid),
            note_view(notes@),
            selected as int,
            use_color,
            i,
        ),
    );
    let mut out: Vec<String> = Vec::new();
    push_line(&mut out, owned(PICKER_PROMPT));
    push_line(&mut out, owned(""));
    let mut i: usize = 0;
    while i < devices.len()
        invariant
            i <= devices@.len(),
            rows == Seq::new(
                devices@.len(),
                |i: int| spec_picker_row(
                    devices@,
                    opt_str_view(preferred_uid),
                    note_view(notes@),
                    selected as int,
                    use_color,
                    i,
                ),
            ),
            texts(out@) == seq![PICKER_PROMPT@, ""@] + rows.take(i as int),
        decreases devices@.len() - i,
    {
        let label = format_picker_label_with_options(&devices[i], preferred_uid, use_color);
        let label = append_picker_note(label, note_for_uid(notes, devices[i].uid.as_str()));
        let cursor = if i == selected {
            "> "
        } else {
            "  "
        };
        push_line(&mut out, concat2(cursor, label.as_str()));
        assert(rows.take(i + 1) =~= rows.take(i as int).push(rows[i as int]));
        i = i + 1;
    }
    assert(rows.take(devices@.len() as int) =~= rows);
    let ghost before = texts(out@);
    if let Some(m) = message {
        push_line(&mut out, owned(""));
        push_line(&mut out, owned(m));
    }
    proof {
        let tail = match opt_str_view(message) {
            Some(m) => seq![""@, m],
            None => seq![],
        };
        assert(texts(out@) =~= before + tail);
    }
    out
}

} // verus!
