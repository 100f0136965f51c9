//! Native-driver passthrough: route planning for the virtual HAL output.
//!
//! Audio captured from the virtual output is rendered on the physical
//! HDMI/DisplayPort device at the configured volume. The gain itself (a float
//! scalar of the volume percent) is applied by the audio engine outside this
//! library; the plan carries the percent.
use crate::config::Config;
use crate::error::RustyJackError;
use crate::hal::AudioHal;
use crate::hdmi_displayport_volume_control::{
    native_driver_info, route_needs_hdmi_displayport_volume_control, spec_native_driver,
    spec_route_needs, RUSTY_JACK_DRIVER_NAME,
};
use crate::output_device::{find_uid, index_of_uid, OutputDevice};
use crate::policy::{select_routing_target, spec_select_routing_target};
use crate::system_default::HalDriverInfo;
use crate::text::{concat2, concat3, owned, str_eq, u64_to_text};
use vstd::prelude::*;

verus! {

/// CoreAudio UID for the Rusty Jack virtual output published by the HAL driver.
pub const RUSTY_JACK_VIRTUAL_OUTPUT_UID: &'static str = "com.the-hcma.rusty-jack.driver.output";

/// Driver stage value while the daemon hosts a passthrough skeleton without live audio I/O.
pub const PASSTHROUGH_SKELETON_DRIVER_STAGE: &'static str = "passthrough-skeleton";

/// Driver stage value once live passthrough audio is wired end to end.
pub const PASSTHROUGH_ACTIVE_DRIVER_STAGE: &'static str = "passthrough-active";

/// Stereo format shared with the HAL driver.
pub const PASSTHROUGH_SAMPLE_RATE_HZ: u32 = 48000;

pub const PASSTHROUGH_CHANNEL_COUNT: usize = 2;

pub const PASSTHROUGH_FRAMES_PER_CHUNK: usize = 512;

/// Whether the passthrough controller is armed for the current route.
#[derive(Debug, Clone, Copy, PartialEq, Eq, Structural)]
pub enum PassthroughMode {
    /// Native driver absent or route does not need HDMI/DP software volume.
    Disabled,
    /// Driver installed and route qualifies; the daemon hosts passthrough.
    Skeleton,
}

/// Target route for the passthrough renderer.
#[derive(Debug)]
pub struct PassthroughPlan {
    pub virtual_output_uid: String,
    pub physical_uid: String,
    pub physical_name: String,
    pub volume_percent: u8,
    pub driver_stage: Option<String>,
}

pub open spec fn opt_view(o: Option<String>) -> Option<Seq<char>> {
    match o {
        Some(s) => Some(s@),
        None => None,
    }
}

/// A plan as plain text and numbers.
pub open spec fn plan_view(p: PassthroughPlan) -> (Seq<char>, Seq<char>, Seq<char>, u8, Option<Seq<char>>) {
    (p.virtual_output_uid@, p.physical_uid@, p.physical_name@, p.volume_percent, opt_view(p.driver_stage))
}

/// The plan for the routing target: only when policy picks a device that
/// needs HDMI/DP software volume and is not the virtual output itself; at the
/// configured volume (100% when unset).
pub open spec fn spec_plan_with_driver(
    config: Config,
    devices: Seq<OutputDevice>,
    driver: HalDriverInfo,
) -> Option<(Seq<char>, Seq<char>, Seq<char>, u8, Option<Seq<char>>)> {
    match spec_select_routing_target(config, devices) {
        Err(_) => None,
        Ok(target) => if !spec_route_needs(devices, target.uid@) {
            None
        } else {
            match index_of_uid(devices, target.uid@) {
                None => None,
                Some(k) => if devices[k].uid@ == RUSTY_JACK_VIRTUAL_OUTPUT_UID@ {
                    None
                } else {
                    Some(
                        (
                            RUSTY_JACK_VIRTUAL_OUTPUT_UID@,
                            devices[k].uid@,
                            devices[k].spec_friendly_label(),
                            match config.volume {
                                Some(v) => v,
                                None => 100u8,
                            },
                            opt_view(driver.stage),
                        ),
                    )
                },
            }
        },
    }
}

fn clone_opt(o: &Option<String>) -> (r: Option<String>)
    ensures
        r == *o,
{
    match o {
        Some(s) => Some(s.clone()),
        None => None,
    }
}

/// Build a passthrough plan given the installed native driver.
pub fn plan_passthrough_with_native_driver(
    config: &Config,
    devices: &[OutputDevice],
    driver: &HalDriverInfo,
) -> (r: Option<PassthroughPlan>)
    ensures
        match r {
            Some(p) => spec_plan_with_driver(*config, devices@, *driver) == Some(plan_view(p)),
            None => spec_plan_with_driver(*config, devices@, *driver) is None,
        },
{
    let target = match select_routing_target(config, devices) {
        Ok(t) => t,
        Err(_) => {
            return None;
        },
    };
    if !route_needs_hdmi_displayport_volume_control(devices, target.uid.as_str()) {
        return None;
    }
    proof {
        crate::output_device::lemma_index_of_uid(devices@, target.uid@);
    }
    let k = match find_uid(devices, target.uid.as_str()) {
        Some(k) => k,
        None => {
            return None;
        },
    };
    let physical = &devices[k];
    if str_eq(physical.uid.as_str(), RUSTY_JACK_VIRTUAL_OUTPUT_UID) {
        return None;
    }
    let volume_percent: u8 = match config.volume {
        Some(v) => v,
        None => 100,
    };
    Some(
        PassthroughPlan {
            virtual_output_uid: owned(RUSTY_JACK_VIRTUAL_OUTPUT_UID),
            physical_uid: physical.uid.clone(),
            physical_name: physical.friendly_label(),
            volume_percent,
            driver_stage: clone_opt(&driver.stage),
        },
    )
}

/// Build a passthrough plan when the native driver is installed and policy
/// targets HDMI/DP.
/// The plan for the routing target with the installed native driver; none without one.
pub open spec fn spec_plan(config: Config, devices: Seq<OutputDevice>, drivers: Seq<HalDriverInfo>) -> Option<
    (Seq<char>, Seq<char>, Seq<char>, u8, Option<Seq<char>>),
> {
    match spec_native_driver(drivers) {
        None => None,
        Some(d) => spec_plan_with_driver(config, devices, d),
    }
}

pub fn plan_passthrough(config: &Config, devices: &[OutputDevice], drivers: &[HalDriverInfo]) -> (r:
    Option<PassthroughPlan>)
    ensures
        opt_plan_view(r) == spec_plan(*config, devices@, drivers@),
{
    match native_driver_info(drivers) {
        Some(driver) => plan_passthrough_with_native_driver(config, devices, &driver),
        None => None,
    }
}

fn same_plan(a: &PassthroughPlan, b: &PassthroughPlan) -> (r: bool)
    ensures
        r == (plan_view(*a) == plan_view(*b)),
{
    let stage_same = match (&a.driver_stage, &b.driver_stage) {
        (Some(x), Some(y)) => str_eq(x.as_str(), y.as_str()),
        (None, None) => true,
        _ => false,
    };
    str_eq(a.virtual_output_uid.as_str(), b.virtual_output_uid.as_str()) && str_eq(
        a.physical_uid.as_str(),
        b.physical_uid.as_str(),
    ) && str_eq(a.physical_name.as_str(), b.physical_name.as_str()) && a.volume_percent
        == b.volume_percent && stage_same
}

pub open spec fn opt_plan_view(p: Option<PassthroughPlan>) -> Option<
    (Seq<char>, Seq<char>, Seq<char>, u8, Option<Seq<char>>),
> {
    match p {
        Some(x) => Some(plan_view(x)),
        None => None,
    }
}

pub open spec fn percent_text(v: u8) -> Seq<char> {
    crate::text::decimal(v as nat)
}

/// The log line for a change of plan (none when nothing changed).
pub open spec fn spec_transition_message(
    previous: Option<PassthroughPlan>,
    next: Option<PassthroughPlan>,
) -> Option<Seq<char>> {
    match (previous, next) {
        (None, Some(n)) => Some(
            "passthrough skeleton: armed for "@ + n.physical_name@ + " at "@ + percent_text(
                n.volume_percent,
            ) + "% (virtual "@ + n.virtual_output_uid@ + " \u{2192} physical "@ + n.physical_uid@
                + ")"@,
        ),
        (Some(p), None) => Some(
            "passthrough skeleton: disarmed (was "@ + p.physical_name@ + " at "@ + percent_text(
                p.volume_percent,
            ) + "%)"@,
        ),
        (Some(p), Some(n)) => if plan_view(p) != plan_view(n) {
            Some(
                "passthrough skeleton: retargeted "@ + p.physical_name@ + " \u{2192} "@
                    + n.physical_name@ + " at "@ + percent_text(n.volume_percent) + "%"@,
            )
        } else {
            None
        },
        (None, None) => None,
    }
}

/// Tracks passthrough lifecycle inside the daemon loop.
#[derive(Debug)]
pub struct PassthroughController {
    active: Option<PassthroughPlan>,
}

impl PassthroughController {
    pub closed spec fn spec_active(&self) -> Option<PassthroughPlan> {
        self.active
    }

    pub fn new() -> (r: Self)
        ensures
            r.spec_active() is None,
    {
        PassthroughController { active: None }
    }

    pub fn mode(&self) -> (r: PassthroughMode)
        ensures
            r == (if self.spec_active() is Some {
                PassthroughMode::Skeleton
            } else {
                PassthroughMode::Disabled
            }),
    {
        if self.active.is_some() {
            PassthroughMode::Skeleton
        } else {
            PassthroughMode::Disabled
        }
    }

    pub fn active_plan(&self) -> (r: Option<&PassthroughPlan>)
        ensures
            match r {
                Some(p) => self.spec_active() == Some(*p),
                None => self.spec_active() is None,
            },
    {
        match &self.active {
            Some(p) => Some(p),
            None => None,
        }
    }

    /// Adopt `plan` (a plan equal to the active one changes nothing) and
    /// return the log line for the transition, if any.
    pub fn apply_plan(&mut self, plan: Option<PassthroughPlan>) -> (r: Option<String>)
        ensures
            opt_plan_view(final(self).spec_active()) == opt_plan_view(plan),
            opt_view(r) == spec_transition_message(old(self).spec_active(), plan),
    {
        let message = match (&self.active, &plan) {
            (None, Some(next)) => {
                let pct = u64_to_text(next.volume_percent as u64);
                let a = concat3("passthrough skeleton: armed for ", next.physical_name.as_str(), " at ");
                let b = concat3(a.as_str(), pct.as_str(), "% (virtual ");
                let c = concat3(b.as_str(), next.virtual_output_uid.as_str(), " \u{2192} physical ");
                Some(concat3(c.as_str(), next.physical_uid.as_str(), ")"))
            },
            (Some(previous), None) => {
                let pct = u64_to_text(previous.volume_percent as u64);
                let a = concat3(
                    "passthrough skeleton: disarmed (was ",
                    previous.physical_name.as_str(),
                    " at ",
                );
                Some(concat3(a.as_str(), pct.as_str(), "%)"))
            },
            (Some(previous), Some(next)) => {
                if same_plan(previous, next) {
                    None
                } else {
                    let pct = u64_to_text(next.volume_percent as u64);
                    let a = concat3(
                        "passthrough skeleton: retargeted ",
                        previous.physical_name.as_str(),
                        " \u{2192} ",
                    );
                    let b = concat3(a.as_str(), next.physical_name.as_str(), " at ");
                    Some(concat3(b.as_str(), pct.as_str(), "%"))
                }
            },
            (None, None) => None,
        };
        let unchanged = match (&self.active, &plan) {
            (Some(previous), Some(next)) => same_plan(previous, next),
            (None, None) => true,
            _ => false,
        };
        if !unchanged {
            self.active = plan;
        }
        message
    }

    /// Reconcile passthrough state with the latest config and device list;
    /// returns the transition log line, if any.
    pub fn sync<H: AudioHal>(&mut self, hal: &H, config: &Config, drivers: &[HalDriverInfo]) -> (r:
        Result<Option<String>, RustyJackError>)
        ensures
            hal.obeys_model() ==> (r is Err == hal.list_fails()),
            r is Err ==> final(self).spec_active() == old(self).spec_active(),
            hal.obeys_model() ==> (r matches Ok(line) ==> exists|plan: Option<PassthroughPlan>|
                #![trigger opt_plan_view(plan)]
                opt_plan_view(plan) == spec_plan(*config, hal.model_devices(), drivers@)
                    && opt_plan_view(final(self).spec_active()) == opt_plan_view(plan) && opt_view(
                    line,
                ) == spec_transition_message(old(self).spec_active(), plan)),
    {
        let list = hal.list_outputs()?;
        let plan = plan_passthrough(config, &list.devices, drivers);
        Ok(self.apply_plan(plan))
    }
}

/// Status note while passthrough is in skeleton mode.
pub open spec fn spec_status_note(mode: PassthroughMode, plan: Option<PassthroughPlan>) -> Option<
    Seq<char>,
> {
    match (mode, plan) {
        (PassthroughMode::Skeleton, Some(p)) => Some(
            "passthrough skeleton armed for "@ + p.physical_name@ + " at "@ + percent_text(
                p.volume_percent,
            ) + "% via "@ + RUSTY_JACK_DRIVER_NAME@
                + "; live CoreAudio I/O is not wired yet"@,
        ),
        _ => None,
    }
}

/// Human-readable note for status output when passthrough is in skeleton mode.
pub fn passthrough_status_note(mode: PassthroughMode, plan: Option<&PassthroughPlan>) -> (r: Option<
    String,
>)
    ensures
        opt_view(r) == spec_status_note(
            mode,
            match plan {
                Some(p) => Some(*p),
                None => None,
            },
        ),
{
    match mode {
        PassthroughMode::Disabled => None,
        PassthroughMode::Skeleton => {
            let p = match plan {
                Some(p) => p,
                None => {
                    return None;
                },
            };
            let pct = u64_to_text(p.volume_percent as u64);
            let a = concat3("passthrough skeleton armed for ", p.physical_name.as_str(), " at ");
            let b = concat3(a.as_str(), pct.as_str(), "% via ");
            Some(concat3(b.as_str(), RUSTY_JACK_DRIVER_NAME, "; live CoreAudio I/O is not wired yet"))
        },
    }
}


/// The controller logs exactly the changes of plan: a transition has a log line if
/// and only if the new plan differs from the active one, so applying the same plan
/// again is silent.
pub proof fn law_passthrough_logs_only_changes(
    previous: Option<PassthroughPlan>,
    next: Option<PassthroughPlan>,
)
    ensures
        spec_transition_message(previous, next) is None <==> opt_plan_view(previous) == opt_plan_view(
            next,
        ),
{
}

} // verus!
