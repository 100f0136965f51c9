//! `rusty-jack resume`: restart a paused daemon, first putting the audio
//! route back the way policy wants it.
use crate::apply::VolumeMemory;
use crate::config::Config;
use crate::daemon::{
    daemon_tick, tick_may_fail, tick_outcome, DaemonHooks, DaemonTickReason, HookLog,
    ScalarWebApiDeviceFallbackPermission,
};
use crate::error::RustyJackError;
use crate::hal::AudioHal;
use crate::launchd::{DaemonPauseReason, DaemonStatus};
use crate::text::{concat2, concat3, owned, u64_to_text};
use vstd::prelude::*;

verus! {

/// Whether resuming goes ahead, and the volume the route was restored to.
#[derive(Debug)]
pub enum ResumePreparation {
    Continue { prepared_volume: Option<u8> },
    Cancelled { selected_label: String },
}

/// With a configured volume, run a startup daemon tick (route and restore the
/// volume) and report that volume; without one, do nothing.
pub fn apply_policy_before_resume<H: AudioHal, K: DaemonHooks>(
    hal: &mut H,
    config: &Config,
    hooks: &mut HookLog<K>,
    memory: &mut VolumeMemory,
) -> (r: Result<Option<u8>, RustyJackError>)
    ensures
        final(hal).obeys_model() == old(hal).obeys_model(),
        old(hal).obeys_model() ==> (config.volume is None ==> (r == Ok::<Option<u8>, RustyJackError>(None) && *final(hal)
            == *old(hal))),
        old(hal).obeys_model() ==> (config.volume is Some && r is Ok ==> (r == Ok::<Option<u8>, RustyJackError>(config.volume)
            && exists|res, list: crate::system_default::DeviceList| tick_outcome(
            *old(hal),
            *final(hal),
            *config,
            DaemonTickReason::Startup,
            ScalarWebApiDeviceFallbackPermission::Allowed,
            res,
            list.devices@,
        ))),
        old(hal).obeys_model() ==> (config.volume is Some ==> (r is Err ==> tick_may_fail(
            *old(hal),
            *config,
            final(hooks).events(),
            old(hooks).events().len() as int,
        ))),
        config.volume is None ==> final(hooks).events() == old(hooks).events(),
{
    let volume = match config.volume {
        Some(v) => v,
        None => {
            return Ok(None);
        },
    };
    let ticked = daemon_tick(hal, config, DaemonTickReason::Startup, hooks, memory);
    match ticked {
        Err(e) => Err(e),
        Ok((res, list)) => {
            assert(old(hal).obeys_model() ==> tick_outcome(
                *old(hal),
                *hal,
                *config,
                DaemonTickReason::Startup,
                ScalarWebApiDeviceFallbackPermission::Allowed,
                res,
                list.devices@,
            ));
            Ok(Some(volume))
        },
    }
}

pub open spec fn spec_resume_warning(reason: DaemonPauseReason) -> Seq<char> {
    match reason {
        DaemonPauseReason::PickerOverride { selected_label, preferred_uid, .. } => {
            let preferred = match preferred_uid {
                Some(uid) => "configured preferred output `"@ + uid@ + "`"@,
                None => "the configured preferred output"@,
            };
            "The daemon is paused because you manually picked "@ + selected_label@
                + ". Resuming auto-routing will switch back to "@ + preferred + "."@
        },
    }
}

/// What resuming after a manual pick will do, shown before asking.
pub fn picker_override_resume_warning(reason: &DaemonPauseReason) -> (r: String)
    ensures
        r@ == spec_resume_warning(*reason),
{
    match reason {
        DaemonPauseReason::PickerOverride { selected_label, preferred_uid, .. } => {
            let preferred = match preferred_uid {
                Some(uid) => concat3("configured preferred output `", uid.as_str(), "`"),
                None => owned("the configured preferred output"),
            };
            let head = concat3(
                "The daemon is paused because you manually picked ",
                selected_label.as_str(),
                ". Resuming auto-routing will switch back to ",
            );
            concat3(head.as_str(), preferred.as_str(), ".")
        },
    }
}

/// The output the user picked manually.
pub fn picker_override_selected_label(reason: &DaemonPauseReason) -> (r: &str)
    ensures
        r@ == match *reason {
            DaemonPauseReason::PickerOverride { selected_label, .. } => selected_label@,
        },
{
    match reason {
        DaemonPauseReason::PickerOverride { selected_label, .. } => selected_label.as_str(),
    }
}

/// After any confirmation: without a config or a configured volume nothing is
/// done; with a volume, a startup tick routes audio and restores it, and the
/// result reports that volume unless the tick failed.
pub open spec fn resume_prepared<H: AudioHal>(
    before: H,
    after: H,
    config: Option<&Config>,
    events_before: Seq<crate::daemon::HookEvent>,
    events_after: Seq<crate::daemon::HookEvent>,
    r: Result<ResumePreparation, RustyJackError>,
) -> bool {
    match config {
        None => (r == Ok::<ResumePreparation, RustyJackError>(
            ResumePreparation::Continue { prepared_volume: None },
        ) && after == before),
        Some(c) => match c.volume {
            None => (r == Ok::<ResumePreparation, RustyJackError>(
                ResumePreparation::Continue { prepared_volume: None },
            ) && after == before),
            Some(v) => {
                &&& (r is Ok ==> r == Ok::<ResumePreparation, RustyJackError>(
                    ResumePreparation::Continue { prepared_volume: Some(v) },
                ))
                &&& (r is Err ==> tick_may_fail(before, *c, events_after, events_before.len() as int))
            },
        },
    }
}

/// Before resuming a paused daemon: when it was paused for a manual pick, ask
/// (`confirm`, interactive runs only) whether to switch back; then, with a
/// config, apply policy once so audio is routed before the daemon starts.
pub fn prepare_audio_before_resume<H: AudioHal, K: DaemonHooks, C>(
    hal: &mut H,
    status: &DaemonStatus,
    config: Option<&Config>,
    interactive: bool,
    confirm: C,
    hooks: &mut HookLog<K>,
    memory: &mut VolumeMemory,
) -> (r: Result<ResumePreparation, RustyJackError>) where
    C: FnOnce() -> Result<bool, RustyJackError>,

    requires
        call_requires(confirm, ()),
    ensures
        final(hal).obeys_model() == old(hal).obeys_model(),
        old(hal).obeys_model() ==> (match *status {
            DaemonStatus::Paused { pause_reason, .. } => if pause_reason is Some && interactive {
                exists|answer: Result<bool, RustyJackError>|
                    #![trigger call_ensures(confirm, (), answer)]
                    call_ensures(confirm, (), answer) && match answer {
                        Err(e) => (r == Err::<ResumePreparation, RustyJackError>(e) && *final(hal)
                            == *old(hal)),
                        Ok(false) => (*final(hal) == *old(hal) && (r matches Ok(
                            ResumePreparation::Cancelled { selected_label: l },
                        ) && l@ == match pause_reason.unwrap() {
                            DaemonPauseReason::PickerOverride { selected_label, .. } => selected_label@,
                        })),
                        Ok(true) => resume_prepared(
                            *old(hal),
                            *final(hal),
                            config,
                            old(hooks).events(),
                            final(hooks).events(),
                            r,
                        ),
                    }
            } else {
                resume_prepared(*old(hal), *final(hal), config, old(hooks).events(), final(hooks).events(), r)
            },
            _ => (r == Ok::<ResumePreparation, RustyJackError>(
                ResumePreparation::Continue { prepared_volume: None },
            ) && *final(hal) == *old(hal)),
        }),
{
    let reason = match status {
        DaemonStatus::Paused { pause_reason, .. } => pause_reason,
        _ => {
            return Ok(ResumePreparation::Continue { prepared_volume: None });
        },
    };
    if let Some(reason) = reason {
        if interactive {
            let ghost fc = confirm;
            let answer = confirm();
            assert(call_ensures(fc, (), answer));
            match answer {
                Err(e) => {
                    return Err(e);
                },
                Ok(false) => {
                    return Ok(
                        ResumePreparation::Cancelled {
                            selected_label: owned(picker_override_selected_label(reason)),
                        },
                    );
                },
                Ok(true) => {},
            }
        }
    }
    let config = match config {
        Some(c) => c,
        None => {
            return Ok(ResumePreparation::Continue { prepared_volume: None });
        },
    };
    let prepared_volume = apply_policy_before_resume(hal, config, hooks, memory)?;
    Ok(ResumePreparation::Continue { prepared_volume })
}

/// Printed when the user keeps the manual pick.
pub fn resume_cancelled_message(selected_label: &str) -> (r: String)
    ensures
        r@ == "Cancelled. Daemon is still paused and "@ + selected_label@ + " remains selected."@,
{
    concat3("Cancelled. Daemon is still paused and ", selected_label, " remains selected.")
}

/// Printed after resuming when the route was prepared.
pub fn prepared_audio_line(volume: u8) -> (r: String)
    ensures
        r@ == "  prepared audio: routed and restored to "@ + crate::text::decimal(volume as nat) + "%"@,
{
    concat3("  prepared audio: routed and restored to ", u64_to_text(volume as u64).as_str(), "%")
}

} // verus!
