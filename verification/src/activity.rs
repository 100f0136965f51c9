//! User activity: which ScalarWebAPI wake triggers activity fires, the activity
//! snapshot recorded at each poll, and its log lines.
use crate::config::Config;
use crate::output_device::opt_view;
use crate::scalar_webapi_device::{KEYBOARD_TRIGGER, MOUSE_TRIGGER};
use crate::text::{
    concat2, concat3, decimal, join, join_strings, lines, lines_of, lower, owned, parse_u64,
    parse_u64_str, split_once, split_once_str, str_eq, texts, to_lower, trim, trim_str, u64_to_text,
};
use vstd::prelude::*;

verus! {

/// Map a CoreGraphics event label to the ScalarWebAPI wake trigger category.
pub fn wake_trigger_for_activity_event(event: &str) -> (r: &'static str)
    ensures
        r@ == if event@ == "KeyDown"@ || event@ == "KeyUp"@ || event@ == "FlagsChanged"@ {
            KEYBOARD_TRIGGER@
        } else {
            MOUSE_TRIGGER@
        },
{
    if str_eq(event, "KeyDown") || str_eq(event, "KeyUp") || str_eq(event, "FlagsChanged") {
        KEYBOARD_TRIGGER
    } else {
        MOUSE_TRIGGER
    }
}

/// A trigger that activity can fire (keyboard or mouse, in any letter case).
pub open spec fn is_activity_trigger(t: Seq<char>) -> bool {
    lower(t) == KEYBOARD_TRIGGER@ || lower(t) == MOUSE_TRIGGER@
}

/// The activity triggers among `ts`, in order.
pub open spec fn activity_triggers_of(ts: Seq<Seq<char>>) -> Seq<Seq<char>>
    decreases ts.len(),
{
    if ts.len() == 0 {
        seq![]
    } else if is_activity_trigger(ts.last()) {
        activity_triggers_of(ts.drop_last()).push(ts.last())
    } else {
        activity_triggers_of(ts.drop_last())
    }
}

pub open spec fn spec_activity_wake_triggers(config: Config) -> Seq<Seq<char>> {
    match config.scalar_webapi_device {
        Some(api) => if api.enabled {
            activity_triggers_of(texts(api.triggers@))
        } else {
            seq![]
        },
        None => seq![],
    }
}

/// ScalarWebAPI wake triggers that fire while the Mac is active and on idle -> active transitions.
pub fn activity_wake_triggers(config: &Config) -> (r: Vec<String>)
    ensures
        texts(r@) == spec_activity_wake_triggers(*config),
{
    let mut out: Vec<String> = Vec::new();
    let api = match &config.scalar_webapi_device {
        Some(api) => api,
        None => {
            assert(texts(out@) =~= seq![]);
            return out;
        },
    };
    if !api.enabled {
        assert(texts(out@) =~= seq![]);
        return out;
    }
    let ghost all = texts(api.triggers@);
    let mut i: usize = 0;
    assert(texts(out@) =~= activity_triggers_of(all.take(0)));
    while i < api.triggers.len()
        invariant
            i <= api.triggers@.len(),
            all == texts(api.triggers@),
            texts(out@) == activity_triggers_of(all.take(i as int)),
        decreases api.triggers@.len() - i,
    {
        let t = &api.triggers[i];
        let lowered = to_lower(t.as_str());
        assert(all.take(i + 1).drop_last() =~= all.take(i as int));
        assert(all.take(i + 1).last() == t@);
        if str_eq(lowered.as_str(), KEYBOARD_TRIGGER) || str_eq(lowered.as_str(), MOUSE_TRIGGER) {
            crate::text::push_line(&mut out, t.clone());
        }
        i = i + 1;
    }
    assert(all.take(api.triggers@.len() as int) =~= all);
    out
}

/// One activity poll, as persisted for `status`. Times are in tenths of a second.
#[derive(Debug)]
pub struct ActivitySnapshot {
    pub sampled_at_unix_seconds: u64,
    pub idle_tenths: u64,
    pub threshold_tenths: u64,
    pub is_idle: bool,
    pub console_user: Option<String>,
    pub daemon_user: String,
    pub triggers: Vec<String>,
    pub last_became_active_at_unix_seconds: Option<u64>,
    pub last_became_active_console_user: Option<String>,
    pub last_became_active_daemon_user: Option<String>,
    pub last_became_active_event: Option<String>,
}

/// Record one activity poll sample: idle state and triggers now, and the last
/// idle -> active transition (this one, or the previous snapshot's). The idle
/// time and the threshold are also given as the tenths of a second they show
/// as (`idle_tenths`, `threshold_tenths`), as the caller's clock formats them.
pub fn record_activity_poll(
    idle_ms: u64,
    idle_threshold_ms: u64,
    idle_tenths: u64,
    threshold_tenths: u64,
    config: &Config,
    became_active: bool,
    activity_event: Option<&str>,
    console_user: Option<String>,
    daemon_user: String,
    sampled_at_unix_seconds: u64,
    previous: Option<ActivitySnapshot>,
) -> (r: ActivitySnapshot)
    ensures
        r.sampled_at_unix_seconds == sampled_at_unix_seconds,
        r.idle_tenths == idle_tenths,
        r.threshold_tenths == threshold_tenths,
        r.is_idle == (idle_ms >= idle_threshold_ms),
        r.console_user == console_user,
        r.daemon_user == daemon_user,
        texts(r.triggers@) == spec_activity_wake_triggers(*config),
        became_active ==> r.last_became_active_at_unix_seconds == Some(sampled_at_unix_seconds)
            && r.last_became_active_console_user == console_user
            && r.last_became_active_daemon_user == Some(daemon_user) && opt_view(
            r.last_became_active_event,
        ) == match activity_event {
            Some(e) => Some(e@),
            None => None,
        },
        !became_active ==> match previous {
            Some(p) => r.last_became_active_at_unix_seconds == p.last_became_active_at_unix_seconds
                && r.last_became_active_console_user == p.last_became_active_console_user
                && r.last_became_active_daemon_user == p.last_became_active_daemon_user
                && r.last_became_active_event == p.last_became_active_event,
            None => r.last_became_active_at_unix_seconds is None
                && r.last_became_active_console_user is None
                && r.last_became_active_daemon_user is None && r.last_became_active_event is None,
        },
{
    let triggers = activity_wake_triggers(config);
    if became_active {
        let console_copy = crate::output_device::clone_opt_string(&console_user);
        let daemon_copy = daemon_user.clone();
        return ActivitySnapshot {
            sampled_at_unix_seconds,
            idle_tenths,
            threshold_tenths,
            is_idle: idle_ms >= idle_threshold_ms,
            console_user,
            daemon_user,
            triggers,
            last_became_active_at_unix_seconds: Some(sampled_at_unix_seconds),
            last_became_active_console_user: console_copy,
            last_became_active_daemon_user: Some(daemon_copy),
            last_became_active_event: match activity_event {
                Some(e) => Some(owned(e)),
                None => None,
            },
        };
    }
    let (at, console, daemon, event) = match previous {
        Some(p) => (
            p.last_became_active_at_unix_seconds,
            p.last_became_active_console_user,
            p.last_became_active_daemon_user,
            p.last_became_active_event,
        ),
        None => (None, None, None, None),
    };
    ActivitySnapshot {
        sampled_at_unix_seconds,
        idle_tenths,
        threshold_tenths,
        is_idle: idle_ms >= idle_threshold_ms,
        console_user,
        daemon_user,
        triggers,
        last_became_active_at_unix_seconds: at,
        last_became_active_console_user: console,
        last_became_active_daemon_user: daemon,
        last_became_active_event: event,
    }
}

/// Why an activity log line is emitted.
#[derive(Debug, Clone, Copy, PartialEq, Eq, Structural)]
pub enum ActivityLogEvent {
    /// Mac was idle at or above the threshold and user input resumed.
    IdleToActiveTransition,
    /// Periodic idle-time sample between scheduled route checks.
    Poll,
}

/// Tenths of a second with one decimal (`12.4`).
pub open spec fn spec_seconds_text(tenths: u64) -> Seq<char> {
    decimal((tenths / 10) as nat) + "."@ + decimal((tenths % 10) as nat)
}

fn seconds_text(tenths: u64) -> (r: String)
    ensures
        r@ == spec_seconds_text(tenths),
{
    let mut r = u64_to_text(tenths / 10);
    r.append(".");
    r.append(u64_to_text(tenths % 10).as_str());
    r
}

pub open spec fn spec_activity_log_line(s: ActivitySnapshot, event: ActivityLogEvent) -> Seq<char> {
    let console = match s.console_user {
        Some(c) => c@,
        None => "(none)"@,
    };
    let triggers = if s.triggers@.len() == 0 {
        "(none)"@
    } else {
        join(texts(s.triggers@), ","@)
    };
    match event {
        ActivityLogEvent::IdleToActiveTransition => "[activity] idle→active transition: user input resumed after ≥"@
            + spec_seconds_text(s.threshold_tenths) + "s without keyboard/mouse; idle_now="@
            + spec_seconds_text(s.idle_tenths) + "s console_user="@ + console + " daemon_user="@
            + s.daemon_user@ + match s.last_became_active_event {
            Some(label) => " event="@ + label@,
            None => Seq::<char>::empty(),
        } + " scalar_wake_triggers="@ + triggers,
        ActivityLogEvent::Poll => "[activity] poll: state="@ + (if s.is_idle {
            "idle"@
        } else {
            "active"@
        }) + " idle="@ + spec_seconds_text(s.idle_tenths) + "s threshold="@ + spec_seconds_text(
            s.threshold_tenths,
        ) + "s console_user="@ + console + " daemon_user="@ + s.daemon_user@,
    }
}

/// Log line for an activity snapshot.
pub fn format_activity_log_line(snapshot: &ActivitySnapshot, event: ActivityLogEvent) -> (r: String)
    ensures
        r@ == spec_activity_log_line(*snapshot, event),
{
    let console: &str = match &snapshot.console_user {
        Some(c) => c.as_str(),
        None => "(none)",
    };
    match event {
        ActivityLogEvent::IdleToActiveTransition => {
            let triggers = if snapshot.triggers.len() == 0 {
                owned("(none)")
            } else {
                join_strings(&snapshot.triggers, ",")
            };
            let mut r = owned("[activity] idle→active transition: user input resumed after ≥");
            r.append(seconds_text(snapshot.threshold_tenths).as_str());
            r.append("s without keyboard/mouse; idle_now=");
            r.append(seconds_text(snapshot.idle_tenths).as_str());
            r.append("s console_user=");
            r.append(console);
            r.append(" daemon_user=");
            r.append(snapshot.daemon_user.as_str());
            if let Some(label) = &snapshot.last_became_active_event {
                r.append(" event=");
                r.append(label.as_str());
            }
            r.append(" scalar_wake_triggers=");
            r.append(triggers.as_str());
            proof {
                assert(r@ =~= spec_activity_log_line(*snapshot, event));
            }
            r
        },
        ActivityLogEvent::Poll => {
            let mut r = owned("[activity] poll: state=");
            r.append(
                if snapshot.is_idle {
                    "idle"
                } else {
                    "active"
                },
            );
            r.append(" idle=");
            r.append(seconds_text(snapshot.idle_tenths).as_str());
            r.append("s threshold=");
            r.append(seconds_text(snapshot.threshold_tenths).as_str());
            r.append("s console_user=");
            r.append(console);
            r.append(" daemon_user=");
            r.append(snapshot.daemon_user.as_str());
            proof {
                assert(r@ =~= spec_activity_log_line(*snapshot, event));
            }
            r
        },
    }
}

/// The first line of `ls` that mentions `HIDIdleTime`.
pub open spec fn hid_line(ls: Seq<Seq<char>>) -> Option<Seq<char>>
    decreases ls.len(),
{
    if ls.len() == 0 {
        None
    } else {
        match split_once(ls[0], "HIDIdleTime"@) {
            Some((_, rest)) => Some(rest),
            None => hid_line(ls.drop_first()),
        }
    }
}

/// Idle time in nanoseconds from `ioreg -c IOHIDSystem` output.
pub open spec fn spec_hid_idle_nanos(output: Seq<char>) -> Option<u64> {
    match hid_line(lines(output)) {
        Some(rest) => match split_once(rest, "="@) {
            Some((_, value)) => parse_u64(trim(value)),
            None => None,
        },
        None => None,
    }
}

/// Idle time, in nanoseconds, reported as `"HIDIdleTime" = N` by `ioreg`.
pub fn parse_hid_idle_duration(output: &str) -> (r: Option<u64>)
    ensures
        r == spec_hid_idle_nanos(output@),
{
    let ls = lines_of(output);
    let ghost lv = ls@.map_values(|x: &str| x@);
    let mut i: usize = 0;
    assert(lv.subrange(0, lv.len() as int) =~= lv);
    while i < ls.len()
        invariant
            i <= ls@.len(),
            lv == ls@.map_values(|x: &str| x@),
            lv == lines(output@),
            hid_line(lv) == hid_line(lv.subrange(i as int, lv.len() as int)),
        decreases ls@.len() - i,
    {
        assert(lv.subrange(i as int, lv.len() as int).drop_first() =~= lv.subrange(
            i + 1,
            lv.len() as int,
        ));
        assert(lv.subrange(i as int, lv.len() as int)[0] == ls@[i as int]@);
        if let Some((_, rest)) = split_once_str(ls[i], "HIDIdleTime") {
            return match split_once_str(rest, "=") {
                Some((_, value)) => parse_u64_str(trim_str(value)),
                None => None,
            };
        }
        i = i + 1;
    }
    None
}

} // verus!
