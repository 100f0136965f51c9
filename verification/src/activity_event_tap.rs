//! Event-tap activity monitoring: which events the tap listens to, and when a
//! silent tap is recreated or replaced by platform idle time. Times are in
//! milliseconds, or nanoseconds where the name says so.
use crate::config::Config;
use crate::text::{eq_ignore_ascii_case, eq_ignore_case};
use vstd::prelude::*;

verus! {

/// What the listen-only event tap records (for logs and permission hints).
pub const EVENT_TAP_PRIVACY_NOTE: &'static str = "listen-only tap records event timing and type labels (e.g. KeyDown); it does not log or record keystrokes";

/// Shown when the tap cannot be created or is disabled (Accessibility permission).
pub const EVENT_TAP_PERMISSION_HINT: &'static str = "grant Accessibility permission to rusty-jack (listen-only: timing and event-type labels only, no keystroke logging); restart the daemon after granting permission";

/// Whether the daemon should attempt an event-tap activity monitor for this config.
pub fn should_try_event_tap_activity_monitor(config: &Config, accessibility_trusted: bool) -> (r:
    bool)
    ensures
        r == (eq_ignore_case(config.activity_monitor@, "event_tap"@) && accessibility_trusted),
{
    eq_ignore_ascii_case(config.activity_monitor.as_str(), "event_tap") && accessibility_trusted
}

/// Action to take when the event tap looks silent while the session is active.
#[derive(Debug, Clone, Copy, PartialEq, Eq, Structural)]
pub enum SilentTapIdleAction {
    RecreateTap,
    UsePlatformIdleUntrustedAccessibility,
    UsePlatformIdleWithMouseMove,
}

/// Decide how to handle a silent event tap.
pub fn silent_tap_idle_action(include_mouse_move: bool, accessibility_trusted: bool) -> (r:
    SilentTapIdleAction)
    ensures
        r == if include_mouse_move {
            SilentTapIdleAction::UsePlatformIdleWithMouseMove
        } else if !accessibility_trusted {
            SilentTapIdleAction::UsePlatformIdleUntrustedAccessibility
        } else {
            SilentTapIdleAction::RecreateTap
        },
{
    if include_mouse_move {
        SilentTapIdleAction::UsePlatformIdleWithMouseMove
    } else if !accessibility_trusted {
        SilentTapIdleAction::UsePlatformIdleUntrustedAccessibility
    } else {
        SilentTapIdleAction::RecreateTap
    }
}

/// `CGEventMask` bit for one `CGEventType` value.
pub fn cg_event_mask_bit(event_type: u32) -> (r: u64)
    requires
        event_type < 64,
    ensures
        r == 1u64 << event_type,
{
    1u64 << event_type
}

/// CoreGraphics event types observed for keyboard and pointer activity.
pub const K_CG_EVENT_LEFT_MOUSE_DOWN: u32 = 1;

pub const K_CG_EVENT_LEFT_MOUSE_UP: u32 = 2;

pub const K_CG_EVENT_RIGHT_MOUSE_DOWN: u32 = 3;

pub const K_CG_EVENT_RIGHT_MOUSE_UP: u32 = 4;

pub const K_CG_EVENT_MOUSE_MOVED: u32 = 5;

pub const K_CG_EVENT_LEFT_MOUSE_DRAGGED: u32 = 6;

pub const K_CG_EVENT_RIGHT_MOUSE_DRAGGED: u32 = 7;

pub const K_CG_EVENT_KEY_DOWN: u32 = 10;

pub const K_CG_EVENT_KEY_UP: u32 = 11;

pub const K_CG_EVENT_FLAGS_CHANGED: u32 = 12;

pub const K_CG_EVENT_SCROLL_WHEEL: u32 = 22;

pub const K_CG_EVENT_OTHER_MOUSE_DOWN: u32 = 25;

pub const K_CG_EVENT_OTHER_MOUSE_UP: u32 = 26;

pub const K_CG_EVENT_OTHER_MOUSE_DRAGGED: u32 = 27;

/// macOS notifies the tap callback when CoreGraphics disables it.
pub const K_CG_EVENT_TAP_DISABLED_BY_TIMEOUT: u32 = 0xFFFF_FFFE;

pub const K_CG_EVENT_TAP_DISABLED_BY_USER_INPUT: u32 = 0xFFFF_FFFF;

/// True for CoreGraphics tap-disabled notifications.
pub fn is_event_tap_disabled_notification(event_type: u32) -> (r: bool)
    ensures
        r == (event_type == K_CG_EVENT_TAP_DISABLED_BY_TIMEOUT || event_type
            == K_CG_EVENT_TAP_DISABLED_BY_USER_INPUT),
{
    event_type == K_CG_EVENT_TAP_DISABLED_BY_TIMEOUT || event_type
        == K_CG_EVENT_TAP_DISABLED_BY_USER_INPUT
}

/// Minimum time between event-tap recreations when the tap appears silent.
pub const TAP_RECREATE_COOLDOWN_MS: u64 = 600000;

/// Minimum interval between Accessibility-trust probes on the silent-tap path.
pub const ACCESSIBILITY_TRUST_PROBE_COOLDOWN_NANOS: u64 = 60000000000;

/// Whether a cached Accessibility-trust value may be reused without re-probing.
pub fn accessibility_trust_probe_cache_hit(
    now_unix_nanos: u64,
    last_probe_unix_nanos: u64,
    probe_cooldown_nanos: u64,
) -> (r: bool)
    ensures
        r == (crate::daemon::elapsed_since(now_unix_nanos, last_probe_unix_nanos)
            < probe_cooldown_nanos),
{
    let elapsed: u64 = if now_unix_nanos >= last_probe_unix_nanos {
        now_unix_nanos - last_probe_unix_nanos
    } else {
        0
    };
    elapsed < probe_cooldown_nanos
}

/// Cached trust within the cooldown; otherwise the fresh probe, stamped now.
pub fn resolve_accessibility_trust_probe(
    now_unix_nanos: u64,
    last_probe_unix_nanos: u64,
    cached_trusted: bool,
    probe_cooldown_nanos: u64,
    probed_trusted: bool,
) -> (r: (bool, u64))
    ensures
        crate::daemon::elapsed_since(now_unix_nanos, last_probe_unix_nanos) < probe_cooldown_nanos ==> r
            == (cached_trusted, last_probe_unix_nanos),
        crate::daemon::elapsed_since(now_unix_nanos, last_probe_unix_nanos) >= probe_cooldown_nanos
            ==> r == (probed_trusted, now_unix_nanos),
{
    if accessibility_trust_probe_cache_hit(
        now_unix_nanos,
        last_probe_unix_nanos,
        probe_cooldown_nanos,
    ) {
        return (cached_trusted, last_probe_unix_nanos);
    }
    (probed_trusted, now_unix_nanos)
}

/// Tap idle at least this long may mean a deaf tap.
pub const SILENT_TAP_IDLE_FLOOR_MS: u64 = 90000;

/// Platform idle at most this long means the user is active.
pub const PLATFORM_IDLE_CEILING_MS: u64 = 30000;

/// The tap must lag platform idle by more than this.
pub const MIN_IDLE_GAP_MS: u64 = 30000;

pub open spec fn spec_tap_silent(tap_idle_ms: u64, platform_idle_ms: u64) -> bool {
    tap_idle_ms >= SILENT_TAP_IDLE_FLOOR_MS && platform_idle_ms <= PLATFORM_IDLE_CEILING_MS
        && tap_idle_ms > platform_idle_ms + MIN_IDLE_GAP_MS
}

/// The tap has seen nothing for long while the platform reports recent input.
pub fn event_tap_appears_silent(tap_idle_ms: u64, platform_idle_ms: u64) -> (r: bool)
    ensures
        r == spec_tap_silent(tap_idle_ms, platform_idle_ms),
{
    let gap_end: u64 = if platform_idle_ms > u64::MAX - MIN_IDLE_GAP_MS {
        u64::MAX
    } else {
        platform_idle_ms + MIN_IDLE_GAP_MS
    };
    tap_idle_ms >= SILENT_TAP_IDLE_FLOOR_MS && platform_idle_ms <= PLATFORM_IDLE_CEILING_MS
        && tap_idle_ms > gap_end
}

/// A silent tap is recreated once the recreate cooldown has elapsed.
pub fn should_request_tap_recreate(
    tap_idle_ms: u64,
    platform_idle_ms: u64,
    since_last_recreate_ms: u64,
) -> (r: bool)
    ensures
        r == (spec_tap_silent(tap_idle_ms, platform_idle_ms) && since_last_recreate_ms
            >= TAP_RECREATE_COOLDOWN_MS),
{
    event_tap_appears_silent(tap_idle_ms, platform_idle_ms) && since_last_recreate_ms
        >= TAP_RECREATE_COOLDOWN_MS
}

/// Mask of the keyboard event types.
pub const KEYBOARD_EVENT_MASK: u64 = 0x1c00;

/// Mask of the pointer event types other than plain mouse moves.
pub const POINTER_EVENT_MASK: u64 = 0xe4000de;

/// Event mask for keyboard and pointer activity used by the event tap.
pub fn keyboard_mouse_event_mask(include_mouse_move: bool) -> (r: u64)
    ensures
        r == KEYBOARD_EVENT_MASK | POINTER_EVENT_MASK | (if include_mouse_move {
            1u64 << 5u64
        } else {
            0u64
        }),
{
    let keyboard = cg_event_mask_bit(K_CG_EVENT_KEY_DOWN) | cg_event_mask_bit(K_CG_EVENT_KEY_UP)
        | cg_event_mask_bit(K_CG_EVENT_FLAGS_CHANGED);
    let mut mouse = cg_event_mask_bit(K_CG_EVENT_LEFT_MOUSE_DOWN) | cg_event_mask_bit(
        K_CG_EVENT_LEFT_MOUSE_UP,
    ) | cg_event_mask_bit(K_CG_EVENT_RIGHT_MOUSE_DOWN) | cg_event_mask_bit(
        K_CG_EVENT_RIGHT_MOUSE_UP,
    ) | cg_event_mask_bit(K_CG_EVENT_LEFT_MOUSE_DRAGGED) | cg_event_mask_bit(
        K_CG_EVENT_RIGHT_MOUSE_DRAGGED,
    ) | cg_event_mask_bit(K_CG_EVENT_SCROLL_WHEEL) | cg_event_mask_bit(
        K_CG_EVENT_OTHER_MOUSE_DOWN,
    ) | cg_event_mask_bit(K_CG_EVENT_OTHER_MOUSE_UP) | cg_event_mask_bit(
        K_CG_EVENT_OTHER_MOUSE_DRAGGED,
    );
    assert(keyboard == KEYBOARD_EVENT_MASK) by (bit_vector)
        requires
            keyboard == (1u64 << 10u32) | (1u64 << 11u32) | (1u64 << 12u32),
    ;
    assert(mouse == POINTER_EVENT_MASK) by (bit_vector)
        requires
            mouse == (1u64 << 1u32) | (1u64 << 2u32) | (1u64 << 3u32) | (1u64 << 4u32) | (1u64
                << 6u32) | (1u64 << 7u32) | (1u64 << 22u32) | (1u64 << 25u32) | (1u64 << 26u32) | (
            1u64 << 27u32),
    ;
    if include_mouse_move {
        mouse = mouse | cg_event_mask_bit(K_CG_EVENT_MOUSE_MOVED);
        assert(keyboard | mouse == KEYBOARD_EVENT_MASK | POINTER_EVENT_MASK | (1u64 << 5u64))
            by (bit_vector)
            requires
                keyboard == KEYBOARD_EVENT_MASK,
                mouse == POINTER_EVENT_MASK | (1u64 << 5u32),
        ;
    } else {
        assert(keyboard | mouse == KEYBOARD_EVENT_MASK | POINTER_EVENT_MASK | 0u64) by (bit_vector)
            requires
                keyboard == KEYBOARD_EVENT_MASK,
                mouse == POINTER_EVENT_MASK,
        ;
    }
    keyboard | mouse
}

pub open spec fn spec_event_label(event_type: u32) -> Seq<char> {
    if event_type == K_CG_EVENT_LEFT_MOUSE_DOWN {
        "LeftMouseDown"@
    } else if event_type == K_CG_EVENT_LEFT_MOUSE_UP {
        "LeftMouseUp"@
    } else if event_type == K_CG_EVENT_RIGHT_MOUSE_DOWN {
        "RightMouseDown"@
    } else if event_type == K_CG_EVENT_RIGHT_MOUSE_UP {
        "RightMouseUp"@
    } else if event_type == K_CG_EVENT_MOUSE_MOVED {
        "MouseMoved"@
    } else if event_type == K_CG_EVENT_LEFT_MOUSE_DRAGGED {
        "LeftMouseDragged"@
    } else if event_type == K_CG_EVENT_RIGHT_MOUSE_DRAGGED {
        "RightMouseDragged"@
    } else if event_type == K_CG_EVENT_KEY_DOWN {
        "KeyDown"@
    } else if event_type == K_CG_EVENT_KEY_UP {
        "KeyUp"@
    } else if event_type == K_CG_EVENT_FLAGS_CHANGED {
        "FlagsChanged"@
    } else if event_type == K_CG_EVENT_SCROLL_WHEEL {
        "ScrollWheel"@
    } else if event_type == K_CG_EVENT_OTHER_MOUSE_DOWN {
        "OtherMouseDown"@
    } else if event_type == K_CG_EVENT_OTHER_MOUSE_UP {
        "OtherMouseUp"@
    } else if event_type == K_CG_EVENT_OTHER_MOUSE_DRAGGED {
        "OtherMouseDragged"@
    } else {
        "Unknown"@
    }
}

/// Human-readable label for a CoreGraphics `CGEventType` value.
pub fn cg_event_type_label(event_type: u32) -> (r: &'static str)
    ensures
        r@ == spec_event_label(event_type),
{
    if event_type == K_CG_EVENT_LEFT_MOUSE_DOWN {
        "LeftMouseDown"
    } else if event_type == K_CG_EVENT_LEFT_MOUSE_UP {
        "LeftMouseUp"
    } else if event_type == K_CG_EVENT_RIGHT_MOUSE_DOWN {
        "RightMouseDown"
    } else if event_type == K_CG_EVENT_RIGHT_MOUSE_UP {
        "RightMouseUp"
    } else if event_type == K_CG_EVENT_MOUSE_MOVED {
        "MouseMoved"
    } else if event_type == K_CG_EVENT_LEFT_MOUSE_DRAGGED {
        "LeftMouseDragged"
    } else if event_type == K_CG_EVENT_RIGHT_MOUSE_DRAGGED {
        "RightMouseDragged"
    } else if event_type == K_CG_EVENT_KEY_DOWN {
        "KeyDown"
    } else if event_type == K_CG_EVENT_KEY_UP {
        "KeyUp"
    } else if event_type == K_CG_EVENT_FLAGS_CHANGED {
        "FlagsChanged"
    } else if event_type == K_CG_EVENT_SCROLL_WHEEL {
        "ScrollWheel"
    } else if event_type == K_CG_EVENT_OTHER_MOUSE_DOWN {
        "OtherMouseDown"
    } else if event_type == K_CG_EVENT_OTHER_MOUSE_UP {
        "OtherMouseUp"
    } else if event_type == K_CG_EVENT_OTHER_MOUSE_DRAGGED {
        "OtherMouseDragged"
    } else {
        "Unknown"
    }
}


/// One step of polling a flag: a check and what it read, or a pause.
pub enum PollStep {
    Check { set: bool },
    Pause,
}

/// A flag to poll and the pause between checks.
pub trait FlagPoller {
    /// Read the flag.
    fn check(&mut self) -> bool;

    /// Wait before the next check.
    fn pause(&mut self);
}

/// A [`FlagPoller`] with a ghost record of every check (with what it read) and
/// every pause made through it, in order.
pub struct PollLog<P> {
    pub poller: P,
    pub log: Ghost<Seq<PollStep>>,
}

impl<P: FlagPoller> PollLog<P> {
    /// Every step so far.
    pub open spec fn steps(&self) -> Seq<PollStep> {
        self.log@
    }

    /// Start recording the steps of `poller`.
    pub fn new(poller: P) -> (r: PollLog<P>)
        ensures
            r.poller == poller,
            r.steps() == Seq::<PollStep>::empty(),
    {
        PollLog { poller, log: Ghost(Seq::empty()) }
    }

    /// Read the flag.
    pub fn check(&mut self) -> (r: bool)
        ensures
            final(self).steps() == old(self).steps().push(PollStep::Check { set: r }),
    {
        let r = self.poller.check();
        proof {
            self.log@ = self.log@.push(PollStep::Check { set: r });
        }
        r
    }

    /// Wait before the next check.
    pub fn pause(&mut self)
        ensures
            final(self).steps() == old(self).steps().push(PollStep::Pause),
    {
        self.poller.pause();
        proof {
            self.log@ = self.log@.push(PollStep::Pause);
        }
    }
}

/// `k` rounds in which the flag read unset, each followed by a pause.
pub open spec fn missed_rounds(k: nat) -> Seq<PollStep>
    decreases k,
{
    if k == 0 {
        Seq::empty()
    } else {
        missed_rounds((k - 1) as nat) + seq![PollStep::Check { set: false }, PollStep::Pause]
    }
}

/// Number of checks a poll makes at most: `attempts`, but at least one.
pub open spec fn poll_rounds(attempts: usize) -> nat {
    if attempts == 0 {
        1
    } else {
        attempts as nat
    }
}

/// Check a flag up to `attempts` times (at least once), pausing after each
/// check that reads unset; true as soon as a check reads set.
pub fn poll_atomic_flag_while<P: FlagPoller>(poller: &mut PollLog<P>, attempts: usize) -> (r: bool)
    ensures
        r ==> exists|k: nat|
            k < poll_rounds(attempts) && #[trigger] final(poller).steps() == old(poller).steps()
                + missed_rounds(k) + seq![PollStep::Check { set: true }],
        !r ==> final(poller).steps() == old(poller).steps() + missed_rounds(poll_rounds(attempts)),
{
    let rounds: usize = if attempts == 0 {
        1
    } else {
        attempts
    };
    let mut i: usize = 0;
    assert(old(poller).steps() + missed_rounds(0) =~= old(poller).steps());
    while i < rounds
        invariant
            rounds == poll_rounds(attempts),
            i <= rounds,
            poller.steps() == old(poller).steps() + missed_rounds(i as nat),
        decreases rounds - i,
    {
        let set = poller.check();
        if set {
            assert(poller.steps() == old(poller).steps() + missed_rounds(i as nat) + seq![
                PollStep::Check { set: true },
            ]);
            return true;
        }
        poller.pause();
        assert(poller.steps() =~= old(poller).steps() + missed_rounds((i + 1) as nat));
        i = i + 1;
    }
    false
}

/// Nanoseconds in the tap recreate cooldown.
pub const TAP_RECREATE_COOLDOWN_NANOS: u64 = 600000000000;

/// Claim the right to recreate the event tap: refused within the cooldown of
/// the last recreate (`load` reads it), otherwise granted when the recorded
/// time is swapped for `now` (`compare_exchange(last, now)` succeeds).
pub fn arm_tap_recreate<L, C>(now_unix_nanos: u64, load: L, compare_exchange: C) -> (r: bool) where
    L: Fn() -> u64,
    C: Fn(u64, u64) -> bool,

    requires
        call_requires(load, ()),
        forall|a: u64, b: u64| call_requires(compare_exchange, (a, b)),
    ensures
        exists|last: u64|
            #![trigger call_ensures(load, (), last)]
            call_ensures(load, (), last) && if (if now_unix_nanos >= last {
                now_unix_nanos - last
            } else {
                0
            }) >= TAP_RECREATE_COOLDOWN_NANOS {
                call_ensures(compare_exchange, (last, now_unix_nanos), r)
            } else {
                !r
            },
{
    let last = load();
    let since: u64 = if now_unix_nanos >= last {
        now_unix_nanos - last
    } else {
        0
    };
    if since < TAP_RECREATE_COOLDOWN_NANOS {
        return false;
    }
    let swapped = compare_exchange(last, now_unix_nanos);
    swapped
}

} // verus!
