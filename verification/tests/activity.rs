use std::sync::atomic::{AtomicBool, AtomicU64, AtomicUsize, Ordering};
use rusty_jack::activity::{
    activity_wake_triggers, format_activity_log_line, parse_hid_idle_duration, record_activity_poll,
    wake_trigger_for_activity_event, ActivityLogEvent, ActivitySnapshot,
};
use rusty_jack::activity_event_tap::{
    PollLog,
    accessibility_trust_probe_cache_hit, cg_event_mask_bit, cg_event_type_label, event_tap_appears_silent,
    is_event_tap_disabled_notification, keyboard_mouse_event_mask, resolve_accessibility_trust_probe,
    should_request_tap_recreate, should_try_event_tap_activity_monitor, silent_tap_idle_action,
    SilentTapIdleAction, ACCESSIBILITY_TRUST_PROBE_COOLDOWN_NANOS, K_CG_EVENT_KEY_DOWN,
    K_CG_EVENT_LEFT_MOUSE_DOWN, K_CG_EVENT_MOUSE_MOVED, K_CG_EVENT_SCROLL_WHEEL,
    K_CG_EVENT_TAP_DISABLED_BY_TIMEOUT, K_CG_EVENT_TAP_DISABLED_BY_USER_INPUT, TAP_RECREATE_COOLDOWN_MS,
};
use rusty_jack::config::{Config, DeviceSelectorConfig, ScalarWebApiDeviceConfig};
use rusty_jack::scalar_webapi_device::{KEYBOARD_TRIGGER, MOUSE_TRIGGER, OUTPUT_SELECTED_TRIGGER};

#[test]
fn test_parse_hid_idle_duration() {
    let output = "\n    | |   \"HIDIdleTime\" = 1234567890\n    | |   \"Other\" = 1\n";
    assert_eq!(parse_hid_idle_duration(output), Some(1_234_567_890));
}

#[test]
fn test_parse_hid_idle_duration_missing() {
    assert_eq!(parse_hid_idle_duration("\"Other\" = 1"), None);
}

fn trigger_config() -> Config {
    let mut config = Config::default();
    config.scalar_webapi_device = Some(ScalarWebApiDeviceConfig {
        enabled: true,
        model: "test".into(),
        host: Some("device.local".into()),
        port: 10_000,
        path: "/scalar".into(),
        mac_output: DeviceSelectorConfig::default(),
        triggers: vec![KEYBOARD_TRIGGER.into(), MOUSE_TRIGGER.into(), OUTPUT_SELECTED_TRIGGER.into()],
        wake_debounce_ms: 30_000,
        request_timeout_ms: 3_000,
        require_quick_start: true,
    });
    config
}

#[test]
fn test_activity_wake_triggers_filters_keyboard_and_mouse() {
    assert_eq!(activity_wake_triggers(&trigger_config()), vec![String::from("keyboard"), String::from("mouse")]);
    let mut disabled = trigger_config();
    disabled.scalar_webapi_device.as_mut().unwrap().enabled = false;
    assert!(activity_wake_triggers(&disabled).is_empty());
}

fn snapshot(idle_tenths: u64, event: Option<&str>) -> ActivitySnapshot {
    ActivitySnapshot {
        sampled_at_unix_seconds: 1,
        idle_tenths,
        threshold_tenths: 600,
        is_idle: false,
        console_user: Some("hcma".into()),
        daemon_user: "hcma".into(),
        triggers: vec!["keyboard".into(), "mouse".into()],
        last_became_active_at_unix_seconds: event.map(|_| 1),
        last_became_active_console_user: event.map(|_| "hcma".into()),
        last_became_active_daemon_user: event.map(|_| "hcma".into()),
        last_became_active_event: event.map(str::to_string),
    }
}

#[test]
fn test_format_activity_log_line_idle_to_active_transition() {
    assert_eq!(
        format_activity_log_line(&snapshot(1, Some("KeyDown")), ActivityLogEvent::IdleToActiveTransition),
        "[activity] idle→active transition: user input resumed after ≥60.0s without keyboard/mouse; idle_now=0.1s console_user=hcma daemon_user=hcma event=KeyDown scalar_wake_triggers=keyboard,mouse"
    );
}

#[test]
fn test_wake_trigger_for_activity_event() {
    assert_eq!(wake_trigger_for_activity_event("KeyDown"), KEYBOARD_TRIGGER);
    assert_eq!(wake_trigger_for_activity_event("LeftMouseDown"), MOUSE_TRIGGER);
}

#[test]
fn test_format_activity_log_line_poll() {
    assert_eq!(
        format_activity_log_line(&snapshot(124, None), ActivityLogEvent::Poll),
        "[activity] poll: state=active idle=12.4s threshold=60.0s console_user=hcma daemon_user=hcma"
    );
}

#[test]
fn record_poll_keeps_previous_transition() {
    let config = trigger_config();
    let first = record_activity_poll(120, 60_000, 1, 600, &config, true, Some("KeyDown"), Some("hcma".into()), "hcma".into(), 10, None);
    assert_eq!(first.last_became_active_at_unix_seconds, Some(10));
    assert_eq!(first.idle_tenths, 1);
    let second = record_activity_poll(61_000, 60_000, 610, 600, &config, false, None, None, "hcma".into(), 20, Some(first));
    assert!(second.is_idle);
    assert_eq!(second.idle_tenths, 610);
    assert_eq!(second.last_became_active_at_unix_seconds, Some(10));
    assert_eq!(second.last_became_active_event.as_deref(), Some("KeyDown"));
    assert_eq!(second.triggers, vec!["keyboard".to_string(), "mouse".to_string()]);
}

#[test]
fn keyboard_mouse_event_mask_includes_key_and_click_types() {
    let mask = keyboard_mouse_event_mask(false);
    assert_ne!(mask, 0);
    assert_eq!(mask & cg_event_mask_bit(K_CG_EVENT_KEY_DOWN), cg_event_mask_bit(K_CG_EVENT_KEY_DOWN));
    assert_eq!(mask & cg_event_mask_bit(K_CG_EVENT_LEFT_MOUSE_DOWN), cg_event_mask_bit(K_CG_EVENT_LEFT_MOUSE_DOWN));
    assert_eq!(mask & cg_event_mask_bit(K_CG_EVENT_MOUSE_MOVED), 0);
}

#[test]
fn keyboard_mouse_event_mask_can_include_mouse_move() {
    let mask = keyboard_mouse_event_mask(true);
    assert_eq!(mask & cg_event_mask_bit(K_CG_EVENT_MOUSE_MOVED), cg_event_mask_bit(K_CG_EVENT_MOUSE_MOVED));
}

#[test]
fn keyboard_mouse_event_mask_excludes_tablet_events() {
    let mask = keyboard_mouse_event_mask(true);
    assert_eq!(mask & cg_event_mask_bit(23), 0);
    assert_eq!(mask & cg_event_mask_bit(24), 0);
    assert!(mask < u64::MAX);
}

#[test]
fn cg_event_type_label_maps_known_types() {
    assert_eq!(cg_event_type_label(K_CG_EVENT_KEY_DOWN), "KeyDown");
    assert_eq!(cg_event_type_label(K_CG_EVENT_SCROLL_WHEEL), "ScrollWheel");
    assert_eq!(cg_event_type_label(99), "Unknown");
}

#[test]
fn is_event_tap_disabled_notification_matches_coregraphics_values() {
    assert!(is_event_tap_disabled_notification(K_CG_EVENT_TAP_DISABLED_BY_TIMEOUT));
    assert!(is_event_tap_disabled_notification(K_CG_EVENT_TAP_DISABLED_BY_USER_INPUT));
    assert!(!is_event_tap_disabled_notification(K_CG_EVENT_KEY_DOWN));
}

#[test]
fn accessibility_trust_probe_cache_hit_respects_cooldown_boundary() {
    let cooldown = ACCESSIBILITY_TRUST_PROBE_COOLDOWN_NANOS;
    let last_probe = 100_000_000_000;
    assert!(accessibility_trust_probe_cache_hit(last_probe + cooldown - 1, last_probe, cooldown));
    assert!(!accessibility_trust_probe_cache_hit(last_probe + cooldown, last_probe, cooldown));
}

#[test]
fn resolve_accessibility_trust_probe_returns_cached_value_within_cooldown() {
    let cooldown = ACCESSIBILITY_TRUST_PROBE_COOLDOWN_NANOS;
    let last_probe = 100_000_000_000;
    assert_eq!(resolve_accessibility_trust_probe(last_probe + 1, last_probe, true, cooldown, false), (true, last_probe));
}

#[test]
fn resolve_accessibility_trust_probe_refreshes_after_cooldown() {
    let cooldown = ACCESSIBILITY_TRUST_PROBE_COOLDOWN_NANOS;
    let last_probe = 100_000_000_000;
    let now = last_probe + cooldown;
    assert_eq!(resolve_accessibility_trust_probe(now, last_probe, true, cooldown, false), (false, now));
    assert_eq!(resolve_accessibility_trust_probe(now, last_probe, true, cooldown, true), (true, now));
}

#[test]
fn should_try_event_tap_activity_monitor_requires_event_tap_and_trust() {
    let mut event_tap = Config::default();
    event_tap.activity_monitor = "event_tap".into();
    assert!(should_try_event_tap_activity_monitor(&event_tap, true));
    assert!(!should_try_event_tap_activity_monitor(&event_tap, false));
    let mut idle = Config::default();
    idle.activity_monitor = "idle".into();
    assert!(!should_try_event_tap_activity_monitor(&idle, true));
    let mut upper = Config::default();
    upper.activity_monitor = "EVENT_TAP".into();
    assert!(should_try_event_tap_activity_monitor(&upper, true));
}

#[test]
fn silent_tap_idle_action_selects_platform_idle_or_recreate() {
    assert_eq!(silent_tap_idle_action(true, true), SilentTapIdleAction::UsePlatformIdleWithMouseMove);
    assert_eq!(silent_tap_idle_action(false, false), SilentTapIdleAction::UsePlatformIdleUntrustedAccessibility);
    assert_eq!(silent_tap_idle_action(false, true), SilentTapIdleAction::RecreateTap);
}

#[test]
fn silent_tap_idle_action_latches_platform_idle_for_untrusted_accessibility() {
    let action = silent_tap_idle_action(false, false);
    assert_eq!(action, SilentTapIdleAction::UsePlatformIdleUntrustedAccessibility);
    let use_platform_idle = matches!(
        action,
        SilentTapIdleAction::UsePlatformIdleUntrustedAccessibility | SilentTapIdleAction::UsePlatformIdleWithMouseMove
    );
    assert!(use_platform_idle);
}

#[test]
fn event_tap_appears_silent_when_tap_idle_diverges_from_platform_idle() {
    assert!(event_tap_appears_silent(120_000, 1_000));
    assert!(!event_tap_appears_silent(30_000, 1_000));
    assert!(!event_tap_appears_silent(120_000, 60_000));
}

#[test]
fn should_request_tap_recreate_requires_silence_and_cooldown() {
    assert!(should_request_tap_recreate(120_000, 1_000, TAP_RECREATE_COOLDOWN_MS));
    assert!(!should_request_tap_recreate(120_000, 1_000, 30_000));
    assert!(!should_request_tap_recreate(30_000, 1_000, TAP_RECREATE_COOLDOWN_MS));
}

fn now_unix_nanos() -> u64 {
    std::time::SystemTime::now()
        .duration_since(std::time::UNIX_EPOCH)
        .map(|d| d.as_nanos() as u64)
        .unwrap_or(0)
}

struct AtomicPoll<'a, B: Fn()> {
    flag: &'a AtomicBool,
    between: B,
}

impl<'a, B: Fn()> rusty_jack::activity_event_tap::FlagPoller for AtomicPoll<'a, B> {
    fn check(&mut self) -> bool {
        self.flag.load(Ordering::Acquire)
    }

    fn pause(&mut self) {
        (self.between)()
    }
}

#[test]
fn poll_atomic_flag_while_detects_flag_without_sleeping() {
    let flag = AtomicBool::new(false);
    assert!(!rusty_jack::activity_event_tap::poll_atomic_flag_while(
        &mut PollLog::new(AtomicPoll { flag: &flag, between: || {} }),
        3
    ));
    flag.store(true, Ordering::Release);
    assert!(rusty_jack::activity_event_tap::poll_atomic_flag_while(
        &mut PollLog::new(AtomicPoll { flag: &flag, between: || {} }),
        3
    ));
}

#[test]
fn arm_tap_recreate_respects_cooldown() {
    // Two back-to-back calls; the second fails immediately (no 10-minute wait).
    let last_recreate = AtomicU64::new(0);
    let arm = || {
        rusty_jack::activity_event_tap::arm_tap_recreate(
            now_unix_nanos(),
            || last_recreate.load(Ordering::Acquire),
            |last, now| {
                last_recreate.compare_exchange(last, now, Ordering::AcqRel, Ordering::Acquire).is_ok()
            },
        )
    };
    assert!(arm());
    assert!(!arm());
}

#[test]
fn poll_atomic_flag_while_stops_on_flag_set() {
    let flag = AtomicBool::new(false);
    let attempts = AtomicUsize::new(0);
    assert!(rusty_jack::activity_event_tap::poll_atomic_flag_while(
        &mut PollLog::new(AtomicPoll {
            flag: &flag,
            between: || {
                if attempts.fetch_add(1, Ordering::AcqRel) == 1 {
                    flag.store(true, Ordering::Release);
                }
            },
        }),
        4
    ));
    assert_eq!(attempts.load(Ordering::Acquire), 2);
}

#[test]
fn poll_atomic_flag_while_pauses_after_every_miss() {
    let flag = AtomicBool::new(false);
    let pauses = AtomicUsize::new(0);
    assert!(!rusty_jack::activity_event_tap::poll_atomic_flag_while(
        &mut PollLog::new(AtomicPoll {
            flag: &flag,
            between: || {
                pauses.fetch_add(1, Ordering::AcqRel);
            },
        }),
        0
    ));
    assert_eq!(pauses.load(Ordering::Acquire), 1);
}
