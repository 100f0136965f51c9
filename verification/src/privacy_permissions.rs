//! Re-check macOS privacy permissions on install/upgrade.
//!
//! - **Accessibility**: required when `activity_monitor` is `event_tap`
//!   (keyboard/mouse wake).
//! - **Local Network**: required when ScalarWebAPI is enabled (SSDP discovery).
//!
//! The two probes (the Accessibility trust query and a short SSDP scan) are
//! handed in by the caller; each runs only when its permission is required.
use crate::config::Config;
use crate::text::{concat3, eq_ignore_ascii_case, eq_ignore_case, owned, push_line, texts};
use vstd::prelude::*;

verus! {

/// Short SSDP window used only as a Local Network permission heuristic.
pub const LOCAL_NETWORK_PROBE_TIMEOUT_MS: u64 = 1500;

/// Privacy permission snapshot for install/upgrade.
#[derive(Debug)]
pub struct PrivacyPermissionStatus {
    pub accessibility_required: bool,
    /// Whether the process is trusted, when Accessibility is required.
    pub accessibility_trusted: Option<bool>,
    pub force_daemon_restart: bool,
    /// `Some(true)` when SSDP heard a device; `None` when unchecked or
    /// inconclusive. Empty or failed discovery is never read as a denial.
    pub local_network_ok: Option<bool>,
    pub local_network_required: bool,
    pub notes: Vec<String>,
}

/// The configuration a setup command found.
#[derive(Debug)]
pub enum SetupConfig {
    Loaded(Config),
    /// No config path, or no file there.
    Missing,
    /// The file exists but could not be read or validated (with the reason).
    Failed(String),
}

pub open spec fn spec_accessibility_required(config: Config) -> bool {
    eq_ignore_case(config.activity_monitor@, "event_tap"@)
}

pub open spec fn spec_local_network_required(config: Config) -> bool {
    config.scalar_webapi_device matches Some(api) && api.enabled
}

/// The notes a check writes for what the probes found.
pub open spec fn check_notes(
    accessibility_required: bool,
    accessibility_trusted: Option<bool>,
    local_network_required: bool,
    local_network_ok: Option<bool>,
) -> Seq<Seq<char>> {
    let a = if accessibility_required {
        match accessibility_trusted {
            Some(true) => seq!["Accessibility permission looks granted"@],
            Some(false) => seq![
                "Accessibility permission missing (required for activity_monitor=event_tap)"@,
            ],
            None => seq![],
        }
    } else {
        seq![]
    };
    let l = if local_network_required {
        if local_network_ok == Some(true) {
            seq!["Local Network SSDP probe found at least one device"@]
        } else {
            seq![
                "Local Network not confirmed (no LAN route or SSDP inconclusive; not treating as denied)"@,
            ]
        }
    } else {
        seq![]
    };
    a + l
}

/// The status a check reports for the given probe outcomes.
pub fn privacy_status(
    accessibility_required: bool,
    accessibility_trusted: Option<bool>,
    local_network_required: bool,
    local_network_ok: Option<bool>,
) -> (r: PrivacyPermissionStatus)
    ensures
        r.accessibility_required == accessibility_required,
        r.accessibility_trusted == accessibility_trusted,
        !r.force_daemon_restart,
        r.local_network_required == local_network_required,
        r.local_network_ok == local_network_ok,
        texts(r.notes@) == check_notes(
            accessibility_required,
            accessibility_trusted,
            local_network_required,
            local_network_ok,
        ),
{
    let mut notes: Vec<String> = Vec::new();
    if accessibility_required {
        match accessibility_trusted {
            Some(true) => push_line(&mut notes, owned("Accessibility permission looks granted")),
            Some(false) => push_line(
                &mut notes,
                owned("Accessibility permission missing (required for activity_monitor=event_tap)"),
            ),
            None => {},
        }
    }
    let ghost after_a = texts(notes@);
    if local_network_required {
        if local_network_ok == Some(true) {
            push_line(&mut notes, owned("Local Network SSDP probe found at least one device"));
        } else {
            push_line(
                &mut notes,
                owned(
                    "Local Network not confirmed (no LAN route or SSDP inconclusive; not treating as denied)",
                ),
            );
        }
    }
    assert(texts(notes@) =~= check_notes(
        accessibility_required,
        accessibility_trusted,
        local_network_required,
        local_network_ok,
    ));
    PrivacyPermissionStatus {
        accessibility_required,
        accessibility_trusted,
        force_daemon_restart: false,
        local_network_ok,
        local_network_required,
        notes,
    }
}

/// Probe the permissions `config` needs, without prompting. The Accessibility
/// probe runs only for `event_tap`, the Local Network probe only when
/// ScalarWebAPI is enabled.
pub fn check_privacy_permissions<A, P>(
    config: &Config,
    accessibility_probe: A,
    local_network_probe: P,
) -> (r: PrivacyPermissionStatus) where A: Fn() -> bool, P: Fn() -> Option<bool>,
    requires
        call_requires(accessibility_probe, ()),
        call_requires(local_network_probe, ()),
    ensures
        r.accessibility_required == spec_accessibility_required(*config),
        r.local_network_required == spec_local_network_required(*config),
        !r.force_daemon_restart,
        r.accessibility_trusted is Some <==> r.accessibility_required,
        r.accessibility_trusted matches Some(t) ==> call_ensures(accessibility_probe, (), t),
        r.local_network_required ==> call_ensures(local_network_probe, (), r.local_network_ok),
        !r.local_network_required ==> r.local_network_ok is None,
        texts(r.notes@) == check_notes(
            r.accessibility_required,
            r.accessibility_trusted,
            r.local_network_required,
            r.local_network_ok,
        ),
{
    let accessibility_required = eq_ignore_ascii_case(config.activity_monitor.as_str(), "event_tap");
    let local_network_required = match &config.scalar_webapi_device {
        Some(api) => api.enabled,
        None => false,
    };
    let accessibility_trusted = if accessibility_required {
        Some(accessibility_probe())
    } else {
        None
    };
    let local_network_ok = if local_network_required {
        local_network_probe()
    } else {
        None
    };
    privacy_status(
        accessibility_required,
        accessibility_trusted,
        local_network_required,
        local_network_ok,
    )
}

/// Notes for a non-interactive setup: how to grant what is missing.
pub open spec fn noninteractive_notes(
    accessibility_required: bool,
    accessibility_trusted: Option<bool>,
    local_network_required: bool,
    local_network_ok: Option<bool>,
) -> Seq<Seq<char>> {
    (if accessibility_required && accessibility_trusted == Some(false) {
        seq!["grant Accessibility to rusty-jack, then run: rusty-jack upgrade --force"@]
    } else {
        seq![]
    }) + (if local_network_required && local_network_ok is None {
        seq!["if SSDP discovery stays empty, grant Local Network then: rusty-jack upgrade --force"@]
    } else {
        seq![]
    })
}

pub fn push_noninteractive_notes(status: &mut PrivacyPermissionStatus)
    ensures
        final(status).accessibility_required == old(status).accessibility_required,
        final(status).accessibility_trusted == old(status).accessibility_trusted,
        final(status).force_daemon_restart == old(status).force_daemon_restart,
        final(status).local_network_required == old(status).local_network_required,
        final(status).local_network_ok == old(status).local_network_ok,
        texts(final(status).notes@) == texts(old(status).notes@) + noninteractive_notes(
            old(status).accessibility_required,
            old(status).accessibility_trusted,
            old(status).local_network_required,
            old(status).local_network_ok,
        ),
{
    let ghost before = texts(status.notes@);
    if status.accessibility_required && status.accessibility_trusted == Some(false) {
        push_line(
            &mut status.notes,
            owned("grant Accessibility to rusty-jack, then run: rusty-jack upgrade --force"),
        );
    }
    if status.local_network_required && status.local_network_ok.is_none() {
        push_line(
            &mut status.notes,
            owned("if SSDP discovery stays empty, grant Local Network then: rusty-jack upgrade --force"),
        );
    }
    assert(texts(status.notes@) =~= before + noninteractive_notes(
        status.accessibility_required,
        status.accessibility_trusted,
        status.local_network_required,
        status.local_network_ok,
    ));
}

/// Check the permissions `config` needs; when any is required, the daemon
/// must be force-restarted so grants attach to it. A non-interactive run adds
/// notes on how to grant what is missing; an interactive one leaves the
/// prompting to the caller (see [`accessibility_prompt_needed`] and
/// [`local_network_prompt_needed`]).
pub fn ensure_privacy_permissions<A, P>(
    config: &Config,
    interactive: bool,
    accessibility_probe: A,
    local_network_probe: P,
) -> (r: PrivacyPermissionStatus) where A: Fn() -> bool, P: Fn() -> Option<bool>,
    requires
        call_requires(accessibility_probe, ()),
        call_requires(local_network_probe, ()),
    ensures
        r.accessibility_required == spec_accessibility_required(*config),
        r.local_network_required == spec_local_network_required(*config),
        r.force_daemon_restart == (r.accessibility_required || r.local_network_required),
        r.accessibility_trusted is Some <==> r.accessibility_required,
        r.accessibility_trusted matches Some(t) ==> call_ensures(accessibility_probe, (), t),
        r.local_network_required ==> call_ensures(local_network_probe, (), r.local_network_ok),
        !r.local_network_required ==> r.local_network_ok is None,
        texts(r.notes@) == check_notes(
            r.accessibility_required,
            r.accessibility_trusted,
            r.local_network_required,
            r.local_network_ok,
        ) + (if !interactive && r.force_daemon_restart {
            noninteractive_notes(
                r.accessibility_required,
                r.accessibility_trusted,
                r.local_network_required,
                r.local_network_ok,
            )
        } else {
            seq![]
        }),
{
    let mut status = check_privacy_permissions(config, accessibility_probe, local_network_probe);
    if !(status.accessibility_required || status.local_network_required) {
        assert(texts(status.notes@) =~= texts(status.notes@) + seq![]);
        return status;
    }
    status.force_daemon_restart = true;
    if !interactive {
        push_noninteractive_notes(&mut status);
    } else {
        assert(texts(status.notes@) =~= texts(status.notes@) + seq![]);
    }
    status
}

/// A status that records why no check ran.
fn skipped_status(note: String) -> (r: PrivacyPermissionStatus)
    ensures
        !r.accessibility_required,
        r.accessibility_trusted is None,
        !r.force_daemon_restart,
        r.local_network_ok is None,
        !r.local_network_required,
        texts(r.notes@) == seq![note@],
{
    let mut notes: Vec<String> = Vec::new();
    push_line(&mut notes, note);
    assert(texts(notes@) =~= seq![note@]);
    PrivacyPermissionStatus {
        accessibility_required: false,
        accessibility_trusted: None,
        force_daemon_restart: false,
        local_network_ok: None,
        local_network_required: false,
        notes,
    }
}

/// Privacy permissions for install/upgrade. A config that failed to load is
/// tolerated: the checks are skipped, so `upgrade` can still refresh the
/// LaunchAgent.
pub fn ensure_privacy_permissions_for_setup<A, P>(
    setup: &SetupConfig,
    interactive: bool,
    accessibility_probe: A,
    local_network_probe: P,
) -> (r: PrivacyPermissionStatus) where A: Fn() -> bool, P: Fn() -> Option<bool>,
    requires
        call_requires(accessibility_probe, ()),
        call_requires(local_network_probe, ()),
    ensures
        match setup {
            SetupConfig::Loaded(config) => {
                &&& r.accessibility_required == spec_accessibility_required(*config)
                &&& r.local_network_required == spec_local_network_required(*config)
                &&& r.force_daemon_restart == (r.accessibility_required
                    || r.local_network_required)
                &&& (r.accessibility_trusted is Some <==> r.accessibility_required)
                &&& (r.accessibility_trusted matches Some(t) ==> call_ensures(
                    accessibility_probe,
                    (),
                    t,
                ))
                &&& (r.local_network_required ==> call_ensures(
                    local_network_probe,
                    (),
                    r.local_network_ok,
                ))
                &&& (!r.local_network_required ==> r.local_network_ok is None)
            },
            SetupConfig::Missing => {
                &&& !r.accessibility_required && !r.local_network_required
                &&& !r.force_daemon_restart
                &&& r.accessibility_trusted is None && r.local_network_ok is None
                &&& texts(r.notes@) == seq!["no config loaded; skipped privacy permission checks"@]
            },
            SetupConfig::Failed(detail) => {
                &&& !r.accessibility_required && !r.local_network_required
                &&& !r.force_daemon_restart
                &&& r.accessibility_trusted is None && r.local_network_ok is None
                &&& texts(r.notes@) == seq![
                    "skipped privacy checks (config load failed: "@ + detail@ + ")"@,
                ]
            },
        },
{
    match setup {
        SetupConfig::Loaded(config) => ensure_privacy_permissions(
            config,
            interactive,
            accessibility_probe,
            local_network_probe,
        ),
        SetupConfig::Missing => skipped_status(
            owned("no config loaded; skipped privacy permission checks"),
        ),
        SetupConfig::Failed(detail) => skipped_status(
            concat3("skipped privacy checks (config load failed: ", detail.as_str(), ")"),
        ),
    }
}

/// Accessibility is required and known to be missing: worth a prompt.
pub fn accessibility_prompt_needed(status: &PrivacyPermissionStatus) -> (r: bool)
    ensures
        r == (status.accessibility_required && status.accessibility_trusted == Some(false)),
{
    status.accessibility_required && status.accessibility_trusted == Some(false)
}

/// Local Network is required and could not be confirmed: worth an optional
/// prompt.
pub fn local_network_prompt_needed(status: &PrivacyPermissionStatus) -> (r: bool)
    ensures
        r == (status.local_network_required && status.local_network_ok is None),
{
    status.local_network_required && status.local_network_ok.is_none()
}

/// After the Accessibility prompt: a grant binds at process start, so it is
/// not re-checked here; the restarted daemon picks it up.
pub fn note_accessibility_prompted(status: &mut PrivacyPermissionStatus)
    ensures
        final(status).accessibility_trusted == old(status).accessibility_trusted,
        final(status).local_network_ok == old(status).local_network_ok,
        final(status).force_daemon_restart == old(status).force_daemon_restart,
        final(status).accessibility_required == old(status).accessibility_required,
        final(status).local_network_required == old(status).local_network_required,
        texts(final(status).notes@) == texts(old(status).notes@).push(
            "Accessibility grant (if toggled) applies after daemon restart; not re-checked in this process"@,
        ),
{
    push_line(
        &mut status.notes,
        owned(
            "Accessibility grant (if toggled) applies after daemon restart; not re-checked in this process",
        ),
    );
}

/// Record a Local Network probe run again after the user opened the settings.
pub fn record_local_network_reprobe(status: &mut PrivacyPermissionStatus, ok: Option<bool>)
    ensures
        final(status).local_network_ok == ok,
        final(status).accessibility_trusted == old(status).accessibility_trusted,
        final(status).force_daemon_restart == old(status).force_daemon_restart,
        final(status).accessibility_required == old(status).accessibility_required,
        final(status).local_network_required == old(status).local_network_required,
        texts(final(status).notes@) == (if ok == Some(true) {
            texts(old(status).notes@).push("Local Network SSDP probe succeeded after grant"@)
        } else {
            texts(old(status).notes@)
        }),
{
    status.local_network_ok = ok;
    if ok == Some(true) {
        push_line(&mut status.notes, owned("Local Network SSDP probe succeeded after grant"));
    }
}

/// Map an SSDP discovery outcome to Local Network status: a device heard is
/// `Some(true)`; none, or a failed scan, is inconclusive (never `Some(false)`).
pub fn local_network_status_from_discovery(device_count: Result<usize, ()>) -> (r: Option<bool>)
    ensures
        r == (if device_count matches Ok(n) && n > 0 {
            Some(true)
        } else {
            None::<bool>
        }),
{
    match device_count {
        Ok(count) => if count > 0 {
            Some(true)
        } else {
            None
        },
        Err(()) => None,
    }
}

/// The human summary printed after install/upgrade (nothing when no
/// permission is required).
pub open spec fn spec_status_lines(status: PrivacyPermissionStatus) -> Seq<Seq<char>> {
    if !(status.accessibility_required || status.local_network_required) {
        seq![]
    } else {
        seq![""@, "Privacy permissions"@] + (if status.accessibility_required {
            seq![
                "  Accessibility: "@ + match status.accessibility_trusted {
                    Some(true) => "granted"@,
                    Some(false) => "missing"@,
                    None => "unchecked"@,
                },
            ]
        } else {
            seq![]
        }) + (if status.local_network_required {
            seq![
                "  Local Network: "@ + if status.local_network_ok == Some(true) {
                    "ok (SSDP probe heard a device)"@
                } else {
                    "unchecked / inconclusive"@
                },
            ]
        } else {
            seq![]
        }) + texts(status.notes@).map_values(|n: Seq<char>| "  note: "@ + n) + (
        if status.force_daemon_restart {
            seq!["  daemon: force-restarted so permission changes apply"@]
        } else {
            seq![]
        })
    }
}

pub fn privacy_status_lines(status: &PrivacyPermissionStatus) -> (r: Vec<String>)
    ensures
        texts(r@) == spec_status_lines(*status),
{
    let mut out: Vec<String> = Vec::new();
    if !(status.accessibility_required || status.local_network_required) {
        assert(texts(out@) =~= seq![]);
        return out;
    }
    push_line(&mut out, owned(""));
    push_line(&mut out, owned("Privacy permissions"));
    if status.accessibility_required {
        let state = match status.accessibility_trusted {
            Some(true) => "granted",
            Some(false) => "missing",
            None => "unchecked",
        };
        push_line(&mut out, crate::text::concat2("  Accessibility: ", state));
    }
    if status.local_network_required {
        let state = if status.local_network_ok == Some(true) {
            "ok (SSDP probe heard a device)"
        } else {
            "unchecked / inconclusive"
        };
        push_line(&mut out, crate::text::concat2("  Local Network: ", state));
    }
    let ghost head = texts(out@);
    let mut i: usize = 0;
    while i < status.notes.len()
        invariant
            i <= status.notes@.len(),
            texts(out@) == head + texts(status.notes@).subrange(0, i as int).map_values(
                |n: Seq<char>| "  note: "@ + n,
            ),
        decreases status.notes@.len() - i,
    {
        let ghost prev = texts(out@);
        push_line(&mut out, crate::text::concat2("  note: ", status.notes[i].as_str()));
        assert(texts(status.notes@).subrange(0, i + 1) =~= texts(status.notes@).subrange(
            0,
            i as int,
        ).push(status.notes@[i as int]@));
        assert(texts(out@) =~= head + texts(status.notes@).subrange(0, i + 1).map_values(
            |n: Seq<char>| "  note: "@ + n,
        ));
        i = i + 1;
    }
    assert(texts(status.notes@).subrange(0, status.notes@.len() as int) =~= texts(status.notes@));
    if status.force_daemon_restart {
        push_line(&mut out, owned("  daemon: force-restarted so permission changes apply"));
    }
    assert(texts(out@) =~= spec_status_lines(*status));
    out
}

} // verus!
