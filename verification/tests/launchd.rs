use rusty_jack::launchd::{
    daemon_process_running, daemon_status, daemon_supervisor_error_message, daemon_upgrade_is_current,
    daemon_version_check, daemon_version_from_plist, env_var_from_environ, install_result_lines,
    launch_agent_binary_path_from_plist, parse_binary_version_output, parse_launchctl_field,
    parse_launchctl_pid, pause_daemon_with_reason, previous_binary_version_from_snapshot,
    render_launch_agent_plist, resume_daemon, service_id, should_load_after_write,
    should_stop_before_write, unescape_xml, escape_xml, upgrade_daemon, upgrade_result_lines,
    write_and_load_plan, DaemonPauseReason, DaemonStatus, InstallResult, LoadDaemonResult,
    LoadMode, PauseResult, ResumeResult, UpgradeResult, DAEMON_GIT_COMMIT_ENV, DAEMON_PKG_VERSION_ENV,
    LAUNCH_AGENT_LABEL,
};
use rusty_jack::version::BinaryVersion;
use rusty_jack::RustyJackError;

#[test]
fn test_parse_launchctl_field_reads_job_metadata() {
    let output = "\n\tstate = spawn scheduled\n\tpid = 20890\n\tlast exit code = 78: EX_CONFIG\n";
    assert_eq!(parse_launchctl_field(output, "state =").as_deref(), Some("spawn scheduled"));
    assert_eq!(parse_launchctl_pid(output), Some(20_890));
    assert_eq!(parse_launchctl_field(output, "last exit code =").as_deref(), Some("78: EX_CONFIG"));
}

#[test]
fn test_daemon_process_running_requires_pid() {
    let running = DaemonStatus::Running {
        label: LAUNCH_AGENT_LABEL.into(),
        plist_path: "/tmp/test.plist".into(),
        service: "gui/501/com.example.rusty-jack".into(),
        pid: Some(42),
        launch_job_state: None,
        last_exit_code: None,
    };
    let loaded = DaemonStatus::Running {
        pid: None,
        launch_job_state: Some("spawn scheduled".into()),
        last_exit_code: Some("78: EX_CONFIG".into()),
        label: LAUNCH_AGENT_LABEL.into(),
        plist_path: "/tmp/test.plist".into(),
        service: "gui/501/com.example.rusty-jack".into(),
    };
    assert!(daemon_process_running(&running));
    assert!(!daemon_process_running(&loaded));
    assert!(daemon_supervisor_error_message(&loaded).is_some());
    assert_eq!(
        daemon_supervisor_error_message(&loaded).unwrap(),
        "daemon not running (launchd state=spawn scheduled) (last exit code=78: EX_CONFIG); run `rusty-jack upgrade --force` or `rusty-jack resume`"
    );
    assert_eq!(daemon_supervisor_error_message(&running), None);
}

#[test]
fn test_service_id_format() {
    assert_eq!(service_id("gui/501", LAUNCH_AGENT_LABEL), "gui/501/com.example.rusty-jack");
}

fn sample_daemon_version() -> BinaryVersion {
    BinaryVersion { version: "0.6.0".into(), commit: "abc1234".into() }
}

#[test]
fn test_render_launch_agent_plist_replaces_placeholders() {
    let version = sample_daemon_version();
    let plist = render_launch_agent_plist("/tmp/rusty-jack", "/Users/example", &version);
    assert!(plist.contains("<string>/tmp/rusty-jack</string>"));
    assert!(plist.contains("<string>daemon</string>"));
    assert!(plist.contains("<string>0.6.0</string>"));
    assert!(plist.contains("<string>abc1234</string>"));
    assert!(!plist.contains("@BINARY_PATH@"));
    assert!(!plist.contains("@DAEMON_PKG_VERSION@"));
    assert!(!plist.contains("StandardOutPath"));
}

#[test]
fn test_render_launch_agent_plist_escapes_xml() {
    let version = sample_daemon_version();
    let plist = render_launch_agent_plist("/tmp/rusty&jack", "/Users/a<b", &version);
    assert!(plist.contains("/tmp/rusty&amp;jack"));
    assert!(plist.contains("/Users/a&lt;b"));
}

#[test]
fn test_launch_agent_binary_path_from_plist() {
    let version = sample_daemon_version();
    let plist = render_launch_agent_plist("/tmp/rusty&jack", "/Users/example", &version);
    assert_eq!(launch_agent_binary_path_from_plist(&plist).as_deref(), Some("/tmp/rusty&jack"));
}

#[test]
fn test_daemon_version_from_plist_reads_stamped_env() {
    let version = sample_daemon_version();
    let plist = render_launch_agent_plist("/tmp/rusty-jack", "/Users/example", &version);
    assert_eq!(daemon_version_from_plist(&plist).as_ref(), Some(&version));
}

#[test]
fn test_env_var_from_environ() {
    let entries = [
        String::from("RUST_LOG=info"),
        String::from("RUSTY_JACK_DAEMON_PKG_VERSION=0.6.0"),
        String::from("RUSTY_JACK_DAEMON_GIT_COMMIT=abc1234"),
    ];
    assert_eq!(env_var_from_environ(&entries, DAEMON_PKG_VERSION_ENV).as_deref(), Some("0.6.0"));
    assert_eq!(env_var_from_environ(&entries, DAEMON_GIT_COMMIT_ENV).as_deref(), Some("abc1234"));
    assert_eq!(env_var_from_environ(&entries, "MISSING"), None);
}

#[test]
fn test_binary_version_matches_compares_version_and_commit() {
    let left = BinaryVersion { version: "0.4.1".into(), commit: "abc1234".into() };
    let right = BinaryVersion { version: "0.4.1".into(), commit: "abc1234".into() };
    let other = BinaryVersion { version: "0.4.2".into(), commit: "abc1234".into() };
    assert!(left.matches(&right));
    assert!(!left.matches(&other));
}

#[test]
fn test_parse_binary_version_output() {
    assert_eq!(
        parse_binary_version_output("rusty-jack 0.1.0 (commit abc1234)\n"),
        Some(BinaryVersion { version: "0.1.0".into(), commit: "abc1234".into() })
    );
    assert_eq!(parse_binary_version_output("rusty-jack 0.1.0"), None);
}

#[test]
fn test_previous_binary_version_from_snapshot() {
    assert_eq!(
        previous_binary_version_from_snapshot(Some("rusty-jack 0.1.0 (commit old1234)")),
        Some(BinaryVersion { version: "0.1.0".into(), commit: "old1234".into() })
    );
    assert_eq!(previous_binary_version_from_snapshot(Some("   ")), None);
    assert_eq!(previous_binary_version_from_snapshot(None), None);
}

#[test]
fn test_parse_launchctl_pid() {
    let output = "\n\tstate = running\n\tpid = 12345\n";
    assert_eq!(parse_launchctl_pid(output), Some(12_345));
}

#[test]
fn test_install_always_loads_after_write() {
    assert!(should_stop_before_write(LoadMode::Install, true, false));
    assert!(should_stop_before_write(LoadMode::Install, false, true));
    assert!(should_load_after_write(LoadMode::Install, true, false));
    assert!(should_load_after_write(LoadMode::Install, false, false));
}

#[test]
fn test_upgrade_pauses_only_running_daemon() {
    assert!(should_stop_before_write(LoadMode::Upgrade, true, true));
    assert!(!should_stop_before_write(LoadMode::Upgrade, true, false));
    assert!(should_load_after_write(LoadMode::Upgrade, true, true));
    assert!(!should_load_after_write(LoadMode::Upgrade, true, false));
}

#[test]
fn test_daemon_upgrade_is_current_when_plist_binary_and_version_match() {
    let version = BinaryVersion { version: "0.1.0".into(), commit: "abc1234".into() };
    let plist = render_launch_agent_plist("/tmp/rusty-jack", "/Users/example", &version);
    assert!(daemon_upgrade_is_current(false, Some(&plist), &plist, Some("/tmp/rusty-jack"), Some(&version), "/tmp/rusty-jack", &version));
}

#[test]
fn test_daemon_upgrade_force_bypasses_current_check() {
    let version = BinaryVersion { version: "0.1.0".into(), commit: "abc1234".into() };
    let plist = render_launch_agent_plist("/tmp/rusty-jack", "/Users/example", &version);
    assert!(!daemon_upgrade_is_current(true, Some(&plist), &plist, Some("/tmp/rusty-jack"), Some(&version), "/tmp/rusty-jack", &version));
}

#[test]
fn test_picker_pause_reason_serializes() {
    let reason = DaemonPauseReason::picker_override("builtin".into(), "Built-in Output".into(), Some("hdmi-1".into()));
    assert_eq!(reason.label(), "picker override");
    assert!(reason.message().contains("rusty-jack resume"));
    assert_eq!(reason.message(), "user picked Built-in Output; daemon is paused until `rusty-jack resume`");
    let paused = pause_daemon_with_reason("/tmp/test.plist".into(), true, true, Some(reason));
    assert!(matches!(paused, PauseResult::Paused { was_loaded: true, pause_reason: Some(_), .. }));
    let missing = pause_daemon_with_reason("/tmp/test.plist".into(), false, true, None);
    assert!(matches!(missing, PauseResult::NotInstalled { .. }));
}

#[test]
fn xml_escape_round_trips() {
    let raw = "a&b<c>d\"e'f &amp;";
    assert_eq!(escape_xml(raw), "a&amp;b&lt;c&gt;d&quot;e&apos;f &amp;amp;");
    assert_eq!(unescape_xml(&escape_xml(raw)), raw);
}

#[test]
fn status_from_launchctl_output() {
    let printed = Ok(Some("\tstate = running\n\tpid = 77\n".to_string()));
    let status = daemon_status("/p.plist".into(), true, "gui/501", printed, None);
    match status {
        DaemonStatus::Running { pid, service, launch_job_state, last_exit_code, .. } => {
            assert_eq!(pid, Some(77));
            assert_eq!(service, "gui/501/com.example.rusty-jack");
            assert_eq!(launch_job_state.as_deref(), Some("running"));
            assert_eq!(last_exit_code, None);
        }
        other => panic!("unexpected {other:?}"),
    }
    assert!(matches!(daemon_status("/p.plist".into(), true, "gui/501", Ok(None), None), DaemonStatus::Paused { .. }));
    assert!(matches!(daemon_status("/p.plist".into(), false, "gui/501", Ok(None), None), DaemonStatus::NotInstalled { .. }));
    match daemon_status("/p.plist".into(), true, "gui/501", Err(RustyJackError::Launchd("boom".into())), None) {
        DaemonStatus::Unknown { message, .. } => assert_eq!(message, "launchd error: boom"),
        other => panic!("unexpected {other:?}"),
    }
}

#[test]
fn resume_enables_then_bootstraps() {
    let resume = |statuses: Vec<i32>, exists: bool, loaded: bool| {
        let mut setup = rusty_jack::launchd::AgentLog::new(RecordedSetup { statuses, steps: vec![] });
        let r = resume_daemon(&mut setup, "/p.plist".into(), exists, loaded, "gui/501");
        (r, setup.setup.steps)
    };
    let (r, steps) = resume(vec![0, 0], true, false);
    assert!(matches!(r.unwrap(), ResumeResult::Resumed { .. }));
    assert_eq!(
        steps,
        vec![
            "enable gui/501/com.example.rusty-jack".to_string(),
            "bootstrap gui/501 /p.plist".into(),
            "clear".into(),
        ]
    );
    let (r, steps) = resume(vec![5], true, false);
    match r {
        Err(RustyJackError::Launchd(m)) => assert_eq!(m, "launchctl enable gui/501/com.example.rusty-jack failed (status 5)"),
        other => panic!("unexpected {other:?}"),
    }
    assert_eq!(steps.len(), 1);
    let (r, steps) = resume(vec![0, -1], true, false);
    match r {
        Err(RustyJackError::Launchd(m)) => assert_eq!(m, "launchctl bootstrap gui/501 /p.plist failed (status -1)"),
        other => panic!("unexpected {other:?}"),
    }
    assert!(!steps.contains(&"clear".to_string()));
    let (r, steps) = resume(vec![], true, true);
    assert!(matches!(r.unwrap(), ResumeResult::AlreadyRunning { .. }));
    assert_eq!(steps, vec!["clear".to_string()]);
    let (r, steps) = resume(vec![], false, true);
    assert!(matches!(r.unwrap(), ResumeResult::NotInstalled { .. }));
    assert_eq!(steps, vec!["clear".to_string()]);
}

fn load_result(had_plist: bool, changed: bool) -> LoadDaemonResult {
    LoadDaemonResult {
        label: LAUNCH_AGENT_LABEL.into(),
        plist_path: "/tmp/test.plist".into(),
        binary_path: "/tmp/rusty-jack".into(),
        binary_version: BinaryVersion { version: "0.1.0".into(), commit: "new1234".into() },
        previous_binary_path: Some("/tmp/old-rusty-jack".into()),
        previous_binary_version: Some(BinaryVersion { version: "0.1.0".into(), commit: "plist1234".into() }),
        previous_running_daemon_version: Some(BinaryVersion { version: "0.1.0".into(), commit: "old1234".into() }),
        was_loaded: true,
        had_plist,
        changed,
        resumed_after_upgrade: true,
    }
}

#[test]
fn upgrade_outcome_follows_plist_state() {
    assert!(matches!(upgrade_daemon(load_result(true, false)), UpgradeResult::UpToDate { .. }));
    assert!(matches!(upgrade_daemon(load_result(true, true)), UpgradeResult::Upgraded { .. }));
    assert!(matches!(upgrade_daemon(load_result(false, true)), UpgradeResult::Installed { .. }));
    let plan = write_and_load_plan(LoadMode::Upgrade, true, true, true);
    assert!(plan.up_to_date && !plan.load_after_write);
    let plan = write_and_load_plan(LoadMode::Upgrade, false, true, true);
    assert!(!plan.up_to_date && plan.stop_before_write && plan.load_after_write && plan.resumed_after_upgrade);
}

#[test]
fn upgrade_lines_show_versions() {
    let lines = upgrade_result_lines(&upgrade_daemon(load_result(true, true)));
    assert_eq!(lines[0], "Upgraded rusty-jack daemon LaunchAgent (com.example.rusty-jack)");
    assert_eq!(lines[1], "  daemon before: 0.1.0 (commit old1234)");
    assert_eq!(lines[2], "  plist before:  0.1.0 (commit plist1234)");
    assert_eq!(lines[3], "  old binary: /tmp/old-rusty-jack");
    assert_eq!(lines.last().unwrap(), "  auto-routing: active");
    let install = InstallResult::Installed {
        label: LAUNCH_AGENT_LABEL.into(),
        plist_path: "/p".into(),
        binary_path: "/b".into(),
        was_loaded: false,
    };
    assert_eq!(install_result_lines(&install)[3], "  restarted:   no");
}

#[test]
fn version_check_flags_stale_daemon() {
    let cli = BinaryVersion { version: "0.2.0".into(), commit: "c".into() };
    let check = daemon_version_check(
        "/bin/rj".into(),
        cli.clone(),
        Some("/bin/rj".into()),
        Some(cli.clone()),
        true,
        Some(9),
        Some(BinaryVersion { version: "0.1.0".into(), commit: "c".into() }),
        None,
    );
    assert!(!check.needs_version_stamp_refresh);
    assert!(check.stale);
    let check = daemon_version_check("/bin/rj".into(), cli.clone(), Some("/bin/rj".into()), Some(cli.clone()), true, None, None, None);
    assert!(!check.stale);
    let check = daemon_version_check("/bin/rj".into(), cli.clone(), Some("/bin/rj".into()), Some(cli), false, None, None, None);
    assert!(check.needs_version_stamp_refresh && check.stale);
}

#[test]
fn test_launch_agent_plist_path_ends_with_label() {
    let path = rusty_jack::launchd::launch_agent_plist_path(Some("/Users/example")).unwrap();
    assert!(path.ends_with("Library/LaunchAgents/com.example.rusty-jack.plist"));
    assert_eq!(path, "/Users/example/Library/LaunchAgents/com.example.rusty-jack.plist");
    assert_eq!(rusty_jack::launchd::launch_agent_plist_path(None), None);
}

#[test]
fn test_daemon_log_paths_under_home() {
    let home = "/Users/example";
    let paths = rusty_jack::launchd::daemon_log_paths(None, Some(home)).unwrap();
    assert!(paths.file.ends_with("rusty-jack.log"));
    assert!(paths.file.starts_with(home));
    let paths = rusty_jack::launchd::daemon_log_paths(Some("/tmp/x.log"), Some(home)).unwrap();
    assert_eq!(paths.file, "/tmp/x.log");
}

#[test]
fn test_gui_domain_looks_valid() {
    let domain = rusty_jack::launchd::gui_domain_from_id_output(true, "501\n").unwrap();
    assert!(domain.starts_with("gui/"));
    assert_eq!(domain, "gui/501");
    assert!(matches!(
        rusty_jack::launchd::gui_domain_from_id_output(true, "  "),
        Err(rusty_jack::RustyJackError::Launchd(m)) if m == "empty user id"
    ));
    assert!(rusty_jack::launchd::gui_domain_from_id_output(false, "501").is_err());
}

#[derive(Default)]
struct RecordedSetup {
    statuses: Vec<i32>,
    steps: Vec<String>,
}

impl rusty_jack::launchd::AgentSetup for RecordedSetup {
    fn stop_job(&mut self) {
        self.steps.push("stop".into());
    }
    fn write_plist(&mut self, _contents: &str) -> Result<(), RustyJackError> {
        self.steps.push("write".into());
        Ok(())
    }
    fn run_launchctl(&mut self, args: &[&str]) -> Result<i32, RustyJackError> {
        self.steps.push(args.join(" "));
        Ok(self.statuses.remove(0))
    }
    fn clear_pause_reason(&mut self) {
        self.steps.push("clear".into());
    }
}

fn load(
    mode: rusty_jack::launchd::LoadMode,
    statuses: Vec<i32>,
    was_loaded: bool,
    existing: Option<&str>,
    previous: Option<BinaryVersion>,
) -> (Result<LoadDaemonResult, RustyJackError>, Vec<String>) {
    let mut setup = rusty_jack::launchd::AgentLog::new(RecordedSetup { statuses, steps: vec![] });
    let r = rusty_jack::launchd::write_and_load_daemon(
        &mut setup,
        mode,
        false,
        "/Users/example/Library/LaunchAgents/x.plist".into(),
        "/Users/example",
        "/tmp/rusty-jack".into(),
        sample_daemon_version(),
        "gui/501",
        was_loaded,
        existing,
        previous,
        None,
    );
    (r, setup.setup.steps)
}

#[test]
fn test_install_writes_then_enables_and_bootstraps() {
    let (r, steps) = load(rusty_jack::launchd::LoadMode::Install, vec![0, 0], false, None, None);
    let r = r.unwrap();
    assert!(r.changed && !r.had_plist && !r.resumed_after_upgrade);
    assert_eq!(
        steps,
        vec![
            "write".to_string(),
            "enable gui/501/com.example.rusty-jack".into(),
            "bootstrap gui/501 /Users/example/Library/LaunchAgents/x.plist".into(),
            "clear".into(),
        ]
    );
}

#[test]
fn test_upgrade_up_to_date_does_nothing() {
    let rendered = render_launch_agent_plist("/tmp/rusty-jack", "/Users/example", &sample_daemon_version());
    let (r, steps) = load(
        rusty_jack::launchd::LoadMode::Upgrade,
        vec![],
        true,
        Some(&rendered),
        Some(sample_daemon_version()),
    );
    let r = r.unwrap();
    assert!(!r.changed && r.had_plist && r.was_loaded);
    assert!(steps.is_empty());
    assert!(matches!(upgrade_daemon(r), rusty_jack::launchd::UpgradeResult::UpToDate { .. }));
}

#[test]
fn test_upgrade_of_loaded_job_stops_writes_and_reloads() {
    let (r, steps) = load(rusty_jack::launchd::LoadMode::Upgrade, vec![0, 0], true, Some("<plist/>"), None);
    let r = r.unwrap();
    assert!(r.changed && r.resumed_after_upgrade);
    assert_eq!(steps[0], "stop");
    assert_eq!(steps[1], "write");
    assert_eq!(steps.len(), 5);
}

#[test]
fn test_load_reports_failed_bootstrap() {
    let (r, steps) = load(rusty_jack::launchd::LoadMode::Install, vec![0, 3], false, None, None);
    match r {
        Err(RustyJackError::Launchd(m)) => assert_eq!(
            m,
            "launchctl bootstrap gui/501 /Users/example/Library/LaunchAgents/x.plist failed (status 3)"
        ),
        other => panic!("unexpected {other:?}"),
    }
    assert_eq!(steps.len(), 3);
}

#[test]
fn test_upgrade_reports_up_to_date_without_touching_the_job() {
    let rendered = render_launch_agent_plist("/tmp/rusty-jack", "/Users/example", &sample_daemon_version());
    let mut setup = rusty_jack::launchd::AgentLog::new(RecordedSetup::default());
    let r = rusty_jack::launchd::upgrade(
        &mut setup,
        false,
        "/p.plist".into(),
        "/Users/example",
        "/tmp/rusty-jack".into(),
        sample_daemon_version(),
        "gui/501",
        true,
        Some(&rendered),
        Some(sample_daemon_version()),
        None,
    )
    .unwrap();
    assert!(matches!(r, UpgradeResult::UpToDate { was_loaded: true, .. }));
    assert!(setup.setup.steps.is_empty());
}

#[test]
fn test_install_reports_installed() {
    let mut setup = rusty_jack::launchd::AgentLog::new(RecordedSetup { statuses: vec![0, 0], steps: vec![] });
    let r = rusty_jack::launchd::install(
        &mut setup,
        "/p.plist".into(),
        "/Users/example",
        "/tmp/rusty-jack".into(),
        sample_daemon_version(),
        "gui/501",
        false,
        None,
        None,
        None,
    )
    .unwrap();
    assert!(matches!(r, InstallResult::Installed { was_loaded: false, .. }));
    assert_eq!(setup.setup.steps.len(), 4);
}
