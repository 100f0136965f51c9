//! launchd LaunchAgent management: the plist we write, what we read back from
//! it and from `launchctl`, and the outcome of each lifecycle command.
use crate::error::RustyJackError;
use crate::output_device::opt_view;
use crate::text::{
    concat2, concat3, flat_map_chars, lemma_replace_blocks, lines, lines_of, owned, parse_u64,
    parse_u64_str, replace_all, replace_str,
    split_once, split_once_str, str_eq, strip_prefix, strip_prefix_str, strip_suffix,
    strip_suffix_str, trim, trim_str,
};
use crate::version::BinaryVersion;
use vstd::prelude::*;

verus! {

/// launchd job label.
pub const LAUNCH_AGENT_LABEL: &'static str = "com.example.rusty-jack";

/// Command users should run after installing or upgrading the CLI binary.
pub const DAEMON_REFRESH_COMMAND: &'static str = "rusty-jack upgrade --force";

/// LaunchAgent env vars stamped at install/upgrade and read from the running daemon PID.
pub const DAEMON_PKG_VERSION_ENV: &'static str = "RUSTY_JACK_DAEMON_PKG_VERSION";

pub const DAEMON_GIT_COMMIT_ENV: &'static str = "RUSTY_JACK_DAEMON_GIT_COMMIT";

/// LaunchAgent plist, with `@BINARY_PATH@`, `@HOME@`, `@DAEMON_PKG_VERSION@` and
/// `@DAEMON_GIT_COMMIT@` to fill in.
pub const LAUNCH_AGENT_TEMPLATE: &'static str = "<?xml version=\"1.0\" encoding=\"UTF-8\"?>\n<!DOCTYPE plist PUBLIC \"-//Apple//DTD PLIST 1.0//EN\" \"http://www.apple.com/DTDs/PropertyList-1.0.dtd\">\n<plist version=\"1.0\">\n<dict>\n  <key>Label</key>\n  <string>com.example.rusty-jack</string>\n  <key>ProgramArguments</key>\n  <array>\n    <string>@BINARY_PATH@</string>\n    <string>daemon</string>\n  </array>\n  <key>EnvironmentVariables</key>\n  <dict>\n    <key>HOME</key>\n    <string>@HOME@</string>\n    <key>RUSTY_JACK_DAEMON_PKG_VERSION</key>\n    <string>@DAEMON_PKG_VERSION@</string>\n    <key>RUSTY_JACK_DAEMON_GIT_COMMIT</key>\n    <string>@DAEMON_GIT_COMMIT@</string>\n  </dict>\n  <key>RunAtLoad</key>\n  <true/>\n  <key>KeepAlive</key>\n  <true/>\n  <key>ProcessType</key>\n  <string>Interactive</string>\n</dict>\n</plist>\n";

/// Result of `rusty-jack install` (install LaunchAgent).
#[derive(Debug)]
pub enum InstallResult {
    Installed { label: String, plist_path: String, binary_path: String, was_loaded: bool },
}

/// Result of `rusty-jack upgrade` (refresh plist and restart LaunchAgent).
#[derive(Debug)]
pub enum UpgradeResult {
    UpToDate {
        label: String,
        plist_path: String,
        binary_path: String,
        binary_version: BinaryVersion,
        was_loaded: bool,
    },
    Upgraded {
        label: String,
        plist_path: String,
        binary_path: String,
        binary_version: BinaryVersion,
        previous_binary_path: Option<String>,
        previous_binary_version: Option<BinaryVersion>,
        previous_running_daemon_version: Option<BinaryVersion>,
        was_loaded: bool,
        resumed_after_upgrade: bool,
    },
    Installed { label: String, plist_path: String, binary_path: String, binary_version: BinaryVersion },
}

/// The LaunchAgent/daemon binary compared with the current CLI.
#[derive(Debug)]
pub struct DaemonVersionCheck {
    pub cli_binary_path: String,
    pub cli_version: BinaryVersion,
    pub plist_binary_path: Option<String>,
    pub plist_binary_version: Option<BinaryVersion>,
    pub running_binary_version: Option<BinaryVersion>,
    /// LaunchAgent or running daemon is missing stamped version env vars.
    pub needs_version_stamp_refresh: bool,
    pub stale: bool,
    pub refresh_command: &'static str,
}

/// Result of `rusty-jack disable` (uninstall LaunchAgent).
#[derive(Debug)]
pub enum DisableResult {
    Uninstalled { label: String, plist_path: String, was_loaded: bool },
    NotInstalled { plist_path: String },
}

/// Result of `rusty-jack pause`.
#[derive(Debug)]
pub enum PauseResult {
    Paused {
        label: String,
        plist_path: String,
        was_loaded: bool,
        pause_reason: Option<DaemonPauseReason>,
    },
    NotInstalled { plist_path: String },
}

/// Result of `rusty-jack resume`.
#[derive(Debug)]
pub enum ResumeResult {
    Resumed { label: String, plist_path: String },
    NotInstalled { plist_path: String },
    AlreadyRunning { label: String, plist_path: String },
}

/// Current LaunchAgent status for `rusty-jack status`.
#[derive(Debug)]
pub enum DaemonStatus {
    Running {
        label: String,
        plist_path: String,
        service: String,
        pid: Option<u32>,
        /// launchd `state` from `launchctl print` (for example `running`, `spawn scheduled`).
        launch_job_state: Option<String>,
        /// launchd `last exit code` when the job is loaded but the process is not running.
        last_exit_code: Option<String>,
    },
    Paused {
        label: String,
        plist_path: String,
        service: String,
        pause_reason: Option<DaemonPauseReason>,
    },
    NotInstalled { plist_path: String },
    Unknown { label: String, plist_path: String, message: String },
}

/// Why the LaunchAgent is intentionally paused.
#[derive(Debug)]
pub enum DaemonPauseReason {
    PickerOverride { selected_uid: String, selected_label: String, preferred_uid: Option<String> },
}

/// Paths where the daemon writes structured logs.
#[derive(Debug)]
pub struct DaemonLogPaths {
    pub file: String,
}

impl DaemonPauseReason {
    pub fn picker_override(
        selected_uid: String,
        selected_label: String,
        preferred_uid: Option<String>,
    ) -> (r: DaemonPauseReason)
        ensures
            r == (DaemonPauseReason::PickerOverride { selected_uid, selected_label, preferred_uid }),
    {
        DaemonPauseReason::PickerOverride { selected_uid, selected_label, preferred_uid }
    }

    pub fn label(&self) -> (r: &'static str)
        ensures
            r@ == "picker override"@,
    {
        match self {
            DaemonPauseReason::PickerOverride { .. } => "picker override",
        }
    }

    pub open spec fn spec_message(&self) -> Seq<char> {
        match self {
            DaemonPauseReason::PickerOverride { selected_label, .. } => "user picked "@
                + selected_label@ + "; daemon is paused until `rusty-jack resume`"@,
        }
    }

    pub fn message(&self) -> (r: String)
        ensures
            r@ == self.spec_message(),
    {
        match self {
            DaemonPauseReason::PickerOverride { selected_label, .. } => concat3(
                "user picked ",
                selected_label.as_str(),
                "; daemon is paused until `rusty-jack resume`",
            ),
        }
    }

    pub fn duplicate(&self) -> (r: DaemonPauseReason)
        ensures
            r == *self,
    {
        match self {
            DaemonPauseReason::PickerOverride { selected_uid, selected_label, preferred_uid } =>
                DaemonPauseReason::PickerOverride {
                selected_uid: selected_uid.clone(),
                selected_label: selected_label.clone(),
                preferred_uid: crate::output_device::clone_opt_string(preferred_uid),
            },
        }
    }
}

/// launchd service target: `DOMAIN/LABEL`.
pub fn service_id(domain: &str, label: &str) -> (r: String)
    ensures
        r@ == domain@ + "/"@ + label@,
{
    concat3(domain, "/", label)
}

pub open spec fn spec_escape_xml(v: Seq<char>) -> Seq<char> {
    replace_all(
        replace_all(
            replace_all(
                replace_all(replace_all(v, "&"@, "&amp;"@), "<"@, "&lt;"@),
                ">"@,
                "&gt;"@,
            ),
            "\""@,
            "&quot;"@,
        ),
        "'"@,
        "&apos;"@,
    )
}

/// XML-escape text for a plist `<string>`.
pub fn escape_xml(value: &str) -> (r: String)
    ensures
        r@ == spec_escape_xml(value@),
{
    proof {
        reveal_strlit("&");
        reveal_strlit("<");
        reveal_strlit(">");
        reveal_strlit("\"");
        reveal_strlit("'");
    }
    let a = replace_str(value, "&", "&amp;");
    let b = replace_str(a.as_str(), "<", "&lt;");
    let c = replace_str(b.as_str(), ">", "&gt;");
    let d = replace_str(c.as_str(), "\"", "&quot;");
    replace_str(d.as_str(), "'", "&apos;")
}

pub open spec fn spec_unescape_xml(v: Seq<char>) -> Seq<char> {
    replace_all(
        replace_all(
            replace_all(
                replace_all(replace_all(v, "&apos;"@, "'"@), "&quot;"@, "\""@),
                "&gt;"@,
                ">"@,
            ),
            "&lt;"@,
            "<"@,
        ),
        "&amp;"@,
        "&"@,
    )
}

/// Undo [`escape_xml`] on a plist `<string>` value.
pub fn unescape_xml(value: &str) -> (r: String)
    ensures
        r@ == spec_unescape_xml(value@),
{
    proof {
        reveal_strlit("&apos;");
        reveal_strlit("&quot;");
        reveal_strlit("&gt;");
        reveal_strlit("&lt;");
        reveal_strlit("&amp;");
    }
    let a = replace_str(value, "&apos;", "'");
    let b = replace_str(a.as_str(), "&quot;", "\"");
    let c = replace_str(b.as_str(), "&gt;", ">");
    let d = replace_str(c.as_str(), "&lt;", "<");
    replace_str(d.as_str(), "&amp;", "&")
}

/// The `n`-th character that `escape_xml` rewrites, in the order it rewrites them.
spec fn xml_special(n: int) -> char {
    if n == 0 {
        '&'
    } else if n == 1 {
        '<'
    } else if n == 2 {
        '>'
    } else if n == 3 {
        '"'
    } else {
        '\''
    }
}

/// The entity that `escape_xml` writes for `xml_special(n)`.
spec fn xml_entity(n: int) -> Seq<char> {
    if n == 0 {
        seq!['&', 'a', 'm', 'p', ';']
    } else if n == 1 {
        seq!['&', 'l', 't', ';']
    } else if n == 2 {
        seq!['&', 'g', 't', ';']
    } else if n == 3 {
        seq!['&', 'q', 'u', 'o', 't', ';']
    } else {
        seq!['&', 'a', 'p', 'o', 's', ';']
    }
}

/// Position of `c` among the rewritten characters, 5 for any other character.
spec fn xml_index(c: char) -> int {
    if c == '&' {
        0
    } else if c == '<' {
        1
    } else if c == '>' {
        2
    } else if c == '"' {
        3
    } else if c == '\'' {
        4
    } else {
        5
    }
}

/// Each character as it stands after the first `n` rewriting steps.
spec fn xml_stage(n: int) -> spec_fn(char) -> Seq<char> {
    |c: char|
        if xml_index(c) < n {
            xml_entity(xml_index(c))
        } else {
            seq![c]
        }
}

proof fn lemma_xml_tables()
    ensures
        forall|n: int| 0 <= n < 5 ==> #[trigger] xml_index(xml_special(n)) == n,
        forall|c: char| 0 <= #[trigger] xml_index(c) < 5 ==> xml_special(xml_index(c)) == c,
        forall|n: int| 0 <= n < 5 ==> 4 <= (#[trigger] xml_entity(n)).len() <= 6 && xml_entity(n)[0] == '&',
        forall|n: int, j: int|
            0 <= n < 5 && 0 < j < xml_entity(n).len() ==> xml_index(#[trigger] xml_entity(n)[j]) == 5,
{
    assert forall|n: int, j: int| 0 <= n < 5 && 0 < j < xml_entity(n).len() implies xml_index(
        #[trigger] xml_entity(n)[j],
    ) == 5 by {
        if n == 0 {
            assert(j == 1 || j == 2 || j == 3 || j == 4);
        } else if n == 1 || n == 2 {
            assert(j == 1 || j == 2 || j == 3);
        } else {
            assert(j == 1 || j == 2 || j == 3 || j == 4 || j == 5);
        }
    }
}

/// Two different entities differ at their second or third character.
proof fn lemma_xml_entities_differ(k: int, n: int)
    requires
        0 <= k < 5,
        0 <= n < 5,
        k != n,
    ensures
        ({
            let m = if (k == 0 && n == 4) || (k == 4 && n == 0) {
                2int
            } else {
                1int
            };
            xml_entity(k)[m] != xml_entity(n)[m]
        }),
{
}

proof fn lemma_xml_stage_zero(v: Seq<char>)
    ensures
        flat_map_chars(v, xml_stage(0)) == v,
    decreases v.len(),
{
    if v.len() > 0 {
        lemma_xml_stage_zero(v.drop_first());
        assert(v =~= seq![v[0]] + v.drop_first());
    }
}

proof fn lemma_escape_step(v: Seq<char>, n: int)
    requires
        0 <= n < 5,
    ensures
        replace_all(flat_map_chars(v, xml_stage(n)), seq![xml_special(n)], xml_entity(n))
            == flat_map_chars(v, xml_stage(n + 1)),
{
    lemma_xml_tables();
    let f = xml_stage(n);
    let g = xml_stage(n + 1);
    let p = seq![xml_special(n)];
    assert forall|c: char, j: int| 0 < j < f(c).len() implies #[trigger] f(c)[j] != p[0] by {
        assert(xml_index(f(c)[j]) == 5);
    }
    assert forall|c: char| #[trigger] f(c) != p && f(c)[0] == p[0] implies exists|m: int|
        0 < m < f(c).len() && m < p.len() && f(c)[m] != p[m] by {
        if xml_index(c) >= n {
            assert(c == xml_special(n));
            assert(f(c) =~= p);
        }
    }
    assert forall|c: char| #[trigger] g(c) == if f(c) == p {
        xml_entity(n)
    } else {
        f(c)
    } by {
        if xml_index(c) == n {
            assert(f(c) =~= p);
        } else {
            assert(f(c)[0] != p[0] || f(c).len() != p.len());
        }
    }
    lemma_replace_blocks(v, f, g, p, xml_entity(n));
}

proof fn lemma_unescape_step(v: Seq<char>, n: int)
    requires
        0 <= n < 5,
    ensures
        replace_all(flat_map_chars(v, xml_stage(n + 1)), xml_entity(n), seq![xml_special(n)])
            == flat_map_chars(v, xml_stage(n)),
{
    lemma_xml_tables();
    let f = xml_stage(n + 1);
    let g = xml_stage(n);
    let p = xml_entity(n);
    let q = seq![xml_special(n)];
    assert forall|c: char, j: int| 0 < j < f(c).len() implies #[trigger] f(c)[j] != p[0] by {
        assert(xml_index(f(c)[j]) == 5);
    }
    assert forall|c: char| #[trigger] f(c) != p && f(c)[0] == p[0] implies exists|m: int|
        0 < m < f(c).len() && m < p.len() && f(c)[m] != p[m] by {
        let k = xml_index(c);
        if k < n + 1 {
            if k == n {
                assert(false);
            }
            lemma_xml_entities_differ(k, n);
            let m = if (k == 0 && n == 4) || (k == 4 && n == 0) {
                2int
            } else {
                1int
            };
            assert(f(c)[m] != p[m]);
        } else {
            assert(f(c)[0] == c);
        }
    }
    assert forall|c: char| #[trigger] g(c) == if f(c) == p {
        q
    } else {
        f(c)
    } by {
        let k = xml_index(c);
        if k < n {
            lemma_xml_entities_differ(k, n);
            let m = if (k == 0 && n == 4) || (k == 4 && n == 0) {
                2int
            } else {
                1int
            };
            assert(f(c)[m] != p[m]);
        } else if k == n {
            assert(c == xml_special(n));
        } else {
            assert(f(c).len() != p.len());
        }
    }
    lemma_replace_blocks(v, f, g, p, q);
}

/// Reading a plist value back gives what was written: `unescape_xml` undoes
/// `escape_xml` on every text.
pub proof fn law_unescape_inverts_escape(v: Seq<char>)
    ensures
        spec_unescape_xml(spec_escape_xml(v)) == v,
{
    reveal_strlit("&");
    reveal_strlit("<");
    reveal_strlit(">");
    reveal_strlit("\"");
    reveal_strlit("'");
    reveal_strlit("&amp;");
    reveal_strlit("&lt;");
    reveal_strlit("&gt;");
    reveal_strlit("&quot;");
    reveal_strlit("&apos;");
    assert("&"@ =~= seq![xml_special(0)]);
    assert("<"@ =~= seq![xml_special(1)]);
    assert(">"@ =~= seq![xml_special(2)]);
    assert("\""@ =~= seq![xml_special(3)]);
    assert("'"@ =~= seq![xml_special(4)]);
    assert("&amp;"@ =~= xml_entity(0));
    assert("&lt;"@ =~= xml_entity(1));
    assert("&gt;"@ =~= xml_entity(2));
    assert("&quot;"@ =~= xml_entity(3));
    assert("&apos;"@ =~= xml_entity(4));
    lemma_xml_stage_zero(v);
    lemma_escape_step(v, 0);
    lemma_escape_step(v, 1);
    lemma_escape_step(v, 2);
    lemma_escape_step(v, 3);
    lemma_escape_step(v, 4);
    lemma_unescape_step(v, 4);
    lemma_unescape_step(v, 3);
    lemma_unescape_step(v, 2);
    lemma_unescape_step(v, 1);
    lemma_unescape_step(v, 0);
}

pub open spec fn spec_render_plist(
    binary_path: Seq<char>,
    home: Seq<char>,
    version: Seq<char>,
    commit: Seq<char>,
) -> Seq<char> {
    replace_all(
        replace_all(
            replace_all(
                replace_all(LAUNCH_AGENT_TEMPLATE@, "@BINARY_PATH@"@, spec_escape_xml(binary_path)),
                "@HOME@"@,
                spec_escape_xml(home),
            ),
            "@DAEMON_PKG_VERSION@"@,
            spec_escape_xml(version),
        ),
        "@DAEMON_GIT_COMMIT@"@,
        spec_escape_xml(commit),
    )
}

/// The LaunchAgent plist for `binary_path`, with `home` and the daemon's version stamped in.
pub fn render_launch_agent_plist(
    binary_path: &str,
    home: &str,
    daemon_version: &BinaryVersion,
) -> (r: String)
    ensures
        r@ == spec_render_plist(
            binary_path@,
            home@,
            daemon_version.version@,
            daemon_version.commit@,
        ),
{
    proof {
        reveal_strlit("@BINARY_PATH@");
        reveal_strlit("@HOME@");
        reveal_strlit("@DAEMON_PKG_VERSION@");
        reveal_strlit("@DAEMON_GIT_COMMIT@");
    }
    let a = replace_str(
        LAUNCH_AGENT_TEMPLATE,
        "@BINARY_PATH@",
        escape_xml(binary_path).as_str(),
    );
    let b = replace_str(a.as_str(), "@HOME@", escape_xml(home).as_str());
    let c = replace_str(
        b.as_str(),
        "@DAEMON_PKG_VERSION@",
        escape_xml(daemon_version.version.as_str()).as_str(),
    );
    replace_str(
        c.as_str(),
        "@DAEMON_GIT_COMMIT@",
        escape_xml(daemon_version.commit.as_str()).as_str(),
    )
}

/// How the LaunchAgent is being written.
#[derive(Debug, Clone, Copy, PartialEq, Eq, Structural)]
pub enum LoadMode {
    Install,
    Upgrade,
}

pub open spec fn opt_version_same(a: Option<BinaryVersion>, b: BinaryVersion) -> bool {
    match a {
        Some(v) => v.same_as(&b),
        None => false,
    }
}

/// An upgrade has nothing to do: not forced, the plist on disk is exactly the
/// rendered one, and it already points at this binary and version.
pub fn daemon_upgrade_is_current(
    force_reload: bool,
    existing_plist: Option<&str>,
    rendered_plist: &str,
    previous_binary_path: Option<&str>,
    previous_binary_version: Option<&BinaryVersion>,
    binary_path: &str,
    binary_version: &BinaryVersion,
) -> (r: bool)
    ensures
        r == (!force_reload && (existing_plist matches Some(p) && p@ == rendered_plist@) && (
        previous_binary_path matches Some(p) && p@ == binary_path@) && (
        previous_binary_version matches Some(v) && v.same_as(binary_version))),
{
    if force_reload {
        return false;
    }
    let same_plist = match existing_plist {
        Some(p) => str_eq(p, rendered_plist),
        None => false,
    };
    let same_path = match previous_binary_path {
        Some(p) => str_eq(p, binary_path),
        None => false,
    };
    let same_version = match previous_binary_version {
        Some(v) => v.matches(binary_version),
        None => false,
    };
    same_plist && same_path && same_version
}

/// Stop the job before rewriting its plist: on install whenever anything is
/// there, on upgrade only when it is loaded.
pub fn should_stop_before_write(mode: LoadMode, had_plist: bool, was_loaded: bool) -> (r: bool)
    ensures
        r == match mode {
            LoadMode::Install => had_plist || was_loaded,
            LoadMode::Upgrade => was_loaded,
        },
{
    match mode {
        LoadMode::Install => had_plist || was_loaded,
        LoadMode::Upgrade => was_loaded,
    }
}

/// Load the job after writing: always on install; on upgrade unless a paused
/// job was there.
pub fn should_load_after_write(mode: LoadMode, had_plist: bool, was_loaded: bool) -> (r: bool)
    ensures
        r == match mode {
            LoadMode::Install => true,
            LoadMode::Upgrade => !had_plist || was_loaded,
        },
{
    match mode {
        LoadMode::Install => true,
        LoadMode::Upgrade => !had_plist || was_loaded,
    }
}

/// `s` without a leading `rusty-jack ` when it has one.
pub open spec fn drop_program_name(s: Seq<char>) -> Seq<char> {
    match strip_prefix(s, "rusty-jack "@) {
        Some(rest) => rest,
        None => s,
    }
}

/// Version and commit read from `rusty-jack VERSION (commit COMMIT)`.
pub open spec fn spec_parse_binary_version(output: Seq<char>) -> Option<(Seq<char>, Seq<char>)> {
    let o = drop_program_name(trim(output));
    match split_once(o, " (commit "@) {
        Some((version, rest)) => match strip_suffix(rest, ")"@) {
            Some(commit) => if version.len() == 0 || commit.len() == 0 {
                None
            } else {
                Some((version, commit))
            },
            None => None,
        },
        None => None,
    }
}

pub open spec fn version_view(v: Option<BinaryVersion>) -> Option<(Seq<char>, Seq<char>)> {
    match v {
        Some(b) => Some((b.version@, b.commit@)),
        None => None,
    }
}

fn strip_program_name(s: &str) -> (r: &str)
    ensures
        r@ == drop_program_name(s@),
{
    match strip_prefix_str(s, "rusty-jack ") {
        Some(rest) => rest,
        None => s,
    }
}

/// Parse the output of `rusty-jack --version`.
pub fn parse_binary_version_output(output: &str) -> (r: Option<BinaryVersion>)
    ensures
        version_view(r) == spec_parse_binary_version(output@),
{
    let o = strip_program_name(trim_str(output));
    let (version, rest) = match split_once_str(o, " (commit ") {
        Some(pair) => pair,
        None => {
            return None;
        },
    };
    let commit = match strip_suffix_str(rest, ")") {
        Some(c) => c,
        None => {
            return None;
        },
    };
    if version.unicode_len() == 0 || commit.unicode_len() == 0 {
        return None;
    }
    Some(BinaryVersion { version: owned(version), commit: owned(commit) })
}

pub open spec fn spec_version_from_snapshot(raw: Option<Seq<char>>) -> Option<(Seq<char>, Seq<char>)> {
    match raw {
        None => None,
        Some(r) => if trim(r).len() == 0 {
            None
        } else {
            spec_parse_binary_version(drop_program_name(trim(r)))
        },
    }
}

/// The version recorded before an upgrade (`rusty-jack VERSION (commit COMMIT)`).
pub fn previous_binary_version_from_snapshot(raw: Option<&str>) -> (r: Option<BinaryVersion>)
    ensures
        version_view(r) == spec_version_from_snapshot(
            match raw {
                Some(s) => Some(s@),
                None => None,
            },
        ),
{
    let raw = match raw {
        Some(r) => trim_str(r),
        None => {
            return None;
        },
    };
    if raw.unicode_len() == 0 {
        return None;
    }
    parse_binary_version_output(strip_program_name(raw))
}

/// The text after the first `a`, then the first `b` after that, up to the next `</string>`.
pub open spec fn string_after(plist: Seq<char>, a: Seq<char>, b: Seq<char>) -> Option<Seq<char>> {
    match split_once(plist, a) {
        Some((_, after_a)) => match split_once(after_a, b) {
            Some((_, after_b)) => match split_once(after_b, "</string>"@) {
                Some((value, _)) => Some(spec_unescape_xml(value)),
                None => None,
            },
            None => None,
        },
        None => None,
    }
}

pub open spec fn spec_plist_binary_path(plist: Seq<char>) -> Option<Seq<char>> {
    match split_once(plist, "<key>ProgramArguments</key>"@) {
        Some((_, after_key)) => string_after(after_key, "<array>"@, "<string>"@),
        None => None,
    }
}

fn string_after_exec(plist: &str, a: &str, b: &str) -> (r: Option<String>)
    ensures
        opt_view(r) == string_after(plist@, a@, b@),
{
    let (_, after_a) = match split_once_str(plist, a) {
        Some(p) => p,
        None => {
            return None;
        },
    };
    let (_, after_b) = match split_once_str(after_a, b) {
        Some(p) => p,
        None => {
            return None;
        },
    };
    match split_once_str(after_b, "</string>") {
        Some((value, _)) => Some(unescape_xml(value)),
        None => None,
    }
}

/// Program path of the LaunchAgent (first `ProgramArguments` entry).
pub fn launch_agent_binary_path_from_plist(plist: &str) -> (r: Option<String>)
    ensures
        opt_view(r) == spec_plist_binary_path(plist@),
{
    match split_once_str(plist, "<key>ProgramArguments</key>") {
        Some((_, after_key)) => string_after_exec(after_key, "<array>", "<string>"),
        None => None,
    }
}

pub open spec fn spec_plist_env_var(plist: Seq<char>, key: Seq<char>) -> Option<Seq<char>> {
    string_after(plist, "<key>"@ + key + "</key>"@, "<string>"@)
}

/// Value of an `EnvironmentVariables` entry of the LaunchAgent plist.
pub fn launch_agent_env_var_from_plist(plist: &str, key: &str) -> (r: Option<String>)
    ensures
        opt_view(r) == spec_plist_env_var(plist@, key@),
{
    let marker = concat3("<key>", key, "</key>");
    string_after_exec(plist, marker.as_str(), "<string>")
}

/// A version only when both the version and the commit are known.
pub fn daemon_version_from_env_pair(version: Option<String>, commit: Option<String>) -> (r: Option<
    BinaryVersion,
>)
    ensures
        version_view(r) == match (opt_view(version), opt_view(commit)) {
            (Some(v), Some(c)) => Some((v, c)),
            _ => None,
        },
{
    match (version, commit) {
        (Some(version), Some(commit)) => Some(BinaryVersion { version, commit }),
        _ => None,
    }
}

pub open spec fn spec_plist_version(plist: Seq<char>) -> Option<(Seq<char>, Seq<char>)> {
    match (
        spec_plist_env_var(plist, DAEMON_PKG_VERSION_ENV@),
        spec_plist_env_var(plist, DAEMON_GIT_COMMIT_ENV@),
    ) {
        (Some(v), Some(c)) => Some((v, c)),
        _ => None,
    }
}

/// Daemon version stamped into the LaunchAgent environment.
pub fn daemon_version_from_plist(plist: &str) -> (r: Option<BinaryVersion>)
    ensures
        version_view(r) == spec_plist_version(plist@),
{
    daemon_version_from_env_pair(
        launch_agent_env_var_from_plist(plist, DAEMON_PKG_VERSION_ENV),
        launch_agent_env_var_from_plist(plist, DAEMON_GIT_COMMIT_ENV),
    )
}

/// The LaunchAgent carries both version stamps.
pub fn plist_has_daemon_version_stamp(plist: &str) -> (r: bool)
    ensures
        r == spec_plist_version(plist@) is Some,
{
    daemon_version_from_plist(plist).is_some()
}

/// Value of `key` in the first `KEY=VALUE` entry of a process environment.
pub open spec fn spec_env_var(entries: Seq<Seq<char>>, key: Seq<char>) -> Option<Seq<char>>
    decreases entries.len(),
{
    if entries.len() == 0 {
        None
    } else {
        match strip_prefix(entries[0], key + "="@) {
            Some(v) => Some(v),
            None => spec_env_var(entries.drop_first(), key),
        }
    }
}

/// Value of `key` in a process environment given as `KEY=VALUE` entries.
pub fn env_var_from_environ(entries: &[String], key: &str) -> (r: Option<String>)
    ensures
        opt_view(r) == spec_env_var(entries@.map_values(|e: String| e@), key@),
{
    let ghost ev = entries@.map_values(|e: String| e@);
    let prefix = concat2(key, "=");
    let mut i: usize = 0;
    assert(ev.subrange(0, ev.len() as int) =~= ev);
    while i < entries.len()
        invariant
            i <= entries@.len(),
            ev == entries@.map_values(|e: String| e@),
            prefix@ == key@ + "="@,
            spec_env_var(ev, key@) == spec_env_var(ev.subrange(i as int, ev.len() as int), key@),
        decreases entries@.len() - i,
    {
        assert(ev.subrange(i as int, ev.len() as int).drop_first() =~= ev.subrange(
            i + 1,
            ev.len() as int,
        ));
        assert(ev.subrange(i as int, ev.len() as int)[0] == entries@[i as int]@);
        if let Some(v) = strip_prefix_str(entries[i].as_str(), prefix.as_str()) {
            return Some(owned(v));
        }
        i = i + 1;
    }
    None
}


/// launchd reports a live daemon PID (not merely a loaded job).
pub open spec fn spec_process_running(status: DaemonStatus) -> bool {
    status matches DaemonStatus::Running { pid: Some(_), .. }
}

/// True when launchd reports a live daemon PID (not merely a loaded job).
pub fn daemon_process_running(status: &DaemonStatus) -> (r: bool)
    ensures
        r == spec_process_running(*status),
{
    match status {
        DaemonStatus::Running { pid: Some(_), .. } => true,
        _ => false,
    }
}

pub open spec fn spec_supervisor_error(status: DaemonStatus) -> Option<Seq<char>> {
    match status {
        DaemonStatus::Running { pid: Some(_), .. } => None,
        DaemonStatus::NotInstalled { .. } => Some("daemon not installed; run `rusty-jack install`"@),
        DaemonStatus::Paused { .. } => Some("daemon paused; run `rusty-jack resume`"@),
        DaemonStatus::Unknown { message, .. } => Some("daemon state unknown: "@ + message@),
        DaemonStatus::Running { last_exit_code, launch_job_state, .. } => Some(
            "daemon not running"@ + match launch_job_state {
                Some(s) => " (launchd state="@ + s@ + ")"@,
                None => Seq::<char>::empty(),
            } + match last_exit_code {
                Some(c) => if c@ != "(never exited)"@ {
                    " (last exit code="@ + c@ + ")"@
                } else {
                    Seq::<char>::empty()
                },
                None => Seq::<char>::empty(),
            } + "; run `rusty-jack upgrade --force` or `rusty-jack resume`"@,
        ),
    }
}

/// Human-readable remediation when the supervisor is not healthy.
pub fn daemon_supervisor_error_message(status: &DaemonStatus) -> (r: Option<String>)
    ensures
        opt_view(r) == spec_supervisor_error(*status),
{
    match status {
        DaemonStatus::Running { pid: Some(_), .. } => None,
        DaemonStatus::NotInstalled { .. } => Some(
            owned("daemon not installed; run `rusty-jack install`"),
        ),
        DaemonStatus::Paused { .. } => Some(owned("daemon paused; run `rusty-jack resume`")),
        DaemonStatus::Unknown { message, .. } => Some(
            concat2("daemon state unknown: ", message.as_str()),
        ),
        DaemonStatus::Running { last_exit_code, launch_job_state, .. } => {
            let mut detail = owned("daemon not running");
            let ghost base = detail@;
            if let Some(state) = launch_job_state {
                detail.append(" (launchd state=");
                detail.append(state.as_str());
                detail.append(")");
            }
            let ghost with_state = detail@;
            if let Some(code) = last_exit_code {
                if !str_eq(code.as_str(), "(never exited)") {
                    detail.append(" (last exit code=");
                    detail.append(code.as_str());
                    detail.append(")");
                }
            }
            detail.append("; run `rusty-jack upgrade --force` or `rusty-jack resume`");
            proof {
                let st = match launch_job_state {
                    Some(s) => " (launchd state="@ + s@ + ")"@,
                    None => Seq::<char>::empty(),
                };
                let cd = match last_exit_code {
                    Some(c) => if c@ != "(never exited)"@ {
                        " (last exit code="@ + c@ + ")"@
                    } else {
                        Seq::<char>::empty()
                    },
                    None => Seq::<char>::empty(),
                };
                assert(with_state =~= base + st);
                assert(detail@ =~= base + st + cd
                    + "; run `rusty-jack upgrade --force` or `rusty-jack resume`"@);
            }
            Some(detail)
        },
    }
}

/// Value after `prefix` on the first line of `ls` that has a non-blank one.
pub open spec fn spec_field_in(ls: Seq<Seq<char>>, prefix: Seq<char>) -> Option<Seq<char>>
    decreases ls.len(),
{
    if ls.len() == 0 {
        None
    } else {
        match strip_prefix(trim(ls[0]), prefix) {
            Some(v) => if trim(v).len() > 0 {
                Some(trim(v))
            } else {
                spec_field_in(ls.drop_first(), prefix)
            },
            None => spec_field_in(ls.drop_first(), prefix),
        }
    }
}

/// A `key = value` field of `launchctl print` output.
pub fn parse_launchctl_field(output: &str, prefix: &str) -> (r: Option<String>)
    ensures
        opt_view(r) == spec_field_in(lines(output@), prefix@),
{
    let ls = lines_of(output);
    let ghost lv = ls@.map_values(|x: &str| x@);
    let mut i: usize = 0;
    assert(lv.subrange(0, lv.len() as int) =~= lv);
    while i < ls.len()
        invariant
            i <= ls@.len(),
            lv == ls@.map_values(|x: &str| x@),
            lv == lines(output@),
            spec_field_in(lv, prefix@) == spec_field_in(lv.subrange(i as int, lv.len() as int), prefix@),
        decreases ls@.len() - i,
    {
        assert(lv.subrange(i as int, lv.len() as int).drop_first() =~= lv.subrange(
            i + 1,
            lv.len() as int,
        ));
        assert(lv.subrange(i as int, lv.len() as int)[0] == ls@[i as int]@);
        if let Some(v) = strip_prefix_str(trim_str(ls[i]), prefix) {
            let value = trim_str(v);
            if value.unicode_len() > 0 {
                return Some(owned(value));
            }
        }
        i = i + 1;
    }
    None
}

pub open spec fn spec_parse_u32(s: Seq<char>) -> Option<u32> {
    match parse_u64(s) {
        Some(n) => if n <= u32::MAX {
            Some(n as u32)
        } else {
            None
        },
        None => None,
    }
}

/// The `pid = N` field of `launchctl print` output.
pub fn parse_launchctl_pid(output: &str) -> (r: Option<u32>)
    ensures
        r == match spec_field_in(lines(output@), "pid ="@) {
            Some(v) => spec_parse_u32(v),
            None => None,
        },
{
    match parse_launchctl_field(output, "pid =") {
        Some(v) => match parse_u64_str(v.as_str()) {
            Some(n) => if n <= u32::MAX as u64 {
                Some(n as u32)
            } else {
                None
            },
            None => None,
        },
        None => None,
    }
}

/// Status of the LaunchAgent, from whether its plist exists and what
/// `launchctl print` said of the job (`Ok(None)` when it is not loaded).
pub fn daemon_status(
    plist_display: String,
    plist_exists: bool,
    domain: &str,
    printed: Result<Option<String>, RustyJackError>,
    pause_reason: Option<DaemonPauseReason>,
) -> (r: DaemonStatus)
    ensures
        !plist_exists ==> r == (DaemonStatus::NotInstalled { plist_path: plist_display }),
        plist_exists ==> match printed {
            Ok(Some(out)) => r matches DaemonStatus::Running {
                label,
                plist_path,
                service,
                pid,
                launch_job_state,
                last_exit_code,
            } && label@ == LAUNCH_AGENT_LABEL@ && plist_path == plist_display && service@ == domain@
                + "/"@ + LAUNCH_AGENT_LABEL@ && pid == match spec_field_in(lines(out@), "pid ="@) {
                Some(v) => spec_parse_u32(v),
                None => None,
            } && opt_view(launch_job_state) == spec_field_in(lines(out@), "state ="@) && opt_view(
                last_exit_code,
            ) == spec_field_in(lines(out@), "last exit code ="@),
            Ok(None) => r matches DaemonStatus::Paused { label, plist_path, service, pause_reason: why }
                && label@ == LAUNCH_AGENT_LABEL@ && plist_path == plist_display && service@ == domain@
                + "/"@ + LAUNCH_AGENT_LABEL@ && why == pause_reason,
            Err(e) => r matches DaemonStatus::Unknown { label, plist_path, message } && label@
                == LAUNCH_AGENT_LABEL@ && plist_path == plist_display && message@ == e.category()
                + e.detail(),
        },
{
    if !plist_exists {
        return DaemonStatus::NotInstalled { plist_path: plist_display };
    }
    let service = service_id(domain, LAUNCH_AGENT_LABEL);
    match printed {
        Ok(Some(output)) => DaemonStatus::Running {
            label: owned(LAUNCH_AGENT_LABEL),
            plist_path: plist_display,
            service,
            pid: parse_launchctl_pid(output.as_str()),
            launch_job_state: parse_launchctl_field(output.as_str(), "state ="),
            last_exit_code: parse_launchctl_field(output.as_str(), "last exit code ="),
        },
        Ok(None) => DaemonStatus::Paused {
            label: owned(LAUNCH_AGENT_LABEL),
            plist_path: plist_display,
            service,
            pause_reason,
        },
        Err(err) => DaemonStatus::Unknown {
            label: owned(LAUNCH_AGENT_LABEL),
            plist_path: plist_display,
            message: err.message(),
        },
    }
}

/// Outcome of `pause` once the job was stopped (when its plist exists).
pub fn pause_daemon_with_reason(
    plist_display: String,
    plist_exists: bool,
    was_loaded: bool,
    pause_reason: Option<DaemonPauseReason>,
) -> (r: PauseResult)
    ensures
        !plist_exists ==> r == (PauseResult::NotInstalled { plist_path: plist_display }),
        plist_exists ==> (r matches PauseResult::Paused { label, plist_path, was_loaded: w, pause_reason: why }
            && label@ == LAUNCH_AGENT_LABEL@ && plist_path == plist_display && w == was_loaded && why
            == pause_reason),
{
    if !plist_exists {
        return PauseResult::NotInstalled { plist_path: plist_display };
    }
    PauseResult::Paused {
        label: owned(LAUNCH_AGENT_LABEL),
        plist_path: plist_display,
        was_loaded,
        pause_reason,
    }
}

/// Outcome of `pause` with no recorded reason.
pub fn pause_daemon(plist_display: String, plist_exists: bool, was_loaded: bool) -> (r: PauseResult)
    ensures
        !plist_exists ==> r == (PauseResult::NotInstalled { plist_path: plist_display }),
        plist_exists ==> (r matches PauseResult::Paused { label, plist_path, was_loaded: w, pause_reason: None }
            && label@ == LAUNCH_AGENT_LABEL@ && plist_path == plist_display && w == was_loaded),
{
    pause_daemon_with_reason(plist_display, plist_exists, was_loaded, None)
}

/// Outcome of `disable` once the job was stopped and its plist removed.
pub fn uninstall_daemon(plist_display: String, plist_exists: bool, was_loaded: bool) -> (r:
    DisableResult)
    ensures
        !plist_exists ==> r == (DisableResult::NotInstalled { plist_path: plist_display }),
        plist_exists ==> (r matches DisableResult::Uninstalled { label, plist_path, was_loaded: w }
            && label@ == LAUNCH_AGENT_LABEL@ && plist_path == plist_display && w == was_loaded),
{
    if !plist_exists {
        return DisableResult::NotInstalled { plist_path: plist_display };
    }
    DisableResult::Uninstalled { label: owned(LAUNCH_AGENT_LABEL), plist_path: plist_display, was_loaded }
}

/// The arguments of a `launchctl` run, as text.
pub open spec fn arg_texts(args: Seq<&str>) -> Seq<Seq<char>> {
    args.map_values(|a: &str| a@)
}



/// What writing and loading the LaunchAgent found and did.
#[derive(Debug)]
pub struct LoadDaemonResult {
    pub label: String,
    pub plist_path: String,
    pub binary_path: String,
    pub binary_version: BinaryVersion,
    pub previous_binary_path: Option<String>,
    pub previous_binary_version: Option<BinaryVersion>,
    pub previous_running_daemon_version: Option<BinaryVersion>,
    pub was_loaded: bool,
    pub had_plist: bool,
    pub changed: bool,
    pub resumed_after_upgrade: bool,
}

/// The steps of writing the LaunchAgent plist.
#[derive(Debug, Clone, Copy, PartialEq, Eq, Structural)]
pub struct LoadPlan {
    /// Upgrade with nothing to change: write nothing.
    pub up_to_date: bool,
    pub stop_before_write: bool,
    pub load_after_write: bool,
    pub resumed_after_upgrade: bool,
}

/// One step of writing and loading the LaunchAgent, with what it returned.
pub enum AgentStep {
    StopJob,
    WritePlist { contents: Ghost<Seq<char>>, result: Result<(), RustyJackError> },
    Launchctl { args: Ghost<Seq<Seq<char>>>, result: Result<i32, RustyJackError> },
    ClearPauseReason,
}

/// The outside work of installing or upgrading the LaunchAgent.
pub trait AgentSetup {
    /// Stop the job, best effort: `launchctl bootout`, then `disable`.
    fn stop_job(&mut self);

    /// Create the plist's and the log directories and write `contents` as the plist.
    fn write_plist(&mut self, contents: &str) -> Result<(), RustyJackError>;

    /// Run `launchctl` with `args` and report its exit status.
    fn run_launchctl(&mut self, args: &[&str]) -> Result<i32, RustyJackError>;

    /// Forget why the daemon was paused.
    fn clear_pause_reason(&mut self);
}

/// An [`AgentSetup`] with a ghost record of every step made through it, in order.
pub struct AgentLog<S> {
    pub setup: S,
    pub log: Ghost<Seq<AgentStep>>,
}

impl<S: AgentSetup> AgentLog<S> {
    /// Every step so far.
    pub open spec fn steps(&self) -> Seq<AgentStep> {
        self.log@
    }

    /// Start recording the steps of `setup`.
    pub fn new(setup: S) -> (r: AgentLog<S>)
        ensures
            r.setup == setup,
            r.steps() == Seq::<AgentStep>::empty(),
    {
        AgentLog { setup, log: Ghost(Seq::empty()) }
    }

    pub fn stop_job(&mut self)
        ensures
            final(self).steps() == old(self).steps().push(AgentStep::StopJob),
    {
        self.setup.stop_job();
        proof {
            self.log@ = self.log@.push(AgentStep::StopJob);
        }
    }

    pub fn write_plist(&mut self, contents: &str) -> (r: Result<(), RustyJackError>)
        ensures
            final(self).steps() == old(self).steps().push(
                AgentStep::WritePlist { contents: Ghost(contents@), result: r },
            ),
    {
        let r = self.setup.write_plist(contents);
        proof {
            self.log@ = self.log@.push(AgentStep::WritePlist { contents: Ghost(contents@), result: r });
        }
        r
    }

    pub fn run_launchctl(&mut self, args: &[&str]) -> (r: Result<i32, RustyJackError>)
        ensures
            final(self).steps() == old(self).steps().push(
                AgentStep::Launchctl { args: Ghost(arg_texts(args@)), result: r },
            ),
    {
        let r = self.setup.run_launchctl(args);
        proof {
            self.log@ = self.log@.push(AgentStep::Launchctl { args: Ghost(arg_texts(args@)), result: r });
        }
        r
    }

    pub fn clear_pause_reason(&mut self)
        ensures
            final(self).steps() == old(self).steps().push(AgentStep::ClearPauseReason),
    {
        self.setup.clear_pause_reason();
        proof {
            self.log@ = self.log@.push(AgentStep::ClearPauseReason);
        }
    }
}

/// A `launchctl` step that exited with a status.
pub open spec fn launchctl_step(step: AgentStep, args: Seq<Seq<char>>) -> bool {
    step matches AgentStep::Launchctl { args: a, .. } && a@ == args
}

/// The steps that load the written LaunchAgent, from position `n` of `steps`:
/// `launchctl enable <domain>/<label>`, then when it exits 0 `launchctl
/// bootstrap <domain> <plist>`, then when that exits 0 the pause reason is
/// cleared. `outcome` is `Ok` when all of them succeeded, else the runner's
/// error or a launchd error naming the failed step.
pub open spec fn load_steps(
    steps: Seq<AgentStep>,
    n: int,
    domain: Seq<char>,
    plist: Seq<char>,
    outcome: Result<(), RustyJackError>,
) -> bool {
    let done = outcome is Ok;
    let err = outcome->Err_0;
    let service = domain + "/"@ + LAUNCH_AGENT_LABEL@;
    &&& steps.len() > n
    &&& launchctl_step(steps[n], seq!["enable"@, service])
    &&& match steps[n]->Launchctl_result {
        Err(e) => steps.len() == n + 1 && !done && err == e,
        Ok(s) => if s != 0 {
            &&& steps.len() == n + 1 && !done
            &&& err matches RustyJackError::Launchd(m) && m@ == "launchctl enable "@ + service
                + " failed (status "@ + crate::text::signed_decimal(s as int) + ")"@
        } else {
            &&& steps.len() > n + 1
            &&& launchctl_step(steps[n + 1], seq!["bootstrap"@, domain, plist])
            &&& match steps[n + 1]->Launchctl_result {
                Err(e) => steps.len() == n + 2 && !done && err == e,
                Ok(b) => if b != 0 {
                    &&& steps.len() == n + 2 && !done
                    &&& err matches RustyJackError::Launchd(m) && m@ == "launchctl bootstrap "@
                        + domain + " "@ + plist + " failed (status "@ + crate::text::signed_decimal(
                        b as int,
                    ) + ")"@
                } else {
                    steps.len() == n + 3 && steps[n + 2] == AgentStep::ClearPauseReason && done
                },
            }
        },
    }
}

/// The fields of a load result that do not depend on the outcome.
pub open spec fn load_result_fields(
    r: LoadDaemonResult,
    plist_display: Seq<char>,
    binary_path: Seq<char>,
    binary_version: BinaryVersion,
    existing_plist: Option<Seq<char>>,
    previous_binary_version: Option<BinaryVersion>,
    previous_running_daemon_version: Option<BinaryVersion>,
    was_loaded: bool,
) -> bool {
    &&& r.label@ == LAUNCH_AGENT_LABEL@
    &&& r.plist_path@ == plist_display
    &&& r.binary_path@ == binary_path
    &&& r.binary_version == binary_version
    &&& opt_view(r.previous_binary_path) == match existing_plist {
        Some(p) => spec_plist_binary_path(p),
        None => None,
    }
    &&& r.previous_binary_version == previous_binary_version
    &&& r.previous_running_daemon_version == previous_running_daemon_version
    &&& r.was_loaded == was_loaded
    &&& r.had_plist == existing_plist is Some
}

/// Load the written LaunchAgent: `launchctl enable <domain>/<label>`, then
/// `launchctl bootstrap <domain> <plist>`, then clear the pause reason; stops at
/// the first failure (see [`load_steps`]).
pub fn load_job<S: AgentSetup>(setup: &mut AgentLog<S>, domain: &str, plist_display: &str) -> (r:
    Result<(), RustyJackError>)
    ensures
        final(setup).steps().subrange(0, old(setup).steps().len() as int) == old(setup).steps(),
        load_steps(final(setup).steps(), old(setup).steps().len() as int, domain@, plist_display@, r),
{
    let ghost n = setup.steps().len() as int;
    let service = service_id(domain, LAUNCH_AGENT_LABEL);
    let enable_args = vec!["enable", service.as_str()];
    assert(arg_texts(enable_args@) =~= seq!["enable"@, service@]);
    let enabled = setup.run_launchctl(enable_args.as_slice());
    let ghost s1 = setup.steps();
    assert(setup.steps().subrange(0, n) =~= old(setup).steps());
    let enable_status = match enabled {
        Ok(s) => s,
        Err(e) => {
            return Err(e);
        },
    };
    if enable_status != 0 {
        let mut m = concat3("launchctl enable ", service.as_str(), " failed (status ");
        m.append(crate::text::i32_to_text(enable_status).as_str());
        m.append(")");
        return Err(RustyJackError::Launchd(m));
    }
    let bootstrap_args = vec!["bootstrap", domain, plist_display];
    assert(arg_texts(bootstrap_args@) =~= seq!["bootstrap"@, domain@, plist_display@]);
    let booted = setup.run_launchctl(bootstrap_args.as_slice());
    let ghost s2 = setup.steps();
    proof {
        assert(setup.steps().subrange(0, n) =~= old(setup).steps());
        assert(setup.steps()[n] == s1[n]);
    }
    let bootstrap_status = match booted {
        Ok(s) => s,
        Err(e) => {
            return Err(e);
        },
    };
    if bootstrap_status != 0 {
        let mut m = concat3("launchctl bootstrap ", domain, " ");
        m.append(plist_display);
        m.append(" failed (status ");
        m.append(crate::text::i32_to_text(bootstrap_status).as_str());
        m.append(")");
        return Err(RustyJackError::Launchd(m));
    }
    setup.clear_pause_reason();
    proof {
        assert(setup.steps().subrange(0, n) =~= old(setup).steps());
        assert(setup.steps()[n] == s1[n]);
        assert(setup.steps()[n + 1] == s2[n + 1]);
    }
    Ok(())
}

/// What writing and loading the LaunchAgent did, from the steps `before` to the
/// steps `after`, and what it returned (`r`); see [`write_and_load_daemon`].
pub open spec fn load_outcome(
    before: Seq<AgentStep>,
    after: Seq<AgentStep>,
    mode: LoadMode,
    force_reload: bool,
    plist_display: String,
    home: Seq<char>,
    binary_path: String,
    binary_version: BinaryVersion,
    domain: Seq<char>,
    was_loaded: bool,
    existing_plist: Option<&str>,
    previous_binary_version: Option<BinaryVersion>,
    previous_running_daemon_version: Option<BinaryVersion>,
    r: Result<LoadDaemonResult, RustyJackError>,
) -> bool {
            let had_plist = existing_plist is Some;
            let existing = match existing_plist {
                Some(p) => Some(p@),
                None => None,
            };
            let previous_path = match existing {
                Some(p) => spec_plist_binary_path(p),
                None => None,
            };
            let rendered = spec_render_plist(
                binary_path@,
                home,
                binary_version.version@,
                binary_version.commit@,
            );
            let current = mode == LoadMode::Upgrade && !force_reload && existing == Some(rendered)
                && previous_path == Some(binary_path@) && (previous_binary_version matches Some(v)
                && v.same_as(&binary_version));
            let stop = !current && match mode {
                LoadMode::Install => had_plist || was_loaded,
                LoadMode::Upgrade => was_loaded,
            };
            let load = match mode {
                LoadMode::Install => true,
                LoadMode::Upgrade => !had_plist || was_loaded,
            };
            let n = before.len() as int;
            let w = if stop { n + 1 } else { n };
            let fields = |res: LoadDaemonResult|
                load_result_fields(
                    res,
                    plist_display@,
                    binary_path@,
                    binary_version,
                    existing,
                    previous_binary_version,
                    previous_running_daemon_version,
                    was_loaded,
                );
            &&& after.subrange(0, n) == before
            &&& current ==> (after == before && r is Ok && fields(r->Ok_0)
                && !r->Ok_0.changed && !r->Ok_0.resumed_after_upgrade)
            &&& !current ==> {
                &&& after.len() > w
                &&& stop ==> after[n] == AgentStep::StopJob
                &&& after[w] matches AgentStep::WritePlist { contents, result }
                    && contents@ == rendered && match result {
                    Err(e) => after.len() == w + 1 && r == Err::<
                        LoadDaemonResult,
                        RustyJackError,
                    >(e),
                    Ok(_) => {
                        let ok = r is Ok && fields(r->Ok_0) && r->Ok_0.changed
                            && r->Ok_0.resumed_after_upgrade == (mode == LoadMode::Upgrade
                            && had_plist && was_loaded);
                        if load {
                            &&& r is Ok ==> ok && load_steps(
                                after,
                                w + 1,
                                domain,
                                plist_display@,
                                Ok(()),
                            )
                            &&& r is Err ==> load_steps(
                                after,
                                w + 1,
                                domain,
                                plist_display@,
                                Err(r->Err_0),
                            )
                        } else {
                            after.len() == w + 1 && ok
                        }
                    },
                }
            }
        }

/// Write the LaunchAgent plist for `binary_path` and load it. An upgrade whose
/// plist, binary path and version are already current does nothing. Otherwise
/// the job is stopped first when it is loaded (or, on install, when a plist
/// exists), the rendered plist is written, and the job is loaded after the write
/// on install, and on upgrade when it was loaded or had no plist.
pub fn write_and_load_daemon<S: AgentSetup>(
    setup: &mut AgentLog<S>,
    mode: LoadMode,
    force_reload: bool,
    plist_display: String,
    home: &str,
    binary_path: String,
    binary_version: BinaryVersion,
    domain: &str,
    was_loaded: bool,
    existing_plist: Option<&str>,
    previous_binary_version: Option<BinaryVersion>,
    previous_running_daemon_version: Option<BinaryVersion>,
) -> (r: Result<LoadDaemonResult, RustyJackError>)
    ensures
        load_outcome(
            old(setup).steps(),
            final(setup).steps(),
            mode,
            force_reload,
            plist_display,
            home@,
            binary_path,
            binary_version,
            domain@,
            was_loaded,
            existing_plist,
            previous_binary_version,
            previous_running_daemon_version,
            r,
        ),
{
    let ghost n = setup.steps().len() as int;
    let had_plist = existing_plist.is_some();
    let previous_binary_path = match existing_plist {
        Some(p) => launch_agent_binary_path_from_plist(p),
        None => None,
    };
    let plist = render_launch_agent_plist(binary_path.as_str(), home, &binary_version);
    let current = mode == LoadMode::Upgrade && daemon_upgrade_is_current(
        force_reload,
        existing_plist,
        plist.as_str(),
        match &previous_binary_path {
            Some(p) => Some(p.as_str()),
            None => None,
        },
        match &previous_binary_version {
            Some(v) => Some(v),
            None => None,
        },
        binary_path.as_str(),
        &binary_version,
    );
    proof {
        let existing = match existing_plist {
            Some(p) => Some(p@),
            None => None,
        };
        let previous_path = match existing {
            Some(p) => spec_plist_binary_path(p),
            None => None,
        };
        assert(opt_view(previous_binary_path) == previous_path);
        assert(current == (mode == LoadMode::Upgrade && !force_reload && existing == Some(plist@)
            && previous_path == Some(binary_path@) && (previous_binary_version matches Some(v)
            && v.same_as(&binary_version))));
    }
    if current {
        assert(setup.steps().subrange(0, n) =~= setup.steps());
        return Ok(
            LoadDaemonResult {
                label: owned(LAUNCH_AGENT_LABEL),
                plist_path: plist_display,
                binary_path,
                binary_version,
                previous_binary_path,
                previous_binary_version,
                previous_running_daemon_version,
                was_loaded,
                had_plist,
                changed: false,
                resumed_after_upgrade: false,
            },
        );
    }
    let load_after_write = should_load_after_write(mode, had_plist, was_loaded);
    if should_stop_before_write(mode, had_plist, was_loaded) {
        setup.stop_job();
    }
    let ghost w = setup.steps().len() as int;
    let written = setup.write_plist(plist.as_str());
    proof {
        assert(setup.steps().subrange(0, n) =~= old(setup).steps());
    }
    match written {
        Err(e) => {
            return Err(e);
        },
        Ok(_) => {},
    }
    let resumed_after_upgrade = mode == LoadMode::Upgrade && had_plist && was_loaded;
    if load_after_write {
        let ghost s0 = setup.steps();
        let loaded = load_job(setup, domain, plist_display.as_str());
        proof {
            assert(setup.steps().subrange(0, s0.len() as int)[w] == setup.steps()[w]);
            assert(setup.steps().subrange(0, n) =~= old(setup).steps());
            if w > n {
                assert(setup.steps().subrange(0, s0.len() as int)[n] == setup.steps()[n]);
            }
        }
        if let Err(e) = loaded {
            return Err(e);
        }
    }
    let r = LoadDaemonResult {
        label: owned(LAUNCH_AGENT_LABEL),
        plist_path: plist_display,
        binary_path,
        binary_version,
        previous_binary_path,
        previous_binary_version,
        previous_running_daemon_version,
        was_loaded,
        had_plist,
        changed: true,
        resumed_after_upgrade,
    };
    Ok(r)
}

/// Whether an upgrade finds the LaunchAgent already current: same plist, same
/// binary path and same version, and no forced reload.
pub open spec fn spec_upgrade_is_current(
    force_reload: bool,
    home: Seq<char>,
    binary_path: Seq<char>,
    binary_version: BinaryVersion,
    existing_plist: Option<&str>,
    previous_binary_version: Option<BinaryVersion>,
) -> bool {
    &&& !force_reload
    &&& existing_plist matches Some(p) && p@ == spec_render_plist(
        binary_path,
        home,
        binary_version.version@,
        binary_version.commit@,
    )
    &&& spec_plist_binary_path(existing_plist->Some_0@) == Some(binary_path)
    &&& previous_binary_version matches Some(v) && v.same_as(&binary_version)
}

/// `rusty-jack upgrade`: rewrite the LaunchAgent plist for this binary and
/// reload the daemon ([`write_and_load_daemon`] in upgrade mode), then report
/// up to date, upgraded or installed ([`upgrade_daemon`]).
pub fn upgrade<S: AgentSetup>(
    setup: &mut AgentLog<S>,
    force_reload: bool,
    plist_display: String,
    home: &str,
    binary_path: String,
    binary_version: BinaryVersion,
    domain: &str,
    was_loaded: bool,
    existing_plist: Option<&str>,
    previous_binary_version: Option<BinaryVersion>,
    previous_running_daemon_version: Option<BinaryVersion>,
) -> (r: Result<UpgradeResult, RustyJackError>)
    ensures
        match r {
            Ok(u) => exists|res: LoadDaemonResult|
                #![trigger spec_upgrade_result(res)]
                load_outcome(
                    old(setup).steps(),
                    final(setup).steps(),
                    LoadMode::Upgrade,
                    force_reload,
                    plist_display,
                    home@,
                    binary_path,
                    binary_version,
                    domain@,
                    was_loaded,
                    existing_plist,
                    previous_binary_version,
                    previous_running_daemon_version,
                    Ok(res),
                ) && u == spec_upgrade_result(res),
            Err(e) => load_outcome(
                old(setup).steps(),
                final(setup).steps(),
                LoadMode::Upgrade,
                force_reload,
                plist_display,
                home@,
                binary_path,
                binary_version,
                domain@,
                was_loaded,
                existing_plist,
                previous_binary_version,
                previous_running_daemon_version,
                Err(e),
            ),
        },
        spec_upgrade_is_current(
            force_reload,
            home@,
            binary_path@,
            binary_version,
            existing_plist,
            previous_binary_version,
        ) ==> final(setup).steps() == old(setup).steps() && r matches Ok(UpgradeResult::UpToDate { .. }),
        existing_plist is None ==> (r is Ok ==> r matches Ok(UpgradeResult::Installed { .. })),
{
    let ghost d = domain@;
    let loaded = write_and_load_daemon(
        setup,
        LoadMode::Upgrade,
        force_reload,
        plist_display,
        home,
        binary_path,
        binary_version,
        domain,
        was_loaded,
        existing_plist,
        previous_binary_version,
        previous_running_daemon_version,
    );
    match loaded {
        Ok(res) => {
            let ghost g = res;
            let u = upgrade_daemon(res);
            assert(u == spec_upgrade_result(g));
            Ok(u)
        },
        Err(e) => Err(e),
    }
}

/// `rusty-jack install`: write the LaunchAgent plist for this binary and load
/// it ([`write_and_load_daemon`] in install mode), then report it installed.
pub fn install<S: AgentSetup>(
    setup: &mut AgentLog<S>,
    plist_display: String,
    home: &str,
    binary_path: String,
    binary_version: BinaryVersion,
    domain: &str,
    was_loaded: bool,
    existing_plist: Option<&str>,
    previous_binary_version: Option<BinaryVersion>,
    previous_running_daemon_version: Option<BinaryVersion>,
) -> (r: Result<InstallResult, RustyJackError>)
    ensures
        match r {
            Ok(i) => exists|res: LoadDaemonResult|
                #![trigger install_result_of(res)]
                load_outcome(
                    old(setup).steps(),
                    final(setup).steps(),
                    LoadMode::Install,
                    false,
                    plist_display,
                    home@,
                    binary_path,
                    binary_version,
                    domain@,
                    was_loaded,
                    existing_plist,
                    previous_binary_version,
                    previous_running_daemon_version,
                    Ok(res),
                ) && i == install_result_of(res),
            Err(e) => load_outcome(
                old(setup).steps(),
                final(setup).steps(),
                LoadMode::Install,
                false,
                plist_display,
                home@,
                binary_path,
                binary_version,
                domain@,
                was_loaded,
                existing_plist,
                previous_binary_version,
                previous_running_daemon_version,
                Err(e),
            ),
        },
{
    match write_and_load_daemon(
        setup,
        LoadMode::Install,
        false,
        plist_display,
        home,
        binary_path,
        binary_version,
        domain,
        was_loaded,
        existing_plist,
        previous_binary_version,
        previous_running_daemon_version,
    ) {
        Ok(res) => {
            let ghost g = res;
            let i = install_daemon(res);
            assert(i == install_result_of(g));
            Ok(i)
        },
        Err(e) => Err(e),
    }
}

/// Re-enable and load a paused LaunchAgent: `launchctl enable`, then `launchctl
/// bootstrap` ([`load_job`]); the stored pause reason is cleared when there is
/// nothing to resume and after a successful load, and kept when loading fails.
pub fn resume_daemon<S: AgentSetup>(
    setup: &mut AgentLog<S>,
    plist_display: String,
    plist_exists: bool,
    job_loaded: bool,
    domain: &str,
) -> (r: Result<ResumeResult, RustyJackError>)
    ensures
        !plist_exists ==> (r matches Ok(ResumeResult::NotInstalled { plist_path }) && plist_path
            == plist_display),
        plist_exists && job_loaded ==> (r matches Ok(ResumeResult::AlreadyRunning { label, plist_path })
            && label@ == LAUNCH_AGENT_LABEL@ && plist_path == plist_display),
        !plist_exists || job_loaded ==> final(setup).steps() == old(setup).steps().push(
            AgentStep::ClearPauseReason,
        ),
        plist_exists && !job_loaded ==> {
            &&& final(setup).steps().subrange(0, old(setup).steps().len() as int) == old(setup).steps()
            &&& match r {
                Ok(res) => res == ResumeResult::Resumed {
                    label: res->Resumed_label,
                    plist_path: plist_display,
                } && res->Resumed_label@ == LAUNCH_AGENT_LABEL@ && load_steps(
                    final(setup).steps(),
                    old(setup).steps().len() as int,
                    domain@,
                    plist_display@,
                    Ok(()),
                ),
                Err(e) => load_steps(
                    final(setup).steps(),
                    old(setup).steps().len() as int,
                    domain@,
                    plist_display@,
                    Err(e),
                ),
            }
        },
{
    if !plist_exists {
        setup.clear_pause_reason();
        return Ok(ResumeResult::NotInstalled { plist_path: plist_display });
    }
    if job_loaded {
        setup.clear_pause_reason();
        return Ok(ResumeResult::AlreadyRunning { label: owned(LAUNCH_AGENT_LABEL), plist_path: plist_display });
    }
    match load_job(setup, domain, plist_display.as_str()) {
        Ok(()) => Ok(ResumeResult::Resumed { label: owned(LAUNCH_AGENT_LABEL), plist_path: plist_display }),
        Err(e) => Err(e),
    }
}

/// Plan a write of the LaunchAgent: skip an upgrade that is already current,
/// else stop and reload the job as the mode asks.
pub fn write_and_load_plan(
    mode: LoadMode,
    upgrade_is_current: bool,
    had_plist: bool,
    was_loaded: bool,
) -> (r: LoadPlan)
    ensures
        r.up_to_date == (mode == LoadMode::Upgrade && upgrade_is_current),
        !r.up_to_date ==> r.stop_before_write == match mode {
            LoadMode::Install => had_plist || was_loaded,
            LoadMode::Upgrade => was_loaded,
        } && r.load_after_write == match mode {
            LoadMode::Install => true,
            LoadMode::Upgrade => !had_plist || was_loaded,
        } && r.resumed_after_upgrade == (mode == LoadMode::Upgrade && had_plist && was_loaded),
        r.up_to_date ==> !r.stop_before_write && !r.load_after_write && !r.resumed_after_upgrade,
{
    if mode == LoadMode::Upgrade && upgrade_is_current {
        return LoadPlan {
            up_to_date: true,
            stop_before_write: false,
            load_after_write: false,
            resumed_after_upgrade: false,
        };
    }
    LoadPlan {
        up_to_date: false,
        stop_before_write: should_stop_before_write(mode, had_plist, was_loaded),
        load_after_write: should_load_after_write(mode, had_plist, was_loaded),
        resumed_after_upgrade: mode == LoadMode::Upgrade && had_plist && was_loaded,
    }
}

/// `install` reports the LaunchAgent it wrote and loaded.
pub fn install_daemon(result: LoadDaemonResult) -> (r: InstallResult)
    ensures
        r == (InstallResult::Installed {
            label: result.label,
            plist_path: result.plist_path,
            binary_path: result.binary_path,
            was_loaded: result.was_loaded,
        }),
{
    InstallResult::Installed {
        label: result.label,
        plist_path: result.plist_path,
        binary_path: result.binary_path,
        was_loaded: result.was_loaded,
    }
}

/// What `install` reports for a load result.
pub open spec fn install_result_of(result: LoadDaemonResult) -> InstallResult {
    InstallResult::Installed {
        label: result.label,
        plist_path: result.plist_path,
        binary_path: result.binary_path,
        was_loaded: result.was_loaded,
    }
}

/// What `upgrade` reports for a load result: up to date when the plist existed
/// and nothing changed, upgraded when it existed and was rewritten, installed
/// when there was none.
pub open spec fn spec_upgrade_result(result: LoadDaemonResult) -> UpgradeResult {
    if result.had_plist && !result.changed {
        UpgradeResult::UpToDate {
            label: result.label,
            plist_path: result.plist_path,
            binary_path: result.binary_path,
            binary_version: result.binary_version,
            was_loaded: result.was_loaded,
        }
    } else if result.had_plist {
        UpgradeResult::Upgraded {
            label: result.label,
            plist_path: result.plist_path,
            binary_path: result.binary_path,
            binary_version: result.binary_version,
            previous_binary_path: result.previous_binary_path,
            previous_binary_version: result.previous_binary_version,
            previous_running_daemon_version: result.previous_running_daemon_version,
            was_loaded: result.was_loaded,
            resumed_after_upgrade: result.resumed_after_upgrade,
        }
    } else {
        UpgradeResult::Installed {
            label: result.label,
            plist_path: result.plist_path,
            binary_path: result.binary_path,
            binary_version: result.binary_version,
        }
    }
}

/// `upgrade` reports an unchanged plist as up to date, a rewritten one as
/// upgraded, and a fresh one as installed.
pub fn upgrade_daemon(result: LoadDaemonResult) -> (r: UpgradeResult)
    ensures
        result.had_plist && !result.changed ==> r == (UpgradeResult::UpToDate {
            label: result.label,
            plist_path: result.plist_path,
            binary_path: result.binary_path,
            binary_version: result.binary_version,
            was_loaded: result.was_loaded,
        }),
        result.had_plist && result.changed ==> r == (UpgradeResult::Upgraded {
            label: result.label,
            plist_path: result.plist_path,
            binary_path: result.binary_path,
            binary_version: result.binary_version,
            previous_binary_path: result.previous_binary_path,
            previous_binary_version: result.previous_binary_version,
            previous_running_daemon_version: result.previous_running_daemon_version,
            was_loaded: result.was_loaded,
            resumed_after_upgrade: result.resumed_after_upgrade,
        }),
        !result.had_plist ==> r == (UpgradeResult::Installed {
            label: result.label,
            plist_path: result.plist_path,
            binary_path: result.binary_path,
            binary_version: result.binary_version,
        }),
{
    if result.had_plist && !result.changed {
        UpgradeResult::UpToDate {
            label: result.label,
            plist_path: result.plist_path,
            binary_path: result.binary_path,
            binary_version: result.binary_version,
            was_loaded: result.was_loaded,
        }
    } else if result.had_plist {
        UpgradeResult::Upgraded {
            label: result.label,
            plist_path: result.plist_path,
            binary_path: result.binary_path,
            binary_version: result.binary_version,
            previous_binary_path: result.previous_binary_path,
            previous_binary_version: result.previous_binary_version,
            previous_running_daemon_version: result.previous_running_daemon_version,
            was_loaded: result.was_loaded,
            resumed_after_upgrade: result.resumed_after_upgrade,
        }
    } else {
        UpgradeResult::Installed {
            label: result.label,
            plist_path: result.plist_path,
            binary_path: result.binary_path,
            binary_version: result.binary_version,
        }
    }
}

pub open spec fn differs_from(v: Option<BinaryVersion>, cli: BinaryVersion) -> bool {
    match v {
        Some(x) => !x.same_as(&cli),
        None => false,
    }
}

/// Compare the installed LaunchAgent binary (and the running daemon) with the
/// current CLI. The plist's program path, version and stamp, and the versions
/// read from the running daemon's environment and binary, are given.
pub fn daemon_version_check(
    cli_binary_path: String,
    cli_version: BinaryVersion,
    plist_binary_path: Option<String>,
    plist_binary_version: Option<BinaryVersion>,
    plist_has_version_stamp: bool,
    running_pid: Option<u32>,
    running_env_version: Option<BinaryVersion>,
    running_path_version: Option<BinaryVersion>,
) -> (r: DaemonVersionCheck)
    ensures
        r.cli_binary_path == cli_binary_path,
        r.cli_version == cli_version,
        r.plist_binary_path == plist_binary_path,
        r.plist_binary_version == plist_binary_version,
        r.running_binary_version == if running_pid is None {
            None
        } else if running_env_version is Some {
            running_env_version
        } else {
            running_path_version
        },
        r.needs_version_stamp_refresh == (plist_binary_path is Some && (!plist_has_version_stamp || (
        running_pid is Some && running_env_version is None))),
        r.stale == (plist_binary_path is Some && (r.needs_version_stamp_refresh || opt_view(
            plist_binary_path,
        ) != Some(cli_binary_path@) || differs_from(plist_binary_version, cli_version)
            || differs_from(r.running_binary_version, cli_version))),
        r.refresh_command@ == DAEMON_REFRESH_COMMAND@,
{
    let running_has_version_stamp = running_pid.is_some() && running_env_version.is_some();
    let running_binary_version = if running_pid.is_none() {
        None
    } else if running_env_version.is_some() {
        running_env_version
    } else {
        running_path_version
    };
    let needs_version_stamp_refresh = plist_binary_path.is_some() && (!plist_has_version_stamp || (
    running_pid.is_some() && !running_has_version_stamp));
    let same_path = match &plist_binary_path {
        Some(p) => str_eq(p.as_str(), cli_binary_path.as_str()),
        None => false,
    };
    let plist_differs = match &plist_binary_version {
        Some(v) => !v.matches(&cli_version),
        None => false,
    };
    let running_differs = match &running_binary_version {
        Some(v) => !v.matches(&cli_version),
        None => false,
    };
    let stale = plist_binary_path.is_some() && (needs_version_stamp_refresh || !same_path
        || plist_differs || running_differs);
    DaemonVersionCheck {
        cli_binary_path,
        cli_version,
        plist_binary_path,
        plist_binary_version,
        running_binary_version,
        needs_version_stamp_refresh,
        stale,
        refresh_command: DAEMON_REFRESH_COMMAND,
    }
}


pub open spec fn yes_no(b: bool) -> Seq<char> {
    if b {
        "yes"@
    } else {
        "no"@
    }
}

fn yes_no_str(b: bool) -> (r: &'static str)
    ensures
        r@ == yes_no(b),
{
    if b {
        "yes"
    } else {
        "no"
    }
}

pub open spec fn spec_version_display(v: Option<BinaryVersion>) -> Seq<char> {
    match v {
        Some(x) => x.spec_display(),
        None => "unknown"@,
    }
}

/// A version as shown to users, `unknown` when absent.
pub fn version_display(version: Option<&BinaryVersion>) -> (r: String)
    ensures
        r@ == spec_version_display(
            match version {
                Some(v) => Some(*v),
                None => None,
            },
        ),
{
    match version {
        Some(v) => v.display(),
        None => owned("unknown"),
    }
}

fn line2(a: &str, b: &str) -> (r: String)
    ensures
        r@ == a@ + b@,
{
    concat2(a, b)
}

pub open spec fn spec_install_lines(result: InstallResult) -> Seq<Seq<char>> {
    match result {
        InstallResult::Installed { label, plist_path, binary_path, was_loaded } => seq![
            "Installed rusty-jack daemon ("@ + label@ + ")"@,
            "  binary:      "@ + binary_path@,
            "  plist:       "@ + plist_path@,
            "  restarted:   "@ + yes_no(was_loaded),
            "  auto-routing active"@,
        ],
    }
}

/// Human-readable lines for [`InstallResult`].
pub fn install_result_lines(result: &InstallResult) -> (r: Vec<String>)
    ensures
        crate::text::texts(r@) == spec_install_lines(*result),
{
    let mut v: Vec<String> = Vec::new();
    match result {
        InstallResult::Installed { label, plist_path, binary_path, was_loaded } => {
            crate::text::push_line(&mut v, concat3("Installed rusty-jack daemon (", label.as_str(), ")"));
            crate::text::push_line(&mut v, line2("  binary:      ", binary_path.as_str()));
            crate::text::push_line(&mut v, line2("  plist:       ", plist_path.as_str()));
            crate::text::push_line(&mut v, line2("  restarted:   ", yes_no_str(*was_loaded)));
            crate::text::push_line(&mut v, owned("  auto-routing active"));
        },
    }
    assert(crate::text::texts(v@) =~= spec_install_lines(*result));
    v
}

pub open spec fn when(c: bool, line: Seq<char>) -> Seq<Seq<char>> {
    if c {
        seq![line]
    } else {
        seq![]
    }
}

pub open spec fn spec_upgrade_before_lines(
    was_loaded: bool,
    previous_running_daemon_version: Option<BinaryVersion>,
    previous_binary_version: Option<BinaryVersion>,
    previous_binary_path: Option<String>,
) -> Seq<Seq<char>> {
    when(was_loaded, "  daemon before: "@ + spec_version_display(previous_running_daemon_version))
        + match previous_binary_version {
        Some(configured) => if !was_loaded {
            seq!["  before:     "@ + configured.spec_display()]
        } else if !(previous_running_daemon_version matches Some(running) && running.same_as(
            &configured,
        )) {
            seq!["  plist before:  "@ + configured.spec_display()]
        } else {
            seq![]
        },
        None => when(!was_loaded, "  before:     unknown"@),
    } + match previous_binary_path {
        Some(path) => seq!["  old binary: "@ + path@],
        None => seq![],
    }
}

pub open spec fn spec_upgrade_lines(result: UpgradeResult) -> Seq<Seq<char>> {
    match result {
        UpgradeResult::UpToDate { label, plist_path, binary_path, binary_version, was_loaded } => seq![
            "rusty-jack daemon LaunchAgent is up to date ("@ + label@ + ")"@,
            "  version:      "@ + binary_version.spec_display(),
            "  binary:       "@ + binary_path@,
            "  plist:        "@ + plist_path@,
            "  auto-routing: "@ + if was_loaded {
                "active"@
            } else {
                "remains paused"@
            },
        ],
        UpgradeResult::Upgraded {
            label,
            plist_path,
            binary_path,
            binary_version,
            previous_binary_path,
            previous_binary_version,
            previous_running_daemon_version,
            was_loaded,
            resumed_after_upgrade,
        } => seq!["Upgraded rusty-jack daemon LaunchAgent ("@ + label@ + ")"@] + spec_upgrade_before_lines(
            was_loaded,
            previous_running_daemon_version,
            previous_binary_version,
            previous_binary_path,
        ) + seq![
            "  after:      "@ + binary_version.spec_display(),
            "  binary:     "@ + binary_path@,
            "  plist:      "@ + plist_path@,
            "  was running: "@ + yes_no(was_loaded),
            "  paused during upgrade: "@ + yes_no(was_loaded),
            "  resumed after upgrade: "@ + yes_no(resumed_after_upgrade),
            "  auto-routing: "@ + if resumed_after_upgrade {
                "active"@
            } else {
                "remains paused"@
            },
        ],
        UpgradeResult::Installed { label, plist_path, binary_path, binary_version } => seq![
            "Daemon was not installed; installed it now ("@ + label@ + ")"@,
            "  before: not installed"@,
            "  after:  "@ + binary_version.spec_display(),
            "  binary: "@ + binary_path@,
            "  plist:  "@ + plist_path@,
        ],
    }
}

fn upgrade_before_lines(
    was_loaded: bool,
    previous_running_daemon_version: &Option<BinaryVersion>,
    previous_binary_version: &Option<BinaryVersion>,
    previous_binary_path: &Option<String>,
) -> (r: Vec<String>)
    ensures
        crate::text::texts(r@) == spec_upgrade_before_lines(
            was_loaded,
            *previous_running_daemon_version,
            *previous_binary_version,
            *previous_binary_path,
        ),
{
    let mut v: Vec<String> = Vec::new();
    if was_loaded {
        let running = match previous_running_daemon_version {
            Some(x) => Some(x),
            None => None,
        };
        crate::text::push_line(&mut v, line2("  daemon before: ", version_display(running).as_str()));
    }
    let ghost s2 = crate::text::texts(v@);
    match previous_binary_version {
        Some(configured) => {
            if !was_loaded {
                crate::text::push_line(&mut v, line2("  before:     ", configured.display().as_str()));
            } else {
                let same = match previous_running_daemon_version {
                    Some(running) => running.matches(configured),
                    None => false,
                };
                if !same {
                    crate::text::push_line(
                        &mut v,
                        line2("  plist before:  ", configured.display().as_str()),
                    );
                }
            }
        },
        None => {
            if !was_loaded {
                crate::text::push_line(&mut v, owned("  before:     unknown"));
            }
        },
    }
    let ghost s3 = crate::text::texts(v@);
    if let Some(path) = previous_binary_path {
        crate::text::push_line(&mut v, line2("  old binary: ", path.as_str()));
    }
    proof {
        let a = when(was_loaded, "  daemon before: "@ + spec_version_display(*previous_running_daemon_version));
        assert(s2 =~= a);
        let b = match previous_binary_version {
            Some(configured) => if !was_loaded {
                seq!["  before:     "@ + configured.spec_display()]
            } else if !(previous_running_daemon_version matches Some(running) && running.same_as(
                configured,
            )) {
                seq!["  plist before:  "@ + configured.spec_display()]
            } else {
                seq![]
            },
            None => when(!was_loaded, "  before:     unknown"@),
        };
        assert(s3 =~= s2 + b);
        assert(crate::text::texts(v@) =~= spec_upgrade_before_lines(
            was_loaded,
            *previous_running_daemon_version,
            *previous_binary_version,
            *previous_binary_path,
        ));
    }
    v
}

/// Human-readable lines for [`UpgradeResult`].
#[verifier::spinoff_prover]
#[verifier::rlimit(40)]
pub fn upgrade_result_lines(result: &UpgradeResult) -> (r: Vec<String>)
    ensures
        crate::text::texts(r@) == spec_upgrade_lines(*result),
{
    let mut v: Vec<String> = Vec::new();
    match result {
        UpgradeResult::UpToDate { label, plist_path, binary_path, binary_version, was_loaded } => {
            crate::text::push_line(
                &mut v,
                concat3("rusty-jack daemon LaunchAgent is up to date (", label.as_str(), ")"),
            );
            crate::text::push_line(&mut v, line2("  version:      ", binary_version.display().as_str()));
            crate::text::push_line(&mut v, line2("  binary:       ", binary_path.as_str()));
            crate::text::push_line(&mut v, line2("  plist:        ", plist_path.as_str()));
            crate::text::push_line(
                &mut v,
                line2(
                    "  auto-routing: ",
                    if *was_loaded {
                        "active"
                    } else {
                        "remains paused"
                    },
                ),
            );
            assert(crate::text::texts(v@) =~= spec_upgrade_lines(*result));
        },
        UpgradeResult::Upgraded {
            label,
            plist_path,
            binary_path,
            binary_version,
            previous_binary_path,
            previous_binary_version,
            previous_running_daemon_version,
            was_loaded,
            resumed_after_upgrade,
        } => {
            crate::text::push_line(
                &mut v,
                concat3("Upgraded rusty-jack daemon LaunchAgent (", label.as_str(), ")"),
            );
            let middle = upgrade_before_lines(
                *was_loaded,
                previous_running_daemon_version,
                previous_binary_version,
                previous_binary_path,
            );
            let ghost s1 = crate::text::texts(v@);
            let mut i: usize = 0;
            while i < middle.len()
                invariant
                    i <= middle@.len(),
                    crate::text::texts(v@) == s1 + crate::text::texts(middle@).take(i as int),
                decreases middle@.len() - i,
            {
                crate::text::push_line(&mut v, middle[i].clone());
                assert(crate::text::texts(middle@).take(i + 1) =~= crate::text::texts(middle@).take(
                    i as int,
                ).push(middle@[i as int]@));
                i = i + 1;
            }
            assert(crate::text::texts(middle@).take(middle@.len() as int) =~= crate::text::texts(middle@));
            crate::text::push_line(&mut v, line2("  after:      ", binary_version.display().as_str()));
            crate::text::push_line(&mut v, line2("  binary:     ", binary_path.as_str()));
            crate::text::push_line(&mut v, line2("  plist:      ", plist_path.as_str()));
            crate::text::push_line(&mut v, line2("  was running: ", yes_no_str(*was_loaded)));
            crate::text::push_line(
                &mut v,
                line2("  paused during upgrade: ", yes_no_str(*was_loaded)),
            );
            crate::text::push_line(
                &mut v,
                line2("  resumed after upgrade: ", yes_no_str(*resumed_after_upgrade)),
            );
            crate::text::push_line(
                &mut v,
                line2(
                    "  auto-routing: ",
                    if *resumed_after_upgrade {
                        "active"
                    } else {
                        "remains paused"
                    },
                ),
            );
            proof {
                assert(crate::text::texts(v@) =~= spec_upgrade_lines(*result));
            }
        },
        UpgradeResult::Installed { label, plist_path, binary_path, binary_version } => {
            crate::text::push_line(
                &mut v,
                concat3("Daemon was not installed; installed it now (", label.as_str(), ")"),
            );
            crate::text::push_line(&mut v, owned("  before: not installed"));
            crate::text::push_line(&mut v, line2("  after:  ", binary_version.display().as_str()));
            crate::text::push_line(&mut v, line2("  binary: ", binary_path.as_str()));
            crate::text::push_line(&mut v, line2("  plist:  ", plist_path.as_str()));
            assert(crate::text::texts(v@) =~= spec_upgrade_lines(*result));
        },
    }
    v
}


pub open spec fn spec_disable_lines(result: DisableResult) -> Seq<Seq<char>> {
    match result {
        DisableResult::Uninstalled { label, plist_path, was_loaded } => seq![
            "Uninstalled rusty-jack daemon ("@ + label@ + ")"@,
            "  removed plist: "@ + plist_path@,
            "  was running:   "@ + yes_no(was_loaded),
        ],
        DisableResult::NotInstalled { plist_path } => seq![
            "Daemon not installed"@,
            "  expected plist: "@ + plist_path@,
        ],
    }
}

/// Human-readable lines for [`DisableResult`].
pub fn disable_result_lines(result: &DisableResult) -> (r: Vec<String>)
    ensures
        crate::text::texts(r@) == spec_disable_lines(*result),
{
    let mut v: Vec<String> = Vec::new();
    match result {
        DisableResult::Uninstalled { label, plist_path, was_loaded } => {
            crate::text::push_line(&mut v, concat3("Uninstalled rusty-jack daemon (", label.as_str(), ")"));
            crate::text::push_line(&mut v, line2("  removed plist: ", plist_path.as_str()));
            crate::text::push_line(&mut v, line2("  was running:   ", yes_no_str(*was_loaded)));
        },
        DisableResult::NotInstalled { plist_path } => {
            crate::text::push_line(&mut v, owned("Daemon not installed"));
            crate::text::push_line(&mut v, line2("  expected plist: ", plist_path.as_str()));
        },
    }
    assert(crate::text::texts(v@) =~= spec_disable_lines(*result));
    v
}

pub open spec fn spec_pause_lines(result: PauseResult) -> Seq<Seq<char>> {
    match result {
        PauseResult::Paused { label, plist_path, was_loaded, pause_reason } => seq![
            "Paused rusty-jack daemon ("@ + label@ + ")"@,
            "  plist kept:    "@ + plist_path@,
            "  was running:   "@ + yes_no(was_loaded),
        ] + match pause_reason {
            Some(reason) => seq!["  reason:        "@ + reason.spec_message()],
            None => seq![],
        } + seq!["  auto-routing stopped until `rusty-jack resume`"@],
        PauseResult::NotInstalled { plist_path } => seq![
            "Daemon not installed (nothing to pause)"@,
            "  expected plist: "@ + plist_path@,
        ],
    }
}

/// Human-readable lines for [`PauseResult`].
pub fn pause_result_lines(result: &PauseResult) -> (r: Vec<String>)
    ensures
        crate::text::texts(r@) == spec_pause_lines(*result),
{
    let mut v: Vec<String> = Vec::new();
    match result {
        PauseResult::Paused { label, plist_path, was_loaded, pause_reason } => {
            crate::text::push_line(&mut v, concat3("Paused rusty-jack daemon (", label.as_str(), ")"));
            crate::text::push_line(&mut v, line2("  plist kept:    ", plist_path.as_str()));
            crate::text::push_line(&mut v, line2("  was running:   ", yes_no_str(*was_loaded)));
            let ghost s3 = crate::text::texts(v@);
            if let Some(reason) = pause_reason {
                crate::text::push_line(&mut v, line2("  reason:        ", reason.message().as_str()));
            }
            let ghost s4 = crate::text::texts(v@);
            crate::text::push_line(&mut v, owned("  auto-routing stopped until `rusty-jack resume`"));
            proof {
                let m = match pause_reason {
                    Some(reason) => seq!["  reason:        "@ + reason.spec_message()],
                    None => seq![],
                };
                assert(s4 =~= s3 + m);
            }
        },
        PauseResult::NotInstalled { plist_path } => {
            crate::text::push_line(&mut v, owned("Daemon not installed (nothing to pause)"));
            crate::text::push_line(&mut v, line2("  expected plist: ", plist_path.as_str()));
        },
    }
    assert(crate::text::texts(v@) =~= spec_pause_lines(*result));
    v
}

pub open spec fn spec_resume_lines(result: ResumeResult) -> Seq<Seq<char>> {
    match result {
        ResumeResult::Resumed { label, plist_path } => seq![
            "Resumed rusty-jack daemon ("@ + label@ + ")"@,
            "  plist: "@ + plist_path@,
            "  auto-routing active"@,
        ],
        ResumeResult::AlreadyRunning { label, plist_path } => seq![
            "Daemon already running ("@ + label@ + ")"@,
            "  plist: "@ + plist_path@,
        ],
        ResumeResult::NotInstalled { plist_path } => seq![
            "Daemon not installed (nothing to resume)"@,
            "  expected plist: "@ + plist_path@,
            "  install the LaunchAgent first, then run resume"@,
        ],
    }
}

/// Human-readable lines for [`ResumeResult`].
pub fn resume_result_lines(result: &ResumeResult) -> (r: Vec<String>)
    ensures
        crate::text::texts(r@) == spec_resume_lines(*result),
{
    let mut v: Vec<String> = Vec::new();
    match result {
        ResumeResult::Resumed { label, plist_path } => {
            crate::text::push_line(&mut v, concat3("Resumed rusty-jack daemon (", label.as_str(), ")"));
            crate::text::push_line(&mut v, line2("  plist: ", plist_path.as_str()));
            crate::text::push_line(&mut v, owned("  auto-routing active"));
        },
        ResumeResult::AlreadyRunning { label, plist_path } => {
            crate::text::push_line(&mut v, concat3("Daemon already running (", label.as_str(), ")"));
            crate::text::push_line(&mut v, line2("  plist: ", plist_path.as_str()));
        },
        ResumeResult::NotInstalled { plist_path } => {
            crate::text::push_line(&mut v, owned("Daemon not installed (nothing to resume)"));
            crate::text::push_line(&mut v, line2("  expected plist: ", plist_path.as_str()));
            crate::text::push_line(&mut v, owned("  install the LaunchAgent first, then run resume"));
        },
    }
    assert(crate::text::texts(v@) =~= spec_resume_lines(*result));
    v
}


/// `~/Library/LaunchAgents/<label>.plist`, given the home directory.
pub fn launch_agent_plist_path(home: Option<&str>) -> (r: Option<String>)
    ensures
        match home {
            Some(h) => r is Some && r.unwrap()@ == crate::eqmac::join_path(
                crate::eqmac::join_path(h@, "Library/LaunchAgents"@),
                LAUNCH_AGENT_LABEL@ + ".plist"@,
            ),
            None => r is None,
        },
{
    match home {
        Some(h) => {
            let dir = crate::eqmac::join_path_str(h, "Library/LaunchAgents");
            let file = crate::text::concat2(LAUNCH_AGENT_LABEL, ".plist");
            Some(crate::eqmac::join_path_str(dir.as_str(), file.as_str()))
        },
        None => None,
    }
}

/// The launchd GUI domain (`gui/<uid>`) from what `id -u` printed.
pub fn gui_domain_from_id_output(success: bool, stdout: &str) -> (r: Result<String, RustyJackError>)
    ensures
        !success ==> (r matches Err(RustyJackError::Launchd(m)) && m@
            == "failed to resolve user id (id -u)"@),
        success && crate::text::trim(stdout@).len() == 0 ==> (r matches Err(
            RustyJackError::Launchd(m),
        ) && m@ == "empty user id"@),
        success && crate::text::trim(stdout@).len() > 0 ==> (r matches Ok(d) && d@ == "gui/"@
            + crate::text::trim(stdout@)),
{
    if !success {
        return Err(RustyJackError::Launchd(crate::text::owned("failed to resolve user id (id -u)")));
    }
    let uid = crate::text::trim_str(stdout);
    if uid.unicode_len() == 0 {
        return Err(RustyJackError::Launchd(crate::text::owned("empty user id")));
    }
    Ok(crate::text::concat2("gui/", uid))
}

/// Where the daemon logs: the resolved default log file.
pub fn daemon_log_paths(env_file: Option<&str>, home: Option<&str>) -> (r: Result<
    DaemonLogPaths,
    RustyJackError,
>)
    ensures
        r matches Ok(p) && p.file@ == match crate::logging::opt_text(env_file) {
            Some(f) => if !crate::logging::blank(f) {
                crate::logging::spec_expand_tilde(f, crate::logging::opt_text(home))
            } else {
                crate::logging::spec_expand_tilde(
                    crate::logging::DEFAULT_LOG_FILE@,
                    crate::logging::opt_text(home),
                )
            },
            None => crate::logging::spec_expand_tilde(
                crate::logging::DEFAULT_LOG_FILE@,
                crate::logging::opt_text(home),
            ),
        },
{
    let file = crate::logging::resolve_log_file_path(crate::logging::DEFAULT_LOG_FILE, env_file, home);
    Ok(DaemonLogPaths { file })
}

} // verus!
