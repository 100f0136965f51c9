//! Command-line grammar: subcommands, their flags, and the parser from argv.
use crate::text::{parse_u64, parse_u64_str, seq_starts_with, split_once, split_once_str, starts_with, str_eq};
use vstd::prelude::*;

verus! {

/// Parsed command line.
#[derive(Debug)]
pub struct Cli {
    /// Path to config JSON (overrides `RUSTY_JACK_CONFIG` and default file)
    pub config: Option<String>,
    pub command: Commands,
}

/// Subcommands (enum order = display order in `--help`; keep alphabetical).
#[derive(Debug, Clone, Copy, PartialEq, Eq, Structural)]
pub enum Commands {
    /// Apply config policy once
    Apply(ApplyArgs),
    /// Manage configuration (init, validate)
    Config(ConfigArgs),
    /// Run the background supervisor loop (used by launchd)
    Daemon,
    /// Uninstall the launchd LaunchAgent (stop, disable, remove plist)
    Disable(DisableArgs),
    /// Test native driver by swapping eqMac's HAL driver out and back in
    Driver(DriverArgs),
    /// Install and start the launchd LaunchAgent for this user
    Install(InstallArgs),
    /// List audio output devices
    List(ListArgs),
    /// Pause the daemon (stop auto-routing; keeps LaunchAgent installed)
    Pause(PauseArgs),
    /// Interactively pick an output device and switch to it
    Picker(PickerArgs),
    /// Resume a paused daemon
    Resume(ResumeArgs),
    /// ScalarWebAPI-compatible speaker helpers
    ScalarWebapiDevice(ScalarWebapiDeviceArgs),
    /// Show current default output and policy status
    Status(StatusArgs),
    /// Uninstall the launchd LaunchAgent (alias for disable)
    Uninstall(UninstallArgs),
    /// Refresh the LaunchAgent to the current binary when needed
    Upgrade(UpgradeArgs),
}

#[derive(Debug, Clone, Copy, PartialEq, Eq, Structural)]
pub struct DriverArgs {
    pub command: DriverCommand,
}

#[derive(Debug, Clone, Copy, PartialEq, Eq, Structural)]
pub enum DriverCommand {
    /// Back up eqMac's HAL driver and install Rusty Jack's driver
    SwapIn(DriverSwapArgs),
    /// Remove Rusty Jack's driver and restore the backed-up eqMac driver
    SwapOut(DriverSwapArgs),
    /// Reinstall eqMac's HAL driver and restart CoreAudio
    RestoreEqMac(DriverSwapArgs),
}

#[derive(Debug, Clone, Copy, PartialEq, Eq, Structural)]
pub struct DriverSwapArgs {
    pub json: bool,
}

#[derive(Debug, Clone, Copy, PartialEq, Eq, Structural)]
pub struct ListArgs {
    /// Only show HDMI, DisplayPort, Thunderbolt, and USB dock outputs
    pub hdmi: bool,
    pub json: bool,
    /// Discover ScalarWebAPI speakers on the LAN and refresh cache for configured host
    pub discover: bool,
}

#[derive(Debug, Clone, Copy, PartialEq, Eq, Structural)]
pub struct ApplyArgs {
    pub json: bool,
}

#[derive(Debug, Clone, Copy, PartialEq, Eq, Structural)]
pub struct ConfigArgs {
    pub command: ConfigCommand,
}

#[derive(Debug, Clone, Copy, PartialEq, Eq, Structural)]
pub enum ConfigCommand {
    /// Create the config file when missing
    Init(ConfigInitArgs),
    /// Validate and canonicalize a config file
    Validate(ConfigValidateArgs),
}

#[derive(Debug, Clone, Copy, PartialEq, Eq, Structural)]
pub struct ConfigInitArgs {
    pub json: bool,
}

#[derive(Debug, Clone, Copy, PartialEq, Eq, Structural)]
pub struct ConfigValidateArgs {
    pub json: bool,
}

#[derive(Debug, Clone, Copy, PartialEq, Eq, Structural)]
pub struct PickerArgs {
    pub json: bool,
    /// Device list index (same as `list` IDX column); skips interactive menu
    pub index: Option<usize>,
}

#[derive(Debug, Clone, Copy, PartialEq, Eq, Structural)]
pub struct DisableArgs {
    pub json: bool,
}

#[derive(Debug, Clone, Copy, PartialEq, Eq, Structural)]
pub struct InstallArgs {
    pub json: bool,
}

#[derive(Debug, Clone, Copy, PartialEq, Eq, Structural)]
pub struct PauseArgs {
    pub json: bool,
}

#[derive(Debug, Clone, Copy, PartialEq, Eq, Structural)]
pub struct ResumeArgs {
    pub json: bool,
}

#[derive(Debug, Clone, Copy, PartialEq, Eq, Structural)]
pub struct ScalarWebapiDeviceArgs {
    pub command: ScalarWebapiDeviceCommand,
}

#[derive(Debug, Clone, Copy, PartialEq, Eq, Structural)]
pub enum ScalarWebapiDeviceCommand {
    /// Scan the LAN for ScalarWebAPI-compatible speakers
    Discover(ScalarWebapiDeviceDiscoverArgs),
}

#[derive(Debug, Clone, Copy, PartialEq, Eq, Structural)]
pub struct ScalarWebapiDeviceDiscoverArgs {
    pub json: bool,
    /// SSDP discovery timeout in milliseconds
    pub timeout_ms: Option<u64>,
    /// Fetch `mac_address` for the configured device and write it to the config file
    pub update_config: bool,
}

#[derive(Debug, Clone, Copy, PartialEq, Eq, Structural)]
pub struct StatusArgs {
    pub json: bool,
}

#[derive(Debug, Clone, Copy, PartialEq, Eq, Structural)]
pub struct UninstallArgs {
    pub json: bool,
    /// Remove the default config file without prompting
    pub remove_config: bool,
    /// Keep the default config file without prompting
    pub keep_config: bool,
    /// Only remove the native audio driver; keep LaunchAgent, binary, and config
    pub only_driver: bool,
    /// Skip restoring the pre-install default output device, if present
    pub no_restore_audio: bool,
    /// Remove daemon log files
    pub purge_logs: bool,
    /// Full cleanup: remove config, purge logs, and restore audio
    pub purge: bool,
}

#[derive(Debug, Clone, Copy, PartialEq, Eq, Structural)]
pub struct UpgradeArgs {
    pub json: bool,
    /// Restart/rewrite even when the LaunchAgent already matches this binary
    pub force: bool,
}

/// Why a command line was not accepted.
#[derive(Debug, Clone, Copy, PartialEq, Eq, Structural)]
pub enum CliErrorKind {
    MissingSubcommand,
    InvalidSubcommand,
    UnknownArgument,
    MissingValue,
    InvalidValue,
    ArgumentConflict,
    ArgumentRepeated,
    DisplayHelp,
    DisplayVersion,
}

/// A refused command line: the kind of problem and the argument it concerns.
#[derive(Debug)]
pub struct CliError {
    pub kind: CliErrorKind,
    pub arg: String,
}

/// Flags seen (in order) and flag values seen (in order).
pub open spec fn no_flags() -> (Seq<Seq<char>>, Seq<(Seq<char>, Seq<char>)>) {
    (seq![], seq![])
}

pub open spec fn is_help(t: Seq<char>) -> bool {
    t == "--help"@ || t == "-h"@
}

pub open spec fn is_version(t: Seq<char>) -> bool {
    t == "--version"@ || t == "-V"@
}

/// A token that cannot be a flag's value.
pub open spec fn looks_like_flag(t: Seq<char>) -> bool {
    seq_starts_with(t, "-"@)
}

pub open spec fn has_key(v: Seq<(Seq<char>, Seq<char>)>, k: Seq<char>) -> bool {
    exists|i: int| 0 <= i < v.len() && (#[trigger] v[i]).0 == k
}

/// The value given for flag `k`.
pub open spec fn lookup(v: Seq<(Seq<char>, Seq<char>)>, k: Seq<char>) -> Option<Seq<char>>
    decreases v.len(),
{
    if v.len() == 0 {
        None
    } else if v[0].0 == k {
        Some(v[0].1)
    } else {
        lookup(v.drop_first(), k)
    }
}

/// Pull the global `--config PATH` / `--config=PATH` out of `ts[i..]`.
pub open spec fn split_config(ts: Seq<Seq<char>>, i: int) -> Result<
    (Option<Seq<char>>, Seq<Seq<char>>),
    (CliErrorKind, Seq<char>),
>
    decreases ts.len() - i,
{
    if i < 0 || i >= ts.len() {
        Ok((None, seq![]))
    } else {
        let t = ts[i];
        if t == "--config"@ {
            if i + 1 >= ts.len() || looks_like_flag(ts[i + 1]) {
                Err((CliErrorKind::MissingValue, t))
            } else {
                match split_config(ts, i + 2) {
                    Ok((c, rest)) => if c is Some {
                        Err((CliErrorKind::ArgumentRepeated, "--config"@))
                    } else {
                        Ok((Some(ts[i + 1]), rest))
                    },
                    Err(e) => Err(e),
                }
            }
        } else if seq_starts_with(t, "--config="@) {
            match split_config(ts, i + 1) {
                Ok((c, rest)) => if c is Some {
                    Err((CliErrorKind::ArgumentRepeated, "--config"@))
                } else {
                    Ok((Some(t.subrange(9, t.len() as int)), rest))
                },
                Err(e) => Err(e),
            }
        } else {
            match split_config(ts, i + 1) {
                Ok((c, rest)) => Ok((c, seq![t] + rest)),
                Err(e) => Err(e),
            }
        }
    }
}

/// Flags of `ts[i..]` against the known switches `bools` and valued flags `values`.
pub open spec fn scan_flags(
    ts: Seq<Seq<char>>,
    i: int,
    bools: Seq<Seq<char>>,
    values: Seq<Seq<char>>,
) -> Result<(Seq<Seq<char>>, Seq<(Seq<char>, Seq<char>)>), (CliErrorKind, Seq<char>)>
    decreases ts.len() - i,
{
    if i < 0 || i >= ts.len() {
        Ok(no_flags())
    } else {
        let t = ts[i];
        if is_help(t) {
            Err((CliErrorKind::DisplayHelp, t))
        } else if bools.contains(t) {
            match scan_flags(ts, i + 1, bools, values) {
                Ok((b, v)) => if b.contains(t) {
                    Err((CliErrorKind::ArgumentRepeated, t))
                } else {
                    Ok((seq![t] + b, v))
                },
                Err(e) => Err(e),
            }
        } else if values.contains(t) {
            if i + 1 >= ts.len() || looks_like_flag(ts[i + 1]) {
                Err((CliErrorKind::MissingValue, t))
            } else {
                match scan_flags(ts, i + 2, bools, values) {
                    Ok((b, v)) => if has_key(v, t) {
                        Err((CliErrorKind::ArgumentRepeated, t))
                    } else {
                        Ok((b, seq![(t, ts[i + 1])] + v))
                    },
                    Err(e) => Err(e),
                }
            }
        } else {
            match split_once(t, "="@) {
                Some((k, val)) => if values.contains(k) {
                    match scan_flags(ts, i + 1, bools, values) {
                        Ok((b, v)) => if has_key(v, k) {
                            Err((CliErrorKind::ArgumentRepeated, k))
                        } else {
                            Ok((b, seq![(k, val)] + v))
                        },
                        Err(e) => Err(e),
                    }
                } else {
                    Err((CliErrorKind::UnknownArgument, t))
                },
                None => Err((CliErrorKind::UnknownArgument, t)),
            }
        }
    }
}


pub open spec fn tok_view(ts: Seq<&str>) -> Seq<Seq<char>> {
    ts.map_values(|s: &str| s@)
}

pub open spec fn pair_view(v: Seq<(&str, &str)>) -> Seq<(Seq<char>, Seq<char>)> {
    v.map_values(|p: (&str, &str)| (p.0@, p.1@))
}

/// An error value that carries exactly the refusal `s`.
pub open spec fn err_is(e: CliError, s: (CliErrorKind, Seq<char>)) -> bool {
    e.kind == s.0 && e.arg@ == s.1
}

fn refuse(kind: CliErrorKind, arg: &str) -> (r: CliError)
    ensures
        r.kind == kind,
        r.arg@ == arg@,
{
    CliError { kind, arg: crate::text::owned(arg) }
}

/// `t` is one of `list`.
fn str_in(list: &[&str], t: &str) -> (r: bool)
    ensures
        r == tok_view(list@).contains(t@),
{
    let mut i: usize = 0;
    while i < list.len()
        invariant
            i <= list@.len(),
            forall|j: int| 0 <= j < i ==> list@[j]@ != t@,
        decreases list@.len() - i,
    {
        if str_eq(list[i], t) {
            assert(tok_view(list@)[i as int] == t@);
            return true;
        }
        i = i + 1;
    }
    proof {
        if tok_view(list@).contains(t@) {
            let j = choose|j: int| 0 <= j < tok_view(list@).len() && tok_view(list@)[j] == t@;
            assert(list@[j]@ == t@);
        }
    }
    false
}

fn key_in(v: &Vec<(&str, &str)>, k: &str) -> (r: bool)
    ensures
        r == has_key(pair_view(v@), k@),
{
    let mut i: usize = 0;
    while i < v.len()
        invariant
            i <= v@.len(),
            forall|j: int| 0 <= j < i ==> v@[j].0@ != k@,
        decreases v@.len() - i,
    {
        if str_eq(v[i].0, k) {
            assert(pair_view(v@)[i as int].0 == k@);
            return true;
        }
        i = i + 1;
    }
    proof {
        if has_key(pair_view(v@), k@) {
            let j = choose|j: int| 0 <= j < pair_view(v@).len() && (#[trigger] pair_view(v@)[j]).0 == k@;
            assert(v@[j].0@ == k@);
        }
    }
    false
}

/// Executable form of [`split_config`].
fn split_config_from<'a>(ts: &[&'a str], i: usize) -> (r: Result<
    (Option<String>, Vec<&'a str>),
    CliError,
>)
    requires
        i <= ts@.len(),
    ensures
        match (r, split_config(tok_view(ts@), i as int)) {
            (Ok((c, rest)), Ok((sc, srest))) => crate::output_device::opt_view(c) == sc && tok_view(
                rest@,
            ) == srest,
            (Err(e), Err(se)) => err_is(e, se),
            _ => false,
        },
    decreases ts@.len() - i,
{
    if i >= ts.len() {
        let v: Vec<&'a str> = Vec::new();
        assert(tok_view(v@) =~= seq![]);
        return Ok((None, v));
    }
    let t = ts[i];
    if str_eq(t, "--config") {
        if i + 1 >= ts.len() || starts_with(ts[i + 1], "-") {
            return Err(refuse(CliErrorKind::MissingValue, t));
        }
        match split_config_from(ts, i + 2) {
            Ok((c, rest)) => {
                if c.is_some() {
                    return Err(refuse(CliErrorKind::ArgumentRepeated, "--config"));
                }
                Ok((Some(crate::text::owned(ts[i + 1])), rest))
            },
            Err(e) => Err(e),
        }
    } else if starts_with(t, "--config=") {
        match split_config_from(ts, i + 1) {
            Ok((c, rest)) => {
                if c.is_some() {
                    return Err(refuse(CliErrorKind::ArgumentRepeated, "--config"));
                }
                proof {
                    reveal_strlit("--config=");
                }
                let n = t.unicode_len();
                Ok((Some(crate::text::owned(t.substring_char(9, n))), rest))
            },
            Err(e) => Err(e),
        }
    } else {
        match split_config_from(ts, i + 1) {
            Ok((c, rest)) => {
                let mut out = rest;
                let ghost old_out = out@;
                out.insert(0, t);
                assert(tok_view(out@) =~= seq![t@] + tok_view(old_out));
                Ok((c, out))
            },
            Err(e) => Err(e),
        }
    }
}

/// Executable form of [`scan_flags`].
fn scan_flags_from<'a>(ts: &[&'a str], i: usize, bools: &[&str], values: &[&str]) -> (r: Result<
    (Vec<&'a str>, Vec<(&'a str, &'a str)>),
    CliError,
>)
    requires
        i <= ts@.len(),
    ensures
        match (r, scan_flags(tok_view(ts@), i as int, tok_view(bools@), tok_view(values@))) {
            (Ok((b, v)), Ok((sb, sv))) => tok_view(b@) == sb && pair_view(v@) == sv,
            (Err(e), Err(se)) => err_is(e, se),
            _ => false,
        },
    decreases ts@.len() - i,
{
    if i >= ts.len() {
        let b: Vec<&'a str> = Vec::new();
        let v: Vec<(&'a str, &'a str)> = Vec::new();
        assert(tok_view(b@) =~= seq![]);
        assert(pair_view(v@) =~= seq![]);
        return Ok((b, v));
    }
    let t = ts[i];
    if str_eq(t, "--help") || str_eq(t, "-h") {
        return Err(refuse(CliErrorKind::DisplayHelp, t));
    }
    if str_in(bools, t) {
        match scan_flags_from(ts, i + 1, bools, values) {
            Ok((b, v)) => {
                if str_in(b.as_slice(), t) {
                    return Err(refuse(CliErrorKind::ArgumentRepeated, t));
                }
                let mut out = b;
                let ghost old_out = out@;
                out.insert(0, t);
                assert(tok_view(out@) =~= seq![t@] + tok_view(old_out));
                return Ok((out, v));
            },
            Err(e) => {
                return Err(e);
            },
        }
    }
    if str_in(values, t) {
        if i + 1 >= ts.len() || starts_with(ts[i + 1], "-") {
            return Err(refuse(CliErrorKind::MissingValue, t));
        }
        match scan_flags_from(ts, i + 2, bools, values) {
            Ok((b, v)) => {
                if key_in(&v, t) {
                    return Err(refuse(CliErrorKind::ArgumentRepeated, t));
                }
                let mut out = v;
                let ghost old_out = out@;
                out.insert(0, (t, ts[i + 1]));
                assert(pair_view(out@) =~= seq![(t@, ts@[i + 1]@)] + pair_view(old_out));
                return Ok((b, out));
            },
            Err(e) => {
                return Err(e);
            },
        }
    }
    match split_once_str(t, "=") {
        Some((k, val)) => {
            if str_in(values, k) {
                match scan_flags_from(ts, i + 1, bools, values) {
                    Ok((b, v)) => {
                        if key_in(&v, k) {
                            return Err(refuse(CliErrorKind::ArgumentRepeated, k));
                        }
                        let mut out = v;
                        let ghost old_out = out@;
                        out.insert(0, (k, val));
                        assert(pair_view(out@) =~= seq![(k@, val@)] + pair_view(old_out));
                        return Ok((b, out));
                    },
                    Err(e) => {
                        return Err(e);
                    },
                }
            }
            Err(refuse(CliErrorKind::UnknownArgument, t))
        },
        None => Err(refuse(CliErrorKind::UnknownArgument, t)),
    }
}


pub open spec fn json_bools() -> Seq<Seq<char>> {
    seq!["--json"@]
}

pub open spec fn list_bools() -> Seq<Seq<char>> {
    seq!["--hdmi"@, "--json"@, "--discover"@]
}

pub open spec fn uninstall_bools() -> Seq<Seq<char>> {
    seq![
        "--json"@,
        "--remove-config"@,
        "--keep-config"@,
        "--only-driver"@,
        "--no-restore-audio"@,
        "--purge-logs"@,
        "--purge"@,
    ]
}

pub open spec fn upgrade_bools() -> Seq<Seq<char>> {
    seq!["--json"@, "--force"@]
}

pub open spec fn discover_bools() -> Seq<Seq<char>> {
    seq!["--json"@, "--update-config"@]
}

/// Flags of `ts[i..]` for a subcommand that takes only `--json`.
pub open spec fn spec_json_only(ts: Seq<Seq<char>>, i: int) -> Result<bool, (CliErrorKind, Seq<char>)> {
    match scan_flags(ts, i, json_bools(), seq![]) {
        Ok((b, _)) => Ok(b.contains("--json"@)),
        Err(e) => Err(e),
    }
}

pub open spec fn parse_usize(t: Seq<char>) -> Option<usize> {
    match parse_u64(t) {
        Some(n) => if n <= usize::MAX {
            Some(n as usize)
        } else {
            None
        },
        None => None,
    }
}

/// The first pair of mutually exclusive `uninstall` flags given, named by its first flag.
pub open spec fn uninstall_conflict(b: Seq<Seq<char>>) -> Option<Seq<char>> {
    let remove = b.contains("--remove-config"@);
    let keep = b.contains("--keep-config"@);
    let only = b.contains("--only-driver"@);
    let logs = b.contains("--purge-logs"@);
    let purge = b.contains("--purge"@);
    if remove && (keep || only) {
        Some("--remove-config"@)
    } else if keep && only {
        Some("--keep-config"@)
    } else if logs && only {
        Some("--purge-logs"@)
    } else if purge && (only || keep || remove || logs) {
        Some("--purge"@)
    } else {
        None
    }
}

/// The subcommand named at `ts[i]`, with its flags from `ts[i + 1..]`.
pub open spec fn spec_command(ts: Seq<Seq<char>>, i: int) -> Result<Commands, (CliErrorKind, Seq<char>)> {
    if i < 0 || i >= ts.len() {
        Err((CliErrorKind::MissingSubcommand, ""@))
    } else {
        let name = ts[i];
        if is_help(name) || name == "help"@ {
            Err((CliErrorKind::DisplayHelp, name))
        } else if is_version(name) {
            Err((CliErrorKind::DisplayVersion, name))
        } else if name == "apply"@ {
            match spec_json_only(ts, i + 1) {
                Ok(j) => Ok(Commands::Apply(ApplyArgs { json: j })),
                Err(e) => Err(e),
            }
        } else if name == "config"@ {
            if i + 1 >= ts.len() {
                Err((CliErrorKind::MissingSubcommand, name))
            } else if is_help(ts[i + 1]) || ts[i + 1] == "help"@ {
                Err((CliErrorKind::DisplayHelp, ts[i + 1]))
            } else if ts[i + 1] == "init"@ {
                match spec_json_only(ts, i + 2) {
                    Ok(j) => Ok(Commands::Config(ConfigArgs { command: ConfigCommand::Init(ConfigInitArgs { json: j }) })),
                    Err(e) => Err(e),
                }
            } else if ts[i + 1] == "validate"@ {
                match spec_json_only(ts, i + 2) {
                    Ok(j) => Ok(Commands::Config(ConfigArgs { command: ConfigCommand::Validate(ConfigValidateArgs { json: j }) })),
                    Err(e) => Err(e),
                }
            } else {
                Err((CliErrorKind::InvalidSubcommand, ts[i + 1]))
            }
        } else if name == "daemon"@ {
            match scan_flags(ts, i + 1, seq![], seq![]) {
                Ok(_) => Ok(Commands::Daemon),
                Err(e) => Err(e),
            }
        } else if name == "disable"@ {
            match spec_json_only(ts, i + 1) {
                Ok(j) => Ok(Commands::Disable(DisableArgs { json: j })),
                Err(e) => Err(e),
            }
        } else if name == "driver"@ {
            if i + 1 >= ts.len() {
                Err((CliErrorKind::MissingSubcommand, name))
            } else if is_help(ts[i + 1]) || ts[i + 1] == "help"@ {
                Err((CliErrorKind::DisplayHelp, ts[i + 1]))
            } else if ts[i + 1] == "swap-in"@ || ts[i + 1] == "swap-out"@ || ts[i + 1] == "restore-eq-mac"@ {
                match spec_json_only(ts, i + 2) {
                    Ok(j) => Ok(Commands::Driver(DriverArgs {
                        command: if ts[i + 1] == "swap-in"@ {
                            DriverCommand::SwapIn(DriverSwapArgs { json: j })
                        } else if ts[i + 1] == "swap-out"@ {
                            DriverCommand::SwapOut(DriverSwapArgs { json: j })
                        } else {
                            DriverCommand::RestoreEqMac(DriverSwapArgs { json: j })
                        },
                    })),
                    Err(e) => Err(e),
                }
            } else {
                Err((CliErrorKind::InvalidSubcommand, ts[i + 1]))
            }
        } else if name == "install"@ {
            match spec_json_only(ts, i + 1) {
                Ok(j) => Ok(Commands::Install(InstallArgs { json: j })),
                Err(e) => Err(e),
            }
        } else if name == "list"@ {
            match scan_flags(ts, i + 1, list_bools(), seq![]) {
                Ok((b, _)) => Ok(Commands::List(ListArgs {
                    hdmi: b.contains("--hdmi"@),
                    json: b.contains("--json"@),
                    discover: b.contains("--discover"@),
                })),
                Err(e) => Err(e),
            }
        } else if name == "pause"@ {
            match spec_json_only(ts, i + 1) {
                Ok(j) => Ok(Commands::Pause(PauseArgs { json: j })),
                Err(e) => Err(e),
            }
        } else if name == "picker"@ {
            match scan_flags(ts, i + 1, json_bools(), seq!["--index"@]) {
                Ok((b, v)) => match lookup(v, "--index"@) {
                    None => Ok(Commands::Picker(PickerArgs { json: b.contains("--json"@), index: None })),
                    Some(x) => match parse_usize(x) {
                        Some(n) => Ok(Commands::Picker(PickerArgs { json: b.contains("--json"@), index: Some(n) })),
                        None => Err((CliErrorKind::InvalidValue, x)),
                    },
                },
                Err(e) => Err(e),
            }
        } else if name == "resume"@ {
            match spec_json_only(ts, i + 1) {
                Ok(j) => Ok(Commands::Resume(ResumeArgs { json: j })),
                Err(e) => Err(e),
            }
        } else if name == "scalar-webapi-device"@ {
            if i + 1 >= ts.len() {
                Err((CliErrorKind::MissingSubcommand, name))
            } else if is_help(ts[i + 1]) || ts[i + 1] == "help"@ {
                Err((CliErrorKind::DisplayHelp, ts[i + 1]))
            } else if ts[i + 1] == "discover"@ {
                match scan_flags(ts, i + 2, discover_bools(), seq!["--timeout-ms"@]) {
                    Ok((b, v)) => match lookup(v, "--timeout-ms"@) {
                        None => Ok(Commands::ScalarWebapiDevice(ScalarWebapiDeviceArgs {
                            command: ScalarWebapiDeviceCommand::Discover(ScalarWebapiDeviceDiscoverArgs {
                                json: b.contains("--json"@),
                                timeout_ms: None,
                                update_config: b.contains("--update-config"@),
                            }),
                        })),
                        Some(x) => match parse_u64(x) {
                            Some(n) => Ok(Commands::ScalarWebapiDevice(ScalarWebapiDeviceArgs {
                                command: ScalarWebapiDeviceCommand::Discover(ScalarWebapiDeviceDiscoverArgs {
                                    json: b.contains("--json"@),
                                    timeout_ms: Some(n),
                                    update_config: b.contains("--update-config"@),
                                }),
                            })),
                            None => Err((CliErrorKind::InvalidValue, x)),
                        },
                    },
                    Err(e) => Err(e),
                }
            } else {
                Err((CliErrorKind::InvalidSubcommand, ts[i + 1]))
            }
        } else if name == "status"@ {
            match spec_json_only(ts, i + 1) {
                Ok(j) => Ok(Commands::Status(StatusArgs { json: j })),
                Err(e) => Err(e),
            }
        } else if name == "uninstall"@ {
            match scan_flags(ts, i + 1, uninstall_bools(), seq![]) {
                Ok((b, _)) => match uninstall_conflict(b) {
                    Some(a) => Err((CliErrorKind::ArgumentConflict, a)),
                    None => Ok(Commands::Uninstall(UninstallArgs {
                        json: b.contains("--json"@),
                        remove_config: b.contains("--remove-config"@),
                        keep_config: b.contains("--keep-config"@),
                        only_driver: b.contains("--only-driver"@),
                        no_restore_audio: b.contains("--no-restore-audio"@),
                        purge_logs: b.contains("--purge-logs"@),
                        purge: b.contains("--purge"@),
                    })),
                },
                Err(e) => Err(e),
            }
        } else if name == "upgrade"@ {
            match scan_flags(ts, i + 1, upgrade_bools(), seq![]) {
                Ok((b, _)) => Ok(Commands::Upgrade(UpgradeArgs {
                    json: b.contains("--json"@),
                    force: b.contains("--force"@),
                })),
                Err(e) => Err(e),
            }
        } else if looks_like_flag(name) {
            Err((CliErrorKind::UnknownArgument, name))
        } else {
            Err((CliErrorKind::InvalidSubcommand, name))
        }
    }
}

/// What parsing `argv` (program name first) gives: the global config path and the subcommand.
pub open spec fn spec_parse(argv: Seq<Seq<char>>) -> Result<(Option<Seq<char>>, Commands), (CliErrorKind, Seq<char>)> {
    match split_config(argv, 1) {
        Ok((c, rest)) => match spec_command(rest, 0) {
            Ok(cmd) => Ok((c, cmd)),
            Err(e) => Err(e),
        },
        Err(e) => Err(e),
    }
}


fn lookup_value<'a>(v: &Vec<(&'a str, &'a str)>, k: &str) -> (r: Option<&'a str>)
    ensures
        match r {
            Some(x) => lookup(pair_view(v@), k@) == Some(x@),
            None => lookup(pair_view(v@), k@) is None,
        },
{
    let ghost pv = pair_view(v@);
    let mut i: usize = 0;
    assert(pv.subrange(0, pv.len() as int) =~= pv);
    while i < v.len()
        invariant
            i <= v@.len(),
            pv == pair_view(v@),
            lookup(pv, k@) == lookup(pv.subrange(i as int, pv.len() as int), k@),
        decreases v@.len() - i,
    {
        assert(pv.subrange(i as int, pv.len() as int).drop_first() =~= pv.subrange(
            i + 1,
            pv.len() as int,
        ));
        if str_eq(v[i].0, k) {
            return Some(v[i].1);
        }
        i = i + 1;
    }
    None
}

fn parse_usize_str(t: &str) -> (r: Option<usize>)
    ensures
        r == parse_usize(t@),
{
    match parse_u64_str(t) {
        Some(n) => if n <= usize::MAX as u64 {
            Some(n as usize)
        } else {
            None
        },
        None => None,
    }
}

fn names(v: Vec<&'static str>) -> (r: Vec<&'static str>)
    ensures
        r@ == v@,
{
    v
}

fn json_only(ts: &[&str], i: usize) -> (r: Result<bool, CliError>)
    requires
        i <= ts@.len(),
    ensures
        match (r, spec_json_only(tok_view(ts@), i as int)) {
            (Ok(j), Ok(sj)) => j == sj,
            (Err(e), Err(se)) => err_is(e, se),
            _ => false,
        },
{
    let bools = names(vec!["--json"]);
    let values: Vec<&str> = Vec::new();
    assert(tok_view(bools@) =~= json_bools());
    assert(tok_view(values@) =~= seq![]);
    match scan_flags_from(ts, i, bools.as_slice(), values.as_slice()) {
        Ok((b, _)) => Ok(str_in(b.as_slice(), "--json")),
        Err(e) => Err(e),
    }
}

/// Executable form of [`spec_command`].
fn parse_command(ts: &[&str]) -> (r: Result<Commands, CliError>)
    ensures
        match (r, spec_command(tok_view(ts@), 0)) {
            (Ok(c), Ok(sc)) => c == sc,
            (Err(e), Err(se)) => err_is(e, se),
            _ => false,
        },
{
    let ghost tv = tok_view(ts@);
    if ts.len() == 0 {
        return Err(refuse(CliErrorKind::MissingSubcommand, ""));
    }
    let name = ts[0];
    assert(tv[0] == name@);
    if str_eq(name, "--help") || str_eq(name, "-h") || str_eq(name, "help") {
        return Err(refuse(CliErrorKind::DisplayHelp, name));
    }
    if str_eq(name, "--version") || str_eq(name, "-V") {
        return Err(refuse(CliErrorKind::DisplayVersion, name));
    }
    if str_eq(name, "apply") {
        return match json_only(ts, 1) {
            Ok(j) => Ok(Commands::Apply(ApplyArgs { json: j })),
            Err(e) => Err(e),
        };
    }
    if str_eq(name, "config") {
        if ts.len() < 2 {
            return Err(refuse(CliErrorKind::MissingSubcommand, name));
        }
        let sub = ts[1];
        assert(tv[1] == sub@);
        if str_eq(sub, "--help") || str_eq(sub, "-h") || str_eq(sub, "help") {
            return Err(refuse(CliErrorKind::DisplayHelp, sub));
        }
        if str_eq(sub, "init") {
            return match json_only(ts, 2) {
                Ok(j) => Ok(Commands::Config(ConfigArgs { command: ConfigCommand::Init(ConfigInitArgs { json: j }) })),
                Err(e) => Err(e),
            };
        }
        if str_eq(sub, "validate") {
            return match json_only(ts, 2) {
                Ok(j) => Ok(Commands::Config(ConfigArgs { command: ConfigCommand::Validate(ConfigValidateArgs { json: j }) })),
                Err(e) => Err(e),
            };
        }
        return Err(refuse(CliErrorKind::InvalidSubcommand, sub));
    }
    if str_eq(name, "daemon") {
        let none: Vec<&str> = Vec::new();
        assert(tok_view(none@) =~= seq![]);
        return match scan_flags_from(ts, 1, none.as_slice(), none.as_slice()) {
            Ok(_) => Ok(Commands::Daemon),
            Err(e) => Err(e),
        };
    }
    if str_eq(name, "disable") {
        return match json_only(ts, 1) {
            Ok(j) => Ok(Commands::Disable(DisableArgs { json: j })),
            Err(e) => Err(e),
        };
    }
    if str_eq(name, "driver") {
        if ts.len() < 2 {
            return Err(refuse(CliErrorKind::MissingSubcommand, name));
        }
        let sub = ts[1];
        assert(tv[1] == sub@);
        if str_eq(sub, "--help") || str_eq(sub, "-h") || str_eq(sub, "help") {
            return Err(refuse(CliErrorKind::DisplayHelp, sub));
        }
        let swap_in = str_eq(sub, "swap-in");
        let swap_out = str_eq(sub, "swap-out");
        let restore = str_eq(sub, "restore-eq-mac");
        if swap_in || swap_out || restore {
            return match json_only(ts, 2) {
                Ok(j) => {
                    let command = if swap_in {
                        DriverCommand::SwapIn(DriverSwapArgs { json: j })
                    } else if swap_out {
                        DriverCommand::SwapOut(DriverSwapArgs { json: j })
                    } else {
                        DriverCommand::RestoreEqMac(DriverSwapArgs { json: j })
                    };
                    Ok(Commands::Driver(DriverArgs { command }))
                },
                Err(e) => Err(e),
            };
        }
        return Err(refuse(CliErrorKind::InvalidSubcommand, sub));
    }
    if str_eq(name, "install") {
        return match json_only(ts, 1) {
            Ok(j) => Ok(Commands::Install(InstallArgs { json: j })),
            Err(e) => Err(e),
        };
    }
    if str_eq(name, "list") {
        let bools = names(vec!["--hdmi", "--json", "--discover"]);
        let values: Vec<&str> = Vec::new();
        assert(tok_view(bools@) =~= list_bools());
        assert(tok_view(values@) =~= seq![]);
        return match scan_flags_from(ts, 1, bools.as_slice(), values.as_slice()) {
            Ok((b, _)) => Ok(
                Commands::List(
                    ListArgs {
                        hdmi: str_in(b.as_slice(), "--hdmi"),
                        json: str_in(b.as_slice(), "--json"),
                        discover: str_in(b.as_slice(), "--discover"),
                    },
                ),
            ),
            Err(e) => Err(e),
        };
    }
    if str_eq(name, "pause") {
        return match json_only(ts, 1) {
            Ok(j) => Ok(Commands::Pause(PauseArgs { json: j })),
            Err(e) => Err(e),
        };
    }
    if str_eq(name, "picker") {
        let bools = names(vec!["--json"]);
        let values = names(vec!["--index"]);
        assert(tok_view(bools@) =~= json_bools());
        assert(tok_view(values@) =~= seq!["--index"@]);
        return match scan_flags_from(ts, 1, bools.as_slice(), values.as_slice()) {
            Ok((b, v)) => {
                let json = str_in(b.as_slice(), "--json");
                match lookup_value(&v, "--index") {
                    None => Ok(Commands::Picker(PickerArgs { json, index: None })),
                    Some(x) => match parse_usize_str(x) {
                        Some(n) => Ok(Commands::Picker(PickerArgs { json, index: Some(n) })),
                        None => Err(refuse(CliErrorKind::InvalidValue, x)),
                    },
                }
            },
            Err(e) => Err(e),
        };
    }
    if str_eq(name, "resume") {
        return match json_only(ts, 1) {
            Ok(j) => Ok(Commands::Resume(ResumeArgs { json: j })),
            Err(e) => Err(e),
        };
    }
    if str_eq(name, "scalar-webapi-device") {
        if ts.len() < 2 {
            return Err(refuse(CliErrorKind::MissingSubcommand, name));
        }
        let sub = ts[1];
        assert(tv[1] == sub@);
        if str_eq(sub, "--help") || str_eq(sub, "-h") || str_eq(sub, "help") {
            return Err(refuse(CliErrorKind::DisplayHelp, sub));
        }
        if !str_eq(sub, "discover") {
            return Err(refuse(CliErrorKind::InvalidSubcommand, sub));
        }
        let bools = names(vec!["--json", "--update-config"]);
        let values = names(vec!["--timeout-ms"]);
        assert(tok_view(bools@) =~= discover_bools());
        assert(tok_view(values@) =~= seq!["--timeout-ms"@]);
        return match scan_flags_from(ts, 2, bools.as_slice(), values.as_slice()) {
            Ok((b, v)) => {
                let json = str_in(b.as_slice(), "--json");
                let update_config = str_in(b.as_slice(), "--update-config");
                match lookup_value(&v, "--timeout-ms") {
                    None => Ok(
                        Commands::ScalarWebapiDevice(
                            ScalarWebapiDeviceArgs {
                                command: ScalarWebapiDeviceCommand::Discover(
                                    ScalarWebapiDeviceDiscoverArgs { json, timeout_ms: None, update_config },
                                ),
                            },
                        ),
                    ),
                    Some(x) => match parse_u64_str(x) {
                        Some(n) => Ok(
                            Commands::ScalarWebapiDevice(
                                ScalarWebapiDeviceArgs {
                                    command: ScalarWebapiDeviceCommand::Discover(
                                        ScalarWebapiDeviceDiscoverArgs {
                                            json,
                                            timeout_ms: Some(n),
                                            update_config,
                                        },
                                    ),
                                },
                            ),
                        ),
                        None => Err(refuse(CliErrorKind::InvalidValue, x)),
                    },
                }
            },
            Err(e) => Err(e),
        };
    }
    if str_eq(name, "status") {
        return match json_only(ts, 1) {
            Ok(j) => Ok(Commands::Status(StatusArgs { json: j })),
            Err(e) => Err(e),
        };
    }
    if str_eq(name, "uninstall") {
        let bools = names(
            vec![
                "--json",
                "--remove-config",
                "--keep-config",
                "--only-driver",
                "--no-restore-audio",
                "--purge-logs",
                "--purge",
            ],
        );
        let values: Vec<&str> = Vec::new();
        assert(tok_view(bools@) =~= uninstall_bools());
        assert(tok_view(values@) =~= seq![]);
        return match scan_flags_from(ts, 1, bools.as_slice(), values.as_slice()) {
            Ok((b, _)) => {
                let bs = b.as_slice();
                let remove = str_in(bs, "--remove-config");
                let keep = str_in(bs, "--keep-config");
                let only = str_in(bs, "--only-driver");
                let logs = str_in(bs, "--purge-logs");
                let purge = str_in(bs, "--purge");
                if remove && (keep || only) {
                    Err(refuse(CliErrorKind::ArgumentConflict, "--remove-config"))
                } else if keep && only {
                    Err(refuse(CliErrorKind::ArgumentConflict, "--keep-config"))
                } else if logs && only {
                    Err(refuse(CliErrorKind::ArgumentConflict, "--purge-logs"))
                } else if purge && (only || keep || remove || logs) {
                    Err(refuse(CliErrorKind::ArgumentConflict, "--purge"))
                } else {
                    Ok(
                        Commands::Uninstall(
                            UninstallArgs {
                                json: str_in(bs, "--json"),
                                remove_config: remove,
                                keep_config: keep,
                                only_driver: only,
                                no_restore_audio: str_in(bs, "--no-restore-audio"),
                                purge_logs: logs,
                                purge,
                            },
                        ),
                    )
                }
            },
            Err(e) => Err(e),
        };
    }
    if str_eq(name, "upgrade") {
        let bools = names(vec!["--json", "--force"]);
        let values: Vec<&str> = Vec::new();
        assert(tok_view(bools@) =~= upgrade_bools());
        assert(tok_view(values@) =~= seq![]);
        return match scan_flags_from(ts, 1, bools.as_slice(), values.as_slice()) {
            Ok((b, _)) => Ok(
                Commands::Upgrade(
                    UpgradeArgs {
                        json: str_in(b.as_slice(), "--json"),
                        force: str_in(b.as_slice(), "--force"),
                    },
                ),
            ),
            Err(e) => Err(e),
        };
    }
    if starts_with(name, "-") {
        return Err(refuse(CliErrorKind::UnknownArgument, name));
    }
    Err(refuse(CliErrorKind::InvalidSubcommand, name))
}

impl Cli {
    /// Parse `argv` (program name first), as the `rusty-jack` command line.
    pub fn try_parse_from(argv: &[&str]) -> (r: Result<Cli, CliError>)
        ensures
            match (r, spec_parse(tok_view(argv@))) {
                (Ok(c), Ok((sc, cmd))) => crate::output_device::opt_view(c.config) == sc && c.command
                    == cmd,
                (Err(e), Err(se)) => err_is(e, se),
                _ => false,
            },
    {
        if argv.len() == 0 {
            return Err(refuse(CliErrorKind::MissingSubcommand, ""));
        }
        match split_config_from(argv, 1) {
            Ok((config, rest)) => match parse_command(rest.as_slice()) {
                Ok(command) => Ok(Cli { config, command }),
                Err(e) => Err(e),
            },
            Err(e) => Err(e),
        }
    }
}


pub open spec fn spec_command_names() -> Seq<Seq<char>> {
    seq![
        "apply"@,
        "config"@,
        "daemon"@,
        "disable"@,
        "driver"@,
        "install"@,
        "list"@,
        "pause"@,
        "picker"@,
        "resume"@,
        "scalar-webapi-device"@,
        "status"@,
        "uninstall"@,
        "upgrade"@,
    ]
}

/// Top-level subcommand names, in help display order.
pub fn command_names() -> (r: Vec<&'static str>)
    ensures
        tok_view(r@) == spec_command_names(),
{
    let v = vec![
        "apply",
        "config",
        "daemon",
        "disable",
        "driver",
        "install",
        "list",
        "pause",
        "picker",
        "resume",
        "scalar-webapi-device",
        "status",
        "uninstall",
        "upgrade",
    ];
    assert(tok_view(v@) =~= spec_command_names());
    v
}

} // verus!
