//! Log line layout and daemon logging settings.
//!
//! Lines read `timestamp | LEVEL    | module       | message`. Installing the
//! subscriber and the rotated file writer is the caller's work; this module
//! decides the settings and lays out the level and module columns.
use crate::text::{
    is_match_at, owned, pad_right, pad_right_str, str_eq, trim, trim_str,
};
use vstd::prelude::*;

verus! {

pub const ENV_LOG_FILE: &'static str = "RUSTY_JACK_LOG_FILE";
pub const ENV_LOG_LEVEL: &'static str = "RUSTY_JACK_LOG_LEVEL";
pub const DEFAULT_LOG_FILE: &'static str = "~/Library/Logs/rusty-jack.log";
pub const DEFAULT_LOG_LEVEL: &'static str = "info";
pub const LOG_ROTATE_BYTES: usize = 10485760;
pub const LOG_ROTATE_KEEP: usize = 5;

/// Effective logging settings for the daemon.
#[derive(Debug)]
pub struct DaemonLoggingOptions {
    pub level: String,
    pub file: String,
    /// Mirror structured logs to stderr (always on for interactive daemon runs).
    pub console: bool,
}

impl Default for DaemonLoggingOptions {
    fn default() -> (r: Self)
        ensures
            r.level@ == DEFAULT_LOG_LEVEL@,
            r.file@ == DEFAULT_LOG_FILE@,
            r.console,
    {
        DaemonLoggingOptions {
            level: owned(DEFAULT_LOG_LEVEL),
            file: owned(DEFAULT_LOG_FILE),
            console: true,
        }
    }
}

/// Severity of a log event.
#[derive(Debug, Clone, Copy, PartialEq, Eq, Structural)]
pub enum LogLevel {
    Trace,
    Debug,
    Info,
    Warn,
    Error,
}

impl LogLevel {
    pub open spec fn spec_name(self) -> Seq<char> {
        match self {
            LogLevel::Trace => "TRACE"@,
            LogLevel::Debug => "DEBUG"@,
            LogLevel::Info => "INFO"@,
            LogLevel::Warn => "WARN"@,
            LogLevel::Error => "ERROR"@,
        }
    }

    /// Upper-case level name.
    pub fn name(self) -> (r: &'static str)
        ensures
            r@ == self.spec_name(),
    {
        match self {
            LogLevel::Trace => "TRACE",
            LogLevel::Debug => "DEBUG",
            LogLevel::Info => "INFO",
            LogLevel::Warn => "WARN",
            LogLevel::Error => "ERROR",
        }
    }
}

/// The level column: the upper-case name padded to 8 characters.
pub fn pad_level(level: LogLevel) -> (r: String)
    ensures
        r@ == pad_right(level.spec_name(), 8),
{
    pad_right_str(level.name(), 8)
}

/// Start of the rightmost occurrence of `n` in `h` below `k`.
pub open spec fn rfind_below(h: Seq<char>, n: Seq<char>, k: nat) -> Option<int>
    decreases k,
{
    if k == 0 {
        None
    } else if is_match_at(h, n, k - 1) {
        Some(k - 1)
    } else {
        rfind_below(h, n, (k - 1) as nat)
    }
}

/// The last path segment of a log target (`rusty_jack::daemon` → `daemon`).
pub open spec fn module_name(target: Seq<char>) -> Seq<char> {
    match rfind_below(target, "::"@, target.len()) {
        Some(i) => target.subrange(i + 2, target.len() as int),
        None => target,
    }
}

/// Bytes in the UTF-8 encoding of `c`.
pub open spec fn utf8_width(c: char) -> nat {
    if (c as u32) < 0x80 {
        1
    } else if (c as u32) < 0x800 {
        2
    } else if (c as u32) < 0x10000 {
        3
    } else {
        4
    }
}

/// Bytes in the UTF-8 encoding of `s` (`str::len`).
pub open spec fn utf8_len(s: Seq<char>) -> nat
    decreases s.len(),
{
    if s.len() == 0 {
        0
    } else {
        utf8_len(s.drop_last()) + utf8_width(s.last())
    }
}

/// The module column: a name of at most 12 bytes padded to 12 characters,
/// a longer one cut to its first 12 characters.
pub open spec fn spec_pad_module(target: Seq<char>) -> Seq<char> {
    let name = module_name(target);
    if utf8_len(name) <= 12 {
        pad_right(name, 12)
    } else if name.len() <= 12 {
        name
    } else {
        name.take(12)
    }
}

fn module_name_str<'a>(target: &'a str) -> (r: &'a str)
    ensures
        r@ == module_name(target@),
{
    let n = target.unicode_len();
    let mut k: usize = n;
    while k > 0
        invariant
            n == target@.len(),
            k <= n,
            rfind_below(target@, "::"@, n as nat) == rfind_below(target@, "::"@, k as nat),
        decreases k,
    {
        if crate::text::match_at(target, "::", k - 1) {
            proof {
                reveal_strlit("::");
            }
            return target.substring_char(k + 1, n);
        }
        k = k - 1;
    }
    target
}

proof fn lemma_utf8_prefix(s: Seq<char>, i: int)
    requires
        0 <= i < s.len(),
    ensures
        utf8_len(s.subrange(0, i + 1)) == utf8_len(s.subrange(0, i)) + utf8_width(s[i]),
{
    assert(s.subrange(0, i + 1).drop_last() =~= s.subrange(0, i));
}

proof fn lemma_utf8_monotone(s: Seq<char>, i: int, j: int)
    requires
        0 <= i <= j <= s.len(),
    ensures
        utf8_len(s.subrange(0, i)) <= utf8_len(s.subrange(0, j)),
    decreases j - i,
{
    if i < j {
        lemma_utf8_monotone(s, i, j - 1);
        lemma_utf8_prefix(s, j - 1);
    }
}

/// Whether `s` takes at most `cap` bytes in UTF-8.
fn utf8_len_at_most(s: &str, cap: usize) -> (r: bool)
    requires
        cap <= 1024,
    ensures
        r == (utf8_len(s@) <= cap),
{
    let n = s.unicode_len();
    let mut bytes: usize = 0;
    let mut i: usize = 0;
    while i < n
        invariant
            n == s@.len(),
            cap <= 1024,
            i <= n,
            bytes == utf8_len(s@.subrange(0, i as int)),
            bytes <= cap,
        decreases n - i,
    {
        proof {
            lemma_utf8_prefix(s@, i as int);
        }
        let c = s.get_char(i) as u32;
        let w: usize = if c < 0x80 {
            1
        } else if c < 0x800 {
            2
        } else if c < 0x10000 {
            3
        } else {
            4
        };
        if bytes + w > cap {
            proof {
                lemma_utf8_monotone(s@, i + 1, n as int);
                assert(s@.subrange(0, n as int) =~= s@);
            }
            return false;
        }
        bytes = bytes + w;
        i = i + 1;
    }
    assert(s@.subrange(0, n as int) =~= s@);
    true
}

/// The module column of a log line.
pub fn pad_module(target: &str) -> (r: String)
    ensures
        r@ == spec_pad_module(target@),
{
    let name = module_name_str(target);
    if utf8_len_at_most(name, 12) {
        pad_right_str(name, 12)
    } else if name.unicode_len() <= 12 {
        owned(name)
    } else {
        owned(name.substring_char(0, 12))
    }
}

/// What `str::to_lowercase` returns for `s` (full Unicode lower-casing).
pub uninterp spec fn unicode_lowercase(s: Seq<char>) -> Seq<char>;

/// `str::to_lowercase`: its result is named, as Unicode case mapping is
/// std's own table-driven logic.
#[verifier::external_body]
fn to_lowercase_str(s: &str) -> (r: String)
    ensures
        r@ == unicode_lowercase(s@),
{
    s.to_lowercase()
}

pub open spec fn blank(s: Seq<char>) -> bool {
    trim(s).len() == 0
}

/// The level to log at: a non-blank `RUSTY_JACK_LOG_LEVEL` as given, else the
/// configured level trimmed and lower-cased.
pub open spec fn spec_resolve_level(configured: Seq<char>, env_level: Option<Seq<char>>) -> Seq<char> {
    match env_level {
        Some(v) => if !blank(v) {
            v
        } else {
            unicode_lowercase(trim(configured))
        },
        None => unicode_lowercase(trim(configured)),
    }
}

pub open spec fn opt_text(o: Option<&str>) -> Option<Seq<char>> {
    match o {
        Some(s) => Some(s@),
        None => None,
    }
}

pub fn resolve_level(configured: &str, env_level: Option<&str>) -> (r: String)
    ensures
        r@ == spec_resolve_level(configured@, opt_text(env_level)),
{
    if let Some(v) = env_level {
        if trim_str(v).unicode_len() > 0 {
            return owned(v);
        }
    }
    to_lowercase_str(trim_str(configured))
}

/// `~/rest` under the home directory (`Path::join`: an absolute `rest`
/// replaces it); anything else, or no home, unchanged.
pub open spec fn spec_expand_tilde(path: Seq<char>, home: Option<Seq<char>>) -> Seq<char> {
    match (crate::text::strip_prefix(path, "~/"@), home) {
        (Some(rest), Some(h)) => if rest.len() > 0 && rest[0] == '/' {
            rest
        } else {
            crate::eqmac::join_path(h, rest)
        },
        _ => path,
    }
}

pub fn expand_tilde(path: &str, home: Option<&str>) -> (r: String)
    ensures
        r@ == spec_expand_tilde(path@, opt_text(home)),
{
    if let Some(rest) = crate::text::strip_prefix_str(path, "~/") {
        if let Some(h) = home {
            if rest.unicode_len() > 0 && rest.get_char(0) == '/' {
                return owned(rest);
            }
            return crate::eqmac::join_path_str(h, rest);
        }
    }
    owned(path)
}

/// The log file: a non-blank `RUSTY_JACK_LOG_FILE`, else the configured path,
/// each with `~/` expanded.
pub fn resolve_log_file_path(path: &str, env_file: Option<&str>, home: Option<&str>) -> (r: String)
    ensures
        r@ == match opt_text(env_file) {
            Some(f) => if !blank(f) {
                spec_expand_tilde(f, opt_text(home))
            } else {
                spec_expand_tilde(path@, opt_text(home))
            },
            None => spec_expand_tilde(path@, opt_text(home)),
        },
{
    if let Some(f) = env_file {
        if trim_str(f).unicode_len() > 0 {
            return expand_tilde(f, home);
        }
    }
    expand_tilde(path, home)
}

/// `LOG_UTC` set to `1`, `true` or `yes` selects UTC timestamps.
pub fn use_utc_timestamps(log_utc: Option<&str>) -> (r: bool)
    ensures
        r == (log_utc matches Some(v) && (v@ == "1"@ || v@ == "true"@ || v@ == "yes"@)),
{
    match log_utc {
        Some(v) => str_eq(v, "1") || str_eq(v, "true") || str_eq(v, "yes"),
        None => false,
    }
}

} // verus!
