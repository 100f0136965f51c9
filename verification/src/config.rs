//! User configuration model, its defaults and its validation rules.
use crate::device_select::DeviceSelector;
use crate::error::RustyJackError;
use crate::text::{
    concat2, concat3, contains, decimal, owned, seq_contains, trim, trim_str, u64_to_text,
};
use crate::json::{render_lexicographic_json, spec_canonical_json};
use vstd::prelude::*;

verus! {

/// Pick a device by CoreAudio UID, with an optional human-readable device name.
#[derive(Debug)]
pub struct DeviceSelectorConfig {
    /// Human-readable device label; `uid` is the stable selector.
    pub name: Option<String>,
    pub uid: Option<String>,
}

impl Default for DeviceSelectorConfig {
    fn default() -> (r: Self)
        ensures
            r.name is None,
            r.uid is None,
    {
        DeviceSelectorConfig { name: None, uid: None }
    }
}

/// ScalarWebAPI wake-on-activity settings. Omit when not used.
#[derive(Debug)]
pub struct ScalarWebApiDeviceConfig {
    pub enabled: bool,
    pub model: String,
    /// Hostname, FQDN, or IP address.
    pub host: Option<String>,
    pub port: u16,
    pub path: String,
    pub mac_output: DeviceSelectorConfig,
    pub triggers: Vec<String>,
    pub wake_debounce_ms: u64,
    pub request_timeout_ms: u64,
    pub require_quick_start: bool,
}

/// User configuration.
#[derive(Debug)]
pub struct Config {
    pub version: u32,
    pub auto_switch: bool,
    pub poll_interval_ms: u64,
    pub switch_delay_ms: u64,
    pub activity_idle_threshold_ms: u64,
    pub activity_poll_interval_ms: u64,
    /// `idle` (platform idle time) or `event_tap` (CoreGraphics event tap).
    pub activity_monitor: String,
    pub activity_event_tap_include_mouse_move: bool,
    pub preferred_device: DeviceSelectorConfig,
    /// Legacy field; use `preferred_device.uid` instead.
    pub preferred_device_uid: Option<String>,
    pub fallback_uids: Vec<String>,
    pub also_set_system_output: bool,
    /// Preferred output volume (0–100).
    pub volume: Option<u8>,
    pub scalar_webapi_device: Option<ScalarWebApiDeviceConfig>,
}

pub const DEFAULT_POLL_INTERVAL_MS: u64 = 3000;
pub const DEFAULT_SWITCH_DELAY_MS: u64 = 500;
pub const DEFAULT_ACTIVITY_IDLE_THRESHOLD_MS: u64 = 60000;
pub const DEFAULT_ACTIVITY_POLL_INTERVAL_MS: u64 = 1000;
pub const DEFAULT_SCALAR_WEBAPI_DEVICE_PORT: u16 = 10000;
pub const DEFAULT_WAKE_DEBOUNCE_MS: u64 = 30000;
pub const DEFAULT_REQUEST_TIMEOUT_MS: u64 = 3000;

/// Default ScalarWebAPI path segment.
pub fn default_scalar_webapi_device_path() -> (r: String)
    ensures
        r@ == "sony"@,
{
    owned("sony")
}

/// Default ScalarWebAPI model label.
pub fn default_scalar_webapi_device_model() -> (r: String)
    ensures
        r@ == "ScalarWebAPI device"@,
{
    owned("ScalarWebAPI device")
}

/// Default wake triggers: keyboard, mouse and output selection.
pub fn default_scalar_webapi_device_triggers() -> (r: Vec<String>)
    ensures
        r@.len() == 3,
        r@[0]@ == "keyboard"@,
        r@[1]@ == "mouse"@,
        r@[2]@ == "output_selected"@,
{
    let mut v: Vec<String> = Vec::new();
    v.push(owned("keyboard"));
    v.push(owned("mouse"));
    v.push(owned("output_selected"));
    v
}

impl Default for Config {
    fn default() -> (r: Self)
        ensures
            r.version == 1,
            r.auto_switch,
            r.poll_interval_ms == DEFAULT_POLL_INTERVAL_MS,
            r.switch_delay_ms == DEFAULT_SWITCH_DELAY_MS,
            r.activity_idle_threshold_ms == DEFAULT_ACTIVITY_IDLE_THRESHOLD_MS,
            r.activity_poll_interval_ms == DEFAULT_ACTIVITY_POLL_INTERVAL_MS,
            r.activity_monitor@ == "idle"@,
            !r.activity_event_tap_include_mouse_move,
            r.preferred_device.name is None,
            r.preferred_device.uid is None,
            r.preferred_device_uid is None,
            r.fallback_uids@.len() == 0,
            r.also_set_system_output,
            r.volume is None,
            r.scalar_webapi_device is None,
    {
        Config {
            version: 1,
            auto_switch: true,
            poll_interval_ms: DEFAULT_POLL_INTERVAL_MS,
            switch_delay_ms: DEFAULT_SWITCH_DELAY_MS,
            activity_idle_threshold_ms: DEFAULT_ACTIVITY_IDLE_THRESHOLD_MS,
            activity_poll_interval_ms: DEFAULT_ACTIVITY_POLL_INTERVAL_MS,
            activity_monitor: owned("idle"),
            activity_event_tap_include_mouse_move: false,
            preferred_device: DeviceSelectorConfig { name: None, uid: None },
            preferred_device_uid: None,
            fallback_uids: Vec::new(),
            also_set_system_output: true,
            volume: None,
            scalar_webapi_device: None,
        }
    }
}

/// A UID that still holds the example text, or nothing at all.
pub open spec fn spec_placeholder(uid: Seq<char>) -> bool {
    let t = trim(uid);
    t.len() == 0 || seq_contains(t, "PASTE-UID"@) || seq_contains(t, "PASTE-LINE-OUT"@)
}

pub fn is_placeholder_uid(uid: &str) -> (r: bool)
    ensures
        r == spec_placeholder(uid@),
{
    let t = trim_str(uid);
    t.unicode_len() == 0 || contains(t, "PASTE-UID") || contains(t, "PASTE-LINE-OUT")
}

/// `s` without any leading `/` characters (`trim_start_matches('/')`).
pub open spec fn strip_leading_slashes(s: Seq<char>) -> Seq<char>
    decreases s.len(),
{
    if s.len() > 0 && s[0] == '/' {
        strip_leading_slashes(s.drop_first())
    } else {
        s
    }
}

proof fn lemma_strip_slashes_skip(s: Seq<char>, i: int)
    requires
        0 <= i <= s.len(),
        forall|j: int| 0 <= j < i ==> s[j] == '/',
    ensures
        strip_leading_slashes(s) == strip_leading_slashes(s.subrange(i, s.len() as int)),
    decreases i,
{
    if i > 0 {
        assert(s.drop_first() =~= s.subrange(1, s.len() as int));
        lemma_strip_slashes_skip(s.drop_first(), i - 1);
        assert(s.drop_first().subrange(i - 1, s.drop_first().len() as int) =~= s.subrange(
            i,
            s.len() as int,
        ));
    } else {
        assert(s.subrange(0, s.len() as int) =~= s);
    }
}

fn trim_leading_slashes<'a>(s: &'a str) -> (r: &'a str)
    ensures
        r@ == strip_leading_slashes(s@),
{
    let n = s.unicode_len();
    let mut i: usize = 0;
    while i < n && s.get_char(i) == '/'
        invariant
            n == s@.len(),
            i <= n,
            forall|j: int| 0 <= j < i ==> s@[j] == '/',
        decreases n - i,
    {
        i = i + 1;
    }
    proof {
        lemma_strip_slashes_skip(s@, i as int);
    }
    s.substring_char(i, n)
}

impl ScalarWebApiDeviceConfig {
    pub open spec fn spec_endpoint_url(&self) -> Option<Seq<char>> {
        match self.host {
            None => None,
            Some(h) => {
                let host = trim(h@);
                let path = strip_leading_slashes(trim(self.path@));
                if host.len() == 0 {
                    None
                } else if path.len() == 0 {
                    Some("http://"@ + host + ":"@ + decimal(self.port as nat))
                } else {
                    Some("http://"@ + host + ":"@ + decimal(self.port as nat) + "/"@ + path)
                }
            },
        }
    }

    /// ScalarWebAPI base URL built from host, port, and path.
    pub fn endpoint_url(&self) -> (r: Option<String>)
        ensures
            match r {
                Some(u) => self.spec_endpoint_url() == Some(u@),
                None => self.spec_endpoint_url() is None,
            },
    {
        let host = match &self.host {
            Some(h) => trim_str(h.as_str()),
            None => {
                return None;
            },
        };
        if host.unicode_len() == 0 {
            return None;
        }
        let path = trim_leading_slashes(trim_str(self.path.as_str()));
        let port = u64_to_text(self.port as u64);
        let mut url = concat3("http://", host, ":");
        url.append(port.as_str());
        if path.unicode_len() > 0 {
            url.append("/");
            url.append(path);
        }
        Some(url)
    }
}

impl Config {
    /// The UID the effective preferred selector holds (`preferred_device` wins over legacy UID).
    pub open spec fn spec_preferred_uid(&self) -> Option<String> {
        match self.preferred_device.uid {
            Some(u) => if !spec_placeholder(u@) {
                Some(u)
            } else {
                self.preferred_device_uid
            },
            None => self.preferred_device_uid,
        }
    }

    /// Effective preferred device selector.
    pub fn preferred_selector(&self) -> (r: DeviceSelector)
        ensures
            r.uid == self.spec_preferred_uid(),
    {
        if let Some(u) = &self.preferred_device.uid {
            if !is_placeholder_uid(u.as_str()) {
                return DeviceSelector { uid: Some(u.clone()) };
            }
        }
        match &self.preferred_device_uid {
            Some(uid) => DeviceSelector { uid: Some(uid.clone()) },
            None => DeviceSelector { uid: None },
        }
    }

    pub open spec fn spec_preferred_is_set(&self) -> bool {
        !(DeviceSelector { uid: self.spec_preferred_uid() }).spec_is_empty()
    }

    pub fn preferred_is_set(&self) -> (r: bool)
        ensures
            r == self.spec_preferred_is_set(),
    {
        !self.preferred_selector().is_empty()
    }
}

/// The first rule a configuration breaks, as the message `validate_config` reports.
pub open spec fn spec_config_problem(c: Config) -> Option<Seq<char>> {
    if c.version != 1 {
        Some("unsupported config version "@ + decimal(c.version as nat) + " (expected 1)"@)
    } else if !c.spec_preferred_is_set() {
        Some("set preferred_device.uid (see config.example.json)"@)
    } else if c.volume is Some && c.volume.unwrap() > 100 {
        Some("volume must be between 0 and 100"@)
    } else if c.scalar_webapi_device is Some && c.scalar_webapi_device.unwrap().enabled && trim(
        match c.scalar_webapi_device.unwrap().host {
            Some(h) => h@,
            None => Seq::empty(),
        },
    ).len() == 0 {
        Some("scalar_webapi_device.enabled is true but host is not set"@)
    } else if c.scalar_webapi_device is Some && c.scalar_webapi_device.unwrap().enabled && (
    DeviceSelector { uid: c.scalar_webapi_device.unwrap().mac_output.uid }).spec_is_empty() {
        Some("scalar_webapi_device.enabled is true but mac_output is not set"@)
    } else if c.poll_interval_ms == 0 {
        Some("poll_interval_ms must be greater than 0 until event listeners are implemented"@)
    } else if c.activity_poll_interval_ms == 0 {
        Some("activity_poll_interval_ms must be greater than 0"@)
    } else if c.activity_idle_threshold_ms == 0 {
        Some("activity_idle_threshold_ms must be greater than 0"@)
    } else {
        None
    }
}

fn config_error(msg: &str) -> (r: Result<(), RustyJackError>)
    ensures
        r matches Err(RustyJackError::Config(m)) && m@ == msg@,
{
    Err(RustyJackError::Config(owned(msg)))
}

/// A configuration that enables the ScalarWebAPI device must name the Mac
/// output it wakes for: when `mac_output.uid` is absent or a placeholder, the
/// configuration is rejected (`validate_config` returns an error), and every
/// configuration that validates with the device enabled names both its host
/// and a real `mac_output.uid`.
pub proof fn law_enabled_speaker_needs_mac_output(c: Config)
    ensures
        (c.scalar_webapi_device matches Some(api) && api.enabled && match api.mac_output.uid {
            None => true,
            Some(u) => spec_placeholder(u@),
        }) ==> spec_config_problem(c) is Some,
        spec_config_problem(c) is None ==> match c.scalar_webapi_device {
            Some(api) => api.enabled ==> (api.mac_output.uid matches Some(u) && !spec_placeholder(u@))
                && (api.host matches Some(h) && trim(h@).len() > 0),
            None => true,
        },
{
}

/// Check a loaded configuration; `Ok` exactly when no rule is broken.
pub fn validate_config(config: &Config) -> (r: Result<(), RustyJackError>)
    ensures
        match spec_config_problem(*config) {
            None => r is Ok,
            Some(m) => r matches Err(RustyJackError::Config(e)) && e@ == m,
        },
{
    if config.version != 1 {
        let v = u64_to_text(config.version as u64);
        let mut m = concat2("unsupported config version ", v.as_str());
        m.append(" (expected 1)");
        return Err(RustyJackError::Config(m));
    }
    if !config.preferred_is_set() {
        return config_error("set preferred_device.uid (see config.example.json)");
    }
    if let Some(volume) = config.volume {
        if volume > 100 {
            return config_error("volume must be between 0 and 100");
        }
    }
    if let Some(api) = &config.scalar_webapi_device {
        if api.enabled {
            let host_empty = match &api.host {
                Some(h) => trim_str(h.as_str()).unicode_len() == 0,
                None => {
                    assert(trim(Seq::<char>::empty()) == Seq::<char>::empty());
                    true
                },
            };
            if host_empty {
                return config_error("scalar_webapi_device.enabled is true but host is not set");
            }
            let sel = DeviceSelector { uid: clone_uid(&api.mac_output.uid) };
            if sel.is_empty() {
                return config_error(
                    "scalar_webapi_device.enabled is true but mac_output is not set",
                );
            }
        }
    }
    if config.poll_interval_ms == 0 {
        return config_error(
            "poll_interval_ms must be greater than 0 until event listeners are implemented",
        );
    }
    if config.activity_poll_interval_ms == 0 {
        return config_error("activity_poll_interval_ms must be greater than 0");
    }
    if config.activity_idle_threshold_ms == 0 {
        return config_error("activity_idle_threshold_ms must be greater than 0");
    }
    Ok(())
}

fn clone_uid(o: &Option<String>) -> (r: Option<String>)
    ensures
        r == *o,
{
    match o {
        Some(s) => Some(s.clone()),
        None => None,
    }
}


/// Outcome of `rusty-jack config validate`.
#[derive(Debug)]
pub enum ValidateResult {
    Valid { config_path: String, canonicalized: bool },
}

/// The file at `config_path` loaded as valid config; it was canonicalized when
/// loading rewrote it (its text before and after differ).
pub fn validate_result(config_path: &str, raw_before: &str, raw_after: &str) -> (r: ValidateResult)
    ensures
        r matches ValidateResult::Valid { config_path: p, canonicalized: c } && p@ == config_path@
            && c == (raw_before@ != raw_after@),
{
    ValidateResult::Valid {
        config_path: owned(config_path),
        canonicalized: !crate::text::str_eq(raw_before, raw_after),
    }
}

/// Text report of a validation.
pub fn validate_result_lines(result: &ValidateResult) -> (r: Vec<String>)
    ensures
        match result {
            ValidateResult::Valid { config_path, canonicalized } => {
                &&& r@.len() == if *canonicalized {
                    3int
                } else {
                    2int
                }
                &&& r@[0]@ == "Config is valid"@
                &&& r@[1]@ == "  path: "@ + config_path@
                &&& *canonicalized ==> r@[2]@ == "  note: rewrote file in canonical key order"@
            },
        },
{
    match result {
        ValidateResult::Valid { config_path, canonicalized } => {
            let mut lines: Vec<String> = Vec::new();
            lines.push(owned("Config is valid"));
            lines.push(crate::text::concat2("  path: ", config_path.as_str()));
            if *canonicalized {
                lines.push(owned("  note: rewrote file in canonical key order"));
            }
            lines
        },
    }
}


/// Config when the file exists (`exists`, loaded by `load`); `None` for a missing
/// file, unless the path was given explicitly, where a missing file is an error.
pub fn load_config_optional<F>(path: &str, exists: bool, explicit: bool, load: F) -> (r: Result<
    Option<Config>,
    RustyJackError,
>) where F: FnOnce() -> Result<Config, RustyJackError>,

    requires
        call_requires(load, ()),
    ensures
        !exists && explicit ==> (r matches Err(RustyJackError::Config(m)) && m@
            == "config file not found: "@ + path@),
        !exists && !explicit ==> r matches Ok(None),
        exists ==> exists|loaded: Result<Config, RustyJackError>|
            #![trigger call_ensures(load, (), loaded)]
            call_ensures(load, (), loaded) && match loaded {
                Ok(c) => r == Ok::<Option<Config>, RustyJackError>(Some(c)),
                Err(e) => r == Err::<Option<Config>, RustyJackError>(e),
            },
{
    if !exists {
        if explicit {
            return Err(RustyJackError::Config(crate::text::concat2("config file not found: ", path)));
        }
        return Ok(None);
    }
    match load() {
        Ok(c) => Ok(Some(c)),
        Err(e) => Err(e),
    }
}

/// The text to write back over a config file that was read as `raw`: its
/// canonical form (pretty JSON, keys sorted, final newline), or `None` when the
/// file already is canonical or is not JSON.
pub fn config_rewrite(raw: &str) -> (r: Option<String>)
    ensures
        match spec_canonical_json(raw@) {
            Some(c) => if c == raw@ {
                r is None
            } else {
                r matches Some(t) && t@ == c
            },
            None => r is None,
        },
{
    match render_lexicographic_json(raw) {
        Some(canonical) => if crate::text::str_eq(canonical.as_str(), raw) {
            None
        } else {
            Some(canonical)
        },
        None => None,
    }
}

} // verus!
