//! Runtime configuration model.

use vstd::prelude::*;
use crate::strmap::StringMap;
use crate::text::{ascii_lower_seq, str_eq, to_ascii_lowercase};

verus! {

/// Runtime loop settings.
#[derive(Debug, Clone, Copy, PartialEq, Eq, Structural)]
pub struct RuntimeConfig {
    /// Polling interval in milliseconds.
    pub poll_interval_ms: u64,
}

/// The smallest poll interval allowed, in milliseconds.
pub const MIN_POLL_INTERVAL_MS: u64 = 250;

impl RuntimeConfig {
    /// The smallest poll interval allowed, in milliseconds.
    ///
    /// A zero interval would make the polling loop busy-spin.
    pub const MIN_POLL_INTERVAL_MS: u64 = 250;
}

/// A poll interval raised to at least [`MIN_POLL_INTERVAL_MS`].
pub open spec fn spec_clamp_poll_interval(ms: u64) -> u64 {
    if ms < MIN_POLL_INTERVAL_MS { MIN_POLL_INTERVAL_MS } else { ms }
}

/// Raises a poll interval to the safe minimum; larger values are kept.
pub fn clamp_poll_interval(ms: u64) -> (r: u64)
    ensures
        r == spec_clamp_poll_interval(ms),
        r >= MIN_POLL_INTERVAL_MS,
        ms >= MIN_POLL_INTERVAL_MS ==> r == ms,
{
    if ms < MIN_POLL_INTERVAL_MS { MIN_POLL_INTERVAL_MS } else { ms }
}

/// Clamping a poll interval keeps it at or above the minimum, leaves an
/// allowed interval unchanged, and changes nothing when done twice.
pub proof fn law_clamp_poll_interval(ms: u64)
    ensures
        spec_clamp_poll_interval(ms) >= MIN_POLL_INTERVAL_MS,
        ms >= MIN_POLL_INTERVAL_MS ==> spec_clamp_poll_interval(ms) == ms,
        spec_clamp_poll_interval(spec_clamp_poll_interval(ms)) == spec_clamp_poll_interval(ms),
{
}

impl Default for RuntimeConfig {
    fn default() -> (r: Self)
        ensures
            r.poll_interval_ms == 1000,
    {
        RuntimeConfig { poll_interval_ms: 1000 }
    }
}

/// Plugin enable/disable settings.
#[derive(Debug, Clone, Copy, PartialEq, Eq, Structural)]
pub struct PluginConfig {
    /// Whether the FL Studio plugin is enabled.
    pub flstudio: bool,
    /// Whether the Antigravity plugin is enabled.
    pub antigravity: bool,
    /// Whether the OpenCode plugin is enabled.
    pub opencode: bool,
}

impl Default for PluginConfig {
    fn default() -> (r: Self)
        ensures
            r.flstudio && r.antigravity && r.opencode,
    {
        PluginConfig { flstudio: true, antigravity: true, opencode: true }
    }
}

/// Output enable/disable settings.
#[derive(Debug, Clone)]
pub struct OutputConfig {
    /// Whether the console output is enabled.
    pub console: bool,
    /// Whether the Discord Rich Presence output is enabled.
    pub discord: bool,
    /// Discord application ID for sources without an entry in `discord_apps`.
    pub discord_app_id: u64,
    /// Per-source Discord application IDs, keyed by engine source name.
    pub discord_apps: StringMap<u64>,
}

impl Default for OutputConfig {
    fn default() -> (r: Self)
        ensures
            r.console,
            !r.discord,
            r.discord_app_id == 0,
            r.discord_apps@ == Map::<Seq<char>, u64>::empty(),
    {
        OutputConfig { console: true, discord: false, discord_app_id: 0, discord_apps: StringMap::new() }
    }
}

impl OutputConfig {
    /// A copy with the same settings.
    pub fn duplicate(&self) -> (r: Self)
        ensures
            r.console == self.console,
            r.discord == self.discord,
            r.discord_app_id == self.discord_app_id,
            r.discord_apps@ == self.discord_apps@,
    {
        OutputConfig {
            console: self.console,
            discord: self.discord,
            discord_app_id: self.discord_app_id,
            discord_apps: self.discord_apps.duplicate(),
        }
    }
}

/// How the presence engine chooses which active source owns the display.
#[derive(Debug, Clone, Copy, PartialEq, Eq, Structural)]
pub enum OwnershipPolicy {
    /// The source in the foreground owns the display; otherwise the current
    /// owner is kept while active, then registration order decides.
    Foreground,
    /// The first-active source (registration order) owns the display.
    Fixed,
    /// The most recently active source owns the display.
    Recent,
}

impl Default for OwnershipPolicy {
    fn default() -> (r: Self)
        ensures
            r == OwnershipPolicy::Foreground,
    {
        OwnershipPolicy::Foreground
    }
}

/// The policy a configuration word names, compared case-insensitively.
pub open spec fn spec_parse_ownership(s: Seq<char>) -> Option<OwnershipPolicy> {
    let l = ascii_lower_seq(s);
    if l == "foreground"@ {
        Some(OwnershipPolicy::Foreground)
    } else if l == "fixed"@ {
        Some(OwnershipPolicy::Fixed)
    } else if l == "recent"@ {
        Some(OwnershipPolicy::Recent)
    } else {
        None
    }
}

impl OwnershipPolicy {
    /// Parses `"foreground"`, `"fixed"` or `"recent"`, ignoring ASCII case.
    pub fn parse(s: &str) -> (r: Option<OwnershipPolicy>)
        ensures
            r == spec_parse_ownership(s@),
    {
        let l = to_ascii_lowercase(s);
        if str_eq(l.as_str(), "foreground") {
            Some(OwnershipPolicy::Foreground)
        } else if str_eq(l.as_str(), "fixed") {
            Some(OwnershipPolicy::Fixed)
        } else if str_eq(l.as_str(), "recent") {
            Some(OwnershipPolicy::Recent)
        } else {
            None
        }
    }

    /// The policy for a configuration value: a missing or unknown value
    /// falls back to the default, so a typo never breaks startup.
    pub fn from_config_value(raw: Option<&str>) -> (r: OwnershipPolicy)
        ensures
            r == match raw {
                Some(s) => match spec_parse_ownership(s@) {
                    Some(p) => p,
                    None => OwnershipPolicy::Foreground,
                },
                None => OwnershipPolicy::Foreground,
            },
    {
        match raw {
            Some(s) => match OwnershipPolicy::parse(s) {
                Some(p) => p,
                None => OwnershipPolicy::Foreground,
            },
            None => OwnershipPolicy::Foreground,
        }
    }
}

impl std::str::FromStr for OwnershipPolicy {
    type Err = ();

    fn from_str(s: &str) -> (r: Result<Self, Self::Err>)
        ensures
            r == match spec_parse_ownership(s@) {
                Some(p) => Ok::<OwnershipPolicy, ()>(p),
                None => Err(()),
            },
    {
        match OwnershipPolicy::parse(s) {
            Some(p) => Ok(p),
            None => Err(()),
        }
    }
}

/// How the presence engine treats an unsupported application in the
/// foreground.
#[derive(Debug, Clone, Copy, PartialEq, Eq, Structural)]
pub enum UnsupportedForegroundPolicy {
    /// Keep the displayed presence while its owner is still active.
    KeepLast,
}

impl Default for UnsupportedForegroundPolicy {
    fn default() -> (r: Self)
        ensures
            r == UnsupportedForegroundPolicy::KeepLast,
    {
        UnsupportedForegroundPolicy::KeepLast
    }
}

/// The policy a configuration word names, compared case-insensitively.
pub open spec fn spec_parse_unsupported(s: Seq<char>) -> Option<UnsupportedForegroundPolicy> {
    if ascii_lower_seq(s) == "keep_last"@ {
        Some(UnsupportedForegroundPolicy::KeepLast)
    } else {
        None
    }
}

/// Policy words are read without regard to ASCII case: two words that
/// differ only in case name the same policy, or are both refused.
pub proof fn law_policy_words_ignore_case(a: Seq<char>, b: Seq<char>)
    requires
        ascii_lower_seq(a) == ascii_lower_seq(b),
    ensures
        spec_parse_ownership(a) == spec_parse_ownership(b),
        spec_parse_unsupported(a) == spec_parse_unsupported(b),
{
}

impl UnsupportedForegroundPolicy {
    /// Parses `"keep_last"`, ignoring ASCII case.
    pub fn parse(s: &str) -> (r: Option<UnsupportedForegroundPolicy>)
        ensures
            r == spec_parse_unsupported(s@),
    {
        let l = to_ascii_lowercase(s);
        if str_eq(l.as_str(), "keep_last") {
            Some(UnsupportedForegroundPolicy::KeepLast)
        } else {
            None
        }
    }

    /// The policy for a configuration value, falling back to the default
    /// when it is missing or unknown.
    pub fn from_config_value(raw: Option<&str>) -> (r: UnsupportedForegroundPolicy)
        ensures
            r == UnsupportedForegroundPolicy::KeepLast,
    {
        match raw {
            Some(s) => match UnsupportedForegroundPolicy::parse(s) {
                Some(p) => p,
                None => UnsupportedForegroundPolicy::KeepLast,
            },
            None => UnsupportedForegroundPolicy::KeepLast,
        }
    }
}

impl std::str::FromStr for UnsupportedForegroundPolicy {
    type Err = ();

    fn from_str(s: &str) -> (r: Result<Self, Self::Err>)
        ensures
            r == match spec_parse_unsupported(s@) {
                Some(p) => Ok::<UnsupportedForegroundPolicy, ()>(p),
                None => Err(()),
            },
    {
        match UnsupportedForegroundPolicy::parse(s) {
            Some(p) => Ok(p),
            None => Err(()),
        }
    }
}

/// Presence ownership settings.
#[derive(Debug, Clone, Copy, PartialEq, Eq, Structural)]
pub struct PresenceConfig {
    /// Which source owns the displayed presence when several are active.
    pub ownership: OwnershipPolicy,
    /// How an unsupported foreground application affects the owner.
    pub unsupported_foreground: UnsupportedForegroundPolicy,
}

impl Default for PresenceConfig {
    fn default() -> (r: Self)
        ensures
            r.ownership == OwnershipPolicy::Foreground,
            r.unsupported_foreground == UnsupportedForegroundPolicy::KeepLast,
    {
        PresenceConfig {
            ownership: OwnershipPolicy::Foreground,
            unsupported_foreground: UnsupportedForegroundPolicy::KeepLast,
        }
    }
}

/// A user-defined application watched by process name.
#[derive(Debug, Clone)]
pub struct CustomAppConfig {
    /// Stable identifier of the entry.
    pub id: String,
    /// Display name, also the engine source name.
    pub name: String,
    /// Process base name to watch (e.g. `"blender.exe"`).
    pub process_name: String,
    /// Whether the watcher publishes presence.
    pub enabled: bool,
    /// Primary status text; empty means "Active".
    pub state: String,
    /// Optional secondary line.
    pub details: Option<String>,
    /// Custom Discord application ID, `0` for the default application.
    pub discord_app_id: u64,
    /// Optional Discord asset key for the large image.
    pub logo_asset: Option<String>,
}

/// Runtime configuration.
#[derive(Debug, Clone)]
pub struct Config {
    /// Schema version of the configuration file.
    pub config_version: u32,
    /// Logging verbosity level.
    pub log_level: String,
    /// Runtime loop settings.
    pub runtime: RuntimeConfig,
    /// Plugin enable/disable settings.
    pub plugins: PluginConfig,
    /// Output enable/disable settings.
    pub outputs: OutputConfig,
    /// Presence ownership settings.
    pub presence: PresenceConfig,
}

/// Whether two configurations have the same content.
pub open spec fn same_config(a: Config, b: Config) -> bool {
    &&& a.config_version == b.config_version
    &&& a.log_level@ == b.log_level@
    &&& a.runtime == b.runtime
    &&& a.plugins == b.plugins
    &&& a.outputs.console == b.outputs.console
    &&& a.outputs.discord == b.outputs.discord
    &&& a.outputs.discord_app_id == b.outputs.discord_app_id
    &&& a.outputs.discord_apps@ == b.outputs.discord_apps@
    &&& a.presence == b.presence
}

impl Config {
    /// Whether this is the default configuration: version 1, `info`
    /// logging, a one-second poll, every plugin on, console output on,
    /// Discord off with no application ids, foreground ownership and
    /// keep-last for unsupported windows.
    pub open spec fn is_default(&self) -> bool {
        &&& self.config_version == 1
        &&& self.log_level@ == "info"@
        &&& self.runtime.poll_interval_ms == 1000
        &&& self.plugins.flstudio && self.plugins.antigravity && self.plugins.opencode
        &&& self.outputs.console
        &&& !self.outputs.discord
        &&& self.outputs.discord_app_id == 0
        &&& self.outputs.discord_apps@ == Map::<Seq<char>, u64>::empty()
        &&& self.presence.ownership == OwnershipPolicy::Foreground
        &&& self.presence.unsupported_foreground == UnsupportedForegroundPolicy::KeepLast
    }
}

/// The configuration format version written by default.
pub fn default_config_version() -> (r: u32)
    ensures
        r == 1,
{
    1
}

/// The log level used when the configuration names none.
pub fn default_log_level() -> (r: String)
    ensures
        r@ == "info"@,
{
    "info".to_string()
}

impl Default for Config {
    fn default() -> (r: Self)
        ensures
            r.is_default(),
    {
        Config {
            config_version: default_config_version(),
            log_level: default_log_level(),
            runtime: RuntimeConfig::default(),
            plugins: PluginConfig::default(),
            outputs: OutputConfig::default(),
            presence: PresenceConfig::default(),
        }
    }
}

impl Config {
    /// A copy with the same settings.
    pub fn duplicate(&self) -> (r: Self)
        ensures
            same_config(r, *self),
    {
        Config {
            config_version: self.config_version,
            log_level: self.log_level.clone(),
            runtime: self.runtime,
            plugins: self.plugins,
            outputs: self.outputs.duplicate(),
            presence: self.presence,
        }
    }
}

} // verus!
