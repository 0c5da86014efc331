//! Which plugins and outputs a configuration asks for, and the desktop
//! default configuration.

use vstd::prelude::*;
use crate::config::{Config, OutputConfig, OwnershipPolicy, UnsupportedForegroundPolicy};
use crate::strmap::StringMap;

verus! {

/// The source names of the built-in plugins, in display order.
pub open spec fn builtin_sources() -> Seq<Seq<char>> {
    seq!["FL Studio"@, "Antigravity"@, "OpenCode"@]
}

/// An output the configuration asks for.
#[derive(Debug)]
pub enum OutputPlan {
    /// The console output.
    Console,
    /// The Discord output with its default and per-source application ids.
    Discord {
        /// Application id for sources without an entry of their own.
        default_app_id: u64,
        /// Application id per engine source.
        app_ids: StringMap<u64>,
    },
}

/// Whether a configuration asks for the Discord output: it is enabled and
/// has a default application id or at least one per-source id.
pub open spec fn wants_discord(o: OutputConfig) -> bool {
    o.discord && (o.discord_app_id > 0 || o.discord_apps@.dom().len() > 0)
}

/// Chooses the outputs a configuration enables.
pub struct OutputRegistry;

impl OutputRegistry {
    /// The enabled outputs, console first: the console when enabled, and
    /// Discord when enabled with an application id (default or per source).
    pub fn create_enabled_outputs(config: &Config) -> (r: Vec<OutputPlan>)
        ensures
            r@.len() == (if config.outputs.console {
                1int
            } else {
                0
            }) + (if wants_discord(config.outputs) {
                1int
            } else {
                0
            }),
            config.outputs.console ==> r@[0] is Console,
            wants_discord(config.outputs) ==> (r@.last() matches OutputPlan::Discord {
                default_app_id,
                app_ids,
            } && default_app_id == config.outputs.discord_app_id && app_ids@
                == config.outputs.discord_apps@),
    {
        let mut outputs: Vec<OutputPlan> = Vec::new();
        if config.outputs.console {
            outputs.push(OutputPlan::Console);
        }
        if config.outputs.discord && (config.outputs.discord_app_id > 0
            || !config.outputs.discord_apps.is_empty()) {
            outputs.push(
                OutputPlan::Discord {
                    default_app_id: config.outputs.discord_app_id,
                    app_ids: config.outputs.discord_apps.duplicate(),
                },
            );
        }
        outputs
    }
}

/// Chooses the built-in plugins a configuration enables.
pub struct PluginRegistry;

impl PluginRegistry {
    /// The source names of the enabled built-in plugins, in registration
    /// order: FL Studio, Antigravity, OpenCode.
    pub fn enabled_sources(config: &Config) -> (r: Vec<String>)
        ensures
            r@.len() == (if config.plugins.flstudio {
                1int
            } else {
                0
            }) + (if config.plugins.antigravity {
                1int
            } else {
                0
            }) + (if config.plugins.opencode {
                1int
            } else {
                0
            }),
            forall|i: int|
                0 <= i < r@.len() ==> builtin_sources().contains(#[trigger] r@[i]@),
            config.plugins.flstudio ==> r@[0]@ == "FL Studio"@,
            config.plugins.opencode ==> r@.last()@ == "OpenCode"@,
    {
        let mut names: Vec<String> = Vec::new();
        if config.plugins.flstudio {
            names.push("FL Studio".to_owned());
            assert(builtin_sources()[0] == "FL Studio"@);
        }
        if config.plugins.antigravity {
            names.push("Antigravity".to_owned());
            assert(builtin_sources()[1] == "Antigravity"@);
        }
        if config.plugins.opencode {
            names.push("OpenCode".to_owned());
            assert(builtin_sources()[2] == "OpenCode"@);
        }
        names
    }
}

/// The desktop production configuration: the defaults with a half-second
/// poll, every plugin and both outputs on, the default Discord application
/// id and one per supported application.
pub fn desktop_default_config() -> (r: Config)
    ensures
        r.config_version == 1,
        r.log_level@ == "info"@,
        r.runtime.poll_interval_ms == 500,
        r.plugins.flstudio && r.plugins.antigravity && r.plugins.opencode,
        r.outputs.console && r.outputs.discord,
        r.outputs.discord_app_id == 1533559059125637311,
        r.outputs.discord_apps@ == Map::<Seq<char>, u64>::empty().insert(
            "OpenCode"@,
            1273940066603106328u64,
        ).insert("Antigravity"@, 1543009205785591868u64).insert(
            "FL Studio"@,
            1192880494086455357u64,
        ),
        r.presence.ownership == OwnershipPolicy::Foreground,
        r.presence.unsupported_foreground == UnsupportedForegroundPolicy::KeepLast,
{
    let mut config = Config::default();
    config.runtime.poll_interval_ms = 500;
    config.plugins.flstudio = true;
    config.plugins.antigravity = true;
    config.plugins.opencode = true;
    config.outputs.console = true;
    config.outputs.discord = true;
    config.outputs.discord_app_id = 1533559059125637311;
    let mut apps: StringMap<u64> = StringMap::new();
    apps.insert("OpenCode".to_owned(), 1273940066603106328);
    apps.insert("Antigravity".to_owned(), 1543009205785591868);
    apps.insert("FL Studio".to_owned(), 1192880494086455357);
    config.outputs.discord_apps = apps;
    config.presence.ownership = OwnershipPolicy::Foreground;
    config.presence.unsupported_foreground = UnsupportedForegroundPolicy::KeepLast;
    config
}

} // verus!
