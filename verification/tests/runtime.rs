use std::sync::atomic::{AtomicUsize, Ordering};
use std::sync::Arc;
use std::time::Duration;

use presencehub::activity::{Activity, Metadata};
use presencehub::config::{Config, OutputConfig, PluginConfig, RuntimeConfig};
use presencehub::console::ConsoleOutput;
use presencehub::output::{Output, OutputCall, OutputError, PresenceEngine};
use presencehub::plugin::{PluginError, PluginHost};
use presencehub::registry::{OutputPlan, OutputRegistry, PluginRegistry};
use presencehub::runtime::{PollErrorTracker, PollLog, Runtime};

/// The outputs a configuration asks for that can run here (the console).
fn console_outputs(config: &Config) -> Vec<Box<dyn Output>> {
    let mut outputs: Vec<Box<dyn Output>> = Vec::new();
    for plan in OutputRegistry::create_enabled_outputs(config) {
        if let OutputPlan::Console = plan {
            outputs.push(Box::new(ConsoleOutput::new()));
        }
    }
    outputs
}

/// A mock plugin that produces an activity on first poll, then None.
struct MockActivityPlugin {
    metadata: presencehub::plugin::PluginMetadata,
    emitted: bool,
}

impl MockActivityPlugin {
    fn new(name: &str) -> Self {
        Self {
            metadata: presencehub::plugin::PluginMetadata::new(name, "1.0.0"),
            emitted: false,
        }
    }
}

impl presencehub::plugin::Plugin for MockActivityPlugin {
    fn calls(&self) -> presencehub::plugin::PluginCalls {
        unreachable!("the record of calls is a proof-time notion")
    }
    fn plugin_name(&self) -> vstd::seq::Seq<char> {
        unreachable!("the plugin name is a proof-time notion")
    }
    fn metadata(&self) -> &presencehub::plugin::PluginMetadata {
        &self.metadata
    }

    fn init(&mut self) -> Result<(), PluginError> {
        self.emitted = false;
        Ok(())
    }

    fn poll(&mut self) -> Result<Option<Activity>, PluginError> {
        if !self.emitted {
            self.emitted = true;
            let activity = Activity {
                state: "Editing".to_string(),
                details: Some("song.flp".to_string()),
                timestamps: None,
                metadata: Metadata::new(),
                application: None,
            };
            Ok(Some(activity))
        } else {
            Ok(None)
        }
    }

    fn shutdown(&mut self) -> Result<(), PluginError> {
        self.emitted = false;
        Ok(())
    }

    fn reset(&mut self) {
        self.emitted = false;
    }
}

/// A mock plugin that always fails polling.
struct FailingPollPlugin {
    metadata: presencehub::plugin::PluginMetadata,
}

impl presencehub::plugin::Plugin for FailingPollPlugin {
    fn calls(&self) -> presencehub::plugin::PluginCalls {
        unreachable!("the record of calls is a proof-time notion")
    }
    fn plugin_name(&self) -> vstd::seq::Seq<char> {
        unreachable!("the plugin name is a proof-time notion")
    }
    fn metadata(&self) -> &presencehub::plugin::PluginMetadata {
        &self.metadata
    }

    fn init(&mut self) -> Result<(), PluginError> {
        Ok(())
    }

    fn poll(&mut self) -> Result<Option<Activity>, PluginError> {
        Err(PluginError::PollFailed("intentional failure".to_string()))
    }

    fn shutdown(&mut self) -> Result<(), PluginError> {
        Ok(())
    }
}

#[test]
fn runtime_creation() {
    let runtime = Runtime::new();
    assert!(!runtime.is_running());
}

#[test]
fn runtime_startup_with_defaults() {
    let mut runtime = Runtime::new();
    assert!(runtime.start(Vec::new(), console_outputs(&Config::default())).is_ok());
    assert!(runtime.is_running());
    runtime.shutdown();
    assert!(!runtime.is_running());
}

#[test]
fn runtime_startup_with_custom_config() {
    let config = Config {
        runtime: RuntimeConfig {
            poll_interval_ms: 500,
        },
        ..Config::default()
    };
    let mut runtime = Runtime::with_config(config);
    assert!(runtime.start(Vec::new(), console_outputs(&Config::default())).is_ok());
    assert!(runtime.is_running());
    runtime.shutdown();
}

#[test]
fn runtime_startup_with_empty_registries() {
    // All plugins and outputs disabled
    let config = Config {
        plugins: PluginConfig {
            flstudio: false,
            antigravity: false,
            opencode: false,
        },
        outputs: OutputConfig {
            console: false,
            discord: false,
            discord_app_id: 0,
            discord_apps: presencehub::strmap::StringMap::new(),
        },
        ..Config::default()
    };
    let mut runtime = Runtime::with_config(config);
    assert!(runtime.start(Vec::new(), console_outputs(&Config::default())).is_ok());
    assert!(runtime.is_running());
    assert_eq!(runtime.host().plugins().len(), 0);
    runtime.shutdown();
}

#[test]
fn runtime_shutdown_without_start() {
    let mut runtime = Runtime::new();
    runtime.shutdown(); // Should not panic
    assert!(!runtime.is_running());
}

#[test]
fn runtime_shutdown_twice_is_safe() {
    // Calling shutdown() twice (e.g. an exit hook plus a Ctrl+C handler)
    // must not panic, error, or corrupt state.
    let mut runtime = Runtime::new();
    runtime.start(Vec::new(), console_outputs(&Config::default())).unwrap();
    runtime.shutdown();
    runtime.shutdown();
    assert!(!runtime.is_running());
}

#[test]
fn runtime_shutdown_clears_engine() {
    let mut runtime = Runtime::new();
    runtime.start(Vec::new(), console_outputs(&Config::default())).unwrap();
    assert!(runtime.is_running());
    runtime.shutdown();
    assert!(!runtime.is_running());
    assert!(runtime.engine().current_activity().is_none());
}

#[test]
fn runtime_plugin_host_polls_multiple_plugins() {
    let mut host = PluginHost::new();
    host.register(Box::new(MockActivityPlugin::new("A")));
    host.register(Box::new(MockActivityPlugin::new("B")));

    let results = host.poll_all();
    assert_eq!(results.len(), 2);
    assert_eq!(results[0].0, "A");
    assert!(results[0].1.as_ref().unwrap().is_some());
    assert_eq!(results[1].0, "B");
    assert!(results[1].1.as_ref().unwrap().is_some());

    let results = host.poll_all();
    assert_eq!(results.len(), 2);
    assert!(results[0].1.as_ref().unwrap().is_none());
    assert!(results[1].1.as_ref().unwrap().is_none());
}

#[test]
fn runtime_plugin_poll_failure_isolation() {
    let mut host = PluginHost::new();
    host.register(Box::new(FailingPollPlugin {
        metadata: presencehub::plugin::PluginMetadata::new("Failing", "1.0.0"),
    }));
    host.register(Box::new(MockActivityPlugin::new("Working")));

    let results = host.poll_all();
    assert_eq!(results.len(), 2);
    assert_eq!(results[0].0, "Failing");
    assert!(results[0].1.is_err(), "First plugin should fail");
    assert_eq!(results[1].0, "Working");
    assert!(
        results[1].1.as_ref().unwrap().is_some(),
        "Second plugin should produce activity"
    );
}

#[test]
fn runtime_activity_routing() {

    let mut engine = PresenceEngine::new();
    engine.register_output(Box::new(ConsoleOutput::new()));

    let activity = Activity {
        state: "Editing".to_string(),
        details: Some("song.flp".to_string()),
        timestamps: None,
        metadata: Metadata::new(),
        application: None,
    };

    let errors = engine.update("FL Studio", &activity);
    assert!(errors.is_empty());

    // The engine stamps the session start time, so the stored activity
    // carries a timestamp even though the plugin provided none.
    let current = engine.current_activity().unwrap();
    assert_eq!(current.state, "Editing");
    assert_eq!(current.details, Some("song.flp".to_string()));
    assert!(current.timestamps.as_ref().unwrap().start.is_some());
}

#[test]
fn runtime_duplicate_suppression() {

    let mut engine = PresenceEngine::new();
    engine.register_output(Box::new(ConsoleOutput::new()));

    let activity = Activity {
        state: "Idle".to_string(),
        details: None,
        timestamps: None,
        metadata: Metadata::new(),
        application: None,
    };

    engine.update("A", &activity);
    let errors = engine.update("A", &activity);
    assert!(
        errors.is_empty(),
        "Duplicate activities should not be republished"
    );
}

#[test]
fn runtime_output_failure_isolation() {
            
    struct FailingOutput;
    impl Output for FailingOutput {
        fn connection_state(&self) -> Option<bool> {
            None
        }
        fn received(&self) -> vstd::seq::Seq<OutputCall> {
            unreachable!("the record of calls is a proof-time notion")
        }
        fn clear(&mut self) {}
        fn publish(&mut self, _source: &str, _activity: &Activity) -> Result<(), OutputError> {
            Err(OutputError::PublishFailed(
                "intentional failure".to_string(),
            ))
        }
    }

    let mut engine = PresenceEngine::new();
    engine.register_output(Box::new(FailingOutput));
    engine.register_output(Box::new(ConsoleOutput::new()));

    let activity = Activity {
        state: "Editing".to_string(),
        details: None,
        timestamps: None,
        metadata: Metadata::new(),
        application: None,
    };

    let errors = engine.update("A", &activity);
    assert_eq!(errors.len(), 1, "One output should fail");
    assert_eq!(errors[0].0, 0, "Failing output should be index 0");
}

#[test]
fn runtime_default_poll_interval() {
    let runtime = Runtime::new();
    assert_eq!(runtime.poll_interval(), Duration::from_millis(1000));
}

#[test]
fn runtime_custom_poll_interval() {
    let config = Config {
        runtime: RuntimeConfig {
            poll_interval_ms: 5000,
        },
        ..Config::default()
    };
    let runtime = Runtime::with_config(config);
    assert_eq!(runtime.poll_interval(), Duration::from_millis(5000));
}

#[test]
fn runtime_clamps_zero_poll_interval_to_minimum() {
    // Regression: a poll_interval_ms of 0 (constructed in code, bypassing
    // TOML deserialization) must not make the polling loop busy-spin; the
    // runtime boundary clamps it to the safe minimum.
    let config = Config {
        runtime: RuntimeConfig {
            poll_interval_ms: 0,
        },
        ..Config::default()
    };
    let runtime = Runtime::with_config(config);
    assert_eq!(
        runtime.poll_interval(),
        Duration::from_millis(RuntimeConfig::MIN_POLL_INTERVAL_MS),
        "zero poll interval must be clamped to the safe minimum"
    );
    assert_eq!(
        runtime.config().runtime.poll_interval_ms,
        RuntimeConfig::MIN_POLL_INTERVAL_MS,
        "the effective config must reflect the clamped interval"
    );
}

#[test]
fn runtime_clamps_excessively_small_poll_interval_to_minimum() {
    let config = Config {
        runtime: RuntimeConfig {
            poll_interval_ms: 5,
        },
        ..Config::default()
    };
    let runtime = Runtime::with_config(config);
    assert_eq!(
        runtime.poll_interval(),
        Duration::from_millis(RuntimeConfig::MIN_POLL_INTERVAL_MS)
    );
}

#[test]
fn runtime_config_accessible() {
    let runtime = Runtime::new();
    assert_eq!(runtime.config().runtime.poll_interval_ms, 1000);
    assert!(runtime.config().plugins.flstudio);
}

// -----------------------------------------------------------------------
// Poll error transition logging
// -----------------------------------------------------------------------

#[test]
fn poll_error_tracker_unavailable_sequence_logs_once() {
    let mut tracker = PollErrorTracker::default();
    assert!(
        tracker.polled_err("FL Studio", "window not found"),
        "first failure logs"
    );
    assert!(
        !tracker.polled_err("FL Studio", "window not found"),
        "unchanged repeat failure is suppressed"
    );
    assert!(
        !tracker.polled_err("FL Studio", "window not found"),
        "still suppressed while condition persists"
    );
}

#[test]
fn poll_error_tracker_unavailable_to_available_logs_recovery_once() {
    let mut tracker = PollErrorTracker::default();
    assert!(tracker.polled_err("FL Studio", "window not found"));
    assert!(tracker.polled_ok("FL Studio"), "recovery logged once");
    assert!(
        !tracker.polled_ok("FL Studio"),
        "a healthy source that stays healthy must not keep logging recovery"
    );
}

#[test]
fn poll_error_tracker_available_sequence_no_recovery() {
    let mut tracker = PollErrorTracker::default();
    assert!(
        !tracker.polled_ok("FL Studio"),
        "healthy -> healthy is no transition"
    );
    assert!(!tracker.polled_ok("FL Studio"));
}

#[test]
fn poll_error_tracker_available_to_unavailable_logs_one() {
    let mut tracker = PollErrorTracker::default();
    assert!(!tracker.polled_ok("FL Studio"));
    assert!(
        tracker.polled_err("FL Studio", "window not found"),
        "new failure logs"
    );
    assert!(!tracker.polled_err("FL Studio", "window not found"));
}

#[test]
fn poll_error_tracker_changed_error_message_is_a_new_transition() {
    let mut tracker = PollErrorTracker::default();
    assert!(tracker.polled_err("FL Studio", "window not found"));
    assert!(!tracker.polled_err("FL Studio", "window not found"));
    assert!(
        tracker.polled_err("FL Studio", "unexpected exit"),
        "a changed error message is a new transition and must be logged"
    );
}

#[test]
fn poll_error_tracker_per_source_isolation() {
    let mut tracker = PollErrorTracker::default();
    assert!(tracker.polled_err("FL Studio", "window not found"));
    assert!(!tracker.polled_err("FL Studio", "window not found"));
    assert!(
        tracker.polled_err("Antigravity", "client not running"),
        "one plugin's repeated failure must not suppress another plugin's warning"
    );
    assert!(
        tracker.polled_ok("FL Studio"),
        "recovery is tracked per source"
    );
}

/// A plugin that always fails its poll, like FL Studio or Antigravity
/// when the app is not running. Emits the identical error on
/// every poll.
struct AlwaysFailingPlugin {
    metadata: presencehub::plugin::PluginMetadata,
    error: String,
}

impl AlwaysFailingPlugin {
    fn new(name: &str) -> Self {
        Self::with_error(name, "FL Studio window not found")
    }

    fn with_error(name: &str, error: &str) -> Self {
        Self {
            metadata: presencehub::plugin::PluginMetadata::new(name, "1.0.0"),
            error: error.to_string(),
        }
    }
}

impl presencehub::plugin::Plugin for AlwaysFailingPlugin {
    fn calls(&self) -> presencehub::plugin::PluginCalls {
        unreachable!("the record of calls is a proof-time notion")
    }
    fn plugin_name(&self) -> vstd::seq::Seq<char> {
        unreachable!("the plugin name is a proof-time notion")
    }
    fn metadata(&self) -> &presencehub::plugin::PluginMetadata {
        &self.metadata
    }

    fn init(&mut self) -> Result<(), PluginError> {
        Ok(())
    }

    fn poll(&mut self) -> Result<Option<Activity>, PluginError> {
        Err(PluginError::PollFailed(self.error.clone()))
    }

    fn shutdown(&mut self) -> Result<(), PluginError> {
        Ok(())
    }
}

/// A plugin whose availability cycles over time: unavailable, then
/// available, then unavailable again, staying unavailable thereafter.
/// Used to drive the real polling loop through the full transition
/// sequence without needing a live application.
struct StateCyclingPlugin {
    metadata: presencehub::plugin::PluginMetadata,
    polls: usize,
}

impl StateCyclingPlugin {
    fn new(name: &str) -> Self {
        Self {
            metadata: presencehub::plugin::PluginMetadata::new(name, "1.0.0"),
            polls: 0,
        }
    }
}

impl presencehub::plugin::Plugin for StateCyclingPlugin {
    fn calls(&self) -> presencehub::plugin::PluginCalls {
        unreachable!("the record of calls is a proof-time notion")
    }
    fn plugin_name(&self) -> vstd::seq::Seq<char> {
        unreachable!("the plugin name is a proof-time notion")
    }
    fn metadata(&self) -> &presencehub::plugin::PluginMetadata {
        &self.metadata
    }

    fn init(&mut self) -> Result<(), PluginError> {
        Ok(())
    }

    fn poll(&mut self) -> Result<Option<Activity>, PluginError> {
        // 5 polls per phase. Enough phases run so the loop observes
        // unavailable -> available -> unavailable within the test window.
        let phase = self.polls / 5;
        self.polls += 1;
        match phase {
            0 => Err(PluginError::PollFailed(
                "FL Studio window not found".to_string(),
            )),
            1 => Ok(None),
            _ => Err(PluginError::PollFailed(
                "FL Studio window not found".to_string(),
            )),
        }
    }

    fn shutdown(&mut self) -> Result<(), PluginError> {
        Ok(())
    }
}

// -----------------------------------------------------------------------
// GUI controls: enable/disable and pause
// -----------------------------------------------------------------------

#[test]
fn set_plugin_enabled_rejects_unknown_plugin() {
    let mut runtime = Runtime::new();
    assert!(runtime.set_plugin_enabled("League", true).is_err());
    assert!(runtime.set_plugin_enabled("", false).is_err());
}

#[test]
fn disable_plugin_stops_polling_and_clears_session() {
    let mut runtime = Runtime::new();
    runtime
        .register_plugin(Box::new(MockActivityPlugin::new("FL Studio")));

    // First poll publishes.
    runtime.poll_once(None);
    assert!(runtime.engine().current_activity().is_some());

    // Disable: session ends immediately and future polls skip the plugin.
    assert!(runtime.set_plugin_enabled("FL Studio", false).is_ok());
    assert!(!runtime.is_plugin_enabled("FL Studio"));
    assert!(!runtime.config().plugins.flstudio);
    assert!(runtime.engine().current_activity().is_none());

    runtime.poll_once(None);
    assert!(runtime.engine().current_activity().is_none());

    // Re-enable: the next poll detects the application again.
    assert!(runtime.set_plugin_enabled("FL Studio", true).is_ok());
    assert!(runtime.is_plugin_enabled("FL Studio"));
    assert!(runtime.config().plugins.flstudio);

    runtime.poll_once(None);
    assert!(
        runtime.engine().current_activity().is_some(),
        "re-enabling a plugin must detect and publish its activity on the next poll"
    );
}

#[test]
fn pause_skips_polling_but_preserves_session() {
    let mut runtime = Runtime::new();
    runtime
        .register_plugin(Box::new(MockActivityPlugin::new("A")));

    runtime.poll_once(None);
    assert!(runtime.engine().current_activity().is_some());
    assert!(!runtime.is_paused());

    // Pause: polling stops but the session survives.
    runtime.set_paused(true);
    assert!(runtime.is_paused());
    runtime.poll_once(None);
    assert!(
        runtime.engine().current_activity().is_some(),
        "pause must not end the session"
    );
    assert!(runtime.engine().session_started_at().is_some());

    // Resume republishes the preserved session.
    runtime.set_paused(false);
    assert!(!runtime.is_paused());
    assert!(runtime.engine().current_activity().is_some());
}

#[test]
fn set_paused_is_idempotent() {
    let mut runtime = Runtime::new();
    runtime.set_paused(false);
    assert!(!runtime.is_paused());
    runtime.set_paused(true);
    runtime.set_paused(true);
    assert!(runtime.is_paused());
}

#[test]
fn reconnect_discord_republishes_active_session() {
    let mut runtime = Runtime::new();
    runtime
        .register_plugin(Box::new(MockActivityPlugin::new("FL Studio")));

    runtime.poll_once(None);
    assert!(runtime.engine().current_activity().is_some());

    // Reconnect discord should succeed and republish
    let result = runtime.reconnect_discord();
    assert!(result.is_ok());
    assert!(runtime.engine().current_activity().is_some());
}


fn failing(message: &str) -> Result<Option<Activity>, PluginError> {
    Err(PluginError::PollFailed(message.to_string()))
}

#[test]
fn handle_poll_result_reports_transitions_once() {
    let mut runtime = Runtime::new();
    let mut tracker = PollErrorTracker::default();
    let fl = || "FL Studio".to_string();
    assert_eq!(runtime.handle_poll_result(&mut tracker, fl(), failing("window not found")), PollLog::Failed);
    assert_eq!(runtime.handle_poll_result(&mut tracker, fl(), failing("window not found")), PollLog::Silent);
    assert_eq!(runtime.handle_poll_result(&mut tracker, fl(), Ok(None)), PollLog::Recovered);
    assert_eq!(runtime.handle_poll_result(&mut tracker, fl(), Ok(None)), PollLog::Silent);
    assert_eq!(runtime.handle_poll_result(&mut tracker, fl(), failing("window not found")), PollLog::Failed);
    assert_eq!(
        runtime.handle_poll_result(&mut tracker, "Antigravity".to_string(), failing("client not running")),
        PollLog::Failed
    );
    assert_eq!(runtime.handle_poll_result(&mut tracker, fl(), failing("unexpected exit")), PollLog::Failed);
}

#[test]
fn handle_poll_result_routes_activity_and_ends_session_on_failure() {
    let mut runtime = Runtime::new();
    let mut tracker = PollErrorTracker::default();
    let activity = Activity {
        state: "Editing".to_string(),
        details: None,
        timestamps: None,
        metadata: Metadata::new(),
        application: None,
    };
    runtime.handle_poll_result(&mut tracker, "A".to_string(), Ok(Some(activity)));
    assert_eq!(runtime.engine().displayed_source(), Some("A"));
    assert!(runtime.engine().is_source_active("A"));
    runtime.handle_poll_result(&mut tracker, "A".to_string(), failing("gone"));
    assert!(!runtime.engine().is_source_active("A"));
    assert!(runtime.engine().current_activity().is_none());
}

#[test]
fn set_plugin_enabled_reports_unknown_name() {
    let mut runtime = Runtime::new();
    assert_eq!(runtime.set_plugin_enabled("League", true).unwrap_err(), "Unknown plugin: League");
    assert!(!runtime.is_config_dirty());
    assert!(runtime.set_plugin_enabled("OpenCode", false).is_ok());
    assert!(runtime.is_config_dirty());
    assert!(!runtime.config().plugins.opencode);
    assert!(!runtime.is_plugin_enabled("OpenCode"));
}

#[test]
fn config_saves_are_debounced() {
    let mut runtime = Runtime::new();
    assert!(!runtime.config_save_due(0));
    runtime.set_plugin_enabled("FL Studio", false).unwrap();
    assert!(runtime.config_save_due(10));
    runtime.mark_config_saved(10);
    assert!(!runtime.is_config_dirty());
    runtime.set_plugin_enabled("FL Studio", true).unwrap();
    assert!(!runtime.config_save_due(1000));
    assert!(runtime.config_save_due(2010));
}

#[test]
fn set_poll_interval_clamps_and_reports_persistence() {
    let mut runtime = Runtime::new();
    assert!(!runtime.set_poll_interval_ms(10));
    assert_eq!(runtime.poll_interval_ms(), 250);
    assert_eq!(runtime.config().runtime.poll_interval_ms, 250);
    runtime.set_config_path(Some(std::path::PathBuf::from("presencehub.toml")));
    assert!(runtime.set_poll_interval_ms(750));
    assert_eq!(runtime.poll_interval(), Duration::from_millis(750));
}

#[test]
fn snapshot_lists_builtin_plugins_and_owner() {
    let mut runtime = Runtime::new();
    runtime.register_plugin(Box::new(MockActivityPlugin::new("FL Studio")));
    runtime.set_plugin_enabled("Antigravity", false).unwrap();
    runtime.poll_once(None);
    let state = runtime.snapshot();
    assert!(!state.paused);
    assert_eq!(state.poll_interval_ms, 1000);
    assert_eq!(state.owner.as_deref(), Some("FL Studio"));
    let current = state.current.expect("an activity is displayed");
    assert_eq!(current.source, "FL Studio");
    assert_eq!(current.state, "Editing");
    assert_eq!(current.details.as_deref(), Some("song.flp"));
    let names: Vec<&str> = state.plugins.iter().map(|p| p.name.as_str()).collect();
    assert_eq!(names, vec!["FL Studio", "Antigravity", "OpenCode"]);
    assert!(state.plugins[0].enabled && state.plugins[0].active);
    assert_eq!(state.plugins[0].summary.as_deref(), Some("Editing"));
    assert!(!state.plugins[1].enabled);
    assert!(!state.plugins[2].active);
    assert!(state.pinned_source.is_none());
}

#[test]
fn start_twice_reports_core_error() {
    let mut runtime = Runtime::new();
    assert!(runtime.start(Vec::new(), Vec::new()).is_ok());
    assert_eq!(
        runtime.start(Vec::new(), Vec::new()).unwrap_err(),
        "Core start failed: Core is already running"
    );
    runtime.shutdown();
    assert_eq!(
        runtime.start(Vec::new(), Vec::new()).unwrap_err(),
        "Core start failed: Core has already been stopped"
    );
}

#[test]
fn plugin_toggle_restores_configuration() {
    let mut runtime = Runtime::new();
    let before = runtime.config().plugins;
    runtime.set_plugin_enabled("OpenCode", false).unwrap();
    assert!(!runtime.is_plugin_enabled("OpenCode"));
    assert!(runtime.is_plugin_enabled("FL Studio"));
    runtime.set_plugin_enabled("OpenCode", true).unwrap();
    assert_eq!(runtime.config().plugins, before);
    assert!(runtime.is_plugin_enabled("OpenCode"));
    assert!(runtime.set_plugin_enabled("Nope", false).is_err());
    assert_eq!(runtime.config().plugins, before);
}

#[test]
fn runtime_owns_plugin_host() {
    let runtime = Runtime::new();
    assert_eq!(runtime.host().plugins().len(), 0);

    // The built-in plugins the registry enables, stood in for by mocks of
    // the same names.
    let mut runtime = Runtime::new();
    let plugins: Vec<Box<dyn presencehub::plugin::Plugin>> = PluginRegistry::enabled_sources(runtime.config())
        .iter()
        .map(|name| Box::new(MockActivityPlugin::new(name)) as Box<dyn presencehub::plugin::Plugin>)
        .collect();
    runtime.start(plugins, console_outputs(&Config::default())).unwrap();
    assert_eq!(runtime.host().plugins().len(), 3);
    runtime.shutdown();
}

/// The reports of a sequence of poll results, as the log would show them:
/// "warn" for a new failure, "recovery" for a recovery.
fn reported(runtime: &mut Runtime, results: Vec<(&str, Result<Option<Activity>, PluginError>)>) -> Vec<&'static str> {
    let mut tracker = PollErrorTracker::default();
    let mut events = Vec::new();
    for (source, result) in results {
        match runtime.handle_poll_result(&mut tracker, source.to_string(), result) {
            PollLog::Failed => events.push("warn"),
            PollLog::Recovered => events.push("recovery"),
            PollLog::Silent => {}
        }
    }
    events
}

#[test]
fn runtime_unavailable_plugin_logs_warning_once_per_condition() {
    let mut runtime = Runtime::new();
    let err = || failing("FL Studio window not found");
    let events = reported(
        &mut runtime,
        vec![
            ("FL Studio", err()),
            ("FL Studio", err()),
            ("FL Studio", err()),
            ("FL Studio", Ok(None)),
            ("FL Studio", Ok(None)),
            ("FL Studio", err()),
            ("FL Studio", err()),
        ],
    );
    assert_eq!(events.iter().filter(|e| **e == "warn").count(), 2, "one warning per unavailable transition");
    assert_eq!(events.iter().filter(|e| **e == "recovery").count(), 1, "recovery reported exactly once");
}

#[test]
fn runtime_unrelated_plugin_failure_not_suppressed() {
    let mut runtime = Runtime::new();
    let fl_err = || failing("FL Studio window not found");
    let antigravity_err = || failing("Antigravity client not running");
    let events = reported(
        &mut runtime,
        vec![
            ("FL Studio", fl_err()),
            ("FL Studio", fl_err()),
            ("Antigravity", antigravity_err()),
            ("FL Studio", fl_err()),
        ],
    );
    assert_eq!(events.iter().filter(|e| **e == "warn").count(), 2);
}

#[test]
fn runtime_antigravity_repeated_failure_logs_exactly_one_warning() {
    let mut runtime = Runtime::new();
    let results = (0..20).map(|_| ("Antigravity", failing("Antigravity client not running"))).collect();
    let events = reported(&mut runtime, results);
    assert_eq!(events.iter().filter(|e| **e == "warn").count(), 1);
    assert_eq!(events.iter().filter(|e| **e == "recovery").count(), 0);
}

#[test]
fn runtime_antigravity_recovery_sequence() {
    let mut runtime = Runtime::new();
    let err = || failing("Antigravity client not running");
    let events = reported(
        &mut runtime,
        vec![
            ("Antigravity", err()),
            ("Antigravity", err()),
            ("Antigravity", err()),
            ("Antigravity", Ok(None)),
            ("Antigravity", Ok(None)),
            ("Antigravity", err()),
            ("Antigravity", err()),
        ],
    );
    assert_eq!(events, vec!["warn", "recovery", "warn"], "transition order must be warn, recovery, warn");
}

#[test]
fn runtime_antigravity_fl_plugin_isolation() {
    let mut runtime = Runtime::new();
    let fl_err = || failing("FL Studio window not found");
    let antigravity_err = || failing("Antigravity client not running");
    let events = reported(
        &mut runtime,
        vec![
            ("FL Studio", fl_err()),
            ("Antigravity", antigravity_err()),
            ("FL Studio", fl_err()),
            ("Antigravity", antigravity_err()),
        ],
    );
    assert_eq!(events.iter().filter(|e| **e == "warn").count(), 2, "each plugin's first failure reported independently");
}

#[test]
fn enabling_an_unregistered_plugin_registers_it() {
    let mut runtime = Runtime::new();
    assert_eq!(runtime.host().len(), 0);
    runtime
        .set_plugin_enabled_with("FL Studio", true, Box::new(MockActivityPlugin::new("FL Studio")))
        .unwrap();
    assert_eq!(runtime.host().len(), 1);
    assert!(runtime.host().has_plugin("FL Studio"));
    // Already registered: a second instance is not added.
    runtime
        .set_plugin_enabled_with("FL Studio", true, Box::new(MockActivityPlugin::new("FL Studio")))
        .unwrap();
    assert_eq!(runtime.host().len(), 1);
    // Disabling never registers.
    runtime
        .set_plugin_enabled_with("OpenCode", false, Box::new(MockActivityPlugin::new("OpenCode")))
        .unwrap();
    assert_eq!(runtime.host().len(), 1);
    // Unknown names are refused before anything is registered.
    assert_eq!(
        runtime
            .set_plugin_enabled_with("League", true, Box::new(MockActivityPlugin::new("League")))
            .unwrap_err(),
        "Unknown plugin: League"
    );
    assert_eq!(runtime.host().len(), 1);
}

#[test]
fn republish_runs_only_without_a_live_connection() {
    struct CountingOutput {
        publishes: Arc<AtomicUsize>,
    }
    impl Output for CountingOutput {
        fn connection_state(&self) -> Option<bool> {
            None
        }
        fn received(&self) -> vstd::seq::Seq<OutputCall> {
            unreachable!("the record of calls is a proof-time notion")
        }
        fn clear(&mut self) {}
        fn publish(&mut self, _source: &str, _activity: &Activity) -> Result<(), OutputError> {
            self.publishes.fetch_add(1, Ordering::SeqCst);
            Ok(())
        }
    }

    let publishes = Arc::new(AtomicUsize::new(0));
    let mut runtime = Runtime::new();
    runtime
        .start(
            vec![Box::new(MockActivityPlugin::new("FL Studio"))],
            vec![Box::new(CountingOutput { publishes: publishes.clone() })],
        )
        .unwrap();
    runtime.poll_once(None);
    assert!(runtime.engine().current_activity().is_some());
    let after_poll = publishes.load(Ordering::SeqCst);
    // The output reports no connection, so the poll ended by republishing.
    assert_eq!(after_poll, 2);

    runtime.republish_unless_connected(true);
    assert_eq!(publishes.load(Ordering::SeqCst), after_poll);
    runtime.republish_unless_connected(false);
    assert_eq!(publishes.load(Ordering::SeqCst), after_poll + 1);
}
