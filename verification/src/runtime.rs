//! The application runtime: it owns the core, the plugin host and the
//! presence engine, and coordinates plugin → activity → engine → outputs.
//!
//! Work that needs the operating system (reading the foreground window,
//! writing the configuration file, sleeping between polls) is done by the
//! caller, which hands the results in.

use std::path::PathBuf;
use std::sync::atomic::AtomicBool;
use std::sync::Arc;
use std::time::Duration;
use vstd::prelude::*;
use crate::protocol::strings_view;
use crate::activity::{opt_view, Activity};
use crate::config::{
    clamp_poll_interval, same_config, spec_clamp_poll_interval, Config, PluginConfig, RuntimeConfig,
};
use crate::clock::{duration_subsec_nanos, duration_whole_secs};
use crate::flag::RunFlag;
use crate::engine_laws::{dispatch_matches, law_end_session_ends, law_end_session_isolated, law_report_dispatches_owner, law_report_isolated};
use crate::foreground::{window_matches_identity, ForegroundWindow};
use crate::lifecycle::{core_error_text, phase_after, start_outcome, stop_outcome, Core, CoreState};
use crate::output::{engine_inv, reports_connected,
    calls_follow, is_active, lemma_calls_unchanged, lemma_sent_none, lemma_sent_one, sent_since, session_of,
    spec_end_session, spec_report, Dispatch, EngineView, Output, OutputCall, PresenceEngine,
};
use crate::plugin::{declares_window, one_more_call, PluginCalls, enabled_names, plugin_error_text, result_names, HostView, Plugin, PluginError, PluginHost, WindowIdentity};
use crate::strmap::StringMap;
use crate::text::{join_str, str_eq};

verus! {

/// A filesystem path, carried through unchanged.
#[verifier::external_type_specification]
#[verifier::external_body]
pub struct ExPathBuf(PathBuf);

/// Whether `d` is the duration of `ms` milliseconds: its whole seconds and
/// the nanoseconds past them.
pub open spec fn is_millis_duration(d: Duration, ms: u64) -> bool {
    &&& duration_whole_secs(d) == ms / 1000
    &&& duration_subsec_nanos(d) == (ms % 1000) * 1_000_000
}

/// Builds a duration from milliseconds (`Duration::from_millis`): `ms /
/// 1000` whole seconds and `(ms % 1000) * 1_000_000` nanoseconds past them.
#[verifier::external_body]
fn duration_from_millis(ms: u64) -> (r: Duration)
    ensures
        is_millis_duration(r, ms),
{
    Duration::from_millis(ms)
}

/// Whether `owner` is the source the window belongs to: the name of the
/// first registered plugin whose declared identity the window matches, or
/// none when no plugin's does.
pub open spec fn window_owner_is(w: ForegroundWindow, host: HostView, owner: Option<Seq<char>>) -> bool {
    match owner {
        Some(n) => exists|i: int|
            #![trigger declares_window(w, host.identities, i)]
            0 <= i < host.names.len() && host.names[i] == n && declares_window(w, host.identities, i) && forall|j: int|
                0 <= j < i ==> !declares_window(w, host.identities, j),
        None => forall|i: int|
            0 <= i < host.names.len() ==> !#[trigger] declares_window(w, host.identities, i),
    }
}

/// The owner of a window is determined by the host: at most one source is
/// the window's owner, the first registered plugin that declares a
/// matching identity, so the foreground source a poll hands to the engine
/// is fixed by the window and the registered plugins.
pub proof fn law_window_owner_unique(w: ForegroundWindow, host: HostView, a: Option<Seq<char>>, b: Option<Seq<char>>)
    requires
        window_owner_is(w, host, a),
        window_owner_is(w, host, b),
    ensures
        a == b,
{
    if a is Some {
        let i = choose|i: int|
            #![trigger declares_window(w, host.identities, i)]
            0 <= i < host.names.len() && host.names[i] == a->0 && declares_window(w, host.identities, i)
                && forall|j: int| 0 <= j < i ==> !declares_window(w, host.identities, j);
        if b is Some {
            let k = choose|k: int|
                #![trigger declares_window(w, host.identities, k)]
                0 <= k < host.names.len() && host.names[k] == b->0 && declares_window(w, host.identities, k)
                    && forall|j: int| 0 <= j < k ==> !declares_window(w, host.identities, j);
            assert(i == k) by {
                if i < k {
                    assert(!declares_window(w, host.identities, i));
                }
                if k < i {
                    assert(!declares_window(w, host.identities, k));
                }
            }
        } else {
            assert(!declares_window(w, host.identities, i));
        }
    } else if b is Some {
        let k = choose|k: int|
            #![trigger declares_window(w, host.identities, k)]
            0 <= k < host.names.len() && host.names[k] == b->0 && declares_window(w, host.identities, k)
                && forall|j: int| 0 <= j < k ==> !declares_window(w, host.identities, j);
        assert(!declares_window(w, host.identities, k));
    }
}

/// What one `set_paused(paused)` call does to the engine and to the
/// outputs' records, on a runtime that was paused (`was`) or not: setting
/// the current value changes nothing; pausing clears every output; resuming
/// publishes the displayed source's activity again, keeping its session
/// start.
pub open spec fn pause_step(
    was: bool,
    paused: bool,
    e0: EngineView,
    c0: Seq<Seq<OutputCall>>,
    e1: EngineView,
    c1: Seq<Seq<OutputCall>>,
) -> bool {
    &&& was == paused ==> e1 == e0
    &&& was != paused && paused ==> e1 == (EngineView { dispatched: e0.dispatched.push(Dispatch::Clear), ..e0 })
    &&& was != paused && !paused ==> match e0.displayed {
        Some(d) => {
            &&& session_of(e1.sessions, d) is Some
            &&& e1 == spec_report(
                e0,
                d,
                session_of(e0.sessions, d)->0.current->0,
                session_of(e1.sessions, d)->0.started->0,
                false,
            )
            &&& (session_of(e0.sessions, d)->0.started is Some ==> session_of(e1.sessions, d)->0.started
                == session_of(e0.sessions, d)->0.started)
        },
        None => e1 == e0,
    }
    &&& calls_follow(c0, c1, sent_since(e0, e1))
}

/// Pausing, pausing again and resuming: the pause clears every output
/// once, the repeated pause changes nothing, and the resume gives every
/// output exactly one call when something is displayed (none otherwise),
/// showing what is displayed afterwards.
pub proof fn law_pause_pause_resume(
    e0: EngineView,
    c0: Seq<Seq<OutputCall>>,
    e1: EngineView,
    c1: Seq<Seq<OutputCall>>,
    e2: EngineView,
    c2: Seq<Seq<OutputCall>>,
    e3: EngineView,
    c3: Seq<Seq<OutputCall>>,
)
    requires
        engine_inv(e0),
        pause_step(false, true, e0, c0, e1, c1),
        pause_step(true, true, e1, c1, e2, c2),
        pause_step(true, false, e2, c2, e3, c3),
    ensures
        calls_follow(c0, c1, seq![Dispatch::Clear]),
        e2 == e1,
        c2 == c1,
        calls_follow(c2, c3, sent_since(e2, e3)),
        e0.displayed is None ==> e3 == e2 && c3 == c2,
        e0.displayed is Some ==> sent_since(e2, e3).len() == 1 && dispatch_matches(e3, sent_since(e2, e3)[0]),
{
    assert(sent_since(e0, e1) =~= seq![Dispatch::Clear]);
    assert(c2 =~= c1) by {
        lemma_sent_none(e1, e2);
        assert forall|i: int| 0 <= i < c1.len() implies #[trigger] c2[i] == c1[i] by {
            assert(c2[i].take(c1[i].len() as int) == c1[i]);
            assert(c2[i] =~= c2[i].take(c1[i].len() as int));
        }
    }
    if e0.displayed is Some {
        let d = e0.displayed->0;
        assert(engine_inv(e2));
        let t = session_of(e3.sessions, d)->0.started->0;
        law_report_dispatches_owner(e2, d, session_of(e2.sessions, d)->0.current->0, t, false);
        assert(e3.dispatched.len() == e2.dispatched.len() + 1);
        assert(sent_since(e2, e3) =~= seq![e3.dispatched.last()]);
    } else {
        assert(c3 =~= c2) by {
            lemma_sent_none(e2, e3);
            assert forall|i: int| 0 <= i < c2.len() implies #[trigger] c3[i] == c2[i] by {
                assert(c3[i].take(c2[i].len() as int) == c2[i]);
                assert(c3[i] =~= c3[i].take(c2[i].len() as int));
            }
        }
    }
}

// ---------------------------------------------------------------------------
// Poll error tracking
// ---------------------------------------------------------------------------

/// The last poll error per source, so failures are reported on state
/// transitions rather than on every poll. A source without an entry was
/// last seen healthy.
#[derive(Debug)]
pub struct PollErrorTracker {
    last_errors: StringMap<String>,
}

impl View for PollErrorTracker {
    type V = Map<Seq<char>, Seq<char>>;

    closed spec fn view(&self) -> Map<Seq<char>, Seq<char>> {
        self.last_errors@
    }
}

/// Whether a healthy poll of `source` is a recovery: its previous poll
/// failed.
pub open spec fn is_recovery(errors: Map<Seq<char>, Seq<char>>, source: Seq<char>) -> bool {
    errors.dom().contains(source)
}

/// Whether a failed poll of `source` with `message` is worth reporting:
/// the source was healthy, or it failed before with another message.
pub open spec fn failure_is_new(
    errors: Map<Seq<char>, Seq<char>>,
    source: Seq<char>,
    message: Seq<char>,
) -> bool {
    !(errors.dom().contains(source) && errors[source] == message)
}

impl PollErrorTracker {
    /// A tracker that has seen every source healthy.
    pub fn new() -> (r: Self)
        ensures
            r@ == Map::<Seq<char>, Seq<char>>::empty(),
    {
        PollErrorTracker { last_errors: StringMap::new() }
    }

    /// Records a healthy poll of `source`; returns whether this is a
    /// recovery (the previous poll of the source had failed).
    pub fn polled_ok(&mut self, source: &str) -> (r: bool)
        ensures
            r == is_recovery(old(self)@, source@),
            final(self)@ == old(self)@.remove(source@),
    {
        self.last_errors.remove(source).is_some()
    }

    /// Records a failed poll of `source` with `message`; returns whether
    /// the failure is new (the source was healthy or its message changed).
    pub fn polled_err(&mut self, source: &str, message: &str) -> (r: bool)
        ensures
            r == failure_is_new(old(self)@, source@, message@),
            final(self)@ == old(self)@.insert(source@, message@),
    {
        let unchanged = match self.last_errors.get(source) {
            Some(previous) => str_eq(previous.as_str(), message),
            None => false,
        };
        if unchanged {
            assert(self@ =~= old(self)@.insert(source@, message@));
            false
        } else {
            self.last_errors.insert(source.to_owned(), message.to_owned());
            true
        }
    }

    /// A tracker with the same entries.
    pub fn duplicate(&self) -> (r: Self)
        ensures
            r@ == self@,
    {
        PollErrorTracker { last_errors: self.last_errors.duplicate() }
    }
}

impl Default for PollErrorTracker {
    fn default() -> (r: Self)
        ensures
            r@ == Map::<Seq<char>, Seq<char>>::empty(),
    {
        PollErrorTracker::new()
    }
}

impl Clone for PollErrorTracker {
    fn clone(&self) -> (r: Self)
        ensures
            r@ == self@,
    {
        self.duplicate()
    }
}

/// A failure repeated with the same message is reported once: after a
/// failed poll is recorded, the same failure again is not new.
pub proof fn law_repeated_failure_silent(
    errors: Map<Seq<char>, Seq<char>>,
    source: Seq<char>,
    message: Seq<char>,
)
    ensures
        !failure_is_new(errors.insert(source, message), source, message),
{
}

/// A recovery is reported once: after a healthy poll is recorded, the next
/// healthy poll is no recovery, and a failure after it is new.
pub proof fn law_recovery_reported_once(
    errors: Map<Seq<char>, Seq<char>>,
    source: Seq<char>,
    message: Seq<char>,
)
    ensures
        !is_recovery(errors.remove(source), source),
        failure_is_new(errors.remove(source), source, message),
{
}

/// A failure with a changed message is reported, and the healthy poll
/// that follows any recorded failure is a recovery.
pub proof fn law_changed_failure_reported(
    errors: Map<Seq<char>, Seq<char>>,
    source: Seq<char>,
    first: Seq<char>,
    second: Seq<char>,
)
    ensures
        first != second ==> failure_is_new(errors.insert(source, first), source, second),
        is_recovery(errors.insert(source, first), source),
{
}

/// Recording a poll of one source leaves what is known of every other
/// source unchanged.
pub proof fn law_tracker_sources_isolated(
    errors: Map<Seq<char>, Seq<char>>,
    source: Seq<char>,
    message: Seq<char>,
    other: Seq<char>,
)
    requires
        other != source,
    ensures
        is_recovery(errors.insert(source, message), other) == is_recovery(errors, other),
        is_recovery(errors.remove(source), other) == is_recovery(errors, other),
        forall|m: Seq<char>|
            failure_is_new(errors.insert(source, message), other, m) == failure_is_new(errors, other, m),
        forall|m: Seq<char>|
            failure_is_new(errors.remove(source), other, m) == failure_is_new(errors, other, m),
{
}

/// What one handled poll result is worth reporting.
#[derive(Debug, Clone, Copy, PartialEq, Eq, Structural)]
pub enum PollLog {
    /// Nothing new: a healthy source stayed healthy, or an unchanged
    /// failure persists.
    Silent,
    /// A previously failing source polled healthy again.
    Recovered,
    /// A source failed for the first time, or with a new message.
    Failed,
}

// ---------------------------------------------------------------------------
// Live state
// ---------------------------------------------------------------------------

/// One plugin row of the live state.
#[derive(Debug, Clone)]
pub struct PluginView {
    /// Engine source name, e.g. `"FL Studio"`.
    pub name: String,
    /// Whether the plugin is enabled in the configuration and not disabled
    /// at runtime.
    pub enabled: bool,
    /// Whether the plugin has an active session.
    pub active: bool,
    /// The state line of its activity, if active.
    pub summary: Option<String>,
}

/// The activity currently displayed.
#[derive(Debug, Clone)]
pub struct PresenceView {
    /// Engine source owning the display.
    pub source: String,
    /// Primary line.
    pub state: String,
    /// Secondary line.
    pub details: Option<String>,
}

/// Everything a user interface needs for one render pass.
#[derive(Debug, Clone)]
pub struct LiveState {
    /// Global pause flag.
    pub paused: bool,
    /// Current polling interval in milliseconds.
    pub poll_interval_ms: u64,
    /// Whether any output reports a live connection.
    pub discord_connected: bool,
    /// Source owning the display, if any.
    pub owner: Option<String>,
    /// Displayed activity, if any.
    pub current: Option<PresenceView>,
    /// Manually pinned source; the runtime pins none.
    pub pinned_source: Option<String>,
    /// One row per built-in plugin, in display order.
    pub plugins: Vec<PluginView>,
}

// ---------------------------------------------------------------------------
// Runtime
// ---------------------------------------------------------------------------

/// The configuration flag of built-in plugin `name`, if it is one.
pub open spec fn plugin_flag(p: PluginConfig, name: Seq<char>) -> Option<bool> {
    if name == "FL Studio"@ {
        Some(p.flstudio)
    } else if name == "Antigravity"@ {
        Some(p.antigravity)
    } else if name == "OpenCode"@ {
        Some(p.opencode)
    } else {
        None
    }
}

/// The plugin settings with built-in plugin `name` set to `enabled`.
pub open spec fn with_plugin_flag(p: PluginConfig, name: Seq<char>, enabled: bool) -> PluginConfig {
    if name == "FL Studio"@ {
        PluginConfig { flstudio: enabled, ..p }
    } else if name == "Antigravity"@ {
        PluginConfig { antigravity: enabled, ..p }
    } else if name == "OpenCode"@ {
        PluginConfig { opencode: enabled, ..p }
    } else {
        p
    }
}

/// A disabled set toggled for one source.
pub open spec fn toggle(d: Set<Seq<char>>, name: Seq<char>, disabled: bool) -> Set<Seq<char>> {
    if disabled {
        d.insert(name)
    } else {
        d.remove(name)
    }
}

/// The disabled set after applying the configuration's plugin flags.
pub open spec fn apply_plugin_flags(d: Set<Seq<char>>, p: PluginConfig) -> Set<Seq<char>> {
    toggle(
        toggle(toggle(d, "FL Studio"@, !p.flstudio), "Antigravity"@, !p.antigravity),
        "OpenCode"@,
        !p.opencode,
    )
}

/// The delay after a configuration write before the next one, in
/// milliseconds.
pub const CONFIG_SAVE_DEBOUNCE_MS: u64 = 2000;

/// Whether a configuration write is due at `now_ms`: there are unsaved
/// changes and no write happened within the debounce interval.
pub open spec fn save_due(dirty: bool, last_save_ms: Option<u64>, now_ms: u64) -> bool {
    dirty && match last_save_ms {
        Some(at) => now_ms >= at && now_ms - at >= CONFIG_SAVE_DEBOUNCE_MS,
        None => true,
    }
}

/// Turning a built-in plugin off and back to its configured value gives
/// back the configuration it started from; a source disabled and enabled
/// again is enabled, whatever else was disabled stays so.
pub proof fn law_plugin_toggle_restores(
    p: PluginConfig,
    d: Set<Seq<char>>,
    name: Seq<char>,
    enabled: bool,
    other: Seq<char>,
)
    requires
        plugin_flag(p, name) == Some(enabled),
        other != name,
    ensures
        with_plugin_flag(with_plugin_flag(p, name, !enabled), name, enabled) == p,
        !toggle(toggle(d, name, true), name, false).contains(name),
        toggle(toggle(d, name, true), name, false).contains(other) == d.contains(other),
{
}

/// A setting that is not a built-in plugin's is refused by name and
/// changes no flag.
pub proof fn law_unknown_plugin_flag(p: PluginConfig, name: Seq<char>, enabled: bool)
    requires
        plugin_flag(p, name) is None,
    ensures
        with_plugin_flag(p, name, enabled) == p,
{
}

/// Configuration writes are debounced: nothing is due without unsaved
/// changes, nor within the debounce interval after the last write; once
/// the interval has passed, unsaved changes are due.
pub proof fn law_config_save_debounce(last: Option<u64>, at: u64, now: u64)
    ensures
        !save_due(false, last, now),
        at <= now < at + CONFIG_SAVE_DEBOUNCE_MS ==> !save_due(true, Some(at), now),
        at + CONFIG_SAVE_DEBOUNCE_MS <= now ==> save_due(true, Some(at), now),
        save_due(true, None, now),
{
}

/// The application runtime: core, plugin host and presence engine, with
/// the pause flag, the poll cadence and the configuration's persistence
/// state.
pub struct Runtime {
    core: Core,
    host: PluginHost,
    engine: PresenceEngine,
    running: RunFlag,
    poll_interval_ms: u64,
    config: Config,
    paused: bool,
    config_path: Option<PathBuf>,
    config_dirty: bool,
    last_save_ms: Option<u64>,
    poll_errors: PollErrorTracker,
}

impl Runtime {
    /// The runtime's invariant: host and engine are well formed and the
    /// poll interval is the configured one, at least the minimum.
    pub closed spec fn wf(&self) -> bool {
        &&& self.host.wf()
        &&& self.engine.wf()
        &&& self.config.runtime.poll_interval_ms == self.poll_interval_ms
        &&& self.poll_interval_ms >= RuntimeConfig::MIN_POLL_INTERVAL_MS
    }

    /// The configuration in effect.
    pub closed spec fn spec_config(&self) -> Config {
        self.config
    }

    /// The core's lifecycle phase.
    pub closed spec fn spec_phase(&self) -> CoreState {
        self.core.phase()
    }

    /// The configuration the core owns.
    pub closed spec fn spec_core_config(&self) -> Config {
        self.core.spec_config()
    }

    /// What the host knows of its plugins.
    pub closed spec fn spec_host(&self) -> HostView {
        self.host@
    }

    /// The engine's state.
    pub closed spec fn spec_engine(&self) -> EngineView {
        self.engine@
    }

    /// Whether the runtime is paused.
    pub closed spec fn spec_paused(&self) -> bool {
        self.paused
    }

    /// Whether the configuration has unsaved changes.
    pub closed spec fn spec_dirty(&self) -> bool {
        self.config_dirty
    }

    /// When the configuration was last written, in the caller's monotonic
    /// milliseconds.
    pub closed spec fn spec_last_save(&self) -> Option<u64> {
        self.last_save_ms
    }

    /// The last poll error per source.
    pub closed spec fn spec_poll_errors(&self) -> Map<Seq<char>, Seq<char>> {
        self.poll_errors@
    }

    /// The polling interval in milliseconds.
    pub closed spec fn spec_poll_interval_ms(&self) -> u64 {
        self.poll_interval_ms
    }

    /// Whether a configuration path is known.
    pub closed spec fn spec_has_path(&self) -> bool {
        self.config_path is Some
    }

    /// The lifecycle calls each registered plugin has received.
    pub closed spec fn spec_plugin_calls(&self) -> Seq<PluginCalls> {
        self.host.plugin_calls()
    }

    /// The calls each registered output has received.
    pub closed spec fn spec_output_calls(&self) -> Seq<Seq<OutputCall>> {
        self.engine.calls()
    }

    /// The connection state each output reports, in registration order.
    pub closed spec fn spec_output_connections(&self) -> Seq<Option<bool>> {
        self.engine.connections()
    }

    /// The shared flag the polling loop runs on.
    pub closed spec fn spec_run_flag(&self) -> Arc<AtomicBool> {
        self.running.spec_shared()
    }

    /// Whether this runtime last marked itself running (set by `start`,
    /// cleared by `stop` and `shutdown`); another handle on the flag may
    /// have changed it since.
    pub closed spec fn spec_marked_running(&self) -> bool {
        self.running.spec_written()
    }

    /// A runtime for `config`, whose poll interval is raised to the
    /// minimum. Nothing is started: no plugin or output is registered.
    pub fn with_config(config: Config) -> (r: Self)
        ensures
            r.wf(),
            r.spec_config() == (Config {
                runtime: RuntimeConfig {
                    poll_interval_ms: spec_clamp_poll_interval(config.runtime.poll_interval_ms),
                },
                ..config
            }),
            r.spec_phase() == CoreState::Uninitialized,
            same_config(r.spec_core_config(), r.spec_config()),
            r.spec_host().names.len() == 0,
            r.spec_host().disabled.is_empty(),
            r.spec_engine() == PresenceEngine::new_view(),
            !r.spec_paused(),
            !r.spec_dirty(),
            r.spec_last_save() is None,
            !r.spec_has_path(),
            r.spec_poll_errors() == Map::<Seq<char>, Seq<char>>::empty(),
            r.spec_poll_interval_ms() == spec_clamp_poll_interval(config.runtime.poll_interval_ms),
            !r.spec_marked_running(),
    {
        let mut config = config;
        config.runtime.poll_interval_ms = clamp_poll_interval(config.runtime.poll_interval_ms);
        let interval = config.runtime.poll_interval_ms;
        let core_config = config.duplicate();
        Runtime {
            core: Core::with_config(core_config),
            host: PluginHost::new(),
            engine: PresenceEngine::new(),
            running: RunFlag::new(),
            poll_interval_ms: interval,
            config,
            paused: false,
            config_path: None,
            config_dirty: false,
            last_save_ms: None,
            poll_errors: PollErrorTracker::new(),
        }
    }

    /// A runtime for the default configuration.
    pub fn new() -> (r: Self)
        ensures
            r.wf(),
            r.spec_config().is_default(),
            r.spec_phase() == CoreState::Uninitialized,
            r.spec_host().names.len() == 0,
            r.spec_engine() == PresenceEngine::new_view(),
            !r.spec_paused(),
            !r.spec_dirty(),
            r.spec_poll_interval_ms() == 1000,
            !r.spec_marked_running(),
    {
        Runtime::with_config(Config::default())
    }

    /// A handle on the running flag, for stopping the loop from another
    /// thread.
    pub fn stop_signal(&self) -> (r: Arc<AtomicBool>)
        ensures
            r == self.spec_run_flag(),
    {
        self.running.handle()
    }

    /// Asks the polling loop to exit.
    pub fn stop(&mut self)
        ensures
            !final(self).spec_marked_running(),
            final(self).spec_run_flag() == old(self).spec_run_flag(),
            final(self).wf() == old(self).wf(),
            final(self).spec_engine() == old(self).spec_engine(),
            final(self).spec_host() == old(self).spec_host(),
            final(self).spec_config() == old(self).spec_config(),
            final(self).spec_phase() == old(self).spec_phase(),
    {
        self.running.set(false);
    }

    /// Whether the runtime is running: the shared flag's value, which is
    /// [`Runtime::spec_marked_running`] unless another handle changed it.
    pub fn is_running(&self) -> bool {
        self.running.get()
    }

    /// The configuration in effect.
    pub fn config(&self) -> (r: &Config)
        ensures
            *r == self.spec_config(),
    {
        &self.config
    }

    /// The core.
    pub fn runtime_core(&self) -> (r: &Core)
        ensures
            r.phase() == self.spec_phase(),
            r.spec_config() == self.spec_core_config(),
    {
        &self.core
    }

    /// The plugin host.
    pub fn host(&self) -> (r: &PluginHost)
        requires
            self.wf(),
        ensures
            r.wf(),
            r@ == self.spec_host(),
    {
        &self.host
    }

    /// The presence engine.
    pub fn engine(&self) -> (r: &PresenceEngine)
        requires
            self.wf(),
        ensures
            r.wf(),
            r@ == self.spec_engine(),
    {
        &self.engine
    }

    /// Starts the runtime with the plugins and outputs built for its
    /// configuration: starts the core, registers and initializes the
    /// plugins (a plugin that fails to initialize stays registered),
    /// disables the built-in sources the configuration turns off, registers
    /// the outputs, and applies the presence policies.
    ///
    /// When the core cannot start, nothing else changes and the error says
    /// why.
    pub fn start(&mut self, plugins: Vec<Box<dyn Plugin>>, outputs: Vec<Box<dyn Output>>) -> (r: Result<(), String>)
        requires
            old(self).wf(),
        ensures
            final(self).wf(),
            final(self).spec_config() == old(self).spec_config(),
            final(self).spec_phase() == phase_after(old(self).spec_phase(), start_outcome(old(self).spec_phase())),
            match start_outcome(old(self).spec_phase()) {
                Err(e) => {
                    &&& r matches Err(m) && m@ == "Core start failed: "@ + core_error_text(e)
                    &&& final(self).spec_host() == old(self).spec_host()
                    &&& final(self).spec_engine() == old(self).spec_engine()
                },
                Ok(_) => {
                    &&& r is Ok
                    &&& final(self).spec_host().names.len() == old(self).spec_host().names.len() + plugins@.len()
                    &&& final(self).spec_host().names.take(old(self).spec_host().names.len() as int)
                        == old(self).spec_host().names
                    &&& final(self).spec_host().disabled == apply_plugin_flags(
                        old(self).spec_host().disabled,
                        old(self).spec_config().plugins,
                    )
                    &&& final(self).spec_engine().outputs == old(self).spec_engine().outputs + outputs@.len()
                    &&& final(self).spec_plugin_calls().len() == final(self).spec_host().names.len()
                    &&& forall|j: int|
                        0 <= j < final(self).spec_plugin_calls().len() ==> (#[trigger] final(self).spec_plugin_calls()[j]).len() > 0
                            && final(self).spec_plugin_calls()[j].last() is Init
                    &&& final(self).spec_engine().policy == old(self).spec_config().presence.ownership
                    &&& final(self).spec_engine().unsupported
                        == old(self).spec_config().presence.unsupported_foreground
                },
            },
            final(self).spec_paused() == old(self).spec_paused(),
            final(self).spec_dirty() == old(self).spec_dirty(),
            final(self).spec_poll_errors() == old(self).spec_poll_errors(),
            r is Ok ==> final(self).spec_marked_running(),
            r is Err ==> final(self).spec_marked_running() == old(self).spec_marked_running(),
    {
        match self.core.start() {
            Ok(()) => {},
            Err(e) => {
                let m = e.message();
                return Err(join_str("Core start failed: ", m.as_str()));
            },
        }
        let ghost names0 = self.host@.names;
        let n = plugins.len();
        let mut plugins = plugins;
        let mut i: usize = 0;
        while i < n
            invariant
                self.wf(),
                i <= n,
                plugins@.len() == n - i,
                self.host@.names.len() == names0.len() + i,
                self.host@.names.take(names0.len() as int) == names0,
                self.host@.disabled == old(self).host@.disabled,
                self.engine@ == old(self).engine@,
                self.config == old(self).config,
                self.core.phase() == CoreState::Running,
                self.core.spec_config() == old(self).core.spec_config(),
                self.paused == old(self).paused,
                self.config_dirty == old(self).config_dirty,
                self.poll_errors@ == old(self).poll_errors@,
            decreases n - i,
        {
            let p = plugins.remove(0);
            let ghost before = self.host@.names;
            self.host.register(p);
            assert(self.host@.names.take(names0.len() as int) =~= before.take(names0.len() as int));
            i = i + 1;
        }
        let _ = self.host.init_all();
        proof { self.host.lemma_calls_len(); }
        self.host.set_source_disabled("FL Studio", !self.config.plugins.flstudio);
        self.host.set_source_disabled("Antigravity", !self.config.plugins.antigravity);
        self.host.set_source_disabled("OpenCode", !self.config.plugins.opencode);
        let ghost host_after = self.host@;
        let ghost calls_after = self.host.plugin_calls();
        let m = outputs.len();
        let mut outputs = outputs;
        let mut j: usize = 0;
        while j < m
            invariant
                self.wf(),
                self.host@ == host_after,
                self.host.plugin_calls() == calls_after,
                self.config == old(self).config,
                self.core.phase() == CoreState::Running,
                self.core.spec_config() == old(self).core.spec_config(),
                self.paused == old(self).paused,
                self.config_dirty == old(self).config_dirty,
                self.poll_errors@ == old(self).poll_errors@,
                j <= m,
                outputs@.len() == m - j,
                self.engine@.outputs == old(self).engine@.outputs + j,
            decreases m - j,
        {
            let o = outputs.remove(0);
            self.engine.register_output(o);
            j = j + 1;
        }
        self.engine.set_policy(self.config.presence.ownership);
        self.engine.set_unsupported_foreground(self.config.presence.unsupported_foreground);
        self.running.set(true);
        Ok(())
    }

    /// Registers one more plugin and initializes it; a failed
    /// initialization leaves it registered.
    pub fn register_plugin(&mut self, plugin: Box<dyn Plugin>)
        requires
            old(self).wf(),
        ensures
            final(self).wf(),
            final(self).spec_host().names.len() == old(self).spec_host().names.len() + 1,
            final(self).spec_host().names.drop_last() == old(self).spec_host().names,
            final(self).spec_host().disabled == old(self).spec_host().disabled,
            final(self).spec_engine() == old(self).spec_engine(),
            final(self).spec_config() == old(self).spec_config(),
            final(self).spec_paused() == old(self).spec_paused(),
            final(self).spec_phase() == old(self).spec_phase(),
            final(self).spec_dirty() == old(self).spec_dirty(),
            final(self).spec_poll_errors() == old(self).spec_poll_errors(),
            final(self).spec_marked_running() == old(self).spec_marked_running(),
    {
        self.host.register(plugin);
        let last = self.host.len() - 1;
        let _ = self.host.init_at(last);
    }

    /// Handles one plugin's poll result.
    ///
    /// An activity goes to the engine (as `update`) and marks the source
    /// healthy; no activity only marks it healthy; a failure records the
    /// error and ends the source's session. The result says what is worth
    /// reporting: a recovery, a new failure, or nothing.
    pub fn handle_poll_result(
        &mut self,
        poll_errors: &mut PollErrorTracker,
        source: String,
        result: Result<Option<Activity>, PluginError>,
    ) -> (r: PollLog)
        requires
            old(self).wf(),
        ensures
            final(self).wf(),
            final(self).spec_host() == old(self).spec_host(),
            final(self).spec_config() == old(self).spec_config(),
            final(self).spec_paused() == old(self).spec_paused(),
            final(self).spec_poll_errors() == old(self).spec_poll_errors(),
            final(self).spec_phase() == old(self).spec_phase(),
            final(self).spec_core_config() == old(self).spec_core_config(),
            final(self).spec_dirty() == old(self).spec_dirty(),
            match result {
                Ok(Some(a)) => {
                    &&& final(poll_errors)@ == old(poll_errors)@.remove(source@)
                    &&& r == if is_recovery(old(poll_errors)@, source@) {
                        PollLog::Recovered
                    } else {
                        PollLog::Silent
                    }
                    &&& session_of(final(self).spec_engine().sessions, source@) is Some
                    &&& session_of(final(self).spec_engine().sessions, source@)->0.started is Some
                    &&& final(self).spec_engine() == spec_report(
                        old(self).spec_engine(),
                        source@,
                        a@,
                        session_of(final(self).spec_engine().sessions, source@)->0.started->0,
                        true,
                    )
                },
                Ok(None) => {
                    &&& final(poll_errors)@ == old(poll_errors)@.remove(source@)
                    &&& r == if is_recovery(old(poll_errors)@, source@) {
                        PollLog::Recovered
                    } else {
                        PollLog::Silent
                    }
                    &&& final(self).spec_engine() == old(self).spec_engine()
                },
                Err(e) => {
                    &&& final(poll_errors)@ == old(poll_errors)@.insert(source@, plugin_error_text(e))
                    &&& r == if failure_is_new(old(poll_errors)@, source@, plugin_error_text(e)) {
                        PollLog::Failed
                    } else {
                        PollLog::Silent
                    }
                    &&& final(self).spec_engine() == spec_end_session(old(self).spec_engine(), source@)
                },
            },
    {
        match result {
            Ok(Some(activity)) => {
                let recovered = poll_errors.polled_ok(source.as_str());
                let _ = self.engine.update(source.as_str(), &activity);
                if recovered {
                    PollLog::Recovered
                } else {
                    PollLog::Silent
                }
            },
            Ok(None) => {
                if poll_errors.polled_ok(source.as_str()) {
                    PollLog::Recovered
                } else {
                    PollLog::Silent
                }
            },
            Err(e) => {
                let message = e.message();
                let new_failure = poll_errors.polled_err(source.as_str(), message.as_str());
                self.engine.end_session(source.as_str());
                if new_failure {
                    PollLog::Failed
                } else {
                    PollLog::Silent
                }
            },
        }
    }

    /// The source the foreground window belongs to: the first registered
    /// plugin, in order, whose declared window identity matches it.
    fn foreground_source(&self, window: &ForegroundWindow) -> (r: Option<String>)
        requires
            self.wf(),
        ensures
            window_owner_is(*window, self.spec_host(), opt_view(r)),
    {
        let names = self.host.names();
        let ids = self.host.identities();
        let ghost hn = self.host@.names;
        let ghost hi = self.host@.identities;
        let mut i: usize = 0;
        while i < ids.len()
            invariant
                ids@ == hi,
                strings_view(names@) == hn,
                hi.len() == hn.len(),
                hn == self.spec_host().names,
                hi == self.spec_host().identities,
                i <= hi.len(),
                forall|j: int| 0 <= j < i ==> !declares_window(*window, hi, j),
            decreases hi.len() - i,
        {
            match &ids[i] {
                Some(identity) => {
                    if window_matches_identity(window, identity) {
                        let name = names[i].clone();
                        assert(hn[i as int] == name@);
                        assert(declares_window(*window, hi, i as int));
                        assert(0 <= i < hn.len() && hn[i as int] == name@ && declares_window(*window, hi, i as int)
                            && forall|j: int| 0 <= j < i ==> !declares_window(*window, hi, j));
                        assert(window_owner_is(*window, self.spec_host(), Some(name@)));
                        return Some(name);
                    }
                },
                None => {},
            }
            i = i + 1;
        }
        None
    }

    /// Republishes the displayed activity when one is displayed.
    fn republish_displayed(&mut self)
        requires
            old(self).wf(),
        ensures
            final(self).wf(),
            final(self).spec_host() == old(self).spec_host(),
            final(self).spec_config() == old(self).spec_config(),
            final(self).spec_paused() == old(self).spec_paused(),
            final(self).spec_poll_errors() == old(self).spec_poll_errors(),
            final(self).spec_dirty() == old(self).spec_dirty(),
            final(self).spec_phase() == old(self).spec_phase(),
            match old(self).spec_engine().displayed {
                Some(d) => {
                    &&& session_of(final(self).spec_engine().sessions, d) is Some
                    &&& session_of(final(self).spec_engine().sessions, d)->0.started is Some
                    &&& final(self).spec_engine() == spec_report(
                        old(self).spec_engine(),
                        d,
                        session_of(old(self).spec_engine().sessions, d)->0.current->0,
                        session_of(final(self).spec_engine().sessions, d)->0.started->0,
                        false,
                    )
                    &&& (session_of(old(self).spec_engine().sessions, d)->0.started is Some ==> session_of(
                        final(self).spec_engine().sessions,
                        d,
                    )->0.started == session_of(old(self).spec_engine().sessions, d)->0.started)
                },
                None => final(self).spec_engine() == old(self).spec_engine(),
            },
            calls_follow(
                old(self).spec_output_calls(),
                final(self).spec_output_calls(),
                sent_since(old(self).spec_engine(), final(self).spec_engine()),
            ),
    {
        let source: Option<String> = match self.engine.displayed_source() {
            Some(s) => Some(s.to_owned()),
            None => None,
        };
        let activity: Option<Activity> = match self.engine.current_activity() {
            Some(a) => Some(a.duplicate()),
            None => None,
        };
        match (source, activity) {
            (Some(s), Some(a)) => {
                let _ = self.engine.publish_now(s.as_str(), &a);
            },
            _ => {
                proof {
                    lemma_sent_none(self.engine@, self.engine@);
                    lemma_calls_unchanged(self.engine.calls());
                }
            },
        }
    }

    /// The recovery step that ends a poll: unless an output reports a live
    /// connection (`connected`, the outputs' own answer), the displayed
    /// activity is published again, so an output that lost its connection
    /// shows it again once it reconnects.
    pub fn republish_unless_connected(&mut self, connected: bool)
        requires
            old(self).wf(),
        ensures
            final(self).wf(),
            final(self).spec_host() == old(self).spec_host(),
            final(self).spec_config() == old(self).spec_config(),
            final(self).spec_paused() == old(self).spec_paused(),
            final(self).spec_poll_errors() == old(self).spec_poll_errors(),
            final(self).spec_dirty() == old(self).spec_dirty(),
            final(self).spec_phase() == old(self).spec_phase(),
            connected ==> final(self).spec_engine() == old(self).spec_engine()
                && final(self).spec_output_calls() == old(self).spec_output_calls(),
            !connected ==> match old(self).spec_engine().displayed {
                Some(d) => {
                    &&& session_of(final(self).spec_engine().sessions, d) is Some
                    &&& session_of(final(self).spec_engine().sessions, d)->0.started is Some
                    &&& final(self).spec_engine() == spec_report(
                        old(self).spec_engine(),
                        d,
                        session_of(old(self).spec_engine().sessions, d)->0.current->0,
                        session_of(final(self).spec_engine().sessions, d)->0.started->0,
                        false,
                    )
                },
                None => final(self).spec_engine() == old(self).spec_engine(),
            },
            calls_follow(
                old(self).spec_output_calls(),
                final(self).spec_output_calls(),
                sent_since(old(self).spec_engine(), final(self).spec_engine()),
            ),
    {
        if connected {
            proof {
                lemma_sent_none(self.engine@, self.engine@);
                lemma_calls_unchanged(self.engine.calls());
            }
        } else {
            self.republish_displayed();
        }
    }

    /// One poll iteration, given the current foreground window.
    ///
    /// While paused nothing happens. Otherwise the foreground window is
    /// mapped to a registered source and handed to the engine, every
    /// enabled plugin is polled and its result handled, and when no output
    /// reports a live connection the displayed activity is republished.
    pub fn poll_once(&mut self, window: Option<ForegroundWindow>)
        requires
            old(self).wf(),
        ensures
            final(self).wf(),
            final(self).spec_host() == old(self).spec_host(),
            final(self).spec_config() == old(self).spec_config(),
            final(self).spec_paused() == old(self).spec_paused(),
            final(self).spec_phase() == old(self).spec_phase(),
            final(self).spec_dirty() == old(self).spec_dirty(),
            old(self).spec_paused() ==> final(self).spec_engine() == old(self).spec_engine()
                && final(self).spec_poll_errors() == old(self).spec_poll_errors()
                && final(self).spec_output_calls() == old(self).spec_output_calls()
                && final(self).spec_plugin_calls() == old(self).spec_plugin_calls(),
            final(self).spec_engine().policy == old(self).spec_engine().policy,
            final(self).spec_engine().outputs == old(self).spec_engine().outputs,
            !old(self).spec_paused() && window is None ==> final(self).spec_engine().foreground is None,
            !old(self).spec_paused() && window is Some ==> window_owner_is(
                window->0,
                old(self).spec_host(),
                final(self).spec_engine().foreground,
            ),
            !old(self).spec_paused() ==> (final(self).spec_engine().foreground matches Some(f)
                ==> old(self).spec_host().names.contains(f)),
            forall|s: Seq<char>|
                #![trigger final(self).spec_poll_errors().dom().contains(s)]
                !enabled_names(old(self).spec_host().names, old(self).spec_host().disabled).contains(s) ==> {
                    &&& (final(self).spec_poll_errors().dom().contains(s) == old(self).spec_poll_errors().dom().contains(s))
                    &&& (old(self).spec_poll_errors().dom().contains(s) ==> final(self).spec_poll_errors()[s]
                        == old(self).spec_poll_errors()[s])
                },
            !old(self).spec_paused() ==> forall|s: Seq<char>|
                #![trigger final(self).spec_poll_errors().dom().contains(s)]
                enabled_names(old(self).spec_host().names, old(self).spec_host().disabled).contains(s)
                    && final(self).spec_poll_errors().dom().contains(s) ==> !is_active(
                    final(self).spec_engine().sessions,
                    s,
                ),
    {
        if self.paused {
            return;
        }
        let mut tracker = PollErrorTracker::new();
        std::mem::swap(&mut tracker, &mut self.poll_errors);
        let foreground: Option<String> = match &window {
            Some(w) => self.foreground_source(w),
            None => None,
        };
        let fg: Option<&str> = match &foreground {
            Some(s) => Some(s.as_str()),
            None => None,
        };
        let _ = self.engine.set_foreground_source(fg);
        let ghost fgv = self.engine@.foreground;
        assert(fgv == opt_view(foreground));
        assert(window is None ==> fgv is None);
        assert(window matches Some(w) ==> window_owner_is(w, old(self).spec_host(), fgv));
        assert(fgv matches Some(f) ==> old(self).host@.names.contains(f)) by {
            if fgv is Some {
                let f = fgv->0;
                let i = choose|i: int|
                    0 <= i < old(self).host@.names.len() && old(self).host@.names[i] == f && declares_window(
                        window->0,
                        old(self).host@.identities,
                        i,
                    ) && forall|j: int| 0 <= j < i ==> !declares_window(window->0, old(self).host@.identities, j);
                assert(old(self).host@.names[i] == f);
            }
        }
        let ghost en = enabled_names(old(self).host@.names, old(self).host@.disabled);
        let results = self.host.poll_all();
        let mut results = results;
        assert forall|k: int| 0 <= k < results@.len() implies en.contains(#[trigger] results@[k].0@) by {
            assert(result_names(results@)[k] == results@[k].0@);
        }
        let ghost mut done: Set<Seq<char>> = Set::empty();
        while results.len() > 0
            invariant
                self.wf(),
                self.engine@.foreground == fgv,
                forall|s: Seq<char>| #[trigger] en.contains(s) ==> done.contains(s) || result_names(results@).contains(s),
                forall|s: Seq<char>|
                    #![trigger done.contains(s)]
                    done.contains(s) && tracker@.dom().contains(s) ==> !is_active(self.engine@.sessions, s),
                forall|k: int| 0 <= k < results@.len() ==> en.contains(#[trigger] results@[k].0@),
                forall|s: Seq<char>|
                    #![trigger tracker@.dom().contains(s)]
                    !en.contains(s) ==> {
                        &&& (tracker@.dom().contains(s) == old(self).poll_errors@.dom().contains(s))
                        &&& (old(self).poll_errors@.dom().contains(s) ==> tracker@[s] == old(self).poll_errors@[s])
                    },
                self.host@ == old(self).host@,
                self.config == old(self).config,
                self.paused == old(self).paused,
                self.core.phase() == old(self).core.phase(),
                self.config_dirty == old(self).config_dirty,
                self.engine@.policy == old(self).engine@.policy,
                self.engine@.outputs == old(self).engine@.outputs,
            decreases results@.len(),
        {
            let ghost before = results@;
            let (source, result) = results.remove(0);
            assert(result_names(results@) =~= result_names(before).drop_first());
            assert forall|k: int| 0 <= k < results@.len() implies en.contains(#[trigger] results@[k].0@) by {
                assert(results@[k] == before[k + 1]);
            }
            let ghost src = source@;
            let ghost res = result;
            let ghost v0 = self.engine@;
            let ghost t0 = tracker@;
            let ghost d0 = done;
            let _ = self.handle_poll_result(&mut tracker, source, result);
            proof {
                done = done.insert(src);
                assert(en.contains(before[0].0@));
                assert forall|s: Seq<char>| !en.contains(s) implies {
                    &&& (#[trigger] tracker@.dom().contains(s) == old(self).poll_errors@.dom().contains(s))
                    &&& (old(self).poll_errors@.dom().contains(s) ==> tracker@[s] == old(self).poll_errors@[s])
                } by {
                    assert(s != src);
                    assert(t0.dom().contains(s) == old(self).poll_errors@.dom().contains(s));
                }
                assert forall|s: Seq<char>| #[trigger] en.contains(s) implies done.contains(s) || result_names(
                    results@,
                ).contains(s) by {
                    if result_names(before).contains(s) && s != src {
                        let k = choose|k: int| 0 <= k < result_names(before).len() && result_names(before)[k] == s;
                        assert(k != 0);
                        assert(result_names(results@)[k - 1] == s);
                    }
                }
                assert forall|s: Seq<char>| done.contains(s) && tracker@.dom().contains(s) implies !is_active(
                    self.engine@.sessions,
                    s,
                ) by {
                    match res {
                        Ok(Some(a)) => {
                            assert(s != src);
                            assert(d0.contains(s) && t0.dom().contains(s));
                            law_report_isolated(
                                v0,
                                src,
                                a@,
                                session_of(self.engine@.sessions, src)->0.started->0,
                                true,
                                s,
                            );
                        },
                        Ok(None) => {
                            assert(s != src);
                        },
                        Err(e) => {
                            if s == src {
                                law_end_session_ends(v0, src);
                            } else {
                                assert(d0.contains(s) && t0.dom().contains(s));
                                law_end_session_isolated(v0, src, s);
                            }
                        },
                    }
                }
            }
        }
        let ghost v1 = self.engine@;
        let connected = self.engine.any_output_connected();
        self.republish_unless_connected(connected);
        proof {
            assert forall|s: Seq<char>| done.contains(s) && tracker@.dom().contains(s) implies !is_active(
                self.engine@.sessions,
                s,
            ) by {
                if self.engine@ != v1 {
                    let d = v1.displayed->0;
                    assert(is_active(v1.sessions, d));
                    assert(s != d);
                    law_report_isolated(
                        v1,
                        d,
                        session_of(v1.sessions, d)->0.current->0,
                        session_of(self.engine@.sessions, d)->0.started->0,
                        false,
                        s,
                    );
                }
            }
            assert forall|s: Seq<char>| en.contains(s) implies done.contains(s) by {
                assert(result_names(results@).len() == 0);
            }
        }
        let ghost fin = tracker@;
        self.poll_errors = tracker;
        assert(self.spec_poll_errors() == fin);
        assert(old(self).spec_poll_errors() == old(self).poll_errors@);
        assert(en == enabled_names(old(self).spec_host().names, old(self).spec_host().disabled));
        assert forall|s: Seq<char>| !en.contains(s) implies fin.dom().contains(s) == old(self).poll_errors@.dom().contains(s) by {
            assert(fin.dom().contains(s) == tracker@.dom().contains(s));
        }
    }

    /// Reconnects outputs by republishing the displayed activity; when
    /// nothing is displayed, polls every enabled plugin once instead.
    /// Returns whether any output reports a live connection afterwards.
    pub fn reconnect_discord(&mut self) -> (r: Result<bool, String>)
        requires
            old(self).wf(),
        ensures
            final(self).wf(),
            final(self).spec_host() == old(self).spec_host(),
            final(self).spec_config() == old(self).spec_config(),
            final(self).spec_paused() == old(self).spec_paused(),
            r matches Ok(c) && (c ==> final(self).spec_engine().outputs > 0),
            old(self).spec_engine().displayed matches Some(d) ==> {
                &&& session_of(final(self).spec_engine().sessions, d) is Some
                &&& final(self).spec_engine() == spec_report(
                    old(self).spec_engine(),
                    d,
                    session_of(old(self).spec_engine().sessions, d)->0.current->0,
                    session_of(final(self).spec_engine().sessions, d)->0.started->0,
                    false,
                )
            },
    {
        let displayed = self.engine.displayed_source().is_some();
        if displayed {
            self.republish_displayed();
        } else {
            let mut tracker = self.poll_errors.duplicate();
            let results = self.host.poll_all();
            let mut results = results;
            while results.len() > 0
                invariant
                    self.wf(),
                    self.host@ == old(self).host@,
                    self.config == old(self).config,
                    self.paused == old(self).paused,
                    self.core.phase() == old(self).core.phase(),
                    self.config_dirty == old(self).config_dirty,
                decreases results@.len(),
            {
                let (source, result) = results.remove(0);
                let _ = self.handle_poll_result(&mut tracker, source, result);
            }
            self.poll_errors = tracker;
        }
        Ok(self.engine.any_output_connected())
    }

    /// The polling interval.
    pub fn poll_interval(&self) -> (r: Duration)
        ensures
            is_millis_duration(r, self.spec_poll_interval_ms()),
    {
        duration_from_millis(self.poll_interval_ms)
    }

    /// The polling interval in milliseconds.
    pub fn poll_interval_ms(&self) -> (r: u64)
        ensures
            r == self.spec_poll_interval_ms(),
    {
        self.poll_interval_ms
    }

    /// Whether the runtime is paused.
    pub fn is_paused(&self) -> (r: bool)
        ensures
            r == self.spec_paused(),
    {
        self.paused
    }

    /// Whether `source` is enabled (not disabled at runtime).
    pub fn is_plugin_enabled(&self, source: &str) -> (r: bool)
        requires
            self.wf(),
        ensures
            r == !self.spec_host().disabled.contains(source@),
    {
        !self.host.is_source_disabled(source)
    }

    /// One plugin row of the live state.
    fn plugin_row(&self, name: &str, configured: bool) -> (r: PluginView)
        requires
            self.wf(),
        ensures
            r.name@ == name@,
            r.enabled == (configured && !self.spec_host().disabled.contains(name@)),
            r.active == is_active(self.spec_engine().sessions, name@),
            opt_view(r.summary) == if is_active(self.spec_engine().sessions, name@) {
                Some(session_of(self.spec_engine().sessions, name@)->0.current->0.state)
            } else {
                None
            },
    {
        let enabled = configured && !self.host.is_source_disabled(name);
        let summary = match self.engine.source_activity(name) {
            Some(a) => Some(a.state.clone()),
            None => None,
        };
        PluginView {
            name: name.to_owned(),
            enabled,
            active: self.engine.is_source_active(name),
            summary,
        }
    }

    /// The live state for a user interface: pause flag, poll interval,
    /// connection status, display owner and its activity, and one row per
    /// built-in plugin.
    pub fn snapshot(&self) -> (r: LiveState)
        requires
            self.wf(),
        ensures
            r.paused == self.spec_paused(),
            r.poll_interval_ms == self.spec_poll_interval_ms(),
            r.discord_connected == reports_connected(self.spec_output_connections()),
            opt_view(r.owner) == self.spec_engine().displayed,
            match r.current {
                Some(c) => self.spec_engine().displayed == Some(c.source@) && session_of(
                    self.spec_engine().sessions,
                    c.source@,
                )->0.current->0.state == c.state@ && session_of(
                    self.spec_engine().sessions,
                    c.source@,
                )->0.current->0.details == opt_view(c.details),
                None => self.spec_engine().displayed is None,
            },
            r.pinned_source is None,
            r.plugins@.len() == 3,
            r.plugins@[0].name@ == "FL Studio"@,
            r.plugins@[1].name@ == "Antigravity"@,
            r.plugins@[2].name@ == "OpenCode"@,
            forall|i: int|
                0 <= i < 3 ==> {
                    let row = #[trigger] r.plugins@[i];
                    &&& row.enabled == (plugin_flag(self.spec_config().plugins, row.name@) == Some(true)
                        && !self.spec_host().disabled.contains(row.name@))
                    &&& row.active == is_active(self.spec_engine().sessions, row.name@)
                    &&& opt_view(row.summary) == if is_active(self.spec_engine().sessions, row.name@) {
                        Some(session_of(self.spec_engine().sessions, row.name@)->0.current->0.state)
                    } else {
                        None
                    }
                },
    {
        let mut plugins: Vec<PluginView> = Vec::new();
        plugins.push(self.plugin_row("FL Studio", self.config.plugins.flstudio));
        plugins.push(self.plugin_row("Antigravity", self.config.plugins.antigravity));
        plugins.push(self.plugin_row("OpenCode", self.config.plugins.opencode));
        proof {
            reveal_strlit("FL Studio");
            reveal_strlit("Antigravity");
            reveal_strlit("OpenCode");
            assert("FL Studio"@[0] != "Antigravity"@[0]);
            assert("FL Studio"@[0] != "OpenCode"@[0]);
            assert("Antigravity"@[0] != "OpenCode"@[0]);
            assert(plugin_flag(self.config.plugins, "FL Studio"@) == Some(self.config.plugins.flstudio));
            assert(plugin_flag(self.config.plugins, "Antigravity"@) == Some(self.config.plugins.antigravity));
            assert(plugin_flag(self.config.plugins, "OpenCode"@) == Some(self.config.plugins.opencode));
        }
        let owner: Option<String> = match self.engine.displayed_source() {
            Some(s) => Some(s.to_owned()),
            None => None,
        };
        let current: Option<PresenceView> = match &owner {
            Some(source) => match self.engine.current_activity() {
                Some(a) => Some(
                    PresenceView {
                        source: source.clone(),
                        state: a.state.clone(),
                        details: a.details.clone(),
                    },
                ),
                None => None,
            },
            None => None,
        };
        LiveState {
            paused: self.paused,
            poll_interval_ms: self.poll_interval_ms,
            discord_connected: self.engine.any_output_connected(),
            owner,
            current,
            pinned_source: None,
            plugins,
        }
    }

    /// Records where the configuration lives, so changes can be written
    /// back to it.
    pub fn set_config_path(&mut self, path: Option<PathBuf>)
        ensures
            final(self).spec_has_path() == (path is Some),
            final(self).spec_config() == old(self).spec_config(),
            final(self).spec_engine() == old(self).spec_engine(),
            final(self).spec_host() == old(self).spec_host(),
            final(self).spec_paused() == old(self).spec_paused(),
            final(self).spec_dirty() == old(self).spec_dirty(),
            final(self).spec_poll_interval_ms() == old(self).spec_poll_interval_ms(),
            final(self).wf() == old(self).wf(),
    {
        self.config_path = path;
    }

    /// Where the configuration lives, if known.
    pub fn config_path(&self) -> (r: Option<&PathBuf>)
        ensures
            (r is Some) == self.spec_has_path(),
    {
        match &self.config_path {
            Some(p) => Some(p),
            None => None,
        }
    }

    /// Sets the polling cadence, raised to the minimum, in the runtime and
    /// its configuration. Returns whether the configuration should now be
    /// written to its file (a path is known).
    pub fn set_poll_interval_ms(&mut self, interval_ms: u64) -> (persist: bool)
        requires
            old(self).wf(),
        ensures
            final(self).wf(),
            final(self).spec_poll_interval_ms() == spec_clamp_poll_interval(interval_ms),
            final(self).spec_config() == (Config {
                runtime: RuntimeConfig { poll_interval_ms: spec_clamp_poll_interval(interval_ms) },
                ..old(self).spec_config()
            }),
            final(self).spec_engine() == old(self).spec_engine(),
            final(self).spec_host() == old(self).spec_host(),
            final(self).spec_paused() == old(self).spec_paused(),
            final(self).spec_dirty() == old(self).spec_dirty(),
            persist == old(self).spec_has_path(),
    {
        let clamped = clamp_poll_interval(interval_ms);
        self.poll_interval_ms = clamped;
        self.config.runtime.poll_interval_ms = clamped;
        self.config_path.is_some()
    }

    /// Enables or disables a built-in plugin at runtime.
    ///
    /// The configuration flag is set and the source marked enabled or
    /// disabled. Enabling marks the source healthy so the next poll starts
    /// clean; disabling ends its session so the display falls back to the
    /// other sources. The configuration is then marked unsaved. An unknown
    /// name is refused with nothing changed.
    pub fn set_plugin_enabled(&mut self, source: &str, enabled: bool) -> (r: Result<(), String>)
        requires
            old(self).wf(),
        ensures
            final(self).wf(),
            final(self).spec_paused() == old(self).spec_paused(),
            final(self).spec_phase() == old(self).spec_phase(),
            match plugin_flag(old(self).spec_config().plugins, source@) {
                None => {
                    &&& r matches Err(m) && m@ == "Unknown plugin: "@ + source@
                    &&& final(self).spec_config() == old(self).spec_config()
                    &&& final(self).spec_host() == old(self).spec_host()
                    &&& final(self).spec_engine() == old(self).spec_engine()
                    &&& final(self).spec_dirty() == old(self).spec_dirty()
                    &&& final(self).spec_poll_errors() == old(self).spec_poll_errors()
                },
                Some(_) => {
                    &&& r is Ok
                    &&& final(self).spec_config() == (Config {
                        plugins: with_plugin_flag(old(self).spec_config().plugins, source@, enabled),
                        ..old(self).spec_config()
                    })
                    &&& final(self).spec_host().names == old(self).spec_host().names
                    &&& final(self).spec_host().disabled == toggle(
                        old(self).spec_host().disabled,
                        source@,
                        !enabled,
                    )
                    &&& final(self).spec_dirty()
                    &&& if enabled {
                        &&& final(self).spec_poll_errors() == old(self).spec_poll_errors().remove(source@)
                        &&& final(self).spec_engine() == old(self).spec_engine()
                    } else {
                        &&& final(self).spec_poll_errors() == old(self).spec_poll_errors()
                        &&& final(self).spec_engine() == spec_end_session(old(self).spec_engine(), source@)
                    }
                },
            },
    {
        proof {
            reveal_strlit("FL Studio");
            reveal_strlit("Antigravity");
            reveal_strlit("OpenCode");
        }
        if str_eq(source, "FL Studio") {
            self.config.plugins.flstudio = enabled;
        } else if str_eq(source, "Antigravity") {
            self.config.plugins.antigravity = enabled;
        } else if str_eq(source, "OpenCode") {
            self.config.plugins.opencode = enabled;
        } else {
            return Err(join_str("Unknown plugin: ", source));
        }
        self.host.set_source_disabled(source, !enabled);
        if enabled {
            let _ = self.poll_errors.polled_ok(source);
        } else {
            self.engine.end_session(source);
        }
        self.config_dirty = true;
        Ok(())
    }

    /// Enables or disables a built-in plugin, as
    /// [`Runtime::set_plugin_enabled`] does, first registering and
    /// initializing `plugin` when the source is being enabled and no
    /// registered plugin goes by its name (it was not registered at start).
    /// `plugin` is the caller's instance of that source's plugin; when it is
    /// not needed it is dropped.
    pub fn set_plugin_enabled_with(
        &mut self,
        source: &str,
        enabled: bool,
        plugin: Box<dyn Plugin>,
    ) -> (r: Result<(), String>)
        requires
            old(self).wf(),
        ensures
            final(self).wf(),
            final(self).spec_paused() == old(self).spec_paused(),
            final(self).spec_phase() == old(self).spec_phase(),
            match plugin_flag(old(self).spec_config().plugins, source@) {
                None => {
                    &&& r matches Err(m) && m@ == "Unknown plugin: "@ + source@
                    &&& final(self).spec_config() == old(self).spec_config()
                    &&& final(self).spec_host() == old(self).spec_host()
                    &&& final(self).spec_engine() == old(self).spec_engine()
                    &&& final(self).spec_dirty() == old(self).spec_dirty()
                    &&& final(self).spec_poll_errors() == old(self).spec_poll_errors()
                },
                Some(_) => {
                    &&& r is Ok
                    &&& final(self).spec_config() == (Config {
                        plugins: with_plugin_flag(old(self).spec_config().plugins, source@, enabled),
                        ..old(self).spec_config()
                    })
                    &&& if enabled && !old(self).spec_host().names.contains(source@) {
                        &&& final(self).spec_host().names.len() == old(self).spec_host().names.len() + 1
                        &&& final(self).spec_host().names.drop_last() == old(self).spec_host().names
                    } else {
                        final(self).spec_host().names == old(self).spec_host().names
                    }
                    &&& final(self).spec_host().disabled == toggle(
                        old(self).spec_host().disabled,
                        source@,
                        !enabled,
                    )
                    &&& final(self).spec_dirty()
                    &&& if enabled {
                        &&& final(self).spec_poll_errors() == old(self).spec_poll_errors().remove(source@)
                        &&& final(self).spec_engine() == old(self).spec_engine()
                    } else {
                        &&& final(self).spec_poll_errors() == old(self).spec_poll_errors()
                        &&& final(self).spec_engine() == spec_end_session(old(self).spec_engine(), source@)
                    }
                },
            },
    {
        proof {
            reveal_strlit("FL Studio");
            reveal_strlit("Antigravity");
            reveal_strlit("OpenCode");
        }
        let known = str_eq(source, "FL Studio") || str_eq(source, "Antigravity") || str_eq(
            source,
            "OpenCode",
        );
        if known && enabled && !self.host.has_plugin(source) {
            self.register_plugin(plugin);
        }
        self.set_plugin_enabled(source, enabled)
    }

    /// Whether the configuration should be written at `now_ms` (the
    /// caller's monotonic milliseconds): it has unsaved changes and was not
    /// written within the debounce interval.
    pub fn config_save_due(&self, now_ms: u64) -> (r: bool)
        ensures
            r == save_due(self.spec_dirty(), self.spec_last_save(), now_ms),
    {
        if !self.config_dirty {
            return false;
        }
        match self.last_save_ms {
            Some(at) => now_ms >= at && now_ms - at >= CONFIG_SAVE_DEBOUNCE_MS,
            None => true,
        }
    }

    /// Records that the configuration was written at `now_ms`.
    pub fn mark_config_saved(&mut self, now_ms: u64)
        ensures
            !final(self).spec_dirty(),
            final(self).spec_last_save() == Some(now_ms),
            final(self).spec_config() == old(self).spec_config(),
            final(self).spec_engine() == old(self).spec_engine(),
            final(self).spec_host() == old(self).spec_host(),
            final(self).spec_paused() == old(self).spec_paused(),
            final(self).wf() == old(self).wf(),
    {
        self.config_dirty = false;
        self.last_save_ms = Some(now_ms);
    }

    /// Whether the configuration has unsaved changes.
    pub fn is_config_dirty(&self) -> (r: bool)
        ensures
            r == self.spec_dirty(),
    {
        self.config_dirty
    }

    /// Pauses or resumes the runtime. Pausing clears every output but keeps
    /// sessions and plugin state; resuming republishes the displayed
    /// activity with its original session start. Setting the current value
    /// again does nothing.
    pub fn set_paused(&mut self, paused: bool)
        requires
            old(self).wf(),
        ensures
            final(self).wf(),
            final(self).spec_paused() == paused,
            final(self).spec_host() == old(self).spec_host(),
            final(self).spec_config() == old(self).spec_config(),
            pause_step(
                old(self).spec_paused(),
                paused,
                old(self).spec_engine(),
                old(self).spec_output_calls(),
                final(self).spec_engine(),
                final(self).spec_output_calls(),
            ),
    {
        if self.paused == paused {
            proof {
                lemma_sent_none(self.engine@, self.engine@);
                lemma_calls_unchanged(self.engine.calls());
            }
            return;
        }
        self.paused = paused;
        if paused {
            self.engine.clear_outputs();
            proof { lemma_sent_one(old(self).engine@, self.engine@, Dispatch::Clear); }
        } else {
            self.republish_displayed();
        }
    }

    /// Shuts the runtime down: stops the loop, clears the engine first (so
    /// every output removes its presence), shuts every plugin down, and
    /// stops the core. Safe to call more than once.
    pub fn shutdown(&mut self)
        requires
            old(self).wf(),
        ensures
            final(self).wf(),
            calls_follow(old(self).spec_output_calls(), final(self).spec_output_calls(), seq![Dispatch::Clear]),
            one_more_call(old(self).spec_plugin_calls(), final(self).spec_plugin_calls()),
            forall|j: int|
                0 <= j < old(self).spec_plugin_calls().len() ==> (#[trigger] final(self).spec_plugin_calls()[j]).last() is Shutdown,
            !final(self).spec_marked_running(),
            final(self).spec_engine() == (EngineView {
                sessions: Seq::<crate::output::SessionView>::empty(),
                foreground: None,
                displayed: None,
                recency: 0,
                dispatched: old(self).spec_engine().dispatched.push(crate::output::Dispatch::Clear),
                ..old(self).spec_engine()
            }),
            final(self).spec_host() == old(self).spec_host(),
            final(self).spec_phase() == phase_after(old(self).spec_phase(), stop_outcome(old(self).spec_phase())),
            final(self).spec_config() == old(self).spec_config(),
            final(self).spec_paused() == old(self).spec_paused(),
    {
        self.running.set(false);
        self.engine.clear();
        let _ = self.host.shutdown_all();
        let _ = self.core.stop();
    }
}

impl Default for Runtime {
    fn default() -> (r: Self)
        ensures
            r.wf(),
            r.spec_config().is_default(),
            r.spec_phase() == CoreState::Uninitialized,
    {
        Runtime::new()
    }
}

} // verus!
