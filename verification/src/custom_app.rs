//! A watcher for a user-defined application: it turns what is observed of
//! the application's process and foreground window into an activity.

use vstd::prelude::*;
use crate::activity::{opt_view, Activity, ActivityTimestamps, ActivityView};
use crate::config::CustomAppConfig;
use crate::foreground::{window_matches, window_matches_identity, ForegroundWindow};
use crate::plugin::{PluginError, PluginMetadata, WindowIdentity};
use crate::presence::{derived_large_image, derived_large_text, meta};
use crate::protocol::strings_view;
use crate::strmap::StringMap;
use crate::text::{
    append_str, ascii_lower_seq, join_str, eq_ignore_ascii_case, to_ascii_lowercase, trim, trimmed,
};

verus! {

/// The version reported by every custom-application watcher.
pub open spec fn custom_version() -> Seq<char> {
    "1.0.0"@
}

/// The identity a custom application declares: its process name,
/// lowercased, and no window classes.
pub open spec fn custom_identity(process_name: Seq<char>) -> (Seq<Seq<char>>, Seq<Seq<char>>) {
    (seq![ascii_lower_seq(process_name)], Seq::empty())
}

/// Separator between the application name and the window text.
pub open spec fn name_separator() -> Seq<char> {
    " \u{2014} "@
}

/// The primary text: the window title when the application's window is in
/// the foreground with a title that is neither blank nor the application's
/// name, else the configured state, else "Active".
pub open spec fn primary_text(
    config: CustomAppConfig,
    window_matches: bool,
    title: Option<Seq<char>>,
) -> Seq<char> {
    let base = if trimmed(config.state@).len() == 0 {
        "Active"@
    } else {
        config.state@
    };
    match title {
        Some(t) => if window_matches && trimmed(t).len() > 0 && ascii_lower_seq(trimmed(t))
            != ascii_lower_seq(config.name@) {
            trimmed(t)
        } else {
            base
        },
        None => base,
    }
}

/// The first line: with the default Discord application, the name alone
/// when the primary text is "Active" or the name, else the name and the
/// primary text; with a custom application, the primary text.
pub open spec fn first_line(config: CustomAppConfig, primary: Seq<char>) -> Seq<char> {
    if config.discord_app_id == 0 {
        if ascii_lower_seq(primary) == ascii_lower_seq("Active"@) || ascii_lower_seq(primary)
            == ascii_lower_seq(config.name@) {
            config.name@
        } else {
            config.name@ + name_separator() + primary
        }
    } else {
        primary
    }
}

/// The configured secondary line, trimmed, when not blank.
pub open spec fn second_line(config: CustomAppConfig) -> Option<Seq<char>> {
    match config.details {
        Some(d) => if trimmed(d@).len() > 0 {
            Some(trimmed(d@))
        } else {
            None
        },
        None => None,
    }
}

/// The metadata of a custom application's activity: its name under
/// `"application"`, and its trimmed logo under `"large_image"` when one is
/// set and not blank, else `"no_large_image" = "true"`.
pub open spec fn custom_metadata(config: CustomAppConfig) -> Map<Seq<char>, Seq<char>> {
    let m = Map::<Seq<char>, Seq<char>>::empty().insert("application"@, config.name@);
    match config.logo_asset {
        Some(l) => if trimmed(l@).len() > 0 {
            m.insert("large_image"@, trimmed(l@))
        } else {
            m.insert("no_large_image"@, "true"@)
        },
        None => m.insert("no_large_image"@, "true"@),
    }
}

/// The activity of a running, enabled custom application. With a
/// secondary line, it is the state and the first line the details;
/// without, the first line is the state. The session start is the only
/// timestamp.
pub open spec fn custom_activity(
    config: CustomAppConfig,
    start: u64,
    window_matches: bool,
    title: Option<Seq<char>>,
) -> ActivityView {
    let line1 = first_line(config, primary_text(config, window_matches, title));
    ActivityView {
        state: match second_line(config) {
            Some(s) => s,
            None => line1,
        },
        details: match second_line(config) {
            Some(_) => Some(line1),
            None => None,
        },
        timestamps: Some(ActivityTimestamps { start: Some(start as i64), end: None }),
        application: Some(config.name@),
        metadata: custom_metadata(config),
    }
}

/// A custom application's presence always carries its name as the large
/// image's hover text; its logo, when one is configured, is the large
/// image, and without one there is no large image at all (never a broken
/// placeholder).
pub proof fn law_custom_app_logo(
    config: CustomAppConfig,
    start: u64,
    window_matches: bool,
    title: Option<Seq<char>>,
)
    ensures
        derived_large_text(custom_activity(config, start, window_matches, title)) == Some(
            config.name@,
        ),
        (config.logo_asset matches Some(l) && trimmed(l@).len() > 0) ==> derived_large_image(
            custom_activity(config, start, window_matches, title),
        ) == Some(trimmed(config.logo_asset->0@)),
        !(config.logo_asset matches Some(l) && trimmed(l@).len() > 0) ==> derived_large_image(
            custom_activity(config, start, window_matches, title),
        ) is None,
{
    reveal_strlit("application");
    reveal_strlit("large_image");
    reveal_strlit("no_large_image");
    reveal_strlit("true");
    let a = custom_activity(config, start, window_matches, title);
    assert("application"@[0] != "large_image"@[0]);
    assert("application"@.len() != "no_large_image"@.len());
    assert("large_image"@.len() != "no_large_image"@.len());
    assert(meta(a.metadata, "application"@) == Some(config.name@));
}

/// With the default Discord application, the first line of a custom
/// application's presence starts with the application's name.
pub proof fn law_default_app_names_itself(config: CustomAppConfig, primary: Seq<char>)
    requires
        config.discord_app_id == 0,
    ensures
        first_line(config, primary).len() >= config.name@.len(),
        first_line(config, primary).take(config.name@.len() as int) == config.name@,
{
    let n = config.name@;
    assert((n + name_separator() + primary).take(n.len() as int) =~= n);
    assert(n.take(n.len() as int) =~= n);
}

/// The first line of a custom application's activity when its own window
/// is in the foreground with a title that is neither blank nor the
/// application's name: with a custom Discord application, the trimmed
/// title itself; with the default one, the name, the separator and the
/// trimmed title (unless the title reads "Active"). The first line is the
/// details when a secondary line is configured (which is then the state),
/// and the state otherwise.
pub proof fn law_custom_app_shows_window_title(config: CustomAppConfig, start: u64, title: Seq<char>)
    requires
        trimmed(title).len() > 0,
        ascii_lower_seq(trimmed(title)) != ascii_lower_seq(config.name@),
    ensures
        ({
            let act = custom_activity(config, start, true, Some(title));
            let line1 = if config.discord_app_id != 0 {
                trimmed(title)
            } else if ascii_lower_seq(trimmed(title)) == ascii_lower_seq("Active"@) {
                config.name@
            } else {
                config.name@ + name_separator() + trimmed(title)
            };
            if config.details is Some && trimmed(config.details->0@).len() > 0 {
                act.details == Some(line1) && act.state == trimmed(config.details->0@)
            } else {
                act.state == line1 && act.details is None
            }
        }),
{
}

/// Watches one user-defined application by process name.
pub struct CustomAppPlugin {
    config: CustomAppConfig,
    metadata: PluginMetadata,
    window_identity: WindowIdentity,
    session_start: Option<u64>,
}

/// The identity declared for a process name.
fn identity_for(process_name: &str) -> (r: WindowIdentity)
    ensures
        (strings_view(r.process_names@), strings_view(r.window_classes@)) == custom_identity(
            process_name@,
        ),
{
    let mut names: Vec<String> = Vec::new();
    names.push(to_ascii_lowercase(process_name));
    let r = WindowIdentity { process_names: names, window_classes: Vec::new() };
    assert(strings_view(r.process_names@) =~= seq![ascii_lower_seq(process_name@)]);
    assert(strings_view(r.window_classes@) =~= Seq::<Seq<char>>::empty());
    r
}

impl CustomAppPlugin {
    /// The watched configuration.
    pub closed spec fn spec_config(&self) -> CustomAppConfig {
        self.config
    }

    /// When the current session began, if one is running.
    pub closed spec fn spec_session_start(&self) -> Option<u64> {
        self.session_start
    }

    /// The declared identity, as process names and window classes.
    pub closed spec fn spec_identity(&self) -> (Seq<Seq<char>>, Seq<Seq<char>>) {
        (
            strings_view(self.window_identity.process_names@),
            strings_view(self.window_identity.window_classes@),
        )
    }

    /// The name and version reported.
    pub closed spec fn spec_metadata(&self) -> (Seq<char>, Seq<char>) {
        (self.metadata.name@, self.metadata.version@)
    }

    /// Whether metadata and identity follow from the configuration.
    pub open spec fn consistent(&self) -> bool {
        &&& self.spec_metadata() == (self.spec_config().name@, custom_version())
        &&& self.spec_identity() == custom_identity(self.spec_config().process_name@)
    }

    /// A watcher for `config`, with no session running.
    pub fn new(config: CustomAppConfig) -> (r: Self)
        ensures
            r.spec_config() == config,
            r.consistent(),
            r.spec_session_start() is None,
    {
        let metadata = PluginMetadata::new(config.name.as_str(), "1.0.0");
        let window_identity = identity_for(config.process_name.as_str());
        CustomAppPlugin { config, metadata, window_identity, session_start: None }
    }

    /// The configured identifier.
    pub fn id(&self) -> (r: &str)
        ensures
            r@ == self.spec_config().id@,
    {
        self.config.id.as_str()
    }

    /// The watched configuration.
    pub fn config(&self) -> (r: &CustomAppConfig)
        ensures
            *r == self.spec_config(),
    {
        &self.config
    }

    /// Replaces the configuration; metadata and identity follow it, the
    /// running session is kept.
    pub fn update_config(&mut self, config: CustomAppConfig)
        ensures
            final(self).spec_config() == config,
            final(self).consistent(),
            final(self).spec_session_start() == old(self).spec_session_start(),
    {
        self.metadata = PluginMetadata::new(config.name.as_str(), "1.0.0");
        self.window_identity = identity_for(config.process_name.as_str());
        self.config = config;
    }

    /// The watcher's metadata.
    pub fn metadata(&self) -> (r: &PluginMetadata)
        ensures
            (r.name@, r.version@) == self.spec_metadata(),
    {
        &self.metadata
    }

    /// The declared window identity.
    pub fn window_identity(&self) -> (r: WindowIdentity)
        ensures
            (strings_view(r.process_names@), strings_view(r.window_classes@)) == self.spec_identity(),
    {
        let r = WindowIdentity {
            process_names: self.window_identity.process_names.clone(),
            window_classes: self.window_identity.window_classes.clone(),
        };
        assert(strings_view(r.process_names@) =~= strings_view(self.window_identity.process_names@));
        assert(strings_view(r.window_classes@) =~= strings_view(self.window_identity.window_classes@));
        r
    }

    /// When the current session began, if one is running.
    pub fn session_start(&self) -> (r: Option<u64>)
        ensures
            r == self.spec_session_start(),
    {
        self.session_start
    }

    /// Prepares the watcher; nothing to do.
    pub fn init(&mut self) -> (r: Result<(), PluginError>)
        ensures
            r is Ok,
            *final(self) == *old(self),
    {
        Ok(())
    }

    /// Ends any running session.
    pub fn shutdown(&mut self) -> (r: Result<(), PluginError>)
        ensures
            r is Ok,
            final(self).spec_session_start() is None,
            final(self).spec_config() == old(self).spec_config(),
            final(self).spec_metadata() == old(self).spec_metadata(),
            final(self).spec_identity() == old(self).spec_identity(),
    {
        self.session_start = None;
        Ok(())
    }

    /// One poll from what was observed: whether the process runs, the
    /// current Unix time in seconds, the foreground window and its title.
    ///
    /// A disabled entry or a stopped process ends the session and shows
    /// nothing. Otherwise the session starts now unless one is running, and
    /// the activity is [`custom_activity`]; the title counts only when the
    /// foreground window belongs to the application.
    pub fn poll_observed(
        &mut self,
        running: bool,
        now_secs: u64,
        window: Option<&ForegroundWindow>,
        title: Option<&str>,
    ) -> (r: Result<Option<Activity>, PluginError>)
        ensures
            final(self).spec_config() == old(self).spec_config(),
            final(self).spec_metadata() == old(self).spec_metadata(),
            final(self).spec_identity() == old(self).spec_identity(),
            if !old(self).spec_config().enabled || !running {
                final(self).spec_session_start() is None && r == Ok::<Option<Activity>, PluginError>(
                    None,
                )
            } else {
                let start = match old(self).spec_session_start() {
                    Some(s) => s,
                    None => now_secs,
                };
                &&& final(self).spec_session_start() == Some(start)
                &&& r matches Ok(Some(a)) && a@ == custom_activity(
                    old(self).spec_config(),
                    start,
                    match window {
                        Some(w) => window_matches(
                            opt_view(w.process_name),
                            opt_view(w.window_class),
                            old(self).spec_identity().0,
                            old(self).spec_identity().1,
                        ),
                        None => false,
                    },
                    match title {
                        Some(t) => Some(t@),
                        None => None,
                    },
                )
            },
    {
        if !self.config.enabled || !running {
            self.session_start = None;
            return Ok(None);
        }
        let start = match self.session_start {
            Some(s) => s,
            None => now_secs,
        };
        self.session_start = Some(start);
        let matches = match window {
            Some(w) => window_matches_identity(w, &self.window_identity),
            None => false,
        };
        let state_trimmed = trim(self.config.state.as_str());
        let mut primary: String = if state_trimmed.as_str().is_empty() {
            "Active".to_owned()
        } else {
            self.config.state.clone()
        };
        match title {
            Some(t) => {
                let tt = trim(t);
                if matches && !tt.as_str().is_empty() && !eq_ignore_ascii_case(tt.as_str(), self.config.name.as_str()) {
                    primary = tt;
                }
            },
            None => {},
        }
        let line1: String = if self.config.discord_app_id == 0 {
            if eq_ignore_ascii_case(primary.as_str(), "Active") || eq_ignore_ascii_case(
                primary.as_str(),
                self.config.name.as_str(),
            ) {
                self.config.name.clone()
            } else {
                let mut l = join_str(self.config.name.as_str(), " \u{2014} ");
                append_str(&mut l, primary.as_str());
                l
            }
        } else {
            primary
        };
        let line2: Option<String> = match &self.config.details {
            Some(d) => {
                let dt = trim(d.as_str());
                if !dt.as_str().is_empty() {
                    Some(dt)
                } else {
                    None
                }
            },
            None => None,
        };
        let (state, details) = match line2 {
            Some(secondary) => (secondary, Some(line1)),
            None => (line1, None),
        };
        let mut metadata: StringMap<String> = StringMap::new();
        metadata.insert("application".to_owned(), self.config.name.clone());
        match &self.config.logo_asset {
            Some(logo) => {
                let lt = trim(logo.as_str());
                if !lt.as_str().is_empty() {
                    metadata.insert("large_image".to_owned(), lt);
                } else {
                    metadata.insert("no_large_image".to_owned(), "true".to_owned());
                }
            },
            None => {
                metadata.insert("no_large_image".to_owned(), "true".to_owned());
            },
        }
        let activity = Activity {
            state,
            details,
            timestamps: Some(ActivityTimestamps { start: Some(start as i64), end: None }),
            application: Some(self.config.name.clone()),
            metadata,
        };
        proof {
            reveal_strlit("Active");
        }
        assert(activity@ == custom_activity(
            self.config,
            start,
            matches,
            match title {
                Some(t) => Some(t@),
                None => None,
            },
        ));
        Ok(Some(activity))
    }
}

/// Whether a process with the base name `process_name` is among the
/// `running` process names, ignoring ASCII case.
pub fn is_process_running(process_name: &str, running: &Vec<String>) -> (r: bool)
    ensures
        r == exists|i: int|
            0 <= i < running@.len() && ascii_lower_seq(#[trigger] running@[i]@) == ascii_lower_seq(
                process_name@,
            ),
{
    let t = to_ascii_lowercase(process_name);
    let mut i: usize = 0;
    while i < running.len()
        invariant
            i <= running@.len(),
            t@ == ascii_lower_seq(process_name@),
            forall|j: int|
                0 <= j < i ==> ascii_lower_seq(#[trigger] running@[j]@) != ascii_lower_seq(
                    process_name@,
                ),
        decreases running@.len() - i,
    {
        let name = to_ascii_lowercase(running[i].as_str());
        if name == t {
            return true;
        }
        i = i + 1;
    }
    false
}

} // verus!
