//! The generic rich-presence model and its derivation from an activity.

use vstd::prelude::*;
use crate::activity::{opt_str_clone, opt_view, Activity, ActivityView};
use crate::text::{push_char, str_eq, TextValue};

verus! {

/// The semantic category of an activity.
#[derive(Debug, Clone, Copy, PartialEq, Eq, Structural)]
pub enum PresenceActivityType {
    /// The user is playing something (games, DAWs, editors).
    Playing,
    /// The user is listening to audio.
    Listening,
    /// The user is watching video or a broadcast.
    Watching,
    /// The user is in a competitive session.
    Competing,
}

impl Default for PresenceActivityType {
    fn default() -> (r: Self)
        ensures
            r == PresenceActivityType::Playing,
    {
        PresenceActivityType::Playing
    }
}

/// Temporal bounds of a presence, as Unix seconds.
#[derive(Debug, Clone, Copy, PartialEq, Eq, Structural)]
pub struct PresenceTimestamps {
    /// When the activity started.
    pub start: Option<i64>,
    /// When the activity is expected to end.
    pub end: Option<i64>,
}

impl Default for PresenceTimestamps {
    fn default() -> (r: Self)
        ensures
            r.start is None && r.end is None,
    {
        PresenceTimestamps { start: None, end: None }
    }
}

/// Images and hover texts of a presence.
#[derive(Debug, Clone, PartialEq, Eq)]
pub struct PresenceAssets {
    /// Key or URL of the large image.
    pub large_image: Option<String>,
    /// Hover text of the large image.
    pub large_text: Option<String>,
    /// Key or URL of the small image.
    pub small_image: Option<String>,
    /// Hover text of the small image.
    pub small_text: Option<String>,
}

/// The characters of a presence's assets.
pub struct AssetsView {
    pub large_image: Option<Seq<char>>,
    pub large_text: Option<Seq<char>>,
    pub small_image: Option<Seq<char>>,
    pub small_text: Option<Seq<char>>,
}

impl View for PresenceAssets {
    type V = AssetsView;

    open spec fn view(&self) -> AssetsView {
        AssetsView {
            large_image: opt_view(self.large_image),
            large_text: opt_view(self.large_text),
            small_image: opt_view(self.small_image),
            small_text: opt_view(self.small_text),
        }
    }
}

impl Default for PresenceAssets {
    fn default() -> (r: Self)
        ensures
            r.large_image is None && r.large_text is None && r.small_image is None && r.small_text is None,
    {
        PresenceAssets { large_image: None, large_text: None, small_image: None, small_text: None }
    }
}

/// An interactive button on a presence.
#[derive(Debug, Clone, PartialEq, Eq)]
pub struct PresenceButton {
    /// The label shown to the user.
    pub label: String,
    /// The URL opened on click.
    pub url: String,
}

/// Party information of a presence.
#[derive(Debug, Clone, PartialEq, Eq)]
pub struct PresenceParty {
    /// Stable party identifier.
    pub id: Option<String>,
    /// Current and maximum party size.
    pub size: Option<(u32, u32)>,
}

impl Default for PresenceParty {
    fn default() -> (r: Self)
        ensures
            r.id is None && r.size is None,
    {
        PresenceParty { id: None, size: None }
    }
}

/// Matchmaking secrets of a presence.
#[derive(Debug, Clone, PartialEq, Eq)]
pub struct PresenceSecrets {
    /// Secret for joining.
    pub join: Option<String>,
    /// Secret for spectating.
    pub spectate: Option<String>,
    /// Secret for matching.
    pub match_secret: Option<String>,
}

impl Default for PresenceSecrets {
    fn default() -> (r: Self)
        ensures
            r.join is None && r.spectate is None && r.match_secret is None,
    {
        PresenceSecrets { join: None, spectate: None, match_secret: None }
    }
}

/// A generic description of what the user is doing, independent of any
/// output's protocol.
#[derive(Debug, Clone, PartialEq)]
pub struct RichPresence {
    /// The semantic category.
    pub activity_type: PresenceActivityType,
    /// The primary status line.
    pub state: Option<String>,
    /// The secondary description.
    pub details: Option<String>,
    /// Temporal bounds.
    pub timestamps: Option<PresenceTimestamps>,
    /// Images and hover texts.
    pub assets: Option<PresenceAssets>,
    /// Interactive buttons.
    pub buttons: Vec<PresenceButton>,
    /// Party information.
    pub party: Option<PresenceParty>,
    /// Matchmaking secrets.
    pub secrets: Option<PresenceSecrets>,
    /// Whether this presence is a joinable instance.
    pub instance: bool,
}

impl Default for RichPresence {
    fn default() -> (r: Self)
        ensures
            r.activity_type == PresenceActivityType::Playing,
            r.state is None && r.details is None && r.timestamps is None && r.assets is None,
            r.buttons@.len() == 0,
            r.party is None && r.secrets is None && !r.instance,
    {
        RichPresence {
            activity_type: PresenceActivityType::Playing,
            state: None,
            details: None,
            timestamps: None,
            assets: None,
            buttons: Vec::new(),
            party: None,
            secrets: None,
            instance: false,
        }
    }
}

/// A fluent constructor for [`RichPresence`]; unset fields keep their
/// defaults.
#[derive(Debug, Clone)]
pub struct RichPresenceBuilder {
    activity_type: PresenceActivityType,
    state: Option<String>,
    details: Option<String>,
    timestamps: Option<PresenceTimestamps>,
    assets: Option<PresenceAssets>,
    buttons: Vec<PresenceButton>,
    party: Option<PresenceParty>,
    secrets: Option<PresenceSecrets>,
    instance: bool,
}

impl RichPresenceBuilder {
    /// The presence the builder would build now.
    pub closed spec fn spec_build(&self) -> RichPresence {
        RichPresence {
            activity_type: self.activity_type,
            state: self.state,
            details: self.details,
            timestamps: self.timestamps,
            assets: self.assets,
            buttons: self.buttons,
            party: self.party,
            secrets: self.secrets,
            instance: self.instance,
        }
    }

    /// A builder with every field at its default.
    pub fn new() -> (r: Self)
        ensures
            r.spec_build().activity_type == PresenceActivityType::Playing,
            r.spec_build().state is None && r.spec_build().details is None,
            r.spec_build().timestamps is None && r.spec_build().assets is None,
            r.spec_build().buttons@.len() == 0,
            r.spec_build().party is None && r.spec_build().secrets is None,
            !r.spec_build().instance,
    {
        RichPresenceBuilder {
            activity_type: PresenceActivityType::Playing,
            state: None,
            details: None,
            timestamps: None,
            assets: None,
            buttons: Vec::new(),
            party: None,
            secrets: None,
            instance: false,
        }
    }

    /// Sets the activity category.
    pub fn activity_type(self, activity_type: PresenceActivityType) -> (r: Self)
        ensures
            r.spec_build() == (RichPresence { activity_type, ..self.spec_build() }),
    {
        RichPresenceBuilder { activity_type, ..self }
    }

    /// Sets the primary status line.
    pub fn state<T: TextValue>(self, state: T) -> (r: Self)
        ensures
            r.spec_build().state matches Some(s) && s@ == state.text(),
            r.spec_build() == (RichPresence { state: r.spec_build().state, ..self.spec_build() }),
    {
        let s = state.into_text();
        RichPresenceBuilder { state: Some(s), ..self }
    }

    /// Sets the secondary description.
    pub fn details<T: TextValue>(self, details: T) -> (r: Self)
        ensures
            r.spec_build().details matches Some(s) && s@ == details.text(),
            r.spec_build() == (RichPresence { details: r.spec_build().details, ..self.spec_build() }),
    {
        let s = details.into_text();
        RichPresenceBuilder { details: Some(s), ..self }
    }

    /// Sets the temporal bounds.
    pub fn timestamps(self, timestamps: PresenceTimestamps) -> (r: Self)
        ensures
            r.spec_build() == (RichPresence { timestamps: Some(timestamps), ..self.spec_build() }),
    {
        RichPresenceBuilder { timestamps: Some(timestamps), ..self }
    }

    /// Sets the images and hover texts.
    pub fn assets(self, assets: PresenceAssets) -> (r: Self)
        ensures
            r.spec_build() == (RichPresence { assets: Some(assets), ..self.spec_build() }),
    {
        RichPresenceBuilder { assets: Some(assets), ..self }
    }

    /// Replaces the buttons.
    pub fn buttons(self, buttons: Vec<PresenceButton>) -> (r: Self)
        ensures
            r.spec_build() == (RichPresence { buttons, ..self.spec_build() }),
    {
        RichPresenceBuilder { buttons, ..self }
    }

    /// Appends one button.
    pub fn button(self, button: PresenceButton) -> (r: Self)
        ensures
            r.spec_build().buttons@ == self.spec_build().buttons@.push(button),
            r.spec_build() == (RichPresence { buttons: r.spec_build().buttons, ..self.spec_build() }),
    {
        let mut s = self;
        s.buttons.push(button);
        s
    }

    /// Marks the presence as a joinable instance (or not).
    pub fn instance(self, instance: bool) -> (r: Self)
        ensures
            r.spec_build() == (RichPresence { instance, ..self.spec_build() }),
    {
        RichPresenceBuilder { instance, ..self }
    }

    /// Sets the party information.
    pub fn party(self, party: PresenceParty) -> (r: Self)
        ensures
            r.spec_build() == (RichPresence { party: Some(party), ..self.spec_build() }),
    {
        RichPresenceBuilder { party: Some(party), ..self }
    }

    /// Sets the matchmaking secrets.
    pub fn secrets(self, secrets: PresenceSecrets) -> (r: Self)
        ensures
            r.spec_build() == (RichPresence { secrets: Some(secrets), ..self.spec_build() }),
    {
        RichPresenceBuilder { secrets: Some(secrets), ..self }
    }

    /// Produces the presence.
    pub fn build(self) -> (r: RichPresence)
        ensures
            r == self.spec_build(),
    {
        RichPresence {
            activity_type: self.activity_type,
            state: self.state,
            details: self.details,
            timestamps: self.timestamps,
            assets: self.assets,
            buttons: self.buttons,
            party: self.party,
            secrets: self.secrets,
            instance: self.instance,
        }
    }
}

impl Default for RichPresenceBuilder {
    fn default() -> (r: Self)
        ensures
            r.spec_build().activity_type == PresenceActivityType::Playing,
            r.spec_build().state is None && r.spec_build().details is None,
            r.spec_build().timestamps is None && r.spec_build().assets is None,
            r.spec_build().buttons@.len() == 0,
            r.spec_build().party is None && r.spec_build().secrets is None,
            !r.spec_build().instance,
    {
        RichPresenceBuilder::new()
    }
}

/// The lowercase form of a string as Unicode defines it
/// (`str::to_lowercase`).
pub uninterp spec fn unicode_lowercase(s: Seq<char>) -> Seq<char>;

/// Lowercases a string slice per Unicode (`str::to_lowercase`). The result
/// is a function of the characters alone, named [`unicode_lowercase`].
#[verifier::external_body]
fn to_lowercase(s: &str) -> (r: String)
    ensures
        r@ == unicode_lowercase(s@),
{
    s.to_lowercase()
}

/// A character sequence with every space removed.
pub open spec fn without_spaces(s: Seq<char>) -> Seq<char>
    decreases s.len(),
{
    if s.len() == 0 {
        s
    } else if s.last() == ' ' {
        without_spaces(s.drop_last())
    } else {
        without_spaces(s.drop_last()).push(s.last())
    }
}

/// The placeholder asset key derived from an application name: lowercased,
/// spaces removed (e.g. "FL Studio" becomes "flstudio").
pub open spec fn application_slug(app: Seq<char>) -> Seq<char> {
    without_spaces(unicode_lowercase(app))
}

/// Derives the asset key of an application name.
pub fn slug_of(application: &str) -> (r: String)
    ensures
        r@ == application_slug(application@),
{
    let lower = to_lowercase(application);
    let mut out = String::new();
    for c in it: lower.chars()
        invariant
            it.seq() == lower@,
            out@ == without_spaces(lower@.take(it.index() as int)),
    {
        assert(lower@.take(it.index() + 1).drop_last() =~= lower@.take(it.index() as int));
        if c != ' ' {
            push_char(&mut out, c);
        }
    }
    assert(lower@.take(lower@.len() as int) =~= lower@);
    out
}

/// The value stored under `k`, if any.
pub open spec fn meta(m: Map<Seq<char>, Seq<char>>, k: Seq<char>) -> Option<Seq<char>> {
    if m.dom().contains(k) {
        Some(m[k])
    } else {
        None
    }
}

/// The first present option.
pub open spec fn or_else(a: Option<Seq<char>>, b: Option<Seq<char>>) -> Option<Seq<char>> {
    if a is Some { a } else { b }
}

/// The large-image hover text derived from an activity: its application,
/// else `metadata["application"]`, else `metadata["large_text"]`.
pub open spec fn derived_large_text(a: ActivityView) -> Option<Seq<char>> {
    or_else(a.application, or_else(meta(a.metadata, "application"@), meta(a.metadata, "large_text"@)))
}

/// The small-image hover text: `metadata["small_text"]`, else
/// `metadata["version"]`.
pub open spec fn derived_small_text(a: ActivityView) -> Option<Seq<char>> {
    or_else(meta(a.metadata, "small_text"@), meta(a.metadata, "version"@))
}

/// The large image: none when `metadata["no_large_image"]` is `"true"`,
/// else `metadata["large_image"]`, else the slug of the large text.
pub open spec fn derived_large_image(a: ActivityView) -> Option<Seq<char>> {
    if meta(a.metadata, "no_large_image"@) == Some("true"@) {
        None
    } else {
        or_else(
            meta(a.metadata, "large_image"@),
            match derived_large_text(a) {
                Some(t) => Some(application_slug(t)),
                None => None,
            },
        )
    }
}

/// The small image: `metadata["small_image"]`.
pub open spec fn derived_small_image(a: ActivityView) -> Option<Seq<char>> {
    meta(a.metadata, "small_image"@)
}

/// The assets derived from an activity; none when no asset field is set.
pub open spec fn derived_assets(a: ActivityView) -> Option<AssetsView> {
    if derived_large_text(a) is Some || derived_small_text(a) is Some || derived_large_image(a) is Some
        || derived_small_image(a) is Some {
        Some(AssetsView {
            large_image: derived_large_image(a),
            large_text: derived_large_text(a),
            small_image: derived_small_image(a),
            small_text: derived_small_text(a),
        })
    } else {
        None
    }
}

/// The characters of optional assets.
pub open spec fn assets_view(a: Option<PresenceAssets>) -> Option<AssetsView> {
    match a {
        Some(x) => Some(x@),
        None => None,
    }
}

/// A metadata value as an owned string.
fn meta_value(m: &crate::activity::Metadata, key: &str) -> (r: Option<String>)
    ensures
        opt_view(r) == meta(m@, key@),
{
    match m.get(key) {
        Some(v) => Some(v.clone()),
        None => None,
    }
}

/// The first present option.
fn first_of(a: Option<String>, b: Option<String>) -> (r: Option<String>)
    ensures
        opt_view(r) == or_else(opt_view(a), opt_view(b)),
{
    match a {
        Some(x) => Some(x),
        None => b,
    }
}

impl RichPresence {
    /// The presence derived from an activity.
    ///
    /// State, details and timestamps map one to one. The application
    /// identity (else the `"application"`, else the `"large_text"` metadata
    /// key) becomes the large-image hover text and, through its slug, the
    /// large image unless `"large_image"` names one or `"no_large_image"` is
    /// `"true"`. `"small_text"` (else `"version"`) and `"small_image"` fill
    /// the small image. No other metadata is read.
    pub fn from_activity(activity: &Activity) -> (r: RichPresence)
        ensures
            r.activity_type == PresenceActivityType::Playing,
            opt_view(r.state) == Some(activity.state@),
            opt_view(r.details) == opt_view(activity.details),
            r.timestamps == match activity.timestamps {
                Some(ts) => Some(PresenceTimestamps { start: ts.start, end: ts.end }),
                None => None,
            },
            assets_view(r.assets) == derived_assets(activity@),
            r.buttons@.len() == 0,
            r.party is None,
            r.secrets is None,
            !r.instance,
    {
        let m = &activity.metadata;
        let large_text = first_of(
            opt_str_clone(&activity.application),
            first_of(meta_value(m, "application"), meta_value(m, "large_text")),
        );
        let small_text = first_of(meta_value(m, "small_text"), meta_value(m, "version"));
        let no_large = match m.get("no_large_image") {
            Some(v) => str_eq(v.as_str(), "true"),
            None => false,
        };
        let large_image = if no_large {
            None
        } else {
            let slug = match &large_text {
                Some(t) => Some(slug_of(t.as_str())),
                None => None,
            };
            first_of(meta_value(m, "large_image"), slug)
        };
        let small_image = meta_value(m, "small_image");
        let mut builder = RichPresence::builder().state(activity.state.clone());
        match &activity.details {
            Some(d) => {
                builder = builder.details(d.as_str());
            },
            None => {},
        }
        match activity.timestamps {
            Some(ts) => {
                builder = builder.timestamps(PresenceTimestamps { start: ts.start, end: ts.end });
            },
            None => {},
        }
        if large_text.is_some() || small_text.is_some() || large_image.is_some() || small_image.is_some() {
            builder = builder.assets(PresenceAssets { large_image, large_text, small_image, small_text });
        }
        builder.build()
    }

    /// Begins building a presence.
    pub fn builder() -> (r: RichPresenceBuilder)
        ensures
            r.spec_build().activity_type == PresenceActivityType::Playing,
            r.spec_build().state is None && r.spec_build().details is None,
            r.spec_build().timestamps is None && r.spec_build().assets is None,
            r.spec_build().buttons@.len() == 0,
            r.spec_build().party is None && r.spec_build().secrets is None,
            !r.spec_build().instance,
    {
        RichPresenceBuilder::new()
    }
}

/// Removing spaces leaves no space and keeps every other character.
proof fn lemma_without_spaces(s: Seq<char>)
    ensures
        forall|i: int|
            0 <= i < without_spaces(s).len() ==> #[trigger] without_spaces(s)[i] != ' ',
        without_spaces(s).len() <= s.len(),
        (forall|i: int| 0 <= i < s.len() ==> #[trigger] s[i] != ' ') ==> without_spaces(s) == s,
    decreases s.len(),
{
    if s.len() > 0 {
        lemma_without_spaces(s.drop_last());
        if forall|i: int| 0 <= i < s.len() ==> #[trigger] s[i] != ' ' {
            assert(s.last() != ' ');
            assert forall|i: int| 0 <= i < s.drop_last().len() implies #[trigger] s.drop_last()[i]
                != ' ' by {
                assert(s.drop_last()[i] == s[i]);
            }
            assert(s.drop_last().push(s.last()) =~= s);
        }
    }
}

/// An asset key derived from an application name holds no space, and
/// the lowercase form of a name without spaces is its key unchanged.
pub proof fn law_slug_has_no_spaces(app: Seq<char>)
    ensures
        forall|i: int|
            0 <= i < application_slug(app).len() ==> #[trigger] application_slug(app)[i] != ' ',
        (forall|i: int|
            0 <= i < unicode_lowercase(app).len() ==> #[trigger] unicode_lowercase(app)[i] != ' ')
            ==> application_slug(app) == unicode_lowercase(app),
{
    lemma_without_spaces(unicode_lowercase(app));
}

/// The application an activity names is its large-image hover text, ahead
/// of any metadata, and an activity that opts out of the large image gets
/// none.
pub proof fn law_application_names_assets(a: ActivityView)
    ensures
        a.application is Some ==> derived_large_text(a) == a.application,
        meta(a.metadata, "no_large_image"@) == Some("true"@) ==> derived_large_image(a) is None,
        meta(a.metadata, "large_image"@) is Some && meta(a.metadata, "no_large_image"@) != Some(
            "true"@,
        ) ==> derived_large_image(a) == meta(a.metadata, "large_image"@),
{
}

/// An activity with no application and none of the asset metadata keys
/// derives no assets.
pub proof fn law_no_identity_no_assets(a: ActivityView)
    requires
        a.application is None,
        !a.metadata.dom().contains("application"@),
        !a.metadata.dom().contains("large_text"@),
        !a.metadata.dom().contains("small_text"@),
        !a.metadata.dom().contains("version"@),
        !a.metadata.dom().contains("large_image"@),
        !a.metadata.dom().contains("small_image"@),
    ensures
        derived_assets(a) is None,
{
}

impl<'a> From<&'a Activity> for RichPresence {
    /// Derives the presence as [`RichPresence::from_activity`] does.
    fn from(activity: &'a Activity) -> (r: Self)
        ensures
            r.derived_from(activity),
    {
        RichPresence::from_activity(activity)
    }
}

impl<'a> vstd::std_specs::convert::FromSpecImpl<&'a Activity> for RichPresence {
    open spec fn obeys_from_spec() -> bool {
        false
    }

    open spec fn from_spec(v: &'a Activity) -> Self {
        choose|p: RichPresence| p.derived_from(v)
    }
}

impl RichPresence {
    /// What [`RichPresence::from_activity`] promises of its result.
    pub open spec fn derived_from(self, activity: &Activity) -> bool {
        &&& self.activity_type == PresenceActivityType::Playing
        &&& opt_view(self.state) == Some(activity.state@)
        &&& opt_view(self.details) == opt_view(activity.details)
        &&& self.timestamps == match activity.timestamps {
            Some(ts) => Some(PresenceTimestamps { start: ts.start, end: ts.end }),
            None => None,
        }
        &&& assets_view(self.assets) == derived_assets(activity@)
        &&& self.buttons@.len() == 0
        &&& self.party is None
        &&& self.secrets is None
        &&& !self.instance
    }
}

} // verus!
