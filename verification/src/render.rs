//! Rendering of the generic presence model into the Discord activity
//! payload: a field-by-field translation with no plugin knowledge.

use vstd::prelude::*;
use crate::activity::{opt_str_clone, opt_view};
use crate::presence::{AssetsView, PresenceActivityType, RichPresence};
use crate::protocol::{
    strings_view, ActivityData, ActivityDataView, Assets, PartyData, PartyView, SecretsData,
    SecretsView, Timestamps,
};

verus! {

/// The Discord activity type code of a category; Playing is sent as no
/// code at all.
pub open spec fn type_code(t: PresenceActivityType) -> Option<u64> {
    match t {
        PresenceActivityType::Playing => None,
        PresenceActivityType::Listening => Some(2),
        PresenceActivityType::Watching => Some(3),
        PresenceActivityType::Competing => Some(5),
    }
}

/// Maps an activity category onto its Discord type code.
fn activity_type_code(activity_type: PresenceActivityType) -> (r: Option<u64>)
    ensures
        r == type_code(activity_type),
{
    match activity_type {
        PresenceActivityType::Playing => None,
        PresenceActivityType::Listening => Some(2),
        PresenceActivityType::Watching => Some(3),
        PresenceActivityType::Competing => Some(5),
    }
}

/// The characters of an optional string slice.
pub open spec fn opt_str_view(o: Option<&str>) -> Option<Seq<char>> {
    match o {
        Some(s) => Some(s@),
        None => None,
    }
}

/// The payload built from the basic fields: timestamps only when a bound
/// is present, assets only when one of the four asset fields is, every
/// advanced field absent and no flags.
pub open spec fn basic_payload(
    state: Seq<char>,
    details: Option<Seq<char>>,
    start: Option<i64>,
    end: Option<i64>,
    large_text: Option<Seq<char>>,
    small_text: Option<Seq<char>>,
    large_image: Option<Seq<char>>,
    small_image: Option<Seq<char>>,
) -> ActivityDataView {
    ActivityDataView {
        state,
        details,
        timestamps: if start is Some || end is Some {
            Some(Timestamps { start, end })
        } else {
            None
        },
        assets: if large_text is Some || small_text is Some || large_image is Some
            || small_image is Some {
            Some(AssetsView { large_image, large_text, small_image, small_text })
        } else {
            None
        },
        activity_type: None,
        buttons: Seq::empty(),
        party: None,
        secrets: None,
        instance: None,
        flags: 0,
    }
}

/// An owned copy of an optional string slice.
fn opt_owned(o: Option<&str>) -> (r: Option<String>)
    ensures
        opt_view(r) == opt_str_view(o),
{
    match o {
        Some(s) => Some(s.to_owned()),
        None => None,
    }
}

/// Builds an activity payload from its basic fields.
pub fn build_activity_data(
    state: &str,
    details: Option<&str>,
    start: Option<i64>,
    end: Option<i64>,
    large_text: Option<&str>,
    small_text: Option<&str>,
    large_image: Option<&str>,
    small_image: Option<&str>,
) -> (r: ActivityData)
    ensures
        r@ == basic_payload(
            state@,
            opt_str_view(details),
            start,
            end,
            opt_str_view(large_text),
            opt_str_view(small_text),
            opt_str_view(large_image),
            opt_str_view(small_image),
        ),
{
    let timestamps = if start.is_some() || end.is_some() {
        Some(Timestamps { start, end })
    } else {
        None
    };
    let assets = if large_text.is_some() || small_text.is_some() || large_image.is_some()
        || small_image.is_some() {
        Some(
            Assets {
                large_text: opt_owned(large_text),
                small_text: opt_owned(small_text),
                large_image: opt_owned(large_image),
                small_image: opt_owned(small_image),
            },
        )
    } else {
        None
    };
    let r = ActivityData {
        state: state.to_owned(),
        details: opt_owned(details),
        timestamps,
        assets,
        activity_type: None,
        buttons: Vec::new(),
        party: None,
        secrets: None,
        instance: None,
        flags: 0,
    };
    assert(strings_view(r.buttons@) =~= Seq::<Seq<char>>::empty());
    r
}

/// The most buttons a payload carries.
pub const MAX_BUTTONS: usize = 2;

/// The large image of a presence, if any.
pub open spec fn presence_large_image(p: RichPresence) -> Option<Seq<char>> {
    match p.assets {
        Some(a) => opt_view(a.large_image),
        None => None,
    }
}

/// The payload a presence renders to.
///
/// The state (empty when absent), details, timestamp bounds and asset
/// fields go through [`basic_payload`], except that the large-image hover
/// text is kept only beside a large image. The category becomes its type
/// code; the first two button labels are carried (their URLs are not);
/// party and secrets are copied; `instance` is sent only when set.
pub open spec fn rendered(p: RichPresence) -> ActivityDataView {
    let a = p.assets;
    let base = basic_payload(
        match p.state {
            Some(s) => s@,
            None => Seq::empty(),
        },
        opt_view(p.details),
        match p.timestamps {
            Some(t) => t.start,
            None => None,
        },
        match p.timestamps {
            Some(t) => t.end,
            None => None,
        },
        if presence_large_image(p) is Some {
            match a {
                Some(x) => opt_view(x.large_text),
                None => None,
            }
        } else {
            None
        },
        match a {
            Some(x) => opt_view(x.small_text),
            None => None,
        },
        presence_large_image(p),
        match a {
            Some(x) => opt_view(x.small_image),
            None => None,
        },
    );
    let n = if p.buttons@.len() < 2 {
        p.buttons@.len()
    } else {
        2
    };
    ActivityDataView {
        activity_type: type_code(p.activity_type),
        buttons: Seq::new(n, |i: int| p.buttons@[i].label@),
        party: match p.party {
            Some(x) => Some(PartyView { id: opt_view(x.id), size: x.size }),
            None => None,
        },
        secrets: match p.secrets {
            Some(x) => Some(
                SecretsView {
                    join: opt_view(x.join),
                    spectate: opt_view(x.spectate),
                    match_secret: opt_view(x.match_secret),
                },
            ),
            None => None,
        },
        instance: if p.instance {
            Some(true)
        } else {
            None
        },
        ..base
    }
}

/// A string field of optional assets, as a slice.
fn asset_field<'a>(a: &'a Option<String>) -> (r: Option<&'a str>)
    ensures
        opt_str_view(r) == opt_view(*a),
{
    match a {
        Some(s) => Some(s.as_str()),
        None => None,
    }
}

/// Renders a presence into the Discord activity payload.
pub fn to_activity_data(presence: &RichPresence) -> (r: ActivityData)
    ensures
        r@ == rendered(*presence),
{
    let (start, end) = match presence.timestamps {
        Some(t) => (t.start, t.end),
        None => (None, None),
    };
    let none: Option<String> = None;
    let (large_image, large_text0, small_image, small_text) = match &presence.assets {
        Some(a) => (
            asset_field(&a.large_image),
            asset_field(&a.large_text),
            asset_field(&a.small_image),
            asset_field(&a.small_text),
        ),
        None => (asset_field(&none), asset_field(&none), asset_field(&none), asset_field(&none)),
    };
    let large_text = if large_image.is_some() {
        large_text0
    } else {
        None
    };
    let state: &str = match &presence.state {
        Some(s) => s.as_str(),
        None => "",
    };
    proof {
        reveal_strlit("");
    }
    let details = asset_field(&presence.details);
    let mut data = build_activity_data(
        state,
        details,
        start,
        end,
        large_text,
        small_text,
        large_image,
        small_image,
    );
    data.activity_type = activity_type_code(presence.activity_type);
    let n: usize = if presence.buttons.len() < MAX_BUTTONS {
        presence.buttons.len()
    } else {
        MAX_BUTTONS
    };
    let mut labels: Vec<String> = Vec::new();
    let mut i: usize = 0;
    while i < n
        invariant
            n <= presence.buttons@.len(),
            i <= n,
            labels@.len() == i,
            forall|j: int| 0 <= j < i ==> #[trigger] labels@[j]@ == presence.buttons@[j].label@,
        decreases n - i,
    {
        labels.push(presence.buttons[i].label.clone());
        i = i + 1;
    }
    data.buttons = labels;
    data.party = match &presence.party {
        Some(p) => Some(PartyData { id: opt_str_clone(&p.id), size: p.size }),
        None => None,
    };
    data.secrets = match &presence.secrets {
        Some(x) => Some(
            SecretsData {
                join: opt_str_clone(&x.join),
                spectate: opt_str_clone(&x.spectate),
                match_secret: opt_str_clone(&x.match_secret),
            },
        ),
        None => None,
    };
    if presence.instance {
        data.instance = Some(true);
    }
    assert(strings_view(data.buttons@) =~= rendered(*presence).buttons);
    let ghost rv = rendered(*presence);
    assert(data@.state == rv.state);
    assert(data@.details == rv.details);
    assert(data@.timestamps == rv.timestamps);
    assert(data@.assets == rv.assets);
    assert(data@.activity_type == rv.activity_type);
    assert(data@.party == rv.party);
    assert(data@.secrets == rv.secrets);
    assert(data@.instance == rv.instance);
    assert(data@.flags == rv.flags);
    data
}


/// A rendered payload carries at most two buttons, the labels of the
/// presence's first buttons in order.
pub proof fn law_render_button_limit(p: RichPresence)
    ensures
        rendered(p).buttons.len() <= MAX_BUTTONS,
        forall|i: int|
            0 <= i < rendered(p).buttons.len() ==> #[trigger] rendered(p).buttons[i]
                == p.buttons@[i].label@,
        p.buttons@.len() <= MAX_BUTTONS ==> rendered(p).buttons.len() == p.buttons@.len(),
{
}

/// Hover text for the large image is only sent beside a large image.
pub proof fn law_render_large_text_needs_image(p: RichPresence)
    ensures
        rendered(p).assets matches Some(a) ==> (a.large_text is Some ==> a.large_image is Some),
{
}

/// The Playing category is sent as no type code, every other category as
/// its own code; no payload carries flags.
pub proof fn law_render_type_and_flags(p: RichPresence)
    ensures
        (rendered(p).activity_type is None) <==> (p.activity_type == PresenceActivityType::Playing),
        rendered(p).flags == 0,
        (rendered(p).instance is Some) <==> p.instance,
{
}

/// Every field a presence carries reaches the payload unchanged: its state
/// (empty when absent), details, start and end times, both images, the
/// small image's hover text, and the large image's hover text beside a
/// large image. A payload carries no image, text or time the presence
/// lacks.
pub proof fn law_render_carries_fields(p: RichPresence)
    ensures
        p.state matches Some(s) ==> rendered(p).state == s@,
        p.state is None ==> rendered(p).state == Seq::<char>::empty(),
        rendered(p).details == opt_view(p.details),
        p.timestamps is Some && p.timestamps->0.start is Some ==> rendered(p).timestamps is Some
            && rendered(p).timestamps->0.start == p.timestamps->0.start,
        p.timestamps is Some && p.timestamps->0.end is Some ==> rendered(p).timestamps is Some
            && rendered(p).timestamps->0.end == p.timestamps->0.end,
        p.timestamps is None ==> rendered(p).timestamps is None,
        p.assets is Some && p.assets->0.small_image is Some ==> rendered(p).assets is Some
            && rendered(p).assets->0.small_image == opt_view(p.assets->0.small_image),
        p.assets is Some && p.assets->0.small_text is Some ==> rendered(p).assets is Some
            && rendered(p).assets->0.small_text == opt_view(p.assets->0.small_text),
        p.assets is Some && p.assets->0.large_image is Some ==> rendered(p).assets is Some
            && rendered(p).assets->0.large_image == opt_view(p.assets->0.large_image),
        p.assets is Some && p.assets->0.large_image is Some && p.assets->0.large_text is Some
            ==> rendered(p).assets is Some && rendered(p).assets->0.large_text == opt_view(
            p.assets->0.large_text,
        ),
        p.assets is None ==> rendered(p).assets is None,
{
}

} // verus!
