use presencehub::activity::{Activity, ActivityTimestamps, Metadata};
use presencehub::presence::{
    PresenceActivityType, PresenceAssets, PresenceButton, PresenceParty, PresenceSecrets,
    PresenceTimestamps, RichPresence,
};
use presencehub::render::{build_activity_data, to_activity_data};

/// The canonical activity exercised by the pre-refactor integration
/// tests (application + version metadata driving the asset fields).
fn canonical_flstudio_activity() -> Activity {
    let mut metadata = Metadata::new();
    metadata.insert("application".to_string(), "FL Studio".to_string());
    metadata.insert("version".to_string(), "21".to_string());

    Activity {
        state: "Editing".to_string(),
        details: Some("Project: song.flp*".to_string()),
        timestamps: Some(ActivityTimestamps {
            start: Some(1000),
            end: Some(2000),
        }),
        application: None,
        metadata,
    }
}

#[test]
fn render_omits_large_text_when_large_image_is_absent() {
    let presence = RichPresence::builder()
        .state("Standalone Mode")
        .assets(PresenceAssets {
            large_image: None,
            large_text: Some("No Image Title".to_string()),
            small_image: None,
            small_text: None,
        })
        .build();

    let data = to_activity_data(&presence);
    assert!(
        data.assets.is_none(),
        "assets must be None when no large_image is present"
    );
}

#[test]
fn render_omits_optional_fields_when_absent() {
    let activity = Activity {
        state: "Idle".to_string(),
        details: None,
        timestamps: None,
        metadata: Metadata::new(),
        application: None,
    };

    let presence = RichPresence::from(&activity);
    let rendered = to_activity_data(&presence);

    assert_eq!(rendered.state, "Idle");
    assert!(rendered.details.is_none());
    assert!(rendered.timestamps.is_none());
    assert!(rendered.assets.is_none());
}

#[test]
fn render_accepts_presence_without_state() {
    // A presence constructed directly (not from an Activity) may omit
    // state; it must still render without panicking.
    let presence = RichPresence::default();
    let rendered = to_activity_data(&presence);
    assert_eq!(rendered.state, "");
    assert!(rendered.details.is_none());
    assert!(rendered.timestamps.is_none());
    assert!(rendered.assets.is_none());
}

// -- Advanced field serialization ------------------------------------------

#[test]
fn render_serializes_buttons_as_labels() {
    let presence = RichPresence::builder()
        .state("In game")
        .button(PresenceButton {
            label: "Join".to_string(),
            url: "https://example.com/join".to_string(),
        })
        .button(PresenceButton {
            label: "Spectate".to_string(),
            url: "https://example.com/spectate".to_string(),
        })
        .build();

    let rendered = to_activity_data(&presence);
    assert_eq!(
        rendered.buttons,
        vec!["Join".to_string(), "Spectate".to_string()]
    );
}

#[test]
fn render_truncates_buttons_to_two() {
    let presence = RichPresence::builder()
        .state("In game")
        .button(PresenceButton {
            label: "One".to_string(),
            url: "https://a.example".to_string(),
        })
        .button(PresenceButton {
            label: "Two".to_string(),
            url: "https://b.example".to_string(),
        })
        .button(PresenceButton {
            label: "Three".to_string(),
            url: "https://c.example".to_string(),
        })
        .build();

    let rendered = to_activity_data(&presence);
    assert_eq!(rendered.buttons.len(), 2);
    assert_eq!(rendered.buttons, vec!["One".to_string(), "Two".to_string()]);
}

#[test]
fn render_serializes_activity_types() {
    let listening = RichPresence::builder()
        .state("Listening")
        .activity_type(PresenceActivityType::Listening)
        .build();
    assert_eq!(to_activity_data(&listening).activity_type, Some(2));

    let watching = RichPresence::builder()
        .state("Watching")
        .activity_type(PresenceActivityType::Watching)
        .build();
    assert_eq!(to_activity_data(&watching).activity_type, Some(3));

    let competing = RichPresence::builder()
        .state("Competing")
        .activity_type(PresenceActivityType::Competing)
        .build();
    assert_eq!(to_activity_data(&competing).activity_type, Some(5));
}

#[test]
fn render_playing_type_is_omitted_for_legacy() {
    // Playing (the default) must not emit a `type` field so existing
    // payloads stay byte-for-byte identical.
    let presence = RichPresence::builder()
        .state("Editing")
        .activity_type(PresenceActivityType::Playing)
        .build();
    let rendered = to_activity_data(&presence);
    assert_eq!(rendered.activity_type, None);
}

#[test]
fn render_serializes_party() {
    let presence = RichPresence::builder()
        .state("In lobby")
        .party(PresenceParty {
            id: Some("lobby-1".to_string()),
            size: Some((2, 8)),
        })
        .build();

    let rendered = to_activity_data(&presence);
    let party = rendered.party.expect("party should be rendered");
    assert_eq!(party.id.as_deref(), Some("lobby-1"));
    assert_eq!(party.size, Some((2, 8)));
}

#[test]
fn render_serializes_secrets() {
    let presence = RichPresence::builder()
        .state("Queued")
        .secrets(PresenceSecrets {
            join: Some("join-secret".to_string()),
            spectate: Some("spectate-secret".to_string()),
            match_secret: Some("match-secret".to_string()),
        })
        .build();

    let rendered = to_activity_data(&presence);
    let secrets = rendered.secrets.expect("secrets should be rendered");
    assert_eq!(secrets.join.as_deref(), Some("join-secret"));
    assert_eq!(secrets.spectate.as_deref(), Some("spectate-secret"));
    assert_eq!(secrets.match_secret.as_deref(), Some("match-secret"));
}

#[test]
fn render_serializes_instance_when_true() {
    let presence = RichPresence::builder()
        .state("Ready")
        .instance(true)
        .build();
    let rendered = to_activity_data(&presence);
    assert_eq!(rendered.instance, Some(true));
}

#[test]
fn render_builder_to_renderer_integration() {
    // The full pipeline: fluent builder -> RichPresence -> ActivityData.
    let presence = RichPresence::builder()
        .state("Producing")
        .details("Horizon.flp")
        .button(PresenceButton {
            label: "Open Project".to_string(),
            url: "https://example.com/open".to_string(),
        })
        .party(PresenceParty {
            id: None,
            size: Some((1, 1)),
        })
        .build();

    let rendered = to_activity_data(&presence);
    assert_eq!(rendered.state, "Producing");
    assert_eq!(rendered.details.as_deref(), Some("Horizon.flp"));
    assert_eq!(rendered.buttons, vec!["Open Project".to_string()]);
    assert_eq!(rendered.party.unwrap().size, Some((1, 1)));
}

