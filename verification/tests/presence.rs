use presencehub::activity::{Activity, ActivityTimestamps, Metadata};
use presencehub::presence::{
    PresenceActivityType, PresenceAssets, PresenceButton, PresenceParty, PresenceSecrets,
    PresenceTimestamps, RichPresence, RichPresenceBuilder,
};

// -- Construction --------------------------------------------------------

#[test]
fn rich_presence_default() {
    let presence = RichPresence::default();
    assert_eq!(presence.activity_type, PresenceActivityType::Playing);
    assert!(presence.state.is_none());
    assert!(presence.details.is_none());
    assert!(presence.timestamps.is_none());
    assert!(presence.assets.is_none());
    assert!(presence.buttons.is_empty());
    assert!(presence.party.is_none());
    assert!(presence.secrets.is_none());
    assert!(!presence.instance);
}

#[test]
fn rich_presence_with_all_fields() {
    let presence = RichPresence {
        activity_type: PresenceActivityType::Competing,
        state: Some("In game".to_string()),
        details: Some("Ranked match".to_string()),
        timestamps: Some(PresenceTimestamps {
            start: Some(1000),
            end: Some(2000),
        }),
        assets: Some(PresenceAssets {
            large_image: Some("game".to_string()),
            large_text: Some("My Game".to_string()),
            small_image: Some("badge".to_string()),
            small_text: Some("Rank 5".to_string()),
        }),
        buttons: vec![PresenceButton {
            label: "Join".to_string(),
            url: "https://example.com".to_string(),
        }],
        party: Some(PresenceParty {
            id: Some("lobby-1".to_string()),
            size: Some((2, 8)),
        }),
        secrets: Some(PresenceSecrets {
            join: Some("j".to_string()),
            spectate: None,
            match_secret: None,
        }),
        instance: true,
    };

    assert_eq!(presence.activity_type, PresenceActivityType::Competing);
    assert_eq!(presence.state.as_deref(), Some("In game"));
    assert_eq!(presence.buttons.len(), 1);
    assert_eq!(presence.party.unwrap().size, Some((2, 8)));
    assert_eq!(presence.secrets.unwrap().join.as_deref(), Some("j"));
    assert!(presence.instance);
}

#[test]
fn presence_activity_type_default_is_playing() {
    assert_eq!(
        PresenceActivityType::default(),
        PresenceActivityType::Playing
    );
}

// -- Builder ---------------------------------------------------------------

#[test]
fn builder_default_equals_default_presence() {
    assert_eq!(RichPresence::builder().build(), RichPresence::default());
}

#[test]
fn builder_new_equals_builder_default() {
    assert_eq!(
        RichPresence::builder().build(),
        RichPresenceBuilder::new().build()
    );
}

#[test]
fn builder_chained_setters_populate_all_fields() {
    let presence = RichPresence::builder()
        .state("In game")
        .details("Ranked match")
        .activity_type(PresenceActivityType::Competing)
        .timestamps(PresenceTimestamps {
            start: Some(1000),
            end: Some(2000),
        })
        .assets(PresenceAssets {
            large_image: Some("game".to_string()),
            large_text: Some("My Game".to_string()),
            small_image: Some("badge".to_string()),
            small_text: Some("Rank 5".to_string()),
        })
        .buttons(vec![PresenceButton {
            label: "Join".to_string(),
            url: "https://example.com".to_string(),
        }])
        .party(PresenceParty {
            id: Some("lobby-1".to_string()),
            size: Some((2, 8)),
        })
        .secrets(PresenceSecrets {
            join: Some("j".to_string()),
            spectate: None,
            match_secret: Some("m".to_string()),
        })
        .instance(true)
        .build();

    assert_eq!(presence.activity_type, PresenceActivityType::Competing);
    assert_eq!(presence.state.as_deref(), Some("In game"));
    assert_eq!(presence.details.as_deref(), Some("Ranked match"));
    assert_eq!(presence.timestamps.unwrap().start, Some(1000));
    let assets = presence.assets.unwrap();
    assert_eq!(assets.large_image.as_deref(), Some("game"));
    assert_eq!(assets.small_text.as_deref(), Some("Rank 5"));
    assert_eq!(presence.buttons.len(), 1);
    assert_eq!(presence.buttons[0].label, "Join");
    assert_eq!(presence.buttons[0].url, "https://example.com");
    assert_eq!(presence.party.unwrap().size, Some((2, 8)));
    assert_eq!(presence.secrets.unwrap().match_secret.as_deref(), Some("m"));
    assert!(presence.instance);
}

#[test]
fn builder_fields_omitted_stay_none() {
    let presence = RichPresence::builder().state("Only state").build();

    assert_eq!(presence.state.as_deref(), Some("Only state"));
    assert!(presence.details.is_none());
    assert!(presence.timestamps.is_none());
    assert!(presence.assets.is_none());
    assert!(presence.party.is_none());
    assert!(presence.secrets.is_none());
    assert!(presence.buttons.is_empty());
    assert!(!presence.instance);
}

#[test]
fn builder_accepts_into_string_for_state_and_details() {
    let presence = RichPresence::builder()
        .state(String::from("From String"))
        .details("From &str")
        .build();

    assert_eq!(presence.state.as_deref(), Some("From String"));
    assert_eq!(presence.details.as_deref(), Some("From &str"));
}

#[test]
fn builder_button_appends_singular_buttons() {
    let presence = RichPresence::builder()
        .state("In game")
        .button(PresenceButton {
            label: "Join".to_string(),
            url: "https://example.com/join".to_string(),
        })
        .button(PresenceButton {
            label: "Spectate".to_string(),
            url: "https://example.com/spectate".to_string(),
        })
        .build();

    assert_eq!(presence.buttons.len(), 2);
    assert_eq!(presence.buttons[0].label, "Join");
    assert_eq!(presence.buttons[1].url, "https://example.com/spectate");
}

#[test]
fn builder_button_and_buttons_are_equivalent() {
    let chained = RichPresence::builder()
        .button(PresenceButton {
            label: "A".to_string(),
            url: "https://a.example".to_string(),
        })
        .button(PresenceButton {
            label: "B".to_string(),
            url: "https://b.example".to_string(),
        })
        .build();

    let whole = RichPresence::builder()
        .buttons(vec![
            PresenceButton {
                label: "A".to_string(),
                url: "https://a.example".to_string(),
            },
            PresenceButton {
                label: "B".to_string(),
                url: "https://b.example".to_string(),
            },
        ])
        .build();

    assert_eq!(chained, whole);
}

#[test]
fn builder_activity_type_defaults_to_playing() {
    let presence = RichPresence::builder().build();
    assert_eq!(presence.activity_type, PresenceActivityType::Playing);
}

#[test]
fn builder_output_is_immutable_after_build() {
    let presence = RichPresence::builder()
        .state("Initial")
        .details("A")
        .build();
    let original = presence.clone();

    // Eager refs must be local to the builder; the produced value is fixed.
    let _fresh = RichPresence::builder().state("Changed").build();

    assert_eq!(presence, original);
    assert_eq!(presence.state.as_deref(), Some("Initial"));
}

#[test]
fn builder_reusing_a_cloned_builder_produces_independent_values() {
    let builder = RichPresence::builder().state("Shared");
    let first = builder.clone().build();
    let second = builder.build();

    assert_eq!(first, second);
    assert_eq!(first.state.as_deref(), Some("Shared"));
    assert_eq!(second.state.as_deref(), Some("Shared"));
}

#[test]
fn builder_equivalence_with_struct_literal() {
    let from_builder = RichPresence::builder()
        .state("Editing")
        .details("Producing")
        .activity_type(PresenceActivityType::Playing)
        .build();

    let from_literal = RichPresence {
        activity_type: PresenceActivityType::Playing,
        state: Some("Editing".to_string()),
        details: Some("Producing".to_string()),
        timestamps: None,
        assets: None,
        buttons: Vec::new(),
        party: None,
        secrets: None,
        instance: false,
    };

    assert_eq!(from_builder, from_literal);
}

#[test]
fn builder_produces_send_sync_value() {
    fn assert_send<T: Send>() {}
    fn assert_sync<T: Sync>() {}
    assert_send::<RichPresenceBuilder>();
    assert_sync::<RichPresenceBuilder>();
    assert_send::<RichPresence>();
    assert_sync::<RichPresence>();
}

// -- Conversion from Activity ---------------------------------------------

#[test]
fn conversion_maps_state_details_and_timestamps() {
    let activity = Activity {
        state: "Editing".to_string(),
        details: Some("Project: song.flp".to_string()),
        timestamps: Some(ActivityTimestamps {
            start: Some(1000),
            end: Some(2000),
        }),
        metadata: Metadata::new(),
        application: None,
    };

    let presence = RichPresence::from(&activity);

    assert_eq!(presence.activity_type, PresenceActivityType::Playing);
    assert_eq!(presence.state.as_deref(), Some("Editing"));
    assert_eq!(presence.details.as_deref(), Some("Project: song.flp"));
    assert_eq!(presence.timestamps.unwrap().start, Some(1000));
    assert_eq!(presence.timestamps.unwrap().end, Some(2000));
}

#[test]
fn conversion_explicit_large_image_overrides_derived_slug() {
    let mut metadata = Metadata::new();
    metadata.insert("application".to_string(), "Antigravity".to_string());
    metadata.insert("large_image".to_string(), "custom_antigravity".to_string());
    metadata.insert("small_image".to_string(), "robot".to_string());

    let activity = Activity {
        state: "Coding".to_string(),
        details: None,
        timestamps: None,
        metadata,
        application: None,
    };

    let presence = RichPresence::from(&activity);
    let assets = presence.assets.expect("assets should be present");

    assert_eq!(
        assets.large_text.as_deref(),
        Some("Antigravity"),
        "large text still comes from application"
    );
    assert_eq!(
        assets.large_image.as_deref(),
        Some("custom_antigravity"),
        "explicit large_image must override the derived 'antigravity' slug"
    );
    assert_eq!(assets.small_image.as_deref(), Some("robot"));
    assert!(assets.small_text.is_none());
}

#[test]
fn conversion_still_derives_slug_when_no_explicit_key() {
    let mut metadata = Metadata::new();
    metadata.insert("application".to_string(), "FL Studio".to_string());

    let activity = Activity {
        state: "Editing".to_string(),
        details: None,
        timestamps: None,
        metadata,
        application: None,
    };

    let presence = RichPresence::from(&activity);
    let assets = presence.assets.expect("assets should be derived");
    assert_eq!(assets.large_image.as_deref(), Some("flstudio"));
}

#[test]
fn application_takes_precedence_over_metadata() {
    // The explicit `application` field is the first-class identity and
    // must win over a conflicting legacy metadata key.
    let mut metadata = Metadata::new();
    metadata.insert("application".to_string(), "FL Studio".to_string());

    let activity = Activity {
        state: "In Game".to_string(),
        details: None,
        timestamps: None,
        application: Some("Antigravity".to_string()),
        metadata,
    };

    let presence = RichPresence::from(&activity);
    let assets = presence.assets.expect("assets should be present");
    assert_eq!(assets.large_text.as_deref(), Some("Antigravity"));
    assert_eq!(
        assets.large_image.as_deref(),
        Some("antigravity"),
        "the derived slug follows the field, not the metadata"
    );
}

#[test]
fn application_falls_back_to_metadata() {
    // A plugin that predates the field keeps working unchanged: the
    // metadata key is used when `application` is None.
    let mut metadata = Metadata::new();
    metadata.insert("application".to_string(), "FL Studio".to_string());

    let activity = Activity {
        state: "Editing".to_string(),
        details: None,
        timestamps: None,
        application: None,
        metadata,
    };

    let presence = RichPresence::from(&activity);
    let assets = presence.assets.expect("assets should be derived");
    assert_eq!(assets.large_text.as_deref(), Some("FL Studio"));
    assert_eq!(assets.large_image.as_deref(), Some("flstudio"));
}

#[test]
fn no_presencehub_application_fallback() {
    // Regression: the generic layer must never fall back to a generic
    // "PresenceHub" application identity when a plugin does not supply
    // one. No application identity means no assets at all.
    let activity = Activity {
        state: "Idle".to_string(),
        details: None,
        timestamps: None,
        application: None,
        metadata: Metadata::new(),
    };

    let presence = RichPresence::from(&activity);
    assert!(presence.assets.is_none(), "no application -> no assets");
    assert_eq!(presence.state.as_deref(), Some("Idle"));
}

#[test]
fn conversion_uses_large_text_metadata_key_without_application() {
    // A plugin (e.g. OpenCode) that wants the hover tooltip to be the
    // file type name rather than the application name sets
    // metadata["large_text"] and leaves `application` unset.
    let mut metadata = Metadata::new();
    metadata.insert("large_image".to_string(), "rust".to_string());
    metadata.insert("large_text".to_string(), "Rust".to_string());
    metadata.insert("small_image".to_string(), "opencode".to_string());
    metadata.insert("small_text".to_string(), "OpenCode".to_string());

    let activity = Activity {
        state: "Editing main.rs".to_string(),
        details: Some("Project: PresenceHUB".to_string()),
        timestamps: None,
        application: None,
        metadata,
    };

    let presence = RichPresence::from(&activity);
    let assets = presence.assets.expect("assets should be present");

    assert_eq!(assets.large_text.as_deref(), Some("Rust"));
    assert_eq!(assets.large_image.as_deref(), Some("rust"));
    assert_eq!(assets.small_image.as_deref(), Some("opencode"));
    assert_eq!(assets.small_text.as_deref(), Some("OpenCode"));
}

#[test]
fn conversion_application_takes_precedence_over_large_text_key() {
    // If a plugin sets both an application identity and a `large_text`
    // metadata key, the application identity must win.
    let mut metadata = Metadata::new();
    metadata.insert("large_text".to_string(), "Rust".to_string());

    let activity = Activity {
        state: "Editing".to_string(),
        details: None,
        timestamps: None,
        application: Some("OpenCode".to_string()),
        metadata,
    };

    let presence = RichPresence::from(&activity);
    let assets = presence.assets.expect("assets should be present");
    assert_eq!(assets.large_text.as_deref(), Some("OpenCode"));
}

#[test]
fn conversion_small_text_key_takes_precedence_over_version() {
    let mut metadata = Metadata::new();
    metadata.insert("version".to_string(), "21".to_string());
    metadata.insert("small_text".to_string(), "OpenCode".to_string());

    let activity = Activity {
        state: "Editing".to_string(),
        details: None,
        timestamps: None,
        application: None,
        metadata,
    };

    let presence = RichPresence::from(&activity);
    let assets = presence.assets.expect("assets should be present");
    assert_eq!(assets.small_text.as_deref(), Some("OpenCode"));
}

#[test]
fn conversion_derives_assets_from_metadata() {
    let mut metadata = Metadata::new();
    metadata.insert("application".to_string(), "FL Studio".to_string());
    metadata.insert("version".to_string(), "21".to_string());

    let activity = Activity {
        state: "Editing".to_string(),
        details: None,
        timestamps: None,
        metadata,
        application: None,
    };

    let presence = RichPresence::from(&activity);
    let assets = presence.assets.expect("assets should be derived");

    assert_eq!(assets.large_text.as_deref(), Some("FL Studio"));
    assert_eq!(assets.large_image.as_deref(), Some("flstudio"));
    assert_eq!(assets.small_text.as_deref(), Some("21"));
    assert!(assets.small_image.is_none());
}

#[test]
fn conversion_without_metadata_has_no_assets() {
    let activity = Activity {
        state: "Idle".to_string(),
        details: None,
        timestamps: None,
        metadata: Metadata::new(),
        application: None,
    };

    let presence = RichPresence::from(&activity);

    assert!(presence.assets.is_none());
    assert!(presence.timestamps.is_none());
    assert_eq!(presence.state.as_deref(), Some("Idle"));
}

#[test]
fn conversion_ignores_unknown_metadata_keys() {
    let mut metadata = Metadata::new();
    metadata.insert("bpm".to_string(), "128".to_string());

    let activity = Activity {
        state: "Producing".to_string(),
        details: None,
        timestamps: None,
        metadata,
        application: None,
    };

    let presence = RichPresence::from(&activity);

    // Unknown keys must not surface as assets or any typed field.
    assert!(presence.assets.is_none());
    assert!(presence.buttons.is_empty());
    assert!(presence.party.is_none());
    assert!(presence.secrets.is_none());
}

#[test]
fn conversion_uses_builder_and_matches_direct_construction() {
    let mut metadata = Metadata::new();
    metadata.insert("application".to_string(), "FL Studio".to_string());

    let activity = Activity {
        state: "Editing".to_string(),
        details: Some("Project: song.flp".to_string()),
        timestamps: Some(ActivityTimestamps {
            start: Some(1000),
            end: None,
        }),
        metadata,
        application: None,
    };

    let from_activity = RichPresence::from(&activity);

    let manual = RichPresence::builder()
        .state(activity.state.clone())
        .details("Project: song.flp")
        .timestamps(PresenceTimestamps {
            start: Some(1000),
            end: None,
        })
        .assets(PresenceAssets {
            large_image: Some("flstudio".to_string()),
            large_text: Some("FL Studio".to_string()),
            small_image: None,
            small_text: None,
        })
        .build();

    assert_eq!(from_activity, manual);
}

#[test]
fn conversion_defaults_activity_type_and_instance() {
    let activity = Activity {
        state: "Editing".to_string(),
        details: None,
        timestamps: None,
        metadata: Metadata::new(),
        application: None,
    };

    let presence = RichPresence::from(&activity);

    assert_eq!(presence.activity_type, PresenceActivityType::Playing);
    assert!(!presence.instance);
}

// -- Type properties ------------------------------------------------------

#[test]
fn rich_presence_is_send() {
    fn assert_send<T: Send>() {}
    assert_send::<RichPresence>();
}

#[test]
fn rich_presence_is_sync() {
    fn assert_sync<T: Sync>() {}
    assert_sync::<RichPresence>();
}


#[test]
fn slug_lowercases_and_removes_spaces() {
    assert_eq!(presencehub::presence::slug_of("FL Studio"), "flstudio");
    assert_eq!(presencehub::presence::slug_of("Antigravity"), "antigravity");
    assert_eq!(presencehub::presence::slug_of(" A B "), "ab");
}

#[test]
fn conversion_no_large_image_flag_suppresses_image() {
    let mut metadata = Metadata::new();
    metadata.insert("no_large_image".to_string(), "true".to_string());
    let activity = Activity {
        state: "Editing".to_string(),
        details: None,
        timestamps: None,
        application: Some("Blender".to_string()),
        metadata,
    };
    let presence = RichPresence::from(&activity);
    let assets = presence.assets.expect("large text keeps assets present");
    assert!(assets.large_image.is_none());
    assert_eq!(assets.large_text.as_deref(), Some("Blender"));
}
