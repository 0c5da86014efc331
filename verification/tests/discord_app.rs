use presencehub::discord_app::{
    app_name_from_rpc, app_name_from_rpc_body, assets_url, choose_logo_asset, logo_from_assets_body, parse_app_id,
    parse_u64, rpc_url, DiscordAppDetails,
};
use presencehub::text::decimal_string;

#[test]
fn app_id_validation_messages() {
    assert_eq!(parse_app_id("  1533559059125637311 "), Ok(1533559059125637311));
    assert_eq!(parse_app_id("   ").unwrap_err(), "Application ID cannot be empty");
    assert_eq!(
        parse_app_id("abc").unwrap_err(),
        "Application ID must be a numeric snowflake ID (e.g. 1533559059125637311)"
    );
    assert_eq!(parse_app_id("0").unwrap_err(), "Application ID must be greater than 0");
    assert!(parse_app_id("18446744073709551616").is_err());
}

#[test]
fn u64_parsing_matches_std() {
    for s in ["0", "+7", "007", "18446744073709551615", "18446744073709551616", "", "+", "-1", "1 2", "١"] {
        assert_eq!(parse_u64(s), s.parse::<u64>().ok(), "input {:?}", s);
    }
}

#[test]
fn urls_embed_the_id() {
    assert_eq!(rpc_url(42), "https://discord.com/api/v10/applications/42/rpc");
    assert_eq!(assets_url(42), "https://discord.com/api/v10/oauth2/applications/42/assets");
}

#[test]
fn rpc_name_or_explanation() {
    assert_eq!(app_name_from_rpc(Some("Blender".to_string()), None), Ok("Blender".to_string()));
    let unknown = app_name_from_rpc(None, Some("Unknown Application".to_string())).unwrap_err();
    assert!(unknown.starts_with("Discord error: Unknown Application. Please make sure"));
    assert_eq!(
        app_name_from_rpc(None, Some("rate limited".to_string())).unwrap_err(),
        "Discord error: rate limited"
    );
    assert_eq!(
        app_name_from_rpc(None, None).unwrap_err(),
        "Application not found or inaccessible on Discord"
    );
}

#[test]
fn logo_asset_preference_order() {
    let names = |v: &[Option<&str>]| v.iter().map(|o| o.map(|s| s.to_string())).collect::<Vec<_>>();
    assert_eq!(choose_logo_asset(&names(&[Some("icon"), Some("LOGO")])), Some("LOGO".to_string()));
    assert_eq!(choose_logo_asset(&names(&[Some("banner"), Some("App_Logo")])), Some("App_Logo".to_string()));
    assert_eq!(choose_logo_asset(&names(&[Some("banner"), Some("other")])), Some("banner".to_string()));
    assert_eq!(choose_logo_asset(&names(&[None, Some("other")])), None);
    assert_eq!(choose_logo_asset(&names(&[])), None);
}

#[test]
fn app_id_round_trips_through_decimal() {
    for id in [1u64, 9, 10, 1192880494086455357, 1533559059125637311, u64::MAX] {
        let text = decimal_string(id);
        assert_eq!(text, id.to_string());
        assert_eq!(parse_u64(&text), Some(id));
        assert_eq!(parse_app_id(&text), Ok(id));
    }
    assert_eq!(parse_u64(&decimal_string(0)), Some(0));
}

#[test]
fn details_carry_the_decimal_id() {
    let d = DiscordAppDetails::new(1533559059125637311, "PresenceHub".to_string(), Some("logo".to_string()));
    assert_eq!(d.id, "1533559059125637311");
    assert_eq!(d.name, "PresenceHub");
    assert_eq!(d.logo_asset.as_deref(), Some("logo"));
}

#[test]
fn rpc_body_gives_name_or_explanation() {
    assert_eq!(app_name_from_rpc_body(r#"{"id":"1","name":"Blender"}"#), Ok("Blender".to_string()));
    assert_eq!(
        app_name_from_rpc_body(r#"{"message":"Unknown Application","code":10002}"#).unwrap_err(),
        "Discord error: Unknown Application. Please make sure this is the Application ID from General Information in Discord Developer Portal (not the Public Key)."
    );
    assert_eq!(app_name_from_rpc_body(r#"{"message":"Rate limited"}"#).unwrap_err(), "Discord error: Rate limited");
    assert_eq!(
        app_name_from_rpc_body(r#"{"name":7}"#).unwrap_err(),
        "Application not found or inaccessible on Discord"
    );
    assert_eq!(app_name_from_rpc_body("[]").unwrap_err(), "Application not found or inaccessible on Discord");
    let err = app_name_from_rpc_body("<html>").unwrap_err();
    assert!(err.starts_with("Invalid JSON from Discord RPC: "), "{}", err);
    assert!(err.len() > "Invalid JSON from Discord RPC: ".len());
}

#[test]
fn assets_body_gives_the_logo() {
    assert_eq!(
        logo_from_assets_body(r#"[{"id":"1","name":"icon"},{"id":"2","name":"LOGO"}]"#).as_deref(),
        Some("LOGO")
    );
    assert_eq!(logo_from_assets_body(r#"[{"name":"banner"},{"name":"App_Logo"}]"#).as_deref(), Some("App_Logo"));
    assert_eq!(logo_from_assets_body(r#"[{"name":"banner"},{"name":"cover"}]"#).as_deref(), Some("banner"));
    assert_eq!(logo_from_assets_body(r#"[{"id":"1"},{"name":"cover"}]"#), None);
    assert_eq!(logo_from_assets_body("[]"), None);
    assert_eq!(logo_from_assets_body(r#"{"name":"logo"}"#), None);
    assert_eq!(logo_from_assets_body("not json"), None);
}
