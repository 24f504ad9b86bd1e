use matrix_bridge::commands::{
    config_set, config_value, homeserver_for, resolve_mention, resolve_room, setup_config,
};
use matrix_bridge::config::{
    config_path, config_path_in, credentials_path, dir_in_home, join_path_bytes, store_path_in, default_device_name, default_dir, default_store_path,
    default_trust_mode, join_path, missing_config_error, trust_mode_from, trust_mode_text, Config,
    TrustMode,
};
use matrix_bridge::error::BridgeError;

fn sample_config() -> Config {
    Config {
        homeserver: "https://matrix.org".to_string(),
        user_id: "@mybot:matrix.org".to_string(),
        device_name: "matrix-bridge".to_string(),
        store_path: "/home/user/.matrix-bridge/store".to_string(),
        trust_mode: TrustMode::Tofu,
        default_room: Some("!roomid:matrix.org".to_string()),
        default_mention: Some("@friend:matrix.org".to_string()),
        notify_on_mention: None,
    }
}

#[test]
fn defaults_match_the_documented_values() {
    assert_eq!(default_device_name(), "matrix-bridge");
    assert_eq!(default_trust_mode(), TrustMode::Tofu);
}

#[test]
fn join_path_follows_unix_rules() {
    assert_eq!(join_path("/home/u", ".matrix-bridge"), "/home/u/.matrix-bridge");
    assert_eq!(join_path("/home/u/", "store"), "/home/u/store");
    assert_eq!(join_path("", "store"), "store");
    assert_eq!(join_path("/home/u", "/etc/other"), "/etc/other");
    assert_eq!(
        join_path(&join_path("/root", ".matrix-bridge"), "config.json"),
        "/root/.matrix-bridge/config.json"
    );
}

#[test]
fn paths_under_the_home_directory() {
    if let Some(dir) = default_dir() {
        assert!(dir.ends_with(b"/.matrix-bridge"));
        let mut expected = dir.clone();
        expected.extend_from_slice(b"/config.json");
        assert_eq!(config_path().unwrap(), expected);
        let store = default_store_path().unwrap();
        assert_eq!(store, format!("{}/store", String::from_utf8_lossy(&dir)));
    }
}

#[test]
fn bytes_of_paths_join_like_unix() {
    assert_eq!(join_path_bytes(b"/home/u", b"x"), b"/home/u/x".to_vec());
    assert_eq!(join_path_bytes(b"/home/u/", b"x"), b"/home/u/x".to_vec());
    assert_eq!(join_path_bytes(b"", b"x"), b"x".to_vec());
    assert_eq!(join_path_bytes(b"/home/u", b"/etc"), b"/etc".to_vec());
    // A home directory that is not UTF-8 keeps its bytes.
    assert_eq!(dir_in_home(b"/home/\xff"), b"/home/\xff/.matrix-bridge".to_vec());
}

#[test]
fn credentials_live_in_the_store() {
    let config = sample_config();
    assert_eq!(
        credentials_path(&config),
        "/home/user/.matrix-bridge/store/credentials.json"
    );
}

#[test]
fn missing_config_message() {
    let e = missing_config_error("/x/config.json");
    assert_eq!(
        e.message(),
        "Configuration error: Config not found at /x/config.json — run `matrix-bridge setup`"
    );
}

#[test]
fn mention_pattern_defaults_to_local_part() {
    let mut config = sample_config();
    assert_eq!(config.mention_pattern(), "mybot");
    config.notify_on_mention = Some("Helper".to_string());
    assert_eq!(config.mention_pattern(), "Helper");
    config.notify_on_mention = None;
    config.user_id = "plainname".to_string();
    assert_eq!(config.mention_pattern(), "plainname");
}

#[test]
fn trust_mode_names() {
    assert_eq!(trust_mode_text(TrustMode::Tofu), "tofu");
    assert_eq!(trust_mode_text(TrustMode::All), "all");
    assert_eq!(trust_mode_text(TrustMode::Explicit), "explicit");
    assert_eq!(trust_mode_from("explicit"), Some(TrustMode::Explicit));
    assert_eq!(trust_mode_from("Tofu"), None);
}

#[test]
fn resolve_room_prefers_the_given_room() {
    let mut config = sample_config();
    assert_eq!(resolve_room(&config, Some("!other:x".to_string())).unwrap(), "!other:x");
    assert_eq!(resolve_room(&config, None).unwrap(), "!roomid:matrix.org");
    config.default_room = None;
    match resolve_room(&config, None) {
        Err(BridgeError::Other(m)) => {
            assert_eq!(m, "No room specified and no default_room in config")
        }
        other => panic!("unexpected {:?}", other),
    }
}

#[test]
fn resolve_mention_rules() {
    let config = sample_config();
    assert_eq!(resolve_mention(&config, None, true), None);
    assert_eq!(resolve_mention(&config, Some("@a:b".to_string()), true), None);
    assert_eq!(
        resolve_mention(&config, Some("@a:b".to_string()), false),
        Some("@a:b".to_string())
    );
    assert_eq!(
        resolve_mention(&config, None, false),
        Some("@friend:matrix.org".to_string())
    );
}

#[test]
fn setup_derives_the_homeserver() {
    let c = setup_config("@bot:matrix.org", "/h/.matrix-bridge/store").unwrap();
    assert_eq!(c.homeserver, "https://matrix.org");
    assert_eq!(c.user_id, "@bot:matrix.org");
    assert_eq!(c.device_name, "matrix-bridge");
    assert_eq!(c.store_path, "/h/.matrix-bridge/store");
    assert_eq!(c.trust_mode, TrustMode::Tofu);
    assert!(c.default_room.is_none() && c.default_mention.is_none() && c.notify_on_mention.is_none());
    let c = setup_config("@bot:example.org:8448", "s").unwrap();
    assert_eq!(c.homeserver, "https://example.org");
}

#[test]
fn setup_rejects_bad_user_ids() {
    for bad in ["bot:matrix.org", "@bot", "", "matrix.org"] {
        match setup_config(bad, "s") {
            Err(BridgeError::Other(m)) => {
                assert_eq!(m, "Invalid user ID format. Expected @user:server")
            }
            other => panic!("unexpected {:?}", other),
        }
    }
}

#[test]
fn config_value_reads_fields() {
    let config = sample_config();
    assert_eq!(config_value(&config, "homeserver").unwrap(), "https://matrix.org");
    assert_eq!(config_value(&config, "trust_mode").unwrap(), "tofu");
    assert_eq!(config_value(&config, "default_room").unwrap(), "!roomid:matrix.org");
    match config_value(&config, "notify_on_mention") {
        Err(BridgeError::Other(m)) => assert_eq!(m, "Unknown config key: notify_on_mention"),
        other => panic!("unexpected {:?}", other),
    }
    match config_value(&config, "nope") {
        Err(BridgeError::Other(m)) => assert_eq!(m, "Unknown config key: nope"),
        other => panic!("unexpected {:?}", other),
    }
}

#[test]
fn config_set_then_get() {
    let config = sample_config();
    let c = config_set(&config, "default_room", "!new:matrix.org").unwrap();
    assert_eq!(config_value(&c, "default_room").unwrap(), "!new:matrix.org");
    assert_eq!(c.homeserver, config.homeserver);
    let c = config_set(&c, "notify_on_mention", "helper").unwrap();
    assert_eq!(c.notify_on_mention, Some("helper".to_string()));
    assert_eq!(c.mention_pattern(), "helper");
    let c = config_set(&c, "trust_mode", "explicit").unwrap();
    assert_eq!(c.trust_mode, TrustMode::Explicit);
    assert_eq!(config_value(&c, "trust_mode").unwrap(), "explicit");
}

#[test]
fn config_set_unknown_key_changes_nothing() {
    let config = sample_config();
    let c = config_set(&config, "colour", "blue").unwrap();
    assert_eq!(c.homeserver, config.homeserver);
    assert_eq!(c.user_id, config.user_id);
    assert_eq!(c.default_room, config.default_room);
    assert_eq!(c.trust_mode, config.trust_mode);
}

#[test]
fn config_set_rejects_unknown_trust_mode() {
    let config = sample_config();
    match config_set(&config, "trust_mode", "paranoid") {
        Err(BridgeError::Json(m)) => assert_eq!(
            m,
            "unknown variant `paranoid`, expected one of `tofu`, `all`, `explicit`"
        ),
        other => panic!("unexpected {:?}", other),
    }
    match config_set(&config, "trust_mode", "x at line 1 column 2") {
        Err(e) => assert_eq!(
            e.message(),
            "JSON error: unknown variant `x at line 1 column 2`, expected one of `tofu`, `all`, `explicit`"
        ),
        other => panic!("unexpected {:?}", other),
    }
}

#[test]
fn bridge_dir_under_home() {
    assert_eq!(dir_in_home(b"/home/user"), b"/home/user/.matrix-bridge".to_vec());
    assert_eq!(dir_in_home(b"/"), b"/.matrix-bridge".to_vec());
}

#[test]
fn homeserver_from_user_id() {
    assert_eq!(homeserver_for("@bot:matrix.org").unwrap(), "https://matrix.org");
    assert_eq!(homeserver_for("@bot:a.org:8448").unwrap(), "https://a.org");
    assert_eq!(homeserver_for("@bot:").unwrap(), "https://");
    match homeserver_for("bot") {
        Err(BridgeError::Other(m)) => assert_eq!(m, "Invalid user ID format. Expected @user:server"),
        other => panic!("unexpected {:?}", other),
    }
}

#[test]
fn config_and_store_paths_under_a_home() {
    assert_eq!(config_path_in(b"/home/u"), b"/home/u/.matrix-bridge/config.json".to_vec());
    assert_eq!(store_path_in(b"/home/u"), "/home/u/.matrix-bridge/store");
    assert_eq!(store_path_in(b"/home/\xff"), "/home/\u{fffd}/.matrix-bridge/store");
}
