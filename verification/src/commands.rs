//! The decisions behind the command line: which room and mention a command
//! uses, the configuration a setup creates, and viewing or changing one
//! configuration key.
use vstd::prelude::*;
use crate::config::{
    Config, ConfigView, TrustMode, mention_pattern_of, parse_trust_mode, trust_mode_from, trust_mode_name,
    trust_mode_text,
};
use crate::error::BridgeError;
use crate::text::{after_char, before_char, chars_of, copy_opt, copy_str, find_char, find_char_from, same_text, string_of_range};

verus! {

/// The message when a command has no room to work on.
pub open spec fn no_room_text() -> Seq<char> {
    "No room specified and no default_room in config"@
}

/// The room a command works on: the one given, else the configured default.
pub open spec fn resolved_room(c: ConfigView, room: Option<Seq<char>>) -> Option<Seq<char>> {
    match room {
        Some(r) => Some(r),
        None => c.default_room,
    }
}

/// The user a sent message mentions: none when mentions are suppressed, else
/// the one given, else the configured default.
pub open spec fn resolved_mention(c: ConfigView, mention: Option<Seq<char>>, no_mention: bool) -> Option<Seq<char>> {
    if no_mention {
        None
    } else {
        match mention {
            Some(m) => Some(m),
            None => c.default_mention,
        }
    }
}

/// The room a command works on; an error when neither the command nor the
/// configuration names one.
pub fn resolve_room(config: &Config, room: Option<String>) -> (r: Result<String, BridgeError>)
    ensures
        room matches Some(given) ==> r matches Ok(s) && s@ == given@,
        r is Err <==> room is None && config.default_room is None,
        match resolved_room(config@, crate::config::opt_view(room)) {
            Some(id) => r matches Ok(s) && s@ == id,
            None => r matches Err(BridgeError::Other(m)) && m@ == no_room_text(),
        },
{
    match room {
        Some(r) => Ok(r),
        None => match &config.default_room {
            Some(d) => Ok(d.clone()),
            None => Err(BridgeError::Other("No room specified and no default_room in config".to_owned())),
        },
    }
}

/// The user a sent message mentions, if any.
pub fn resolve_mention(config: &Config, mention: Option<String>, no_mention: bool) -> (r: Option<String>)
    ensures
        crate::config::opt_view(r) == resolved_mention(config@, crate::config::opt_view(mention), no_mention),
{
    if no_mention {
        None
    } else {
        match mention {
            Some(m) => Some(m),
            None => copy_opt(&config.default_mention),
        }
    }
}

/// A room given to a command is the room used, whatever the configuration;
/// without one, the configured default room is used, and with neither there
/// is no room.
pub proof fn law_given_room_is_used(c: ConfigView, room: Seq<char>)
    ensures
        resolved_room(c, Some(room)) == Some(room),
        resolved_room(c, None) == c.default_room,
{
}

/// Suppressing mentions wins over everything; otherwise a user given to the
/// command is mentioned, whatever the configuration, and without one the
/// configured default mention.
pub proof fn law_given_mention_is_used(c: ConfigView, mention: Seq<char>)
    ensures
        resolved_mention(c, Some(mention), true) is None,
        resolved_mention(c, None, true) is None,
        resolved_mention(c, Some(mention), false) == Some(mention),
        resolved_mention(c, None, false) == c.default_mention,
{
}

/// Whether a typed-in user ID has the `@user:server` shape that setup asks for.
pub open spec fn setup_user_ok(u: Seq<char>) -> bool {
    u.len() > 0 && u[0] == '@' && find_char(u, ':') < u.len()
}

/// The homeserver URL setup derives from a user ID: `https://` and the part
/// between the first and the second `:`.
pub open spec fn setup_homeserver(u: Seq<char>) -> Seq<char> {
    "https://"@ + before_char(after_char(u, ':'), ':')
}

/// The message for a user ID that setup rejects.
pub open spec fn bad_user_id_text() -> Seq<char> {
    "Invalid user ID format. Expected @user:server"@
}

/// The homeserver URL setup uses for a typed-in user ID (already trimmed);
/// an error when it does not start with `@` or has no `:`.
pub fn homeserver_for(user_id: &str) -> (r: Result<String, BridgeError>)
    ensures
        setup_user_ok(user_id@) ==> (r matches Ok(h) && h@ == setup_homeserver(user_id@)),
        !setup_user_ok(user_id@) ==> (r matches Err(BridgeError::Other(m)) && m@ == bad_user_id_text()),
{
    let v = chars_of(user_id);
    if v.len() == 0 || v[0] != '@' {
        return Err(BridgeError::Other("Invalid user ID format. Expected @user:server".to_owned()));
    }
    let k = find_char_from(&v, 0, ':');
    assert(v@.skip(0) == v@);
    if k == v.len() {
        return Err(BridgeError::Other("Invalid user ID format. Expected @user:server".to_owned()));
    }
    let e = find_char_from(&v, k + 1, ':');
    let server = string_of_range(&v, k + 1, e);
    proof {
        let t = after_char(v@, ':');
        assert(t == v@.skip(k + 1));
        assert(server@ == t.take(find_char(t, ':')));
    }
    let mut homeserver = "https://".to_owned();
    homeserver.append(server.as_str());
    Ok(homeserver)
}

/// Setup accepts every `@user:host` (and `@user:host:port`), for a `user`
/// and a `host` without `:`, and derives the homeserver `https://host` from it.
pub proof fn law_setup_homeserver_is_the_host(user: Seq<char>, host: Seq<char>, port: Seq<char>, with_port: bool)
    requires
        !user.contains(':'),
        !host.contains(':'),
    ensures
        ({
            let id = seq!['@'] + user + seq![':'] + host + (if with_port { seq![':'] + port } else { Seq::empty() });
            setup_user_ok(id) && setup_homeserver(id) == "https://"@ + host
        }),
{
    let rest: Seq<char> = if with_port { seq![':'] + port } else { Seq::empty() };
    let id = seq!['@'] + user + seq![':'] + host + rest;
    assert forall|j: int| 0 <= j < user.len() + 1 implies id[j] != ':' by {
        if j > 0 {
            assert(id[j] == user[j - 1]);
            if id[j] == ':' {
                assert(user.contains(':'));
            }
        }
    }
    assert(id[user.len() + 1int] == ':');
    crate::text::lemma_find_char_unique(id, ':', user.len() + 1int);
    let t = after_char(id, ':');
    assert(t =~= host + rest);
    assert forall|j: int| 0 <= j < host.len() implies t[j] != ':' by {
        assert(t[j] == host[j]);
        if t[j] == ':' {
            assert(host.contains(':'));
        }
    }
    if with_port {
        assert(t[host.len() as int] == ':');
    }
    crate::text::lemma_find_char_unique(t, ':', host.len() as int);
    assert(before_char(t, ':') =~= host);
}

/// The configuration that setup writes for `user_id` (already trimmed),
/// keeping the store at `store_path`; an error when `user_id` does not start
/// with `@` or has no `:`.
pub fn setup_config(user_id: &str, store_path: &str) -> (r: Result<Config, BridgeError>)
    ensures
        setup_user_ok(user_id@) ==> (r matches Ok(c) && c@ == (ConfigView {
            homeserver: setup_homeserver(user_id@),
            user_id: user_id@,
            device_name: "matrix-bridge"@,
            store_path: store_path@,
            trust_mode: TrustMode::Tofu,
            default_room: None,
            default_mention: None,
            notify_on_mention: None,
        })),
        !setup_user_ok(user_id@) ==> (r matches Err(BridgeError::Other(m)) && m@ == bad_user_id_text()),
{
    let homeserver = match homeserver_for(user_id) {
        Ok(h) => h,
        Err(e) => {
            return Err(e);
        },
    };
    Ok(Config {
        homeserver,
        user_id: copy_str(user_id),
        device_name: crate::config::default_device_name(),
        store_path: copy_str(store_path),
        trust_mode: TrustMode::Tofu,
        default_room: None,
        default_mention: None,
        notify_on_mention: None,
    })
}

/// The value a configuration key shows, as the configuration file writes it;
/// `None` for an unknown key and for an optional key that is unset (such keys
/// are left out of the file).
pub open spec fn config_field(c: ConfigView, key: Seq<char>) -> Option<Seq<char>> {
    if key == "homeserver"@ {
        Some(c.homeserver)
    } else if key == "user_id"@ {
        Some(c.user_id)
    } else if key == "device_name"@ {
        Some(c.device_name)
    } else if key == "store_path"@ {
        Some(c.store_path)
    } else if key == "trust_mode"@ {
        Some(trust_mode_name(c.trust_mode))
    } else if key == "default_room"@ {
        c.default_room
    } else if key == "default_mention"@ {
        c.default_mention
    } else if key == "notify_on_mention"@ {
        c.notify_on_mention
    } else {
        None
    }
}

/// Whether `key` names a field of the configuration.
pub open spec fn is_config_key(key: Seq<char>) -> bool {
    key == "homeserver"@ || key == "user_id"@ || key == "device_name"@ || key == "store_path"@
        || key == "trust_mode"@ || key == "default_room"@ || key == "default_mention"@
        || key == "notify_on_mention"@
}

/// The configuration after setting `key` to `value`: the named field takes the
/// value (an optional one becomes set); a `trust_mode` value that names no
/// trust mode is rejected (`None`); an unknown key changes nothing.
pub open spec fn config_with(c: ConfigView, key: Seq<char>, value: Seq<char>) -> Option<ConfigView> {
    if key == "homeserver"@ {
        Some(ConfigView { homeserver: value, ..c })
    } else if key == "user_id"@ {
        Some(ConfigView { user_id: value, ..c })
    } else if key == "device_name"@ {
        Some(ConfigView { device_name: value, ..c })
    } else if key == "store_path"@ {
        Some(ConfigView { store_path: value, ..c })
    } else if key == "trust_mode"@ {
        match parse_trust_mode(value) {
            Some(m) => Some(ConfigView { trust_mode: m, ..c }),
            None => None,
        }
    } else if key == "default_room"@ {
        Some(ConfigView { default_room: Some(value), ..c })
    } else if key == "default_mention"@ {
        Some(ConfigView { default_mention: Some(value), ..c })
    } else if key == "notify_on_mention"@ {
        Some(ConfigView { notify_on_mention: Some(value), ..c })
    } else {
        Some(c)
    }
}

/// The message for an unknown (or unset) configuration key.
pub open spec fn unknown_key_text(key: Seq<char>) -> Seq<char> {
    "Unknown config key: "@ + key
}

/// The message with which a `trust_mode` value that names no trust mode is rejected.
pub open spec fn bad_trust_mode_text(value: Seq<char>) -> Seq<char> {
    "unknown variant `"@ + value + "`, expected one of `"@ + trust_mode_name(TrustMode::Tofu) + "`, `"@
        + trust_mode_name(TrustMode::All) + "`, `"@ + trust_mode_name(TrustMode::Explicit) + "`"@
}

/// The value of one configuration key; an error for an unknown or unset key.
pub fn config_value(config: &Config, key: &str) -> (r: Result<String, BridgeError>)
    ensures
        match config_field(config@, key@) {
            Some(v) => r matches Ok(s) && s@ == v,
            None => r matches Err(BridgeError::Other(m)) && m@ == unknown_key_text(key@),
        },
{
    let found: Option<String> = if same_text(key, "homeserver") {
        Some(config.homeserver.clone())
    } else if same_text(key, "user_id") {
        Some(config.user_id.clone())
    } else if same_text(key, "device_name") {
        Some(config.device_name.clone())
    } else if same_text(key, "store_path") {
        Some(config.store_path.clone())
    } else if same_text(key, "trust_mode") {
        Some(trust_mode_text(config.trust_mode))
    } else if same_text(key, "default_room") {
        copy_opt(&config.default_room)
    } else if same_text(key, "default_mention") {
        copy_opt(&config.default_mention)
    } else if same_text(key, "notify_on_mention") {
        copy_opt(&config.notify_on_mention)
    } else {
        None
    };
    match found {
        Some(v) => Ok(v),
        None => {
            let mut m = "Unknown config key: ".to_owned();
            m.append(key);
            Err(BridgeError::Other(m))
        },
    }
}

/// What serde answers for an enum variant `value` that is not among `names`.
pub uninterp spec fn variant_rejection(value: Seq<char>, names: Seq<Seq<char>>) -> Seq<char>;

/// serde's rejection of an unknown enum variant, through `serde_json::Error`:
/// `<serde_json::Error as serde::de::Error>::unknown_variant`, shown with
/// `to_string`. Its result is named `variant_rejection`; for three names the
/// text is stated: serde formats `unknown variant `VALUE`, expected one of
/// `A`, `B`, `C``, and serde_json attaches no line or column to it (it only
/// takes a position from a message that ends in digits).
#[verifier::external_body]
fn unknown_variant_text(value: &str, names: &'static [&'static str]) -> (r: String)
    ensures
        r@ == variant_rejection(value@, names@.map_values(|n: &str| n@)),
        names@.len() == 3 ==> r@ == "unknown variant `"@ + value@ + "`, expected one of `"@ + names@[0]@ + "`, `"@ + names@[1]@ + "`, `"@ + names@[2]@ + "`"@,
{
    <serde_json::Error as serde::de::Error>::unknown_variant(value, names).to_string()
}

/// The text with which a `trust_mode` value that names no trust mode is
/// rejected: serde's answer for the names of the three trust modes.
fn trust_mode_rejection(value: &str) -> (r: String)
    ensures
        r@ == bad_trust_mode_text(value@),
{
    let names: &'static [&'static str] = &["tofu", "all", "explicit"];
    assert(names@.len() == 3);
    assert(names@[0]@ == "tofu"@);
    assert(names@[1]@ == "all"@);
    assert(names@[2]@ == "explicit"@);
    unknown_variant_text(value, names)
}

/// The configuration after setting `key` to `value` (see `config_with`); a
/// `trust_mode` value that names no trust mode gives a JSON error.
pub fn config_set(config: &Config, key: &str, value: &str) -> (r: Result<Config, BridgeError>)
    ensures
        match config_with(config@, key@, value@) {
            Some(c) => r matches Ok(n) && n@ == c,
            None => r matches Err(BridgeError::Json(m)) && m@ == bad_trust_mode_text(value@),
        },
{
    let mut c = config.copy();
    if same_text(key, "homeserver") {
        c.homeserver = copy_str(value);
    } else if same_text(key, "user_id") {
        c.user_id = copy_str(value);
    } else if same_text(key, "device_name") {
        c.device_name = copy_str(value);
    } else if same_text(key, "store_path") {
        c.store_path = copy_str(value);
    } else if same_text(key, "trust_mode") {
        match trust_mode_from(value) {
            Some(m) => {
                c.trust_mode = m;
            },
            None => {
                return Err(BridgeError::Json(trust_mode_rejection(value)));
            },
        }
    } else if same_text(key, "default_room") {
        c.default_room = Some(copy_str(value));
    } else if same_text(key, "default_mention") {
        c.default_mention = Some(copy_str(value));
    } else if same_text(key, "notify_on_mention") {
        c.notify_on_mention = Some(copy_str(value));
    }
    Ok(c)
}

/// Setting a key and reading it back gives the value set, for every key of
/// the configuration (for `trust_mode`, every value that names a trust mode).
pub proof fn law_config_set_then_get(c: ConfigView, key: Seq<char>, value: Seq<char>)
    requires
        is_config_key(key),
        key == "trust_mode"@ ==> parse_trust_mode(value) is Some,
    ensures
        config_with(c, key, value) matches Some(n) && config_field(n, key) == Some(value),
{
}

/// Setting one key leaves the value of every other key as it was.
pub proof fn law_config_set_keeps_other_keys(c: ConfigView, key: Seq<char>, value: Seq<char>, other: Seq<char>)
    requires
        other != key,
        config_with(c, key, value) is Some,
    ensures
        config_field(config_with(c, key, value)->0, other) == config_field(c, other),
{
}

/// Once `notify_on_mention` is set, notifications look for exactly that
/// pattern; with it unset they look for the local part of `user_id`.
pub proof fn law_notify_setting_sets_pattern(c: ConfigView, pattern: Seq<char>)
    ensures
        config_with(c, "notify_on_mention"@, pattern) matches Some(n) && mention_pattern_of(n) == pattern,
        c.notify_on_mention is None ==> mention_pattern_of(c) == crate::text::local_part(c.user_id),
{
    lemma_config_keys_distinct();
}

/// The names of the configuration keys are pairwise different.
proof fn lemma_config_keys_distinct()
    ensures
        "homeserver"@ != "user_id"@,
        "homeserver"@ != "device_name"@,
        "homeserver"@ != "store_path"@,
        "homeserver"@ != "trust_mode"@,
        "homeserver"@ != "default_room"@,
        "homeserver"@ != "default_mention"@,
        "homeserver"@ != "notify_on_mention"@,
        "user_id"@ != "device_name"@,
        "user_id"@ != "store_path"@,
        "user_id"@ != "trust_mode"@,
        "user_id"@ != "default_room"@,
        "user_id"@ != "default_mention"@,
        "user_id"@ != "notify_on_mention"@,
        "device_name"@ != "store_path"@,
        "device_name"@ != "trust_mode"@,
        "device_name"@ != "default_room"@,
        "device_name"@ != "default_mention"@,
        "device_name"@ != "notify_on_mention"@,
        "store_path"@ != "trust_mode"@,
        "store_path"@ != "default_room"@,
        "store_path"@ != "default_mention"@,
        "store_path"@ != "notify_on_mention"@,
        "trust_mode"@ != "default_room"@,
        "trust_mode"@ != "default_mention"@,
        "trust_mode"@ != "notify_on_mention"@,
        "default_room"@ != "default_mention"@,
        "default_room"@ != "notify_on_mention"@,
        "default_mention"@ != "notify_on_mention"@,
{
    reveal_strlit("homeserver");
    reveal_strlit("user_id");
    reveal_strlit("device_name");
    reveal_strlit("store_path");
    reveal_strlit("trust_mode");
    reveal_strlit("default_room");
    reveal_strlit("default_mention");
    reveal_strlit("notify_on_mention");
    assert("homeserver"@.len() == 10);
    assert("user_id"@.len() == 7);
    assert("device_name"@.len() == 11);
    assert("store_path"@.len() == 10);
    assert("trust_mode"@.len() == 10);
    assert("default_room"@.len() == 12);
    assert("default_mention"@.len() == 15);
    assert("notify_on_mention"@.len() == 17);
    assert("homeserver"@[0] != "store_path"@[0]);
    assert("homeserver"@[0] != "trust_mode"@[0]);
    assert("store_path"@[0] != "trust_mode"@[0]);
}

/// Each configuration key reads and writes the field of the configuration
/// that has its name: `homeserver`, `user_id`, `device_name`, `store_path`,
/// `trust_mode` (by its name, a value that names a trust mode), and the
/// optional `default_room`, `default_mention` and `notify_on_mention`; a
/// write changes that field alone. Any other key shows nothing.
pub proof fn law_config_keys_name_fields(c: ConfigView, value: Seq<char>, key: Seq<char>)
    ensures
        config_field(c, "homeserver"@) == Some(c.homeserver),
        config_field(c, "user_id"@) == Some(c.user_id),
        config_field(c, "device_name"@) == Some(c.device_name),
        config_field(c, "store_path"@) == Some(c.store_path),
        config_field(c, "trust_mode"@) == Some(trust_mode_name(c.trust_mode)),
        config_field(c, "default_room"@) == c.default_room,
        config_field(c, "default_mention"@) == c.default_mention,
        config_field(c, "notify_on_mention"@) == c.notify_on_mention,
        !is_config_key(key) ==> config_field(c, key) is None,
        config_with(c, "homeserver"@, value) == Some(ConfigView { homeserver: value, ..c }),
        config_with(c, "user_id"@, value) == Some(ConfigView { user_id: value, ..c }),
        config_with(c, "device_name"@, value) == Some(ConfigView { device_name: value, ..c }),
        config_with(c, "store_path"@, value) == Some(ConfigView { store_path: value, ..c }),
        config_with(c, "trust_mode"@, value) == (match parse_trust_mode(value) {
            Some(m) => Some(ConfigView { trust_mode: m, ..c }),
            None => None,
        }),
        config_with(c, "default_room"@, value) == Some(ConfigView { default_room: Some(value), ..c }),
        config_with(c, "default_mention"@, value) == Some(ConfigView { default_mention: Some(value), ..c }),
        config_with(c, "notify_on_mention"@, value) == Some(ConfigView { notify_on_mention: Some(value), ..c }),
{
    lemma_config_keys_distinct();
}

/// Setting a key that the configuration does not have changes nothing.
pub proof fn law_config_set_unknown_key(c: ConfigView, key: Seq<char>, value: Seq<char>)
    requires
        !is_config_key(key),
    ensures
        config_with(c, key, value) == Some(c),
{
}

} // verus!
