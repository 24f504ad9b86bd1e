//! The bridge's configuration and session credentials, their defaults, and
//! where they are kept on disk.
use vstd::prelude::*;
use vstd::utf8::{decode_utf8, encode_utf8, valid_utf8};
use crate::error::BridgeError;
use crate::text::{copy_opt, copy_str, local_part, local_part_of};

verus! {

/// How devices of other users are trusted.
#[derive(Debug, Clone, Copy, PartialEq, Eq, Structural)]
pub enum TrustMode {
    /// Trust on first use: new devices are verified automatically.
    Tofu,
    /// Every device is trusted.
    All,
    /// Devices are only trusted after manual verification.
    Explicit,
}

/// The configuration file's contents.
#[derive(Debug, Clone)]
pub struct Config {
    pub homeserver: String,
    pub user_id: String,
    pub device_name: String,
    pub store_path: String,
    pub trust_mode: TrustMode,
    pub default_room: Option<String>,
    pub default_mention: Option<String>,
    /// The pattern whose mention triggers a notification; when unset, the
    /// local part of `user_id` is used.
    pub notify_on_mention: Option<String>,
}

/// A `Config` as plain text values.
pub struct ConfigView {
    pub homeserver: Seq<char>,
    pub user_id: Seq<char>,
    pub device_name: Seq<char>,
    pub store_path: Seq<char>,
    pub trust_mode: TrustMode,
    pub default_room: Option<Seq<char>>,
    pub default_mention: Option<Seq<char>>,
    pub notify_on_mention: Option<Seq<char>>,
}

/// The text of an optional string.
pub open spec fn opt_view(o: Option<String>) -> Option<Seq<char>> {
    match o {
        Some(s) => Some(s@),
        None => None,
    }
}

impl View for Config {
    type V = ConfigView;

    open spec fn view(&self) -> ConfigView {
        ConfigView {
            homeserver: self.homeserver@,
            user_id: self.user_id@,
            device_name: self.device_name@,
            store_path: self.store_path@,
            trust_mode: self.trust_mode,
            default_room: opt_view(self.default_room),
            default_mention: opt_view(self.default_mention),
            notify_on_mention: opt_view(self.notify_on_mention),
        }
    }
}

/// Saved session credentials.
#[derive(Debug, Clone)]
pub struct Credentials {
    pub access_token: String,
    pub user_id: String,
    pub device_id: String,
}

/// The name a trust mode has in the configuration file.
pub open spec fn trust_mode_name(m: TrustMode) -> Seq<char> {
    match m {
        TrustMode::Tofu => "tofu"@,
        TrustMode::All => "all"@,
        TrustMode::Explicit => "explicit"@,
    }
}

/// The trust mode that a configuration value names, if any.
pub open spec fn parse_trust_mode(v: Seq<char>) -> Option<TrustMode> {
    if v == "tofu"@ {
        Some(TrustMode::Tofu)
    } else if v == "all"@ {
        Some(TrustMode::All)
    } else if v == "explicit"@ {
        Some(TrustMode::Explicit)
    } else {
        None
    }
}

/// The text of a path made of `base` and a relative or absolute `part`, as
/// `Path::join` forms it on Unix: an absolute `part` replaces `base`; otherwise
/// a `/` separates them unless `base` is empty or already ends with one.
pub open spec fn path_join(base: Seq<char>, part: Seq<char>) -> Seq<char> {
    if part.len() > 0 && part[0] == '/' {
        part
    } else if base.len() == 0 || base.last() == '/' {
        base + part
    } else {
        base + seq!['/'] + part
    }
}

/// The bytes of a path made of `base` and a relative or absolute `part`, as
/// `Path::join` forms it on Unix (see `path_join`; byte 47 is `/`).
pub open spec fn path_join_bytes(base: Seq<u8>, part: Seq<u8>) -> Seq<u8> {
    if part.len() > 0 && part[0] == 47u8 {
        part
    } else if base.len() == 0 || base.last() == 47u8 {
        base + part
    } else {
        base + seq![47u8] + part
    }
}

/// Joining paths is associative, as `Path::join` is on Unix: joining `b` to
/// `a` and then `c` gives the same path as joining to `a` the join of `b` and
/// `c`, whatever the parts are (empty, relative, absolute, with or without a
/// trailing `/`).
pub proof fn law_path_join_associative(a: Seq<char>, b: Seq<char>, c: Seq<char>)
    ensures
        path_join(path_join(a, b), c) == path_join(a, path_join(b, c)),
{
    let bc = path_join(b, c);
    if c.len() > 0 && c[0] == '/' {
    } else if b.len() > 0 && b[0] == '/' {
        assert(bc.len() > 0 && bc[0] == '/');
    } else if b.len() == 0 {
        assert(bc == c);
        if a.len() == 0 || a.last() == '/' {
            assert(path_join(a, b) =~= a);
        }
    } else {
        assert(bc[0] == b[0]);
        let ab = path_join(a, b);
        assert(ab.last() == b.last());
        if a.len() == 0 || a.last() == '/' {
            assert(ab == a + b);
            if b.last() == '/' {
                assert(ab + c =~= a + (b + c));
            } else {
                assert(ab + seq!['/'] + c =~= a + (b + seq!['/'] + c));
            }
        } else {
            assert(ab == a + seq!['/'] + b);
            if b.last() == '/' {
                assert(ab + c =~= a + seq!['/'] + (b + c));
            } else {
                assert(ab + seq!['/'] + c =~= a + seq!['/'] + (b + seq!['/'] + c));
            }
        }
    }
}

/// Joining the bytes of paths is associative too (see
/// `law_path_join_associative`).
pub proof fn law_path_join_bytes_associative(a: Seq<u8>, b: Seq<u8>, c: Seq<u8>)
    ensures
        path_join_bytes(path_join_bytes(a, b), c) == path_join_bytes(a, path_join_bytes(b, c)),
{
    let bc = path_join_bytes(b, c);
    if c.len() > 0 && c[0] == 47u8 {
    } else if b.len() > 0 && b[0] == 47u8 {
        assert(bc.len() > 0 && bc[0] == 47u8);
    } else if b.len() == 0 {
        assert(bc == c);
        if a.len() == 0 || a.last() == 47u8 {
            assert(path_join_bytes(a, b) =~= a);
        }
    } else {
        assert(bc[0] == b[0]);
        let ab = path_join_bytes(a, b);
        assert(ab.last() == b.last());
        if a.len() == 0 || a.last() == 47u8 {
            assert(ab == a + b);
            if b.last() == 47u8 {
                assert(ab + c =~= a + (b + c));
            } else {
                assert(ab + seq![47u8] + c =~= a + (b + seq![47u8] + c));
            }
        } else {
            assert(ab == a + seq![47u8] + b);
            if b.last() == 47u8 {
                assert(ab + c =~= a + seq![47u8] + (b + c));
            } else {
                assert(ab + seq![47u8] + c =~= a + seq![47u8] + (b + seq![47u8] + c));
            }
        }
    }
}

/// The bytes of the bridge's directory under a home directory.
pub open spec fn bridge_dir(home: Seq<u8>) -> Seq<u8> {
    path_join_bytes(home, encode_utf8(".matrix-bridge"@))
}

/// The pattern that mention notifications look for.
pub open spec fn mention_pattern_of(c: ConfigView) -> Seq<char> {
    match c.notify_on_mention {
        Some(p) => p,
        None => local_part(c.user_id),
    }
}

/// The device name used when the configuration names none.
pub fn default_device_name() -> (r: String)
    ensures
        r@ == "matrix-bridge"@,
{
    "matrix-bridge".to_owned()
}

/// The trust mode used when the configuration names none.
pub fn default_trust_mode() -> (r: TrustMode)
    ensures
        r == TrustMode::Tofu,
{
    TrustMode::Tofu
}

/// `dirs::home_dir`, as the bytes of the path (on Unix, the bytes the
/// operating system gives). What it returns depends on the environment
/// (`HOME`, then the password database), so nothing is claimed of which
/// directory comes back; the dirs source returns `None` rather than an empty
/// path, so a returned directory is not empty.
#[verifier::external_body]
fn home_dir_bytes() -> (r: Option<Vec<u8>>)
    ensures
        r matches Some(h) ==> h@.len() > 0,
{
    match dirs::home_dir() {
        Some(p) => Some(p.into_os_string().into_encoded_bytes()),
        None => None,
    }
}

/// What `String::from_utf8_lossy` makes of some bytes.
pub uninterp spec fn utf8_lossy(b: Seq<u8>) -> Seq<char>;

/// `String::from_utf8_lossy`, made an owned string. Its result is named
/// `utf8_lossy`; as std documents, valid UTF-8 is taken as it is. What it
/// puts in place of invalid sequences is not restated.
#[verifier::external_body]
fn lossy_text(b: &[u8]) -> (r: String)
    ensures
        r@ == utf8_lossy(b@),
        valid_utf8(b@) ==> r@ == decode_utf8(b@),
{
    String::from_utf8_lossy(b).into_owned()
}

/// `base` joined with `part`, as bytes (see `path_join_bytes`).
pub fn join_path_bytes(base: &[u8], part: &[u8]) -> (r: Vec<u8>)
    ensures
        r@ == path_join_bytes(base@, part@),
{
    let mut r: Vec<u8> = Vec::new();
    if !(part.len() > 0 && part[0] == 47u8) {
        let mut i: usize = 0;
        while i < base.len()
            invariant
                i <= base.len(),
                r@ == base@.take(i as int),
            decreases base.len() - i,
        {
            r.push(base[i]);
            i = i + 1;
            assert(r@ == base@.take(i as int));
        }
        assert(base@.take(base.len() as int) == base@);
        if base.len() > 0 && base[base.len() - 1] != 47u8 {
            r.push(47u8);
        }
    }
    let ghost prefix = r@;
    let mut j: usize = 0;
    while j < part.len()
        invariant
            j <= part.len(),
            r@ == prefix + part@.take(j as int),
        decreases part.len() - j,
    {
        r.push(part[j]);
        j = j + 1;
        assert(r@ == prefix + part@.take(j as int));
    }
    assert(part@.take(part.len() as int) == part@);
    r
}

/// `base` joined with `part` (see `path_join`).
pub fn join_path(base: &str, part: &str) -> (r: String)
    ensures
        r@ == path_join(base@, part@),
{
    let b = crate::text::chars_of(base);
    let p = crate::text::chars_of(part);
    if p.len() > 0 && p[0] == '/' {
        copy_str(part)
    } else if b.len() == 0 || b[b.len() - 1] == '/' {
        let mut r = copy_str(base);
        r.append(part);
        r
    } else {
        let mut r = copy_str(base);
        crate::text::push_char(&mut r, '/');
        r.append(part);
        r
    }
}

/// The bridge's directory under the home directory `home` (path bytes).
pub fn dir_in_home(home: &[u8]) -> (r: Vec<u8>)
    ensures
        r@ == bridge_dir(home@),
{
    join_path_bytes(home, ".matrix-bridge".as_bytes())
}

/// `~/.matrix-bridge` (path bytes), or `None` when no home directory can be found.
pub fn default_dir() -> (r: Option<Vec<u8>>)
    ensures
        r matches Some(d) ==> exists|h: Seq<u8>| h.len() > 0 && d@ == bridge_dir(h),
{
    match home_dir_bytes() {
        Some(h) => {
            let d = dir_in_home(h.as_slice());
            assert(h@.len() > 0 && d@ == bridge_dir(h@));
            Some(d)
        },
        None => None,
    }
}

/// The bytes of the configuration file under a home directory.
pub open spec fn config_file(home: Seq<u8>) -> Seq<u8> {
    path_join_bytes(bridge_dir(home), encode_utf8("config.json"@))
}

/// The text of the default store directory under a home directory (bytes
/// that are not UTF-8 are replaced as `from_utf8_lossy` does).
pub open spec fn store_dir_text(home: Seq<u8>) -> Seq<char> {
    utf8_lossy(path_join_bytes(bridge_dir(home), encode_utf8("store"@)))
}

/// The configuration file under the home directory `home` (path bytes).
pub fn config_path_in(home: &[u8]) -> (r: Vec<u8>)
    ensures
        r@ == config_file(home@),
{
    let d = dir_in_home(home);
    join_path_bytes(d.as_slice(), "config.json".as_bytes())
}

/// The default store directory under the home directory `home`, as text.
pub fn store_path_in(home: &[u8]) -> (r: String)
    ensures
        r@ == store_dir_text(home@),
{
    let d = dir_in_home(home);
    let p = join_path_bytes(d.as_slice(), "store".as_bytes());
    lossy_text(p.as_slice())
}

/// The file of the configuration, `~/.matrix-bridge/config.json` (path bytes).
pub fn config_path() -> (r: Option<Vec<u8>>)
    ensures
        r matches Some(p) ==> exists|h: Seq<u8>| h.len() > 0 && p@ == config_file(h),
{
    match home_dir_bytes() {
        Some(h) => {
            let p = config_path_in(h.as_slice());
            assert(h@.len() > 0 && p@ == config_file(h@));
            Some(p)
        },
        None => None,
    }
}

/// The store directory used when the configuration names none,
/// `~/.matrix-bridge/store`, as text.
pub fn default_store_path() -> (r: Option<String>)
    ensures
        r matches Some(p) ==> exists|h: Seq<u8>| h.len() > 0 && p@ == store_dir_text(h),
{
    match home_dir_bytes() {
        Some(h) => {
            let p = store_path_in(h.as_slice());
            assert(h@.len() > 0 && p@ == store_dir_text(h@));
            Some(p)
        },
        None => None,
    }
}

/// The file of the saved credentials, inside the store directory.
pub fn credentials_path(config: &Config) -> (r: String)
    ensures
        r@ == path_join(config.store_path@, "credentials.json"@),
{
    join_path(config.store_path.as_str(), "credentials.json")
}

/// The error for a configuration file that does not exist at `path`.
pub fn missing_config_error(path: &str) -> (e: BridgeError)
    ensures
        e matches BridgeError::Config(m) && m@ == "Config not found at "@ + path@ + " — run `matrix-bridge setup`"@,
{
    let mut m = "Config not found at ".to_owned();
    m.append(path);
    m.append(" — run `matrix-bridge setup`");
    BridgeError::Config(m)
}

impl Config {
    /// The pattern that mention notifications look for: `notify_on_mention`
    /// when set, else the local part of `user_id` (`@bot:matrix.org` gives `bot`).
    pub fn mention_pattern(&self) -> (r: String)
        ensures
            r@ == mention_pattern_of(self@),
    {
        match &self.notify_on_mention {
            Some(p) => p.clone(),
            None => local_part_of(self.user_id.as_str()),
        }
    }

    /// A field-by-field copy.
    pub fn copy(&self) -> (r: Config)
        ensures
            r@ == self@,
    {
        Config {
            homeserver: self.homeserver.clone(),
            user_id: self.user_id.clone(),
            device_name: self.device_name.clone(),
            store_path: self.store_path.clone(),
            trust_mode: self.trust_mode,
            default_room: copy_opt(&self.default_room),
            default_mention: copy_opt(&self.default_mention),
            notify_on_mention: copy_opt(&self.notify_on_mention),
        }
    }
}

/// The name of a trust mode as the configuration file writes it.
pub fn trust_mode_text(m: TrustMode) -> (r: String)
    ensures
        r@ == trust_mode_name(m),
{
    match m {
        TrustMode::Tofu => "tofu".to_owned(),
        TrustMode::All => "all".to_owned(),
        TrustMode::Explicit => "explicit".to_owned(),
    }
}

/// The name of each trust mode reads back as that mode, and a value that
/// names a trust mode is exactly that mode's name: `tofu`, `all`, `explicit`.
pub proof fn law_trust_mode_names_round_trip(m: TrustMode, v: Seq<char>)
    ensures
        parse_trust_mode(trust_mode_name(m)) == Some(m),
        parse_trust_mode(v) matches Some(n) ==> v == trust_mode_name(n),
        trust_mode_name(TrustMode::Tofu) == "tofu"@,
        trust_mode_name(TrustMode::All) == "all"@,
        trust_mode_name(TrustMode::Explicit) == "explicit"@,
{
    reveal_strlit("tofu");
    reveal_strlit("all");
    reveal_strlit("explicit");
    assert("tofu"@.len() == 4);
    assert("all"@.len() == 3);
    assert("explicit"@.len() == 8);
    assert("tofu"@ != "all"@);
    assert("tofu"@ != "explicit"@);
    assert("all"@ != "explicit"@);
}

/// The trust mode a configuration value names, if any.
pub fn trust_mode_from(v: &str) -> (r: Option<TrustMode>)
    ensures
        r == parse_trust_mode(v@),
{
    if crate::text::same_text(v, "tofu") {
        Some(TrustMode::Tofu)
    } else if crate::text::same_text(v, "all") {
        Some(TrustMode::All)
    } else if crate::text::same_text(v, "explicit") {
        Some(TrustMode::Explicit)
    } else {
        None
    }
}

} // verus!
