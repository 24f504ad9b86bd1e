//! The decisions of the Matrix client: which timeline events become messages
//! and how they read, what a sent message holds, which room identifiers are
//! accepted, how a session is restored, and when syncing applies the trust
//! policy.
use vstd::prelude::*;
use vstd::string::StringSliceAdditionalSpecFns;
use crate::config::Credentials;
use crate::error::BridgeError;
use crate::text::{copy_str, local_part, local_part_of};

verus! {

/// A message returned from read operations.
#[derive(Debug, Clone)]
pub struct Message {
    pub sender: String,
    pub body: String,
    pub timestamp: String,
    pub event_id: String,
    pub decryption_failed: bool,
}

/// A `Message` as plain text values.
pub struct MessageView {
    pub sender: Seq<char>,
    pub body: Seq<char>,
    pub timestamp: Seq<char>,
    pub event_id: Seq<char>,
    pub decryption_failed: bool,
}

impl View for Message {
    type V = MessageView;

    open spec fn view(&self) -> MessageView {
        MessageView {
            sender: self.sender@,
            body: self.body@,
            timestamp: self.timestamp@,
            event_id: self.event_id@,
            decryption_failed: self.decryption_failed,
        }
    }
}

impl Message {
    /// A field-by-field copy.
    pub fn copy(&self) -> (r: Message)
        ensures
            r@ == self@,
    {
        Message {
            sender: self.sender.clone(),
            body: self.body.clone(),
            timestamp: self.timestamp.clone(),
            event_id: self.event_id.clone(),
            decryption_failed: self.decryption_failed,
        }
    }
}

/// The views of a sequence of messages.
pub open spec fn message_views(ms: Seq<Message>) -> Seq<MessageView> {
    ms.map_values(|m: Message| m@)
}

/// A room returned from list operations.
#[derive(Debug, Clone)]
pub struct RoomInfo {
    pub room_id: String,
    pub name: Option<String>,
    pub encrypted: bool,
    pub member_count: u64,
}

/// One event of a room's timeline, as the read operation sees it.
#[derive(Debug, Clone)]
pub enum TimelineEntry {
    /// A room message, decrypted or sent in the clear. `body` is `None` when
    /// the message was redacted.
    RoomMessage { sender: String, body: Option<String>, origin_ts_millis: i64, event_id: String },
    /// An encrypted event that could not be decrypted.
    Encrypted { sender: String, origin_ts_millis: i64, event_id: String },
    /// An event that could not be read at all; `unable_to_decrypt` tells
    /// whether it was marked as undecryptable.
    Unreadable { unable_to_decrypt: bool },
    /// Any other event.
    Other,
}

/// The body shown for a message that could not be decrypted.
pub open spec fn undecryptable_body() -> Seq<char> {
    "[encrypted message — unable to decrypt]"@
}

/// The two decimal digits of `n` (0 to 99).
pub open spec fn two_digits(n: int) -> Seq<char> {
    seq![crate::text::digit_char(n / 10), crate::text::digit_char(n % 10)]
}

/// The UTC time of day of a UNIX timestamp in milliseconds, as `HH:MM:SS`.
pub open spec fn hms_text(millis: int) -> Seq<char> {
    let secs = millis / 1000;
    let day_secs = secs % 86400;
    two_digits(day_secs / 3600) + seq![':'] + two_digits((day_secs % 3600) / 60) + seq![':']
        + two_digits(day_secs % 60)
}

/// The clock text of a timestamp is its UTC time of day: for any day (before
/// or after the epoch), hour, minute and second, and any milliseconds within
/// the second, it reads `HH:MM:SS` of that hour, minute and second.
pub proof fn law_clock_text_is_utc_time_of_day(day: int, h: int, m: int, s: int, ms: int)
    requires
        0 <= h < 24,
        0 <= m < 60,
        0 <= s < 60,
        0 <= ms < 1000,
    ensures
        hms_text(day * 86_400_000 + h * 3_600_000 + m * 60_000 + s * 1000 + ms) == two_digits(h) + seq![':']
            + two_digits(m) + seq![':'] + two_digits(s),
{
    let millis = day * 86_400_000 + h * 3_600_000 + m * 60_000 + s * 1000 + ms;
    let secs = day * 86400 + h * 3600 + m * 60 + s;
    let in_day = h * 3600 + m * 60 + s;
    assert(millis / 1000 == secs) by {
        vstd::arithmetic::div_mod::lemma_fundamental_div_mod_converse(millis, 1000, secs, ms);
    }
    assert(secs % 86400 == in_day) by {
        vstd::arithmetic::div_mod::lemma_fundamental_div_mod_converse(secs, 86400, day, in_day);
    }
    assert(in_day / 3600 == h && in_day % 3600 == m * 60 + s) by {
        vstd::arithmetic::div_mod::lemma_fundamental_div_mod_converse(in_day, 3600, h, m * 60 + s);
    }
    assert((m * 60 + s) / 60 == m && (m * 60 + s) % 60 == s) by {
        vstd::arithmetic::div_mod::lemma_fundamental_div_mod_converse(m * 60 + s, 60, m, s);
    }
    let day_secs = millis / 1000 % 86400;
    assert(day_secs == in_day);
    assert(hms_text(millis) == two_digits(day_secs / 3600) + seq![':'] + two_digits((day_secs % 3600) / 60) + seq![':']
        + two_digits(day_secs % 60));
    assert(in_day % 60 == s) by {
        vstd::arithmetic::div_mod::lemma_fundamental_div_mod_converse(in_day, 60, h * 60 + m, s);
    }
}

/// What `chrono` formats for a timestamp: `None` when the timestamp lies
/// outside the dates it can represent.
pub uninterp spec fn chrono_time_of_day(millis: int) -> Option<Seq<char>>;

/// The largest distance from the epoch, in milliseconds, for which the
/// timestamp is known to be representable (about 253,000 years).
pub open spec fn timestamp_range() -> int {
    8_000_000_000_000_000
}

/// `chrono::DateTime::from_timestamp_millis`, then `format("%H:%M:%S")` shown
/// with `to_string`. Its result is named `chrono_time_of_day`; of it the
/// contract states that a result is the UTC time of day (seconds are the
/// Euclidean quotient of the milliseconds, as chrono computes them) and that
/// every timestamp within `timestamp_range` gives one (chrono's range is about
/// 262,000 years either side). The exact edge of chrono's range is not stated.
#[verifier::external_body]
fn time_of_day(millis: i64) -> (r: Option<String>)
    ensures
        crate::config::opt_view(r) == chrono_time_of_day(millis as int),
        -timestamp_range() <= millis <= timestamp_range() ==> r is Some,
        r matches Some(s) ==> s@ == hms_text(millis as int),
{
    match chrono::DateTime::from_timestamp_millis(millis) {
        Some(dt) => Some(dt.format("%H:%M:%S").to_string()),
        None => None,
    }
}

/// The timestamp text of a message: its UTC time of day as `HH:MM:SS`. Within
/// `timestamp_range` this is `hms_text`; beyond it, whatever chrono formats,
/// or empty when chrono cannot represent the date.
pub open spec fn timestamp_text(millis: int) -> Seq<char> {
    if -timestamp_range() <= millis <= timestamp_range() {
        hms_text(millis)
    } else {
        match chrono_time_of_day(millis) {
            Some(s) => s,
            None => Seq::empty(),
        }
    }
}

/// The timestamp text of a message sent at `millis`.
pub fn timestamp_of(millis: i64) -> (r: String)
    ensures
        r@ == timestamp_text(millis as int),
        -timestamp_range() <= millis <= timestamp_range() ==> r@ == hms_text(millis as int),
{
    match time_of_day(millis) {
        Some(s) => s,
        None => String::new(),
    }
}

/// The message a timeline event reads as, if any: redacted messages and
/// events that are not messages are left out; an event that could not be
/// decrypted reads as such.
pub open spec fn entry_message(e: TimelineEntry) -> Option<MessageView> {
    match e {
        TimelineEntry::RoomMessage { sender, body, origin_ts_millis, event_id } => match body {
            Some(b) => Some(MessageView {
                sender: sender@,
                body: b@,
                timestamp: timestamp_text(origin_ts_millis as int),
                event_id: event_id@,
                decryption_failed: false,
            }),
            None => None,
        },
        TimelineEntry::Encrypted { sender, origin_ts_millis, event_id } => Some(MessageView {
            sender: sender@,
            body: undecryptable_body(),
            timestamp: timestamp_text(origin_ts_millis as int),
            event_id: event_id@,
            decryption_failed: true,
        }),
        TimelineEntry::Unreadable { unable_to_decrypt } => if unable_to_decrypt {
            Some(MessageView {
                sender: "unknown"@,
                body: undecryptable_body(),
                timestamp: Seq::empty(),
                event_id: Seq::empty(),
                decryption_failed: true,
            })
        } else {
            None
        },
        TimelineEntry::Other => None,
    }
}

/// Every message read from a timeline event keeps that event's sender and
/// event ID: a readable message keeps its body and is marked decrypted, an
/// event that could not be decrypted reads as the undecryptable body and is
/// marked so, and both carry the time of day of the event. Only an event that
/// could not be read at all and was marked undecryptable reads as coming from
/// `unknown`, with no event ID and no time; redacted messages and other
/// events read as nothing.
pub proof fn law_entry_keeps_sender_and_event_id(e: TimelineEntry)
    ensures
        e matches TimelineEntry::RoomMessage { sender, body: Some(b), origin_ts_millis, event_id } ==> entry_message(e)
            matches Some(m) && m.sender == sender@ && m.body == b@ && m.event_id == event_id@ && !m.decryption_failed
            && m.timestamp == timestamp_text(origin_ts_millis as int),
        e matches TimelineEntry::RoomMessage { body: None, .. } ==> entry_message(e) is None,
        e matches TimelineEntry::Encrypted { sender, origin_ts_millis, event_id } ==> entry_message(e) matches Some(m)
            && m.sender == sender@ && m.body == undecryptable_body() && m.event_id == event_id@ && m.decryption_failed
            && m.timestamp == timestamp_text(origin_ts_millis as int),
        e matches TimelineEntry::Unreadable { unable_to_decrypt } ==> (unable_to_decrypt <==> entry_message(e) is Some),
        e matches TimelineEntry::Unreadable { .. } && entry_message(e) is Some ==> entry_message(e)->0 == (MessageView {
            sender: "unknown"@,
            body: undecryptable_body(),
            timestamp: Seq::empty(),
            event_id: Seq::empty(),
            decryption_failed: true,
        }),
        e is Other ==> entry_message(e) is None,
{
}

/// The sequence holding the value of `o`, if any.
pub open spec fn opt_seq<T>(o: Option<T>) -> Seq<T> {
    match o {
        Some(x) => seq![x],
        None => Seq::empty(),
    }
}

/// The messages of a timeline chunk that lists the newest event first, in
/// chronological order: oldest first.
pub open spec fn chronological(entries: Seq<TimelineEntry>) -> Seq<MessageView>
    decreases entries.len(),
{
    if entries.len() == 0 {
        Seq::empty()
    } else {
        chronological(entries.drop_first()) + opt_seq(entry_message(entries[0]))
    }
}

/// The message a timeline event reads as (see `entry_message`).
pub fn entry_to_message(e: &TimelineEntry) -> (r: Option<Message>)
    ensures
        match r {
            Some(m) => entry_message(*e) == Some(m@),
            None => entry_message(*e) is None,
        },
        match *e {
            TimelineEntry::RoomMessage { sender, body: Some(b), event_id, .. } => r matches Some(m) && m.sender@ == sender@
                && m.body@ == b@ && m.event_id@ == event_id@ && !m.decryption_failed,
            TimelineEntry::Encrypted { sender, event_id, .. } => r matches Some(m) && m.sender@ == sender@
                && m.event_id@ == event_id@ && m.decryption_failed,
            _ => true,
        },
{
    match e {
        TimelineEntry::RoomMessage { sender, body, origin_ts_millis, event_id } => match body {
            Some(b) => Some(Message {
                sender: sender.clone(),
                body: b.clone(),
                timestamp: timestamp_of(*origin_ts_millis),
                event_id: event_id.clone(),
                decryption_failed: false,
            }),
            None => None,
        },
        TimelineEntry::Encrypted { sender, origin_ts_millis, event_id } => Some(Message {
            sender: sender.clone(),
            body: "[encrypted message — unable to decrypt]".to_owned(),
            timestamp: timestamp_of(*origin_ts_millis),
            event_id: event_id.clone(),
            decryption_failed: true,
        }),
        TimelineEntry::Unreadable { unable_to_decrypt } => if *unable_to_decrypt {
            Some(Message {
                sender: "unknown".to_owned(),
                body: "[encrypted message — unable to decrypt]".to_owned(),
                timestamp: String::new(),
                event_id: String::new(),
                decryption_failed: true,
            })
        } else {
            None
        },
        TimelineEntry::Other => None,
    }
}

/// Reading a chunk that lists the newest event first gives its messages
/// oldest first: an event at the end of the chunk (older than all the others)
/// comes before their messages, and one at the start (the newest) after them.
pub proof fn law_read_messages_oldest_first(entries: Seq<TimelineEntry>, e: TimelineEntry)
    ensures
        chronological(entries.push(e)) == opt_seq(entry_message(e)) + chronological(entries),
        chronological(seq![e] + entries) == chronological(entries) + opt_seq(entry_message(e)),
    decreases entries.len(),
{
    let pushed = entries.push(e);
    assert((seq![e] + entries).drop_first() =~= entries);
    if entries.len() == 0 {
        assert(pushed.drop_first() =~= Seq::<TimelineEntry>::empty());
        assert(pushed[0] == e);
        assert(chronological(pushed.drop_first()) == Seq::<MessageView>::empty());
        assert(chronological(pushed) =~= opt_seq(entry_message(e)));
    } else {
        let rest = entries.drop_first();
        law_read_messages_oldest_first(rest, e);
        assert(pushed.drop_first() =~= rest.push(e));
        assert(pushed[0] == entries[0]);
        assert(chronological(pushed) == chronological(rest.push(e)) + opt_seq(entry_message(entries[0])));
        assert(chronological(pushed) =~= opt_seq(entry_message(e)) + chronological(entries));
    }
}

/// The messages of a timeline chunk that lists the newest event first (as a
/// backward read returns it), in chronological order.
pub fn collect_messages(entries: &Vec<TimelineEntry>) -> (r: Vec<Message>)
    ensures
        message_views(r@) == chronological(entries@),
{
    let mut out: Vec<Message> = Vec::new();
    let mut k = entries.len();
    assert(entries@.skip(k as int) == Seq::<TimelineEntry>::empty());
    while k > 0
        invariant
            k <= entries.len(),
            message_views(out@) == chronological(entries@.skip(k as int)),
        decreases k,
    {
        let ghost prev = out@;
        let m = entry_to_message(&entries[k - 1]);
        match m {
            Some(msg) => {
                out.push(msg);
            },
            None => {},
        }
        proof {
            let s = entries@.skip(k - 1);
            assert(s.drop_first() == entries@.skip(k as int));
            assert(s[0] == entries@[k - 1]);
            assert(message_views(out@) == message_views(prev) + opt_seq(entry_message(entries@[k - 1])));
        }
        k = k - 1;
    }
    assert(entries@.skip(0) == entries@);
    out
}

/// What a sent message holds: its plain body and, for a mention, an HTML body.
#[derive(Debug, Clone)]
pub struct MessageContent {
    pub plain: String,
    pub html: Option<String>,
}

/// The plain body of a message that mentions `user`.
pub open spec fn mention_plain(user: Seq<char>, body: Seq<char>) -> Seq<char> {
    local_part(user) + " "@ + body
}

/// The HTML body of a message that mentions `user`: a matrix.to link to the
/// user, shown with the user's short name, then the body.
pub open spec fn mention_html(user: Seq<char>, body: Seq<char>) -> Seq<char> {
    "<a href=\"https://matrix.to/#/"@ + user + "\">"@ + local_part(user) + "</a> "@ + body
}

/// A message that mentions `@user:server` (for a `user` without `:`) starts
/// with the user's short name and then the body; its HTML links the name to
/// the full user ID through matrix.to.
pub proof fn law_mention_names_the_user(user: Seq<char>, server: Seq<char>, body: Seq<char>)
    requires
        !user.contains(':'),
    ensures
        ({
            let id = seq!['@'] + user + seq![':'] + server;
            &&& mention_plain(id, body) == user + " "@ + body
            &&& mention_html(id, body) == "<a href=\"https://matrix.to/#/"@ + id + "\">"@ + user + "</a> "@ + body
        }),
{
    crate::text::law_local_part_of_user_id(user, server);
}

/// The content of a message with `body`, mentioning `mention` if given.
pub fn message_content(body: &str, mention: Option<&str>) -> (r: MessageContent)
    ensures
        match mention {
            Some(u) => r.plain@ == mention_plain(u@, body@) && (r.html matches Some(h) && h@
                == mention_html(u@, body@)),
            None => r.plain@ == body@ && r.html is None,
        },
{
    match mention {
        Some(user) => {
            let display = local_part_of(user);
            let mut html = "<a href=\"https://matrix.to/#/".to_owned();
            html.append(user);
            html.append("\">");
            html.append(display.as_str());
            html.append("</a> ");
            html.append(body);
            let mut plain = display;
            plain.append(" ");
            plain.append(body);
            MessageContent { plain, html: Some(html) }
        },
        None => MessageContent { plain: copy_str(body), html: None },
    }
}

/// Whether a text is a room ID that ruma accepts: at most 255 bytes, starting
/// with `!`, without a NUL character.
pub open spec fn room_id_ok(s: &str) -> bool {
    s.spec_bytes().len() <= 255 && s@.len() > 0 && s@[0] == '!' && !s@.contains('\0')
}

/// `ruma_common::OwnedRoomId::try_from(&str)`: whether it succeeds. It runs
/// `ruma_identifiers_validation::room_id::validate` (without the
/// `compat-arbitrary-length-ids` feature), which checks exactly what
/// `room_id_ok` states.
#[verifier::external_body]
fn parses_as_room_id(s: &str) -> (r: bool)
    ensures
        r == room_id_ok(s),
{
    ruma_common::OwnedRoomId::try_from(s).is_ok()
}

/// Whether ruma accepts a text as a room ID or room alias.
pub uninterp spec fn room_or_alias_ok(s: Seq<char>) -> bool;

/// `ruma_common::RoomOrAliasId::parse`: whether it succeeds. Its result is
/// named `room_or_alias_ok`; stated of it: a text starting with `!` is judged
/// as a room ID, and a text starting with neither `!` nor `#` is refused. The
/// alias check (a `:`, a valid server name) is not restated.
#[verifier::external_body]
fn parses_as_room_or_alias(s: &str) -> (r: bool)
    ensures
        r == room_or_alias_ok(s@),
        s@.len() > 0 && s@[0] == '!' ==> r == room_id_ok(s),
        (s@.len() == 0 || (s@[0] != '!' && s@[0] != '#')) ==> !r,
{
    ruma_common::RoomOrAliasId::parse(s).is_ok()
}

/// A room ID that the client can look up; an error naming the room otherwise.
pub fn check_room_id(room_id: &str) -> (r: Result<(), BridgeError>)
    ensures
        room_id_ok(room_id) ==> r is Ok,
        !room_id_ok(room_id) ==> (r matches Err(BridgeError::RoomNotFound(s)) && s@ == room_id@),
{
    if parses_as_room_id(room_id) {
        Ok(())
    } else {
        Err(BridgeError::RoomNotFound(copy_str(room_id)))
    }
}

/// How a room is joined.
#[derive(Debug, Clone, PartialEq, Eq)]
pub enum JoinTarget {
    /// By its room ID.
    ById(String),
    /// By a room alias.
    ByAlias(String),
}

/// How to join the room named `s`: a text starting with `!` is a room ID,
/// anything else an alias; an error naming the room when ruma refuses it.
pub fn join_target(s: &str) -> (r: Result<JoinTarget, BridgeError>)
    ensures
        s@.len() > 0 && s@[0] == '!' ==> (if room_id_ok(s) {
            r matches Ok(JoinTarget::ById(t)) && t@ == s@
        } else {
            r matches Err(BridgeError::RoomNotFound(t)) && t@ == s@
        }),
        !(s@.len() > 0 && s@[0] == '!') ==> (if room_or_alias_ok(s@) {
            r matches Ok(JoinTarget::ByAlias(t)) && t@ == s@
        } else {
            r matches Err(BridgeError::RoomNotFound(t)) && t@ == s@
        }),
{
    let v = crate::text::chars_of(s);
    if v.len() > 0 && v[0] == '!' {
        if parses_as_room_id(s) {
            Ok(JoinTarget::ById(copy_str(s)))
        } else {
            Err(BridgeError::RoomNotFound(copy_str(s)))
        }
    } else {
        if parses_as_room_or_alias(s) {
            Ok(JoinTarget::ByAlias(copy_str(s)))
        } else {
            Err(BridgeError::RoomNotFound(copy_str(s)))
        }
    }
}

/// Why ruma refuses a text as a user ID (the error's text), or `None` when it
/// accepts it.
pub uninterp spec fn user_id_refusal(s: Seq<char>) -> Option<Seq<char>>;

/// `ruma_common::OwnedUserId::try_from(&str)`, with the error shown by
/// `to_string`. Its result is named `user_id_refusal`; stated of it, from
/// `ruma_identifiers_validation::user_id::validate`: an ID over 255 bytes, one
/// that does not start with `@`, and one without `:` are refused with the
/// texts given below. The server-name and localpart checks are not restated.
#[verifier::external_body]
fn user_id_check(s: &str) -> (r: Option<String>)
    ensures
        crate::config::opt_view(r) == user_id_refusal(s@),
        s.spec_bytes().len() > 255 ==> crate::config::opt_view(r) == Some("ID exceeds 255 bytes"@),
        (s.spec_bytes().len() <= 255 && (s@.len() == 0 || s@[0] != '@')) ==> crate::config::opt_view(r) == Some("leading sigil is incorrect or missing"@),
        (s.spec_bytes().len() <= 255 && s@.len() > 0 && s@[0] == '@' && !s@.contains(':')) ==> crate::config::opt_view(r) == Some("required colon is missing"@),
{
    match ruma_common::OwnedUserId::try_from(s) {
        Ok(_) => None,
        Err(e) => Some(e.to_string()),
    }
}

/// Whether saved credentials can be restored: a configuration error carrying
/// ruma's reason when their user ID is not one.
pub fn check_session(creds: &Credentials) -> (r: Result<(), BridgeError>)
    ensures
        match user_id_refusal(creds.user_id@) {
            None => r is Ok,
            Some(m) => r matches Err(BridgeError::Config(t)) && t@ == m,
        },
{
    match user_id_check(creds.user_id.as_str()) {
        None => Ok(()),
        Some(m) => Err(BridgeError::Config(m)),
    }
}

/// What one foreground sync does.
#[derive(Debug, Clone, Copy, PartialEq, Eq)]
pub struct SyncPlan {
    /// The long-poll timeout in seconds; `None` for a full initial sync.
    pub timeout_secs: Option<u64>,
    /// Whether the trust policy is applied after the sync succeeds.
    pub apply_trust: bool,
}

/// Whether the client has completed a sync yet.
#[derive(Debug, Clone, Copy, PartialEq, Eq)]
pub struct SyncState {
    pub has_synced: bool,
}

/// The next sync: the first is a full sync followed by the trust policy;
/// later ones wait at most 10 seconds and leave trust alone.
pub open spec fn sync_plan_for(s: SyncState) -> SyncPlan {
    if s.has_synced {
        SyncPlan { timeout_secs: Some(10), apply_trust: false }
    } else {
        SyncPlan { timeout_secs: None, apply_trust: true }
    }
}

/// The state after a successful sync.
pub open spec fn synced(s: SyncState) -> SyncState {
    SyncState { has_synced: true }
}

impl SyncState {
    /// The state of a client that has just logged in (login syncs once).
    pub fn after_login() -> (r: SyncState)
        ensures
            r.has_synced,
    {
        SyncState { has_synced: true }
    }

    /// The state of a client whose session was just restored.
    pub fn after_restore() -> (r: SyncState)
        ensures
            !r.has_synced,
    {
        SyncState { has_synced: false }
    }

    /// The next sync (see `sync_plan_for`).
    pub fn plan(&self) -> (r: SyncPlan)
        ensures
            r == sync_plan_for(*self),
    {
        if self.has_synced {
            SyncPlan { timeout_secs: Some(10), apply_trust: false }
        } else {
            SyncPlan { timeout_secs: None, apply_trust: true }
        }
    }

    /// Records a successful sync.
    pub fn record_success(&mut self)
        ensures
            *final(self) == synced(*old(self)),
    {
        self.has_synced = true;
    }
}

/// The long-poll timeout of the background sync loop, in seconds.
pub fn background_sync_timeout_secs() -> (r: u64)
    ensures
        r == 30,
{
    30
}

/// What the background sync loop does after one sync.
#[derive(Debug, Clone, Copy, PartialEq, Eq)]
pub enum BackgroundStep {
    /// Apply the trust policy, then sync again.
    ApplyTrust,
    /// Wait this many seconds, then sync again.
    RetryAfterSecs(u64),
}

/// The background loop's answer to a sync that succeeded (`true`) or failed.
pub fn background_step(sync_ok: bool) -> (r: BackgroundStep)
    ensures
        sync_ok ==> r == BackgroundStep::ApplyTrust,
        !sync_ok ==> r == BackgroundStep::RetryAfterSecs(5),
{
    if sync_ok {
        BackgroundStep::ApplyTrust
    } else {
        BackgroundStep::RetryAfterSecs(5)
    }
}

/// Only the first sync of a client applies the trust policy: once a sync has
/// been recorded, no later plan applies it.
pub proof fn law_trust_applied_on_first_sync_only(s: SyncState)
    ensures
        !sync_plan_for(synced(s)).apply_trust,
        sync_plan_for(SyncState { has_synced: false }).apply_trust,
{
}

} // verus!
