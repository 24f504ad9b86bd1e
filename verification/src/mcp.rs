//! The MCP tools' parameters and answers, and the mention check behind
//! notifications.
use vstd::prelude::*;
use vstd::string::StringSliceAdditionalSpecFns;
use vstd::utf8::{encode_utf8, is_char_boundary};
use crate::client::{Message, MessageView, RoomInfo, message_views};
use crate::error::{BridgeError, error_text};
use crate::text::{chars_of, lowercase, occurs, occurs_in, to_lower};

verus! {

/// Parameters of `send_message`.
#[derive(Debug, Clone)]
pub struct SendMessageParams {
    /// The Matrix room ID (e.g. !abc123:matrix.org)
    pub room_id: String,
    /// The message text to send
    pub message: String,
    /// Optional user ID to @mention (e.g. @user:matrix.org)
    pub mention: Option<String>,
}

/// Answer of `send_message`.
#[derive(Debug, Clone)]
pub struct SendMessageOutput {
    pub event_id: String,
}

/// Parameters of `send_and_wait`.
#[derive(Debug, Clone)]
pub struct SendAndWaitParams {
    /// The Matrix room ID
    pub room_id: String,
    /// The message text to send
    pub message: String,
    /// Optional user ID to @mention
    pub mention: Option<String>,
    /// Timeout in seconds (default: 30)
    pub timeout: u64,
}

/// Answer of `send_and_wait`.
#[derive(Debug, Clone)]
pub struct SendAndWaitOutput {
    pub reply: Option<MessageOutput>,
    pub timed_out: bool,
}

/// A message in a tool's answer.
#[derive(Debug, Clone)]
pub struct MessageOutput {
    pub sender: String,
    pub body: String,
    pub timestamp: String,
    pub event_id: String,
}

/// Parameters of `read_messages`.
#[derive(Debug, Clone)]
pub struct ReadMessagesParams {
    /// The Matrix room ID
    pub room_id: String,
    /// Number of messages to read (default: 20)
    pub limit: u32,
}

/// Answer of `read_messages`.
#[derive(Debug, Clone)]
pub struct ReadMessagesOutput {
    pub messages: Vec<MessageOutput>,
}

/// Answer of `list_rooms`.
#[derive(Debug, Clone)]
pub struct ListRoomsOutput {
    pub rooms: Vec<RoomOutput>,
}

/// A room in a tool's answer.
#[derive(Debug, Clone)]
pub struct RoomOutput {
    pub room_id: String,
    pub name: Option<String>,
    pub encrypted: bool,
    pub member_count: u64,
}

/// Parameters of `join_room`.
#[derive(Debug, Clone)]
pub struct JoinRoomParams {
    /// Room ID or alias to join
    pub room_id: String,
}

/// Answer of `join_room`.
#[derive(Debug, Clone)]
pub struct JoinRoomOutput {
    pub room_id: String,
}

/// The timeout of `send_and_wait` when none is given.
pub fn default_timeout() -> (r: u64)
    ensures
        r == 30,
{
    30
}

/// The number of messages `read_messages` reads when none is given.
pub fn default_limit() -> (r: u32)
    ensures
        r == 20,
{
    20
}

/// A requested timeout brought into 1 to 300 seconds.
pub fn clamp_timeout(t: u64) -> (r: u64)
    ensures
        r == (if t < 1 { 1 } else if t > 300 { 300 } else { t }),
{
    if t < 1 {
        1
    } else if t > 300 {
        300
    } else {
        t
    }
}

/// A requested message count brought into 1 to 100.
pub fn clamp_limit(l: u32) -> (r: u32)
    ensures
        r == (if l < 1 { 1 } else if l > 100 { 100 } else { l }),
{
    if l < 1 {
        1
    } else if l > 100 {
        100
    } else {
        l
    }
}

/// What a tool answers in place of an ID when the operation failed.
pub open spec fn error_answer(e: BridgeError) -> Seq<char> {
    "error: "@ + error_text(e)
}

/// The text of an ID, or of the error in its place.
pub open spec fn id_or_error(r: Result<String, BridgeError>) -> Seq<char> {
    match r {
        Ok(id) => id@,
        Err(e) => error_answer(e),
    }
}

/// An ID, or `error: ` and the error's text when the operation failed.
fn id_or_error_text(result: Result<String, BridgeError>) -> (r: String)
    ensures
        r@ == id_or_error(result),
{
    match result {
        Ok(id) => id,
        Err(e) => crate::error::prefixed("error: ", &e.message()),
    }
}

/// The answer of `send_message` for the outcome of sending.
pub fn send_message_output(result: Result<String, BridgeError>) -> (r: SendMessageOutput)
    ensures
        r.event_id@ == id_or_error(result),
{
    SendMessageOutput { event_id: id_or_error_text(result) }
}

/// The answer of `join_room` for the outcome of joining.
pub fn join_room_output(result: Result<String, BridgeError>) -> (r: JoinRoomOutput)
    ensures
        r.room_id@ == id_or_error(result),
{
    JoinRoomOutput { room_id: id_or_error_text(result) }
}

/// Whether a tool's message shows a message: same sender, body, time and ID.
pub open spec fn shows(o: MessageOutput, m: MessageView) -> bool {
    o.sender@ == m.sender && o.body@ == m.body && o.timestamp@ == m.timestamp && o.event_id@ == m.event_id
}

/// A message as a tool shows it.
pub fn message_output(m: Message) -> (r: MessageOutput)
    ensures
        shows(r, m@),
{
    MessageOutput { sender: m.sender, body: m.body, timestamp: m.timestamp, event_id: m.event_id }
}

/// The answer of `send_and_wait`: the reply when one came; otherwise, and on
/// any error, a timeout.
pub fn send_and_wait_output(result: Result<Option<Message>, BridgeError>) -> (r: SendAndWaitOutput)
    ensures
        match result {
            Ok(Some(m)) => !r.timed_out && (r.reply matches Some(o) && shows(o, m@)),
            _ => r.timed_out && r.reply is None,
        },
{
    match result {
        Ok(Some(m)) => SendAndWaitOutput { reply: Some(message_output(m)), timed_out: false },
        _ => SendAndWaitOutput { reply: None, timed_out: true },
    }
}

/// The messages `read_messages` shows: those that could be decrypted, in order.
pub open spec fn readable(ms: Seq<MessageView>) -> Seq<MessageView> {
    ms.filter(|m: MessageView| !m.decryption_failed)
}

/// `read_messages` shows every decrypted message and hides every one that
/// could not be decrypted, keeping their order: a message read after others
/// is shown after theirs when it was decrypted, and adds nothing otherwise.
pub proof fn law_read_shows_decrypted_in_order(ms: Seq<MessageView>, m: MessageView)
    ensures
        readable(Seq::empty()) == Seq::<MessageView>::empty(),
        readable(ms.push(m)) == (if m.decryption_failed { readable(ms) } else { readable(ms).push(m) }),
{
    reveal(Seq::filter);
    assert(Seq::<MessageView>::empty().filter(|x: MessageView| !x.decryption_failed) =~= Seq::<MessageView>::empty());
    assert(ms.push(m).drop_last() =~= ms);
}

/// The answer of `read_messages`: the messages read that could be decrypted,
/// in order; none when reading failed.
pub fn read_messages_output(result: Result<Vec<Message>, BridgeError>) -> (r: ReadMessagesOutput)
    ensures
        ({
            let shown = match result {
                Ok(ms) => readable(message_views(ms@)),
                Err(_) => Seq::empty(),
            };
            &&& r.messages.len() == shown.len()
            &&& forall|i: int| 0 <= i < shown.len() ==> shows(#[trigger] r.messages@[i], shown[i])
        }),
{
    let mut out: Vec<MessageOutput> = Vec::new();
    match result {
        Ok(ms) => {
            let ghost views = message_views(ms@);
            let ghost pred = |m: MessageView| !m.decryption_failed;
            let mut i: usize = 0;
            assert(views.take(0).filter(pred) == Seq::<MessageView>::empty()) by {
                reveal(Seq::filter);
            }
            while i < ms.len()
                invariant
                    i <= ms.len(),
                    views == message_views(ms@),
                    pred == (|m: MessageView| !m.decryption_failed),
                    out.len() == views.take(i as int).filter(pred).len(),
                    forall|k: int| 0 <= k < out.len() ==> shows(#[trigger] out@[k], views.take(i as int).filter(pred)[k]),
                decreases ms.len() - i,
            {
                let m = &ms[i];
                proof {
                    reveal(Seq::filter);
                    assert(views.take(i + 1).drop_last() == views.take(i as int));
                    assert(views.take(i + 1).last() == m@);
                }
                if !m.decryption_failed {
                    out.push(message_output(m.copy()));
                }
                i = i + 1;
            }
            assert(views.take(i as int) == views);
        },
        Err(_) => {},
    }
    ReadMessagesOutput { messages: out }
}

/// The answer of `list_rooms`: every joined room, in order, field for field.
pub fn list_rooms_output(rooms: Vec<RoomInfo>) -> (r: ListRoomsOutput)
    ensures
        r.rooms.len() == rooms.len(),
        forall|i: int| #![trigger r.rooms@[i]] 0 <= i < rooms.len() ==> {
            &&& r.rooms@[i].room_id == rooms@[i].room_id
            &&& r.rooms@[i].name == rooms@[i].name
            &&& r.rooms@[i].encrypted == rooms@[i].encrypted
            &&& r.rooms@[i].member_count == rooms@[i].member_count
        },
{
    let mut out: Vec<RoomOutput> = Vec::new();
    let mut i: usize = 0;
    while i < rooms.len()
        invariant
            i <= rooms.len(),
            out.len() == i,
            forall|k: int| #![trigger out@[k]] 0 <= k < i ==> {
                &&& out@[k].room_id == rooms@[k].room_id
                &&& out@[k].name == rooms@[k].name
                &&& out@[k].encrypted == rooms@[k].encrypted
                &&& out@[k].member_count == rooms@[k].member_count
            },
        decreases rooms.len() - i,
    {
        let r = &rooms[i];
        out.push(RoomOutput {
            room_id: r.room_id.clone(),
            name: crate::text::copy_opt(&r.name),
            encrypted: r.encrypted,
            member_count: r.member_count,
        });
        i = i + 1;
    }
    ListRoomsOutput { rooms: out }
}

/// Whether a message mentions the configured pattern: it is a text message
/// from someone other than the bridge's own account, and its body contains the
/// pattern, both taken in lower case.
pub open spec fn mentions(own_user_id: Seq<char>, sender: Seq<char>, text_body: Option<Seq<char>>, pattern: Seq<char>) -> bool {
    sender != own_user_id && match text_body {
        Some(b) => occurs_in(lowercase(pattern), lowercase(b)),
        None => false,
    }
}

/// Whether an incoming message mentions `pattern`; `text_body` is `None` for a
/// message that is not plain text.
pub fn is_mention(own_user_id: &str, sender: &str, text_body: Option<&str>, pattern: &str) -> (r: bool)
    ensures
        r == mentions(own_user_id@, sender@, match text_body {
            Some(b) => Some(b@),
            None => None,
        }, pattern@),
{
    if crate::text::same_text(sender, own_user_id) {
        return false;
    }
    match text_body {
        Some(b) => {
            let body = to_lower(b);
            let pat = to_lower(pattern);
            let bv = chars_of(body.as_str());
            let pv = chars_of(pat.as_str());
            occurs(&pv, &bv)
        },
        None => false,
    }
}

/// How many bytes of a body the mention log shows: 60, or all of a shorter body.
pub open spec fn preview_len(body: &str) -> int {
    if body.spec_bytes().len() < 60 {
        body.spec_bytes().len() as int
    } else {
        60
    }
}

/// The start of a mentioning message that the log shows: its first 60 bytes
/// (all of a shorter body). The cut must fall between two characters.
pub fn mention_preview(body: &str) -> (r: String)
    requires
        body.spec_bytes().len() <= usize::MAX,
        is_char_boundary(body.spec_bytes(), preview_len(body)),
    ensures
        encode_utf8(r@) == body.spec_bytes().subrange(0, preview_len(body)),
{
    let n: usize = if body.len() < 60 {
        body.len()
    } else {
        60
    };
    assert(n == preview_len(body));
    let (head, _) = body.split_at(n);
    let r = head.to_owned();
    assert(encode_utf8(r@) == head.spec_bytes());
    r
}

/// A message from another user with a text body mentions the pattern exactly
/// when the lower-cased pattern occurs somewhere in the lower-cased body,
/// whatever text comes before and after it and however long the body is; a
/// message that is not plain text never does.
pub proof fn law_mention_found_anywhere_in_body(
    own: Seq<char>,
    sender: Seq<char>,
    body: Seq<char>,
    pattern: Seq<char>,
    before: Seq<char>,
    after: Seq<char>,
)
    ensures
        sender != own && lowercase(body) == before + lowercase(pattern) + after ==> mentions(own, sender, Some(body), pattern),
        mentions(own, sender, Some(body), pattern) ==> sender != own && exists|u: Seq<char>, w: Seq<char>|
            #[trigger] (u + lowercase(pattern) + w) == lowercase(body),
        !mentions(own, sender, None, pattern),
{
    let lb = lowercase(body);
    let lp = lowercase(pattern);
    if sender != own && lb == before + lp + after {
        let i = before.len() as int;
        assert(lb.subrange(i, i + lp.len()) =~= lp);
    }
    if mentions(own, sender, Some(body), pattern) {
        let i = choose|i: int| 0 <= i && i + lp.len() <= lb.len() && #[trigger] lb.subrange(i, i + lp.len()) == lp;
        let u = lb.subrange(0, i);
        let w = lb.subrange(i + lp.len(), lb.len() as int);
        assert(u + lp + w =~= lb);
    }
}

/// The bridge never notifies about its own messages.
pub proof fn law_own_messages_never_mention(own: Seq<char>, body: Option<Seq<char>>, pattern: Seq<char>)
    ensures
        !mentions(own, own, body, pattern),
{
}

} // verus!
