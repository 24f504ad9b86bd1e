//! The human-readable text of messages and rooms.
use vstd::prelude::*;
use crate::client::{Message, MessageView, RoomInfo, message_views};
use crate::text::{decimal, decimal_text, local_part, local_part_of};

verus! {

/// The lines joined by newlines (no newline after the last one).
pub open spec fn joined(lines: Seq<Seq<char>>) -> Seq<char>
    decreases lines.len(),
{
    if lines.len() == 0 {
        Seq::empty()
    } else if lines.len() == 1 {
        lines[0]
    } else {
        joined(lines.drop_last()) + "\n"@ + lines.last()
    }
}

/// A message as one line: `[time] sender: body`, the sender by its short name.
pub open spec fn reply_line(m: MessageView) -> Seq<char> {
    "["@ + m.timestamp + "] "@ + local_part(m.sender) + ": "@ + m.body
}

/// A message in a listing: one that could not be decrypted says so.
pub open spec fn message_line(m: MessageView) -> Seq<char> {
    if m.decryption_failed {
        "["@ + m.timestamp + "] [encrypted — unable to decrypt]"@
    } else {
        reply_line(m)
    }
}

/// A listing of messages, one line each.
pub open spec fn messages_text(ms: Seq<MessageView>) -> Seq<char> {
    joined(ms.map_values(|m: MessageView| message_line(m)))
}

/// A room as one line: a lock when it is encrypted, its ID, its name (or
/// `(unnamed)`) and its member count.
pub open spec fn room_line(r: RoomInfo) -> Seq<char> {
    (if r.encrypted { "🔒"@ } else { "  "@ }) + " "@ + r.room_id@ + " "@ + (match r.name {
        Some(n) => n@,
        None => "(unnamed)"@,
    }) + " ("@ + decimal(r.member_count as nat) + ")"@
}

/// A listing of rooms, one line each.
pub open spec fn rooms_text(rs: Seq<RoomInfo>) -> Seq<char> {
    joined(rs.map_values(|r: RoomInfo| room_line(r)))
}

/// What waiting for a reply reports when none came within `timeout` seconds.
pub open spec fn no_reply_line(timeout: u64) -> Seq<char> {
    "No reply within "@ + decimal(timeout as nat) + "s"@
}

/// What sending reports: the ID of the event sent.
pub open spec fn sent_line(event_id: Seq<char>) -> Seq<char> {
    "Sent (event: "@ + event_id + ")"@
}

/// A joined room as setup lists it: indented, its ID and its name (or `(unnamed)`).
pub open spec fn setup_room_line(r: RoomInfo) -> Seq<char> {
    "  "@ + r.room_id@ + " "@ + (match r.name {
        Some(n) => n@,
        None => "(unnamed)"@,
    })
}

/// A listing shows the messages one line each, in the order given: listing
/// one more message adds its line at the end, after a newline.
pub proof fn law_message_listing_appends_lines(ms: Seq<MessageView>, m: MessageView)
    ensures
        messages_text(Seq::empty()) == Seq::<char>::empty(),
        messages_text(ms.push(m)) == (if ms.len() == 0 {
            message_line(m)
        } else {
            messages_text(ms) + "\n"@ + message_line(m)
        }),
{
    let f = |x: MessageView| message_line(x);
    let lines = ms.push(m).map_values(f);
    assert(lines.drop_last() =~= ms.map_values(f));
    assert(lines.last() == message_line(m));
    assert(Seq::<MessageView>::empty().map_values(f) =~= Seq::<Seq<char>>::empty());
}

/// A listing shows the rooms one line each, in the order given: listing one
/// more room adds its line at the end, after a newline.
pub proof fn law_room_listing_appends_lines(rs: Seq<RoomInfo>, r: RoomInfo)
    ensures
        rooms_text(Seq::empty()) == Seq::<char>::empty(),
        rooms_text(rs.push(r)) == (if rs.len() == 0 {
            room_line(r)
        } else {
            rooms_text(rs) + "\n"@ + room_line(r)
        }),
{
    let f = |x: RoomInfo| room_line(x);
    let lines = rs.push(r).map_values(f);
    assert(lines.drop_last() =~= rs.map_values(f));
    assert(lines.last() == room_line(r));
    assert(Seq::<RoomInfo>::empty().map_values(f) =~= Seq::<Seq<char>>::empty());
}

/// `lines` so far, extended by one more line.
proof fn lemma_joined_push(lines: Seq<Seq<char>>, i: int)
    requires
        0 <= i < lines.len(),
    ensures
        joined(lines.take(i + 1)) == if i == 0 {
            lines[0]
        } else {
            joined(lines.take(i)) + "\n"@ + lines[i]
        },
{
    let t = lines.take(i + 1);
    assert(t.drop_last() == lines.take(i));
    assert(t.last() == lines[i]);
    if i == 0 {
        assert(t.len() == 1);
    }
}

/// The line of a message that could be read (also used for a reply).
pub fn reply_text(m: &Message) -> (r: String)
    ensures
        r@ == reply_line(m@),
{
    let mut r = "[".to_owned();
    r.append(m.timestamp.as_str());
    r.append("] ");
    let sender = local_part_of(m.sender.as_str());
    r.append(sender.as_str());
    r.append(": ");
    r.append(m.body.as_str());
    r
}

/// The line of a message in a listing.
pub fn message_text(m: &Message) -> (r: String)
    ensures
        r@ == message_line(m@),
{
    if m.decryption_failed {
        let mut r = "[".to_owned();
        r.append(m.timestamp.as_str());
        r.append("] [encrypted — unable to decrypt]");
        r
    } else {
        reply_text(m)
    }
}

/// The listing of messages, one line each, for the terminal.
pub fn format_messages_text(messages: &Vec<Message>) -> (r: String)
    ensures
        r@ == messages_text(message_views(messages@)),
{
    let ghost lines = message_views(messages@).map_values(|m: MessageView| message_line(m));
    let mut r = String::new();
    let mut i: usize = 0;
    assert(lines.take(0).len() == 0);
    while i < messages.len()
        invariant
            i <= messages.len(),
            lines == message_views(messages@).map_values(|m: MessageView| message_line(m)),
            lines.len() == messages.len(),
            r@ == joined(lines.take(i as int)),
        decreases messages.len() - i,
    {
        let line = message_text(&messages[i]);
        proof {
            lemma_joined_push(lines, i as int);
            assert(line@ == lines[i as int]);
        }
        if i > 0 {
            r.append("\n");
        }
        r.append(line.as_str());
        i = i + 1;
    }
    assert(lines.take(i as int) == lines);
    r
}

/// The line of a room.
pub fn room_text(room: &RoomInfo) -> (r: String)
    ensures
        r@ == room_line(*room),
{
    let mut r = if room.encrypted {
        "🔒".to_owned()
    } else {
        "  ".to_owned()
    };
    r.append(" ");
    r.append(room.room_id.as_str());
    r.append(" ");
    match &room.name {
        Some(n) => r.append(n.as_str()),
        None => r.append("(unnamed)"),
    }
    r.append(" (");
    let count = decimal_text(room.member_count);
    r.append(count.as_str());
    r.append(")");
    r
}

/// The listing of rooms, one line each, for the terminal.
pub fn format_rooms_text(rooms: &Vec<RoomInfo>) -> (r: String)
    ensures
        r@ == rooms_text(rooms@),
{
    let ghost lines = rooms@.map_values(|x: RoomInfo| room_line(x));
    let mut r = String::new();
    let mut i: usize = 0;
    assert(lines.take(0).len() == 0);
    while i < rooms.len()
        invariant
            i <= rooms.len(),
            lines == rooms@.map_values(|x: RoomInfo| room_line(x)),
            lines.len() == rooms.len(),
            r@ == joined(lines.take(i as int)),
        decreases rooms.len() - i,
    {
        let line = room_text(&rooms[i]);
        proof {
            lemma_joined_push(lines, i as int);
            assert(line@ == lines[i as int]);
        }
        if i > 0 {
            r.append("\n");
        }
        r.append(line.as_str());
        i = i + 1;
    }
    assert(lines.take(i as int) == lines);
    r
}

/// What sending reports.
pub fn sent_text(event_id: &str) -> (r: String)
    ensures
        r@ == sent_line(event_id@),
{
    let mut r = "Sent (event: ".to_owned();
    r.append(event_id);
    r.append(")");
    r
}

/// The line of a joined room in setup's listing.
pub fn setup_room_text(room: &RoomInfo) -> (r: String)
    ensures
        r@ == setup_room_line(*room),
{
    let mut r = "  ".to_owned();
    r.append(room.room_id.as_str());
    r.append(" ");
    match &room.name {
        Some(n) => r.append(n.as_str()),
        None => r.append("(unnamed)"),
    }
    r
}

/// What waiting for a reply reports when none came within `timeout` seconds.
pub fn no_reply_text(timeout: u64) -> (r: String)
    ensures
        r@ == no_reply_line(timeout),
{
    let mut r = "No reply within ".to_owned();
    let t = decimal_text(timeout);
    r.append(t.as_str());
    r.append("s");
    r
}

} // verus!
