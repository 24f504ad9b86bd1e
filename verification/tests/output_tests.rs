use matrix_bridge::client::{Message, RoomInfo};
use matrix_bridge::error::BridgeError;
use matrix_bridge::format::{
    format_messages_text, format_rooms_text, no_reply_text, reply_text, sent_text, setup_room_text,
};
use matrix_bridge::mcp::{
    clamp_limit, clamp_timeout, default_limit, default_timeout, is_mention, join_room_output,
    mention_preview,
    list_rooms_output, read_messages_output, send_and_wait_output, send_message_output,
};
use matrix_bridge::text::{decimal_text, local_part_of};
use matrix_bridge::trust::{auto_verifies, checks_member, devices_to_verify};
use matrix_bridge::config::TrustMode;

fn msg(sender: &str, body: &str, ts: &str, failed: bool) -> Message {
    Message {
        sender: sender.to_string(),
        body: body.to_string(),
        timestamp: ts.to_string(),
        event_id: format!("${}", body),
        decryption_failed: failed,
    }
}

#[test]
fn local_parts_and_numbers() {
    assert_eq!(local_part_of("@bot:matrix.org"), "bot");
    assert_eq!(local_part_of("@bot"), "bot");
    assert_eq!(local_part_of("@:matrix.org"), "");
    assert_eq!(local_part_of("unknown"), "unknown");
    assert_eq!(local_part_of("@ünï:x"), "ünï");
    assert_eq!(decimal_text(0), "0");
    assert_eq!(decimal_text(7), "7");
    assert_eq!(decimal_text(1234567890), "1234567890");
    assert_eq!(decimal_text(u64::MAX), "18446744073709551615");
}

#[test]
fn message_listing_text() {
    let ms = vec![
        msg("@alice:matrix.org", "hello", "10:00:00", false),
        msg("unknown", "[encrypted message — unable to decrypt]", "", true),
        msg("bob", "hi", "10:00:05", false),
    ];
    assert_eq!(
        format_messages_text(&ms),
        "[10:00:00] alice: hello\n[] [encrypted — unable to decrypt]\n[10:00:05] bob: hi"
    );
    assert_eq!(format_messages_text(&Vec::new()), "");
}

#[test]
fn room_listing_text() {
    let rooms = vec![
        RoomInfo { room_id: "!a:x".to_string(), name: Some("Team".to_string()), encrypted: true, member_count: 3 },
        RoomInfo { room_id: "!b:x".to_string(), name: None, encrypted: false, member_count: 12 },
    ];
    assert_eq!(format_rooms_text(&rooms), "🔒 !a:x Team (3)\n   !b:x (unnamed) (12)");
}

#[test]
fn reply_and_timeout_texts() {
    let m = msg("@alice:matrix.org", "pong", "09:08:07", false);
    assert_eq!(reply_text(&m), "[09:08:07] alice: pong");
    assert_eq!(no_reply_text(30), "No reply within 30s");
}

#[test]
fn error_texts() {
    let cases = vec![
        (BridgeError::Config("x".to_string()), "Configuration error: x"),
        (BridgeError::NoSession, "No saved session — run `matrix-bridge setup` first"),
        (BridgeError::Matrix("x".to_string()), "Matrix error: x"),
        (BridgeError::RoomNotFound("!r".to_string()), "Room not found: !r"),
        (BridgeError::LoginFailed("x".to_string()), "Login failed: x"),
        (BridgeError::SyncFailed("x".to_string()), "Sync failed: x"),
        (BridgeError::SendFailed("x".to_string()), "Send failed: x"),
        (BridgeError::Io("x".to_string()), "IO error: x"),
        (BridgeError::Json("x".to_string()), "JSON error: x"),
        (BridgeError::Other("plain".to_string()), "plain"),
    ];
    for (e, text) in cases {
        assert_eq!(e.message(), text);
    }
}

#[test]
fn tool_defaults_and_clamps() {
    assert_eq!(default_timeout(), 30);
    assert_eq!(default_limit(), 20);
    assert_eq!(clamp_timeout(0), 1);
    assert_eq!(clamp_timeout(45), 45);
    assert_eq!(clamp_timeout(1000), 300);
    assert_eq!(clamp_limit(0), 1);
    assert_eq!(clamp_limit(50), 50);
    assert_eq!(clamp_limit(500), 100);
}

#[test]
fn tool_answers_for_ids() {
    assert_eq!(send_message_output(Ok("$e".to_string())).event_id, "$e");
    assert_eq!(
        send_message_output(Err(BridgeError::RoomNotFound("!x".to_string()))).event_id,
        "error: Room not found: !x"
    );
    assert_eq!(join_room_output(Ok("!r:x".to_string())).room_id, "!r:x");
    assert_eq!(
        join_room_output(Err(BridgeError::Matrix("forbidden".to_string()))).room_id,
        "error: Matrix error: forbidden"
    );
}

#[test]
fn tool_answer_for_send_and_wait() {
    let out = send_and_wait_output(Ok(Some(msg("@a:x", "yes", "01:02:03", false))));
    assert!(!out.timed_out);
    let reply = out.reply.unwrap();
    assert_eq!(reply.sender, "@a:x");
    assert_eq!(reply.body, "yes");
    assert_eq!(reply.timestamp, "01:02:03");
    assert_eq!(reply.event_id, "$yes");
    let out = send_and_wait_output(Ok(None));
    assert!(out.timed_out && out.reply.is_none());
    let out = send_and_wait_output(Err(BridgeError::NoSession));
    assert!(out.timed_out && out.reply.is_none());
}

#[test]
fn tool_answer_for_read_messages() {
    let ms = vec![
        msg("@a:x", "one", "1", false),
        msg("unknown", "bad", "", true),
        msg("@b:x", "two", "2", false),
    ];
    let out = read_messages_output(Ok(ms));
    let bodies: Vec<&str> = out.messages.iter().map(|m| m.body.as_str()).collect();
    assert_eq!(bodies, vec!["one", "two"]);
    assert!(read_messages_output(Err(BridgeError::NoSession)).messages.is_empty());
}

#[test]
fn tool_answer_for_list_rooms() {
    let rooms = vec![
        RoomInfo { room_id: "!a:x".to_string(), name: Some("A".to_string()), encrypted: true, member_count: 2 },
        RoomInfo { room_id: "!b:x".to_string(), name: None, encrypted: false, member_count: 5 },
    ];
    let out = list_rooms_output(rooms);
    assert_eq!(out.rooms.len(), 2);
    assert_eq!(out.rooms[0].room_id, "!a:x");
    assert_eq!(out.rooms[0].name, Some("A".to_string()));
    assert!(out.rooms[0].encrypted);
    assert_eq!(out.rooms[1].member_count, 5);
    assert_eq!(out.rooms[1].name, None);
}

#[test]
fn mentions_are_case_insensitive_and_skip_own_messages() {
    assert!(is_mention("@bot:x", "@alice:x", Some("Hey BOT, look"), "bot"));
    assert!(is_mention("@bot:x", "@alice:x", Some("hey bot"), "Bot"));
    assert!(!is_mention("@bot:x", "@alice:x", Some("hey there"), "bot"));
    assert!(!is_mention("@bot:x", "@bot:x", Some("bot bot"), "bot"));
    assert!(!is_mention("@bot:x", "@alice:x", None, "bot"));
    assert!(is_mention("@bot:x", "@alice:x", Some("anything"), ""));
}

#[test]
fn trust_policy_decisions() {
    assert!(auto_verifies(TrustMode::Tofu));
    assert!(auto_verifies(TrustMode::All));
    assert!(!auto_verifies(TrustMode::Explicit));
    assert!(checks_member(TrustMode::Tofu, "@me:x", "@you:x"));
    assert!(!checks_member(TrustMode::All, "@me:x", "@me:x"));
    assert!(!checks_member(TrustMode::Explicit, "@me:x", "@you:x"));
    assert_eq!(devices_to_verify(&vec![true, false, false, true, false]), vec![1, 2, 4]);
    assert!(devices_to_verify(&vec![]).is_empty());
    assert!(devices_to_verify(&vec![true, true]).is_empty());
}

#[test]
fn mention_preview_is_first_sixty_bytes() {
    assert_eq!(mention_preview("short body"), "short body");
    let long = "a".repeat(100);
    assert_eq!(mention_preview(&long), "a".repeat(60));
    let mixed = format!("{}é tail", "b".repeat(58));
    assert_eq!(mention_preview(&mixed), format!("{}é", "b".repeat(58)));
}

#[test]
fn send_and_setup_texts() {
    assert_eq!(sent_text("$abc:x.org"), "Sent (event: $abc:x.org)");
    let named = RoomInfo { room_id: "!a:x".to_string(), name: Some("Team".to_string()), encrypted: true, member_count: 3 };
    let unnamed = RoomInfo { room_id: "!b:x".to_string(), name: None, encrypted: false, member_count: 1 };
    assert_eq!(setup_room_text(&named), "  !a:x Team");
    assert_eq!(setup_room_text(&unnamed), "  !b:x (unnamed)");
}
