use matrix_bridge::client::{
    background_step, background_sync_timeout_secs, check_room_id, check_session, collect_messages,
    entry_to_message, join_target, message_content, timestamp_of, BackgroundStep, JoinTarget,
    Message, SyncPlan, SyncState, TimelineEntry,
};
use matrix_bridge::config::Credentials;
use matrix_bridge::error::BridgeError;
use matrix_bridge::wait::ReplyWait;

fn msg(sender: &str, body: &str, event_id: &str, failed: bool) -> Message {
    Message {
        sender: sender.to_string(),
        body: body.to_string(),
        timestamp: "12:00:00".to_string(),
        event_id: event_id.to_string(),
        decryption_failed: failed,
    }
}

#[test]
fn timestamps_are_utc_time_of_day() {
    assert_eq!(timestamp_of(0), "00:00:00");
    assert_eq!(timestamp_of(947638923004), "01:02:03");
    assert_eq!(timestamp_of(-1), "23:59:59");
    assert_eq!(timestamp_of(86_399_999), "23:59:59");
    assert_eq!(timestamp_of(i64::MAX), "");
}

#[test]
fn entries_become_messages() {
    let m = entry_to_message(&TimelineEntry::RoomMessage {
        sender: "@a:x".to_string(),
        body: Some("hi".to_string()),
        origin_ts_millis: 3_600_000,
        event_id: "$1".to_string(),
    })
    .unwrap();
    assert_eq!(m.sender, "@a:x");
    assert_eq!(m.body, "hi");
    assert_eq!(m.timestamp, "01:00:00");
    assert_eq!(m.event_id, "$1");
    assert!(!m.decryption_failed);

    let m = entry_to_message(&TimelineEntry::Encrypted {
        sender: "@b:x".to_string(),
        origin_ts_millis: 61_000,
        event_id: "$2".to_string(),
    })
    .unwrap();
    assert_eq!(m.body, "[encrypted message — unable to decrypt]");
    assert_eq!(m.timestamp, "00:01:01");
    assert!(m.decryption_failed);

    let m = entry_to_message(&TimelineEntry::Unreadable { unable_to_decrypt: true }).unwrap();
    assert_eq!(m.sender, "unknown");
    assert_eq!(m.timestamp, "");
    assert_eq!(m.event_id, "");
    assert!(m.decryption_failed);

    assert!(entry_to_message(&TimelineEntry::Unreadable { unable_to_decrypt: false }).is_none());
    assert!(entry_to_message(&TimelineEntry::Other).is_none());
    assert!(entry_to_message(&TimelineEntry::RoomMessage {
        sender: "@a:x".to_string(),
        body: None,
        origin_ts_millis: 0,
        event_id: "$3".to_string(),
    })
    .is_none());
}

#[test]
fn read_messages_come_out_oldest_first() {
    // A backward read lists the newest event first.
    let entries = vec![
        TimelineEntry::RoomMessage {
            sender: "@c:x".to_string(),
            body: Some("third".to_string()),
            origin_ts_millis: 3000,
            event_id: "$3".to_string(),
        },
        TimelineEntry::Other,
        TimelineEntry::RoomMessage {
            sender: "@b:x".to_string(),
            body: Some("second".to_string()),
            origin_ts_millis: 2000,
            event_id: "$2".to_string(),
        },
        TimelineEntry::Unreadable { unable_to_decrypt: false },
        TimelineEntry::RoomMessage {
            sender: "@a:x".to_string(),
            body: Some("first".to_string()),
            origin_ts_millis: 1000,
            event_id: "$1".to_string(),
        },
    ];
    let ms = collect_messages(&entries);
    let bodies: Vec<&str> = ms.iter().map(|m| m.body.as_str()).collect();
    assert_eq!(bodies, vec!["first", "second", "third"]);
    assert!(collect_messages(&Vec::new()).is_empty());
}

#[test]
fn message_content_with_and_without_mention() {
    let c = message_content("hello", None);
    assert_eq!(c.plain, "hello");
    assert!(c.html.is_none());
    let c = message_content("hello", Some("@friend:matrix.org"));
    assert_eq!(c.plain, "friend hello");
    assert_eq!(
        c.html.unwrap(),
        "<a href=\"https://matrix.to/#/@friend:matrix.org\">friend</a> hello"
    );
}

#[test]
fn room_ids_checked_like_ruma() {
    assert!(check_room_id("!abc:matrix.org").is_ok());
    assert!(check_room_id("!opaque").is_ok());
    match check_room_id("abc:matrix.org") {
        Err(BridgeError::RoomNotFound(s)) => assert_eq!(s, "abc:matrix.org"),
        other => panic!("unexpected {:?}", other),
    }
    assert!(check_room_id("!a\0b").is_err());
    assert!(check_room_id("").is_err());
    let long = format!("!{}", "a".repeat(255));
    assert!(check_room_id(&long).is_err());
    let just = format!("!{}", "a".repeat(254));
    assert!(check_room_id(&just).is_ok());
}

#[test]
fn join_by_id_or_alias() {
    assert_eq!(join_target("!r:x.org").unwrap(), JoinTarget::ById("!r:x.org".to_string()));
    assert_eq!(
        join_target("#room:matrix.org").unwrap(),
        JoinTarget::ByAlias("#room:matrix.org".to_string())
    );
    match join_target("#room") {
        Err(BridgeError::RoomNotFound(s)) => assert_eq!(s, "#room"),
        other => panic!("unexpected {:?}", other),
    }
    assert!(join_target("room").is_err());
    assert!(join_target("!a\0").is_err());
}

#[test]
fn sessions_need_a_user_id() {
    let ok = Credentials {
        access_token: "t".to_string(),
        user_id: "@bot:matrix.org".to_string(),
        device_id: "D".to_string(),
    };
    assert!(check_session(&ok).is_ok());
    let bad = Credentials { user_id: "bot".to_string(), ..ok.clone() };
    match check_session(&bad) {
        Err(BridgeError::Config(m)) => assert_eq!(m, "leading sigil is incorrect or missing"),
        other => panic!("unexpected {:?}", other),
    }
    let bad = Credentials { user_id: "@bot".to_string(), ..ok };
    match check_session(&bad) {
        Err(e) => assert_eq!(e.message(), "Configuration error: required colon is missing"),
        other => panic!("unexpected {:?}", other),
    }
}

#[test]
fn first_sync_applies_trust() {
    let mut s = SyncState::after_restore();
    assert_eq!(s.plan(), SyncPlan { timeout_secs: None, apply_trust: true });
    s.record_success();
    assert_eq!(s.plan(), SyncPlan { timeout_secs: Some(10), apply_trust: false });
    let s = SyncState::after_login();
    assert!(!s.plan().apply_trust);
}

#[test]
fn background_sync_steps() {
    assert_eq!(background_sync_timeout_secs(), 30);
    assert_eq!(background_step(true), BackgroundStep::ApplyTrust);
    assert_eq!(background_step(false), BackgroundStep::RetryAfterSecs(5));
}

#[test]
fn reply_is_first_foreign_message_after_ours() {
    let mut w = ReplyWait::new("$ours".to_string(), "@me:x".to_string());
    assert_eq!(w.read_limit(), 20);
    let msgs = vec![
        msg("@other:x", "before", "$0", false),
        msg("@me:x", "question", "$ours", false),
        msg("@me:x", "more from me", "$1", false),
        msg("@other:x", "garbled", "$2", true),
        msg("@other:x", "answer", "$3", false),
        msg("@third:x", "later", "$4", false),
    ];
    let r = w.on_poll(&msgs).unwrap();
    assert_eq!(r.body, "answer");
    assert_eq!(r.event_id, "$3");
    assert_eq!(w.poll_window, 20);
}

#[test]
fn window_widens_while_our_message_is_out_of_view() {
    let mut w = ReplyWait::new("$ours".to_string(), "@me:x".to_string());
    let unrelated = vec![msg("@other:x", "chatter", "$9", false)];
    assert!(w.on_poll(&unrelated).is_none());
    assert_eq!(w.poll_window, 40);
    assert!(w.on_poll(&unrelated).is_none());
    assert!(w.on_poll(&unrelated).is_none());
    assert!(w.on_poll(&unrelated).is_none());
    assert_eq!(w.poll_window, 100);
    assert!(w.on_poll(&unrelated).is_none());
    assert_eq!(w.poll_window, 100);
    assert_eq!(w.read_limit(), 100);
}

#[test]
fn window_stays_when_our_message_is_seen() {
    let mut w = ReplyWait::new("$ours".to_string(), "@me:x".to_string());
    let msgs = vec![
        msg("@other:x", "before", "$0", false),
        msg("@me:x", "question", "$ours", false),
    ];
    assert!(w.on_poll(&msgs).is_none());
    assert_eq!(w.poll_window, 20);
}

#[test]
fn read_times_are_utc_clock_times() {
    let entries = vec![
        TimelineEntry::RoomMessage {
            sender: "@b:x.org".to_string(),
            body: Some("two".to_string()),
            origin_ts_millis: 1000,
            event_id: "$e2:x.org".to_string(),
        },
        TimelineEntry::RoomMessage {
            sender: "@a:x.org".to_string(),
            body: Some("one".to_string()),
            origin_ts_millis: 0,
            event_id: "$e1:x.org".to_string(),
        },
    ];
    let ms = collect_messages(&entries);
    assert_eq!(ms.len(), 2);
    assert_eq!((ms[0].body.as_str(), ms[0].timestamp.as_str()), ("one", "00:00:00"));
    assert_eq!((ms[1].body.as_str(), ms[1].timestamp.as_str()), ("two", "00:00:01"));
}
