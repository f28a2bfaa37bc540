use orbifon::error::AppError;
use orbifon::handler::{
    access_reply, announce, error_reply, frame_step, history_message, plan_dm_message,
    plan_hot_town_message, Frame, HistoryQuery, Plan, Step, StoredMessage,
};
use orbifon::keys::{dm_channel_key, dm_pair, hot_town_channel_key};
use orbifon::message::{AuthUser, HistoryRow, Timestamp, WsMessage};
use orbifon::registry::ChannelRegistry;
use orbifon::text::{body_is_acceptable_exec, trim_body};

fn user(id: u64, name: &str) -> AuthUser {
    AuthUser { id, username: name.to_string(), college_id: 1 }
}

fn connect(user_id: u64, channel_id: u64) -> WsMessage {
    WsMessage::Connect {
        user_id,
        username: "asha".to_string(),
        channel_type: "dm".to_string(),
        channel_id,
    }
}

fn post(body: &str, channel_id: u64) -> WsMessage {
    WsMessage::Message {
        body: body.to_string(),
        channel_type: "dm".to_string(),
        channel_id,
        client_nonce: Some("n-1".to_string()),
    }
}

#[test]
fn dm_keys_order_the_pair() {
    assert_eq!(dm_pair(7, 3), (3, 7));
    assert_eq!(dm_pair(3, 7), (3, 7));
    assert_eq!(dm_pair(4, 4), (4, 4));
    assert_eq!(dm_channel_key(12, 3), "dm:3:12");
    assert_eq!(dm_channel_key(3, 12), "dm:3:12");
    assert_eq!(dm_channel_key(0, 0), "dm:0:0");
    assert_eq!(dm_channel_key(u64::MAX, 10), "dm:10:18446744073709551615");
}

#[test]
fn dm_keys_tell_pairs_apart() {
    assert_ne!(dm_channel_key(1, 23), dm_channel_key(12, 3));
    assert_ne!(dm_channel_key(1, 2), dm_channel_key(1, 3));
}

#[test]
fn hot_town_keys() {
    assert_eq!(hot_town_channel_key(0), "hot_town:0");
    assert_eq!(hot_town_channel_key(42), "hot_town:42");
    assert_eq!(hot_town_channel_key(u16::MAX), "hot_town:65535");
    assert_ne!(hot_town_channel_key(4), dm_channel_key(4, 4));
}

#[test]
fn body_rules() {
    assert!(body_is_acceptable_exec("hello"));
    assert!(!body_is_acceptable_exec(""));
    assert!(!body_is_acceptable_exec(" \t\n\u{3000}"));
    assert!(body_is_acceptable_exec(&"a".repeat(2000)));
    assert!(!body_is_acceptable_exec(&"a".repeat(2001)));
    // 1000 two-byte characters are 2000 bytes; one more character is too many.
    assert!(body_is_acceptable_exec(&"é".repeat(1000)));
    assert!(!body_is_acceptable_exec(&"é".repeat(1001)));
    assert_eq!(trim_body("  hi there \n"), "hi there");
    assert_eq!(trim_body("\u{2003}x\u{00A0}"), "x");
    assert_eq!(trim_body("   "), "");
}

#[test]
fn dm_join_registers_the_pair() {
    let auth = user(9, "asha");
    match plan_dm_message(&auth, connect(9, 4)) {
        Ok(Plan::Join(j)) => {
            assert_eq!(j.channel_key, "dm:4:9");
            assert_eq!(j.user.user_id, 9);
            assert_eq!(j.user.channel_id, 4);
            assert_eq!(j.user.channel_type, "dm");
            assert_eq!(j.history, HistoryQuery::Direct { user1: 4, user2: 9 });
            match j.confirmation {
                WsMessage::Connected { user_id, message } => {
                    assert_eq!(user_id, 9);
                    assert_eq!(message, "Connected to DM");
                },
                other => panic!("unexpected confirmation {:?}", other),
            }
        },
        other => panic!("unexpected outcome {:?}", other),
    }
}

#[test]
fn dm_join_under_another_id_is_refused() {
    let auth = user(9, "asha");
    match plan_dm_message(&auth, connect(10, 4)) {
        Err(AppError::Unauthorized(m)) => assert_eq!(m, "User ID mismatch"),
        other => panic!("unexpected outcome {:?}", other),
    }
}

#[test]
fn dm_post_is_stored_trimmed_from_the_sender() {
    let auth = user(9, "asha");
    match plan_dm_message(&auth, post("  hello  ", 4)) {
        Ok(Plan::Post(p)) => {
            assert_eq!(p.channel_key, "dm:4:9");
            assert_eq!(p.body, "  hello  ");
            assert_eq!(p.user_id, 9);
            assert_eq!(p.username, "asha");
            match &p.record {
                StoredMessage::Direct { sender_id, receiver_id, body, client_nonce } => {
                    assert_eq!(*sender_id, 9);
                    assert_eq!(*receiver_id, 4);
                    assert_eq!(body, "hello");
                    assert_eq!(client_nonce.as_deref(), Some("n-1"));
                },
                other => panic!("unexpected record {:?}", other),
            }
            let at = Timestamp { secs: 1_700_000_000, nanos: 5 };
            match announce(&p, 77, at) {
                WsMessage::NewMessage {
                    id,
                    user_id,
                    username,
                    body,
                    channel_type,
                    channel_id,
                    created_at,
                    is_deleted,
                } => {
                    assert_eq!(id, 77);
                    assert_eq!(user_id, 9);
                    assert_eq!(username, "asha");
                    assert_eq!(body, "  hello  ");
                    assert_eq!(channel_type, "dm");
                    assert_eq!(channel_id, 4);
                    assert_eq!(created_at, at);
                    assert!(!is_deleted);
                },
                other => panic!("unexpected announcement {:?}", other),
            }
        },
        other => panic!("unexpected outcome {:?}", other),
    }
}

#[test]
fn dm_post_with_bad_body_is_refused() {
    let auth = user(9, "asha");
    for body in ["", "   ", &"x".repeat(2001)] {
        match plan_dm_message(&auth, post(body, 4)) {
            Err(AppError::Validation(m)) => assert_eq!(m, "Message must be 1-2000 characters"),
            other => panic!("unexpected outcome {:?}", other),
        }
    }
}

#[test]
fn dm_other_messages_are_ignored() {
    let auth = user(9, "asha");
    assert!(matches!(plan_dm_message(&auth, WsMessage::Ping), Ok(Plan::Ignore)));
    let m = WsMessage::Error { message: "x".to_string() };
    assert!(matches!(plan_dm_message(&auth, m), Ok(Plan::Ignore)));
}

#[test]
fn dm_partners_share_a_channel() {
    let a = user(9, "asha");
    let b = user(4, "bo");
    let key_a = match plan_dm_message(&a, connect(9, 4)) {
        Ok(Plan::Join(j)) => j.channel_key,
        other => panic!("unexpected outcome {:?}", other),
    };
    let key_b = match plan_dm_message(&b, post("hi", 9)) {
        Ok(Plan::Post(p)) => p.channel_key,
        other => panic!("unexpected outcome {:?}", other),
    };
    assert_eq!(key_a, key_b);
}

#[test]
fn hot_town_join_and_post() {
    let auth = user(9, "asha");
    match plan_hot_town_message(&auth, 12, connect(9, 555)) {
        Ok(Plan::Join(j)) => {
            assert_eq!(j.channel_key, "hot_town:12");
            assert_eq!(j.user.channel_type, "hot_town");
            assert_eq!(j.user.channel_id, 12);
            assert_eq!(j.history, HistoryQuery::Channel { channel_id: 12 });
            match j.confirmation {
                WsMessage::Connected { message, .. } => assert_eq!(message, "Connected to Hot Town"),
                other => panic!("unexpected confirmation {:?}", other),
            }
        },
        other => panic!("unexpected outcome {:?}", other),
    }
    match plan_hot_town_message(&auth, 12, post(" yo ", 555)) {
        Ok(Plan::Post(p)) => {
            assert_eq!(p.channel_key, "hot_town:12");
            assert_eq!(p.channel_type, "hot_town");
            assert_eq!(p.channel_id, 12);
            match &p.record {
                StoredMessage::Channel { channel_id, user_id, body } => {
                    assert_eq!(*channel_id, 12);
                    assert_eq!(*user_id, 9);
                    assert_eq!(body, "yo");
                },
                other => panic!("unexpected record {:?}", other),
            }
        },
        other => panic!("unexpected outcome {:?}", other),
    }
    assert!(matches!(
        plan_hot_town_message(&auth, 12, connect(8, 12)),
        Err(AppError::Unauthorized(_))
    ));
    assert!(matches!(
        plan_hot_town_message(&auth, 12, post("\n", 12)),
        Err(AppError::Validation(_))
    ));
    assert!(matches!(plan_hot_town_message(&auth, 12, WsMessage::Ping), Ok(Plan::Ignore)));
}

#[test]
fn history_keeps_rows_in_order() {
    let rows = vec![
        HistoryRow {
            id: 3,
            user_id: 1,
            username: "a".to_string(),
            body: "later".to_string(),
            created_at: Timestamp { secs: 20, nanos: 0 },
        },
        HistoryRow {
            id: 2,
            user_id: 2,
            username: "b".to_string(),
            body: "earlier".to_string(),
            created_at: Timestamp { secs: 10, nanos: 0 },
        },
    ];
    match history_message(&rows) {
        WsMessage::History { messages } => {
            assert_eq!(messages.len(), 2);
            assert_eq!(messages[0].id, 3);
            assert_eq!(messages[0].body, "later");
            assert_eq!(messages[1].username, "b");
            assert_eq!(messages[1].created_at, Timestamp { secs: 10, nanos: 0 });
            assert!(messages.iter().all(|m| !m.is_deleted));
        },
        other => panic!("unexpected message {:?}", other),
    }
    assert!(matches!(history_message(&Vec::new()), WsMessage::History { messages } if messages.is_empty()));
}

#[test]
fn replies_and_frames() {
    match error_reply(&AppError::Validation("bad".to_string())) {
        WsMessage::Error { message } => assert_eq!(message, "validation error: bad"),
        other => panic!("unexpected reply {:?}", other),
    }
    match error_reply(&AppError::Internal("channel closed".to_string())) {
        WsMessage::Error { message } => assert_eq!(message, "internal error"),
        other => panic!("unexpected reply {:?}", other),
    }
    assert!(access_reply(true).is_none());
    match access_reply(false) {
        Some(WsMessage::Error { message }) => assert_eq!(message, "Access denied"),
        other => panic!("unexpected reply {:?}", other),
    }
    assert!(matches!(frame_step(Frame::Text(Some(WsMessage::Ping))), Step::Handle(WsMessage::Ping)));
    assert!(matches!(frame_step(Frame::Text(None)), Step::Skip));
    assert!(matches!(frame_step(Frame::Other), Step::Skip));
    assert!(matches!(frame_step(Frame::Close), Step::Stop));
    assert!(matches!(frame_step(Frame::Ended), Step::Stop));
}

#[test]
fn registry_broadcast_targets() {
    let auth = user(9, "asha");
    let mut registry = ChannelRegistry::new();
    let join = |registry: &mut ChannelRegistry, user_id: u64, other: u64, connection: u64| {
        match plan_dm_message(&user(user_id, "u"), connect(user_id, other)) {
            Ok(Plan::Join(j)) => registry.add_user_to_channel(j.channel_key, j.user, connection),
            other => panic!("unexpected outcome {:?}", other),
        }
    };
    join(&mut registry, 9, 4, 100);
    join(&mut registry, 4, 9, 101);
    join(&mut registry, 5, 9, 102);
    assert_eq!(registry.len(), 3);
    let key = match plan_dm_message(&auth, post("hi", 4)) {
        Ok(Plan::Post(p)) => p.channel_key,
        other => panic!("unexpected outcome {:?}", other),
    };
    assert_eq!(registry.broadcast_targets(&key, None), vec![100, 101]);
    assert_eq!(registry.broadcast_targets(&key, Some(9)), vec![101]);
    assert_eq!(registry.broadcast_targets(&"dm:5:9".to_string(), None), vec![102]);
    assert!(registry.broadcast_targets(&"hot_town:1".to_string(), None).is_empty());
}
