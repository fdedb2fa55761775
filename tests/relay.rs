use chat_relay::{
    format_line, message_event, Broadcast, Chat, ChatEvent, Connection, Frame, Phase, Reaction,
    User, Uuid, SESSION_COOKIE,
};

fn joined(chat: &mut Chat<u32>, name: &str, handle: u32) -> (User, Broadcast) {
    let mut user = User::with_id(Uuid::from_value(name));
    let event = user.started(handle).expect("first start announces the join");
    let b = chat.handle(event);
    (user, b)
}

fn member_names(chat: &Chat<u32>) -> Vec<String> {
    chat.users().iter().map(|c| c.id.as_str().to_string()).collect()
}

#[test]
fn join_reaches_sole_member() {
    let mut chat: Chat<u32> = Chat::new();
    let (_x, b) = joined(&mut chat, "X", 10);
    assert_eq!(b.line, "!! << X joined the chat >> !!");
    assert_eq!(b.targets, vec![0]);
    assert_eq!(chat.len(), 1);
}

#[test]
fn second_join_reaches_both() {
    let mut chat: Chat<u32> = Chat::new();
    let (_x, _) = joined(&mut chat, "X", 10);
    let (_y, b) = joined(&mut chat, "Y", 20);
    assert_eq!(b.line, "!! << Y joined the chat >> !!");
    assert_eq!(b.targets, vec![0, 1]);
    assert_eq!(chat.users()[b.targets[0]].handle, Some(10));
    assert_eq!(chat.users()[b.targets[1]].handle, Some(20));
}

#[test]
fn message_with_cookie_reaches_both() {
    let mut chat: Chat<u32> = Chat::new();
    joined(&mut chat, "X", 10);
    joined(&mut chat, "Y", 20);
    let event = message_event::<u32>(Some("X"), "hello".to_string()).expect("cookie present");
    let b = chat.handle(event);
    assert_eq!(b.line, "X: hello");
    assert_eq!(b.targets, vec![0, 1]);
    assert_eq!(chat.len(), 2);
}

#[test]
fn text_frame_becomes_message_from_sender() {
    let mut chat: Chat<u32> = Chat::new();
    let (mut x, _) = joined(&mut chat, "X", 10);
    joined(&mut chat, "Y", 20);
    match x.on_frame::<u32>(Frame::Text("hello".to_string())) {
        Reaction::Submit(event) => {
            let b = chat.handle(event);
            assert_eq!(b.line, "X: hello");
            assert_eq!(b.targets, vec![0, 1]);
        }
        _ => panic!("a text frame is submitted"),
    }
    assert_eq!(x.phase(), Phase::Active);
}

#[test]
fn message_without_cookie_is_unauthorized() {
    let mut chat: Chat<u32> = Chat::new();
    joined(&mut chat, "X", 10);
    let r = message_event::<u32>(None, "hello".to_string());
    match r {
        Err(e) => assert_eq!(e.reason(), "not authorized to send messages"),
        Ok(_) => panic!("no cookie, no event"),
    }
    assert_eq!(chat.len(), 1);
    assert_eq!(member_names(&chat), vec!["X".to_string()]);
    assert_eq!(SESSION_COOKIE, "id");
}

#[test]
fn disconnect_announces_leave_once() {
    let mut chat: Chat<u32> = Chat::new();
    let (mut x, _) = joined(&mut chat, "X", 10);
    joined(&mut chat, "Y", 20);
    assert!(matches!(x.on_frame::<u32>(Frame::Close), Reaction::Close));
    assert_eq!(x.phase(), Phase::Closing);
    let left = x.stopping::<u32>().expect("first teardown announces the leave");
    let b = chat.handle(left);
    assert_eq!(b.line, "X left the chat");
    assert_eq!(b.targets, vec![0]);
    assert_eq!(chat.users()[0].handle, Some(20));
    assert_eq!(member_names(&chat), vec!["Y".to_string()]);
    assert!(x.stopping::<u32>().is_none());
    assert_eq!(x.phase(), Phase::Terminated);
    // a racing duplicate leave is harmless
    let b2 = chat.handle(ChatEvent::UserLeft(Uuid::from_value("X")));
    assert_eq!(b2.line, "X left the chat");
    assert_eq!(b2.targets, vec![0]);
    assert_eq!(member_names(&chat), vec!["Y".to_string()]);
}

#[test]
fn membership_counts_joins_minus_matched_leaves() {
    let mut chat: Chat<u32> = Chat::new();
    joined(&mut chat, "A", 1);
    joined(&mut chat, "B", 2);
    joined(&mut chat, "C", 3);
    chat.handle(ChatEvent::UserLeft(Uuid::from_value("B")));
    chat.handle(ChatEvent::UserLeft(Uuid::from_value("Z")));
    chat.handle(ChatEvent::UserLeft(Uuid::from_value("B")));
    assert_eq!(chat.len(), 2);
    assert_eq!(member_names(&chat), vec!["A".to_string(), "C".to_string()]);
}

#[test]
fn batch_is_processed_in_order() {
    let mut chat: Chat<u32> = Chat::new();
    let events: Vec<ChatEvent<u32>> = vec![
        ChatEvent::UserJoined(Connection { id: Uuid::from_value("X"), handle: Some(1) }),
        ChatEvent::UserJoined(Connection { id: Uuid::from_value("Y"), handle: Some(2) }),
        ChatEvent::MessageSent { author_id: Uuid::from_value("Y"), content: "hi".to_string() },
        ChatEvent::UserLeft(Uuid::from_value("X")),
        ChatEvent::MessageSent { author_id: Uuid::from_value("X"), content: "late".to_string() },
    ];
    let out = chat.handle_all(events);
    let lines: Vec<&str> = out.iter().map(|b| b.line.as_str()).collect();
    assert_eq!(
        lines,
        vec![
            "!! << X joined the chat >> !!",
            "!! << Y joined the chat >> !!",
            "Y: hi",
            "X left the chat",
            "X: late",
        ]
    );
    assert_eq!(out[0].targets, vec![0]);
    assert_eq!(out[1].targets, vec![0, 1]);
    assert_eq!(out[2].targets, vec![0, 1]);
    assert_eq!(out[3].targets, vec![0]);
    assert_eq!(out[4].targets, vec![0]);
    assert_eq!(member_names(&chat), vec!["Y".to_string()]);
}

#[test]
fn second_leave_changes_nothing() {
    let mut chat: Chat<u32> = Chat::new();
    joined(&mut chat, "X", 1);
    joined(&mut chat, "Y", 2);
    let first = chat.handle(ChatEvent::UserLeft(Uuid::from_value("X")));
    let after_first = member_names(&chat);
    let second = chat.handle(ChatEvent::UserLeft(Uuid::from_value("X")));
    assert_eq!(member_names(&chat), after_first);
    assert_eq!(first.line, "X left the chat");
    assert_eq!(second.line, "X left the chat");
}

#[test]
fn detached_member_does_not_block_others() {
    let mut chat: Chat<u32> = Chat::new();
    chat.handle(ChatEvent::UserJoined(Connection { id: Uuid::from_value("A"), handle: None }));
    joined(&mut chat, "B", 2);
    let b = chat.handle(ChatEvent::MessageSent {
        author_id: Uuid::from_value("B"),
        content: "ping".to_string(),
    });
    assert_eq!(b.line, "B: ping");
    assert_eq!(b.targets, vec![1]);
}

#[test]
fn leave_of_unknown_identity_is_silent() {
    let mut chat: Chat<u32> = Chat::new();
    joined(&mut chat, "X", 1);
    let b = chat.handle(ChatEvent::UserLeft(Uuid::from_value("nobody")));
    assert_eq!(b.line, "nobody left the chat");
    assert_eq!(b.targets, vec![0]);
    assert_eq!(chat.len(), 1);
}

#[test]
fn format_line_of_each_event() {
    let j: ChatEvent<u8> =
        ChatEvent::UserJoined(Connection { id: Uuid::from_value("abc"), handle: None });
    let l: ChatEvent<u8> = ChatEvent::UserLeft(Uuid::from_value("abc"));
    let m: ChatEvent<u8> =
        ChatEvent::MessageSent { author_id: Uuid::from_value("abc"), content: "a: b".to_string() };
    assert_eq!(format_line(&j), "!! << abc joined the chat >> !!");
    assert_eq!(format_line(&l), "abc left the chat");
    assert_eq!(format_line(&m), "abc: a: b");
}

#[test]
fn fresh_identities_are_hyphenated_and_distinct() {
    let a = User::new();
    let b = User::new();
    let s = a.id().as_str();
    assert_eq!(s.len(), 36);
    for (i, c) in s.chars().enumerate() {
        if i == 8 || i == 13 || i == 18 || i == 23 {
            assert_eq!(c, '-');
        } else {
            assert!(c.is_ascii_hexdigit() && !c.is_ascii_uppercase());
        }
    }
    let digits: Vec<char> = s.chars().collect();
    assert_eq!(digits[14], '4');
    assert!(matches!(digits[19], '8' | '9' | 'a' | 'b'));
    assert_ne!(a.id().as_str(), b.id().as_str());
    assert_eq!(a.phase(), Phase::Created);
}

#[test]
fn session_lifecycle_edges() {
    let mut u = User::with_id(Uuid::from_value("U"));
    assert!(matches!(u.on_frame::<u8>(Frame::Text("early".to_string())), Reaction::Ignore));
    assert_eq!(u.phase(), Phase::Created);
    match u.started(7u8) {
        Some(ChatEvent::UserJoined(c)) => {
            assert_eq!(c.id.as_str(), "U");
            assert_eq!(c.handle, Some(7));
        }
        _ => panic!("first start announces the join"),
    }
    assert_eq!(u.phase(), Phase::Attached);
    assert!(u.started(8u8).is_none());
    assert!(matches!(u.on_frame::<u8>(Frame::Binary), Reaction::Ignore));
    assert!(matches!(u.on_frame::<u8>(Frame::Ping), Reaction::Ignore));
    assert_eq!(u.phase(), Phase::Active);
    assert!(matches!(u.on_frame::<u8>(Frame::Fault), Reaction::Close));
    assert_eq!(u.phase(), Phase::Closing);
    assert!(matches!(u.on_frame::<u8>(Frame::Text("late".to_string())), Reaction::Ignore));
    match u.stopping::<u8>() {
        Some(ChatEvent::UserLeft(id)) => assert_eq!(id.as_str(), "U"),
        _ => panic!("teardown announces the leave"),
    }
    assert!(u.stopping::<u8>().is_none());
}

#[test]
fn teardown_before_attach_still_announces_leave() {
    let mut u = User::with_id(Uuid::from_value("V"));
    assert!(matches!(u.stopping::<u8>(), Some(ChatEvent::UserLeft(_))));
    assert!(u.started(1u8).is_none());
    assert_eq!(u.phase(), Phase::Terminated);
}
