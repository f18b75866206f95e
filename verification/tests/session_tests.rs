use chat_mirror::chat::{ChatAttr, ChatEvent, ChatKind};
use chat_mirror::session::{Session, SessionOutcome};
use chat_mirror::types::{
    Avatar, ChatListKind, ChatPosition, DraftMessage, MessageContent,
    NotificationSettings, ResolveError, UserKind, UserStatus,
};
use chat_mirror::update::{
    RawBasicGroup, RawChat, RawChatKind, RawMessage, RawMessageSender, RawSupergroup, RawUser,
    Update,
};
use chat_mirror::user::UserAttr;
use chat_mirror::user_list::UserList;
use chat_mirror::{ListChange, RegistryOutcome};

fn raw_user(id: i64, first_name: &str) -> RawUser {
    RawUser {
        id,
        first_name: first_name.to_string(),
        last_name: "".to_string(),
        username: "".to_string(),
        phone_number: "".to_string(),
        status: UserStatus::Empty,
        profile_photo: None,
        kind: UserKind::Regular,
    }
}

fn raw_private_chat(id: i64, user_id: i64, title: &str) -> RawChat {
    RawChat {
        id,
        kind: RawChatKind::Private { user_id },
        title: title.to_string(),
        photo: None,
        unread_count: 0,
        unread_mention_count: 0,
        notification_settings: NotificationSettings { mute_for: 0, show_preview: true },
        draft_message: None,
    }
}

fn raw_message(id: i64, chat_id: i64, sender_user_id: i64, text: &str) -> RawMessage {
    RawMessage {
        id,
        chat_id,
        sender: RawMessageSender::User { user_id: sender_user_id },
        is_outgoing: false,
        date: 0,
        forward_info: None,
        content: MessageContent::Text { text: text.to_string() },
    }
}

/// Builds a session with user 7 and private chat 1.
fn session_with_chat() -> Session {
    let mut session = Session::new();
    session.handle_update(&Update::User { user: raw_user(7, "Ada") }).unwrap();
    session
        .handle_update(&Update::NewChat { chat: raw_private_chat(1, 7, "Ada") })
        .unwrap();
    session
}

#[test]
fn user_status_scenario_end_to_end() {
    let mut session = Session::new();
    let out = session.handle_update(&Update::User { user: raw_user(7, "Ada") }).unwrap();
    match out {
        SessionOutcome::Users(RegistryOutcome::Inserted { change }) => {
            assert_eq!(change, ListChange { position: 0, removed: 0, added: 1 });
        }
        other => panic!("unexpected outcome: {:?}", other),
    }

    // The same status value again: zero notifications.
    let out = session
        .handle_update(&Update::UserStatus { user_id: 7, status: UserStatus::Empty })
        .unwrap();
    match out {
        SessionOutcome::Users(RegistryOutcome::Updated { position, changed }) => {
            assert_eq!(position, 0);
            assert!(changed.is_empty());
        }
        other => panic!("unexpected outcome: {:?}", other),
    }

    // A different status value: exactly one status notification.
    let new_status = UserStatus::Online { expires: 99 };
    let out = session
        .handle_update(&Update::UserStatus { user_id: 7, status: new_status })
        .unwrap();
    match out {
        SessionOutcome::Users(RegistryOutcome::Updated { position, changed }) => {
            assert_eq!(position, 0);
            assert_eq!(changed, vec![UserAttr::Status]);
        }
        other => panic!("unexpected outcome: {:?}", other),
    }
    let user = session.users().get_or_none(7).unwrap();
    assert_eq!(user.status(), new_status);
}

#[test]
fn new_message_and_last_message_scenario() {
    let mut session = session_with_chat();
    let out = session
        .handle_update(&Update::NewMessage { message: raw_message(100, 1, 7, "hello") })
        .unwrap();
    match out {
        SessionOutcome::Chats(RegistryOutcome::Updated { position, changed }) => {
            assert_eq!(position, 0);
            assert_eq!(
                changed,
                vec![ChatEvent::History {
                    change: ListChange { position: 0, removed: 0, added: 1 }
                }]
            );
        }
        other => panic!("unexpected outcome: {:?}", other),
    }
    {
        let chat = session.chats().get_or_none(1).unwrap();
        assert_eq!(chat.history().n_items(), 1);
        let m = chat.history().message_by_id(100).unwrap();
        assert_eq!(m.id(), 100);
    }

    // The last-message update references the message already in history:
    // no duplicate construction, the id keys the same history slot.
    let out = session
        .handle_update(&Update::ChatLastMessage {
            chat_id: 1,
            last_message: Some(raw_message(100, 1, 7, "hello")),
            positions: vec![],
        })
        .unwrap();
    match out {
        SessionOutcome::Chats(RegistryOutcome::Updated { position, changed }) => {
            assert_eq!(position, 0);
            assert_eq!(changed, vec![ChatEvent::Changed { attr: ChatAttr::LastMessage }]);
        }
        other => panic!("unexpected outcome: {:?}", other),
    }
    let chat = session.chats().get_or_none(1).unwrap();
    assert_eq!(chat.history().n_items(), 1);
    assert_eq!(chat.last_message_id(), Some(100));
    let m = chat.history().message_by_id(100).unwrap();
    assert_eq!(m.id(), 100);
}

#[test]
fn last_message_materializes_missing_message() {
    let mut session = session_with_chat();
    let out = session
        .handle_update(&Update::ChatLastMessage {
            chat_id: 1,
            last_message: Some(raw_message(200, 1, 7, "late")),
            positions: vec![
                ChatPosition { list: ChatListKind::Archive, order: 7, is_pinned: true },
                ChatPosition { list: ChatListKind::Main, order: 42, is_pinned: false },
            ],
        })
        .unwrap();
    match out {
        SessionOutcome::Chats(RegistryOutcome::Updated { position, changed }) => {
            assert_eq!(position, 0);
            assert_eq!(
                changed,
                vec![
                    ChatEvent::History {
                        change: ListChange { position: 0, removed: 0, added: 1 }
                    },
                    ChatEvent::Changed { attr: ChatAttr::LastMessage },
                    ChatEvent::Changed { attr: ChatAttr::Order },
                ]
            );
        }
        other => panic!("unexpected outcome: {:?}", other),
    }
    let chat = session.chats().get_or_none(1).unwrap();
    assert_eq!(chat.history().n_items(), 1);
    assert_eq!(chat.last_message_id(), Some(200));
    assert_eq!(chat.order(), 42);
}

#[test]
fn unresolved_cross_reference_is_not_found() {
    let mut session = Session::new();
    // No user 7 has been defined yet: the chat's reference cannot resolve.
    let r = session.handle_update(&Update::NewChat { chat: raw_private_chat(1, 7, "Ada") });
    assert_eq!(r, Err(ResolveError::UserNotFound { user_id: 7 }));
    assert_eq!(session.chats().n_items(), 0);
    assert_eq!(session.users().n_items(), 0);
}

#[test]
fn unresolved_group_references() {
    let mut session = Session::new();
    let mut chat = raw_private_chat(2, 0, "group");
    chat.kind = RawChatKind::BasicGroup { basic_group_id: 10 };
    let r = session.handle_update(&Update::NewChat { chat });
    assert_eq!(r, Err(ResolveError::BasicGroupNotFound { basic_group_id: 10 }));

    let mut chat = raw_private_chat(3, 0, "channel");
    chat.kind = RawChatKind::Supergroup { supergroup_id: 11 };
    let r = session.handle_update(&Update::NewChat { chat });
    assert_eq!(r, Err(ResolveError::SupergroupNotFound { supergroup_id: 11 }));
    assert_eq!(session.chats().n_items(), 0);
}

#[test]
fn message_sender_chat_not_found() {
    let mut session = session_with_chat();
    let mut message = raw_message(300, 1, 7, "from a chat");
    message.sender = RawMessageSender::Chat { chat_id: 55 };
    let r = session.handle_update(&Update::NewMessage { message });
    assert_eq!(r, Err(ResolveError::ChatNotFound { chat_id: 55 }));
    let chat = session.chats().get_or_none(1).unwrap();
    assert_eq!(chat.history().n_items(), 0);
}

#[test]
fn identical_update_twice_notifies_once() {
    let mut session = Session::new();
    let mut user = raw_user(7, "Ada");
    user.status = UserStatus::Recently;
    session.handle_update(&Update::User { user: user.clone() }).unwrap();

    // The user exists with different values: one notification per changed
    // attribute on the first application...
    let mut user2 = user.clone();
    user2.first_name = "Grace".to_string();
    let out = session.handle_update(&Update::User { user: user2.clone() }).unwrap();
    match out {
        SessionOutcome::Users(RegistryOutcome::Updated { changed, .. }) => {
            assert_eq!(changed, vec![UserAttr::FirstName]);
        }
        other => panic!("unexpected outcome: {:?}", other),
    }
    // ...and zero on the second, identical one.
    let out = session.handle_update(&Update::User { user: user2 }).unwrap();
    match out {
        SessionOutcome::Users(RegistryOutcome::Updated { changed, .. }) => {
            assert!(changed.is_empty());
        }
        other => panic!("unexpected outcome: {:?}", other),
    }
}

#[test]
fn insertion_notification_shape() {
    let mut session = Session::new();
    for (i, id) in [20i64, 21, 22].iter().enumerate() {
        let out = session
            .handle_update(&Update::BasicGroup {
                basic_group: RawBasicGroup { id: *id, member_count: 2 },
            })
            .unwrap();
        match out {
            SessionOutcome::BasicGroups(RegistryOutcome::Inserted { change }) => {
                assert_eq!(change, ListChange { position: i, removed: 0, added: 1 });
            }
            other => panic!("unexpected outcome: {:?}", other),
        }
    }
    assert_eq!(session.basic_groups().n_items(), 3);
    // Positions are stable: each id still lives where it was inserted.
    for (i, id) in [20i64, 21, 22].iter().enumerate() {
        assert_eq!(session.basic_groups().position_of(*id), Some(i));
    }
}

#[test]
fn group_member_count_updates() {
    let mut session = Session::new();
    session
        .handle_update(&Update::BasicGroup {
            basic_group: RawBasicGroup { id: 20, member_count: 2 },
        })
        .unwrap();
    let out = session
        .handle_update(&Update::BasicGroup {
            basic_group: RawBasicGroup { id: 20, member_count: 5 },
        })
        .unwrap();
    match out {
        SessionOutcome::BasicGroups(RegistryOutcome::Updated { position, changed }) => {
            assert_eq!(position, 0);
            assert_eq!(changed, vec![chat_mirror::basic_group::BasicGroupAttr::MemberCount]);
        }
        other => panic!("unexpected outcome: {:?}", other),
    }
    assert_eq!(session.basic_groups().get_or_none(20).unwrap().member_count(), 5);

    let out = session
        .handle_update(&Update::Supergroup {
            supergroup: RawSupergroup { id: 30, member_count: 100, is_channel: true },
        })
        .unwrap();
    assert!(matches!(out, SessionOutcome::Supergroups(RegistryOutcome::Inserted { .. })));
    let sg = session.supergroups().get_or_none(30).unwrap();
    assert_eq!(sg.member_count(), 100);
    assert!(sg.is_channel());
}

#[test]
fn history_deletion_keeps_other_lookups() {
    let mut session = session_with_chat();
    for id in [100i64, 101, 102] {
        session
            .handle_update(&Update::NewMessage {
                message: raw_message(id, 1, 7, &format!("m{}", id)),
            })
            .unwrap();
    }
    let out = session
        .handle_update(&Update::DeleteMessages { chat_id: 1, message_ids: vec![101, 999] })
        .unwrap();
    match out {
        SessionOutcome::Chats(RegistryOutcome::Updated { position, changed }) => {
            assert_eq!(position, 0);
            // One removal for the held id; the unknown id removes nothing.
            assert_eq!(
                changed,
                vec![ChatEvent::History {
                    change: ListChange { position: 1, removed: 1, added: 0 }
                }]
            );
        }
        other => panic!("unexpected outcome: {:?}", other),
    }
    let chat = session.chats().get_or_none(1).unwrap();
    assert_eq!(chat.history().n_items(), 2);
    assert!(chat.history().message_by_id(101).is_none());
    let m100 = chat.history().message_by_id(100).unwrap();
    assert_eq!(m100.id(), 100);
    let m102 = chat.history().message_by_id(102).unwrap();
    assert_eq!(m102.id(), 102);
    // The shifted message is found at its new position.
    assert_eq!(chat.history().position_of(102), Some(1));
    assert_eq!(chat.history().position_of(100), Some(0));
}

#[test]
fn attribute_isolation_title_only() {
    let mut session = session_with_chat();
    let out = session
        .handle_update(&Update::ChatTitle { chat_id: 1, title: "Countess".to_string() })
        .unwrap();
    match out {
        SessionOutcome::Chats(RegistryOutcome::Updated { position, changed }) => {
            assert_eq!(position, 0);
            assert_eq!(changed, vec![ChatEvent::Changed { attr: ChatAttr::Title }]);
        }
        other => panic!("unexpected outcome: {:?}", other),
    }
    let chat = session.chats().get_or_none(1).unwrap();
    assert_eq!(chat.title().as_str(), "Countess");
    // Everything else kept its value.
    assert_eq!(chat.unread_count(), 0);
    assert_eq!(chat.avatar(), None);
    assert_eq!(chat.last_message_id(), None);
}

#[test]
fn unknown_ids_are_reported_not_applied() {
    let mut session = Session::new();
    let out = session
        .handle_update(&Update::UserStatus { user_id: 9, status: UserStatus::Recently })
        .unwrap();
    assert!(matches!(out, SessionOutcome::Users(RegistryOutcome::UnknownId { id: 9 })));

    let out = session
        .handle_update(&Update::ChatTitle { chat_id: 4, title: "nobody".to_string() })
        .unwrap();
    assert!(matches!(out, SessionOutcome::Chats(RegistryOutcome::UnknownId { id: 4 })));
}

#[test]
fn registry_ignores_foreign_variants() {
    let mut users = UserList::new();
    let out = users.handle_update(&Update::BasicGroup {
        basic_group: RawBasicGroup { id: 1, member_count: 1 },
    });
    assert!(matches!(out, RegistryOutcome::Ignored));
    assert_eq!(users.n_items(), 0);
}

#[test]
fn chat_position_updates_main_list_only() {
    let mut session = session_with_chat();
    let out = session
        .handle_update(&Update::ChatPosition {
            chat_id: 1,
            position: ChatPosition { list: ChatListKind::Archive, order: 9, is_pinned: true },
        })
        .unwrap();
    match out {
        SessionOutcome::Chats(RegistryOutcome::Updated { changed, .. }) => {
            assert!(changed.is_empty());
        }
        other => panic!("unexpected outcome: {:?}", other),
    }
    let out = session
        .handle_update(&Update::ChatPosition {
            chat_id: 1,
            position: ChatPosition { list: ChatListKind::Main, order: 9, is_pinned: true },
        })
        .unwrap();
    match out {
        SessionOutcome::Chats(RegistryOutcome::Updated { changed, .. }) => {
            assert_eq!(
                changed,
                vec![
                    ChatEvent::Changed { attr: ChatAttr::Order },
                    ChatEvent::Changed { attr: ChatAttr::IsPinned },
                ]
            );
        }
        other => panic!("unexpected outcome: {:?}", other),
    }
    let chat = session.chats().get_or_none(1).unwrap();
    assert_eq!(chat.order(), 9);
    assert!(chat.is_pinned());
}

#[test]
fn message_content_change_notifies_once() {
    let mut session = session_with_chat();
    session
        .handle_update(&Update::NewMessage { message: raw_message(100, 1, 7, "hello") })
        .unwrap();
    // The same content again: nothing to notify.
    let out = session
        .handle_update(&Update::MessageContent {
            chat_id: 1,
            message_id: 100,
            new_content: MessageContent::Text { text: "hello".to_string() },
        })
        .unwrap();
    match out {
        SessionOutcome::Chats(RegistryOutcome::Updated { changed, .. }) => {
            assert!(changed.is_empty());
        }
        other => panic!("unexpected outcome: {:?}", other),
    }
    // A different content: exactly one content notification.
    let out = session
        .handle_update(&Update::MessageContent {
            chat_id: 1,
            message_id: 100,
            new_content: MessageContent::Text { text: "edited".to_string() },
        })
        .unwrap();
    match out {
        SessionOutcome::Chats(RegistryOutcome::Updated { changed, .. }) => {
            assert_eq!(changed, vec![ChatEvent::MessageChanged { message_id: 100 }]);
        }
        other => panic!("unexpected outcome: {:?}", other),
    }
    let chat = session.chats().get_or_none(1).unwrap();
    let m = chat.history().message_by_id(100).unwrap();
    match m.content() {
        MessageContent::Text { text } => assert_eq!(text.as_str(), "edited"),
        other => panic!("unexpected content: {:?}", other),
    }
}

#[test]
fn draft_and_notification_settings() {
    let mut session = session_with_chat();
    let draft = DraftMessage {
        reply_to_message_id: 0,
        date: 5,
        text: "wip".to_string(),
    };
    let out = session
        .handle_update(&Update::ChatDraftMessage { chat_id: 1, draft_message: Some(draft) })
        .unwrap();
    match out {
        SessionOutcome::Chats(RegistryOutcome::Updated { changed, .. }) => {
            assert_eq!(changed, vec![ChatEvent::Changed { attr: ChatAttr::DraftMessage }]);
        }
        other => panic!("unexpected outcome: {:?}", other),
    }
    let settings = NotificationSettings { mute_for: 60, show_preview: false };
    let out = session
        .handle_update(&Update::ChatNotificationSettings {
            chat_id: 1,
            notification_settings: settings,
        })
        .unwrap();
    match out {
        SessionOutcome::Chats(RegistryOutcome::Updated { changed, .. }) => {
            assert_eq!(
                changed,
                vec![ChatEvent::Changed { attr: ChatAttr::NotificationSettings }]
            );
        }
        other => panic!("unexpected outcome: {:?}", other),
    }
    let chat = session.chats().get_or_none(1).unwrap();
    assert_eq!(chat.notification_settings(), settings);
    assert_eq!(chat.draft_message().as_ref().unwrap().text.as_str(), "wip");
    assert_eq!(chat.unread_count(), 0);
}

#[test]
fn unread_counters_follow_updates() {
    let mut session = session_with_chat();
    let out = session
        .handle_update(&Update::ChatReadInbox {
            chat_id: 1,
            last_read_inbox_message_id: 100,
            unread_count: 3,
        })
        .unwrap();
    match out {
        SessionOutcome::Chats(RegistryOutcome::Updated { changed, .. }) => {
            assert_eq!(changed, vec![ChatEvent::Changed { attr: ChatAttr::UnreadCount }]);
        }
        other => panic!("unexpected outcome: {:?}", other),
    }
    session
        .handle_update(&Update::ChatUnreadMentionCount { chat_id: 1, unread_mention_count: 2 })
        .unwrap();
    let out = session
        .handle_update(&Update::MessageMentionRead {
            chat_id: 1,
            message_id: 100,
            unread_mention_count: 1,
        })
        .unwrap();
    match out {
        SessionOutcome::Chats(RegistryOutcome::Updated { changed, .. }) => {
            assert_eq!(
                changed,
                vec![ChatEvent::Changed { attr: ChatAttr::UnreadMentionCount }]
            );
        }
        other => panic!("unexpected outcome: {:?}", other),
    }
    let chat = session.chats().get_or_none(1).unwrap();
    assert_eq!(chat.unread_count(), 3);
    assert_eq!(chat.unread_mention_count(), 1);
}

#[test]
fn avatar_change_notifies() {
    let mut session = session_with_chat();
    let out = session
        .handle_update(&Update::ChatPhoto {
            chat_id: 1,
            photo: Some(Avatar { small_file_id: 77 }),
        })
        .unwrap();
    match out {
        SessionOutcome::Chats(RegistryOutcome::Updated { changed, .. }) => {
            assert_eq!(changed, vec![ChatEvent::Changed { attr: ChatAttr::Avatar }]);
        }
        other => panic!("unexpected outcome: {:?}", other),
    }
    let chat = session.chats().get_or_none(1).unwrap();
    assert_eq!(chat.avatar(), Some(Avatar { small_file_id: 77 }));
}

#[test]
fn own_chat_identification() {
    let mut session = session_with_chat();
    session.set_me(7).unwrap();
    let me = session.me().unwrap();
    let chat = session.chats().get_or_none(1).unwrap();
    assert!(chat.is_own_chat(me));
    match chat.kind() {
        ChatKind::Private { user } => assert_eq!(Some(user), chat.kind().user()),
        other => panic!("unexpected kind: {:?}", other),
    }
}

#[test]
fn get_returns_the_defined_entity() {
    let mut session = Session::new();
    session.handle_update(&Update::User { user: raw_user(7, "Ada") }).unwrap();
    assert_eq!(session.users().get(7).id(), 7);
    assert_eq!(session.users().get(7).first_name().as_str(), "Ada");
}

#[test]
fn set_me_requires_defined_user() {
    let mut session = Session::new();
    assert_eq!(session.set_me(7), Err(ResolveError::UserNotFound { user_id: 7 }));
    assert_eq!(session.me(), None);
}
