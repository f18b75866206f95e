use chat_mirror::chat::{ChatAttr, ChatEvent};
use chat_mirror::message::{MessageSender, NameSource};
use chat_mirror::session::{Session, SessionOutcome};
use chat_mirror::sponsored_message::SponsoredMessage;
use chat_mirror::types::{
    ChatActionKind, MessageContent, NotificationSettings, ResolveError, UserKind, UserStatus,
};
use chat_mirror::update::{
    RawChat, RawChatKind, RawForwardInfo, RawForwardOrigin, RawMessage, RawMessageSender,
    RawSponsoredMessage, RawUser, Update,
};
use chat_mirror::{ListChange, RegistryOutcome};

fn raw_user(id: i64, first_name: &str) -> RawUser {
    RawUser {
        id,
        first_name: first_name.to_string(),
        last_name: "".to_string(),
        username: "".to_string(),
        phone_number: "".to_string(),
        status: UserStatus::Empty,
        profile_photo: None,
        kind: UserKind::Regular,
    }
}

fn raw_chat(id: i64, kind: RawChatKind, title: &str) -> RawChat {
    RawChat {
        id,
        kind,
        title: title.to_string(),
        photo: None,
        unread_count: 0,
        unread_mention_count: 0,
        notification_settings: NotificationSettings { mute_for: 0, show_preview: true },
        draft_message: None,
    }
}

fn raw_message(id: i64, chat_id: i64, sender_user_id: i64, text: &str) -> RawMessage {
    RawMessage {
        id,
        chat_id,
        sender: RawMessageSender::User { user_id: sender_user_id },
        is_outgoing: false,
        date: 0,
        forward_info: None,
        content: MessageContent::Text { text: text.to_string() },
    }
}

fn session_with_chat() -> Session {
    let mut session = Session::new();
    session.handle_update(&Update::User { user: raw_user(7, "Ada") }).unwrap();
    session
        .handle_update(&Update::NewChat {
            chat: raw_chat(1, RawChatKind::Private { user_id: 7 }, "Ada"),
        })
        .unwrap();
    session
}

fn chat_action(chat_id: i64, user_id: i64, action: ChatActionKind) -> Update {
    Update::ChatAction { chat_id, sender_user_id: user_id, action }
}

#[test]
fn action_membership_notifications() {
    let mut session = session_with_chat();
    session.handle_update(&Update::User { user: raw_user(8, "Grace") }).unwrap();

    // First action of a user: an insertion, then the actions attribute.
    let out = session.handle_update(&chat_action(1, 7, ChatActionKind::Typing)).unwrap();
    match out {
        SessionOutcome::Chats(RegistryOutcome::Updated { changed, .. }) => {
            assert_eq!(
                changed,
                vec![
                    ChatEvent::Action {
                        change: ListChange { position: 0, removed: 0, added: 1 }
                    },
                    ChatEvent::Changed { attr: ChatAttr::Actions },
                ]
            );
        }
        other => panic!("unexpected outcome: {:?}", other),
    }

    // The same action again: no membership change, the attribute only.
    let out = session.handle_update(&chat_action(1, 7, ChatActionKind::Typing)).unwrap();
    match out {
        SessionOutcome::Chats(RegistryOutcome::Updated { changed, .. }) => {
            assert_eq!(changed, vec![ChatEvent::Changed { attr: ChatAttr::Actions }]);
        }
        other => panic!("unexpected outcome: {:?}", other),
    }

    // A different action by the same user replaces the entry, with no
    // membership change.
    let out = session
        .handle_update(&chat_action(1, 7, ChatActionKind::UploadingPhoto { progress: 10 }))
        .unwrap();
    match out {
        SessionOutcome::Chats(RegistryOutcome::Updated { changed, .. }) => {
            assert_eq!(changed, vec![ChatEvent::Changed { attr: ChatAttr::Actions }]);
        }
        other => panic!("unexpected outcome: {:?}", other),
    }

    // A second user's action appends.
    let out = session.handle_update(&chat_action(1, 8, ChatActionKind::Typing)).unwrap();
    match out {
        SessionOutcome::Chats(RegistryOutcome::Updated { changed, .. }) => {
            assert_eq!(
                changed,
                vec![
                    ChatEvent::Action {
                        change: ListChange { position: 1, removed: 0, added: 1 }
                    },
                    ChatEvent::Changed { attr: ChatAttr::Actions },
                ]
            );
        }
        other => panic!("unexpected outcome: {:?}", other),
    }

    // Cancelling removes the entry and shifts the one after it.
    let out = session.handle_update(&chat_action(1, 7, ChatActionKind::Cancel)).unwrap();
    match out {
        SessionOutcome::Chats(RegistryOutcome::Updated { changed, .. }) => {
            assert_eq!(
                changed,
                vec![
                    ChatEvent::Action {
                        change: ListChange { position: 0, removed: 1, added: 0 }
                    },
                    ChatEvent::Changed { attr: ChatAttr::Actions },
                ]
            );
        }
        other => panic!("unexpected outcome: {:?}", other),
    }
    let chat = session.chats().get_or_none(1).unwrap();
    assert_eq!(chat.actions().n_items(), 1);
    let entry = chat.actions().item(0).unwrap();
    assert_eq!(entry.user_id, 8);
    assert_eq!(entry.action, ChatActionKind::Typing);

    // Cancelling an absent entry notifies the attribute only.
    let out = session.handle_update(&chat_action(1, 7, ChatActionKind::Cancel)).unwrap();
    match out {
        SessionOutcome::Chats(RegistryOutcome::Updated { changed, .. }) => {
            assert_eq!(changed, vec![ChatEvent::Changed { attr: ChatAttr::Actions }]);
        }
        other => panic!("unexpected outcome: {:?}", other),
    }
}

#[test]
fn action_of_unknown_user_is_an_error() {
    let mut session = session_with_chat();
    let r = session.handle_update(&chat_action(1, 99, ChatActionKind::Typing));
    assert_eq!(r, Err(ResolveError::UserNotFound { user_id: 99 }));
    let chat = session.chats().get_or_none(1).unwrap();
    assert_eq!(chat.actions().n_items(), 0);
}

#[test]
fn sponsored_message_construction() {
    let mut session = session_with_chat();
    let raw = RawSponsoredMessage {
        message_id: 500,
        sponsor_chat_id: 1,
        content: MessageContent::Text { text: "ad".to_string() },
    };
    let s = SponsoredMessage::from_raw(&raw, session.chats()).unwrap();
    assert_eq!(s.message_id(), 500);
    let sponsor = session.chats().item(s.sponsor_chat().position).unwrap();
    assert_eq!(sponsor.id(), 1);

    // A failed resolution affects nothing and names the missing chat.
    let raw = RawSponsoredMessage {
        message_id: 501,
        sponsor_chat_id: 9,
        content: MessageContent::Other { tag: 3 },
    };
    match SponsoredMessage::from_raw(&raw, session.chats()) {
        Err(e) => assert_eq!(e, ResolveError::ChatNotFound { chat_id: 9 }),
        Ok(_) => panic!("resolution should have failed"),
    }
    assert_eq!(session.chats().n_items(), 1);
    // The registries still answer as before.
    session
        .handle_update(&Update::NewMessage { message: raw_message(100, 1, 7, "hi") })
        .unwrap();
    assert_eq!(
        session.chats().get_or_none(1).unwrap().history().n_items(),
        1
    );
}

#[test]
fn sender_and_display_names() {
    let mut session = session_with_chat();
    session.handle_update(&Update::User { user: raw_user(8, "Grace") }).unwrap();
    session.set_me(7).unwrap();
    let me = session.me().unwrap();

    // A plain message is attributed to its sending user.
    let mut message = raw_message(100, 1, 8, "hi");
    message.forward_info = Some(RawForwardInfo {
        origin: RawForwardOrigin::HiddenUser { sender_name: "Anon".to_string() },
        date: 1,
    });
    session.handle_update(&Update::NewMessage { message }).unwrap();
    let chat = session.chats().get_or_none(1).unwrap();
    let m = chat.history().message_by_id(100).unwrap();
    match m.sender() {
        MessageSender::User { user } => {
            let sender = session.users().item(user.position).unwrap();
            assert_eq!(sender.first_name().as_str(), "Grace");
        }
        other => panic!("unexpected sender: {:?}", other),
    }
    match m.sender_name_source() {
        NameSource::UserFullName { user } => {
            assert_eq!(session.users().item(user.position).unwrap().id(), 8);
        }
        other => panic!("unexpected name source: {:?}", other),
    }
    assert_eq!(m.sender().id(session.users(), session.chats()), Some(8));
    let fwd = m.forward_info().as_ref().unwrap();
    assert_eq!(fwd.origin.id(session.users(), session.chats()), None);

    // In the owner's own chat, a forwarded message shows its origin.
    let own_chat = chat.is_own_chat(me);
    assert!(own_chat);
    match m.sender_display_name_source(own_chat) {
        NameSource::Fixed { name } => assert_eq!(name.as_str(), "Anon"),
        other => panic!("unexpected name source: {:?}", other),
    }
    // Elsewhere the sender's name stands.
    match m.sender_display_name_source(false) {
        NameSource::UserFullName { .. } => {}
        other => panic!("unexpected name source: {:?}", other),
    }
}

#[test]
fn forwarded_channel_origin_resolves_to_chat() {
    let mut session = session_with_chat();
    session.handle_update(&Update::User { user: raw_user(8, "Grace") }).unwrap();
    let mut message = raw_message(100, 1, 8, "fwd");
    message.forward_info = Some(RawForwardInfo {
        origin: RawForwardOrigin::Channel { chat_id: 1, message_id: 9 },
        date: 1,
    });
    session.handle_update(&Update::NewMessage { message }).unwrap();
    let chat = session.chats().get_or_none(1).unwrap();
    let m = chat.history().message_by_id(100).unwrap();
    match m.sender_display_name_source(true) {
        NameSource::ChatTitle { chat: c } => {
            assert_eq!(session.chats().item(c.position).unwrap().id(), 1);
        }
        other => panic!("unexpected name source: {:?}", other),
    }
    let fwd = m.forward_info().as_ref().unwrap();
    assert_eq!(fwd.origin.id(session.users(), session.chats()), Some(1));
    assert_eq!(fwd.date, 1);
}

#[test]
fn secret_chat_kind_resolves_user() {
    let mut session = Session::new();
    session.handle_update(&Update::User { user: raw_user(7, "Ada") }).unwrap();
    session
        .handle_update(&Update::NewChat {
            chat: raw_chat(
                5,
                RawChatKind::Secret { secret_chat_id: 40, user_id: 7 },
                "Secret",
            ),
        })
        .unwrap();
    let chat = session.chats().get_or_none(5).unwrap();
    let user = chat.kind().user().unwrap();
    assert_eq!(session.users().item(user.position).unwrap().id(), 7);
}

#[test]
fn redefining_update_for_known_chat_changes_nothing() {
    let mut session = session_with_chat();
    let out = session
        .handle_update(&Update::NewChat {
            chat: raw_chat(1, RawChatKind::Private { user_id: 7 }, "Renamed"),
        })
        .unwrap();
    match out {
        SessionOutcome::Chats(RegistryOutcome::Updated { position, changed }) => {
            assert_eq!(position, 0);
            assert!(changed.is_empty());
        }
        other => panic!("unexpected outcome: {:?}", other),
    }
    // The defining payload of a known id is not re-applied.
    assert_eq!(session.chats().get_or_none(1).unwrap().title().as_str(), "Ada");
}

#[test]
fn user_full_update_changes_listed_attributes_only() {
    let mut session = Session::new();
    session.handle_update(&Update::User { user: raw_user(7, "Ada") }).unwrap();
    let mut user = raw_user(7, "Ada");
    user.last_name = "Lovelace".to_string();
    user.kind = UserKind::Bot;
    let out = session.handle_update(&Update::User { user }).unwrap();
    match out {
        SessionOutcome::Users(RegistryOutcome::Updated { changed, .. }) => {
            assert_eq!(
                changed,
                vec![
                    chat_mirror::user::UserAttr::LastName,
                    chat_mirror::user::UserAttr::Kind,
                ]
            );
        }
        other => panic!("unexpected outcome: {:?}", other),
    }
    let u = session.users().get_or_none(7).unwrap();
    assert_eq!(u.first_name().as_str(), "Ada");
    assert_eq!(u.last_name().as_str(), "Lovelace");
    assert_eq!(u.kind(), UserKind::Bot);
    assert_eq!(u.id(), 7);
}

#[test]
fn positional_access_matches_insertion_order() {
    let mut session = Session::new();
    session.handle_update(&Update::User { user: raw_user(3, "c") }).unwrap();
    session.handle_update(&Update::User { user: raw_user(1, "a") }).unwrap();
    session.handle_update(&Update::User { user: raw_user(2, "b") }).unwrap();
    let users = session.users();
    assert_eq!(users.n_items(), 3);
    assert_eq!(users.item(0).unwrap().id(), 3);
    assert_eq!(users.item(1).unwrap().id(), 1);
    assert_eq!(users.item(2).unwrap().id(), 2);
    assert!(users.item(3).is_none());
    assert!(users.get_or_none(4).is_none());
    assert_eq!(users.position_of(2), Some(2));
}
