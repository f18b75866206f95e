//! The tagged update union consumed by the mirror, and the raw payloads
//! its defining variants carry.
//!
//! Raw payloads describe an entity exactly as the feed delivered it, with
//! cross-references still as bare identity keys. Resolution into live
//! entity references happens at construction time, inside the mirror.

use vstd::prelude::*;

use crate::types::{
    Avatar, ChatActionKind, ChatPosition, DraftMessage, DraftMessageV, MessageContent,
    MessageContentV, NotificationSettings, UserKind, UserStatus,
};

verus! {

/// A user as the feed describes it.
#[derive(Clone, Debug)]
pub struct RawUser {
    pub id: i64,
    pub first_name: String,
    pub last_name: String,
    pub username: String,
    pub phone_number: String,
    pub status: UserStatus,
    pub profile_photo: Option<Avatar>,
    pub kind: UserKind,
}

/// The view of a raw user, with strings by character sequence.
pub ghost struct RawUserV {
    pub id: i64,
    pub first_name: Seq<char>,
    pub last_name: Seq<char>,
    pub username: Seq<char>,
    pub phone_number: Seq<char>,
    pub status: UserStatus,
    pub profile_photo: Option<Avatar>,
    pub kind: UserKind,
}

impl View for RawUser {
    type V = RawUserV;

    open spec fn view(&self) -> RawUserV {
        RawUserV {
            id: self.id,
            first_name: self.first_name@,
            last_name: self.last_name@,
            username: self.username@,
            phone_number: self.phone_number@,
            status: self.status,
            profile_photo: self.profile_photo,
            kind: self.kind,
        }
    }
}

/// A basic group as the feed describes it.
#[derive(Clone, Copy, Debug, PartialEq, Eq, Structural)]
pub struct RawBasicGroup {
    pub id: i64,
    pub member_count: i32,
}

/// A supergroup as the feed describes it.
#[derive(Clone, Copy, Debug, PartialEq, Eq, Structural)]
pub struct RawSupergroup {
    pub id: i64,
    pub member_count: i32,
    pub is_channel: bool,
}

/// A chat's kind as the feed describes it, with bare identity keys.
#[derive(Clone, Copy, Debug, PartialEq, Eq, Structural)]
pub enum RawChatKind {
    Private { user_id: i64 },
    BasicGroup { basic_group_id: i64 },
    Supergroup { supergroup_id: i64 },
    Secret { secret_chat_id: i64, user_id: i64 },
}

/// A chat as the feed describes it.
#[derive(Clone, Debug)]
pub struct RawChat {
    pub id: i64,
    pub kind: RawChatKind,
    pub title: String,
    pub photo: Option<Avatar>,
    pub unread_count: i32,
    pub unread_mention_count: i32,
    pub notification_settings: NotificationSettings,
    pub draft_message: Option<DraftMessage>,
}

/// The view of a raw chat.
pub ghost struct RawChatV {
    pub id: i64,
    pub kind: RawChatKind,
    pub title: Seq<char>,
    pub photo: Option<Avatar>,
    pub unread_count: i32,
    pub unread_mention_count: i32,
    pub notification_settings: NotificationSettings,
    pub draft_message: Option<DraftMessageV>,
}

impl View for RawChat {
    type V = RawChatV;

    open spec fn view(&self) -> RawChatV {
        RawChatV {
            id: self.id,
            kind: self.kind,
            title: self.title@,
            photo: self.photo,
            unread_count: self.unread_count,
            unread_mention_count: self.unread_mention_count,
            notification_settings: self.notification_settings,
            draft_message: crate::types::opt_draft_view(self.draft_message),
        }
    }
}

/// A message's sender as the feed describes it, with a bare identity key.
#[derive(Clone, Copy, Debug, PartialEq, Eq, Structural)]
pub enum RawMessageSender {
    User { user_id: i64 },
    Chat { chat_id: i64 },
}

/// A forwarded message's origin as the feed describes it.
#[derive(Clone, Debug)]
pub enum RawForwardOrigin {
    User { sender_user_id: i64 },
    Chat { sender_chat_id: i64 },
    Channel { chat_id: i64, message_id: i64 },
    HiddenUser { sender_name: String },
    MessageImport { sender_name: String },
}

/// The view of a raw forward origin.
pub ghost enum RawForwardOriginV {
    User { sender_user_id: i64 },
    Chat { sender_chat_id: i64 },
    Channel { chat_id: i64, message_id: i64 },
    HiddenUser { sender_name: Seq<char> },
    MessageImport { sender_name: Seq<char> },
}

impl View for RawForwardOrigin {
    type V = RawForwardOriginV;

    open spec fn view(&self) -> RawForwardOriginV {
        match self {
            RawForwardOrigin::User { sender_user_id } => RawForwardOriginV::User {
                sender_user_id: *sender_user_id,
            },
            RawForwardOrigin::Chat { sender_chat_id } => RawForwardOriginV::Chat {
                sender_chat_id: *sender_chat_id,
            },
            RawForwardOrigin::Channel { chat_id, message_id } => RawForwardOriginV::Channel {
                chat_id: *chat_id,
                message_id: *message_id,
            },
            RawForwardOrigin::HiddenUser { sender_name } => RawForwardOriginV::HiddenUser {
                sender_name: sender_name@,
            },
            RawForwardOrigin::MessageImport { sender_name } => RawForwardOriginV::MessageImport {
                sender_name: sender_name@,
            },
        }
    }
}

/// Forwarding information attached to a message by the feed.
#[derive(Clone, Debug)]
pub struct RawForwardInfo {
    pub origin: RawForwardOrigin,
    pub date: i32,
}

/// The view of raw forwarding information.
pub ghost struct RawForwardInfoV {
    pub origin: RawForwardOriginV,
    pub date: i32,
}

impl View for RawForwardInfo {
    type V = RawForwardInfoV;

    open spec fn view(&self) -> RawForwardInfoV {
        RawForwardInfoV { origin: self.origin@, date: self.date }
    }
}

/// A message as the feed describes it.
#[derive(Clone, Debug)]
pub struct RawMessage {
    pub id: i64,
    pub chat_id: i64,
    pub sender: RawMessageSender,
    pub is_outgoing: bool,
    pub date: i32,
    pub forward_info: Option<RawForwardInfo>,
    pub content: MessageContent,
}

/// The view of an optional raw forward info.
pub open spec fn opt_forward_info_view(f: Option<RawForwardInfo>) -> Option<RawForwardInfoV> {
    match f {
        Some(v) => Some(v@),
        None => None,
    }
}

/// The view of a raw message.
pub ghost struct RawMessageV {
    pub id: i64,
    pub chat_id: i64,
    pub sender: RawMessageSender,
    pub is_outgoing: bool,
    pub date: i32,
    pub forward_info: Option<RawForwardInfoV>,
    pub content: MessageContentV,
}

impl View for RawMessage {
    type V = RawMessageV;

    open spec fn view(&self) -> RawMessageV {
        RawMessageV {
            id: self.id,
            chat_id: self.chat_id,
            sender: self.sender,
            is_outgoing: self.is_outgoing,
            date: self.date,
            forward_info: opt_forward_info_view(self.forward_info),
            content: self.content@,
        }
    }
}

/// A sponsored message as the feed delivers it on demand.
#[derive(Clone, Debug)]
pub struct RawSponsoredMessage {
    pub message_id: i64,
    pub sponsor_chat_id: i64,
    pub content: MessageContent,
}

/// One incremental change delivered by the feed. The union is closed:
/// every consumer matches exhaustively, and a variant it does not own is a
/// deliberate no-op there, never an error.
#[derive(Clone, Debug)]
pub enum Update {
    User { user: RawUser },
    UserStatus { user_id: i64, status: UserStatus },
    BasicGroup { basic_group: RawBasicGroup },
    Supergroup { supergroup: RawSupergroup },
    NewChat { chat: RawChat },
    ChatTitle { chat_id: i64, title: String },
    ChatPhoto { chat_id: i64, photo: Option<Avatar> },
    ChatLastMessage { chat_id: i64, last_message: Option<RawMessage>, positions: Vec<ChatPosition> },
    ChatPosition { chat_id: i64, position: ChatPosition },
    ChatNotificationSettings { chat_id: i64, notification_settings: NotificationSettings },
    ChatDraftMessage { chat_id: i64, draft_message: Option<DraftMessage> },
    ChatUnreadMentionCount { chat_id: i64, unread_mention_count: i32 },
    MessageMentionRead { chat_id: i64, message_id: i64, unread_mention_count: i32 },
    ChatReadInbox { chat_id: i64, last_read_inbox_message_id: i64, unread_count: i32 },
    ChatAction { chat_id: i64, sender_user_id: i64, action: ChatActionKind },
    NewMessage { message: RawMessage },
    MessageContent { chat_id: i64, message_id: i64, new_content: MessageContent },
    DeleteMessages { chat_id: i64, message_ids: Vec<i64> },
}

/// The chat id an update is scoped to, if the update addresses one
/// existing chat rather than defining a new entity.
pub open spec fn spec_chat_scope(u: Update) -> Option<i64> {
    match u {
        Update::ChatTitle { chat_id, .. } => Some(chat_id),
        Update::ChatPhoto { chat_id, .. } => Some(chat_id),
        Update::ChatLastMessage { chat_id, .. } => Some(chat_id),
        Update::ChatPosition { chat_id, .. } => Some(chat_id),
        Update::ChatNotificationSettings { chat_id, .. } => Some(chat_id),
        Update::ChatDraftMessage { chat_id, .. } => Some(chat_id),
        Update::ChatUnreadMentionCount { chat_id, .. } => Some(chat_id),
        Update::MessageMentionRead { chat_id, .. } => Some(chat_id),
        Update::ChatReadInbox { chat_id, .. } => Some(chat_id),
        Update::ChatAction { chat_id, .. } => Some(chat_id),
        Update::NewMessage { message } => Some(message.chat_id),
        Update::MessageContent { chat_id, .. } => Some(chat_id),
        Update::DeleteMessages { chat_id, .. } => Some(chat_id),
        _ => None,
    }
}

} // verus!
