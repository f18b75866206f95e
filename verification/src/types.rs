//! Plain value types carried by updates and stored as entity attributes.
//!
//! These are the decoded payload values the transport layer hands to the
//! mirror. They are data, not algorithm: each one is a closed union or a
//! record of plain fields, compared by full value equality when the mirror
//! decides whether an attribute genuinely changed.

use vstd::prelude::*;

verus! {

/// A user's presence, as reported by the feed.
#[derive(Clone, Copy, Debug, PartialEq, Eq, Structural)]
pub enum UserStatus {
    Empty,
    Online { expires: i32 },
    Offline { was_online: i32 },
    Recently,
    LastWeek,
    LastMonth,
}

/// The kind of account behind a user entity.
#[derive(Clone, Copy, Debug, PartialEq, Eq, Structural)]
pub enum UserKind {
    Regular,
    Deleted,
    Bot,
    Unknown,
}

/// A profile or chat photo, identified by the remote file id of its
/// small variant.
#[derive(Clone, Copy, Debug, PartialEq, Eq, Structural)]
pub struct Avatar {
    pub small_file_id: i32,
}

/// Per-chat notification settings.
#[derive(Clone, Copy, Debug, PartialEq, Eq, Structural)]
pub struct NotificationSettings {
    pub mute_for: i32,
    pub show_preview: bool,
}

/// The chat list a position belongs to.
#[derive(Clone, Copy, Debug, PartialEq, Eq, Structural)]
pub enum ChatListKind {
    Main,
    Archive,
    Folder { folder_id: i32 },
}

/// A chat's position within one chat list.
#[derive(Clone, Copy, Debug, PartialEq, Eq, Structural)]
pub struct ChatPosition {
    pub list: ChatListKind,
    pub order: i64,
    pub is_pinned: bool,
}

/// A transient "user is doing X" activity entry.
#[derive(Clone, Copy, Debug, PartialEq, Eq, Structural)]
pub enum ChatActionKind {
    Typing,
    RecordingVoiceNote,
    UploadingPhoto { progress: i32 },
    UploadingDocument { progress: i32 },
    ChoosingSticker,
    Cancel,
}

/// The content of a message.
#[derive(Debug)]
pub enum MessageContent {
    Text { text: String },
    Other { tag: i32 },
}

/// The view of a message content value: text contents by character
/// sequence, other contents by their tag.
pub ghost enum MessageContentV {
    Text { text: Seq<char> },
    Other { tag: i32 },
}

impl View for MessageContent {
    type V = MessageContentV;

    open spec fn view(&self) -> MessageContentV {
        match self {
            MessageContent::Text { text } => MessageContentV::Text { text: text@ },
            MessageContent::Other { tag } => MessageContentV::Other { tag: *tag },
        }
    }
}

impl Clone for MessageContent {
    /// Clones the content, value for value.
    fn clone(&self) -> (r: Self)
        ensures
            r@ == self@,
    {
        match self {
            MessageContent::Text { text } => MessageContent::Text { text: text.clone() },
            MessageContent::Other { tag } => MessageContent::Other { tag: *tag },
        }
    }
}

/// Compares two message contents by full value.
pub fn message_content_eq(a: &MessageContent, b: &MessageContent) -> (r: bool)
    ensures
        r == (a@ == b@),
{
    match (a, b) {
        (MessageContent::Text { text: ta }, MessageContent::Text { text: tb }) => *ta == *tb,
        (MessageContent::Other { tag: ga }, MessageContent::Other { tag: gb }) => ga == gb,
        _ => false,
    }
}

/// Compares two optional avatars by full value.
pub fn opt_avatar_eq(a: &Option<Avatar>, b: &Option<Avatar>) -> (r: bool)
    ensures
        r == (*a == *b),
{
    match (a, b) {
        (Some(x), Some(y)) => *x == *y,
        (None, None) => true,
        _ => false,
    }
}

/// A draft message of a chat.
#[derive(Debug)]
pub struct DraftMessage {
    pub reply_to_message_id: i64,
    pub date: i32,
    pub text: String,
}

/// The view of a draft message, with the text by character sequence.
pub ghost struct DraftMessageV {
    pub reply_to_message_id: i64,
    pub date: i32,
    pub text: Seq<char>,
}

impl View for DraftMessage {
    type V = DraftMessageV;

    open spec fn view(&self) -> DraftMessageV {
        DraftMessageV {
            reply_to_message_id: self.reply_to_message_id,
            date: self.date,
            text: self.text@,
        }
    }
}

impl Clone for DraftMessage {
    /// Clones the draft, value for value.
    fn clone(&self) -> (r: Self)
        ensures
            r@ == self@,
    {
        DraftMessage {
            reply_to_message_id: self.reply_to_message_id,
            date: self.date,
            text: self.text.clone(),
        }
    }
}

/// Compares two drafts by full value.
pub fn draft_message_eq(a: &DraftMessage, b: &DraftMessage) -> (r: bool)
    ensures
        r == (a@ == b@),
{
    let r = a.reply_to_message_id == b.reply_to_message_id && a.date == b.date
        && a.text == b.text;
    proof {
        if r {
            assert(a@ == b@);
        }
    }
    r
}

/// The view of an optional draft.
pub open spec fn opt_draft_view(d: Option<DraftMessage>) -> Option<DraftMessageV> {
    match d {
        Some(v) => Some(v@),
        None => None,
    }
}

/// Compares two optional drafts by full value.
pub fn opt_draft_message_eq(a: &Option<DraftMessage>, b: &Option<DraftMessage>) -> (r: bool)
    ensures
        r == (opt_draft_view(*a) == opt_draft_view(*b)),
{
    match (a, b) {
        (Some(da), Some(db)) => draft_message_eq(da, db),
        (None, None) => true,
        _ => false,
    }
}

/// A live reference to a user: the user's position in the session's user
/// registry. Registry positions are stable for the life of the session, so
/// two references are to the same entity exactly when they are equal.
#[derive(Clone, Copy, Debug, PartialEq, Eq, Structural)]
pub struct UserRef {
    pub position: usize,
}

/// A live reference to a basic group, by registry position.
#[derive(Clone, Copy, Debug, PartialEq, Eq, Structural)]
pub struct BasicGroupRef {
    pub position: usize,
}

/// A live reference to a supergroup, by registry position.
#[derive(Clone, Copy, Debug, PartialEq, Eq, Structural)]
pub struct SupergroupRef {
    pub position: usize,
}

/// A live reference to a chat, by registry position.
#[derive(Clone, Copy, Debug, PartialEq, Eq, Structural)]
pub struct ChatRef {
    pub position: usize,
}

/// The identity of an entity that could not be resolved: every variant
/// names the registry in which the id was missing.
#[derive(Clone, Copy, Debug, PartialEq, Eq, Structural)]
pub enum ResolveError {
    UserNotFound { user_id: i64 },
    BasicGroupNotFound { basic_group_id: i64 },
    SupergroupNotFound { supergroup_id: i64 },
    ChatNotFound { chat_id: i64 },
}

} // verus!
