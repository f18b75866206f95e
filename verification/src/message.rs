//! The message entity and its composite attributes.
//!
//! A message's sender and forward origin are tagged unions whose variants
//! hold live references into the session's registries, resolved eagerly
//! from the bare identifiers of the raw payload at construction time; an
//! observer never sees an unresolved identifier.

use vstd::prelude::*;

use crate::types::{ChatRef, MessageContent, MessageContentV, UserRef};
use crate::update::Update;

verus! {

/// One observable attribute of a message.
#[derive(Clone, Copy, Debug, PartialEq, Eq, Structural)]
pub enum MessageAttr {
    Content,
}

/// The sender of a message: a user, or a chat posting as itself.
#[derive(Clone, Copy, Debug, PartialEq, Eq, Structural)]
pub enum MessageSender {
    User { user: UserRef },
    Chat { chat: ChatRef },
}

/// The identity key behind a sender reference, read from the registry
/// it points into; `None` when the reference points outside it.
pub open spec fn spec_sender_id(
    s: MessageSender,
    users: Seq<crate::user::UserV>,
    chats: Seq<crate::chat::ChatV>,
) -> Option<i64> {
    match s {
        MessageSender::User { user } => if user.position < users.len() {
            Some(users[user.position as int].id)
        } else {
            None
        },
        MessageSender::Chat { chat } => if chat.position < chats.len() {
            Some(chats[chat.position as int].id)
        } else {
            None
        },
    }
}

impl MessageSender {
    /// The identity key of the sending entity, looked up through its
    /// registry.
    pub fn id(
        &self,
        users: &crate::user_list::UserList,
        chats: &crate::chat_list::ChatList,
    ) -> (r: Option<i64>)
        requires
            chats.wf(),
        ensures
            r == spec_sender_id(*self, users@, chats@),
    {
        match self {
            MessageSender::User { user } => match users.item(user.position) {
                Some(u) => Some(u.id()),
                None => None,
            },
            MessageSender::Chat { chat } => match chats.item(chat.position) {
                Some(c) => Some(c.id()),
                None => None,
            },
        }
    }

    /// The sending user, when the sender is one.
    pub fn as_user(&self) -> (r: Option<UserRef>)
        ensures
            r == (match *self {
                MessageSender::User { user } => Some(user),
                MessageSender::Chat { .. } => None::<UserRef>,
            }),
    {
        match self {
            MessageSender::User { user } => Some(*user),
            MessageSender::Chat { .. } => None,
        }
    }
}

/// Where a forwarded message originally came from.
#[derive(Clone, Debug)]
pub enum MessageForwardOrigin {
    User { user: UserRef },
    Chat { chat: ChatRef },
    Channel { chat: ChatRef, message_id: i64 },
    HiddenUser { sender_name: String },
    MessageImport { sender_name: String },
}

/// The view of a forward origin.
pub ghost enum MessageForwardOriginV {
    User { user: UserRef },
    Chat { chat: ChatRef },
    Channel { chat: ChatRef, message_id: i64 },
    HiddenUser { sender_name: Seq<char> },
    MessageImport { sender_name: Seq<char> },
}

impl View for MessageForwardOrigin {
    type V = MessageForwardOriginV;

    open spec fn view(&self) -> MessageForwardOriginV {
        match self {
            MessageForwardOrigin::User { user } => MessageForwardOriginV::User { user: *user },
            MessageForwardOrigin::Chat { chat } => MessageForwardOriginV::Chat { chat: *chat },
            MessageForwardOrigin::Channel { chat, message_id } => MessageForwardOriginV::Channel {
                chat: *chat,
                message_id: *message_id,
            },
            MessageForwardOrigin::HiddenUser { sender_name } => MessageForwardOriginV::HiddenUser {
                sender_name: sender_name@,
            },
            MessageForwardOrigin::MessageImport { sender_name } => {
                MessageForwardOriginV::MessageImport { sender_name: sender_name@ }
            }
        }
    }
}

/// The identity key behind a forward origin, read from the registry its
/// reference points into; hidden and imported origins carry none.
pub open spec fn spec_origin_id(
    o: MessageForwardOriginV,
    users: Seq<crate::user::UserV>,
    chats: Seq<crate::chat::ChatV>,
) -> Option<i64> {
    match o {
        MessageForwardOriginV::User { user } => if user.position < users.len() {
            Some(users[user.position as int].id)
        } else {
            None
        },
        MessageForwardOriginV::Chat { chat } => if chat.position < chats.len() {
            Some(chats[chat.position as int].id)
        } else {
            None
        },
        MessageForwardOriginV::Channel { chat, message_id } => if chat.position < chats.len() {
            Some(chats[chat.position as int].id)
        } else {
            None
        },
        MessageForwardOriginV::HiddenUser { sender_name } => None,
        MessageForwardOriginV::MessageImport { sender_name } => None,
    }
}

impl MessageForwardOrigin {
    /// The identity key of the originating entity, looked up through its
    /// registry; hidden and imported origins carry none.
    pub fn id(
        &self,
        users: &crate::user_list::UserList,
        chats: &crate::chat_list::ChatList,
    ) -> (r: Option<i64>)
        requires
            chats.wf(),
        ensures
            r == spec_origin_id(self@, users@, chats@),
    {
        match self {
            MessageForwardOrigin::User { user } => match users.item(user.position) {
                Some(u) => Some(u.id()),
                None => None,
            },
            MessageForwardOrigin::Chat { chat } | MessageForwardOrigin::Channel {
                chat,
                message_id: _,
            } => match chats.item(chat.position) {
                Some(c) => Some(c.id()),
                None => None,
            },
            MessageForwardOrigin::HiddenUser { sender_name: _ } => None,
            MessageForwardOrigin::MessageImport { sender_name: _ } => None,
        }
    }
}

/// Forwarding information attached to a message, fixed at construction.
#[derive(Clone, Debug)]
pub struct MessageForwardInfo {
    pub origin: MessageForwardOrigin,
    pub date: i32,
}

/// The view of forwarding information.
pub ghost struct MessageForwardInfoV {
    pub origin: MessageForwardOriginV,
    pub date: i32,
}

impl View for MessageForwardInfo {
    type V = MessageForwardInfoV;

    open spec fn view(&self) -> MessageForwardInfoV {
        MessageForwardInfoV { origin: self.origin@, date: self.date }
    }
}

/// The view of an optional forward info.
pub open spec fn opt_fwd_view(f: Option<MessageForwardInfo>) -> Option<MessageForwardInfoV> {
    match f {
        Some(v) => Some(v@),
        None => None,
    }
}

/// A message entity. Everything but the content is fixed at
/// construction; the back reference to the owning chat is a registry
/// position and contributes nothing to the chat's lifetime.
#[derive(Clone, Debug)]
pub struct Message {
    id: i64,
    sender: MessageSender,
    chat: ChatRef,
    is_outgoing: bool,
    date: i32,
    forward_info: Option<MessageForwardInfo>,
    content: MessageContent,
}

/// The mathematical state of a message.
pub ghost struct MessageV {
    pub id: i64,
    pub sender: MessageSender,
    pub chat: ChatRef,
    pub is_outgoing: bool,
    pub date: i32,
    pub forward_info: Option<MessageForwardInfoV>,
    pub content: MessageContentV,
}

impl View for Message {
    type V = MessageV;

    closed spec fn view(&self) -> MessageV {
        MessageV {
            id: self.id,
            sender: self.sender,
            chat: self.chat,
            is_outgoing: self.is_outgoing,
            date: self.date,
            forward_info: opt_fwd_view(self.forward_info),
            content: self.content@,
        }
    }
}

/// The message state after one update: a content update replaces the
/// content; any other variant leaves the message untouched. The owning
/// history forwards a content update only to the message it addresses.
pub open spec fn message_apply(s: MessageV, u: Update) -> MessageV {
    match u {
        Update::MessageContent { chat_id, message_id, new_content } => MessageV {
            content: new_content@,
            ..s
        },
        _ => s,
    }
}

/// The attributes one update genuinely changes.
pub open spec fn message_changed(s: MessageV, u: Update) -> Seq<MessageAttr> {
    match u {
        Update::MessageContent { chat_id, message_id, new_content } => if s.content
            != new_content@ {
            seq![MessageAttr::Content]
        } else {
            seq![]
        },
        _ => seq![],
    }
}

/// Whose name stands for a message when it is shown: the sending user's
/// full name, the title of a chat, or a verbatim name string.
#[derive(Clone, Debug)]
pub enum NameSource {
    UserFullName { user: UserRef },
    ChatTitle { chat: ChatRef },
    Fixed { name: String },
}

/// The view of a name source.
pub ghost enum NameSourceV {
    UserFullName { user: UserRef },
    ChatTitle { chat: ChatRef },
    Fixed { name: Seq<char> },
}

impl View for NameSource {
    type V = NameSourceV;

    open spec fn view(&self) -> NameSourceV {
        match self {
            NameSource::UserFullName { user } => NameSourceV::UserFullName { user: *user },
            NameSource::ChatTitle { chat } => NameSourceV::ChatTitle { chat: *chat },
            NameSource::Fixed { name } => NameSourceV::Fixed { name: name@ },
        }
    }
}

/// The name source of a message's sender.
pub open spec fn spec_sender_name(m: MessageV) -> NameSourceV {
    match m.sender {
        MessageSender::User { user } => NameSourceV::UserFullName { user },
        MessageSender::Chat { chat } => NameSourceV::ChatTitle { chat },
    }
}

/// The name source shown for a message. In the session owner's own chat
/// a forwarded message is attributed to its origin; everywhere else, and
/// when there is no forwarding information, to its sender.
pub open spec fn spec_display_name(m: MessageV, own_chat: bool) -> NameSourceV {
    if own_chat {
        match m.forward_info {
            Some(fi) => match fi.origin {
                MessageForwardOriginV::User { user } => NameSourceV::UserFullName { user },
                MessageForwardOriginV::Chat { chat } => NameSourceV::ChatTitle { chat },
                MessageForwardOriginV::Channel { chat, message_id } => NameSourceV::ChatTitle {
                    chat,
                },
                MessageForwardOriginV::HiddenUser { sender_name } => NameSourceV::Fixed {
                    name: sender_name,
                },
                MessageForwardOriginV::MessageImport { sender_name } => NameSourceV::Fixed {
                    name: sender_name,
                },
            },
            None => spec_sender_name(m),
        }
    } else {
        spec_sender_name(m)
    }
}

impl Message {
    /// Builds a message from already-resolved parts.
    pub fn new(
        id: i64,
        sender: MessageSender,
        chat: ChatRef,
        is_outgoing: bool,
        date: i32,
        forward_info: Option<MessageForwardInfo>,
        content: MessageContent,
    ) -> (m: Message)
        ensures
            m@ == (MessageV {
                id,
                sender,
                chat,
                is_outgoing,
                date,
                forward_info: opt_fwd_view(forward_info),
                content: content@,
            }),
    {
        Message { id, sender, chat, is_outgoing, date, forward_info, content }
    }

    /// The identity key, fixed at construction.
    pub fn id(&self) -> (r: i64)
        ensures
            r == self@.id,
    {
        self.id
    }

    /// The sender, fixed at construction.
    pub fn sender(&self) -> (r: MessageSender)
        ensures
            r == self@.sender,
    {
        self.sender
    }

    /// The owning chat, as a registry position.
    pub fn chat(&self) -> (r: ChatRef)
        ensures
            r == self@.chat,
    {
        self.chat
    }

    /// Whether the session owner sent this message.
    pub fn is_outgoing(&self) -> (r: bool)
        ensures
            r == self@.is_outgoing,
    {
        self.is_outgoing
    }

    /// The message date, fixed at construction.
    pub fn date(&self) -> (r: i32)
        ensures
            r == self@.date,
    {
        self.date
    }

    /// The forwarding information, fixed at construction.
    pub fn forward_info(&self) -> (r: &Option<MessageForwardInfo>)
        ensures
            opt_fwd_view(*r) == self@.forward_info,
    {
        &self.forward_info
    }

    /// The current content.
    pub fn content(&self) -> (r: &MessageContent)
        ensures
            r@ == self@.content,
    {
        &self.content
    }

    /// Applies one update to this message and returns the attributes
    /// whose values genuinely changed. Variants not owned by a message
    /// are ignored.
    pub fn handle_update(&mut self, u: &Update) -> (changed: Vec<MessageAttr>)
        ensures
            final(self)@ == message_apply(old(self)@, *u),
            changed@ == message_changed(old(self)@, *u),
    {
        match u {
            Update::MessageContent { chat_id: _, message_id: _, new_content } => {
                let mut changed: Vec<MessageAttr> = Vec::new();
                if self.set_content(new_content.clone()) {
                    changed.push(MessageAttr::Content);
                }
                proof {
                    assert(changed@ =~= message_changed(old(self)@, *u));
                }
                changed
            }
            _ => {
                let changed: Vec<MessageAttr> = Vec::new();
                proof {
                    assert(changed@ =~= message_changed(old(self)@, *u));
                }
                changed
            }
        }
    }

    /// The name source of this message's sender.
    pub fn sender_name_source(&self) -> (r: NameSource)
        ensures
            r@ == spec_sender_name(self@),
    {
        match self.sender {
            MessageSender::User { user } => NameSource::UserFullName { user },
            MessageSender::Chat { chat } => NameSource::ChatTitle { chat },
        }
    }

    /// The name source shown for this message, given whether the owning
    /// chat is the session owner's own chat.
    pub fn sender_display_name_source(&self, own_chat: bool) -> (r: NameSource)
        ensures
            r@ == spec_display_name(self@, own_chat),
    {
        if own_chat {
            match &self.forward_info {
                Some(fi) => match &fi.origin {
                    MessageForwardOrigin::User { user } => NameSource::UserFullName {
                        user: *user,
                    },
                    MessageForwardOrigin::Chat { chat } => NameSource::ChatTitle { chat: *chat },
                    MessageForwardOrigin::Channel { chat, message_id: _ } => {
                        NameSource::ChatTitle { chat: *chat }
                    }
                    MessageForwardOrigin::HiddenUser { sender_name } => NameSource::Fixed {
                        name: sender_name.clone(),
                    },
                    MessageForwardOrigin::MessageImport { sender_name } => NameSource::Fixed {
                        name: sender_name.clone(),
                    },
                },
                None => self.sender_name_source(),
            }
        } else {
            self.sender_name_source()
        }
    }

    /// Stores the content; reports whether the value changed.
    fn set_content(&mut self, content: MessageContent) -> (changed: bool)
        ensures
            final(self)@ == (MessageV { content: content@, ..old(self)@ }),
            changed == (old(self)@.content != content@),
    {
        let differs = !crate::types::message_content_eq(&self.content, &content);
        self.content = content;
        differs
    }
}

} // verus!
