//! The chat entity, with its derived views.
//!
//! A chat owns its message history and its action list. Its `type` is a
//! closed tagged union whose variants hold live references into the other
//! registries, resolved eagerly at construction time. The chat's last
//! message is held as the id keying into its own history — the history
//! slot is the single owning instance of that message.

use vstd::prelude::*;

use crate::action_list::{actions_apply, actions_change, ActionEntry, ActionList};
use crate::history::{message_pos, messages_contain, History};
use crate::message::{message_apply, message_changed, Message, MessageV};
use crate::types::{
    opt_avatar_eq, opt_draft_message_eq, opt_draft_view, Avatar, ChatActionKind,
    ChatListKind, ChatPosition, DraftMessage, DraftMessageV, NotificationSettings, UserRef,
};
use crate::update::{RawChatV, Update};
use crate::ListChange;

verus! {

/// One observable attribute of a chat.
#[derive(Clone, Copy, Debug, PartialEq, Eq, Structural)]
pub enum ChatAttr {
    Title,
    Avatar,
    LastMessage,
    Order,
    IsPinned,
    UnreadCount,
    UnreadMentionCount,
    NotificationSettings,
    DraftMessage,
    Actions,
}

/// One notification a chat emits while handling an update: an attribute
/// change of the chat itself, a positional change of its history, a
/// content change of one held message, or a positional change of its
/// action list.
#[derive(Clone, Copy, Debug, PartialEq, Eq, Structural)]
pub enum ChatEvent {
    Changed { attr: ChatAttr },
    History { change: ListChange },
    MessageChanged { message_id: i64 },
    Action { change: ListChange },
}

/// What a chat is: a private conversation, a basic group, a supergroup
/// or channel, or a secret chat. Every variant holds live references,
/// resolved from the defining payload's bare ids when the chat is
/// constructed.
#[derive(Clone, Copy, Debug, PartialEq, Eq, Structural)]
pub enum ChatKind {
    Private { user: UserRef },
    BasicGroup { basic_group: crate::types::BasicGroupRef },
    Supergroup { supergroup: crate::types::SupergroupRef },
    Secret { secret_chat_id: i64, user: UserRef },
}

impl ChatKind {
    /// The user this chat is with, for private and secret chats.
    pub fn user(&self) -> (r: Option<UserRef>)
        ensures
            r == spec_kind_user(*self),
    {
        match self {
            ChatKind::Private { user } => Some(*user),
            ChatKind::Secret { secret_chat_id: _, user } => Some(*user),
            _ => None,
        }
    }
}

/// The user a chat kind is with, if any.
pub open spec fn spec_kind_user(k: ChatKind) -> Option<UserRef> {
    match k {
        ChatKind::Private { user } => Some(user),
        ChatKind::Secret { secret_chat_id, user } => Some(user),
        _ => None,
    }
}

/// The mathematical state of a chat.
pub ghost struct ChatV {
    pub id: i64,
    pub kind: ChatKind,
    pub title: Seq<char>,
    pub avatar: Option<Avatar>,
    pub last_message_id: Option<i64>,
    pub order: i64,
    pub is_pinned: bool,
    pub unread_count: i32,
    pub unread_mention_count: i32,
    pub notification_settings: NotificationSettings,
    pub draft_message: Option<DraftMessageV>,
    pub history: Seq<MessageV>,
    pub actions: Seq<ActionEntry>,
}

/// A chat entity. The id and the kind are fixed at construction.
pub struct Chat {
    id: i64,
    kind: ChatKind,
    title: String,
    avatar: Option<Avatar>,
    last_message_id: Option<i64>,
    order: i64,
    is_pinned: bool,
    unread_count: i32,
    unread_mention_count: i32,
    notification_settings: NotificationSettings,
    draft_message: Option<DraftMessage>,
    history: History,
    actions: ActionList,
}

impl View for Chat {
    type V = ChatV;

    closed spec fn view(&self) -> ChatV {
        ChatV {
            id: self.id,
            kind: self.kind,
            title: self.title@,
            avatar: self.avatar,
            last_message_id: self.last_message_id,
            order: self.order,
            is_pinned: self.is_pinned,
            unread_count: self.unread_count,
            unread_mention_count: self.unread_mention_count,
            notification_settings: self.notification_settings,
            draft_message: opt_draft_view(self.draft_message),
            history: self.history@,
            actions: self.actions@,
        }
    }
}

/// The chat state constructed from a raw payload and its resolved kind.
/// The last message, the position and the pinned flag are not part of the
/// defining payload here; they arrive through their own updates and
/// start at their zero values. The derived views start empty.
pub open spec fn chat_from_raw_v(raw: RawChatV, kind: ChatKind) -> ChatV {
    ChatV {
        id: raw.id,
        kind: kind,
        title: raw.title,
        avatar: raw.photo,
        last_message_id: None,
        order: 0,
        is_pinned: false,
        unread_count: raw.unread_count,
        unread_mention_count: raw.unread_mention_count,
        notification_settings: raw.notification_settings,
        draft_message: raw.draft_message,
        history: Seq::empty(),
        actions: Seq::empty(),
    }
}

/// The chat state after one of the plain attribute updates. A position
/// update is applied only for the main chat list; this layer does no
/// re-ranking of its own. Variants not listed here — and every variant a
/// chat does not own — leave the state untouched.
pub open spec fn chat_apply_simple(s: ChatV, u: Update) -> ChatV {
    match u {
        Update::ChatTitle { chat_id, title } => ChatV { title: title@, ..s },
        Update::ChatPhoto { chat_id, photo } => ChatV { avatar: photo, ..s },
        Update::ChatNotificationSettings { chat_id, notification_settings } => ChatV {
            notification_settings: notification_settings,
            ..s
        },
        Update::ChatPosition { chat_id, position } => if position.list == ChatListKind::Main {
            ChatV { order: position.order, is_pinned: position.is_pinned, ..s }
        } else {
            s
        },
        Update::ChatUnreadMentionCount { chat_id, unread_mention_count } => ChatV {
            unread_mention_count: unread_mention_count,
            ..s
        },
        Update::MessageMentionRead { chat_id, message_id, unread_mention_count } => ChatV {
            unread_mention_count: unread_mention_count,
            ..s
        },
        Update::ChatReadInbox { chat_id, last_read_inbox_message_id, unread_count } => ChatV {
            unread_count: unread_count,
            ..s
        },
        Update::ChatDraftMessage { chat_id, draft_message } => ChatV {
            draft_message: opt_draft_view(draft_message),
            ..s
        },
        _ => s,
    }
}

/// The attribute notifications one plain attribute update genuinely
/// causes, in the order the attributes are examined.
pub open spec fn chat_changed_simple(s: ChatV, u: Update) -> Seq<ChatEvent> {
    match u {
        Update::ChatTitle { chat_id, title } => if s.title != title@ {
            seq![ChatEvent::Changed { attr: ChatAttr::Title }]
        } else {
            seq![]
        },
        Update::ChatPhoto { chat_id, photo } => if s.avatar != photo {
            seq![ChatEvent::Changed { attr: ChatAttr::Avatar }]
        } else {
            seq![]
        },
        Update::ChatNotificationSettings { chat_id, notification_settings } => if s
            .notification_settings != notification_settings {
            seq![ChatEvent::Changed { attr: ChatAttr::NotificationSettings }]
        } else {
            seq![]
        },
        Update::ChatPosition { chat_id, position } => if position.list == ChatListKind::Main {
            (if s.order != position.order {
                seq![ChatEvent::Changed { attr: ChatAttr::Order }]
            } else {
                seq![]
            }) + (if s.is_pinned != position.is_pinned {
                seq![ChatEvent::Changed { attr: ChatAttr::IsPinned }]
            } else {
                seq![]
            })
        } else {
            seq![]
        },
        Update::ChatUnreadMentionCount { chat_id, unread_mention_count } => if s
            .unread_mention_count != unread_mention_count {
            seq![ChatEvent::Changed { attr: ChatAttr::UnreadMentionCount }]
        } else {
            seq![]
        },
        Update::MessageMentionRead { chat_id, message_id, unread_mention_count } => if s
            .unread_mention_count != unread_mention_count {
            seq![ChatEvent::Changed { attr: ChatAttr::UnreadMentionCount }]
        } else {
            seq![]
        },
        Update::ChatReadInbox { chat_id, last_read_inbox_message_id, unread_count } => if s
            .unread_count != unread_count {
            seq![ChatEvent::Changed { attr: ChatAttr::UnreadCount }]
        } else {
            seq![]
        },
        Update::ChatDraftMessage { chat_id, draft_message } => if s.draft_message != opt_draft_view(
            draft_message,
        ) {
            seq![ChatEvent::Changed { attr: ChatAttr::DraftMessage }]
        } else {
            seq![]
        },
        _ => seq![],
    }
}

/// The order carried by the first main-list position of `ps` at or after
/// `i`, if any.
pub open spec fn first_main_order_from(ps: Seq<ChatPosition>, i: int) -> Option<i64>
    decreases ps.len() - i,
{
    if i < 0 || i >= ps.len() {
        None
    } else if ps[i].list == ChatListKind::Main {
        Some(ps[i].order)
    } else {
        first_main_order_from(ps, i + 1)
    }
}

/// The order carried by the first main-list position of `ps`, if any.
pub open spec fn first_main_order(ps: Seq<ChatPosition>) -> Option<i64> {
    first_main_order_from(ps, 0)
}

/// The chat state after a last-message update: the referenced message is
/// materialized into the history when it was not yet held, the last
/// message id is replaced, and the order follows the first main-list
/// position, if one came along.
pub open spec fn chat_apply_last_message(
    s: ChatV,
    last_message_id: Option<i64>,
    materialized: Option<MessageV>,
    ps: Seq<ChatPosition>,
) -> ChatV {
    let h = match materialized {
        Some(m) => s.history.push(m),
        None => s.history,
    };
    let ord = match first_main_order(ps) {
        Some(o) => o,
        None => s.order,
    };
    ChatV { history: h, last_message_id: last_message_id, order: ord, ..s }
}

/// The notifications a last-message update genuinely causes: a history
/// insertion when the message had to be materialized, then the
/// last-message attribute when its value changed, then the order
/// attribute when a main-list position changed it.
pub open spec fn chat_last_message_events(
    s: ChatV,
    last_message_id: Option<i64>,
    materialized: Option<MessageV>,
    ps: Seq<ChatPosition>,
) -> Seq<ChatEvent> {
    (match materialized {
        Some(m) => seq![
            ChatEvent::History {
                change: ListChange {
                    position: s.history.len() as usize,
                    removed: 0 as usize,
                    added: 1 as usize,
                },
            },
        ],
        None => seq![],
    }) + (if s.last_message_id != last_message_id {
        seq![ChatEvent::Changed { attr: ChatAttr::LastMessage }]
    } else {
        seq![]
    }) + (match first_main_order(ps) {
        Some(o) => if s.order != o {
            seq![ChatEvent::Changed { attr: ChatAttr::Order }]
        } else {
            seq![]
        },
        None => seq![],
    })
}

/// The history contents after a message-content update addressed to
/// `message_id`.
pub open spec fn history_after_content(h: Seq<MessageV>, message_id: i64, u: Update) -> Seq<
    MessageV,
> {
    if messages_contain(h, message_id) {
        h.update(message_pos(h, message_id), message_apply(h[message_pos(h, message_id)], u))
    } else {
        h
    }
}

/// The notifications a message-content update genuinely causes.
pub open spec fn history_content_events(h: Seq<MessageV>, message_id: i64, u: Update) -> Seq<
    ChatEvent,
> {
    if messages_contain(h, message_id) && message_changed(h[message_pos(h, message_id)], u).len()
        > 0 {
        seq![ChatEvent::MessageChanged { message_id }]
    } else {
        seq![]
    }
}

/// The history contents after deleting the ids of `ids`, left to right;
/// an id that is not held deletes nothing.
pub open spec fn history_delete_all(h: Seq<MessageV>, ids: Seq<i64>) -> Seq<MessageV>
    decreases ids.len(),
{
    if ids.len() == 0 {
        h
    } else {
        history_delete_all(history_delete_one(h, ids[0]), ids.drop_first())
    }
}

/// The history contents after deleting one id, if held.
pub open spec fn history_delete_one(h: Seq<MessageV>, id: i64) -> Seq<MessageV> {
    if messages_contain(h, id) {
        h.remove(message_pos(h, id))
    } else {
        h
    }
}

/// The notifications deleting the ids of `ids` causes, left to right:
/// one removal per id actually held.
pub open spec fn history_delete_events(h: Seq<MessageV>, ids: Seq<i64>) -> Seq<ChatEvent>
    decreases ids.len(),
{
    if ids.len() == 0 {
        seq![]
    } else {
        (if messages_contain(h, ids[0]) {
            seq![
                ChatEvent::History {
                    change: ListChange {
                        position: message_pos(h, ids[0]) as usize,
                        removed: 1 as usize,
                        added: 0 as usize,
                    },
                },
            ]
        } else {
            seq![]
        }) + history_delete_events(history_delete_one(h, ids[0]), ids.drop_first())
    }
}

impl Chat {
    /// The chat invariant: both derived views are well formed.
    pub open spec fn wf(&self) -> bool {
        &&& self.spec_history().wf()
        &&& self.spec_actions().wf()
    }

    /// The history behind the view.
    pub closed spec fn spec_history(&self) -> History {
        self.history
    }

    /// The action list behind the view.
    pub closed spec fn spec_actions(&self) -> ActionList {
        self.actions
    }

    /// Builds a chat from the raw payload that first introduced it and
    /// its already-resolved kind. The derived views start empty —
    /// creating them with the chat reads nothing and is observationally
    /// the same as creating them on first access; the position, pinned
    /// flag and last message arrive through their own updates.
    pub fn from_raw(raw: &crate::update::RawChat, kind: ChatKind) -> (c: Chat)
        ensures
            c@ == chat_from_raw_v(raw@, kind),
            c.wf(),
    {
        let c = Chat {
            id: raw.id,
            kind: kind,
            title: raw.title.clone(),
            avatar: raw.photo,
            last_message_id: None,
            order: 0,
            is_pinned: false,
            unread_count: raw.unread_count,
            unread_mention_count: raw.unread_mention_count,
            notification_settings: raw.notification_settings,
            draft_message: match &raw.draft_message {
                Some(d) => Some(d.clone()),
                None => None,
            },
            history: History::new(),
            actions: ActionList::new(),
        };
        proof {
            assert(c@.history =~= Seq::<MessageV>::empty());
            assert(c@.actions =~= Seq::<ActionEntry>::empty());
        }
        c
    }

    /// The identity key, fixed at construction.
    pub fn id(&self) -> (r: i64)
        ensures
            r == self@.id,
    {
        self.id
    }

    /// The chat's kind, fixed at construction.
    pub fn kind(&self) -> (r: ChatKind)
        ensures
            r == self@.kind,
    {
        self.kind
    }

    /// The current title.
    pub fn title(&self) -> (r: &String)
        ensures
            r@ == self@.title,
    {
        &self.title
    }

    /// The current avatar, if any.
    pub fn avatar(&self) -> (r: Option<Avatar>)
        ensures
            r == self@.avatar,
    {
        self.avatar
    }

    /// The id of the chat's last message, if one has been reported; the
    /// message itself is the history entry with this id.
    pub fn last_message_id(&self) -> (r: Option<i64>)
        ensures
            r == self@.last_message_id,
    {
        self.last_message_id
    }

    /// The chat's order in the main chat list.
    pub fn order(&self) -> (r: i64)
        ensures
            r == self@.order,
    {
        self.order
    }

    /// Whether the chat is pinned in the main chat list.
    pub fn is_pinned(&self) -> (r: bool)
        ensures
            r == self@.is_pinned,
    {
        self.is_pinned
    }

    /// The number of unread messages.
    pub fn unread_count(&self) -> (r: i32)
        ensures
            r == self@.unread_count,
    {
        self.unread_count
    }

    /// The number of unread mentions.
    pub fn unread_mention_count(&self) -> (r: i32)
        ensures
            r == self@.unread_mention_count,
    {
        self.unread_mention_count
    }

    /// The current notification settings.
    pub fn notification_settings(&self) -> (r: NotificationSettings)
        ensures
            r == self@.notification_settings,
    {
        self.notification_settings
    }

    /// The current draft, if any.
    pub fn draft_message(&self) -> (r: &Option<DraftMessage>)
        ensures
            opt_draft_view(*r) == self@.draft_message,
    {
        &self.draft_message
    }

    /// The chat's message history.
    pub fn history(&self) -> (r: &History)
        requires
            self.wf(),
        ensures
            r@ == self@.history,
            r.wf(),
    {
        &self.history
    }

    /// The chat's action list.
    pub fn actions(&self) -> (r: &ActionList)
        requires
            self.wf(),
        ensures
            r@ == self@.actions,
            r.wf(),
    {
        &self.actions
    }

    /// Whether the history holds a message with id `id`.
    pub fn history_contains(&self, id: i64) -> (r: bool)
        requires
            self.wf(),
        ensures
            r == messages_contain(self@.history, id),
    {
        match self.history.position_of(id) {
            Some(p) => {
                proof {
                    assert(messages_contain(self@.history, id)) by {
                        assert(self@.history[p as int].id == id);
                    }
                }
                true
            }
            None => false,
        }
    }

    /// Whether this chat is the session owner's own chat, given the
    /// owner's live reference.
    pub fn is_own_chat(&self, me: UserRef) -> (r: bool)
        ensures
            r == (spec_kind_user(self@.kind) == Some(me)),
    {
        match self.kind.user() {
            Some(u) => u.position == me.position,
            None => false,
        }
    }

    /// Applies one of the chat's plain attribute updates and returns the
    /// notifications it genuinely caused. Variants a chat does not own —
    /// and the ones that touch the derived views, which have entry points
    /// of their own — leave the chat untouched here.
    #[verifier::rlimit(60)]
    pub fn handle_simple(&mut self, u: &Update) -> (events: Vec<ChatEvent>)
        requires
            old(self).wf(),
        ensures
            final(self).wf(),
            final(self)@ == chat_apply_simple(old(self)@, *u),
            events@ == chat_changed_simple(old(self)@, *u),
    {
        match u {
            Update::ChatTitle { chat_id: _, title } => {
                let mut events: Vec<ChatEvent> = Vec::new();
                if self.set_title(title.clone()) {
                    events.push(ChatEvent::Changed { attr: ChatAttr::Title });
                }
                proof {
                    assert(events@ =~= chat_changed_simple(old(self)@, *u));
                }
                events
            }
            Update::ChatPhoto { chat_id: _, photo } => {
                let mut events: Vec<ChatEvent> = Vec::new();
                if self.set_avatar(*photo) {
                    events.push(ChatEvent::Changed { attr: ChatAttr::Avatar });
                }
                proof {
                    assert(events@ =~= chat_changed_simple(old(self)@, *u));
                }
                events
            }
            Update::ChatNotificationSettings { chat_id: _, notification_settings } => {
                let mut events: Vec<ChatEvent> = Vec::new();
                if self.set_notification_settings(*notification_settings) {
                    events.push(ChatEvent::Changed { attr: ChatAttr::NotificationSettings });
                }
                proof {
                    assert(events@ =~= chat_changed_simple(old(self)@, *u));
                }
                events
            }
            Update::ChatPosition { chat_id: _, position } => {
                let mut events: Vec<ChatEvent> = Vec::new();
                match position.list {
                    ChatListKind::Main => {
                        if self.set_order(position.order) {
                            events.push(ChatEvent::Changed { attr: ChatAttr::Order });
                        }
                        if self.set_is_pinned(position.is_pinned) {
                            events.push(ChatEvent::Changed { attr: ChatAttr::IsPinned });
                        }
                    }
                    _ => {}
                }
                proof {
                    assert(events@ =~= chat_changed_simple(old(self)@, *u));
                }
                events
            }
            Update::ChatUnreadMentionCount { chat_id: _, unread_mention_count } => {
                let mut events: Vec<ChatEvent> = Vec::new();
                if self.set_unread_mention_count(*unread_mention_count) {
                    events.push(ChatEvent::Changed { attr: ChatAttr::UnreadMentionCount });
                }
                proof {
                    assert(events@ =~= chat_changed_simple(old(self)@, *u));
                }
                events
            }
            Update::MessageMentionRead { chat_id: _, message_id: _, unread_mention_count } => {
                let mut events: Vec<ChatEvent> = Vec::new();
                if self.set_unread_mention_count(*unread_mention_count) {
                    events.push(ChatEvent::Changed { attr: ChatAttr::UnreadMentionCount });
                }
                proof {
                    assert(events@ =~= chat_changed_simple(old(self)@, *u));
                }
                events
            }
            Update::ChatReadInbox { chat_id: _, last_read_inbox_message_id: _, unread_count } => {
                let mut events: Vec<ChatEvent> = Vec::new();
                if self.set_unread_count(*unread_count) {
                    events.push(ChatEvent::Changed { attr: ChatAttr::UnreadCount });
                }
                proof {
                    assert(events@ =~= chat_changed_simple(old(self)@, *u));
                }
                events
            }
            Update::ChatDraftMessage { chat_id: _, draft_message } => {
                let mut events: Vec<ChatEvent> = Vec::new();
                let draft = match draft_message {
                    Some(d) => Some(d.clone()),
                    None => None,
                };
                if self.set_draft_message(draft) {
                    events.push(ChatEvent::Changed { attr: ChatAttr::DraftMessage });
                }
                proof {
                    assert(events@ =~= chat_changed_simple(old(self)@, *u));
                }
                events
            }
            _ => {
                let events: Vec<ChatEvent> = Vec::new();
                proof {
                    assert(events@ =~= chat_changed_simple(old(self)@, *u));
                }
                events
            }
        }
    }

    /// Appends a newly arrived message to the history and reports the
    /// insertion, or does nothing when a message with that id is already
    /// held.
    pub fn apply_new_message(&mut self, m: Message) -> (r: Option<ListChange>)
        requires
            old(self).wf(),
        ensures
            final(self).wf(),
            if messages_contain(old(self)@.history, m@.id) {
                final(self)@ == old(self)@ && r is None
            } else {
                final(self)@ == (ChatV { history: old(self)@.history.push(m@), ..old(self)@ })
                    && r == Some(
                    ListChange {
                        position: old(self)@.history.len() as usize,
                        removed: 0 as usize,
                        added: 1 as usize,
                    },
                )
            },
    {
        let id = m.id();
        match self.history.position_of(id) {
            Some(_) => {
                proof {
                    assert(messages_contain(self@.history, id));
                }
                None
            }
            None => {
                let pos = self.history.n_items();
                self.history.append(m);
                Some(ListChange { position: pos, removed: 0, added: 1 })
            }
        }
    }

    /// Forwards a message-content update to the addressed message and
    /// returns the notification it genuinely caused.
    pub fn apply_message_content(&mut self, message_id: i64, u: &Update) -> (events: Vec<
        ChatEvent,
    >)
        requires
            old(self).wf(),
        ensures
            final(self).wf(),
            final(self)@ == (ChatV {
                history: history_after_content(old(self)@.history, message_id, *u),
                ..old(self)@
            }),
            events@ == history_content_events(old(self)@.history, message_id, *u),
    {
        let mut events: Vec<ChatEvent> = Vec::new();
        match self.history.handle_message_content(message_id, u) {
            Some(changed) => {
                if changed.len() > 0 {
                    events.push(ChatEvent::MessageChanged { message_id });
                }
            }
            None => {}
        }
        proof {
            assert(events@ =~= history_content_events(old(self)@.history, message_id, *u));
        }
        events
    }

    /// Deletes the listed message ids from the history, left to right,
    /// and returns one removal notification per id actually held.
    pub fn apply_delete_messages(&mut self, message_ids: &Vec<i64>) -> (events: Vec<ChatEvent>)
        requires
            old(self).wf(),
        ensures
            final(self).wf(),
            final(self)@ == (ChatV {
                history: history_delete_all(old(self)@.history, message_ids@),
                ..old(self)@
            }),
            events@ == history_delete_events(old(self)@.history, message_ids@),
    {
        let mut events: Vec<ChatEvent> = Vec::new();
        let mut i: usize = 0;
        while i < message_ids.len()
            invariant
                old(self).wf(),
                self.wf(),
                i <= message_ids@.len(),
                self@ == (ChatV {
                    history: history_delete_all(old(self)@.history, message_ids@.take(i as int)),
                    ..old(self)@
                }),
                events@ == history_delete_events(old(self)@.history, message_ids@.take(i as int)),
            decreases message_ids@.len() - i,
        {
            let id = message_ids[i];
            let ghost h_before = self@.history;
            match self.history.remove(id) {
                Some(p) => {
                    events.push(
                        ChatEvent::History {
                            change: ListChange { position: p, removed: 1, added: 0 },
                        },
                    );
                }
                None => {}
            }
            proof {
                lemma_delete_all_step(old(self)@.history, message_ids@, i as int);
                assert(message_ids@.take(i as int + 1).drop_last() =~= message_ids@.take(i as int));
                assert(self@.history =~= history_delete_all(
                    old(self)@.history,
                    message_ids@.take(i as int + 1),
                ));
                assert(events@ =~= history_delete_events(
                    old(self)@.history,
                    message_ids@.take(i as int + 1),
                ));
            }
            i = i + 1;
        }
        proof {
            assert(message_ids@.take(message_ids@.len() as int) =~= message_ids@);
        }
        events
    }

    /// Applies a last-message update whose referenced message, when it
    /// was not yet held, has already been resolved into `materialized`.
    pub fn apply_last_message(
        &mut self,
        last_message_id: Option<i64>,
        materialized: Option<Message>,
        positions: &Vec<ChatPosition>,
    ) -> (events: Vec<ChatEvent>)
        requires
            old(self).wf(),
            match materialized {
                Some(m) => last_message_id == Some(m@.id) && !messages_contain(
                    old(self)@.history,
                    m@.id,
                ),
                None => true,
            },
        ensures
            final(self).wf(),
            final(self)@ == chat_apply_last_message(
                old(self)@,
                last_message_id,
                spec_opt_message_view(materialized),
                positions@,
            ),
            events@ == chat_last_message_events(
                old(self)@,
                last_message_id,
                spec_opt_message_view(materialized),
                positions@,
            ),
    {
        let mut events: Vec<ChatEvent> = Vec::new();
        match materialized {
            Some(m) => {
                let pos = self.history.n_items();
                self.history.append(m);
                events.push(
                    ChatEvent::History {
                        change: ListChange { position: pos, removed: 0, added: 1 },
                    },
                );
            }
            None => {}
        }
        if self.set_last_message_id(last_message_id) {
            events.push(ChatEvent::Changed { attr: ChatAttr::LastMessage });
        }
        match Self::first_main_from(positions, 0) {
            Some(o) => {
                if self.set_order(o) {
                    events.push(ChatEvent::Changed { attr: ChatAttr::Order });
                }
            }
            None => {}
        }
        proof {
            assert(events@ =~= chat_last_message_events(
                old(self)@,
                last_message_id,
                spec_opt_message_view(materialized),
                positions@,
            ));
        }
        events
    }

    /// Applies one action update of the acting user, already resolved
    /// into a live reference, and returns the notifications: a
    /// positional change of the action list on membership change, and
    /// the actions attribute of the chat, which always follows an action
    /// update.
    pub fn apply_action(&mut self, user_id: i64, user: UserRef, action: ChatActionKind) -> (events:
        Vec<ChatEvent>)
        requires
            old(self).wf(),
        ensures
            final(self).wf(),
            final(self)@ == (ChatV {
                actions: actions_apply(old(self)@.actions, user_id, user, action),
                ..old(self)@
            }),
            events@ == (match actions_change(old(self)@.actions, user_id, action) {
                Some(change) => seq![
                    ChatEvent::Action { change },
                    ChatEvent::Changed { attr: ChatAttr::Actions },
                ],
                None => seq![ChatEvent::Changed { attr: ChatAttr::Actions }],
            }),
    {
        let mut events: Vec<ChatEvent> = Vec::new();
        match self.actions.handle_action(user_id, user, action) {
            Some(change) => {
                events.push(ChatEvent::Action { change });
            }
            None => {}
        }
        events.push(ChatEvent::Changed { attr: ChatAttr::Actions });
        proof {
            assert(events@ =~= (match actions_change(old(self)@.actions, user_id, action) {
                Some(change) => seq![
                    ChatEvent::Action { change },
                    ChatEvent::Changed { attr: ChatAttr::Actions },
                ],
                None => seq![ChatEvent::Changed { attr: ChatAttr::Actions }],
            }));
        }
        events
    }

    /// Walks `positions` from `i` and returns the order of the first
    /// main-list entry.
    fn first_main_from(positions: &Vec<ChatPosition>, i: usize) -> (r: Option<i64>)
        requires
            i <= positions@.len(),
        ensures
            r == first_main_order_from(positions@, i as int),
        decreases positions@.len() - i,
    {
        if i == positions.len() {
            None
        } else {
            let p = positions[i];
            match p.list {
                ChatListKind::Main => Some(p.order),
                _ => Self::first_main_from(positions, i + 1),
            }
        }
    }

    /// Stores the title; reports whether the value changed.
    fn set_title(&mut self, title: String) -> (changed: bool)
        ensures
            final(self)@ == (ChatV { title: title@, ..old(self)@ }),
            changed == (old(self)@.title != title@),
            final(self).spec_history() == old(self).spec_history(),
            final(self).spec_actions() == old(self).spec_actions(),
    {
        let differs = !(self.title == title);
        self.title = title;
        differs
    }

    /// Stores the avatar; reports whether the value changed.
    fn set_avatar(&mut self, avatar: Option<Avatar>) -> (changed: bool)
        ensures
            final(self)@ == (ChatV { avatar: avatar, ..old(self)@ }),
            changed == (old(self)@.avatar != avatar),
            final(self).spec_history() == old(self).spec_history(),
            final(self).spec_actions() == old(self).spec_actions(),
    {
        let differs = !opt_avatar_eq(&self.avatar, &avatar);
        self.avatar = avatar;
        differs
    }

    /// Stores the last message id; reports whether the value changed.
    fn set_last_message_id(&mut self, last_message_id: Option<i64>) -> (changed: bool)
        ensures
            final(self)@ == (ChatV { last_message_id: last_message_id, ..old(self)@ }),
            changed == (old(self)@.last_message_id != last_message_id),
            final(self).spec_history() == old(self).spec_history(),
            final(self).spec_actions() == old(self).spec_actions(),
    {
        let differs = match (&self.last_message_id, &last_message_id) {
            (Some(a), Some(b)) => *a != *b,
            (None, None) => false,
            _ => true,
        };
        self.last_message_id = last_message_id;
        differs
    }

    /// Stores the order; reports whether the value changed.
    fn set_order(&mut self, order: i64) -> (changed: bool)
        ensures
            final(self)@ == (ChatV { order: order, ..old(self)@ }),
            changed == (old(self)@.order != order),
            final(self).spec_history() == old(self).spec_history(),
            final(self).spec_actions() == old(self).spec_actions(),
    {
        let differs = !(self.order == order);
        self.order = order;
        differs
    }

    /// Stores the pinned flag; reports whether the value changed.
    fn set_is_pinned(&mut self, is_pinned: bool) -> (changed: bool)
        ensures
            final(self)@ == (ChatV { is_pinned: is_pinned, ..old(self)@ }),
            changed == (old(self)@.is_pinned != is_pinned),
            final(self).spec_history() == old(self).spec_history(),
            final(self).spec_actions() == old(self).spec_actions(),
    {
        let differs = !(self.is_pinned == is_pinned);
        self.is_pinned = is_pinned;
        differs
    }

    /// Stores the unread count; reports whether the value changed.
    fn set_unread_count(&mut self, unread_count: i32) -> (changed: bool)
        ensures
            final(self)@ == (ChatV { unread_count: unread_count, ..old(self)@ }),
            changed == (old(self)@.unread_count != unread_count),
            final(self).spec_history() == old(self).spec_history(),
            final(self).spec_actions() == old(self).spec_actions(),
    {
        let differs = !(self.unread_count == unread_count);
        self.unread_count = unread_count;
        differs
    }

    /// Stores the unread mention count; reports whether the value
    /// changed.
    fn set_unread_mention_count(&mut self, unread_mention_count: i32) -> (changed: bool)
        ensures
            final(self)@ == (ChatV {
                unread_mention_count: unread_mention_count,
                ..old(self)@
            }),
            changed == (old(self)@.unread_mention_count != unread_mention_count),
            final(self).spec_history() == old(self).spec_history(),
            final(self).spec_actions() == old(self).spec_actions(),
    {
        let differs = !(self.unread_mention_count == unread_mention_count);
        self.unread_mention_count = unread_mention_count;
        differs
    }

    /// Stores the notification settings; reports whether the value
    /// changed.
    fn set_notification_settings(&mut self, notification_settings: NotificationSettings) -> (changed:
        bool)
        ensures
            final(self)@ == (ChatV {
                notification_settings: notification_settings,
                ..old(self)@
            }),
            changed == (old(self)@.notification_settings != notification_settings),
            final(self).spec_history() == old(self).spec_history(),
            final(self).spec_actions() == old(self).spec_actions(),
    {
        let differs = !(self.notification_settings == notification_settings);
        self.notification_settings = notification_settings;
        differs
    }

    /// Stores the draft; reports whether the value changed.
    fn set_draft_message(&mut self, draft_message: Option<DraftMessage>) -> (changed: bool)
        ensures
            final(self)@ == (ChatV {
                draft_message: opt_draft_view(draft_message),
                ..old(self)@
            }),
            changed == (old(self)@.draft_message != opt_draft_view(draft_message)),
            final(self).spec_history() == old(self).spec_history(),
            final(self).spec_actions() == old(self).spec_actions(),
    {
        let differs = !opt_draft_message_eq(&self.draft_message, &draft_message);
        self.draft_message = draft_message;
        differs
    }
}

/// The view of an optional message.
pub open spec fn spec_opt_message_view(m: Option<Message>) -> Option<MessageV> {
    match m {
        Some(v) => Some(v@),
        None => None,
    }
}

/// Deleting the first `i + 1` ids equals deleting the first `i` and then
/// one more.
pub proof fn lemma_delete_all_step(h: Seq<MessageV>, ids: Seq<i64>, i: int)
    requires
        0 <= i < ids.len(),
    ensures
        history_delete_all(h, ids.take(i + 1)) == history_delete_one(
            history_delete_all(h, ids.take(i)),
            ids[i],
        ),
        history_delete_events(h, ids.take(i + 1)) == history_delete_events(h, ids.take(i))
            + (if messages_contain(history_delete_all(h, ids.take(i)), ids[i]) {
            seq![
                ChatEvent::History {
                    change: ListChange {
                        position: message_pos(history_delete_all(h, ids.take(i)), ids[i]) as usize,
                        removed: 1 as usize,
                        added: 0 as usize,
                    },
                },
            ]
        } else {
            seq![]
        }),
    decreases i,
{
    let pre = ids.take(i + 1);
    let cur = ids.take(i);
    if i == 0 {
        assert(cur =~= Seq::<i64>::empty());
        assert(pre =~= seq![ids[0]]);
        assert(pre.drop_first() =~= Seq::<i64>::empty());
        assert(history_delete_all(h, pre) == history_delete_all(
            history_delete_one(h, ids[0]),
            Seq::<i64>::empty(),
        ));
        assert(history_delete_events(h, cur) =~= Seq::<ChatEvent>::empty());
        assert(history_delete_events(history_delete_one(h, ids[0]), Seq::<i64>::empty())
            =~= Seq::<ChatEvent>::empty());
    } else {
        let h1 = history_delete_one(h, ids[0]);
        let ids1 = ids.drop_first();
        lemma_delete_all_step(h1, ids1, i - 1);
        assert(pre.drop_first() =~= ids1.take(i));
        assert(cur.drop_first() =~= ids1.take(i - 1));
        assert(pre[0] == ids[0]);
        assert(cur[0] == ids[0]);
        assert(ids1[i - 1] == ids[i]);
        assert(ids1.take(i - 1 + 1) =~= ids1.take(i));
        assert(history_delete_all(h, pre) == history_delete_all(h1, ids1.take(i)));
        assert(history_delete_all(h, cur) == history_delete_all(h1, ids1.take(i - 1)));
        assert(history_delete_events(h, pre) == (if messages_contain(h, ids[0]) {
            seq![
                ChatEvent::History {
                    change: ListChange {
                        position: message_pos(h, ids[0]) as usize,
                        removed: 1 as usize,
                        added: 0 as usize,
                    },
                },
            ]
        } else {
            seq![]
        }) + history_delete_events(h1, ids1.take(i)));
        assert(history_delete_events(h, cur) == (if messages_contain(h, ids[0]) {
            seq![
                ChatEvent::History {
                    change: ListChange {
                        position: message_pos(h, ids[0]) as usize,
                        removed: 1 as usize,
                        added: 0 as usize,
                    },
                },
            ]
        } else {
            seq![]
        }) + history_delete_events(h1, ids1.take(i - 1)));
        assert(history_delete_events(h, pre) =~= history_delete_events(h, cur) + (if
            messages_contain(history_delete_all(h, cur), ids[i]) {
            seq![
                ChatEvent::History {
                    change: ListChange {
                        position: message_pos(history_delete_all(h, cur), ids[i]) as usize,
                        removed: 1 as usize,
                        added: 0 as usize,
                    },
                },
            ]
        } else {
            seq![]
        }));
    }
}

} // verus!
