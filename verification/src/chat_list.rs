//! The chat registry, and the eager resolution of raw payloads into live
//! references.
//!
//! Routing a chat-scoped update means: find the owning chat by the
//! embedded id, resolve whatever bare ids the payload carries against the
//! session's registries, and forward plain, already-resolved values to
//! the chat. Resolution failures surface before any state is touched, so
//! an update either applies whole or not at all.

use vstd::prelude::*;

use crate::basic_group_list::{basic_groups_contain, BasicGroupList};
use crate::basic_group::BasicGroupV;
use crate::chat::{
    chat_apply_last_message, chat_apply_simple, chat_changed_simple, chat_from_raw_v,
    chat_last_message_events, history_after_content, history_content_events, history_delete_all,
    history_delete_events, Chat, ChatEvent, ChatKind, ChatV,
};
use crate::history::messages_contain;
use crate::key_index::{index_entries, index_get, index_insert, index_new};
use crate::message::{Message, MessageForwardInfo, MessageForwardOrigin, MessageSender, MessageV};
use crate::supergroup_list::{supergroups_contain, SupergroupList};
use crate::supergroup::SupergroupV;
use crate::types::{ChatRef, ResolveError, UserRef};
use crate::update::{
    RawChatKind, RawForwardOrigin, RawForwardOriginV, RawMessage, RawMessageSender, RawMessageV,
    Update,
};
use crate::user_list::{users_contain, UserList};
use crate::user::UserV;
use crate::{ListChange, RegistryOutcome};

verus! {

/// True when some position of `s` holds a chat with id `id`.
pub open spec fn chats_contain(s: Seq<ChatV>, id: i64) -> bool {
    exists|i: int| 0 <= i < s.len() && s[i].id == id
}

/// The position of the chat with id `id`; meaningful when
/// `chats_contain` holds and the ids of `s` are unique.
pub open spec fn chat_pos(s: Seq<ChatV>, id: i64) -> int {
    choose|i: int| 0 <= i < s.len() && s[i].id == id
}

/// True when no two positions of `s` hold the same id.
pub open spec fn chats_unique(s: Seq<ChatV>) -> bool {
    forall|i: int, j: int| 0 <= i < s.len() && 0 <= j < s.len() && #[trigger] s[i].id == #[trigger] s[j].id
        ==> i == j
}

/// `k` is the faithful resolution of the raw chat kind: the same shape,
/// with each bare id replaced by a live reference to the entity holding
/// that id.
pub open spec fn kind_resolves(
    raw: RawChatKind,
    users: Seq<UserV>,
    bgs: Seq<BasicGroupV>,
    sgs: Seq<SupergroupV>,
    k: ChatKind,
) -> bool {
    match raw {
        RawChatKind::Private { user_id } => k matches ChatKind::Private { user }
            && user.position < users.len() && users[user.position as int].id == user_id,
        RawChatKind::BasicGroup { basic_group_id } => k matches ChatKind::BasicGroup {
            basic_group,
        } && basic_group.position < bgs.len() && bgs[basic_group.position as int].id
            == basic_group_id,
        RawChatKind::Supergroup { supergroup_id } => k matches ChatKind::Supergroup { supergroup }
            && supergroup.position < sgs.len() && sgs[supergroup.position as int].id
            == supergroup_id,
        RawChatKind::Secret { secret_chat_id, user_id } => k matches ChatKind::Secret {
            secret_chat_id: sid,
            user,
        } && sid == secret_chat_id && user.position < users.len()
            && users[user.position as int].id == user_id,
    }
}

/// `e` is the error owed for a raw chat kind whose referenced id is not
/// held by its registry.
pub open spec fn kind_resolve_err(
    raw: RawChatKind,
    users: Seq<UserV>,
    bgs: Seq<BasicGroupV>,
    sgs: Seq<SupergroupV>,
    e: ResolveError,
) -> bool {
    match raw {
        RawChatKind::Private { user_id } => !users_contain(users, user_id) && e
            == (ResolveError::UserNotFound { user_id }),
        RawChatKind::BasicGroup { basic_group_id } => !basic_groups_contain(bgs, basic_group_id)
            && e == (ResolveError::BasicGroupNotFound { basic_group_id }),
        RawChatKind::Supergroup { supergroup_id } => !supergroups_contain(sgs, supergroup_id) && e
            == (ResolveError::SupergroupNotFound { supergroup_id }),
        RawChatKind::Secret { secret_chat_id, user_id } => !users_contain(users, user_id) && e
            == (ResolveError::UserNotFound { user_id }),
    }
}

/// Every id a raw sender references is held by its registry.
pub open spec fn sender_resolvable(
    raw: RawMessageSender,
    users: Seq<UserV>,
    chats: Seq<ChatV>,
) -> bool {
    match raw {
        RawMessageSender::User { user_id } => users_contain(users, user_id),
        RawMessageSender::Chat { chat_id } => chats_contain(chats, chat_id),
    }
}

/// `s` is the faithful resolution of the raw sender.
pub open spec fn sender_resolves(
    raw: RawMessageSender,
    users: Seq<UserV>,
    chats: Seq<ChatV>,
    s: MessageSender,
) -> bool {
    match raw {
        RawMessageSender::User { user_id } => s matches MessageSender::User { user }
            && user.position < users.len() && users[user.position as int].id == user_id,
        RawMessageSender::Chat { chat_id } => s matches MessageSender::Chat { chat }
            && chat.position < chats.len() && chats[chat.position as int].id == chat_id,
    }
}

/// Every id a raw forward origin references is held by its registry.
pub open spec fn origin_resolvable(
    raw: RawForwardOriginV,
    users: Seq<UserV>,
    chats: Seq<ChatV>,
) -> bool {
    match raw {
        RawForwardOriginV::User { sender_user_id } => users_contain(users, sender_user_id),
        RawForwardOriginV::Chat { sender_chat_id } => chats_contain(chats, sender_chat_id),
        RawForwardOriginV::Channel { chat_id, message_id } => chats_contain(chats, chat_id),
        RawForwardOriginV::HiddenUser { sender_name } => true,
        RawForwardOriginV::MessageImport { sender_name } => true,
    }
}

/// `o` is the faithful resolution of the raw forward origin: references
/// are resolved, scalar payloads are copied verbatim.
pub open spec fn origin_resolves(
    raw: RawForwardOriginV,
    users: Seq<UserV>,
    chats: Seq<ChatV>,
    o: crate::message::MessageForwardOriginV,
) -> bool {
    match raw {
        RawForwardOriginV::User { sender_user_id } => o
            matches crate::message::MessageForwardOriginV::User { user } && user.position
            < users.len() && users[user.position as int].id == sender_user_id,
        RawForwardOriginV::Chat { sender_chat_id } => o
            matches crate::message::MessageForwardOriginV::Chat { chat } && chat.position
            < chats.len() && chats[chat.position as int].id == sender_chat_id,
        RawForwardOriginV::Channel { chat_id, message_id } => o
            matches crate::message::MessageForwardOriginV::Channel { chat, message_id: mid }
            && mid == message_id && chat.position < chats.len()
            && chats[chat.position as int].id == chat_id,
        RawForwardOriginV::HiddenUser { sender_name } => o
            matches crate::message::MessageForwardOriginV::HiddenUser { sender_name: n } && n
            == sender_name,
        RawForwardOriginV::MessageImport { sender_name } => o
            matches crate::message::MessageForwardOriginV::MessageImport { sender_name: n } && n
            == sender_name,
    }
}

/// Every id a raw message references is held by its registry; the owning
/// chat is handed in separately and needs no lookup.
pub open spec fn message_resolvable(
    raw: RawMessageV,
    users: Seq<UserV>,
    chats: Seq<ChatV>,
) -> bool {
    &&& sender_resolvable(raw.sender, users, chats)
    &&& match raw.forward_info {
        Some(f) => origin_resolvable(f.origin, users, chats),
        None => true,
    }
}

/// `m` is the faithful resolution of the raw message, owned by `owner`.
pub open spec fn message_resolves(
    raw: RawMessageV,
    users: Seq<UserV>,
    chats: Seq<ChatV>,
    owner: ChatRef,
    m: MessageV,
) -> bool {
    &&& m.id == raw.id
    &&& sender_resolves(raw.sender, users, chats, m.sender)
    &&& m.chat == owner
    &&& m.is_outgoing == raw.is_outgoing
    &&& m.date == raw.date
    &&& match (raw.forward_info, m.forward_info) {
        (Some(rf), Some(mf)) => origin_resolves(rf.origin, users, chats, mf.origin) && mf.date
            == rf.date,
        (None, None) => true,
        _ => false,
    }
    &&& m.content == raw.content
}

/// How the chat registry answers one update, relating its prior and new
/// contents, the other registries it resolves against, and the outcome.
pub open spec fn chats_step(
    pre: Seq<ChatV>,
    users: Seq<UserV>,
    bgs: Seq<BasicGroupV>,
    sgs: Seq<SupergroupV>,
    u: Update,
    post: Seq<ChatV>,
    r: Result<RegistryOutcome<ChatEvent>, ResolveError>,
) -> bool {
    match u {
        Update::NewChat { chat: raw } => if chats_contain(pre, raw.id) {
            &&& post == pre
            &&& r matches Ok(RegistryOutcome::Updated { position, changed }) && position
                == chat_pos(pre, raw.id) && changed@ =~= Seq::<ChatEvent>::empty()
        } else {
            match r {
                Ok(out) => {
                    &&& post.len() == pre.len() + 1
                    &&& forall|i: int| 0 <= i < pre.len() ==> post[i] == pre[i]
                    &&& post[pre.len() as int] == chat_from_raw_v(
                        raw@,
                        post[pre.len() as int].kind,
                    )
                    &&& kind_resolves(raw.kind, users, bgs, sgs, post[pre.len() as int].kind)
                    &&& out matches RegistryOutcome::Inserted { change } && change.position
                        == pre.len() && change.removed == 0 && change.added == 1
                },
                Err(e) => post == pre && kind_resolve_err(raw.kind, users, bgs, sgs, e),
            }
        },
        Update::NewMessage { message } => chats_step_scoped(pre, message.chat_id, u, post, r)
            && (chats_contain(pre, message.chat_id) ==> {
            let p = chat_pos(pre, message.chat_id);
            let c = pre[p];
            if messages_contain(c.history, message.id) {
                &&& post == pre
                &&& r matches Ok(RegistryOutcome::Updated { position, changed }) && position == p
                    && changed@ =~= Seq::<ChatEvent>::empty()
            } else {
                match r {
                    Ok(out) => {
                        let m = materialized_message(post, p, c);
                        &&& message_resolves(
                            message@,
                            users,
                            pre,
                            ChatRef { position: p as usize },
                            m,
                        )
                        &&& post == pre.update(p, ChatV { history: c.history.push(m), ..c })
                        &&& out matches RegistryOutcome::Updated { position, changed }
                            && position == p && changed@ =~= seq![
                            ChatEvent::History {
                                change: ListChange {
                                    position: c.history.len() as usize,
                                    removed: 0 as usize,
                                    added: 1 as usize,
                                },
                            },
                        ]
                    },
                    Err(e) => post == pre && !message_resolvable(message@, users, pre),
                }
            }
        }),
        Update::MessageContent { chat_id, message_id, new_content } => chats_step_scoped(
            pre,
            chat_id,
            u,
            post,
            r,
        ) && (chats_contain(pre, chat_id) ==> {
            let p = chat_pos(pre, chat_id);
            let c = pre[p];
            &&& post == pre.update(
                p,
                ChatV { history: history_after_content(c.history, message_id, u), ..c },
            )
            &&& r matches Ok(RegistryOutcome::Updated { position, changed }) && position == p
                && changed@ == history_content_events(c.history, message_id, u)
        }),
        Update::DeleteMessages { chat_id, message_ids } => chats_step_scoped(
            pre,
            chat_id,
            u,
            post,
            r,
        ) && (chats_contain(pre, chat_id) ==> {
            let p = chat_pos(pre, chat_id);
            let c = pre[p];
            &&& post == pre.update(
                p,
                ChatV { history: history_delete_all(c.history, message_ids@), ..c },
            )
            &&& r matches Ok(RegistryOutcome::Updated { position, changed }) && position == p
                && changed@ == history_delete_events(c.history, message_ids@)
        }),
        Update::ChatLastMessage { chat_id, last_message, positions } => chats_step_scoped(
            pre,
            chat_id,
            u,
            post,
            r,
        ) && (chats_contain(pre, chat_id) ==> {
            let p = chat_pos(pre, chat_id);
            let c = pre[p];
            match last_message {
                None => {
                    &&& post == pre.update(
                        p,
                        chat_apply_last_message(c, None, None, positions@),
                    )
                    &&& r matches Ok(RegistryOutcome::Updated { position, changed }) && position
                        == p && changed@ == chat_last_message_events(c, None, None, positions@)
                },
                Some(raw) => if messages_contain(c.history, raw.id) {
                    &&& post == pre.update(
                        p,
                        chat_apply_last_message(c, Some(raw.id), None, positions@),
                    )
                    &&& r matches Ok(RegistryOutcome::Updated { position, changed }) && position
                        == p && changed@ == chat_last_message_events(
                        c,
                        Some(raw.id),
                        None,
                        positions@,
                    )
                } else {
                    match r {
                        Ok(out) => {
                            let m = materialized_message(post, p, c);
                            &&& message_resolves(
                                raw@,
                                users,
                                pre,
                                ChatRef { position: p as usize },
                                m,
                            )
                            &&& post == pre.update(
                                p,
                                chat_apply_last_message(c, Some(raw.id), Some(m), positions@),
                            )
                            &&& out matches RegistryOutcome::Updated { position, changed }
                                && position == p && changed@ == chat_last_message_events(
                                c,
                                Some(raw.id),
                                Some(m),
                                positions@,
                            )
                        },
                        Err(e) => post == pre && !message_resolvable(raw@, users, pre),
                    }
                },
            }
        }),
        Update::ChatAction { chat_id, sender_user_id, action } => chats_step_scoped(
            pre,
            chat_id,
            u,
            post,
            r,
        ) && (chats_contain(pre, chat_id) ==> {
            let p = chat_pos(pre, chat_id);
            let c = pre[p];
            if users_contain(users, sender_user_id) {
                let user = UserRef {
                    position: crate::user_list::user_pos(users, sender_user_id) as usize,
                };
                match r {
                    Ok(out) => {
                        &&& post == pre.update(
                            p,
                            ChatV {
                                actions: crate::action_list::actions_apply(
                                    c.actions,
                                    sender_user_id,
                                    user,
                                    action,
                                ),
                                ..c
                            },
                        )
                        &&& out matches RegistryOutcome::Updated { position, changed }
                            && position == p && changed@
                            == (match crate::action_list::actions_change(
                            c.actions,
                            sender_user_id,
                            action,
                        ) {
                            Some(change) => seq![
                                ChatEvent::Action { change },
                                ChatEvent::Changed {
                                    attr: crate::chat::ChatAttr::Actions,
                                },
                            ],
                            None => seq![
                                ChatEvent::Changed {
                                    attr: crate::chat::ChatAttr::Actions,
                                },
                            ],
                        })
                    },
                    Err(e) => false,
                }
            } else {
                &&& post == pre
                &&& r matches Err(e) && e == (ResolveError::UserNotFound {
                    user_id: sender_user_id,
                })
            }
        }),
        Update::ChatTitle { .. } | Update::ChatPhoto { .. } | Update::ChatNotificationSettings {
            ..
        } | Update::ChatPosition { .. } | Update::ChatUnreadMentionCount { .. }
            | Update::MessageMentionRead { .. } | Update::ChatReadInbox { .. }
            | Update::ChatDraftMessage { .. } => {
            let chat_id = crate::update::spec_chat_scope(u)->Some_0;
            chats_step_scoped(pre, chat_id, u, post, r) && (chats_contain(pre, chat_id) ==> {
                let p = chat_pos(pre, chat_id);
                &&& post == pre.update(p, chat_apply_simple(pre[p], u))
                &&& r matches Ok(RegistryOutcome::Updated { position, changed }) && position == p
                    && changed@ == chat_changed_simple(pre[p], u)
            })
        },
        _ => post == pre && r matches Ok(RegistryOutcome::Ignored),
    }
}

/// The message a successful materialization appended to the chat at
/// position `p`: the history entry just past the prior end, `c` being
/// the chat's prior state.
pub open spec fn materialized_message(post: Seq<ChatV>, p: int, c: ChatV) -> MessageV {
    post[p].history[c.history.len() as int]
}

/// The part of the answer common to every chat-scoped update: an id this
/// registry has never seen is reported, and nothing changes.
pub open spec fn chats_step_scoped(
    pre: Seq<ChatV>,
    chat_id: i64,
    u: Update,
    post: Seq<ChatV>,
    r: Result<RegistryOutcome<ChatEvent>, ResolveError>,
) -> bool {
    !chats_contain(pre, chat_id) ==> {
        &&& post == pre
        &&& r matches Ok(RegistryOutcome::UnknownId { id }) && id == chat_id
    }
}

/// The chat registry.
pub struct ChatList {
    items: Vec<Chat>,
    index: indexmap::IndexMap<i64, usize>,
}

impl View for ChatList {
    type V = Seq<ChatV>;

    closed spec fn view(&self) -> Seq<ChatV> {
        self.items@.map_values(|c: Chat| c@)
    }
}

impl ChatList {
    /// The registry invariant: the key index is exactly the
    /// id-to-position mapping of the entity vector, and every held chat
    /// is well formed.
    pub closed spec fn wf(&self) -> bool {
        &&& forall|i: int|
            0 <= i < self.items@.len() ==> {
                &&& index_entries(self.index).contains_key(#[trigger] self.items@[i]@.id)
                &&& index_entries(self.index)[self.items@[i]@.id] == i
            }
        &&& forall|k: i64|
            #[trigger] index_entries(self.index).contains_key(k) ==> {
                &&& index_entries(self.index)[k] < self.items@.len()
                &&& self.items@[index_entries(self.index)[k] as int]@.id == k
            }
        &&& forall|i: int| 0 <= i < self.items@.len() ==> (#[trigger] self.items@[i]).wf()
    }

    /// Ids are unique across positions: a consequence of the invariant.
    pub proof fn lemma_unique(&self)
        requires
            self.wf(),
        ensures
            chats_unique(self@),
    {
        assert forall|i: int, j: int|
            0 <= i < self@.len() && 0 <= j < self@.len() && #[trigger] self@[i].id
                == #[trigger] self@[j].id implies i == j by {
            assert(self@[i] == self.items@[i]@);
            assert(self@[j] == self.items@[j]@);
        }
    }

    /// A held position with a matching id is the position the id maps
    /// to.
    proof fn lemma_pin(&self, p: usize, id: i64)
        requires
            self.wf(),
            p < self@.len(),
            self@[p as int].id == id,
        ensures
            chats_contain(self@, id),
            chat_pos(self@, id) == p as int,
    {
        assert(chats_contain(self@, id)) by {
            assert(self@[p as int].id == id);
        }
        self.lemma_unique();
        assert(self@[chat_pos(self@, id)].id == id);
    }

    /// Creates an empty registry.
    pub fn new() -> (r: ChatList)
        ensures
            r.wf(),
            r@ =~= Seq::<ChatV>::empty(),
    {
        ChatList { items: Vec::new(), index: index_new() }
    }

    /// The number of chats observed so far.
    pub fn n_items(&self) -> (r: usize)
        ensures
            r == self@.len(),
    {
        self.items.len()
    }

    /// The chat at `position`, or `None` when out of range.
    pub fn item(&self, position: usize) -> (r: Option<&Chat>)
        requires
            self.wf(),
        ensures
            match r {
                Some(c) => position < self@.len() && c@ == self@[position as int] && c.wf(),
                None => position >= self@.len(),
            },
    {
        if position < self.items.len() {
            let c = &self.items[position];
            proof {
                assert(c@ == self@[position as int]);
            }
            Some(c)
        } else {
            None
        }
    }

    /// The position holding the chat with id `id`, if observed.
    pub fn position_of(&self, id: i64) -> (r: Option<usize>)
        requires
            self.wf(),
        ensures
            match r {
                Some(p) => p < self@.len() && self@[p as int].id == id,
                None => !chats_contain(self@, id),
            },
    {
        let r = index_get(&self.index, id);
        proof {
            if r is None {
                assert forall|i: int| 0 <= i < self@.len() implies self@[i].id != id by {
                    assert(self@[i] == self.items@[i]@);
                }
            } else {
                let p = r->Some_0;
                assert(self@[p as int] == self.items@[p as int]@);
            }
        }
        r
    }

    /// The chat with id `id`, or `None` when never observed.
    pub fn get_or_none(&self, id: i64) -> (r: Option<&Chat>)
        requires
            self.wf(),
        ensures
            match r {
                Some(c) => chats_contain(self@, id) && c@.id == id && c@ == self@[chat_pos(
                    self@,
                    id,
                )] && c.wf(),
                None => !chats_contain(self@, id),
            },
    {
        match self.position_of(id) {
            Some(p) => {
                let c = &self.items[p];
                proof {
                    assert(c@ == self@[p as int]);
                    self.lemma_pin(p, id);
                }
                Some(c)
            }
            None => None,
        }
    }

    /// The chat with id `id`, which the caller proves has been
    /// observed: the statically checked form of the feed's
    /// delivery-order guarantee, in place of a runtime assertion.
    pub fn get(&self, id: i64) -> (r: &Chat)
        requires
            self.wf(),
            chats_contain(self@, id),
        ensures
            r@.id == id,
            r@ == self@[chat_pos(self@, id)],
            r.wf(),
    {
        match self.get_or_none(id) {
            Some(c) => c,
            None => vstd::pervasive::unreached(),
        }
    }

    /// Resolves a bare chat id from the feed into a live reference; a
    /// violation of the feed's delivery-order contract surfaces as the
    /// recoverable error.
    pub fn resolve(&self, chat_id: i64) -> (r: Result<ChatRef, ResolveError>)
        requires
            self.wf(),
        ensures
            match r {
                Ok(cr) => cr.position < self@.len() && self@[cr.position as int].id == chat_id,
                Err(e) => !chats_contain(self@, chat_id) && e == (ResolveError::ChatNotFound {
                    chat_id,
                }),
            },
    {
        match self.position_of(chat_id) {
            Some(p) => Ok(ChatRef { position: p }),
            None => Err(ResolveError::ChatNotFound { chat_id }),
        }
    }

    /// Resolves a raw sender into a live reference: exactly one registry
    /// lookup, total over the union's variants.
    pub fn resolve_sender(&self, raw: &RawMessageSender, users: &UserList) -> (r: Result<
        MessageSender,
        ResolveError,
    >)
        requires
            self.wf(),
            users.wf(),
        ensures
            match r {
                Ok(s) => sender_resolves(*raw, users@, self@, s),
                Err(e) => !sender_resolvable(*raw, users@, self@),
            },
    {
        match raw {
            RawMessageSender::User { user_id } => match users.resolve(*user_id) {
                Ok(user) => Ok(MessageSender::User { user }),
                Err(e) => Err(e),
            },
            RawMessageSender::Chat { chat_id } => match self.resolve(*chat_id) {
                Ok(chat) => Ok(MessageSender::Chat { chat }),
                Err(e) => Err(e),
            },
        }
    }

    /// Resolves a raw forward origin: references become live, scalar
    /// payloads are copied verbatim, total over the union's variants.
    pub fn resolve_origin(&self, raw: &RawForwardOrigin, users: &UserList) -> (r: Result<
        MessageForwardOrigin,
        ResolveError,
    >)
        requires
            self.wf(),
            users.wf(),
        ensures
            match r {
                Ok(o) => origin_resolves(raw@, users@, self@, o@),
                Err(e) => !origin_resolvable(raw@, users@, self@),
            },
    {
        match raw {
            RawForwardOrigin::User { sender_user_id } => match users.resolve(*sender_user_id) {
                Ok(user) => Ok(MessageForwardOrigin::User { user }),
                Err(e) => Err(e),
            },
            RawForwardOrigin::Chat { sender_chat_id } => match self.resolve(*sender_chat_id) {
                Ok(chat) => Ok(MessageForwardOrigin::Chat { chat }),
                Err(e) => Err(e),
            },
            RawForwardOrigin::Channel { chat_id, message_id } => match self.resolve(*chat_id) {
                Ok(chat) => Ok(MessageForwardOrigin::Channel { chat, message_id: *message_id }),
                Err(e) => Err(e),
            },
            RawForwardOrigin::HiddenUser { sender_name } => Ok(
                MessageForwardOrigin::HiddenUser { sender_name: sender_name.clone() },
            ),
            RawForwardOrigin::MessageImport { sender_name } => Ok(
                MessageForwardOrigin::MessageImport { sender_name: sender_name.clone() },
            ),
        }
    }

    /// Resolves a raw message into a live message owned by `owner`:
    /// sender and forward origin become live references, everything else
    /// is copied verbatim.
    pub fn resolve_message(&self, raw: &RawMessage, users: &UserList, owner: ChatRef) -> (r:
        Result<Message, ResolveError>)
        requires
            self.wf(),
            users.wf(),
        ensures
            match r {
                Ok(m) => message_resolves(raw@, users@, self@, owner, m@),
                Err(e) => !message_resolvable(raw@, users@, self@),
            },
    {
        let sender = match self.resolve_sender(&raw.sender, users) {
            Ok(s) => s,
            Err(e) => {
                return Err(e);
            }
        };
        let forward_info = match &raw.forward_info {
            Some(fi) => {
                let origin = match self.resolve_origin(&fi.origin, users) {
                    Ok(o) => o,
                    Err(e) => {
                        return Err(e);
                    }
                };
                Some(MessageForwardInfo { origin, date: fi.date })
            }
            None => None,
        };
        Ok(
            Message::new(
                raw.id,
                sender,
                owner,
                raw.is_outgoing,
                raw.date,
                forward_info,
                raw.content.clone(),
            ),
        )
    }

    /// Routes one update into the chat registry: constructs a chat on
    /// first sight of its defining update, resolves whatever the payload
    /// references, forwards plain values to the owning chat, and reports
    /// exactly what happened. A resolution failure leaves every registry
    /// untouched.
    pub fn handle_update(
        &mut self,
        u: &Update,
        users: &UserList,
        basic_groups: &BasicGroupList,
        supergroups: &SupergroupList,
    ) -> (r: Result<RegistryOutcome<ChatEvent>, ResolveError>)
        requires
            old(self).wf(),
            users.wf(),
            basic_groups.wf(),
            supergroups.wf(),
        ensures
            final(self).wf(),
            chats_step(old(self)@, users@, basic_groups@, supergroups@, *u, final(self)@, r),
    {
        match u {
            Update::NewChat { chat: raw } => {
                match self.position_of(raw.id) {
                    Some(p) => {
                        proof {
                            self.lemma_pin(p, raw.id);
                        }
                        Ok(RegistryOutcome::Updated { position: p, changed: Vec::new() })
                    }
                    None => {
                        let kind = match resolve_chat_kind(
                            &raw.kind,
                            users,
                            basic_groups,
                            supergroups,
                        ) {
                            Ok(k) => k,
                            Err(e) => {
                                return Err(e);
                            }
                        };
                        let c = Chat::from_raw(raw, kind);
                        let pos = self.items.len();
                        self.items.push(c);
                        let _prev = index_insert(&mut self.index, raw.id, pos);
                        proof {
                            self.lemma_insert_wf(*old(self), raw.id, pos);
                            assert(self@ =~= old(self)@.push(chat_from_raw_v(raw@, kind)));
                        }
                        Ok(
                            RegistryOutcome::Inserted {
                                change: ListChange { position: pos, removed: 0, added: 1 },
                            },
                        )
                    }
                }
            }
            Update::ChatTitle { chat_id, .. } => self.forward_simple(*chat_id, u),
            Update::ChatPhoto { chat_id, .. } => self.forward_simple(*chat_id, u),
            Update::ChatNotificationSettings { chat_id, .. } => self.forward_simple(*chat_id, u),
            Update::ChatPosition { chat_id, .. } => self.forward_simple(*chat_id, u),
            Update::ChatUnreadMentionCount { chat_id, .. } => self.forward_simple(*chat_id, u),
            Update::MessageMentionRead { chat_id, .. } => self.forward_simple(*chat_id, u),
            Update::ChatReadInbox { chat_id, .. } => self.forward_simple(*chat_id, u),
            Update::ChatDraftMessage { chat_id, .. } => self.forward_simple(*chat_id, u),
            Update::NewMessage { message } => {
                let cid = message.chat_id;
                match self.position_of(cid) {
                    None => Ok(RegistryOutcome::UnknownId { id: cid }),
                    Some(p) => {
                        proof {
                            self.lemma_pin(p, cid);
                            assert(self@[p as int] == self.items@[p as int]@);
                        }
                        let present = self.items[p].history_contains(message.id);
                        if present {
                            Ok(RegistryOutcome::Updated { position: p, changed: Vec::new() })
                        } else {
                            let m = match self.resolve_message(
                                message,
                                users,
                                ChatRef { position: p },
                            ) {
                                Ok(m) => m,
                                Err(e) => {
                                    return Err(e);
                                }
                            };
                            let ghost mv = m@;
                            let chat = &mut self.items[p];
                            let ghost c0 = chat@;
                            let rc = chat.apply_new_message(m);
                            proof {
                                self.lemma_update_wf(*old(self), p as int);
                                assert(self@ =~= old(self)@.update(
                                    p as int,
                                    ChatV { history: c0.history.push(mv), ..c0 },
                                ));
                            }
                            let mut events: Vec<ChatEvent> = Vec::new();
                            match rc {
                                Some(change) => events.push(ChatEvent::History { change }),
                                None => {
                                    proof {
                                        assert(false);
                                    }
                                }
                            }
                            proof {
                                assert(events@ =~= seq![
                                    ChatEvent::History {
                                        change: ListChange {
                                            position: c0.history.len() as usize,
                                            removed: 0 as usize,
                                            added: 1 as usize,
                                        },
                                    },
                                ]);
                                assert(self@[p as int].history == c0.history.push(mv));
                                assert(materialized_message(self@, p as int, c0) == mv);
                                assert(chat_pos(old(self)@, cid) as usize == p);
                                assert(message_resolves(
                                    message@,
                                    users@,
                                    old(self)@,
                                    ChatRef { position: p },
                                    mv,
                                ));
                            }
                            Ok(RegistryOutcome::Updated { position: p, changed: events })
                        }
                    }
                }
            }
            Update::MessageContent { chat_id, message_id, .. } => {
                match self.position_of(*chat_id) {
                    None => Ok(RegistryOutcome::UnknownId { id: *chat_id }),
                    Some(p) => {
                        proof {
                            self.lemma_pin(p, *chat_id);
                            assert(self@[p as int] == self.items@[p as int]@);
                        }
                        let chat = &mut self.items[p];
                        let ghost c0 = chat@;
                        let events = chat.apply_message_content(*message_id, u);
                        proof {
                            self.lemma_update_wf(*old(self), p as int);
                            assert(self@ =~= old(self)@.update(
                                p as int,
                                ChatV {
                                    history: history_after_content(c0.history, *message_id, *u),
                                    ..c0
                                },
                            ));
                        }
                        Ok(RegistryOutcome::Updated { position: p, changed: events })
                    }
                }
            }
            Update::DeleteMessages { chat_id, message_ids } => {
                match self.position_of(*chat_id) {
                    None => Ok(RegistryOutcome::UnknownId { id: *chat_id }),
                    Some(p) => {
                        proof {
                            self.lemma_pin(p, *chat_id);
                            assert(self@[p as int] == self.items@[p as int]@);
                        }
                        let chat = &mut self.items[p];
                        let ghost c0 = chat@;
                        let events = chat.apply_delete_messages(message_ids);
                        proof {
                            self.lemma_update_wf(*old(self), p as int);
                            assert(self@ =~= old(self)@.update(
                                p as int,
                                ChatV {
                                    history: history_delete_all(c0.history, message_ids@),
                                    ..c0
                                },
                            ));
                        }
                        Ok(RegistryOutcome::Updated { position: p, changed: events })
                    }
                }
            }
            Update::ChatLastMessage { chat_id, last_message, positions } => {
                match self.position_of(*chat_id) {
                    None => Ok(RegistryOutcome::UnknownId { id: *chat_id }),
                    Some(p) => {
                        proof {
                            self.lemma_pin(p, *chat_id);
                            assert(self@[p as int] == self.items@[p as int]@);
                        }
                        match last_message {
                            None => {
                                let chat = &mut self.items[p];
                                let ghost c0 = chat@;
                                let events = chat.apply_last_message(None, None, positions);
                                proof {
                                    self.lemma_update_wf(*old(self), p as int);
                                    assert(self@ =~= old(self)@.update(
                                        p as int,
                                        chat_apply_last_message(c0, None, None, positions@),
                                    ));
                                }
                                Ok(RegistryOutcome::Updated { position: p, changed: events })
                            }
                            Some(raw) => {
                                let present = self.items[p].history_contains(raw.id);
                                if present {
                                    let chat = &mut self.items[p];
                                    let ghost c0 = chat@;
                                    let events = chat.apply_last_message(
                                        Some(raw.id),
                                        None,
                                        positions,
                                    );
                                    proof {
                                        self.lemma_update_wf(*old(self), p as int);
                                        assert(self@ =~= old(self)@.update(
                                            p as int,
                                            chat_apply_last_message(
                                                c0,
                                                Some(raw.id),
                                                None,
                                                positions@,
                                            ),
                                        ));
                                    }
                                    Ok(
                                        RegistryOutcome::Updated {
                                            position: p,
                                            changed: events,
                                        },
                                    )
                                } else {
                                    let m = match self.resolve_message(
                                        raw,
                                        users,
                                        ChatRef { position: p },
                                    ) {
                                        Ok(m) => m,
                                        Err(e) => {
                                            return Err(e);
                                        }
                                    };
                                    let ghost mv = m@;
                                    let chat = &mut self.items[p];
                                    let ghost c0 = chat@;
                                    let events = chat.apply_last_message(
                                        Some(raw.id),
                                        Some(m),
                                        positions,
                                    );
                                    proof {
                                        self.lemma_update_wf(*old(self), p as int);
                                        assert(self@ =~= old(self)@.update(
                                            p as int,
                                            chat_apply_last_message(
                                                c0,
                                                Some(raw.id),
                                                Some(mv),
                                                positions@,
                                            ),
                                        ));
                                        assert(self@[p as int].history == c0.history.push(mv));
                                        assert(materialized_message(self@, p as int, c0) == mv);
                                        assert(chat_pos(old(self)@, *chat_id) as usize == p);
                                        assert(message_resolves(
                                            raw@,
                                            users@,
                                            old(self)@,
                                            ChatRef { position: p },
                                            mv,
                                        ));
                                    }
                                    Ok(
                                        RegistryOutcome::Updated {
                                            position: p,
                                            changed: events,
                                        },
                                    )
                                }
                            }
                        }
                    }
                }
            }
            Update::ChatAction { chat_id, sender_user_id, action } => {
                match self.position_of(*chat_id) {
                    None => Ok(RegistryOutcome::UnknownId { id: *chat_id }),
                    Some(p) => {
                        proof {
                            self.lemma_pin(p, *chat_id);
                            assert(self@[p as int] == self.items@[p as int]@);
                        }
                        let user = match users.resolve(*sender_user_id) {
                            Ok(user) => user,
                            Err(e) => {
                                return Err(e);
                            }
                        };
                        let chat = &mut self.items[p];
                        let ghost c0 = chat@;
                        let events = chat.apply_action(*sender_user_id, user, *action);
                        proof {
                            self.lemma_update_wf(*old(self), p as int);
                            assert(self@ =~= old(self)@.update(
                                p as int,
                                ChatV {
                                    actions: crate::action_list::actions_apply(
                                        c0.actions,
                                        *sender_user_id,
                                        user,
                                        *action,
                                    ),
                                    ..c0
                                },
                            ));
                            users.lemma_unique();
                            assert(users_contain(users@, *sender_user_id)) by {
                                assert(users@[user.position as int].id == *sender_user_id);
                            }
                            assert(users@[crate::user_list::user_pos(
                                users@,
                                *sender_user_id,
                            )].id == *sender_user_id);
                            assert(crate::user_list::user_pos(users@, *sender_user_id)
                                == user.position as int);
                            assert(UserRef {
                                position: crate::user_list::user_pos(
                                    users@,
                                    *sender_user_id,
                                ) as usize,
                            } == user);
                        }
                        Ok(RegistryOutcome::Updated { position: p, changed: events })
                    }
                }
            }
            _ => Ok(RegistryOutcome::Ignored),
        }
    }

    /// Forwards one plain attribute update to the owning chat.
    fn forward_simple(&mut self, chat_id: i64, u: &Update) -> (r: Result<
        RegistryOutcome<ChatEvent>,
        ResolveError,
    >)
        requires
            old(self).wf(),
        ensures
            final(self).wf(),
            chats_step_scoped(old(self)@, chat_id, *u, final(self)@, r),
            chats_contain(old(self)@, chat_id) ==> {
                let p = chat_pos(old(self)@, chat_id);
                &&& final(self)@ == old(self)@.update(p, chat_apply_simple(old(self)@[p], *u))
                &&& r matches Ok(RegistryOutcome::Updated { position, changed }) && position == p
                    && changed@ == chat_changed_simple(old(self)@[p], *u)
            },
    {
        match self.position_of(chat_id) {
            None => Ok(RegistryOutcome::UnknownId { id: chat_id }),
            Some(p) => {
                proof {
                    self.lemma_pin(p, chat_id);
                    assert(self@[p as int] == self.items@[p as int]@);
                }
                let chat = &mut self.items[p];
                let ghost c0 = chat@;
                let events = chat.handle_simple(u);
                proof {
                    self.lemma_update_wf(*old(self), p as int);
                    assert(self@ =~= old(self)@.update(
                        p as int,
                        chat_apply_simple(old(self)@[p as int], *u),
                    ));
                }
                Ok(RegistryOutcome::Updated { position: p, changed: events })
            }
        }
    }

    /// Appending a fresh id and recording its position keeps the
    /// invariant.
    proof fn lemma_insert_wf(&self, prev: ChatList, id: i64, pos: usize)
        requires
            prev.wf(),
            !chats_contain(prev@, id),
            pos == prev.items@.len(),
            self.items@.len() == prev.items@.len() + 1,
            forall|i: int| 0 <= i < prev.items@.len() ==> self.items@[i] == prev.items@[i],
            self.items@[pos as int]@.id == id,
            self.items@[pos as int].wf(),
            index_entries(self.index) == index_entries(prev.index).insert(id, pos),
        ensures
            self.wf(),
    {
        assert forall|i: int| 0 <= i < prev.items@.len() implies prev.items@[i]@.id != id by {
            assert(prev@[i] == prev.items@[i]@);
        }
    }

    /// Replacing the chat at one position with a well-formed chat of the
    /// same id keeps the invariant.
    proof fn lemma_update_wf(&self, prev: ChatList, p: int)
        requires
            prev.wf(),
            0 <= p < prev.items@.len(),
            self.items@.len() == prev.items@.len(),
            forall|i: int|
                0 <= i < prev.items@.len() && i != p ==> self.items@[i] == prev.items@[i],
            self.items@[p]@.id == prev.items@[p]@.id,
            self.items@[p].wf(),
            self.index == prev.index,
        ensures
            self.wf(),
    {
        assert forall|i: int| 0 <= i < self.items@.len() implies {
            &&& index_entries(self.index).contains_key(#[trigger] self.items@[i]@.id)
            &&& index_entries(self.index)[self.items@[i]@.id] == i
        } by {
            assert(prev.items@[i]@.id == self.items@[i]@.id);
        }
        assert forall|k: i64| #[trigger] index_entries(self.index).contains_key(k) implies {
            &&& index_entries(self.index)[k] < self.items@.len()
            &&& self.items@[index_entries(self.index)[k] as int]@.id == k
        } by {
            assert(prev.items@[index_entries(self.index)[k] as int]@.id == k);
        }
    }
}

/// Resolves a raw chat kind into a live one: exactly one registry lookup
/// per variant, total over the union.
pub fn resolve_chat_kind(
    raw: &RawChatKind,
    users: &UserList,
    basic_groups: &BasicGroupList,
    supergroups: &SupergroupList,
) -> (r: Result<ChatKind, ResolveError>)
    requires
        users.wf(),
        basic_groups.wf(),
        supergroups.wf(),
    ensures
        match r {
            Ok(k) => kind_resolves(*raw, users@, basic_groups@, supergroups@, k),
            Err(e) => kind_resolve_err(*raw, users@, basic_groups@, supergroups@, e),
        },
{
    match raw {
        RawChatKind::Private { user_id } => match users.resolve(*user_id) {
            Ok(user) => Ok(ChatKind::Private { user }),
            Err(e) => Err(e),
        },
        RawChatKind::BasicGroup { basic_group_id } => match basic_groups.resolve(
            *basic_group_id,
        ) {
            Ok(basic_group) => Ok(ChatKind::BasicGroup { basic_group }),
            Err(e) => Err(e),
        },
        RawChatKind::Supergroup { supergroup_id } => match supergroups.resolve(*supergroup_id) {
            Ok(supergroup) => Ok(ChatKind::Supergroup { supergroup }),
            Err(e) => Err(e),
        },
        RawChatKind::Secret { secret_chat_id, user_id } => match users.resolve(*user_id) {
            Ok(user) => Ok(ChatKind::Secret { secret_chat_id: *secret_chat_id, user }),
            Err(e) => Err(e),
        },
    }
}

} // verus!
