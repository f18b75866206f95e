//! Laws of the mirror, stated and proved once for all inputs.
//!
//! Each proof function here records a guarantee the engine's contracts
//! add up to: references resolve or fail before anything changes, repeat
//! deliveries are silent, notifications name exactly the attributes that
//! genuinely changed, and deletion never corrupts the lookups of what
//! remains.

use vstd::prelude::*;

use crate::action_list::{action_pos, actions_apply, actions_change, actions_contain, actions_unique, ActionEntry};
use crate::basic_group::{basic_group_apply, basic_group_changed, BasicGroupV};
use crate::basic_group_list::basic_groups_contain;
use crate::chat::{chat_apply_simple, chat_changed_simple, history_delete_one, ChatV};
use crate::chat_list::{chats_contain, kind_resolve_err, kind_resolves};
use crate::history::{message_pos, messages_contain, messages_unique};
use crate::message::{message_apply, message_changed, MessageV};
use crate::session::{session_step, SessionOutcome, SessionV};
use crate::supergroup::{supergroup_apply, supergroup_changed, SupergroupV};
use crate::supergroup_list::supergroups_contain;
use crate::types::{ChatActionKind, ResolveError, UserRef, UserStatus};
use crate::update::{RawChat, RawChatKind, RawUser, Update};
use crate::user::{user_apply, user_changed, UserAttr, UserV};
use crate::user_list::users_contain;
use crate::RegistryOutcome;

verus! {

/// A defining chat payload that cross-references an id no registry has
/// seen cannot be applied: the session answers the recoverable error
/// naming the missing entity, and nothing anywhere changes. Under the
/// feed's delivery-order guarantee this is unreachable; the relaxed,
/// recoverable surface stands in for the contract check.
pub proof fn law_unresolved_cross_reference(
    pre: SessionV,
    chat: RawChat,
    post: SessionV,
    r: Result<SessionOutcome, ResolveError>,
)
    requires
        session_step(pre, Update::NewChat { chat }, post, r),
        !chats_contain(pre.chats, chat.id),
        match chat.kind {
            RawChatKind::Private { user_id } => !users_contain(pre.users, user_id),
            RawChatKind::BasicGroup { basic_group_id } => !basic_groups_contain(
                pre.basic_groups,
                basic_group_id,
            ),
            RawChatKind::Supergroup { supergroup_id } => !supergroups_contain(
                pre.supergroups,
                supergroup_id,
            ),
            RawChatKind::Secret { secret_chat_id, user_id } => !users_contain(
                pre.users,
                user_id,
            ),
        },
    ensures
        post == pre,
        r matches Err(e) && kind_resolve_err(
            chat.kind,
            pre.users,
            pre.basic_groups,
            pre.supergroups,
            e,
        ),
{
    match r {
        Ok(out) => {
            let k = post.chats[pre.chats.len() as int].kind;
            assert(kind_resolves(chat.kind, pre.users, pre.basic_groups, pre.supergroups, k));
            match chat.kind {
                RawChatKind::Private { user_id } => {
                    let user = k->Private_user;
                    assert(pre.users[user.position as int].id == user_id);
                    assert(users_contain(pre.users, user_id));
                }
                RawChatKind::BasicGroup { basic_group_id } => {
                    let g = k->BasicGroup_basic_group;
                    assert(pre.basic_groups[g.position as int].id == basic_group_id);
                    assert(basic_groups_contain(pre.basic_groups, basic_group_id));
                }
                RawChatKind::Supergroup { supergroup_id } => {
                    let g = k->Supergroup_supergroup;
                    assert(pre.supergroups[g.position as int].id == supergroup_id);
                    assert(supergroups_contain(pre.supergroups, supergroup_id));
                }
                RawChatKind::Secret { secret_chat_id, user_id } => {
                    let user = k->Secret_user;
                    assert(pre.users[user.position as int].id == user_id);
                    assert(users_contain(pre.users, user_id));
                }
            }
            assert(false);
        }
        Err(e) => {
            assert(post.chats == pre.chats);
        }
    }
}

/// Applying the identical update a second time to a user notifies
/// nothing: every attribute already holds the delivered value.
pub proof fn law_user_repeat_silent(s: UserV, u: Update)
    ensures
        user_changed(user_apply(s, u), u) =~= Seq::<UserAttr>::empty(),
{
}

/// Applying the identical update a second time to a basic group
/// notifies nothing.
pub proof fn law_basic_group_repeat_silent(s: BasicGroupV, u: Update)
    ensures
        basic_group_changed(basic_group_apply(s, u), u) =~= Seq::<
            crate::basic_group::BasicGroupAttr,
        >::empty(),
{
}

/// Applying the identical update a second time to a supergroup notifies
/// nothing.
pub proof fn law_supergroup_repeat_silent(s: SupergroupV, u: Update)
    ensures
        supergroup_changed(supergroup_apply(s, u), u) =~= Seq::<
            crate::supergroup::SupergroupAttr,
        >::empty(),
{
}

/// Applying the identical update a second time to a message notifies
/// nothing.
pub proof fn law_message_repeat_silent(s: MessageV, u: Update)
    ensures
        message_changed(message_apply(s, u), u) =~= Seq::<crate::message::MessageAttr>::empty(),
{
}

/// Applying the identical plain attribute update a second time to a
/// chat notifies nothing.
pub proof fn law_chat_repeat_silent(s: ChatV, u: Update)
    ensures
        chat_changed_simple(chat_apply_simple(s, u), u) =~= Seq::<
            crate::chat::ChatEvent,
        >::empty(),
{
}

/// Repeating an action update of the same user emits no positional
/// notification: membership no longer changes.
pub proof fn law_action_repeat_silent(
    s: Seq<ActionEntry>,
    user_id: i64,
    user: UserRef,
    action: ChatActionKind,
)
    requires
        actions_unique(s),
    ensures
        actions_change(actions_apply(s, user_id, user, action), user_id, action) is None,
{
    let s1 = actions_apply(s, user_id, user, action);
    if action == ChatActionKind::Cancel {
        if actions_contain(s, user_id) {
            let p = action_pos(s, user_id);
            assert(0 <= p < s.len() && s[p].user_id == user_id);
            assert forall|j: int| 0 <= j < s1.len() implies s1[j].user_id != user_id by {
                let oj: int = if j < p {
                    j
                } else {
                    j + 1
                };
                assert(s1[j] == s[oj]);
            }
        }
    } else {
        assert(actions_contain(s1, user_id)) by {
            if actions_contain(s, user_id) {
                let p = action_pos(s, user_id);
                assert(s1[p].user_id == user_id);
            } else {
                assert(s1[s.len() as int].user_id == user_id);
            }
        }
    }
}

/// Delivering the identical defining user payload twice: the second
/// delivery finds the entity in place, changes no stored value, and
/// notifies nothing — the registry answers it with an update of zero
/// attributes.
pub proof fn law_session_user_update_idempotent(
    pre: SessionV,
    user: RawUser,
    mid: SessionV,
    post: SessionV,
    r1: Result<SessionOutcome, ResolveError>,
    r2: Result<SessionOutcome, ResolveError>,
)
    requires
        crate::user_list::users_unique(pre.users),
        session_step(pre, Update::User { user }, mid, r1),
        session_step(mid, Update::User { user }, post, r2),
    ensures
        post.users =~= mid.users,
        r2 matches Ok(SessionOutcome::Users(out)) && out matches RegistryOutcome::Updated {
            position,
            changed,
        } && changed@ =~= Seq::<UserAttr>::empty(),
{
    let u = Update::User { user };
    let id = user.id;
    let s0 = pre.users;
    let s1 = mid.users;
    if users_contain(s0, id) {
        let p = crate::user_list::user_pos(s0, id);
        assert(0 <= p < s0.len() && s0[p].id == id);
        assert(s1 == s0.update(p, user_apply(s0[p], u)));
        assert(users_contain(s1, id)) by {
            assert(s1[p].id == id);
        }
        assert forall|i: int, j: int|
            0 <= i < s1.len() && 0 <= j < s1.len() && #[trigger] s1[i].id == #[trigger] s1[j].id
            implies i == j by {
            assert(s1[i].id == s0[i].id);
            assert(s1[j].id == s0[j].id);
        }
        assert(s1[crate::user_list::user_pos(s1, id)].id == id);
        assert(crate::user_list::user_pos(s1, id) == p);
        law_user_repeat_silent(s0[p], u);
        assert(post.users =~= s1) by {
            assert(post.users == s1.update(p, user_apply(s1[p], u)));
            assert(user_apply(s1[p], u) == s1[p]);
        }
    } else {
        let p = s0.len() as int;
        assert(s1 == s0.push(crate::user::user_from_raw_v(user@)));
        assert(users_contain(s1, id)) by {
            assert(s1[p].id == id);
        }
        assert forall|i: int, j: int|
            0 <= i < s1.len() && 0 <= j < s1.len() && #[trigger] s1[i].id == #[trigger] s1[j].id
            implies i == j by {
            if i < p && j == p {
                assert(s0[i].id == id);
            }
            if j < p && i == p {
                assert(s0[j].id == id);
            }
        }
        assert(s1[crate::user_list::user_pos(s1, id)].id == id);
        assert(crate::user_list::user_pos(s1, id) == p);
        assert(user_changed(s1[p], u) =~= Seq::<UserAttr>::empty());
        assert(post.users =~= s1) by {
            assert(post.users == s1.update(p, user_apply(s1[p], u)));
            assert(user_apply(s1[p], u) == s1[p]);
        }
    }
}

/// A user status update notifies exactly once when the delivered value
/// differs from the stored one, and not at all when it is the same.
pub proof fn law_user_status_notification(s: UserV, user_id: i64, status: UserStatus)
    ensures
        s.status != status ==> user_changed(s, Update::UserStatus { user_id, status }) =~= seq![
            UserAttr::Status,
        ],
        s.status == status ==> user_changed(s, Update::UserStatus { user_id, status }) =~= Seq::<
            UserAttr,
        >::empty(),
        user_apply(s, Update::UserStatus { user_id, status }) == (UserV { status, ..s }),
{
}

/// Whether applying `u` to `s` genuinely changes the attribute `a`.
pub open spec fn attr_differs(s: UserV, u: Update, a: UserAttr) -> bool {
    match a {
        UserAttr::FirstName => user_apply(s, u).first_name != s.first_name,
        UserAttr::LastName => user_apply(s, u).last_name != s.last_name,
        UserAttr::Username => user_apply(s, u).username != s.username,
        UserAttr::PhoneNumber => user_apply(s, u).phone_number != s.phone_number,
        UserAttr::Status => user_apply(s, u).status != s.status,
        UserAttr::Avatar => user_apply(s, u).avatar != s.avatar,
        UserAttr::Kind => user_apply(s, u).kind != s.kind,
    }
}

/// Attribute-level isolation: a user update notifies an attribute
/// exactly when that attribute's stored value genuinely changes, and
/// never another — observers of an untouched attribute never hear from
/// it. The id never changes.
pub proof fn law_user_attribute_isolation(s: UserV, u: Update)
    ensures
        forall|a: UserAttr| user_changed(s, u).contains(a) <==> #[trigger] attr_differs(s, u, a),
        user_apply(s, u).id == s.id,
{
    let c = user_changed(s, u);
    match u {
        Update::User { user } => {
            lemma_user_full_iff(s, user);
        }
        Update::UserStatus { user_id, status } => {
            assert forall|a: UserAttr| c.contains(a) implies attr_differs(s, u, a) by {
                let i = choose|i: int| 0 <= i < c.len() && c[i] == a;
            }
            assert forall|a: UserAttr| #[trigger] attr_differs(s, u, a) implies c.contains(
                a,
            ) by {
                assert(s.status != status);
                assert(a == UserAttr::Status);
                assert(c[0] == a);
            }
        }
        _ => {
            assert forall|a: UserAttr| c.contains(a) implies attr_differs(s, u, a) by {
                let i = choose|i: int| 0 <= i < c.len() && c[i] == a;
            }
        }
    }
}

/// Both directions of the isolation law for a full user payload.
#[verifier::rlimit(100)]
proof fn lemma_user_full_iff(s: UserV, user: RawUser)
    ensures
        forall|a: UserAttr|
            user_changed(s, Update::User { user }).contains(a) <==> #[trigger] attr_differs(
                s,
                Update::User { user },
                a,
            ),
{
    let u = Update::User { user };
    let c = user_changed(s, u);
    let c1: Seq<UserAttr> = if s.first_name != user.first_name@ {
        seq![UserAttr::FirstName]
    } else {
        seq![]
    };
    let c2: Seq<UserAttr> = if s.last_name != user.last_name@ {
        seq![UserAttr::LastName]
    } else {
        seq![]
    };
    let c3: Seq<UserAttr> = if s.username != user.username@ {
        seq![UserAttr::Username]
    } else {
        seq![]
    };
    let c4: Seq<UserAttr> = if s.phone_number != user.phone_number@ {
        seq![UserAttr::PhoneNumber]
    } else {
        seq![]
    };
    let c5: Seq<UserAttr> = if s.status != user.status {
        seq![UserAttr::Status]
    } else {
        seq![]
    };
    let c6: Seq<UserAttr> = if s.avatar != user.profile_photo {
        seq![UserAttr::Avatar]
    } else {
        seq![]
    };
    let c7: Seq<UserAttr> = if s.kind != user.kind {
        seq![UserAttr::Kind]
    } else {
        seq![]
    };
    assert(c == c1 + c2 + c3 + c4 + c5 + c6 + c7);
    assert forall|a: UserAttr| c.contains(a) implies attr_differs(s, u, a) by {
        let i = choose|i: int| 0 <= i < c.len() && c[i] == a;
        assert(c[i] == a);
    }
    assert forall|a: UserAttr| #[trigger] attr_differs(s, u, a) implies c.contains(a) by {
        match a {
            UserAttr::FirstName => {
                assert(c[0] == a);
            }
            UserAttr::LastName => {
                assert(c[c1.len() as int] == a);
            }
            UserAttr::Username => {
                assert(c[(c1 + c2).len() as int] == a);
            }
            UserAttr::PhoneNumber => {
                assert(c[(c1 + c2 + c3).len() as int] == a);
            }
            UserAttr::Status => {
                assert(c[(c1 + c2 + c3 + c4).len() as int] == a);
            }
            UserAttr::Avatar => {
                assert(c[(c1 + c2 + c3 + c4 + c5).len() as int] == a);
            }
            UserAttr::Kind => {
                assert(c[(c1 + c2 + c3 + c4 + c5 + c6).len() as int] == a);
            }
        }
    }
}

/// Whether applying the plain attribute update `u` to `s` genuinely
/// changes the chat attribute `a`. The attributes of the derived views
/// are never touched by a plain attribute update.
pub open spec fn chat_attr_differs(s: ChatV, u: Update, a: crate::chat::ChatAttr) -> bool {
    match a {
        crate::chat::ChatAttr::Title => chat_apply_simple(s, u).title != s.title,
        crate::chat::ChatAttr::Avatar => chat_apply_simple(s, u).avatar != s.avatar,
        crate::chat::ChatAttr::LastMessage => chat_apply_simple(s, u).last_message_id
            != s.last_message_id,
        crate::chat::ChatAttr::Order => chat_apply_simple(s, u).order != s.order,
        crate::chat::ChatAttr::IsPinned => chat_apply_simple(s, u).is_pinned != s.is_pinned,
        crate::chat::ChatAttr::UnreadCount => chat_apply_simple(s, u).unread_count
            != s.unread_count,
        crate::chat::ChatAttr::UnreadMentionCount => chat_apply_simple(s, u).unread_mention_count
            != s.unread_mention_count,
        crate::chat::ChatAttr::NotificationSettings => chat_apply_simple(
            s,
            u,
        ).notification_settings != s.notification_settings,
        crate::chat::ChatAttr::DraftMessage => chat_apply_simple(s, u).draft_message
            != s.draft_message,
        crate::chat::ChatAttr::Actions => chat_apply_simple(s, u).actions != s.actions,
    }
}

/// Attribute-level isolation for chats: a plain attribute update
/// notifies an attribute exactly when its stored value genuinely
/// changes, and never another. The id, the kind and the derived views
/// are untouched.
pub proof fn law_chat_attribute_isolation(s: ChatV, u: Update)
    ensures
        forall|a: crate::chat::ChatAttr|
            chat_changed_simple(s, u).contains(crate::chat::ChatEvent::Changed { attr: a })
                <==> #[trigger] chat_attr_differs(s, u, a),
        chat_apply_simple(s, u).id == s.id,
        chat_apply_simple(s, u).kind == s.kind,
        chat_apply_simple(s, u).history == s.history,
        chat_apply_simple(s, u).actions == s.actions,
{
    let c = chat_changed_simple(s, u);
    match u {
        Update::ChatPosition { chat_id, position } => {
            assert forall|a: crate::chat::ChatAttr|
                c.contains(crate::chat::ChatEvent::Changed { attr: a }) implies chat_attr_differs(
                s,
                u,
                a,
            ) by {
                let i = choose|i: int|
                    0 <= i < c.len() && c[i] == (crate::chat::ChatEvent::Changed { attr: a });
            }
            assert forall|a: crate::chat::ChatAttr| #[trigger]
                chat_attr_differs(s, u, a) implies c.contains(
                crate::chat::ChatEvent::Changed { attr: a },
            ) by {
                if a == crate::chat::ChatAttr::Order {
                    assert(c[0] == (crate::chat::ChatEvent::Changed { attr: a }));
                }
                if a == crate::chat::ChatAttr::IsPinned {
                    let pre: Seq<crate::chat::ChatEvent> = if s.order != position.order {
                        seq![crate::chat::ChatEvent::Changed { attr: crate::chat::ChatAttr::Order }]
                    } else {
                        seq![]
                    };
                    assert(c[pre.len() as int] == (crate::chat::ChatEvent::Changed { attr: a }));
                }
            }
        }
        _ => {
            assert forall|a: crate::chat::ChatAttr|
                c.contains(crate::chat::ChatEvent::Changed { attr: a }) implies chat_attr_differs(
                s,
                u,
                a,
            ) by {
                let i = choose|i: int|
                    0 <= i < c.len() && c[i] == (crate::chat::ChatEvent::Changed { attr: a });
            }
            assert forall|a: crate::chat::ChatAttr| #[trigger]
                chat_attr_differs(s, u, a) implies c.contains(
                crate::chat::ChatEvent::Changed { attr: a },
            ) by {
                assert(c[0] == (crate::chat::ChatEvent::Changed { attr: a }));
            }
        }
    }
}

/// A registry position, once handed out, refers to the same entity
/// forever: no update removes or reorders users, it can only append or
/// mutate in place.
pub proof fn law_user_positions_stable(s: Seq<UserV>, u: Update)
    ensures
        crate::user_list::users_apply(s, u).len() >= s.len(),
        forall|i: int|
            0 <= i < s.len() ==> #[trigger] crate::user_list::users_apply(s, u)[i].id == s[i].id,
{
}

/// The same stability for chats, across one whole session step: every
/// chat keeps its position and its id, whatever the update did.
pub proof fn law_chat_positions_stable(
    pre: SessionV,
    u: Update,
    post: SessionV,
    r: Result<SessionOutcome, ResolveError>,
)
    requires
        session_step(pre, u, post, r),
    ensures
        post.chats.len() >= pre.chats.len(),
        forall|i: int| 0 <= i < pre.chats.len() ==> #[trigger] post.chats[i].id == pre.chats[i].id,
{
}

/// Deleting one message id leaves the removed id absent and every other
/// id present exactly as before, holding the same message: the deletion
/// corrupts no other lookup.
pub proof fn law_history_deletion(h: Seq<MessageV>, id: i64)
    requires
        messages_unique(h),
    ensures
        !messages_contain(history_delete_one(h, id), id),
        forall|k: i64|
            k != id ==> (#[trigger] messages_contain(history_delete_one(h, id), k)
                <==> messages_contain(h, k)),
        forall|k: i64|
            k != id && #[trigger] messages_contain(h, k) ==> history_delete_one(h, id)[
                message_pos(history_delete_one(h, id), k)] == h[message_pos(h, k)],
{
    let h1 = history_delete_one(h, id);
    if messages_contain(h, id) {
        let p = message_pos(h, id);
        assert(0 <= p < h.len() && h[p].id == id);
        assert forall|j: int| 0 <= j < h1.len() implies h1[j].id != id by {
            let oj: int = if j < p {
                j
            } else {
                j + 1
            };
            assert(h1[j] == h[oj]);
        }
        assert forall|k: i64|
            k != id && #[trigger] messages_contain(h, k) implies messages_contain(h1, k) && h1[
            message_pos(h1, k)] == h[message_pos(h, k)] by {
            let q = message_pos(h, k);
            assert(0 <= q < h.len() && h[q].id == k);
            let nq: int = if q < p {
                q
            } else {
                q - 1
            };
            assert(h1[nq] == h[q]);
            assert(messages_contain(h1, k)) by {
                assert(h1[nq].id == k);
            }
            let r = message_pos(h1, k);
            assert(0 <= r < h1.len() && h1[r].id == k);
            let or: int = if r < p {
                r
            } else {
                r + 1
            };
            assert(h1[r] == h[or]);
            assert(or == q);
        }
        assert forall|k: i64|
            k != id && #[trigger] messages_contain(h1, k) implies messages_contain(h, k) by {
            let q = message_pos(h1, k);
            assert(0 <= q < h1.len() && h1[q].id == k);
            let oq: int = if q < p {
                q
            } else {
                q + 1
            };
            assert(h1[q] == h[oq]);
            assert(messages_contain(h, k)) by {
                assert(h[oq].id == k);
            }
        }
    }
}

} // verus!
