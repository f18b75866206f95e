//! The session: owner of the per-kind registries, and the dispatcher
//! that routes each incoming tagged update to the registry its variant
//! belongs to.
//!
//! Delivery is strictly sequential: one update is routed, applied and
//! answered before the next is looked at, so observers see a total order
//! of notifications consistent with the feed's delivery order.

use vstd::prelude::*;

use crate::basic_group_list::{basic_groups_apply, basic_groups_outcome_matches, BasicGroupList};
use crate::basic_group::{BasicGroupAttr, BasicGroupV};
use crate::chat_list::{chats_step, ChatList};
use crate::chat::{ChatEvent, ChatV};
use crate::supergroup_list::{supergroups_apply, supergroups_outcome_matches, SupergroupList};
use crate::supergroup::{SupergroupAttr, SupergroupV};
use crate::types::{ResolveError, UserRef};
use crate::update::Update;
use crate::user_list::{users_apply, users_outcome_matches, UserList};
use crate::user::{UserAttr, UserV};
use crate::RegistryOutcome;

verus! {

/// What one delivered update did, wrapped by the registry that owned it.
#[derive(Clone, Debug, PartialEq)]
pub enum SessionOutcome {
    Users(RegistryOutcome<UserAttr>),
    BasicGroups(RegistryOutcome<BasicGroupAttr>),
    Supergroups(RegistryOutcome<SupergroupAttr>),
    Chats(RegistryOutcome<ChatEvent>),
}

/// The mathematical state of a session: the contents of its four
/// registries and the owner's reference, once known.
pub ghost struct SessionV {
    pub users: Seq<UserV>,
    pub basic_groups: Seq<BasicGroupV>,
    pub supergroups: Seq<SupergroupV>,
    pub chats: Seq<ChatV>,
    pub me: Option<UserRef>,
}

/// A session: the registries, and the logged-in user once identified.
/// Registries are explicit instances owned here and passed by reference
/// to whatever needs lookup; there is no ambient global state.
pub struct Session {
    users: UserList,
    basic_groups: BasicGroupList,
    supergroups: SupergroupList,
    chats: ChatList,
    me: Option<UserRef>,
}

impl View for Session {
    type V = SessionV;

    closed spec fn view(&self) -> SessionV {
        SessionV {
            users: self.users@,
            basic_groups: self.basic_groups@,
            supergroups: self.supergroups@,
            chats: self.chats@,
            me: self.me,
        }
    }
}

/// How a session answers one update: the variant picks exactly one
/// registry; the others, and the owner's reference, are untouched.
pub open spec fn session_step(
    pre: SessionV,
    u: Update,
    post: SessionV,
    r: Result<SessionOutcome, ResolveError>,
) -> bool {
    match u {
        Update::User { .. } | Update::UserStatus { .. } => {
            &&& post == (SessionV { users: users_apply(pre.users, u), ..pre })
            &&& r matches Ok(SessionOutcome::Users(out)) && users_outcome_matches(
                pre.users,
                u,
                out,
            )
        },
        Update::BasicGroup { .. } => {
            &&& post == (SessionV {
                basic_groups: basic_groups_apply(pre.basic_groups, u),
                ..pre
            })
            &&& r matches Ok(SessionOutcome::BasicGroups(out)) && basic_groups_outcome_matches(
                pre.basic_groups,
                u,
                out,
            )
        },
        Update::Supergroup { .. } => {
            &&& post == (SessionV {
                supergroups: supergroups_apply(pre.supergroups, u),
                ..pre
            })
            &&& r matches Ok(SessionOutcome::Supergroups(out)) && supergroups_outcome_matches(
                pre.supergroups,
                u,
                out,
            )
        },
        _ => {
            &&& post.users == pre.users
            &&& post.basic_groups == pre.basic_groups
            &&& post.supergroups == pre.supergroups
            &&& post.me == pre.me
            &&& match r {
                Ok(out) => out matches SessionOutcome::Chats(cout) && chats_step(
                    pre.chats,
                    pre.users,
                    pre.basic_groups,
                    pre.supergroups,
                    u,
                    post.chats,
                    Ok(cout),
                ),
                Err(e) => chats_step(
                    pre.chats,
                    pre.users,
                    pre.basic_groups,
                    pre.supergroups,
                    u,
                    post.chats,
                    Err(e),
                ),
            }
        },
    }
}

impl Session {
    /// The session invariant: every registry is well formed.
    pub open spec fn wf(&self) -> bool {
        &&& self.spec_users().wf()
        &&& self.spec_basic_groups().wf()
        &&& self.spec_supergroups().wf()
        &&& self.spec_chats().wf()
    }

    /// The user registry behind the view.
    pub closed spec fn spec_users(&self) -> UserList {
        self.users
    }

    /// The basic-group registry behind the view.
    pub closed spec fn spec_basic_groups(&self) -> BasicGroupList {
        self.basic_groups
    }

    /// The supergroup registry behind the view.
    pub closed spec fn spec_supergroups(&self) -> SupergroupList {
        self.supergroups
    }

    /// The chat registry behind the view.
    pub closed spec fn spec_chats(&self) -> ChatList {
        self.chats
    }

    /// Creates a session with empty registries and no owner yet.
    pub fn new() -> (r: Session)
        ensures
            r.wf(),
            r@.users =~= Seq::<UserV>::empty(),
            r@.basic_groups =~= Seq::<BasicGroupV>::empty(),
            r@.supergroups =~= Seq::<SupergroupV>::empty(),
            r@.chats =~= Seq::<ChatV>::empty(),
            r@.me is None,
    {
        Session {
            users: UserList::new(),
            basic_groups: BasicGroupList::new(),
            supergroups: SupergroupList::new(),
            chats: ChatList::new(),
            me: None,
        }
    }

    /// The user registry.
    pub fn users(&self) -> (r: &UserList)
        requires
            self.wf(),
        ensures
            r@ == self@.users,
            r.wf(),
    {
        &self.users
    }

    /// The basic-group registry.
    pub fn basic_groups(&self) -> (r: &BasicGroupList)
        requires
            self.wf(),
        ensures
            r@ == self@.basic_groups,
            r.wf(),
    {
        &self.basic_groups
    }

    /// The supergroup registry.
    pub fn supergroups(&self) -> (r: &SupergroupList)
        requires
            self.wf(),
        ensures
            r@ == self@.supergroups,
            r.wf(),
    {
        &self.supergroups
    }

    /// The chat registry.
    pub fn chats(&self) -> (r: &ChatList)
        requires
            self.wf(),
        ensures
            r@ == self@.chats,
            r.wf(),
    {
        &self.chats
    }

    /// The logged-in user's live reference, once identified.
    pub fn me(&self) -> (r: Option<UserRef>)
        ensures
            r == self@.me,
    {
        self.me
    }

    /// Records which user is the session owner, by id; the user must
    /// already have been defined by the feed.
    pub fn set_me(&mut self, user_id: i64) -> (r: Result<(), ResolveError>)
        requires
            old(self).wf(),
        ensures
            final(self).wf(),
            match r {
                Ok(()) => {
                    &&& final(self)@ == (SessionV { me: final(self)@.me, ..old(self)@ })
                    &&& final(self)@.me matches Some(me) && me.position < old(self)@.users.len()
                        && old(self)@.users[me.position as int].id == user_id
                },
                Err(e) => final(self)@ == old(self)@ && !crate::user_list::users_contain(
                    old(self)@.users,
                    user_id,
                ) && e == (ResolveError::UserNotFound { user_id }),
            },
    {
        match self.users.resolve(user_id) {
            Ok(me) => {
                self.me = Some(me);
                Ok(())
            }
            Err(e) => Err(e),
        }
    }

    /// Routes one tagged update to the registry its variant belongs to,
    /// creating the addressed entity on first sight of its defining
    /// update, and reports exactly what was done. A resolution failure
    /// leaves the whole session untouched.
    pub fn handle_update(&mut self, u: &Update) -> (r: Result<SessionOutcome, ResolveError>)
        requires
            old(self).wf(),
        ensures
            final(self).wf(),
            session_step(old(self)@, *u, final(self)@, r),
    {
        match u {
            Update::User { .. } | Update::UserStatus { .. } => {
                let out = self.users.handle_update(u);
                Ok(SessionOutcome::Users(out))
            }
            Update::BasicGroup { .. } => {
                let out = self.basic_groups.handle_update(u);
                Ok(SessionOutcome::BasicGroups(out))
            }
            Update::Supergroup { .. } => {
                let out = self.supergroups.handle_update(u);
                Ok(SessionOutcome::Supergroups(out))
            }
            _ => {
                match self.chats.handle_update(
                    u,
                    &self.users,
                    &self.basic_groups,
                    &self.supergroups,
                ) {
                    Ok(out) => Ok(SessionOutcome::Chats(out)),
                    Err(e) => Err(e),
                }
            }
        }
    }
}

} // verus!
