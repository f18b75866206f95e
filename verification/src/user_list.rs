//! The user registry: an insertion-ordered mapping from user id to user
//! entity, exposed as an indexable, change-notifying collection.
//!
//! Entities are appended on first sight and never removed or reordered,
//! so a position, once handed out, refers to the same entity for the life
//! of the session. Lookup by id goes through the hashed key index.

use vstd::prelude::*;

use crate::key_index::{index_entries, index_get, index_insert, index_new};
use crate::types::{ResolveError, UserRef};
use crate::update::Update;
use crate::user::{user_apply, user_changed, user_from_raw_v, User, UserAttr, UserV};
use crate::{ListChange, RegistryOutcome};

verus! {

/// True when some position of `s` holds a user with id `id`.
pub open spec fn users_contain(s: Seq<UserV>, id: i64) -> bool {
    exists|i: int| 0 <= i < s.len() && s[i].id == id
}

/// The position of the user with id `id`; meaningful when `users_contain`
/// holds and the ids of `s` are unique.
pub open spec fn user_pos(s: Seq<UserV>, id: i64) -> int {
    choose|i: int| 0 <= i < s.len() && s[i].id == id
}

/// True when no two positions of `s` hold the same id.
pub open spec fn users_unique(s: Seq<UserV>) -> bool {
    forall|i: int, j: int| 0 <= i < s.len() && 0 <= j < s.len() && #[trigger] s[i].id == #[trigger] s[j].id
        ==> i == j
}

/// The registry contents after one update: a defining payload for a fresh
/// id appends a new user; one for a known id, and a status update for a
/// known id, are forwarded to the user at its position; everything else
/// leaves the registry untouched.
pub open spec fn users_apply(s: Seq<UserV>, u: Update) -> Seq<UserV> {
    match u {
        Update::User { user } => if users_contain(s, user.id) {
            s.update(user_pos(s, user.id), user_apply(s[user_pos(s, user.id)], u))
        } else {
            s.push(user_from_raw_v(user@))
        },
        Update::UserStatus { user_id, status } => if users_contain(s, user_id) {
            s.update(user_pos(s, user_id), user_apply(s[user_pos(s, user_id)], u))
        } else {
            s
        },
        _ => s,
    }
}

/// The outcome the registry owes for one update, given its prior contents.
pub open spec fn users_outcome_matches(
    s: Seq<UserV>,
    u: Update,
    out: RegistryOutcome<UserAttr>,
) -> bool {
    match u {
        Update::User { user } => if users_contain(s, user.id) {
            out matches RegistryOutcome::Updated { position, changed } && position == user_pos(
                s,
                user.id,
            ) && changed@ == user_changed(s[user_pos(s, user.id)], u)
        } else {
            out matches RegistryOutcome::Inserted { change } && change.position == s.len()
                && change.removed == 0 && change.added == 1
        },
        Update::UserStatus { user_id, status } => if users_contain(s, user_id) {
            out matches RegistryOutcome::Updated { position, changed } && position == user_pos(
                s,
                user_id,
            ) && changed@ == user_changed(s[user_pos(s, user_id)], u)
        } else {
            out matches RegistryOutcome::UnknownId { id } && id == user_id
        },
        _ => out matches RegistryOutcome::Ignored,
    }
}

/// The user registry.
pub struct UserList {
    items: Vec<User>,
    index: indexmap::IndexMap<i64, usize>,
}

impl View for UserList {
    type V = Seq<UserV>;

    closed spec fn view(&self) -> Seq<UserV> {
        self.items@.map_values(|u: User| u@)
    }
}

impl UserList {
    /// The registry invariant: the key index is exactly the id-to-position
    /// mapping of the entity vector.
    pub closed spec fn wf(&self) -> bool {
        &&& forall|i: int|
            0 <= i < self.items@.len() ==> {
                &&& index_entries(self.index).contains_key(#[trigger] self.items@[i]@.id)
                &&& index_entries(self.index)[self.items@[i]@.id] == i
            }
        &&& forall|k: i64|
            #[trigger] index_entries(self.index).contains_key(k) ==> {
                &&& index_entries(self.index)[k] < self.items@.len()
                &&& self.items@[index_entries(self.index)[k] as int]@.id == k
            }
    }

    /// Ids are unique across positions: a consequence of the invariant.
    pub proof fn lemma_unique(&self)
        requires
            self.wf(),
        ensures
            users_unique(self@),
    {
        assert forall|i: int, j: int|
            0 <= i < self@.len() && 0 <= j < self@.len() && #[trigger] self@[i].id
                == #[trigger] self@[j].id implies i == j by {
            assert(self@[i] == self.items@[i]@);
            assert(self@[j] == self.items@[j]@);
        }
    }

    /// Creates an empty registry.
    pub fn new() -> (r: UserList)
        ensures
            r.wf(),
            r@ =~= Seq::<UserV>::empty(),
    {
        UserList { items: Vec::new(), index: index_new() }
    }

    /// The number of users observed so far.
    pub fn n_items(&self) -> (r: usize)
        ensures
            r == self@.len(),
    {
        self.items.len()
    }

    /// The user at `position`, or `None` when the position is out of range.
    pub fn item(&self, position: usize) -> (r: Option<&User>)
        ensures
            match r {
                Some(u) => position < self@.len() && u@ == self@[position as int],
                None => position >= self@.len(),
            },
    {
        if position < self.items.len() {
            Some(&self.items[position])
        } else {
            None
        }
    }

    /// The position holding the user with id `id`, if that id has been
    /// observed.
    pub fn position_of(&self, id: i64) -> (r: Option<usize>)
        requires
            self.wf(),
        ensures
            match r {
                Some(p) => p < self@.len() && self@[p as int].id == id,
                None => !users_contain(self@, id),
            },
    {
        let r = index_get(&self.index, id);
        proof {
            if r is None {
                assert forall|i: int| 0 <= i < self@.len() implies self@[i].id != id by {
                    assert(self@[i] == self.items@[i]@);
                }
            } else {
                let p = r->Some_0;
                assert(self@[p as int] == self.items@[p as int]@);
            }
        }
        r
    }

    /// The user with id `id`, or `None` when that id has never been
    /// observed.
    pub fn get_or_none(&self, id: i64) -> (r: Option<&User>)
        requires
            self.wf(),
        ensures
            match r {
                Some(u) => users_contain(self@, id) && u@.id == id && u@ == self@[user_pos(
                    self@,
                    id,
                )],
                None => !users_contain(self@, id),
            },
    {
        match self.position_of(id) {
            Some(p) => {
                let u = &self.items[p];
                proof {
                    assert(u@ == self@[p as int]);
                    self.lemma_unique();
                    assert(self@[user_pos(self@, id)].id == id);
                    assert(user_pos(self@, id) == p as int);
                }
                Some(u)
            }
            None => None,
        }
    }

    /// The user with id `id`, which the caller proves has been
    /// observed: the statically checked form of the feed's
    /// delivery-order guarantee, in place of a runtime assertion.
    pub fn get(&self, id: i64) -> (r: &User)
        requires
            self.wf(),
            users_contain(self@, id),
        ensures
            r@.id == id,
            r@ == self@[user_pos(self@, id)],
    {
        match self.get_or_none(id) {
            Some(g) => g,
            None => vstd::pervasive::unreached(),
        }
    }

    /// Resolves a bare user id from the feed into a live reference.
    /// The feed delivers an entity's defining update before any update
    /// that cross-references its id, so under correct delivery this always
    /// succeeds; a violation surfaces as the recoverable error.
    pub fn resolve(&self, user_id: i64) -> (r: Result<UserRef, ResolveError>)
        requires
            self.wf(),
        ensures
            match r {
                Ok(ur) => ur.position < self@.len() && self@[ur.position as int].id == user_id,
                Err(e) => !users_contain(self@, user_id) && e == (ResolveError::UserNotFound {
                    user_id,
                }),
            },
    {
        match self.position_of(user_id) {
            Some(p) => Ok(UserRef { position: p }),
            None => Err(ResolveError::UserNotFound { user_id }),
        }
    }

    /// Routes one update into the registry: constructs the user on its
    /// defining update's first sight, forwards to the existing user
    /// otherwise, and reports exactly what happened.
    pub fn handle_update(&mut self, u: &Update) -> (out: RegistryOutcome<UserAttr>)
        requires
            old(self).wf(),
        ensures
            final(self).wf(),
            final(self)@ == users_apply(old(self)@, *u),
            users_outcome_matches(old(self)@, *u, out),
    {
        match u {
            Update::User { user } => {
                let id = user.id;
                match self.position_of(id) {
                    Some(p) => {
                        proof {
                            self.lemma_unique();
                            assert(users_contain(self@, id)) by {
                                assert(self@[p as int].id == id);
                            }
                            assert(self@[user_pos(self@, id)].id == id);
                            assert(user_pos(self@, id) == p as int);
                        }
                        self.forward(p, u, Ghost(id))
                    }
                    None => {
                        let entity = User::from_raw(user);
                        let pos = self.items.len();
                        self.items.push(entity);
                        let _prev = index_insert(&mut self.index, id, pos);
                        proof {
                            self.lemma_insert_wf(*old(self), id, pos);
                            assert(self@ =~= old(self)@.push(user_from_raw_v(user@)));
                        }
                        RegistryOutcome::Inserted {
                            change: ListChange { position: pos, removed: 0, added: 1 },
                        }
                    }
                }
            }
            Update::UserStatus { user_id, status } => {
                let id = *user_id;
                match self.position_of(id) {
                    Some(p) => {
                        proof {
                            self.lemma_unique();
                            assert(users_contain(self@, id)) by {
                                assert(self@[p as int].id == id);
                            }
                            assert(self@[user_pos(self@, id)].id == id);
                            assert(user_pos(self@, id) == p as int);
                        }
                        self.forward(p, u, Ghost(id))
                    }
                    None => RegistryOutcome::UnknownId { id },
                }
            }
            _ => RegistryOutcome::Ignored,
        }
    }

    /// Forwards an update to the existing user at `p` and wraps its
    /// attribute notifications.
    fn forward(&mut self, p: usize, u: &Update, id: Ghost<i64>) -> (out: RegistryOutcome<UserAttr>)
        requires
            old(self).wf(),
            p < old(self)@.len(),
            old(self)@[p as int].id == id@,
            user_apply(old(self)@[p as int], *u).id == id@,
        ensures
            final(self).wf(),
            final(self)@ == old(self)@.update(p as int, user_apply(old(self)@[p as int], *u)),
            out matches RegistryOutcome::Updated { position, changed } && position == p && changed@
                == user_changed(old(self)@[p as int], *u),
    {
        proof {
            assert(old(self)@[p as int] == old(self).items@[p as int]@);
        }
        let entity = &mut self.items[p];
        let changed = entity.handle_update(u);
        proof {
            assert(self@ =~= old(self)@.update(
                p as int,
                user_apply(old(self)@[p as int], *u),
            ));
            assert forall|i: int| 0 <= i < self.items@.len() implies {
                &&& index_entries(self.index).contains_key(#[trigger] self.items@[i]@.id)
                &&& index_entries(self.index)[self.items@[i]@.id] == i
            } by {
                assert(old(self).items@[i]@.id == self.items@[i]@.id);
            }
            assert forall|k: i64| #[trigger] index_entries(self.index).contains_key(k) implies {
                &&& index_entries(self.index)[k] < self.items@.len()
                &&& self.items@[index_entries(self.index)[k] as int]@.id == k
            } by {
                assert(old(self).items@[index_entries(self.index)[k] as int]@.id == k);
            }
        }
        RegistryOutcome::Updated { position: p, changed }
    }

    /// Appending a fresh id and recording its position keeps the
    /// invariant.
    proof fn lemma_insert_wf(&self, prev: UserList, id: i64, pos: usize)
        requires
            prev.wf(),
            !users_contain(prev@, id),
            pos == prev.items@.len(),
            self.items@.len() == prev.items@.len() + 1,
            forall|i: int| 0 <= i < prev.items@.len() ==> self.items@[i] == prev.items@[i],
            self.items@[pos as int]@.id == id,
            index_entries(self.index) == index_entries(prev.index).insert(id, pos),
        ensures
            self.wf(),
    {
        assert forall|i: int| 0 <= i < prev.items@.len() implies prev.items@[i]@.id != id by {
            assert(prev@[i] == prev.items@[i]@);
        }
    }
}

} // verus!
