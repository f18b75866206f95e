//! The per-chat action list: the transient "user is doing X" entries.
//!
//! Entries are keyed by the acting user: a repeated action from the same
//! user replaces the entry rather than accumulating, and a cancelling
//! action removes it. Positional notifications are emitted on membership
//! change only — never on a repeat, and never on a replacement that keeps
//! the same member.

use vstd::prelude::*;

use crate::types::{ChatActionKind, UserRef};
use crate::ListChange;

verus! {

/// One live activity entry: the acting user and what it is doing.
#[derive(Clone, Copy, Debug, PartialEq, Eq, Structural)]
pub struct ActionEntry {
    pub user_id: i64,
    pub user: UserRef,
    pub action: ChatActionKind,
}

/// True when some position of `s` holds an entry of the acting user.
pub open spec fn actions_contain(s: Seq<ActionEntry>, user_id: i64) -> bool {
    exists|i: int| 0 <= i < s.len() && s[i].user_id == user_id
}

/// The position of the acting user's entry; meaningful when
/// `actions_contain` holds and the acting users of `s` are unique.
pub open spec fn action_pos(s: Seq<ActionEntry>, user_id: i64) -> int {
    choose|i: int| 0 <= i < s.len() && s[i].user_id == user_id
}

/// True when no two positions of `s` hold the same acting user.
pub open spec fn actions_unique(s: Seq<ActionEntry>) -> bool {
    forall|i: int, j: int|
        0 <= i < s.len() && 0 <= j < s.len() && #[trigger] s[i].user_id == #[trigger] s[j].user_id
            ==> i == j
}

/// The list contents after one action update of `user_id`.
pub open spec fn actions_apply(
    s: Seq<ActionEntry>,
    user_id: i64,
    user: UserRef,
    action: ChatActionKind,
) -> Seq<ActionEntry> {
    if action == ChatActionKind::Cancel {
        if actions_contain(s, user_id) {
            s.remove(action_pos(s, user_id))
        } else {
            s
        }
    } else {
        if actions_contain(s, user_id) {
            s.update(action_pos(s, user_id), ActionEntry { user_id, user, action })
        } else {
            s.push(ActionEntry { user_id, user, action })
        }
    }
}

/// The positional notification one action update of `user_id` owes:
/// `Some` exactly on membership change.
pub open spec fn actions_change(
    s: Seq<ActionEntry>,
    user_id: i64,
    action: ChatActionKind,
) -> Option<ListChange> {
    if action == ChatActionKind::Cancel {
        if actions_contain(s, user_id) {
            Some(
                ListChange {
                    position: action_pos(s, user_id) as usize,
                    removed: 1 as usize,
                    added: 0 as usize,
                },
            )
        } else {
            None
        }
    } else {
        if actions_contain(s, user_id) {
            None
        } else {
            Some(ListChange { position: s.len() as usize, removed: 0 as usize, added: 1 as usize })
        }
    }
}

/// A chat's action list.
pub struct ActionList {
    entries: Vec<ActionEntry>,
}

impl View for ActionList {
    type V = Seq<ActionEntry>;

    closed spec fn view(&self) -> Seq<ActionEntry> {
        self.entries@
    }
}

impl ActionList {
    /// The list invariant: one entry per acting user.
    pub closed spec fn wf(&self) -> bool {
        actions_unique(self.entries@)
    }

    /// Creates an empty action list.
    pub fn new() -> (r: ActionList)
        ensures
            r.wf(),
            r@ =~= Seq::<ActionEntry>::empty(),
    {
        ActionList { entries: Vec::new() }
    }

    /// The number of live entries.
    pub fn n_items(&self) -> (r: usize)
        ensures
            r == self@.len(),
    {
        self.entries.len()
    }

    /// The entry at `position`, or `None` when out of range.
    pub fn item(&self, position: usize) -> (r: Option<ActionEntry>)
        ensures
            match r {
                Some(e) => position < self@.len() && e == self@[position as int],
                None => position >= self@.len(),
            },
    {
        if position < self.entries.len() {
            Some(self.entries[position])
        } else {
            None
        }
    }

    /// The position of the acting user's entry, if it has one.
    fn find(&self, user_id: i64) -> (r: Option<usize>)
        ensures
            match r {
                Some(p) => p < self@.len() && self@[p as int].user_id == user_id,
                None => !actions_contain(self@, user_id),
            },
    {
        let mut i: usize = 0;
        while i < self.entries.len()
            invariant
                i <= self.entries@.len(),
                forall|j: int| 0 <= j < i ==> self.entries@[j].user_id != user_id,
            decreases self.entries@.len() - i,
        {
            if self.entries[i].user_id == user_id {
                return Some(i);
            }
            i = i + 1;
        }
        None
    }

    /// Replaces, inserts or removes the acting user's entry for one
    /// action update, and returns the positional notification owed:
    /// `Some` exactly on membership change.
    pub fn handle_action(&mut self, user_id: i64, user: UserRef, action: ChatActionKind) -> (r:
        Option<ListChange>)
        requires
            old(self).wf(),
        ensures
            final(self).wf(),
            final(self)@ == actions_apply(old(self)@, user_id, user, action),
            r == actions_change(old(self)@, user_id, action),
    {
        let found = self.find(user_id);
        proof {
            if found is Some {
                let p = found->Some_0;
                assert(actions_contain(self@, user_id)) by {
                    assert(self@[p as int].user_id == user_id);
                }
                assert(self@[action_pos(self@, user_id)].user_id == user_id);
                assert(action_pos(self@, user_id) == p as int);
            }
        }
        match (found, action) {
            (Some(p), ChatActionKind::Cancel) => {
                self.entries.remove(p);
                proof {
                    assert forall|a: int, b: int|
                        0 <= a < self.entries@.len() && 0 <= b < self.entries@.len()
                            && #[trigger] self.entries@[a].user_id
                            == #[trigger] self.entries@[b].user_id implies a == b by {
                        let oa: int = if a < p { a } else { a + 1 };
                        let ob: int = if b < p { b } else { b + 1 };
                        assert(self.entries@[a] == old(self)@[oa]);
                        assert(self.entries@[b] == old(self)@[ob]);
                    }
                }
                Some(ListChange { position: p, removed: 1, added: 0 })
            }
            (None, ChatActionKind::Cancel) => None,
            (Some(p), _) => {
                let slot = &mut self.entries[p];
                *slot = ActionEntry { user_id, user, action };
                None
            }
            (None, _) => {
                let pos = self.entries.len();
                self.entries.push(ActionEntry { user_id, user, action });
                Some(ListChange { position: pos, removed: 0, added: 1 })
            }
        }
    }
}

} // verus!
