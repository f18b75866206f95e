//! The supergroup registry: insertion-ordered, indexable, and
//! change-notifying, with amortized-O(1) lookup by id through the hashed
//! key index.

use vstd::prelude::*;

use crate::supergroup::{
    supergroup_apply, supergroup_changed, supergroup_from_raw_v, Supergroup, SupergroupAttr,
    SupergroupV,
};
use crate::key_index::{index_entries, index_get, index_insert, index_new};
use crate::types::{SupergroupRef, ResolveError};
use crate::update::Update;
use crate::{ListChange, RegistryOutcome};

verus! {

/// True when some position of `s` holds a supergroup with id `id`.
pub open spec fn supergroups_contain(s: Seq<SupergroupV>, id: i64) -> bool {
    exists|i: int| 0 <= i < s.len() && s[i].id == id
}

/// The position of the supergroup with id `id`; meaningful when
/// `supergroups_contain` holds and the ids of `s` are unique.
pub open spec fn supergroup_pos(s: Seq<SupergroupV>, id: i64) -> int {
    choose|i: int| 0 <= i < s.len() && s[i].id == id
}

/// True when no two positions of `s` hold the same id.
pub open spec fn supergroups_unique(s: Seq<SupergroupV>) -> bool {
    forall|i: int, j: int| 0 <= i < s.len() && 0 <= j < s.len() && #[trigger] s[i].id == #[trigger] s[j].id
        ==> i == j
}

/// The registry contents after one update.
pub open spec fn supergroups_apply(s: Seq<SupergroupV>, u: Update) -> Seq<SupergroupV> {
    match u {
        Update::Supergroup { supergroup } => if supergroups_contain(s, supergroup.id) {
            s.update(
                supergroup_pos(s, supergroup.id),
                supergroup_apply(s[supergroup_pos(s, supergroup.id)], u),
            )
        } else {
            s.push(supergroup_from_raw_v(supergroup))
        },
        _ => s,
    }
}

/// The outcome the registry owes for one update, given its prior contents.
pub open spec fn supergroups_outcome_matches(
    s: Seq<SupergroupV>,
    u: Update,
    out: RegistryOutcome<SupergroupAttr>,
) -> bool {
    match u {
        Update::Supergroup { supergroup } => if supergroups_contain(s, supergroup.id) {
            out matches RegistryOutcome::Updated { position, changed } && position
                == supergroup_pos(s, supergroup.id) && changed@ == supergroup_changed(
                s[supergroup_pos(s, supergroup.id)],
                u,
            )
        } else {
            out matches RegistryOutcome::Inserted { change } && change.position == s.len()
                && change.removed == 0 && change.added == 1
        },
        _ => out matches RegistryOutcome::Ignored,
    }
}

/// The supergroup registry.
pub struct SupergroupList {
    items: Vec<Supergroup>,
    index: indexmap::IndexMap<i64, usize>,
}

impl View for SupergroupList {
    type V = Seq<SupergroupV>;

    closed spec fn view(&self) -> Seq<SupergroupV> {
        self.items@.map_values(|g: Supergroup| g@)
    }
}

impl SupergroupList {
    /// The registry invariant: the key index is exactly the id-to-position
    /// mapping of the entity vector.
    pub closed spec fn wf(&self) -> bool {
        &&& forall|i: int|
            0 <= i < self.items@.len() ==> {
                &&& index_entries(self.index).contains_key(#[trigger] self.items@[i]@.id)
                &&& index_entries(self.index)[self.items@[i]@.id] == i
            }
        &&& forall|k: i64|
            #[trigger] index_entries(self.index).contains_key(k) ==> {
                &&& index_entries(self.index)[k] < self.items@.len()
                &&& self.items@[index_entries(self.index)[k] as int]@.id == k
            }
    }

    /// Ids are unique across positions: a consequence of the invariant.
    pub proof fn lemma_unique(&self)
        requires
            self.wf(),
        ensures
            supergroups_unique(self@),
    {
        assert forall|i: int, j: int|
            0 <= i < self@.len() && 0 <= j < self@.len() && #[trigger] self@[i].id
                == #[trigger] self@[j].id implies i == j by {
            assert(self@[i] == self.items@[i]@);
            assert(self@[j] == self.items@[j]@);
        }
    }

    /// Creates an empty registry.
    pub fn new() -> (r: SupergroupList)
        ensures
            r.wf(),
            r@ =~= Seq::<SupergroupV>::empty(),
    {
        SupergroupList { items: Vec::new(), index: index_new() }
    }

    /// The number of supergroups observed so far.
    pub fn n_items(&self) -> (r: usize)
        ensures
            r == self@.len(),
    {
        self.items.len()
    }

    /// The supergroup at `position`, or `None` when out of range.
    pub fn item(&self, position: usize) -> (r: Option<&Supergroup>)
        ensures
            match r {
                Some(g) => position < self@.len() && g@ == self@[position as int],
                None => position >= self@.len(),
            },
    {
        if position < self.items.len() {
            Some(&self.items[position])
        } else {
            None
        }
    }

    /// The position holding the supergroup with id `id`, if observed.
    pub fn position_of(&self, id: i64) -> (r: Option<usize>)
        requires
            self.wf(),
        ensures
            match r {
                Some(p) => p < self@.len() && self@[p as int].id == id,
                None => !supergroups_contain(self@, id),
            },
    {
        let r = index_get(&self.index, id);
        proof {
            if r is None {
                assert forall|i: int| 0 <= i < self@.len() implies self@[i].id != id by {
                    assert(self@[i] == self.items@[i]@);
                }
            } else {
                let p = r->Some_0;
                assert(self@[p as int] == self.items@[p as int]@);
            }
        }
        r
    }

    /// The supergroup with id `id`, or `None` when never observed.
    pub fn get_or_none(&self, id: i64) -> (r: Option<&Supergroup>)
        requires
            self.wf(),
        ensures
            match r {
                Some(g) => supergroups_contain(self@, id) && g@.id == id && g@ == self@[
                    supergroup_pos(self@, id)],
                None => !supergroups_contain(self@, id),
            },
    {
        match self.position_of(id) {
            Some(p) => {
                let g = &self.items[p];
                proof {
                    assert(g@ == self@[p as int]);
                    self.lemma_unique();
                    assert(self@[supergroup_pos(self@, id)].id == id);
                    assert(supergroup_pos(self@, id) == p as int);
                }
                Some(g)
            }
            None => None,
        }
    }

    /// The supergroup with id `id`, which the caller proves has been
    /// observed: the statically checked form of the feed's
    /// delivery-order guarantee, in place of a runtime assertion.
    pub fn get(&self, id: i64) -> (r: &Supergroup)
        requires
            self.wf(),
            supergroups_contain(self@, id),
        ensures
            r@.id == id,
            r@ == self@[supergroup_pos(self@, id)],
    {
        match self.get_or_none(id) {
            Some(g) => g,
            None => vstd::pervasive::unreached(),
        }
    }

    /// Resolves a bare supergroup id from the feed into a live
    /// reference; a violation of the feed's delivery-order contract
    /// surfaces as the recoverable error.
    pub fn resolve(&self, supergroup_id: i64) -> (r: Result<SupergroupRef, ResolveError>)
        requires
            self.wf(),
        ensures
            match r {
                Ok(gr) => gr.position < self@.len() && self@[gr.position as int].id
                    == supergroup_id,
                Err(e) => !supergroups_contain(self@, supergroup_id) && e
                    == (ResolveError::SupergroupNotFound { supergroup_id }),
            },
    {
        match self.position_of(supergroup_id) {
            Some(p) => Ok(SupergroupRef { position: p }),
            None => Err(ResolveError::SupergroupNotFound { supergroup_id }),
        }
    }

    /// Routes one update into the registry: constructs the supergroup on
    /// first sight of its defining update, forwards to the existing
    /// entity otherwise, and reports exactly what happened.
    pub fn handle_update(&mut self, u: &Update) -> (out: RegistryOutcome<SupergroupAttr>)
        requires
            old(self).wf(),
        ensures
            final(self).wf(),
            final(self)@ == supergroups_apply(old(self)@, *u),
            supergroups_outcome_matches(old(self)@, *u, out),
    {
        match u {
            Update::Supergroup { supergroup } => {
                let id = supergroup.id;
                match self.position_of(id) {
                    Some(p) => {
                        proof {
                            self.lemma_unique();
                            assert(supergroups_contain(self@, id)) by {
                                assert(self@[p as int].id == id);
                            }
                            assert(self@[supergroup_pos(self@, id)].id == id);
                            assert(supergroup_pos(self@, id) == p as int);
                        }
                        self.forward(p, u, Ghost(id))
                    }
                    None => {
                        let entity = Supergroup::from_raw(supergroup);
                        let pos = self.items.len();
                        self.items.push(entity);
                        let _prev = index_insert(&mut self.index, id, pos);
                        proof {
                            self.lemma_insert_wf(*old(self), id, pos);
                            assert(self@ =~= old(self)@.push(supergroup_from_raw_v(*supergroup)));
                        }
                        RegistryOutcome::Inserted {
                            change: ListChange { position: pos, removed: 0, added: 1 },
                        }
                    }
                }
            }
            _ => RegistryOutcome::Ignored,
        }
    }

    /// Forwards an update to the existing supergroup at `p` and wraps
    /// its attribute notifications.
    fn forward(&mut self, p: usize, u: &Update, id: Ghost<i64>) -> (out: RegistryOutcome<
        SupergroupAttr,
    >)
        requires
            old(self).wf(),
            p < old(self)@.len(),
            old(self)@[p as int].id == id@,
            supergroup_apply(old(self)@[p as int], *u).id == id@,
        ensures
            final(self).wf(),
            final(self)@ == old(self)@.update(
                p as int,
                supergroup_apply(old(self)@[p as int], *u),
            ),
            out matches RegistryOutcome::Updated { position, changed } && position == p && changed@
                == supergroup_changed(old(self)@[p as int], *u),
    {
        proof {
            assert(old(self)@[p as int] == old(self).items@[p as int]@);
        }
        let entity = &mut self.items[p];
        let changed = entity.handle_update(u);
        proof {
            assert(self@ =~= old(self)@.update(
                p as int,
                supergroup_apply(old(self)@[p as int], *u),
            ));
            assert forall|i: int| 0 <= i < self.items@.len() implies {
                &&& index_entries(self.index).contains_key(#[trigger] self.items@[i]@.id)
                &&& index_entries(self.index)[self.items@[i]@.id] == i
            } by {
                assert(old(self).items@[i]@.id == self.items@[i]@.id);
            }
            assert forall|k: i64| #[trigger] index_entries(self.index).contains_key(k) implies {
                &&& index_entries(self.index)[k] < self.items@.len()
                &&& self.items@[index_entries(self.index)[k] as int]@.id == k
            } by {
                assert(old(self).items@[index_entries(self.index)[k] as int]@.id == k);
            }
        }
        RegistryOutcome::Updated { position: p, changed }
    }

    /// Appending a fresh id and recording its position keeps the
    /// invariant.
    proof fn lemma_insert_wf(&self, prev: SupergroupList, id: i64, pos: usize)
        requires
            prev.wf(),
            !supergroups_contain(prev@, id),
            pos == prev.items@.len(),
            self.items@.len() == prev.items@.len() + 1,
            forall|i: int| 0 <= i < prev.items@.len() ==> self.items@[i] == prev.items@[i],
            self.items@[pos as int]@.id == id,
            index_entries(self.index) == index_entries(prev.index).insert(id, pos),
        ensures
            self.wf(),
    {
        assert forall|i: int| 0 <= i < prev.items@.len() implies prev.items@[i]@.id != id by {
            assert(prev@[i] == prev.items@[i]@);
        }
    }
}

} // verus!
