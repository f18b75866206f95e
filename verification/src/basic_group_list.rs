//! The basic-group registry: insertion-ordered, indexable, and
//! change-notifying, with amortized-O(1) lookup by id through the hashed
//! key index.

use vstd::prelude::*;

use crate::basic_group::{
    basic_group_apply, basic_group_changed, basic_group_from_raw_v, BasicGroup, BasicGroupAttr,
    BasicGroupV,
};
use crate::key_index::{index_entries, index_get, index_insert, index_new};
use crate::types::{BasicGroupRef, ResolveError};
use crate::update::Update;
use crate::{ListChange, RegistryOutcome};

verus! {

/// True when some position of `s` holds a basic group with id `id`.
pub open spec fn basic_groups_contain(s: Seq<BasicGroupV>, id: i64) -> bool {
    exists|i: int| 0 <= i < s.len() && s[i].id == id
}

/// The position of the basic group with id `id`; meaningful when
/// `basic_groups_contain` holds and the ids of `s` are unique.
pub open spec fn basic_group_pos(s: Seq<BasicGroupV>, id: i64) -> int {
    choose|i: int| 0 <= i < s.len() && s[i].id == id
}

/// True when no two positions of `s` hold the same id.
pub open spec fn basic_groups_unique(s: Seq<BasicGroupV>) -> bool {
    forall|i: int, j: int| 0 <= i < s.len() && 0 <= j < s.len() && #[trigger] s[i].id == #[trigger] s[j].id
        ==> i == j
}

/// The registry contents after one update.
pub open spec fn basic_groups_apply(s: Seq<BasicGroupV>, u: Update) -> Seq<BasicGroupV> {
    match u {
        Update::BasicGroup { basic_group } => if basic_groups_contain(s, basic_group.id) {
            s.update(
                basic_group_pos(s, basic_group.id),
                basic_group_apply(s[basic_group_pos(s, basic_group.id)], u),
            )
        } else {
            s.push(basic_group_from_raw_v(basic_group))
        },
        _ => s,
    }
}

/// The outcome the registry owes for one update, given its prior contents.
pub open spec fn basic_groups_outcome_matches(
    s: Seq<BasicGroupV>,
    u: Update,
    out: RegistryOutcome<BasicGroupAttr>,
) -> bool {
    match u {
        Update::BasicGroup { basic_group } => if basic_groups_contain(s, basic_group.id) {
            out matches RegistryOutcome::Updated { position, changed } && position
                == basic_group_pos(s, basic_group.id) && changed@ == basic_group_changed(
                s[basic_group_pos(s, basic_group.id)],
                u,
            )
        } else {
            out matches RegistryOutcome::Inserted { change } && change.position == s.len()
                && change.removed == 0 && change.added == 1
        },
        _ => out matches RegistryOutcome::Ignored,
    }
}

/// The basic-group registry.
pub struct BasicGroupList {
    items: Vec<BasicGroup>,
    index: indexmap::IndexMap<i64, usize>,
}

impl View for BasicGroupList {
    type V = Seq<BasicGroupV>;

    closed spec fn view(&self) -> Seq<BasicGroupV> {
        self.items@.map_values(|g: BasicGroup| g@)
    }
}

impl BasicGroupList {
    /// The registry invariant: the key index is exactly the id-to-position
    /// mapping of the entity vector.
    pub closed spec fn wf(&self) -> bool {
        &&& forall|i: int|
            0 <= i < self.items@.len() ==> {
                &&& index_entries(self.index).contains_key(#[trigger] self.items@[i]@.id)
                &&& index_entries(self.index)[self.items@[i]@.id] == i
            }
        &&& forall|k: i64|
            #[trigger] index_entries(self.index).contains_key(k) ==> {
                &&& index_entries(self.index)[k] < self.items@.len()
                &&& self.items@[index_entries(self.index)[k] as int]@.id == k
            }
    }

    /// Ids are unique across positions: a consequence of the invariant.
    pub proof fn lemma_unique(&self)
        requires
            self.wf(),
        ensures
            basic_groups_unique(self@),
    {
        assert forall|i: int, j: int|
            0 <= i < self@.len() && 0 <= j < self@.len() && #[trigger] self@[i].id
                == #[trigger] self@[j].id implies i == j by {
            assert(self@[i] == self.items@[i]@);
            assert(self@[j] == self.items@[j]@);
        }
    }

    /// Creates an empty registry.
    pub fn new() -> (r: BasicGroupList)
        ensures
            r.wf(),
            r@ =~= Seq::<BasicGroupV>::empty(),
    {
        BasicGroupList { items: Vec::new(), index: index_new() }
    }

    /// The number of basic groups observed so far.
    pub fn n_items(&self) -> (r: usize)
        ensures
            r == self@.len(),
    {
        self.items.len()
    }

    /// The basic group at `position`, or `None` when out of range.
    pub fn item(&self, position: usize) -> (r: Option<&BasicGroup>)
        ensures
            match r {
                Some(g) => position < self@.len() && g@ == self@[position as int],
                None => position >= self@.len(),
            },
    {
        if position < self.items.len() {
            Some(&self.items[position])
        } else {
            None
        }
    }

    /// The position holding the basic group with id `id`, if observed.
    pub fn position_of(&self, id: i64) -> (r: Option<usize>)
        requires
            self.wf(),
        ensures
            match r {
                Some(p) => p < self@.len() && self@[p as int].id == id,
                None => !basic_groups_contain(self@, id),
            },
    {
        let r = index_get(&self.index, id);
        proof {
            if r is None {
                assert forall|i: int| 0 <= i < self@.len() implies self@[i].id != id by {
                    assert(self@[i] == self.items@[i]@);
                }
            } else {
                let p = r->Some_0;
                assert(self@[p as int] == self.items@[p as int]@);
            }
        }
        r
    }

    /// The basic group with id `id`, or `None` when never observed.
    pub fn get_or_none(&self, id: i64) -> (r: Option<&BasicGroup>)
        requires
            self.wf(),
        ensures
            match r {
                Some(g) => basic_groups_contain(self@, id) && g@.id == id && g@ == self@[
                    basic_group_pos(self@, id)],
                None => !basic_groups_contain(self@, id),
            },
    {
        match self.position_of(id) {
            Some(p) => {
                let g = &self.items[p];
                proof {
                    assert(g@ == self@[p as int]);
                    self.lemma_unique();
                    assert(self@[basic_group_pos(self@, id)].id == id);
                    assert(basic_group_pos(self@, id) == p as int);
                }
                Some(g)
            }
            None => None,
        }
    }

    /// The basic group with id `id`, which the caller proves has been
    /// observed: the statically checked form of the feed's
    /// delivery-order guarantee, in place of a runtime assertion.
    pub fn get(&self, id: i64) -> (r: &BasicGroup)
        requires
            self.wf(),
            basic_groups_contain(self@, id),
        ensures
            r@.id == id,
            r@ == self@[basic_group_pos(self@, id)],
    {
        match self.get_or_none(id) {
            Some(g) => g,
            None => vstd::pervasive::unreached(),
        }
    }

    /// Resolves a bare basic-group id from the feed into a live
    /// reference; a violation of the feed's delivery-order contract
    /// surfaces as the recoverable error.
    pub fn resolve(&self, basic_group_id: i64) -> (r: Result<BasicGroupRef, ResolveError>)
        requires
            self.wf(),
        ensures
            match r {
                Ok(gr) => gr.position < self@.len() && self@[gr.position as int].id
                    == basic_group_id,
                Err(e) => !basic_groups_contain(self@, basic_group_id) && e
                    == (ResolveError::BasicGroupNotFound { basic_group_id }),
            },
    {
        match self.position_of(basic_group_id) {
            Some(p) => Ok(BasicGroupRef { position: p }),
            None => Err(ResolveError::BasicGroupNotFound { basic_group_id }),
        }
    }

    /// Routes one update into the registry: constructs the basic group on
    /// first sight of its defining update, forwards to the existing
    /// entity otherwise, and reports exactly what happened.
    pub fn handle_update(&mut self, u: &Update) -> (out: RegistryOutcome<BasicGroupAttr>)
        requires
            old(self).wf(),
        ensures
            final(self).wf(),
            final(self)@ == basic_groups_apply(old(self)@, *u),
            basic_groups_outcome_matches(old(self)@, *u, out),
    {
        match u {
            Update::BasicGroup { basic_group } => {
                let id = basic_group.id;
                match self.position_of(id) {
                    Some(p) => {
                        proof {
                            self.lemma_unique();
                            assert(basic_groups_contain(self@, id)) by {
                                assert(self@[p as int].id == id);
                            }
                            assert(self@[basic_group_pos(self@, id)].id == id);
                            assert(basic_group_pos(self@, id) == p as int);
                        }
                        self.forward(p, u, Ghost(id))
                    }
                    None => {
                        let entity = BasicGroup::from_raw(basic_group);
                        let pos = self.items.len();
                        self.items.push(entity);
                        let _prev = index_insert(&mut self.index, id, pos);
                        proof {
                            self.lemma_insert_wf(*old(self), id, pos);
                            assert(self@ =~= old(self)@.push(basic_group_from_raw_v(*basic_group)));
                        }
                        RegistryOutcome::Inserted {
                            change: ListChange { position: pos, removed: 0, added: 1 },
                        }
                    }
                }
            }
            _ => RegistryOutcome::Ignored,
        }
    }

    /// Forwards an update to the existing basic group at `p` and wraps
    /// its attribute notifications.
    fn forward(&mut self, p: usize, u: &Update, id: Ghost<i64>) -> (out: RegistryOutcome<
        BasicGroupAttr,
    >)
        requires
            old(self).wf(),
            p < old(self)@.len(),
            old(self)@[p as int].id == id@,
            basic_group_apply(old(self)@[p as int], *u).id == id@,
        ensures
            final(self).wf(),
            final(self)@ == old(self)@.update(
                p as int,
                basic_group_apply(old(self)@[p as int], *u),
            ),
            out matches RegistryOutcome::Updated { position, changed } && position == p && changed@
                == basic_group_changed(old(self)@[p as int], *u),
    {
        proof {
            assert(old(self)@[p as int] == old(self).items@[p as int]@);
        }
        let entity = &mut self.items[p];
        let changed = entity.handle_update(u);
        proof {
            assert(self@ =~= old(self)@.update(
                p as int,
                basic_group_apply(old(self)@[p as int], *u),
            ));
            assert forall|i: int| 0 <= i < self.items@.len() implies {
                &&& index_entries(self.index).contains_key(#[trigger] self.items@[i]@.id)
                &&& index_entries(self.index)[self.items@[i]@.id] == i
            } by {
                assert(old(self).items@[i]@.id == self.items@[i]@.id);
            }
            assert forall|k: i64| #[trigger] index_entries(self.index).contains_key(k) implies {
                &&& index_entries(self.index)[k] < self.items@.len()
                &&& self.items@[index_entries(self.index)[k] as int]@.id == k
            } by {
                assert(old(self).items@[index_entries(self.index)[k] as int]@.id == k);
            }
        }
        RegistryOutcome::Updated { position: p, changed }
    }

    /// Appending a fresh id and recording its position keeps the
    /// invariant.
    proof fn lemma_insert_wf(&self, prev: BasicGroupList, id: i64, pos: usize)
        requires
            prev.wf(),
            !basic_groups_contain(prev@, id),
            pos == prev.items@.len(),
            self.items@.len() == prev.items@.len() + 1,
            forall|i: int| 0 <= i < prev.items@.len() ==> self.items@[i] == prev.items@[i],
            self.items@[pos as int]@.id == id,
            index_entries(self.index) == index_entries(prev.index).insert(id, pos),
        ensures
            self.wf(),
    {
        assert forall|i: int| 0 <= i < prev.items@.len() implies prev.items@[i]@.id != id by {
            assert(prev@[i] == prev.items@[i]@);
        }
    }
}

} // verus!
