//! The per-chat message history: an ordered message sequence with an
//! amortized-O(1) secondary lookup from message id to position.
//!
//! Appends are chronological; a deletion removes the message from the
//! sequence, shifts what follows, and reindexes the secondary lookup, so
//! `message_by_id` never observes a stale position.

use vstd::prelude::*;

use crate::key_index::{index_entries, index_get, index_insert, index_new};
use crate::message::{message_apply, message_changed, Message, MessageAttr, MessageV};
use crate::update::Update;

verus! {

/// True when some position of `s` holds a message with id `id`.
pub open spec fn messages_contain(s: Seq<MessageV>, id: i64) -> bool {
    exists|i: int| 0 <= i < s.len() && s[i].id == id
}

/// The position of the message with id `id`; meaningful when
/// `messages_contain` holds and the ids of `s` are unique.
pub open spec fn message_pos(s: Seq<MessageV>, id: i64) -> int {
    choose|i: int| 0 <= i < s.len() && s[i].id == id
}

/// True when no two positions of `s` hold the same id.
pub open spec fn messages_unique(s: Seq<MessageV>) -> bool {
    forall|i: int, j: int| 0 <= i < s.len() && 0 <= j < s.len() && #[trigger] s[i].id == #[trigger] s[j].id
        ==> i == j
}

/// A chat's message history.
pub struct History {
    messages: Vec<Message>,
    index: indexmap::IndexMap<i64, usize>,
}

impl View for History {
    type V = Seq<MessageV>;

    closed spec fn view(&self) -> Seq<MessageV> {
        self.messages@.map_values(|m: Message| m@)
    }
}

impl History {
    /// The history invariant: the key index is exactly the id-to-position
    /// mapping of the message sequence.
    pub closed spec fn wf(&self) -> bool {
        &&& forall|i: int|
            0 <= i < self.messages@.len() ==> {
                &&& index_entries(self.index).contains_key(#[trigger] self.messages@[i]@.id)
                &&& index_entries(self.index)[self.messages@[i]@.id] == i
            }
        &&& forall|k: i64|
            #[trigger] index_entries(self.index).contains_key(k) ==> {
                &&& index_entries(self.index)[k] < self.messages@.len()
                &&& self.messages@[index_entries(self.index)[k] as int]@.id == k
            }
    }

    /// Ids are unique across positions: a consequence of the invariant.
    pub proof fn lemma_unique(&self)
        requires
            self.wf(),
        ensures
            messages_unique(self@),
    {
        assert forall|i: int, j: int|
            0 <= i < self@.len() && 0 <= j < self@.len() && #[trigger] self@[i].id
                == #[trigger] self@[j].id implies i == j by {
            assert(self@[i] == self.messages@[i]@);
            assert(self@[j] == self.messages@[j]@);
        }
    }

    /// Creates an empty history.
    pub fn new() -> (r: History)
        ensures
            r.wf(),
            r@ =~= Seq::<MessageV>::empty(),
    {
        History { messages: Vec::new(), index: index_new() }
    }

    /// The number of messages currently held.
    pub fn n_items(&self) -> (r: usize)
        ensures
            r == self@.len(),
    {
        self.messages.len()
    }

    /// The message at `position`, or `None` when out of range.
    pub fn item(&self, position: usize) -> (r: Option<&Message>)
        ensures
            match r {
                Some(m) => position < self@.len() && m@ == self@[position as int],
                None => position >= self@.len(),
            },
    {
        if position < self.messages.len() {
            Some(&self.messages[position])
        } else {
            None
        }
    }

    /// The position holding the message with id `id`, if present.
    pub fn position_of(&self, id: i64) -> (r: Option<usize>)
        requires
            self.wf(),
        ensures
            match r {
                Some(p) => p < self@.len() && self@[p as int].id == id,
                None => !messages_contain(self@, id),
            },
    {
        let r = index_get(&self.index, id);
        proof {
            if r is None {
                assert forall|i: int| 0 <= i < self@.len() implies self@[i].id != id by {
                    assert(self@[i] == self.messages@[i]@);
                }
            } else {
                let p = r->Some_0;
                assert(self@[p as int] == self.messages@[p as int]@);
            }
        }
        r
    }

    /// The message with id `id`, or `None` when no such message is held.
    pub fn message_by_id(&self, id: i64) -> (r: Option<&Message>)
        requires
            self.wf(),
        ensures
            match r {
                Some(m) => messages_contain(self@, id) && m@.id == id && m@ == self@[message_pos(
                    self@,
                    id,
                )],
                None => !messages_contain(self@, id),
            },
    {
        match self.position_of(id) {
            Some(p) => {
                let m = &self.messages[p];
                proof {
                    assert(m@ == self@[p as int]);
                    self.lemma_unique();
                    assert(self@[message_pos(self@, id)].id == id);
                    assert(message_pos(self@, id) == p as int);
                }
                Some(m)
            }
            None => None,
        }
    }

    /// Appends a message whose id is not yet held; it takes the last
    /// position.
    pub fn append(&mut self, m: Message)
        requires
            old(self).wf(),
            !messages_contain(old(self)@, m@.id),
        ensures
            final(self).wf(),
            final(self)@ == old(self)@.push(m@),
    {
        let id = m.id();
        let pos = self.messages.len();
        self.messages.push(m);
        let _prev = index_insert(&mut self.index, id, pos);
        proof {
            assert forall|i: int| 0 <= i < old(self).messages@.len()
                implies old(self).messages@[i]@.id != id by {
                assert(old(self)@[i] == old(self).messages@[i]@);
            }
            assert(self@ =~= old(self)@.push(m@));
        }
    }

    /// Forwards a content update to the message with id `message_id` and
    /// returns its attribute notifications, or `None` when no such
    /// message is held.
    pub fn handle_message_content(&mut self, message_id: i64, u: &Update) -> (r: Option<
        Vec<MessageAttr>,
    >)
        requires
            old(self).wf(),
        ensures
            final(self).wf(),
            match r {
                Some(changed) => {
                    &&& messages_contain(old(self)@, message_id)
                    &&& final(self)@ == old(self)@.update(
                        message_pos(old(self)@, message_id),
                        message_apply(old(self)@[message_pos(old(self)@, message_id)], *u),
                    )
                    &&& changed@ == message_changed(
                        old(self)@[message_pos(old(self)@, message_id)],
                        *u,
                    )
                },
                None => !messages_contain(old(self)@, message_id) && final(self)@ == old(self)@,
            },
    {
        match self.position_of(message_id) {
            Some(p) => {
                proof {
                    self.lemma_unique();
                    assert(messages_contain(self@, message_id)) by {
                        assert(self@[p as int].id == message_id);
                    }
                    assert(self@[message_pos(self@, message_id)].id == message_id);
                    assert(message_pos(self@, message_id) == p as int);
                    assert(old(self)@[p as int] == old(self).messages@[p as int]@);
                }
                let entity = &mut self.messages[p];
                let changed = entity.handle_update(u);
                proof {
                    assert(self@ =~= old(self)@.update(
                        p as int,
                        message_apply(old(self)@[p as int], *u),
                    ));
                    assert forall|i: int| 0 <= i < self.messages@.len() implies {
                        &&& index_entries(self.index).contains_key(
                            #[trigger] self.messages@[i]@.id,
                        )
                        &&& index_entries(self.index)[self.messages@[i]@.id] == i
                    } by {
                        assert(old(self).messages@[i]@.id == self.messages@[i]@.id);
                    }
                    assert forall|k: i64|
                        #[trigger] index_entries(self.index).contains_key(k) implies {
                        &&& index_entries(self.index)[k] < self.messages@.len()
                        &&& self.messages@[index_entries(self.index)[k] as int]@.id == k
                    } by {
                        assert(old(self).messages@[index_entries(self.index)[k] as int]@.id == k);
                    }
                }
                Some(changed)
            }
            None => None,
        }
    }

    /// Removes the message with id `message_id`, shifting what follows
    /// and reindexing the id lookup; returns the position it held.
    /// Afterwards `message_by_id` is `None` for the removed id and still
    /// exact for every other id held.
    pub fn remove(&mut self, message_id: i64) -> (r: Option<usize>)
        requires
            old(self).wf(),
        ensures
            final(self).wf(),
            match r {
                Some(p) => {
                    &&& messages_contain(old(self)@, message_id)
                    &&& p == message_pos(old(self)@, message_id)
                    &&& final(self)@ == old(self)@.remove(p as int)
                },
                None => !messages_contain(old(self)@, message_id) && final(self)@ == old(self)@,
            },
    {
        match self.position_of(message_id) {
            None => None,
            Some(p) => {
                proof {
                    self.lemma_unique();
                    assert(messages_contain(self@, message_id)) by {
                        assert(self@[p as int].id == message_id);
                    }
                    assert(self@[message_pos(self@, message_id)].id == message_id);
                    assert(message_pos(self@, message_id) == p as int);
                }
                let _removed = self.messages.remove(p);
                let ghost t = self.messages@;
                proof {
                    assert(self@ =~= old(self)@.remove(p as int));
                    assert forall|a: int, b: int|
                        0 <= a < t.len() && 0 <= b < t.len() && #[trigger] t[a]@.id
                            == #[trigger] t[b]@.id implies a == b by {
                        let oa: int = if a < p { a } else { a + 1 };
                        let ob: int = if b < p { b } else { b + 1 };
                        assert(t[a]@ == old(self)@[oa]);
                        assert(t[b]@ == old(self)@[ob]);
                    }
                }
                self.index = index_new();
                let mut i: usize = 0;
                while i < self.messages.len()
                    invariant
                        self.messages@ == t,
                        i <= t.len(),
                        forall|a: int, b: int|
                            0 <= a < t.len() && 0 <= b < t.len() && #[trigger] t[a]@.id
                                == #[trigger] t[b]@.id ==> a == b,
                        forall|j: int|
                            0 <= j < i ==> {
                                &&& index_entries(self.index).contains_key(#[trigger] t[j]@.id)
                                &&& index_entries(self.index)[t[j]@.id] == j
                            },
                        forall|k: i64|
                            #[trigger] index_entries(self.index).contains_key(k) ==> exists|j: int|
                                0 <= j < i && t[j]@.id == k,
                    decreases t.len() - i,
                {
                    let mid = self.messages[i].id();
                    let _prev = index_insert(&mut self.index, mid, i);
                    i = i + 1;
                }
                proof {
                    assert forall|k: i64|
                        #[trigger] index_entries(self.index).contains_key(k) implies {
                        &&& index_entries(self.index)[k] < self.messages@.len()
                        &&& self.messages@[index_entries(self.index)[k] as int]@.id == k
                    } by {
                        let j = choose|j: int| 0 <= j < t.len() && t[j]@.id == k;
                        assert(index_entries(self.index)[t[j]@.id] == j);
                    }
                }
                Some(p)
            }
        }
    }
}

} // verus!
