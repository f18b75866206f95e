//! An in-memory mirror of remote chat-service state.
//!
//! The mirror consumes a stream of tagged updates, one at a time, and keeps a
//! live object graph of users, groups, chats and messages. Entities are
//! created on first sight, looked up by identity, mutated in place, and
//! exposed through insertion-ordered, indexable registries. Every mutation
//! reports the minimal change it caused: a positional change of a collection,
//! or the exact set of attributes whose values genuinely changed.

use vstd::prelude::*;

pub mod action_list;
pub mod basic_group;
pub mod basic_group_list;
pub mod chat;
pub mod chat_list;
pub mod history;
pub mod key_index;
pub mod laws;
pub mod message;
pub mod session;
pub mod sponsored_message;
pub mod supergroup;
pub mod supergroup_list;
pub mod types;
pub mod update;
pub mod user;
pub mod user_list;

verus! {

/// A positional change notification of an indexable collection:
/// starting at `position`, `removed` items were removed and `added`
/// items were added.
#[derive(Clone, Copy, Debug, PartialEq, Eq, Structural)]
pub struct ListChange {
    pub position: usize,
    pub removed: usize,
    pub added: usize,
}

/// What one registry did with one update.
///
/// `Ignored`: the update's variant does not belong to this registry.
/// `UnknownId`: the variant belongs here but addresses an id never
/// defined by the feed — the relaxed, recoverable surface of the feed's
/// delivery-order contract.
/// `Inserted`: the defining update of a fresh id appended a new entity;
/// the change carries `(position = new length - 1, removed = 0, added = 1)`.
/// `Updated`: the update was forwarded to the existing entity, which
/// reports the attributes that genuinely changed; the registry itself
/// emits no positional change, since positions never move.
#[derive(Clone, Debug, PartialEq)]
pub enum RegistryOutcome<A> {
    Ignored,
    UnknownId { id: i64 },
    Inserted { change: ListChange },
    Updated { position: usize, changed: Vec<A> },
}

} // verus!
