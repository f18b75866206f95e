//! The hashed key-to-position index behind every registry and history.
//!
//! Registries keep their entities in a vector, in insertion order; the
//! amortized-O(1) lookup from identity key to vector position is an
//! `indexmap::IndexMap` from key to position. The map is reached only
//! through the small trusted interface below, whose contracts speak of the
//! map's contents as a mathematical `Map<i64, usize>`.

use vstd::prelude::*;

verus! {

/// The outside map type used for the id-to-position index.
#[verifier::external_type_specification]
#[verifier::external_body]
#[verifier::reject_recursive_types(K)]
#[verifier::reject_recursive_types(V)]
#[verifier::reject_recursive_types(S)]
pub struct ExIndexMap<K, V, S>(indexmap::IndexMap<K, V, S>);

/// The key-value pairs an id-to-position index currently holds.
pub uninterp spec fn index_entries(m: indexmap::IndexMap<i64, usize>) -> Map<i64, usize>;

/// Relies on indexmap::IndexMap::new: creates an empty map.
#[verifier::external_body]
pub(crate) fn index_new() -> (m: indexmap::IndexMap<i64, usize>)
    ensures
        index_entries(m) =~= Map::empty(),
{
    indexmap::IndexMap::new()
}

/// Relies on indexmap::IndexMap::get: returns the value stored under the
/// key if the key is present, else `None`.
#[verifier::external_body]
pub(crate) fn index_get(m: &indexmap::IndexMap<i64, usize>, key: i64) -> (r: Option<usize>)
    ensures
        match r {
            Some(v) => index_entries(*m).contains_key(key) && index_entries(*m)[key] == v,
            None => !index_entries(*m).contains_key(key),
        },
{
    m.get(&key).copied()
}

/// Relies on indexmap::IndexMap::insert: stores the value under the key,
/// returning the previously stored value if the key was present.
#[verifier::external_body]
pub(crate) fn index_insert(
    m: &mut indexmap::IndexMap<i64, usize>,
    key: i64,
    value: usize,
) -> (prev: Option<usize>)
    ensures
        index_entries(*final(m)) == index_entries(*old(m)).insert(key, value),
        match prev {
            Some(v) => index_entries(*old(m)).contains_key(key) && index_entries(*old(m))[key]
                == v,
            None => !index_entries(*old(m)).contains_key(key),
        },
{
    m.insert(key, value)
}

/// Relies on indexmap::IndexMap::shift_remove: removes the key and returns
/// the value stored under it, or `None` if the key was absent.
#[verifier::external_body]
pub(crate) fn index_remove(m: &mut indexmap::IndexMap<i64, usize>, key: i64) -> (prev: Option<
    usize,
>)
    ensures
        index_entries(*final(m)) == index_entries(*old(m)).remove(key),
        match prev {
            Some(v) => index_entries(*old(m)).contains_key(key) && index_entries(*old(m))[key]
                == v,
            None => !index_entries(*old(m)).contains_key(key),
        },
{
    m.shift_remove(&key)
}

} // verus!
