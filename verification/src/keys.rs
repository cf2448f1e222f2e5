//! Sets of keys and maps from keys to texts, kept by the `hashbrown` crate.

use vstd::prelude::*;
use crate::text::opt_text;

verus! {

/// A set of texts, held in a `hashbrown::HashSet`.
#[verifier::external_body]
#[derive(Debug)]
pub struct KeySet {
    keys: hashbrown::HashSet<String>,
}

/// The texts that a set holds.
pub uninterp spec fn key_set(set: KeySet) -> Set<Seq<char>>;

/// `hashbrown::HashSet::new`: a set that holds nothing.
#[verifier::external_body]
pub(crate) fn keys_new() -> (out: KeySet)
    ensures
        key_set(out) == Set::<Seq<char>>::empty(),
{
    KeySet { keys: hashbrown::HashSet::new() }
}

/// `hashbrown::HashSet::contains`: whether the set holds `key`.
#[verifier::external_body]
pub(crate) fn keys_contains(set: &KeySet, key: &str) -> (out: bool)
    ensures
        out == key_set(*set).contains(key@),
{
    set.keys.contains(key)
}

/// `hashbrown::HashSet::insert`: the set holds `key` afterwards, and all that
/// it held before. Tells whether `key` is new to the set.
#[verifier::external_body]
pub(crate) fn keys_insert(set: &mut KeySet, key: String) -> (out: bool)
    ensures
        key_set(*final(set)) == key_set(*old(set)).insert(key@),
        out == !key_set(*old(set)).contains(key@),
{
    set.keys.insert(key)
}

/// `hashbrown::HashSet::remove`: the set holds all that it held before but
/// `key`. Tells whether it held `key`.
#[verifier::external_body]
pub(crate) fn keys_remove(set: &mut KeySet, key: &str) -> (out: bool)
    ensures
        key_set(*final(set)) == key_set(*old(set)).remove(key@),
        out == key_set(*old(set)).contains(key@),
{
    set.keys.remove(key)
}

/// A map from texts to texts, held in a `hashbrown::HashMap`.
#[verifier::external_body]
#[derive(Debug)]
pub struct KeyMap {
    entries: hashbrown::HashMap<String, String>,
}

/// The entries that a map holds.
pub uninterp spec fn key_map(map: KeyMap) -> Map<Seq<char>, Seq<char>>;

/// The map without entries.
pub open spec fn no_entries() -> Map<Seq<char>, Seq<char>> {
    Map::empty()
}

/// The text under `key` in `entries`, if there is one.
pub open spec fn entry_of(entries: Map<Seq<char>, Seq<char>>, key: Seq<char>) -> Option<Seq<char>> {
    if entries.contains_key(key) {
        Some(entries[key])
    } else {
        None
    }
}

/// `hashbrown::HashMap::new`: a map that holds nothing.
#[verifier::external_body]
pub(crate) fn map_new() -> (out: KeyMap)
    ensures
        key_map(out) == no_entries(),
{
    KeyMap { entries: hashbrown::HashMap::new() }
}

/// `hashbrown::HashMap::get`, with a copy of the text found: the text under
/// `key`, if the map holds one.
#[verifier::external_body]
pub(crate) fn map_get(map: &KeyMap, key: &str) -> (out: Option<String>)
    ensures
        opt_text(out) == entry_of(key_map(*map), key@),
{
    map.entries.get(key).cloned()
}

/// `hashbrown::HashMap::insert`: the map holds `value` under `key`
/// afterwards, and under every other key what it held before. What it held
/// under `key` before is returned.
#[verifier::external_body]
pub(crate) fn map_insert(map: &mut KeyMap, key: String, value: String) -> (out: Option<String>)
    ensures
        key_map(*final(map)) == key_map(*old(map)).insert(key@, value@),
        opt_text(out) == entry_of(key_map(*old(map)), key@),
{
    map.entries.insert(key, value)
}

/// `hashbrown::HashMap::is_empty`: whether the map holds nothing.
#[verifier::external_body]
pub(crate) fn map_is_empty(map: &KeyMap) -> (out: bool)
    ensures
        out == (key_map(*map) == no_entries()),
{
    map.entries.is_empty()
}

} // verus!

