//! Ordered maps from model keys to model entries: `indexmap::IndexMap`, with the
//! contracts of the methods that catalogs call.

use crate::model_entry::{ModelEntry, ModelEntryView};
use indexmap::IndexMap;
use vstd::prelude::*;

verus! {

/// `indexmap::IndexMap`, a hash map that keeps its entries in the order in which their
/// keys came.
#[verifier::external_type_specification]
#[verifier::external_body]
#[verifier::reject_recursive_types(K)]
#[verifier::reject_recursive_types(V)]
#[verifier::reject_recursive_types(S)]
pub struct ExIndexMap<K, V, S>(IndexMap<K, V, S>);

/// The entries that a map holds, in its order.
pub uninterp spec fn map_entries(map: IndexMap<String, ModelEntry>) -> Seq<
    (Seq<char>, ModelEntryView),
>;

/// Whether one of `entries` has this key.
pub open spec fn has_key(entries: Seq<(Seq<char>, ModelEntryView)>, key: Seq<char>) -> bool {
    exists|i: int| 0 <= i < entries.len() && (#[trigger] entries[i]).0 == key
}

/// `entries` with `value` under `key`: in the place of the value that stood there, or
/// at the end where there was none.
pub open spec fn with_entry(
    entries: Seq<(Seq<char>, ModelEntryView)>,
    key: Seq<char>,
    value: ModelEntryView,
) -> Seq<(Seq<char>, ModelEntryView)> {
    if has_key(entries, key) {
        entries.map_values(
            |entry: (Seq<char>, ModelEntryView)|
                if entry.0 == key {
                    (key, value)
                } else {
                    entry
                },
        )
    } else {
        entries.push((key, value))
    }
}

/// `IndexMap::new` makes a map without entries.
#[verifier::external_body]
pub(crate) fn new_map() -> (res: IndexMap<String, ModelEntry>)
    ensures
        map_entries(res) == Seq::<(Seq<char>, ModelEntryView)>::empty(),
{
    IndexMap::new()
}

/// `IndexMap::insert` updates the value of a key that the map holds, in its place, and
/// returns the older value; it appends a key that the map does not hold, and returns
/// `None`.
#[verifier::external_body]
pub(crate) fn insert_entry(
    map: &mut IndexMap<String, ModelEntry>,
    key: String,
    value: ModelEntry,
) -> (res: Option<ModelEntry>)
    ensures
        map_entries(*final(map)) == with_entry(map_entries(*old(map)), key@, value@),
        res is Some <==> has_key(map_entries(*old(map)), key@),
        res matches Some(older) ==> map_entries(*old(map)).contains((key@, older@)),
{
    map.insert(key, value)
}

/// `IndexMap::is_empty` tells whether the map has no entries.
#[verifier::external_body]
pub(crate) fn map_is_empty(map: &IndexMap<String, ModelEntry>) -> (res: bool)
    ensures
        res == (map_entries(*map).len() == 0),
{
    map.is_empty()
}

/// `IndexMap::clone` makes a map of clones of the keys and the values, in the same
/// order. A clone of a `ModelEntry` has the view of the entry: `ModelEntry::clone` is
/// proved to give it.
#[verifier::external_body]
pub(crate) fn clone_map(map: &IndexMap<String, ModelEntry>) -> (res: IndexMap<String, ModelEntry>)
    ensures
        map_entries(res) == map_entries(*map),
{
    map.clone()
}

} // verus!
