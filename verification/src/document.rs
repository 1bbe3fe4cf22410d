//! The history document as a tree of plain values.
//!
//! A document is a table; a table is a list of keyed nodes, in the order in
//! which they are written. The history reads from such a tree only texts,
//! lists and tables.

use vstd::prelude::*;
use vstd::seq_lib::to_multiset_contains;

verus! {

/// One value of a document.
pub enum Node {
    /// A string.
    Text(Seq<char>),
    /// An array, item by item.
    List(Seq<Node>),
    /// A table, entry by entry.
    Table(Seq<(Seq<char>, Node)>),
    /// A number, a truth value or a date, by the text that stands for it.
    Scalar(Seq<char>),
}

/// Whether some entry has the key.
pub open spec fn has_key(entries: Seq<(Seq<char>, Node)>, key: Seq<char>) -> bool {
    exists|i: int| 0 <= i < entries.len() && (#[trigger] entries[i]).0 == key
}

/// The place of an entry that has the key.
pub open spec fn key_index(entries: Seq<(Seq<char>, Node)>, key: Seq<char>) -> int {
    choose|i: int| 0 <= i < entries.len() && (#[trigger] entries[i]).0 == key
}

/// The node that stands under the key, if any does.
pub open spec fn lookup(entries: Seq<(Seq<char>, Node)>, key: Seq<char>) -> Option<Node> {
    if has_key(entries, key) {
        Some(entries[key_index(entries, key)].1)
    } else {
        None
    }
}

/// Whether no key occurs twice.
pub open spec fn distinct_keys(entries: Seq<(Seq<char>, Node)>) -> bool {
    forall|i: int, j: int|
        0 <= i < entries.len() && 0 <= j < entries.len() && (#[trigger] entries[i]).0 == (
        #[trigger] entries[j]).0 ==> i == j
}

/// The entries after `node` was put under `key`: in the place of the entry
/// that had the key, or behind the last where none had it.
pub open spec fn put(entries: Seq<(Seq<char>, Node)>, key: Seq<char>, node: Node) -> Seq<
    (Seq<char>, Node),
> {
    if has_key(entries, key) {
        entries.update(key_index(entries, key), (key, node))
    } else {
        entries.push((key, node))
    }
}

/// Under the key of an entry stands the node of that entry, where no key
/// occurs twice.
pub proof fn lemma_lookup_found(entries: Seq<(Seq<char>, Node)>, i: int)
    requires
        distinct_keys(entries),
        0 <= i < entries.len(),
    ensures
        lookup(entries, entries[i].0) == Some(entries[i].1),
{
    assert(has_key(entries, entries[i].0));
}

/// A key that no entry has holds nothing.
pub proof fn lemma_lookup_missing(entries: Seq<(Seq<char>, Node)>, key: Seq<char>)
    requires
        forall|i: int| 0 <= i < entries.len() ==> (#[trigger] entries[i]).0 != key,
    ensures
        !has_key(entries, key),
        lookup(entries, key) is None,
{
}

/// Two tables with the same entries in any order hold the same node under
/// every key, where neither holds a key twice.
pub proof fn lemma_lookup_any_order(
    a: Seq<(Seq<char>, Node)>,
    b: Seq<(Seq<char>, Node)>,
    key: Seq<char>,
)
    requires
        distinct_keys(a),
        distinct_keys(b),
        a.to_multiset() == b.to_multiset(),
    ensures
        lookup(a, key) == lookup(b, key),
{
    if has_key(a, key) {
        let i = key_index(a, key);
        assert(a.contains(a[i]));
        to_multiset_contains(a, a[i]);
        to_multiset_contains(b, a[i]);
        assert(b.contains(a[i]));
        let j = choose|j: int| 0 <= j < b.len() && b[j] == a[i];
        assert(b[j].0 == key);
        lemma_lookup_found(b, j);
    } else if has_key(b, key) {
        let j = key_index(b, key);
        assert(b.contains(b[j]));
        to_multiset_contains(b, b[j]);
        to_multiset_contains(a, b[j]);
        assert(a.contains(b[j]));
        let i = choose|i: int| 0 <= i < a.len() && a[i] == b[j];
        assert(a[i].0 == key);
    }
}

} // verus!
