//! Ordered column metadata: an insertion-ordered map from column name to
//! display width, kept in `indexmap::IndexMap`.  The map is read through a
//! small set of trusted wrappers whose contracts speak about `col_entries`,
//! the ordered sequence of (name, width) pairs the map holds.

use vstd::prelude::*;

verus! {

/// Declares `indexmap::IndexMap` so that it can stand in signatures and
/// fields; the map's values stay opaque and are only reached through the
/// wrappers below.
#[verifier::external_type_specification]
#[verifier::external_body]
#[verifier::reject_recursive_types(K)]
#[verifier::reject_recursive_types(V)]
#[verifier::reject_recursive_types(S)]
pub struct ExIndexMap<K, V, S>(indexmap::IndexMap<K, V, S>);

/// The ordered (name, width) pairs that the map holds, names as character
/// sequences.
pub uninterp spec fn col_entries(m: indexmap::IndexMap<String, u32>) -> Seq<(Seq<char>, u32)>;

/// The position of the first entry named `k`, scanning from the front.
pub open spec fn key_index(es: Seq<(Seq<char>, u32)>, k: Seq<char>) -> Option<int>
    decreases es.len(),
{
    if es.len() == 0 {
        None
    } else if es[0].0 == k {
        Some(0int)
    } else {
        match key_index(es.drop_first(), k) {
            None => None,
            Some(i) => Some(i + 1),
        }
    }
}

/// The width recorded for the column named `k`, if any.
pub open spec fn lookup_width(es: Seq<(Seq<char>, u32)>, k: Seq<char>) -> Option<u32> {
    match key_index(es, k) {
        None => None,
        Some(i) => Some(es[i].1),
    }
}

/// No two entries share a name.
pub open spec fn unique_names(es: Seq<(Seq<char>, u32)>) -> bool {
    forall|i: int, j: int| 0 <= i < j < es.len() ==> es[i].0 != es[j].0
}

/// Where `key_index` finds a position it is in range and carries the name;
/// where it finds none, no entry carries the name.
pub proof fn lemma_key_index(es: Seq<(Seq<char>, u32)>, k: Seq<char>)
    ensures
        match key_index(es, k) {
            Some(i) => 0 <= i < es.len() && es[i].0 == k,
            None => forall|i: int| 0 <= i < es.len() ==> (#[trigger] es[i]).0 != k,
        },
    decreases es.len(),
{
    if es.len() == 0 {
    } else if es[0].0 == k {
    } else {
        lemma_key_index(es.drop_first(), k);
        assert forall|i: int| key_index(es, k) is None && 0 <= i < es.len() implies (
        #[trigger] es[i]).0 != k by {
            if i > 0 {
                assert(es.drop_first()[i - 1] == es[i]);
            }
        }
        if key_index(es.drop_first(), k) is Some {
            let j = key_index(es.drop_first(), k).unwrap();
            assert(es.drop_first()[j] == es[j + 1]);
        }
    }
}

/// A name that no entry carries is not found.
pub proof fn lemma_key_index_absent(es: Seq<(Seq<char>, u32)>, k: Seq<char>)
    requires
        forall|i: int| 0 <= i < es.len() ==> (#[trigger] es[i]).0 != k,
    ensures
        key_index(es, k) is None,
{
    lemma_key_index(es, k);
    if key_index(es, k) is Some {
        let i = key_index(es, k).unwrap();
        assert(es[i].0 != k);
    }
}

/// Relies on `indexmap::IndexMap::new`: a fresh map holds nothing.
#[verifier::external_body]
pub fn map_new() -> (r: indexmap::IndexMap<String, u32>)
    ensures
        col_entries(r) == Seq::<(Seq<char>, u32)>::empty(),
{
    indexmap::IndexMap::new()
}

/// Relies on `indexmap::IndexMap::insert`: an existing key keeps its place
/// in the order and has its value replaced, the old value returned; a new
/// key is appended last with nothing returned.
#[verifier::external_body]
pub fn map_insert(m: &mut indexmap::IndexMap<String, u32>, k: String, w: u32) -> (r: Option<u32>)
    ensures
        match key_index(col_entries(*old(m)), k@) {
            Some(i) => {
                &&& col_entries(*final(m)) == col_entries(*old(m)).update(i, (k@, w))
                &&& r == Some(col_entries(*old(m))[i].1)
            },
            None => {
                &&& col_entries(*final(m)) == col_entries(*old(m)).push((k@, w))
                &&& r is None
            },
        },
{
    m.insert(k, w)
}

/// Relies on `indexmap::IndexMap::len`: the number of entries.
#[verifier::external_body]
pub fn map_len(m: &indexmap::IndexMap<String, u32>) -> (r: usize)
    ensures
        r == col_entries(*m).len(),
{
    m.len()
}

/// Relies on `indexmap::IndexMap::get_index`: the entry at a position in
/// the insertion order.
#[verifier::external_body]
pub fn map_get_index(m: &indexmap::IndexMap<String, u32>, i: usize) -> (r: (String, u32))
    requires
        i < col_entries(*m).len(),
    ensures
        r.0@ == col_entries(*m)[i as int].0,
        r.1 == col_entries(*m)[i as int].1,
{
    let (k, v) = m.get_index(i).unwrap();
    (k.clone(), *v)
}

/// Relies on `indexmap::IndexMap::get`: the value recorded for a key, found
/// by character-for-character equality of the name.
#[verifier::external_body]
pub fn map_get(m: &indexmap::IndexMap<String, u32>, k: &str) -> (r: Option<u32>)
    ensures
        r == lookup_width(col_entries(*m), k@),
{
    m.get(k).copied()
}

} // verus!
