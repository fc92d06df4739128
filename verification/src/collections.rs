//! What the definitions and registries share about the standard
//! collections: exact copies of vectors, and the walk over a hash map.
use vstd::prelude::*;

verus! {

/// A copy of `items` that holds the same values, for an element type whose
/// `clone` keeps the value.
pub(crate) fn clone_exact<T: Clone>(items: &Vec<T>) -> (copy: Vec<T>)
    requires
        forall|a: T, b: T| #[trigger] vstd::pervasive::strictly_cloned(a, b) ==> b == a,
    ensures
        copy@ == items@,
{
    let copy = items.clone();
    assert(copy@ =~= items@);
    copy
}

/// A walk over the entries of a map with integer keys, as the iterator of
/// `HashMap` gives it, visits each key once: its keys, in order, hold no
/// duplicate and are the keys of the map, and each entry is that key's.
pub(crate) proof fn lemma_walk_visits_each_key_once<V>(m: Map<u128, V>, pairs: Seq<(&u128, &V)>) -> (keys: Seq<u128>)
    requires
        pairs.no_duplicates(),
        pairs.len() == m.dom().len(),
        forall|i: int| 0 <= i < pairs.len() ==> m.contains_key(*(#[trigger] pairs[i]).0) && m[*pairs[i].0] == *pairs[i].1,
        forall|k: u128| #[trigger] m.contains_key(k) ==> pairs.contains((&k, &m[k])),
    ensures
        keys.len() == pairs.len(),
        keys.no_duplicates(),
        keys.to_set() == m.dom(),
        forall|i: int| 0 <= i < keys.len() ==> keys[i] == *pairs[i].0 && #[trigger] m[keys[i]] == *pairs[i].1,
{
    let keys = pairs.map_values(|p: (&u128, &V)| *p.0);
    assert forall|i: int, j: int| 0 <= i < keys.len() && 0 <= j < keys.len() && i != j
        implies keys[i] != keys[j] by {
        assert(m.contains_key(*pairs[i].0) && m[*pairs[i].0] == *pairs[i].1);
        assert(m.contains_key(*pairs[j].0) && m[*pairs[j].0] == *pairs[j].1);
    }
    assert forall|k: u128| m.dom().contains(k) implies keys.to_set().contains(k) by {
        assert(m.contains_key(k));
        assert(pairs.contains((&k, &m[k])));
        let i = choose|i: int| 0 <= i < pairs.len() && pairs[i] == (&k, &m[k]);
        assert(keys[i] == k);
    }
    assert forall|k: u128| keys.to_set().contains(k) implies m.dom().contains(k) by {
        let i = choose|i: int| 0 <= i < keys.len() && keys[i] == k;
        assert(m.contains_key(*pairs[i].0));
    }
    assert(keys.to_set() =~= m.dom());
    assert forall|i: int| 0 <= i < keys.len() implies keys[i] == *pairs[i].0 && #[trigger] m[keys[i]] == *pairs[i].1 by {
        assert(m.contains_key(*pairs[i].0));
    }
    keys
}

} // verus!
