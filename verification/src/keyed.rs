//! Collections of records that are found by a key.
//!
//! The store keeps its records in vectors in which no key occurs twice.
//! What such a vector holds is a map from key to record: the order of the
//! records carries no meaning.

use vstd::prelude::*;

verus! {

/// A record that is found by a key.
pub trait Keyed {
    spec fn key(&self) -> Seq<char>;
}

/// Whether some record of `s` has the key `k`.
pub open spec fn has_key<V: Keyed>(s: Seq<V>, k: Seq<char>) -> bool {
    exists|i: int| 0 <= i < s.len() && (#[trigger] s[i]).key() == k
}

/// The place of a record with the key `k`.
pub open spec fn index_of<V: Keyed>(s: Seq<V>, k: Seq<char>) -> int {
    choose|i: int| 0 <= i < s.len() && (#[trigger] s[i]).key() == k
}

/// Whether no key occurs twice in `s`.
pub open spec fn distinct_keys<V: Keyed>(s: Seq<V>) -> bool {
    forall|i: int, j: int|
        0 <= i < j < s.len() ==> (#[trigger] s[i]).key() != (#[trigger] s[j]).key()
}

/// The map from key to record that `s` holds.
pub open spec fn as_map<V: Keyed>(s: Seq<V>) -> Map<Seq<char>, V> {
    Map::new(|k: Seq<char>| has_key(s, k), |k: Seq<char>| s[index_of(s, k)])
}

/// Each record is found under its own key.
pub proof fn lemma_as_map_index<V: Keyed>(s: Seq<V>, i: int)
    requires
        distinct_keys(s),
        0 <= i < s.len(),
    ensures
        has_key(s, s[i].key()),
        as_map(s).dom().contains(s[i].key()),
        index_of(s, s[i].key()) == i,
        as_map(s)[s[i].key()] == s[i],
{
    let k = s[i].key();
    assert(has_key(s, k));
    let j = index_of(s, k);
    assert(0 <= j < s.len() && s[j].key() == k);
    if j < i {
        assert(s[j].key() != s[i].key());
    } else if i < j {
        assert(s[i].key() != s[j].key());
    }
}

/// A key that no record has is not in the map.
pub proof fn lemma_as_map_absent<V: Keyed>(s: Seq<V>, k: Seq<char>)
    requires
        forall|i: int| 0 <= i < s.len() ==> (#[trigger] s[i]).key() != k,
    ensures
        !has_key(s, k),
        !as_map(s).dom().contains(k),
{
}

/// The empty collection holds the empty map.
pub proof fn lemma_as_map_empty<V: Keyed>()
    ensures
        distinct_keys(Seq::<V>::empty()),
        as_map(Seq::<V>::empty()) == Map::<Seq<char>, V>::empty(),
{
    assert(as_map(Seq::<V>::empty()) =~= Map::<Seq<char>, V>::empty());
}

/// Replacing a record by one with the same key replaces it in the map.
pub proof fn lemma_as_map_update<V: Keyed>(s: Seq<V>, i: int, v: V)
    requires
        distinct_keys(s),
        0 <= i < s.len(),
        v.key() == s[i].key(),
    ensures
        distinct_keys(s.update(i, v)),
        as_map(s.update(i, v)) == as_map(s).insert(v.key(), v),
{
    let t = s.update(i, v);
    assert forall|a: int, b: int| 0 <= a < b < t.len() implies (#[trigger] t[a]).key() != (
    #[trigger] t[b]).key() by {
        assert(s[a].key() != s[b].key());
    }
    assert forall|k: Seq<char>| has_key(t, k) <==> (has_key(s, k) || k == v.key()) by {
        if has_key(t, k) {
            let j = index_of(t, k);
            assert(s[j].key() == k);
        }
        if has_key(s, k) {
            let j = index_of(s, k);
            assert(t[j].key() == k);
        }
        if k == v.key() {
            assert(t[i].key() == k);
        }
    }
    assert forall|k: Seq<char>| has_key(t, k) implies #[trigger] as_map(t)[k] == as_map(
        s,
    ).insert(v.key(), v)[k] by {
        let j = index_of(t, k);
        lemma_as_map_index(t, j);
        if j != i {
            lemma_as_map_index(s, j);
        }
    }
    assert(as_map(t) =~= as_map(s).insert(v.key(), v));
}

/// Adding a record under a new key adds it to the map.
pub proof fn lemma_as_map_push<V: Keyed>(s: Seq<V>, v: V)
    requires
        distinct_keys(s),
        !has_key(s, v.key()),
    ensures
        distinct_keys(s.push(v)),
        as_map(s.push(v)) == as_map(s).insert(v.key(), v),
{
    let t = s.push(v);
    assert forall|a: int, b: int| 0 <= a < b < t.len() implies (#[trigger] t[a]).key() != (
    #[trigger] t[b]).key() by {
        if b < s.len() {
            assert(s[a].key() != s[b].key());
        } else {
            assert(s[a].key() == t[a].key());
        }
    }
    assert forall|k: Seq<char>| has_key(t, k) <==> (has_key(s, k) || k == v.key()) by {
        if has_key(t, k) {
            let j = index_of(t, k);
            if j < s.len() {
                assert(s[j].key() == k);
            }
        }
        if has_key(s, k) {
            let j = index_of(s, k);
            assert(t[j].key() == k);
        }
        if k == v.key() {
            assert(t[s.len() as int].key() == k);
        }
    }
    assert forall|k: Seq<char>| has_key(t, k) implies #[trigger] as_map(t)[k] == as_map(
        s,
    ).insert(v.key(), v)[k] by {
        let j = index_of(t, k);
        lemma_as_map_index(t, j);
        if j < s.len() {
            lemma_as_map_index(s, j);
        }
    }
    assert(as_map(t) =~= as_map(s).insert(v.key(), v));
}

/// Taking a record out takes its key out of the map.
pub proof fn lemma_as_map_remove<V: Keyed>(s: Seq<V>, i: int)
    requires
        distinct_keys(s),
        0 <= i < s.len(),
    ensures
        distinct_keys(s.remove(i)),
        as_map(s.remove(i)) == as_map(s).remove(s[i].key()),
{
    let t = s.remove(i);
    let gone = s[i].key();
    assert forall|a: int, b: int| 0 <= a < b < t.len() implies (#[trigger] t[a]).key() != (
    #[trigger] t[b]).key() by {
        let a2 = if a < i { a } else { a + 1 };
        let b2 = if b < i { b } else { b + 1 };
        assert(t[a] == s[a2] && t[b] == s[b2]);
        assert(s[a2].key() != s[b2].key());
    }
    assert forall|k: Seq<char>| has_key(t, k) <==> (has_key(s, k) && k != gone) by {
        if has_key(t, k) {
            let j = index_of(t, k);
            let j2 = if j < i { j } else { j + 1 };
            assert(t[j] == s[j2]);
            assert(s[j2].key() == k);
            if j2 < i {
                assert(s[j2].key() != s[i].key());
            } else {
                assert(s[i].key() != s[j2].key());
            }
        }
        if has_key(s, k) && k != gone {
            let j = index_of(s, k);
            let j2 = if j < i { j } else { j - 1 };
            assert(t[j2] == s[j]);
            assert(t[j2].key() == k);
        }
    }
    assert forall|k: Seq<char>| has_key(t, k) implies #[trigger] as_map(t)[k] == as_map(s).remove(
        gone,
    )[k] by {
        let j = index_of(t, k);
        lemma_as_map_index(t, j);
        let j2 = if j < i { j } else { j + 1 };
        assert(t[j] == s[j2]);
        lemma_as_map_index(s, j2);
    }
    assert(as_map(t) =~= as_map(s).remove(gone));
}

/// The map holds as many records as the collection.
pub proof fn lemma_as_map_len<V: Keyed>(s: Seq<V>)
    requires
        distinct_keys(s),
    ensures
        as_map(s).dom().finite(),
        as_map(s).dom().len() == s.len(),
    decreases s.len(),
{
    if s.len() == 0 {
        assert(as_map(s).dom() =~= Set::<Seq<char>>::empty());
    } else {
        let last = s.len() - 1;
        let front = s.drop_last();
        assert(front =~= s.remove(last));
        lemma_as_map_remove(s, last);
        lemma_as_map_len(front);
        lemma_as_map_index(s, last);
        let k = s[last].key();
        assert(as_map(front).dom() =~= as_map(s).dom().remove(k));
        assert(as_map(s).dom() =~= as_map(front).dom().insert(k));
    }
}

} // verus!
