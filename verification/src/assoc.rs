//! A table of pairs read as a map: the model behind the handler table of a
//! text area and the chord registry of a composer.

use vstd::prelude::*;

verus! {

/// The `i`th pair of the table holds `key`.
pub open spec fn held_at<K, V>(pairs: Seq<(K, V)>, key: K, i: int) -> bool {
    0 <= i < pairs.len() && pairs[i].0 == key
}

/// Some pair of the table holds `key`.
pub open spec fn holds<K, V>(pairs: Seq<(K, V)>, key: K) -> bool {
    exists|i: int| held_at(pairs, key, i)
}

/// No key stands in two pairs.
pub open spec fn distinct_keys<K, V>(pairs: Seq<(K, V)>) -> bool {
    forall|i: int, j: int| 0 <= i < j < pairs.len() ==> pairs[i].0 != pairs[j].0
}

/// The table as a map from each key to the value that stands with it.
pub open spec fn as_map<K, V>(pairs: Seq<(K, V)>) -> Map<K, V> {
    Map::new(|key: K| holds(pairs, key), |key: K| pairs[choose|i: int| held_at(pairs, key, i)].1)
}

/// In a table without a key in two pairs, the map gives each pair's key that pair's value.
pub proof fn lemma_pair_in_map<K, V>(pairs: Seq<(K, V)>, i: int)
    requires
        distinct_keys(pairs),
        0 <= i < pairs.len(),
    ensures
        as_map(pairs).dom().contains(pairs[i].0),
        as_map(pairs)[pairs[i].0] == pairs[i].1,
{
    let key = pairs[i].0;
    assert(held_at(pairs, key, i));
    let j = choose|j: int| held_at(pairs, key, j);
    if j < i {
        assert(pairs[j].0 != pairs[i].0);
    } else if i < j {
        assert(pairs[i].0 != pairs[j].0);
    }
}

/// The table without pairs is the empty map.
pub proof fn lemma_empty_table<K, V>(pairs: Seq<(K, V)>)
    requires
        pairs.len() == 0,
    ensures
        distinct_keys(pairs),
        as_map(pairs) == Map::<K, V>::empty(),
{
    assert(forall|key: K, i: int| !held_at(pairs, key, i));
    assert(as_map(pairs) =~= Map::<K, V>::empty());
}

/// Two tables with the same keys in the same places hold the same keys.
pub proof fn lemma_same_keys<K, V>(before: Seq<(K, V)>, after: Seq<(K, V)>)
    requires
        distinct_keys(before),
        before.len() == after.len(),
        forall|i: int| 0 <= i < before.len() ==> before[i].0 == after[i].0,
    ensures
        distinct_keys(after),
        as_map(after).dom() == as_map(before).dom(),
{
    assert forall|a: int, b: int| 0 <= a < b < after.len() implies after[a].0 != after[b].0 by {
        assert(before[a].0 != before[b].0);
    }
    assert forall|k: K| holds(after, k) == holds(before, k) by {
        if holds(after, k) {
            let j = choose|j: int| held_at(after, k, j);
            assert(held_at(before, k, j));
        }
        if holds(before, k) {
            let j = choose|j: int| held_at(before, k, j);
            assert(held_at(after, k, j));
        }
    }
    assert(as_map(after).dom() =~= as_map(before).dom());
}

/// A new value in the place of a pair's value is an insertion at its key.
pub proof fn lemma_replace_value<K, V>(pairs: Seq<(K, V)>, i: int, value: V)
    requires
        distinct_keys(pairs),
        0 <= i < pairs.len(),
    ensures
        distinct_keys(pairs.update(i, (pairs[i].0, value))),
        as_map(pairs.update(i, (pairs[i].0, value))) == as_map(pairs).insert(pairs[i].0, value),
{
    let key = pairs[i].0;
    let after = pairs.update(i, (key, value));
    lemma_same_keys(pairs, after);
    lemma_pair_in_map(pairs, i);
    assert forall|k: K| as_map(after).dom().contains(k) implies #[trigger] as_map(after)[k] == as_map(
        pairs,
    ).insert(key, value)[k] by {
        let j = choose|j: int| held_at(after, k, j);
        lemma_pair_in_map(after, j);
        if k != key {
            lemma_pair_in_map(pairs, j);
        } else {
            lemma_pair_in_map(after, i);
        }
    }
    assert(as_map(after) =~= as_map(pairs).insert(key, value));
}

/// A new pair for a key that the table does not hold is an insertion at that key.
pub proof fn lemma_add_pair<K, V>(pairs: Seq<(K, V)>, key: K, value: V)
    requires
        distinct_keys(pairs),
        !holds(pairs, key),
    ensures
        distinct_keys(pairs.push((key, value))),
        as_map(pairs.push((key, value))) == as_map(pairs).insert(key, value),
{
    let after = pairs.push((key, value));
    let last = pairs.len() as int;
    assert forall|a: int, b: int| 0 <= a < b < after.len() implies after[a].0 != after[b].0 by {
        if b < last {
            assert(pairs[a].0 != pairs[b].0);
        } else {
            assert(!held_at(pairs, key, a));
        }
    }
    assert forall|k: K| holds(after, k) == (k == key || holds(pairs, k)) by {
        if holds(after, k) {
            let j = choose|j: int| held_at(after, k, j);
            if j < last {
                assert(held_at(pairs, k, j));
            }
        }
        if holds(pairs, k) {
            let j = choose|j: int| held_at(pairs, k, j);
            assert(held_at(after, k, j));
        }
        if k == key {
            assert(held_at(after, k, last));
        }
    }
    assert forall|k: K| as_map(after).dom().contains(k) implies #[trigger] as_map(after)[k] == as_map(
        pairs,
    ).insert(key, value)[k] by {
        let j = choose|j: int| held_at(after, k, j);
        lemma_pair_in_map(after, j);
        if k != key {
            assert(j < last);
            lemma_pair_in_map(pairs, j);
        } else {
            lemma_pair_in_map(after, last);
        }
    }
    assert(as_map(after) =~= as_map(pairs).insert(key, value));
}

} // verus!
