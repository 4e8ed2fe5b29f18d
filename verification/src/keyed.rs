//! Keys and values held side by side, read as a map.
//!
//! The backends in memory keep what they store in vectors and search them
//! from the front. This module says which map such a vector stands for, as
//! long as no key occurs twice, and how that map moves when an entry is
//! added, replaced or taken out.

use vstd::prelude::*;

verus! {

/// Whether no key occurs twice.
pub open spec fn distinct<K>(keys: Seq<K>) -> bool {
    forall|i: int, j: int| 0 <= i < j < keys.len() ==> keys[i] != keys[j]
}

/// A place at which `key` stands.
pub open spec fn place_of<K>(keys: Seq<K>, key: K) -> int {
    choose|i: int| 0 <= i < keys.len() && keys[i] == key
}

/// The map that takes each of `keys` to the value that stands at its place.
pub open spec fn table<K, V>(keys: Seq<K>, values: Seq<V>) -> Map<K, V> {
    Map::new(|key: K| keys.contains(key), |key: K| values[place_of(keys, key)])
}

/// Among distinct keys, each key is found at its own place and is mapped to
/// the value that stands there.
pub proof fn lemma_found<K, V>(keys: Seq<K>, values: Seq<V>, i: int)
    requires
        distinct(keys),
        0 <= i < keys.len(),
    ensures
        keys.contains(keys[i]),
        place_of(keys, keys[i]) == i,
        table(keys, values).contains_key(keys[i]),
        table(keys, values)[keys[i]] == values[i],
{
    let j = place_of(keys, keys[i]);
    assert(0 <= j < keys.len() && keys[j] == keys[i]);
    if j < i {
        assert(keys[j] != keys[i]);
    } else if i < j {
        assert(keys[i] != keys[j]);
    }
}

/// A key that does not occur yet, added at the end with its value, is
/// inserted into the map.
pub proof fn lemma_pushed<K, V>(keys: Seq<K>, values: Seq<V>, key: K, value: V)
    requires
        distinct(keys),
        keys.len() == values.len(),
        !keys.contains(key),
    ensures
        distinct(keys.push(key)),
        table(keys.push(key), values.push(value)) == table(keys, values).insert(key, value),
{
    let more = keys.push(key);
    assert forall|i: int, j: int| 0 <= i < j < more.len() implies more[i] != more[j] by {
        if j == keys.len() {
            assert(keys[i] == more[i]);
            assert(keys.contains(keys[i]));
        } else {
            assert(keys[i] != keys[j]);
        }
    }
    let after = table(more, values.push(value));
    let want = table(keys, values).insert(key, value);
    assert forall|k: K| after.contains_key(k) <==> want.contains_key(k) by {
        if more.contains(k) {
            let i = place_of(more, k);
            if i < keys.len() {
                assert(keys[i] == k);
            }
        }
        if keys.contains(k) {
            let i = place_of(keys, k);
            assert(more[i] == k);
        }
        assert(more[keys.len() as int] == key);
    }
    assert forall|k: K| after.contains_key(k) implies after[k] == want[k] by {
        let i = place_of(more, k);
        lemma_found(more, values.push(value), i);
        if i < keys.len() {
            assert(keys[i] == more[i]);
            lemma_found(keys, values, i);
        }
    }
    assert(after =~= want);
}

/// A value put in the place of another is inserted into the map under the
/// key that stands there.
pub proof fn lemma_updated<K, V>(keys: Seq<K>, values: Seq<V>, i: int, value: V)
    requires
        distinct(keys),
        keys.len() == values.len(),
        0 <= i < keys.len(),
    ensures
        table(keys, values.update(i, value)) == table(keys, values).insert(keys[i], value),
{
    let after = table(keys, values.update(i, value));
    let want = table(keys, values).insert(keys[i], value);
    lemma_found(keys, values, i);
    assert forall|k: K| after.contains_key(k) implies after[k] == want[k] by {
        let j = place_of(keys, k);
        lemma_found(keys, values, j);
        lemma_found(keys, values.update(i, value), j);
    }
    assert(after =~= want);
}

/// A key taken out together with its value is removed from the map.
pub proof fn lemma_removed<K, V>(keys: Seq<K>, values: Seq<V>, i: int)
    requires
        distinct(keys),
        keys.len() == values.len(),
        0 <= i < keys.len(),
    ensures
        distinct(keys.remove(i)),
        table(keys.remove(i), values.remove(i)) == table(keys, values).remove(keys[i]),
{
    let fewer = keys.remove(i);
    let gone = keys[i];
    assert forall|a: int, b: int| 0 <= a < b < fewer.len() implies fewer[a] != fewer[b] by {
        let a0 = if a < i { a } else { a + 1 };
        let b0 = if b < i { b } else { b + 1 };
        assert(fewer[a] == keys[a0]);
        assert(fewer[b] == keys[b0]);
        assert(keys[a0] != keys[b0]);
    }
    let after = table(fewer, values.remove(i));
    let want = table(keys, values).remove(gone);
    assert forall|k: K| after.contains_key(k) <==> want.contains_key(k) by {
        if fewer.contains(k) {
            let j = place_of(fewer, k);
            let j0 = if j < i { j } else { j + 1 };
            assert(fewer[j] == keys[j0]);
            lemma_found(keys, values, j0);
            lemma_found(keys, values, i);
        }
        if keys.contains(k) && k != gone {
            let j0 = place_of(keys, k);
            let j = if j0 < i { j0 } else { j0 - 1 };
            assert(fewer[j] == keys[j0]);
        }
    }
    assert forall|k: K| after.contains_key(k) implies after[k] == want[k] by {
        let j = place_of(fewer, k);
        lemma_found(fewer, values.remove(i), j);
        let j0 = if j < i { j } else { j + 1 };
        assert(fewer[j] == keys[j0]);
        assert(values.remove(i)[j] == values[j0]);
        lemma_found(keys, values, j0);
    }
    assert(after =~= want);
}

/// Removing a key that does not occur changes nothing.
pub proof fn lemma_absent<K, V>(keys: Seq<K>, values: Seq<V>, key: K)
    requires
        !keys.contains(key),
    ensures
        !table(keys, values).contains_key(key),
        table(keys, values).remove(key) == table(keys, values),
{
    assert(table(keys, values).remove(key) =~= table(keys, values));
}

} // verus!
