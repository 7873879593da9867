//! A sequence of entries with pairwise distinct keys, seen as a map from key
//! to value.
use vstd::prelude::*;

verus! {

/// No two entries of `s` share a key.
pub open spec fn keys_unique<T, K>(s: Seq<T>, key: spec_fn(T) -> K) -> bool {
    forall|i: int, j: int|
        0 <= i < s.len() && 0 <= j < s.len() && i != j ==> key(s[i]) != key(s[j])
}

/// The map that sends the key of each entry of `s` to that entry's value.
pub open spec fn map_of<T, K, V>(s: Seq<T>, key: spec_fn(T) -> K, val: spec_fn(T) -> V) -> Map<K, V> {
    Map::new(
        |k: K| exists|i: int| 0 <= i < s.len() && key(s[i]) == k,
        |k: K| val(s[choose|i: int| 0 <= i < s.len() && key(s[i]) == k]),
    )
}

pub proof fn lemma_map_of_at<T, K, V>(s: Seq<T>, key: spec_fn(T) -> K, val: spec_fn(T) -> V, i: int)
    requires
        keys_unique(s, key),
        0 <= i < s.len(),
    ensures
        map_of(s, key, val).contains_key(key(s[i])),
        map_of(s, key, val)[key(s[i])] == val(s[i]),
{
    let k = key(s[i]);
    assert(0 <= i < s.len() && key(s[i]) == k);
    let j = choose|j: int| 0 <= j < s.len() && key(s[j]) == k;
    assert(j == i);
}

/// Replacing one entry by another with the same key updates that key's value.
pub proof fn lemma_map_of_update<T, K, V>(
    s: Seq<T>,
    key: spec_fn(T) -> K,
    val: spec_fn(T) -> V,
    i: int,
    t: T,
)
    requires
        keys_unique(s, key),
        0 <= i < s.len(),
        key(t) == key(s[i]),
    ensures
        keys_unique(s.update(i, t), key),
        map_of(s.update(i, t), key, val) == map_of(s, key, val).insert(key(t), val(t)),
{
    let s2 = s.update(i, t);
    let m = map_of(s, key, val);
    let m2 = map_of(s2, key, val);
    assert(keys_unique(s2, key)) by {
        assert forall|a: int, b: int|
            0 <= a < s2.len() && 0 <= b < s2.len() && a != b implies key(s2[a]) != key(s2[b]) by {
            assert(key(s2[a]) == key(s[a]));
            assert(key(s2[b]) == key(s[b]));
        }
    }
    assert forall|k: K| m2.contains_key(k) <==> m.insert(key(t), val(t)).contains_key(k) by {
        if m2.contains_key(k) {
            let j = choose|j: int| 0 <= j < s2.len() && key(s2[j]) == k;
            assert(key(s[j]) == k);
        }
        if m.contains_key(k) {
            let j = choose|j: int| 0 <= j < s.len() && key(s[j]) == k;
            assert(key(s2[j]) == k);
        }
        if k == key(t) {
            assert(key(s2[i]) == k);
        }
    }
    assert forall|k: K| #[trigger] m2.contains_key(k) implies m2[k] == m.insert(key(t), val(t))[k] by {
        let j = choose|j: int| 0 <= j < s2.len() && key(s2[j]) == k;
        lemma_map_of_at(s2, key, val, j);
        if j != i {
            lemma_map_of_at(s, key, val, j);
        }
    }
    assert(m2 =~= m.insert(key(t), val(t)));
}

/// Appending an entry with a fresh key adds that key.
pub proof fn lemma_map_of_push<T, K, V>(s: Seq<T>, key: spec_fn(T) -> K, val: spec_fn(T) -> V, t: T)
    requires
        keys_unique(s, key),
        !map_of(s, key, val).contains_key(key(t)),
    ensures
        keys_unique(s.push(t), key),
        map_of(s.push(t), key, val) == map_of(s, key, val).insert(key(t), val(t)),
{
    let s2 = s.push(t);
    let m = map_of(s, key, val);
    let m2 = map_of(s2, key, val);
    assert(keys_unique(s2, key)) by {
        assert forall|a: int, b: int|
            0 <= a < s2.len() && 0 <= b < s2.len() && a != b implies key(s2[a]) != key(s2[b]) by {
            if a == s.len() {
                assert(key(s[b]) == key(s2[b]));
                assert(!(0 <= b < s.len() && key(s[b]) == key(t)));
            } else if b == s.len() {
                assert(key(s[a]) == key(s2[a]));
                assert(!(0 <= a < s.len() && key(s[a]) == key(t)));
            } else {
                assert(key(s2[a]) == key(s[a]) && key(s2[b]) == key(s[b]));
            }
        }
    }
    assert forall|k: K| m2.contains_key(k) <==> m.insert(key(t), val(t)).contains_key(k) by {
        if m2.contains_key(k) {
            let j = choose|j: int| 0 <= j < s2.len() && key(s2[j]) == k;
            if j < s.len() {
                assert(key(s[j]) == k);
            }
        }
        if m.contains_key(k) {
            let j = choose|j: int| 0 <= j < s.len() && key(s[j]) == k;
            assert(key(s2[j]) == k);
        }
        if k == key(t) {
            assert(key(s2[s.len() as int]) == k);
        }
    }
    assert forall|k: K| #[trigger] m2.contains_key(k) implies m2[k] == m.insert(key(t), val(t))[k] by {
        let j = choose|j: int| 0 <= j < s2.len() && key(s2[j]) == k;
        lemma_map_of_at(s2, key, val, j);
        if j < s.len() {
            assert(s2[j] == s[j]);
            lemma_map_of_at(s, key, val, j);
        }
    }
    assert(m2 =~= m.insert(key(t), val(t)));
}

/// Removing an entry removes its key.
pub proof fn lemma_map_of_remove<T, K, V>(s: Seq<T>, key: spec_fn(T) -> K, val: spec_fn(T) -> V, i: int)
    requires
        keys_unique(s, key),
        0 <= i < s.len(),
    ensures
        keys_unique(s.remove(i), key),
        map_of(s.remove(i), key, val) == map_of(s, key, val).remove(key(s[i])),
{
    let s2 = s.remove(i);
    let m = map_of(s, key, val);
    let m2 = map_of(s2, key, val);
    let ki = key(s[i]);
    assert forall|j: int| 0 <= j < s2.len() implies #[trigger] s2[j] == (if j < i { s[j] } else { s[j + 1] }) by {}
    assert(keys_unique(s2, key)) by {
        assert forall|a: int, b: int|
            0 <= a < s2.len() && 0 <= b < s2.len() && a != b implies key(s2[a]) != key(s2[b]) by {
            let a0 = if a < i { a } else { a + 1 };
            let b0 = if b < i { b } else { b + 1 };
            assert(s2[a] == s[a0] && s2[b] == s[b0]);
        }
    }
    assert forall|k: K| m2.contains_key(k) <==> m.remove(ki).contains_key(k) by {
        if m2.contains_key(k) {
            let j = choose|j: int| 0 <= j < s2.len() && key(s2[j]) == k;
            let j0 = if j < i { j } else { j + 1 };
            assert(s2[j] == s[j0]);
            assert(key(s[j0]) == k);
        }
        if m.contains_key(k) && k != ki {
            let j = choose|j: int| 0 <= j < s.len() && key(s[j]) == k;
            assert(j != i);
            let j2 = if j < i { j } else { j - 1 };
            assert(s2[j2] == s[j]);
            assert(key(s2[j2]) == k);
        }
    }
    assert forall|k: K| #[trigger] m2.contains_key(k) implies m2[k] == m.remove(ki)[k] by {
        let j = choose|j: int| 0 <= j < s2.len() && key(s2[j]) == k;
        let j0 = if j < i { j } else { j + 1 };
        assert(s2[j] == s[j0]);
        lemma_map_of_at(s2, key, val, j);
        lemma_map_of_at(s, key, val, j0);
    }
    assert(m2 =~= m.remove(ki));
}

} // verus!
