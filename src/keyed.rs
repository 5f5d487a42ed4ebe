//! Sequences of keyed items seen as maps, and how updates change those maps.

use vstd::prelude::*;

verus! {

/// Whether no two items of `s` have the same key.
pub open spec fn keyed_unique<T, K>(s: Seq<T>, key: spec_fn(T) -> K) -> bool {
    forall|i: int, j: int|
        0 <= i < s.len() && 0 <= j < s.len() && #[trigger] key(s[i]) == #[trigger] key(s[j]) ==> i
            == j
}

/// Whether some item of `s` has key `k`.
pub open spec fn keyed_has<T, K>(s: Seq<T>, key: spec_fn(T) -> K, k: K) -> bool {
    exists|i: int| 0 <= i < s.len() && #[trigger] key(s[i]) == k
}

/// The items of `s` as a map from key to value.
pub open spec fn keyed_map<T, K, V>(s: Seq<T>, key: spec_fn(T) -> K, val: spec_fn(T) -> V) -> Map<
    K,
    V,
> {
    Map::new(
        |k: K| keyed_has(s, key, k),
        |k: K| val(s[choose|i: int| 0 <= i < s.len() && #[trigger] key(s[i]) == k]),
    )
}

/// The item at `i` is what the map holds for its key.
pub proof fn lemma_keyed_at<T, K, V>(s: Seq<T>, key: spec_fn(T) -> K, val: spec_fn(T) -> V, i: int)
    requires
        keyed_unique(s, key),
        0 <= i < s.len(),
    ensures
        keyed_map(s, key, val).contains_key(key(s[i])),
        keyed_map(s, key, val)[key(s[i])] == val(s[i]),
{
    let k = key(s[i]);
    assert(keyed_has(s, key, k));
    let j = choose|j: int| 0 <= j < s.len() && #[trigger] key(s[j]) == k;
    assert(i == j);
}

/// Replacing the item at `i` by one with the same key updates that key.
pub proof fn lemma_keyed_update<T, K, V>(
    s: Seq<T>,
    key: spec_fn(T) -> K,
    val: spec_fn(T) -> V,
    i: int,
    e: T,
)
    requires
        keyed_unique(s, key),
        0 <= i < s.len(),
        key(e) == key(s[i]),
    ensures
        keyed_unique(s.update(i, e), key),
        keyed_map(s.update(i, e), key, val) == keyed_map(s, key, val).insert(key(e), val(e)),
{
    let t = s.update(i, e);
    assert forall|a: int, b: int|
        0 <= a < t.len() && 0 <= b < t.len() && #[trigger] key(t[a]) == #[trigger] key(t[b]) implies a
        == b by {
        assert(key(t[a]) == key(s[a]));
        assert(key(t[b]) == key(s[b]));
    }
    let m = keyed_map(s, key, val).insert(key(e), val(e));
    assert forall|k: K| #[trigger] keyed_map(t, key, val).contains_key(k) <==> m.contains_key(k) by {
        if keyed_has(t, key, k) {
            let j = choose|j: int| 0 <= j < t.len() && #[trigger] key(t[j]) == k;
            assert(key(s[j]) == k);
        }
        if keyed_has(s, key, k) {
            let j = choose|j: int| 0 <= j < s.len() && #[trigger] key(s[j]) == k;
            assert(key(t[j]) == k);
        }
    }
    assert forall|k: K| #[trigger] keyed_map(t, key, val).contains_key(k) implies keyed_map(
        t,
        key,
        val,
    )[k] == m[k] by {
        let j = choose|j: int| 0 <= j < t.len() && #[trigger] key(t[j]) == k;
        lemma_keyed_at(t, key, val, j);
        if j != i {
            lemma_keyed_at(s, key, val, j);
        }
    }
    assert(keyed_map(t, key, val) =~= m);
}

/// Appending an item with a new key adds that key.
pub proof fn lemma_keyed_push<T, K, V>(s: Seq<T>, key: spec_fn(T) -> K, val: spec_fn(T) -> V, e: T)
    requires
        keyed_unique(s, key),
        !keyed_has(s, key, key(e)),
    ensures
        keyed_unique(s.push(e), key),
        keyed_map(s.push(e), key, val) == keyed_map(s, key, val).insert(key(e), val(e)),
{
    let t = s.push(e);
    assert forall|a: int, b: int|
        0 <= a < t.len() && 0 <= b < t.len() && #[trigger] key(t[a]) == #[trigger] key(t[b]) implies a
        == b by {
        if a < s.len() && b == s.len() {
            assert(key(s[a]) == key(e));
        }
        if b < s.len() && a == s.len() {
            assert(key(s[b]) == key(e));
        }
        if a < s.len() && b < s.len() {
            assert(key(t[a]) == key(s[a]));
            assert(key(t[b]) == key(s[b]));
        }
    }
    let m = keyed_map(s, key, val).insert(key(e), val(e));
    assert forall|k: K| #[trigger] keyed_map(t, key, val).contains_key(k) <==> m.contains_key(k) by {
        if keyed_has(t, key, k) {
            let j = choose|j: int| 0 <= j < t.len() && #[trigger] key(t[j]) == k;
            if j < s.len() {
                assert(key(s[j]) == k);
            }
        }
        if keyed_has(s, key, k) {
            let j = choose|j: int| 0 <= j < s.len() && #[trigger] key(s[j]) == k;
            assert(key(t[j]) == k);
        }
        if k == key(e) {
            assert(key(t[s.len() as int]) == k);
        }
    }
    assert forall|k: K| #[trigger] keyed_map(t, key, val).contains_key(k) implies keyed_map(
        t,
        key,
        val,
    )[k] == m[k] by {
        let j = choose|j: int| 0 <= j < t.len() && #[trigger] key(t[j]) == k;
        lemma_keyed_at(t, key, val, j);
        if j < s.len() {
            assert(t[j] == s[j]);
            lemma_keyed_at(s, key, val, j);
        }
    }
    assert(keyed_map(t, key, val) =~= m);
}

/// Removing the item at `i` by moving the last one into its place removes its key.
pub proof fn lemma_keyed_swap_remove<T, K, V>(
    s: Seq<T>,
    key: spec_fn(T) -> K,
    val: spec_fn(T) -> V,
    i: int,
)
    requires
        keyed_unique(s, key),
        0 <= i < s.len(),
    ensures
        keyed_unique(s.update(i, s.last()).drop_last(), key),
        keyed_map(s.update(i, s.last()).drop_last(), key, val) == keyed_map(s, key, val).remove(
            key(s[i]),
        ),
{
    let t = s.update(i, s.last()).drop_last();
    let n = s.len() - 1;
    let gone = key(s[i]);
    assert forall|a: int, b: int|
        0 <= a < t.len() && 0 <= b < t.len() && #[trigger] key(t[a]) == #[trigger] key(t[b]) implies a
        == b by {
        let sa = if a == i {
            n
        } else {
            a
        };
        let sb = if b == i {
            n
        } else {
            b
        };
        assert(key(t[a]) == key(s[sa]));
        assert(key(t[b]) == key(s[sb]));
    }
    let m = keyed_map(s, key, val).remove(gone);
    assert forall|k: K| #[trigger] keyed_map(t, key, val).contains_key(k) <==> m.contains_key(k) by {
        if keyed_has(t, key, k) {
            let j = choose|j: int| 0 <= j < t.len() && #[trigger] key(t[j]) == k;
            let sj = if j == i {
                n
            } else {
                j
            };
            assert(key(s[sj]) == k);
            assert(sj != i);
        }
        if keyed_has(s, key, k) && k != gone {
            let j = choose|j: int| 0 <= j < s.len() && #[trigger] key(s[j]) == k;
            assert(j != i);
            let tj = if j == n {
                i
            } else {
                j
            };
            assert(key(t[tj]) == k);
        }
    }
    assert forall|k: K| #[trigger] keyed_map(t, key, val).contains_key(k) implies keyed_map(
        t,
        key,
        val,
    )[k] == m[k] by {
        let j = choose|j: int| 0 <= j < t.len() && #[trigger] key(t[j]) == k;
        lemma_keyed_at(t, key, val, j);
        let sj = if j == i {
            n
        } else {
            j
        };
        assert(t[j] == s[sj]);
        lemma_keyed_at(s, key, val, sj);
    }
    assert(keyed_map(t, key, val) =~= m);
}

} // verus!
