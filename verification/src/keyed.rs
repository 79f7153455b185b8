//! Sequences of items with distinct keys, read as maps.
//!
//! The registry keeps its sessions, names and pane runtimes in vectors whose
//! keys never repeat; these definitions and lemmas relate such a vector to the
//! map it stands for.
use vstd::prelude::*;

verus! {

/// Whether no two items share a key.
pub open spec fn keys_unique<T>(s: Seq<T>, key: spec_fn(T) -> Seq<char>) -> bool {
    forall|i: int, j: int| 0 <= i < s.len() && 0 <= j < s.len() && i != j ==> key(s[i]) != key(s[j])
}

/// The map from key to value that a sequence stands for (later items win).
pub open spec fn keyed_map<T, V>(s: Seq<T>, key: spec_fn(T) -> Seq<char>, val: spec_fn(T) -> V) -> Map<
    Seq<char>,
    V,
>
    decreases s.len(),
{
    if s.len() == 0 {
        Map::empty()
    } else {
        keyed_map(s.drop_last(), key, val).insert(key(s.last()), val(s.last()))
    }
}

/// Whether some item has key `k`.
pub open spec fn has_key<T>(s: Seq<T>, key: spec_fn(T) -> Seq<char>, k: Seq<char>) -> bool {
    exists|i: int| 0 <= i < s.len() && key(s[i]) == k
}

pub proof fn lemma_keyed_domain<T, V>(
    s: Seq<T>,
    key: spec_fn(T) -> Seq<char>,
    val: spec_fn(T) -> V,
    k: Seq<char>,
)
    ensures
        keyed_map(s, key, val).contains_key(k) <==> has_key(s, key, k),
    decreases s.len(),
{
    if s.len() > 0 {
        let t = s.drop_last();
        lemma_keyed_domain(t, key, val, k);
        if has_key(t, key, k) {
            let i = choose|i: int| 0 <= i < t.len() && key(t[i]) == k;
            assert(key(s[i]) == k);
        }
        if has_key(s, key, k) {
            let i = choose|i: int| 0 <= i < s.len() && key(s[i]) == k;
            if i < s.len() - 1 {
                assert(key(t[i]) == k);
            }
        }
    }
}

pub proof fn lemma_keyed_lookup<T, V>(
    s: Seq<T>,
    key: spec_fn(T) -> Seq<char>,
    val: spec_fn(T) -> V,
    i: int,
)
    requires
        keys_unique(s, key),
        0 <= i < s.len(),
    ensures
        keyed_map(s, key, val).contains_key(key(s[i])),
        keyed_map(s, key, val)[key(s[i])] == val(s[i]),
    decreases s.len(),
{
    if i < s.len() - 1 {
        let t = s.drop_last();
        assert(keys_unique(t, key));
        lemma_keyed_lookup(t, key, val, i);
    }
}

pub proof fn lemma_keyed_push<T, V>(
    s: Seq<T>,
    key: spec_fn(T) -> Seq<char>,
    val: spec_fn(T) -> V,
    x: T,
)
    requires
        keys_unique(s, key),
        !has_key(s, key, key(x)),
    ensures
        keys_unique(s.push(x), key),
        keyed_map(s.push(x), key, val) == keyed_map(s, key, val).insert(key(x), val(x)),
{
    let t = s.push(x);
    assert(t.drop_last() =~= s);
    assert forall|i: int, j: int|
        0 <= i < t.len() && 0 <= j < t.len() && i != j implies key(t[i]) != key(t[j]) by {
        if i == s.len() {
            assert(key(s[j]) != key(x));
        } else if j == s.len() {
            assert(key(s[i]) != key(x));
        }
    }
}

pub proof fn lemma_keyed_update<T, V>(
    s: Seq<T>,
    key: spec_fn(T) -> Seq<char>,
    val: spec_fn(T) -> V,
    i: int,
    x: T,
)
    requires
        keys_unique(s, key),
        0 <= i < s.len(),
        key(x) == key(s[i]),
    ensures
        keys_unique(s.update(i, x), key),
        keyed_map(s.update(i, x), key, val) == keyed_map(s, key, val).insert(key(x), val(x)),
{
    let t = s.update(i, x);
    let m = keyed_map(s, key, val).insert(key(x), val(x));
    assert(keys_unique(t, key));
    assert forall|k: Seq<char>| #[trigger] keyed_map(t, key, val).contains_key(k) <==> m.contains_key(
        k,
    ) by {
        lemma_keyed_domain(t, key, val, k);
        lemma_keyed_domain(s, key, val, k);
        if has_key(s, key, k) {
            let j = choose|j: int| 0 <= j < s.len() && key(s[j]) == k;
            assert(key(t[j]) == k);
        }
        if has_key(t, key, k) {
            let j = choose|j: int| 0 <= j < t.len() && key(t[j]) == k;
            assert(key(s[j]) == k);
        }
    }
    assert forall|k: Seq<char>| #[trigger] keyed_map(t, key, val).contains_key(k) implies keyed_map(
        t,
        key,
        val,
    )[k] == m[k] by {
        lemma_keyed_domain(t, key, val, k);
        let j = choose|j: int| 0 <= j < t.len() && key(t[j]) == k;
        lemma_keyed_lookup(t, key, val, j);
        if j != i {
            lemma_keyed_lookup(s, key, val, j);
        }
    }
    assert(keyed_map(t, key, val) =~= m);
}

pub proof fn lemma_keyed_remove<T, V>(
    s: Seq<T>,
    key: spec_fn(T) -> Seq<char>,
    val: spec_fn(T) -> V,
    i: int,
)
    requires
        keys_unique(s, key),
        0 <= i < s.len(),
    ensures
        keys_unique(s.remove(i), key),
        keyed_map(s.remove(i), key, val) == keyed_map(s, key, val).remove(key(s[i])),
{
    let t = s.remove(i);
    let m = keyed_map(s, key, val).remove(key(s[i]));
    assert forall|a: int, b: int|
        0 <= a < t.len() && 0 <= b < t.len() && a != b implies key(t[a]) != key(t[b]) by {
        let a2 = if a < i { a } else { a + 1 };
        let b2 = if b < i { b } else { b + 1 };
        assert(t[a] == s[a2] && t[b] == s[b2]);
    }
    assert forall|k: Seq<char>| #[trigger] keyed_map(t, key, val).contains_key(k) <==> m.contains_key(
        k,
    ) by {
        lemma_keyed_domain(t, key, val, k);
        lemma_keyed_domain(s, key, val, k);
        if has_key(s, key, k) && k != key(s[i]) {
            let j = choose|j: int| 0 <= j < s.len() && key(s[j]) == k;
            if j < i {
                assert(key(t[j]) == k);
            } else {
                assert(j != i);
                assert(key(t[j - 1]) == k);
            }
        }
        if has_key(t, key, k) {
            let j = choose|j: int| 0 <= j < t.len() && key(t[j]) == k;
            let j2 = if j < i { j } else { j + 1 };
            assert(t[j] == s[j2]);
            assert(key(s[j2]) != key(s[i]));
        }
    }
    assert forall|k: Seq<char>| #[trigger] keyed_map(t, key, val).contains_key(k) implies keyed_map(
        t,
        key,
        val,
    )[k] == m[k] by {
        lemma_keyed_domain(t, key, val, k);
        let j = choose|j: int| 0 <= j < t.len() && key(t[j]) == k;
        lemma_keyed_lookup(t, key, val, j);
        let j2 = if j < i { j } else { j + 1 };
        assert(t[j] == s[j2]);
        lemma_keyed_lookup(s, key, val, j2);
    }
    assert(keyed_map(t, key, val) =~= m);
}

pub proof fn lemma_keyed_len<T, V>(s: Seq<T>, key: spec_fn(T) -> Seq<char>, val: spec_fn(T) -> V)
    requires
        keys_unique(s, key),
    ensures
        keyed_map(s, key, val).dom().finite(),
        keyed_map(s, key, val).len() == s.len(),
    decreases s.len(),
{
    if s.len() > 0 {
        let t = s.drop_last();
        assert(keys_unique(t, key));
        lemma_keyed_len(t, key, val);
        lemma_keyed_domain(t, key, val, key(s.last()));
        if has_key(t, key, key(s.last())) {
            let i = choose|i: int| 0 <= i < t.len() && key(t[i]) == key(s.last());
            assert(key(s[i]) == key(s[s.len() - 1]));
        }
    }
}

} // verus!
