use vstd::prelude::*;

verus! {

/// The map that a sequence of records with unique string keys stands for.
pub open spec fn keyed<T, V>(
    s: Seq<T>,
    key: spec_fn(T) -> Seq<char>,
    val: spec_fn(T) -> V,
) -> Map<Seq<char>, V> {
    Map::new(
        |k: Seq<char>| exists|i: int| 0 <= i < s.len() && key(s[i]) == k,
        |k: Seq<char>| val(s[choose|i: int| 0 <= i < s.len() && key(s[i]) == k]),
    )
}

/// No two records of `s` share a key.
pub open spec fn unique_keys<T>(s: Seq<T>, key: spec_fn(T) -> Seq<char>) -> bool {
    forall|i: int, j: int|
        0 <= i < s.len() && 0 <= j < s.len() && key(s[i]) == key(s[j]) ==> i == j
}

pub proof fn lemma_keyed_at<T, V>(
    s: Seq<T>,
    key: spec_fn(T) -> Seq<char>,
    val: spec_fn(T) -> V,
    i: int,
)
    requires
        unique_keys(s, key),
        0 <= i < s.len(),
    ensures
        keyed(s, key, val).contains_key(key(s[i])),
        keyed(s, key, val)[key(s[i])] == val(s[i]),
{
    let k = key(s[i]);
    assert(exists|j: int| 0 <= j < s.len() && key(s[j]) == k);
    let j = choose|j: int| 0 <= j < s.len() && key(s[j]) == k;
    assert(j == i);
}

pub proof fn lemma_keyed_absent<T, V>(
    s: Seq<T>,
    key: spec_fn(T) -> Seq<char>,
    val: spec_fn(T) -> V,
    k: Seq<char>,
)
    requires
        forall|i: int| 0 <= i < s.len() ==> key(s[i]) != k,
    ensures
        !keyed(s, key, val).contains_key(k),
{
}

pub proof fn lemma_keyed_update<T, V>(
    s: Seq<T>,
    key: spec_fn(T) -> Seq<char>,
    val: spec_fn(T) -> V,
    i: int,
    x: T,
)
    requires
        unique_keys(s, key),
        0 <= i < s.len(),
        key(x) == key(s[i]),
    ensures
        unique_keys(s.update(i, x), key),
        keyed(s.update(i, x), key, val) == keyed(s, key, val).insert(key(x), val(x)),
{
    let t = s.update(i, x);
    let m = keyed(s, key, val);
    let n = keyed(t, key, val);
    assert(forall|j: int| 0 <= j < s.len() ==> key(t[j]) == key(s[j]));
    assert forall|k: Seq<char>| #[trigger] n.contains_key(k) implies n[k] == m.insert(
        key(x),
        val(x),
    )[k] by {
        let j = choose|j: int| 0 <= j < t.len() && key(t[j]) == k;
        if j == i {
        } else {
            assert(key(s[j]) == k);
            lemma_keyed_at(s, key, val, j);
        }
    }
    assert forall|k: Seq<char>| #[trigger] n.contains_key(k) <==> m.insert(
        key(x),
        val(x),
    ).contains_key(k) by {
        if n.contains_key(k) {
            let j = choose|j: int| 0 <= j < t.len() && key(t[j]) == k;
            assert(key(s[j]) == k);
        }
        if m.contains_key(k) {
            let j = choose|j: int| 0 <= j < s.len() && key(s[j]) == k;
            assert(key(t[j]) == k);
        }
        if k == key(x) {
            assert(key(t[i]) == k);
        }
    }
    assert(n =~= m.insert(key(x), val(x)));
}

pub proof fn lemma_keyed_push<T, V>(
    s: Seq<T>,
    key: spec_fn(T) -> Seq<char>,
    val: spec_fn(T) -> V,
    x: T,
)
    requires
        unique_keys(s, key),
        !keyed(s, key, val).contains_key(key(x)),
    ensures
        unique_keys(s.push(x), key),
        keyed(s.push(x), key, val) == keyed(s, key, val).insert(key(x), val(x)),
{
    let t = s.push(x);
    let m = keyed(s, key, val);
    let n = keyed(t, key, val);
    assert(forall|j: int| 0 <= j < s.len() ==> key(s[j]) != key(x));
    assert(forall|j: int| 0 <= j < s.len() ==> t[j] == s[j]);
    assert forall|k: Seq<char>| #[trigger] n.contains_key(k) implies n[k] == m.insert(
        key(x),
        val(x),
    )[k] by {
        let j = choose|j: int| 0 <= j < t.len() && key(t[j]) == k;
        if j == s.len() {
        } else {
            assert(key(s[j]) == k);
            lemma_keyed_at(s, key, val, j);
        }
    }
    assert forall|k: Seq<char>| #[trigger] n.contains_key(k) <==> m.insert(
        key(x),
        val(x),
    ).contains_key(k) by {
        if n.contains_key(k) {
            let j = choose|j: int| 0 <= j < t.len() && key(t[j]) == k;
            if j < s.len() {
                assert(key(s[j]) == k);
            }
        }
        if m.contains_key(k) {
            let j = choose|j: int| 0 <= j < s.len() && key(s[j]) == k;
            assert(key(t[j]) == k);
        }
        if k == key(x) {
            assert(key(t[s.len() as int]) == k);
        }
    }
    assert(n =~= m.insert(key(x), val(x)));
}

} // verus!
