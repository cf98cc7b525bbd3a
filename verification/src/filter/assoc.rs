//! Association lists as finite maps: a sequence of key-value pairs in which no
//! key occurs twice stands for the map that sends each key to its value.
use vstd::prelude::*;

verus! {

/// No key occurs at two positions of `s`.
pub open spec fn keys_distinct<K, V>(s: Seq<(K, V)>) -> bool {
    forall|i: int, j: int| 0 <= i < j < s.len() ==> s[i].0 != s[j].0
}

/// Some pair of `s` has the key `k`.
pub open spec fn has_key<K, V>(s: Seq<(K, V)>, k: K) -> bool {
    exists|i: int| 0 <= i < s.len() && s[i].0 == k
}

/// A position of `s` that holds the key `k`, where there is one.
pub open spec fn index_of<K, V>(s: Seq<(K, V)>, k: K) -> int {
    choose|i: int| 0 <= i < s.len() && s[i].0 == k
}

/// The map that `s` stands for.
pub open spec fn to_map<K, V>(s: Seq<(K, V)>) -> Map<K, V> {
    Map::new(|k: K| has_key(s, k), |k: K| s[index_of(s, k)].1)
}

/// The pair at position `i` is what the map holds for its key.
pub proof fn lemma_lookup<K, V>(s: Seq<(K, V)>, i: int)
    requires
        keys_distinct(s),
        0 <= i < s.len(),
    ensures
        to_map(s).contains_key(s[i].0),
        to_map(s)[s[i].0] == s[i].1,
        index_of(s, s[i].0) == i,
{
    let k = s[i].0;
    assert(has_key(s, k));
    let j = index_of(s, k);
    assert(0 <= j < s.len() && s[j].0 == k);
    if j < i {
        assert(s[j].0 != s[i].0);
    } else if i < j {
        assert(s[i].0 != s[j].0);
    }
}

/// A key that no pair holds is not in the map.
pub proof fn lemma_absent<K, V>(s: Seq<(K, V)>, k: K)
    requires
        forall|i: int| 0 <= i < s.len() ==> s[i].0 != k,
    ensures
        !to_map(s).contains_key(k),
{
}

/// The empty list stands for the empty map.
pub proof fn lemma_empty<K, V>(s: Seq<(K, V)>)
    requires
        s.len() == 0,
    ensures
        to_map(s) == Map::<K, V>::empty(),
        keys_distinct(s),
{
    assert(to_map(s) =~= Map::<K, V>::empty());
}

/// Appending a pair with a new key inserts it into the map.
pub proof fn lemma_push<K, V>(s: Seq<(K, V)>, k: K, v: V)
    requires
        keys_distinct(s),
        !to_map(s).contains_key(k),
    ensures
        keys_distinct(s.push((k, v))),
        to_map(s.push((k, v))) == to_map(s).insert(k, v),
{
    let t = s.push((k, v));
    assert forall|i: int, j: int| 0 <= i < j < t.len() implies t[i].0 != t[j].0 by {
        if j == s.len() {
            if s[i].0 == k {
                assert(has_key(s, k));
            }
        }
    }
    assert forall|x: K| to_map(t).contains_key(x) <==> to_map(s).insert(k, v).contains_key(x) by {
        if has_key(t, x) {
            let i = index_of(t, x);
            if i < s.len() {
                assert(s[i].0 == x);
                assert(has_key(s, x));
            }
        }
        if has_key(s, x) {
            let i = index_of(s, x);
            assert(t[i].0 == x);
        }
        if x == k {
            assert(t[s.len() as int].0 == x);
        }
    }
    assert forall|x: K| to_map(t).contains_key(x) implies to_map(t)[x] == to_map(s).insert(k, v)[x] by {
        let i = index_of(t, x);
        lemma_lookup(t, i);
        if i < s.len() {
            assert(s[i].0 == x);
            lemma_lookup(s, i);
        }
    }
    assert(to_map(t) =~= to_map(s).insert(k, v));
}

/// Replacing the value at position `i` replaces what the map holds for the
/// key at that position.
pub proof fn lemma_update<K, V>(s: Seq<(K, V)>, i: int, v: V)
    requires
        keys_distinct(s),
        0 <= i < s.len(),
    ensures
        keys_distinct(s.update(i, (s[i].0, v))),
        to_map(s.update(i, (s[i].0, v))) == to_map(s).insert(s[i].0, v),
{
    let k = s[i].0;
    let t = s.update(i, (k, v));
    assert forall|a: int, b: int| 0 <= a < b < t.len() implies t[a].0 != t[b].0 by {
        assert(t[a].0 == s[a].0);
        assert(t[b].0 == s[b].0);
    }
    assert forall|x: K| to_map(t).contains_key(x) <==> to_map(s).insert(k, v).contains_key(x) by {
        if has_key(t, x) {
            let j = index_of(t, x);
            assert(s[j].0 == x);
        }
        if has_key(s, x) {
            let j = index_of(s, x);
            assert(t[j].0 == x);
        }
        if x == k {
            assert(t[i].0 == x);
        }
    }
    assert forall|x: K| to_map(t).contains_key(x) implies to_map(t)[x] == to_map(s).insert(k, v)[x] by {
        let j = index_of(t, x);
        lemma_lookup(t, j);
        assert(s[j].0 == x);
        lemma_lookup(s, j);
    }
    assert(to_map(t) =~= to_map(s).insert(k, v));
}

/// A list without a repeated key stands for a map of as many keys.
pub proof fn lemma_dom_len<K, V>(s: Seq<(K, V)>)
    requires
        keys_distinct(s),
    ensures
        to_map(s).dom().finite(),
        to_map(s).dom().len() == s.len(),
    decreases s.len(),
{
    if s.len() == 0 {
        lemma_empty(s);
    } else {
        let init = s.drop_last();
        let last = s.last();
        assert(keys_distinct(init)) by {
            assert forall|i: int, j: int| 0 <= i < j < init.len() implies init[i].0 != init[j].0 by {
                assert(init[i] == s[i] && init[j] == s[j]);
            }
        }
        lemma_dom_len(init);
        assert forall|i: int| 0 <= i < init.len() implies init[i].0 != last.0 by {
            assert(init[i] == s[i]);
        }
        lemma_absent(init, last.0);
        lemma_push(init, last.0, last.1);
        assert(init.push((last.0, last.1)) =~= s);
    }
}

/// Two lists without a repeated key and of one length stand for the same
/// map where the map of the second holds every pair of the first.
pub proof fn lemma_same_map<K, V>(a: Seq<(K, V)>, b: Seq<(K, V)>)
    requires
        keys_distinct(a),
        keys_distinct(b),
        a.len() == b.len(),
        forall|i: int|
            0 <= i < a.len() ==> to_map(b).contains_key(#[trigger] a[i].0) && to_map(b)[a[i].0]
                == a[i].1,
    ensures
        to_map(a) == to_map(b),
{
    lemma_dom_len(a);
    lemma_dom_len(b);
    assert(to_map(a).dom().subset_of(to_map(b).dom())) by {
        assert forall|k: K| to_map(a).dom().contains(k) implies to_map(b).dom().contains(k) by {
            let i = index_of(a, k);
            assert(a[i].0 == k);
        }
    }
    vstd::set_lib::lemma_subset_equality(to_map(a).dom(), to_map(b).dom());
    assert forall|k: K| to_map(a).contains_key(k) implies to_map(a)[k] == to_map(b)[k] by {
        let i = index_of(a, k);
        assert(a[i].0 == k);
        lemma_lookup(a, i);
    }
    assert(to_map(a) =~= to_map(b));
}

} // verus!
