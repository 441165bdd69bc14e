use vstd::prelude::*;

verus! {

/// The value bound to `k` in an association list: the value of the first pair
/// whose key is `k`.
pub open spec fn assoc_get<K, V>(s: Seq<(K, V)>, k: K) -> Option<V>
    decreases s.len(),
{
    if s.len() == 0 {
        None
    } else if s[0].0 == k {
        Some(s[0].1)
    } else {
        assoc_get(s.drop_first(), k)
    }
}

/// The list after binding `k` to `v`: the first pair with key `k` gets the new
/// value, or, when there is none, the pair is added at the end.
pub open spec fn assoc_insert<K, V>(s: Seq<(K, V)>, k: K, v: V) -> Seq<(K, V)>
    decreases s.len(),
{
    if s.len() == 0 {
        seq![(k, v)]
    } else if s[0].0 == k {
        s.update(0, (k, v))
    } else {
        seq![s[0]] + assoc_insert(s.drop_first(), k, v)
    }
}

/// The value found at the first index that holds key `k`.
pub proof fn lemma_assoc_get_first<K, V>(s: Seq<(K, V)>, k: K, i: int)
    requires
        0 <= i < s.len(),
        s[i].0 == k,
        forall|j: int| 0 <= j < i ==> s[j].0 != k,
    ensures
        assoc_get(s, k) == Some(s[i].1),
    decreases i,
{
    if i > 0 {
        assert forall|j: int| 0 <= j < i - 1 implies s.drop_first()[j].0 != k by {
            assert(s.drop_first()[j] == s[j + 1]);
        }
        lemma_assoc_get_first(s.drop_first(), k, i - 1);
    }
}

/// A key held by no pair is bound to nothing.
pub proof fn lemma_assoc_get_absent<K, V>(s: Seq<(K, V)>, k: K)
    requires
        forall|j: int| 0 <= j < s.len() ==> s[j].0 != k,
    ensures
        assoc_get(s, k) is None,
    decreases s.len(),
{
    if s.len() > 0 {
        assert forall|j: int| 0 <= j < s.drop_first().len() implies s.drop_first()[j].0 != k by {
            assert(s.drop_first()[j] == s[j + 1]);
        }
        lemma_assoc_get_absent(s.drop_first(), k);
    }
}

/// A key is bound exactly when some pair holds it.
pub proof fn lemma_assoc_get_some<K, V>(s: Seq<(K, V)>, k: K)
    ensures
        assoc_get(s, k) is Some <==> exists|j: int| 0 <= j < s.len() && s[j].0 == k,
    decreases s.len(),
{
    if s.len() > 0 {
        lemma_assoc_get_some(s.drop_first(), k);
        if s[0].0 != k {
            if exists|j: int| 0 <= j < s.len() && s[j].0 == k {
                let j = choose|j: int| 0 <= j < s.len() && s[j].0 == k;
                assert(s.drop_first()[j - 1] == s[j]);
            }
            if exists|j: int| 0 <= j < s.drop_first().len() && s.drop_first()[j].0 == k {
                let j = choose|j: int| 0 <= j < s.drop_first().len() && s.drop_first()[j].0 == k;
                assert(s[j + 1] == s.drop_first()[j]);
            }
        }
    }
}

/// After binding `k` to `v`, `k` is bound to `v` and every other key keeps its
/// binding.
pub proof fn lemma_assoc_insert_get<K, V>(s: Seq<(K, V)>, k: K, v: V, k2: K)
    ensures
        assoc_get(assoc_insert(s, k, v), k2) == if k2 == k { Some(v) } else { assoc_get(s, k2) },
    decreases s.len(),
{
    if s.len() == 0 {
        let t = assoc_insert(s, k, v);
        assert(t == seq![(k, v)]);
        assert(t[0] == (k, v));
        assert(t.drop_first().len() == 0);
        assert(assoc_get(t.drop_first(), k2) is None);
    } else if s[0].0 == k {
        let t = s.update(0, (k, v));
        assert(t.len() == s.len());
        assert(t[0] == (k, v));
        assert(t.drop_first() =~= s.drop_first());
        assert(assoc_get(t, k2) == if k2 == k { Some(v) } else { assoc_get(t.drop_first(), k2) });
    } else {
        lemma_assoc_insert_get(s.drop_first(), k, v, k2);
        let t = seq![s[0]] + assoc_insert(s.drop_first(), k, v);
        assert(t.len() > 0);
        assert(t[0] == s[0]);
        assert(t.drop_first() =~= assoc_insert(s.drop_first(), k, v));
    }
}

/// Binding `k` keeps the pairs before the first pair that holds `k` and
/// replaces that pair, or appends when no pair holds `k`.
pub proof fn lemma_assoc_insert_shape<K, V>(s: Seq<(K, V)>, k: K, v: V)
    ensures
        (forall|j: int| 0 <= j < s.len() ==> s[j].0 != k) ==> assoc_insert(s, k, v) == s.push((k, v)),
        forall|i: int|
            0 <= i < s.len() && s[i].0 == k && (forall|j: int| 0 <= j < i ==> s[j].0 != k)
                ==> assoc_insert(s, k, v) == s.update(i, (k, v)),
    decreases s.len(),
{
    if s.len() > 0 {
        lemma_assoc_insert_shape(s.drop_first(), k, v);
        if s[0].0 != k {
            if forall|j: int| 0 <= j < s.len() ==> s[j].0 != k {
                assert forall|j: int| 0 <= j < s.drop_first().len() implies s.drop_first()[j].0 != k by {
                    assert(s.drop_first()[j] == s[j + 1]);
                }
                assert(assoc_insert(s, k, v) =~= s.push((k, v)));
            }
            assert forall|i: int|
                0 <= i < s.len() && s[i].0 == k && (forall|j: int| 0 <= j < i ==> s[j].0 != k)
                implies assoc_insert(s, k, v) == s.update(i, (k, v)) by {
                assert forall|j: int| 0 <= j < i - 1 implies s.drop_first()[j].0 != k by {
                    assert(s.drop_first()[j] == s[j + 1]);
                    assert(s[j + 1].0 != k);
                }
                assert(s.drop_first()[i - 1] == s[i]);
                assert(assoc_insert(s.drop_first(), k, v) == s.drop_first().update(i - 1, (k, v)));
                assert(assoc_insert(s, k, v) =~= s.update(i, (k, v)));
            }
        } else {
            assert forall|i: int|
                0 <= i < s.len() && s[i].0 == k && (forall|j: int| 0 <= j < i ==> s[j].0 != k)
                implies assoc_insert(s, k, v) == s.update(i, (k, v)) by {
                if i > 0 {
                    assert(s[0].0 != k);
                }
            }
        }
    } else {
        assert(assoc_insert(s, k, v) =~= s.push((k, v)));
    }
}

} // verus!
