//! Association lists: sequences of key/value pairs read as finite maps.
use vstd::prelude::*;

verus! {

/// No key occurs twice.
pub open spec fn keys_unique<K, V>(s: Seq<(K, V)>) -> bool {
    forall|i: int, j: int| 0 <= i < s.len() && 0 <= j < s.len() && i != j ==> s[i].0 != s[j].0
}

/// The map an association list denotes; a later pair wins over an earlier one.
pub open spec fn as_map<K, V>(s: Seq<(K, V)>) -> Map<K, V>
    decreases s.len(),
{
    if s.len() == 0 {
        Map::empty()
    } else {
        as_map(s.drop_last()).insert(s.last().0, s.last().1)
    }
}

pub proof fn lemma_as_map_dom<K, V>(s: Seq<(K, V)>, k: K)
    ensures
        as_map(s).dom().contains(k) <==> exists|i: int| 0 <= i < s.len() && s[i].0 == k,
    decreases s.len(),
{
    if s.len() > 0 {
        lemma_as_map_dom(s.drop_last(), k);
        if as_map(s.drop_last()).dom().contains(k) {
            let i = choose|i: int| 0 <= i < s.drop_last().len() && s.drop_last()[i].0 == k;
            assert(s[i].0 == k);
        }
        if exists|i: int| 0 <= i < s.len() && s[i].0 == k {
            let i = choose|i: int| 0 <= i < s.len() && s[i].0 == k;
            if i < s.len() - 1 {
                assert(s.drop_last()[i].0 == k);
            }
        }
    }
}

pub proof fn lemma_as_map_at<K, V>(s: Seq<(K, V)>, i: int)
    requires
        keys_unique(s),
        0 <= i < s.len(),
    ensures
        as_map(s).dom().contains(s[i].0),
        as_map(s)[s[i].0] == s[i].1,
    decreases s.len(),
{
    if i < s.len() - 1 {
        lemma_as_map_at(s.drop_last(), i);
    }
}

pub proof fn lemma_as_map_absent<K, V>(s: Seq<(K, V)>, k: K)
    requires
        forall|i: int| 0 <= i < s.len() ==> s[i].0 != k,
    ensures
        !as_map(s).dom().contains(k),
{
    lemma_as_map_dom(s, k);
}

pub proof fn lemma_as_map_push<K, V>(s: Seq<(K, V)>, k: K, v: V)
    ensures
        as_map(s.push((k, v))) == as_map(s).insert(k, v),
{
    assert(s.push((k, v)).drop_last() == s);
}

pub proof fn lemma_as_map_update<K, V>(s: Seq<(K, V)>, i: int, v: V)
    requires
        keys_unique(s),
        0 <= i < s.len(),
    ensures
        as_map(s.update(i, (s[i].0, v))) == as_map(s).insert(s[i].0, v),
        keys_unique(s.update(i, (s[i].0, v))),
    decreases s.len(),
{
    let t = s.update(i, (s[i].0, v));
    if i == s.len() - 1 {
        assert(t.drop_last() == s.drop_last());
        lemma_as_map_dom(s.drop_last(), s[i].0);
        assert(as_map(s).insert(s[i].0, v) == as_map(s.drop_last()).insert(s[i].0, v));
    } else {
        assert(t.drop_last() == s.drop_last().update(i, (s[i].0, v)));
        lemma_as_map_update(s.drop_last(), i, v);
        assert(as_map(t) == as_map(s).insert(s[i].0, v));
    }
}

pub proof fn lemma_as_map_remove<K, V>(s: Seq<(K, V)>, i: int)
    requires
        keys_unique(s),
        0 <= i < s.len(),
    ensures
        as_map(s.remove(i)) == as_map(s).remove(s[i].0),
        keys_unique(s.remove(i)),
    decreases s.len(),
{
    let t = s.remove(i);
    if i == s.len() - 1 {
        assert(t == s.drop_last());
        lemma_as_map_absent(s.drop_last(), s[i].0);
        assert(as_map(s).remove(s[i].0) == as_map(s.drop_last()));
    } else {
        assert(t.drop_last() == s.drop_last().remove(i));
        lemma_as_map_remove(s.drop_last(), i);
        assert(t.last() == s.last());
        assert(as_map(t) == as_map(s).remove(s[i].0));
    }
}

pub proof fn lemma_keys_unique_push<K, V>(s: Seq<(K, V)>, k: K, v: V)
    requires
        keys_unique(s),
        forall|i: int| 0 <= i < s.len() ==> s[i].0 != k,
    ensures
        keys_unique(s.push((k, v))),
{
}

} // verus!
