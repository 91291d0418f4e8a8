//! The mapping read off a sequence of key/value pairs, and the facts the
//! pipeline needs about it. Later pairs win, which is the last-write-wins
//! reading every stage of the pipeline shares.

use vstd::prelude::*;

verus! {

/// The mapping that a sequence of key/value pairs denotes; a later pair
/// overwrites an earlier one with the same key.
pub open spec fn map_of_pairs<V>(s: Seq<(Seq<char>, V)>) -> Map<Seq<char>, V>
    decreases s.len(),
{
    if s.len() == 0 {
        Map::empty()
    } else {
        map_of_pairs(s.drop_last()).insert(s.last().0, s.last().1)
    }
}

/// Whether the keys of the pairs are pairwise distinct.
pub open spec fn distinct_keys<V>(s: Seq<(Seq<char>, V)>) -> bool {
    forall|i: int, j: int| 0 <= i < j < s.len() ==> s[i].0 != s[j].0
}

/// A key is in the denoted mapping exactly when some pair carries it.
pub proof fn lemma_map_of_pairs_dom<V>(s: Seq<(Seq<char>, V)>, k: Seq<char>)
    ensures
        map_of_pairs(s).contains_key(k) <==> exists|i: int| 0 <= i < s.len() && s[i].0 == k,
    decreases s.len(),
{
    if s.len() > 0 {
        lemma_map_of_pairs_dom(s.drop_last(), k);
        if s.last().0 != k && map_of_pairs(s).contains_key(k) {
            let i = choose|i: int| 0 <= i < s.drop_last().len() && s.drop_last()[i].0 == k;
            assert(s[i].0 == k);
        }
        if exists|i: int| 0 <= i < s.len() && s[i].0 == k {
            let i = choose|i: int| 0 <= i < s.len() && s[i].0 == k;
            if i < s.len() - 1 {
                assert(s.drop_last()[i].0 == k);
            }
        }
    }
}

/// Under distinct keys, the denoted mapping sends each pair's key to that
/// pair's value.
pub proof fn lemma_map_of_pairs_at<V>(s: Seq<(Seq<char>, V)>, i: int)
    requires
        distinct_keys(s),
        0 <= i < s.len(),
    ensures
        map_of_pairs(s).contains_key(s[i].0),
        map_of_pairs(s)[s[i].0] == s[i].1,
    decreases s.len(),
{
    lemma_map_of_pairs_dom(s, s[i].0);
    if i < s.len() - 1 {
        assert(s.drop_last()[i] == s[i]);
        lemma_map_of_pairs_at(s.drop_last(), i);
        assert(s.last().0 != s[i].0);
    }
}

/// Replacing the value of the pair that carries `k` updates the denoted
/// mapping at `k`, provided keys are distinct.
pub proof fn lemma_map_of_pairs_update<V>(s: Seq<(Seq<char>, V)>, i: int, v: V)
    requires
        distinct_keys(s),
        0 <= i < s.len(),
    ensures
        map_of_pairs(s.update(i, (s[i].0, v))) == map_of_pairs(s).insert(s[i].0, v),
    decreases s.len(),
{
    let t = s.update(i, (s[i].0, v));
    if i == s.len() - 1 {
        assert(t.drop_last() =~= s.drop_last());
        assert(map_of_pairs(t) =~= map_of_pairs(s).insert(s[i].0, v));
    } else {
        assert(t.drop_last() =~= s.drop_last().update(i, (s[i].0, v)));
        assert(s.drop_last()[i] == s[i]);
        lemma_map_of_pairs_update(s.drop_last(), i, v);
        assert(t.last() == s.last());
        assert(map_of_pairs(t) == map_of_pairs(s.drop_last()).insert(s[i].0, v).insert(
            s.last().0,
            s.last().1,
        ));
        assert(s.last().0 != s[i].0);
        assert(map_of_pairs(s.drop_last()).insert(s[i].0, v).insert(s.last().0, s.last().1)
            =~= map_of_pairs(s.drop_last()).insert(s.last().0, s.last().1).insert(s[i].0, v));
    }
}

/// A sequence of pairs with distinct keys denotes exactly the mapping
/// that agrees with it pair by pair.
pub proof fn lemma_entries_denote<V>(s: Seq<(Seq<char>, V)>, m: Map<Seq<char>, V>)
    requires
        distinct_keys(s),
        forall|i: int| 0 <= i < s.len() ==> m.contains_key(s[i].0) && m[s[i].0] == s[i].1,
        forall|k: Seq<char>| m.contains_key(k) ==> exists|i: int|
            0 <= i < s.len() && s[i].0 == k,
    ensures
        map_of_pairs(s) == m,
{
    assert forall|k: Seq<char>| #[trigger] map_of_pairs(s).dom().contains(k) implies
        m.dom().contains(k) && map_of_pairs(s)[k] == m[k] by {
        lemma_map_of_pairs_dom(s, k);
        let i = choose|i: int| 0 <= i < s.len() && s[i].0 == k;
        lemma_map_of_pairs_at(s, i);
    }
    assert forall|k: Seq<char>| #[trigger] m.dom().contains(k) implies map_of_pairs(
        s,
    ).dom().contains(k) by {
        lemma_map_of_pairs_dom(s, k);
    }
    assert(map_of_pairs(s).dom() =~= m.dom());
    assert(map_of_pairs(s) =~= m);
}

/// Appending a pair updates the denoted mapping at the pair's key.
pub proof fn lemma_map_of_pairs_push<V>(s: Seq<(Seq<char>, V)>, k: Seq<char>, v: V)
    ensures
        map_of_pairs(s.push((k, v))) == map_of_pairs(s).insert(k, v),
{
    assert(s.push((k, v)).drop_last() =~= s);
}

} // verus!
