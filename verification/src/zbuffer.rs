use vstd::prelude::*;

verus! {

/// The distance key of the nearest hit among `s`: the smallest key of the
/// `Some` entries, or `None` where every entry missed. An entry is the
/// outcome of one ray-object intersection query, keyed so that a smaller
/// key means a closer hit.
pub open spec fn nearest_key(s: Seq<Option<u64>>) -> Option<u64>
    decreases s.len(),
{
    if s.len() == 0 {
        None
    } else {
        match (nearest_key(s.drop_last()), s.last()) {
            (None, last) => last,
            (Some(k), None) => Some(k),
            (Some(k), Some(l)) => if l < k {
                Some(l)
            } else {
                Some(k)
            },
        }
    }
}

/// What `nearest_key` selects: nothing exactly when every entry missed,
/// otherwise a key that is present and minimal among the hits.
pub proof fn lemma_nearest_key_is_min(s: Seq<Option<u64>>)
    ensures
        nearest_key(s) is None <==> (forall|j: int| 0 <= j < s.len() ==> s[j] is None),
        nearest_key(s) is Some ==> exists|i: int|
            0 <= i < s.len() && s[i] == Some(nearest_key(s)->0),
        forall|j: int|
            0 <= j < s.len() && s[j] is Some ==> nearest_key(s) is Some && nearest_key(
                s,
            )->0 <= s[j]->0,
    decreases s.len(),
{
    if s.len() > 0 {
        lemma_nearest_key_is_min(s.drop_last());
        let rest = s.drop_last();
        assert(forall|j: int| 0 <= j < rest.len() ==> rest[j] == s[j]);
        assert(s.last() == s[s.len() - 1]);
        if nearest_key(s) is Some {
            let k = nearest_key(s)->0;
            if nearest_key(rest) == Some(k) {
                let i = choose|i: int| 0 <= i < rest.len() && rest[i] == Some(k);
                assert(s[i] == Some(k));
            } else {
                assert(s[s.len() - 1] == Some(k));
            }
        }
    }
}

/// An entry of one collection is an entry of any rearrangement of it.
proof fn lemma_contains_transfer(s1: Seq<Option<u64>>, s2: Seq<Option<u64>>, x: Option<u64>)
    requires
        s1.to_multiset() == s2.to_multiset(),
        s1.contains(x),
    ensures
        s2.contains(x),
{
    broadcast use vstd::seq_lib::group_to_multiset_ensures;

    assert(s1.to_multiset().count(x) > 0);
    assert(s2.to_multiset().count(x) > 0);
}

/// The nearest hit does not depend on the order of the entries: two
/// collections holding the same hits, however arranged, select the same
/// distance key. This is the z-buffer rule's indifference to the order of
/// the scene's object list.
pub proof fn lemma_nearest_key_order_irrelevant(s1: Seq<Option<u64>>, s2: Seq<Option<u64>>)
    requires
        s1.to_multiset() == s2.to_multiset(),
    ensures
        nearest_key(s1) == nearest_key(s2),
{
    lemma_nearest_key_is_min(s1);
    lemma_nearest_key_is_min(s2);
    match (nearest_key(s1), nearest_key(s2)) {
        (None, None) => {
        },
        (Some(k1), None) => {
            let i = choose|i: int| 0 <= i < s1.len() && s1[i] == Some(k1);
            assert(s1.contains(Some(k1)));
            lemma_contains_transfer(s1, s2, Some(k1));
            let j = choose|j: int| 0 <= j < s2.len() && s2[j] == Some(k1);
        },
        (None, Some(k2)) => {
            let i = choose|i: int| 0 <= i < s2.len() && s2[i] == Some(k2);
            assert(s2.contains(Some(k2)));
            lemma_contains_transfer(s2, s1, Some(k2));
            let j = choose|j: int| 0 <= j < s1.len() && s1[j] == Some(k2);
        },
        (Some(k1), Some(k2)) => {
            let i1 = choose|i: int| 0 <= i < s1.len() && s1[i] == Some(k1);
            assert(s1.contains(Some(k1)));
            lemma_contains_transfer(s1, s2, Some(k1));
            let j1 = choose|j: int| 0 <= j < s2.len() && s2[j] == Some(k1);
            assert(k2 <= k1);
            let i2 = choose|i: int| 0 <= i < s2.len() && s2[i] == Some(k2);
            assert(s2.contains(Some(k2)));
            lemma_contains_transfer(s2, s1, Some(k2));
            let j2 = choose|j: int| 0 <= j < s1.len() && s1[j] == Some(k2);
            assert(k1 <= k2);
        },
    }
}

/// Scans the intersection outcomes of one ray against every object and
/// returns the index of the nearest hit: the entry with the smallest key,
/// and among equal keys the first in scan order, as a z-buffer comparison
/// would keep it. Returns `None` exactly when every entry missed.
pub fn nearest_hit(hits: &Vec<Option<u64>>) -> (r: Option<usize>)
    ensures
        r is None <==> (forall|j: int| 0 <= j < hits@.len() ==> hits@[j] is None),
        r matches Some(i) ==> {
            &&& 0 <= i < hits@.len()
            &&& hits@[i as int] is Some
            &&& Some(hits@[i as int]->0) == nearest_key(hits@)
            &&& forall|j: int|
                0 <= j < hits@.len() && hits@[j] is Some ==> hits@[i as int]->0 <= hits@[j]->0
            &&& forall|j: int| 0 <= j < i ==> hits@[j] is None || hits@[i as int]->0 < hits@[j]->0
        },
{
    let mut best: Option<usize> = None;
    let mut best_key: u64 = 0;
    let mut j: usize = 0;
    while j < hits.len()
        invariant
            j <= hits@.len(),
            best is None <==> (forall|k: int| 0 <= k < j ==> hits@[k] is None),
            best matches Some(i) ==> {
                &&& 0 <= i < j
                &&& hits@[i as int] == Some(best_key)
                &&& forall|k: int|
                    0 <= k < j && hits@[k] is Some ==> best_key <= hits@[k]->0
                &&& forall|k: int| 0 <= k < i ==> hits@[k] is None || best_key < hits@[k]->0
            },
        decreases hits@.len() - j,
    {
        if let Some(key) = hits[j] {
            let better = match best {
                Some(_) => key < best_key,
                None => true,
            };
            if better {
                best = Some(j);
                best_key = key;
            }
        }
        j = j + 1;
    }
    proof {
        lemma_nearest_key_is_min(hits@);
        if best is Some {
            let i = best->0;
            let k = hits@[i as int]->0;
            assert(hits@[i as int] == Some(k));
            assert(nearest_key(hits@) is Some);
            let nk = nearest_key(hits@)->0;
            let w = choose|w: int| 0 <= w < hits@.len() && hits@[w] == Some(nk);
            assert(k <= nk);
            assert(nk <= k);
        }
    }
    best
}

} // verus!
