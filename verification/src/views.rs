//! Shared mathematical views of the plain data the library works with:
//! sequences of strings and of key/value pairs, and the map a pair list
//! denotes.

use vstd::prelude::*;

verus! {

/// The character sequences of a sequence of strings.
pub open spec fn strs_view(v: Seq<String>) -> Seq<Seq<char>> {
    v.map_values(|s: String| s@)
}

/// The character sequences of a sequence of key/value pairs.
pub open spec fn pairs_view(v: Seq<(String, String)>) -> Seq<(Seq<char>, Seq<char>)> {
    v.map_values(|p: (String, String)| (p.0@, p.1@))
}

/// The map denoted by a pair list: a later pair with the same key wins.
pub open spec fn map_of_pairs(v: Seq<(Seq<char>, Seq<char>)>) -> Map<Seq<char>, Seq<char>>
    decreases v.len(),
{
    if v.len() == 0 {
        Map::empty()
    } else {
        map_of_pairs(v.drop_last()).insert(v.last().0, v.last().1)
    }
}

/// No two pairs share a key.
pub open spec fn keys_unique(v: Seq<(Seq<char>, Seq<char>)>) -> bool {
    forall|i: int, j: int| 0 <= i < j < v.len() ==> v[i].0 != v[j].0
}

/// For a uniquely-keyed pair list, the denoted map holds exactly the listed
/// keys, each at its listed value.
pub proof fn lemma_map_of_pairs_membership(v: Seq<(Seq<char>, Seq<char>)>)
    requires
        keys_unique(v),
    ensures
        forall|k: Seq<char>| #[trigger] map_of_pairs(v).contains_key(k) <==> (exists|i: int|
            0 <= i < v.len() && v[i].0 == k),
        forall|i: int| 0 <= i < v.len() ==> map_of_pairs(v).contains_key(#[trigger] v[i].0)
            && map_of_pairs(v)[v[i].0] == v[i].1,
    decreases v.len(),
{
    if v.len() > 0 {
        let w = v.drop_last();
        assert(keys_unique(w)) by {
            assert forall|i: int, j: int| 0 <= i < j < w.len() implies w[i].0 != w[j].0 by {
                assert(w[i] == v[i] && w[j] == v[j]);
            }
        }
        lemma_map_of_pairs_membership(w);
        assert(map_of_pairs(v) == map_of_pairs(w).insert(v.last().0, v.last().1));
        assert forall|k: Seq<char>| #[trigger] map_of_pairs(v).contains_key(k) implies (
        exists|i: int| 0 <= i < v.len() && v[i].0 == k) by {
            if k == v.last().0 {
                assert(v[v.len() - 1].0 == k);
            } else {
                assert(map_of_pairs(w).contains_key(k));
                let i = choose|i: int| 0 <= i < w.len() && w[i].0 == k;
                assert(w[i] == v[i]);
                assert(v[i].0 == k);
            }
        }
        assert forall|k: Seq<char>| (exists|i: int| 0 <= i < v.len() && v[i].0 == k) implies
        #[trigger] map_of_pairs(v).contains_key(k) by {
            let i = choose|i: int| 0 <= i < v.len() && v[i].0 == k;
            if i < v.len() - 1 {
                assert(w[i] == v[i]);
                assert(w[i].0 == k);
                assert(map_of_pairs(w).contains_key(k));
            }
        }
        assert forall|i: int| 0 <= i < v.len() implies map_of_pairs(v).contains_key(
            #[trigger] v[i].0,
        ) && map_of_pairs(v)[v[i].0] == v[i].1 by {
            if i < v.len() - 1 {
                assert(w[i] == v[i]);
                assert(v[i].0 != v.last().0);
            }
        }
    }
}

} // verus!
