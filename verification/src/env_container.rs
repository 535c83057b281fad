//! The environment intended for the child process, kept apart from the
//! process's own environment: a uniquely-keyed variable list plus the
//! intended working directory, modelled as a map from names to values.

use vstd::prelude::*;

use crate::strutil::str_eq;
use crate::views::{keys_unique, lemma_map_of_pairs_membership, map_of_pairs, pairs_view};

verus! {

/// The environment for the session child: variables and working directory.
/// The list never holds two variables of the same name.
pub struct EnvironmentContainer {
    pub vars: Vec<(String, String)>,
    pub working_dir: String,
}

/// The map a pair list denotes, with a later duplicate key winning, extended
/// pair by pair onto a base map.
pub open spec fn spec_merge(
    base: Map<Seq<char>, Seq<char>>,
    pairs: Seq<(Seq<char>, Seq<char>)>,
) -> Map<Seq<char>, Seq<char>>
    decreases pairs.len(),
{
    if pairs.len() == 0 {
        base
    } else {
        spec_merge(base, pairs.drop_last()).insert(pairs.last().0, pairs.last().1)
    }
}

/// Merging prefers the merged-in pairs: a key among them ends at its value in
/// the pair list's own map, and any other key keeps its base value.
pub proof fn lemma_merge_prefers_pairs(
    base: Map<Seq<char>, Seq<char>>,
    pairs: Seq<(Seq<char>, Seq<char>)>,
)
    ensures
        forall|k: Seq<char>| #[trigger] spec_merge(base, pairs).contains_key(k) <==> (
        base.contains_key(k) || map_of_pairs(pairs).contains_key(k)),
        forall|k: Seq<char>| map_of_pairs(pairs).contains_key(k) ==> #[trigger] spec_merge(
            base,
            pairs,
        )[k] == map_of_pairs(pairs)[k],
        forall|k: Seq<char>|
            !map_of_pairs(pairs).contains_key(k) && base.contains_key(k) ==> #[trigger] spec_merge(
                base,
                pairs,
            )[k] == base[k],
    decreases pairs.len(),
{
    if pairs.len() > 0 {
        let p = pairs.drop_last();
        let k0 = pairs.last().0;
        lemma_merge_prefers_pairs(base, p);
        assert forall|k: Seq<char>| #[trigger] spec_merge(base, pairs).contains_key(k) <==> (
        base.contains_key(k) || map_of_pairs(pairs).contains_key(k)) by {
            if k == k0 {
                assert(map_of_pairs(pairs).contains_key(k));
                assert(spec_merge(base, pairs).contains_key(k));
            } else {
                assert(spec_merge(base, pairs).contains_key(k) == spec_merge(
                    base,
                    p,
                ).contains_key(k));
                assert(map_of_pairs(pairs).contains_key(k) == map_of_pairs(p).contains_key(k));
            }
        }
        assert forall|k: Seq<char>| map_of_pairs(pairs).contains_key(k) implies #[trigger]
        spec_merge(base, pairs)[k] == map_of_pairs(pairs)[k] by {
            if k != k0 {
                assert(map_of_pairs(pairs)[k] == map_of_pairs(p)[k]);
                assert(map_of_pairs(p).contains_key(k));
                assert(spec_merge(base, pairs)[k] == spec_merge(base, p)[k]);
            }
        }
        assert forall|k: Seq<char>|
            !map_of_pairs(pairs).contains_key(k) && base.contains_key(k) implies #[trigger]
        spec_merge(base, pairs)[k] == base[k] by {
            assert(k != k0);
            assert(!map_of_pairs(p).contains_key(k));
            assert(spec_merge(base, pairs)[k] == spec_merge(base, p)[k]);
        }
    }
}

impl EnvironmentContainer {
    /// The container invariant: variable names are unique.
    pub open spec fn wf(&self) -> bool {
        keys_unique(pairs_view(self.vars@))
    }

    /// The variables as a map from name to value.
    pub open spec fn as_map(&self) -> Map<Seq<char>, Seq<char>> {
        map_of_pairs(pairs_view(self.vars@))
    }

    /// Build a container from an initial variable list (as the surrounding
    /// process environment hands it over) and a working directory. A later
    /// duplicate of a name overwrites the earlier one.
    pub fn from_pairs(pairs: &Vec<(String, String)>, working_dir: String) -> (r:
        EnvironmentContainer)
        ensures
            r.wf(),
            r.as_map() == spec_merge(Map::<Seq<char>, Seq<char>>::empty(), pairs_view(pairs@)),
            r.working_dir == working_dir,
    {
        let mut container = EnvironmentContainer { vars: Vec::new(), working_dir };
        proof {
            assert(pairs_view(container.vars@) =~= Seq::<(Seq<char>, Seq<char>)>::empty());
        }
        let mut i: usize = 0;
        while i < pairs.len()
            invariant
                0 <= i <= pairs@.len(),
                container.wf(),
                container.as_map() == spec_merge(
                    Map::<Seq<char>, Seq<char>>::empty(),
                    pairs_view(pairs@).subrange(0, i as int),
                ),
                container.working_dir == working_dir,
            decreases pairs@.len() - i,
        {
            let pair = &pairs[i];
            container.set(pair.0.as_str(), pair.1.as_str());
            proof {
                let pv = pairs_view(pairs@);
                assert(pv.subrange(0, i as int + 1).drop_last() =~= pv.subrange(0, i as int));
                assert(pv.subrange(0, i as int + 1).last() == pv[i as int]);
            }
            i = i + 1;
        }
        proof {
            assert(pairs_view(pairs@).subrange(0, pairs@.len() as int) =~= pairs_view(pairs@));
        }
        container
    }

    /// Set a variable, overwriting any present value of the same name.
    pub fn set(&mut self, key: &str, value: &str)
        requires
            old(self).wf(),
        ensures
            final(self).wf(),
            final(self).as_map() == old(self).as_map().insert(key@, value@),
            final(self).working_dir == old(self).working_dir,
    {
        let ghost pv0 = pairs_view(self.vars@);
        let mut i: usize = 0;
        while i < self.vars.len()
            invariant
                self == old(self),
                pv0 == pairs_view(self.vars@),
                keys_unique(pv0),
                0 <= i <= self.vars@.len(),
                forall|j: int| 0 <= j < i ==> pairs_view(self.vars@)[j].0 != key@,
            decreases self.vars@.len() - i,
        {
            if str_eq(self.vars[i].0.as_str(), key) {
                proof {
                    assert(pv0[i as int].0 == key@);
                }
                self.vars[i] = (key.to_owned(), value.to_owned());
                proof {
                    let pv = pairs_view(self.vars@);
                    assert(pv =~= pv0.update(i as int, (key@, value@)));
                    assert forall|j: int, l: int| 0 <= j < l < pv.len() implies pv[j].0
                        != pv[l].0 by {
                        if j != i as int && l != i as int {
                            assert(pv[j] == pv0[j] && pv[l] == pv0[l]);
                        } else if j == i as int {
                            assert(pv[j].0 == key@ && pv0[j].0 == key@ && pv[l] == pv0[l]);
                        } else {
                            assert(pv[l].0 == key@ && pv0[l].0 == key@ && pv[j] == pv0[j]);
                        }
                    }
                    assert(keys_unique(pv));
                    lemma_map_of_pairs_membership(pv0);
                    lemma_map_of_pairs_membership(pv);
                    assert forall|k: Seq<char>| true implies map_of_pairs(pv).contains_key(k)
                        == #[trigger] map_of_pairs(pv0).insert(key@, value@).contains_key(k) by {
                        assert(pv[i as int].0 == key@);
                        if map_of_pairs(pv).contains_key(k) {
                            let x = choose|x: int| 0 <= x < pv.len() && pv[x].0 == k;
                            if x != i as int {
                                assert(pv0[x] == pv[x]);
                                assert(pv0[x].0 == k);
                                assert(map_of_pairs(pv0).contains_key(k));
                            }
                            assert(map_of_pairs(pv0).insert(key@, value@).contains_key(k));
                        }
                        if k == key@ {
                            assert(map_of_pairs(pv).contains_key(k));
                        } else if map_of_pairs(pv0).contains_key(k) {
                            let x = choose|x: int| 0 <= x < pv0.len() && pv0[x].0 == k;
                            assert(x != i as int);
                            assert(pv[x] == pv0[x]);
                            assert(pv[x].0 == k);
                            assert(map_of_pairs(pv).contains_key(k));
                        }
                    }
                    assert forall|k: Seq<char>| map_of_pairs(pv).contains_key(k) implies
                        #[trigger] map_of_pairs(pv)[k] == map_of_pairs(pv0).insert(
                        key@,
                        value@,
                    )[k] by {
                        let x = choose|x: int| 0 <= x < pv.len() && pv[x].0 == k;
                        if x == i as int {
                            assert(k == key@);
                        } else {
                            assert(pv0[x].0 == k && pv0[x].1 == pv[x].1);
                            assert(pv[i as int].0 == key@);
                            assert(k != key@);
                        }
                    }
                    assert(map_of_pairs(pv) =~= map_of_pairs(pv0).insert(key@, value@));
                }
                return ;
            }
            i = i + 1;
        }
        self.vars.push((key.to_owned(), value.to_owned()));
        proof {
            let pv = pairs_view(self.vars@);
            assert(pv =~= pv0.push((key@, value@)));
            assert forall|j: int, l: int| 0 <= j < l < pv.len() implies pv[j].0 != pv[l].0 by {
                if l < pv.len() - 1 {
                    assert(pv0[j] == pv[j] && pv0[l] == pv[l]);
                } else {
                    assert(pv[j] == pv0[j]);
                }
            }
            assert(pv.drop_last() =~= pv0);
            assert(map_of_pairs(pv) == map_of_pairs(pv0).insert(key@, value@));
        }
    }

    /// Set a variable only if no variable of that name is present yet.
    pub fn set_or_preserve(&mut self, key: &str, value: &str)
        requires
            old(self).wf(),
        ensures
            final(self).wf(),
            final(self).working_dir == old(self).working_dir,
            old(self).as_map().contains_key(key@) ==> *final(self) == *old(self),
            !old(self).as_map().contains_key(key@) ==> final(self).as_map() == old(
                self,
            ).as_map().insert(key@, value@),
    {
        let mut i: usize = 0;
        while i < self.vars.len()
            invariant
                self == old(self),
                old(self).wf(),
                0 <= i <= self.vars@.len(),
                forall|j: int| 0 <= j < i ==> pairs_view(self.vars@)[j].0 != key@,
            decreases self.vars@.len() - i,
        {
            if str_eq(self.vars[i].0.as_str(), key) {
                proof {
                    let pv = pairs_view(self.vars@);
                    assert(pv[i as int].0 == key@);
                    lemma_map_of_pairs_membership(pv);
                }
                return ;
            }
            i = i + 1;
        }
        proof {
            let pv = pairs_view(self.vars@);
            lemma_map_of_pairs_membership(pv);
            if self.as_map().contains_key(key@) {
                let x = choose|x: int| 0 <= x < pv.len() && pv[x].0 == key@;
                assert(false);
            }
        }
        self.set(key, value);
    }

    /// Synonym for [`EnvironmentContainer::set_or_preserve`].
    pub fn set_or_own(&mut self, key: &str, value: &str)
        requires
            old(self).wf(),
        ensures
            final(self).wf(),
            final(self).working_dir == old(self).working_dir,
            old(self).as_map().contains_key(key@) ==> *final(self) == *old(self),
            !old(self).as_map().contains_key(key@) ==> final(self).as_map() == old(
                self,
            ).as_map().insert(key@, value@),
    {
        self.set_or_preserve(key, value);
    }

    /// Remove a variable, if present.
    pub fn remove_var(&mut self, key: &str)
        requires
            old(self).wf(),
        ensures
            final(self).wf(),
            final(self).working_dir == old(self).working_dir,
            final(self).as_map() == old(self).as_map().remove(key@),
    {
        let ghost pv0 = pairs_view(self.vars@);
        let mut i: usize = 0;
        while i < self.vars.len()
            invariant
                self == old(self),
                pv0 == pairs_view(self.vars@),
                keys_unique(pv0),
                0 <= i <= self.vars@.len(),
                forall|j: int| 0 <= j < i ==> pairs_view(self.vars@)[j].0 != key@,
            decreases self.vars@.len() - i,
        {
            if str_eq(self.vars[i].0.as_str(), key) {
                self.vars.remove(i);
                proof {
                    let pv = pairs_view(self.vars@);
                    assert(pv =~= pv0.remove(i as int));
                    assert forall|j: int, l: int| 0 <= j < l < pv.len() implies pv[j].0
                        != pv[l].0 by {
                        let j0 = if j < i as int { j } else { j + 1 };
                        let l0 = if l < i as int { l } else { l + 1 };
                        assert(pv[j] == pv0[j0] && pv[l] == pv0[l0]);
                    }
                    lemma_map_of_pairs_membership(pv0);
                    lemma_map_of_pairs_membership(pv);
                    assert(pv0[i as int].0 == key@);
                    assert forall|k: Seq<char>| true implies map_of_pairs(pv).contains_key(k)
                        == #[trigger] map_of_pairs(pv0).remove(key@).contains_key(k) by {
                        if map_of_pairs(pv).contains_key(k) {
                            let x = choose|x: int| 0 <= x < pv.len() && pv[x].0 == k;
                            let x0 = if x < i as int { x } else { x + 1 };
                            assert(pv0[x0] == pv[x]);
                            assert(k != key@);
                        }
                        if k != key@ && map_of_pairs(pv0).contains_key(k) {
                            let x = choose|x: int| 0 <= x < pv0.len() && pv0[x].0 == k;
                            if x < i as int {
                                assert(pv[x] == pv0[x]);
                            } else if x > i as int {
                                assert(pv[x - 1] == pv0[x]);
                            }
                        }
                    }
                    assert forall|k: Seq<char>| map_of_pairs(pv).contains_key(k) implies
                        #[trigger] map_of_pairs(pv)[k] == map_of_pairs(pv0).remove(key@)[k] by {
                        let x = choose|x: int| 0 <= x < pv.len() && pv[x].0 == k;
                        let x0 = if x < i as int { x } else { x + 1 };
                        assert(pv0[x0] == pv[x]);
                        assert(k != key@);
                    }
                    assert(map_of_pairs(pv) =~= map_of_pairs(pv0).remove(key@));
                }
                return ;
            }
            i = i + 1;
        }
        proof {
            lemma_map_of_pairs_membership(pv0);
            if self.as_map().contains_key(key@) {
                let x = choose|x: int| 0 <= x < pv0.len() && pv0[x].0 == key@;
                assert(false);
            }
            assert(self.as_map() =~= self.as_map().remove(key@));
        }
    }

    /// Set the intended working directory for the session.
    pub fn set_current_dir(&mut self, value: &str)
        requires
            old(self).wf(),
        ensures
            final(self).wf(),
            final(self).vars == old(self).vars,
            final(self).working_dir@ == value@,
    {
        self.working_dir = value.to_owned();
    }

    /// Merge a harvested variable list into the container, in order, so that
    /// a merged-in value wins over whatever was present before.
    pub fn merge_pairs(&mut self, pairs: &Vec<(String, String)>)
        requires
            old(self).wf(),
        ensures
            final(self).wf(),
            final(self).working_dir == old(self).working_dir,
            final(self).as_map() == spec_merge(old(self).as_map(), pairs_view(pairs@)),
    {
        let mut i: usize = 0;
        while i < pairs.len()
            invariant
                old(self).wf(),
                0 <= i <= pairs@.len(),
                self.wf(),
                self.working_dir == old(self).working_dir,
                self.as_map() == spec_merge(
                    old(self).as_map(),
                    pairs_view(pairs@).subrange(0, i as int),
                ),
            decreases pairs@.len() - i,
        {
            let pair = &pairs[i];
            self.set(pair.0.as_str(), pair.1.as_str());
            proof {
                let pv = pairs_view(pairs@);
                assert(pv.subrange(0, i as int + 1).drop_last() =~= pv.subrange(0, i as int));
                assert(pv.subrange(0, i as int + 1).last() == pv[i as int]);
            }
            i = i + 1;
        }
        proof {
            assert(pairs_view(pairs@).subrange(0, pairs@.len() as int) =~= pairs_view(pairs@));
        }
    }
}

} // verus!
