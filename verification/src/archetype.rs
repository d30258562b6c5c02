//! The cache of which archetypes a system's queries match.
//!
//! Entities with the same set of component types are stored together in an
//! archetype, and a world numbers its archetypes. A system either matches
//! every archetype, or keeps the set of archetype indices its queries were
//! last found to match.

use vstd::prelude::*;

verus! {

/// A set of archetype indices. Its model, `self@`, is the set of indices.
pub struct ArchetypeSet {
    members: Vec<usize>,
}

impl ArchetypeSet {
    /// The indices in the set.
    pub closed spec fn view(&self) -> Set<usize> {
        self.members@.to_set()
    }

    /// The empty set.
    pub fn new() -> (set: Self)
        ensures
            set@ == Set::<usize>::empty(),
    {
        ArchetypeSet { members: Vec::new() }
    }

    /// The set of the indices that `indices` lists.
    pub fn from_indices(indices: Vec<usize>) -> (set: Self)
        ensures
            set@ == indices@.to_set(),
    {
        ArchetypeSet { members: indices }
    }

    /// Whether `index` is in the set.
    pub fn contains(&self, index: usize) -> (found: bool)
        ensures
            found == self@.contains(index),
    {
        let mut i: usize = 0;
        while i < self.members.len()
            invariant
                i <= self.members@.len(),
                forall|j: int| 0 <= j < i ==> self.members@[j] != index,
            decreases self.members@.len() - i,
        {
            if self.members[i] == index {
                return true;
            }
            i += 1;
        }
        false
    }

    /// Adds `index` to the set.
    pub fn insert(&mut self, index: usize)
        ensures
            final(self)@ == old(self)@.insert(index),
    {
        if !self.contains(index) {
            self.members.push(index);
            assert(self@ =~= old(self)@.insert(index)) by {
                assert forall|k: usize| self@.contains(k) <==> old(self)@.insert(index).contains(k) by {
                    if old(self).members@.contains(k) {
                        let j = choose|j: int|
                            0 <= j < old(self).members@.len() && old(self).members@[j] == k;
                        assert(self.members@[j] == k);
                    }
                    if k == index {
                        assert(self.members@[old(self).members@.len() as int] == k);
                    }
                }
            }
        }
    }
}

/// Which archetypes a system's queries match.
///
/// The model, `self@`, is `None` for a system that matches every archetype and
/// otherwise the cached set of matching indices. A freshly built system that
/// matches nothing yet holds the empty set.
pub enum ArchetypeAccess {
    /// Every archetype matches.
    All,
    /// The archetypes in the cached set match.
    Cached(ArchetypeSet),
}

/// The cache that results from refreshing `cache` with a newly computed list
/// of matching indices: a system that matches everything keeps doing so, any
/// other cache is replaced by the new matches.
pub open spec fn refreshed(cache: Option<Set<usize>>, matched: Seq<usize>) -> Option<Set<usize>> {
    match cache {
        None => None,
        Some(_) => Some(matched.to_set()),
    }
}

impl ArchetypeAccess {
    /// `None` when every archetype matches, else the cached set.
    pub open spec fn view(&self) -> Option<Set<usize>> {
        match self {
            ArchetypeAccess::All => None,
            ArchetypeAccess::Cached(set) => Some(set@),
        }
    }

    /// Whether the archetype numbered `index` matches.
    pub open spec fn admits(&self, index: usize) -> bool {
        match self@ {
            None => true,
            Some(set) => set.contains(index),
        }
    }

    /// Whether the archetype numbered `index` matches.
    pub fn allows(&self, index: usize) -> (allowed: bool)
        ensures
            allowed == self.admits(index),
    {
        match self {
            ArchetypeAccess::All => true,
            ArchetypeAccess::Cached(set) => set.contains(index),
        }
    }

    /// Replaces the cached set by the indices in `matched`. Does nothing to a
    /// system that matches every archetype.
    pub fn refresh(&mut self, matched: Vec<usize>)
        ensures
            final(self)@ == refreshed(old(self)@, matched@),
    {
        match self {
            ArchetypeAccess::All => {},
            ArchetypeAccess::Cached(set) => {
                *set = ArchetypeSet::from_indices(matched);
            },
        }
    }
}

/// Refreshing twice with the same matches gives what refreshing once gives.
pub proof fn lemma_refresh_is_idempotent(cache: Option<Set<usize>>, matched: Seq<usize>)
    ensures
        refreshed(refreshed(cache, matched), matched) == refreshed(cache, matched),
{
}

} // verus!
