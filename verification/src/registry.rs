use std::collections::HashMap;
use vstd::prelude::*;

verus! {

broadcast use vstd::std_specs::hash::group_hash_axioms;

/// Incrementing-id keyed store.
///
/// Every insertion is issued a fresh id, strictly greater than every id
/// issued before on the same instance and never zero, so an id is never
/// reused over the lifetime of one map. Entries may only be replaced or
/// removed under ids the map itself issued and still holds, which keeps
/// callers from forging ids into the store.
pub struct AutoIdMap<T> {
    last_id: usize,
    map: HashMap<usize, T>,
}

impl<T> AutoIdMap<T> {
    /// The ids currently stored, with the values they own.
    pub closed spec fn entries(&self) -> Map<usize, T> {
        self.map@
    }

    /// The greatest id issued so far; zero before any insertion.
    pub closed spec fn issued_up_to(&self) -> usize {
        self.last_id
    }

    /// Every stored id lies between one and the high-water mark, so no
    /// stored id can collide with an id yet to be issued.
    pub open spec fn well_formed(&self) -> bool {
        forall|id: usize| #[trigger] self.entries().dom().contains(id)
            ==> 1 <= id <= self.issued_up_to()
    }

    pub fn new() -> (m: AutoIdMap<T>)
        ensures
            m.well_formed(),
            m.entries() == Map::<usize, T>::empty(),
            m.issued_up_to() == 0,
    {
        AutoIdMap { last_id: 0, map: HashMap::new() }
    }

    /// Stores `elem` under a fresh id and returns that id. The id is
    /// one more than the previous high-water mark, hence strictly greater
    /// than every id issued before on this instance, and never zero.
    pub fn insert(&mut self, elem: T) -> (id: usize)
        requires
            old(self).well_formed(),
            old(self).issued_up_to() < usize::MAX,
        ensures
            final(self).well_formed(),
            id == old(self).issued_up_to() + 1,
            final(self).issued_up_to() == id,
            !old(self).entries().dom().contains(id),
            forall|prev: usize| #[trigger] old(self).entries().dom().contains(prev) ==> prev < id,
            final(self).entries() == old(self).entries().insert(id, elem),
    {
        self.last_id = self.last_id + 1;
        self.map.insert(self.last_id, elem);
        proof {
            assert forall|id: usize| #[trigger] self.entries().dom().contains(id)
                implies 1 <= id <= self.issued_up_to() by {
                if id != self.last_id {
                    assert(old(self).entries().dom().contains(id));
                }
            }
        }
        self.last_id
    }

    /// Replaces the value stored under an id the map already holds.
    /// Callers must establish that the id is present; an absent id is a
    /// programming error, not a recoverable condition.
    pub fn replace(&mut self, id: &usize, elem: T)
        requires
            old(self).well_formed(),
            old(self).entries().dom().contains(*id),
        ensures
            final(self).well_formed(),
            final(self).issued_up_to() == old(self).issued_up_to(),
            final(self).entries() == old(self).entries().insert(*id, elem),
    {
        self.map.insert(*id, elem);
    }

    pub fn get(&self, id: &usize) -> (r: Option<&T>)
        ensures
            match r {
                Some(v) => self.entries().dom().contains(*id) && *v == self.entries()[*id],
                None => !self.entries().dom().contains(*id),
            },
    {
        self.map.get(id)
    }

    /// Removes and returns the value stored under an id the map holds.
    /// Callers must establish that the id is present; an absent id is a
    /// programming error, not a recoverable condition.
    pub fn remove(&mut self, id: &usize) -> (r: T)
        requires
            old(self).well_formed(),
            old(self).entries().dom().contains(*id),
        ensures
            final(self).well_formed(),
            final(self).issued_up_to() == old(self).issued_up_to(),
            r == old(self).entries()[*id],
            final(self).entries() == old(self).entries().remove(*id),
    {
        match self.map.remove(id) {
            Some(v) => v,
            None => vstd::pervasive::unreached(),
        }
    }

    pub fn len(&self) -> (n: usize)
        ensures
            n == self.entries().len(),
    {
        self.map.len()
    }

    pub fn contains_key(&self, id: &usize) -> (r: bool)
        ensures
            r == self.entries().dom().contains(*id),
    {
        self.map.contains_key(id)
    }
}

/// Law: ids grow monotonically and are never reused. Any id a well-formed
/// map still stores is positive and at most the high-water mark, while
/// `insert` always issues one more than the high-water mark; so every id
/// issued later is strictly greater than every id stored or issued earlier
/// on the same instance.
pub proof fn lemma_identity_monotonic<T>(m: AutoIdMap<T>, id: usize)
    requires
        m.well_formed(),
        m.entries().dom().contains(id),
    ensures
        1 <= id && id <= m.issued_up_to(),
{
}

} // verus!
