//! The supervisor's map from actor id to the channel that reaches the actor,
//! kept in a `hashbrown::HashMap`.
use vstd::prelude::*;

verus! {

/// Actor ids mapped to the arena channel of their standard handle.
#[verifier::external_body]
pub struct Registry {
    map: hashbrown::HashMap<u16, usize>,
}

/// The entries a registry holds.
pub uninterp spec fn registry_entries(r: Registry) -> Map<u16, usize>;

impl Registry {
    /// Relies on `hashbrown::HashMap::new`: a map with no entries.
    #[verifier::external_body]
    pub(crate) fn empty() -> (r: Registry)
        ensures
            registry_entries(r).dom() == Set::<u16>::empty(),
    {
        Registry { map: hashbrown::HashMap::new() }
    }

    /// Relies on `hashbrown::HashMap::insert`: the key now maps to the value,
    /// and the value it had before, if any, is returned.
    #[verifier::external_body]
    pub(crate) fn insert(&mut self, id: u16, slot: usize) -> (r: Option<usize>)
        ensures
            registry_entries(*final(self)) == registry_entries(*old(self)).insert(id, slot),
            registry_entries(*old(self)).dom().contains(id) ==> r == Some(
                registry_entries(*old(self))[id],
            ),
            !registry_entries(*old(self)).dom().contains(id) ==> r is None,
    {
        self.map.insert(id, slot)
    }

    /// Relies on `hashbrown::HashMap::get`: the value under the key, if any.
    #[verifier::external_body]
    pub(crate) fn get(&self, id: u16) -> (r: Option<usize>)
        ensures
            registry_entries(*self).dom().contains(id) ==> r == Some(registry_entries(*self)[id]),
            !registry_entries(*self).dom().contains(id) ==> r is None,
    {
        self.map.get(&id).copied()
    }

    /// Relies on `hashbrown::HashMap::len`: the number of entries.
    #[verifier::external_body]
    pub(crate) fn len(&self) -> (r: usize)
        ensures
            registry_entries(*self).dom().finite() ==> r == registry_entries(*self).len(),
    {
        self.map.len()
    }
}

} // verus!
