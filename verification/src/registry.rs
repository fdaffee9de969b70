//! The registry: a map from a reified type identity to a shared actor
//! handle, so that an actor can be discovered by the type of its
//! instantiation without being threaded explicitly through caller code.

use vstd::prelude::*;
use std::collections::HashMap;

verus! {

broadcast use vstd::std_specs::hash::group_hash_axioms;

/// A map from a type identity, reified as a `u64` key, to the handle
/// registered under it. At most one entry exists per identity; a later
/// registration under the same identity overwrites the earlier one.
pub struct Registry<H> {
    entries: HashMap<u64, H>,
}

impl<H> View for Registry<H> {
    type V = Map<u64, H>;

    closed spec fn view(&self) -> Map<u64, H> {
        self.entries@
    }
}

impl<H> Registry<H> {
    /// An empty registry.
    pub fn new() -> (r: Self)
        ensures
            r@ == Map::<u64, H>::empty(),
    {
        Registry { entries: HashMap::new() }
    }

    /// Insert, or overwrite, the handle stored under the given type
    /// identity.
    pub fn add_child(&mut self, type_: u64, child: H)
        ensures
            final(self)@ == old(self)@.insert(type_, child),
    {
        self.entries.insert(type_, child);
    }

    /// The handle stored under the given type identity, or `None` when
    /// nothing is registered under it.
    pub fn get_child(&self, type_: u64) -> (r: Option<&H>)
        ensures
            match r {
                Some(child) => self@.contains_key(type_) && *child == self@[type_],
                None => !self@.contains_key(type_),
            },
    {
        self.entries.get(&type_)
    }
}

/// Registry identity: fetching the identity just registered yields exactly
/// the handle that was stored, while an identity that was never registered
/// stays absent and yields an empty result.
pub proof fn lemma_registry_identity<H>(m: Map<u64, H>, type_: u64, other: u64, child: H)
    requires
        other != type_,
    ensures
        m.insert(type_, child).contains_key(type_),
        m.insert(type_, child)[type_] == child,
        m.insert(type_, child).contains_key(other) == m.contains_key(other),
{
}

} // verus!
