//! The total-mapping abstraction: a mapping keyed by a closed enumeration in
//! which every member is present.
//!
//! Values are stored in declaration order of the key enumeration, so the
//! mapping's view is the sequence of values, indexed by the key's
//! declaration index.  Construction demands one value per member, lookup is
//! infallible, and iteration (by index) visits the members in declaration
//! order.

use crate::enumeration::Enumeration;
use core::marker::PhantomData;
use vstd::prelude::*;

verus! {

/// A total mapping from the enumeration `K` to values `V`: for every member
/// of `K` there is exactly one associated value.
///
/// The view is the sequence of values in declaration order of `K`; the value
/// associated with a member `k` is the view at `k.index_spec()`.
pub struct SchemingEnumMap<K, V> {
    pub entries: Vec<V>,
    pub keys: PhantomData<K>,
}

impl<K: Enumeration, V> View for SchemingEnumMap<K, V> {
    type V = Seq<V>;

    open spec fn view(&self) -> Seq<V> {
        self.entries@
    }
}

impl<K: Enumeration, V> SchemingEnumMap<K, V> {
    /// Well-formed: exactly one value per member of the enumeration.
    pub open spec fn wf(self) -> bool {
        self@.len() == K::count_spec()
    }

    /// The value associated with a member.
    pub open spec fn spec_at(self, k: K) -> V {
        self@[k.index_spec()]
    }

    /// Construct from one value per member, given in declaration order.
    pub fn from_entries(entries: Vec<V>) -> (m: Self)
        requires
            entries@.len() == K::count_spec(),
        ensures
            m.wf(),
            m@ == entries@,
    {
        SchemingEnumMap { entries, keys: PhantomData }
    }

    /// Infallible lookup.
    pub fn get(&self, k: K) -> (v: &V)
        requires
            self.wf(),
        ensures
            *v == self.spec_at(k),
    {
        proof {
            k.lemma_index_bounds();
        }
        let i = k.index();
        &self.entries[i]
    }

    /// The value at a declaration index: the one associated with
    /// `K::from_index(i)`.
    pub fn at_index(&self, i: usize) -> (v: &V)
        requires
            self.wf(),
            (i as int) < K::count_spec(),
        ensures
            *v == self@[i as int],
    {
        &self.entries[i]
    }

    /// How many entries the mapping holds: one per member.
    pub fn len(&self) -> (n: usize)
        requires
            self.wf(),
        ensures
            n as int == K::count_spec(),
    {
        self.entries.len()
    }
}

} // verus!
