//! The closed-enumeration abstraction.
//!
//! Every identifier set of the data model (items, producers, technologies,
//! recipes) is a closed set of named members, iterable in declaration order.
//! The trait exposes the declaration index, the member count, the declared
//! name, and the inverse of the index, together with the laws that make the
//! index a bijection between the members and `0 .. count`.

use vstd::prelude::*;

verus! {

/// A closed set of named identifiers.
///
/// Members are totally described by their declaration index: `index` and
/// `from_index` are mutually inverse bijections between the members and the
/// range `0 .. count`, and `name` yields the declared spelling, which is the
/// property key used when a total mapping over the enumeration is serialised.
pub trait Enumeration: Sized + Copy {
    /// How many members the enumeration declares.
    spec fn count_spec() -> int;

    /// The declaration index of this member.
    spec fn index_spec(self) -> int;

    /// The member at a declaration index.
    spec fn from_index_spec(i: int) -> Self;

    /// The declared name of this member, verbatim.
    spec fn name_spec(self) -> Seq<char>;

    /// The enumeration declares at least one member.
    proof fn lemma_count_positive()
        ensures
            Self::count_spec() > 0,
    ;

    /// Every member's index lies in `0 .. count`.
    proof fn lemma_index_bounds(self)
        ensures
            0 <= self.index_spec() < Self::count_spec(),
    ;

    /// Taking a member's index and going back yields the member.
    proof fn lemma_index_roundtrip(self)
        ensures
            Self::from_index_spec(self.index_spec()) == self,
    ;

    /// Going from an in-range index to a member and back yields the index.
    proof fn lemma_from_index_roundtrip(i: int)
        requires
            0 <= i < Self::count_spec(),
        ensures
            Self::from_index_spec(i).index_spec() == i,
    ;

    fn count() -> (n: usize)
        ensures
            n as int == Self::count_spec(),
    ;

    fn index(self) -> (i: usize)
        ensures
            i as int == self.index_spec(),
    ;

    fn from_index(i: usize) -> (e: Self)
        requires
            (i as int) < Self::count_spec(),
        ensures
            e == Self::from_index_spec(i as int),
    ;

    fn name(self) -> (s: &'static str)
        ensures
            s@ == self.name_spec(),
    ;
}

/// Totality of enumeration-keyed mappings: walking the declaration indices
/// `0 .. count` visits every member exactly once.  A total mapping stored in
/// declaration order therefore has exactly one entry per member: each member
/// appears (at its own index), and no two indices hold the same member.
pub proof fn lemma_enumeration_totality<K: Enumeration>()
    ensures
        forall|e: K|
            0 <= #[trigger] e.index_spec() < K::count_spec() && K::from_index_spec(
                e.index_spec(),
            ) == e,
        forall|i: int, j: int|
            0 <= i < K::count_spec() && 0 <= j < K::count_spec() && i != j
                ==> #[trigger] K::from_index_spec(i) != #[trigger] K::from_index_spec(j),
{
    assert forall|e: K|
        0 <= #[trigger] e.index_spec() < K::count_spec() && K::from_index_spec(e.index_spec())
            == e by {
        e.lemma_index_bounds();
        e.lemma_index_roundtrip();
    }
    assert forall|i: int, j: int|
        0 <= i < K::count_spec() && 0 <= j < K::count_spec() && i != j
            implies #[trigger] K::from_index_spec(i) != #[trigger] K::from_index_spec(j) by {
        K::lemma_from_index_roundtrip(i);
        K::lemma_from_index_roundtrip(j);
    }
}

} // verus!
