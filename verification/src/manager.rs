//! Containers that hold named items, no two under one name.

use crate::error::{HouseError, HouseErrorView};
use vstd::prelude::*;

verus! {

/// A named container of named items. It never holds two items of one name:
/// an insertion under a name that is taken is rejected, and so is a removal
/// of a name that is not there.
pub trait Manager: Sized {
    /// What the container holds.
    type Item;

    /// The container's invariant: no two of its items share a name, and
    /// every item is itself valid.
    spec fn wf(&self) -> bool;

    /// The container's own name.
    spec fn spec_name(&self) -> Seq<char>;

    /// The items held, each under its name.
    spec fn entries(&self) -> Map<Seq<char>, Self::Item>;

    /// The name under which an item is held.
    spec fn item_name(item: Self::Item) -> Seq<char>;

    /// Whether an item is valid, and so may be handed to `add`.
    spec fn item_wf(item: Self::Item) -> bool;

    /// The failure that reports a name as taken.
    spec fn taken(name: Seq<char>) -> HouseErrorView;

    /// The failure that reports a name as absent.
    spec fn absent(name: Seq<char>) -> HouseErrorView;

    /// The container's own name.
    fn name(&self) -> (r: &str)
        ensures
            r@ == self.spec_name(),
    ;

    /// Inserts `item` under its name, unless that name is taken: then the
    /// container stays as it is and the failure names the item.
    fn add(&mut self, item: Self::Item) -> (r: Result<(), HouseError>)
        requires
            old(self).wf(),
            Self::item_wf(item),
        ensures
            final(self).wf(),
            final(self).spec_name() == old(self).spec_name(),
            r is Err ==> *final(self) == *old(self),
            added(
                old(self).entries(),
                Self::item_name(item),
                item,
                Self::taken(Self::item_name(item)),
                final(self).entries(),
                r,
            ),
    ;

    /// Removes the item held under `item`, unless there is none: then the
    /// container stays as it is and the failure gives the name.
    fn remove(&mut self, item: &str) -> (r: Result<(), HouseError>)
        requires
            old(self).wf(),
        ensures
            final(self).wf(),
            final(self).spec_name() == old(self).spec_name(),
            r is Err ==> *final(self) == *old(self),
            removed(old(self).entries(), item@, Self::absent(item@), final(self).entries(), r),
    ;
}

/// What an insertion does to the items held. `before` and `after` are the
/// items around the call, `name` is the name of `item`, `taken` the failure
/// that reports the name as taken, and `r` what the call returned.
pub open spec fn added<V>(
    before: Map<Seq<char>, V>,
    name: Seq<char>,
    item: V,
    taken: HouseErrorView,
    after: Map<Seq<char>, V>,
    r: Result<(), HouseError>,
) -> bool {
    match r {
        Ok(()) => !before.contains_key(name) && after == before.insert(name, item),
        Err(e) => before.contains_key(name) && e@ == taken && after == before,
    }
}

/// What a removal does to the items held. `before` and `after` are the items
/// around the call, `absent` is the failure that reports `name` as absent,
/// and `r` what the call returned.
pub open spec fn removed<V>(
    before: Map<Seq<char>, V>,
    name: Seq<char>,
    absent: HouseErrorView,
    after: Map<Seq<char>, V>,
    r: Result<(), HouseError>,
) -> bool {
    match r {
        Ok(()) => before.contains_key(name) && after == before.remove(name),
        Err(e) => !before.contains_key(name) && e@ == absent && after == before,
    }
}

/// Once an insertion under a name has been tried, the name is taken: a
/// second insertion under it is rejected as a duplicate and leaves the items
/// as the first left them.
pub proof fn lemma_add_again_is_rejected<M: Manager>(
    before: M,
    first: M::Item,
    between: M,
    r1: Result<(), HouseError>,
    second: M::Item,
    after: M,
    r2: Result<(), HouseError>,
)
    requires
        M::item_name(first) == M::item_name(second),
        added(
            before.entries(),
            M::item_name(first),
            first,
            M::taken(M::item_name(first)),
            between.entries(),
            r1,
        ),
        added(
            between.entries(),
            M::item_name(second),
            second,
            M::taken(M::item_name(second)),
            after.entries(),
            r2,
        ),
    ensures
        r2 matches Err(e) && e@ == M::taken(M::item_name(second)),
        after.entries() == between.entries(),
{
}

/// Inserting an item under a name that is free and then removing that name
/// gives back the items that were held before: both calls succeed.
pub proof fn lemma_add_then_remove_restores<M: Manager>(
    before: M,
    item: M::Item,
    between: M,
    r1: Result<(), HouseError>,
    after: M,
    r2: Result<(), HouseError>,
)
    requires
        !before.entries().contains_key(M::item_name(item)),
        added(
            before.entries(),
            M::item_name(item),
            item,
            M::taken(M::item_name(item)),
            between.entries(),
            r1,
        ),
        removed(
            between.entries(),
            M::item_name(item),
            M::absent(M::item_name(item)),
            after.entries(),
            r2,
        ),
    ensures
        r1 is Ok,
        r2 is Ok,
        after.entries() == before.entries(),
{
}

/// Removing a name twice in a row: the second removal is rejected, the name
/// stays absent, and the items are as the first removal left them.
pub proof fn lemma_remove_again_is_rejected<M: Manager>(
    before: M,
    name: Seq<char>,
    between: M,
    r1: Result<(), HouseError>,
    after: M,
    r2: Result<(), HouseError>,
)
    requires
        removed(before.entries(), name, M::absent(name), between.entries(), r1),
        removed(between.entries(), name, M::absent(name), after.entries(), r2),
    ensures
        r2 matches Err(e) && e@ == M::absent(name),
        !between.entries().contains_key(name),
        after.entries() == between.entries(),
{
}

} // verus!
