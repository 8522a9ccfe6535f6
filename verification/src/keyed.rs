//! Items listed in a sequence and found by name: the map that such a listing
//! stands for, and how it changes when the listing does.

use vstd::prelude::*;

verus! {

/// The map from each name to the item listed under it. `names[i]` is the name
/// of `items[i]`.
pub open spec fn keyed<V>(names: Seq<Seq<char>>, items: Seq<V>) -> Map<Seq<char>, V>
    recommends
        names.len() == items.len(),
        names.no_duplicates(),
{
    Map::new(|name: Seq<char>| names.contains(name), |name: Seq<char>| items[names.index_of(name)])
}

/// Where no name occurs twice, every listed item is found under its name.
pub proof fn lemma_keyed_at<V>(names: Seq<Seq<char>>, items: Seq<V>, i: int)
    requires
        names.len() == items.len(),
        names.no_duplicates(),
        0 <= i < names.len(),
    ensures
        keyed(names, items).contains_key(names[i]),
        keyed(names, items)[names[i]] == items[i],
        names.index_of(names[i]) == i,
{
}

/// Listing one more item under a new name inserts it into the map.
pub proof fn lemma_keyed_push<V>(names: Seq<Seq<char>>, items: Seq<V>, name: Seq<char>, item: V)
    requires
        names.len() == items.len(),
        names.no_duplicates(),
        !names.contains(name),
    ensures
        names.push(name).no_duplicates(),
        keyed(names.push(name), items.push(item)) == keyed(names, items).insert(name, item),
{
    let names2 = names.push(name);
    let items2 = items.push(item);
    assert forall|k: Seq<char>| names2.contains(k) <==> (names.contains(k) || k == name) by {
        if names.contains(k) {
            let i = names.index_of(k);
            assert(names2[i] == k);
        }
        if k == name {
            assert(names2[names.len() as int] == k);
        }
    }
    assert forall|k: Seq<char>| names2.contains(k) implies #[trigger] keyed(names2, items2)[k]
        == keyed(names, items).insert(name, item)[k] by {
        assert(names2[names2.index_of(k)] == k);
    }
}

/// Striking an item from the listing removes its name from the map.
pub proof fn lemma_keyed_remove<V>(names: Seq<Seq<char>>, items: Seq<V>, i: int)
    requires
        names.len() == items.len(),
        names.no_duplicates(),
        0 <= i < names.len(),
    ensures
        names.remove(i).no_duplicates(),
        keyed(names.remove(i), items.remove(i)) == keyed(names, items).remove(names[i]),
{
    let names2 = names.remove(i);
    let items2 = items.remove(i);
    assert forall|k: Seq<char>| names2.contains(k) <==> (names.contains(k) && k != names[i]) by {
        if names2.contains(k) {
            let j = names2.index_of(k);
            assert(names[if j < i { j } else { j + 1 }] == k);
        }
        if names.contains(k) && k != names[i] {
            let j = names.index_of(k);
            if j < i {
                assert(names2[j] == k);
            } else {
                assert(names2[j - 1] == k);
            }
        }
    }
    assert forall|k: Seq<char>| names2.contains(k) implies #[trigger] keyed(names2, items2)[k]
        == keyed(names, items)[k] by {
        assert(names2[names2.index_of(k)] == k);
    }
}

} // verus!
