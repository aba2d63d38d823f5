use crate::collection::{collected, lemma_collected_push, Collection};
use vstd::prelude::*;

verus! {

/// `C` is a sequence: it starts empty and puts each item behind the others.
pub open spec fn sequence_like<C: Collection<T> + View<V = Seq<T>>, T>() -> bool {
    &&& C::spec_empty() == Seq::<T>::empty()
    &&& forall|contents: Seq<T>, item: T| #[trigger]
        C::spec_insert(contents, item) == contents.push(item)
}

/// `C` is a set: it starts empty and holds an item once, however often it was
/// given.
pub open spec fn set_like<C: Collection<T> + View<V = Set<T>>, T>() -> bool {
    &&& C::spec_empty() == Set::<T>::empty()
    &&& forall|contents: Set<T>, item: T| #[trigger]
        C::spec_insert(contents, item) == contents.insert(item)
}

/// `C` is a map: it starts empty, and a pair gives its key the value it
/// brings, in place of the value that the key had.
pub open spec fn map_like<C: Collection<(K, V)> + View<V = Map<K, V>>, K, V>() -> bool {
    &&& C::spec_empty() == Map::<K, V>::empty()
    &&& forall|contents: Map<K, V>, pair: (K, V)| #[trigger]
        C::spec_insert(contents, pair) == contents.insert(pair.0, pair.1)
}

/// No pair behind the one at `index` has the same key.
pub open spec fn last_of_its_key<K, V>(pairs: Seq<(K, V)>, index: int) -> bool {
    forall|later: int| index < later < pairs.len() ==> (#[trigger] pairs[later]).0 != pairs[index].0
}

/// Round trip through a sequence: the collection holds the list itself.
pub proof fn lemma_collected_sequence<C: Collection<T> + View<V = Seq<T>>, T>(items: Seq<T>)
    requires
        sequence_like::<C, T>(),
    ensures
        collected::<C, T>(items) == items,
    decreases items.len(),
{
    if items.len() > 0 {
        lemma_collected_sequence::<C, T>(items.drop_last());
        lemma_collected_push::<C, T>(items.drop_last(), items.last());
        assert(items.drop_last().push(items.last()) == items);
    }
}

/// Round trip through a set: the collection holds the items of the list, each
/// once, and nothing else.
pub proof fn lemma_collected_set<C: Collection<T> + View<V = Set<T>>, T>(items: Seq<T>)
    requires
        set_like::<C, T>(),
    ensures
        collected::<C, T>(items) == items.to_set(),
        collected::<C, T>(items).finite(),
    decreases items.len(),
{
    if items.len() > 0 {
        let front = items.drop_last();
        lemma_collected_set::<C, T>(front);
        lemma_collected_push::<C, T>(front, items.last());
        assert(front.push(items.last()) == items);
        assert forall|item: T| front.to_set().insert(items.last()).contains(item)
            == items.to_set().contains(item) by {
            if front.to_set().contains(item) {
                let i = choose|i: int| 0 <= i < front.len() && front[i] == item;
                assert(items[i] == item);
            }
            if items.to_set().contains(item) {
                let i = choose|i: int| 0 <= i < items.len() && items[i] == item;
                if i < front.len() {
                    assert(front[i] == item);
                }
            }
        }
        assert(front.to_set().insert(items.last()) == items.to_set());
    } else {
        assert(items.to_set() == Set::<T>::empty());
    }
}

/// Round trip through a map, where the last write wins: the keys of the
/// collection are the keys that occur in the list, and each has the value of
/// the last pair that brought it.
pub proof fn lemma_collected_map<C: Collection<(K, V)> + View<V = Map<K, V>>, K, V>(
    pairs: Seq<(K, V)>,
)
    requires
        map_like::<C, K, V>(),
    ensures
        ({
            let map = collected::<C, (K, V)>(pairs);
            &&& map.dom().finite()
            &&& forall|key: K|
                map.contains_key(key) <==> exists|index: int|
                    0 <= index < pairs.len() && (#[trigger] pairs[index]).0 == key
            &&& forall|index: int|
                0 <= index < pairs.len() && #[trigger] last_of_its_key(pairs, index)
                    ==> map[pairs[index].0] == pairs[index].1
        }),
    decreases pairs.len(),
{
    if pairs.len() > 0 {
        let front = pairs.drop_last();
        let last = pairs.last();
        lemma_collected_map::<C, K, V>(front);
        lemma_collected_push::<C, (K, V)>(front, last);
        assert(front.push(last) == pairs);
        let before = collected::<C, (K, V)>(front);
        let after = collected::<C, (K, V)>(pairs);
        assert(after == before.insert(last.0, last.1));
        assert forall|key: K| after.contains_key(key) <==> exists|index: int|
            0 <= index < pairs.len() && (#[trigger] pairs[index]).0 == key by {
            if after.contains_key(key) {
                if key == last.0 {
                    assert(pairs[pairs.len() - 1].0 == key);
                } else {
                    let i = choose|i: int| 0 <= i < front.len() && (#[trigger] front[i]).0 == key;
                    assert(pairs[i].0 == key);
                }
            }
            if exists|index: int| 0 <= index < pairs.len() && (#[trigger] pairs[index]).0 == key {
                let i = choose|i: int| 0 <= i < pairs.len() && (#[trigger] pairs[i]).0 == key;
                if i < front.len() {
                    assert(front[i].0 == key);
                }
            }
        }
        assert forall|index: int|
            0 <= index < pairs.len() && #[trigger] last_of_its_key(pairs, index)
            implies after[pairs[index].0] == pairs[index].1 by {
            if index < front.len() {
                assert(pairs[pairs.len() - 1].0 != pairs[index].0);
                assert forall|later: int| index < later < front.len()
                    implies (#[trigger] front[later]).0 != front[index].0 by {
                    assert(pairs[later].0 != pairs[index].0);
                }
                assert(last_of_its_key(front, index));
                assert(front[index] == pairs[index]);
            }
        }
    }
}

} // verus!
