use crate::size_hint_iter::SizeHintIter;
use vstd::prelude::*;

verus! {

/// A collection that can be built from a literal list of items of type `T`:
/// it has an empty value to start from, and it takes items in batches.
///
/// What a collection holds is its view. `spec_empty` and `spec_insert` say, in
/// terms of views, what the empty collection is and what one more item does to
/// a collection, each kind by its own rules: a sequence appends the item, a
/// set takes it in unless it is there already, a map takes a key and its value
/// and lets the value replace the one that the key had.
pub trait Collection<T>: View + Sized {
    /// Whether values of this type behave as their views say. This holds of
    /// the sequences without condition, and of a set or a map where its keys
    /// are hashed or ordered in agreement with equality.
    spec fn obeys_view_model() -> bool;

    /// The view of the empty collection.
    spec fn spec_empty() -> Self::V;

    /// The view of a collection that held `contents` and was given `item`.
    spec fn spec_insert(contents: Self::V, item: T) -> Self::V;

    /// The empty collection, the type's default value.
    fn empty() -> (col: Self)
        ensures
            col@ == Self::spec_empty(),
    ;

    /// Takes the batch in: the item that `batch` holds, if it holds one. The
    /// estimate of `batch` tells the collection how much room to make.
    fn bulk_insert(&mut self, batch: SizeHintIter<T>)
        ensures
            Self::obeys_view_model() ==> final(self)@ == (match batch.held() {
                Some(item) => Self::spec_insert(old(self)@, item),
                None => old(self)@,
            }),
    ;
}

/// What a collection of type `C` holds after it started empty and was given
/// `items` one after the other, in their order.
pub open spec fn collected<C: Collection<T>, T>(items: Seq<T>) -> C::V {
    items.fold_left(C::spec_empty(), |contents: C::V, item: T| C::spec_insert(contents, item))
}

/// The estimate that goes with the item at `index` of a list of `total`
/// items: the first item announces the whole list, each later one itself.
pub open spec fn batch_estimate(index: int, total: int) -> int {
    if index == 0 {
        total
    } else {
        1
    }
}

/// The batch in which the item at `index` of a list of `total` items goes to
/// the collection.
pub fn batch<T>(item: T, index: usize, total: usize) -> (made: SizeHintIter<T>)
    requires
        index < total,
    ensures
        made.held() == Some(item),
        made.estimate() == batch_estimate(index as int, total as int),
{
    if index == 0 {
        SizeHintIter::new(item, total)
    } else {
        SizeHintIter::new(item, 1)
    }
}

/// The first batch asks for all the room that is ever asked for. A collection
/// that is given the batch at `index` holds at most the `index` items that
/// came before; what it holds and what that batch announces are together no
/// more than the length of the list, which is what the first batch announced
/// to the empty collection.
pub proof fn lemma_first_estimate_covers_list(held: int, index: int, total: int)
    requires
        0 <= held <= index < total,
    ensures
        batch_estimate(0, total) == total,
        held + batch_estimate(index, total) <= batch_estimate(0, total),
{
}

/// Collecting no items gives the empty collection.
pub proof fn lemma_collected_empty<C: Collection<T>, T>()
    ensures
        collected::<C, T>(Seq::empty()) == C::spec_empty(),
{
}

/// Collecting is done item by item: one more item at the end of the list is
/// one more insertion into what the list before it gave.
pub proof fn lemma_collected_push<C: Collection<T>, T>(items: Seq<T>, item: T)
    ensures
        collected::<C, T>(items.push(item)) == C::spec_insert(collected::<C, T>(items), item),
{
    assert(items.push(item).drop_last() == items);
}

/// Builds a collection from a list of items.
///
/// The collection starts as the empty one and is given the items in their
/// order, each in the batch that `batch` makes for it. The batch of the first
/// item carries the length of the whole list as its estimate, so that a
/// collection that makes room by the estimate of the batch it is given does so
/// once, for all items; the batch of each later item carries the estimate 1.
pub fn collect<C: Collection<T>, T>(items: Vec<T>) -> (col: C)
    ensures
        C::obeys_view_model() ==> col@ == collected::<C, T>(items@),
        items@.len() == 0 ==> col@ == C::spec_empty(),
{
    let total = items.len();
    let ghost all = items@;
    let mut col = C::empty();
    let mut index: usize = 0;
    proof {
        lemma_collected_empty::<C, T>();
        assert(all.take(0) == Seq::<T>::empty());
    }
    for item in it: items.into_iter()
        invariant
            it.seq() == all,
            total == all.len(),
            index == it.index(),
            it.index() == 0 ==> col@ == C::spec_empty(),
            C::obeys_view_model() ==> col@ == collected::<C, T>(all.take(it.index())),
    {
        proof {
            lemma_collected_push::<C, T>(all.take(it.index()), item);
            assert(all.take(it.index()).push(item) == all.take(it.index() + 1));
        }
        col.bulk_insert(batch(item, index, total));
        index = index + 1;
    }
    proof {
        assert(all.take(all.len() as int) == all);
    }
    col
}

} // verus!
