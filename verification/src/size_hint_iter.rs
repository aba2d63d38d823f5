use vstd::prelude::*;
use vstd::std_specs::iter::IteratorSpecImpl;

verus! {

/// An iterator over at most one item whose size estimate is a number chosen
/// by its maker, not the number of items it still holds.
///
/// A collection that is extended from an iterator sizes its storage by the
/// iterator's `size_hint`. Some collections ask for it only after they have
/// drawn the first item. Handing the first item of a batch of `n` over in a
/// `SizeHintIter` that was made with the estimate `n` lets either kind of
/// collection find room for the whole batch at once: the estimate is `n` until
/// the item is drawn and `n - 1` from then on, which is the number of items of
/// the batch that are still to come by other ways.
///
/// The iterator is in one of two states. It is loaded while it holds its item
/// and drained afterwards; `next` is the only way from the one to the other,
/// and nothing leads back.
pub struct SizeHintIter<T> {
    item: Option<T>,
    count: usize,
}

impl<T> SizeHintIter<T> {
    /// The item that the next call of `next` returns; `None` once drained.
    pub closed spec fn held(&self) -> Option<T> {
        self.item
    }

    /// The number that `size_hint` reports, as lower and as upper bound.
    pub closed spec fn estimate(&self) -> usize {
        self.count
    }

    /// The estimate of a loaded iterator counts the item it holds.
    #[verifier::type_invariant]
    pub open spec fn well_formed(&self) -> bool {
        self.held() is Some ==> self.estimate() >= 1
    }

    /// What `size_hint` returns.
    pub open spec fn spec_size_hint(&self) -> (usize, Option<usize>) {
        (self.estimate(), Some(self.estimate()))
    }

    /// The iterator after one call of `next`: drained, its estimate lowered
    /// by one if there was an item to draw and unchanged if there was none.
    pub closed spec fn drawn(self) -> Self {
        SizeHintIter {
            item: None,
            count: if self.item is Some {
                (self.count - 1) as usize
            } else {
                self.count
            },
        }
    }

    /// The iterator after `calls` calls of `next`.
    pub open spec fn drawn_times(self, calls: nat) -> Self
        decreases calls,
    {
        if calls == 0 {
            self
        } else {
            self.drawn().drawn_times((calls - 1) as nat)
        }
    }

    /// A loaded iterator that holds `item` and reports the estimate `count`,
    /// the size of the whole batch that `item` is the first of.
    pub fn new(item: T, count: usize) -> (iter: Self)
        requires
            count >= 1,
        ensures
            iter.held() == Some(item),
            iter.estimate() == count,
    {
        SizeHintIter { item: Some(item), count }
    }
}

impl<T> Iterator for SizeHintIter<T> {
    type Item = T;

    /// Hands out the held item and lowers the estimate by one; on a drained
    /// iterator returns `None` and changes nothing.
    fn next(&mut self) -> (ret: Option<T>)
        ensures
            ret == old(self).held(),
            final(self).held() is None,
            final(self).estimate() == old(self).estimate() - (if old(self).held() is Some {
                1int
            } else {
                0int
            }),
            *final(self) == old(self).drawn(),
    {
        proof {
            use_type_invariant(&*self);
        }
        let mut held = None;
        core::mem::swap(&mut self.item, &mut held);
        match held {
            Some(v) => {
                self.count = self.count - 1;
                Some(v)
            },
            None => None,
        }
    }

    /// The estimate, as an exact bound, whether or not an item is still held.
    fn size_hint(&self) -> (hint: (usize, Option<usize>))
        ensures
            hint == self.spec_size_hint(),
    {
        (self.count, Some(self.count))
    }
}

impl<T> IteratorSpecImpl for SizeHintIter<T> {
    open spec fn obeys_prophetic_iter_laws(&self) -> bool {
        true
    }

    open spec fn remaining(&self) -> Seq<T> {
        match self.held() {
            Some(item) => seq![item],
            None => Seq::empty(),
        }
    }

    open spec fn will_return_none(&self) -> bool {
        true
    }

    open spec fn decrease(&self) -> Option<nat> {
        Some(if self.held() is Some { 1nat } else { 0nat })
    }

    open spec fn initial_value_relation(&self, init: &Self) -> bool {
        self.held() == init.held()
    }

    open spec fn peek(&self, index: int) -> Option<T> {
        if index == 0 {
            self.held()
        } else {
            None
        }
    }
}

/// What `drawn` says in terms of `held` and `estimate`.
pub proof fn lemma_drawn<T>(iter: SizeHintIter<T>)
    requires
        iter.well_formed(),
    ensures
        iter.drawn().held() is None,
        iter.drawn().well_formed(),
        iter.held() is Some ==> iter.drawn().estimate() == iter.estimate() - 1,
        iter.held() is None ==> iter.drawn() == iter,
{
}

/// The size estimate around the one draw. A loaded iterator made with the
/// estimate `n` reports exactly `n` before `next` is called. After that call
/// it reports exactly `n - 1`, although it holds nothing any more.
pub proof fn lemma_estimate_around_draw<T>(iter: SizeHintIter<T>)
    requires
        iter.well_formed(),
        iter.held() is Some,
    ensures
        iter.spec_size_hint() == (iter.estimate(), Some(iter.estimate())),
        iter.drawn().estimate() == iter.estimate() - 1,
        iter.drawn().spec_size_hint() == (iter.drawn().estimate(), Some(iter.drawn().estimate())),
        iter.drawn().held() is None,
{
}

/// Exhaustion. Whatever state an iterator is in, after one call of `next` any
/// number of further calls leaves it drained and its estimate untouched, so
/// each of them returns `None`. `size_hint` takes the iterator by shared
/// reference and so has no part in this.
pub proof fn lemma_drained_for_good<T>(iter: SizeHintIter<T>, calls: nat)
    requires
        iter.well_formed(),
    ensures
        iter.drawn().drawn_times(calls) == iter.drawn(),
        iter.drawn().drawn_times(calls).held() is None,
    decreases calls,
{
    if calls > 0 {
        lemma_drawn(iter.drawn());
        lemma_drained_for_good(iter.drawn(), (calls - 1) as nat);
    }
}

} // verus!
