//! Iteration over a column.
//!
//! An [`ArrayIterator`] is a finite, restartable, forward-only lazy
//! sequence of the optional values of one column, in slot order, with a
//! lifetime tied to the column. Two iterators created on the same column
//! yield identical sequences, because every step is determined by the
//! column's contents and the cursor position alone.

use vstd::prelude::*;

use crate::array::Array;

verus! {

/// The idempotence law for iteration: two iterators over the same column
/// at the same position have the same remaining slots, and every step of
/// [`ArrayIterator::next`] is determined by the column's contents and the
/// position alone, so iterating a finished column twice yields two
/// identical sequences.
pub proof fn lemma_iteration_deterministic<'a, 'b, A: Array>(
    it1: ArrayIterator<'a, A>,
    it2: ArrayIterator<'b, A>,
)
    requires
        it1.source() == it2.source(),
        it1.position() == it2.position(),
    ensures
        it1.remaining() == it2.remaining(),
{
}

/// A cursor over the slots of a column.
pub struct ArrayIterator<'a, A: Array> {
    array: &'a A,
    pos: usize,
}

impl<'a, A: Array> ArrayIterator<'a, A> {
    /// The column this iterator walks.
    pub closed spec fn source(&self) -> A {
        *self.array
    }

    /// The number of slots already yielded.
    pub closed spec fn position(&self) -> nat {
        self.pos as nat
    }

    /// The slots this iterator has not yielded yet, in slot order.
    pub open spec fn remaining(&self) -> Seq<Option<<A::OwnedItem as DeepView>::V>> {
        self.source().contents().skip(self.position() as int)
    }

    /// Create a fresh iterator at the first slot. Restartable: every
    /// fresh iterator on the same column yields the same sequence.
    pub fn new(array: &'a A) -> (it: Self)
        ensures
            it.source() == *array,
            it.position() == 0,
    {
        ArrayIterator { array, pos: 0 }
    }

    /// Yield the next slot, or `None` when the column is exhausted. The
    /// outer option signals exhaustion; the inner option is the slot
    /// itself, which is `None` for a null.
    pub fn next(&mut self) -> (r: Option<Option<A::RefItem<'a>>>)
        ensures
            final(self).source() == old(self).source(),
            r is Some <==> old(self).position() < old(self).source().contents().len(),
            match r {
                Some(slot) => {
                    &&& final(self).position() == old(self).position() + 1
                    &&& slot.deep_view() == old(self).source().contents()[old(
                        self,
                    ).position() as int]
                },
                None => final(self).position() == old(self).position(),
            },
    {
        if self.pos < self.array.len() {
            let slot = self.array.get(self.pos);
            self.pos = self.pos + 1;
            Some(slot)
        } else {
            None
        }
    }
}

} // verus!
