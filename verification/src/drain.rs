//! A draining iterator over a removed range of an [`ArrayVec`].

use vstd::prelude::*;

verus! {

/// The elements removed from an `ArrayVec` by [`ArrayVec::drain`], handed
/// out from either end.
///
/// `drain` takes the requested range out of the vector up front and closes
/// the gap, so the vector is already compact while the `Drain` is alive.
/// The `Drain` owns the removed elements: whatever is never taken from it
/// is released exactly once when the `Drain` is dropped, whether it was
/// consumed fully, partially, or not at all.
///
/// [`ArrayVec::drain`]: crate::ArrayVec::drain
#[derive(Debug, PartialEq)]
pub struct Drain<T> {
    items: Vec<T>,
}

impl<T> View for Drain<T> {
    type V = Seq<T>;

    closed spec fn view(&self) -> Seq<T> {
        self.items@
    }
}

impl<T> Drain<T> {
    /// Wrap the elements removed from the drained range.
    pub(crate) fn with_range(items: Vec<T>) -> (d: Drain<T>)
        ensures
            d@ == items@,
    {
        Drain { items }
    }

    /// Take the front element of the remaining range, if any is left.
    pub fn next(&mut self) -> (r: Option<T>)
        ensures
            old(self)@.len() == 0 ==> r is None && final(self)@ == old(self)@,
            old(self)@.len() > 0 ==> r == Some(old(self)@[0]) && final(self)@ == old(self)@.drop_first(),
    {
        if self.items.len() == 0 {
            None
        } else {
            let item = self.items.remove(0);
            proof {
                assert(self.items@ =~= old(self)@.drop_first());
            }
            Some(item)
        }
    }

    /// Take the back element of the remaining range, if any is left.
    pub fn next_back(&mut self) -> (r: Option<T>)
        ensures
            old(self)@.len() == 0 ==> r is None && final(self)@ == old(self)@,
            old(self)@.len() > 0 ==> r == Some(old(self)@.last()) && final(self)@ == old(self)@.drop_last(),
    {
        let r = self.items.pop();
        proof {
            if old(self)@.len() > 0 {
                assert(self.items@ =~= old(self)@.drop_last());
            }
        }
        r
    }

    /// How many elements are left, by index difference: the element's size
    /// never enters, so the count is exact for every element type.
    pub fn len(&self) -> (n: usize)
        ensures
            n == self@.len(),
    {
        self.items.len()
    }

    /// The exact remaining count, as a lower and an upper bound.
    pub fn size_hint(&self) -> (r: (usize, Option<usize>))
        ensures
            r.0 == self@.len(),
            r.1 == Some(r.0),
    {
        let n = self.items.len();
        (n, Some(n))
    }

    /// The remaining elements, front to back, as a borrowed view.
    pub fn as_slice(&self) -> (s: &[T])
        ensures
            s@ == self@,
    {
        self.items.as_slice()
    }

    /// The remaining elements as a mutable borrowed view.
    pub fn as_mut_slice(&mut self) -> (s: &mut [T])
        ensures
            s@ == old(self)@,
            final(s)@ == final(self)@,
    {
        self.items.as_mut_slice()
    }
}

} // verus!
