//! A vector backed by storage of a fixed capacity `N`.
//!
//! [`ArrayVec`] holds at most `N` elements; every operation that would grow it
//! past that bound is refused and hands the rejected value back through
//! [`CapacityError`]. A contiguous range of elements can be removed through
//! [`Drain`], which yields the removed elements from either end.

use vstd::prelude::*;
use vstd::std_specs::cmp::PartialEqSpec;

mod drain;

pub use drain::Drain;

verus! {

/// The error returned when there is not enough room for another element.
/// It carries the rejected value back to the caller, so nothing is lost
/// on failure.
#[derive(Debug, Clone, Copy, PartialEq, Eq, Hash)]
pub struct CapacityError<T>(pub T);

/// A vector that holds at most `N` elements.
///
/// Its length never exceeds `N`: every reachable value satisfies
/// `self@.len() <= N`, and the bounded mutators (`try_push`, `try_insert`,
/// `try_extend_from_slice`) refuse any growth past that bound without
/// touching the stored elements.
#[derive(Debug, PartialOrd, Ord, Hash)]
pub struct ArrayVec<T, const N: usize> {
    items: Vec<T>,
}

impl<T, const N: usize> View for ArrayVec<T, N> {
    type V = Seq<T>;

    closed spec fn view(&self) -> Seq<T> {
        self.items@
    }
}

impl<T, const N: usize> ArrayVec<T, N> {
    /// The length never exceeds the capacity `N`.
    #[verifier::type_invariant]
    spec fn capacity_inv(self) -> bool {
        self.items@.len() <= N
    }

    /// Create a new, empty `ArrayVec`.
    pub fn new() -> (v: ArrayVec<T, N>)
        ensures
            v@ == Seq::<T>::empty(),
    {
        ArrayVec { items: Vec::new() }
    }

    /// The number of elements currently held.
    ///
    /// Law: in every reachable state the length lies between 0 and the
    /// capacity; the type invariant makes the bound hold of every value,
    /// and the second clause hands it to callers.
    pub fn len(&self) -> (n: usize)
        ensures
            n == self@.len(),
            0 <= self@.len() <= N,
    {
        proof {
            use_type_invariant(self);
        }
        self.items.len()
    }

    /// Whether no element is held.
    pub fn is_empty(&self) -> (b: bool)
        ensures
            b == (self@.len() == 0),
    {
        self.items.len() == 0
    }

    /// The fixed capacity `N`.
    pub fn capacity(&self) -> (c: usize)
        ensures
            c == N,
    {
        N
    }

    /// How many more elements fit before the capacity is reached.
    pub fn remaining_capacity(&self) -> (n: usize)
        ensures
            n == N - self@.len(),
    {
        proof {
            use_type_invariant(self);
        }
        N - self.items.len()
    }

    /// Whether the capacity is reached.
    pub fn is_full(&self) -> (b: bool)
        ensures
            b == (self@.len() >= N),
    {
        self.items.len() >= N
    }

    /// Move the stored elements out, leaving the vector empty. Mutators
    /// work on the moved-out storage and put it back, so the capacity
    /// bound holds at every intermediate point.
    fn take_items(&mut self) -> (items: Vec<T>)
        ensures
            items@ == old(self)@,
            final(self)@ == Seq::<T>::empty(),
            items@.len() <= N,
    {
        proof {
            use_type_invariant(&*self);
        }
        let mut items: Vec<T> = Vec::new();
        core::mem::swap(&mut items, &mut self.items);
        items
    }

    /// Append `item` without a capacity check; the caller must have
    /// established that there is room.
    pub fn push_unchecked(&mut self, item: T)
        requires
            old(self)@.len() < N,
        ensures
            final(self)@ == old(self)@.push(item),
    {
        let mut items = self.take_items();
        items.push(item);
        self.items = items;
    }

    /// Try to append `item`. When the vector is full, nothing changes and
    /// the item comes back inside the error.
    pub fn try_push(&mut self, item: T) -> (r: Result<(), CapacityError<T>>)
        ensures
            old(self)@.len() < N ==> r == Ok::<(), CapacityError<T>>(())
                && final(self)@ == old(self)@.push(item),
            old(self)@.len() >= N ==> r == Err::<(), CapacityError<T>>(CapacityError(item))
                && final(self)@ == old(self)@,
    {
        if self.is_full() {
            Err(CapacityError(item))
        } else {
            self.push_unchecked(item);
            Ok(())
        }
    }

    /// Append `item` to the end of the vector. The caller must have room
    /// left: the capacity bound is a precondition, so the failure path of
    /// the fallible form cannot be reached from here.
    pub fn push(&mut self, item: T)
        requires
            old(self)@.len() < N,
        ensures
            final(self)@ == old(self)@.push(item),
    {
        match self.try_push(item) {
            Ok(()) => {},
            Err(_) => {
                proof {
                    assert(false);
                }
            },
        }
    }

    /// Set the length directly. The stored elements are always the prefix
    /// `[0, length)`, so the length can only move down, and the elements
    /// past the new length are released.
    pub fn set_len(&mut self, new_length: usize)
        requires
            new_length <= old(self)@.len(),
        ensures
            final(self)@ == old(self)@.subrange(0, new_length as int),
    {
        let mut items = self.take_items();
        items.truncate(new_length);
        self.items = items;
    }

    /// Remove the last element and hand it to the caller; `None` when the
    /// vector is empty.
    pub fn pop(&mut self) -> (r: Option<T>)
        ensures
            old(self)@.len() == 0 ==> r is None && final(self)@ == old(self)@,
            old(self)@.len() > 0 ==> r == Some(old(self)@.last())
                && final(self)@ == old(self)@.drop_last(),
    {
        let mut items = self.take_items();
        let r = items.pop();
        self.items = items;
        r
    }

    /// Keep the first `new_length` elements and release the rest; a no-op
    /// when the vector is already at most that long.
    pub fn truncate(&mut self, new_length: usize)
        ensures
            new_length >= old(self)@.len() ==> final(self)@ == old(self)@,
            new_length < old(self)@.len() ==> final(self)@ == old(self)@.subrange(
                0,
                new_length as int,
            ),
    {
        let mut items = self.take_items();
        items.truncate(new_length);
        self.items = items;
    }

    /// Remove every element.
    pub fn clear(&mut self)
        ensures
            final(self)@ == Seq::<T>::empty(),
    {
        let mut items = self.take_items();
        items.clear();
        self.items = items;
    }

    /// Try to insert `item` at `index`, shifting the elements from `index`
    /// on one place to the right. When the vector is full, nothing changes
    /// and the item comes back inside the error. An index past the end is
    /// excluded by the precondition; `index == len` appends.
    pub fn try_insert(&mut self, index: usize, item: T) -> (r: Result<
        (),
        CapacityError<T>,
    >)
        requires
            index <= old(self)@.len(),
        ensures
            old(self)@.len() < N ==> r == Ok::<(), CapacityError<T>>(())
                && final(self)@ == old(self)@.insert(index as int, item),
            old(self)@.len() >= N ==> r == Err::<(), CapacityError<T>>(CapacityError(item))
                && final(self)@ == old(self)@,
    {
        if self.is_full() {
            return Err(CapacityError(item));
        }
        let mut items = self.take_items();
        items.insert(index, item);
        self.items = items;
        Ok(())
    }

    /// Insert `item` at `index`. The caller must have room left, so the
    /// failure path of the fallible form cannot be reached from here.
    pub fn insert(&mut self, index: usize, item: T)
        requires
            index <= old(self)@.len(),
            old(self)@.len() < N,
        ensures
            final(self)@ == old(self)@.insert(index as int, item),
    {
        match self.try_insert(index, item) {
            Ok(()) => {},
            Err(_) => {
                proof {
                    assert(false);
                }
            },
        }
    }

    /// The stored elements, front to back, as a borrowed view.
    pub fn as_slice(&self) -> (s: &[T])
        ensures
            s@ == self@,
    {
        self.items.as_slice()
    }

    /// The stored elements as a mutable borrowed view. The borrow can
    /// change the elements but never the length, so the capacity bound is
    /// kept.
    pub fn as_slice_mut(&mut self) -> (s: &mut [T])
        ensures
            s@ == old(self)@,
            final(s)@ == final(self)@,
            final(s)@.len() == old(self)@.len(),
    {
        proof {
            use_type_invariant(&*self);
        }
        vec_as_mut_slice(&mut self.items)
    }

    /// Try to append a copy of every element of `other`. The operation is
    /// all or nothing: when the copies do not all fit, nothing changes and
    /// the error carries an empty marker.
    pub fn try_extend_from_slice(&mut self, other: &[T]) -> (r: Result<
        (),
        CapacityError<()>,
    >) where T: Copy
        ensures
            old(self)@.len() + other@.len() <= N ==> r == Ok::<(), CapacityError<()>>(())
                && final(self)@ == old(self)@ + other@,
            old(self)@.len() + other@.len() > N ==> r == Err::<(), CapacityError<()>>(
                CapacityError(()),
            ) && final(self)@ == old(self)@,
    {
        if self.remaining_capacity() < other.len() {
            return Err(CapacityError(()));
        }
        let ghost orig = self@;
        let mut items = self.take_items();
        let mut i: usize = 0;
        proof {
            assert(items@ =~= orig + other@.subrange(0, 0));
        }
        while i < other.len()
            invariant
                i <= other@.len(),
                items@ == orig + other@.subrange(0, i as int),
                orig.len() + other@.len() <= N,
            decreases other@.len() - i,
        {
            items.push(other[i]);
            proof {
                assert(items@ =~= orig + other@.subrange(0, i + 1));
            }
            i = i + 1;
        }
        proof {
            assert(other@.subrange(0, other@.len() as int) =~= other@);
        }
        self.items = items;
        Ok(())
    }

    /// Remove the elements of `[range.start, range.end)` from the vector,
    /// closing the gap, and hand them to the caller inside a [`Drain`].
    pub fn drain(&mut self, range: core::ops::Range<usize>) -> (d: Drain<T>)
        requires
            range.start <= range.end,
            range.end <= old(self)@.len(),
        ensures
            final(self)@ == old(self)@.subrange(0, range.start as int) + old(self)@.subrange(
                range.end as int,
                old(self)@.len() as int,
            ),
            d@ == old(self)@.subrange(range.start as int, range.end as int),
    {
        let start = range.start;
        let end = range.end;
        let ghost orig = self@;
        let mut items = self.take_items();
        let mut tail = items.split_off(end);
        let removed = items.split_off(start);
        items.append(&mut tail);
        proof {
            assert(removed@ =~= orig.subrange(start as int, end as int));
            assert(items@ =~= orig.subrange(0, start as int) + orig.subrange(
                end as int,
                orig.len() as int,
            ));
        }
        self.items = items;
        Drain::with_range(removed)
    }

    /// Build a full vector out of exactly `N` values, adopting them in
    /// order; the result's length equals its capacity.
    pub fn from_array(values: [T; N]) -> (v: ArrayVec<T, N>)
        ensures
            v@ == values@,
            v@.len() == N,
    {
        let items = vec_from_array(values);
        proof {
            vstd::array::array_len_matches_n(&values);
        }
        ArrayVec { items }
    }
}

/// Relies on `Vec::as_mut_slice`, which borrows the vector's elements and
/// cannot unwind. A `&mut [T]` is an unsized borrow: the elements behind it
/// can change, its length cannot, so the vector keeps its length.
#[verifier::external_body]
fn vec_as_mut_slice<T>(v: &mut Vec<T>) -> (s: &mut [T])
    ensures
        s@ == old(v)@,
        final(s)@ == final(v)@,
        final(s)@.len() == old(v)@.len(),
    no_unwind
{
    v.as_mut_slice()
}

/// Relies on `Vec::from` on an array, which moves the array's `N` elements
/// into the vector in order.
#[verifier::external_body]
fn vec_from_array<T, const N: usize>(values: [T; N]) -> (v: Vec<T>)
    ensures
        v@ == values@,
{
    Vec::from(values)
}

impl<T: Clone, const N: usize> Clone for ArrayVec<T, N> {
    /// Duplicate the vector; the copy has the same capacity and length,
    /// and each element is a clone of the one at the same position.
    fn clone(&self) -> (res: Self)
        ensures
            res@.len() == self@.len(),
            forall|i: int|
                0 <= i < self@.len() ==> cloned::<T>(self@[i], #[trigger] res@[i]),
    {
        proof {
            use_type_invariant(self);
        }
        ArrayVec { items: self.items.clone() }
    }
}

impl<T: PartialEq, const N: usize> PartialEq for ArrayVec<T, N> {
    /// Equality delegates to the logical contents: two vectors are equal
    /// when they are equally long and their elements agree position by
    /// position.
    fn eq(&self, other: &Self) -> (r: bool) {
        if self.items.len() != other.items.len() {
            return false;
        }
        let mut i: usize = 0;
        while i < self.items.len()
            invariant
                self.items@.len() == other.items@.len(),
                i <= self.items@.len(),
                T::obeys_eq_spec() ==> forall|j: int|
                    0 <= j < i ==> self.items@[j].eq_spec(&other.items@[j]),
            decreases self.items@.len() - i,
        {
            if !self.items[i].eq(&other.items[i]) {
                return false;
            }
            i = i + 1;
        }
        true
    }
}

impl<T: PartialEq, const N: usize> vstd::std_specs::cmp::PartialEqSpecImpl for ArrayVec<T, N> {
    open spec fn obeys_eq_spec() -> bool {
        T::obeys_eq_spec()
    }

    open spec fn eq_spec(&self, other: &Self) -> bool {
        self@.len() == other@.len() && (forall|i: int|
            0 <= i < self@.len() ==> self@[i].eq_spec(&#[trigger] other@[i]))
    }
}

impl<T: Eq, const N: usize> Eq for ArrayVec<T, N> {}

/// Law: pushing a value and immediately popping returns that value and
/// restores the prior contents, whatever the value and the contents.
/// `push` leaves `s.push(x)` behind, and `pop` returns the last element
/// and leaves `drop_last` behind, so the two calls compose to the
/// identity.
pub proof fn lemma_push_then_pop_restores<T>(s: Seq<T>, x: T)
    ensures
        s.push(x).len() == s.len() + 1,
        s.push(x).last() == x,
        s.push(x).drop_last() == s,
{
    assert(s.push(x).drop_last() =~= s);
}

/// Law: after inserting `x` at position `i`, reading position `i` gives
/// `x` back, the length grew by one, and the whole is the prefix before
/// `i`, then `x`, then the rest.
pub proof fn lemma_insert_splices<T>(s: Seq<T>, i: int, x: T)
    requires
        0 <= i <= s.len(),
    ensures
        s.insert(i, x).len() == s.len() + 1,
        s.insert(i, x)[i] == x,
        s.insert(i, x) == s.subrange(0, i) + seq![x] + s.subrange(i, s.len() as int),
{
    assert(s.insert(i, x) =~= s.subrange(0, i) + seq![x] + s.subrange(i, s.len() as int));
}

impl<T, const N: usize> Default for ArrayVec<T, N> {
    /// The default vector is the empty one.
    fn default() -> (v: Self)
        ensures
            v@ == Seq::<T>::empty(),
    {
        ArrayVec::new()
    }
}

} // verus!
