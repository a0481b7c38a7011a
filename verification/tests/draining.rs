use std::cell::Cell;

use const_arrayvec::ArrayVec;

/// An element whose destruction bumps a shared counter, to observe that
/// every removed or released element is destructed exactly once.
struct Counted<'a> {
    value: u32,
    hits: &'a Cell<usize>,
}

impl<'a> Drop for Counted<'a> {
    fn drop(&mut self) {
        self.hits.set(self.hits.get() + 1);
    }
}

fn counted_five<'a>(hits: &'a Cell<usize>) -> ArrayVec<Counted<'a>, 5> {
    let mut v: ArrayVec<Counted<'a>, 5> = ArrayVec::new();
    for value in [10, 20, 30, 40, 50] {
        v.push(Counted { value, hits });
    }
    v
}

fn values(v: &ArrayVec<Counted<'_>, 5>) -> Vec<u32> {
    v.as_slice().iter().map(|c| c.value).collect()
}

#[test]
fn drain_yields_range_forward_and_compacts() {
    let mut v = ArrayVec::<u32, 5>::from_array([10, 20, 30, 40, 50]);
    let mut d = v.drain(1..3);
    assert_eq!(d.next(), Some(20));
    assert_eq!(d.next(), Some(30));
    assert_eq!(d.next(), None);
    drop(d);
    assert_eq!(v.as_slice(), &[10, 40, 50]);
    assert_eq!(v.len(), 3);
}

#[test]
fn drain_yields_range_backward() {
    let mut v = ArrayVec::<u32, 5>::from_array([10, 20, 30, 40, 50]);
    let mut d = v.drain(1..3);
    assert_eq!(d.next_back(), Some(30));
    assert_eq!(d.next_back(), Some(20));
    assert_eq!(d.next_back(), None);
    drop(d);
    assert_eq!(v.as_slice(), &[10, 40, 50]);
}

#[test]
fn drain_front_and_back_interleave() {
    let mut v = ArrayVec::<u32, 5>::from_array([1, 2, 3, 4, 5]);
    let mut d = v.drain(0..5);
    assert_eq!(d.next(), Some(1));
    assert_eq!(d.next_back(), Some(5));
    assert_eq!(d.len(), 3);
    assert_eq!(d.next(), Some(2));
    assert_eq!(d.next_back(), Some(4));
    assert_eq!(d.next(), Some(3));
    assert_eq!(d.next(), None);
    assert_eq!(d.next_back(), None);
    drop(d);
    assert!(v.is_empty());
}

#[test]
fn drain_reports_exact_remaining_count() {
    let mut v = ArrayVec::<u32, 5>::from_array([10, 20, 30, 40, 50]);
    let mut d = v.drain(1..4);
    assert_eq!(d.len(), 3);
    assert_eq!(d.size_hint(), (3, Some(3)));
    d.next();
    assert_eq!(d.len(), 2);
    assert_eq!(d.size_hint(), (2, Some(2)));
}

#[test]
fn drain_empty_range_changes_nothing() {
    let mut v = ArrayVec::<u32, 5>::from_array([1, 2, 3, 4, 5]);
    let mut d = v.drain(2..2);
    assert_eq!(d.len(), 0);
    assert_eq!(d.next(), None);
    drop(d);
    assert_eq!(v.as_slice(), &[1, 2, 3, 4, 5]);
}

#[test]
fn drain_as_slice_shows_remaining() {
    let mut v = ArrayVec::<u32, 5>::from_array([10, 20, 30, 40, 50]);
    let mut d = v.drain(1..4);
    assert_eq!(d.as_slice(), &[20, 30, 40]);
    d.next();
    assert_eq!(d.as_slice(), &[30, 40]);
    d.next_back();
    assert_eq!(d.as_slice(), &[30]);
}

#[test]
fn drain_as_mut_slice_writes_through() {
    let mut v = ArrayVec::<u32, 5>::from_array([10, 20, 30, 40, 50]);
    let mut d = v.drain(1..3);
    d.as_mut_slice()[0] = 21;
    assert_eq!(d.next(), Some(21));
    assert_eq!(d.next(), Some(30));
}

#[test]
fn drain_counts_zero_sized_elements_by_index() {
    let mut v: ArrayVec<(), 4> = ArrayVec::new();
    v.push(());
    v.push(());
    v.push(());
    let mut d = v.drain(0..2);
    assert_eq!(d.len(), 2);
    assert_eq!(d.size_hint(), (2, Some(2)));
    assert_eq!(d.next(), Some(()));
    assert_eq!(d.len(), 1);
    drop(d);
    assert_eq!(v.len(), 1);
}

#[test]
fn container_destructs_each_element_exactly_once() {
    let hits = Cell::new(0usize);
    let v = counted_five(&hits);
    assert_eq!(hits.get(), 0);
    drop(v);
    assert_eq!(hits.get(), 5);
}

#[test]
fn three_pushed_elements_destruct_as_three() {
    let hits = Cell::new(0usize);
    let mut v: ArrayVec<Counted<'_>, 5> = ArrayVec::new();
    for value in [1, 2, 3] {
        v.push(Counted { value, hits: &hits });
    }
    assert_eq!(hits.get(), 0);
    drop(v);
    assert_eq!(hits.get(), 3);
}

#[test]
fn abandoned_drain_still_compacts_and_destructs_once() {
    let hits = Cell::new(0usize);
    let mut v = counted_five(&hits);
    let d = v.drain(1..3);
    drop(d);
    assert_eq!(hits.get(), 2);
    assert_eq!(values(&v), vec![10, 40, 50]);
    assert_eq!(v.len(), 3);
    drop(v);
    assert_eq!(hits.get(), 5);
}

#[test]
fn consumed_drain_destructs_yielded_elements_once() {
    let hits = Cell::new(0usize);
    let mut v = counted_five(&hits);
    let mut d = v.drain(1..3);
    let first = d.next();
    assert_eq!(first.as_ref().map(|c| c.value), Some(20));
    drop(first);
    assert_eq!(hits.get(), 1);
    drop(d);
    assert_eq!(hits.get(), 2);
    assert_eq!(values(&v), vec![10, 40, 50]);
}
