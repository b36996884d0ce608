//! The largest item of a list, for one type and for any type that can be
//! compared, and points whose coordinates are of any type.

use vstd::prelude::*;
use vstd::std_specs::cmp::{PartialOrdIs, PartialOrdSpec};

verus! {

/// `largest` is an item of `list` and no item of `list` is greater.
pub open spec fn is_largest(list: Seq<i32>, largest: i32) -> bool {
    &&& list.contains(largest)
    &&& forall|i: int| 0 <= i < list.len() ==> list[i] <= largest
}

/// The largest number of a list that is not empty.
pub fn largest_i32(list: &[i32]) -> (largest: i32)
    requires
        list@.len() > 0,
    ensures
        is_largest(list@, largest),
{
    let mut largest = list[0];
    for item in it: list.iter()
        invariant
            it.seq().len() == list@.len(),
            forall|i: int| 0 <= i < list@.len() ==> *it.seq()[i] == list@[i],
            list@.contains(largest),
            forall|i: int| 0 <= i < it.index() ==> list@[i] <= largest,
    {
        if *item > largest {
            largest = *item;
        }
    }
    largest
}

/// All of a sequence is the sequence.
proof fn take_all<T>(list: Seq<T>)
    ensures
        list.take(list.len() as int) == list,
{
}

/// What a pass over `list` from the front keeps as its largest item: the
/// first item, replaced in turn by every later item that is greater than
/// the one kept so far.
pub open spec fn largest_of<T: PartialOrd>(list: Seq<T>) -> T
    decreases list.len(),
{
    if list.len() <= 1 {
        list[0]
    } else {
        let kept = largest_of(list.drop_last());
        if list.last().is_gt(&kept) {
            list.last()
        } else {
            kept
        }
    }
}

/// Among numbers, what the pass keeps is the largest.
pub proof fn largest_of_numbers(list: Seq<i32>)
    requires
        list.len() > 0,
    ensures
        is_largest(list, largest_of(list)),
    decreases list.len(),
{
    if list.len() > 1 {
        let front = list.drop_last();
        largest_of_numbers(front);
        let kept = largest_of(front);
        let i = choose|i: int| 0 <= i < front.len() && front[i] == kept;
        assert(list[i] == kept);
        assert(list[list.len() - 1] == list.last());
        assert forall|j: int| 0 <= j < list.len() implies list[j] <= largest_of(list) by {
            if j < front.len() {
                assert(front[j] == list[j]);
            }
        }
    } else {
        assert(list[0] == largest_of(list));
    }
}

/// The largest item of a list that is not empty, by the order of its type:
/// an item of the list, and where the type's comparison keeps to its rules, the
/// one that [`largest_of`] describes.
pub fn largest<T: PartialOrd + Copy>(list: &[T]) -> (largest: T)
    requires
        list@.len() > 0,
    ensures
        list@.contains(largest),
        T::obeys_partial_cmp_spec() ==> largest == largest_of(list@),
{
    let mut largest = list[0];
    for item in it: list.iter()
        invariant
            it.seq().len() == list@.len(),
            forall|i: int| 0 <= i < list@.len() ==> *it.seq()[i] == list@[i],
            list@.len() > 0,
            list@.contains(largest),
            it.index() == 0 ==> largest == list@[0],
            T::obeys_partial_cmp_spec() && it.index() > 0 ==> largest == largest_of(
                list@.take(it.index()),
            ),
    {
        proof {
            let seen = list@.take(it.index() + 1);
            assert(seen.last() == *item);
            assert(seen.drop_last() == list@.take(it.index()));
        }
        if *item > largest {
            largest = *item;
        }
    }
    proof {
        take_all(list@);
    }
    largest
}

/// A point whose two coordinates are of one type.
pub struct Point<T> {
    pub x: T,
    pub y: T,
}

impl<T> Point<T> {
    /// The first coordinate.
    pub fn x(&self) -> (x: &T)
        ensures
            *x == self.x,
    {
        &self.x
    }
}

/// A point whose two coordinates may be of two types.
pub struct PointTwoDataTypes<T, U> {
    pub x: T,
    pub y: U,
}

impl<T, U> PointTwoDataTypes<T, U> {
    /// The point with the first coordinate of `self` and the second of
    /// `other`.
    pub fn mixup<V, W>(self, other: PointTwoDataTypes<V, W>) -> (mixed: PointTwoDataTypes<T, W>)
        ensures
            mixed.x == self.x,
            mixed.y == other.y,
    {
        PointTwoDataTypes { x: self.x, y: other.y }
    }
}

} // verus!
