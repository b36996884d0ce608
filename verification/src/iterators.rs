//! Stepping through collections by hand, and a counter that is stepped the
//! same way.

use vstd::prelude::*;
use vstd::std_specs::iter::IteratorSpec;

verus! {

/// Something that hands out items one at a time until it has no more.
pub trait StdIterator {
    /// What is handed out.
    type Item;

    /// The next item, or `None` when there is none left.
    fn next(&mut self) -> Option<Self::Item>;
}

/// One step of any iterator. Of an iterator that keeps to the rules for
/// iterators, this is the first item that remains, the rest staying behind,
/// or `None` when no item remains.
fn step<I: Iterator>(it: &mut I) -> (item: Option<I::Item>)
    ensures
        (*old(it)).obeys_prophetic_iter_laws() && (*old(it)).remaining().len() > 0 ==> {
            &&& item == Some((*old(it)).remaining()[0])
            &&& (*final(it)).remaining() == (*old(it)).remaining().drop_first()
        },
        (*old(it)).obeys_prophetic_iter_laws() && (*old(it)).remaining().len() == 0 ==> {
            &&& item.is_none()
            &&& (*final(it)).remaining() == (*old(it)).remaining()
        },
{
    it.next()
}

/// Steps through a vector by hand, in each of the three ways a vector can
/// be stepped through: by reference, by value, and by mutable reference.
pub fn manually_call_iter() {
    let v1: Vec<i32> = vec![1, 2, 3];
    let mut v1_mut: Vec<i32> = vec![1, 2, 3];

    let mut v1_iter = v1.iter();
    let first = step(&mut v1_iter);
    assert(first == Some(&1i32));
    let second = step(&mut v1_iter);
    assert(second == Some(&2i32));
    let third = step(&mut v1_iter);
    assert(third == Some(&3i32));
    let end = step(&mut v1_iter);
    assert(end.is_none());

    let mut v1_owned_iter = v1.into_iter();
    let owned = step(&mut v1_owned_iter);
    assert(owned == Some(1i32));

    match v1_mut.first_mut() {
        Some(item) => {
            assert(*item == 1);
        },
        None => {
            assert(false);
        },
    }
}

/// Adds up a vector's items, stepping through them to the end.
pub fn iterator_consuming_adapters() {
    let v1: Vec<i32> = vec![1, 2, 3];
    let mut total: i32 = 0;
    for val in it: v1.iter()
        invariant
            it.seq().len() == 3,
            forall|i: int| 0 <= i < 3 ==> *it.seq()[i] == i + 1,
            it.index() == 0 ==> total == 0,
            it.index() == 1 ==> total == 1,
            it.index() == 2 ==> total == 1 + 2,
            it.index() == 3 ==> total == 1 + 2 + 3,
    {
        total += *val;
    }
    assert(total == 6);
}

/// Builds a second vector from a first one, each item one more than in the
/// first.
pub fn iterator_adapter() {
    let v1: Vec<i32> = vec![1, 2, 3];
    let mut v2: Vec<i32> = Vec::new();
    for x in it: v1.iter()
        invariant
            it.seq().len() == 3,
            forall|i: int| 0 <= i < 3 ==> *it.seq()[i] == i + 1,
            v2@ == Seq::new(it.index() as nat, |i: int| (i + 2) as i32),
    {
        v2.push(*x + 1);
    }
    assert(v2@ == seq![2i32, 3i32, 4i32]);
}

/// A shoe, with its size and its style.
#[derive(PartialEq, Debug)]
pub struct Shoe {
    pub size: u32,
    pub style: String,
}

/// The test that a shoe has the size `shoe_size`.
pub open spec fn has_size(shoe_size: u32) -> spec_fn(Shoe) -> bool {
    |s: Shoe| s.size == shoe_size
}

/// The shoes of `shoes` that have the size `shoe_size`, in the order in
/// which they came.
pub fn shoes_in_size(shoes: Vec<Shoe>, shoe_size: u32) -> (fitting: Vec<Shoe>)
    ensures
        fitting@ == shoes@.filter(has_size(shoe_size)),
{
    let mut fitting: Vec<Shoe> = Vec::new();
    proof {
        reveal(Seq::filter);
    }
    for shoe in it: shoes.into_iter()
        invariant
            it.seq() == shoes@,
            fitting@ == shoes@.take(it.index()).filter(has_size(shoe_size)),
    {
        proof {
            reveal(Seq::filter);
            let seen = shoes@.take(it.index() + 1);
            assert(seen.drop_last() == shoes@.take(it.index()));
            assert(seen.last() == shoe);
        }
        if shoe.size == shoe_size {
            fitting.push(shoe);
        }
    }
    assert(shoes@.take(shoes@.len() as int) == shoes@);
    fitting
}

/// Counts from 1 to 5.
pub struct Counter {
    count: u32,
}

impl View for Counter {
    type V = u32;

    /// The number handed out last, 0 before the first.
    closed spec fn view(&self) -> u32 {
        self.count
    }
}

impl Counter {
    /// A counter that has handed out nothing yet.
    pub fn new() -> (counter: Counter)
        ensures
            counter@ == 0,
    {
        Counter { count: 0 }
    }
}

impl StdIterator for Counter {
    type Item = u32;

    /// The number after the last one, up to 5; after 5, `None` for good.
    fn next(&mut self) -> (item: Option<u32>)
        ensures
            old(self)@ < 5 ==> final(self)@ == old(self)@ + 1 && item == Some(final(self)@),
            old(self)@ >= 5 ==> final(self)@ == old(self)@ && item.is_none(),
    {
        if self.count < 5 {
            self.count += 1;
            Some(self.count)
        } else {
            None
        }
    }
}

/// Pairs the numbers of one counter with those of a second counter that is
/// one step ahead, multiplies each pair, and adds up the products that are
/// multiples of 3.
pub fn using_other_iterator_trait_methods() {
    let mut left = Counter::new();
    let mut right = Counter::new();
    let skipped = right.next();
    let mut sum: u32 = 0;
    loop
        invariant_except_break
            left@ <= 4,
            right@ == left@ + 1,
            left@ <= 1 ==> sum == 0,
            left@ == 2 ==> sum == 6,
            left@ >= 3 ==> sum == 18,
        ensures
            sum == 18,
        decreases 5 - left@,
    {
        match left.next() {
            Some(a) => match right.next() {
                Some(b) => {
                    assert({
                        &&& a == 1 ==> a * b == 2
                        &&& a == 2 ==> a * b == 6
                        &&& a == 3 ==> a * b == 12
                        &&& a == 4 ==> a * b == 20
                    }) by (nonlinear_arith)
                        requires
                            b == a + 1,
                    ;
                    let product = a * b;
                    if product % 3 == 0 {
                        sum += product;
                    }
                },
                None => {
                    break ;
                },
            },
            None => {
                break ;
            },
        }
    }
    assert(sum == 18);
}

} // verus!
