//! Following a reference to its value, through `&`, through `Box`, and
//! through a box of one's own.

use std::ops::Deref;
use vstd::prelude::*;

verus! {

/// Reads a number directly and through a reference to it.
pub fn dereference_operator() {
    let x: i32 = 5;
    let y = &x;

    assert(5 == x);
    assert(5 == *y);
}

/// Reads a number directly and through a box that holds a copy of it.
pub fn dereference_with_box() {
    let x: i32 = 5;
    let box_y = Box::new(x);
    assert(5 == x);
    assert(5 == *box_y);
}

/// A box of one's own: it holds one value.
pub struct MyBox<T>(pub T);

impl<T> MyBox<T> {
    /// A box that holds `x`.
    pub fn new(x: T) -> (boxed: MyBox<T>)
        ensures
            boxed.0 == x,
    {
        MyBox(x)
    }
}

impl<T> Deref for MyBox<T> {
    type Target = T;

    /// The value in the box.
    fn deref(&self) -> (value: &T)
        ensures
            *value == self.0,
    {
        &self.0
    }
}

/// Reads a number directly and through a box of one's own.
pub fn deref_my_box() {
    let x: i32 = 5;
    let y = MyBox::new(x);
    assert(5 == x);
    let inside = *y;
    assert(5 == inside);
}

} // verus!
