//! A list that holds itself: each link owns the rest of the list in a box.

use vstd::prelude::*;

verus! {

/// A list of numbers: a number in front of a list, or nothing.
pub enum List {
    Cons(i32, Box<List>),
    Nil,
}

impl List {
    /// The numbers of the list, front first.
    pub open spec fn items(self) -> Seq<i32>
        decreases self,
    {
        match self {
            List::Cons(head, tail) => seq![head] + tail.items(),
            List::Nil => Seq::empty(),
        }
    }
}

impl View for List {
    type V = Seq<i32>;

    /// The numbers of the list, front first.
    open spec fn view(&self) -> Seq<i32> {
        self.items()
    }
}

/// Builds the list 1, 2, 3.
pub fn use_cons() {
    let list = List::Cons(
        1,
        Box::new(List::Cons(2, Box::new(List::Cons(3, Box::new(List::Nil))))),
    );
    assert(list@ == seq![1i32, 2i32, 3i32]) by {
        reveal_with_fuel(List::items, 5);
    }
}

} // verus!
