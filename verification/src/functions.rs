//! Functions, statements and expressions at their smallest.

use vstd::prelude::*;

verus! {

/// Binds a name to a number and does nothing with it: a statement gives no
/// value.
pub fn statement() {
    let y: i32 = 6;
}

/// The number five.
pub fn five() -> (five: i32)
    ensures
        five == 5,
{
    5
}

/// Binds a name to what [`five`] gives.
pub fn trying_to_use_unit() {
    let x = five();
    assert(x == 5);
}

} // verus!
