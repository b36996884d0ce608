//! The area of a rectangle from its two sides.

use vstd::prelude::*;

verus! {

/// The area of a rectangle of the given width and height.
pub fn area(width: u32, height: u32) -> (area: u32)
    requires
        width * height <= u32::MAX,
    ensures
        area == width * height,
{
    width * height
}

} // verus!
