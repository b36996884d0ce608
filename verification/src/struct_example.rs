//! The area of a rectangle, computed from two numbers, from a pair and from
//! a [`Rectangle`].

use vstd::prelude::*;

verus! {

/// The area of a rectangle of the given width and height.
pub fn area(width: u32, height: u32) -> (area: u32)
    requires
        width * height <= u32::MAX,
    ensures
        area == width * height,
{
    width * height
}

/// The area of a rectangle whose width and height are given as a pair.
pub fn area_with_tuple(dimensions: (u32, u32)) -> (area: u32)
    requires
        dimensions.0 * dimensions.1 <= u32::MAX,
    ensures
        area == dimensions.0 * dimensions.1,
{
    dimensions.0 * dimensions.1
}

/// A rectangle, by its width and its height.
#[derive(Debug)]
pub struct Rectangle {
    pub width: u32,
    pub height: u32,
}

/// The area of `rectangle`.
pub fn area_with_rect(rectangle: &Rectangle) -> (area: u32)
    requires
        rectangle.width * rectangle.height <= u32::MAX,
    ensures
        area == rectangle.width * rectangle.height,
{
    rectangle.width * rectangle.height
}

impl Rectangle {
    /// The area of the rectangle.
    pub fn area(&self) -> (area: u32)
        requires
            self.width * self.height <= u32::MAX,
        ensures
            area == self.width * self.height,
    {
        self.width * self.height
    }

    /// Whether `other` fits inside the rectangle with room to spare: it is
    /// both less high and less wide.
    pub fn can_hold(&self, other: &Rectangle) -> (fits: bool)
        ensures
            fits == (other.height < self.height && other.width < self.width),
    {
        other.height < self.height && other.width < self.width
    }

    /// The square with sides of length `size`.
    pub fn square(size: u32) -> (square: Rectangle)
        ensures
            square.width == size,
            square.height == size,
    {
        Rectangle { width: size, height: size }
    }

    /// The rectangle of the given width and height.
    pub fn with(width: u32, height: u32) -> (rectangle: Rectangle)
        ensures
            rectangle.width == width,
            rectangle.height == height,
    {
        Rectangle { width, height }
    }
}

} // verus!
