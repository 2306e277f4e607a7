//! Rectangles with whole-number sides.

use vstd::prelude::*;

verus! {

/// A rectangle given by its width and height.
#[derive(Debug)]
pub struct Rectangle {
    pub width: u32,
    pub height: u32,
}

/// The area of `rectangle`, for a rectangle whose area fits in `u32`.
pub fn area(rectangle: &Rectangle) -> (r: u32)
    requires
        rectangle.width * rectangle.height <= u32::MAX,
    ensures
        r == rectangle.width * rectangle.height,
{
    rectangle.width * rectangle.height
}

impl Rectangle {
    /// The area, for a rectangle whose area fits in `u32`.
    pub fn area(&self) -> (r: u32)
        requires
            self.width * self.height <= u32::MAX,
        ensures
            r == self.width * self.height,
    {
        self.width * self.height
    }

    /// Whether `other_rect` fits strictly inside this rectangle, without turning it.
    pub fn can_hold(&self, other_rect: &Rectangle) -> (r: bool)
        ensures
            r == (self.width > other_rect.width && self.height > other_rect.height),
    {
        self.width > other_rect.width && self.height > other_rect.height
    }

    /// A square whose sides are `size` long.
    pub fn square(size: u32) -> (r: Self)
        ensures
            r.width == size,
            r.height == size,
    {
        Self { width: size, height: size }
    }

    /// Whether the width is not zero.
    pub fn width(&self) -> (r: bool)
        ensures
            r == (self.width > 0),
    {
        self.width > 0
    }
}

} // verus!
