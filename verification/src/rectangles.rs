//! Rectangle areas three ways - loose variables, a tuple, a struct -
//! and methods on the struct itself.

use vstd::prelude::*;

verus! {

/// The area of a rectangle given as two loose dimensions.
pub fn area(width: u32, height: u32) -> (a: u32)
    requires
        width * height <= u32::MAX,
    ensures
        a == width * height,
{
    width * height
}

/// The area of a rectangle given as a (width, height) tuple.
pub fn tup_area(dimensions: (u32, u32)) -> (a: u32)
    requires
        dimensions.0 * dimensions.1 <= u32::MAX,
    ensures
        a == dimensions.0 * dimensions.1,
{
    dimensions.0 * dimensions.1
}

/// A rectangle with a named width and height.
#[derive(Debug, Clone, Copy, PartialEq, Eq, Structural)]
pub struct Rectangle {
    pub width: u32,
    pub height: u32,
}

/// The area of a rectangle given as a struct.
pub fn struc_area(rectangle: &Rectangle) -> (a: u32)
    requires
        rectangle.width * rectangle.height <= u32::MAX,
    ensures
        a == rectangle.width * rectangle.height,
{
    rectangle.width * rectangle.height
}

impl Rectangle {
    /// The rectangle's area.
    pub fn area(&self) -> (a: u32)
        requires
            self.width * self.height <= u32::MAX,
        ensures
            a == self.width * self.height,
    {
        self.width * self.height
    }

    /// Whether the rectangle has a nonzero width; the method shares its
    /// name with the field it inspects.
    pub fn width(&self) -> (nonzero: bool)
        ensures
            nonzero == (self.width > 0),
    {
        self.width > 0u32
    }

    /// Whether `other` fits strictly inside this rectangle, allowing a
    /// quarter turn.
    pub fn can_fit(&self, other: &Rectangle) -> (fits: bool)
        ensures
            fits == ((self.width > other.width && self.height > other.height) || (self.width
                > other.height && self.height > other.width)),
    {
        (self.width > other.width && self.height > other.height) || (self.width > other.height
            && self.height > other.width)
    }

    /// A square: both dimensions take the one size given.
    pub fn square(size: u32) -> (sq: Self)
        ensures
            sq.width == size,
            sq.height == size,
    {
        Self { width: size, height: size }
    }
}

} // verus!
