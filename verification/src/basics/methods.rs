//! Methods on a struct.

use vstd::prelude::*;

verus! {

/// A rectangle with sides in whole pixels.
#[derive(Debug)]
pub struct Rectangle {
    pub width: u32,
    pub height: u32,
}

/// What the methods of one rectangle return.
#[derive(Debug)]
pub struct Measured {
    pub area: u32,
    pub has_width: bool,
    pub width: u32,
}

impl Rectangle {
    /// The area in square pixels.
    pub fn area(&self) -> (area: u32)
        requires
            self.width * self.height <= u32::MAX,
        ensures
            area == self.width * self.height,
    {
        self.width * self.height
    }

    /// Whether the width is positive. A method may share its name with a
    /// field: `r.width()` calls the method, `r.width` reads the field.
    pub fn width(&self) -> (positive: bool)
        ensures
            positive == (self.width > 0),
    {
        self.width > 0
    }
}

/// Calls both methods on a rectangle of 30 by 50 pixels.
pub fn impl_method() -> (seen: Measured)
    ensures
        seen.area == 1500,
        seen.has_width,
        seen.width == 30,
{
    let rect1 = Rectangle { width: 30, height: 50 };
    Measured { area: rect1.area(), has_width: rect1.width(), width: rect1.width }
}

} // verus!
