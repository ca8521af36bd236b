//! Axis-aligned rectangles.

use vstd::prelude::*;

verus! {

/// An axis-aligned rectangle, measured in whole units.
#[derive(Debug)]
pub struct Rectangle {
    /// Horizontal extent.
    pub width: u32,
    /// Vertical extent.
    pub height: u32,
}

impl Rectangle {
    /// Whether `other` fits strictly inside `self`: true exactly when both
    /// of `self`'s sides are longer.
    pub fn can_hold(&self, other: &Rectangle) -> (r: bool)
        ensures
            r == (self.width > other.width && self.height > other.height),
    {
        self.width > other.width && self.height > other.height
    }
}

} // verus!
