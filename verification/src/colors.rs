//! Colors of the RYB color model.

use vstd::prelude::*;

verus! {

/// The primary colors according to the RYB color model.
pub enum PrimaryColor {
    /// Red.
    Red,
    /// Yellow.
    Yellow,
    /// Blue.
    Blue,
}

/// The secondary colors according to the RYB color model.
pub enum SecondaryColor {
    /// Orange.
    Orange,
    /// Green.
    Green,
    /// Purple.
    Purple,
}

/// Combines two primary colors in equal amounts to create a secondary
/// color.  The mixing table is not filled in yet: every mix comes out green.
pub fn mix(c1: PrimaryColor, c2: PrimaryColor) -> (r: SecondaryColor)
    ensures
        r is Green,
{
    let _ = c1;
    let _ = c2;
    SecondaryColor::Green
}

} // verus!
