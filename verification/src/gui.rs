//! A minimal drawing surface.
//!
//! [`Draw`] is common behavior for anything that can put itself on screen;
//! a [`Screen`] holds a homogeneous collection of such components and draws
//! them in order.  Drawing itself is a side effect on a display, so the
//! trait promises nothing about it; what the screen guarantees is only that
//! `run` touches every component once, front to back.

use vstd::prelude::*;

verus! {

/// Something that can draw itself.
pub trait Draw {
    /// Draws the component.
    fn draw(&self);
}

/// A screen full of drawable components.
pub struct Screen<T: Draw> {
    /// The components, drawn in order.
    pub components: Vec<T>,
}

impl<T: Draw> Screen<T> {
    /// Draws every component, in order.
    pub fn run(&self) {
        let mut i: usize = 0;
        while i < self.components.len()
            invariant
                i <= self.components.len(),
            decreases self.components.len() - i,
        {
            self.components[i].draw();
            i = i + 1;
        }
    }
}

/// A push button.
pub struct Button {
    /// Horizontal extent.
    pub width: u32,
    /// Vertical extent.
    pub height: u32,
    /// The caption.
    pub label: String,
}

impl Draw for Button {
    fn draw(&self) {
    }
}

} // verus!
