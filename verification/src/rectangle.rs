//! Axis-aligned rectangles with whole-number sides.

use vstd::prelude::*;

verus! {

/// A rectangle given by its width and height.
#[derive(Debug)]
pub struct Rectangle {
    pub width: u32,
    pub height: u32,
}

impl Rectangle {
    /// Makes a rectangle of the given width and height.
    pub fn new(width: u32, height: u32) -> (rect: Rectangle)
        ensures
            rect.width == width,
            rect.height == height,
    {
        Rectangle { width, height }
    }

    /// Width times height.
    pub fn area(&self) -> (area: u32)
        requires
            self.width * self.height <= u32::MAX,
        ensures
            area == self.width * self.height,
    {
        self.width * self.height
    }

    /// Whether `other` fits inside `self` with room to spare on both axes.
    pub fn can_hold(&self, other: &Rectangle) -> (fits: bool)
        ensures
            fits == (self.width > other.width && self.height > other.height),
    {
        self.width > other.width && self.height > other.height
    }

    /// Multiplies both sides by `factor`.
    pub fn scale(&mut self, factor: u32)
        requires
            old(self).width * factor <= u32::MAX,
            old(self).height * factor <= u32::MAX,
        ensures
            final(self).width == old(self).width * factor,
            final(self).height == old(self).height * factor,
    {
        self.width *= factor;
        self.height *= factor;
    }

    /// Turns the rectangle into the smallest square that covers it: both
    /// sides become the longer of the two.
    pub fn into_square(self) -> (square: Rectangle)
        ensures
            square.width == square.height,
            square.width == (if self.width >= self.height {
                self.width
            } else {
                self.height
            }),
    {
        let size = self.width.max(self.height);
        Rectangle { width: size, height: size }
    }
}

} // verus!
