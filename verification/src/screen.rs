//! A screen of drawable components.
//!
//! Anything that can render itself as a line of text is a component. The
//! screen owns its components behind trait objects, so buttons, text fields
//! and kinds defined elsewhere can share one list, and renders them in the
//! order in which they were inserted.

use crate::text::{decimal, decimal_text};
use vstd::prelude::*;
use vstd::string::StringExecFns;

verus! {

/// Something that can render itself as one line of text.
pub trait Draw {
    /// The line this item renders. It is empty unless the implementation
    /// states another one, so a kind of component written without proofs
    /// needs to supply `draw` only.
    open spec fn rendering(&self) -> Seq<char> {
        Seq::empty()
    }

    /// Renders the item.
    fn draw(&self) -> (line: String)
        ensures
            line@ == self.rendering(),
    ;
}

/// A clickable rectangle.
pub struct Button {
    pub width: u32,
    pub height: u32,
}

impl Draw for Button {
    open spec fn rendering(&self) -> Seq<char> {
        "Drawing button: "@ + decimal(self.width as nat) + "x"@ + decimal(self.height as nat)
    }

    fn draw(&self) -> (line: String) {
        let width = decimal_text(self.width);
        let height = decimal_text(self.height);
        let mut line = "Drawing button: ".to_owned();
        line.append(width.as_str());
        line.append("x");
        line.append(height.as_str());
        line
    }
}

/// An input field that shows a placeholder while it is empty.
pub struct TextField {
    pub placeholder: String,
}

impl Draw for TextField {
    open spec fn rendering(&self) -> Seq<char> {
        "Drawing text field: "@ + self.placeholder@
    }

    fn draw(&self) -> (line: String) {
        let mut line = "Drawing text field: ".to_owned();
        line.append(self.placeholder.as_str());
        line
    }
}

/// An ordered collection of components; the order of insertion is the
/// order of rendering.
pub struct Screen {
    pub components: Vec<Box<dyn Draw>>,
}

impl Screen {
    /// Renders every component once, first to last, and returns the lines
    /// in that order.
    pub fn run(&self) -> (lines: Vec<String>)
        ensures
            lines@.len() == self.components@.len(),
            forall|i: int|
                0 <= i < lines@.len() ==> (#[trigger] lines@[i])@ == self.components@[i].rendering(),
    {
        let mut lines: Vec<String> = Vec::new();
        let mut i: usize = 0;
        while i < self.components.len()
            invariant
                i <= self.components@.len(),
                lines@.len() == i,
                forall|j: int|
                    0 <= j < i ==> (#[trigger] lines@[j])@ == self.components@[j].rendering(),
            decreases self.components@.len() - i,
        {
            let line = self.components[i].draw();
            lines.push(line);
            i += 1;
        }
        lines
    }
}

} // verus!
