//! A pair of values of one type, and which of its members is the larger.

use core::cmp::Ordering;
use core::fmt::Display;
use vstd::prelude::*;
use vstd::std_specs::cmp::PartialOrdSpec;
use vstd::string::{to_string_from_display_ensures, StringExecFns};

verus! {

/// Two values of the same type.
pub struct Pair<T> {
    pub x: T,
    pub y: T,
}

/// `a` compares greater than or equal to `b`. False when the two are
/// unordered.
pub open spec fn at_least<T: PartialOrd>(a: T, b: T) -> bool {
    a.partial_cmp_spec(&b) matches Some(Ordering::Greater | Ordering::Equal)
}

impl<T> Pair<T> {
    /// Makes a pair of `x` and `y`.
    pub fn new(x: T, y: T) -> (pair: Self)
        ensures
            pair.x == x,
            pair.y == y,
    {
        Self { x, y }
    }
}

/// The line that names the larger member and shows it: `x` if `first`
/// holds, else `y`.
pub open spec fn member_line(first: bool, shown: Seq<char>) -> Seq<char> {
    if first {
        "The largest member is x = "@ + shown
    } else {
        "The largest member is y = "@ + shown
    }
}

/// `line` names the member chosen by `first` and shows `value` the way
/// displaying it writes it.
pub open spec fn shows<T: Display>(line: Seq<char>, first: bool, value: &T) -> bool {
    exists|shown: String| #[trigger]
        to_string_from_display_ensures::<T>(value, shown) && line == member_line(first, shown@)
}

/// Writes the line that names the larger member, given how it is shown.
pub fn member_line_text(first: bool, shown: &str) -> (line: String)
    ensures
        line@ == member_line(first, shown@),
{
    let mut line = if first {
        "The largest member is x = ".to_owned()
    } else {
        "The largest member is y = ".to_owned()
    };
    line.append(shown);
    line
}

impl<T: Display + PartialOrd> Pair<T> {
    /// Names the larger member and shows it: `x` when it is at least `y`,
    /// and `y` otherwise, also when the two are unordered.
    pub fn cmp_display(&self) -> (line: String)
        ensures
            shows(line@, true, &self.x) || shows(line@, false, &self.y),
            T::obeys_partial_cmp_spec() ==> if at_least(self.x, self.y) {
                shows(line@, true, &self.x)
            } else {
                shows(line@, false, &self.y)
            },
    {
        if self.x >= self.y {
            let shown = self.x.to_string();
            member_line_text(true, shown.as_str())
        } else {
            let shown = self.y.to_string();
            member_line_text(false, shown.as_str())
        }
    }
}

} // verus!
