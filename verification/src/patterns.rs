//! Small decisions made by matching on a value.

use vstd::prelude::*;

verus! {

/// The successor of the number inside, if there is one.
pub fn plus_one(x: Option<i32>) -> (next: Option<i32>)
    requires
        x matches Some(i) ==> i < i32::MAX,
    ensures
        next == match x {
            None => None::<i32>,
            Some(i) => Some((i + 1) as i32),
        },
{
    match x {
        None => None,
        Some(i) => Some(i + 1),
    }
}

/// Keeps one, two and three as they are and maps every other number to
/// zero.
pub fn xxx(x: i32) -> (kept: i32)
    ensures
        kept == (if 1 <= x <= 3 {
            x
        } else {
            0
        }),
{
    match x {
        1 => 1,
        2 => 2,
        3 => 3,
        _ => 0,
    }
}

/// The label of the class a character falls in: lower-case letter,
/// upper-case letter, digit, or anything else.
pub open spec fn class_label(c: char) -> Seq<char> {
    if 'a' <= c <= 'z' {
        "小寫字母"@
    } else if 'A' <= c <= 'Z' {
        "大寫字母"@
    } else if '0' <= c <= '9' {
        "數字"@
    } else {
        "其他"@
    }
}

/// Names the class of `c` among the ASCII letters and digits.
pub fn classify(c: char) -> (label: &'static str)
    ensures
        label@ == class_label(c),
{
    match c {
        'a'..='z' => "小寫字母",
        'A'..='Z' => "大寫字母",
        '0'..='9' => "數字",
        _ => "其他",
    }
}

} // verus!
