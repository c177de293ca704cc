//! Sums written out as text.

use crate::text::{signed_decimal, signed_decimal_text};
use vstd::prelude::*;
use vstd::string::StringExecFns;

verus! {

/// The line that shows a sum: both terms, then the total.
pub open spec fn sum_line(x: int, y: int) -> Seq<char> {
    signed_decimal(x) + " + "@ + signed_decimal(y) + " = "@ + signed_decimal(x + y)
}

/// Writes out the sum of `x` and `y` and returns, beside that line, the
/// number that follows the sum.
pub fn print_sum(x: i32, y: i32) -> (out: (String, i32))
    requires
        i32::MIN <= x + y,
        x + y + 1 <= i32::MAX,
    ensures
        out.0@ == sum_line(x as int, y as int),
        out.1 == x + y + 1,
{
    let x_text = signed_decimal_text(x);
    let y_text = signed_decimal_text(y);
    let sum_text = signed_decimal_text(x + y);
    let mut line = x_text;
    line.append(" + ");
    line.append(y_text.as_str());
    line.append(" = ");
    line.append(sum_text.as_str());
    (line, x + y + 1)
}

} // verus!
