//! A number-guessing round: a secret number drawn at random and a guess
//! read from a line of text.

use crate::text::{decimal, digits};
use rand::Rng;
use vstd::prelude::*;
use vstd::std_specs::iter::IteratorSpec;

verus! {

/// The smallest number a secret can be.
pub const LOWEST_SECRET: u32 = 1;

/// The largest number a secret can be.
pub const HIGHEST_SECRET: u32 = 100;

/// Draws a number between `low` and `high`, both included.
///
/// Calls `rand::rng().random_range(low..=high)`, which samples the
/// thread-local generator and panics on an empty range. Nothing is proved
/// of it here; the contract claims only that the number lies in the range
/// asked for. Two calls may return different numbers.
#[verifier::external_body]
fn random_between(low: u32, high: u32) -> (number: u32)
    requires
        low <= high,
    ensures
        low <= number <= high,
{
    rand::rng().random_range(low..=high)
}

/// Draws the secret number of a round.
pub fn secret_number() -> (secret: u32)
    ensures
        LOWEST_SECRET <= secret <= HIGHEST_SECRET,
{
    random_between(LOWEST_SECRET, HIGHEST_SECRET)
}

/// White space: the characters that carry the Unicode property
/// `White_Space`.
pub open spec fn is_space(c: char) -> bool {
    ||| '\u{9}' <= c <= '\u{d}'
    ||| c == ' '
    ||| c == '\u{85}'
    ||| c == '\u{a0}'
    ||| c == '\u{1680}'
    ||| '\u{2000}' <= c <= '\u{200a}'
    ||| c == '\u{2028}'
    ||| c == '\u{2029}'
    ||| c == '\u{202f}'
    ||| c == '\u{205f}'
    ||| c == '\u{3000}'
}

/// `s` without the white space at its front and at its back.
pub open spec fn trimmed(s: Seq<char>) -> Seq<char>
    decreases s.len(),
{
    if s.len() > 0 && is_space(s.first()) {
        trimmed(s.drop_first())
    } else if s.len() > 0 && is_space(s.last()) {
        trimmed(s.drop_last())
    } else {
        s
    }
}

/// One of the ten decimal digits.
pub open spec fn is_digit(c: char) -> bool {
    '0' <= c <= '9'
}

/// The number a decimal digit stands for.
pub open spec fn digit_value(c: char) -> nat {
    (c as u32 - '0' as u32) as nat
}

/// The number that a sequence of decimal digits denotes, the most
/// significant digit first; leading zeros do not count.
pub open spec fn numeral_value(s: Seq<char>) -> nat
    decreases s.len(),
{
    if s.len() == 0 {
        0
    } else {
        10 * numeral_value(s.drop_last()) + digit_value(s.last())
    }
}

/// At least one character, and nothing but decimal digits.
pub open spec fn is_numeral(s: Seq<char>) -> bool {
    &&& s.len() > 0
    &&& forall|i: int| 0 <= i < s.len() ==> is_digit(#[trigger] s[i])
}

/// What is left of `s` when one plus sign at its front is taken away.
pub open spec fn unsigned_part(s: Seq<char>) -> Seq<char> {
    if s.len() > 0 && s.first() == '+' {
        s.drop_first()
    } else {
        s
    }
}

/// The number that `s` denotes: an optional plus sign and then a numeral
/// whose value fits in 32 bits. Anything else denotes no number.
pub open spec fn parsed_number(s: Seq<char>) -> Option<u32> {
    let digits = unsigned_part(s);
    if is_numeral(digits) && numeral_value(digits) <= u32::MAX {
        Some(numeral_value(digits) as u32)
    } else {
        None
    }
}

/// The guess that a line of input holds: the number denoted by the line
/// once the white space around it is gone.
pub open spec fn parsed_guess(line: Seq<char>) -> Option<u32> {
    parsed_number(trimmed(line))
}

/// `s` is white space up to `from` and from `to` on, and what lies in
/// between neither begins nor ends with white space.
pub open spec fn trims_to(s: Seq<char>, from: int, to: int) -> bool {
    &&& 0 <= from <= to <= s.len()
    &&& forall|i: int| 0 <= i < from ==> is_space(#[trigger] s[i])
    &&& forall|i: int| to <= i < s.len() ==> is_space(#[trigger] s[i])
    &&& from < to ==> !is_space(s[from]) && !is_space(s[to - 1])
}

/// Trimming keeps exactly the part between the white space at the front
/// and the white space at the back.
pub proof fn lemma_trimmed_is_the_inner_part(s: Seq<char>, from: int, to: int)
    requires
        trims_to(s, from, to),
    ensures
        trimmed(s) == s.subrange(from, to),
    decreases s.len(),
{
    if s.len() > 0 && is_space(s.first()) {
        let rest = s.drop_first();
        if from > 0 {
            assert forall|i: int| 0 <= i < from - 1 implies is_space(#[trigger] rest[i]) by {
                assert(rest[i] == s[i + 1]);
            }
            assert forall|i: int| to - 1 <= i < rest.len() implies is_space(
                #[trigger] rest[i],
            ) by {
                assert(rest[i] == s[i + 1]);
            }
            lemma_trimmed_is_the_inner_part(rest, from - 1, to - 1);
            assert(rest.subrange(from - 1, to - 1) =~= s.subrange(from, to));
        } else {
            assert(from == to);
            assert forall|i: int| 0 <= i < rest.len() implies is_space(#[trigger] rest[i]) by {
                assert(rest[i] == s[i + 1]);
            }
            lemma_trimmed_is_the_inner_part(rest, 0, 0);
            assert(rest.subrange(0, 0) =~= s.subrange(from, to));
        }
    } else if s.len() > 0 && is_space(s.last()) {
        let rest = s.drop_last();
        assert(from == 0);
        assert(to < s.len());
        lemma_trimmed_is_the_inner_part(rest, from, to);
        assert(rest.subrange(from, to) =~= s.subrange(from, to));
    } else {
        assert(from == 0);
        assert(to == s.len());
        assert(s.subrange(from, to) =~= s);
    }
}

/// A numeral denotes at least as much as any of its beginnings.
proof fn lemma_numeral_value_grows(s: Seq<char>, k: int)
    requires
        0 <= k <= s.len(),
    ensures
        numeral_value(s.take(k)) <= numeral_value(s),
    decreases s.len() - k,
{
    if k < s.len() {
        lemma_numeral_value_grows(s, k + 1);
        assert(s.take(k + 1).drop_last() =~= s.take(k));
    } else {
        assert(s.take(k) =~= s);
    }
}

/// The decimal numeral of `n` is a numeral, and it denotes `n`.
pub proof fn lemma_decimal_denotes(n: nat)
    ensures
        is_numeral(decimal(n)),
        numeral_value(decimal(n)) == n,
    decreases n,
{
    let last = digits()[(n % 10) as int];
    assert(is_digit(last) && digit_value(last) == n % 10);
    assert(decimal(n).last() == last);
    if n < 10 {
        assert(decimal(n).drop_last() =~= Seq::<char>::empty());
        assert(numeral_value(decimal(n).drop_last()) == 0);
    } else {
        lemma_decimal_denotes(n / 10);
        assert(decimal(n).drop_last() =~= decimal(n / 10));
    }
}

/// A guess written out in decimal is read back as the same guess.
pub proof fn lemma_guess_reads_back(n: u32)
    ensures
        parsed_guess(decimal(n as nat)) == Some(n),
{
    let numeral = decimal(n as nat);
    lemma_decimal_denotes(n as nat);
    assert(is_digit(numeral.first()) && is_digit(numeral.last()));
}

/// The characters of `line`, in order.
fn chars_of(line: &str) -> (chars: Vec<char>)
    ensures
        chars@ == line@,
{
    let mut chars: Vec<char> = Vec::new();
    for c in it: line.chars()
        invariant
            it.seq() == line@,
            chars@ == it.seq().take(it.index() as int),
    {
        chars.push(c);
    }
    chars
}

/// Whether `c` is white space.
fn is_space_char(c: char) -> (space: bool)
    ensures
        space == is_space(c),
{
    ('\u{9}' <= c && c <= '\u{d}') || c == ' ' || c == '\u{85}' || c == '\u{a0}' || c
        == '\u{1680}' || ('\u{2000}' <= c && c <= '\u{200a}') || c == '\u{2028}' || c
        == '\u{2029}' || c == '\u{202f}' || c == '\u{205f}' || c == '\u{3000}'
}

/// Reads the number denoted by the characters of `chars` from `start` up
/// to `end`.
fn number_between(chars: &Vec<char>, start: usize, end: usize) -> (number: Option<u32>)
    requires
        start <= end <= chars.len(),
    ensures
        number == parsed_number(chars@.subrange(start as int, end as int)),
{
    let ghost whole = chars@.subrange(start as int, end as int);
    let mut i: usize = start;
    if i < end && chars[i] == '+' {
        i += 1;
    }
    let first: usize = i;
    let ghost digits = chars@.subrange(first as int, end as int);
    assert(digits =~= unsigned_part(whole));
    if first == end {
        return None;
    }
    let mut value: u64 = 0;
    while i < end
        invariant
            start <= first <= i <= end <= chars.len(),
            digits == chars@.subrange(first as int, end as int),
            digits == unsigned_part(chars@.subrange(start as int, end as int)),
            forall|j: int| 0 <= j < i - first ==> is_digit(#[trigger] digits[j]),
            value == numeral_value(digits.take(i - first)),
            value <= u32::MAX,
        decreases end - i,
    {
        let c = chars[i];
        if !('0' <= c && c <= '9') {
            assert(!is_digit(digits[i - first]));
            return None;
        }
        let digit: u64 = (c as u32 - '0' as u32) as u64;
        let next: u64 = value * 10 + digit;
        proof {
            let longer = digits.take(i - first + 1);
            assert(longer.drop_last() =~= digits.take(i - first));
            assert(longer.last() == c);
            assert(next == numeral_value(longer));
        }
        if next > u32::MAX as u64 {
            proof {
                lemma_numeral_value_grows(digits, i - first + 1);
            }
            return None;
        }
        value = next;
        i += 1;
    }
    assert(digits.take(i - first) =~= digits);
    Some(value as u32)
}

/// Reads the guess that a line of input holds.
///
/// White space around the number is ignored, a line end included. The
/// number is written in decimal digits, with or without a plus sign in
/// front, and must fit in 32 bits. A line that holds anything else, or
/// nothing, holds no guess.
pub fn parse_guess(line: &str) -> (guess: Option<u32>)
    ensures
        guess == parsed_guess(line@),
{
    let chars = chars_of(line);
    let mut start: usize = 0;
    while start < chars.len() && is_space_char(chars[start])
        invariant
            start <= chars.len(),
            forall|i: int| 0 <= i < start ==> is_space(#[trigger] chars@[i]),
        decreases chars.len() - start,
    {
        start += 1;
    }
    let mut end: usize = chars.len();
    while end > start && is_space_char(chars[end - 1])
        invariant
            start <= end <= chars.len(),
            forall|i: int| end <= i < chars.len() ==> is_space(#[trigger] chars@[i]),
        decreases end,
    {
        end -= 1;
    }
    proof {
        lemma_trimmed_is_the_inner_part(chars@, start as int, end as int);
    }
    number_between(&chars, start, end)
}

} // verus!
