//! Finding the largest element of a slice under a partial order.
//!
//! The order is the one `PartialOrd` gives the element type. Two values may
//! be unordered, in which case neither is greater than the other. The
//! finder scans from the front and moves on only to a strictly greater
//! element, so among equal maxima the first one wins.

use core::cmp::Ordering;
use vstd::prelude::*;
use vstd::std_specs::cmp::PartialOrdSpec;

verus! {

/// `a` compares strictly greater than `b`. False when the two are unordered.
pub open spec fn exceeds<T: PartialOrd>(a: T, b: T) -> bool {
    a.partial_cmp_spec(&b) == Some(Ordering::Greater)
}

/// The comparison operators of `T` compute what `exceeds` states.
pub open spec fn comparison_is_specified<T: PartialOrd>() -> bool {
    T::obeys_partial_cmp_spec()
}

/// The comparison of `a` with `b` has an outcome: less, equal or greater.
pub open spec fn ordered_with<T: PartialOrd>(a: T, b: T) -> bool {
    a.partial_cmp_spec(&b) is Some
}

/// `x` is ordered with respect to nothing, not even itself.
pub open spec fn unorderable<T: PartialOrd>(x: T) -> bool {
    &&& forall|y: T| !#[trigger] ordered_with(x, y)
    &&& forall|y: T| !#[trigger] ordered_with(y, x)
}

/// "Strictly greater" is transitive and never holds in both directions.
pub open spec fn is_strict_order<T: PartialOrd>() -> bool {
    &&& forall|x: T, y: T, z: T| #[trigger]
        exceeds(x, y) && #[trigger] exceeds(y, z) ==> exceeds(x, z)
    &&& forall|x: T, y: T| #[trigger] exceeds(x, y) ==> !exceeds(y, x)
}

/// Position of the running maximum after the first `n` elements of `s` have
/// been scanned: an element takes the lead only if it strictly exceeds the
/// current leader.
pub open spec fn leader<T: PartialOrd>(s: Seq<T>, n: nat) -> int
    decreases n,
{
    if n <= 1 {
        0
    } else {
        let before = leader(s, (n - 1) as nat);
        if exceeds(s[n - 1], s[before]) {
            n - 1
        } else {
            before
        }
    }
}

/// Position of the element that `largest` returns.
pub open spec fn largest_index<T: PartialOrd>(s: Seq<T>) -> int {
    leader(s, s.len())
}

/// The leader of a non-empty prefix lies inside that prefix.
pub proof fn lemma_leader_in_prefix<T: PartialOrd>(s: Seq<T>, n: nat)
    requires
        0 < n,
    ensures
        0 <= leader(s, n) < n,
    decreases n,
{
    if n > 1 {
        lemma_leader_in_prefix(s, (n - 1) as nat);
    }
}

/// Once position `k` leads the prefix that ends with it, it leads every
/// longer prefix too, provided that nothing behind it exceeds it.
proof fn lemma_leader_stays<T: PartialOrd>(s: Seq<T>, k: int, n: nat)
    requires
        0 <= k < n <= s.len(),
        forall|j: int| k < j < s.len() ==> !exceeds(s[j], s[k]),
        leader(s, (k + 1) as nat) == k,
    ensures
        leader(s, n) == k,
    decreases n,
{
    if n > k + 1 {
        lemma_leader_stays(s, k, (n - 1) as nat);
    }
}

/// Nothing in a prefix exceeds the leader of that prefix.
proof fn lemma_leader_is_unsurpassed<T: PartialOrd>(s: Seq<T>, n: nat)
    requires
        0 < n <= s.len(),
        is_strict_order::<T>(),
    ensures
        forall|j: int| 0 <= j < n ==> !exceeds(s[j], s[leader(s, n)]),
    decreases n,
{
    if n > 1 {
        let before = leader(s, (n - 1) as nat);
        lemma_leader_in_prefix(s, (n - 1) as nat);
        lemma_leader_is_unsurpassed(s, (n - 1) as nat);
        let last = s[n - 1];
        if exceeds(last, s[before]) {
            assert forall|j: int| 0 <= j < n implies !#[trigger] exceeds(s[j], last) by {
                if j < n - 1 && exceeds(s[j], last) {
                    assert(exceeds(s[j], s[before]));
                }
            }
        }
    }
}

/// No element of a non-empty sequence compares strictly greater than the
/// one `largest` returns, whenever "strictly greater" is a strict order on
/// the element type. The elements need not all be ordered with each other.
pub proof fn lemma_largest_is_unsurpassed<T: PartialOrd>(s: Seq<T>)
    requires
        s.len() > 0,
        is_strict_order::<T>(),
    ensures
        0 <= largest_index(s) < s.len(),
        forall|j: int| 0 <= j < s.len() ==> !exceeds(s[j], s[largest_index(s)]),
{
    lemma_leader_in_prefix(s, s.len());
    lemma_leader_is_unsurpassed(s, s.len());
}

/// Among several occurrences of the maximum, `largest` returns the first.
///
/// If nothing in `s` exceeds the element at `k`, and that element exceeds
/// every element in front of it, then `k` is the position returned: later
/// elements that merely tie with it never displace it.
pub proof fn lemma_largest_is_first_maximum<T: PartialOrd>(s: Seq<T>, k: int)
    requires
        0 <= k < s.len(),
        forall|j: int| 0 <= j < s.len() ==> !exceeds(s[j], s[k]),
        forall|j: int| 0 <= j < k ==> exceeds(s[k], s[j]),
    ensures
        largest_index(s) == k,
{
    if k > 0 {
        lemma_leader_in_prefix(s, k as nat);
    }
    assert(leader(s, (k + 1) as nat) == k);
    lemma_leader_stays(s, k, s.len());
}

/// The leader of a prefix is never an unorderable element, unless it is the
/// very first element.
proof fn lemma_leader_is_orderable<T: PartialOrd>(s: Seq<T>, n: nat)
    requires
        0 < n <= s.len(),
    ensures
        leader(s, n) == 0 || !unorderable(s[leader(s, n)]),
    decreases n,
{
    if n > 1 {
        let before = leader(s, (n - 1) as nat);
        lemma_leader_is_orderable(s, (n - 1) as nat);
        if exceeds(s[n - 1], s[before]) {
            assert(ordered_with(s[n - 1], s[before]));
        }
    }
}

/// An unorderable element behind the first position is never returned,
/// wherever it stands.
pub proof fn lemma_unorderable_is_never_chosen<T: PartialOrd>(s: Seq<T>, k: int)
    requires
        0 < k < s.len(),
        unorderable(s[k]),
    ensures
        largest_index(s) != k,
{
    lemma_leader_is_orderable(s, s.len());
}

/// If the first element is orderable, so is the element that `largest`
/// returns, whatever unorderable elements the rest of the sequence holds.
pub proof fn lemma_largest_is_orderable<T: PartialOrd>(s: Seq<T>)
    requires
        s.len() > 0,
        !unorderable(s[0]),
    ensures
        !unorderable(s[largest_index(s)]),
{
    lemma_leader_is_orderable(s, s.len());
}

/// An unorderable first element is returned as it is: no later element
/// compares greater than it, so the scan never moves on.
pub proof fn lemma_unorderable_head_is_kept<T: PartialOrd>(s: Seq<T>)
    requires
        s.len() > 0,
        unorderable(s[0]),
    ensures
        largest_index(s) == 0,
{
    assert forall|j: int| 0 < j < s.len() implies !exceeds(s[j], s[0]) by {
        assert(!ordered_with(s[j], s[0]));
    }
    lemma_leader_stays(s, 0, s.len());
}

/// Returns the largest element of `list`, the first one among equals.
///
/// The result is always an element of `list`. Where the comparison of `T`
/// is specified, it is the element at `largest_index`.
pub fn largest<T: PartialOrd>(list: &[T]) -> (top: &T)
    requires
        list@.len() > 0,
    ensures
        list@.contains(*top),
        comparison_is_specified::<T>() ==> *top == list@[largest_index(list@)],
{
    let mut best: usize = 0;
    let mut i: usize = 1;
    while i < list.len()
        invariant
            1 <= i <= list@.len(),
            0 <= best < i,
            comparison_is_specified::<T>() ==> best == leader(list@, i as nat),
        decreases list@.len() - i,
    {
        if list[i] > list[best] {
            best = i;
        }
        i += 1;
    }
    &list[best]
}

} // verus!
