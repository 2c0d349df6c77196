//! Membership search in an ascending list by repeated bisection.

use vstd::prelude::*;
use vstd::std_specs::cmp::{PartialEqSpec, PartialOrdIs, PartialOrdSpec};

verus! {

/// `a == b` as the element type defines it.
pub open spec fn same<T: PartialEq>(a: T, b: T) -> bool {
    a.eq_spec(&b)
}

/// `a <= b` as the element type defines it.
pub open spec fn not_after<T: PartialOrd>(a: T, b: T) -> bool {
    a.is_le(&b)
}

/// Some element of `s` equals `value`.
pub open spec fn occurs<T: PartialEq>(s: Seq<T>, value: T) -> bool {
    exists|i: int| 0 <= i < s.len() && same(#[trigger] s[i], value)
}

/// No element of `s` is followed, anywhere later, by a smaller one.
pub open spec fn ascending<T: PartialOrd>(s: Seq<T>) -> bool {
    forall|i: int, j: int| 0 <= i <= j < s.len() ==> not_after(#[trigger] s[i], #[trigger] s[j])
}

/// The element type's `==` and `<=` compute what their specifications say.
pub open spec fn compares_as_specified<T: PartialEq + PartialOrd>() -> bool {
    T::obeys_eq_spec() && T::obeys_partial_cmp_spec()
}

/// What bisection needs of an element type to find every element of an
/// ascending list: `==` and `<=` compute what their specifications say,
/// equal elements compare alike against any third, and two elements that
/// precede each other are equal.
pub open spec fn orders_consistently<T: PartialEq + PartialOrd>() -> bool {
    &&& compares_as_specified::<T>()
    &&& forall|x: T, y: T, z: T|
        #![trigger same(x, y), not_after(z, x)]
        same(x, y) && not_after(z, x) ==> not_after(z, y)
    &&& forall|x: T, y: T, z: T|
        #![trigger same(x, y), not_after(x, z)]
        same(x, y) && not_after(x, z) ==> not_after(y, z)
    &&& forall|x: T, y: T|
        #![trigger not_after(x, y), not_after(y, x)]
        not_after(x, y) && not_after(y, x) ==> same(x, y)
}

/// Whether bisecting the elements of `s` from `low` up to, not including,
/// `high` comes upon one equal to `value`.
///
/// An empty range holds nothing. Otherwise the element in the middle is
/// compared with `value`: if they are equal the search is over; if `value`
/// is not after it, the search goes on below the middle, else above it.
pub open spec fn bisect<T: PartialEq + PartialOrd>(s: Seq<T>, value: T, low: int, high: int) -> bool
    recommends
        0 <= low <= high <= s.len(),
    decreases high - low,
{
    if low >= high {
        false
    } else {
        let middle = low + (high - low) / 2;
        if same(s[middle], value) {
            true
        } else if not_after(value, s[middle]) {
            bisect(s, value, low, middle)
        } else {
            bisect(s, value, middle + 1, high)
        }
    }
}

/// Whether bisecting all of `s` comes upon an element equal to `value`.
pub open spec fn finds<T: PartialEq + PartialOrd>(s: Seq<T>, value: T) -> bool {
    bisect(s, value, 0, s.len() as int)
}

/// Bisection comes only upon elements that are there.
pub proof fn lemma_bisect_sound<T: PartialEq + PartialOrd>(
    s: Seq<T>,
    value: T,
    low: int,
    high: int,
)
    requires
        0 <= low <= high <= s.len(),
    ensures
        bisect(s, value, low, high) ==> exists|i: int|
            low <= i < high && same(#[trigger] s[i], value),
    decreases high - low,
{
    if low < high {
        let middle = low + (high - low) / 2;
        if same(s[middle], value) {
        } else if not_after(value, s[middle]) {
            lemma_bisect_sound(s, value, low, middle);
        } else {
            lemma_bisect_sound(s, value, middle + 1, high);
        }
    }
}

/// In an ascending list bisection comes upon every element that is there.
pub proof fn lemma_bisect_complete<T: PartialEq + PartialOrd>(
    s: Seq<T>,
    value: T,
    low: int,
    high: int,
)
    requires
        0 <= low <= high <= s.len(),
        orders_consistently::<T>(),
        ascending(s),
    ensures
        (exists|i: int| low <= i < high && same(#[trigger] s[i], value)) ==> bisect(
            s,
            value,
            low,
            high,
        ),
    decreases high - low,
{
    if exists|i: int| low <= i < high && same(#[trigger] s[i], value) {
        let i = choose|i: int| low <= i < high && same(#[trigger] s[i], value);
        let middle = low + (high - low) / 2;
        if same(s[middle], value) {
        } else if not_after(value, s[middle]) {
            if i > middle {
                assert(not_after(s[middle], s[i]));
                assert(not_after(s[middle], value));
                assert(same(s[middle], value));
            }
            lemma_bisect_complete(s, value, low, middle);
        } else {
            if i < middle {
                assert(not_after(s[i], s[middle]));
                assert(not_after(value, s[middle]));
            }
            lemma_bisect_complete(s, value, middle + 1, high);
        }
    }
}

/// Bisecting a whole list never finds an element that is not in it, and
/// finds every element of an ascending list.
pub proof fn lemma_finds_is_membership<T: PartialEq + PartialOrd>(s: Seq<T>, value: T)
    ensures
        finds(s, value) ==> occurs(s, value),
        orders_consistently::<T>() && ascending(s) ==> finds(s, value) == occurs(s, value),
{
    lemma_bisect_sound(s, value, 0, s.len() as int);
    if orders_consistently::<T>() && ascending(s) {
        lemma_bisect_complete(s, value, 0, s.len() as int);
    }
}

/// Searches `array` for an element equal to `value` by bisecting the
/// half-open range that may still hold it.
///
/// The search never reports an element that is not there. On an ascending
/// list it finds every element that is there; on a list that is not
/// ascending it may miss one.
pub fn binary_search<T: PartialEq + PartialOrd>(array: &[T], value: &T) -> (found: bool)
    ensures
        compares_as_specified::<T>() ==> found == finds(array@, *value),
        compares_as_specified::<T>() && found ==> occurs(array@, *value),
        orders_consistently::<T>() && ascending(array@) ==> found == occurs(array@, *value),
{
    let mut low: usize = 0;
    let mut high: usize = array.len();
    while low < high
        invariant
            low <= high <= array.len(),
            compares_as_specified::<T>() ==> bisect(array@, *value, low as int, high as int)
                == finds(array@, *value),
        decreases high - low,
    {
        let middle: usize = low + (high - low) / 2;
        if array[middle] == *value {
            proof {
                lemma_finds_is_membership(array@, *value);
            }
            return true;
        } else if *value <= array[middle] {
            high = middle;
        } else {
            low = middle + 1;
        }
    }
    proof {
        lemma_finds_is_membership(array@, *value);
    }
    false
}

} // verus!
