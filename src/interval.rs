use vstd::prelude::*;
use vstd::std_specs::cmp::{PartialEqSpec, PartialOrdIs, PartialOrdSpec};
use std::cmp::Ordering;

verus! {

/// A closed range `[lower, upper]` over an ordered type. Nothing requires
/// `lower <= upper`.
#[derive(Debug)]
pub struct Interval<T> {
    pub lower: T,
    pub upper: T,
}

/// Two intervals are equal when both bounds are equal.
impl<T: PartialEq> PartialEq for Interval<T> {
    fn eq(&self, other: &Interval<T>) -> (r: bool) {
        self.lower == other.lower && self.upper == other.upper
    }
}

impl<T: PartialEq> vstd::std_specs::cmp::PartialEqSpecImpl for Interval<T> {
    open spec fn obeys_eq_spec() -> bool {
        T::obeys_eq_spec()
    }

    open spec fn eq_spec(&self, other: &Interval<T>) -> bool {
        self.lower.eq_spec(&other.lower) && self.upper.eq_spec(&other.upper)
    }
}

/// Intervals are ordered only when they are equal or do not overlap (touching
/// at one end counts as not overlapping); overlapping distinct intervals are
/// incomparable.
impl<T: PartialOrd> PartialOrd for Interval<T> {
    fn partial_cmp(&self, other: &Interval<T>) -> (r: Option<Ordering>) {
        if self == other {
            Some(Ordering::Equal)
        } else if self.lower >= other.upper {
            Some(Ordering::Greater)
        } else if self.upper <= other.lower {
            Some(Ordering::Less)
        } else {
            None
        }
    }
}

impl<T: PartialOrd> vstd::std_specs::cmp::PartialOrdSpecImpl for Interval<T> {
    open spec fn obeys_partial_cmp_spec() -> bool {
        T::obeys_eq_spec() && T::obeys_partial_cmp_spec()
    }

    open spec fn partial_cmp_spec(&self, other: &Interval<T>) -> Option<Ordering> {
        if self.eq_spec(other) {
            Some(Ordering::Equal)
        } else if self.lower.is_ge(&other.upper) {
            Some(Ordering::Greater)
        } else if self.upper.is_le(&other.lower) {
            Some(Ordering::Less)
        } else {
            None
        }
    }
}

/// Every interval compares equal to itself, wherever the bound type's
/// equality is reflexive.
pub proof fn lemma_compare_self<T: PartialOrd>(i: Interval<T>)
    requires
        forall|x: T| #[trigger] x.eq_spec(&x),
    ensures
        i.partial_cmp_spec(&i) == Some(Ordering::Equal),
{
    assert(i.lower.eq_spec(&i.lower));
    assert(i.upper.eq_spec(&i.upper));
}

} // verus!
