//! Equality and order of uncertain values.
//!
//! Two uncertain values are equal when their estimates are equal doubles and
//! their uncertainties are equal doubles. They are ordered by their estimates,
//! and by their uncertainties where the estimates are equal. A NaN in a field
//! that is looked at leaves the two values unequal and unordered.
use crate::binary64;
use crate::binary64::{below, nan, same};
use crate::uncertain_float::UncertainFloat;
use core::cmp::Ordering;
use vstd::prelude::*;

verus! {

/// How the double `a` stands to the double `b`; nothing where either is a NaN.
pub open spec fn order(a: u64, b: u64) -> Option<Ordering> {
    if nan(a) || nan(b) {
        None
    } else if below(a, b) {
        Some(Ordering::Less)
    } else if below(b, a) {
        Some(Ordering::Greater)
    } else {
        Some(Ordering::Equal)
    }
}

/// `a` equals `b`: the estimates are equal doubles, and so are the
/// uncertainties.
pub open spec fn equal(a: UncertainFloat, b: UncertainFloat) -> bool {
    same(a.value, b.value) && same(a.uncertainty, b.uncertainty)
}

/// How `a` stands to `b`: by the estimates, and by the uncertainties where
/// the estimates are equal.
pub open spec fn standing(a: UncertainFloat, b: UncertainFloat) -> Option<Ordering> {
    if order(a.value, b.value) == Some(Ordering::Equal) {
        order(a.uncertainty, b.uncertainty)
    } else {
        order(a.value, b.value)
    }
}

/// Compares two doubles.
pub fn partial_compare(a: u64, b: u64) -> (r: Option<Ordering>)
    ensures
        r == order(a, b),
{
    if binary64::is_nan(a) || binary64::is_nan(b) {
        None
    } else if binary64::lt(a, b) {
        Some(Ordering::Less)
    } else if binary64::lt(b, a) {
        Some(Ordering::Greater)
    } else {
        Some(Ordering::Equal)
    }
}

impl PartialEq for UncertainFloat {
    fn eq(&self, other: &Self) -> (r: bool) {
        binary64::eq(self.value, other.value) && binary64::eq(self.uncertainty, other.uncertainty)
    }
}

impl vstd::std_specs::cmp::PartialEqSpecImpl for UncertainFloat {
    open spec fn obeys_eq_spec() -> bool {
        true
    }

    open spec fn eq_spec(&self, other: &Self) -> bool {
        equal(*self, *other)
    }
}

impl PartialOrd for UncertainFloat {
    fn partial_cmp(&self, other: &Self) -> (r: Option<Ordering>) {
        match partial_compare(self.value, other.value) {
            Some(Ordering::Equal) => partial_compare(self.uncertainty, other.uncertainty),
            decided => decided,
        }
    }
}

impl vstd::std_specs::cmp::PartialOrdSpecImpl for UncertainFloat {
    open spec fn obeys_partial_cmp_spec() -> bool {
        true
    }

    open spec fn partial_cmp_spec(&self, other: &Self) -> Option<Ordering> {
        standing(*self, *other)
    }
}

/// Two uncertain values are equal exactly when they are ordered as equal.
pub proof fn lemma_equal_is_ordered_equal(a: UncertainFloat, b: UncertainFloat)
    ensures
        equal(a, b) <==> standing(a, b) == Some(Ordering::Equal),
{
}

/// `a` is less than `b` exactly when `b` is greater than `a`, and the two are
/// ordered either way round or neither.
pub proof fn lemma_order_turns_round(a: UncertainFloat, b: UncertainFloat)
    ensures
        standing(a, b) == Some(Ordering::Less) <==> standing(b, a) == Some(Ordering::Greater),
        standing(a, b) == Some(Ordering::Equal) <==> standing(b, a) == Some(Ordering::Equal),
        standing(a, b).is_none() <==> standing(b, a).is_none(),
{
}

/// The order of uncertain values is transitive, and equal values stand alike
/// to a third.
pub proof fn lemma_order_is_transitive(a: UncertainFloat, b: UncertainFloat, c: UncertainFloat)
    ensures
        standing(a, b) == Some(Ordering::Less) && standing(b, c) == Some(Ordering::Less)
            ==> standing(a, c) == Some(Ordering::Less),
        standing(a, b) == Some(Ordering::Equal) && standing(b, c).is_some() ==> standing(a, c)
            == standing(b, c),
{
}

} // verus!
