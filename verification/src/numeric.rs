//! The special values of uncertain numbers, what their estimates are, and
//! what they convert to.
//!
//! A special value is exact: it carries no uncertainty. The one exception is
//! the NaN, whose uncertainty is a NaN too. Every predicate and every
//! conversion looks at the estimate alone.
use crate::binary64;
use crate::binary64::{category, finite, infinite, nan, negative, normal, Category};
use crate::exact;
use crate::exact::{clamp, exponent, integer_part, significand};
use crate::uncertain_float::UncertainFloat;
use vstd::prelude::*;

verus! {

impl UncertainFloat {
    /// The double `value` as an exact number: it carries no uncertainty.
    pub fn exact(value: u64) -> (r: Self)
        ensures
            r.value == value,
            r.uncertainty == binary64::ZERO,
    {
        Self::new(value, binary64::ZERO)
    }

    /// Zero, exactly.
    pub fn zero() -> (r: Self)
        ensures
            r.value == binary64::ZERO,
            r.uncertainty == binary64::ZERO,
    {
        Self::exact(binary64::ZERO)
    }

    /// One, exactly.
    pub fn one() -> (r: Self)
        ensures
            r.value == binary64::ONE,
            r.uncertainty == binary64::ZERO,
    {
        Self::exact(binary64::ONE)
    }

    /// Not a number, with an uncertainty that is not a number either.
    pub fn nan() -> (r: Self)
        ensures
            r.value == binary64::NAN,
            r.uncertainty == binary64::NAN,
    {
        Self::new(binary64::NAN, binary64::NAN)
    }

    /// Positive infinity, exactly.
    pub fn infinity() -> (r: Self)
        ensures
            r.value == binary64::INFINITY,
            r.uncertainty == binary64::ZERO,
    {
        Self::exact(binary64::INFINITY)
    }

    /// Negative infinity, exactly.
    pub fn neg_infinity() -> (r: Self)
        ensures
            r.value == binary64::NEG_INFINITY,
            r.uncertainty == binary64::ZERO,
    {
        Self::exact(binary64::NEG_INFINITY)
    }

    /// Negative zero, exactly.
    pub fn neg_zero() -> (r: Self)
        ensures
            r.value == binary64::NEG_ZERO,
            r.uncertainty == binary64::ZERO,
    {
        Self::exact(binary64::NEG_ZERO)
    }

    /// The smallest finite double, exactly.
    pub fn min_value() -> (r: Self)
        ensures
            r.value == binary64::MIN,
            r.uncertainty == binary64::ZERO,
    {
        Self::exact(binary64::MIN)
    }

    /// The smallest positive normal double, exactly.
    pub fn min_positive_value() -> (r: Self)
        ensures
            r.value == binary64::MIN_POSITIVE,
            r.uncertainty == binary64::ZERO,
    {
        Self::exact(binary64::MIN_POSITIVE)
    }

    /// The largest finite double, exactly.
    pub fn max_value() -> (r: Self)
        ensures
            r.value == binary64::MAX,
            r.uncertainty == binary64::ZERO,
    {
        Self::exact(binary64::MAX)
    }

    /// The estimate is positive or negative zero.
    pub fn is_zero(&self) -> (r: bool)
        ensures
            r == binary64::zero(self.value),
    {
        binary64::is_zero(self.value)
    }

    /// The estimate is a NaN.
    pub fn is_nan(self) -> (r: bool)
        ensures
            r == nan(self.value),
    {
        binary64::is_nan(self.value)
    }

    /// The estimate is positive or negative infinity.
    pub fn is_infinite(self) -> (r: bool)
        ensures
            r == infinite(self.value),
    {
        binary64::is_infinite(self.value)
    }

    /// The estimate is neither infinite nor a NaN.
    pub fn is_finite(self) -> (r: bool)
        ensures
            r == finite(self.value),
    {
        binary64::is_finite(self.value)
    }

    /// The estimate is a normal number: finite, not zero, not subnormal.
    pub fn is_normal(self) -> (r: bool)
        ensures
            r == normal(self.value),
    {
        binary64::is_normal(self.value)
    }

    /// The class of the estimate.
    pub fn classify(self) -> (r: Category)
        ensures
            r == category(self.value),
    {
        binary64::classify(self.value)
    }

    /// The sign bit of the estimate is clear.
    pub fn is_sign_positive(self) -> (r: bool)
        ensures
            r == !negative(self.value),
    {
        binary64::is_sign_positive(self.value)
    }

    /// The sign bit of the estimate is set.
    pub fn is_sign_negative(self) -> (r: bool)
        ensures
            r == negative(self.value),
    {
        binary64::is_sign_negative(self.value)
    }

    /// The estimate as a significand, a power of two and a sign of 1 or -1,
    /// whose product it is.
    pub fn integer_decode(self) -> (r: (u64, i16, i8))
        ensures
            r.0 == significand(self.value),
            r.1 == exponent(self.value),
            r.2 == if negative(self.value) {
                -1int
            } else {
                1int
            },
    {
        exact::integer_decode(self.value)
    }

    /// The estimate as a signed integer: truncated, and held to the range of
    /// the type. There is always a result.
    pub fn to_i64(&self) -> (r: Option<i64>)
        ensures
            r matches Some(n) && n == clamp(
                integer_part(self.value),
                i64::MIN as int,
                i64::MAX as int,
            ),
    {
        Some(exact::to_i64(self.value))
    }

    /// The estimate as an unsigned integer: truncated, and held to the range
    /// of the type. There is always a result.
    pub fn to_u64(&self) -> (r: Option<u64>)
        ensures
            r matches Some(n) && n == clamp(integer_part(self.value), 0, u64::MAX as int),
    {
        Some(exact::to_u64(self.value))
    }

    /// The estimate as a double, which it is. There is always a result.
    pub fn to_f64(&self) -> (r: Option<u64>)
        ensures
            r == Some(self.value),
    {
        Some(self.value)
    }
}

} // verus!
