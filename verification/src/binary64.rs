//! IEEE 754 double-precision numbers, held as their 64-bit patterns.
//!
//! A double is one sign bit, eleven bits of biased exponent and fifty-two bits
//! of fraction, from the top bit down. Everything here is integer arithmetic on
//! that pattern: classification, the sign operations, and the comparisons that
//! the standard defines. Arithmetic that rounds is not in this module.
use vstd::prelude::*;

verus! {

/// The sign bit; also the pattern of negative zero.
pub const SIGN_BIT: u64 = 0x8000_0000_0000_0000;

/// Positive infinity; every larger magnitude is a NaN.
pub const INFINITY: u64 = 0x7ff0_0000_0000_0000;

/// Negative infinity.
pub const NEG_INFINITY: u64 = 0xfff0_0000_0000_0000;

/// The quiet NaN with an empty payload.
pub const NAN: u64 = 0x7ff8_0000_0000_0000;

/// Positive zero.
pub const ZERO: u64 = 0;

/// Negative zero.
pub const NEG_ZERO: u64 = 0x8000_0000_0000_0000;

/// The smallest positive normal number, two to the power of -1022.
pub const MIN_POSITIVE: u64 = 0x0010_0000_0000_0000;

/// The largest finite number.
pub const MAX: u64 = 0x7fef_ffff_ffff_ffff;

/// The smallest finite number, the negative of `MAX`.
pub const MIN: u64 = 0xffef_ffff_ffff_ffff;

/// Two to the power of 52: one step of the biased exponent, and the hidden bit
/// of a normal number's significand.
pub const HIDDEN_BIT: u64 = 0x0010_0000_0000_0000;

/// The number 1.
pub const ONE: u64 = 0x3ff0_0000_0000_0000;

/// The number 2.
pub const TWO: u64 = 0x4000_0000_0000_0000;

/// The number 3.
pub const THREE: u64 = 0x4008_0000_0000_0000;

/// The number 8.
pub const EIGHT: u64 = 0x4020_0000_0000_0000;

/// The number 12.
pub const TWELVE: u64 = 0x4028_0000_0000_0000;

/// The double nearest to the natural logarithm of 2.
pub const LN_2: u64 = 0x3fe6_2e42_fefa_39ef;

/// The double nearest to the natural logarithm of 10.
pub const LN_10: u64 = 0x4002_6bb1_bbb5_5516;

/// The five classes of doubles.
#[derive(Clone, Copy, Debug, PartialEq, Eq, Structural)]
pub enum Category {
    Nan,
    Infinite,
    Zero,
    Subnormal,
    Normal,
}

/// The sign bit of `b` is set. This holds of negative zero and of half the NaNs.
pub open spec fn negative(b: u64) -> bool {
    b >= SIGN_BIT
}

/// The pattern `b` with its sign bit cleared.
pub open spec fn magnitude(b: u64) -> u64 {
    if b >= SIGN_BIT {
        (b - SIGN_BIT) as u64
    } else {
        b
    }
}

/// The pattern `b` with its sign bit flipped.
pub open spec fn opposite(b: u64) -> u64 {
    if b >= SIGN_BIT {
        (b - SIGN_BIT) as u64
    } else {
        (b + SIGN_BIT) as u64
    }
}

/// `b` is not a number: its exponent is all ones and its fraction is not zero.
pub open spec fn nan(b: u64) -> bool {
    magnitude(b) > INFINITY
}

/// `b` is positive or negative infinity.
pub open spec fn infinite(b: u64) -> bool {
    magnitude(b) == INFINITY
}

/// `b` is neither infinite nor a NaN.
pub open spec fn finite(b: u64) -> bool {
    magnitude(b) < INFINITY
}

/// `b` is positive or negative zero.
pub open spec fn zero(b: u64) -> bool {
    magnitude(b) == 0
}

/// `b` is finite, not zero, and has the full precision of the format.
pub open spec fn normal(b: u64) -> bool {
    MIN_POSITIVE <= magnitude(b) < INFINITY
}

/// The class that `b` belongs to.
pub open spec fn category(b: u64) -> Category {
    if nan(b) {
        Category::Nan
    } else if infinite(b) {
        Category::Infinite
    } else if zero(b) {
        Category::Zero
    } else if normal(b) {
        Category::Normal
    } else {
        Category::Subnormal
    }
}

/// The eleven exponent bits of `b`.
pub open spec fn biased_exponent(b: u64) -> nat {
    (magnitude(b) / HIDDEN_BIT) as nat
}

/// The fifty-two fraction bits of `b`.
pub open spec fn fraction(b: u64) -> nat {
    (magnitude(b) % HIDDEN_BIT) as nat
}

/// Where `b` stands among the doubles that are numbers: a double that is not a
/// NaN is smaller than another exactly when its rank is smaller. The two zeros
/// share the rank 0.
pub open spec fn rank(b: u64) -> int {
    if negative(b) {
        -(magnitude(b) as int)
    } else {
        magnitude(b) as int
    }
}

/// The comparison `a < b` of the two doubles. It fails when either is a NaN.
pub open spec fn below(a: u64, b: u64) -> bool {
    !nan(a) && !nan(b) && rank(a) < rank(b)
}

/// The comparison `a == b` of the two doubles. It fails when either is a NaN;
/// the two zeros are equal.
pub open spec fn same(a: u64, b: u64) -> bool {
    !nan(a) && !nan(b) && rank(a) == rank(b)
}

/// The magnitude of `b`: the sign bit is cleared, also where `b` is a NaN.
pub fn abs(b: u64) -> (r: u64)
    ensures
        r == magnitude(b),
{
    if b >= SIGN_BIT {
        b - SIGN_BIT
    } else {
        b
    }
}

/// The negation of `b`: the sign bit is flipped, also where `b` is a NaN.
pub fn neg(b: u64) -> (r: u64)
    ensures
        r == opposite(b),
{
    if b >= SIGN_BIT {
        b - SIGN_BIT
    } else {
        b + SIGN_BIT
    }
}

/// The sign bit of `b` is set.
pub fn is_sign_negative(b: u64) -> (r: bool)
    ensures
        r == negative(b),
{
    b >= SIGN_BIT
}

/// The sign bit of `b` is clear.
pub fn is_sign_positive(b: u64) -> (r: bool)
    ensures
        r == !negative(b),
{
    b < SIGN_BIT
}

/// `b` is a NaN.
pub fn is_nan(b: u64) -> (r: bool)
    ensures
        r == nan(b),
{
    abs(b) > INFINITY
}

/// `b` is positive or negative infinity.
pub fn is_infinite(b: u64) -> (r: bool)
    ensures
        r == infinite(b),
{
    abs(b) == INFINITY
}

/// `b` is neither infinite nor a NaN.
pub fn is_finite(b: u64) -> (r: bool)
    ensures
        r == finite(b),
{
    abs(b) < INFINITY
}

/// `b` is positive or negative zero.
pub fn is_zero(b: u64) -> (r: bool)
    ensures
        r == zero(b),
{
    abs(b) == 0
}

/// `b` is a normal number: finite, not zero, not subnormal.
pub fn is_normal(b: u64) -> (r: bool)
    ensures
        r == normal(b),
{
    let m = abs(b);
    MIN_POSITIVE <= m && m < INFINITY
}

/// The class of `b`.
pub fn classify(b: u64) -> (r: Category)
    ensures
        r == category(b),
{
    let m = abs(b);
    if m > INFINITY {
        Category::Nan
    } else if m == INFINITY {
        Category::Infinite
    } else if m == 0 {
        Category::Zero
    } else if m >= MIN_POSITIVE {
        Category::Normal
    } else {
        Category::Subnormal
    }
}

/// The comparison `a < b` of the two doubles.
pub fn lt(a: u64, b: u64) -> (r: bool)
    ensures
        r == below(a, b),
{
    let ma = abs(a);
    let mb = abs(b);
    if ma > INFINITY || mb > INFINITY {
        false
    } else if a >= SIGN_BIT {
        if b >= SIGN_BIT {
            mb < ma
        } else {
            ma != 0 || mb != 0
        }
    } else {
        b < SIGN_BIT && ma < mb
    }
}

/// The comparison `a > b` of the two doubles.
pub fn gt(a: u64, b: u64) -> (r: bool)
    ensures
        r == below(b, a),
{
    lt(b, a)
}

/// The comparison `a == b` of the two doubles.
pub fn eq(a: u64, b: u64) -> (r: bool)
    ensures
        r == same(a, b),
{
    let ma = abs(a);
    let mb = abs(b);
    if ma > INFINITY || mb > INFINITY {
        false
    } else {
        a == b || (ma == 0 && mb == 0)
    }
}

} // verus!
