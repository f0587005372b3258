//! The elementary functions of an uncertain value.
//!
//! Each function evaluates the estimate directly and scales the uncertainty by
//! the magnitude of the function's derivative at the estimate, written in
//! closed form. A function of two uncertain values combines both
//! uncertainties as its doc comment says. The rounding functions and the sign
//! are flat almost everywhere: their result carries no uncertainty.
use crate::binary64;
use crate::binary64::magnitude;
use crate::exact::{from_i32, is_integer};
use crate::fpu::{ask, gives, is_quadrature, quadrature, total, Op};
use crate::uncertain_float::UncertainFloat;
use vstd::prelude::*;

verus! {

/// `r` may come out as `1 + x * x`.
pub open spec fn is_one_plus_square<E: Fn(Op) -> u64>(fpu: &E, x: u64, r: u64) -> bool {
    exists|p: u64| gives(fpu, Op::Powi(x, 2), p) && gives(fpu, Op::Add(binary64::ONE, p), r)
}

/// `r` may come out as `1 - x * x`.
pub open spec fn is_one_minus_square<E: Fn(Op) -> u64>(fpu: &E, x: u64, r: u64) -> bool {
    exists|p: u64| gives(fpu, Op::Powi(x, 2), p) && gives(fpu, Op::Sub(binary64::ONE, p), r)
}

/// `r` may come out as `x * x - 1`.
pub open spec fn is_square_minus_one<E: Fn(Op) -> u64>(fpu: &E, x: u64, r: u64) -> bool {
    exists|p: u64| gives(fpu, Op::Powi(x, 2), p) && gives(fpu, Op::Sub(p, binary64::ONE), r)
}

/// `r` may come out as the sine of `x`: the sine of the estimate, and the
/// uncertainty times the magnitude of the cosine of the estimate.
pub open spec fn is_sine<E: Fn(Op) -> u64>(
    fpu: &E,
    x: UncertainFloat,
    r: UncertainFloat,
) -> bool {
    gives(fpu, Op::Sin(x.value), r.value) && exists|d: u64|
        gives(fpu, Op::Cos(x.value), d) && gives(
            fpu,
            Op::Mul(x.uncertainty, magnitude(d)),
            r.uncertainty,
        )
}

/// `1 + x * x`
fn one_plus_square<E: Fn(Op) -> u64>(x: u64, fpu: &E) -> (r: u64)
    requires
        total(fpu),
    ensures
        is_one_plus_square(fpu, x, r),
{
    let p = ask(fpu, Op::Powi(x, 2));
    ask(fpu, Op::Add(binary64::ONE, p))
}

/// `1 - x * x`
fn one_minus_square<E: Fn(Op) -> u64>(x: u64, fpu: &E) -> (r: u64)
    requires
        total(fpu),
    ensures
        is_one_minus_square(fpu, x, r),
{
    let p = ask(fpu, Op::Powi(x, 2));
    ask(fpu, Op::Sub(binary64::ONE, p))
}

/// `x * x - 1`
fn square_minus_one<E: Fn(Op) -> u64>(x: u64, fpu: &E) -> (r: u64)
    requires
        total(fpu),
    ensures
        is_square_minus_one(fpu, x, r),
{
    let p = ask(fpu, Op::Powi(x, 2));
    ask(fpu, Op::Sub(p, binary64::ONE))
}

impl UncertainFloat {
    /// The largest integer not above the estimate, without uncertainty.
    pub fn floor<E: Fn(Op) -> u64>(self, fpu: &E) -> (r: Self)
        requires
            total(fpu),
        ensures
            gives(fpu, Op::Floor(self.value), r.value),
            r.uncertainty == binary64::ZERO,
    {
        Self::new(ask(fpu, Op::Floor(self.value)), binary64::ZERO)
    }

    /// The smallest integer not below the estimate, without uncertainty.
    pub fn ceil<E: Fn(Op) -> u64>(self, fpu: &E) -> (r: Self)
        requires
            total(fpu),
        ensures
            gives(fpu, Op::Ceil(self.value), r.value),
            r.uncertainty == binary64::ZERO,
    {
        Self::new(ask(fpu, Op::Ceil(self.value)), binary64::ZERO)
    }

    /// The integer nearest to the estimate, without uncertainty.
    pub fn round<E: Fn(Op) -> u64>(self, fpu: &E) -> (r: Self)
        requires
            total(fpu),
        ensures
            gives(fpu, Op::Round(self.value), r.value),
            r.uncertainty == binary64::ZERO,
    {
        Self::new(ask(fpu, Op::Round(self.value)), binary64::ZERO)
    }

    /// The integer part of the estimate, without uncertainty.
    pub fn trunc<E: Fn(Op) -> u64>(self, fpu: &E) -> (r: Self)
        requires
            total(fpu),
        ensures
            gives(fpu, Op::Trunc(self.value), r.value),
            r.uncertainty == binary64::ZERO,
    {
        Self::new(ask(fpu, Op::Trunc(self.value)), binary64::ZERO)
    }

    /// The estimate minus its integer part, without uncertainty.
    pub fn fract<E: Fn(Op) -> u64>(self, fpu: &E) -> (r: Self)
        requires
            total(fpu),
        ensures
            gives(fpu, Op::Fract(self.value), r.value),
            r.uncertainty == binary64::ZERO,
    {
        Self::new(ask(fpu, Op::Fract(self.value)), binary64::ZERO)
    }

    /// The sign of the estimate as 1 or -1, without uncertainty.
    pub fn signum<E: Fn(Op) -> u64>(self, fpu: &E) -> (r: Self)
        requires
            total(fpu),
        ensures
            gives(fpu, Op::Signum(self.value), r.value),
            r.uncertainty == binary64::ZERO,
    {
        Self::new(ask(fpu, Op::Signum(self.value)), binary64::ZERO)
    }

    /// The magnitude of the estimate, with the uncertainty as it was.
    pub fn abs(self) -> (r: Self)
        ensures
            r.value == magnitude(self.value),
            r.uncertainty == self.uncertainty,
    {
        Self::new(binary64::abs(self.value), self.uncertainty)
    }

    /// The estimate of `self` times that of `a`, plus that of `b`, rounded
    /// once. The result carries no uncertainty.
    pub fn mul_add<E: Fn(Op) -> u64>(self, a: Self, b: Self, fpu: &E) -> (r: Self)
        requires
            total(fpu),
        ensures
            gives(fpu, Op::MulAdd(self.value, a.value, b.value), r.value),
            r.uncertainty == binary64::ZERO,
    {
        Self::new(ask(fpu, Op::MulAdd(self.value, a.value, b.value)), binary64::ZERO)
    }

    /// `1 / x`; the uncertainty is divided by the square of the estimate.
    pub fn recip<E: Fn(Op) -> u64>(self, fpu: &E) -> (r: Self)
        requires
            total(fpu),
        ensures
            gives(fpu, Op::Recip(self.value), r.value),
            exists|p: u64|
                gives(fpu, Op::Powi(self.value, 2), p) && gives(
                    fpu,
                    Op::Div(self.uncertainty, p),
                    r.uncertainty,
                ),
    {
        let value = ask(fpu, Op::Recip(self.value));
        let p = ask(fpu, Op::Powi(self.value, 2));
        Self::new(value, ask(fpu, Op::Div(self.uncertainty, p)))
    }

    /// `x` to the power `n`; the uncertainty is multiplied by the magnitude of
    /// `n` times `x` to the power `n - 1`.
    pub fn powi<E: Fn(Op) -> u64>(self, n: i32, fpu: &E) -> (r: Self)
        requires
            total(fpu),
            n > i32::MIN,
        ensures
            gives(fpu, Op::Powi(self.value, n), r.value),
            exists|k: u64, p: u64, d: u64|
                #![trigger gives(fpu, Op::Mul(k, p), d)]
                is_integer(k, n as int) && gives(
                    fpu,
                    Op::Powi(self.value, (n - 1) as i32),
                    p,
                ) && gives(fpu, Op::Mul(k, p), d) && gives(
                    fpu,
                    Op::Mul(self.uncertainty, magnitude(d)),
                    r.uncertainty,
                ),
    {
        let value = ask(fpu, Op::Powi(self.value, n));
        let k = from_i32(n);
        let p = ask(fpu, Op::Powi(self.value, n - 1));
        let d = ask(fpu, Op::Mul(k, p));
        Self::new(value, ask(fpu, Op::Mul(self.uncertainty, binary64::abs(d))))
    }

    /// `x` to the power of the estimate of `n`, whose uncertainty is left
    /// out; the uncertainty is multiplied by the magnitude of `n` times `x`
    /// to the power `n - 1`.
    pub fn powf<E: Fn(Op) -> u64>(self, n: Self, fpu: &E) -> (r: Self)
        requires
            total(fpu),
        ensures
            gives(fpu, Op::Powf(self.value, n.value), r.value),
            exists|m: u64, p: u64, d: u64|
                gives(fpu, Op::Sub(n.value, binary64::ONE), m) && gives(
                    fpu,
                    Op::Powf(self.value, m),
                    p,
                ) && gives(fpu, Op::Mul(n.value, p), d) && gives(
                    fpu,
                    Op::Mul(self.uncertainty, magnitude(d)),
                    r.uncertainty,
                ),
    {
        let value = ask(fpu, Op::Powf(self.value, n.value));
        let m = ask(fpu, Op::Sub(n.value, binary64::ONE));
        let p = ask(fpu, Op::Powf(self.value, m));
        let d = ask(fpu, Op::Mul(n.value, p));
        Self::new(value, ask(fpu, Op::Mul(self.uncertainty, binary64::abs(d))))
    }

    /// The square root; the uncertainty is divided by twice the root.
    pub fn sqrt<E: Fn(Op) -> u64>(self, fpu: &E) -> (r: Self)
        requires
            total(fpu),
        ensures
            gives(fpu, Op::Sqrt(self.value), r.value),
            exists|d: u64|
                gives(fpu, Op::Mul(binary64::TWO, r.value), d) && gives(
                    fpu,
                    Op::Div(self.uncertainty, d),
                    r.uncertainty,
                ),
    {
        let value = ask(fpu, Op::Sqrt(self.value));
        let d = ask(fpu, Op::Mul(binary64::TWO, value));
        Self::new(value, ask(fpu, Op::Div(self.uncertainty, d)))
    }

    /// The cube root; the uncertainty is divided by three times the square of
    /// the root.
    pub fn cbrt<E: Fn(Op) -> u64>(self, fpu: &E) -> (r: Self)
        requires
            total(fpu),
        ensures
            gives(fpu, Op::Cbrt(self.value), r.value),
            exists|p: u64, d: u64|
                gives(fpu, Op::Powi(r.value, 2), p) && gives(fpu, Op::Mul(binary64::THREE, p), d)
                    && gives(fpu, Op::Div(self.uncertainty, d), r.uncertainty),
    {
        let value = ask(fpu, Op::Cbrt(self.value));
        let p = ask(fpu, Op::Powi(value, 2));
        let d = ask(fpu, Op::Mul(binary64::THREE, p));
        Self::new(value, ask(fpu, Op::Div(self.uncertainty, d)))
    }

    /// `e` to the power `x`; the uncertainty is multiplied by the result.
    pub fn exp<E: Fn(Op) -> u64>(self, fpu: &E) -> (r: Self)
        requires
            total(fpu),
        ensures
            gives(fpu, Op::Exp(self.value), r.value),
            gives(fpu, Op::Mul(self.uncertainty, r.value), r.uncertainty),
    {
        let value = ask(fpu, Op::Exp(self.value));
        Self::new(value, ask(fpu, Op::Mul(self.uncertainty, value)))
    }

    /// 2 to the power `x`; the uncertainty is multiplied by the result and by
    /// the natural logarithm of 2.
    pub fn exp2<E: Fn(Op) -> u64>(self, fpu: &E) -> (r: Self)
        requires
            total(fpu),
        ensures
            gives(fpu, Op::Exp2(self.value), r.value),
            exists|p: u64|
                gives(fpu, Op::Mul(self.uncertainty, r.value), p) && gives(
                    fpu,
                    Op::Mul(p, binary64::LN_2),
                    r.uncertainty,
                ),
    {
        let value = ask(fpu, Op::Exp2(self.value));
        let p = ask(fpu, Op::Mul(self.uncertainty, value));
        Self::new(value, ask(fpu, Op::Mul(p, binary64::LN_2)))
    }

    /// `e` to the power `x`, minus 1; the uncertainty is multiplied by `e` to
    /// the power `x`.
    pub fn exp_m1<E: Fn(Op) -> u64>(self, fpu: &E) -> (r: Self)
        requires
            total(fpu),
        ensures
            gives(fpu, Op::ExpM1(self.value), r.value),
            exists|d: u64|
                gives(fpu, Op::Exp(self.value), d) && gives(
                    fpu,
                    Op::Mul(self.uncertainty, d),
                    r.uncertainty,
                ),
    {
        let value = ask(fpu, Op::ExpM1(self.value));
        let d = ask(fpu, Op::Exp(self.value));
        Self::new(value, ask(fpu, Op::Mul(self.uncertainty, d)))
    }

    /// The natural logarithm; the uncertainty is divided by the magnitude of
    /// the estimate.
    pub fn ln<E: Fn(Op) -> u64>(self, fpu: &E) -> (r: Self)
        requires
            total(fpu),
        ensures
            gives(fpu, Op::Ln(self.value), r.value),
            gives(fpu, Op::Div(self.uncertainty, magnitude(self.value)), r.uncertainty),
    {
        let value = ask(fpu, Op::Ln(self.value));
        Self::new(value, ask(fpu, Op::Div(self.uncertainty, binary64::abs(self.value))))
    }

    /// The natural logarithm of `1 + x`; the uncertainty is divided by the
    /// magnitude of `1 + x`.
    pub fn ln_1p<E: Fn(Op) -> u64>(self, fpu: &E) -> (r: Self)
        requires
            total(fpu),
        ensures
            gives(fpu, Op::Ln1p(self.value), r.value),
            exists|d: u64|
                gives(fpu, Op::Add(binary64::ONE, self.value), d) && gives(
                    fpu,
                    Op::Div(self.uncertainty, magnitude(d)),
                    r.uncertainty,
                ),
    {
        let value = ask(fpu, Op::Ln1p(self.value));
        let d = ask(fpu, Op::Add(binary64::ONE, self.value));
        Self::new(value, ask(fpu, Op::Div(self.uncertainty, binary64::abs(d))))
    }

    /// The logarithm to the base that is the estimate of `base`, whose
    /// uncertainty is left out; the uncertainty is divided by the magnitude of
    /// the estimate times the natural logarithm of the base.
    pub fn log<E: Fn(Op) -> u64>(self, base: Self, fpu: &E) -> (r: Self)
        requires
            total(fpu),
        ensures
            gives(fpu, Op::Log(self.value, base.value), r.value),
            exists|l: u64, d: u64|
                gives(fpu, Op::Ln(base.value), l) && gives(fpu, Op::Mul(self.value, l), d)
                    && gives(fpu, Op::Div(self.uncertainty, magnitude(d)), r.uncertainty),
    {
        let value = ask(fpu, Op::Log(self.value, base.value));
        let l = ask(fpu, Op::Ln(base.value));
        let d = ask(fpu, Op::Mul(self.value, l));
        Self::new(value, ask(fpu, Op::Div(self.uncertainty, binary64::abs(d))))
    }

    /// The logarithm to the base 2; the uncertainty is divided by the
    /// magnitude of the estimate times the natural logarithm of 2.
    pub fn log2<E: Fn(Op) -> u64>(self, fpu: &E) -> (r: Self)
        requires
            total(fpu),
        ensures
            gives(fpu, Op::Log2(self.value), r.value),
            exists|d: u64|
                gives(fpu, Op::Mul(self.value, binary64::LN_2), d) && gives(
                    fpu,
                    Op::Div(self.uncertainty, magnitude(d)),
                    r.uncertainty,
                ),
    {
        let value = ask(fpu, Op::Log2(self.value));
        let d = ask(fpu, Op::Mul(self.value, binary64::LN_2));
        Self::new(value, ask(fpu, Op::Div(self.uncertainty, binary64::abs(d))))
    }

    /// The logarithm to the base 10; the uncertainty is divided by the
    /// magnitude of the estimate times the natural logarithm of 10.
    pub fn log10<E: Fn(Op) -> u64>(self, fpu: &E) -> (r: Self)
        requires
            total(fpu),
        ensures
            gives(fpu, Op::Log10(self.value), r.value),
            exists|d: u64|
                gives(fpu, Op::Mul(self.value, binary64::LN_10), d) && gives(
                    fpu,
                    Op::Div(self.uncertainty, magnitude(d)),
                    r.uncertainty,
                ),
    {
        let value = ask(fpu, Op::Log10(self.value));
        let d = ask(fpu, Op::Mul(self.value, binary64::LN_10));
        Self::new(value, ask(fpu, Op::Div(self.uncertainty, binary64::abs(d))))
    }

    /// The length of the hypotenuse over the two estimates; the two
    /// uncertainties are combined in quadrature.
    pub fn hypot<E: Fn(Op) -> u64>(self, other: Self, fpu: &E) -> (r: Self)
        requires
            total(fpu),
        ensures
            gives(fpu, Op::Hypot(self.value, other.value), r.value),
            is_quadrature(fpu, self.uncertainty, other.uncertainty, r.uncertainty),
    {
        let value = ask(fpu, Op::Hypot(self.value, other.value));
        Self::new(value, quadrature(self.uncertainty, other.uncertainty, fpu))
    }

    /// The sine; the uncertainty is multiplied by the magnitude of the
    /// cosine.
    pub fn sin<E: Fn(Op) -> u64>(self, fpu: &E) -> (r: Self)
        requires
            total(fpu),
        ensures
            is_sine(fpu, self, r),
    {
        let value = ask(fpu, Op::Sin(self.value));
        let d = ask(fpu, Op::Cos(self.value));
        Self::new(value, ask(fpu, Op::Mul(self.uncertainty, binary64::abs(d))))
    }

    /// The cosine; the uncertainty is multiplied by the magnitude of the
    /// sine.
    pub fn cos<E: Fn(Op) -> u64>(self, fpu: &E) -> (r: Self)
        requires
            total(fpu),
        ensures
            gives(fpu, Op::Cos(self.value), r.value),
            exists|d: u64|
                gives(fpu, Op::Sin(self.value), d) && gives(
                    fpu,
                    Op::Mul(self.uncertainty, magnitude(d)),
                    r.uncertainty,
                ),
    {
        let value = ask(fpu, Op::Cos(self.value));
        let d = ask(fpu, Op::Sin(self.value));
        Self::new(value, ask(fpu, Op::Mul(self.uncertainty, binary64::abs(d))))
    }

    /// The sine and the cosine of one value, each with the uncertainty
    /// multiplied by the magnitude of the other's estimate.
    pub fn sin_cos<E: Fn(Op) -> u64>(self, fpu: &E) -> (r: (Self, Self))
        requires
            total(fpu),
        ensures
            gives(fpu, Op::Sin(self.value), r.0.value),
            gives(fpu, Op::Cos(self.value), r.1.value),
            gives(fpu, Op::Mul(self.uncertainty, magnitude(r.1.value)), r.0.uncertainty),
            gives(fpu, Op::Mul(self.uncertainty, magnitude(r.0.value)), r.1.uncertainty),
    {
        let sin = ask(fpu, Op::Sin(self.value));
        let cos = ask(fpu, Op::Cos(self.value));
        let sin_uncertainty = ask(fpu, Op::Mul(self.uncertainty, binary64::abs(cos)));
        let cos_uncertainty = ask(fpu, Op::Mul(self.uncertainty, binary64::abs(sin)));
        (Self::new(sin, sin_uncertainty), Self::new(cos, cos_uncertainty))
    }

    /// The tangent; the uncertainty is multiplied by 1 plus the square of the
    /// tangent.
    pub fn tan<E: Fn(Op) -> u64>(self, fpu: &E) -> (r: Self)
        requires
            total(fpu),
        ensures
            gives(fpu, Op::Tan(self.value), r.value),
            exists|d: u64|
                is_one_plus_square(fpu, r.value, d) && gives(
                    fpu,
                    Op::Mul(self.uncertainty, d),
                    r.uncertainty,
                ),
    {
        let value = ask(fpu, Op::Tan(self.value));
        let d = one_plus_square(value, fpu);
        Self::new(value, ask(fpu, Op::Mul(self.uncertainty, d)))
    }

    /// The arc sine; the uncertainty is divided by the square root of
    /// `1 - x * x`.
    pub fn asin<E: Fn(Op) -> u64>(self, fpu: &E) -> (r: Self)
        requires
            total(fpu),
        ensures
            gives(fpu, Op::Asin(self.value), r.value),
            exists|s: u64, d: u64|
                is_one_minus_square(fpu, self.value, s) && gives(fpu, Op::Sqrt(s), d) && gives(
                    fpu,
                    Op::Div(self.uncertainty, d),
                    r.uncertainty,
                ),
    {
        let value = ask(fpu, Op::Asin(self.value));
        let s = one_minus_square(self.value, fpu);
        let d = ask(fpu, Op::Sqrt(s));
        Self::new(value, ask(fpu, Op::Div(self.uncertainty, d)))
    }

    /// The arc cosine; the uncertainty is divided by the square root of
    /// `1 - x * x`.
    pub fn acos<E: Fn(Op) -> u64>(self, fpu: &E) -> (r: Self)
        requires
            total(fpu),
        ensures
            gives(fpu, Op::Acos(self.value), r.value),
            exists|s: u64, d: u64|
                is_one_minus_square(fpu, self.value, s) && gives(fpu, Op::Sqrt(s), d) && gives(
                    fpu,
                    Op::Div(self.uncertainty, d),
                    r.uncertainty,
                ),
    {
        let value = ask(fpu, Op::Acos(self.value));
        let s = one_minus_square(self.value, fpu);
        let d = ask(fpu, Op::Sqrt(s));
        Self::new(value, ask(fpu, Op::Div(self.uncertainty, d)))
    }

    /// The arc tangent; the uncertainty is divided by `1 + x * x`.
    pub fn atan<E: Fn(Op) -> u64>(self, fpu: &E) -> (r: Self)
        requires
            total(fpu),
        ensures
            gives(fpu, Op::Atan(self.value), r.value),
            exists|d: u64|
                is_one_plus_square(fpu, self.value, d) && gives(
                    fpu,
                    Op::Div(self.uncertainty, d),
                    r.uncertainty,
                ),
    {
        let value = ask(fpu, Op::Atan(self.value));
        let d = one_plus_square(self.value, fpu);
        Self::new(value, ask(fpu, Op::Div(self.uncertainty, d)))
    }

    /// The angle of the point whose ordinate is the estimate of `self` and
    /// whose abscissa is that of `other`; the two uncertainties are combined
    /// in quadrature and divided by the sum of the squares of the estimates.
    pub fn atan2<E: Fn(Op) -> u64>(self, other: Self, fpu: &E) -> (r: Self)
        requires
            total(fpu),
        ensures
            gives(fpu, Op::Atan2(self.value, other.value), r.value),
            exists|q: u64, p: u64, o: u64, d: u64|
                #![trigger is_quadrature(fpu, self.uncertainty, other.uncertainty, q), gives(fpu, Op::Add(p, o), d)]
                is_quadrature(fpu, self.uncertainty, other.uncertainty, q) && gives(
                    fpu,
                    Op::Powi(self.value, 2),
                    p,
                ) && gives(fpu, Op::Powi(other.value, 2), o) && gives(fpu, Op::Add(p, o), d)
                    && gives(fpu, Op::Div(q, d), r.uncertainty),
    {
        let value = ask(fpu, Op::Atan2(self.value, other.value));
        let q = quadrature(self.uncertainty, other.uncertainty, fpu);
        let p = ask(fpu, Op::Powi(self.value, 2));
        let o = ask(fpu, Op::Powi(other.value, 2));
        let d = ask(fpu, Op::Add(p, o));
        Self::new(value, ask(fpu, Op::Div(q, d)))
    }

    /// The hyperbolic sine; the uncertainty is multiplied by the hyperbolic
    /// cosine.
    pub fn sinh<E: Fn(Op) -> u64>(self, fpu: &E) -> (r: Self)
        requires
            total(fpu),
        ensures
            gives(fpu, Op::Sinh(self.value), r.value),
            exists|d: u64|
                gives(fpu, Op::Cosh(self.value), d) && gives(
                    fpu,
                    Op::Mul(self.uncertainty, d),
                    r.uncertainty,
                ),
    {
        let value = ask(fpu, Op::Sinh(self.value));
        let d = ask(fpu, Op::Cosh(self.value));
        Self::new(value, ask(fpu, Op::Mul(self.uncertainty, d)))
    }

    /// The hyperbolic cosine; the uncertainty is multiplied by the magnitude
    /// of the hyperbolic sine.
    pub fn cosh<E: Fn(Op) -> u64>(self, fpu: &E) -> (r: Self)
        requires
            total(fpu),
        ensures
            gives(fpu, Op::Cosh(self.value), r.value),
            exists|d: u64|
                gives(fpu, Op::Sinh(self.value), d) && gives(
                    fpu,
                    Op::Mul(self.uncertainty, magnitude(d)),
                    r.uncertainty,
                ),
    {
        let value = ask(fpu, Op::Cosh(self.value));
        let d = ask(fpu, Op::Sinh(self.value));
        Self::new(value, ask(fpu, Op::Mul(self.uncertainty, binary64::abs(d))))
    }

    /// The hyperbolic tangent; the uncertainty is multiplied by 1 minus the
    /// square of the hyperbolic tangent.
    pub fn tanh<E: Fn(Op) -> u64>(self, fpu: &E) -> (r: Self)
        requires
            total(fpu),
        ensures
            gives(fpu, Op::Tanh(self.value), r.value),
            exists|d: u64|
                is_one_minus_square(fpu, r.value, d) && gives(
                    fpu,
                    Op::Mul(self.uncertainty, d),
                    r.uncertainty,
                ),
    {
        let value = ask(fpu, Op::Tanh(self.value));
        let d = one_minus_square(value, fpu);
        Self::new(value, ask(fpu, Op::Mul(self.uncertainty, d)))
    }

    /// The inverse hyperbolic sine; the uncertainty is divided by the square
    /// root of `1 + x * x`.
    pub fn asinh<E: Fn(Op) -> u64>(self, fpu: &E) -> (r: Self)
        requires
            total(fpu),
        ensures
            gives(fpu, Op::Asinh(self.value), r.value),
            exists|s: u64, d: u64|
                is_one_plus_square(fpu, self.value, s) && gives(fpu, Op::Sqrt(s), d) && gives(
                    fpu,
                    Op::Div(self.uncertainty, d),
                    r.uncertainty,
                ),
    {
        let value = ask(fpu, Op::Asinh(self.value));
        let s = one_plus_square(self.value, fpu);
        let d = ask(fpu, Op::Sqrt(s));
        Self::new(value, ask(fpu, Op::Div(self.uncertainty, d)))
    }

    /// The inverse hyperbolic cosine; the uncertainty is divided by the
    /// square root of `x * x - 1`.
    pub fn acosh<E: Fn(Op) -> u64>(self, fpu: &E) -> (r: Self)
        requires
            total(fpu),
        ensures
            gives(fpu, Op::Acosh(self.value), r.value),
            exists|s: u64, d: u64|
                is_square_minus_one(fpu, self.value, s) && gives(fpu, Op::Sqrt(s), d) && gives(
                    fpu,
                    Op::Div(self.uncertainty, d),
                    r.uncertainty,
                ),
    {
        let value = ask(fpu, Op::Acosh(self.value));
        let s = square_minus_one(self.value, fpu);
        let d = ask(fpu, Op::Sqrt(s));
        Self::new(value, ask(fpu, Op::Div(self.uncertainty, d)))
    }

    /// The inverse hyperbolic tangent; the uncertainty is divided by the
    /// magnitude of `1 - x * x`.
    pub fn atanh<E: Fn(Op) -> u64>(self, fpu: &E) -> (r: Self)
        requires
            total(fpu),
        ensures
            gives(fpu, Op::Atanh(self.value), r.value),
            exists|d: u64|
                is_one_minus_square(fpu, self.value, d) && gives(
                    fpu,
                    Op::Div(self.uncertainty, magnitude(d)),
                    r.uncertainty,
                ),
    {
        let value = ask(fpu, Op::Atanh(self.value));
        let d = one_minus_square(self.value, fpu);
        Self::new(value, ask(fpu, Op::Div(self.uncertainty, binary64::abs(d))))
    }
}

} // verus!
