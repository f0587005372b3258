//! A number with its uncertainty, and the rules by which the uncertainty
//! travels through arithmetic.
use crate::binary64;
use crate::binary64::{below, magnitude, opposite};
use crate::fpu::{
    ask, everywhere, gives, is_quadrature, maps, quadrature, sample, sample_at, sampled, total, Op,
};
use vstd::prelude::*;

verus! {

/// The step of the two-point derivative estimate: the double nearest to
/// one billionth.
pub const TWO_POINT_STEP: u64 = 0x3e11_2e0b_e826_d695;

/// The step of the five-point derivative estimate: the double nearest to
/// one millionth.
pub const FIVE_POINT_STEP: u64 = 0x3eb0_c6f7_a0b5_ed8d;

/// An estimate and its uncertainty of one standard deviation, both doubles
/// held as their bit patterns. Neither field is checked: the uncertainty may be
/// negative or a NaN, and the rules below then give what the arithmetic gives.
#[derive(Clone, Copy, Debug)]
pub struct UncertainFloat {
    pub value: u64,
    pub uncertainty: u64,
}

/// The short name of an uncertain double.
pub type Uf64 = UncertainFloat;

/// `r` may come out as the relative uncertainties of `a` and `b`, each the
/// uncertainty over the estimate, combined in quadrature.
pub open spec fn is_relative_quadrature<E: Fn(Op) -> u64>(
    fpu: &E,
    a: UncertainFloat,
    b: UncertainFloat,
    r: u64,
) -> bool {
    exists|p: u64, q: u64|
        gives(fpu, Op::Div(a.uncertainty, a.value), p) && gives(
            fpu,
            Op::Div(b.uncertainty, b.value),
            q,
        ) && is_quadrature(fpu, p, q, r)
}

/// `r` may come out as the sum of `a` and `b`: the estimates added, the
/// uncertainties combined in quadrature.
pub open spec fn is_sum<E: Fn(Op) -> u64>(
    fpu: &E,
    a: UncertainFloat,
    b: UncertainFloat,
    r: UncertainFloat,
) -> bool {
    gives(fpu, Op::Add(a.value, b.value), r.value) && is_quadrature(
        fpu,
        a.uncertainty,
        b.uncertainty,
        r.uncertainty,
    )
}

/// `r` may come out as the difference of `a` and `b`: the estimates
/// subtracted, the uncertainties combined in quadrature.
pub open spec fn is_difference<E: Fn(Op) -> u64>(
    fpu: &E,
    a: UncertainFloat,
    b: UncertainFloat,
    r: UncertainFloat,
) -> bool {
    gives(fpu, Op::Sub(a.value, b.value), r.value) && is_quadrature(
        fpu,
        a.uncertainty,
        b.uncertainty,
        r.uncertainty,
    )
}

/// `r` may come out as the product of `a` and `b`: the estimates multiplied,
/// the uncertainty their relative uncertainties in quadrature times the new
/// estimate.
pub open spec fn is_product<E: Fn(Op) -> u64>(
    fpu: &E,
    a: UncertainFloat,
    b: UncertainFloat,
    r: UncertainFloat,
) -> bool {
    gives(fpu, Op::Mul(a.value, b.value), r.value) && exists|q: u64|
        is_relative_quadrature(fpu, a, b, q) && gives(fpu, Op::Mul(q, r.value), r.uncertainty)
}

/// `r` may come out as the quotient of `a` and `b`: the estimates divided,
/// the uncertainty their relative uncertainties in quadrature times the new
/// estimate.
pub open spec fn is_quotient<E: Fn(Op) -> u64>(
    fpu: &E,
    a: UncertainFloat,
    b: UncertainFloat,
    r: UncertainFloat,
) -> bool {
    gives(fpu, Op::Div(a.value, b.value), r.value) && exists|q: u64|
        is_relative_quadrature(fpu, a, b, q) && gives(fpu, Op::Mul(q, r.value), r.uncertainty)
}

/// `d` may come out as the two-point central difference of `f` at `x`: the
/// difference of `f` one step above and one step below `x`, over twice the
/// step.
pub open spec fn is_two_point_slope<F: Fn(u64) -> u64, E: Fn(Op) -> u64>(
    f: &F,
    fpu: &E,
    x: u64,
    d: u64,
) -> bool {
    exists|above: u64, under: u64, rise: u64, run: u64|
        sampled(f, fpu, Op::Add(x, TWO_POINT_STEP), above) && sampled(
            f,
            fpu,
            Op::Sub(x, TWO_POINT_STEP),
            under,
        ) && gives(fpu, Op::Sub(above, under), rise) && gives(
            fpu,
            Op::Mul(binary64::TWO, TWO_POINT_STEP),
            run,
        ) && gives(fpu, Op::Div(rise, run), d)
}

/// `rise` may come out as `-f2 + 8 f1 - 8 g1 + g2`, summed from the left.
pub open spec fn is_five_point_rise<E: Fn(Op) -> u64>(
    fpu: &E,
    f2: u64,
    f1: u64,
    g1: u64,
    g2: u64,
    rise: u64,
) -> bool {
    exists|t1: u64, u1: u64, s1: u64, s2: u64|
        #![trigger gives(fpu, Op::Add(opposite(f2), t1), s1), gives(fpu, Op::Sub(s1, u1), s2)]
        gives(fpu, Op::Mul(binary64::EIGHT, f1), t1) && gives(fpu, Op::Add(opposite(f2), t1), s1)
            && gives(fpu, Op::Mul(binary64::EIGHT, g1), u1) && gives(fpu, Op::Sub(s1, u1), s2)
            && gives(fpu, Op::Add(s2, g2), rise)
}

/// `d` may come out as the five-point central difference of `f` at `x`. With
/// `h` the step and `f2`, `f1`, `g1`, `g2` the values of `f` at `x + 2h`,
/// `x + h`, `x - h` and `x - 2h`, it is `-f2 + 8 f1 - 8 g1 + g2` over `12h`.
pub open spec fn is_five_point_slope<F: Fn(u64) -> u64, E: Fn(Op) -> u64>(
    f: &F,
    fpu: &E,
    x: u64,
    d: u64,
) -> bool {
    exists|h2: u64, f2: u64, f1: u64, g1: u64, g2: u64, rise: u64, run: u64|
        #![trigger sampled(f, fpu, Op::Add(x, h2), f2), is_five_point_rise(fpu, f2, f1, g1, g2, rise), gives(fpu, Op::Div(rise, run), d)]
        gives(fpu, Op::Mul(binary64::TWO, FIVE_POINT_STEP), h2) && sampled(
            f,
            fpu,
            Op::Add(x, h2),
            f2,
        ) && sampled(f, fpu, Op::Add(x, FIVE_POINT_STEP), f1) && sampled(
            f,
            fpu,
            Op::Sub(x, FIVE_POINT_STEP),
            g1,
        ) && sampled(f, fpu, Op::Sub(x, h2), g2) && is_five_point_rise(fpu, f2, f1, g1, g2, rise)
            && gives(fpu, Op::Mul(binary64::TWELVE, FIVE_POINT_STEP), run) && gives(
            fpu,
            Op::Div(rise, run),
            d,
        )
}

/// `r` may come out when `f` is applied to `x` with the two-point estimate of
/// its derivative: the estimate is `f` at `x.value`, the uncertainty is that of
/// `x` times the magnitude of the slope.
pub open spec fn is_two_point_image<F: Fn(u64) -> u64, E: Fn(Op) -> u64>(
    f: &F,
    fpu: &E,
    x: UncertainFloat,
    r: UncertainFloat,
) -> bool {
    maps(f, x.value, r.value) && exists|d: u64|
        is_two_point_slope(f, fpu, x.value, d) && gives(
            fpu,
            Op::Mul(x.uncertainty, magnitude(d)),
            r.uncertainty,
        )
}

/// `r` may come out when `f` is applied to `x` with the five-point estimate of
/// its derivative: the estimate is `f` at `x.value`, the uncertainty is that of
/// `x` times the magnitude of the slope.
pub open spec fn is_five_point_image<F: Fn(u64) -> u64, E: Fn(Op) -> u64>(
    f: &F,
    fpu: &E,
    x: UncertainFloat,
    r: UncertainFloat,
) -> bool {
    maps(f, x.value, r.value) && exists|d: u64|
        is_five_point_slope(f, fpu, x.value, d) && gives(
            fpu,
            Op::Mul(x.uncertainty, magnitude(d)),
            r.uncertainty,
        )
}

/// The two-point central difference of `f` at `x`.
fn two_point_slope<F: Fn(u64) -> u64, E: Fn(Op) -> u64>(f: &F, fpu: &E, x: u64) -> (d: u64)
    requires
        everywhere(f),
        total(fpu),
    ensures
        is_two_point_slope(f, fpu, x, d),
{
    let above = sample_at(f, fpu, Op::Add(x, TWO_POINT_STEP));
    let under = sample_at(f, fpu, Op::Sub(x, TWO_POINT_STEP));
    let rise = ask(fpu, Op::Sub(above, under));
    let run = ask(fpu, Op::Mul(binary64::TWO, TWO_POINT_STEP));
    ask(fpu, Op::Div(rise, run))
}

/// The sum `-f2 + 8 f1 - 8 g1 + g2`, taken from the left.
fn five_point_rise<E: Fn(Op) -> u64>(fpu: &E, f2: u64, f1: u64, g1: u64, g2: u64) -> (rise: u64)
    requires
        total(fpu),
    ensures
        is_five_point_rise(fpu, f2, f1, g1, g2, rise),
{
    let t1 = ask(fpu, Op::Mul(binary64::EIGHT, f1));
    let s1 = ask(fpu, Op::Add(binary64::neg(f2), t1));
    let u1 = ask(fpu, Op::Mul(binary64::EIGHT, g1));
    let s2 = ask(fpu, Op::Sub(s1, u1));
    ask(fpu, Op::Add(s2, g2))
}

/// The five-point central difference of `f` at `x`.
fn five_point_slope<F: Fn(u64) -> u64, E: Fn(Op) -> u64>(f: &F, fpu: &E, x: u64) -> (d: u64)
    requires
        everywhere(f),
        total(fpu),
    ensures
        is_five_point_slope(f, fpu, x, d),
{
    let h2 = ask(fpu, Op::Mul(binary64::TWO, FIVE_POINT_STEP));
    let f2 = sample_at(f, fpu, Op::Add(x, h2));
    let f1 = sample_at(f, fpu, Op::Add(x, FIVE_POINT_STEP));
    let g1 = sample_at(f, fpu, Op::Sub(x, FIVE_POINT_STEP));
    let g2 = sample_at(f, fpu, Op::Sub(x, h2));
    let rise = five_point_rise(fpu, f2, f1, g1, g2);
    let run = ask(fpu, Op::Mul(binary64::TWELVE, FIVE_POINT_STEP));
    ask(fpu, Op::Div(rise, run))
}

/// The relative uncertainties of `a` and `b` in quadrature.
fn relative_quadrature<E: Fn(Op) -> u64>(a: UncertainFloat, b: UncertainFloat, fpu: &E) -> (r: u64)
    requires
        total(fpu),
    ensures
        is_relative_quadrature(fpu, a, b, r),
{
    let p = ask(fpu, Op::Div(a.uncertainty, a.value));
    let q = ask(fpu, Op::Div(b.uncertainty, b.value));
    quadrature(p, q, fpu)
}

impl UncertainFloat {
    /// Stores the two doubles as they are.
    pub fn new(value: u64, uncertainty: u64) -> (r: Self)
        ensures
            r.value == value,
            r.uncertainty == uncertainty,
    {
        UncertainFloat { value, uncertainty }
    }

    /// Applies `f` to an uncertain value. The derivative of `f` is estimated
    /// with the five-point difference.
    pub fn apply<F: Fn(u64) -> u64, E: Fn(Op) -> u64>(&self, f: &F, fpu: &E) -> (r: Self)
        requires
            everywhere(f),
            total(fpu),
        ensures
            is_five_point_image(f, fpu, *self, r),
    {
        self.apply_with_central_difference_approx_order_four(f, fpu)
    }

    /// Applies `f` to an uncertain value. The derivative of `f` is estimated
    /// with the two-point difference, whose error falls with the square of the
    /// step.
    pub fn apply_with_finite_difference_approx<F: Fn(u64) -> u64, E: Fn(Op) -> u64>(
        &self,
        f: &F,
        fpu: &E,
    ) -> (r: Self)
        requires
            everywhere(f),
            total(fpu),
        ensures
            is_two_point_image(f, fpu, *self, r),
    {
        let value = sample(f, self.value);
        let slope = two_point_slope(f, fpu, self.value);
        let uncertainty = ask(fpu, Op::Mul(self.uncertainty, binary64::abs(slope)));
        Self::new(value, uncertainty)
    }

    /// Applies `f` to an uncertain value. The derivative of `f` is estimated
    /// with the five-point difference, whose error falls with the fourth power
    /// of the step.
    pub fn apply_with_central_difference_approx_order_four<F: Fn(u64) -> u64, E: Fn(Op) -> u64>(
        &self,
        f: &F,
        fpu: &E,
    ) -> (r: Self)
        requires
            everywhere(f),
            total(fpu),
        ensures
            is_five_point_image(f, fpu, *self, r),
    {
        let value = sample(f, self.value);
        let slope = five_point_slope(f, fpu, self.value);
        let uncertainty = ask(fpu, Op::Mul(self.uncertainty, binary64::abs(slope)));
        Self::new(value, uncertainty)
    }

    /// The operand with the larger estimate. Where neither estimate is larger
    /// than the other, the estimate is that of `self` and the two
    /// uncertainties are combined in quadrature.
    pub fn max<E: Fn(Op) -> u64>(self, other: Self, fpu: &E) -> (r: Self)
        requires
            total(fpu),
        ensures
            below(other.value, self.value) ==> r == self,
            !below(other.value, self.value) && below(self.value, other.value) ==> r == other,
            !below(other.value, self.value) && !below(self.value, other.value) ==> r.value
                == self.value && is_quadrature(
                fpu,
                self.uncertainty,
                other.uncertainty,
                r.uncertainty,
            ),
    {
        if binary64::gt(self.value, other.value) {
            self
        } else if binary64::lt(self.value, other.value) {
            other
        } else {
            Self::new(self.value, quadrature(self.uncertainty, other.uncertainty, fpu))
        }
    }

    /// The operand with the smaller estimate. Where neither estimate is
    /// smaller than the other, the estimate is that of `self` and the two
    /// uncertainties are combined in quadrature.
    pub fn min<E: Fn(Op) -> u64>(self, other: Self, fpu: &E) -> (r: Self)
        requires
            total(fpu),
        ensures
            below(self.value, other.value) ==> r == self,
            !below(self.value, other.value) && below(other.value, self.value) ==> r == other,
            !below(self.value, other.value) && !below(other.value, self.value) ==> r.value
                == self.value && is_quadrature(
                fpu,
                self.uncertainty,
                other.uncertainty,
                r.uncertainty,
            ),
    {
        if binary64::lt(self.value, other.value) {
            self
        } else if binary64::gt(self.value, other.value) {
            other
        } else {
            Self::new(self.value, quadrature(self.uncertainty, other.uncertainty, fpu))
        }
    }

    /// The signed difference of the estimates, `self`'s minus `other`'s, with
    /// the uncertainties added: a linear sum, where the difference of two
    /// values combines them in quadrature.
    pub fn abs_sub<E: Fn(Op) -> u64>(self, other: Self, fpu: &E) -> (r: Self)
        requires
            total(fpu),
        ensures
            gives(fpu, Op::Sub(self.value, other.value), r.value),
            gives(fpu, Op::Add(self.uncertainty, other.uncertainty), r.uncertainty),
    {
        let value = ask(fpu, Op::Sub(self.value, other.value));
        Self::new(value, ask(fpu, Op::Add(self.uncertainty, other.uncertainty)))
    }

    /// The sum of two independent values: the estimates are added, the
    /// uncertainties combined in quadrature.
    pub fn add<E: Fn(Op) -> u64>(self, other: Self, fpu: &E) -> (r: Self)
        requires
            total(fpu),
        ensures
            is_sum(fpu, self, other, r),
    {
        let value = ask(fpu, Op::Add(self.value, other.value));
        Self::new(value, quadrature(self.uncertainty, other.uncertainty, fpu))
    }

    /// The difference of two independent values: the estimates are
    /// subtracted, the uncertainties combined in quadrature.
    pub fn sub<E: Fn(Op) -> u64>(self, other: Self, fpu: &E) -> (r: Self)
        requires
            total(fpu),
        ensures
            is_difference(fpu, self, other, r),
    {
        let value = ask(fpu, Op::Sub(self.value, other.value));
        Self::new(value, quadrature(self.uncertainty, other.uncertainty, fpu))
    }

    /// The product of two independent values. Its uncertainty is the relative
    /// uncertainties in quadrature, times the product of the estimates.
    pub fn mul<E: Fn(Op) -> u64>(self, other: Self, fpu: &E) -> (r: Self)
        requires
            total(fpu),
        ensures
            is_product(fpu, self, other, r),
    {
        let value = ask(fpu, Op::Mul(self.value, other.value));
        let q = relative_quadrature(self, other, fpu);
        Self::new(value, ask(fpu, Op::Mul(q, value)))
    }

    /// The quotient of two independent values. Its uncertainty is the
    /// relative uncertainties in quadrature, times the quotient of the
    /// estimates.
    pub fn div<E: Fn(Op) -> u64>(self, other: Self, fpu: &E) -> (r: Self)
        requires
            total(fpu),
        ensures
            is_quotient(fpu, self, other, r),
    {
        let value = ask(fpu, Op::Div(self.value, other.value));
        let q = relative_quadrature(self, other, fpu);
        Self::new(value, ask(fpu, Op::Mul(q, value)))
    }

    /// The negated estimate, with the uncertainty as it was.
    pub fn neg(self) -> (r: Self)
        ensures
            r.value == opposite(self.value),
            r.uncertainty == self.uncertainty,
    {
        Self::new(binary64::neg(self.value), self.uncertainty)
    }

    /// No remainder is defined for uncertain values: the result is zero with
    /// no uncertainty, whatever the operands.
    pub fn rem(self, _rhs: Self) -> (r: Self)
        ensures
            r.value == binary64::ZERO,
            r.uncertainty == binary64::ZERO,
    {
        Self::new(binary64::ZERO, binary64::ZERO)
    }
}

} // verus!
