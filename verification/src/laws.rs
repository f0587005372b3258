//! What holds of the rules for all operands.
//!
//! The rules inherit the laws of the arithmetic they are built on. Each law
//! here names what it takes from the floating-point unit: that it answers a
//! request in one way, that its addition and multiplication do not depend on
//! the order of the operands, that zero is neutral in a sum, that zero times
//! a finite number is zero. Arithmetic on doubles has these properties on the
//! operands that the law names. Each is a statement about the answers that
//! the unit may give, so that a caller whose unit has a contract can show it.
use crate::binary64;
use crate::binary64::{below, finite, magnitude, nan, negative, opposite, rank, same};
use crate::elementary::is_sine;
use crate::fpu::{gives, is_quadrature, maps, Op};
use crate::uncertain_float::{
    is_five_point_image, is_five_point_slope, is_product, is_relative_quadrature, is_sum,
    is_two_point_image, is_two_point_slope, UncertainFloat,
};
use vstd::prelude::*;

verus! {

/// The unit answers each request in one way.
pub open spec fn answers_in_one_way<E: Fn(Op) -> u64>(fpu: &E) -> bool {
    forall|op: Op, r1: u64, r2: u64|
        #![trigger gives(fpu, op, r1), gives(fpu, op, r2)]
        gives(fpu, op, r1) && gives(fpu, op, r2) ==> r1 == r2
}

/// Adding zero to `x` gives `x`.
pub open spec fn zero_is_neutral_for<E: Fn(Op) -> u64>(fpu: &E, x: u64) -> bool {
    forall|r: u64| #[trigger] gives(fpu, Op::Add(x, binary64::ZERO), r) ==> r == x
}

/// The square of zero is zero.
pub open spec fn zero_squares_to_zero<E: Fn(Op) -> u64>(fpu: &E) -> bool {
    forall|r: u64| #[trigger] gives(fpu, Op::Powi(binary64::ZERO, 2), r) ==> r == binary64::ZERO
}

/// The square root of the square of `u` is `u`.
pub open spec fn root_undoes_square_of<E: Fn(Op) -> u64>(fpu: &E, u: u64) -> bool {
    forall|p: u64, r: u64|
        gives(fpu, Op::Powi(u, 2), p) && #[trigger] gives(fpu, Op::Sqrt(p), r) ==> r == u
}

/// Zero times a finite number that is not negative is zero.
pub open spec fn zero_times_finite_is_zero<E: Fn(Op) -> u64>(fpu: &E) -> bool {
    forall|d: u64, r: u64|
        finite(d) && !negative(d) && #[trigger] gives(fpu, Op::Mul(binary64::ZERO, d), r) ==> r
            == binary64::ZERO
}

/// The unit's addition does not depend on the order of its operands.
pub open spec fn addition_commutes<E: Fn(Op) -> u64>(fpu: &E) -> bool {
    forall|x: u64, y: u64, r1: u64, r2: u64|
        #![trigger gives(fpu, Op::Add(x, y), r1), gives(fpu, Op::Add(y, x), r2)]
        gives(fpu, Op::Add(x, y), r1) && gives(fpu, Op::Add(y, x), r2) ==> r1 == r2
}

/// The unit's multiplication does not depend on the order of its operands.
pub open spec fn multiplication_commutes<E: Fn(Op) -> u64>(fpu: &E) -> bool {
    forall|x: u64, y: u64, r1: u64, r2: u64|
        #![trigger gives(fpu, Op::Mul(x, y), r1), gives(fpu, Op::Mul(y, x), r2)]
        gives(fpu, Op::Mul(x, y), r1) && gives(fpu, Op::Mul(y, x), r2) ==> r1 == r2
}

/// Two uncertainties combine in quadrature to the same value in either
/// order, where the unit answers in one way and its addition commutes.
pub proof fn lemma_quadrature_commutes<E: Fn(Op) -> u64>(
    fpu: &E,
    a: u64,
    b: u64,
    ab: u64,
    ba: u64,
)
    requires
        answers_in_one_way(fpu),
        addition_commutes(fpu),
        is_quadrature(fpu, a, b, ab),
        is_quadrature(fpu, b, a, ba),
    ensures
        ab == ba,
{
    let (pa, qa, sa) = choose|p: u64, q: u64, s: u64|
        gives(fpu, Op::Powi(a, 2), p) && gives(fpu, Op::Powi(b, 2), q) && gives(
            fpu,
            Op::Add(p, q),
            s,
        ) && gives(fpu, Op::Sqrt(s), ab);
    let (pb, qb, sb) = choose|p: u64, q: u64, s: u64|
        gives(fpu, Op::Powi(b, 2), p) && gives(fpu, Op::Powi(a, 2), q) && gives(
            fpu,
            Op::Add(p, q),
            s,
        ) && gives(fpu, Op::Sqrt(s), ba);
    assert(pa == qb && qa == pb);
    assert(sa == sb);
}

/// `a + b == b + a`, in both fields and bit for bit, where the unit answers
/// in one way and its addition commutes.
pub proof fn lemma_add_commutes<E: Fn(Op) -> u64>(
    fpu: &E,
    a: UncertainFloat,
    b: UncertainFloat,
    ab: UncertainFloat,
    ba: UncertainFloat,
)
    requires
        answers_in_one_way(fpu),
        addition_commutes(fpu),
        is_sum(fpu, a, b, ab),
        is_sum(fpu, b, a, ba),
    ensures
        ab == ba,
{
    lemma_quadrature_commutes(fpu, a.uncertainty, b.uncertainty, ab.uncertainty, ba.uncertainty);
}

/// `a * b == b * a`, in both fields and bit for bit, where the unit answers
/// in one way and its addition and multiplication commute.
pub proof fn lemma_mul_commutes<E: Fn(Op) -> u64>(
    fpu: &E,
    a: UncertainFloat,
    b: UncertainFloat,
    ab: UncertainFloat,
    ba: UncertainFloat,
)
    requires
        answers_in_one_way(fpu),
        addition_commutes(fpu),
        multiplication_commutes(fpu),
        is_product(fpu, a, b, ab),
        is_product(fpu, b, a, ba),
    ensures
        ab == ba,
{
    let qa = choose|q: u64|
        is_relative_quadrature(fpu, a, b, q) && gives(fpu, Op::Mul(q, ab.value), ab.uncertainty);
    let qb = choose|q: u64|
        is_relative_quadrature(fpu, b, a, q) && gives(fpu, Op::Mul(q, ba.value), ba.uncertainty);
    let (xa, ya) = choose|x: u64, y: u64|
        gives(fpu, Op::Div(a.uncertainty, a.value), x) && gives(
            fpu,
            Op::Div(b.uncertainty, b.value),
            y,
        ) && is_quadrature(fpu, x, y, qa);
    let (xb, yb) = choose|x: u64, y: u64|
        gives(fpu, Op::Div(b.uncertainty, b.value), x) && gives(
            fpu,
            Op::Div(a.uncertainty, a.value),
            y,
        ) && is_quadrature(fpu, x, y, qb);
    assert(xa == yb && ya == xb);
    lemma_quadrature_commutes(fpu, xa, ya, qa, qb);
}

/// `a + 0 == a` for the exact zero, in both fields and bit for bit, where in
/// the unit zero is neutral for the estimate of `a` and for the square of its
/// uncertainty, the square of zero is zero, and the root undoes the square of
/// the uncertainty of `a`.
pub proof fn lemma_adding_zero_changes_nothing<E: Fn(Op) -> u64>(
    fpu: &E,
    a: UncertainFloat,
    r: UncertainFloat,
)
    requires
        zero_is_neutral_for(fpu, a.value),
        forall|p: u64| #[trigger]
            gives(fpu, Op::Powi(a.uncertainty, 2), p) ==> zero_is_neutral_for(fpu, p),
        zero_squares_to_zero(fpu),
        root_undoes_square_of(fpu, a.uncertainty),
        is_sum(fpu, a, UncertainFloat { value: binary64::ZERO, uncertainty: binary64::ZERO }, r),
    ensures
        r == a,
{
    let (p, q, s) = choose|p: u64, q: u64, s: u64|
        gives(fpu, Op::Powi(a.uncertainty, 2), p) && gives(fpu, Op::Powi(binary64::ZERO, 2), q)
            && gives(fpu, Op::Add(p, q), s) && gives(fpu, Op::Sqrt(s), r.uncertainty);
    assert(q == binary64::ZERO);
    assert(zero_is_neutral_for(fpu, p));
    assert(s == p);
}

/// The sine of an exact value is exact, where in the unit zero times a
/// finite number is zero and the cosine of the estimate is finite.
pub proof fn lemma_sine_of_exact_is_exact<E: Fn(Op) -> u64>(
    fpu: &E,
    x: UncertainFloat,
    r: UncertainFloat,
)
    requires
        zero_times_finite_is_zero(fpu),
        forall|d: u64| #[trigger] gives(fpu, Op::Cos(x.value), d) ==> finite(d),
        x.uncertainty == binary64::ZERO,
        is_sine(fpu, x, r),
    ensures
        r.uncertainty == binary64::ZERO,
{
    let d = choose|d: u64|
        gives(fpu, Op::Cos(x.value), d) && gives(
            fpu,
            Op::Mul(x.uncertainty, magnitude(d)),
            r.uncertainty,
        );
    assert(finite(magnitude(d)) && !negative(magnitude(d)));
}

/// The image of an exact value under `f` is exact with the two-point
/// estimate, and its estimate is `f` at the estimate, where in the unit zero
/// times a finite number is zero and every slope that may come out is
/// finite.
pub proof fn lemma_two_point_image_of_exact_is_exact<F: Fn(u64) -> u64, E: Fn(Op) -> u64>(
    f: &F,
    fpu: &E,
    x: UncertainFloat,
    r: UncertainFloat,
)
    requires
        zero_times_finite_is_zero(fpu),
        forall|d: u64| #[trigger] is_two_point_slope(f, fpu, x.value, d) ==> finite(d),
        x.uncertainty == binary64::ZERO,
        is_two_point_image(f, fpu, x, r),
    ensures
        r.uncertainty == binary64::ZERO,
        maps(f, x.value, r.value),
{
    let d = choose|d: u64|
        is_two_point_slope(f, fpu, x.value, d) && gives(
            fpu,
            Op::Mul(x.uncertainty, magnitude(d)),
            r.uncertainty,
        );
    assert(finite(magnitude(d)) && !negative(magnitude(d)));
}

/// The image of an exact value under `f` is exact with the five-point
/// estimate, and its estimate is `f` at the estimate, where in the unit zero
/// times a finite number is zero and every slope that may come out is
/// finite.
pub proof fn lemma_five_point_image_of_exact_is_exact<F: Fn(u64) -> u64, E: Fn(Op) -> u64>(
    f: &F,
    fpu: &E,
    x: UncertainFloat,
    r: UncertainFloat,
)
    requires
        zero_times_finite_is_zero(fpu),
        forall|d: u64| #[trigger] is_five_point_slope(f, fpu, x.value, d) ==> finite(d),
        x.uncertainty == binary64::ZERO,
        is_five_point_image(f, fpu, x, r),
    ensures
        r.uncertainty == binary64::ZERO,
        maps(f, x.value, r.value),
{
    let d = choose|d: u64|
        is_five_point_slope(f, fpu, x.value, d) && gives(
            fpu,
            Op::Mul(x.uncertainty, magnitude(d)),
            r.uncertainty,
        );
    assert(finite(magnitude(d)) && !negative(magnitude(d)));
}

/// Of two doubles that are numbers, exactly one of three holds: the first is
/// below the second, they are equal, or the second is below the first.
pub proof fn lemma_trichotomy(a: u64, b: u64)
    requires
        !nan(a),
        !nan(b),
    ensures
        below(a, b) || same(a, b) || below(b, a),
        !(below(a, b) && same(a, b)),
        !(below(a, b) && below(b, a)),
        !(same(a, b) && below(b, a)),
{
}

/// The order of doubles is transitive.
pub proof fn lemma_below_is_transitive(a: u64, b: u64, c: u64)
    requires
        below(a, b),
        below(b, c),
    ensures
        below(a, c),
{
}

/// A NaN is neither below, nor equal to, nor above any double, itself
/// included.
pub proof fn lemma_nan_is_unordered(a: u64, b: u64)
    requires
        nan(a),
    ensures
        !below(a, b),
        !below(b, a),
        !same(a, b),
        !same(b, a),
{
}

/// Negation turns the order round and is undone by a second negation; it
/// keeps the magnitude and changes the sign.
pub proof fn lemma_negation_mirrors(a: u64, b: u64)
    ensures
        opposite(opposite(a)) == a,
        magnitude(opposite(a)) == magnitude(a),
        negative(opposite(a)) == !negative(a),
        rank(opposite(a)) == -rank(a),
        below(a, b) <==> below(opposite(b), opposite(a)),
{
}

} // verus!
