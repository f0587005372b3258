//! The arithmetic that rounds.
//!
//! This library decides which operations are carried out on which operands, and
//! in what order; it does not carry them out. The caller hands every function
//! that needs arithmetic a floating-point unit: a function that takes an `Op`,
//! the operation together with the bit patterns of its operands, and returns
//! the bit pattern of the result. A contract then says which chain of requests
//! produced each part of the result. It holds of any unit, also of one that
//! answers the same request differently from call to call.
use vstd::prelude::*;

verus! {

/// One request to the floating-point unit. Operands are the bit patterns of
/// doubles; an operation on one operand takes `x`, one on two takes them in the
/// order in which the operation is usually written.
#[derive(Clone, Copy, Debug)]
pub enum Op {
    /// `x + y`
    Add(u64, u64),
    /// `x - y`
    Sub(u64, u64),
    /// `x * y`
    Mul(u64, u64),
    /// `x / y`
    Div(u64, u64),
    /// `x * y + z`, rounded once
    MulAdd(u64, u64, u64),
    /// `1 / x`
    Recip(u64),
    /// `x` to an integer power
    Powi(u64, i32),
    /// `x` to the power `y`
    Powf(u64, u64),
    /// Square root
    Sqrt(u64),
    /// Cube root
    Cbrt(u64),
    /// The length of the hypotenuse over the legs `x` and `y`
    Hypot(u64, u64),
    /// `e` to the power `x`
    Exp(u64),
    /// 2 to the power `x`
    Exp2(u64),
    /// `e` to the power `x`, minus 1
    ExpM1(u64),
    /// Natural logarithm
    Ln(u64),
    /// Natural logarithm of `1 + x`
    Ln1p(u64),
    /// Logarithm of `x` to the base `y`
    Log(u64, u64),
    /// Logarithm to the base 2
    Log2(u64),
    /// Logarithm to the base 10
    Log10(u64),
    Sin(u64),
    Cos(u64),
    Tan(u64),
    Asin(u64),
    Acos(u64),
    Atan(u64),
    /// The angle of the point with ordinate `x` and abscissa `y`
    Atan2(u64, u64),
    Sinh(u64),
    Cosh(u64),
    Tanh(u64),
    Asinh(u64),
    Acosh(u64),
    Atanh(u64),
    /// 1 with the sign of `x`, or a NaN
    Signum(u64),
    /// The largest integer not above `x`
    Floor(u64),
    /// The smallest integer not below `x`
    Ceil(u64),
    /// The nearest integer, halves away from zero
    Round(u64),
    /// The integer part
    Trunc(u64),
    /// `x` minus its integer part
    Fract(u64),
}

/// The unit may answer the request `op` with `r`.
pub open spec fn gives<E: Fn(Op) -> u64>(fpu: &E, op: Op, r: u64) -> bool {
    call_ensures(fpu, (op,), r)
}

/// The unit accepts every request.
pub open spec fn total<E: Fn(Op) -> u64>(fpu: &E) -> bool {
    forall|op: Op| call_requires(fpu, (op,))
}

/// The function `f` on doubles may map `x` to `y`.
pub open spec fn maps<F: Fn(u64) -> u64>(f: &F, x: u64, y: u64) -> bool {
    call_ensures(f, (x,), y)
}

/// The function `f` accepts every double.
pub open spec fn everywhere<F: Fn(u64) -> u64>(f: &F) -> bool {
    forall|x: u64| call_requires(f, (x,))
}

/// `y` may come out of `f` at the point that the unit gives for `at`.
pub open spec fn sampled<F: Fn(u64) -> u64, E: Fn(Op) -> u64>(
    f: &F,
    fpu: &E,
    at: Op,
    y: u64,
) -> bool {
    exists|x: u64| gives(fpu, at, x) && maps(f, x, y)
}

/// `r` may come out as the square root of the sum of the squares of `a` and
/// `b`.
pub open spec fn is_quadrature<E: Fn(Op) -> u64>(fpu: &E, a: u64, b: u64, r: u64) -> bool {
    exists|p: u64, q: u64, s: u64|
        gives(fpu, Op::Powi(a, 2), p) && gives(fpu, Op::Powi(b, 2), q) && gives(
            fpu,
            Op::Add(p, q),
            s,
        ) && gives(fpu, Op::Sqrt(s), r)
}

/// Puts one request to the unit.
pub fn ask<E: Fn(Op) -> u64>(fpu: &E, op: Op) -> (r: u64)
    requires
        total(fpu),
    ensures
        gives(fpu, op, r),
{
    fpu(op)
}

/// Evaluates `f` at one point.
pub fn sample<F: Fn(u64) -> u64>(f: &F, x: u64) -> (y: u64)
    requires
        everywhere(f),
    ensures
        maps(f, x, y),
{
    f(x)
}

/// Evaluates `f` at the point that the unit gives for `at`.
pub fn sample_at<F: Fn(u64) -> u64, E: Fn(Op) -> u64>(f: &F, fpu: &E, at: Op) -> (y: u64)
    requires
        everywhere(f),
        total(fpu),
    ensures
        sampled(f, fpu, at, y),
{
    let x = ask(fpu, at);
    sample(f, x)
}

/// Combines two independent uncertainties: the square root of the sum of their
/// squares.
pub fn quadrature<E: Fn(Op) -> u64>(a: u64, b: u64, fpu: &E) -> (r: u64)
    requires
        total(fpu),
    ensures
        is_quadrature(fpu, a, b, r),
{
    let p = ask(fpu, Op::Powi(a, 2));
    let q = ask(fpu, Op::Powi(b, 2));
    let s = ask(fpu, Op::Add(p, q));
    ask(fpu, Op::Sqrt(s))
}

} // verus!
