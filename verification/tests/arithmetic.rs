use uncertainty::fpu::Op;
use uncertainty::uncertain_float::UncertainFloat;

fn num(bits: u64) -> f64 {
    f64::from_bits(bits)
}

fn fpu(op: Op) -> u64 {
    let r = match op {
        Op::Add(x, y) => num(x) + num(y),
        Op::Sub(x, y) => num(x) - num(y),
        Op::Mul(x, y) => num(x) * num(y),
        Op::Div(x, y) => num(x) / num(y),
        Op::MulAdd(x, y, z) => num(x).mul_add(num(y), num(z)),
        Op::Recip(x) => num(x).recip(),
        Op::Powi(x, n) => num(x).powi(n),
        Op::Powf(x, y) => num(x).powf(num(y)),
        Op::Sqrt(x) => num(x).sqrt(),
        Op::Cbrt(x) => num(x).cbrt(),
        Op::Hypot(x, y) => num(x).hypot(num(y)),
        Op::Exp(x) => num(x).exp(),
        Op::Exp2(x) => num(x).exp2(),
        Op::ExpM1(x) => num(x).exp_m1(),
        Op::Ln(x) => num(x).ln(),
        Op::Ln1p(x) => num(x).ln_1p(),
        Op::Log(x, y) => num(x).log(num(y)),
        Op::Log2(x) => num(x).log2(),
        Op::Log10(x) => num(x).log10(),
        Op::Sin(x) => num(x).sin(),
        Op::Cos(x) => num(x).cos(),
        Op::Tan(x) => num(x).tan(),
        Op::Asin(x) => num(x).asin(),
        Op::Acos(x) => num(x).acos(),
        Op::Atan(x) => num(x).atan(),
        Op::Atan2(x, y) => num(x).atan2(num(y)),
        Op::Sinh(x) => num(x).sinh(),
        Op::Cosh(x) => num(x).cosh(),
        Op::Tanh(x) => num(x).tanh(),
        Op::Asinh(x) => num(x).asinh(),
        Op::Acosh(x) => num(x).acosh(),
        Op::Atanh(x) => num(x).atanh(),
        Op::Signum(x) => num(x).signum(),
        Op::Floor(x) => num(x).floor(),
        Op::Ceil(x) => num(x).ceil(),
        Op::Round(x) => num(x).round(),
        Op::Trunc(x) => num(x).trunc(),
        Op::Fract(x) => num(x).fract(),
    };
    r.to_bits()
}

fn uf(value: f64, uncertainty: f64) -> UncertainFloat {
    UncertainFloat::new(value.to_bits(), uncertainty.to_bits())
}

struct TestCase {
    input1: UncertainFloat,
    input2: UncertainFloat,
    expected_output: UncertainFloat,
}

#[test]
fn test_add() {
    let epsilon = 1e-9;

    let test_cases = vec![
        TestCase {
            input1: uf(1.0, 0.1),
            input2: uf(2.0, 0.2),
            expected_output: uf(3.0, 0.223606797749979),
        },
        TestCase {
            input1: uf(0.001, 0.00001),
            input2: uf(1092.883, 0.3882983),
            expected_output: uf(1092.884, 0.388298300128767),
        },
        TestCase {
            input1: uf(9983838884.838, 0.00000000192),
            input2: uf(0.0, 0.0),
            expected_output: uf(9983838884.838, 0.00000000192),
        },
    ];

    for case in test_cases {
        let result = case.input1.add(case.input2, &fpu);
        assert!((num(result.value) - num(case.expected_output.value)).abs() < epsilon);
        assert!((num(result.uncertainty) - num(case.expected_output.uncertainty)).abs() < epsilon);
    }
}

fn value(x: UncertainFloat) -> f64 {
    num(x.value)
}

fn spread(x: UncertainFloat) -> f64 {
    num(x.uncertainty)
}

fn close(a: f64, b: f64, epsilon: f64) -> bool {
    (a - b).abs() < epsilon
}

#[test]
fn new_stores_both_fields_verbatim() {
    let x = UncertainFloat::new(0x4009_21fb_5444_2d18, 0xfff8_0000_0000_0001);
    assert_eq!(x.value, 0x4009_21fb_5444_2d18);
    assert_eq!(x.uncertainty, 0xfff8_0000_0000_0001);
    let y = uf(-2.5, -1.0);
    assert_eq!(value(y), -2.5);
    assert_eq!(spread(y), -1.0);
}

#[test]
fn addition_commutes() {
    let a = uf(1.25, 0.1);
    let b = uf(-7.5, 0.35);
    let ab = a.add(b, &fpu);
    let ba = b.add(a, &fpu);
    assert!(close(value(ab), value(ba), 1e-9));
    assert!(close(spread(ab), spread(ba), 1e-9));
    assert_eq!(value(ab), -6.25);
    assert_eq!((ab.value, ab.uncertainty), (ba.value, ba.uncertainty));
}

#[test]
fn multiplication_commutes() {
    let a = uf(1.25, 0.1);
    let b = uf(-7.5, 0.35);
    let ab = a.mul(b, &fpu);
    let ba = b.mul(a, &fpu);
    assert!(close(value(ab), value(ba), 1e-9));
    assert!(close(spread(ab), spread(ba), 1e-9));
    assert_eq!(value(ab), -9.375);
    assert_eq!((ab.value, ab.uncertainty), (ba.value, ba.uncertainty));
}

#[test]
fn the_machine_is_symmetric_and_keeps_zero_apart() {
    let some = [0.0, 1.0, -1.0, 0.1, 0.2, 3.14, -2.75, 1e-9, 1e6, 9983838884.838, 1e300];
    for &x in &some {
        for &y in &some {
            let (a, b): (f64, f64) = (x, y);
            assert_eq!(fpu(Op::Add(a.to_bits(), b.to_bits())), fpu(Op::Add(b.to_bits(), a.to_bits())));
            assert_eq!(fpu(Op::Mul(a.to_bits(), b.to_bits())), fpu(Op::Mul(b.to_bits(), a.to_bits())));
        }
        let bits = x.to_bits();
        assert_eq!(fpu(Op::Add(bits, 0)), bits);
        assert_eq!(fpu(Op::Mul(0, x.abs().to_bits())), 0);
    }
    assert_eq!(fpu(Op::Powi(0, 2)), 0);
    for u in [0.0f64, 0.1, 0.2, 0.00000000192, 0.3882983, 1e6] {
        let square = fpu(Op::Powi(u.to_bits(), 2));
        assert_eq!(fpu(Op::Add(square, 0)), square);
        assert_eq!(fpu(Op::Sqrt(square)), u.to_bits());
    }
}

#[test]
fn adding_exact_zero_gives_back_the_same_bits() {
    for (v, u) in [(1.0, 0.1), (-7.5, 0.35), (9983838884.838, 0.00000000192), (0.0, 0.0), (1e300, 1e6)] {
        let a = uf(v, u);
        let r = a.add(UncertainFloat::zero(), &fpu);
        assert_eq!((r.value, r.uncertainty), (a.value, a.uncertainty));
    }
    let tiny = uf(1.0, 1e-200).add(UncertainFloat::zero(), &fpu);
    assert_eq!(spread(tiny), 0.0);
}

#[test]
fn sum_and_difference_combine_in_quadrature() {
    let a = uf(1.0, 0.1);
    let b = uf(2.0, 0.2);
    let sum = a.add(b, &fpu);
    let difference = a.sub(b, &fpu);
    assert_eq!(value(sum), 3.0);
    assert_eq!(value(difference), -1.0);
    assert!(close(spread(sum), 0.223606797749979, 1e-9));
    assert!(close(spread(difference), 0.223606797749979, 1e-9));
    assert_eq!(spread(sum), (0.1f64.powi(2) + 0.2f64.powi(2)).sqrt());
}

#[test]
fn adding_exact_zero_changes_nothing() {
    let a = uf(9983838884.838, 0.00000000192);
    let r = a.add(uf(0.0, 0.0), &fpu);
    assert!(close(value(r), 9983838884.838, 1e-9));
    assert!(close(spread(r), 0.00000000192, 1e-9));
    let b = uf(-4.5, 0.25);
    let r = b.add(UncertainFloat::zero(), &fpu);
    assert_eq!(value(r), -4.5);
    assert_eq!(spread(r), 0.25);
}

#[test]
fn product_and_quotient_combine_relative_uncertainties() {
    let a = uf(1.0, 0.1);
    let b = uf(2.0, 0.2);
    let product = a.mul(b, &fpu);
    assert_eq!(value(product), 2.0);
    assert!(close(spread(product), 0.282842712474619, 1e-12));
    let quotient = a.div(b, &fpu);
    assert_eq!(value(quotient), 0.5);
    assert!(close(spread(quotient), 0.0707106781186548, 1e-12));
    let expected = ((0.1f64 / 1.0).powi(2) + (0.2f64 / 2.0).powi(2)).sqrt() * 0.5;
    assert_eq!(spread(quotient), expected);
}

#[test]
fn product_with_zero_estimate_is_not_a_number() {
    let r = uf(0.0, 0.0).mul(uf(2.0, 0.2), &fpu);
    assert_eq!(value(r), 0.0);
    assert!(spread(r).is_nan());
    let r = uf(1.0, 0.1).div(uf(0.0, 0.1), &fpu);
    assert!(value(r).is_infinite());
}

#[test]
fn negation_keeps_the_uncertainty() {
    let r = uf(1.5, 0.25).neg();
    assert_eq!(value(r), -1.5);
    assert_eq!(spread(r), 0.25);
    let r = uf(0.0, 0.5).neg();
    assert!(value(r) == 0.0 && value(r).is_sign_negative());
    let r = UncertainFloat::new(0x7ff8_0000_0000_0000, 0).neg();
    assert_eq!(r.value, 0xfff8_0000_0000_0000);
}

#[test]
fn remainder_is_zero_whatever_the_operands() {
    let r = uf(7.5, 0.1).rem(uf(2.0, 0.3));
    assert_eq!(r.value, 0);
    assert_eq!(r.uncertainty, 0);
    let r = uf(f64::NAN, 1.0).rem(uf(0.0, 0.0));
    assert_eq!(r.value, 0);
    assert_eq!(r.uncertainty, 0);
}

#[test]
fn max_takes_the_larger_estimate() {
    let a = uf(3.0, 0.1);
    let b = uf(2.0, 0.7);
    let r = a.max(b, &fpu);
    assert_eq!((value(r), spread(r)), (3.0, 0.1));
    let r = b.max(a, &fpu);
    assert_eq!((value(r), spread(r)), (3.0, 0.1));
    let r = uf(-1.0, 0.5).max(uf(-0.5, 0.25), &fpu);
    assert_eq!((value(r), spread(r)), (-0.5, 0.25));
}

#[test]
fn min_takes_the_smaller_estimate() {
    let a = uf(3.0, 0.1);
    let b = uf(2.0, 0.7);
    let r = a.min(b, &fpu);
    assert_eq!((value(r), spread(r)), (2.0, 0.7));
    let r = b.min(a, &fpu);
    assert_eq!((value(r), spread(r)), (2.0, 0.7));
    let r = uf(-1.0, 0.5).min(uf(-0.5, 0.25), &fpu);
    assert_eq!((value(r), spread(r)), (-1.0, 0.5));
}

#[test]
fn max_and_min_of_equal_estimates_combine_in_quadrature() {
    let a = uf(2.0, 0.1);
    let b = uf(2.0, 0.3);
    let r = a.max(b, &fpu);
    assert_eq!(value(r), 2.0);
    assert!(close(spread(r), 0.316227766, 1e-9));
    let r = a.min(b, &fpu);
    assert_eq!(value(r), 2.0);
    assert!(close(spread(r), 0.316227766, 1e-9));
    assert_eq!(spread(r), (0.1f64.powi(2) + 0.3f64.powi(2)).sqrt());
}

#[test]
fn max_of_the_two_zeros_is_a_tie() {
    let r = uf(0.0, 3.0).max(uf(-0.0, 4.0), &fpu);
    assert!(value(r) == 0.0 && value(r).is_sign_positive());
    assert_eq!(spread(r), 5.0);
    let r = uf(-0.0, 3.0).min(uf(0.0, 4.0), &fpu);
    assert!(value(r) == 0.0 && value(r).is_sign_negative());
    assert_eq!(spread(r), 5.0);
}

#[test]
fn max_and_min_with_a_nan_estimate_are_a_tie() {
    let r = uf(f64::NAN, 3.0).max(uf(1.0, 4.0), &fpu);
    assert!(value(r).is_nan());
    assert_eq!(spread(r), 5.0);
    let r = uf(1.0, 3.0).min(uf(f64::NAN, 4.0), &fpu);
    assert_eq!(value(r), 1.0);
    assert_eq!(spread(r), 5.0);
}

#[test]
fn abs_sub_is_the_signed_difference_with_added_uncertainties() {
    let r = uf(5.0, 0.25).abs_sub(uf(3.0, 0.5), &fpu);
    assert_eq!((value(r), spread(r)), (2.0, 0.75));
    let r = uf(3.0, 0.5).abs_sub(uf(5.0, 0.25), &fpu);
    assert_eq!((value(r), spread(r)), (-2.0, 0.75));
    let r = uf(3.0, 0.5).abs_sub(uf(3.0, 0.25), &fpu);
    assert_eq!((value(r), spread(r)), (0.0, 0.75));
    let r = uf(3.0, 0.1).abs_sub(uf(5.0, 0.2), &fpu);
    assert_eq!(value(r), -2.0);
    assert!(close(spread(r), 0.3, 1e-12));
    let quadrature = uf(3.0, 0.1).sub(uf(5.0, 0.2), &fpu);
    assert_eq!(value(quadrature), -2.0);
    assert!(spread(quadrature) < spread(r));
}

#[test]
fn two_point_apply_of_sine() {
    let x = uf(3.14, 0.01);
    let r = x.apply_with_finite_difference_approx(&|b: u64| num(b).sin().to_bits(), &fpu);
    assert_eq!(value(r), 3.14f64.sin());
    let h = 1e-9;
    let slope = ((3.14f64 + h).sin() - (3.14f64 - h).sin()) / (2.0 * h);
    assert_eq!(spread(r), 0.01 * slope.abs());
    assert!(close(spread(r), 0.01 * 3.14f64.cos().abs(), 1e-8));
}

#[test]
fn five_point_apply_of_sine() {
    let x = uf(3.14, 0.01);
    let r = x.apply_with_central_difference_approx_order_four(&|b: u64| num(b).sin().to_bits(), &fpu);
    assert_eq!(value(r), 3.14f64.sin());
    let h = 1e-6;
    let f = |t: f64| t.sin();
    let slope = (-f(3.14 + 2.0 * h) + 8.0 * f(3.14 + h) - 8.0 * f(3.14 - h) + f(3.14 - 2.0 * h))
        / (12.0 * h);
    assert_eq!(spread(r), 0.01 * slope.abs());
    assert!(close(spread(r), 0.01 * 3.14f64.cos().abs(), 1e-11));
}

#[test]
fn apply_is_the_five_point_strategy() {
    let x = uf(1.001, 0.00001);
    let ln = |b: u64| num(b).ln().to_bits();
    let by_name = x.apply_with_central_difference_approx_order_four(&ln, &fpu);
    let by_default = x.apply(&ln, &fpu);
    assert_eq!(by_default.value, by_name.value);
    assert_eq!(by_default.uncertainty, by_name.uncertainty);
    assert!(close(spread(by_default), 0.00001 / 1.001, 1e-12));
}

#[test]
fn apply_of_a_constant_function_has_no_uncertainty() {
    let x = uf(2.0, 0.5);
    let r = x.apply(&|_b: u64| 7.0f64.to_bits(), &fpu);
    assert_eq!(value(r), 7.0);
    assert_eq!(spread(r), 0.0);
    let r = x.apply_with_finite_difference_approx(&|_b: u64| 7.0f64.to_bits(), &fpu);
    assert_eq!(value(r), 7.0);
    assert_eq!(spread(r), 0.0);
}

#[test]
fn apply_of_a_falling_function_has_positive_uncertainty() {
    let x = uf(2.0, 0.5);
    let r = x.apply(&|b: u64| (-3.0 * num(b)).to_bits(), &fpu);
    assert_eq!(value(r), -6.0);
    assert!(close(spread(r), 1.5, 1e-9));
    let r = x.apply_with_finite_difference_approx(&|b: u64| (-3.0 * num(b)).to_bits(), &fpu);
    assert!(close(spread(r), 1.5, 1e-6));
}

#[test]
fn logarithm_then_exponential_recovers_the_estimate() {
    let x = uf(1.001, 0.00001);
    let ln = |b: u64| num(b).ln().to_bits();
    let exp = |b: u64| num(b).exp().to_bits();
    let back = x.apply(&ln, &fpu).apply(&exp, &fpu);
    assert!(close(value(back), 1.001, 1e-4));
    assert!(close(spread(back), 0.00001, 1e-4));
}

#[test]
fn both_strategies_agree_with_the_closed_form_for_sine() {
    let sin = |b: u64| num(b).sin().to_bits();
    for x in [0.3, 1.0, 2.0, 3.14, -1.2] {
        let input = uf(x, 0.001);
        let exact = input.sin(&fpu);
        let two = input.apply_with_finite_difference_approx(&sin, &fpu);
        let five = input.apply_with_central_difference_approx_order_four(&sin, &fpu);
        assert_eq!(two.value, exact.value);
        assert_eq!(five.value, exact.value);
        assert!(close(spread(two), spread(exact), 1e-9));
        assert!(close(spread(five), spread(exact), 1e-12));
    }
}

#[test]
fn a_function_that_is_not_defined_gives_nan() {
    let x = uf(-1.0, 0.1);
    let r = x.apply(&|b: u64| num(b).sqrt().to_bits(), &fpu);
    assert!(value(r).is_nan());
    assert!(spread(r).is_nan());
}
