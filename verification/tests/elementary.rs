use uncertainty::fpu::Op;
use uncertainty::uncertain_float::UncertainFloat;

fn num(bits: u64) -> f64 {
    f64::from_bits(bits)
}

fn fpu(op: Op) -> u64 {
    let r = match op {
        Op::Add(x, y) => num(x) + num(y),
        Op::Sub(x, y) => num(x) - num(y),
        Op::Mul(x, y) => num(x) * num(y),
        Op::Div(x, y) => num(x) / num(y),
        Op::MulAdd(x, y, z) => num(x).mul_add(num(y), num(z)),
        Op::Recip(x) => num(x).recip(),
        Op::Powi(x, n) => num(x).powi(n),
        Op::Powf(x, y) => num(x).powf(num(y)),
        Op::Sqrt(x) => num(x).sqrt(),
        Op::Cbrt(x) => num(x).cbrt(),
        Op::Hypot(x, y) => num(x).hypot(num(y)),
        Op::Exp(x) => num(x).exp(),
        Op::Exp2(x) => num(x).exp2(),
        Op::ExpM1(x) => num(x).exp_m1(),
        Op::Ln(x) => num(x).ln(),
        Op::Ln1p(x) => num(x).ln_1p(),
        Op::Log(x, y) => num(x).log(num(y)),
        Op::Log2(x) => num(x).log2(),
        Op::Log10(x) => num(x).log10(),
        Op::Sin(x) => num(x).sin(),
        Op::Cos(x) => num(x).cos(),
        Op::Tan(x) => num(x).tan(),
        Op::Asin(x) => num(x).asin(),
        Op::Acos(x) => num(x).acos(),
        Op::Atan(x) => num(x).atan(),
        Op::Atan2(x, y) => num(x).atan2(num(y)),
        Op::Sinh(x) => num(x).sinh(),
        Op::Cosh(x) => num(x).cosh(),
        Op::Tanh(x) => num(x).tanh(),
        Op::Asinh(x) => num(x).asinh(),
        Op::Acosh(x) => num(x).acosh(),
        Op::Atanh(x) => num(x).atanh(),
        Op::Signum(x) => num(x).signum(),
        Op::Floor(x) => num(x).floor(),
        Op::Ceil(x) => num(x).ceil(),
        Op::Round(x) => num(x).round(),
        Op::Trunc(x) => num(x).trunc(),
        Op::Fract(x) => num(x).fract(),
    };
    r.to_bits()
}

fn uf(value: f64, uncertainty: f64) -> UncertainFloat {
    UncertainFloat::new(value.to_bits(), uncertainty.to_bits())
}

fn value(x: UncertainFloat) -> f64 {
    num(x.value)
}

fn spread(x: UncertainFloat) -> f64 {
    num(x.uncertainty)
}

fn close(a: f64, b: f64, epsilon: f64) -> bool {
    (a - b).abs() < epsilon
}

#[test]
fn rounding_functions_drop_the_uncertainty() {
    let x = uf(-2.75, 0.5);
    assert_eq!((value(x.floor(&fpu)), x.floor(&fpu).uncertainty), (-3.0, 0));
    assert_eq!((value(x.ceil(&fpu)), x.ceil(&fpu).uncertainty), (-2.0, 0));
    assert_eq!((value(x.round(&fpu)), x.round(&fpu).uncertainty), (-3.0, 0));
    assert_eq!((value(x.trunc(&fpu)), x.trunc(&fpu).uncertainty), (-2.0, 0));
    assert_eq!((value(x.fract(&fpu)), x.fract(&fpu).uncertainty), (-0.75, 0));
    assert_eq!((value(x.signum(&fpu)), x.signum(&fpu).uncertainty), (-1.0, 0));
    let half = uf(2.5, 0.5);
    assert_eq!(value(half.round(&fpu)), 3.0);
    assert_eq!(value(uf(0.0, 0.5).signum(&fpu)), 1.0);
    assert!(value(uf(f64::NAN, 0.5).signum(&fpu)).is_nan());
}

#[test]
fn abs_keeps_the_uncertainty() {
    let r = uf(-2.75, 0.5).abs();
    assert_eq!((value(r), spread(r)), (2.75, 0.5));
    let r = uf(2.75, -0.5).abs();
    assert_eq!((value(r), spread(r)), (2.75, -0.5));
    let r = uf(-0.0, 0.1).abs();
    assert!(value(r).is_sign_positive());
}

#[test]
fn mul_add_is_exact() {
    let r = uf(2.0, 0.1).mul_add(uf(3.0, 0.2), uf(4.0, 0.3), &fpu);
    assert_eq!((value(r), r.uncertainty), (10.0, 0));
}

#[test]
fn recip_divides_by_the_square() {
    let r = uf(2.0, 0.1).recip(&fpu);
    assert_eq!(value(r), 0.5);
    assert_eq!(spread(r), 0.025);
    let r = uf(-4.0, 0.8).recip(&fpu);
    assert_eq!((value(r), spread(r)), (-0.25, 0.05));
}

#[test]
fn powi_scales_by_the_derivative() {
    let r = uf(2.0, 0.1).powi(3, &fpu);
    assert_eq!(value(r), 8.0);
    assert!(close(spread(r), 1.2, 1e-12));
    assert_eq!(spread(r), 0.1 * (3.0f64 * 2.0f64.powi(2)).abs());
    let r = uf(-2.0, 0.1).powi(2, &fpu);
    assert_eq!(value(r), 4.0);
    assert!(close(spread(r), 0.4, 1e-12));
    let r = uf(2.0, 0.1).powi(-1, &fpu);
    assert_eq!(value(r), 0.5);
    assert!(close(spread(r), 0.025, 1e-12));
    let r = uf(2.0, 0.1).powi(0, &fpu);
    assert_eq!((value(r), spread(r)), (1.0, 0.0));
}

#[test]
fn powf_scales_by_the_derivative() {
    let r = uf(4.0, 0.1).powf(uf(1.5, 0.0), &fpu);
    assert_eq!(value(r), 8.0);
    assert!(close(spread(r), 0.3, 1e-12));
    assert_eq!(spread(r), 0.1 * (1.5f64 * 4.0f64.powf(0.5)).abs());
    let r = uf(4.0, 0.1).powf(uf(-0.5, 7.0), &fpu);
    assert_eq!(value(r), 0.5);
    assert!(close(spread(r), 0.1 * 0.5 * 0.125, 1e-12));
}

#[test]
fn sqrt_divides_by_twice_the_root() {
    let r = uf(4.0, 0.1).sqrt(&fpu);
    assert_eq!((value(r), spread(r)), (2.0, 0.025));
    let r = uf(-4.0, 0.1).sqrt(&fpu);
    assert!(value(r).is_nan() && spread(r).is_nan());
}

#[test]
fn cbrt_divides_by_three_squares_of_the_root() {
    let r = uf(8.0, 0.3).cbrt(&fpu);
    assert_eq!(value(r), 2.0);
    assert!(close(spread(r), 0.025, 1e-12));
    assert_eq!(spread(r), 0.3 / (3.0 * 2.0f64.powi(2)));
    let r = uf(-27.0, 2.7).cbrt(&fpu);
    assert_eq!(value(r), -3.0);
    assert!(close(spread(r), 0.1, 1e-12));
}

#[test]
fn exponentials_scale_by_their_derivative() {
    let r = uf(0.0, 0.1).exp(&fpu);
    assert_eq!((value(r), spread(r)), (1.0, 0.1));
    let r = uf(1.0, 0.1).exp(&fpu);
    assert_eq!(value(r), 1.0f64.exp());
    assert!(close(spread(r), 0.271828182845905, 1e-12));
    let r = uf(3.0, 0.1).exp2(&fpu);
    assert_eq!(value(r), 8.0);
    assert!(close(spread(r), 0.554517744447956, 1e-12));
    assert_eq!(spread(r), 0.1 * 8.0 * std::f64::consts::LN_2);
    let r = uf(1.0, 0.1).exp_m1(&fpu);
    assert_eq!(value(r), 1.0f64.exp_m1());
    assert_eq!(spread(r), 0.1 * 1.0f64.exp());
}

#[test]
fn logarithms_divide_by_the_magnitude() {
    let r = uf(2.0, 0.1).ln(&fpu);
    assert_eq!(value(r), 2.0f64.ln());
    assert_eq!(spread(r), 0.05);
    let r = uf(-2.0, 0.1).ln(&fpu);
    assert!(value(r).is_nan());
    assert_eq!(spread(r), 0.05);
    let r = uf(1.0, 0.1).ln_1p(&fpu);
    assert_eq!(value(r), 1.0f64.ln_1p());
    assert_eq!(spread(r), 0.05);
    let r = uf(-3.0, 0.1).ln_1p(&fpu);
    assert_eq!(spread(r), 0.05);
    let r = uf(8.0, 0.1).log(uf(2.0, 0.0), &fpu);
    assert_eq!(value(r), 8.0f64.log(2.0));
    assert_eq!(spread(r), 0.1 / (8.0 * 2.0f64.ln()));
    assert!(close(spread(r), 0.0180336880111120, 1e-12));
    let r = uf(8.0, 0.1).log(uf(0.5, 0.0), &fpu);
    assert!(close(value(r), -3.0, 1e-12));
    assert!(close(spread(r), 0.0180336880111120, 1e-12));
    let r = uf(8.0, 0.1).log2(&fpu);
    assert_eq!(value(r), 3.0);
    assert_eq!(spread(r), 0.1 / (8.0 * std::f64::consts::LN_2));
    let r = uf(100.0, 0.1).log10(&fpu);
    assert_eq!(value(r), 2.0);
    assert_eq!(spread(r), 0.1 / (100.0 * std::f64::consts::LN_10));
    assert!(close(spread(r), 0.000434294481903252, 1e-15));
}

#[test]
fn hypot_combines_in_quadrature() {
    let r = uf(3.0, 0.3).hypot(uf(4.0, 0.4), &fpu);
    assert_eq!(value(r), 5.0);
    assert_eq!(spread(r), (0.3f64.powi(2) + 0.4f64.powi(2)).sqrt());
    assert!(close(spread(r), 0.5, 1e-12));
}

#[test]
fn trigonometric_functions_scale_by_the_magnitude_of_the_derivative() {
    let r = uf(1.0, 0.1).sin(&fpu);
    assert_eq!(value(r), 1.0f64.sin());
    assert_eq!(spread(r), 0.1 * 1.0f64.cos());
    assert!(close(spread(r), 0.0540302305868140, 1e-12));
    let r = uf(3.14, 0.01).sin(&fpu);
    assert!(close(spread(r), 0.00999998731727540, 1e-12));
    let r = uf(1.0, 0.1).cos(&fpu);
    assert_eq!(value(r), 1.0f64.cos());
    assert_eq!(spread(r), 0.1 * 1.0f64.sin());
    let r = uf(-1.0, 0.1).cos(&fpu);
    assert_eq!(spread(r), 0.1 * 1.0f64.sin());
    let r = uf(1.0, 0.1).tan(&fpu);
    assert_eq!(value(r), 1.0f64.tan());
    assert_eq!(spread(r), 0.1 * (1.0 + 1.0f64.tan().powi(2)));
    assert!(close(spread(r), 0.342551882081476, 1e-12));
}

#[test]
fn sin_cos_gives_both() {
    let (s, c) = uf(2.0, 0.1).sin_cos(&fpu);
    assert_eq!(value(s), 2.0f64.sin());
    assert_eq!(value(c), 2.0f64.cos());
    assert_eq!(spread(s), 0.1 * 2.0f64.cos().abs());
    assert_eq!(spread(c), 0.1 * 2.0f64.sin().abs());
    let alone = uf(2.0, 0.1).sin(&fpu);
    assert_eq!(s.value, alone.value);
    assert_eq!(s.uncertainty, alone.uncertainty);
    let alone = uf(2.0, 0.1).cos(&fpu);
    assert_eq!(c.value, alone.value);
    assert_eq!(c.uncertainty, alone.uncertainty);
}

#[test]
fn inverse_trigonometric_functions() {
    let r = uf(0.5, 0.1).asin(&fpu);
    assert_eq!(value(r), 0.5f64.asin());
    assert_eq!(spread(r), 0.1 / (1.0 - 0.25f64).sqrt());
    assert!(close(spread(r), 0.115470053837925, 1e-12));
    let r = uf(0.5, 0.1).acos(&fpu);
    assert_eq!(value(r), 0.5f64.acos());
    assert_eq!(spread(r), 0.1 / (1.0 - 0.25f64).sqrt());
    let r = uf(2.0, 0.1).asin(&fpu);
    assert!(value(r).is_nan() && spread(r).is_nan());
    let r = uf(1.0, 0.1).atan(&fpu);
    assert_eq!(value(r), 1.0f64.atan());
    assert_eq!(spread(r), 0.05);
    let r = uf(1.0, 0.3).atan2(uf(1.0, 0.4), &fpu);
    assert_eq!(value(r), 1.0f64.atan2(1.0));
    assert!(close(spread(r), 0.25, 1e-12));
    let r = uf(1.0, 0.3).atan2(uf(-2.0, 0.4), &fpu);
    assert_eq!(value(r), 1.0f64.atan2(-2.0));
    assert!(close(spread(r), 0.1, 1e-12));
}

#[test]
fn hyperbolic_functions() {
    let r = uf(1.0, 0.1).sinh(&fpu);
    assert_eq!(value(r), 1.0f64.sinh());
    assert_eq!(spread(r), 0.1 * 1.0f64.cosh());
    let r = uf(-1.0, 0.1).cosh(&fpu);
    assert_eq!(value(r), 1.0f64.cosh());
    assert_eq!(spread(r), 0.1 * 1.0f64.sinh());
    assert!(close(spread(r), 0.117520119364380, 1e-12));
    let r = uf(1.0, 0.1).tanh(&fpu);
    assert_eq!(value(r), 1.0f64.tanh());
    assert_eq!(spread(r), 0.1 * (1.0 - 1.0f64.tanh().powi(2)));
    assert!(close(spread(r), 0.0419974341614026, 1e-12));
    let r = uf(1.0, 0.1).asinh(&fpu);
    assert_eq!(value(r), 1.0f64.asinh());
    assert_eq!(spread(r), 0.1 / 2.0f64.sqrt());
    let r = uf(2.0, 0.1).acosh(&fpu);
    assert_eq!(value(r), 2.0f64.acosh());
    assert_eq!(spread(r), 0.1 / 3.0f64.sqrt());
    let r = uf(0.5, 0.1).atanh(&fpu);
    assert_eq!(value(r), 0.5f64.atanh());
    assert_eq!(spread(r), 0.1 / 0.75);
    let r = uf(2.0, 0.3).atanh(&fpu);
    assert!(value(r).is_nan());
    assert_eq!(spread(r), 0.3 / 3.0);
}

#[test]
fn exact_input_gives_exact_output() {
    let x = uf(0.5, 0.0);
    let y = uf(1.5, 0.0);
    let results = vec![
        x.recip(&fpu),
        x.powi(3, &fpu),
        x.powf(y, &fpu),
        x.sqrt(&fpu),
        x.cbrt(&fpu),
        x.exp(&fpu),
        x.exp2(&fpu),
        x.exp_m1(&fpu),
        x.ln(&fpu),
        x.ln_1p(&fpu),
        x.log(y, &fpu),
        x.log2(&fpu),
        x.log10(&fpu),
        x.sin(&fpu),
        x.cos(&fpu),
        x.tan(&fpu),
        x.asin(&fpu),
        x.acos(&fpu),
        x.atan(&fpu),
        x.atan2(y, &fpu),
        x.sin_cos(&fpu).0,
        x.sin_cos(&fpu).1,
        x.sinh(&fpu),
        x.cosh(&fpu),
        x.tanh(&fpu),
        x.asinh(&fpu),
        y.acosh(&fpu),
        x.atanh(&fpu),
        x.hypot(y, &fpu),
        x.abs(),
        x.floor(&fpu),
        x.max(y, &fpu),
        x.min(y, &fpu),
        x.abs_sub(y, &fpu),
    ];
    for r in results {
        assert!(value(r).is_finite());
        assert_eq!(spread(r), 0.0);
    }
}

#[test]
fn exact_input_where_the_derivative_is_not_finite() {
    let r = uf(0.0, 0.0).ln(&fpu);
    assert!(value(r).is_infinite());
    assert!(spread(r).is_nan());
    let r = uf(0.0, 0.0).sqrt(&fpu);
    assert_eq!(value(r), 0.0);
    assert!(spread(r).is_nan());
}
