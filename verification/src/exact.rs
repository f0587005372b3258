//! The number that a double stands for, exactly.
//!
//! A double that is not a NaN is its sign times its significand times a power
//! of two. The exponent is never below -1075, so the number times two to the
//! power of 1075 is an integer: the `weight` of the double, with its sign the
//! `scaled` value. Order and truncation of doubles are stated over these
//! integers, and the executable code is proved against them.
use crate::binary64;
use crate::binary64::{
    below, biased_exponent, fraction, magnitude, nan, negative, rank, same, HIDDEN_BIT, INFINITY,
    SIGN_BIT,
};
use vstd::arithmetic::div_mod::{
    lemma_basic_div, lemma_div_by_multiple, lemma_div_is_ordered,
    lemma_div_multiples_vanish_quotient,
};
use vstd::arithmetic::power2::{
    lemma2_to64, lemma2_to64_rest, lemma_pow2_adds, lemma_pow2_pos, lemma_pow2_strictly_increases,
    pow2,
};
use vstd::bits::{lemma_u64_shl_is_mul, lemma_u64_shr_is_div};
use vstd::prelude::*;

verus! {

/// The exponent of the unit in which `weight` counts: doubles are whole
/// multiples of two to the power of `-SCALE`.
pub const SCALE: u64 = 1075;

/// The biased exponent of the number 1.
pub const BIAS: u64 = 1023;

/// The significand of `b` as an integer: the fraction with the hidden bit
/// where the exponent bits are not all zero, and twice the fraction where they
/// are.
pub open spec fn significand(b: u64) -> nat {
    if biased_exponent(b) == 0 {
        2 * fraction(b)
    } else {
        HIDDEN_BIT as nat + fraction(b)
    }
}

/// The power of two by which the significand of `b` is multiplied.
pub open spec fn exponent(b: u64) -> int {
    biased_exponent(b) - SCALE
}

/// The magnitude of the number `b`, counted in units of two to the power of
/// `-SCALE`.
pub open spec fn weight(b: u64) -> nat {
    significand(b) * pow2(biased_exponent(b))
}

/// The number `b`, counted in units of two to the power of `-SCALE`.
pub open spec fn scaled(b: u64) -> int {
    if negative(b) {
        -(weight(b) as int)
    } else {
        weight(b) as int
    }
}

/// The number `b` without what follows the point; 0 where `b` is a NaN.
pub open spec fn integer_part(b: u64) -> int {
    if nan(b) {
        0
    } else if negative(b) {
        -((weight(b) / pow2(SCALE as nat)) as int)
    } else {
        (weight(b) / pow2(SCALE as nat)) as int
    }
}

/// `x`, or the nearer of the two bounds where `x` is outside them.
pub open spec fn clamp(x: int, low: int, high: int) -> int {
    if x < low {
        low
    } else if x > high {
        high
    } else {
        x
    }
}

/// A product grows with either factor.
proof fn lemma_product_bounds(low: nat, s: nat, high: nat, p: nat)
    requires
        low <= s < high,
        p > 0,
    ensures
        low * p <= s * p < high * p,
{
    assert(low * p <= s * p) by (nonlinear_arith)
        requires
            low <= s,
            p > 0,
    ;
    assert(s * p < high * p) by (nonlinear_arith)
        requires
            s < high,
            p > 0,
    ;
}

/// The weight of a double lies between the powers of two that its exponent
/// bits name.
pub proof fn lemma_weight_bounds(b: u64)
    ensures
        biased_exponent(b) == 0 ==> weight(b) < pow2(53),
        biased_exponent(b) >= 1 ==> pow2(52 + biased_exponent(b)) <= weight(b) < pow2(
            53 + biased_exponent(b),
        ),
{
    lemma2_to64();
    lemma2_to64_rest();
    let e = biased_exponent(b);
    lemma_pow2_pos(e);
    if e == 0 {
        assert(weight(b) == 2 * fraction(b) * 1);
    } else {
        lemma_pow2_adds(52, e);
        lemma_pow2_adds(53, e);
        lemma_product_bounds(pow2(52), significand(b), pow2(53), pow2(e));
    }
}

/// Doubles are laid out in the order of their magnitudes: the pattern of the
/// larger magnitude is the larger integer.
pub proof fn lemma_magnitude_orders_weight(a: u64, b: u64)
    ensures
        magnitude(a) < magnitude(b) <==> weight(a) < weight(b),
        magnitude(a) == magnitude(b) <==> weight(a) == weight(b),
{
    lemma_weight_bounds(a);
    lemma_weight_bounds(b);
    let ea = biased_exponent(a);
    let eb = biased_exponent(b);
    if ea == eb {
        lemma_pow2_pos(ea);
        let p = pow2(ea);
        let sa = significand(a);
        let sb = significand(b);
        if sa < sb {
            lemma_product_bounds(sa, sa, sb, p);
        } else if sb < sa {
            lemma_product_bounds(sb, sb, sa, p);
        }
    } else if ea < eb {
        if ea == 0 {
            if eb > 1 {
                lemma_pow2_strictly_increases(53, 52 + eb);
            }
        } else {
            if 53 + ea < 52 + eb {
                lemma_pow2_strictly_increases(53 + ea, 52 + eb);
            }
        }
        assert(weight(a) < weight(b));
        assert(magnitude(a) < magnitude(b));
    } else {
        if eb == 0 {
            if ea > 1 {
                lemma_pow2_strictly_increases(53, 52 + ea);
            }
        } else {
            if 53 + eb < 52 + ea {
                lemma_pow2_strictly_increases(53 + eb, 52 + ea);
            }
        }
        assert(weight(b) < weight(a));
        assert(magnitude(b) < magnitude(a));
    }
}

/// The rank of a double orders doubles as the numbers they stand for are
/// ordered.
pub proof fn lemma_rank_orders_numbers(a: u64, b: u64)
    ensures
        rank(a) < rank(b) <==> scaled(a) < scaled(b),
        rank(a) == rank(b) <==> scaled(a) == scaled(b),
{
    lemma_magnitude_orders_weight(a, b);
    lemma_magnitude_orders_weight(a, 0);
    lemma_magnitude_orders_weight(b, 0);
    assert(weight(0) == 0) by {
        lemma_pow2_pos(0);
        assert(biased_exponent(0) == 0);
        assert(fraction(0) == 0);
    }
}

/// The comparisons of doubles are the comparisons of the numbers they stand
/// for: an infinity counts as the number that its pattern would encode, which
/// is beyond every finite double.
pub proof fn lemma_comparisons_are_numeric(a: u64, b: u64)
    ensures
        below(a, b) <==> !nan(a) && !nan(b) && scaled(a) < scaled(b),
        same(a, b) <==> !nan(a) && !nan(b) && scaled(a) == scaled(b),
{
    lemma_rank_orders_numbers(a, b);
}

/// The significand, a power of two and a sign, whose product is the number
/// `b`: the sign is 1 or -1, and the number is
/// `sign * significand * 2^exponent`. An infinity or a NaN is decoded like
/// any other pattern.
pub fn integer_decode(b: u64) -> (r: (u64, i16, i8))
    ensures
        r.0 == significand(b),
        r.1 == exponent(b),
        r.2 == if negative(b) {
            -1int
        } else {
            1int
        },
{
    let m = binary64::abs(b);
    let e = m / HIDDEN_BIT;
    let f = m % HIDDEN_BIT;
    let mantissa = if e == 0 {
        2 * f
    } else {
        HIDDEN_BIT + f
    };
    let power: i16 = e as i16 - 1075;
    let sign: i8 = if b >= SIGN_BIT {
        -1
    } else {
        1
    };
    (mantissa, power, sign)
}

/// The integer part of the magnitude of a double that is at least 1 and
/// below two to the power of 64.
fn whole_magnitude(b: u64) -> (q: u64)
    requires
        BIAS <= biased_exponent(b) < BIAS + 64,
    ensures
        q == weight(b) / pow2(SCALE as nat),
        biased_exponent(b) < BIAS + 63 ==> q < 0x8000_0000_0000_0000,
{
    let m = binary64::abs(b);
    let e = m / HIDDEN_BIT;
    let s = HIDDEN_BIT + m % HIDDEN_BIT;
    proof {
        lemma2_to64();
        lemma2_to64_rest();
        lemma_pow2_pos(e as nat);
        lemma_pow2_pos(SCALE as nat);
    }
    if e >= SCALE {
        let k = e - SCALE;
        proof {
            let p = pow2(k as nat);
            lemma_pow2_pos(k as nat);
            lemma_pow2_adds(k as nat, SCALE as nat);
            if k < 11 {
                lemma_pow2_strictly_increases(k as nat, 11);
            }
            if k < 10 {
                lemma_pow2_strictly_increases(k as nat, 10);
            }
            assert(s * p <= s * 2048 && (k <= 10 ==> s * p <= s * 1024)) by (nonlinear_arith)
                requires
                    0 < p <= 2048,
                    k <= 10 ==> p <= 1024,
            ;
            lemma_u64_shl_is_mul(s, k);
            assert(weight(b) == (s * p) * pow2(SCALE as nat)) by (nonlinear_arith)
                requires
                    weight(b) == s * (p * pow2(SCALE as nat)),
            ;
            lemma_div_by_multiple((s * p) as int, pow2(SCALE as nat) as int);
        }
        s << k
    } else {
        let k = SCALE - e;
        proof {
            lemma_pow2_pos(k as nat);
            lemma_pow2_adds(k as nat, e as nat);
            lemma_u64_shr_is_div(s, k);
            assert(weight(b) == pow2(e as nat) * s) by (nonlinear_arith)
                requires
                    weight(b) == s * pow2(e as nat),
            ;
            assert(pow2(SCALE as nat) == pow2(e as nat) * pow2(k as nat)) by (nonlinear_arith)
                requires
                    pow2(SCALE as nat) == pow2(k as nat) * pow2(e as nat),
            ;
            lemma_div_multiples_vanish_quotient(
                pow2(e as nat) as int,
                s as int,
                pow2(k as nat) as int,
            );
        }
        s >> k
    }
}

/// A double below 1 in magnitude has no integer part.
proof fn lemma_fraction_only(b: u64)
    requires
        biased_exponent(b) < BIAS,
    ensures
        weight(b) / pow2(SCALE as nat) == 0,
{
    let e = biased_exponent(b);
    lemma_weight_bounds(b);
    if e == 0 {
        lemma_pow2_strictly_increases(53, SCALE as nat);
    } else if 53 + e < SCALE {
        lemma_pow2_strictly_increases(53 + e, SCALE as nat);
    }
    lemma_basic_div(weight(b) as int, pow2(SCALE as nat) as int);
}

/// A double whose exponent bits are `BIAS + n` or more is at least two to the
/// power of `n` in magnitude.
proof fn lemma_at_least_power(b: u64, n: nat)
    requires
        biased_exponent(b) >= BIAS + n,
    ensures
        weight(b) / pow2(SCALE as nat) >= pow2(n),
{
    let e = biased_exponent(b);
    lemma_weight_bounds(b);
    lemma_pow2_pos(SCALE as nat);
    lemma_pow2_adds(n, SCALE as nat);
    if 52 + e > n + SCALE {
        lemma_pow2_strictly_increases(n + SCALE as nat, 52 + e);
    }
    lemma_div_is_ordered(
        pow2(n + SCALE as nat) as int,
        weight(b) as int,
        pow2(SCALE as nat) as int,
    );
    lemma_div_by_multiple(pow2(n) as int, pow2(SCALE as nat) as int);
}

/// The double as a signed integer: what follows the point is dropped, a
/// number beyond the range of the type becomes the nearest bound, and a NaN
/// becomes 0.
pub fn to_i64(b: u64) -> (r: i64)
    ensures
        r == clamp(integer_part(b), i64::MIN as int, i64::MAX as int),
{
    let m = binary64::abs(b);
    let e = m / HIDDEN_BIT;
    if m > INFINITY {
        0
    } else if e < BIAS {
        proof {
            lemma_fraction_only(b);
        }
        0
    } else if e >= BIAS + 63 {
        proof {
            lemma_at_least_power(b, 63);
            lemma2_to64_rest();
        }
        if b >= SIGN_BIT {
            i64::MIN
        } else {
            i64::MAX
        }
    } else {
        let q = whole_magnitude(b);
        if b >= SIGN_BIT {
            -(q as i64)
        } else {
            q as i64
        }
    }
}

/// The double as an unsigned integer: what follows the point is dropped, a
/// negative number becomes 0, a number beyond the range of the type becomes
/// the upper bound, and a NaN becomes 0.
pub fn to_u64(b: u64) -> (r: u64)
    ensures
        r == clamp(integer_part(b), 0, u64::MAX as int),
{
    let m = binary64::abs(b);
    let e = m / HIDDEN_BIT;
    if m > INFINITY || b >= SIGN_BIT {
        proof {
            lemma_pow2_pos(SCALE as nat);
        }
        0
    } else if e < BIAS {
        proof {
            lemma_fraction_only(b);
        }
        0
    } else if e >= BIAS + 64 {
        proof {
            lemma_at_least_power(b, 64);
            lemma2_to64();
        }
        u64::MAX
    } else {
        whole_magnitude(b)
    }
}

/// The double `r` is the integer `n`, and is positive zero where `n` is 0.
pub open spec fn is_integer(r: u64, n: int) -> bool {
    &&& !nan(r)
    &&& scaled(r) == n * pow2(SCALE as nat)
    &&& n == 0 ==> r == binary64::ZERO
}

/// One double at most is a given integer.
pub proof fn lemma_integer_is_unique(r1: u64, r2: u64, n: int)
    requires
        is_integer(r1, n),
        is_integer(r2, n),
    ensures
        r1 == r2,
{
    lemma_magnitude_orders_weight(r1, r2);
    lemma_pow2_pos(SCALE as nat);
    if n != 0 {
        let p = pow2(SCALE as nat);
        assert(n > 0 ==> n * p > 0) by (nonlinear_arith)
            requires
                p > 0,
        ;
        assert(n < 0 ==> n * p < 0) by (nonlinear_arith)
            requires
                p > 0,
        ;
    }
}

/// The double that is the integer `n`. Every `i32` is a double, so nothing
/// is rounded.
pub fn from_i32(n: i32) -> (r: u64)
    ensures
        is_integer(r, n as int),
{
    proof {
        lemma2_to64();
        lemma2_to64_rest();
    }
    if n == 0 {
        proof {
            lemma_pow2_pos(0);
            assert(biased_exponent(0) == 0 && fraction(0) == 0);
            assert(weight(0) == 0 * pow2(0));
        }
        return binary64::ZERO;
    }
    let m: u64 = if n < 0 {
        (-(n as i64)) as u64
    } else {
        n as u64
    };
    let mut k: u64 = 0;
    let mut top: u64 = 1;
    let mut unit: u64 = HIDDEN_BIT;
    while top * 2 <= m
        invariant
            1 <= m <= 0x8000_0000,
            k <= 31,
            top == pow2(k as nat),
            unit == pow2((52 - k) as nat),
            top <= m,
        decreases 32 - k,
    {
        proof {
            lemma2_to64();
            lemma_pow2_adds(k as nat, 1);
            lemma_pow2_adds((51 - k) as nat, 1);
        }
        top = top * 2;
        unit = unit / 2;
        k = k + 1;
    }
    proof {
        lemma_pow2_adds(k as nat, (52 - k) as nat);
        lemma_pow2_strictly_increases((52 - k) as nat, 53);
        lemma_product_bounds(top as nat, m as nat, (2 * top) as nat, unit as nat);
        assert((2 * top) * unit == 2 * (top * unit)) by (nonlinear_arith);
    }
    let significand: u64 = m * unit;
    let bits: u64 = (BIAS + k) * HIDDEN_BIT + (significand - HIDDEN_BIT);
    proof {
        let e = (BIAS + k) as nat;
        assert(bits / HIDDEN_BIT == e && bits % HIDDEN_BIT == significand - HIDDEN_BIT) by {
            vstd::arithmetic::div_mod::lemma_fundamental_div_mod_converse(
                bits as int,
                HIDDEN_BIT as int,
                e as int,
                (significand - HIDDEN_BIT) as int,
            );
        }
        assert(magnitude(bits) == bits);
        lemma_pow2_adds((52 - k) as nat, e);
        assert(weight(bits) == m * pow2(SCALE as nat)) by (nonlinear_arith)
            requires
                weight(bits) == (m * unit) * pow2(e),
                pow2(SCALE as nat) == unit * pow2(e),
        ;
    }
    if n < 0 {
        proof {
            let p = pow2(SCALE as nat);
            assert(-(m * p) == n * p) by (nonlinear_arith)
                requires
                    m == -n,
            ;
        }
        bits + SIGN_BIT
    } else {
        bits
    }
}

} // verus!
