//! The number that a pattern stands for.
//!
//! Every finite double is a whole multiple of the smallest positive one,
//! `2^-1074`. Counting in that unit makes the value of a pattern an integer
//! and the comparison of two values exact. This module says what that integer
//! is, proves that the order which [`Scalar`] decides on patterns is the
//! order of the values, and says when a pattern is the double nearest to a
//! fraction, which is what a decimal numeral in a rule means.

use vstd::prelude::*;
use vstd::arithmetic::mul::{lemma_mul_inequality, lemma_mul_strict_inequality};
use vstd::arithmetic::power2::{
    lemma_pow2_adds, lemma_pow2_pos, lemma_pow2_strictly_increases, lemma_pow2_unfold, pow2,
};
use crate::scalar::Scalar;

verus! {

/// `2^52`: how many patterns share one exponent.
pub const FRACTION_SPAN: u64 = 0x10_0000_0000_0000;

/// The size, in units of `2^-1074`, of the number whose pattern without the
/// sign is `magnitude`: the fraction bits alone while the exponent bits are
/// zero, else the fraction bits under a leading one, doubled once for every
/// exponent beyond the first.
pub open spec fn units(magnitude: int) -> int {
    let exponent = magnitude / (FRACTION_SPAN as int);
    let fraction = magnitude % (FRACTION_SPAN as int);
    if exponent == 0 {
        fraction
    } else {
        (FRACTION_SPAN + fraction) * pow2((exponent - 1) as nat)
    }
}

/// How far, in units of `2^-1074`, the number with pattern `magnitude` is
/// from the next larger one.
pub open spec fn step(magnitude: int) -> int {
    let exponent = magnitude / (FRACTION_SPAN as int);
    if exponent == 0 {
        1
    } else {
        pow2((exponent - 1) as nat) as int
    }
}

impl Scalar {
    /// The value of a finite number, in units of `2^-1074`.
    pub open spec fn value_in_units(self) -> int {
        if self.spec_is_sign_negative() {
            -units(self.magnitude())
        } else {
            units(self.magnitude())
        }
    }
}

/// How far the value of `x` is from the fraction `numerator / denominator`,
/// in units of `2^-1074` and scaled by the denominator.
pub open spec fn distance(x: Scalar, numerator: int, denominator: int) -> int {
    let d = x.value_in_units() * denominator - numerator * pow2(1074);
    if d < 0 {
        -d
    } else {
        d
    }
}

/// `x` is a double nearest to `numerator / denominator`: it is finite, and no
/// finite double is closer to the fraction.
pub open spec fn is_nearest_to(x: Scalar, numerator: int, denominator: int) -> bool {
    &&& x.spec_is_finite()
    &&& denominator > 0
    &&& forall|y: Scalar|
        y.spec_is_finite() ==> distance(x, numerator, denominator) <= #[trigger] distance(
            y,
            numerator,
            denominator,
        )
}

/// A larger pattern stands for a larger size.
pub proof fn lemma_units_increase(smaller: int, larger: int)
    requires
        0 <= smaller < larger,
    ensures
        0 <= units(smaller) < units(larger),
{
    let span = FRACTION_SPAN as int;
    let (e1, f1) = (smaller / span, smaller % span);
    let (e2, f2) = (larger / span, larger % span);
    assert(smaller == e1 * span + f1 && larger == e2 * span + f2);
    assert(e1 <= e2);
    if e1 > 0 {
        lemma_pow2_pos((e1 - 1) as nat);
        lemma_mul_strict_inequality(0, span + f1, pow2((e1 - 1) as nat) as int);
    }
    if e1 == e2 {
        if e1 > 0 {
            lemma_mul_strict_inequality(span + f1, span + f2, pow2((e1 - 1) as nat) as int);
        }
    } else {
        let top = pow2((e2 - 1) as nat) as int;
        lemma_pow2_pos((e2 - 1) as nat);
        lemma_mul_inequality(span, span + f2, top);
        lemma_mul_inequality(1, top, span);
        assert(span <= span * top) by (nonlinear_arith)
            requires
                1 * span <= top * span,
        ;
        if e1 > 0 {
            let low = pow2((e1 - 1) as nat) as int;
            lemma_mul_strict_inequality(span + f1, 2 * span, low);
            lemma_pow2_unfold(e1 as nat);
            assert((2 * span) * low == span * pow2(e1 as nat)) by (nonlinear_arith)
                requires
                    pow2(e1 as nat) == 2 * low,
            ;
            if e1 < e2 - 1 {
                lemma_pow2_strictly_increases(e1 as nat, (e2 - 1) as nat);
            }
            lemma_mul_inequality(pow2(e1 as nat) as int, top, span);
            assert(span * pow2(e1 as nat) <= span * top) by (nonlinear_arith)
                requires
                    pow2(e1 as nat) * span <= top * span,
            ;
        }
    }
}

/// The order that is decided on patterns is the order of the values: for
/// finite numbers `<`, `<=` and `==` hold of two patterns exactly when they
/// hold of the numbers that the patterns stand for.
pub proof fn lemma_order_is_numeric(a: Scalar, b: Scalar)
    requires
        a.spec_is_finite(),
        b.spec_is_finite(),
    ensures
        a.spec_lt(b) <==> a.value_in_units() < b.value_in_units(),
        a.spec_le(b) <==> a.value_in_units() <= b.value_in_units(),
        a.same_value(b) <==> a.value_in_units() == b.value_in_units(),
{
    let (ma, mb) = (a.magnitude(), b.magnitude());
    assert(units(0) == 0);
    if ma < mb {
        lemma_units_increase(ma, mb);
    }
    if mb < ma {
        lemma_units_increase(mb, ma);
    }
    if 0 < ma {
        lemma_units_increase(0, ma);
    }
    if 0 < mb {
        lemma_units_increase(0, mb);
    }
}

/// Clearing the sign bit gives the size of a number, and flipping it gives
/// the number of the same size on the other side of zero.
pub proof fn lemma_sign_bit_is_the_sign(x: Scalar)
    ensures
        x.spec_abs().value_in_units() == units(x.magnitude()),
        x.spec_abs().value_in_units() >= 0,
        x.spec_abs().value_in_units() == x.value_in_units() || x.spec_abs().value_in_units()
            == -x.value_in_units(),
        x.spec_neg().value_in_units() == -x.value_in_units(),
        x.spec_neg().spec_neg() == x,
        x.spec_abs().spec_abs() == x.spec_abs(),
{
    assert(units(0) == 0);
    if 0 < x.magnitude() {
        lemma_units_increase(0, x.magnitude());
    }
}

/// Every finite number is smaller than positive infinity and larger than
/// negative infinity.
pub proof fn lemma_infinities_bound(a: Scalar, infinity: Scalar)
    requires
        a.spec_is_finite(),
        infinity.spec_is_infinite(),
    ensures
        !infinity.spec_is_sign_negative() ==> a.spec_lt(infinity),
        infinity.spec_is_sign_negative() ==> infinity.spec_lt(a),
{
}

/// Within one exponent the next pattern stands for the number one step on.
pub proof fn lemma_next_is_one_step(magnitude: int)
    requires
        0 <= magnitude,
        (magnitude + 1) % (FRACTION_SPAN as int) != 0,
    ensures
        units(magnitude + 1) == units(magnitude) + step(magnitude),
        step(magnitude + 1) == step(magnitude),
        step(magnitude) > 0,
{
    let span = FRACTION_SPAN as int;
    let (e, f) = (magnitude / span, magnitude % span);
    assert(magnitude == e * span + f);
    assert((magnitude + 1) / span == e && (magnitude + 1) % span == f + 1);
    if e > 0 {
        let p = pow2((e - 1) as nat) as int;
        lemma_pow2_pos((e - 1) as nat);
        assert((span + (f + 1)) * p == (span + f) * p + p) by (nonlinear_arith);
    }
}

/// A positive number that lies inside its exponent's range and within half a
/// step of a fraction is a double nearest to that fraction.
pub proof fn lemma_within_half_step_is_nearest(x: Scalar, numerator: int, denominator: int)
    requires
        x.spec_is_finite(),
        !x.spec_is_sign_negative(),
        x.magnitude() % (FRACTION_SPAN as int) != 0,
        (x.magnitude() + 1) % (FRACTION_SPAN as int) != 0,
        denominator > 0,
        2 * distance(x, numerator, denominator) <= step(x.magnitude()) * denominator,
    ensures
        is_nearest_to(x, numerator, denominator),
{
    let m = x.magnitude();
    let vx = x.value_in_units();
    let target = numerator * pow2(1074);
    let dx = distance(x, numerator, denominator);
    let reach = step(m) * denominator;
    lemma_next_is_one_step(m);
    lemma_next_is_one_step(m - 1);
    assert(units(m + 1) == vx + step(m));
    assert(units(m - 1) == vx - step(m));
    assert forall|y: Scalar| y.spec_is_finite() implies dx <= #[trigger] distance(
        y,
        numerator,
        denominator,
    ) by {
        let vy = y.value_in_units();
        let my = y.magnitude();
        if y.spec_is_sign_negative() || my < m {
            // y lies below x, by a step or more
            assert(vy <= vx - step(m)) by {
                assert(units(0) == 0);
                if y.spec_is_sign_negative() {
                    if 0 < my {
                        lemma_units_increase(0, my);
                    }
                    if 0 < m - 1 {
                        lemma_units_increase(0, m - 1);
                    }
                } else if my < m - 1 {
                    lemma_units_increase(my, m - 1);
                }
            }
            assert(vy * denominator <= vx * denominator - reach) by (nonlinear_arith)
                requires
                    vy <= vx - step(m),
                    denominator > 0,
                    reach == step(m) * denominator,
            ;
        } else if my > m {
            assert(vy >= vx + step(m)) by {
                if my > m + 1 {
                    lemma_units_increase(m + 1, my);
                }
            }
            assert(vy * denominator >= vx * denominator + reach) by (nonlinear_arith)
                requires
                    vy >= vx + step(m),
                    denominator > 0,
                    reach == step(m) * denominator,
            ;
        }
    }
}

/// The same, with the half step checked on the fraction bits under their
/// leading one: a double `(2^52 + fraction) * 2^(exponent - 1)` units large
/// is within half a step of `numerator / denominator` if `2^52 + fraction` is
/// within one half of `numerator * 2^shift / denominator`, where `shift`
/// makes up for the exponent.
pub proof fn lemma_nearest_by_leading_bits(
    x: Scalar,
    numerator: int,
    denominator: int,
    shift: nat,
)
    requires
        x.spec_is_finite(),
        !x.spec_is_sign_negative(),
        x.magnitude() >= FRACTION_SPAN,
        x.magnitude() % (FRACTION_SPAN as int) != 0,
        (x.magnitude() + 1) % (FRACTION_SPAN as int) != 0,
        x.magnitude() / (FRACTION_SPAN as int) - 1 + shift == 1074,
        denominator > 0,
        ({
            let leading = FRACTION_SPAN + x.magnitude() % (FRACTION_SPAN as int);
            let off = leading * denominator - numerator * pow2(shift);
            -denominator <= 2 * off <= denominator
        }),
    ensures
        is_nearest_to(x, numerator, denominator),
{
    let span = FRACTION_SPAN as int;
    let m = x.magnitude();
    let e = m / span;
    let leading = span + m % span;
    let p = pow2((e - 1) as nat) as int;
    let k = pow2(shift) as int;
    let off = leading * denominator - numerator * k;
    lemma_pow2_pos((e - 1) as nat);
    lemma_pow2_adds(shift, (e - 1) as nat);
    assert(pow2(1074) == k * p);
    assert(x.value_in_units() == leading * p);
    assert(step(m) == p);
    let d = x.value_in_units() * denominator - numerator * pow2(1074);
    assert(d == off * p) by (nonlinear_arith)
        requires
            d == (leading * p) * denominator - numerator * (k * p),
            off == leading * denominator - numerator * k,
    ;
    assert(-(p * denominator) <= 2 * (off * p) <= p * denominator) by (nonlinear_arith)
        requires
            -denominator <= 2 * off <= denominator,
            p > 0,
    ;
    lemma_within_half_step_is_nearest(x, numerator, denominator);
}

/// Together with a double nearest to two fractions go all fractions between
/// the two: the double is nearest to each of them.
pub proof fn lemma_nearest_between(
    x: Scalar,
    low: int,
    high: int,
    numerator: int,
    denominator: int,
)
    requires
        is_nearest_to(x, low, denominator),
        is_nearest_to(x, high, denominator),
        low <= numerator <= high,
    ensures
        is_nearest_to(x, numerator, denominator),
{
    let t = pow2(1074) as int;
    lemma_pow2_pos(1074);
    assert(low * t <= numerator * t <= high * t) by (nonlinear_arith)
        requires
            low <= numerator <= high,
            t > 0,
    ;
    assert forall|y: Scalar| y.spec_is_finite() implies distance(x, numerator, denominator)
        <= #[trigger] distance(y, numerator, denominator) by {
        assert(distance(x, low, denominator) <= distance(y, low, denominator));
        assert(distance(x, high, denominator) <= distance(y, high, denominator));
    }
}

} // verus!
