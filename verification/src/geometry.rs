//! The decisions behind the summary of a triangle: when two lengths count as
//! equal, what kind of triangle the sides and the angles make, and the guards
//! that keep a rounded number inside the domain of the function it goes to.

use vstd::prelude::*;
use crate::scalar::{Scalar, ONE_BITS, SIGN_BIT};
use crate::value::{is_nearest_to, lemma_nearest_between, lemma_nearest_by_leading_bits};
use vstd::arithmetic::power2::{lemma2_to64, lemma2_to64_rest, lemma_pow2_adds, pow2};

verus! {

/// The pattern of `1e-9`: a difference of at most this size is none.
pub const ABSOLUTE_TOLERANCE_BITS: u64 = 0x3E11_2E0B_E826_D695;

/// The pattern of `1e-9`: the share of the larger of two numbers that they
/// may differ by.
pub const RELATIVE_TOLERANCE_BITS: u64 = 0x3E11_2E0B_E826_D695;

/// The pattern of the double nearest to a quarter turn, `π/2`.
pub const HALF_PI_BITS: u64 = 0x3FF9_21FB_5444_2D18;

/// Both tolerances are the double nearest to `10^-9`, one part in a thousand
/// million.
pub proof fn lemma_tolerances_are_a_thousand_millionth()
    ensures
        is_nearest_to(Scalar { bits: ABSOLUTE_TOLERANCE_BITS }, 1, 1_000_000_000),
        is_nearest_to(Scalar { bits: RELATIVE_TOLERANCE_BITS }, 1, 1_000_000_000),
{
    let x = Scalar { bits: ABSOLUTE_TOLERANCE_BITS };
    lemma2_to64();
    lemma_pow2_adds(64, 18);
    assert(pow2(82) == 0x4_0000_0000_0000_0000_0000int);
    lemma_nearest_by_leading_bits(x, 1, 1_000_000_000, 82);
}

/// The quarter turn is the double nearest to `π/2`: it is nearest to every
/// fraction from `1.5707963267948966192313216` to
/// `1.5707963267948966192313217`, and `π/2` is one of them.
pub proof fn lemma_quarter_turn_is_half_pi(numerator: int)
    requires
        15_707_963_267_948_966_192_313_216 <= numerator <= 15_707_963_267_948_966_192_313_217,
    ensures
        is_nearest_to(
            Scalar { bits: HALF_PI_BITS },
            numerator,
            10_000_000_000_000_000_000_000_000,
        ),
{
    let x = Scalar { bits: HALF_PI_BITS };
    let q = 10_000_000_000_000_000_000_000_000int;
    lemma2_to64_rest();
    assert(pow2(52) == 0x10_0000_0000_0000int);
    lemma_nearest_by_leading_bits(x, 15_707_963_267_948_966_192_313_216, q, 52);
    lemma_nearest_by_leading_bits(x, 15_707_963_267_948_966_192_313_217, q, 52);
    lemma_nearest_between(
        x,
        15_707_963_267_948_966_192_313_216,
        15_707_963_267_948_966_192_313_217,
        numerator,
        q,
    );
}

/// A triangle by the number of its equal sides.
#[derive(Debug, Copy, Clone, PartialEq, Eq, PartialOrd, Ord, Structural)]
pub enum SideClassification {
    Equilateral,
    Isosceles,
    Scalene,
}

/// A triangle by its largest angle.
#[derive(Debug, Copy, Clone, PartialEq, Eq, PartialOrd, Structural)]
pub enum AngleClassification {
    Acute,
    Right,
    Obtuse,
}

impl SideClassification {
    pub open spec fn spec_label(self) -> Seq<char> {
        match self {
            SideClassification::Equilateral => "Equilateral"@,
            SideClassification::Isosceles => "Isosceles"@,
            SideClassification::Scalene => "Scalene"@,
        }
    }

    /// The name of the class.
    pub fn label(&self) -> (r: &'static str)
        ensures
            r@ == self.spec_label(),
    {
        match self {
            SideClassification::Equilateral => "Equilateral",
            SideClassification::Isosceles => "Isosceles",
            SideClassification::Scalene => "Scalene",
        }
    }
}

impl AngleClassification {
    pub open spec fn spec_label(self) -> Seq<char> {
        match self {
            AngleClassification::Acute => "Acute"@,
            AngleClassification::Right => "Right"@,
            AngleClassification::Obtuse => "Obtuse"@,
        }
    }

    /// The name of the class.
    pub fn label(&self) -> (r: &'static str)
        ensures
            r@ == self.spec_label(),
    {
        match self {
            AngleClassification::Acute => "Acute",
            AngleClassification::Right => "Right",
            AngleClassification::Obtuse => "Obtuse",
        }
    }
}

/// How far apart two numbers `a` and `b` are, as the caller measured it.
#[derive(Debug, Clone, Copy)]
pub struct Gap {
    /// `a - b`
    pub difference: Scalar,
    /// The relative tolerance times [`tolerance_scale`] of `a` and `b`.
    pub allowance: Scalar,
}

/// The larger of the sizes of two numbers: what the relative tolerance is a
/// share of.
pub open spec fn spec_tolerance_scale(a: Scalar, b: Scalar) -> Scalar {
    a.spec_abs().spec_max(b.spec_abs())
}

/// Two numbers count as equal if they differ by no more than the absolute
/// tolerance, or by no more than the allowance that their size gives them.
pub open spec fn spec_approx_eq(gap: Gap) -> bool {
    let size = gap.difference.spec_abs();
    size.spec_le(Scalar { bits: ABSOLUTE_TOLERANCE_BITS }) || size.spec_le(gap.allowance)
}

/// The class that three answers to "are these two sides equal" give.
pub open spec fn side_class(ab: bool, bc: bool, ac: bool) -> SideClassification {
    if ab && bc && ac {
        SideClassification::Equilateral
    } else if ab || bc || ac {
        SideClassification::Isosceles
    } else {
        SideClassification::Scalene
    }
}

/// The class of three angles, given for each whether it counts as a quarter
/// turn. One that does makes the triangle right, even where the angle as a
/// number is a little over a quarter turn.
pub open spec fn angle_class(
    angle_a: Scalar,
    angle_b: Scalar,
    angle_c: Scalar,
    right_a: bool,
    right_b: bool,
    right_c: bool,
) -> AngleClassification {
    let quarter = Scalar { bits: HALF_PI_BITS };
    if right_a || right_b || right_c {
        AngleClassification::Right
    } else if angle_a.spec_gt(quarter) || angle_b.spec_gt(quarter) || angle_c.spec_gt(quarter) {
        AngleClassification::Obtuse
    } else {
        AngleClassification::Acute
    }
}

/// A cosine as the law of cosines gives it, brought back into `[-1, 1]`.
pub open spec fn spec_clamp_cosine(cosine: Scalar) -> Scalar {
    cosine.spec_clamp(Scalar { bits: (ONE_BITS + SIGN_BIT) as u64 }, Scalar { bits: ONE_BITS })
}

/// A number to take the square root of, with zero in place of a negative one.
pub open spec fn spec_clamp_radicand(radicand: Scalar) -> Scalar {
    radicand.spec_max(Scalar { bits: 0 })
}

pub fn tolerance_scale(a: Scalar, b: Scalar) -> (r: Scalar)
    ensures
        r == spec_tolerance_scale(a, b),
{
    a.abs().max(b.abs())
}

/// Whether two numbers that are `gap` apart count as equal.
pub fn approx_eq(gap: &Gap) -> (r: bool)
    ensures
        r == spec_approx_eq(*gap),
{
    let size = gap.difference.abs();
    size.le(Scalar::from_bits(ABSOLUTE_TOLERANCE_BITS)) || size.le(gap.allowance)
}

/// Classifies a triangle by its sides, from how far apart they are in pairs:
/// `side_a` and `side_b`, `side_b` and `side_c`, `side_a` and `side_c`.
pub fn classify_sides(ab: &Gap, bc: &Gap, ac: &Gap) -> (r: SideClassification)
    ensures
        r == side_class(spec_approx_eq(*ab), spec_approx_eq(*bc), spec_approx_eq(*ac)),
        r is Equilateral <==> spec_approx_eq(*ab) && spec_approx_eq(*bc) && spec_approx_eq(*ac),
        r is Scalene <==> !spec_approx_eq(*ab) && !spec_approx_eq(*bc) && !spec_approx_eq(*ac),
{
    let ab_equal = approx_eq(ab);
    let bc_equal = approx_eq(bc);
    let ac_equal = approx_eq(ac);
    if ab_equal && bc_equal && ac_equal {
        SideClassification::Equilateral
    } else if ab_equal || bc_equal || ac_equal {
        SideClassification::Isosceles
    } else {
        SideClassification::Scalene
    }
}

/// Classifies a triangle by its angles, in radians. `right_a`, `right_b` and
/// `right_c` say how far each angle is from a quarter turn.
pub fn classify_angles(
    angle_a: Scalar,
    angle_b: Scalar,
    angle_c: Scalar,
    right_a: &Gap,
    right_b: &Gap,
    right_c: &Gap,
) -> (r: AngleClassification)
    ensures
        r == angle_class(
            angle_a,
            angle_b,
            angle_c,
            spec_approx_eq(*right_a),
            spec_approx_eq(*right_b),
            spec_approx_eq(*right_c),
        ),
        r is Right <==> spec_approx_eq(*right_a) || spec_approx_eq(*right_b) || spec_approx_eq(
            *right_c,
        ),
{
    let quarter = Scalar::from_bits(HALF_PI_BITS);
    if approx_eq(right_a) || approx_eq(right_b) || approx_eq(right_c) {
        AngleClassification::Right
    } else if angle_a.gt(quarter) || angle_b.gt(quarter) || angle_c.gt(quarter) {
        AngleClassification::Obtuse
    } else {
        AngleClassification::Acute
    }
}

/// Brings a cosine that rounding pushed out of `[-1, 1]` back to the nearer
/// end, so that its arc cosine is a number.
pub fn clamp_cosine(cosine: Scalar) -> (r: Scalar)
    ensures
        r == spec_clamp_cosine(cosine),
        cosine.spec_is_nan() ==> r == cosine,
        !cosine.spec_is_nan() ==> (Scalar { bits: (ONE_BITS + SIGN_BIT) as u64 }).spec_le(r)
            && r.spec_le(Scalar { bits: ONE_BITS }),
{
    cosine.clamp(Scalar::one().neg(), Scalar::one())
}

/// Puts zero in place of a radicand that rounding made negative, so that its
/// square root is a number.
pub fn clamp_radicand(radicand: Scalar) -> (r: Scalar)
    ensures
        r == spec_clamp_radicand(radicand),
        !r.spec_is_nan(),
        r.rank() >= 0,
{
    radicand.max(Scalar::zero())
}

} // verus!
