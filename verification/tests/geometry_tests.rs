use triangle_geometry::geometry::{
    approx_eq, clamp_cosine, clamp_radicand, classify_angles, classify_sides, tolerance_scale,
    AngleClassification, Gap, SideClassification, ABSOLUTE_TOLERANCE_BITS, HALF_PI_BITS,
    RELATIVE_TOLERANCE_BITS,
};
use triangle_geometry::scalar::Scalar;

fn s(value: f64) -> Scalar {
    Scalar::from_bits(value.to_bits())
}

fn f(value: Scalar) -> f64 {
    f64::from_bits(value.to_bits())
}

/// How far apart two numbers are: their difference, and the relative
/// tolerance times the larger of their sizes.
fn gap(a: f64, b: f64) -> Gap {
    let relative = f64::from_bits(RELATIVE_TOLERANCE_BITS);
    Gap { difference: s(a - b), allowance: s(relative * f(tolerance_scale(s(a), s(b)))) }
}

fn close(a: f64, b: f64) -> bool {
    approx_eq(&gap(a, b))
}

fn sides(side_a: f64, side_b: f64, side_c: f64) -> SideClassification {
    classify_sides(&gap(side_a, side_b), &gap(side_b, side_c), &gap(side_a, side_c))
}

fn angles(angle_a: f64, angle_b: f64, angle_c: f64) -> AngleClassification {
    let quarter = f64::from_bits(HALF_PI_BITS);
    classify_angles(
        s(angle_a),
        s(angle_b),
        s(angle_c),
        &gap(angle_a, quarter),
        &gap(angle_b, quarter),
        &gap(angle_c, quarter),
    )
}

/// The angle opposite `opposite`, by the law of cosines.
fn angle_from_sides(opposite: f64, adj1: f64, adj2: f64) -> f64 {
    let numerator = opposite.mul_add(-opposite, adj1.mul_add(adj1, adj2 * adj2));
    let denominator = 2.0 * adj1 * adj2;
    f(clamp_cosine(s(numerator / denominator))).acos()
}

fn distance(from: (f64, f64), to: (f64, f64)) -> f64 {
    (to.0 - from.0).hypot(to.1 - from.1)
}

/// The two classes of the triangle with the given vertices.
fn classes(a: (f64, f64), b: (f64, f64), c: (f64, f64)) -> (SideClassification, AngleClassification) {
    let (side_a, side_b, side_c) = (distance(b, c), distance(a, c), distance(a, b));
    let angle_a = angle_from_sides(side_a, side_b, side_c);
    let angle_b = angle_from_sides(side_b, side_a, side_c);
    let angle_c = angle_from_sides(side_c, side_a, side_b);
    (sides(side_a, side_b, side_c), angles(angle_a, angle_b, angle_c))
}

#[test]
fn test_classifications() {
    // Equilateral
    let side_eq = 1.0;
    assert_eq!(sides(side_eq, side_eq, side_eq), SideClassification::Equilateral);

    // Right Isosceles
    let side_a = 1.0;
    let side_b = 1.0;
    let side_c = 2.0f64.sqrt();
    assert_eq!(sides(side_a, side_b, side_c), SideClassification::Isosceles);

    let pi_half = std::f64::consts::PI / 2.0;
    let pi_quarter = std::f64::consts::PI / 4.0;
    assert_eq!(angles(pi_half, pi_quarter, pi_quarter), AngleClassification::Right);

    // Obtuse Scalene
    assert_eq!(sides(10.0, 6.0, 5.0), SideClassification::Scalene);
    // 10^2 = 100, 6^2 + 5^2 = 36 + 25 = 61. 100 > 61 => Obtuse
    let a = angle_from_sides(10.0, 6.0, 5.0);
    let b = angle_from_sides(6.0, 10.0, 5.0);
    let c = angle_from_sides(5.0, 10.0, 6.0);
    assert_eq!(angles(a, b, c), AngleClassification::Obtuse);
}

#[test]
fn the_named_patterns_are_the_numbers() {
    assert_eq!(ABSOLUTE_TOLERANCE_BITS, 1e-9f64.to_bits());
    assert_eq!(RELATIVE_TOLERANCE_BITS, 1e-9f64.to_bits());
    assert_eq!(HALF_PI_BITS, (std::f64::consts::PI / 2.0).to_bits());
    assert_eq!(HALF_PI_BITS, std::f64::consts::FRAC_PI_2.to_bits());
}

#[test]
fn tolerance_scale_is_the_larger_size() {
    assert_eq!(f(tolerance_scale(s(3.0), s(-4.0))), 4.0);
    assert_eq!(f(tolerance_scale(s(-5.0), s(4.0))), 5.0);
    assert_eq!(f(tolerance_scale(s(0.0), s(-0.0))), 0.0);
    assert_eq!(f(tolerance_scale(s(f64::NAN), s(-2.0))), 2.0);
    for a in [0.0, -1.5, 2.0, 1e300, -1e-300, f64::INFINITY] {
        for b in [0.0, 1.5, -2.5, -1e300, 1e-300] {
            assert_eq!(f(tolerance_scale(s(a), s(b))), a.abs().max(b.abs()));
        }
    }
}

#[test]
fn approx_eq_takes_either_tolerance() {
    // Within the absolute tolerance.
    assert!(close(1.0, 1.0));
    assert!(close(0.0, 1e-9));
    assert!(close(0.0, -1e-9));
    assert!(!close(0.0, 1.1e-9));
    assert!(close(1.0, 1.0 + 5e-10));
    // Beyond the absolute tolerance, within the relative one.
    assert!(close(1e10, 1e10 + 5.0));
    assert!(close(1e10, 1e10 + 10.0));
    assert!(!close(1e10, 1e10 + 11.0));
    assert!(close(-1e12, -1e12 - 999.0));
    assert!(!close(-1e12, -1e12 - 1001.0));
    // Plainly apart.
    assert!(!close(1.0, 2.0));
    assert!(!close(1.0, -1.0));
    // A number that is none is close to nothing.
    assert!(!close(f64::NAN, f64::NAN));
    assert!(!close(f64::NAN, 1.0));
}

#[test]
fn approx_eq_reads_the_gap_as_given() {
    let tolerance = f64::from_bits(ABSOLUTE_TOLERANCE_BITS);
    assert!(approx_eq(&Gap { difference: s(tolerance), allowance: s(0.0) }));
    assert!(approx_eq(&Gap { difference: s(-tolerance), allowance: s(0.0) }));
    assert!(!approx_eq(&Gap { difference: s(1.0000000000000002e-9), allowance: s(0.0) }));
    assert!(approx_eq(&Gap { difference: s(-3.0), allowance: s(3.0) }));
    assert!(!approx_eq(&Gap { difference: s(3.0), allowance: s(2.9999999999999996) }));
    assert!(!approx_eq(&Gap { difference: s(3.0), allowance: s(f64::NAN) }));
    assert!(approx_eq(&Gap { difference: s(0.0), allowance: s(f64::NAN) }));
    assert!(!approx_eq(&Gap { difference: s(f64::NAN), allowance: s(1.0) }));
    assert!(approx_eq(&Gap { difference: s(1e300), allowance: s(f64::INFINITY) }));
}

#[test]
fn one_equal_pair_makes_an_isosceles_triangle() {
    assert_eq!(sides(2.0, 2.0, 3.0), SideClassification::Isosceles);
    assert_eq!(sides(3.0, 2.0, 2.0), SideClassification::Isosceles);
    assert_eq!(sides(2.0, 3.0, 2.0), SideClassification::Isosceles);
    assert_eq!(sides(2.0, 2.0, 2.0), SideClassification::Equilateral);
    assert_eq!(sides(2.0, 3.0, 4.0), SideClassification::Scalene);
    // Equality up to the tolerance does not carry over from pair to pair:
    // the ends of such a chain are apart, and two pairs do not make three.
    assert_eq!(sides(1.0, 1.0 + 9e-10, 1.0 + 18e-10), SideClassification::Isosceles);
}

#[test]
fn a_right_angle_comes_before_an_obtuse_one() {
    let quarter = std::f64::consts::FRAC_PI_2;
    let eighth = std::f64::consts::FRAC_PI_4;
    // A little over a quarter turn, within the tolerance: right, not obtuse.
    assert_eq!(angles(quarter + 4e-10, eighth, eighth), AngleClassification::Right);
    assert_eq!(angles(eighth, quarter - 4e-10, eighth), AngleClassification::Right);
    assert_eq!(angles(eighth, eighth, quarter), AngleClassification::Right);
    // Over by more than the tolerance: obtuse.
    assert_eq!(angles(quarter + 1e-6, eighth, eighth), AngleClassification::Obtuse);
    assert_eq!(angles(0.3, 2.0, 0.8), AngleClassification::Obtuse);
    assert_eq!(angles(0.3, 0.8, 2.0), AngleClassification::Obtuse);
    // All three under a quarter turn: acute.
    assert_eq!(angles(1.0, 1.0, 1.1), AngleClassification::Acute);
    assert_eq!(angles(quarter - 1e-6, eighth, eighth), AngleClassification::Acute);
}

#[test]
fn the_right_triangle_with_sides_three_four_five() {
    let (a, b, c) = ((0.0, 0.0), (4.0, 0.0), (0.0, 3.0));
    assert_eq!(distance(b, c), 5.0);
    assert_eq!(distance(a, c), 3.0);
    assert_eq!(distance(a, b), 4.0);
    assert_eq!(classes(a, b, c), (SideClassification::Scalene, AngleClassification::Right));
}

#[test]
fn the_equilateral_triangle() {
    let h = 3.0f64.sqrt() / 2.0;
    let (side_class, angle_class) = classes((0.0, 0.0), (1.0, 0.0), (0.5, h));
    assert_eq!(side_class, SideClassification::Equilateral);
    assert_eq!(angle_class, AngleClassification::Acute);
}

#[test]
fn the_needle_triangle_is_isosceles() {
    let (side_class, angle_class) = classes((0.0, 0.0), (1000.0, 0.0), (500.0, 0.000_001));
    assert_eq!(side_class, SideClassification::Isosceles);
    assert_eq!(angle_class, AngleClassification::Obtuse);
}

#[test]
fn the_scalene_acute_triangle() {
    let (side_class, angle_class) = classes((0.0, 0.0), (10.0, 0.0), (3.0, 7.0));
    assert_eq!(side_class, SideClassification::Scalene);
    assert_eq!(angle_class, AngleClassification::Acute);
}

#[test]
fn clamp_cosine_keeps_the_arc_cosine_a_number() {
    assert_eq!(f(clamp_cosine(s(1.0000000000000002))), 1.0);
    assert_eq!(f(clamp_cosine(s(-1.0000000000000002))), -1.0);
    assert_eq!(f(clamp_cosine(s(0.3))), 0.3);
    assert_eq!(f(clamp_cosine(s(-1.0))), -1.0);
    assert_eq!(f(clamp_cosine(s(1.0))), 1.0);
    assert_eq!(f(clamp_cosine(s(f64::INFINITY))), 1.0);
    assert_eq!(f(clamp_cosine(s(f64::NEG_INFINITY))), -1.0);
    assert!(f(clamp_cosine(s(f64::NAN))).is_nan());
    for v in [-2.0, -1.0, -0.5, -0.0, 0.0, 0.5, 1.0, 2.0, 1e300] {
        assert_eq!(f(clamp_cosine(s(v))), v.clamp(-1.0, 1.0));
        assert!(!f(clamp_cosine(s(v))).acos().is_nan());
    }
}

#[test]
fn clamp_radicand_keeps_the_square_root_a_number() {
    assert_eq!(f(clamp_radicand(s(-1e-17))), 0.0);
    assert_eq!(f(clamp_radicand(s(-4.0))), 0.0);
    assert_eq!(f(clamp_radicand(s(4.0))), 4.0);
    assert_eq!(f(clamp_radicand(s(0.0))), 0.0);
    assert_eq!(f(clamp_radicand(s(f64::NAN))), 0.0);
    assert_eq!(f(clamp_radicand(s(f64::INFINITY))), f64::INFINITY);
    for v in [-2.0, -0.0, 0.0, 0.5, 9.0, 1e300, f64::NEG_INFINITY] {
        assert_eq!(f(clamp_radicand(s(v))), v.max(0.0));
        assert!(!f(clamp_radicand(s(v))).sqrt().is_nan());
    }
}

#[test]
fn classes_have_names() {
    assert_eq!(SideClassification::Equilateral.label(), "Equilateral");
    assert_eq!(SideClassification::Isosceles.label(), "Isosceles");
    assert_eq!(SideClassification::Scalene.label(), "Scalene");
    assert_eq!(AngleClassification::Acute.label(), "Acute");
    assert_eq!(AngleClassification::Right.label(), "Right");
    assert_eq!(AngleClassification::Obtuse.label(), "Obtuse");
}
