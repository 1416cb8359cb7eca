//! Triangles, and the three checks that three points pass before they are one.

use vstd::prelude::*;
use crate::errors::AppError;
use crate::point::Point;
use crate::scalar::Scalar;
use crate::value::{is_nearest_to, lemma_nearest_by_leading_bits};
use vstd::arithmetic::power2::{lemma2_to64, lemma_pow2_adds, pow2};

verus! {

/// The pattern of `1e-10`: a cross product of smaller size counts as zero.
pub const COLLINEARITY_THRESHOLD_BITS: u64 = 0x3DDB_7CDF_D9D7_BDBB;

/// The threshold is the double nearest to `10^-10`, one part in ten thousand
/// million.
pub proof fn lemma_threshold_is_a_ten_thousand_millionth()
    ensures
        is_nearest_to(Scalar { bits: COLLINEARITY_THRESHOLD_BITS }, 1, 10_000_000_000),
{
    let x = Scalar { bits: COLLINEARITY_THRESHOLD_BITS };
    lemma2_to64();
    lemma_pow2_adds(64, 22);
    assert(pow2(86) == 0x40_0000_0000_0000_0000_0000int);
    lemma_nearest_by_leading_bits(x, 1, 10_000_000_000, 86);
}

/// Three vertices, in order.
#[derive(Debug, Clone, Copy)]
pub struct Triangle {
    pub a: Point,
    pub b: Point,
    pub c: Point,
}

impl Triangle {
    pub fn new(a: Point, b: Point, c: Point) -> (r: Triangle)
        ensures
            r == (Triangle { a, b, c }),
    {
        Triangle { a, b, c }
    }

    /// Three times the origin.
    pub fn zero() -> (r: Triangle)
        ensures
            r.a.x.bits == 0 && r.a.y.bits == 0,
            r.b == r.a,
            r.c == r.a,
    {
        Triangle::splat(Point::zero())
    }

    /// Three times the point `(1, 1)`.
    pub fn one() -> (r: Triangle)
        ensures
            r.a.x.bits == crate::scalar::ONE_BITS && r.a.y.bits == crate::scalar::ONE_BITS,
            r.b == r.a,
            r.c == r.a,
    {
        Triangle::splat(Point::one())
    }

    /// Three times the point with both coordinates equal to `size`.
    pub fn splat_recursive(size: Scalar) -> (r: Triangle)
        ensures
            r.a == (Point { x: size, y: size }),
            r.b == r.a,
            r.c == r.a,
    {
        Triangle::splat(Point::splat(size))
    }

    /// Three times `point`.
    pub fn splat(point: Point) -> (r: Triangle)
        ensures
            r == (Triangle { a: point, b: point, c: point }),
    {
        Triangle::new(point, point, point)
    }
}

impl PartialEq for Triangle {
    fn eq(&self, other: &Triangle) -> (r: bool) {
        self.a == other.a && self.b == other.b && self.c == other.c
    }
}

impl vstd::std_specs::cmp::PartialEqSpecImpl for Triangle {
    open spec fn obeys_eq_spec() -> bool {
        true
    }

    open spec fn eq_spec(&self, other: &Triangle) -> bool {
        self.a.same_point(other.a) && self.b.same_point(other.b) && self.c.same_point(other.c)
    }
}

impl From<(Point, Point, Point)> for Triangle {
    fn from(points: (Point, Point, Point)) -> (r: Triangle) {
        Triangle::new(points.0, points.1, points.2)
    }
}

impl vstd::std_specs::convert::FromSpecImpl<(Point, Point, Point)> for Triangle {
    open spec fn obeys_from_spec() -> bool {
        true
    }

    open spec fn from_spec(points: (Point, Point, Point)) -> Triangle {
        Triangle { a: points.0, b: points.1, c: points.2 }
    }
}

impl From<[Point; 3]> for Triangle {
    fn from(points: [Point; 3]) -> (r: Triangle) {
        Triangle::new(points[0], points[1], points[2])
    }
}

impl vstd::std_specs::convert::FromSpecImpl<[Point; 3]> for Triangle {
    open spec fn obeys_from_spec() -> bool {
        true
    }

    open spec fn from_spec(points: [Point; 3]) -> Triangle {
        Triangle { a: points[0], b: points[1], c: points[2] }
    }
}

impl From<(Scalar, Scalar, Scalar, Scalar, Scalar, Scalar)> for Triangle {
    fn from(numbers: (Scalar, Scalar, Scalar, Scalar, Scalar, Scalar)) -> (r: Triangle) {
        Triangle::new(
            Point::new(numbers.0, numbers.1),
            Point::new(numbers.2, numbers.3),
            Point::new(numbers.4, numbers.5),
        )
    }
}

impl vstd::std_specs::convert::FromSpecImpl<(Scalar, Scalar, Scalar, Scalar, Scalar, Scalar)> for Triangle {
    open spec fn obeys_from_spec() -> bool {
        true
    }

    open spec fn from_spec(numbers: (Scalar, Scalar, Scalar, Scalar, Scalar, Scalar)) -> Triangle {
        Triangle {
            a: Point { x: numbers.0, y: numbers.1 },
            b: Point { x: numbers.2, y: numbers.3 },
            c: Point { x: numbers.4, y: numbers.5 },
        }
    }
}

impl From<[Scalar; 6]> for Triangle {
    fn from(numbers: [Scalar; 6]) -> (r: Triangle) {
        Triangle::new(
            Point::new(numbers[0], numbers[1]),
            Point::new(numbers[2], numbers[3]),
            Point::new(numbers[4], numbers[5]),
        )
    }
}

impl vstd::std_specs::convert::FromSpecImpl<[Scalar; 6]> for Triangle {
    open spec fn obeys_from_spec() -> bool {
        true
    }

    open spec fn from_spec(numbers: [Scalar; 6]) -> Triangle {
        Triangle {
            a: Point { x: numbers[0], y: numbers[1] },
            b: Point { x: numbers[2], y: numbers[3] },
            c: Point { x: numbers[4], y: numbers[5] },
        }
    }
}

/// Why three inputs are not three usable points.
#[derive(Debug, Clone, PartialEq)]
#[allow(inconsistent_fields)]
pub enum TriangleCreateError {
    InvalidPointCount { got: usize },
    InvalidFormat { got: String, example: String },
    DuplicatePoint { point: Point },
}

/// Why three distinct points span no triangle.
#[derive(Debug, Clone, PartialEq)]
pub enum DegenerateTriangleError {
    Collinear { a: Point, b: Point, c: Point },
    InequalityViolation { side_a: Scalar, side_b: Scalar, side_c: Scalar },
}

/// The sums of the sides, two at a time, as the caller added them.
#[derive(Debug, Clone, Copy)]
pub struct PairSums {
    /// `side_a + side_b`
    pub ab: Scalar,
    /// `side_a + side_c`
    pub ac: Scalar,
    /// `side_b + side_c`
    pub bc: Scalar,
}

/// What the caller measured of three points `A`, `B`, `C`.
#[derive(Debug, Clone, Copy)]
pub struct Measurements {
    /// The cross product of `B - A` and `C - A`.
    pub cross: Scalar,
    /// The distance from `B` to `C`.
    pub side_a: Scalar,
    /// The distance from `A` to `C`.
    pub side_b: Scalar,
    /// The distance from `A` to `B`.
    pub side_c: Scalar,
    /// The sums of these three distances, two at a time.
    pub sums: PairSums,
}

/// The first point that occurs twice, the pairs taken in the order
/// `A = B`, `B = C`, `A = C`.
pub open spec fn duplicate_point(points: [Point; 3]) -> Option<Point> {
    if points[0].same_point(points[1]) {
        Some(points[0])
    } else if points[1].same_point(points[2]) {
        Some(points[1])
    } else if points[0].same_point(points[2]) {
        Some(points[0])
    } else {
        None
    }
}

/// A cross product this close to zero means three points on one line. The
/// bound is absolute: it does not grow with the size of the coordinates.
pub open spec fn is_collinear(cross: Scalar) -> bool {
    cross.spec_abs().spec_lt(Scalar { bits: COLLINEARITY_THRESHOLD_BITS })
}

/// The strict triangle inequality, on the sums as they were added: every two
/// sides together are longer than the third.
pub open spec fn sides_close(side_a: Scalar, side_b: Scalar, side_c: Scalar, sums: PairSums) -> bool {
    sums.ab.spec_gt(side_c) && sums.ac.spec_gt(side_b) && sums.bc.spec_gt(side_a)
}

/// What becomes of three points: the first check that fails gives the error,
/// duplicates before collinearity before the triangle inequality.
pub open spec fn spec_build_triangle(points: [Point; 3], measured: Measurements) -> Result<
    Triangle,
    AppError,
> {
    if let Some(point) = duplicate_point(points) {
        Err(AppError::TriangleCreate(TriangleCreateError::DuplicatePoint { point }))
    } else if is_collinear(measured.cross) {
        Err(
            AppError::DegenerateTriangle(
                DegenerateTriangleError::Collinear { a: points[0], b: points[1], c: points[2] },
            ),
        )
    } else if !sides_close(measured.side_a, measured.side_b, measured.side_c, measured.sums) {
        Err(
            AppError::DegenerateTriangle(
                DegenerateTriangleError::InequalityViolation {
                    side_a: measured.side_a,
                    side_b: measured.side_b,
                    side_c: measured.side_c,
                },
            ),
        )
    } else {
        Ok(Triangle { a: points[0], b: points[1], c: points[2] })
    }
}

/// Turns three points down if two of them are equal. Equality is exact, with
/// no tolerance.
pub fn check_duplicate_points(points: &[Point; 3]) -> (r: Result<(), TriangleCreateError>)
    ensures
        match duplicate_point(*points) {
            Some(point) => r == Err::<(), TriangleCreateError>(
                TriangleCreateError::DuplicatePoint { point },
            ),
            None => r == Ok::<(), TriangleCreateError>(()),
        },
        r is Ok <==> !points[0].same_point(points[1]) && !points[1].same_point(points[2])
            && !points[0].same_point(points[2]),
{
    if points[0] == points[1] {
        return Err(TriangleCreateError::DuplicatePoint { point: points[0] });
    }
    if points[1] == points[2] {
        return Err(TriangleCreateError::DuplicatePoint { point: points[1] });
    }
    if points[0] == points[2] {
        return Err(TriangleCreateError::DuplicatePoint { point: points[0] });
    }
    Ok(())
}

/// Turns three points down if they lie on one line, going by `cross`, the
/// cross product of `B - A` and `C - A`.
pub fn check_collinear(points: &[Point; 3], cross: Scalar) -> (r: Result<
    (),
    DegenerateTriangleError,
>)
    ensures
        is_collinear(cross) ==> r == Err::<(), DegenerateTriangleError>(
            DegenerateTriangleError::Collinear { a: points[0], b: points[1], c: points[2] },
        ),
        !is_collinear(cross) ==> r == Ok::<(), DegenerateTriangleError>(()),
{
    if cross.abs().lt(Scalar::from_bits(COLLINEARITY_THRESHOLD_BITS)) {
        return Err(
            DegenerateTriangleError::Collinear { a: points[0], b: points[1], c: points[2] },
        );
    }
    Ok(())
}

/// Turns three side lengths down unless every two of them together are
/// longer than the third, going by `sums`.
pub fn is_valid_triangle(side_a: Scalar, side_b: Scalar, side_c: Scalar, sums: &PairSums) -> (r:
    Result<(), DegenerateTriangleError>)
    ensures
        sides_close(side_a, side_b, side_c, *sums) ==> r == Ok::<(), DegenerateTriangleError>(()),
        !sides_close(side_a, side_b, side_c, *sums) ==> r == Err::<(), DegenerateTriangleError>(
            DegenerateTriangleError::InequalityViolation { side_a, side_b, side_c },
        ),
{
    if sums.ab.gt(side_c) && sums.ac.gt(side_b) && sums.bc.gt(side_a) {
        return Ok(());
    }
    Err(DegenerateTriangleError::InequalityViolation { side_a, side_b, side_c })
}

/// Makes a triangle of three points that pass the three checks.
pub fn build_triangle(points: [Point; 3], measured: &Measurements) -> (r: Result<
    Triangle,
    AppError,
>)
    ensures
        r == spec_build_triangle(points, *measured),
        r is Ok <==> duplicate_point(points) is None && !is_collinear(measured.cross)
            && sides_close(measured.side_a, measured.side_b, measured.side_c, measured.sums),
        r matches Ok(triangle) ==> triangle.a == points[0] && triangle.b == points[1]
            && triangle.c == points[2],
{
    match check_duplicate_points(&points) {
        Ok(()) => {},
        Err(e) => {
            return Err(AppError::from(e));
        },
    }
    match check_collinear(&points, measured.cross) {
        Ok(()) => {},
        Err(e) => {
            return Err(AppError::from(e));
        },
    }
    match is_valid_triangle(measured.side_a, measured.side_b, measured.side_c, &measured.sums) {
        Ok(()) => {},
        Err(e) => {
            return Err(AppError::from(e));
        },
    }
    Ok(Triangle::new(points[0], points[1], points[2]))
}

} // verus!
