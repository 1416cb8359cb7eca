//! Points of the plane, and how the text of a point becomes one.

use vstd::prelude::*;
use crate::scalar::Scalar;
use crate::text::{
    capped, chars_of, count_fields, decimal, fields, find_comma, lemma_fields_nonempty,
    push_decimal, trim, trim_range,
};

verus! {

/// A point of the plane.
#[derive(Clone, Copy, Debug)]
pub struct Point {
    pub x: Scalar,
    pub y: Scalar,
}

impl Point {
    /// Numeric equality of both coordinates.
    pub open spec fn same_point(self, other: Point) -> bool {
        self.x.same_value(other.x) && self.y.same_value(other.y)
    }

    /// Both coordinates are finite numbers.
    pub open spec fn spec_is_finite(self) -> bool {
        self.x.spec_is_finite() && self.y.spec_is_finite()
    }

    pub open spec fn spec_neg(self) -> Point {
        Point { x: self.x.spec_neg(), y: self.y.spec_neg() }
    }

    /// The two patterns under which a point is hashed: those of its
    /// coordinates, with negative zero taken as positive zero.
    pub open spec fn spec_hash_key(self) -> (u64, u64) {
        (self.x.spec_canonical().bits, self.y.spec_canonical().bits)
    }

    pub fn new(x: Scalar, y: Scalar) -> (r: Point)
        ensures
            r == (Point { x, y }),
    {
        Point { x, y }
    }

    /// The point with both coordinates equal to `number`.
    pub fn splat(number: Scalar) -> (r: Point)
        ensures
            r == (Point { x: number, y: number }),
    {
        Point::new(number, number)
    }

    /// The origin.
    pub fn zero() -> (r: Point)
        ensures
            r.x.bits == 0,
            r.y.bits == 0,
    {
        Point::new(Scalar::zero(), Scalar::zero())
    }

    /// The point `(1, 1)`.
    pub fn one() -> (r: Point)
        ensures
            r.x.bits == crate::scalar::ONE_BITS,
            r.y.bits == crate::scalar::ONE_BITS,
    {
        Point::new(Scalar::one(), Scalar::one())
    }

    #[verifier::when_used_as_spec(spec_is_finite)]
    pub fn is_finite(self) -> (r: bool)
        ensures
            r == self.spec_is_finite(),
    {
        self.x.is_finite() && self.y.is_finite()
    }

    /// The point on the other side of the origin.
    #[verifier::when_used_as_spec(spec_neg)]
    pub fn neg(self) -> (r: Point)
        ensures
            r == self.spec_neg(),
    {
        Point::new(self.x.neg(), self.y.neg())
    }

    #[verifier::when_used_as_spec(spec_hash_key)]
    pub fn hash_key(self) -> (r: (u64, u64))
        ensures
            r == self.spec_hash_key(),
    {
        (self.x.canonical().to_bits(), self.y.canonical().to_bits())
    }
}

impl PartialEq for Point {
    fn eq(&self, other: &Point) -> (r: bool) {
        self.x == other.x && self.y == other.y
    }
}

impl vstd::std_specs::cmp::PartialEqSpecImpl for Point {
    open spec fn obeys_eq_spec() -> bool {
        true
    }

    open spec fn eq_spec(&self, other: &Point) -> bool {
        self.same_point(*other)
    }
}

impl From<(Scalar, Scalar)> for Point {
    fn from(pair: (Scalar, Scalar)) -> (r: Point) {
        Point::new(pair.0, pair.1)
    }
}

impl vstd::std_specs::convert::FromSpecImpl<(Scalar, Scalar)> for Point {
    open spec fn obeys_from_spec() -> bool {
        true
    }

    open spec fn from_spec(pair: (Scalar, Scalar)) -> Point {
        Point { x: pair.0, y: pair.1 }
    }
}

impl From<[Scalar; 2]> for Point {
    fn from(pair: [Scalar; 2]) -> (r: Point) {
        Point::new(pair[0], pair[1])
    }
}

impl vstd::std_specs::convert::FromSpecImpl<[Scalar; 2]> for Point {
    open spec fn obeys_from_spec() -> bool {
        true
    }

    open spec fn from_spec(pair: [Scalar; 2]) -> Point {
        Point { x: pair[0], y: pair[1] }
    }
}

/// Points that are equal are hashed alike, the two zeros included.
pub proof fn lemma_equal_points_hash_alike(p: Point, q: Point)
    requires
        p.same_point(q),
    ensures
        p.spec_hash_key() == q.spec_hash_key(),
{
}

/// Why the text of a point was turned down.
#[derive(Debug, Clone, PartialEq, Eq, PartialOrd, Ord)]
#[allow(inconsistent_fields)]
pub enum PointCreateError {
    InvalidFormat { got: String, example: String },
    TooManyPoints { got: usize, expected: u8 },
    TooFewPoints { got: usize, expected: u8 },
}

/// A [`PointCreateError`] with its texts as sequences of characters.
#[allow(inconsistent_fields)]
pub enum PointCreateErrorView {
    InvalidFormat { got: Seq<char>, example: Seq<char> },
    TooManyPoints { got: usize, expected: u8 },
    TooFewPoints { got: usize, expected: u8 },
}

impl View for PointCreateError {
    type V = PointCreateErrorView;

    open spec fn view(&self) -> PointCreateErrorView {
        match *self {
            PointCreateError::InvalidFormat { got, example } => PointCreateErrorView::InvalidFormat {
                got: got@,
                example: example@,
            },
            PointCreateError::TooManyPoints { got, expected } => PointCreateErrorView::TooManyPoints {
                got,
                expected,
            },
            PointCreateError::TooFewPoints { got, expected } => PointCreateErrorView::TooFewPoints {
                got,
                expected,
            },
        }
    }
}

impl PointCreateErrorView {
    /// The sentence that tells a user of the error.
    pub open spec fn message(self) -> Seq<char> {
        match self {
            PointCreateErrorView::InvalidFormat { got, example } => "Invalid point format: got '"@
                + got + "', expected '"@ + example + "'"@,
            PointCreateErrorView::TooManyPoints { got, expected } => "Too many points: got "@
                + decimal(got as nat) + ", expected "@ + decimal(expected as nat),
            PointCreateErrorView::TooFewPoints { got, expected } => "Too few points: got "@
                + decimal(got as nat) + ", expected "@ + decimal(expected as nat),
        }
    }
}

impl PointCreateError {
    /// The sentence that tells a user of the error.
    pub fn message(&self) -> (r: String)
        ensures
            r@ == self@.message(),
    {
        match self {
            PointCreateError::InvalidFormat { got, example } => {
                let mut r = String::from_str("Invalid point format: got '");
                r.append(got.as_str());
                r.append("', expected '");
                r.append(example.as_str());
                r.append("'");
                r
            },
            PointCreateError::TooManyPoints { got, expected } => {
                let mut r = String::from_str("Too many points: got ");
                push_decimal(&mut r, *got);
                r.append(", expected ");
                push_decimal(&mut r, *expected as usize);
                r
            },
            PointCreateError::TooFewPoints { got, expected } => {
                let mut r = String::from_str("Too few points: got ");
                push_decimal(&mut r, *got);
                r.append(", expected ");
                push_decimal(&mut r, *expected as usize);
                r
            },
        }
    }
}

/// The two coordinate texts of the text of a point, or why it has not two.
///
/// The text is trimmed and cut at its commas. Empty text is an invalid
/// format; one piece is too few, three or more are too many. Of exactly two
/// pieces each is trimmed again.
pub open spec fn spec_coordinate_tokens(input: Seq<char>) -> Result<
    (Seq<char>, Seq<char>),
    PointCreateErrorView,
> {
    let line = trim(input);
    let parts = fields(line);
    if line.len() == 0 {
        Err(PointCreateErrorView::InvalidFormat { got: Seq::empty(), example: "1.0,2.0"@ })
    } else if parts.len() < 2 {
        Err(PointCreateErrorView::TooFewPoints { got: capped(parts.len()), expected: 2 })
    } else if parts.len() > 2 {
        Err(PointCreateErrorView::TooManyPoints { got: capped(parts.len()), expected: 2 })
    } else {
        Ok((trim(parts[0]), trim(parts[1])))
    }
}

/// A coordinate that is a finite number, or the error that names the text it
/// was read from and says which kind of number is not allowed.
pub open spec fn spec_validate_finite(value: Scalar, label: Seq<char>, raw: Seq<char>) -> Result<
    Scalar,
    PointCreateErrorView,
> {
    if value.spec_is_nan() {
        Err(
            PointCreateErrorView::InvalidFormat {
                got: raw,
                example: label + ": a finite decimal value (NaN is not allowed)"@,
            },
        )
    } else if value.spec_is_infinite() {
        Err(
            PointCreateErrorView::InvalidFormat {
                got: raw,
                example: label + ": a finite decimal value (infinity is not allowed)"@,
            },
        )
    } else {
        Ok(value)
    }
}

/// One coordinate from its text and from what a reader of numbers made of it
/// (`None`: the text is no number).
pub open spec fn spec_coordinate(
    reading: Option<Scalar>,
    label: Seq<char>,
    raw: Seq<char>,
    sample: Seq<char>,
) -> Result<Scalar, PointCreateErrorView> {
    match reading {
        None => Err(
            PointCreateErrorView::InvalidFormat {
                got: raw,
                example: label + ": a valid decimal value e.g. "@ + sample,
            },
        ),
        Some(value) => spec_validate_finite(value, label, raw),
    }
}

/// The point that a text stands for, given what a reader of numbers made of
/// its two coordinate texts. The first thing that is wrong decides the error:
/// the shape of the text, then `x`, then `y`.
pub open spec fn spec_to_point(input: Seq<char>, x: Option<Scalar>, y: Option<Scalar>) -> Result<
    Point,
    PointCreateErrorView,
> {
    match spec_coordinate_tokens(input) {
        Err(e) => Err(e),
        Ok((x_raw, y_raw)) => match spec_coordinate(x, "x"@, x_raw, "1.0"@) {
            Err(e) => Err(e),
            Ok(x_value) => match spec_coordinate(y, "y"@, y_raw, "2.0"@) {
                Err(e) => Err(e),
                Ok(y_value) => Ok(Point { x: x_value, y: y_value }),
            },
        },
    }
}

/// Cuts the text of a point into the texts of its two coordinates.
pub fn coordinate_tokens<'a>(input: &'a str) -> (r: Result<(&'a str, &'a str), PointCreateError>)
    ensures
        match r {
            Ok((x_raw, y_raw)) => spec_coordinate_tokens(input@) == Ok::<
                (Seq<char>, Seq<char>),
                PointCreateErrorView,
            >((x_raw@, y_raw@)),
            Err(e) => spec_coordinate_tokens(input@) == Err::<
                (Seq<char>, Seq<char>),
                PointCreateErrorView,
            >(e@),
        },
{
    let v = chars_of(input);
    let (lo, hi) = trim_range(&v, 0, v.len());
    let ghost line = v@.subrange(lo as int, hi as int);
    assert(v@.subrange(0, v.len() as int) == v@);
    if lo == hi {
        return Err(
            PointCreateError::InvalidFormat {
                got: String::new(),
                example: String::from_str("1.0,2.0"),
            },
        );
    }
    let comma: usize = find_comma(&v, lo, hi);
    if comma == hi {
        return Err(PointCreateError::TooFewPoints { got: 1, expected: 2 });
    }
    let next: usize = find_comma(&v, comma + 1, hi);
    let ghost first = v@.subrange(lo as int, comma as int);
    let ghost rest = v@.subrange(comma + 1, hi as int);
    proof {
        assert(line.take(comma - lo) == first);
        assert(line.skip(comma - lo + 1) == rest);
        assert(fields(line) == seq![first] + fields(rest));
    }
    if next < hi {
        proof {
            lemma_fields_nonempty(rest.skip(next - comma));
        }
        let got: usize = count_fields(&v, lo, hi);
        return Err(PointCreateError::TooManyPoints { got, expected: 2 });
    }
    proof {
        assert(fields(rest) == seq![rest]);
        assert(fields(line)[0] == first);
        assert(fields(line)[1] == rest);
    }
    let (x_lo, x_hi) = trim_range(&v, lo, comma);
    let (y_lo, y_hi) = trim_range(&v, comma + 1, hi);
    Ok((input.substring_char(x_lo, x_hi), input.substring_char(y_lo, y_hi)))
}

/// Lets a finite number pass and turns a NaN or an infinity down.
pub fn validate_finite(value: Scalar, label: &str, raw: &str) -> (r: Result<
    Scalar,
    PointCreateError,
>)
    ensures
        match r {
            Ok(v) => spec_validate_finite(value, label@, raw@) == Ok::<Scalar, PointCreateErrorView>(
                v,
            ),
            Err(e) => spec_validate_finite(value, label@, raw@) == Err::<
                Scalar,
                PointCreateErrorView,
            >(e@),
        },
        r is Ok <==> value.spec_is_finite(),
        r matches Ok(v) ==> v == value,
{
    if value.is_nan() {
        let mut example = String::from_str(label);
        example.append(": a finite decimal value (NaN is not allowed)");
        return Err(PointCreateError::InvalidFormat { got: String::from_str(raw), example });
    }
    if value.is_infinite() {
        let mut example = String::from_str(label);
        example.append(": a finite decimal value (infinity is not allowed)");
        return Err(PointCreateError::InvalidFormat { got: String::from_str(raw), example });
    }
    Ok(value)
}

/// One coordinate from its text and from what a reader of numbers made of it.
fn coordinate(reading: Option<Scalar>, label: &str, raw: &str, sample: &str) -> (r: Result<
    Scalar,
    PointCreateError,
>)
    ensures
        match r {
            Ok(v) => spec_coordinate(reading, label@, raw@, sample@) == Ok::<
                Scalar,
                PointCreateErrorView,
            >(v),
            Err(e) => spec_coordinate(reading, label@, raw@, sample@) == Err::<
                Scalar,
                PointCreateErrorView,
            >(e@),
        },
{
    match reading {
        None => {
            let mut example = String::from_str(label);
            example.append(": a valid decimal value e.g. ");
            example.append(sample);
            Err(PointCreateError::InvalidFormat { got: String::from_str(raw), example })
        },
        Some(value) => validate_finite(value, label, raw),
    }
}

/// Turns the text of a point into the point.
///
/// `x` and `y` are what a reader of numbers made of the two texts that
/// [`coordinate_tokens`] cuts out of `input`; they are not looked at where
/// the text has not two coordinates.
pub fn to_point(input: &str, x: Option<Scalar>, y: Option<Scalar>) -> (r: Result<
    Point,
    PointCreateError,
>)
    ensures
        match r {
            Ok(p) => spec_to_point(input@, x, y) == Ok::<Point, PointCreateErrorView>(p),
            Err(e) => spec_to_point(input@, x, y) == Err::<Point, PointCreateErrorView>(e@),
        },
        r matches Ok(p) ==> p.spec_is_finite() && x == Some(p.x) && y == Some(p.y),
        r is Ok <==> spec_coordinate_tokens(input@) is Ok && x is Some && y is Some
            && x.unwrap().spec_is_finite() && y.unwrap().spec_is_finite(),
{
    let (x_raw, y_raw) = match coordinate_tokens(input) {
        Ok(tokens) => tokens,
        Err(e) => {
            return Err(e);
        },
    };
    let x_value = match coordinate(x, "x", x_raw, "1.0") {
        Ok(value) => value,
        Err(e) => {
            return Err(e);
        },
    };
    let y_value = match coordinate(y, "y", y_raw, "2.0") {
        Ok(value) => value,
        Err(e) => {
            return Err(e);
        },
    };
    Ok(Point::new(x_value, y_value))
}

} // verus!
