//! Coordinate model and geometry primitives.
//!
//! All scalars are exact rationals, so every angle and radius that the layout
//! produces is represented without rounding. The only quantity that has no
//! exact form, the law-of-sines angle `asin(known/unknown * sin(offset))`, is
//! kept symbolic as a [`SineAngle`]; the characteristic offsets of the open
//! shapes are 30 and 90 degrees, whose sines are exactly 1/2 and 1, so the
//! domain check of `asin` is decided here exactly. A rendering front end
//! evaluates the symbolic parts in floating point when sampling points.

use vstd::prelude::*;

verus! {

/// Largest magnitude of a scalar component that the drawing functions accept;
/// it keeps every product the geometry forms inside `i64`.
pub const COORD_CAP: i64 = 0x4000_0000;

/// An exact scalar: the fraction `num / den`, with `den >= 1`.
#[derive(Clone, Copy, PartialEq, Eq, Structural, Debug)]
pub struct Rational {
    pub num: i64,
    pub den: i64,
}

impl Rational {
    pub open spec fn wf(self) -> bool {
        1 <= self.den
    }

    /// Both components lie within `cap`.
    pub open spec fn bounded(self, cap: int) -> bool {
        &&& -cap <= self.num <= cap
        &&& 1 <= self.den <= cap
    }

    /// The two fractions denote the same number.
    pub open spec fn spec_eqv(self, other: Rational) -> bool {
        self.num * other.den == other.num * self.den
    }

    /// `self <= other` as numbers (meaningful whenever both are `wf`).
    pub open spec fn spec_le(self, other: Rational) -> bool {
        self.num * other.den <= other.num * self.den
    }

    pub open spec fn spec_mul(self, other: Rational) -> Rational {
        Rational { num: (self.num * other.num) as i64, den: (self.den * other.den) as i64 }
    }

    pub open spec fn spec_add(self, other: Rational) -> Rational {
        Rational {
            num: (self.num * other.den + other.num * self.den) as i64,
            den: (self.den * other.den) as i64,
        }
    }

    pub open spec fn spec_sub(self, other: Rational) -> Rational {
        Rational {
            num: (self.num * other.den - other.num * self.den) as i64,
            den: (self.den * other.den) as i64,
        }
    }

    pub fn new(num: i64, den: i64) -> (r: Rational)
        requires
            1 <= den,
        ensures
            r == (Rational { num, den }),
            r.wf(),
    {
        Rational { num, den }
    }

    /// The whole number `num`.
    pub fn from_int(num: i64) -> (r: Rational)
        ensures
            r == (Rational { num, den: 1 }),
            r.wf(),
    {
        Rational { num, den: 1 }
    }

    pub fn mul(self, other: Rational) -> (r: Rational)
        requires
            self.wf(),
            other.wf(),
            i64::MIN <= self.num * other.num <= i64::MAX,
            self.den * other.den <= i64::MAX,
        ensures
            r == self.spec_mul(other),
            r.num == self.num * other.num,
            r.den == self.den * other.den,
            r.wf(),
    {
        proof {
            assert(1 <= self.den * other.den) by (nonlinear_arith)
                requires
                    1 <= self.den,
                    1 <= other.den,
            ;
        }
        Rational { num: self.num * other.num, den: self.den * other.den }
    }

    pub fn add(self, other: Rational) -> (r: Rational)
        requires
            self.wf(),
            other.wf(),
            i64::MIN <= self.num * other.den <= i64::MAX,
            i64::MIN <= other.num * self.den <= i64::MAX,
            i64::MIN <= self.num * other.den + other.num * self.den <= i64::MAX,
            self.den * other.den <= i64::MAX,
        ensures
            r == self.spec_add(other),
            r.num == self.num * other.den + other.num * self.den,
            r.den == self.den * other.den,
            r.wf(),
    {
        proof {
            assert(1 <= self.den * other.den) by (nonlinear_arith)
                requires
                    1 <= self.den,
                    1 <= other.den,
            ;
        }
        Rational {
            num: self.num * other.den + other.num * self.den,
            den: self.den * other.den,
        }
    }

    pub fn sub(self, other: Rational) -> (r: Rational)
        requires
            self.wf(),
            other.wf(),
            i64::MIN <= self.num * other.den <= i64::MAX,
            i64::MIN <= other.num * self.den <= i64::MAX,
            i64::MIN <= self.num * other.den - other.num * self.den <= i64::MAX,
            self.den * other.den <= i64::MAX,
        ensures
            r == self.spec_sub(other),
            r.num == self.num * other.den - other.num * self.den,
            r.den == self.den * other.den,
            r.wf(),
    {
        proof {
            assert(1 <= self.den * other.den) by (nonlinear_arith)
                requires
                    1 <= self.den,
                    1 <= other.den,
            ;
        }
        Rational {
            num: self.num * other.den - other.num * self.den,
            den: self.den * other.den,
        }
    }

    /// Exact numeric equality of the two fractions.
    pub fn eqv(self, other: Rational) -> (r: bool)
        requires
            self.wf(),
            other.wf(),
            i64::MIN <= self.num * other.den <= i64::MAX,
            i64::MIN <= other.num * self.den <= i64::MAX,
        ensures
            r == self.spec_eqv(other),
    {
        self.num * other.den == other.num * self.den
    }

    /// Exact numeric comparison of the two fractions.
    pub fn le(self, other: Rational) -> (r: bool)
        requires
            self.wf(),
            other.wf(),
            i64::MIN <= self.num * other.den <= i64::MAX,
            i64::MIN <= other.num * self.den <= i64::MAX,
        ensures
            r == self.spec_le(other),
    {
        self.num * other.den <= other.num * self.den
    }
}

/// An angle in degrees, as an exact rational scalar. Conversion to radians
/// happens only inside the trigonometric primitives of the rendering front
/// end.
#[derive(Clone, Copy, PartialEq, Eq, Structural, Debug)]
pub struct Degree(pub Rational);

impl Degree {
    pub open spec fn wf(self) -> bool {
        self.0.wf()
    }

    pub open spec fn spec_add(self, other: Degree) -> Degree {
        Degree(self.0.spec_add(other.0))
    }

    pub open spec fn spec_sub(self, other: Degree) -> Degree {
        Degree(self.0.spec_sub(other.0))
    }

    /// The whole number of degrees `num`.
    pub fn whole(num: i64) -> (r: Degree)
        ensures
            r == Degree(Rational { num, den: 1 }),
            r.wf(),
    {
        Degree(Rational { num, den: 1 })
    }

    pub fn add(self, other: Degree) -> (r: Degree)
        requires
            self.wf(),
            other.wf(),
            i64::MIN <= self.0.num * other.0.den <= i64::MAX,
            i64::MIN <= other.0.num * self.0.den <= i64::MAX,
            i64::MIN <= self.0.num * other.0.den + other.0.num * self.0.den <= i64::MAX,
            self.0.den * other.0.den <= i64::MAX,
        ensures
            r == self.spec_add(other),
            r.wf(),
    {
        Degree(self.0.add(other.0))
    }

    pub fn sub(self, other: Degree) -> (r: Degree)
        requires
            self.wf(),
            other.wf(),
            i64::MIN <= self.0.num * other.0.den <= i64::MAX,
            i64::MIN <= other.0.num * self.0.den <= i64::MAX,
            i64::MIN <= self.0.num * other.0.den - other.0.num * self.0.den <= i64::MAX,
            self.0.den * other.0.den <= i64::MAX,
        ensures
            r == self.spec_sub(other),
            r.wf(),
    {
        Degree(self.0.sub(other.0))
    }
}

/// A point in the polar frame centred on the word's midpoint:
/// a radius (never negative) and an angle.
#[derive(Clone, Copy, PartialEq, Eq, Structural, Debug)]
pub struct Polar {
    pub radius: Rational,
    pub angle: Degree,
}

impl Polar {
    pub open spec fn wf(self) -> bool {
        &&& self.radius.wf()
        &&& 0 <= self.radius.num
        &&& self.angle.wf()
    }

    pub open spec fn spec_radius(&self) -> Rational {
        self.radius
    }

    pub open spec fn spec_angle(&self) -> Degree {
        self.angle
    }

    /// The result of `scale`: the radius is multiplied by `factor` and the
    /// angle is either kept or overridden.
    pub open spec fn spec_scale(self, factor: Rational, angle_override: Option<Degree>) -> Polar {
        Polar {
            radius: self.radius.spec_mul(factor),
            angle: match angle_override {
                Some(a) => a,
                None => self.angle,
            },
        }
    }

    pub fn new(radius: Rational, angle: Degree) -> (r: Polar)
        requires
            radius.wf(),
            0 <= radius.num,
            angle.wf(),
        ensures
            r == (Polar { radius, angle }),
            r.wf(),
    {
        Polar { radius, angle }
    }

    #[verifier::when_used_as_spec(spec_radius)]
    pub fn radius(&self) -> (r: Rational)
        ensures
            r == self.radius,
    {
        self.radius
    }

    #[verifier::when_used_as_spec(spec_angle)]
    pub fn angle(&self) -> (r: Degree)
        ensures
            r == self.angle,
    {
        self.angle
    }

    /// A new point with the radius multiplied by `factor`; the angle is kept,
    /// or replaced when `angle_override` is given. Every satellite anchor is
    /// derived from a letter's position this way.
    pub fn scale(self, factor: Rational, angle_override: Option<Degree>) -> (r: Polar)
        requires
            self.wf(),
            factor.wf(),
            0 <= factor.num,
            self.radius.num * factor.num <= i64::MAX,
            self.radius.den * factor.den <= i64::MAX,
            angle_override matches Some(a) ==> a.wf(),
        ensures
            r == self.spec_scale(factor, angle_override),
            r.wf(),
    {
        Polar {
            radius: self.radius.mul(factor),
            angle: match angle_override {
                Some(a) => a,
                None => self.angle,
            },
        }
    }

    /// A new point with the radius shrunk by `divisor`'s radius and the angle
    /// rotated by `divisor`'s angle.
    pub fn divide(self, divisor: Polar) -> (r: Polar)
        requires
            self.wf(),
            divisor.wf(),
            1 <= divisor.radius.num,
            self.radius.num * divisor.radius.den <= i64::MAX,
            self.radius.den * divisor.radius.num <= i64::MAX,
            i64::MIN <= self.angle.0.num * divisor.angle.0.den <= i64::MAX,
            i64::MIN <= divisor.angle.0.num * self.angle.0.den <= i64::MAX,
            i64::MIN <= self.angle.0.num * divisor.angle.0.den + divisor.angle.0.num
                * self.angle.0.den <= i64::MAX,
            self.angle.0.den * divisor.angle.0.den <= i64::MAX,
        ensures
            r.radius.num == self.radius.num * divisor.radius.den,
            r.radius.den == self.radius.den * divisor.radius.num,
            r.angle == self.angle.spec_add(divisor.angle),
            r.wf(),
    {
        proof {
            assert(0 <= self.radius.num * divisor.radius.den) by (nonlinear_arith)
                requires
                    0 <= self.radius.num,
                    1 <= divisor.radius.den,
            ;
            assert(1 <= self.radius.den * divisor.radius.num) by (nonlinear_arith)
                requires
                    1 <= self.radius.den,
                    1 <= divisor.radius.num,
            ;
        }
        Polar {
            radius: Rational {
                num: self.radius.num * divisor.radius.den,
                den: self.radius.den * divisor.radius.num,
            },
            angle: self.angle.add(divisor.angle),
        }
    }
}

/// Every cross product of two scalars within `COORD_CAP` fits in `i64`;
/// discharges the overflow preconditions of the rational operations.
pub proof fn lemma_bounded_products(a: Rational, b: Rational)
    requires
        a.bounded(COORD_CAP as int),
        b.bounded(COORD_CAP as int),
    ensures
        i64::MIN <= a.num * b.num <= i64::MAX,
        i64::MIN <= a.num * b.den <= i64::MAX,
        i64::MIN <= b.num * a.den <= i64::MAX,
        i64::MIN <= a.num * b.den + b.num * a.den <= i64::MAX,
        i64::MIN <= a.num * b.den - b.num * a.den <= i64::MAX,
        1 <= a.den * b.den <= i64::MAX,
{
    assert(-0x4000_0000i64 * 0x4000_0000i64 <= a.num * b.num <= 0x4000_0000i64 * 0x4000_0000i64)
        by (nonlinear_arith)
        requires
            -0x4000_0000i64 <= a.num <= 0x4000_0000i64,
            -0x4000_0000i64 <= b.num <= 0x4000_0000i64,
    ;
    assert(-0x4000_0000i64 * 0x4000_0000i64 <= a.num * b.den <= 0x4000_0000i64 * 0x4000_0000i64)
        by (nonlinear_arith)
        requires
            -0x4000_0000i64 <= a.num <= 0x4000_0000i64,
            1 <= b.den <= 0x4000_0000i64,
    ;
    assert(-0x4000_0000i64 * 0x4000_0000i64 <= b.num * a.den <= 0x4000_0000i64 * 0x4000_0000i64)
        by (nonlinear_arith)
        requires
            -0x4000_0000i64 <= b.num <= 0x4000_0000i64,
            1 <= a.den <= 0x4000_0000i64,
    ;
    assert(1 <= a.den * b.den <= 0x4000_0000i64 * 0x4000_0000i64) by (nonlinear_arith)
        requires
            1 <= a.den <= 0x4000_0000i64,
            1 <= b.den <= 0x4000_0000i64,
    ;
}

/// Scaling by one with no angle override returns the point unchanged.
pub proof fn lemma_scale_identity(p: Polar)
    ensures
        p.spec_scale(Rational { num: 1, den: 1 }, None) == p,
{
}

/// Preconditions of the geometry that are violated by the input, reported
/// rather than computed through: a degenerate law-of-sines triangle, a layout
/// without consonants, or a vowel, whose shape is not implemented.
#[derive(Clone, Copy, PartialEq, Eq, Structural, Debug)]
pub enum GeometryError {
    /// The law-of-sines ratio lies outside the domain of `asin`.
    DegenerateTriangle,
    /// A layout over a word with no consonants has no angular step.
    NoConsonants,
    /// A vowel was asked for its shape; vowel geometry is an open gap.
    UnimplementedVowel,
}

/// The characteristic angular offset constant of an open base shape.
/// Its sine is exact: sin 30 = 1/2 and sin 90 = 1.
#[derive(Clone, Copy, PartialEq, Eq, Structural, Debug)]
pub enum BaseOffset {
    /// 30 degrees, the offset of the crescent shape's gap.
    Crescent,
    /// 90 degrees, the offset of the quarter shape's gap.
    Quarter,
}

impl BaseOffset {
    /// The offset in whole degrees.
    pub open spec fn degrees(self) -> int {
        match self {
            BaseOffset::Crescent => 30,
            BaseOffset::Quarter => 90,
        }
    }

}

/// `|known/unknown * sin(offset)| <= 1` with `unknown` not zero, written over
/// the exact sine of the offset (sin 30 = 1/2, sin 90 = 1), by cross
/// multiplication; exactly the inputs on which the law-of-sines solve is
/// defined. Meaningful for `known`, `unknown` well formed and not negative.
pub open spec fn sine_ratio_in_range(known: Rational, unknown: Rational, offset: BaseOffset) -> bool {
    &&& 0 < unknown.num
    &&& match offset {
        BaseOffset::Crescent => known.num * unknown.den <= 2 * (unknown.num * known.den),
        BaseOffset::Quarter => known.num * unknown.den <= unknown.num * known.den,
    }
}

/// The angle `asin(known/unknown * sin(offset))` in degrees, kept symbolic:
/// its value is irrational, so it is evaluated only by the rendering front
/// end. A value of this type is only ever built by `law_of_sines_angle`,
/// which checks that the ratio lies in the domain of `asin`.
#[derive(Clone, Copy, PartialEq, Eq, Structural, Debug)]
pub struct SineAngle {
    pub known: Rational,
    pub unknown: Rational,
    pub offset: BaseOffset,
}

impl SineAngle {
    pub open spec fn wf(self) -> bool {
        &&& self.known.wf()
        &&& 0 <= self.known.num
        &&& self.unknown.wf()
        &&& sine_ratio_in_range(self.known, self.unknown, self.offset)
    }
}

/// The angle opposite `known` in a triangle with a side `unknown` opposite
/// the angle `offset`: `asin(known/unknown * sin(offset))`. Fails, and never
/// produces an undefined value, when the sine ratio lies outside `[-1, 1]`
/// or the triangle is degenerate (`unknown` zero).
pub fn law_of_sines_angle(known: Rational, unknown: Rational, offset: BaseOffset) -> (r: Result<
    SineAngle,
    GeometryError,
>)
    requires
        known.wf(),
        0 <= known.num,
        unknown.wf(),
        0 <= unknown.num,
        known.bounded(COORD_CAP as int),
        unknown.bounded(COORD_CAP as int),
    ensures
        sine_ratio_in_range(known, unknown, offset) <==> (r matches Ok(a) && a == (SineAngle {
            known,
            unknown,
            offset,
        })),
        !sine_ratio_in_range(known, unknown, offset) <==> (r matches Err(
            GeometryError::DegenerateTriangle,
        )),
{
    proof {
        assert(known.num * unknown.den <= 0x4000_0000i64 * 0x4000_0000i64) by (nonlinear_arith)
            requires
                0 <= known.num <= 0x4000_0000i64,
                1 <= unknown.den <= 0x4000_0000i64,
        ;
        assert(unknown.num * known.den <= 0x4000_0000i64 * 0x4000_0000i64) by (nonlinear_arith)
            requires
                0 <= unknown.num <= 0x4000_0000i64,
                1 <= known.den <= 0x4000_0000i64,
        ;
        assert(0 <= known.num * unknown.den) by (nonlinear_arith)
            requires
                0 <= known.num,
                1 <= unknown.den,
        ;
        assert(0 <= unknown.num * known.den) by (nonlinear_arith)
            requires
                0 <= unknown.num,
                1 <= known.den,
        ;
    }
    if unknown.num <= 0 {
        return Err(GeometryError::DegenerateTriangle);
    }
    let lhs: i64 = known.num * unknown.den;
    let rhs: i64 = match offset {
        BaseOffset::Crescent => 2 * (unknown.num * known.den),
        BaseOffset::Quarter => unknown.num * known.den,
    };
    if lhs <= rhs {
        Ok(SineAngle { known, unknown, offset })
    } else {
        Err(GeometryError::DegenerateTriangle)
    }
}

/// One endpoint of a stitching arc: the letter's own angle, shifted by the
/// law-of-sines half-width of its gap (widened for an ending edge, narrowed
/// for a starting edge).
#[derive(Clone, Copy, PartialEq, Eq, Structural, Debug)]
pub struct EdgeAngle {
    /// The angle of the letter the edge belongs to.
    pub anchor: Degree,
    /// The angular half-width of the letter's gap.
    pub width: SineAngle,
    /// True for `anchor + width` (an ending edge), false for
    /// `anchor - width` (a starting edge).
    pub positive: bool,
}

impl EdgeAngle {
    pub open spec fn wf(self) -> bool {
        &&& self.anchor.wf()
        &&& self.width.wf()
    }
}

/// An ordered range of angles, swept from `start` to `end`.
#[derive(Clone, Copy, PartialEq, Eq, Structural, Debug)]
pub struct AngleRange {
    pub start: Degree,
    pub end: Degree,
}

/// One stroke of the word, described exactly in the polar frame. The
/// rendering front end samples each variant into a sequence of Cartesian
/// points: an `Arc` sweeps the satellite around the centre through the range,
/// a `Dot` is a point cluster and a `Line` a short radiating segment at
/// `centre + satellite`, and a `StitchArc` connects two edge angles about the
/// word's midpoint at the given radius.
#[derive(Clone, Copy, PartialEq, Eq, Structural, Debug)]
pub enum Drawing {
    Arc { center: Polar, satellite: Polar, range: AngleRange },
    Dot { center: Polar, satellite: Polar, direction: Degree },
    Line { center: Polar, satellite: Polar, direction: Degree },
    StitchArc { radius: Rational, start: EdgeAngle, end: EdgeAngle },
}

/// An arc: the satellite swept around `center` through `range`; a 360
/// degree range yields a closed ring.
pub fn arc(center: Polar, satellite: Polar, range: AngleRange) -> (r: Drawing)
    requires
        center.wf(),
        satellite.wf(),
        range.start.wf(),
        range.end.wf(),
    ensures
        r == (Drawing::Arc { center, satellite, range }),
{
    Drawing::Arc { center, satellite, range }
}

/// A small point cluster at `center + satellite`, oriented by `direction`.
pub fn dot(center: Polar, satellite: Polar, direction: Degree) -> (r: Drawing)
    requires
        center.wf(),
        satellite.wf(),
        direction.wf(),
    ensures
        r == (Drawing::Dot { center, satellite, direction }),
{
    Drawing::Dot { center, satellite, direction }
}

/// A short segment radiating from the shape boundary at `direction`.
pub fn line(center: Polar, satellite: Polar, direction: Degree) -> (r: Drawing)
    requires
        center.wf(),
        satellite.wf(),
        direction.wf(),
    ensures
        r == (Drawing::Line { center, satellite, direction }),
{
    Drawing::Line { center, satellite, direction }
}

/// The connecting arc about the word's midpoint from one edge angle to the
/// next, at the given radius.
pub fn draw_arc(radius: Rational, start: EdgeAngle, end: EdgeAngle) -> (r: Drawing)
    requires
        radius.wf(),
        0 <= radius.num,
        start.wf(),
        end.wf(),
    ensures
        r == (Drawing::StitchArc { radius, start, end }),
{
    Drawing::StitchArc { radius, start, end }
}

} // verus!
