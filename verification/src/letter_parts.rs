//! Shape and decoration catalog.
//!
//! A letter is one of five base shapes decorated by exactly one modifier
//! (`Blank` meaning none). A base shape is an arc of the letter's satellite
//! swept around its position; the open shapes (crescent, quarter) leave a gap
//! and therefore have an edge that the word layout stitches to the next open
//! shape. A modifier adds dots or radiating lines at fixed angular offsets,
//! anchored at a radial scale characteristic of the base shape.
//!
//! Vowel geometry is an open gap: the `Vowel` base variant is declared so the
//! catalog is structurally complete, but no drawing is defined for it, and
//! asking a vowel for geometry is reported as unimplemented rather than
//! silently defaulted.

use vstd::pervasive::arbitrary;
use vstd::prelude::*;

use crate::math_util::{
    arc, dot, lemma_bounded_products, line, AngleRange, Degree, Drawing, Polar, Rational,
    COORD_CAP,
};

verus! {

/// The five base shapes.
#[derive(Clone, Copy, PartialEq, Eq, Structural, Debug)]
pub enum Base {
    /// A small ring riding a consonant; its geometry is an open gap.
    Vowel,
    /// An open arc with a 60 degree gap, drawn at 0.9 times the satellite
    /// radius.
    Crescent,
    /// A closed ring at 1.2 times the satellite radius.
    Full,
    /// An open arc with a 170 degree gap, drawn at the plain satellite
    /// radius.
    Quarter,
    /// A closed ring at the plain satellite radius.
    New,
}

impl Base {
    /// Open shapes leave a gap in their arc and so have an edge to stitch.
    pub open spec fn spec_has_edge(self) -> bool {
        self is Crescent || self is Quarter
    }

    /// The factor applied to the satellite radius for the base arc.
    pub open spec fn ring_scale(self) -> Rational {
        match self {
            Base::Crescent => Rational { num: 9, den: 10 },
            Base::Full => Rational { num: 12, den: 10 },
            _ => Rational { num: 10, den: 10 },
        }
    }

    /// Where the base arc starts, in whole degrees past the letter's angle.
    pub open spec fn arc_start_deg(self) -> i64 {
        match self {
            Base::Crescent => 30,
            Base::Quarter => 95,
            _ => 0,
        }
    }

    /// Where the base arc ends, in whole degrees past the letter's angle.
    pub open spec fn arc_end_deg(self) -> i64 {
        match self {
            Base::Crescent => 330,
            Base::Quarter => 265,
            _ => 360,
        }
    }

    /// The radial anchor scale of a decoration on this base shape. Undefined
    /// for `Vowel`: vowels have no realized shape.
    pub open spec fn decoration_scale(self) -> Rational {
        match self {
            Base::Crescent => Rational { num: 11, den: 10 },
            Base::Full => Rational { num: 14, den: 10 },
            Base::Quarter => Rational { num: 2, den: 10 },
            Base::New => Rational { num: 2, den: 10 },
            Base::Vowel => arbitrary(),
        }
    }

    pub fn has_edge(self) -> (r: bool)
        ensures
            r == self.spec_has_edge(),
    {
        matches!(self, Base::Crescent | Base::Quarter)
    }

    /// The base arc of this shape for a letter at `position` with satellite
    /// radius `size`.
    pub fn to_drawing(self, position: Polar, size: Rational) -> (r: Drawing)
        requires
            !(self is Vowel),
            position.wf(),
            position.radius.bounded(COORD_CAP as int),
            position.angle.0.bounded(COORD_CAP as int),
            size.wf(),
            0 <= size.num,
            size.bounded(COORD_CAP as int),
        ensures
            r == spec_base_drawing(self, position, size),
    {
        let scale: Rational = match self {
            Base::Crescent => Rational::new(9, 10),
            Base::Full => Rational::new(12, 10),
            _ => Rational::new(10, 10),
        };
        let start: i64 = match self {
            Base::Crescent => 30,
            Base::Quarter => 95,
            _ => 0,
        };
        let end: i64 = match self {
            Base::Crescent => 330,
            Base::Quarter => 265,
            _ => 360,
        };
        proof {
            lemma_bounded_products(size, scale);
            assert(0 <= start * position.angle.0.den <= 360 * 0x4000_0000i64)
                by (nonlinear_arith)
                requires
                    0 <= start <= 360,
                    1 <= position.angle.0.den <= 0x4000_0000i64,
            ;
            assert(0 <= end * position.angle.0.den <= 360 * 0x4000_0000i64) by (nonlinear_arith)
                requires
                    0 <= end <= 360,
                    1 <= position.angle.0.den <= 0x4000_0000i64,
            ;
        }
        arc(
            position,
            Polar::new(size.mul(scale), Degree::whole(0)),
            AngleRange {
                start: position.angle().add(Degree::whole(start)),
                end: position.angle().add(Degree::whole(end)),
            },
        )
    }
}

/// The base arc of shape `base` for a letter at `position` with satellite
/// radius `size`. Undefined for `Vowel`.
pub open spec fn spec_base_drawing(base: Base, position: Polar, size: Rational) -> Drawing {
    Drawing::Arc {
        center: position,
        satellite: Polar {
            radius: size.spec_mul(base.ring_scale()),
            angle: Degree(Rational { num: 0, den: 1 }),
        },
        range: AngleRange {
            start: position.spec_angle().spec_add(
                Degree(Rational { num: base.arc_start_deg() as i64, den: 1 }),
            ),
            end: position.spec_angle().spec_add(
                Degree(Rational { num: base.arc_end_deg() as i64, den: 1 }),
            ),
        },
    }
}

/// The eight decorations that may wrap a base shape.
#[derive(Clone, Copy, PartialEq, Eq, Structural, Debug)]
pub enum Modifier {
    /// No mark.
    Blank,
    /// One dot.
    Dot1,
    /// Two dots.
    Dot2,
    /// Three dots.
    Dot3,
    /// Four dots.
    Dot4,
    /// One line at a caller-supplied angle.
    Line1(Degree),
    /// Two lines.
    Line2,
    /// Three lines.
    Line3,
}

impl Modifier {
    /// The angular offsets, relative to the letter's angle, at which this
    /// decoration places its marks; their number is the decoration's count.
    pub open spec fn angles(self) -> Seq<Degree> {
        match self {
            Modifier::Blank => Seq::empty(),
            Modifier::Dot1 => seq![Degree(Rational { num: 0, den: 1 })],
            Modifier::Dot2 => seq![
                Degree(Rational { num: -45i64, den: 1 }),
                Degree(Rational { num: 45, den: 1 }),
            ],
            Modifier::Dot3 => seq![
                Degree(Rational { num: -45i64, den: 1 }),
                Degree(Rational { num: 0, den: 1 }),
                Degree(Rational { num: 45, den: 1 }),
            ],
            Modifier::Dot4 => seq![
                Degree(Rational { num: -30i64, den: 1 }),
                Degree(Rational { num: -15i64, den: 1 }),
                Degree(Rational { num: 15, den: 1 }),
                Degree(Rational { num: 30, den: 1 }),
            ],
            Modifier::Line1(a) => seq![a],
            Modifier::Line2 => seq![
                Degree(Rational { num: -45i64, den: 1 }),
                Degree(Rational { num: 45, den: 1 }),
            ],
            Modifier::Line3 => seq![
                Degree(Rational { num: -45i64, den: 1 }),
                Degree(Rational { num: 0, den: 1 }),
                Degree(Rational { num: 45, den: 1 }),
            ],
        }
    }

    /// How many marks this decoration draws.
    pub open spec fn count(self) -> int {
        self.angles().len() as int
    }

    pub open spec fn spec_is_line(self) -> bool {
        self is Line1 || self is Line2 || self is Line3
    }

    pub fn is_line(self) -> (r: bool)
        ensures
            r == self.spec_is_line(),
    {
        matches!(self, Modifier::Line1(_) | Modifier::Line2 | Modifier::Line3)
    }

    /// Every angle this decoration carries is well formed and bounded (fixed
    /// offsets always are; `Line1` carries a caller-supplied angle).
    pub open spec fn wf(self) -> bool {
        match self {
            Modifier::Line1(a) => a.wf() && a.0.bounded(COORD_CAP as int),
            _ => true,
        }
    }

    /// The decoration drawings for a letter at `position` with satellite
    /// radius `size` on base shape `base`, one per angular offset, in offset
    /// order.
    pub fn to_drawings(self, position: Polar, size: Rational, base: Base) -> (r: Vec<Drawing>)
        requires
            !(base is Vowel),
            self.wf(),
            position.wf(),
            position.radius.bounded(COORD_CAP as int),
            position.angle.0.bounded(COORD_CAP as int),
            size.wf(),
            0 <= size.num,
            size.bounded(COORD_CAP as int),
        ensures
            r@ == spec_decorations(self, base, position, size),
    {
        let scale: Rational = match base {
            Base::Crescent => Rational::new(11, 10),
            Base::Full => Rational::new(14, 10),
            // quarter and new share the default anchor scale; vowels are
            // excluded by precondition
            _ => Rational::new(2, 10),
        };
        let mut angs: Vec<Degree> = Vec::new();
        match self {
            Modifier::Blank => {},
            Modifier::Dot1 => {
                angs.push(Degree::whole(0));
            },
            Modifier::Dot2 => {
                angs.push(Degree::whole(-45));
                angs.push(Degree::whole(45));
            },
            Modifier::Dot3 => {
                angs.push(Degree::whole(-45));
                angs.push(Degree::whole(0));
                angs.push(Degree::whole(45));
            },
            Modifier::Dot4 => {
                angs.push(Degree::whole(-30));
                angs.push(Degree::whole(-15));
                angs.push(Degree::whole(15));
                angs.push(Degree::whole(30));
            },
            Modifier::Line1(a) => {
                angs.push(a);
            },
            Modifier::Line2 => {
                angs.push(Degree::whole(-45));
                angs.push(Degree::whole(45));
            },
            Modifier::Line3 => {
                angs.push(Degree::whole(-45));
                angs.push(Degree::whole(0));
                angs.push(Degree::whole(45));
            },
        }
        proof {
            assert(angs@ =~= self.angles());
        }
        let draws_lines = self.is_line();
        let mut r: Vec<Drawing> = Vec::new();
        let mut i: usize = 0;
        while i < angs.len()
            invariant
                !(base is Vowel),
                angs@ == self.angles(),
                scale == base.decoration_scale(),
                draws_lines == self.spec_is_line(),
                i <= angs.len(),
                r@.len() == i as int,
                forall|j: int|
                    0 <= j < i ==> r@[j] == spec_decorations(self, base, position, size)[j],
                position.wf(),
                position.angle.0.bounded(COORD_CAP as int),
                size.wf(),
                0 <= size.num,
                size.bounded(COORD_CAP as int),
                self.wf(),
            decreases angs.len() - i,
        {
            let a = angs[i];
            proof {
                assert(a.0.bounded(COORD_CAP as int));
                lemma_bounded_products(position.angle.0, a.0);
                lemma_bounded_products(size, scale);
            }
            let direction = position.angle().add(a);
            let satellite = Polar::new(size.mul(scale), direction);
            if draws_lines {
                r.push(line(position, satellite, direction));
            } else {
                r.push(dot(position, satellite, direction));
            }
            i = i + 1;
        }
        proof {
            assert(r@ =~= spec_decorations(self, base, position, size));
        }
        r
    }
}

/// One decoration mark: a dot or a line at `position + satellite`, oriented
/// along `direction`.
pub open spec fn spec_decoration(
    line: bool,
    position: Polar,
    size: Rational,
    scale: Rational,
    a: Degree,
) -> Drawing {
    let direction = position.spec_angle().spec_add(a);
    let satellite = Polar { radius: size.spec_mul(scale), angle: direction };
    if line {
        Drawing::Line { center: position, satellite, direction }
    } else {
        Drawing::Dot { center: position, satellite, direction }
    }
}

/// All decoration marks of `modifier` on base shape `base` for a letter at
/// `position` with satellite radius `size`, in offset order.
pub open spec fn spec_decorations(
    modifier: Modifier,
    base: Base,
    position: Polar,
    size: Rational,
) -> Seq<Drawing> {
    Seq::new(
        modifier.angles().len(),
        |i: int|
            spec_decoration(
                modifier.spec_is_line(),
                position,
                size,
                base.decoration_scale(),
                modifier.angles()[i],
            ),
    )
}

} // verus!
