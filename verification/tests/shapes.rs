use gallifreyan::letter_parts::{Base, Modifier};
use gallifreyan::letters::GallifreyanLetter;
use gallifreyan::math_util::{AngleRange, Degree, Drawing, Polar, Rational};

fn at(angle_deg: i64) -> Polar {
    Polar::new(Rational::new(2, 1), Degree::whole(angle_deg))
}

fn size() -> Rational {
    Rational::new(2, 1)
}

#[test]
fn crescent_arc_leaves_a_sixty_degree_gap() {
    // arc from angle+30 to angle+330 at 0.9 times the satellite radius
    let d = Base::Crescent.to_drawing(at(0), size());
    assert_eq!(
        d,
        Drawing::Arc {
            center: at(0),
            satellite: Polar::new(Rational { num: 18, den: 10 }, Degree::whole(0)),
            range: AngleRange {
                start: Degree(Rational { num: 30, den: 1 }),
                end: Degree(Rational { num: 330, den: 1 }),
            },
        }
    );
}

#[test]
fn full_ring_is_closed_at_one_point_two_scale() {
    let d = Base::Full.to_drawing(at(0), size());
    assert_eq!(
        d,
        Drawing::Arc {
            center: at(0),
            satellite: Polar::new(Rational { num: 24, den: 10 }, Degree::whole(0)),
            range: AngleRange {
                start: Degree(Rational { num: 0, den: 1 }),
                end: Degree(Rational { num: 360, den: 1 }),
            },
        }
    );
}

#[test]
fn quarter_arc_leaves_a_wide_gap() {
    // arc from angle+95 to angle+265 at the plain satellite radius
    let d = Base::Quarter.to_drawing(at(45), size());
    match d {
        Drawing::Arc { center, satellite, range } => {
            assert_eq!(center, at(45));
            assert_eq!(satellite.radius(), Rational { num: 20, den: 10 });
            assert!(range.start.0.eqv(Rational::new(140, 1)));
            assert!(range.end.0.eqv(Rational::new(310, 1)));
        }
        _ => panic!("a base shape draws an arc"),
    }
}

#[test]
fn new_ring_is_closed_at_plain_scale() {
    let d = Base::New.to_drawing(at(0), size());
    match d {
        Drawing::Arc { satellite, range, .. } => {
            assert_eq!(satellite.radius(), Rational { num: 20, den: 10 });
            assert!(range.start.0.eqv(Rational::new(0, 1)));
            assert!(range.end.0.eqv(Rational::new(360, 1)));
        }
        _ => panic!("a base shape draws an arc"),
    }
}

#[test]
fn only_open_shapes_have_an_edge() {
    assert!(Base::Crescent.has_edge());
    assert!(Base::Quarter.has_edge());
    assert!(!Base::Full.has_edge());
    assert!(!Base::New.has_edge());
    assert!(!Base::Vowel.has_edge());
}

#[test]
fn dot_counts_and_offsets() {
    let p = at(0);
    let blank = Modifier::Blank.to_drawings(p, size(), Base::Crescent);
    assert_eq!(blank.len(), 0);
    let one = Modifier::Dot1.to_drawings(p, size(), Base::Crescent);
    assert_eq!(one.len(), 1);
    let two = Modifier::Dot2.to_drawings(p, size(), Base::Crescent);
    assert_eq!(two.len(), 2);
    let three = Modifier::Dot3.to_drawings(p, size(), Base::Crescent);
    assert_eq!(three.len(), 3);
    let four = Modifier::Dot4.to_drawings(p, size(), Base::Crescent);
    assert_eq!(four.len(), 4);
    match (&two[0], &two[1]) {
        (
            Drawing::Dot { direction: d0, .. },
            Drawing::Dot { direction: d1, .. },
        ) => {
            assert!(d0.0.eqv(Rational::new(-45, 1)));
            assert!(d1.0.eqv(Rational::new(45, 1)));
        }
        _ => panic!("dot modifiers draw dots"),
    }
    match &four[1] {
        Drawing::Dot { direction, .. } => assert!(direction.0.eqv(Rational::new(-15, 1))),
        _ => panic!("dot modifiers draw dots"),
    }
}

#[test]
fn line_counts_and_kind() {
    let p = at(0);
    let one = Modifier::Line1(Degree::whole(10)).to_drawings(p, size(), Base::Full);
    assert_eq!(one.len(), 1);
    match &one[0] {
        Drawing::Line { direction, .. } => assert!(direction.0.eqv(Rational::new(10, 1))),
        _ => panic!("line modifiers draw lines"),
    }
    let two = Modifier::Line2.to_drawings(p, size(), Base::Full);
    assert_eq!(two.len(), 2);
    let three = Modifier::Line3.to_drawings(p, size(), Base::Full);
    assert_eq!(three.len(), 3);
}

#[test]
fn decoration_anchor_scale_follows_the_base_shape() {
    let p = at(0);
    // crescent: 1.1x of the satellite radius 2 -> 22/10
    match &Modifier::Dot1.to_drawings(p, size(), Base::Crescent)[0] {
        Drawing::Dot { satellite, .. } => {
            assert!(satellite.radius().eqv(Rational::new(22, 10)));
        }
        _ => panic!("dot modifiers draw dots"),
    }
    // full: 1.4x -> 28/10
    match &Modifier::Dot1.to_drawings(p, size(), Base::Full)[0] {
        Drawing::Dot { satellite, .. } => {
            assert!(satellite.radius().eqv(Rational::new(28, 10)));
        }
        _ => panic!("dot modifiers draw dots"),
    }
    // quarter and new: 0.2x -> 4/10
    match &Modifier::Dot1.to_drawings(p, size(), Base::Quarter)[0] {
        Drawing::Dot { satellite, .. } => {
            assert!(satellite.radius().eqv(Rational::new(4, 10)));
        }
        _ => panic!("dot modifiers draw dots"),
    }
    match &Modifier::Dot1.to_drawings(p, size(), Base::New)[0] {
        Drawing::Dot { satellite, .. } => {
            assert!(satellite.radius().eqv(Rational::new(4, 10)));
        }
        _ => panic!("dot modifiers draw dots"),
    }
}

#[test]
fn alphabet_families_share_their_shape() {
    let p = at(0);
    let ch = GallifreyanLetter::CH.to_gallifreyan_character(p);
    assert_eq!(ch.base, Base::Crescent);
    assert_eq!(ch.modifier, Modifier::Dot2);
    assert_eq!(ch.size, Rational { num: 2, den: 1 });
    assert_eq!(ch.position, p);
    let b = GallifreyanLetter::B.to_gallifreyan_character(p);
    assert_eq!(b.base, Base::Crescent);
    assert_eq!(b.modifier, Modifier::Blank);
    let c = GallifreyanLetter::C.to_gallifreyan_character(p);
    assert_eq!(c.base, Base::Full);
    assert_eq!(c.modifier, Modifier::Dot4);
    let n = GallifreyanLetter::N.to_gallifreyan_character(p);
    assert_eq!(n.base, Base::Full);
    assert_eq!(n.modifier, Modifier::Line1(Degree::whole(0)));
    let t = GallifreyanLetter::T.to_gallifreyan_character(p);
    assert_eq!(t.base, Base::Quarter);
    assert_eq!(t.modifier, Modifier::Blank);
    let s = GallifreyanLetter::S.to_gallifreyan_character(p);
    assert_eq!(s.base, Base::Quarter);
    assert_eq!(s.modifier, Modifier::Line3);
    let x = GallifreyanLetter::X.to_gallifreyan_character(p);
    assert_eq!(x.base, Base::New);
    assert_eq!(x.modifier, Modifier::Line2);
    let ng = GallifreyanLetter::NG.to_gallifreyan_character(p);
    assert_eq!(ng.base, Base::New);
    assert_eq!(ng.modifier, Modifier::Line3);
}

#[test]
fn character_drawing_counts() {
    let p = at(0);
    let t = GallifreyanLetter::T.to_gallifreyan_character(p);
    assert!(t.draw_modifier().is_none());
    let d = GallifreyanLetter::D.to_gallifreyan_character(p);
    let marks = d.draw_modifier().expect("D carries three dots");
    assert_eq!(marks.len(), 3);
    match d.draw_base() {
        Drawing::Arc { .. } => {}
        _ => panic!("a base shape draws an arc"),
    }
}

#[test]
fn edge_angles_carry_the_gap_half_width() {
    let p = at(0);
    let t = GallifreyanLetter::T.to_gallifreyan_character(p);
    assert!(t.has_edge());
    let start = t
        .starting_angle()
        .expect("radius 2 at size 2 is within range")
        .expect("an open shape has a starting angle");
    let end = t
        .ending_angle()
        .expect("radius 2 at size 2 is within range")
        .expect("an open shape has an ending angle");
    assert_eq!(start.anchor, Degree::whole(0));
    assert_eq!(end.anchor, Degree::whole(0));
    assert!(!start.positive);
    assert!(end.positive);
    assert_eq!(start.width, end.width);
    assert_eq!(start.width.known, Rational { num: 2, den: 1 });
    assert_eq!(start.width.unknown, Rational { num: 2, den: 1 });
    // a closed shape has no edge angles
    let x = GallifreyanLetter::X.to_gallifreyan_character(p);
    assert!(!x.has_edge());
    assert_eq!(x.starting_angle(), Ok(None));
    assert_eq!(x.ending_angle(), Ok(None));
}

#[test]
fn edge_angle_fails_when_the_ring_is_too_wide() {
    // quarter gap: radius 6 against size 2 exceeds the domain of asin
    let far = Polar::new(Rational::new(6, 1), Degree::whole(0));
    let t = GallifreyanLetter::T.to_gallifreyan_character(far);
    assert!(t.starting_angle().is_err());
    assert!(t.ending_angle().is_err());
}
