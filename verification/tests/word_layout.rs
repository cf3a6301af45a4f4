use gallifreyan::letters::GallifreyanWord;
use gallifreyan::math_util::{Degree, Drawing, GeometryError, Rational};

fn word(s: &str) -> GallifreyanWord {
    GallifreyanWord::from(s).expect("the word should parse")
}

fn radius(num: i64) -> Rational {
    Rational::new(num, 1)
}

#[test]
fn consonants_are_counted_without_vowels() {
    assert_eq!(word("TCHXD").count_consonants(), 4);
    assert_eq!(word("AEIOU").count_consonants(), 0);
    assert_eq!(word("TAB").count_consonants(), 2);
    assert_eq!(word("").count_consonants(), 0);
}

#[test]
fn four_consonants_sit_ninety_degrees_apart() {
    // T at -90, CH at 0, X at 90, D at 180, with step 360/4
    let positions = word("TCHXD")
        .letter_positions(radius(2))
        .expect("four consonants have a step");
    assert_eq!(positions.len(), 4);
    let angles: Vec<Degree> = positions.iter().map(|p| p.angle()).collect();
    assert!(angles[0].0.eqv(Rational::new(-90, 1)));
    assert!(angles[1].0.eqv(Rational::new(0, 1)));
    assert!(angles[2].0.eqv(Rational::new(90, 1)));
    assert!(angles[3].0.eqv(Rational::new(180, 1)));
    for p in &positions {
        assert_eq!(p.radius(), radius(2));
    }
}

#[test]
fn a_vowel_rides_the_most_recent_consonant() {
    let positions = word("TAB")
        .letter_positions(radius(2))
        .expect("two consonants have a step");
    assert_eq!(positions.len(), 3);
    // T and the riding A share slot 0; B takes slot 1
    assert_eq!(positions[0], positions[1]);
    assert!(positions[0].angle().0.eqv(Rational::new(-90, 1)));
    assert!(positions[2].angle().0.eqv(Rational::new(90, 1)));
}

#[test]
fn positions_of_a_word_with_no_consonants_fail() {
    assert_eq!(
        word("AEIOU").letter_positions(radius(2)),
        Err(GeometryError::NoConsonants)
    );
}

#[test]
fn layout_counts_bases_decorations_and_stitches() {
    // T: 1+0, CH: 1+2, X: 1+2, D: 1+3 drawings, then 3 stitching arcs
    // (T, CH and D have edges; X does not)
    let drawings = word("TCHXD")
        .to_drawings(radius(2))
        .expect("radius 2 lies within every gap's range");
    assert_eq!(drawings.len(), 14);
    let stitches = drawings
        .iter()
        .filter(|d| matches!(d, Drawing::StitchArc { .. }))
        .count();
    assert_eq!(stitches, 3);
}

#[test]
fn stitches_connect_each_open_shape_to_the_next() {
    // expected arcs: T -> CH, CH -> D, D -> T (closing the loop)
    let drawings = word("TCHXD")
        .to_drawings(radius(2))
        .expect("radius 2 lies within every gap's range");
    let arcs: Vec<&Drawing> = drawings
        .iter()
        .filter(|d| matches!(d, Drawing::StitchArc { .. }))
        .collect();
    let anchor_of = |d: &Drawing| match d {
        Drawing::StitchArc { start, end, .. } => (start.anchor, end.anchor),
        _ => unreachable!(),
    };
    let t = Degree(Rational::new(-360, 4));
    let ch = Degree(Rational::new(0, 4));
    let d = Degree(Rational::new(720, 4));
    assert_eq!(anchor_of(arcs[0]), (t, ch));
    assert_eq!(anchor_of(arcs[1]), (ch, d));
    assert_eq!(anchor_of(arcs[2]), (d, t));
    // every arc leaves an ending edge and lands on a starting edge
    for arc in &arcs {
        match arc {
            Drawing::StitchArc { radius: r, start, end } => {
                assert_eq!(*r, radius(2));
                assert!(start.positive);
                assert!(!end.positive);
            }
            _ => unreachable!(),
        }
    }
}

#[test]
fn layout_of_letters_without_edges_has_no_stitches() {
    // J (full ring) and X (new ring) are closed: no stitching arcs
    let drawings = word("JX")
        .to_drawings(radius(2))
        .expect("closed shapes need no law-of-sines solve");
    // J: 1+0, X: 1+2
    assert_eq!(drawings.len(), 4);
    assert!(drawings
        .iter()
        .all(|d| !matches!(d, Drawing::StitchArc { .. })));
}

#[test]
fn a_single_open_letter_stitches_to_itself() {
    let drawings = word("B")
        .to_drawings(radius(2))
        .expect("radius 2 lies within the crescent's range");
    // one base drawing and one wrap-around arc
    assert_eq!(drawings.len(), 2);
    match &drawings[1] {
        Drawing::StitchArc { start, end, .. } => {
            assert_eq!(start.anchor, end.anchor);
            assert!(start.positive);
            assert!(!end.positive);
        }
        _ => panic!("the second drawing is the wrap-around stitch"),
    }
}

#[test]
fn layout_fails_without_consonants() {
    // an all-vowel word has no angular step and is rejected, never
    // divided through by zero
    assert_eq!(
        word("AEIOU").to_drawings(radius(2)),
        Err(GeometryError::NoConsonants)
    );
    assert_eq!(
        word("").to_drawings(radius(2)),
        Err(GeometryError::NoConsonants)
    );
}

#[test]
fn layout_reports_the_unimplemented_vowel_shape() {
    assert_eq!(
        word("TA").to_drawings(radius(2)),
        Err(GeometryError::UnimplementedVowel)
    );
    assert_eq!(
        word("ATCHXD").to_drawings(radius(2)),
        Err(GeometryError::UnimplementedVowel)
    );
}

#[test]
fn layout_fails_when_a_gap_half_width_degenerates() {
    // a quarter gap tolerates a ring radius up to the letter size (2);
    // radius 6 makes the law-of-sines ratio exceed one
    assert_eq!(
        word("TCHXD").to_drawings(radius(6)),
        Err(GeometryError::DegenerateTriangle)
    );
    // a crescent gap tolerates up to twice the size: 4 passes, 9/2 fails
    assert!(word("BD").to_drawings(radius(4)).is_ok());
    assert_eq!(
        word("BD").to_drawings(Rational::new(9, 2)),
        Err(GeometryError::DegenerateTriangle)
    );
}

#[test]
fn no_consonant_error_takes_precedence_over_the_vowel_gap() {
    assert_eq!(
        word("A").to_drawings(radius(2)),
        Err(GeometryError::NoConsonants)
    );
}

#[test]
fn letter_drawings_precede_the_stitches_in_letter_order() {
    let drawings = word("TCHXD")
        .to_drawings(radius(2))
        .expect("radius 2 lies within every gap's range");
    // T's base arc is first and sits at the top of the ring
    match &drawings[0] {
        Drawing::Arc { center, .. } => {
            assert!(center.angle().0.eqv(Rational::new(-90, 1)));
            assert_eq!(center.radius(), radius(2));
        }
        _ => panic!("the first drawing is T's base arc"),
    }
    // CH's base arc follows, then its two dots
    match &drawings[1] {
        Drawing::Arc { center, .. } => assert!(center.angle().0.eqv(Rational::new(0, 1))),
        _ => panic!("the second drawing is CH's base arc"),
    }
    assert!(matches!(&drawings[2], Drawing::Dot { .. }));
    assert!(matches!(&drawings[3], Drawing::Dot { .. }));
    // X's base arc and two lines
    assert!(matches!(&drawings[4], Drawing::Arc { .. }));
    assert!(matches!(&drawings[5], Drawing::Line { .. }));
    assert!(matches!(&drawings[6], Drawing::Line { .. }));
    // D's base arc and three dots
    assert!(matches!(&drawings[7], Drawing::Arc { .. }));
    assert!(matches!(&drawings[8], Drawing::Dot { .. }));
    assert!(matches!(&drawings[9], Drawing::Dot { .. }));
    assert!(matches!(&drawings[10], Drawing::Dot { .. }));
}
