use gallifreyan::math_util::{
    law_of_sines_angle, BaseOffset, Degree, GeometryError, Polar, Rational, SineAngle,
};

#[test]
fn rational_arithmetic_is_exact() {
    let a = Rational::new(1, 2);
    let b = Rational::new(1, 3);
    assert_eq!(a.add(b), Rational { num: 5, den: 6 });
    assert_eq!(a.sub(b), Rational { num: 1, den: 6 });
    assert_eq!(a.mul(b), Rational { num: 1, den: 6 });
}

#[test]
fn rational_equivalence_and_order() {
    let half = Rational::new(1, 2);
    let two_quarters = Rational::new(2, 4);
    let third = Rational::new(1, 3);
    assert!(half.eqv(two_quarters));
    assert!(!half.eqv(third));
    assert!(third.le(half));
    assert!(!half.le(third));
    assert!(half.le(two_quarters));
}

#[test]
fn scale_by_one_returns_the_input() {
    // scaling by 1.0 with no angle override is the identity
    let p = Polar::new(Rational::new(3, 2), Degree::whole(45));
    assert_eq!(p.scale(Rational::new(1, 1), None), p);
}

#[test]
fn scale_multiplies_radius_and_can_override_angle() {
    let p = Polar::new(Rational::new(2, 1), Degree::whole(30));
    let scaled = p.scale(Rational::new(9, 10), None);
    assert_eq!(scaled.radius(), Rational { num: 18, den: 10 });
    assert_eq!(scaled.angle(), Degree::whole(30));
    let overridden = p.scale(Rational::new(12, 10), Some(Degree::whole(0)));
    assert_eq!(overridden.radius(), Rational { num: 24, den: 10 });
    assert_eq!(overridden.angle(), Degree::whole(0));
}

#[test]
fn divide_shrinks_radius_and_rotates() {
    let p = Polar::new(Rational::new(6, 1), Degree::whole(40));
    let d = Polar::new(Rational::new(2, 1), Degree::whole(15));
    let q = p.divide(d);
    assert!(q.radius().eqv(Rational::new(3, 1)));
    assert!(q.angle().0.eqv(Rational::new(55, 1)));
}

#[test]
fn law_of_sines_in_range_keeps_its_arguments() {
    // asin(1/2 * sin 30) is defined: the symbolic angle carries the inputs
    let known = Rational::new(1, 1);
    let unknown = Rational::new(2, 1);
    assert_eq!(
        law_of_sines_angle(known, unknown, BaseOffset::Crescent),
        Ok(SineAngle { known, unknown, offset: BaseOffset::Crescent })
    );
}

#[test]
fn law_of_sines_accepts_a_ratio_of_exactly_one() {
    // sin 90 = 1, so known == unknown sits exactly on the domain edge
    let known = Rational::new(2, 1);
    let unknown = Rational::new(2, 1);
    assert_eq!(
        law_of_sines_angle(known, unknown, BaseOffset::Quarter),
        Ok(SineAngle { known, unknown, offset: BaseOffset::Quarter })
    );
    // for the crescent offset the bound is twice the unknown side
    let known = Rational::new(4, 1);
    assert_eq!(
        law_of_sines_angle(known, unknown, BaseOffset::Crescent),
        Ok(SineAngle { known, unknown, offset: BaseOffset::Crescent })
    );
}

#[test]
fn law_of_sines_fails_outside_the_domain_of_asin() {
    // |known/unknown * sin(offset)| > 1 is an error, never an undefined value
    assert_eq!(
        law_of_sines_angle(Rational::new(3, 1), Rational::new(1, 1), BaseOffset::Quarter),
        Err(GeometryError::DegenerateTriangle)
    );
    assert_eq!(
        law_of_sines_angle(Rational::new(5, 1), Rational::new(2, 1), BaseOffset::Crescent),
        Err(GeometryError::DegenerateTriangle)
    );
}

#[test]
fn law_of_sines_fails_on_a_degenerate_triangle() {
    // an unknown side of zero has no defined ratio
    assert_eq!(
        law_of_sines_angle(Rational::new(1, 1), Rational::new(0, 1), BaseOffset::Quarter),
        Err(GeometryError::DegenerateTriangle)
    );
}

#[test]
fn degree_addition_and_subtraction() {
    let a = Degree(Rational::new(30, 1));
    let b = Degree(Rational::new(45, 1));
    assert!(a.add(b).0.eqv(Rational::new(75, 1)));
    assert!(a.sub(b).0.eqv(Rational::new(-15, 1)));
    // mixed denominators stay exact
    let c = Degree(Rational::new(1, 3));
    let d = Degree(Rational::new(1, 6));
    assert!(c.add(d).0.eqv(Rational::new(1, 2)));
}
