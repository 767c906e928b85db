use avr_q::{lin_inter, CurvePoint, FixedPoint, Q7p8};

fn point(x: i8, y: i8) -> (Q7p8, Q7p8) {
    (Q7p8::from_int(x), Q7p8::from_int(y))
}

#[test]
fn interpolation_on_a_line() {
    let left = point(1, 10);
    let right = point(5, 20);
    // dy / dx = 2.5; (3 - 1) * 2.5 + 10 = 15
    assert_eq!(lin_inter(Q7p8::from_int(3), &left, &right), Q7p8::from_int(15));
    assert_eq!(Q7p8::from_int(3).lin_inter(&left, &right), Q7p8::from_int(15));
    assert_eq!(lin_inter(Q7p8::from_int(1), &left, &right), Q7p8::from_int(10));
    assert_eq!(lin_inter(Q7p8::from_int(5), &left, &right), Q7p8::from_int(20));
    assert_eq!(lin_inter(Q7p8::from_fraction(3, 2), &left, &right).to_q(), 0x0B40);
}

#[test]
fn interpolation_with_falling_slope() {
    let left = point(0, 8);
    let right = point(4, 0);
    assert_eq!(lin_inter(Q7p8::from_int(1), &left, &right), Q7p8::from_int(6));
    assert_eq!(lin_inter(Q7p8::from_int(3), &left, &right), Q7p8::from_int(2));
    // Outside the interval the line is continued.
    assert_eq!(lin_inter(Q7p8::from_int(6), &left, &right), Q7p8::from_int(-4));
}

#[test]
fn interpolation_of_a_zero_width_interval() {
    let left = point(3, 7);
    let right = point(3, 99);
    for x in [i16::MIN, -256, 0, 1, 0x0300, i16::MAX] {
        assert_eq!(lin_inter(Q7p8::from_q(x), &left, &right), left.1);
        assert_eq!(Q7p8::from_q(x).lin_inter(&left, &right), left.1);
    }
}

#[test]
fn interpolation_saturates() {
    let left = point(0, 100);
    let right = point(1, 120);
    // 100 + 20 * 2 is past the largest value.
    assert_eq!(lin_inter(Q7p8::from_int(2), &left, &right).to_q(), i16::MAX);
}

#[test]
fn curve_point_accessors() {
    let p = point(2, -3);
    assert_eq!(p.x(), Q7p8::from_int(2));
    assert_eq!(p.y(), Q7p8::from_int(-3));
}

#[test]
fn format_capability_matches_the_operations() {
    let a = Q7p8::from_fraction(7, 3);
    let b = Q7p8::from_fraction(1, 3);
    assert_eq!(a.plus(b), a.add(b));
    assert_eq!(a.minus(b), a.sub(b));
    assert_eq!(a.times(b), a.mul(b));
    assert_eq!(a.over(b), a.div(b));
    assert!(Q7p8::from_int(0).is_zero());
    assert!(!b.is_zero());
}
