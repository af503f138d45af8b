use salah::angle::Angle;

#[test]
fn angle_unwound() {
    assert_eq!(Angle::new(-45_000_000).unwound(), Angle::new(315_000_000));
    assert_eq!(Angle::new(361_000_000).unwound(), Angle::new(1_000_000));
    assert_eq!(Angle::new(360_000_000).unwound(), Angle::new(0));
    assert_eq!(Angle::new(259_000_000).unwound(), Angle::new(259_000_000));
    assert_eq!(Angle::new(2_592_000_000).unwound(), Angle::new(72_000_000));
}

#[test]
fn unwound_is_idempotent() {
    let values: [i64; 6] = [-45_000_000, 361_000_000, 360_000_000, 0, 2_592_000_000, -720_000_001];
    for v in values {
        let once = Angle::new(v).unwound();
        assert_eq!(once.unwound(), once);
        assert!(0 <= once.microdegrees && once.microdegrees < 360_000_000);
    }
}

#[test]
fn closest_angle() {
    assert_eq!(Angle::new(360_000_000).quadrant_shifted(), Angle::new(0));
    assert_eq!(Angle::new(361_000_000).quadrant_shifted(), Angle::new(1_000_000));
    assert_eq!(Angle::new(1_000_000).quadrant_shifted(), Angle::new(1_000_000));
    assert_eq!(Angle::new(-1_000_000).quadrant_shifted(), Angle::new(-1_000_000));
    assert_eq!(Angle::new(-181_000_000).quadrant_shifted(), Angle::new(179_000_000));
    assert_eq!(Angle::new(180_000_000).quadrant_shifted(), Angle::new(180_000_000));
    assert_eq!(Angle::new(359_000_000).quadrant_shifted(), Angle::new(-1_000_000));
    assert_eq!(Angle::new(-359_000_000).quadrant_shifted(), Angle::new(1_000_000));
    assert_eq!(Angle::new(1_261_000_000).quadrant_shifted(), Angle::new(-179_000_000));
}

#[test]
fn quadrant_shifted_is_idempotent() {
    let values: [i64; 7] = [360_000_000, -181_000_000, 180_000_000, -180_000_000, 1_261_000_000, 0, 540_000_000];
    for v in values {
        let once = Angle::new(v).quadrant_shifted();
        assert_eq!(once.quadrant_shifted(), once);
        assert!(-180_000_000 <= once.microdegrees && once.microdegrees <= 180_000_000);
    }
}

#[test]
fn normalization_accepts_the_whole_machine_range() {
    assert_eq!(Angle::new(i64::MIN).unwound(), Angle::new(305_224_192));
    assert_eq!(Angle::new(i64::MIN).quadrant_shifted(), Angle::new(-54_775_808));
    assert_eq!(Angle::new(i64::MAX).unwound(), Angle::new(54_775_807));
    assert_eq!(Angle::new(i64::MAX).quadrant_shifted(), Angle::new(54_775_807));
}

#[test]
fn adding_angles() {
    let angle_a = Angle::new(45_000_000);
    let angle_b = Angle::new(45_000_000);
    assert_eq!(angle_a.plus(angle_b), Angle::new(90_000_000));
    assert_eq!(angle_a.minus(angle_b), Angle::new(0));
    assert_eq!(Angle::new(10_000_000).minus(Angle::new(25_000_000)), Angle::new(-15_000_000));
}

#[test]
fn multiplying_and_dividing_angles() {
    // Two degrees times three degrees is six degrees.
    assert_eq!(Angle::new(2_000_000).times(Angle::new(3_000_000)), Angle::new(6_000_000));
    // Negating by a factor of minus one.
    assert_eq!(Angle::new(45_000_000).times(Angle::new(-1_000_000)), Angle::new(-45_000_000));
    // Ninety degrees over a full turn is a quarter of a degree.
    assert_eq!(Angle::new(90_000_000).divided_by(Angle::new(360_000_000)), Angle::new(250_000));
    // Seven over two is three and a half degrees.
    assert_eq!(Angle::new(7_000_000).divided_by(Angle::new(2_000_000)), Angle::new(3_500_000));
    // One over three truncates toward zero at the microdegree.
    assert_eq!(Angle::new(1_000_000).divided_by(Angle::new(3_000_000)), Angle::new(333_333));
    assert_eq!(Angle::new(-1_000_000).divided_by(Angle::new(3_000_000)), Angle::new(-333_333));
}

#[test]
fn half_turn_resolves_away_from_zero() {
    assert_eq!(Angle::new(540_000_000).quadrant_shifted(), Angle::new(-180_000_000));
    assert_eq!(Angle::new(-540_000_000).quadrant_shifted(), Angle::new(180_000_000));
}
