use uranian_dial::harmonics::{
    calculate_harmonic_position, calculate_original_position, from_harmonic_angle,
    to_harmonic_angle, Harmonic,
};

/// Degrees, given as a decimal number, in whole arcseconds.
fn arcsec(degrees: f64) -> i64 {
    (degrees * 3600.0).round() as i64
}

/// Arcseconds as a decimal number of degrees.
fn deg(arcseconds: i64) -> f64 {
    arcseconds as f64 / 3600.0
}

#[test]
fn test_harmonic_from_number() {
    assert_eq!(Harmonic::from_number(1), Harmonic::First);
    assert_eq!(Harmonic::from_number(2), Harmonic::Second);
    assert_eq!(Harmonic::from_number(4), Harmonic::Fourth);
    assert_eq!(Harmonic::from_number(8), Harmonic::Eighth);
    assert_eq!(Harmonic::from_number(16), Harmonic::Sixteenth);

    if let Harmonic::Custom(n) = Harmonic::from_number(7) {
        assert_eq!(n, 7);
    } else {
        panic!("Expected Custom(7)");
    }
}

#[test]
fn test_harmonic_to_number() {
    assert_eq!(Harmonic::First.to_number(), 1);
    assert_eq!(Harmonic::Second.to_number(), 2);
    assert_eq!(Harmonic::Fourth.to_number(), 4);
    assert_eq!(Harmonic::Eighth.to_number(), 8);
    assert_eq!(Harmonic::Sixteenth.to_number(), 16);
    assert_eq!(Harmonic::Custom(7).to_number(), 7);
}

#[test]
fn test_angle_span() {
    assert_eq!(deg(Harmonic::First.angle_span()), 360.0);
    assert_eq!(deg(Harmonic::Second.angle_span()), 180.0);
    assert_eq!(deg(Harmonic::Fourth.angle_span()), 90.0);
    assert_eq!(deg(Harmonic::Eighth.angle_span()), 45.0);
    assert_eq!(deg(Harmonic::Sixteenth.angle_span()), 22.5);
    assert_eq!(deg(Harmonic::Custom(12).angle_span()), 30.0);
}

#[test]
fn test_arm_count() {
    assert_eq!(Harmonic::First.arm_count(), 4);
    assert_eq!(Harmonic::Second.arm_count(), 8);
    assert_eq!(Harmonic::Fourth.arm_count(), 16);
    assert_eq!(Harmonic::Eighth.arm_count(), 32);
    assert_eq!(Harmonic::Sixteenth.arm_count(), 64);
    assert_eq!(Harmonic::Custom(3).arm_count(), 12);
}

#[test]
fn test_calculate_harmonic_position() {
    assert_eq!(deg(calculate_harmonic_position(arcsec(30.0), Harmonic::First)), 30.0);
    assert_eq!(deg(calculate_harmonic_position(arcsec(30.0), Harmonic::Second)), 60.0);
    assert_eq!(deg(calculate_harmonic_position(arcsec(30.0), Harmonic::Fourth)), 120.0);
    assert_eq!(deg(calculate_harmonic_position(arcsec(30.0), Harmonic::Eighth)), 240.0);

    assert_eq!(deg(calculate_harmonic_position(arcsec(90.0), Harmonic::Fourth)), 0.0);
}

#[test]
fn test_calculate_original_position() {
    assert_eq!(deg(calculate_original_position(arcsec(30.0), Harmonic::First)), 30.0);
    assert_eq!(deg(calculate_original_position(arcsec(60.0), Harmonic::Second)), 30.0);
    assert_eq!(deg(calculate_original_position(arcsec(120.0), Harmonic::Fourth)), 30.0);
    assert_eq!(deg(calculate_original_position(arcsec(240.0), Harmonic::Eighth)), 30.0);
}

#[test]
fn zero_counts_as_the_first_harmonic() {
    assert_eq!(Harmonic::from_number(0), Harmonic::First);
    assert_eq!(Harmonic::Custom(0).to_number(), 1);
    assert_eq!(Harmonic::Custom(0).arm_count(), 4);
    assert_eq!(Harmonic::Custom(0).angle_span(), 1_296_000);
    assert_eq!(calculate_harmonic_position(1234, Harmonic::Custom(0)), 1234);
    assert_eq!(calculate_original_position(1234, Harmonic::Custom(0)), 1234);
    assert_eq!(Harmonic::default(), Harmonic::First);
}

#[test]
fn arm_count_of_large_custom_harmonics() {
    assert_eq!(Harmonic::Custom(64).arm_count(), 256);
    assert_eq!(Harmonic::Custom(255).arm_count(), 1020);
}

#[test]
fn angle_span_rounds_to_the_nearest_arcsecond() {
    // 1 296 000 / 7 = 185 142.857...
    assert_eq!(Harmonic::Custom(7).angle_span(), 185_143);
    // 1 296 000 / 11 = 117 818.18...
    assert_eq!(Harmonic::Custom(11).angle_span(), 117_818);
    assert_eq!(Harmonic::Custom(255).angle_span(), 5_082);
}

#[test]
fn display_names() {
    assert_eq!(Harmonic::First.display_name(), "1st (360°)");
    assert_eq!(Harmonic::Second.display_name(), "2nd (180°)");
    assert_eq!(Harmonic::Fourth.display_name(), "4th (90°)");
    assert_eq!(Harmonic::Eighth.display_name(), "8th (45°)");
    assert_eq!(Harmonic::Sixteenth.display_name(), "16th (22.5°)");
    assert_eq!(Harmonic::Custom(12).display_name(), "12th (30.0°)");
    assert_eq!(Harmonic::Custom(7).display_name(), "7th (51.4°)");
    assert_eq!(Harmonic::Custom(1).display_name(), "1th (360.0°)");
    assert_eq!(Harmonic::Custom(0).display_name(), "1th (360.0°)");
    assert_eq!(Harmonic::Custom(255).display_name(), "255th (1.4°)");
}

#[test]
fn display_name_matches_float_formatting() {
    for n in 1..=255_u8 {
        let expected = format!("{}th ({:.1}°)", n, 360.0_f32 / n as f32);
        assert_eq!(Harmonic::Custom(n).display_name(), expected, "harmonic {}", n);
    }
}

#[test]
fn first_harmonic_only_normalizes() {
    for x in [-400_000_i64, -1, 0, 1, 1_295_999, 1_296_000, 5_000_001] {
        let n = x.rem_euclid(1_296_000);
        assert_eq!(calculate_harmonic_position(x, Harmonic::First), n);
        assert_eq!(calculate_original_position(x, Harmonic::First), n);
    }
}

#[test]
fn harmonic_round_trip_within_first_division() {
    for h in [Harmonic::Second, Harmonic::Fourth, Harmonic::Custom(7), Harmonic::Custom(255)] {
        let n = h.to_number() as i64;
        for base in [0_i64, 1, 17, 5000, 1_295_999 / n] {
            let there = calculate_harmonic_position(base, h);
            assert_eq!(there, base * n);
            assert_eq!(calculate_original_position(there, h), base);
        }
    }
}

#[test]
fn harmonic_position_handles_extreme_angles() {
    assert_eq!(
        calculate_harmonic_position(i64::MAX, Harmonic::Custom(255)),
        ((i64::MAX as i128 * 255).rem_euclid(1_296_000)) as i64
    );
    assert_eq!(
        calculate_harmonic_position(i64::MIN, Harmonic::Eighth),
        ((i64::MIN as i128 * 8).rem_euclid(1_296_000)) as i64
    );
    assert_eq!(calculate_original_position(-7, Harmonic::Second), 1_296_000 - 3);
}

#[test]
fn harmonic_angles_by_number() {
    assert_eq!(to_harmonic_angle(-5, 1), -5);
    assert_eq!(to_harmonic_angle(2_000_000, 0), 2_000_000);
    assert_eq!(to_harmonic_angle(arcsec(90.0), 4), 0);
    assert_eq!(to_harmonic_angle(arcsec(100.0), 4), arcsec(40.0));
    assert_eq!(from_harmonic_angle(-5, 1), -5);
    assert_eq!(from_harmonic_angle(arcsec(240.0), 8), arcsec(30.0));
    assert_eq!(from_harmonic_angle(7, 2), 4);
}
