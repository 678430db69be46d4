use inputd::calibration::map_potentiometer_value;
use inputd::calibration::measurement_to_angle;

#[test]
fn test_measurement_to_angle() {
    // Min
    assert_eq!(measurement_to_angle(0), 0);

    // Max
    assert_eq!(measurement_to_angle(27000), 280);
    assert_eq!(measurement_to_angle(64000), 280);

    // Exact
    assert_eq!(measurement_to_angle(26226), 250);
    assert_eq!(measurement_to_angle(26227), 280);
    assert_eq!(measurement_to_angle(19000), 160);
    assert_eq!(measurement_to_angle(19250), 180);

    // Interpolated
    assert_eq!(measurement_to_angle(19126), 175);
}

#[test]
fn test_measurement_to_angle_no_crash() {
    for i in 0..u16::MAX {
        measurement_to_angle(i);
    }
}

#[test]
fn test_map_potentiometer_value() {
    assert_eq!(map_potentiometer_value(0), 100);
    assert_eq!(map_potentiometer_value(26227), 0);
    assert_eq!(map_potentiometer_value(30000), 0);
    assert_eq!(map_potentiometer_value(18700), 50);
}

#[test]
fn test_angle_clamps_at_table_ends() {
    // At or below the smallest raw code the smallest angle comes back.
    assert_eq!(measurement_to_angle(10), 0);
    assert_eq!(measurement_to_angle(9), 0);
    assert_eq!(measurement_to_angle(1), 0);
    // At or above the largest raw code the largest angle comes back.
    assert_eq!(measurement_to_angle(26227), 280);
    assert_eq!(measurement_to_angle(26228), 280);
    assert_eq!(measurement_to_angle(u16::MAX), 280);
}

#[test]
fn test_angle_exact_table_entries() {
    // A raw code on a table entry maps to exactly that entry's angle.
    assert_eq!(measurement_to_angle(20), 10);
    assert_eq!(measurement_to_angle(280), 20);
    assert_eq!(measurement_to_angle(1200), 25);
    assert_eq!(measurement_to_angle(18700), 140);
    assert_eq!(measurement_to_angle(20080), 190);
}

#[test]
fn test_angle_interpolates_between_entries() {
    // Between (0, 10) and (10, 20): 0 + 10 * (15 - 10) / (20 - 10) = 5.
    assert_eq!(measurement_to_angle(15), 5);
    // Between (160, 19000) and (170, 19002): 160 + 10 * 1 / 2 = 165.
    assert_eq!(measurement_to_angle(19001), 165);
    // Truncating division: between (20, 280) and (25, 1200),
    // 20 + 5 * (500 - 280) / 920 = 20 + 1100 / 920 = 21.
    assert_eq!(measurement_to_angle(500), 21);
    // The interpolated angle stays between the neighbouring entries.
    let lower = measurement_to_angle(19250);
    let upper = measurement_to_angle(20080);
    for code in 19251..20080u16 {
        let angle = measurement_to_angle(code);
        assert!(lower <= angle && angle <= upper);
    }
}

#[test]
fn test_volume_is_monotone_and_bounded() {
    // The volume percentage never leaves [0, 100] and never increases as the
    // raw code increases.
    let mut last = 100u8;
    for code in 0..=u16::MAX {
        let vol = map_potentiometer_value(code);
        assert!(vol <= 100);
        assert!(vol <= last);
        last = vol;
    }
}

#[test]
fn test_volume_endpoints() {
    // The smallest table angle yields exactly 100, the largest exactly 0.
    assert_eq!(map_potentiometer_value(10), 100);
    assert_eq!(map_potentiometer_value(26227), 0);
    assert_eq!(map_potentiometer_value(u16::MAX), 0);
}
