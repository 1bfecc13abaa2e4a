use sensor_lib_as5600::{SensorStatus, MAGNET_DETECTED, MAGNET_HIGH, MAGNET_LOW};

#[test]
fn sensor_status_self_test() {
    assert!(true);
}

#[test]
fn new_status() {
    let s = SensorStatus::new(0x08);

    assert_eq!(s.status, 0x08);
}

#[test]
fn magnet_high_status() {
    let s = SensorStatus::new(MAGNET_HIGH);
    assert_eq!(s.is_magnet_high(), true);
    assert_eq!(s.is_magnet_low(), false);
    assert_eq!(s.is_magnet_detected(), false);
}

#[test]
fn magnet_low_status() {
    let s = SensorStatus::new(MAGNET_LOW);
    assert_eq!(s.is_magnet_low(), true);
    assert_eq!(s.is_magnet_high(), false);
    assert_eq!(s.is_magnet_detected(), false);
}

#[test]
fn magnet_detected_status() {
    let s = SensorStatus::new(MAGNET_DETECTED);
    assert_eq!(s.is_magnet_detected(), true);
}

#[test]
fn magnet_detected_only_status() {
    let s = SensorStatus::new(0x20);
    assert_eq!(s.is_magnet_detected(), true);
    assert_eq!(s.is_magnet_high(), false);
    assert_eq!(s.is_magnet_low(), false);
}

#[test]
fn all_flags_clear_status() {
    let s = SensorStatus::new(0x00);
    assert_eq!(s.is_magnet_high(), false);
    assert_eq!(s.is_magnet_low(), false);
    assert_eq!(s.is_magnet_detected(), false);
}

#[test]
fn all_flags_set_status() {
    let s = SensorStatus::new(0x38);
    assert_eq!(s.is_magnet_high(), true);
    assert_eq!(s.is_magnet_low(), true);
    assert_eq!(s.is_magnet_detected(), true);
}

#[test]
fn unrelated_bits_ignored() {
    // Bits outside 3..6 do not disturb the three flags.
    let s = SensorStatus::new(0xC7);
    assert_eq!(s.is_magnet_high(), false);
    assert_eq!(s.is_magnet_low(), false);
    assert_eq!(s.is_magnet_detected(), false);
}
