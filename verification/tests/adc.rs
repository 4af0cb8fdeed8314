use demos::parse_temp_calibration;
use demos::temp_celsius;
use demos::temp_celsius_or_default;
use demos::TempCalibration;

fn calib_row(room_temp_val: u64, hot_temp_val: u64, room_temp: u64, hot_temp: u64) -> u64 {
    (room_temp_val << 12) | (hot_temp_val << 24) | (room_temp << 36) | (hot_temp << 44)
}

#[test]
fn parses_each_calibration_field() {
    let row = calib_row(0x123, 0x456, 25, 85);
    let c = parse_temp_calibration(row);
    assert_eq!(c.room_temp_val, 0x123);
    assert_eq!(c.hot_temp_val, 0x456);
    assert_eq!(c.room_temp, 25);
    assert_eq!(c.hot_temp, 85);
}

#[test]
fn ignores_bits_outside_the_calibration_fields() {
    let row = calib_row(0xabc, 0xdef, 20, 80) | 0xfff | (0xfffu64 << 52);
    let c = parse_temp_calibration(row);
    assert_eq!(c.room_temp_val, 0xabc);
    assert_eq!(c.hot_temp_val, 0xdef);
    assert_eq!(c.room_temp, 20);
    assert_eq!(c.hot_temp, 80);
}

fn sample_calib() -> TempCalibration {
    TempCalibration {
        room_temp_val: 100,
        hot_temp_val: 200,
        room_temp: 25,
        hot_temp: 85,
    }
}

#[test]
fn calibration_points_map_to_their_temperatures() {
    let c = sample_calib();
    assert_eq!(temp_celsius(100, &c), 25);
    assert_eq!(temp_celsius(200, &c), 85);
}

#[test]
fn interpolates_between_the_points() {
    let c = sample_calib();
    assert_eq!(temp_celsius(150, &c), 55);
}

#[test]
fn rounds_toward_zero_below_room_temperature() {
    let c = sample_calib();
    // (49 - 100) * 60 / 100 is -30.6: machine division drops the fraction.
    assert_eq!(temp_celsius(49, &c), -5);
}

#[test]
fn handles_an_inverted_calibration() {
    let c = TempCalibration {
        room_temp_val: 200,
        hot_temp_val: 100,
        room_temp: 25,
        hot_temp: 85,
    };
    // (151 - 200) * 60 / -100 is 29.4: rounded toward zero, then offset.
    assert_eq!(temp_celsius(151, &c), 54);
}

#[test]
fn degenerate_calibration_falls_back_to_room() {
    let c = TempCalibration {
        room_temp_val: 9,
        hot_temp_val: 9,
        room_temp: 1,
        hot_temp: 2,
    };
    assert_eq!(temp_celsius_or_default(7, &c), 25);
}

#[test]
fn default_agrees_with_interpolation_when_calibrated() {
    let c = sample_calib();
    assert_eq!(temp_celsius_or_default(170, &c), temp_celsius(170, &c));
}
