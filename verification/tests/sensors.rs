use flowers::bh1750::raw_light;
use flowers::bmp280::{compensate, compensation_in_range, is_bmp280, parse_calibration, raw_readings, Calibration};

fn datasheet_calibration() -> Calibration {
    // the example of the BMP280 datasheet, as the chip lays it out
    let bytes: [u8; 24] = [
        112, 107, 67, 103, 24, 252, 125, 142, 67, 214, 208, 11, 39, 11, 140, 0, 249, 255, 140,
        60, 248, 198, 112, 23,
    ];
    parse_calibration(&bytes)
}

#[test]
fn calibration_is_little_endian() {
    let c = datasheet_calibration();
    assert_eq!(c.dig_t1, 27504);
    assert_eq!(c.dig_t2, 26435);
    assert_eq!(c.dig_t3, -1000);
    assert_eq!(c.dig_p1, 36477);
    assert_eq!(c.dig_p2, -10685);
    assert_eq!(c.dig_p3, 3024);
    assert_eq!(c.dig_p4, 2855);
    assert_eq!(c.dig_p5, 140);
    assert_eq!(c.dig_p6, -7);
    assert_eq!(c.dig_p7, 15500);
    assert_eq!(c.dig_p8, -14600);
    assert_eq!(c.dig_p9, 6000);
}

#[test]
fn calibration_extremes() {
    let mut bytes = [0u8; 24];
    bytes[0] = 0xff;
    bytes[1] = 0xff;
    bytes[2] = 0x00;
    bytes[3] = 0x80;
    bytes[4] = 0xff;
    bytes[5] = 0x7f;
    let c = parse_calibration(&bytes);
    assert_eq!(c.dig_t1, 65535);
    assert_eq!(c.dig_t2, i16::MIN);
    assert_eq!(c.dig_t3, i16::MAX);
    assert_eq!(c.dig_p9, 0);
}

#[test]
fn raw_readings_are_20_bit() {
    let data = [0x65, 0x5a, 0xc0, 0x7e, 0xed, 0x00];
    assert_eq!(raw_readings(&data), (415148, 519888));
    assert_eq!(raw_readings(&[0xff; 6]), (0xfffff, 0xfffff));
}

#[test]
fn datasheet_compensation() {
    let c = datasheet_calibration();
    assert!(compensation_in_range(519888, 415148, &c));
    let (t, p) = compensate(519888, 415148, &c);
    assert_eq!(t, 2508); // 25.08 °C
    assert_eq!(p, 25767233); // 100653.25 Pa in 1/256 Pa
    assert!(((p as f32) / 256.0 / 100.0 - 1006.53).abs() < 0.01);
}

#[test]
fn vanishing_divisor_gives_zero_pressure() {
    let mut c = datasheet_calibration();
    c.dig_p1 = 0;
    assert!(compensation_in_range(519888, 415148, &c));
    let (t, p) = compensate(519888, 415148, &c);
    assert_eq!(t, 2508);
    assert_eq!(p, 0);
}

#[test]
fn overflowing_calibration_is_out_of_range() {
    let mut c = datasheet_calibration();
    c.dig_t1 = 0;
    c.dig_t2 = i16::MIN;
    // (raw_t >> 3) * dig_t2 leaves i32
    assert!(!compensation_in_range(0xfffff, 415148, &c));
}

#[test]
fn chip_id() {
    assert!(is_bmp280(0x58));
    assert!(!is_bmp280(0x60));
}

#[test]
fn light_reading_is_big_endian() {
    assert_eq!(raw_light([0x01, 0x02]), 258);
    assert_eq!(raw_light([0xff, 0xff]), 65535);
    assert_eq!(raw_light([0, 0]), 0);
}
