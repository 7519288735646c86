//! Decoding and scaling: sign extension, little-endian assembly, and the
//! exact per-device scale and offset constants.

use sensor_pack::decode::{i16_from_le, i24_from_le};
use sensor_pack::{lis2mdl, lps22hh};

fn as_f64(s: sensor_pack::decode::Scaled) -> f64 {
    s.num as f64 / s.den as f64
}

#[test]
fn i16_le_assembles_positive_values() {
    assert_eq!(i16_from_le(0x00, 0x00), 0);
    assert_eq!(i16_from_le(0x01, 0x00), 1);
    assert_eq!(i16_from_le(0xE8, 0x03), 1000);
    assert_eq!(i16_from_le(0xFF, 0x7F), i16::MAX);
}

#[test]
fn i16_le_sign_extends_from_bit_15() {
    assert_eq!(i16_from_le(0xFF, 0xFF), -1);
    assert_eq!(i16_from_le(0x18, 0xFC), -1000);
    assert_eq!(i16_from_le(0x00, 0x80), i16::MIN);
}

#[test]
fn i24_le_assembles_positive_values() {
    assert_eq!(i24_from_le(0x00, 0x00, 0x00), 0);
    assert_eq!(i24_from_le(0x01, 0x00, 0x00), 1);
    assert_eq!(i24_from_le(0x00, 0x40, 0x06), 409600);
    assert_eq!(i24_from_le(0xFF, 0xFF, 0x7F), 8388607);
}

#[test]
fn i24_le_sign_extends_from_bit_23() {
    assert_eq!(i24_from_le(0xFF, 0xFF, 0xFF), -1);
    assert_eq!(i24_from_le(0x00, 0x00, 0x80), -8388608);
}

#[test]
fn mag_field_scale_is_0_0015_gauss_per_lsb() {
    // raw = 1000 -> 1.5 gauss, raw = -1000 -> -1.5 gauss
    let pos = lis2mdl::field_from_raw(1000);
    assert_eq!(pos.num, 15000);
    assert_eq!(pos.den, 10000);
    assert_eq!(as_f64(pos), 1.5);
    let neg = lis2mdl::field_from_raw(-1000);
    assert_eq!(as_f64(neg), -1.5);
    // spot checks across the raw range
    assert_eq!(as_f64(lis2mdl::field_from_raw(0)), 0.0);
    assert_eq!(as_f64(lis2mdl::field_from_raw(2)), 0.003);
    assert_eq!(as_f64(lis2mdl::field_from_raw(i16::MIN)), -32768.0 * 0.0015);
}

#[test]
fn mag_temperature_scale_is_0_125_offset_25() {
    // raw = 100 -> 0.125 * 100 + 25.0 = 37.5 degrees Celsius
    let t = lis2mdl::temperature_from_raw(100);
    assert_eq!(t.num, 37500);
    assert_eq!(t.den, 1000);
    assert_eq!(as_f64(t), 37.5);
    assert_eq!(as_f64(lis2mdl::temperature_from_raw(0)), 25.0);
    assert_eq!(as_f64(lis2mdl::temperature_from_raw(-200)), 0.0);
}

#[test]
fn baro_pressure_409600_raw_is_100_hpa_10000_pa() {
    // raw 24-bit 409600 -> 409600 / 4096 = 100.0 hPa -> 10000.0 Pa
    let raw = i24_from_le(0x00, 0x40, 0x06);
    assert_eq!(raw, 409600);
    let p = lps22hh::pressure_from_raw(raw);
    assert_eq!(p.num, 40960000);
    assert_eq!(p.den, 4096);
    assert_eq!(as_f64(p), 10000.0);
    // and the hPa value before the x100 conversion
    assert_eq!(raw as f64 / 4096.0, 100.0);
}

#[test]
fn baro_pressure_scale_handles_negative_raw() {
    let p = lps22hh::pressure_from_raw(-4096);
    assert_eq!(as_f64(p), -100.0);
}

#[test]
fn baro_temperature_scale_is_0_01() {
    let t = lps22hh::temperature_from_raw(2350);
    assert_eq!(t.num, 2350);
    assert_eq!(t.den, 100);
    assert_eq!(as_f64(t), 23.5);
    assert_eq!(as_f64(lps22hh::temperature_from_raw(-40)), -0.4);
}
