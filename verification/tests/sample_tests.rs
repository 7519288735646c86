//! Sampling: little-endian multi-byte register runs decoded into exact
//! physical readings, and transport errors surfaced per group.

use sensor_pack::bus::{Bus, Error, Fault, SimDevice};
use sensor_pack::{lis2mdl, lps22hh};

fn bus_with(devs: Vec<SimDevice>) -> Bus {
    let mut bus = Bus::new();
    for d in devs {
        bus.add_device(d);
    }
    bus
}

fn as_f64(s: sensor_pack::decode::Scaled) -> f64 {
    s.num as f64 / s.den as f64
}

#[test]
fn mag_sample_decodes_three_axes_and_temperature() {
    let mut d = lis2mdl::sim_device();
    // x = 1000 (0x03E8), y = -1000 (0xFC18), z = 0; temperature raw = 100
    d.set_reg(0x68, 0xE8);
    d.set_reg(0x69, 0x03);
    d.set_reg(0x6A, 0x18);
    d.set_reg(0x6B, 0xFC);
    d.set_reg(0x6C, 0x00);
    d.set_reg(0x6D, 0x00);
    d.set_reg(0x6E, 0x64);
    d.set_reg(0x6F, 0x00);
    let mut bus = bus_with(vec![d]);
    let mag = lis2mdl::Lis2mdl::new(1);
    let r = mag.sample(&mut bus).unwrap();
    assert_eq!(as_f64(r.x), 1.5);
    assert_eq!(as_f64(r.y), -1.5);
    assert_eq!(as_f64(r.z), 0.0);
    assert_eq!(as_f64(r.temperature), 37.5);
    assert!(bus.owner.is_none());
}

#[test]
fn mag_sample_group_reads_match_full_sample() {
    let mut d = lis2mdl::sim_device();
    d.set_reg(0x68, 0x02);
    d.set_reg(0x6E, 0x08);
    let mut bus = bus_with(vec![d]);
    let mag = lis2mdl::Lis2mdl::new(1);
    let field = mag.sample_field(&mut bus).unwrap();
    let temp = mag.sample_temperature(&mut bus).unwrap();
    let full = mag.sample(&mut bus).unwrap();
    assert_eq!(full.x, field.x);
    assert_eq!(full.y, field.y);
    assert_eq!(full.z, field.z);
    assert_eq!(full.temperature, temp);
    assert_eq!(as_f64(field.x), 0.003);
    assert_eq!(as_f64(temp), 26.0);
}

#[test]
fn baro_sample_decodes_pressure_and_temperature() {
    let mut d = lps22hh::sim_device();
    // pressure raw = 409600 (0x064000) -> 100 hPa -> 10000 Pa
    d.set_reg(0x28, 0x00);
    d.set_reg(0x29, 0x40);
    d.set_reg(0x2A, 0x06);
    // temperature raw = 2350 (0x092E) -> 23.5 degrees Celsius
    d.set_reg(0x2B, 0x2E);
    d.set_reg(0x2C, 0x09);
    let mut bus = bus_with(vec![d]);
    let baro = lps22hh::Lps22hh::new(2);
    let r = baro.sample(&mut bus).unwrap();
    assert_eq!(as_f64(r.pressure), 10000.0);
    assert_eq!(as_f64(r.temperature), 23.5);
}

#[test]
fn baro_sample_decodes_negative_pressure_word() {
    let mut d = lps22hh::sim_device();
    // pressure raw = -4096 (0xFFF000) -> -1 hPa -> -100 Pa
    d.set_reg(0x28, 0x00);
    d.set_reg(0x29, 0xF0);
    d.set_reg(0x2A, 0xFF);
    let mut bus = bus_with(vec![d]);
    let baro = lps22hh::Lps22hh::new(2);
    let p = baro.sample_pressure(&mut bus).unwrap();
    assert_eq!(as_f64(p), -100.0);
}

#[test]
fn sample_surfaces_transport_errors() {
    let mag = lis2mdl::Lis2mdl::new(1);
    let baro = lps22hh::Lps22hh::new(2);
    // absent devices
    let mut empty = Bus::new();
    assert_eq!(mag.sample(&mut empty), Err(Error::TransportError));
    assert_eq!(baro.sample(&mut empty), Err(Error::TransportError));
    // timing out device
    let mut slow = lis2mdl::sim_device();
    slow.fault = Some(Fault::Timeout);
    let mut bus = bus_with(vec![slow]);
    assert_eq!(mag.sample(&mut bus), Err(Error::Timeout));
    assert_eq!(mag.sample_field(&mut bus), Err(Error::Timeout));
    assert_eq!(mag.sample_temperature(&mut bus), Err(Error::Timeout));
    // the lock is released on the error path
    assert!(bus.owner.is_none());
}

#[test]
fn sample_does_not_modify_device_registers() {
    let mut d = lps22hh::sim_device();
    d.set_reg(0x28, 0x12);
    d.set_reg(0x2B, 0x34);
    let mut bus = bus_with(vec![d]);
    let baro = lps22hh::Lps22hh::new(2);
    let regs_before: Vec<u8> = bus.devices[0].regs.clone();
    let _ = baro.sample(&mut bus);
    assert_eq!(bus.devices[0].regs, regs_before);
}
