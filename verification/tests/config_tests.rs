//! Configuration: composed register bytes, write-then-verify behavior, the
//! diagnostic (non-escalated) verify verdict, and error propagation.

use sensor_pack::bus::{Bus, Error, Fault, SimDevice};
use sensor_pack::lis2mdl::reg as mag;
use sensor_pack::lps22hh::reg as baro;
use sensor_pack::{lis2mdl, lps22hh, lsm6dso};

fn bus_with(devs: Vec<SimDevice>) -> Bus {
    let mut bus = Bus::new();
    for d in devs {
        bus.add_device(d);
    }
    bus
}

#[test]
fn mag_config_writes_composed_cfg_reg_a() {
    // COMP_TEMP_EN | Odr::Hz100 | ModeOp::Continuous = 0x80 | 0x0C | 0x00
    let mut bus = bus_with(vec![lis2mdl::sim_device()]);
    let mag = lis2mdl::Lis2mdl::new(1);
    assert_eq!(mag.apply_config(&mut bus), Ok(true));
    assert_eq!(bus.devices[0].regs[0x60], 0x8C);
    assert!(bus.owner.is_none());
}

#[test]
fn baro_config_writes_both_control_registers() {
    // CTRL_REG1 = Odr::Hz50 | LPF::DIV_9 = 0x40 | 0x08;
    // CTRL_REG2 = IF_ADD_INC | LOW_NOISE_EN = 0x10 | 0x02
    let mut bus = bus_with(vec![lps22hh::sim_device()]);
    let baro = lps22hh::Lps22hh::new(2);
    assert_eq!(baro.apply_config(&mut bus), Ok(true));
    assert_eq!(bus.devices[0].regs[0x10], 0x48);
    assert_eq!(bus.devices[0].regs[0x11], 0x12);
}

#[test]
fn config_fields_occupy_disjoint_bit_ranges() {
    // magnetometer CFG_REG_A fields
    assert_eq!(mag::COMP_TEMP_EN & mag::Odr::Hz100.value(), 0);
    assert_eq!(mag::COMP_TEMP_EN & mag::ModeOp::Continuous.value(), 0);
    assert_eq!(mag::Odr::Hz100.value() & mag::ModeOp::Continuous.value(), 0);
    // the selectors stay inside their documented masks
    for odr in [mag::Odr::Hz10, mag::Odr::Hz20, mag::Odr::Hz50, mag::Odr::Hz100] {
        assert_eq!(odr.value() & !mag::ODR_MASK, 0);
    }
    for m in [mag::ModeOp::Continuous, mag::ModeOp::Single, mag::ModeOp::Idle1, mag::ModeOp::Idle]
    {
        assert_eq!(m.value() & !mag::MOD_MASK, 0);
    }
    // barometer CTRL_REG1 and CTRL_REG2 fields
    assert_eq!(baro::Odr::Hz50.value() & baro::LPF::DIV_9.value(), 0);
    assert_eq!(baro::IF_ADD_INC & baro::LOW_NOISE_EN, 0);
}

#[test]
fn config_verify_mismatch_is_diagnostic_not_error() {
    // A device whose writes do not stick: the cycle completes, the verify
    // read differs, and the driver reports Ok(false) — no error, no retry.
    let mut stuck = lis2mdl::sim_device();
    stuck.fault = Some(Fault::WritesIgnored);
    let mut bus = bus_with(vec![stuck]);
    let mag = lis2mdl::Lis2mdl::new(1);
    assert_eq!(mag.apply_config(&mut bus), Ok(false));
    // the register kept its power-on value
    assert_eq!(bus.devices[0].regs[0x60], 0x00);
    // and the bus is not poisoned: the next operation proceeds normally
    assert_eq!(mag.check_device_id(&mut bus), Ok(true));
}

#[test]
fn baro_config_verify_mismatch_is_diagnostic_too() {
    let mut stuck = lps22hh::sim_device();
    stuck.fault = Some(Fault::WritesIgnored);
    let mut bus = bus_with(vec![stuck]);
    let baro = lps22hh::Lps22hh::new(2);
    assert_eq!(baro.apply_config(&mut bus), Ok(false));
    assert_eq!(bus.devices[0].regs[0x10], 0x00);
    assert_eq!(bus.devices[0].regs[0x11], 0x00);
}

#[test]
fn config_propagates_transport_errors() {
    let mag = lis2mdl::Lis2mdl::new(1);
    let baro = lps22hh::Lps22hh::new(2);
    // no device on the bus
    let mut empty = Bus::new();
    assert_eq!(mag.apply_config(&mut empty), Err(Error::TransportError));
    // device that times out
    let mut slow = lps22hh::sim_device();
    slow.fault = Some(Fault::Timeout);
    let mut bus = bus_with(vec![slow]);
    assert_eq!(baro.apply_config(&mut bus), Err(Error::Timeout));
    // the failure never terminates anything and the lock is free again
    assert!(bus.owner.is_none());
}

#[test]
fn imu_config_is_a_bring_up_placeholder() {
    let mut bus = bus_with(vec![lsm6dso::sim_device()]);
    let imu = lsm6dso::Lsm6dso::new(3);
    let trace_len = bus.trace.len();
    imu.apply_config(&mut bus);
    imu.init_accelerometer(&mut bus);
    imu.init_gyroscope(&mut bus);
    // no transactions are issued yet
    assert_eq!(bus.trace.len(), trace_len);
}
