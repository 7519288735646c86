//! Register maps: addresses, identity bytes, slave addresses, selector bit
//! patterns and the STATUS_REG flag decoding.

use sensor_pack::lis2mdl::reg::{Mode, ModeOp, Odr as MagOdr};
use sensor_pack::lis2mdl::DataStatus;
use sensor_pack::lis2mdl::Register as MagRegister;
use sensor_pack::lps22hh::reg::{FifoMode, Odr as BaroOdr, LPF};
use sensor_pack::lps22hh::Register as BaroRegister;
use sensor_pack::lsm6dso::reg::{
    AccBandwidth, AccMode, AccOdr, AccScale, AccSeflTest, GyrMode, GyrOdr, GyrScale,
    GyroHpfCutoff, GyroLpfLevel, GyroSeflTest, Rounding, TriggerMode,
};
use sensor_pack::lsm6dso::Register as ImuRegister;
use sensor_pack::{lis2mdl, lps22hh, lsm6dso};

#[test]
fn device_addresses_match_the_wiring() {
    assert_eq!(lis2mdl::reg::I2C_SAD, 0b0011110);
    assert_eq!(lps22hh::reg::I2C_SAD, 0b1011101);
    assert_eq!(lsm6dso::reg::I2C_SAD, 0b1101011);
}

#[test]
fn identity_bytes_match_the_documentation() {
    assert_eq!(lis2mdl::reg::DEVICE_ID, 0x40);
    assert_eq!(lps22hh::reg::DEVICE_ID, 0xB3);
    assert_eq!(lsm6dso::reg::DEVICE_ID, 0x6C);
}

#[test]
fn mag_register_addresses() {
    assert_eq!(MagRegister::WHO_AM_I.addr(), 0x4F);
    assert_eq!(MagRegister::CFG_REG_A.addr(), 0x60);
    assert_eq!(MagRegister::STATUS_REG.addr(), 0x67);
    assert_eq!(MagRegister::OUT_X_L.addr(), 0x68);
    assert_eq!(MagRegister::OUT_Z_H.addr(), 0x6D);
    assert_eq!(MagRegister::TEMP_OUT_L_REG.addr(), 0x6E);
    assert_eq!(MagRegister::TEMP_OUT_H_REG.addr(), 0x6F);
    // the six field-output registers form one consecutive little-endian run
    let run = [
        MagRegister::OUT_X_L,
        MagRegister::OUT_X_H,
        MagRegister::OUT_Y_L,
        MagRegister::OUT_Y_H,
        MagRegister::OUT_Z_L,
        MagRegister::OUT_Z_H,
    ];
    for (k, r) in run.iter().enumerate() {
        assert_eq!(r.addr(), MagRegister::OUT_X_L.addr() + k as u8);
    }
}

#[test]
fn baro_register_addresses() {
    assert_eq!(BaroRegister::WHO_AM_I.addr(), 0x0F);
    assert_eq!(BaroRegister::CTRL_REG1.addr(), 0x10);
    assert_eq!(BaroRegister::CTRL_REG2.addr(), 0x11);
    assert_eq!(BaroRegister::PRESSURE_OUT_XL.addr(), 0x28);
    assert_eq!(BaroRegister::PRESSURE_OUT_L.addr(), 0x29);
    assert_eq!(BaroRegister::PRESSURE_OUT_H.addr(), 0x2A);
    assert_eq!(BaroRegister::TEMP_OUT_L.addr(), 0x2B);
    assert_eq!(BaroRegister::TEMP_OUT_H.addr(), 0x2C);
    assert_eq!(BaroRegister::FIFO_DATA_OUT_T_H.addr(), 0x7C);
}

#[test]
fn imu_register_addresses() {
    assert_eq!(ImuRegister::FUNC_CFG_ACCESS.addr(), 0x01);
    assert_eq!(ImuRegister::WHO_AM_I.addr(), 0x0F);
    assert_eq!(ImuRegister::CTRL1_XL.addr(), 0x10);
    assert_eq!(ImuRegister::OUT_TEMP_L.addr(), 0x20);
    assert_eq!(ImuRegister::OUTX_L_G.addr(), 0x22);
    assert_eq!(ImuRegister::OUTX_L_A.addr(), 0x28);
    assert_eq!(ImuRegister::FIFO_DATA_OUT_Z_H.addr(), 0x7E);
}

#[test]
fn mag_selector_bit_patterns() {
    assert_eq!(MagOdr::Hz10.value(), 0b0000);
    assert_eq!(MagOdr::Hz20.value(), 0b0100);
    assert_eq!(MagOdr::Hz50.value(), 0b1000);
    assert_eq!(MagOdr::Hz100.value(), 0b1100);
    assert_eq!(ModeOp::Continuous.value(), 0b00);
    assert_eq!(ModeOp::Single.value(), 0b01);
    assert_eq!(ModeOp::Idle1.value(), 0b10);
    assert_eq!(ModeOp::Idle.value(), 0b11);
    // the operating-mode tags exist for callers to select on
    assert_ne!(Mode::HighResolution, Mode::LowPower);
}

#[test]
fn baro_selector_bit_patterns() {
    assert_eq!(BaroOdr::One_shot.value(), 0x00);
    assert_eq!(BaroOdr::Hz1.value(), 0x10);
    assert_eq!(BaroOdr::Hz50.value(), 0x40);
    assert_eq!(BaroOdr::Hz200.value(), 0x70);
    assert_eq!(LPF::DIV_2.value(), 0x00);
    assert_eq!(LPF::DIV_9.value(), 0x08);
    assert_eq!(LPF::DIV_20.value(), 0x0C);
    assert_eq!(FifoMode::Bypass.value(), 0b000);
    assert_eq!(FifoMode::Continuous.value(), 0b010);
    assert_eq!(FifoMode::ContToFifo.value(), 0b111);
}

#[test]
fn imu_selector_bit_patterns() {
    assert_eq!(AccOdr::PowerDown.value(), 0x00);
    assert_eq!(AccOdr::Hz104.value(), 0x40);
    assert_eq!(AccOdr::KHz6_66.value(), 0xA0);
    assert_eq!(AccScale::G2.value(), 0x00);
    assert_eq!(AccScale::G16.value(), 0x04);
    assert_eq!(GyrOdr::Hz1_6.value(), 0xB0);
    assert_eq!(GyrScale::Dps2000.value(), 0x0C);
    assert_eq!(Rounding::Both.value(), 0x60);
    assert_eq!(AccSeflTest::Positive.value(), 0x01);
    assert_eq!(GyroSeflTest::Negative.value(), 0x0C);
    assert_eq!(TriggerMode::LevelFifo.value(), 0xC0);
    assert_eq!(GyroLpfLevel::LevelNine.value(), 0x07);
    assert_eq!(GyroHpfCutoff::Hz1.value(), 0x30);
    assert_eq!(AccBandwidth::LowOdr4.value(), 0x00);
    assert_eq!(AccBandwidth::HighOdr800.value(), 0b1110_0100);
    assert_ne!(AccMode::PowerDown, AccMode::HighPerf);
    assert_ne!(GyrMode::LowPower, GyrMode::Normal);
}

#[test]
fn data_status_decodes_documented_bits() {
    let all = DataStatus::from_byte(0xFF);
    assert!(all.zyxor);
    assert_eq!(all.xyzor, (true, true, true));
    assert!(all.zyxda);
    assert_eq!(all.xyzda, (true, true, true));

    let none = DataStatus::from_byte(0x00);
    assert!(!none.zyxor);
    assert_eq!(none.xyzor, (false, false, false));
    assert!(!none.zyxda);
    assert_eq!(none.xyzda, (false, false, false));

    // ZYXDA (0x08) and XDA (0x01) only
    let some = DataStatus::from_byte(0x09);
    assert!(some.zyxda);
    assert_eq!(some.xyzda, (true, false, false));
    assert!(!some.zyxor);
}
