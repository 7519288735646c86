//! LIS2MDL magnetometer register map: register addresses, bit-field
//! constants, the identity byte, and the scaling constants that convert raw
//! readings into physical units.

use vstd::prelude::*;

verus! {

/// I2C slave address
pub const I2C_SAD: u8 = 0b0011110;

/// Field scale: 0.0015 gauss per LSB, written exactly as 15 / 10000.
pub const GAUSS_PER_LSB_NUM: i64 = 15;

pub const GAUSS_PER_LSB_DEN: u64 = 10000;

/// Temperature scale: 0.125 degrees Celsius per LSB, written exactly as
/// 125 / 1000.
pub const DEG_PER_LSB_NUM: i64 = 125;

pub const DEG_PER_LSB_DEN: u64 = 1000;

/// Temperature reference offset: +25.0 degrees Celsius, written at the same
/// denominator as the scale (25000 / 1000).
pub const REF_TEMP_NUM: i64 = 25000;

/// Operating mode
#[derive(Clone, Copy, Debug, PartialEq, Eq, Structural)]
pub enum Mode {
    HighResolution,
    LowPower,
}

/// Register mapping
#[allow(non_camel_case_types)]
#[derive(Clone, Copy, Debug, PartialEq, Eq, Structural)]
pub enum Register {
    OFFSET_X_REG_L,
    OFFSET_X_REG_H,
    OFFSET_Y_REG_L,
    OFFSET_Y_REG_H,
    OFFSET_Z_REG_L,
    OFFSET_Z_REG_H,
    WHO_AM_I,
    CFG_REG_A,
    CFG_REG_B,
    CFG_REG_C,
    INT_CTRL_REG,
    INT_SOURCE_REG,
    INT_THS_L_REG,
    INT_THS_H_REG,
    STATUS_REG,
    OUT_X_L,
    OUT_X_H,
    OUT_Y_L,
    OUT_Y_H,
    OUT_Z_L,
    OUT_Z_H,
    TEMP_OUT_L_REG,
    TEMP_OUT_H_REG,
}

impl Register {
    /// The register's byte address.
    pub open spec fn spec_addr(self) -> u8 {
        match self {
            Register::OFFSET_X_REG_L => 0x45,
            Register::OFFSET_X_REG_H => 0x46,
            Register::OFFSET_Y_REG_L => 0x47,
            Register::OFFSET_Y_REG_H => 0x48,
            Register::OFFSET_Z_REG_L => 0x49,
            Register::OFFSET_Z_REG_H => 0x4A,
            Register::WHO_AM_I => 0x4F,
            Register::CFG_REG_A => 0x60,
            Register::CFG_REG_B => 0x61,
            Register::CFG_REG_C => 0x62,
            Register::INT_CTRL_REG => 0x63,
            Register::INT_SOURCE_REG => 0x64,
            Register::INT_THS_L_REG => 0x65,
            Register::INT_THS_H_REG => 0x66,
            Register::STATUS_REG => 0x67,
            Register::OUT_X_L => 0x68,
            Register::OUT_X_H => 0x69,
            Register::OUT_Y_L => 0x6A,
            Register::OUT_Y_H => 0x6B,
            Register::OUT_Z_L => 0x6C,
            Register::OUT_Z_H => 0x6D,
            Register::TEMP_OUT_L_REG => 0x6E,
            Register::TEMP_OUT_H_REG => 0x6F,
        }
    }

    /// Get register address
    #[verifier::when_used_as_spec(spec_addr)]
    pub fn addr(self) -> (a: u8)
        ensures
            a == self.spec_addr(),
    {
        match self {
            Register::OFFSET_X_REG_L => 0x45,
            Register::OFFSET_X_REG_H => 0x46,
            Register::OFFSET_Y_REG_L => 0x47,
            Register::OFFSET_Y_REG_H => 0x48,
            Register::OFFSET_Z_REG_L => 0x49,
            Register::OFFSET_Z_REG_H => 0x4A,
            Register::WHO_AM_I => 0x4F,
            Register::CFG_REG_A => 0x60,
            Register::CFG_REG_B => 0x61,
            Register::CFG_REG_C => 0x62,
            Register::INT_CTRL_REG => 0x63,
            Register::INT_SOURCE_REG => 0x64,
            Register::INT_THS_L_REG => 0x65,
            Register::INT_THS_H_REG => 0x66,
            Register::STATUS_REG => 0x67,
            Register::OUT_X_L => 0x68,
            Register::OUT_X_H => 0x69,
            Register::OUT_Y_L => 0x6A,
            Register::OUT_Y_H => 0x6B,
            Register::OUT_Z_L => 0x6C,
            Register::OUT_Z_H => 0x6D,
            Register::TEMP_OUT_L_REG => 0x6E,
            Register::TEMP_OUT_H_REG => 0x6F,
        }
    }
}

// === WHO_AM_I (4Fh) ===
/// WHO_AM_I device identification register
pub const DEVICE_ID: u8 = 0b0100_0000;

// === CFG_REG_A (60h) ===
pub const COMP_TEMP_EN: u8 = 0b1000_0000;

pub const REBOOT: u8 = 0b0100_0000;

pub const SOFT_RST: u8 = 0b0010_0000;

pub const LP: u8 = 0b0001_0000;

pub const ODR_MASK: u8 = 0b0000_1100;

pub const MOD_MASK: u8 = 0b0000_0011;

/// Output Data Rate
#[derive(Clone, Copy, Debug, PartialEq, Eq, Structural)]
pub enum Odr {
    /// 10 Hz
    Hz10,
    /// 20 Hz
    Hz20,
    /// 50 Hz
    Hz50,
    /// 100 Hz
    Hz100,
}

impl Odr {
    /// The selector's bit pattern within CFG_REG_A.
    pub open spec fn spec_value(self) -> u8 {
        match self {
            Odr::Hz10 => 0b0000,
            Odr::Hz20 => 0b0100,
            Odr::Hz50 => 0b1000,
            Odr::Hz100 => 0b1100,
        }
    }

    #[verifier::when_used_as_spec(spec_value)]
    pub fn value(self) -> (v: u8)
        ensures
            v == self.spec_value(),
    {
        match self {
            Odr::Hz10 => 0b0000,
            Odr::Hz20 => 0b0100,
            Odr::Hz50 => 0b1000,
            Odr::Hz100 => 0b1100,
        }
    }
}

/// Mode of Operation
#[derive(Clone, Copy, Debug, PartialEq, Eq, Structural)]
pub enum ModeOp {
    Continuous,
    Single,
    Idle1,
    Idle,
}

impl ModeOp {
    /// The selector's bit pattern within CFG_REG_A.
    pub open spec fn spec_value(self) -> u8 {
        match self {
            ModeOp::Continuous => 0b00,
            ModeOp::Single => 0b01,
            ModeOp::Idle1 => 0b10,
            ModeOp::Idle => 0b11,
        }
    }

    #[verifier::when_used_as_spec(spec_value)]
    pub fn value(self) -> (v: u8)
        ensures
            v == self.spec_value(),
    {
        match self {
            ModeOp::Continuous => 0b00,
            ModeOp::Single => 0b01,
            ModeOp::Idle1 => 0b10,
            ModeOp::Idle => 0b11,
        }
    }
}

// === CFG_REG_B (61h) ===
pub const OFF_CANC_ONE_SHOT: u8 = 0b0001_0000;

pub const INT_ON_DATAOFF: u8 = 0b0000_1000;

pub const SET_FREQ: u8 = 0b0000_0100;

pub const OFF_CANC: u8 = 0b0000_0010;

pub const LPF: u8 = 0b0000_0001;

// === CFG_REG_C (62h) ===
pub const INT_ON_PIN: u8 = 0b0100_0000;

pub const I2C_DIS: u8 = 0b0010_0000;

pub const BDU: u8 = 0b0001_0000;

pub const BLE: u8 = 0b0000_1000;

pub const _4WSPI: u8 = 0b0000_0100;

pub const SELF_TEST: u8 = 0b0000_0010;

pub const DRDY_ON_PIN: u8 = 0b0000_0001;

// === INT_CTRL_REG (63h) ===
pub const XIEN: u8 = 0b1000_0000;

pub const YIEN: u8 = 0b0100_0000;

pub const ZIEN: u8 = 0b0010_0000;

pub const IEA: u8 = 0b0000_0100;

pub const IEL: u8 = 0b0000_0010;

pub const IEN: u8 = 0b0000_0001;

// === INT_SOURCE_REG (64h) ===
pub const P_TH_S_X: u8 = 0b1000_0000;

pub const P_TH_S_Y: u8 = 0b0100_0000;

pub const P_TH_S_Z: u8 = 0b0010_0000;

pub const N_TH_S_X: u8 = 0b0001_0000;

pub const N_TH_S_Y: u8 = 0b0000_1000;

pub const N_TH_S_Z: u8 = 0b0000_0100;

pub const MROI: u8 = 0b0000_0010;

pub const INT: u8 = 0b0000_0001;

// === STATUS_REG (67h) ===
pub const ZYXOR: u8 = 0b1000_0000;

pub const ZOR: u8 = 0b0100_0000;

pub const YOR: u8 = 0b0010_0000;

pub const XOR: u8 = 0b0001_0000;

pub const ZYXDA: u8 = 0b0000_1000;

pub const ZDA: u8 = 0b0000_0100;

pub const YDA: u8 = 0b0000_0010;

pub const XDA: u8 = 0b0000_0001;

} // verus!
