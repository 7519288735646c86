//! LPS22HH barometer register map: register addresses, bit-field constants,
//! the identity byte, and the scaling constants that convert raw readings
//! into physical units.

use vstd::prelude::*;

verus! {

/// I2C slave address
pub const I2C_SAD: u8 = 0b1011101;

/// Pressure scale: 4096 LSB per hPa, so one LSB is 1/4096 hPa; converted
/// to Pa (100 Pa per hPa) one LSB is exactly 100 / 4096 Pa.
#[allow(non_upper_case_globals)]
pub const LSB_PER_hPA: u64 = 4096;

/// Pa per hPa, the unit conversion applied after the 1/4096 hPa scale.
pub const PA_PER_HPA: i64 = 100;

/// Temperature scale: 0.01 degrees Celsius per LSB, written exactly as
/// 1 / 100.
pub const DEG_PER_LSB_NUM: i64 = 1;

pub const DEG_PER_LSB_DEN: u64 = 100;

/// Register mapping
#[allow(non_camel_case_types)]
#[derive(Clone, Copy, Debug, PartialEq, Eq, Structural)]
pub enum Register {
    INTERRUPT_CFG,
    THS_P_L,
    THS_P_H,
    IF_CTRL,
    WHO_AM_I,
    CTRL_REG1,
    CTRL_REG2,
    CTRL_REG3,
    FIFO_CTRL,
    FIFO_WTM,
    REF_P_L,
    REF_P_H,
    RPDS_L,
    RPDS_H,
    INT_SOURCE,
    FIFO_STATUS1,
    FIFO_STATUS2,
    STATUS,
    PRESSURE_OUT_XL,
    PRESSURE_OUT_L,
    PRESSURE_OUT_H,
    TEMP_OUT_L,
    TEMP_OUT_H,
    FIFO_DATA_OUT_P_XL,
    FIFO_DATA_OUT_P_L,
    FIFO_DATA_OUT_P_H,
    FIFO_DATA_OUT_T_L,
    FIFO_DATA_OUT_T_H,
}

impl Register {
    /// The register's byte address.
    pub open spec fn spec_addr(self) -> u8 {
        match self {
            Register::INTERRUPT_CFG => 0x0B,
            Register::THS_P_L => 0x0C,
            Register::THS_P_H => 0x0D,
            Register::IF_CTRL => 0x0E,
            Register::WHO_AM_I => 0x0F,
            Register::CTRL_REG1 => 0x10,
            Register::CTRL_REG2 => 0x11,
            Register::CTRL_REG3 => 0x12,
            Register::FIFO_CTRL => 0x13,
            Register::FIFO_WTM => 0x14,
            Register::REF_P_L => 0x15,
            Register::REF_P_H => 0x16,
            Register::RPDS_L => 0x18,
            Register::RPDS_H => 0x19,
            Register::INT_SOURCE => 0x24,
            Register::FIFO_STATUS1 => 0x25,
            Register::FIFO_STATUS2 => 0x26,
            Register::STATUS => 0x27,
            Register::PRESSURE_OUT_XL => 0x28,
            Register::PRESSURE_OUT_L => 0x29,
            Register::PRESSURE_OUT_H => 0x2A,
            Register::TEMP_OUT_L => 0x2B,
            Register::TEMP_OUT_H => 0x2C,
            Register::FIFO_DATA_OUT_P_XL => 0x78,
            Register::FIFO_DATA_OUT_P_L => 0x79,
            Register::FIFO_DATA_OUT_P_H => 0x7A,
            Register::FIFO_DATA_OUT_T_L => 0x7B,
            Register::FIFO_DATA_OUT_T_H => 0x7C,
        }
    }

    /// Get register address
    #[verifier::when_used_as_spec(spec_addr)]
    pub fn addr(self) -> (a: u8)
        ensures
            a == self.spec_addr(),
    {
        match self {
            Register::INTERRUPT_CFG => 0x0B,
            Register::THS_P_L => 0x0C,
            Register::THS_P_H => 0x0D,
            Register::IF_CTRL => 0x0E,
            Register::WHO_AM_I => 0x0F,
            Register::CTRL_REG1 => 0x10,
            Register::CTRL_REG2 => 0x11,
            Register::CTRL_REG3 => 0x12,
            Register::FIFO_CTRL => 0x13,
            Register::FIFO_WTM => 0x14,
            Register::REF_P_L => 0x15,
            Register::REF_P_H => 0x16,
            Register::RPDS_L => 0x18,
            Register::RPDS_H => 0x19,
            Register::INT_SOURCE => 0x24,
            Register::FIFO_STATUS1 => 0x25,
            Register::FIFO_STATUS2 => 0x26,
            Register::STATUS => 0x27,
            Register::PRESSURE_OUT_XL => 0x28,
            Register::PRESSURE_OUT_L => 0x29,
            Register::PRESSURE_OUT_H => 0x2A,
            Register::TEMP_OUT_L => 0x2B,
            Register::TEMP_OUT_H => 0x2C,
            Register::FIFO_DATA_OUT_P_XL => 0x78,
            Register::FIFO_DATA_OUT_P_L => 0x79,
            Register::FIFO_DATA_OUT_P_H => 0x7A,
            Register::FIFO_DATA_OUT_T_L => 0x7B,
            Register::FIFO_DATA_OUT_T_H => 0x7C,
        }
    }
}

// === WHO_AM_I (0Fh) ===
/// WHO_AM_I device identification register
pub const DEVICE_ID: u8 = 0b10110011;

// === IF_CTRL (0Eh) ===
pub const INT_EN_I3C: u8 = 0b1000_0000;

pub const SDA_PU_EN: u8 = 0b0001_0000;

pub const SDO_PU_EN: u8 = 0b0000_1000;

pub const PD_DIS_INT1: u8 = 0b0000_0100;

pub const I3C_DISABLE: u8 = 0b0000_0010;

pub const I2C_DISABLE: u8 = 0b0000_0001;

// === CTRL_REG1 (10h) ===
pub const BDU: u8 = 0b0000_0010;

pub const SIM: u8 = 0b0000_0001;

/// Output Data Rate
#[allow(non_camel_case_types)]
#[derive(Clone, Copy, Debug, PartialEq, Eq, Structural)]
pub enum Odr {
    /// One-shot
    One_shot,
    /// 1 Hz
    Hz1,
    /// 10 Hz
    Hz10,
    /// 25 Hz
    Hz20,
    /// 50 Hz
    Hz50,
    /// 75 Hz
    Hz75,
    /// 100 Hz
    Hz100,
    /// 200 Hz
    Hz200,
}

impl Odr {
    /// The selector's bit pattern within CTRL_REG1.
    pub open spec fn spec_value(self) -> u8 {
        match self {
            Odr::One_shot => 0b0000_0000,
            Odr::Hz1 => 0b0001_0000,
            Odr::Hz10 => 0b0010_0000,
            Odr::Hz20 => 0b0011_0000,
            Odr::Hz50 => 0b0100_0000,
            Odr::Hz75 => 0b0101_0000,
            Odr::Hz100 => 0b0110_0000,
            Odr::Hz200 => 0b0111_0000,
        }
    }

    #[verifier::when_used_as_spec(spec_value)]
    pub fn value(self) -> (v: u8)
        ensures
            v == self.spec_value(),
    {
        match self {
            Odr::One_shot => 0b0000_0000,
            Odr::Hz1 => 0b0001_0000,
            Odr::Hz10 => 0b0010_0000,
            Odr::Hz20 => 0b0011_0000,
            Odr::Hz50 => 0b0100_0000,
            Odr::Hz75 => 0b0101_0000,
            Odr::Hz100 => 0b0110_0000,
            Odr::Hz200 => 0b0111_0000,
        }
    }
}

/// Low-pass filter
#[allow(non_camel_case_types)]
#[derive(Clone, Copy, Debug, PartialEq, Eq, Structural)]
pub enum LPF {
    /// ODR/2
    DIV_2,
    /// ODR/9
    DIV_9,
    /// ODR/20
    DIV_20,
}

impl LPF {
    /// The selector's bit pattern within CTRL_REG1.
    pub open spec fn spec_value(self) -> u8 {
        match self {
            LPF::DIV_2 => 0b0000_0000,
            LPF::DIV_9 => 0b0000_1000,
            LPF::DIV_20 => 0b0000_1100,
        }
    }

    #[verifier::when_used_as_spec(spec_value)]
    pub fn value(self) -> (v: u8)
        ensures
            v == self.spec_value(),
    {
        match self {
            LPF::DIV_2 => 0b0000_0000,
            LPF::DIV_9 => 0b0000_1000,
            LPF::DIV_20 => 0b0000_1100,
        }
    }
}

// === CTRL_REG2 (11h) ===
pub const BOOT: u8 = 0b1000_0000;

pub const INT_H_L: u8 = 0b0100_0000;

pub const PP_OD: u8 = 0b0010_0000;

pub const IF_ADD_INC: u8 = 0b0001_0000;

pub const SWRESET: u8 = 0b0000_0100;

pub const LOW_NOISE_EN: u8 = 0b0000_0010;

pub const ONE_SHOT: u8 = 0b0000_0001;

// === CTRL_REG3 (12h) ===
pub const INT_F_FULL: u8 = 0b0010_0000;

pub const INT_F_WTM: u8 = 0b0001_0000;

pub const INT_F_OVR: u8 = 0b0000_1000;

pub const DRDY: u8 = 0b0000_0100;

pub const INT_S1: u8 = 0b0000_0010;

pub const INT_S0: u8 = 0b0000_0001;

// === FIFO_CTRL (13h) ===
pub const STOP_ON_WTM: u8 = 0b0000_1000;

/// Fifo Mode
#[allow(non_camel_case_types)]
#[derive(Clone, Copy, Debug, PartialEq, Eq, Structural)]
pub enum FifoMode {
    /// Bypass
    Bypass,
    /// FIFO mode
    FIFO_Mode,
    /// Continuous (Dynamic-Stream)
    Continuous,
    /// Bypass-to-FIFO
    BypToFifo,
    /// Bypass-to-Continuous
    BypToCont,
    /// Continuous-to-FIFO
    ContToFifo,
}

impl FifoMode {
    /// The selector's bit pattern within FIFO_CTRL.
    pub open spec fn spec_value(self) -> u8 {
        match self {
            FifoMode::Bypass => 0b0000_0000,
            FifoMode::FIFO_Mode => 0b0000_0001,
            FifoMode::Continuous => 0b0000_0010,
            FifoMode::BypToFifo => 0b0000_0101,
            FifoMode::BypToCont => 0b0000_0110,
            FifoMode::ContToFifo => 0b0000_0111,
        }
    }

    #[verifier::when_used_as_spec(spec_value)]
    pub fn value(self) -> (v: u8)
        ensures
            v == self.spec_value(),
    {
        match self {
            FifoMode::Bypass => 0b0000_0000,
            FifoMode::FIFO_Mode => 0b0000_0001,
            FifoMode::Continuous => 0b0000_0010,
            FifoMode::BypToFifo => 0b0000_0101,
            FifoMode::BypToCont => 0b0000_0110,
            FifoMode::ContToFifo => 0b0000_0111,
        }
    }
}

} // verus!
