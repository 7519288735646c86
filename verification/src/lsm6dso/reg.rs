//! LSM6DSO inertial sensor register map: register addresses, bit-field
//! constants and the identity byte.

use vstd::prelude::*;

verus! {

/// I2C slave address
pub const I2C_SAD: u8 = 0b1101011;

/// Operating mode
#[derive(Clone, Copy, Debug, PartialEq, Eq, Structural)]
pub enum AccMode {
    PowerDown,
    UltraLowPower,
    LowPower,
    Normal,
    HighPerf,
}

/// Operating mode
#[derive(Clone, Copy, Debug, PartialEq, Eq, Structural)]
pub enum GyrMode {
    PowerDown,
    LowPower,
    Normal,
    HighPerf,
}

/// Register mapping
#[allow(non_camel_case_types)]
#[derive(Clone, Copy, Debug, PartialEq, Eq, Structural)]
pub enum Register {
    FUNC_CFG_ACCESS,
    PIN_CTRL,
    FIFO_CTRL1,
    FIFO_CTRL2,
    FIFO_CTRL3,
    FIFO_CTRL4,
    COUNTER_BDR_REG1,
    COUNTER_BDR_REG2,
    INT1_CTRL,
    INT2_CTRL,
    WHO_AM_I,
    CTRL1_XL,
    CTRL2_G,
    CTRL3_C,
    CTRL4_C,
    CTRL5_C,
    CTRL6_C,
    CTRL7_G,
    CTRL8_XL,
    CTRL9_XL,
    CTRL10_C,
    ALL_INT_SRC,
    WAKE_UP_SRC,
    TAP_SRC,
    D6D_SRC,
    STATUS_REG,
    OUT_TEMP_L,
    OUT_TEMP_H,
    OUTX_L_G,
    OUTX_H_G,
    OUTY_L_G,
    OUTY_H_G,
    OUTZ_L_G,
    OUTZ_H_G,
    OUTX_L_A,
    OUTX_H_A,
    OUTY_L_A,
    OUTY_H_A,
    OUTZ_L_A,
    OUTZ_H_A,
    EMB_FUNC_STATUS_MAINPAGE,
    FSM_STATUS_A_MAINPAGE,
    FSM_STATUS_B_MAINPAGE,
    STATUS_MASTER_MAINPAGE,
    FIFO_STATUS1,
    FIFO_STATUS2,
    TIMESTAMP0,
    TIMESTAMP1,
    TIMESTAMP2,
    TIMESTAMP3,
    TAP_CFG0,
    TAP_CFG1,
    TAP_CFG2,
    TAP_THS_6D,
    INT_DUR2,
    WAKE_UP_THS,
    WAKE_UP_DUR,
    FREE_FALL,
    MD1_CFG,
    MD2_CFG,
    I3C_BUS_AVB,
    INTERNAL_FREQ_FINE,
    INT_OIS,
    CTRL1_OIS,
    CTRL2_OIS,
    CTRL3_OIS,
    X_OFS_USR,
    Y_OFS_USR,
    Z_OFS_USR,
    FIFO_DATA_OUT_TAG,
    FIFO_DATA_OUT_X_L,
    FIFO_DATA_OUT_X_H,
    FIFO_DATA_OUT_Y_L,
    FIFO_DATA_OUT_Y_H,
    FIFO_DATA_OUT_Z_L,
    FIFO_DATA_OUT_Z_H,
}

impl Register {
    /// The register's byte address.
    pub open spec fn spec_addr(self) -> u8 {
        match self {
            Register::FUNC_CFG_ACCESS => 0x01,
            Register::PIN_CTRL => 0x02,
            Register::FIFO_CTRL1 => 0x07,
            Register::FIFO_CTRL2 => 0x08,
            Register::FIFO_CTRL3 => 0x09,
            Register::FIFO_CTRL4 => 0x0A,
            Register::COUNTER_BDR_REG1 => 0x0B,
            Register::COUNTER_BDR_REG2 => 0x0C,
            Register::INT1_CTRL => 0x0D,
            Register::INT2_CTRL => 0x0E,
            Register::WHO_AM_I => 0x0F,
            Register::CTRL1_XL => 0x10,
            Register::CTRL2_G => 0x11,
            Register::CTRL3_C => 0x12,
            Register::CTRL4_C => 0x13,
            Register::CTRL5_C => 0x14,
            Register::CTRL6_C => 0x15,
            Register::CTRL7_G => 0x16,
            Register::CTRL8_XL => 0x17,
            Register::CTRL9_XL => 0x18,
            Register::CTRL10_C => 0x19,
            Register::ALL_INT_SRC => 0x1A,
            Register::WAKE_UP_SRC => 0x1B,
            Register::TAP_SRC => 0x1C,
            Register::D6D_SRC => 0x1D,
            Register::STATUS_REG => 0x1E,
            Register::OUT_TEMP_L => 0x20,
            Register::OUT_TEMP_H => 0x21,
            Register::OUTX_L_G => 0x22,
            Register::OUTX_H_G => 0x23,
            Register::OUTY_L_G => 0x24,
            Register::OUTY_H_G => 0x25,
            Register::OUTZ_L_G => 0x26,
            Register::OUTZ_H_G => 0x27,
            Register::OUTX_L_A => 0x28,
            Register::OUTX_H_A => 0x29,
            Register::OUTY_L_A => 0x2A,
            Register::OUTY_H_A => 0x2B,
            Register::OUTZ_L_A => 0x2C,
            Register::OUTZ_H_A => 0x2D,
            Register::EMB_FUNC_STATUS_MAINPAGE => 0x35,
            Register::FSM_STATUS_A_MAINPAGE => 0x36,
            Register::FSM_STATUS_B_MAINPAGE => 0x37,
            Register::STATUS_MASTER_MAINPAGE => 0x39,
            Register::FIFO_STATUS1 => 0x3A,
            Register::FIFO_STATUS2 => 0x3B,
            Register::TIMESTAMP0 => 0x40,
            Register::TIMESTAMP1 => 0x41,
            Register::TIMESTAMP2 => 0x42,
            Register::TIMESTAMP3 => 0x43,
            Register::TAP_CFG0 => 0x56,
            Register::TAP_CFG1 => 0x57,
            Register::TAP_CFG2 => 0x58,
            Register::TAP_THS_6D => 0x59,
            Register::INT_DUR2 => 0x5A,
            Register::WAKE_UP_THS => 0x5B,
            Register::WAKE_UP_DUR => 0x5C,
            Register::FREE_FALL => 0x5D,
            Register::MD1_CFG => 0x5E,
            Register::MD2_CFG => 0x5F,
            Register::I3C_BUS_AVB => 0x62,
            Register::INTERNAL_FREQ_FINE => 0x63,
            Register::INT_OIS => 0x6F,
            Register::CTRL1_OIS => 0x70,
            Register::CTRL2_OIS => 0x71,
            Register::CTRL3_OIS => 0x72,
            Register::X_OFS_USR => 0x73,
            Register::Y_OFS_USR => 0x74,
            Register::Z_OFS_USR => 0x75,
            Register::FIFO_DATA_OUT_TAG => 0x78,
            Register::FIFO_DATA_OUT_X_L => 0x79,
            Register::FIFO_DATA_OUT_X_H => 0x7A,
            Register::FIFO_DATA_OUT_Y_L => 0x7B,
            Register::FIFO_DATA_OUT_Y_H => 0x7C,
            Register::FIFO_DATA_OUT_Z_L => 0x7D,
            Register::FIFO_DATA_OUT_Z_H => 0x7E,
        }
    }

    /// Get register address
    #[verifier::when_used_as_spec(spec_addr)]
    pub fn addr(self) -> (a: u8)
        ensures
            a == self.spec_addr(),
    {
        match self {
            Register::FUNC_CFG_ACCESS => 0x01,
            Register::PIN_CTRL => 0x02,
            Register::FIFO_CTRL1 => 0x07,
            Register::FIFO_CTRL2 => 0x08,
            Register::FIFO_CTRL3 => 0x09,
            Register::FIFO_CTRL4 => 0x0A,
            Register::COUNTER_BDR_REG1 => 0x0B,
            Register::COUNTER_BDR_REG2 => 0x0C,
            Register::INT1_CTRL => 0x0D,
            Register::INT2_CTRL => 0x0E,
            Register::WHO_AM_I => 0x0F,
            Register::CTRL1_XL => 0x10,
            Register::CTRL2_G => 0x11,
            Register::CTRL3_C => 0x12,
            Register::CTRL4_C => 0x13,
            Register::CTRL5_C => 0x14,
            Register::CTRL6_C => 0x15,
            Register::CTRL7_G => 0x16,
            Register::CTRL8_XL => 0x17,
            Register::CTRL9_XL => 0x18,
            Register::CTRL10_C => 0x19,
            Register::ALL_INT_SRC => 0x1A,
            Register::WAKE_UP_SRC => 0x1B,
            Register::TAP_SRC => 0x1C,
            Register::D6D_SRC => 0x1D,
            Register::STATUS_REG => 0x1E,
            Register::OUT_TEMP_L => 0x20,
            Register::OUT_TEMP_H => 0x21,
            Register::OUTX_L_G => 0x22,
            Register::OUTX_H_G => 0x23,
            Register::OUTY_L_G => 0x24,
            Register::OUTY_H_G => 0x25,
            Register::OUTZ_L_G => 0x26,
            Register::OUTZ_H_G => 0x27,
            Register::OUTX_L_A => 0x28,
            Register::OUTX_H_A => 0x29,
            Register::OUTY_L_A => 0x2A,
            Register::OUTY_H_A => 0x2B,
            Register::OUTZ_L_A => 0x2C,
            Register::OUTZ_H_A => 0x2D,
            Register::EMB_FUNC_STATUS_MAINPAGE => 0x35,
            Register::FSM_STATUS_A_MAINPAGE => 0x36,
            Register::FSM_STATUS_B_MAINPAGE => 0x37,
            Register::STATUS_MASTER_MAINPAGE => 0x39,
            Register::FIFO_STATUS1 => 0x3A,
            Register::FIFO_STATUS2 => 0x3B,
            Register::TIMESTAMP0 => 0x40,
            Register::TIMESTAMP1 => 0x41,
            Register::TIMESTAMP2 => 0x42,
            Register::TIMESTAMP3 => 0x43,
            Register::TAP_CFG0 => 0x56,
            Register::TAP_CFG1 => 0x57,
            Register::TAP_CFG2 => 0x58,
            Register::TAP_THS_6D => 0x59,
            Register::INT_DUR2 => 0x5A,
            Register::WAKE_UP_THS => 0x5B,
            Register::WAKE_UP_DUR => 0x5C,
            Register::FREE_FALL => 0x5D,
            Register::MD1_CFG => 0x5E,
            Register::MD2_CFG => 0x5F,
            Register::I3C_BUS_AVB => 0x62,
            Register::INTERNAL_FREQ_FINE => 0x63,
            Register::INT_OIS => 0x6F,
            Register::CTRL1_OIS => 0x70,
            Register::CTRL2_OIS => 0x71,
            Register::CTRL3_OIS => 0x72,
            Register::X_OFS_USR => 0x73,
            Register::Y_OFS_USR => 0x74,
            Register::Z_OFS_USR => 0x75,
            Register::FIFO_DATA_OUT_TAG => 0x78,
            Register::FIFO_DATA_OUT_X_L => 0x79,
            Register::FIFO_DATA_OUT_X_H => 0x7A,
            Register::FIFO_DATA_OUT_Y_L => 0x7B,
            Register::FIFO_DATA_OUT_Y_H => 0x7C,
            Register::FIFO_DATA_OUT_Z_L => 0x7D,
            Register::FIFO_DATA_OUT_Z_H => 0x7E,
        }
    }
}

// === WHO_AM_I (0Fh) ===
/// WHO_AM_I device identification register
pub const DEVICE_ID: u8 = 0b01101100;

// === CTRL1_XL (10h) ===
// Accelerometer control register 1
pub const LPF2_XL_EN: u8 = 0b0000_0010;

/// Accelerometer Output Data Rate
#[allow(non_camel_case_types)]
#[derive(Clone, Copy, Debug, PartialEq, Eq, Structural)]
pub enum AccOdr {
    /// Power-down
    PowerDown,
    /// 1.6 Hz
    Hz1_6,
    /// 12.5 Hz
    Hz12_5,
    /// 26 Hz
    Hz26,
    /// 52 Hz
    Hz52,
    /// 104 Hz
    Hz104,
    /// 208 Hz
    Hz208,
    /// 416 Hz
    Hz416,
    /// 833 Hz
    Hz833,
    /// 1.66 kHz
    KHz1_66,
    /// 3.33 kHz
    KHz3_33,
    /// 6.66 kHz
    KHz6_66,
}

impl AccOdr {
    /// The selector's bit pattern within CTRL1_XL.
    pub open spec fn spec_value(self) -> u8 {
        match self {
            AccOdr::PowerDown => 0b0000_0000,
            AccOdr::Hz1_6 => 0b1011_0000,
            AccOdr::Hz12_5 => 0b0001_0000,
            AccOdr::Hz26 => 0b0010_0000,
            AccOdr::Hz52 => 0b0011_0000,
            AccOdr::Hz104 => 0b0100_0000,
            AccOdr::Hz208 => 0b0101_0000,
            AccOdr::Hz416 => 0b0110_0000,
            AccOdr::Hz833 => 0b0111_0000,
            AccOdr::KHz1_66 => 0b1000_0000,
            AccOdr::KHz3_33 => 0b1001_0000,
            AccOdr::KHz6_66 => 0b1010_0000,
        }
    }

    #[verifier::when_used_as_spec(spec_value)]
    pub fn value(self) -> (v: u8)
        ensures
            v == self.spec_value(),
    {
        match self {
            AccOdr::PowerDown => 0b0000_0000,
            AccOdr::Hz1_6 => 0b1011_0000,
            AccOdr::Hz12_5 => 0b0001_0000,
            AccOdr::Hz26 => 0b0010_0000,
            AccOdr::Hz52 => 0b0011_0000,
            AccOdr::Hz104 => 0b0100_0000,
            AccOdr::Hz208 => 0b0101_0000,
            AccOdr::Hz416 => 0b0110_0000,
            AccOdr::Hz833 => 0b0111_0000,
            AccOdr::KHz1_66 => 0b1000_0000,
            AccOdr::KHz3_33 => 0b1001_0000,
            AccOdr::KHz6_66 => 0b1010_0000,
        }
    }
}
/// Accelerometer full-scale selection.  With XL_FS_MODE = 1 in CTRL8_XL the
/// maximum scale is 8g and the 16g selector means 2g; see the reference
/// manual.
#[allow(non_camel_case_types)]
#[derive(Clone, Copy, Debug, PartialEq, Eq, Structural)]
pub enum AccScale {
    /// 2g
    G2,
    /// 16g
    G16,
    /// 4g
    G4,
    /// 8g
    G8,
}

impl AccScale {
    /// The selector's bit pattern within CTRL1_XL.
    pub open spec fn spec_value(self) -> u8 {
        match self {
            AccScale::G2 => 0b0000_0000,
            AccScale::G16 => 0b0000_0100,
            AccScale::G4 => 0b0000_1000,
            AccScale::G8 => 0b0000_1100,
        }
    }

    #[verifier::when_used_as_spec(spec_value)]
    pub fn value(self) -> (v: u8)
        ensures
            v == self.spec_value(),
    {
        match self {
            AccScale::G2 => 0b0000_0000,
            AccScale::G16 => 0b0000_0100,
            AccScale::G4 => 0b0000_1000,
            AccScale::G8 => 0b0000_1100,
        }
    }
}
// === CTRL2_G (11h) ===
// Gyroscope control register 2
pub const FS_125: u8 = 0b0000_0010;

/// Gyroscope Output Data Rate
#[allow(non_camel_case_types)]
#[derive(Clone, Copy, Debug, PartialEq, Eq, Structural)]
pub enum GyrOdr {
    /// Power-down
    PowerDown,
    /// 1.6 Hz
    Hz1_6,
    /// 12.5 Hz
    Hz12_5,
    /// 26 Hz
    Hz26,
    /// 52 Hz
    Hz52,
    /// 104 Hz
    Hz104,
    /// 208 Hz
    Hz208,
    /// 416 Hz
    Hz416,
    /// 833 Hz
    Hz833,
    /// 1.66 kHz
    KHz1_66,
    /// 3.33 kHz
    KHz3_33,
    /// 6.66 kHz
    KHz6_66,
}

impl GyrOdr {
    /// The selector's bit pattern within CTRL2_G.
    pub open spec fn spec_value(self) -> u8 {
        match self {
            GyrOdr::PowerDown => 0b0000_0000,
            GyrOdr::Hz1_6 => 0b1011_0000,
            GyrOdr::Hz12_5 => 0b0001_0000,
            GyrOdr::Hz26 => 0b0010_0000,
            GyrOdr::Hz52 => 0b0011_0000,
            GyrOdr::Hz104 => 0b0100_0000,
            GyrOdr::Hz208 => 0b0101_0000,
            GyrOdr::Hz416 => 0b0110_0000,
            GyrOdr::Hz833 => 0b0111_0000,
            GyrOdr::KHz1_66 => 0b1000_0000,
            GyrOdr::KHz3_33 => 0b1001_0000,
            GyrOdr::KHz6_66 => 0b1010_0000,
        }
    }

    #[verifier::when_used_as_spec(spec_value)]
    pub fn value(self) -> (v: u8)
        ensures
            v == self.spec_value(),
    {
        match self {
            GyrOdr::PowerDown => 0b0000_0000,
            GyrOdr::Hz1_6 => 0b1011_0000,
            GyrOdr::Hz12_5 => 0b0001_0000,
            GyrOdr::Hz26 => 0b0010_0000,
            GyrOdr::Hz52 => 0b0011_0000,
            GyrOdr::Hz104 => 0b0100_0000,
            GyrOdr::Hz208 => 0b0101_0000,
            GyrOdr::Hz416 => 0b0110_0000,
            GyrOdr::Hz833 => 0b0111_0000,
            GyrOdr::KHz1_66 => 0b1000_0000,
            GyrOdr::KHz3_33 => 0b1001_0000,
            GyrOdr::KHz6_66 => 0b1010_0000,
        }
    }
}
/// Gyroscope full-scale selection
#[allow(non_camel_case_types)]
#[derive(Clone, Copy, Debug, PartialEq, Eq, Structural)]
pub enum GyrScale {
    /// 250 dps
    Dps250,
    /// 500 dps
    Dps500,
    /// 1000 dps
    Dps1000,
    /// 2000 dps
    Dps2000,
}

impl GyrScale {
    /// The selector's bit pattern within CTRL2_G.
    pub open spec fn spec_value(self) -> u8 {
        match self {
            GyrScale::Dps250 => 0b0000_0000,
            GyrScale::Dps500 => 0b0000_0100,
            GyrScale::Dps1000 => 0b0000_1000,
            GyrScale::Dps2000 => 0b0000_1100,
        }
    }

    #[verifier::when_used_as_spec(spec_value)]
    pub fn value(self) -> (v: u8)
        ensures
            v == self.spec_value(),
    {
        match self {
            GyrScale::Dps250 => 0b0000_0000,
            GyrScale::Dps500 => 0b0000_0100,
            GyrScale::Dps1000 => 0b0000_1000,
            GyrScale::Dps2000 => 0b0000_1100,
        }
    }
}
// === CTRL3_C (12h) ===
pub const BOOT: u8 = 0b1000_0000;

pub const BDU: u8 = 0b0100_0000;

pub const H_LACTIVE: u8 = 0b0010_0000;

pub const PP_OD: u8 = 0b0001_0000;

pub const SIM: u8 = 0b0000_1000;

pub const IF_INC: u8 = 0b0000_0100;

pub const SW_RESET: u8 = 0b0000_0001;

// === CTRL4_C (13h) ===
pub const SLEEP_G: u8 = 0b0100_0000;

#[allow(non_upper_case_globals)]
pub const INT2_on_INT1: u8 = 0b0010_0000;

pub const DRDY_MASK: u8 = 0b0000_1000;

#[allow(non_upper_case_globals)]
pub const I2C_dis: u8 = 0b0000_0100;

pub const LPF1_SEL_G: u8 = 0b0000_0010;

// === CTRL5_C (14h) ===
pub const XL_ULP_EN: u8 = 0b1000_0000;

/// Circular burst-mode (rounding) read from the output registers. Default
/// value: 00
#[allow(non_camel_case_types)]
#[derive(Clone, Copy, Debug, PartialEq, Eq, Structural)]
pub enum Rounding {
    /// no rounding (default)
    NoRounding,
    /// accelerometer only
    AccOnly,
    /// gyroscope only
    GyrOnly,
    /// gyroscope + accelerometer
    Both,
}

impl Rounding {
    /// The selector's bit pattern within CTRL5_C.
    pub open spec fn spec_value(self) -> u8 {
        match self {
            Rounding::NoRounding => 0b0000_0000,
            Rounding::AccOnly => 0b0010_0000,
            Rounding::GyrOnly => 0b0100_0000,
            Rounding::Both => 0b0110_0000,
        }
    }

    #[verifier::when_used_as_spec(spec_value)]
    pub fn value(self) -> (v: u8)
        ensures
            v == self.spec_value(),
    {
        match self {
            Rounding::NoRounding => 0b0000_0000,
            Rounding::AccOnly => 0b0010_0000,
            Rounding::GyrOnly => 0b0100_0000,
            Rounding::Both => 0b0110_0000,
        }
    }
}
/// Linear acceleration sensor self-test mode selection
#[allow(non_camel_case_types)]
#[derive(Clone, Copy, Debug, PartialEq, Eq, Structural)]
pub enum AccSeflTest {
    /// Normal mode
    Normal,
    /// Positive sign self-test
    Positive,
    /// Negative sign self-test
    Negative,
}

impl AccSeflTest {
    /// The selector's bit pattern within CTRL5_C.
    pub open spec fn spec_value(self) -> u8 {
        match self {
            AccSeflTest::Normal => 0b0000_0000,
            AccSeflTest::Positive => 0b0000_0001,
            AccSeflTest::Negative => 0b0000_0010,
        }
    }

    #[verifier::when_used_as_spec(spec_value)]
    pub fn value(self) -> (v: u8)
        ensures
            v == self.spec_value(),
    {
        match self {
            AccSeflTest::Normal => 0b0000_0000,
            AccSeflTest::Positive => 0b0000_0001,
            AccSeflTest::Negative => 0b0000_0010,
        }
    }
}
/// Angular rate sensor self-test mode selection
#[allow(non_camel_case_types)]
#[derive(Clone, Copy, Debug, PartialEq, Eq, Structural)]
pub enum GyroSeflTest {
    /// Normal mode
    Normal,
    /// Positive sign self-test
    Positive,
    /// Negative sign self-test
    Negative,
}

impl GyroSeflTest {
    /// The selector's bit pattern within CTRL5_C.
    pub open spec fn spec_value(self) -> u8 {
        match self {
            GyroSeflTest::Normal => 0b0000_0000,
            GyroSeflTest::Positive => 0b0000_0100,
            GyroSeflTest::Negative => 0b0000_1100,
        }
    }

    #[verifier::when_used_as_spec(spec_value)]
    pub fn value(self) -> (v: u8)
        ensures
            v == self.spec_value(),
    {
        match self {
            GyroSeflTest::Normal => 0b0000_0000,
            GyroSeflTest::Positive => 0b0000_0100,
            GyroSeflTest::Negative => 0b0000_1100,
        }
    }
}
// === CTRL6_C (15h) ===
pub const XL_HM_MODE: u8 = 0b0001_0000;

pub const USR_OFF_W: u8 = 0b0000_1000;

/// Trigger mode selection
#[allow(non_camel_case_types)]
#[derive(Clone, Copy, Debug, PartialEq, Eq, Structural)]
pub enum TriggerMode {
    /// Edge-sensitive trigger mode is selected
    Edge,
    /// Level-sensitive trigger mode is selected
    LevelTrigger,
    /// Level-sensitive latched mode is selected
    LevelLatched,
    /// Level-sensitive FIFO enable mode is selected
    LevelFifo,
}

impl TriggerMode {
    /// The selector's bit pattern within CTRL6_C.
    pub open spec fn spec_value(self) -> u8 {
        match self {
            TriggerMode::Edge => 0b0010_0000,
            TriggerMode::LevelTrigger => 0b0100_0000,
            TriggerMode::LevelLatched => 0b0110_0000,
            TriggerMode::LevelFifo => 0b1100_0000,
        }
    }

    #[verifier::when_used_as_spec(spec_value)]
    pub fn value(self) -> (v: u8)
        ensures
            v == self.spec_value(),
    {
        match self {
            TriggerMode::Edge => 0b0010_0000,
            TriggerMode::LevelTrigger => 0b0100_0000,
            TriggerMode::LevelLatched => 0b0110_0000,
            TriggerMode::LevelFifo => 0b1100_0000,
        }
    }
}
/// Gyroscope LPF1 bandwidth selection
#[allow(non_camel_case_types)]
#[derive(Clone, Copy, Debug, PartialEq, Eq, Structural)]
pub enum GyroLpfLevel {
    LevelOne,
    LevelTwo,
    LevelThree,
    LevelFour,
    LevelFive,
    LevelSix,
    LevelEight,
    LevelNine,
}

impl GyroLpfLevel {
    /// The selector's bit pattern within CTRL6_C.
    pub open spec fn spec_value(self) -> u8 {
        match self {
            GyroLpfLevel::LevelOne => 0b0000_0000,
            GyroLpfLevel::LevelTwo => 0b0000_0001,
            GyroLpfLevel::LevelThree => 0b0000_0010,
            GyroLpfLevel::LevelFour => 0b0000_0011,
            GyroLpfLevel::LevelFive => 0b0000_0100,
            GyroLpfLevel::LevelSix => 0b0000_0101,
            GyroLpfLevel::LevelEight => 0b0000_0110,
            GyroLpfLevel::LevelNine => 0b0000_0111,
        }
    }

    #[verifier::when_used_as_spec(spec_value)]
    pub fn value(self) -> (v: u8)
        ensures
            v == self.spec_value(),
    {
        match self {
            GyroLpfLevel::LevelOne => 0b0000_0000,
            GyroLpfLevel::LevelTwo => 0b0000_0001,
            GyroLpfLevel::LevelThree => 0b0000_0010,
            GyroLpfLevel::LevelFour => 0b0000_0011,
            GyroLpfLevel::LevelFive => 0b0000_0100,
            GyroLpfLevel::LevelSix => 0b0000_0101,
            GyroLpfLevel::LevelEight => 0b0000_0110,
            GyroLpfLevel::LevelNine => 0b0000_0111,
        }
    }
}
// === CTRL7_G (16h) ===
pub const G_HM_MODE: u8 = 0b1000_0000;

pub const HP_EN_G: u8 = 0b0100_0000;

pub const OIS_ON_EN: u8 = 0b0000_0100;

pub const USR_OFF_ON_OUT: u8 = 0b0000_0010;

pub const OIS_ON: u8 = 0b0000_0001;

/// Gyroscope high-pass filter cutoff selection
#[allow(non_camel_case_types)]
#[derive(Clone, Copy, Debug, PartialEq, Eq, Structural)]
pub enum GyroHpfCutoff {
    /// 16 mHz
    MilliHz16,
    /// 65 mHz
    MilliHz65,
    /// 260 mHz
    MilliHz260,
    /// 1.04 Hz
    Hz1,
}

impl GyroHpfCutoff {
    /// The selector's bit pattern within CTRL7_G.
    pub open spec fn spec_value(self) -> u8 {
        match self {
            GyroHpfCutoff::MilliHz16 => 0b0000_0000,
            GyroHpfCutoff::MilliHz65 => 0b0001_0000,
            GyroHpfCutoff::MilliHz260 => 0b0010_0000,
            GyroHpfCutoff::Hz1 => 0b0011_0000,
        }
    }

    #[verifier::when_used_as_spec(spec_value)]
    pub fn value(self) -> (v: u8)
        ensures
            v == self.spec_value(),
    {
        match self {
            GyroHpfCutoff::MilliHz16 => 0b0000_0000,
            GyroHpfCutoff::MilliHz65 => 0b0001_0000,
            GyroHpfCutoff::MilliHz260 => 0b0010_0000,
            GyroHpfCutoff::Hz1 => 0b0011_0000,
        }
    }
}
// === CTRL8_XL (17h) ===
pub const HP_REF_MODE_XL: u8 = 0b0001_0000;

pub const XL_FS_MODE: u8 = 0b0000_0010;

pub const LOW_PASS_ON_6D: u8 = 0b0000_0001;

/// Accelerometer bandwidth configuration
#[allow(non_camel_case_types)]
#[derive(Clone, Copy, Debug, PartialEq, Eq, Structural)]
pub enum AccBandwidth {
    /// Low pass, ODR/4
    LowOdr4,
    /// Low pass, ODR/10
    LowOdr10,
    /// Low pass, ODR/20
    LowOdr20,
    /// Low pass, ODR/45
    LowOdr45,
    /// Low pass, ODR/100
    LowOdr100,
    /// Low pass, ODR/200
    LowOdr200,
    /// Low pass, ODR/400
    LowOdr400,
    /// Low pass, ODR/800
    LowOdr800,
    /// High pass, ODR/4
    HighOdr4,
    /// High pass, ODR/10
    HighOdr10,
    /// High pass, ODR/20
    HighOdr20,
    /// High pass, ODR/45
    HighOdr45,
    /// High pass, ODR/100
    HighOdr100,
    /// High pass, ODR/200
    HighOdr200,
    /// High pass, ODR/400
    HighOdr400,
    /// High pass, ODR/800
    HighOdr800,
}

impl AccBandwidth {
    /// The selector's bit pattern within CTRL8_XL.
    pub open spec fn spec_value(self) -> u8 {
        match self {
            AccBandwidth::LowOdr4 => 0b0000_0000,
            AccBandwidth::LowOdr10 => 0b0010_0000,
            AccBandwidth::LowOdr20 => 0b0100_0000,
            AccBandwidth::LowOdr45 => 0b0110_0000,
            AccBandwidth::LowOdr100 => 0b1000_0000,
            AccBandwidth::LowOdr200 => 0b1010_0000,
            AccBandwidth::LowOdr400 => 0b1100_0000,
            AccBandwidth::LowOdr800 => 0b1110_0000,
            AccBandwidth::HighOdr4 => 0b0000_0100,
            AccBandwidth::HighOdr10 => 0b0010_0100,
            AccBandwidth::HighOdr20 => 0b0100_0100,
            AccBandwidth::HighOdr45 => 0b0110_0100,
            AccBandwidth::HighOdr100 => 0b1000_0100,
            AccBandwidth::HighOdr200 => 0b1010_0100,
            AccBandwidth::HighOdr400 => 0b1100_0100,
            AccBandwidth::HighOdr800 => 0b1110_0100,
        }
    }

    #[verifier::when_used_as_spec(spec_value)]
    pub fn value(self) -> (v: u8)
        ensures
            v == self.spec_value(),
    {
        match self {
            AccBandwidth::LowOdr4 => 0b0000_0000,
            AccBandwidth::LowOdr10 => 0b0010_0000,
            AccBandwidth::LowOdr20 => 0b0100_0000,
            AccBandwidth::LowOdr45 => 0b0110_0000,
            AccBandwidth::LowOdr100 => 0b1000_0000,
            AccBandwidth::LowOdr200 => 0b1010_0000,
            AccBandwidth::LowOdr400 => 0b1100_0000,
            AccBandwidth::LowOdr800 => 0b1110_0000,
            AccBandwidth::HighOdr4 => 0b0000_0100,
            AccBandwidth::HighOdr10 => 0b0010_0100,
            AccBandwidth::HighOdr20 => 0b0100_0100,
            AccBandwidth::HighOdr45 => 0b0110_0100,
            AccBandwidth::HighOdr100 => 0b1000_0100,
            AccBandwidth::HighOdr200 => 0b1010_0100,
            AccBandwidth::HighOdr400 => 0b1100_0100,
            AccBandwidth::HighOdr800 => 0b1110_0100,
        }
    }
}
// === CTRL9_XL (18h) ===
pub const DEN_X: u8 = 0b1000_0000;

pub const DEN_Y: u8 = 0b0100_0000;

pub const DEN_Z: u8 = 0b0010_0000;

pub const DEN_XL_G: u8 = 0b0001_0000;

pub const DEN_XL_EN: u8 = 0b0000_1000;

pub const DEN_LH: u8 = 0b0000_0100;

#[allow(non_upper_case_globals)]
pub const I3C_disable: u8 = 0b0000_0010;

// === CTRL10_C (19h) ===
pub const TIMESTAMP_EN: u8 = 0b0010_0000;

// === ALL_INT_SRC (1Ah) ===
pub const TIMESTAMP_ENDCOUNT: u8 = 0b1000_0000;

pub const SLEEP_CHANGE_IA: u8 = 0b0010_0000;

pub const D6D_IA: u8 = 0b0001_0000;

pub const DOUBLE_TAP: u8 = 0b0000_1000;

pub const SINGLE_TAP: u8 = 0b0000_0100;

pub const WU_IA: u8 = 0b0000_0010;

pub const FF_IA: u8 = 0b0000_0001;

} // verus!
