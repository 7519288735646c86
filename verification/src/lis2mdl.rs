//! LIS2MDL 3-axis magnetometer driver: identification, configuration and
//! sampling over the shared bus, with raw bytes decoded into gauss and
//! degrees Celsius.

use vstd::prelude::*;

pub mod reg;

pub use reg::Register;

verus! {

use crate::bus::{Bus, Error, SimDevice, dev, fail_error, lemma_prefix_trans, regs_after_write, responds};
use crate::decode::{Scaled, i16_from_le, to_i16};
use crate::driver::{DeviceDescriptor, identify_spec, write_verify_spec};
use crate::driver;
use vstd::seq_lib::*;
use reg::{Odr, ModeOp};

/// The STATUS_REG flags: per-axis and combined data-ready and overrun bits.
#[derive(Clone, Copy, Debug, PartialEq, Eq)]
pub struct DataStatus {
    pub zyxor: bool,
    pub xyzor: (bool, bool, bool),
    pub zyxda: bool,
    pub xyzda: (bool, bool, bool),
}

impl DataStatus {
    /// Decodes a STATUS_REG byte into its documented flag bits.
    pub fn from_byte(b: u8) -> (s: DataStatus)
        ensures
            s.zyxor == ((b & reg::ZYXOR) != 0),
            s.xyzor == ((b & reg::XOR) != 0, (b & reg::YOR) != 0, (b & reg::ZOR) != 0),
            s.zyxda == ((b & reg::ZYXDA) != 0),
            s.xyzda == ((b & reg::XDA) != 0, (b & reg::YDA) != 0, (b & reg::ZDA) != 0),
    {
        DataStatus {
            zyxor: (b & reg::ZYXOR) != 0,
            xyzor: ((b & reg::XOR) != 0, (b & reg::YOR) != 0, (b & reg::ZOR) != 0),
            zyxda: (b & reg::ZYXDA) != 0,
            xyzda: ((b & reg::XDA) != 0, (b & reg::YDA) != 0, (b & reg::ZDA) != 0),
        }
    }
}

/// One magnetic-field sample: the three axis values in gauss.
#[derive(Clone, Copy, Debug, PartialEq, Eq, Structural)]
pub struct MagSample {
    pub x: Scaled,
    pub y: Scaled,
    pub z: Scaled,
}

/// One full reading: the field vector in gauss and the die temperature in
/// degrees Celsius.
#[derive(Clone, Copy, Debug, PartialEq, Eq, Structural)]
pub struct MagReading {
    pub x: Scaled,
    pub y: Scaled,
    pub z: Scaled,
    pub temperature: Scaled,
}

/// The magnetometer's bus identity: slave address, identity register and
/// expected identity byte.
pub open spec fn spec_descriptor() -> DeviceDescriptor {
    DeviceDescriptor {
        sad: reg::I2C_SAD,
        id_reg: Register::WHO_AM_I.addr(),
        device_id: reg::DEVICE_ID,
    }
}

#[verifier::when_used_as_spec(spec_descriptor)]
pub fn descriptor() -> (d: DeviceDescriptor)
    ensures
        d == spec_descriptor(),
{
    DeviceDescriptor { sad: reg::I2C_SAD, id_reg: Register::WHO_AM_I.addr(), device_id: reg::DEVICE_ID }
}

/// The CFG_REG_A byte the driver composes: temperature compensation on,
/// 100 Hz output data rate, continuous conversion.  The named fields occupy
/// disjoint bit ranges, so OR-ing them never clobbers one another.
pub open spec fn cfg_reg_a_value() -> u8 {
    reg::COMP_TEMP_EN | Odr::Hz100.value() | ModeOp::Continuous.value()
}

/// The field value in gauss encoded by one axis' two little-endian bytes:
/// 0.0015 gauss per LSB, exactly raw * 15 / 10000.
pub open spec fn field_value(lo: u8, hi: u8) -> Scaled {
    Scaled {
        num: (reg::GAUSS_PER_LSB_NUM * to_i16(lo, hi)) as i64,
        den: reg::GAUSS_PER_LSB_DEN,
    }
}

/// The temperature in degrees Celsius encoded by the two little-endian
/// temperature bytes: 0.125 degrees per LSB offset by +25.0, exactly
/// (raw * 125 + 25000) / 1000.
pub open spec fn temperature_value(lo: u8, hi: u8) -> Scaled {
    Scaled {
        num: (reg::DEG_PER_LSB_NUM * to_i16(lo, hi) + reg::REF_TEMP_NUM) as i64,
        den: reg::DEG_PER_LSB_DEN,
    }
}

/// Scales one raw axis word to gauss.  For every 16-bit two's-complement
/// input the result is exactly raw * 0.0015 gauss, as 15 * raw over 10000.
pub fn field_from_raw(raw: i16) -> (s: Scaled)
    ensures
        s.num == reg::GAUSS_PER_LSB_NUM * raw,
        s.den == reg::GAUSS_PER_LSB_DEN,
        s.wf(),
{
    Scaled { num: reg::GAUSS_PER_LSB_NUM * (raw as i64), den: reg::GAUSS_PER_LSB_DEN }
}

/// Scales one raw temperature word to degrees Celsius: 0.125 * raw + 25.0,
/// as (125 * raw + 25000) over 1000.
pub fn temperature_from_raw(raw: i16) -> (s: Scaled)
    ensures
        s.num == reg::DEG_PER_LSB_NUM * raw + reg::REF_TEMP_NUM,
        s.den == reg::DEG_PER_LSB_DEN,
        s.wf(),
{
    Scaled {
        num: reg::DEG_PER_LSB_NUM * (raw as i64) + reg::REF_TEMP_NUM,
        den: reg::DEG_PER_LSB_DEN,
    }
}

/// What sampling the field group returns, as a function of the devices on
/// the bus: the three axis words read little-endian from OUT_X_L onward and
/// scaled to gauss, or the transport error.
pub open spec fn sample_field_spec(devs: Seq<SimDevice>) -> Result<MagSample, Error> {
    if responds(devs, reg::I2C_SAD) {
        let regs = dev(devs, reg::I2C_SAD).regs@;
        Ok(
            MagSample {
                x: field_value(
                    regs[Register::OUT_X_L.addr() as int],
                    regs[Register::OUT_X_H.addr() as int],
                ),
                y: field_value(
                    regs[Register::OUT_Y_L.addr() as int],
                    regs[Register::OUT_Y_H.addr() as int],
                ),
                z: field_value(
                    regs[Register::OUT_Z_L.addr() as int],
                    regs[Register::OUT_Z_H.addr() as int],
                ),
            },
        )
    } else {
        Err(fail_error(devs, reg::I2C_SAD))
    }
}

/// What sampling the temperature group returns: the temperature word read
/// little-endian from TEMP_OUT_L_REG and scaled to degrees Celsius, or the
/// transport error.
pub open spec fn sample_temperature_spec(devs: Seq<SimDevice>) -> Result<Scaled, Error> {
    if responds(devs, reg::I2C_SAD) {
        let regs = dev(devs, reg::I2C_SAD).regs@;
        Ok(
            temperature_value(
                regs[Register::TEMP_OUT_L_REG.addr() as int],
                regs[Register::TEMP_OUT_H_REG.addr() as int],
            ),
        )
    } else {
        Err(fail_error(devs, reg::I2C_SAD))
    }
}

/// What a full sample returns: both groups against the same device state.
pub open spec fn sample_spec(devs: Seq<SimDevice>) -> Result<MagReading, Error> {
    match (sample_field_spec(devs), sample_temperature_spec(devs)) {
        (Ok(f), Ok(t)) => Ok(MagReading { x: f.x, y: f.y, z: f.z, temperature: t }),
        (Err(e), _) => Err(e),
        (_, Err(e)) => Err(e),
    }
}

/// A fault-free simulated LIS2MDL: all registers cleared except WHO_AM_I,
/// which carries the documented identity byte.
pub fn sim_device() -> (d: SimDevice)
    ensures
        d.wf(),
        d.sad == reg::I2C_SAD,
        d.fault is None,
        d.regs@[Register::WHO_AM_I.addr() as int] == reg::DEVICE_ID,
        forall|i: int| 0 <= i < 256 && i != Register::WHO_AM_I.addr() ==> d.regs@[i] == 0,
{
    let mut d = SimDevice::new(reg::I2C_SAD);
    d.set_reg(Register::WHO_AM_I.addr(), reg::DEVICE_ID);
    d
}

/// The LIS2MDL driver: one cooperative task issuing transactions for this
/// device over the shared bus.
pub struct Lis2mdl {
    /// The task identity its transactions carry on the wire trace.
    pub task: u8,
}

impl Lis2mdl {
    pub fn new(task: u8) -> (s: Lis2mdl)
        ensures
            s.task == task,
    {
        Lis2mdl { task }
    }

    /// Reads WHO_AM_I once and compares it against the documented identity
    /// byte 0x40: `Ok(true)` exactly on a match, `Ok(false)` on any other
    /// byte, and the transport error — never `false` — when the device does
    /// not respond.
    pub fn check_device_id(&self, bus: &mut Bus) -> (r: Result<bool, Error>)
        requires
            old(bus).wf(),
            old(bus).owner is None,
            old(bus).next_txn < u64::MAX,
        ensures
            final(bus).wf(),
            final(bus).owner is None,
            final(bus).devices == old(bus).devices,
            final(bus).next_txn <= old(bus).next_txn + 1,
            r == identify_spec(old(bus).devices@, spec_descriptor()),
            old(bus).trace@.is_prefix_of(final(bus).trace@),
    {
        driver::identify(bus, self.task, &descriptor())
    }

    /// Composes CFG_REG_A from the named field constants and runs one
    /// write-then-verify configuration cycle on it.  The verify verdict is
    /// diagnostic: a read-back mismatch is reported as `Ok(false)`, not as
    /// an error, and is not retried.
    pub fn apply_config(&self, bus: &mut Bus) -> (r: Result<bool, Error>)
        requires
            old(bus).wf(),
            old(bus).owner is None,
            old(bus).next_txn + 3 <= u64::MAX,
        ensures
            final(bus).wf(),
            final(bus).owner is None,
            r == write_verify_spec(
                old(bus).devices@,
                reg::I2C_SAD,
                Register::CFG_REG_A.addr(),
                cfg_reg_a_value(),
            ),
            responds(old(bus).devices@, reg::I2C_SAD) ==> regs_after_write(
                old(bus).devices@,
                final(bus).devices@,
                reg::I2C_SAD,
                Register::CFG_REG_A.addr(),
                cfg_reg_a_value(),
            ),
            !responds(old(bus).devices@, reg::I2C_SAD) ==> final(bus).devices == old(bus).devices,
            old(bus).trace@.is_prefix_of(final(bus).trace@),
    {
        let composed = reg::COMP_TEMP_EN | Odr::Hz100.value() | ModeOp::Continuous.value();
        driver::write_verify(bus, self.task, reg::I2C_SAD, Register::CFG_REG_A.addr(), composed)
    }

    /// Samples the field group: one write-read transaction of the six
    /// output bytes from OUT_X_L, assembled little-endian per axis and
    /// scaled to gauss.  One lock acquisition, released on every exit path.
    pub fn sample_field(&self, bus: &mut Bus) -> (r: Result<MagSample, Error>)
        requires
            old(bus).wf(),
            old(bus).owner is None,
            old(bus).next_txn < u64::MAX,
        ensures
            final(bus).wf(),
            final(bus).owner is None,
            final(bus).devices == old(bus).devices,
            final(bus).next_txn <= old(bus).next_txn + 1,
            r == sample_field_spec(old(bus).devices@),
            old(bus).trace@.is_prefix_of(final(bus).trace@),
            responds(old(bus).devices@, reg::I2C_SAD) ==> final(bus).trace@ == old(bus).trace@
                + crate::bus::write_read_block(
                old(bus).next_txn,
                self.task,
                reg::I2C_SAD,
                Register::OUT_X_L.addr(),
                dev(old(bus).devices@, reg::I2C_SAD).regs@.subrange(
                    Register::OUT_X_L.addr() as int,
                    Register::OUT_X_L.addr() + 6,
                ),
            ),
            !responds(old(bus).devices@, reg::I2C_SAD) ==> final(bus).trace == old(bus).trace,
    {
        let ghost t0 = bus.trace@;
        bus.acquire(self.task);
        let res = bus.write_read(self.task, reg::I2C_SAD, Register::OUT_X_L.addr(), 6);
        bus.release(self.task);
        proof {
            assert(t0.is_prefix_of(bus.trace@)) by {
                assert(bus.trace@.subrange(0, t0.len() as int) =~= t0);
            }
        }
        match res {
            Ok(data) => {
                let x = field_from_raw(i16_from_le(data[0], data[1]));
                let y = field_from_raw(i16_from_le(data[2], data[3]));
                let z = field_from_raw(i16_from_le(data[4], data[5]));
                Ok(MagSample { x, y, z })
            },
            Err(e) => Err(e),
        }
    }

    /// Samples the temperature group: one write-read transaction of the two
    /// temperature bytes from TEMP_OUT_L_REG, assembled little-endian and
    /// scaled to degrees Celsius.  One lock acquisition, released on every
    /// exit path.
    pub fn sample_temperature(&self, bus: &mut Bus) -> (r: Result<Scaled, Error>)
        requires
            old(bus).wf(),
            old(bus).owner is None,
            old(bus).next_txn < u64::MAX,
        ensures
            final(bus).wf(),
            final(bus).owner is None,
            final(bus).devices == old(bus).devices,
            final(bus).next_txn <= old(bus).next_txn + 1,
            r == sample_temperature_spec(old(bus).devices@),
            old(bus).trace@.is_prefix_of(final(bus).trace@),
            responds(old(bus).devices@, reg::I2C_SAD) ==> final(bus).trace@ == old(bus).trace@
                + crate::bus::write_read_block(
                old(bus).next_txn,
                self.task,
                reg::I2C_SAD,
                Register::TEMP_OUT_L_REG.addr(),
                dev(old(bus).devices@, reg::I2C_SAD).regs@.subrange(
                    Register::TEMP_OUT_L_REG.addr() as int,
                    Register::TEMP_OUT_L_REG.addr() + 2,
                ),
            ),
            !responds(old(bus).devices@, reg::I2C_SAD) ==> final(bus).trace == old(bus).trace,
    {
        let ghost t0 = bus.trace@;
        bus.acquire(self.task);
        let res = bus.write_read(self.task, reg::I2C_SAD, Register::TEMP_OUT_L_REG.addr(), 2);
        bus.release(self.task);
        proof {
            assert(t0.is_prefix_of(bus.trace@)) by {
                assert(bus.trace@.subrange(0, t0.len() as int) =~= t0);
            }
        }
        match res {
            Ok(data) => Ok(temperature_from_raw(i16_from_le(data[0], data[1]))),
            Err(e) => Err(e),
        }
    }

    /// Samples field and temperature.  The two groups are two independent
    /// lock acquisitions: between them the bus is free, so another task's
    /// transaction may run in between when the groups are issued separately.
    pub fn sample(&self, bus: &mut Bus) -> (r: Result<MagReading, Error>)
        requires
            old(bus).wf(),
            old(bus).owner is None,
            old(bus).next_txn + 2 <= u64::MAX,
        ensures
            final(bus).wf(),
            final(bus).owner is None,
            final(bus).devices == old(bus).devices,
            final(bus).next_txn <= old(bus).next_txn + 2,
            r == sample_spec(old(bus).devices@),
            old(bus).trace@.is_prefix_of(final(bus).trace@),
    {
        let ghost t0 = bus.trace@;
        let f = match self.sample_field(bus) {
            Ok(f) => f,
            Err(e) => {
                return Err(e);
            },
        };
        let ghost t1 = bus.trace@;
        let t = match self.sample_temperature(bus) {
            Ok(t) => t,
            Err(e) => {
                proof {
                    lemma_prefix_trans(t0, t1, bus.trace@);
                }
                return Err(e);
            },
        };
        proof {
            lemma_prefix_trans(t0, t1, bus.trace@);
        }
        Ok(MagReading { x: f.x, y: f.y, z: f.z, temperature: t })
    }
}

} // verus!
