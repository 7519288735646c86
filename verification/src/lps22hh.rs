//! LPS22HH barometer driver: identification, configuration of its two
//! control registers, and pressure/temperature sampling over the shared
//! bus, with raw bytes decoded into Pa and degrees Celsius.

use vstd::prelude::*;

pub mod reg;

pub use reg::Register;

verus! {

use crate::bus::{
    Bus, Error, Fault, SimDevice, dev, dev_index, fail_error, lemma_prefix_trans,
    regs_after_write, responds, unique_sads, write_applies,
};
use crate::decode::{Scaled, i16_from_le, i24_from_le, to_i16, to_i24};
use crate::driver::{DeviceDescriptor, identify_spec};
use crate::driver;
use vstd::seq_lib::*;
use reg::{LPF, Odr};

/// One full reading: pressure in Pa and temperature in degrees Celsius.
#[derive(Clone, Copy, Debug, PartialEq, Eq, Structural)]
pub struct BaroReading {
    pub pressure: Scaled,
    pub temperature: Scaled,
}

/// The barometer's bus identity: slave address, identity register and
/// expected identity byte.
pub open spec fn spec_descriptor() -> DeviceDescriptor {
    DeviceDescriptor {
        sad: reg::I2C_SAD,
        id_reg: Register::WHO_AM_I.addr(),
        device_id: reg::DEVICE_ID,
    }
}

#[verifier::when_used_as_spec(spec_descriptor)]
pub fn descriptor() -> (d: DeviceDescriptor)
    ensures
        d == spec_descriptor(),
{
    DeviceDescriptor {
        sad: reg::I2C_SAD,
        id_reg: Register::WHO_AM_I.addr(),
        device_id: reg::DEVICE_ID,
    }
}

/// The CTRL_REG1 byte the driver composes: 50 Hz output data rate with the
/// ODR/9 low-pass filter.  The named fields occupy disjoint bit ranges.
pub open spec fn ctrl_reg1_value() -> u8 {
    Odr::Hz50.value() | LPF::DIV_9.value()
}

/// The CTRL_REG2 byte the driver composes: register auto-increment and
/// low-noise mode.  The named fields occupy disjoint bit ranges.
pub open spec fn ctrl_reg2_value() -> u8 {
    reg::IF_ADD_INC | reg::LOW_NOISE_EN
}

/// The pressure in Pa encoded by the three little-endian pressure bytes:
/// 1/4096 hPa per LSB converted to Pa, exactly raw * 100 / 4096.
pub open spec fn pressure_value(b0: u8, b1: u8, b2: u8) -> Scaled {
    Scaled { num: (reg::PA_PER_HPA * to_i24(b0, b1, b2)) as i64, den: reg::LSB_PER_hPA }
}

/// The temperature in degrees Celsius encoded by the two little-endian
/// temperature bytes: 0.01 degrees per LSB, exactly raw / 100.
pub open spec fn temperature_value(lo: u8, hi: u8) -> Scaled {
    Scaled { num: (reg::DEG_PER_LSB_NUM * to_i16(lo, hi)) as i64, den: reg::DEG_PER_LSB_DEN }
}

/// Scales one raw 24-bit pressure word to Pa.  For every 24-bit
/// two's-complement input the result is exactly raw / 4096 hPa times 100,
/// as 100 * raw over 4096.
pub fn pressure_from_raw(raw: i32) -> (s: Scaled)
    ensures
        s.num == reg::PA_PER_HPA * raw,
        s.den == reg::LSB_PER_hPA,
        s.wf(),
{
    Scaled { num: reg::PA_PER_HPA * (raw as i64), den: reg::LSB_PER_hPA }
}

/// Scales one raw temperature word to degrees Celsius: raw * 0.01, as raw
/// over 100.
pub fn temperature_from_raw(raw: i16) -> (s: Scaled)
    ensures
        s.num == raw,
        s.den == reg::DEG_PER_LSB_DEN,
        s.wf(),
{
    Scaled { num: raw as i64, den: reg::DEG_PER_LSB_DEN }
}

/// What configuring both control registers returns: `Ok(true)` when the
/// writes stuck and both read-backs matched, `Ok(false)` when the device
/// responded but a read-back differs (diagnostic, not an error), and the
/// transport error when the device does not respond.
pub open spec fn apply_config_spec(devs: Seq<SimDevice>) -> Result<bool, Error> {
    if responds(devs, reg::I2C_SAD) {
        if write_applies(devs, reg::I2C_SAD) {
            Ok(true)
        } else {
            let regs = dev(devs, reg::I2C_SAD).regs@;
            Ok(regs[Register::CTRL_REG1.addr() as int] == ctrl_reg1_value()
                && regs[Register::CTRL_REG2.addr() as int] == ctrl_reg2_value())
        }
    } else {
        Err(fail_error(devs, reg::I2C_SAD))
    }
}

/// How the device registers change under configuration: both control
/// registers take their composed values (unless the device ignores writes)
/// and everything else stays as it was.
pub open spec fn regs_after_config(pre: Seq<SimDevice>, post: Seq<SimDevice>) -> bool {
    let di = dev_index(pre, reg::I2C_SAD);
    &&& post.len() == pre.len()
    &&& forall|k: int| 0 <= k < pre.len() && k != di ==> post[k] == pre[k]
    &&& post[di].sad == pre[di].sad
    &&& post[di].fault == pre[di].fault
    &&& (pre[di].fault is None ==> post[di].regs@ == pre[di].regs@.update(
        Register::CTRL_REG1.addr() as int,
        ctrl_reg1_value(),
    ).update(Register::CTRL_REG2.addr() as int, ctrl_reg2_value()))
    &&& (pre[di].fault == Some(Fault::WritesIgnored) ==> post[di].regs@ == pre[di].regs@)
}

/// What sampling the pressure group returns, as a function of the devices
/// on the bus: the 24-bit word read little-endian from PRESSURE_OUT_XL
/// onward and scaled to Pa, or the transport error.
pub open spec fn sample_pressure_spec(devs: Seq<SimDevice>) -> Result<Scaled, Error> {
    if responds(devs, reg::I2C_SAD) {
        let regs = dev(devs, reg::I2C_SAD).regs@;
        Ok(
            pressure_value(
                regs[Register::PRESSURE_OUT_XL.addr() as int],
                regs[Register::PRESSURE_OUT_L.addr() as int],
                regs[Register::PRESSURE_OUT_H.addr() as int],
            ),
        )
    } else {
        Err(fail_error(devs, reg::I2C_SAD))
    }
}

/// What sampling the temperature group returns: the temperature word read
/// little-endian from TEMP_OUT_L and scaled to degrees Celsius, or the
/// transport error.
pub open spec fn sample_temperature_spec(devs: Seq<SimDevice>) -> Result<Scaled, Error> {
    if responds(devs, reg::I2C_SAD) {
        let regs = dev(devs, reg::I2C_SAD).regs@;
        Ok(
            temperature_value(
                regs[Register::TEMP_OUT_L.addr() as int],
                regs[Register::TEMP_OUT_H.addr() as int],
            ),
        )
    } else {
        Err(fail_error(devs, reg::I2C_SAD))
    }
}

/// What a full sample returns: both groups against the same device state.
pub open spec fn sample_spec(devs: Seq<SimDevice>) -> Result<BaroReading, Error> {
    match (sample_pressure_spec(devs), sample_temperature_spec(devs)) {
        (Ok(p), Ok(t)) => Ok(BaroReading { pressure: p, temperature: t }),
        (Err(e), _) => Err(e),
        (_, Err(e)) => Err(e),
    }
}

/// A fault-free simulated LPS22HH: all registers cleared except WHO_AM_I,
/// which carries the documented identity byte.
pub fn sim_device() -> (d: SimDevice)
    ensures
        d.wf(),
        d.sad == reg::I2C_SAD,
        d.fault is None,
        d.regs@[Register::WHO_AM_I.addr() as int] == reg::DEVICE_ID,
        forall|i: int| 0 <= i < 256 && i != Register::WHO_AM_I.addr() ==> d.regs@[i] == 0,
{
    let mut d = SimDevice::new(reg::I2C_SAD);
    d.set_reg(Register::WHO_AM_I.addr(), reg::DEVICE_ID);
    d
}

/// The LPS22HH driver: one cooperative task issuing transactions for this
/// device over the shared bus.
pub struct Lps22hh {
    /// The task identity its transactions carry on the wire trace.
    pub task: u8,
}

impl Lps22hh {
    pub fn new(task: u8) -> (s: Lps22hh)
        ensures
            s.task == task,
    {
        Lps22hh { task }
    }

    /// Reads WHO_AM_I once and compares it against the documented identity
    /// byte 0xB3: `Ok(true)` exactly on a match, `Ok(false)` on any other
    /// byte, and the transport error — never `false` — when the device does
    /// not respond.
    pub fn check_device_id(&self, bus: &mut Bus) -> (r: Result<bool, Error>)
        requires
            old(bus).wf(),
            old(bus).owner is None,
            old(bus).next_txn < u64::MAX,
        ensures
            final(bus).wf(),
            final(bus).owner is None,
            final(bus).devices == old(bus).devices,
            final(bus).next_txn <= old(bus).next_txn + 1,
            r == identify_spec(old(bus).devices@, spec_descriptor()),
            old(bus).trace@.is_prefix_of(final(bus).trace@),
    {
        driver::identify(bus, self.task, &descriptor())
    }

    /// Composes CTRL_REG1 and CTRL_REG2 from the named field constants and
    /// runs one write-then-verify cycle on each, in order, each under its
    /// own lock tenure.  A read-back mismatch is reported as `Ok(false)`,
    /// not as an error, and is not retried.
    pub fn apply_config(&self, bus: &mut Bus) -> (r: Result<bool, Error>)
        requires
            old(bus).wf(),
            old(bus).owner is None,
            old(bus).next_txn + 6 <= u64::MAX,
        ensures
            final(bus).wf(),
            final(bus).owner is None,
            r == apply_config_spec(old(bus).devices@),
            responds(old(bus).devices@, reg::I2C_SAD) ==> regs_after_config(
                old(bus).devices@,
                final(bus).devices@,
            ),
            !responds(old(bus).devices@, reg::I2C_SAD) ==> final(bus).devices == old(bus).devices,
            old(bus).trace@.is_prefix_of(final(bus).trace@),
    {
        let ghost devs0 = bus.devices@;
        let ghost t0 = bus.trace@;
        let v1 = Odr::Hz50.value() | LPF::DIV_9.value();
        let v2 = reg::IF_ADD_INC | reg::LOW_NOISE_EN;
        let m1 = match driver::write_verify(
            bus,
            self.task,
            reg::I2C_SAD,
            Register::CTRL_REG1.addr(),
            v1,
        ) {
            Ok(m) => m,
            Err(e) => {
                return Err(e);
            },
        };
        let ghost devs1 = bus.devices@;
        let ghost t1 = bus.trace@;
        let m2 = match driver::write_verify(
            bus,
            self.task,
            reg::I2C_SAD,
            Register::CTRL_REG2.addr(),
            v2,
        ) {
            Ok(m) => m,
            Err(e) => {
                proof {
                    lemma_config_steps(devs0, devs1, bus.devices@);
                    lemma_prefix_trans(t0, t1, bus.trace@);
                }
                return Err(e);
            },
        };
        proof {
            lemma_config_steps(devs0, devs1, bus.devices@);
            lemma_prefix_trans(t0, t1, bus.trace@);
        }
        Ok(m1 && m2)
    }

    /// Samples the pressure group: one write-read transaction of the three
    /// pressure bytes from PRESSURE_OUT_XL, assembled little-endian and
    /// scaled to Pa.  One lock acquisition, released on every exit path.
    pub fn sample_pressure(&self, bus: &mut Bus) -> (r: Result<Scaled, Error>)
        requires
            old(bus).wf(),
            old(bus).owner is None,
            old(bus).next_txn < u64::MAX,
        ensures
            final(bus).wf(),
            final(bus).owner is None,
            final(bus).devices == old(bus).devices,
            final(bus).next_txn <= old(bus).next_txn + 1,
            r == sample_pressure_spec(old(bus).devices@),
            old(bus).trace@.is_prefix_of(final(bus).trace@),
            responds(old(bus).devices@, reg::I2C_SAD) ==> final(bus).trace@ == old(bus).trace@
                + crate::bus::write_read_block(
                old(bus).next_txn,
                self.task,
                reg::I2C_SAD,
                Register::PRESSURE_OUT_XL.addr(),
                dev(old(bus).devices@, reg::I2C_SAD).regs@.subrange(
                    Register::PRESSURE_OUT_XL.addr() as int,
                    Register::PRESSURE_OUT_XL.addr() + 3,
                ),
            ),
            !responds(old(bus).devices@, reg::I2C_SAD) ==> final(bus).trace == old(bus).trace,
    {
        let ghost t0 = bus.trace@;
        bus.acquire(self.task);
        let res = bus.write_read(self.task, reg::I2C_SAD, Register::PRESSURE_OUT_XL.addr(), 3);
        bus.release(self.task);
        proof {
            assert(t0.is_prefix_of(bus.trace@)) by {
                assert(bus.trace@.subrange(0, t0.len() as int) =~= t0);
            }
        }
        match res {
            Ok(data) => Ok(pressure_from_raw(i24_from_le(data[0], data[1], data[2]))),
            Err(e) => Err(e),
        }
    }

    /// Samples the temperature group: one write-read transaction of the two
    /// temperature bytes from TEMP_OUT_L, assembled little-endian and
    /// scaled to degrees Celsius.  One lock acquisition, released on every
    /// exit path.
    pub fn sample_temperature(&self, bus: &mut Bus) -> (r: Result<Scaled, Error>)
        requires
            old(bus).wf(),
            old(bus).owner is None,
            old(bus).next_txn < u64::MAX,
        ensures
            final(bus).wf(),
            final(bus).owner is None,
            final(bus).devices == old(bus).devices,
            final(bus).next_txn <= old(bus).next_txn + 1,
            r == sample_temperature_spec(old(bus).devices@),
            old(bus).trace@.is_prefix_of(final(bus).trace@),
            responds(old(bus).devices@, reg::I2C_SAD) ==> final(bus).trace@ == old(bus).trace@
                + crate::bus::write_read_block(
                old(bus).next_txn,
                self.task,
                reg::I2C_SAD,
                Register::TEMP_OUT_L.addr(),
                dev(old(bus).devices@, reg::I2C_SAD).regs@.subrange(
                    Register::TEMP_OUT_L.addr() as int,
                    Register::TEMP_OUT_L.addr() + 2,
                ),
            ),
            !responds(old(bus).devices@, reg::I2C_SAD) ==> final(bus).trace == old(bus).trace,
    {
        let ghost t0 = bus.trace@;
        bus.acquire(self.task);
        let res = bus.write_read(self.task, reg::I2C_SAD, Register::TEMP_OUT_L.addr(), 2);
        bus.release(self.task);
        proof {
            assert(t0.is_prefix_of(bus.trace@)) by {
                assert(bus.trace@.subrange(0, t0.len() as int) =~= t0);
            }
        }
        match res {
            Ok(data) => Ok(temperature_from_raw(i16_from_le(data[0], data[1]))),
            Err(e) => Err(e),
        }
    }

    /// Samples pressure and temperature.  The two groups are two
    /// independent lock acquisitions: between them the bus is free, so
    /// another task's transaction may run in between when the groups are
    /// issued separately.
    pub fn sample(&self, bus: &mut Bus) -> (r: Result<BaroReading, Error>)
        requires
            old(bus).wf(),
            old(bus).owner is None,
            old(bus).next_txn + 2 <= u64::MAX,
        ensures
            final(bus).wf(),
            final(bus).owner is None,
            final(bus).devices == old(bus).devices,
            final(bus).next_txn <= old(bus).next_txn + 2,
            r == sample_spec(old(bus).devices@),
            old(bus).trace@.is_prefix_of(final(bus).trace@),
    {
        let ghost t0 = bus.trace@;
        let p = match self.sample_pressure(bus) {
            Ok(p) => p,
            Err(e) => {
                return Err(e);
            },
        };
        let ghost t1 = bus.trace@;
        let t = match self.sample_temperature(bus) {
            Ok(t) => t,
            Err(e) => {
                proof {
                    lemma_prefix_trans(t0, t1, bus.trace@);
                }
                return Err(e);
            },
        };
        proof {
            lemma_prefix_trans(t0, t1, bus.trace@);
        }
        Ok(BaroReading { pressure: p, temperature: t })
    }
}

/// Relates the device states across the two configuration writes: when the
/// device responds, applying the CTRL_REG1 write and then the CTRL_REG2
/// write amounts to the combined register change `regs_after_config`, and
/// the device keeps responding (and keeps its fault mode) in between.
proof fn lemma_config_steps(devs0: Seq<SimDevice>, devs1: Seq<SimDevice>, devs2: Seq<SimDevice>)
    requires
        unique_sads(devs0),
        unique_sads(devs1),
        responds(devs0, reg::I2C_SAD) ==> regs_after_write(
            devs0,
            devs1,
            reg::I2C_SAD,
            Register::CTRL_REG1.addr(),
            ctrl_reg1_value(),
        ),
        responds(devs0, reg::I2C_SAD) ==> regs_after_write(
            devs1,
            devs2,
            reg::I2C_SAD,
            Register::CTRL_REG2.addr(),
            ctrl_reg2_value(),
        ),
    ensures
        responds(devs0, reg::I2C_SAD) ==> {
            &&& regs_after_config(devs0, devs2)
            &&& dev_index(devs1, reg::I2C_SAD) == dev_index(devs0, reg::I2C_SAD)
            &&& responds(devs1, reg::I2C_SAD)
            &&& write_applies(devs1, reg::I2C_SAD) == write_applies(devs0, reg::I2C_SAD)
            &&& (write_applies(devs0, reg::I2C_SAD) ==> dev(devs1, reg::I2C_SAD).regs@ == dev(
                devs0,
                reg::I2C_SAD,
            ).regs@.update(Register::CTRL_REG1.addr() as int, ctrl_reg1_value()))
            &&& (!write_applies(devs0, reg::I2C_SAD) ==> dev(devs1, reg::I2C_SAD).regs@ == dev(
                devs0,
                reg::I2C_SAD,
            ).regs@)
        },
{
    if responds(devs0, reg::I2C_SAD) {
        let di = dev_index(devs0, reg::I2C_SAD);
        assert(0 <= di < devs0.len() && devs0[di].sad == reg::I2C_SAD);
        crate::bus::lemma_dev_index_of(devs1, reg::I2C_SAD, di);
        assert(dev(devs1, reg::I2C_SAD) == devs1[di]);
    }
}

} // verus!
