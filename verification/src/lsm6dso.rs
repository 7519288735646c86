//! LSM6DSO 6-axis inertial sensor driver: identification over the shared
//! bus.  Its accelerometer and gyroscope bring-up hooks are placeholders the
//! orchestrator calls before sampling is enabled.

use vstd::prelude::*;

pub mod reg;

pub use reg::Register;

verus! {

use crate::bus::{Bus, Error};
use crate::driver::{DeviceDescriptor, identify_spec};
use crate::driver;
use vstd::seq_lib::*;

/// The inertial sensor's bus identity: slave address, identity register and
/// expected identity byte.
pub open spec fn spec_descriptor() -> DeviceDescriptor {
    DeviceDescriptor {
        sad: reg::I2C_SAD,
        id_reg: Register::WHO_AM_I.addr(),
        device_id: reg::DEVICE_ID,
    }
}

#[verifier::when_used_as_spec(spec_descriptor)]
pub fn descriptor() -> (d: DeviceDescriptor)
    ensures
        d == spec_descriptor(),
{
    DeviceDescriptor {
        sad: reg::I2C_SAD,
        id_reg: Register::WHO_AM_I.addr(),
        device_id: reg::DEVICE_ID,
    }
}

/// A fault-free simulated LSM6DSO: all registers cleared except WHO_AM_I,
/// which carries the documented identity byte.
pub fn sim_device() -> (d: crate::bus::SimDevice)
    ensures
        d.wf(),
        d.sad == reg::I2C_SAD,
        d.fault is None,
        d.regs@[Register::WHO_AM_I.addr() as int] == reg::DEVICE_ID,
        forall|i: int| 0 <= i < 256 && i != Register::WHO_AM_I.addr() ==> d.regs@[i] == 0,
{
    let mut d = crate::bus::SimDevice::new(reg::I2C_SAD);
    d.set_reg(Register::WHO_AM_I.addr(), reg::DEVICE_ID);
    d
}

/// The LSM6DSO driver: one cooperative task issuing transactions for this
/// device over the shared bus.
pub struct Lsm6dso {
    /// The task identity its transactions carry on the wire trace.
    pub task: u8,
}

impl Lsm6dso {
    pub fn new(task: u8) -> (s: Lsm6dso)
        ensures
            s.task == task,
    {
        Lsm6dso { task }
    }

    /// Reads WHO_AM_I once and compares it against the documented identity
    /// byte 0x6C: `Ok(true)` exactly on a match, `Ok(false)` on any other
    /// byte, and the transport error — never `false` — when the device does
    /// not respond.
    pub fn check_device_id(&self, bus: &mut Bus) -> (r: Result<bool, Error>)
        requires
            old(bus).wf(),
            old(bus).owner is None,
            old(bus).next_txn < u64::MAX,
        ensures
            final(bus).wf(),
            final(bus).owner is None,
            final(bus).devices == old(bus).devices,
            final(bus).next_txn <= old(bus).next_txn + 1,
            r == identify_spec(old(bus).devices@, spec_descriptor()),
            old(bus).trace@.is_prefix_of(final(bus).trace@),
    {
        driver::identify(bus, self.task, &descriptor())
    }

    /// Brings up both sensor families in turn.  Neither initializer issues
    /// any transaction yet, so configuration leaves the bus untouched.
    pub fn apply_config(&self, bus: &mut Bus)
        requires
            old(bus).wf(),
        ensures
            *final(bus) == *old(bus),
    {
        self.init_accelerometer(bus);
        self.init_gyroscope(bus);
    }

    /// Accelerometer bring-up hook; no transactions yet.
    pub fn init_accelerometer(&self, bus: &mut Bus)
        requires
            old(bus).wf(),
        ensures
            *final(bus) == *old(bus),
    {
    }

    /// Gyroscope bring-up hook; no transactions yet.
    pub fn init_gyroscope(&self, bus: &mut Bus)
        requires
            old(bus).wf(),
        ensures
            *final(bus) == *old(bus),
    {
    }
}

} // verus!
