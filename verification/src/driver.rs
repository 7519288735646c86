//! The register-device protocol shared by every sensor driver on the bus:
//! identification against an expected identity byte, and the
//! write-then-verify configuration cycle.  Each operation acquires the bus,
//! issues its transactions, and releases the bus on every exit path.

use vstd::prelude::*;

verus! {

use vstd::seq_lib::*;
use crate::bus::{
    Bus, Error, SimDevice, dev, fail_error, regs_after_write, responds, write_applies,
};

/// What identifies one register device: its 7-bit slave address, the
/// address of its identity register, and the constant the device documents
/// for that register.
#[derive(Clone, Copy, Debug, PartialEq, Eq, Structural)]
pub struct DeviceDescriptor {
    pub sad: u8,
    pub id_reg: u8,
    pub device_id: u8,
}

/// What identification returns, as a function of the devices on the bus
/// alone: a match verdict when the device responds, the transport error
/// otherwise.  A wrong identity byte is `Ok(false)`, never an error; a
/// transport failure is an error, never `false`.
pub open spec fn identify_spec(devs: Seq<SimDevice>, desc: DeviceDescriptor) -> Result<
    bool,
    Error,
> {
    if responds(devs, desc.sad) {
        Ok(dev(devs, desc.sad).regs@[desc.id_reg as int] == desc.device_id)
    } else {
        Err(fail_error(devs, desc.sad))
    }
}

/// Reads the identity register (one write-read transaction under the lock)
/// and compares the byte read against the descriptor's constant.  Exactly
/// one read cycle, no retry; the lock is released on every exit path and
/// no device register changes.
pub fn identify(bus: &mut Bus, task: u8, desc: &DeviceDescriptor) -> (r: Result<bool, Error>)
    requires
        old(bus).wf(),
        old(bus).owner is None,
        old(bus).next_txn < u64::MAX,
    ensures
        final(bus).wf(),
        final(bus).owner is None,
        final(bus).devices == old(bus).devices,
        final(bus).next_txn <= old(bus).next_txn + 1,
        r == identify_spec(old(bus).devices@, *desc),
        responds(old(bus).devices@, desc.sad) ==> final(bus).trace@ == old(bus).trace@
            + crate::bus::write_read_block(
            old(bus).next_txn,
            task,
            desc.sad,
            desc.id_reg,
            seq![dev(old(bus).devices@, desc.sad).regs@[desc.id_reg as int]],
        ),
        !responds(old(bus).devices@, desc.sad) ==> final(bus).trace == old(bus).trace,
        old(bus).trace@.is_prefix_of(final(bus).trace@),
{
    let ghost t0 = bus.trace@;
    bus.acquire(task);
    let res = bus.write_read(task, desc.sad, desc.id_reg, 1);
    bus.release(task);
    proof {
        assert(t0.is_prefix_of(bus.trace@)) by {
            assert(bus.trace@.subrange(0, t0.len() as int) =~= t0);
        }
    }
    match res {
        Ok(data) => {
            let b = data[0];
            proof {
                if responds(old(bus).devices@, desc.sad) {
                    assert(data@ =~= seq![
                        dev(old(bus).devices@, desc.sad).regs@[desc.id_reg as int],
                    ]);
                }
            }
            Ok(b == desc.device_id)
        },
        Err(e) => Err(e),
    }
}

/// What identity confirmation returns: success only for the expected
/// device, `IdentityMismatch` when some device responds with a different
/// byte, and the transport error otherwise.
pub open spec fn require_identity_spec(devs: Seq<SimDevice>, desc: DeviceDescriptor) -> Result<
    (),
    Error,
> {
    match identify_spec(devs, desc) {
        Ok(m) => if m {
            Ok(())
        } else {
            Err(Error::IdentityMismatch)
        },
        Err(e) => Err(e),
    }
}

/// Identifies the device and escalates a wrong identity byte to the
/// `IdentityMismatch` error, keeping it distinct from transport failures.
pub fn require_identity(bus: &mut Bus, task: u8, desc: &DeviceDescriptor) -> (r: Result<
    (),
    Error,
>)
    requires
        old(bus).wf(),
        old(bus).owner is None,
        old(bus).next_txn < u64::MAX,
    ensures
        final(bus).wf(),
        final(bus).owner is None,
        final(bus).devices == old(bus).devices,
        final(bus).next_txn <= old(bus).next_txn + 1,
        r == require_identity_spec(old(bus).devices@, *desc),
        old(bus).trace@.is_prefix_of(final(bus).trace@),
{
    match identify(bus, task, desc) {
        Ok(m) => if m {
            Ok(())
        } else {
            Err(Error::IdentityMismatch)
        },
        Err(e) => Err(e),
    }
}

/// What one configuration cycle returns: `Ok(true)` when the write stuck
/// and the read-back matched, `Ok(false)` when the device responded but the
/// read-back differs from the intended value (a diagnostic verdict, not an
/// error), and the transport error when the device does not respond.
pub open spec fn write_verify_spec(devs: Seq<SimDevice>, sad: u8, reg: u8, val: u8) -> Result<
    bool,
    Error,
> {
    if responds(devs, sad) {
        if write_applies(devs, sad) {
            Ok(true)
        } else {
            Ok(dev(devs, sad).regs@[reg as int] == val)
        }
    } else {
        Err(fail_error(devs, sad))
    }
}

/// One control-register configuration cycle under a single lock tenure:
/// read the current value (diagnostic only — the write always replaces the
/// whole byte), write the composed value, read back and compare.  A
/// read-back mismatch is reported in the `Ok` verdict and deliberately not
/// escalated or retried; a transport failure of the write or of the
/// verifying read is escalated.
pub fn write_verify(bus: &mut Bus, task: u8, sad: u8, reg: u8, val: u8) -> (r: Result<
    bool,
    Error,
>)
    requires
        old(bus).wf(),
        old(bus).owner is None,
        old(bus).next_txn + 3 <= u64::MAX,
    ensures
        final(bus).wf(),
        final(bus).owner is None,
        final(bus).next_txn <= old(bus).next_txn + 3,
        r == write_verify_spec(old(bus).devices@, sad, reg, val),
        responds(old(bus).devices@, sad) ==> regs_after_write(
            old(bus).devices@,
            final(bus).devices@,
            sad,
            reg,
            val,
        ),
        !responds(old(bus).devices@, sad) ==> final(bus).devices == old(bus).devices,
        old(bus).trace@.is_prefix_of(final(bus).trace@),
{
    let ghost t0 = bus.trace@;
    bus.acquire(task);
    // Diagnostic read of the register's current value; the protocol records
    // it for inspection but never uses it, so its failure is not escalated.
    let _current = bus.write_read(task, sad, reg, 1);
    let ghost t1 = bus.trace@;
    proof {
        assert(t0.is_prefix_of(t1)) by {
            assert(t1.subrange(0, t0.len() as int) =~= t0);
        }
    }
    let w = bus.write(task, sad, reg, val);
    let ghost t2 = bus.trace@;
    proof {
        assert(t1.is_prefix_of(t2)) by {
            assert(t2.subrange(0, t1.len() as int) =~= t1);
        }
        crate::bus::lemma_prefix_trans(t0, t1, t2);
    }
    match w {
        Err(e) => {
            bus.release(task);
            return Err(e);
        },
        Ok(_u) => {},
    }
    let v = bus.write_read(task, sad, reg, 1);
    proof {
        assert(t2.is_prefix_of(bus.trace@)) by {
            assert(bus.trace@.subrange(0, t2.len() as int) =~= t2);
        }
        crate::bus::lemma_prefix_trans(t0, t2, bus.trace@);
    }
    bus.release(task);
    match v {
        Ok(data) => {
            let b = data[0];
            Ok(b == val)
        },
        Err(e) => Err(e),
    }
}

/// Identification is idempotent: its outcome is a function of the devices
/// on the bus alone, so two results obtained against unchanged devices are
/// equal, whatever lock traffic or wire activity happened in between.
pub proof fn lemma_identify_idempotent(
    devs: Seq<SimDevice>,
    desc: DeviceDescriptor,
    r1: Result<bool, Error>,
    r2: Result<bool, Error>,
)
    requires
        r1 == identify_spec(devs, desc),
        r2 == identify_spec(devs, desc),
    ensures
        r1 == r2,
{
}

} // verus!

