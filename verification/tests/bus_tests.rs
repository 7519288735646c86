//! Bus arbitration: mutual exclusion of the lock, byte-level transaction
//! serialization on the wire trace, the non-atomicity of a multi-group
//! sample, and the bus surviving transport failures unpoisoned.

use sensor_pack::bus::{Bus, Dir, Fault, SimDevice, WireEvent};
use sensor_pack::{lis2mdl, lps22hh};

fn bus_with(devs: Vec<SimDevice>) -> Bus {
    let mut bus = Bus::new();
    for d in devs {
        bus.add_device(d);
    }
    bus
}

/// Bytes of two distinct transactions never interleave: scanning the trace,
/// a transaction number never reappears once another has begun, and all
/// bytes of one transaction carry one task and one device address.
fn assert_serialized(trace: &[WireEvent]) {
    let mut seen: Vec<u64> = Vec::new();
    let mut i = 0;
    while i < trace.len() {
        let txn = trace[i].txn;
        assert!(!seen.contains(&txn), "transaction {} resumed after another began", txn);
        let task = trace[i].task;
        let sad = trace[i].sad;
        let mut j = i;
        while j < trace.len() && trace[j].txn == txn {
            assert_eq!(trace[j].task, task, "two tasks inside one transaction");
            assert_eq!(trace[j].sad, sad, "two addresses inside one transaction");
            j += 1;
        }
        seen.push(txn);
        i = j;
    }
}

#[test]
fn lock_has_at_most_one_holder() {
    let mut bus = bus_with(vec![lis2mdl::sim_device()]);
    assert!(bus.try_acquire(1));
    assert_eq!(bus.owner, Some(1));
    // while task 1 holds the bus, no other acquisition succeeds
    assert!(!bus.try_acquire(2));
    assert!(!bus.try_acquire(1));
    assert_eq!(bus.owner, Some(1));
    bus.release(1);
    assert!(bus.try_acquire(2));
    assert_eq!(bus.owner, Some(2));
    bus.release(2);
}

#[test]
fn concurrent_drivers_never_interleave_bytes() {
    // Two sensor drivers sharing one bus handle, cooperatively interleaved:
    // every byte block on the wire belongs to exactly one transaction.
    let mut bus = bus_with(vec![lis2mdl::sim_device(), lps22hh::sim_device()]);
    let mag = lis2mdl::Lis2mdl::new(1);
    let baro = lps22hh::Lps22hh::new(2);
    let _ = mag.check_device_id(&mut bus);
    let _ = baro.check_device_id(&mut bus);
    let _ = mag.apply_config(&mut bus);
    let _ = baro.apply_config(&mut bus);
    let _ = mag.sample_field(&mut bus);
    let _ = baro.sample_pressure(&mut bus);
    let _ = mag.sample_temperature(&mut bus);
    let _ = baro.sample_temperature(&mut bus);
    assert!(!bus.trace.is_empty());
    assert_serialized(&bus.trace);
    // transaction numbers never decrease along the trace
    for w in bus.trace.windows(2) {
        assert!(w[0].txn <= w[1].txn);
    }
}

#[test]
fn multi_group_sample_is_not_atomic() {
    // A sample is split into two lock acquisitions, so another task's
    // transaction can run between the two groups.  That is the expected
    // behavior, not a defect.
    let mut d = lis2mdl::sim_device();
    d.set_reg(0x68, 0xE8);
    d.set_reg(0x69, 0x03);
    d.set_reg(0x6E, 0x64);
    let mut bus = bus_with(vec![d, lps22hh::sim_device()]);
    let mag = lis2mdl::Lis2mdl::new(1);
    let baro = lps22hh::Lps22hh::new(2);

    let field = mag.sample_field(&mut bus).unwrap();
    // the bus is free between the groups...
    assert!(bus.owner.is_none());
    // ...so the barometer's transaction runs here
    assert_eq!(baro.check_device_id(&mut bus), Ok(true));
    let temp = mag.sample_temperature(&mut bus).unwrap();

    // the interposed transaction sits strictly between the two groups
    let mag_txns: Vec<u64> =
        bus.trace.iter().filter(|e| e.task == 1).map(|e| e.txn).collect();
    let baro_txns: Vec<u64> =
        bus.trace.iter().filter(|e| e.task == 2).map(|e| e.txn).collect();
    assert!(!baro_txns.is_empty());
    assert!(mag_txns.first().unwrap() < baro_txns.first().unwrap());
    assert!(baro_txns.last().unwrap() < mag_txns.last().unwrap());
    // still byte-serialized, and the split sample reads the right values
    assert_serialized(&bus.trace);
    assert_eq!(field.x.num, 15000);
    assert_eq!(temp.num, 37500);
}

#[test]
fn transport_failure_does_not_poison_the_bus() {
    // A device that times out mid-session: the failing operation releases
    // the lock normally and later transactions proceed as if nothing
    // happened.
    let mut bus = bus_with(vec![lis2mdl::sim_device(), lps22hh::sim_device()]);
    let mag = lis2mdl::Lis2mdl::new(1);
    let baro = lps22hh::Lps22hh::new(2);
    assert_eq!(mag.check_device_id(&mut bus), Ok(true));
    bus.devices[0].fault = Some(Fault::Timeout);
    assert!(mag.sample(&mut bus).is_err());
    assert!(bus.owner.is_none());
    // the other device is unaffected
    assert_eq!(baro.check_device_id(&mut bus), Ok(true));
    // and the failed device recovers once the fault clears
    bus.devices[0].fault = None;
    assert_eq!(mag.check_device_id(&mut bus), Ok(true));
    assert_serialized(&bus.trace);
}

#[test]
fn write_read_traces_one_block_per_transaction() {
    let mut bus = bus_with(vec![lis2mdl::sim_device()]);
    assert!(bus.try_acquire(9));
    let data = bus.write_read(9, 0b0011110, 0x4F, 1).unwrap();
    bus.release(9);
    assert_eq!(data, vec![0x40]);
    // the block: one written register-address byte, then the bytes read
    assert_eq!(bus.trace.len(), 2);
    assert_eq!(bus.trace[0].dir, Dir::WriteByte);
    assert_eq!(bus.trace[0].byte, 0x4F);
    assert_eq!(bus.trace[1].dir, Dir::ReadByte);
    assert_eq!(bus.trace[1].byte, 0x40);
    assert_eq!(bus.trace[0].txn, bus.trace[1].txn);
    assert_eq!(bus.trace[0].task, 9);
}

#[test]
fn write_traces_register_and_value_bytes() {
    let mut bus = bus_with(vec![lis2mdl::sim_device()]);
    assert!(bus.try_acquire(4));
    bus.write(4, 0b0011110, 0x60, 0x8C).unwrap();
    bus.release(4);
    assert_eq!(bus.devices[0].regs[0x60], 0x8C);
    assert_eq!(bus.trace.len(), 2);
    assert_eq!(bus.trace[0].dir, Dir::WriteByte);
    assert_eq!(bus.trace[0].byte, 0x60);
    assert_eq!(bus.trace[1].dir, Dir::WriteByte);
    assert_eq!(bus.trace[1].byte, 0x8C);
    assert_eq!(bus.trace[0].txn, bus.trace[1].txn);
}
