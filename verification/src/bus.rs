//! The shared-bus arbitration layer.
//!
//! A [`Bus`] is the single arbitration point for one physical I2C
//! transport.  It owns the simulated register devices wired to the bus, an
//! exclusive-access lock (`owner`), and a byte-level wire trace.  Every
//! write or write-read transaction requires the lock, appends its bytes to
//! the trace as one block under a fresh transaction number, and the trace
//! well-formedness invariant (transaction numbers never decrease) makes the
//! serialization guarantee a theorem: bytes of two distinct transactions
//! never interleave.
//!
//! A transport failure (a missing device, a NACK, a timeout) surfaces as a
//! typed error and leaves the bus in its ordinary state — the lock is not
//! poisoned and later transactions proceed as if nothing had happened.

use vstd::prelude::*;

verus! {

use vstd::pervasive::VecAdditionalExecFns;
use vstd::seq_lib::*;

/// The error taxonomy every bus transaction reports to its caller.
#[derive(Clone, Copy, Debug, PartialEq, Eq, Structural)]
pub enum Error {
    /// The transport did not complete the transaction in time.
    Timeout,
    /// The transport reported a fault: NACK, arbitration loss or bus error.
    TransportError,
    /// A device responded, but its identity byte differs from the expected
    /// constant.
    IdentityMismatch,
}

/// How a simulated device misbehaves, if at all.
#[derive(Clone, Copy, Debug, PartialEq, Eq, Structural)]
pub enum Fault {
    /// Every transaction addressed to the device times out.
    Timeout,
    /// Every transaction addressed to the device is not acknowledged.
    Nack,
    /// Transactions complete normally but register writes do not stick,
    /// as with a read-only register bank.
    WritesIgnored,
}

/// One simulated register device: a 7-bit slave address, 256 one-byte
/// registers, and an optional fault mode.
#[derive(Debug)]
pub struct SimDevice {
    pub sad: u8,
    pub regs: Vec<u8>,
    pub fault: Option<Fault>,
}

impl SimDevice {
    pub open spec fn wf(self) -> bool {
        self.sad < 128 && self.regs@.len() == 256
    }

    /// A fault-free device at the given slave address with every register
    /// cleared.
    pub fn new(sad: u8) -> (d: SimDevice)
        requires
            sad < 128,
        ensures
            d.wf(),
            d.sad == sad,
            d.fault is None,
            forall|i: int| 0 <= i < 256 ==> d.regs@[i] == 0,
    {
        let mut regs: Vec<u8> = Vec::new();
        let mut k: usize = 0;
        while k < 256
            invariant
                k <= 256,
                regs@.len() == k,
                forall|i: int| 0 <= i < k ==> regs@[i] == 0,
            decreases 256 - k,
        {
            regs.push(0);
            k = k + 1;
        }
        SimDevice { sad, regs, fault: None }
    }

    /// Stores one register value directly, as device bring-up does when a
    /// simulated device is given its identity byte or its power-on state.
    pub fn set_reg(&mut self, reg: u8, val: u8)
        requires
            old(self).wf(),
        ensures
            final(self).wf(),
            final(self).sad == old(self).sad,
            final(self).fault == old(self).fault,
            final(self).regs@ == old(self).regs@.update(reg as int, val),
    {
        self.regs.set(reg as usize, val);
    }
}

/// No two devices on the bus share a slave address.
pub open spec fn unique_sads(devs: Seq<SimDevice>) -> bool {
    forall|i: int, j: int|
        0 <= i < j < devs.len() ==> (#[trigger] devs[i]).sad != (#[trigger] devs[j]).sad
}

/// Some device on the bus has the given slave address.
pub open spec fn has_dev(devs: Seq<SimDevice>, sad: u8) -> bool {
    exists|i: int| 0 <= i < devs.len() && (#[trigger] devs[i]).sad == sad
}

/// The index of the device with the given slave address (meaningful when
/// `has_dev` holds and addresses are unique).
pub open spec fn dev_index(devs: Seq<SimDevice>, sad: u8) -> int {
    choose|i: int| 0 <= i < devs.len() && (#[trigger] devs[i]).sad == sad
}

/// The device with the given slave address.
pub open spec fn dev(devs: Seq<SimDevice>, sad: u8) -> SimDevice {
    devs[dev_index(devs, sad)]
}

/// Whether a transaction addressed to `sad` completes: a device is present
/// and neither times out nor NACKs.  A device whose writes do not stick
/// still responds.
pub open spec fn responds(devs: Seq<SimDevice>, sad: u8) -> bool {
    has_dev(devs, sad) && (dev(devs, sad).fault is None || dev(devs, sad).fault
        == Some(Fault::WritesIgnored))
}

/// Whether a register write addressed to `sad` takes effect.
pub open spec fn write_applies(devs: Seq<SimDevice>, sad: u8) -> bool {
    has_dev(devs, sad) && dev(devs, sad).fault is None
}

/// The error a failing transaction reports: `Timeout` when the addressed
/// device times out, `TransportError` for a NACK or a missing device.
pub open spec fn fail_error(devs: Seq<SimDevice>, sad: u8) -> Error {
    if has_dev(devs, sad) && dev(devs, sad).fault == Some(Fault::Timeout) {
        Error::Timeout
    } else {
        Error::TransportError
    }
}

/// Whether one byte moved from the controller to the device or back.
#[derive(Clone, Copy, Debug, PartialEq, Eq, Structural)]
pub enum Dir {
    WriteByte,
    ReadByte,
}

/// One byte observed on the wire: which transaction it belongs to, which
/// task issued it, which device it addressed, its direction and its value.
#[derive(Clone, Copy, Debug, PartialEq, Eq, Structural)]
pub struct WireEvent {
    pub txn: u64,
    pub task: u8,
    pub sad: u8,
    pub dir: Dir,
    pub byte: u8,
}

/// The trace block of one plain write transaction.
pub open spec fn write_block(txn: u64, task: u8, sad: u8, payload: Seq<u8>) -> Seq<WireEvent> {
    Seq::new(
        payload.len(),
        |i: int| WireEvent { txn, task, sad, dir: Dir::WriteByte, byte: payload[i] },
    )
}

/// The trace block of one combined write-read transaction: the register
/// address byte out, then the data bytes back.
pub open spec fn write_read_block(txn: u64, task: u8, sad: u8, reg: u8, data: Seq<u8>) -> Seq<
    WireEvent,
> {
    seq![WireEvent { txn, task, sad, dir: Dir::WriteByte, byte: reg }] + Seq::new(
        data.len(),
        |i: int| WireEvent { txn, task, sad, dir: Dir::ReadByte, byte: data[i] },
    )
}

/// Transaction numbers never decrease along the trace.
pub open spec fn trace_wf(t: Seq<WireEvent>) -> bool {
    forall|i: int, j: int| 0 <= i <= j < t.len() ==> (#[trigger] t[i]).txn <= (#[trigger] t[j]).txn
}

/// All bytes of one transaction were issued by one task and addressed one
/// device.
pub open spec fn trace_txn_consistent(t: Seq<WireEvent>) -> bool {
    forall|i: int, j: int|
        0 <= i < t.len() && 0 <= j < t.len() && (#[trigger] t[i]).txn == (#[trigger] t[j]).txn
            ==> t[i].task == t[j].task && t[i].sad == t[j].sad
}

/// Appending an event whose transaction number is no smaller than any on
/// the trace — and that agrees in task and address with any earlier event
/// of its transaction — keeps the trace well-formed.
proof fn lemma_trace_push(t: Seq<WireEvent>, e: WireEvent)
    requires
        trace_wf(t),
        trace_txn_consistent(t),
        forall|i: int| 0 <= i < t.len() ==> (#[trigger] t[i]).txn <= e.txn,
        forall|i: int|
            0 <= i < t.len() && (#[trigger] t[i]).txn == e.txn ==> t[i].task == e.task && t[i].sad
                == e.sad,
    ensures
        trace_wf(t.push(e)),
        trace_txn_consistent(t.push(e)),
{
    let u = t.push(e);
    assert forall|i: int, j: int| 0 <= i <= j < u.len() implies (#[trigger] u[i]).txn
        <= (#[trigger] u[j]).txn by {
        if j < t.len() {
            assert(u[i] == t[i]);
            assert(u[j] == t[j]);
        } else {
            assert(u[j] == e);
            if i < t.len() {
                assert(u[i] == t[i]);
            } else {
                assert(u[i] == e);
            }
        }
    }
    assert forall|i: int, j: int|
        0 <= i < u.len() && 0 <= j < u.len() && (#[trigger] u[i]).txn == (#[trigger] u[j]).txn
            implies u[i].task == u[j].task && u[i].sad == u[j].sad by {
        if i < t.len() {
            assert(u[i] == t[i]);
        } else {
            assert(u[i] == e);
        }
        if j < t.len() {
            assert(u[j] == t[j]);
        } else {
            assert(u[j] == e);
        }
    }
}

/// How the device registers change under one write transaction: the
/// addressed register takes the value (unless the device ignores writes)
/// and everything else stays as it was.
pub open spec fn regs_after_write(
    pre: Seq<SimDevice>,
    post: Seq<SimDevice>,
    sad: u8,
    reg: u8,
    val: u8,
) -> bool {
    let di = dev_index(pre, sad);
    &&& post.len() == pre.len()
    &&& forall|k: int| 0 <= k < pre.len() && k != di ==> post[k] == pre[k]
    &&& post[di].sad == pre[di].sad
    &&& post[di].fault == pre[di].fault
    &&& (pre[di].fault is None ==> post[di].regs@ == pre[di].regs@.update(reg as int, val))
    &&& (pre[di].fault == Some(Fault::WritesIgnored) ==> post[di].regs@ == pre[di].regs@)
}

/// A prefix of a prefix is a prefix.
pub proof fn lemma_prefix_trans(a: Seq<WireEvent>, b: Seq<WireEvent>, c: Seq<WireEvent>)
    requires
        a.is_prefix_of(b),
        b.is_prefix_of(c),
    ensures
        a.is_prefix_of(c),
{
    assert forall|i: int| 0 <= i < a.len() implies a[i] == c[i] by {
        assert(a[i] == b.subrange(0, a.len() as int)[i]);
        assert(b[i] == c.subrange(0, b.len() as int)[i]);
    }
    assert(a =~= c.subrange(0, a.len() as int));
}

/// The serialization law: in a well-formed trace, the bytes of one
/// transaction form one contiguous block issued by one task to one device,
/// so bytes of two distinct transactions — in particular of two drivers
/// sharing the bus — never interleave.
pub proof fn lemma_no_byte_interleaving(t: Seq<WireEvent>, i: int, j: int, k: int)
    requires
        trace_wf(t),
        trace_txn_consistent(t),
        0 <= i <= j <= k < t.len(),
        t[i].txn == t[k].txn,
    ensures
        t[j].txn == t[i].txn,
        t[j].task == t[i].task,
        t[j].sad == t[i].sad,
{
    assert(t[i].txn <= t[j].txn);
    assert(t[j].txn <= t[k].txn);
}

/// The single lock-protected handle to the physical transport, together
/// with the devices wired to it and the observed wire trace.
pub struct Bus {
    /// The task currently holding exclusive access, if any.
    pub owner: Option<u8>,
    /// The simulated devices on the bus.
    pub devices: Vec<SimDevice>,
    /// Every byte observed on the wire, oldest first.
    pub trace: Vec<WireEvent>,
    /// The transaction number the next transaction will carry.
    pub next_txn: u64,
}

impl Bus {
    pub open spec fn wf(self) -> bool {
        &&& unique_sads(self.devices@)
        &&& forall|i: int| 0 <= i < self.devices@.len() ==> (#[trigger] self.devices@[i]).wf()
        &&& trace_wf(self.trace@)
        &&& trace_txn_consistent(self.trace@)
        &&& forall|i: int| 0 <= i < self.trace@.len() ==> (#[trigger] self.trace@[i]).txn
            < self.next_txn
    }

    /// An empty bus: no devices, lock free, nothing on the wire yet.
    pub fn new() -> (b: Bus)
        ensures
            b.wf(),
            b.owner is None,
            b.devices@ =~= Seq::<SimDevice>::empty(),
            b.trace@ =~= Seq::<WireEvent>::empty(),
            b.next_txn == 0,
    {
        Bus { owner: None, devices: Vec::new(), trace: Vec::new(), next_txn: 0 }
    }

    /// Wires one more device to the bus.  Bring-up populates the bus once,
    /// before any driver issues a transaction.
    pub fn add_device(&mut self, d: SimDevice)
        requires
            old(self).wf(),
            d.wf(),
            !has_dev(old(self).devices@, d.sad),
        ensures
            final(self).wf(),
            final(self).devices@ == old(self).devices@.push(d),
            final(self).owner == old(self).owner,
            final(self).trace == old(self).trace,
            final(self).next_txn == old(self).next_txn,
    {
        proof {
            assert forall|i: int| 0 <= i < self.devices@.len() implies (#[trigger] self.devices@[i]).sad
                != d.sad by {
                if self.devices@[i].sad == d.sad {
                    assert(has_dev(self.devices@, d.sad));
                }
            }
        }
        self.devices.push(d);
    }

    /// Takes the lock.  A caller runs only when the bus is free — under the
    /// cooperative scheduler a task that finds the lock held suspends
    /// instead of calling — so acquisition here always succeeds.
    pub fn acquire(&mut self, task: u8)
        requires
            old(self).wf(),
            old(self).owner is None,
        ensures
            final(self).wf(),
            final(self).owner == Some(task),
            final(self).devices == old(self).devices,
            final(self).trace == old(self).trace,
            final(self).next_txn == old(self).next_txn,
    {
        self.owner = Some(task);
    }

    /// Takes the lock if it is free.  While some task holds the lock no
    /// other acquisition succeeds, and nothing else about the bus changes.
    pub fn try_acquire(&mut self, task: u8) -> (r: bool)
        requires
            old(self).wf(),
        ensures
            final(self).wf(),
            final(self).devices == old(self).devices,
            final(self).trace == old(self).trace,
            final(self).next_txn == old(self).next_txn,
            old(self).owner is None ==> r && final(self).owner == Some(task),
            old(self).owner is Some ==> !r && final(self).owner == old(self).owner,
    {
        match self.owner {
            None => {
                self.owner = Some(task);
                true
            },
            Some(_) => false,
        }
    }

    /// Releases the lock.  Only the holder may release; releasing never
    /// touches devices or trace, so an error inside a critical section
    /// cannot poison the bus.
    pub fn release(&mut self, task: u8)
        requires
            old(self).wf(),
            old(self).owner == Some(task),
        ensures
            final(self).wf(),
            final(self).owner is None,
            final(self).devices == old(self).devices,
            final(self).trace == old(self).trace,
            final(self).next_txn == old(self).next_txn,
    {
        self.owner = None;
    }

    /// Issues one plain write transaction: the register address byte, then
    /// the value byte.  Requires the lock.  On success the two bytes appear
    /// on the trace as one block under a fresh transaction number, and the
    /// register takes the value unless the device ignores writes; on
    /// failure nothing reaches the wire and nothing changes but the error
    /// being reported.
    pub fn write(&mut self, task: u8, sad: u8, reg: u8, val: u8) -> (r: Result<(), Error>)
        requires
            old(self).wf(),
            old(self).owner == Some(task),
            old(self).next_txn < u64::MAX,
        ensures
            final(self).wf(),
            final(self).owner == old(self).owner,
            !responds(old(self).devices@, sad) ==> {
                &&& r == Err::<(), Error>(fail_error(old(self).devices@, sad))
                &&& final(self).devices == old(self).devices
                &&& final(self).trace == old(self).trace
                &&& final(self).next_txn == old(self).next_txn
            },
            responds(old(self).devices@, sad) ==> {
                &&& r is Ok
                &&& final(self).next_txn == old(self).next_txn + 1
                &&& final(self).trace@ == old(self).trace@ + write_block(
                    old(self).next_txn, task, sad, seq![reg, val])
                &&& regs_after_write(old(self).devices@, final(self).devices@, sad, reg, val)
            },
    {
        let di_opt = self.find_device(sad);
        let di = match di_opt {
            None => {
                return Err(Error::TransportError);
            },
            Some(di) => di,
        };
        proof {
            lemma_dev_index_of(self.devices@, sad, di as int);
        }
        let f = self.devices[di].fault;
        match f {
            Some(Fault::Timeout) => {
                return Err(Error::Timeout);
            },
            Some(Fault::Nack) => {
                return Err(Error::TransportError);
            },
            _ => {},
        }
        let ghost t0 = self.trace@;
        let ghost devs0 = self.devices@;
        let txn = self.next_txn;
        if f.is_none() {
            self.devices[di].regs.set(reg as usize, val);
        }
        proof {
            assert(unique_sads(self.devices@));
            assert(forall|i: int|
                0 <= i < self.devices@.len() ==> (#[trigger] self.devices@[i]).wf());
            assert(regs_after_write(devs0, self.devices@, sad, reg, val));
        }
        let e1 = WireEvent { txn, task, sad, dir: Dir::WriteByte, byte: reg };
        let e2 = WireEvent { txn, task, sad, dir: Dir::WriteByte, byte: val };
        proof {
            lemma_trace_push(self.trace@, e1);
        }
        self.trace.push(e1);
        proof {
            lemma_trace_push(self.trace@, e2);
        }
        self.trace.push(e2);
        self.next_txn = self.next_txn + 1;
        proof {
            assert(self.trace@ =~= t0 + write_block(txn, task, sad, seq![reg, val]));
        }
        Ok(())
    }

    /// Issues one combined write-read transaction: the register address
    /// byte out, then `n` data bytes read back from `n` consecutive
    /// registers starting at `reg`.  Requires the lock.  On success the
    /// returned bytes are exactly the addressed registers, and the
    /// transaction appears on the trace as one block under a fresh
    /// transaction number; on failure nothing reaches the wire.  Reading
    /// never changes any device.
    #[verifier::loop_isolation(false)]
    pub fn write_read(&mut self, task: u8, sad: u8, reg: u8, n: usize) -> (r: Result<
        Vec<u8>,
        Error,
    >)
        requires
            old(self).wf(),
            old(self).owner == Some(task),
            old(self).next_txn < u64::MAX,
            1 <= n,
            reg + n <= 256,
        ensures
            final(self).wf(),
            final(self).owner == old(self).owner,
            final(self).devices == old(self).devices,
            !responds(old(self).devices@, sad) ==> {
                &&& r == Err::<Vec<u8>, Error>(fail_error(old(self).devices@, sad))
                &&& final(self).trace == old(self).trace
                &&& final(self).next_txn == old(self).next_txn
            },
            responds(old(self).devices@, sad) ==> {
                &&& r matches Ok(data)
                &&& (r matches Ok(data) ==> {
                    &&& data@ == dev(old(self).devices@, sad).regs@.subrange(reg as int, reg + n)
                    &&& final(self).trace@ == old(self).trace@ + write_read_block(
                        old(self).next_txn, task, sad, reg, data@)
                })
                &&& final(self).next_txn == old(self).next_txn + 1
            },
    {
        let di_opt = self.find_device(sad);
        let di = match di_opt {
            None => {
                return Err(Error::TransportError);
            },
            Some(di) => di,
        };
        proof {
            lemma_dev_index_of(self.devices@, sad, di as int);
        }
        match self.devices[di].fault {
            Some(Fault::Timeout) => {
                return Err(Error::Timeout);
            },
            Some(Fault::Nack) => {
                return Err(Error::TransportError);
            },
            _ => {},
        }
        let ghost t0 = self.trace@;
        let txn = self.next_txn;
        let mut data: Vec<u8> = Vec::new();
        let mut k: usize = 0;
        while k < n
            invariant
                k <= n,
                data@ == self.devices@[di as int].regs@.subrange(reg as int, reg + k),
            decreases n - k,
        {
            let b = self.devices[di].regs[reg as usize + k];
            data.push(b);
            proof {
                assert(data@ =~= self.devices@[di as int].regs@.subrange(reg as int, reg + k + 1));
            }
            k = k + 1;
        }
        let e0 = WireEvent { txn, task, sad, dir: Dir::WriteByte, byte: reg };
        proof {
            lemma_trace_push(self.trace@, e0);
        }
        self.trace.push(e0);
        proof {
            assert(self.trace@ =~= t0 + write_read_block(txn, task, sad, reg, data@).subrange(
                0,
                1,
            ));
        }
        let mut k2: usize = 0;
        while k2 < n
            invariant
                k2 <= n,
                data@.len() == n,
                self.devices == old(self).devices,
                self.owner == old(self).owner,
                self.next_txn == txn,
                trace_wf(self.trace@),
                trace_txn_consistent(self.trace@),
                forall|i: int| 0 <= i < self.trace@.len() ==> (#[trigger] self.trace@[i]).txn
                    <= txn,
                forall|i: int|
                    0 <= i < self.trace@.len() && (#[trigger] self.trace@[i]).txn == txn
                        ==> self.trace@[i].task == task && self.trace@[i].sad == sad,
                self.trace@ == t0 + write_read_block(txn, task, sad, reg, data@).subrange(
                    0,
                    1 + k2,
                ),
            decreases n - k2,
        {
            let b = data[k2];
            let e = WireEvent { txn, task, sad, dir: Dir::ReadByte, byte: b };
            proof {
                lemma_trace_push(self.trace@, e);
                assert(self.trace@.push(e) =~= t0 + write_read_block(
                    txn,
                    task,
                    sad,
                    reg,
                    data@,
                ).subrange(0, 1 + k2 + 1));
            }
            self.trace.push(e);
            k2 = k2 + 1;
        }
        self.next_txn = self.next_txn + 1;
        proof {
            assert(self.trace@ =~= t0 + write_read_block(txn, task, sad, reg, data@));
        }
        Ok(data)
    }

    /// Finds the device with the given slave address, if any.
    fn find_device(&self, sad: u8) -> (r: Option<usize>)
        ensures
            match r {
                Some(i) => i < self.devices@.len() && self.devices@[i as int].sad == sad,
                None => !has_dev(self.devices@, sad),
            },
    {
        let mut j: usize = 0;
        while j < self.devices.len()
            invariant
                j <= self.devices@.len(),
                forall|k: int| 0 <= k < j ==> (#[trigger] self.devices@[k]).sad != sad,
            decreases self.devices@.len() - j,
        {
            if self.devices[j].sad == sad {
                return Some(j);
            }
            j = j + 1;
        }
        None
    }
}

/// When device `i` carries address `sad` and addresses are unique, `i` is
/// the index the contracts speak of.
pub proof fn lemma_dev_index_of(devs: Seq<SimDevice>, sad: u8, i: int)
    requires
        unique_sads(devs),
        0 <= i < devs.len(),
        devs[i].sad == sad,
    ensures
        has_dev(devs, sad),
        dev_index(devs, sad) == i,
        dev(devs, sad) == devs[i],
{
    assert(has_dev(devs, sad));
    let j = dev_index(devs, sad);
    assert(0 <= j < devs.len() && devs[j].sad == sad);
}

} // verus!
