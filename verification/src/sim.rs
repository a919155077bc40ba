//! A bus simulator: an in-memory [`I2cBus`] for exercising the driver
//! without hardware.
//!
//! The simulator keeps a small register file and honours the chip's
//! addressing rules — a plain write `[register, value]` stores the
//! value, a bare `[register]` write sets the read pointer, a control
//! byte with the auto-increment bit distributes the following bytes
//! over consecutive registers — and it records every transaction it is
//! asked for. It can be told to start failing after a given number of
//! transactions, so callers can observe how the driver behaves at every
//! failure point.

use vstd::prelude::*;

use crate::bus::{I2cBus, Txn};

verus! {

/// How many registers the simulated register file holds.
pub const SIM_REG_SPACE: usize = 128;

/// The error every simulated transaction reports once the failure
/// point is reached.
#[derive(Copy, Clone, Debug, PartialEq, Eq)]
pub struct SimBusError;

/// One recorded transaction, the executable twin of [`Txn`].
#[derive(Debug, PartialEq, Eq)]
pub enum SimEvent {
    /// A write of `data` to bus address `addr` that reported `ok`.
    Write { addr: u8, data: Vec<u8>, ok: bool },
    /// A read from bus address `addr` that left `data` in the caller's
    /// buffer and reported `ok`.
    Read { addr: u8, data: Vec<u8>, ok: bool },
}

impl View for SimEvent {
    type V = Txn;

    open spec fn view(&self) -> Txn {
        match self {
            SimEvent::Write { addr, data, ok } => Txn::Write {
                addr: *addr,
                data: data@,
                ok: *ok,
            },
            SimEvent::Read { addr, data, ok } => Txn::Read { addr: *addr, data: data@, ok: *ok },
        }
    }
}

/// An in-memory transport with a register file, a read pointer, a
/// failure countdown and the record of all attempted transactions.
pub struct SimTransport {
    regs: Vec<u8>,
    pointer: u8,
    succeed_left: u64,
    events: Vec<SimEvent>,
}

impl SimTransport {
    /// A simulator whose every transaction succeeds.
    pub fn new() -> (s: SimTransport)
        ensures
            s.log() == Seq::<Txn>::empty(),
    {
        Self::failing_after(u64::MAX)
    }

    /// A simulator whose first `n` transactions succeed and whose
    /// later ones all fail.
    pub fn failing_after(n: u64) -> (s: SimTransport)
        ensures
            s.log() == Seq::<Txn>::empty(),
    {
        let mut regs: Vec<u8> = Vec::new();
        let mut i: usize = 0;
        while i < SIM_REG_SPACE
            invariant
                i <= SIM_REG_SPACE,
            decreases SIM_REG_SPACE - i,
        {
            regs.push(0u8);
            i = i + 1;
        }
        let s = SimTransport { regs, pointer: 0, succeed_left: n, events: Vec::new() };
        proof {
            assert(s.log() =~= Seq::<Txn>::empty());
        }
        s
    }

    /// The simulated register file's contents.
    pub closed spec fn spec_reg_file(&self) -> Seq<u8> {
        self.regs@
    }

    /// The byte the simulated register file holds at `register`, or
    /// zero when the register is outside the simulated space.
    pub fn reg(&self, register: u8) -> (r: u8)
        ensures
            r == if (register as int) < self.spec_reg_file().len() {
                self.spec_reg_file()[register as int]
            } else {
                0u8
            },
    {
        if (register as usize) < self.regs.len() {
            self.regs[register as usize]
        } else {
            0u8
        }
    }

    /// The recorded transactions, oldest first.
    pub fn events(&self) -> (r: &Vec<SimEvent>)
        ensures
            r@.len() == self.log().len(),
            forall|i: int| 0 <= i < r@.len() ==> r@[i]@ == self.log()[i],
    {
        &self.events
    }
}

impl I2cBus for SimTransport {
    type BusError = SimBusError;

    closed spec fn log(&self) -> Seq<Txn> {
        self.events@.map_values(|e: SimEvent| e@)
    }

    fn bus_write(&mut self, address: u8, bytes: &Vec<u8>) -> (r: Result<(), SimBusError>) {
        let ok = self.succeed_left > 0;
        if ok {
            self.succeed_left = self.succeed_left - 1;
            if bytes.len() > 0 {
                let control = bytes[0];
                if control & 0x80 != 0 {
                    apply_autoincr(&mut self.regs, control & 0x7F, bytes);
                } else {
                    self.pointer = control;
                    if bytes.len() >= 2 {
                        if (control as usize) < self.regs.len() {
                            self.regs.set(control as usize, bytes[1]);
                        }
                    }
                }
            }
        }
        let data = copy_bytes(bytes);
        self.events.push(SimEvent::Write { addr: address, data, ok });
        proof {
            assert(self.log() =~= old(self).log().push(
                Txn::Write { addr: address, data: bytes@, ok },
            ));
        }
        if ok {
            Ok(())
        } else {
            Err(SimBusError)
        }
    }

    fn bus_read(&mut self, address: u8, buffer: &mut Vec<u8>) -> (r: Result<(), SimBusError>) {
        let ok = self.succeed_left > 0;
        if ok {
            self.succeed_left = self.succeed_left - 1;
            fill_from(&self.regs, self.pointer, buffer);
        }
        let data = copy_bytes(buffer);
        self.events.push(SimEvent::Read { addr: address, data, ok });
        proof {
            assert(self.log() =~= old(self).log().push(
                Txn::Read { addr: address, data: buffer@, ok },
            ));
        }
        if ok {
            Ok(())
        } else {
            Err(SimBusError)
        }
    }
}

/// Store the data bytes of an auto-increment write (everything after
/// the control byte) in consecutive registers, wrapping within the
/// simulated register space.
fn apply_autoincr(regs: &mut Vec<u8>, start: u8, bytes: &Vec<u8>)
    ensures
        final(regs)@.len() == old(regs)@.len(),
{
    let mut p = start;
    let mut i: usize = 1;
    while i < bytes.len()
        invariant
            regs@.len() == old(regs)@.len(),
        decreases bytes@.len() - i,
    {
        if (p as usize) < regs.len() {
            regs.set(p as usize, bytes[i]);
        }
        p = if p < 127 {
            p + 1
        } else {
            0
        };
        i = i + 1;
    }
}

/// Fill the whole buffer from consecutive registers starting at the
/// read pointer, wrapping within the simulated register space; a
/// register outside it reads as zero.
fn fill_from(regs: &Vec<u8>, start: u8, buffer: &mut Vec<u8>)
    ensures
        final(buffer)@.len() == old(buffer)@.len(),
{
    let n = buffer.len();
    let mut p = start;
    let mut i: usize = 0;
    while i < n
        invariant
            buffer@.len() == n,
            i <= n,
        decreases n - i,
    {
        let v = if (p as usize) < regs.len() {
            regs[p as usize]
        } else {
            0u8
        };
        buffer.set(i, v);
        p = if p < 127 {
            p + 1
        } else {
            0
        };
        i = i + 1;
    }
}

/// Copy a byte vector.
fn copy_bytes(src: &Vec<u8>) -> (r: Vec<u8>)
    ensures
        r@ == src@,
{
    let mut r: Vec<u8> = Vec::new();
    let mut i: usize = 0;
    while i < src.len()
        invariant
            i <= src@.len(),
            r@ == src@.subrange(0, i as int),
        decreases src@.len() - i,
    {
        r.push(src[i]);
        proof {
            assert(r@ =~= src@.subrange(0, i as int + 1));
        }
        i = i + 1;
    }
    proof {
        assert(r@ =~= src@);
    }
    r
}

} // verus!
