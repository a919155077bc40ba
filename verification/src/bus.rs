//! The synchronous I2C transport port the driver consumes.
//!
//! The port exposes the two bus operations the chips need — write a byte
//! sequence to an address, read a byte sequence from an address — and a
//! ghost log of every transaction ever attempted, in order, with its
//! payload and outcome. The driver's contracts are stated over that log:
//! they pin down exactly which bytes each operation puts on the bus.

use vstd::prelude::*;

verus! {

/// One attempted bus transaction, as it appears in a transport's log.
pub enum Txn {
    /// A write of `data` to bus address `addr`; `ok` tells whether the
    /// transport reported success.
    Write { addr: u8, data: Seq<u8>, ok: bool },
    /// A read from bus address `addr` that left `data` in the caller's
    /// buffer; `ok` tells whether the transport reported success.
    Read { addr: u8, data: Seq<u8>, ok: bool },
}

impl Txn {
    /// The bus address the transaction targeted.
    pub open spec fn t_addr(self) -> u8 {
        match self {
            Txn::Write { addr, .. } => addr,
            Txn::Read { addr, .. } => addr,
        }
    }

    /// The bytes written, or the bytes left in the read buffer.
    pub open spec fn t_data(self) -> Seq<u8> {
        match self {
            Txn::Write { data, .. } => data,
            Txn::Read { data, .. } => data,
        }
    }

    /// Whether the transport reported success.
    pub open spec fn t_ok(self) -> bool {
        match self {
            Txn::Write { ok, .. } => ok,
            Txn::Read { ok, .. } => ok,
        }
    }
}

/// A synchronous I2C transport: the capability the driver is built on.
///
/// Every call appends exactly one [`Txn`] to the log, whether or not it
/// succeeds, and a call's effect on the bus is no more than that one
/// transaction. The error type is opaque to the driver: it is only ever
/// propagated.
pub trait I2cBus: Sized {
    /// The transport's own bus-level error.
    type BusError;

    /// All transactions attempted so far, oldest first.
    ///
    /// The default stands in for transports outside verification,
    /// which keep no ghost log; every transport verified against this
    /// trait provides its own.
    open spec fn log(&self) -> Seq<Txn> {
        Seq::empty()
    }

    /// Write `bytes` to the device at `address` in one bus transaction.
    fn bus_write(&mut self, address: u8, bytes: &Vec<u8>) -> (r: Result<
        (),
        Self::BusError,
    >)
        ensures
            final(self).log() == old(self).log().push(
                Txn::Write { addr: address, data: bytes@, ok: r is Ok },
            ),
    ;

    /// Fill `buffer` from the device at `address` in one bus
    /// transaction. The buffer keeps its length; its final contents are
    /// whatever the transport delivered.
    fn bus_read(&mut self, address: u8, buffer: &mut Vec<u8>) -> (r: Result<
        (),
        Self::BusError,
    >)
        ensures
            final(buffer)@.len() == old(buffer)@.len(),
            final(self).log() == old(self).log().push(
                Txn::Read { addr: address, data: final(buffer)@, ok: r is Ok },
            ),
    ;
}

} // verus!
