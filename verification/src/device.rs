//! The device driver: register map, operations surface, and the two
//! chip variants.
//!
//! Every operation's contract is stated over the transport's
//! transaction log ([`crate::bus::Txn`]): it pins down exactly which
//! bytes the operation puts on the bus, for success and for every
//! failure point. A failed transaction is never followed by another
//! one within the same operation — in particular, when the read phase
//! of the read-modify-write [`PCA963X::write_out`] fails, no write is
//! issued.

use vstd::prelude::*;

use crate::bus::{I2cBus, Txn};
use crate::channels::{Channels, Channels4, Channels8, LedOut};
use crate::config::Config;
use crate::address::Address;

verus! {

/// Control byte high bits selecting the chip's auto-increment-all
/// addressing mode: the data bytes of one bus write land in
/// consecutive registers.
pub const AUTOINCR_ALL: u8 = 0b1000_0000;

/// A device variant's table of register addresses.
#[derive(Copy, Clone, Debug, PartialEq, Eq, Structural)]
pub struct RegMap {
    /// MODE1 register.
    pub mode1: u8,
    /// MODE2 register.
    pub mode2: u8,
    /// First per-channel PWM duty register; one register per channel
    /// follows.
    pub pwm0: u8,
    /// Group PWM duty register.
    pub grppwm: u8,
    /// Group frequency register.
    pub grpfreq: u8,
    /// First LED-output register; each packs four channels at two bits
    /// each.
    pub ledout1: u8,
    /// Sub-address 1 register.
    pub subadr1: u8,
    /// Sub-address 2 register.
    pub subadr2: u8,
    /// Sub-address 3 register.
    pub subadr3: u8,
    /// All-call address register.
    pub allcalladr: u8,
}

/// The bit position of a channel's two-bit field within its LED-output
/// register.
pub open spec fn ledout_shift(offs: u8) -> u8 {
    ((offs % 4) * 2) as u8
}

/// An LED-output register byte after the two-bit field of the channel
/// at `offs` is cleared and replaced by `code`.
pub open spec fn ledout_field_update(oldv: u8, offs: u8, code: u8) -> u8 {
    (oldv & !(3u8 << ledout_shift(offs))) | (code << ledout_shift(offs))
}

/// The log after a successful register read: a one-byte write selecting
/// the register, then a one-byte read that returned `value`.
pub open spec fn read_txns_ok(pre: Seq<Txn>, a: u8, register: u8, value: u8) -> Seq<Txn> {
    pre.push(Txn::Write { addr: a, data: seq![register], ok: true }).push(
        Txn::Read { addr: a, data: seq![value], ok: true },
    )
}

/// The log shapes a failed register read leaves behind: either the
/// register-select write failed and nothing followed it, or the select
/// write succeeded and the one-byte read failed. Nothing is ever
/// attempted after the failing transaction.
pub open spec fn read_err_shape(pre: Seq<Txn>, post: Seq<Txn>, a: u8, register: u8) -> bool {
    ||| post == pre.push(Txn::Write { addr: a, data: seq![register], ok: false })
    ||| {
        &&& post.len() == pre.len() + 2
        &&& post.subrange(0, pre.len() as int) == pre
        &&& post[pre.len() as int] == Txn::Write { addr: a, data: seq![register], ok: true }
        &&& post.last() is Read
        &&& post.last().t_addr() == a
        &&& !post.last().t_ok()
        &&& post.last().t_data().len() == 1
    }
}

/// The log a read-modify-write of an LED-output register leaves behind.
///
/// On success it is exactly: the select write of `reg`, a one-byte read
/// of the current register value, and a write of `reg` with that value's
/// two-bit field at `offs` replaced by `code`. On failure the same
/// sequence is cut short at the failing transaction: a failed select
/// write or a failed read is never followed by a write.
pub open spec fn write_out_shape(
    pre: Seq<Txn>,
    post: Seq<Txn>,
    a: u8,
    reg: u8,
    offs: u8,
    code: u8,
    ok: bool,
) -> bool {
    if ok {
        &&& post.len() == pre.len() + 3
        &&& post.subrange(0, pre.len() as int) == pre
        &&& post[pre.len() as int] == Txn::Write { addr: a, data: seq![reg], ok: true }
        &&& post[pre.len() as int + 1] is Read
        &&& post[pre.len() as int + 1].t_addr() == a
        &&& post[pre.len() as int + 1].t_ok()
        &&& post[pre.len() as int + 1].t_data().len() == 1
        &&& post[pre.len() as int + 2] == Txn::Write {
            addr: a,
            data: seq![reg, ledout_field_update(post[pre.len() as int + 1].t_data()[0], offs, code)],
            ok: true,
        }
    } else {
        ||| read_err_shape(pre, post, a, reg)
        ||| {
            &&& post.len() == pre.len() + 3
            &&& post.subrange(0, pre.len() as int) == pre
            &&& post[pre.len() as int] == Txn::Write { addr: a, data: seq![reg], ok: true }
            &&& post[pre.len() as int + 1] is Read
            &&& post[pre.len() as int + 1].t_addr() == a
            &&& post[pre.len() as int + 1].t_ok()
            &&& post[pre.len() as int + 1].t_data().len() == 1
            &&& post[pre.len() as int + 2] == Txn::Write {
                addr: a,
                data: seq![reg, ledout_field_update(post[pre.len() as int + 1].t_data()[0], offs, code)],
                ok: false,
            }
        }
    }
}

/// The operations surface shared by the chip variants: register-level
/// reads and writes addressed through the variant's [`RegMap`] and
/// channel set, over a transport `B`.
pub trait PCA963X<B: I2cBus>: Sized {
    /// The variant's channel identifiers.
    type Channels: Channels;

    /// The variant's register addresses.
    spec fn spec_regs() -> RegMap;

    /// How many channels the variant drives.
    spec fn spec_channel_count() -> u8;

    /// The resolved bus address the device was constructed with.
    spec fn spec_address(&self) -> u8;

    /// The transaction log of the owned transport.
    spec fn bus_log(&self) -> Seq<Txn>;

    /// Every channel offset is in range and the per-channel register
    /// addresses derived from it stay within the byte register space.
    proof fn lemma_device_wf(ch: Self::Channels)
        ensures
            ch.spec_offs() < Self::spec_channel_count(),
            Self::spec_regs().pwm0 + ch.spec_offs() < 256,
            Self::spec_regs().ledout1 + ch.spec_offs() / 4 < 256,
    ;

    /// The variant's register addresses.
    fn regs() -> (m: RegMap)
        ensures
            m == Self::spec_regs(),
    ;

    /// Read a register
    fn read(&mut self, register: u8) -> (r: Result<u8, B::BusError>)
        ensures
            final(self).spec_address() == old(self).spec_address(),
            r matches Ok(v) ==> final(self).bus_log() == read_txns_ok(
                old(self).bus_log(),
                old(self).spec_address(),
                register,
                v,
            ),
            r is Err ==> read_err_shape(
                old(self).bus_log(),
                final(self).bus_log(),
                old(self).spec_address(),
                register,
            ),
    ;

    /// Write a register
    fn write(&mut self, register: u8, value: u8) -> (r: Result<(), B::BusError>)
        ensures
            final(self).spec_address() == old(self).spec_address(),
            final(self).bus_log() == old(self).bus_log().push(
                Txn::Write {
                    addr: old(self).spec_address(),
                    data: seq![register, value],
                    ok: r is Ok,
                },
            ),
    ;

    /// Write config: one auto-increment bus write that lands the two
    /// mode bytes in MODE1 then MODE2 within a single transaction.
    fn write_config(&mut self, conf: Config) -> (r: Result<(), B::BusError>)
        ensures
            final(self).spec_address() == old(self).spec_address(),
            final(self).bus_log() == old(self).bus_log().push(
                Txn::Write {
                    addr: old(self).spec_address(),
                    data: seq![
                        AUTOINCR_ALL | Self::spec_regs().mode1,
                        conf.spec_mode1(),
                        conf.spec_mode2(),
                    ],
                    ok: r is Ok,
                },
            ),
    ;

    /// Read a channel's PWM duty register.
    fn read_duty(&mut self, ch: Self::Channels) -> (r: Result<u8, B::BusError>)
        ensures
            final(self).spec_address() == old(self).spec_address(),
            r matches Ok(v) ==> final(self).bus_log() == read_txns_ok(
                old(self).bus_log(),
                old(self).spec_address(),
                (Self::spec_regs().pwm0 + ch.spec_offs()) as u8,
                v,
            ),
            r is Err ==> read_err_shape(
                old(self).bus_log(),
                final(self).bus_log(),
                old(self).spec_address(),
                (Self::spec_regs().pwm0 + ch.spec_offs()) as u8,
            ),
    {
        proof {
            Self::lemma_device_wf(ch);
        }
        let offs = ch.get_offs();
        let m = Self::regs();
        self.read(m.pwm0 + offs)
    }

    /// Write channel pwm
    fn write_duty(&mut self, ch: Self::Channels, value: u8) -> (r: Result<(), B::BusError>)
        ensures
            final(self).spec_address() == old(self).spec_address(),
            final(self).bus_log() == old(self).bus_log().push(
                Txn::Write {
                    addr: old(self).spec_address(),
                    data: seq![(Self::spec_regs().pwm0 + ch.spec_offs()) as u8, value],
                    ok: r is Ok,
                },
            ),
    {
        proof {
            Self::lemma_device_wf(ch);
        }
        let offs = ch.get_offs();
        let m = Self::regs();
        self.write(m.pwm0 + offs, value)
    }

    /// Write channel output mode: read the LED-output register covering
    /// the channel, replace the channel's two-bit field, write it back.
    ///
    /// The read-modify-write spans two bus transactions and is not
    /// atomic; if the read fails, no write is attempted.
    fn write_out(&mut self, ch: Self::Channels, out: LedOut) -> (r: Result<(), B::BusError>)
        ensures
            final(self).spec_address() == old(self).spec_address(),
            write_out_shape(
                old(self).bus_log(),
                final(self).bus_log(),
                old(self).spec_address(),
                (Self::spec_regs().ledout1 + ch.spec_offs() / 4) as u8,
                ch.spec_offs(),
                out.spec_code(),
                r is Ok,
            ),
    {
        proof {
            Self::lemma_device_wf(ch);
        }
        let offs = ch.get_offs();
        let m = Self::regs();
        let reg = m.ledout1 + offs / 4;
        let shift = (offs % 4) * 2;
        let cur = match self.read(reg) {
            Ok(v) => v,
            Err(e) => {
                return Err(e);
            },
        };
        let newv = (cur & !(3u8 << shift)) | (out.code() << shift);
        proof {
            assert(shift == ledout_shift(offs));
            assert(newv == ledout_field_update(cur, offs, out.spec_code()));
        }
        let res = self.write(reg, newv);
        proof {
            let a0 = old(self).spec_address();
            let pre = old(self).bus_log();
            let w1 = Txn::Write { addr: a0, data: seq![reg], ok: true };
            let rd = Txn::Read { addr: a0, data: seq![cur], ok: true };
            let w2 = Txn::Write { addr: a0, data: seq![reg, newv], ok: res is Ok };
            let post = self.bus_log();
            assert(post == pre.push(w1).push(rd).push(w2));
            assert(post.len() == pre.len() + 3);
            assert(post[pre.len() as int] == w1);
            assert(post[pre.len() as int + 1] == rd);
            assert(post[pre.len() as int + 2] == w2);
            assert(post.subrange(0, pre.len() as int) =~= pre);
            assert(rd.t_data() == seq![cur]);
        }
        res
    }

    /// Write group duty cycle
    fn write_group_duty(&mut self, value: u8) -> (r: Result<(), B::BusError>)
        ensures
            final(self).spec_address() == old(self).spec_address(),
            final(self).bus_log() == old(self).bus_log().push(
                Txn::Write {
                    addr: old(self).spec_address(),
                    data: seq![Self::spec_regs().grppwm, value],
                    ok: r is Ok,
                },
            ),
    {
        let m = Self::regs();
        self.write(m.grppwm, value)
    }

    /// Write group frequency. Not used if `DmBlink` flag is not set in config.
    fn write_group_freq(&mut self, value: u8) -> (r: Result<(), B::BusError>)
        ensures
            final(self).spec_address() == old(self).spec_address(),
            final(self).bus_log() == old(self).bus_log().push(
                Txn::Write {
                    addr: old(self).spec_address(),
                    data: seq![Self::spec_regs().grpfreq, value],
                    ok: r is Ok,
                },
            ),
    {
        let m = Self::regs();
        self.write(m.grpfreq, value)
    }

    /// Write sub address 1. Requires `Sub1` flag in config to be set.
    fn write_sub_address1(&mut self, addr: u8) -> (r: Result<(), B::BusError>)
        ensures
            final(self).spec_address() == old(self).spec_address(),
            final(self).bus_log() == old(self).bus_log().push(
                Txn::Write {
                    addr: old(self).spec_address(),
                    data: seq![Self::spec_regs().subadr1, addr << 1],
                    ok: r is Ok,
                },
            ),
    {
        let m = Self::regs();
        self.write(m.subadr1, addr << 1)
    }

    /// Write sub address 2. Requires `Sub2` flag in config to be set.
    fn write_sub_address2(&mut self, addr: u8) -> (r: Result<(), B::BusError>)
        ensures
            final(self).spec_address() == old(self).spec_address(),
            final(self).bus_log() == old(self).bus_log().push(
                Txn::Write {
                    addr: old(self).spec_address(),
                    data: seq![Self::spec_regs().subadr2, addr << 1],
                    ok: r is Ok,
                },
            ),
    {
        let m = Self::regs();
        self.write(m.subadr2, addr << 1)
    }

    /// Write sub address 3. Requires `Sub3` flag in config to be set.
    fn write_sub_address3(&mut self, addr: u8) -> (r: Result<(), B::BusError>)
        ensures
            final(self).spec_address() == old(self).spec_address(),
            final(self).bus_log() == old(self).bus_log().push(
                Txn::Write {
                    addr: old(self).spec_address(),
                    data: seq![Self::spec_regs().subadr3, addr << 1],
                    ok: r is Ok,
                },
            ),
    {
        let m = Self::regs();
        self.write(m.subadr3, addr << 1)
    }

    /// Write all call address. Requires `AllCall` flag in config to be set.
    fn write_all_call_address1(&mut self, addr: u8) -> (r: Result<(), B::BusError>)
        ensures
            final(self).spec_address() == old(self).spec_address(),
            final(self).bus_log() == old(self).bus_log().push(
                Txn::Write {
                    addr: old(self).spec_address(),
                    data: seq![Self::spec_regs().allcalladr, addr << 1],
                    ok: r is Ok,
                },
            ),
    {
        let m = Self::regs();
        self.write(m.allcalladr, addr << 1)
    }
}

/// Select `register`, then read one byte back from it.
fn dev_read<B: I2cBus>(bus: &mut B, address: u8, register: u8) -> (r: Result<u8, B::BusError>)
    ensures
        r matches Ok(v) ==> final(bus).log() == read_txns_ok(old(bus).log(), address, register, v),
        r is Err ==> read_err_shape(old(bus).log(), final(bus).log(), address, register),
{
    let mut sel: Vec<u8> = Vec::new();
    sel.push(register);
    proof {
        assert(sel@ =~= seq![register]);
    }
    match bus.bus_write(address, &sel) {
        Ok(u) => u,
        Err(e) => {
            return Err(e);
        },
    };
    let mut buf: Vec<u8> = Vec::new();
    buf.push(0u8);
    match bus.bus_read(address, &mut buf) {
        Ok(u) => u,
        Err(e) => {
            proof {
                let pre = old(bus).log();
                let w1 = Txn::Write { addr: address, data: seq![register], ok: true };
                let rdf = Txn::Read { addr: address, data: buf@, ok: false };
                let post = bus.log();
                assert(post == pre.push(w1).push(rdf));
                assert(post.len() == pre.len() + 2);
                assert(post[pre.len() as int] == w1);
                assert(post.last() == rdf);
                assert(post.subrange(0, pre.len() as int) =~= pre);
                assert(buf@.len() == 1);
            }
            return Err(e);
        },
    };
    let v = buf[0];
    proof {
        assert(buf@ =~= seq![v]);
    }
    Ok(v)
}

/// Write `[register, value]` in one bus transaction.
fn dev_write<B: I2cBus>(bus: &mut B, address: u8, register: u8, value: u8) -> (r: Result<
    (),
    B::BusError,
>)
    ensures
        final(bus).log() == old(bus).log().push(
            Txn::Write { addr: address, data: seq![register, value], ok: r is Ok },
        ),
{
    let mut out: Vec<u8> = Vec::new();
    out.push(register);
    out.push(value);
    proof {
        assert(out@ =~= seq![register, value]);
    }
    bus.bus_write(address, &out)
}

/// Write both mode bytes in one auto-increment transaction starting at
/// MODE1.
fn dev_write_config<B: I2cBus>(bus: &mut B, address: u8, mode1_reg: u8, conf: Config) -> (r: Result<
    (),
    B::BusError,
>)
    ensures
        final(bus).log() == old(bus).log().push(
            Txn::Write {
                addr: address,
                data: seq![AUTOINCR_ALL | mode1_reg, conf.spec_mode1(), conf.spec_mode2()],
                ok: r is Ok,
            },
        ),
{
    let mut out: Vec<u8> = Vec::new();
    out.push(AUTOINCR_ALL | mode1_reg);
    out.push(conf.mode1_bits());
    out.push(conf.mode2_bits());
    proof {
        assert(out@ =~= seq![AUTOINCR_ALL | mode1_reg, conf.spec_mode1(), conf.spec_mode2()]);
    }
    bus.bus_write(address, &out)
}

/// The 4-channel chip variant, owning its transport and resolved
/// address.
pub struct PCA9633<B> {
    bus: B,
    address: u8,
}

impl<B: I2cBus> PCA963X<B> for PCA9633<B> {
    type Channels = Channels4;

    open spec fn spec_regs() -> RegMap {
        RegMap {
            mode1: 0x00,
            mode2: 0x01,
            pwm0: 0x02,
            grppwm: 0x06,
            grpfreq: 0x07,
            ledout1: 0x08,
            subadr1: 0x09,
            subadr2: 0x0A,
            subadr3: 0x0B,
            allcalladr: 0x0C,
        }
    }

    open spec fn spec_channel_count() -> u8 {
        4
    }

    closed spec fn spec_address(&self) -> u8 {
        self.address
    }

    closed spec fn bus_log(&self) -> Seq<Txn> {
        self.bus.log()
    }

    proof fn lemma_device_wf(ch: Channels4) {
        assert(Self::spec_channel_count() == 4);
        match ch {
            Channels4::_1 => assert(ch.spec_offs() == 0),
            Channels4::_2 => assert(ch.spec_offs() == 1),
            Channels4::_3 => assert(ch.spec_offs() == 2),
            Channels4::_4 => assert(ch.spec_offs() == 3),
        }
    }

    fn regs() -> RegMap {
        RegMap {
            mode1: 0x00,
            mode2: 0x01,
            pwm0: 0x02,
            grppwm: 0x06,
            grpfreq: 0x07,
            ledout1: 0x08,
            subadr1: 0x09,
            subadr2: 0x0A,
            subadr3: 0x0B,
            allcalladr: 0x0C,
        }
    }

    fn read(&mut self, register: u8) -> Result<u8, B::BusError> {
        dev_read(&mut self.bus, self.address, register)
    }

    fn write(&mut self, register: u8, value: u8) -> Result<(), B::BusError> {
        dev_write(&mut self.bus, self.address, register, value)
    }

    fn write_config(&mut self, conf: Config) -> Result<(), B::BusError> {
        dev_write_config(&mut self.bus, self.address, 0x00, conf)
    }
}

impl<B: I2cBus> PCA9633<B> {
    /// New LED driver
    ///
    /// *Note: Does not take driver out of __sleep__ mode*
    pub fn new(bus: B, address: Address) -> (d: Self)
        ensures
            d.spec_address() == address.spec_address(),
            d.bus_log() == bus.log(),
    {
        let a = address.address();
        PCA9633 { bus, address: a }
    }

    /// New LED driver, configured with one bus write during
    /// construction.
    pub fn new_config(bus: B, address: Address, conf: Config) -> (r: Result<Self, B::BusError>)
        ensures
            r matches Ok(d) ==> {
                &&& d.spec_address() == address.spec_address()
                &&& d.bus_log() == bus.log().push(
                    Txn::Write {
                        addr: address.spec_address(),
                        data: seq![
                            AUTOINCR_ALL | Self::spec_regs().mode1,
                            conf.spec_mode1(),
                            conf.spec_mode2(),
                        ],
                        ok: true,
                    },
                )
            },
    {
        let mut pca = Self::new(bus, address);
        match pca.write_config(conf) {
            Ok(u) => u,
            Err(e) => {
                return Err(e);
            },
        };
        Ok(pca)
    }

    /// Release the owned transport.
    pub fn free(self) -> (r: B)
        ensures
            r.log() == self.bus_log(),
    {
        self.bus
    }
}

/// The 8-channel chip variant, owning its transport and resolved
/// address.
pub struct PCA9634<B> {
    bus: B,
    address: u8,
}

impl<B: I2cBus> PCA963X<B> for PCA9634<B> {
    type Channels = Channels8;

    open spec fn spec_regs() -> RegMap {
        RegMap {
            mode1: 0x00,
            mode2: 0x01,
            pwm0: 0x02,
            grppwm: 0x0A,
            grpfreq: 0x0B,
            ledout1: 0x0C,
            subadr1: 0x0E,
            subadr2: 0x0F,
            subadr3: 0x10,
            allcalladr: 0x11,
        }
    }

    open spec fn spec_channel_count() -> u8 {
        8
    }

    closed spec fn spec_address(&self) -> u8 {
        self.address
    }

    closed spec fn bus_log(&self) -> Seq<Txn> {
        self.bus.log()
    }

    proof fn lemma_device_wf(ch: Channels8) {
        assert(Self::spec_channel_count() == 8);
        match ch {
            Channels8::_1 => assert(ch.spec_offs() == 0),
            Channels8::_2 => assert(ch.spec_offs() == 1),
            Channels8::_3 => assert(ch.spec_offs() == 2),
            Channels8::_4 => assert(ch.spec_offs() == 3),
            Channels8::_5 => assert(ch.spec_offs() == 4),
            Channels8::_6 => assert(ch.spec_offs() == 5),
            Channels8::_7 => assert(ch.spec_offs() == 6),
            Channels8::_8 => assert(ch.spec_offs() == 7),
        }
    }

    fn regs() -> RegMap {
        RegMap {
            mode1: 0x00,
            mode2: 0x01,
            pwm0: 0x02,
            grppwm: 0x0A,
            grpfreq: 0x0B,
            ledout1: 0x0C,
            subadr1: 0x0E,
            subadr2: 0x0F,
            subadr3: 0x10,
            allcalladr: 0x11,
        }
    }

    fn read(&mut self, register: u8) -> Result<u8, B::BusError> {
        dev_read(&mut self.bus, self.address, register)
    }

    fn write(&mut self, register: u8, value: u8) -> Result<(), B::BusError> {
        dev_write(&mut self.bus, self.address, register, value)
    }

    fn write_config(&mut self, conf: Config) -> Result<(), B::BusError> {
        dev_write_config(&mut self.bus, self.address, 0x00, conf)
    }
}

impl<B: I2cBus> PCA9634<B> {
    /// New LED driver
    ///
    /// *Note: Does not take driver out of __sleep__ mode*
    pub fn new(bus: B, address: Address) -> (d: Self)
        ensures
            d.spec_address() == address.spec_address(),
            d.bus_log() == bus.log(),
    {
        let a = address.address();
        PCA9634 { bus, address: a }
    }

    /// New LED driver, configured with one bus write during
    /// construction.
    pub fn new_config(bus: B, address: Address, conf: Config) -> (r: Result<Self, B::BusError>)
        ensures
            r matches Ok(d) ==> {
                &&& d.spec_address() == address.spec_address()
                &&& d.bus_log() == bus.log().push(
                    Txn::Write {
                        addr: address.spec_address(),
                        data: seq![
                            AUTOINCR_ALL | Self::spec_regs().mode1,
                            conf.spec_mode1(),
                            conf.spec_mode2(),
                        ],
                        ok: true,
                    },
                )
            },
    {
        let mut pca = Self::new(bus, address);
        match pca.write_config(conf) {
            Ok(u) => u,
            Err(e) => {
                return Err(e);
            },
        };
        Ok(pca)
    }

    /// Release the owned transport.
    pub fn free(self) -> (r: B)
        ensures
            r.log() == self.bus_log(),
    {
        self.bus
    }
}

} // verus!
