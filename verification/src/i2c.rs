//! I2C follower (slave) driver: event-driven transaction assembly over a
//! modeled register block.
//!
//! An address-matched event begins a transaction; each data event delivers
//! one byte; a stop event ends the transaction and must re-arm
//! acknowledgment for the next one. Every event flag is level-triggered
//! and must be cleared by its documented sequence — the address flag by a
//! status read, the stop flag by a status read followed by a control
//! write — or the peripheral stalls the bus. One poll drains every event
//! pending at that moment.

use vstd::prelude::*;

verus! {

/// The I2C register block, modeled field-wise.
#[derive(Clone, Copy, PartialEq, Eq, Structural, Debug)]
pub struct I2cRegs {
    /// Peripheral enable.
    pub enabled: bool,
    /// The follower's own 7-bit address.
    pub own_address: u8,
    /// Acknowledge armed: the follower answers the next address match.
    pub ack: bool,
    /// Address-matched event flag.
    pub addr: bool,
    /// Data-available event flag.
    pub rxne: bool,
    /// Stop-detected event flag.
    pub stopf: bool,
    /// Receive data register.
    pub dr: u8,
}

impl I2cRegs {
    /// The block at hardware reset: disabled, nothing armed or pending.
    pub open spec fn spec_reset() -> I2cRegs {
        I2cRegs {
            enabled: false,
            own_address: 0,
            ack: false,
            addr: false,
            rxne: false,
            stopf: false,
            dr: 0,
        }
    }

    pub fn reset() -> (r: I2cRegs)
        ensures
            r == I2cRegs::spec_reset(),
    {
        I2cRegs {
            enabled: false,
            own_address: 0,
            ack: false,
            addr: false,
            rxne: false,
            stopf: false,
            dr: 0,
        }
    }

    /// The documented clear sequence for the address-matched flag:
    /// reading the status registers clears it.
    pub fn read_status_clear_addr(&mut self)
        ensures
            *final(self) == (I2cRegs { addr: false, ..*old(self) }),
    {
        self.addr = false;
    }

    /// Reads the data register, which clears the data-available flag.
    pub fn read_dr(&mut self) -> (b: u8)
        ensures
            b == old(self).dr,
            *final(self) == (I2cRegs { rxne: false, ..*old(self) }),
    {
        self.rxne = false;
        self.dr
    }

    /// The documented clear sequence for the stop-detected flag: a status
    /// read followed by a control write. The control write re-arms
    /// acknowledgment for the next transaction.
    pub fn clear_stop_and_rearm(&mut self)
        ensures
            *final(self) == (I2cRegs { stopf: false, ack: true, ..*old(self) }),
    {
        self.stopf = false;
        self.ack = true;
    }

    /// Wire side of the model: a leader addresses this follower. The
    /// match is acknowledged only while the peripheral is enabled and
    /// acknowledgment is armed.
    pub fn sim_address_match(&mut self) -> (acked: bool)
        ensures
            old(self).enabled && old(self).ack ==> acked && *final(self) == (I2cRegs {
                addr: true,
                ..*old(self)
            }),
            !(old(self).enabled && old(self).ack) ==> !acked && *final(self) == *old(self),
    {
        if self.enabled && self.ack {
            self.addr = true;
            true
        } else {
            false
        }
    }

    /// Wire side of the model: one data byte arrives. While the previous
    /// byte is still unread the follower stretches the clock, so the new
    /// byte stays on the wire; the delivery reports whether it landed.
    pub fn sim_receive(&mut self, b: u8) -> (delivered: bool)
        ensures
            old(self).enabled && !old(self).rxne ==> delivered && *final(self) == (I2cRegs {
                rxne: true,
                dr: b,
                ..*old(self)
            }),
            !(old(self).enabled && !old(self).rxne) ==> !delivered && *final(self) == *old(self),
    {
        if self.enabled && !self.rxne {
            self.dr = b;
            self.rxne = true;
            true
        } else {
            false
        }
    }

    /// Wire side of the model: the leader signals a stop. Hardware drops
    /// the acknowledge arming at the end of a transaction; software must
    /// re-arm it while clearing the flag.
    pub fn sim_stop(&mut self)
        ensures
            old(self).enabled ==> *final(self) == (I2cRegs {
                stopf: true,
                ack: false,
                ..*old(self)
            }),
            !old(self).enabled ==> *final(self) == *old(self),
    {
        if self.enabled {
            self.stopf = true;
            self.ack = false;
        }
    }
}

/// One completed follower transaction: the bytes received between an
/// address match and the stop that ended it.
pub struct Transaction {
    pub bytes: Vec<u8>,
}

/// The follower driver: the owned register block plus the transaction
/// being assembled.
pub struct Follower {
    /// The owned register block; its `sim_*` methods are the wire side.
    pub regs: I2cRegs,
    /// Whether an address match has opened a transaction that no stop has
    /// closed yet.
    pub active: bool,
    /// Bytes of the transaction in progress.
    pub buf: Vec<u8>,
}

impl Follower {
    /// Takes ownership of the I2C block, programs the follower's own
    /// address, arms acknowledgment and enables the peripheral.
    pub fn new(regs: I2cRegs, address: u8) -> (r: Follower)
        requires
            address < 128,
        ensures
            r.regs == (I2cRegs { enabled: true, own_address: address, ack: true, ..regs }),
            !r.active,
            r.buf@ == Seq::<u8>::empty(),
    {
        let mut out = regs;
        out.enabled = true;
        out.own_address = address;
        out.ack = true;
        Follower { regs: out, active: false, buf: Vec::new() }
    }

    /// Drains every event pending on the block, in bus order: an address
    /// match opens a transaction, a data event appends one byte to it, a
    /// stop closes it, re-arms acknowledgment and yields the completed
    /// transaction. Each flag is cleared by its documented sequence.
    pub fn poll(&mut self) -> (r: Option<Transaction>)
        ensures
            ({
                let s0 = old(self).regs;
                let began = s0.addr;
                let active1 = began || old(self).active;
                let buf1 = if began {
                    Seq::<u8>::empty()
                } else {
                    old(self).buf@
                };
                let buf2 = if s0.rxne && active1 {
                    buf1.push(s0.dr)
                } else {
                    buf1
                };
                let ended = s0.stopf;
                &&& !final(self).regs.addr
                &&& !final(self).regs.rxne
                &&& !final(self).regs.stopf
                &&& final(self).regs.enabled == s0.enabled
                &&& final(self).regs.own_address == s0.own_address
                &&& ended ==> final(self).regs.ack
                &&& !ended ==> final(self).regs.ack == s0.ack
                &&& if ended && active1 {
                    &&& !final(self).active
                    &&& final(self).buf@ == Seq::<u8>::empty()
                    &&& r matches Some(t) && t.bytes@ == buf2
                } else {
                    &&& final(self).active == active1
                    &&& final(self).buf@ == buf2
                    &&& r is None
                }
            }),
    {
        if self.regs.addr {
            self.regs.read_status_clear_addr();
            self.active = true;
            self.buf = Vec::new();
        }
        if self.regs.rxne {
            let b = self.regs.read_dr();
            if self.active {
                self.buf.push(b);
            }
        }
        if self.regs.stopf {
            self.regs.clear_stop_and_rearm();
            if self.active {
                self.active = false;
                let mut bytes: Vec<u8> = Vec::new();
                core::mem::swap(&mut bytes, &mut self.buf);
                return Some(Transaction { bytes });
            }
        }
        None
    }

    /// Releases the hardware: hands the register block back.
    pub fn release(self) -> (r: I2cRegs)
        ensures
            r == self.regs,
    {
        self.regs
    }
}

} // verus!
