//! USART driver: poll-based byte transmit and receive over a modeled
//! register block.
//!
//! The register block behaves as the hardware does after each access has
//! settled; the `sim_*` methods are its wire side, through which a test
//! bench delivers incoming bytes and collects outgoing ones. The driver
//! surfaces receive faults (overrun, framing, parity) distinctly from
//! "no data yet", and clears the underlying fault flag as part of
//! reporting it, so the hardware does not keep re-raising the same fault.

use vstd::prelude::*;
use crate::Poll;
use crate::gpio::{AlternateFunction, Pin};
use crate::rcc::Clocks;

verus! {

/// The USART register block, modeled field-wise.
#[derive(Clone, Copy, PartialEq, Eq, Structural, Debug)]
pub struct UsartRegs {
    /// Peripheral enable.
    pub enabled: bool,
    /// Baud-rate divider: bus clock divided by this gives the baud rate.
    pub brr: u32,
    /// Receive buffer not empty.
    pub rxne: bool,
    /// Transmit data register empty.
    pub txe: bool,
    /// Transmission complete.
    pub tc: bool,
    /// Overrun fault: a byte arrived while the previous one was unread.
    pub ore: bool,
    /// Framing fault.
    pub fe: bool,
    /// Parity fault.
    pub pe: bool,
    /// Receive data register.
    pub rdr: u8,
    /// Transmit data register.
    pub tdr: u8,
}

impl UsartRegs {
    /// The block at hardware reset: disabled, transmit path idle.
    pub open spec fn spec_reset() -> UsartRegs {
        UsartRegs {
            enabled: false,
            brr: 0,
            rxne: false,
            txe: true,
            tc: true,
            ore: false,
            fe: false,
            pe: false,
            rdr: 0,
            tdr: 0,
        }
    }

    pub fn reset() -> (r: UsartRegs)
        ensures
            r == UsartRegs::spec_reset(),
    {
        UsartRegs {
            enabled: false,
            brr: 0,
            rxne: false,
            txe: true,
            tc: true,
            ore: false,
            fe: false,
            pe: false,
            rdr: 0,
            tdr: 0,
        }
    }

    /// Wire side of the model: a byte arrives from the line. If the
    /// previous byte is still unread, the new byte is lost and the
    /// overrun flag is raised instead, exactly as the hardware does.
    pub fn sim_receive(&mut self, b: u8)
        ensures
            old(self).enabled && !old(self).rxne ==> *final(self) == (UsartRegs {
                rxne: true,
                rdr: b,
                ..*old(self)
            }),
            old(self).enabled && old(self).rxne ==> *final(self) == (UsartRegs {
                ore: true,
                ..*old(self)
            }),
            !old(self).enabled ==> *final(self) == *old(self),
    {
        if self.enabled {
            if self.rxne {
                self.ore = true;
            } else {
                self.rdr = b;
                self.rxne = true;
            }
        }
    }

    /// Wire side of the model: the line takes the staged byte out of the
    /// transmit register, leaving the transmit path idle.
    pub fn sim_take_transmitted(&mut self) -> (r: Option<u8>)
        ensures
            old(self).enabled && !old(self).txe ==> r == Some(old(self).tdr) && *final(self) == (
            UsartRegs { txe: true, tc: true, ..*old(self) }),
            !(old(self).enabled && !old(self).txe) ==> r is None && *final(self) == *old(self),
    {
        if self.enabled && !self.txe {
            self.txe = true;
            self.tc = true;
            Some(self.tdr)
        } else {
            None
        }
    }

    /// Wire side of the model: a byte with a framing defect was seen on
    /// the line.
    pub fn sim_inject_framing(&mut self)
        ensures
            *final(self) == (UsartRegs { fe: true, ..*old(self) }),
    {
        self.fe = true;
    }

    /// Wire side of the model: a byte with a parity defect was seen on
    /// the line.
    pub fn sim_inject_parity(&mut self)
        ensures
            *final(self) == (UsartRegs { pe: true, ..*old(self) }),
    {
        self.pe = true;
    }
}

/// A receive fault, always reported distinctly from "no data yet".
#[derive(Clone, Copy, PartialEq, Eq, Structural, Debug)]
pub enum SerialFault {
    /// A byte arrived while the previous one was unread; the newer byte
    /// was lost.
    Overrun,
    /// A byte with a framing defect was received.
    Framing,
    /// A byte with a parity defect was received.
    Parity,
}

/// Why a serial configuration was rejected at construction.
#[derive(Clone, Copy, PartialEq, Eq, Structural, Debug)]
pub enum SerialConfigError {
    /// No divider of the bus clock yields the requested baud rate: the
    /// rate is zero, above the bus clock, or its divider overflows the
    /// divider register.
    UnreachableBaud,
}

/// Whether `baud` can be derived from the bus clock `pclk` by the 16-bit
/// baud-rate divider.
pub open spec fn baud_reachable(pclk: int, baud: int) -> bool {
    baud >= 1 && pclk / baud >= 1 && pclk / baud <= 0xFFFF
}

/// A serial port: the USART block plus the two alternate-function pins
/// routed to it. Construction programs the baud divider from the frozen
/// clock record, once.
pub struct Serial {
    /// The owned register block; its `sim_*` methods are the wire side.
    pub regs: UsartRegs,
    /// The transmit line, claimed by this port.
    pub tx: Pin<AlternateFunction>,
    /// The receive line, claimed by this port.
    pub rx: Pin<AlternateFunction>,
}

impl Serial {
    /// Takes ownership of the USART block and its pins, computes the
    /// baud-rate divider from the frozen bus clock and programs it, and
    /// enables the peripheral.
    ///
    /// A baud rate that no divider reaches is rejected before any
    /// register is touched.
    pub fn new(regs: UsartRegs, tx: Pin<AlternateFunction>, rx: Pin<AlternateFunction>, baud: u32, clocks: &Clocks) -> (r:
        Result<Serial, SerialConfigError>)
        ensures
            ({
                let pclk = clocks.spec_pclk() as int;
                &&& !baud_reachable(pclk, baud as int) ==> r == Err::<Serial, SerialConfigError>(
                    SerialConfigError::UnreachableBaud,
                )
                &&& baud_reachable(pclk, baud as int) ==> {
                    &&& r is Ok
                    &&& r matches Ok(s) ==> {
                        &&& s.regs == (UsartRegs {
                            enabled: true,
                            brr: (pclk / baud as int) as u32,
                            ..regs
                        })
                        &&& s.tx == tx
                        &&& s.rx == rx
                    }
                }
            }),
    {
        if baud == 0 {
            return Err(SerialConfigError::UnreachableBaud);
        }
        let div = clocks.pclk() / baud;
        if div == 0 || div > 0xFFFF {
            return Err(SerialConfigError::UnreachableBaud);
        }
        let mut out = regs;
        out.brr = div;
        out.enabled = true;
        Ok(Serial { regs: out, tx, rx })
    }

    /// Releases the hardware: decomposes the port back into its register
    /// block and pins.
    pub fn release(self) -> (r: (UsartRegs, Pin<AlternateFunction>, Pin<AlternateFunction>))
        ensures
            r.0 == self.regs,
            r.1 == self.tx,
            r.2 == self.rx,
    {
        (self.regs, self.tx, self.rx)
    }

    /// One receive poll. A pending byte is returned first; otherwise a
    /// pending fault is reported and its flag cleared, so that the next
    /// poll can proceed normally; otherwise the read would block.
    pub fn try_read(&mut self) -> (r: Poll<u8, SerialFault>)
        ensures
            final(self).tx == old(self).tx,
            final(self).rx == old(self).rx,
            ({
                let s0 = old(self).regs;
                &&& s0.rxne ==> r == Poll::<u8, SerialFault>::Ready(s0.rdr) && final(self).regs == (
                    UsartRegs { rxne: false, ..s0 })
                &&& !s0.rxne && s0.pe ==> r == Poll::<u8, SerialFault>::Fault(SerialFault::Parity)
                    && final(self).regs == (UsartRegs { pe: false, ..s0 })
                &&& !s0.rxne && !s0.pe && s0.fe ==> r == Poll::<u8, SerialFault>::Fault(
                    SerialFault::Framing,
                ) && final(self).regs == (UsartRegs { fe: false, ..s0 })
                &&& !s0.rxne && !s0.pe && !s0.fe && s0.ore ==> r == Poll::<u8, SerialFault>::Fault(
                    SerialFault::Overrun,
                ) && final(self).regs == (UsartRegs { ore: false, ..s0 })
                &&& !s0.rxne && !s0.pe && !s0.fe && !s0.ore ==> r is Pending && final(self).regs
                    == s0
            }),
    {
        if self.regs.rxne {
            let b = self.regs.rdr;
            self.regs.rxne = false;
            Poll::Ready(b)
        } else if self.regs.pe {
            self.regs.pe = false;
            Poll::Fault(SerialFault::Parity)
        } else if self.regs.fe {
            self.regs.fe = false;
            Poll::Fault(SerialFault::Framing)
        } else if self.regs.ore {
            self.regs.ore = false;
            Poll::Fault(SerialFault::Overrun)
        } else {
            Poll::Pending
        }
    }

    /// One transmit poll: stages `b` if the transmit register is empty,
    /// otherwise the write would block.
    pub fn try_write(&mut self, b: u8) -> (r: Poll<(), SerialFault>)
        ensures
            final(self).tx == old(self).tx,
            final(self).rx == old(self).rx,
            ({
                let s0 = old(self).regs;
                &&& s0.txe ==> r is Ready && final(self).regs == (UsartRegs {
                    txe: false,
                    tc: false,
                    tdr: b,
                    ..s0
                })
                &&& !s0.txe ==> r is Pending && final(self).regs == s0
            }),
    {
        if self.regs.txe {
            self.regs.tdr = b;
            self.regs.txe = false;
            self.regs.tc = false;
            Poll::Ready(())
        } else {
            Poll::Pending
        }
    }

    /// Whether every staged byte has left the shift register.
    pub fn is_transmission_complete(&self) -> (r: bool)
        ensures
            r == self.regs.tc,
    {
        self.regs.tc
    }

    /// Spin-polls the receive side until it yields a conclusive outcome,
    /// for at most `attempts` polls. The busy-wait yields to no other
    /// task; the bounded budget is the caller's explicit choice.
    pub fn read_with_budget(&mut self, attempts: u32) -> (r: Poll<u8, SerialFault>)
        ensures
            final(self).tx == old(self).tx,
            final(self).rx == old(self).rx,
            attempts == 0 ==> r is Pending && *final(self) == *old(self),
            ({
                let s0 = old(self).regs;
                attempts > 0 ==> {
                    &&& s0.rxne ==> r == Poll::<u8, SerialFault>::Ready(s0.rdr) && final(self).regs == (UsartRegs { rxne: false, ..s0 })
                    &&& !s0.rxne && s0.pe ==> r == Poll::<u8, SerialFault>::Fault(
                        SerialFault::Parity,
                    ) && final(self).regs == (UsartRegs { pe: false, ..s0 })
                    &&& !s0.rxne && !s0.pe && s0.fe ==> r == Poll::<u8, SerialFault>::Fault(
                        SerialFault::Framing,
                    ) && final(self).regs == (UsartRegs { fe: false, ..s0 })
                    &&& !s0.rxne && !s0.pe && !s0.fe && s0.ore ==> r == Poll::<
                        u8,
                        SerialFault,
                    >::Fault(SerialFault::Overrun) && final(self).regs == (UsartRegs {
                        ore: false,
                        ..s0
                    })
                    &&& !s0.rxne && !s0.pe && !s0.fe && !s0.ore ==> r is Pending && final(self).regs == s0
                }
            }),
    {
        let mut i: u32 = 0;
        while i < attempts
            invariant
                i <= attempts,
                *self == *old(self),
                i != 0 ==> !self.regs.rxne && !self.regs.pe && !self.regs.fe && !self.regs.ore,
            decreases attempts - i,
        {
            let outcome = self.try_read();
            match outcome {
                Poll::Pending => {
                    i = i + 1;
                },
                _ => {
                    return outcome;
                },
            }
        }
        Poll::Pending
    }

    /// Spin-polls the transmit side until `b` is staged, for at most
    /// `attempts` polls.
    pub fn write_with_budget(&mut self, b: u8, attempts: u32) -> (r: Poll<(), SerialFault>)
        ensures
            final(self).tx == old(self).tx,
            final(self).rx == old(self).rx,
            attempts == 0 ==> r is Pending && *final(self) == *old(self),
            ({
                let s0 = old(self).regs;
                attempts > 0 ==> {
                    &&& s0.txe ==> r is Ready && final(self).regs == (UsartRegs {
                        txe: false,
                        tc: false,
                        tdr: b,
                        ..s0
                    })
                    &&& !s0.txe ==> r is Pending && final(self).regs == s0
                }
            }),
    {
        let mut i: u32 = 0;
        while i < attempts
            invariant
                i <= attempts,
                *self == *old(self),
                i != 0 ==> !self.regs.txe,
            decreases attempts - i,
        {
            let outcome = self.try_write(b);
            match outcome {
                Poll::Pending => {
                    i = i + 1;
                },
                _ => {
                    return outcome;
                },
            }
        }
        Poll::Pending
    }
}

} // verus!
