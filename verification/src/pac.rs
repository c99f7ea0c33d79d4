//! Peripheral access: the full register file and its one-time ownership
//! capture.
//!
//! Each physical peripheral block may have at most one live owning handle.
//! The capture state starts "untaken"; the first `take` hands out the
//! whole register file in its reset state and flips the state, and every
//! later attempt observes the captured state and fails explicitly instead
//! of aliasing hardware access.

use vstd::prelude::*;
use crate::gpio::PortRegs;
use crate::i2c::I2cRegs;
use crate::rcc::{FlashRegs, RccRegs};
use crate::serial::UsartRegs;
use crate::timer::TimRegs;

verus! {

/// The device's register file: every peripheral block this model knows.
pub struct Peripherals {
    /// Clock controller.
    pub rcc: RccRegs,
    /// Flash interface.
    pub flash: FlashRegs,
    /// GPIO port A.
    pub gpioa: PortRegs,
    /// GPIO port B.
    pub gpiob: PortRegs,
    /// First USART block.
    pub usart1: UsartRegs,
    /// Second USART block.
    pub usart2: UsartRegs,
    /// I2C block.
    pub i2c: I2cRegs,
    /// General-purpose timer block.
    pub tim: TimRegs,
}

impl Peripherals {
    /// The whole register file at hardware reset.
    pub open spec fn spec_reset() -> Peripherals {
        Peripherals {
            rcc: RccRegs::spec_reset(),
            flash: FlashRegs::spec_reset(),
            gpioa: PortRegs::spec_reset(),
            gpiob: PortRegs::spec_reset(),
            usart1: UsartRegs::spec_reset(),
            usart2: UsartRegs::spec_reset(),
            i2c: I2cRegs::spec_reset(),
            tim: TimRegs::spec_reset(),
        }
    }
}

/// The one-time ownership capture of the peripheral set.
pub struct Chip {
    taken: bool,
}

impl Chip {
    /// Whether the peripheral set has already been handed out.
    pub closed spec fn spec_taken(self) -> bool {
        self.taken
    }

    /// A fresh device: the peripheral set is still available.
    pub fn new() -> (r: Chip)
        ensures
            !r.spec_taken(),
    {
        Chip { taken: false }
    }

    /// Captures the peripheral set. The first call returns the whole
    /// register file in its reset state; every later call observes the
    /// captured state and fails without corrupting it.
    pub fn take(&mut self) -> (r: Option<Peripherals>)
        ensures
            old(self).spec_taken() ==> r is None && *final(self) == *old(self),
            !old(self).spec_taken() ==> {
                &&& final(self).spec_taken()
                &&& r matches Some(p) && p == Peripherals::spec_reset()
            },
    {
        if self.taken {
            None
        } else {
            self.taken = true;
            Some(
                Peripherals {
                    rcc: RccRegs::reset(),
                    flash: FlashRegs::reset(),
                    gpioa: PortRegs::reset(),
                    gpiob: PortRegs::reset(),
                    usart1: UsartRegs::reset(),
                    usart2: UsartRegs::reset(),
                    i2c: I2cRegs::reset(),
                    tim: TimRegs::reset(),
                },
            )
        }
    }
}

} // verus!
