//! System bring-up facade: one call that captures the peripheral set,
//! freezes the clock tree for a chosen preset and splits the GPIO ports.
//!
//! The presets cover the common frequency profiles — low power, default,
//! mid and maximum speed — as shortcuts over the general clock-tree
//! builder.

use vstd::prelude::*;
use crate::gpio;
use crate::pac::Chip;
use crate::rcc::{sys_reachable, ClockError, ClockTreeRequest, HSIFreq, Rcc};

verus! {

/// A system-clock configuration: the oscillator speed to select and the
/// system-clock target in megahertz.
#[derive(Clone, Copy, Debug)]
pub struct SystemClockConfig {
    /// The internal-oscillator speed to run from.
    pub hsi_freq: HSIFreq,
    /// The system-clock target in megahertz.
    pub sysclk_mhz: u32,
}

impl Default for SystemClockConfig {
    /// The default profile: the oscillator at 8 MHz, undivided.
    fn default() -> (r: SystemClockConfig)
        ensures
            r.hsi_freq == HSIFreq::Freq8mhz,
            r.sysclk_mhz == 8,
    {
        SystemClockConfig { hsi_freq: HSIFreq::Freq8mhz, sysclk_mhz: 8 }
    }
}

impl SystemClockConfig {
    /// The configuration's system-clock target in hertz.
    pub open spec fn spec_target_hz(self) -> int {
        self.sysclk_mhz * 1_000_000
    }
}

/// Why system bring-up failed.
#[derive(Clone, Copy, PartialEq, Eq, Structural, Debug)]
pub enum InitError {
    /// The peripheral set was already captured by an earlier bring-up.
    AlreadyTaken,
    /// The clock tree rejected the requested configuration.
    Clock(ClockError),
}

/// The brought-up system: the frozen clock controller and the split GPIO
/// ports, ready for drivers to claim.
pub struct SystemInit {
    /// The frozen clock controller with the resolved frequency record.
    pub rcc: Rcc,
    /// GPIO port A, split into pins.
    pub gpioa: gpio::Parts,
    /// GPIO port B, split into pins.
    pub gpiob: gpio::Parts,
}

impl SystemInit {
    /// Brings the system up with the default profile (8 MHz).
    pub fn init(chip: &mut Chip) -> (r: Result<SystemInit, InitError>)
        ensures
            old(chip).spec_taken() ==> r is Err && *final(chip) == *old(chip),
            !old(chip).spec_taken() ==> ({
                &&& final(chip).spec_taken()
                &&& r matches Ok(s) && s.rcc.clocks.spec_sysclk() == 8_000_000
                    && s.rcc.clocks.spec_pclk() == 8_000_000 && s.gpioa.spec_numbered()
                    && s.gpiob.spec_numbered()
            }),
    {
        Self::init_with_config(chip, Default::default())
    }

    /// Brings the system up at the maximum speed profile (24 MHz).
    pub fn init_24mhz(chip: &mut Chip) -> (r: Result<SystemInit, InitError>)
        ensures
            old(chip).spec_taken() ==> r is Err && *final(chip) == *old(chip),
            !old(chip).spec_taken() ==> ({
                &&& final(chip).spec_taken()
                &&& r matches Ok(s) && s.rcc.clocks.spec_sysclk() == 24_000_000
                    && s.rcc.clocks.spec_pclk() == 24_000_000 && s.gpioa.spec_numbered()
                    && s.gpiob.spec_numbered()
            }),
    {
        Self::init_with_config(
            chip,
            SystemClockConfig { hsi_freq: HSIFreq::Freq24mhz, sysclk_mhz: 24 },
        )
    }

    /// Brings the system up at the mid-speed profile (16 MHz).
    pub fn init_16mhz(chip: &mut Chip) -> (r: Result<SystemInit, InitError>)
        ensures
            old(chip).spec_taken() ==> r is Err && *final(chip) == *old(chip),
            !old(chip).spec_taken() ==> ({
                &&& final(chip).spec_taken()
                &&& r matches Ok(s) && s.rcc.clocks.spec_sysclk() == 16_000_000
                    && s.rcc.clocks.spec_pclk() == 16_000_000 && s.gpioa.spec_numbered()
                    && s.gpiob.spec_numbered()
            }),
    {
        Self::init_with_config(
            chip,
            SystemClockConfig { hsi_freq: HSIFreq::Freq16mhz, sysclk_mhz: 16 },
        )
    }

    /// Brings the system up at the low-power profile (4 MHz).
    pub fn init_4mhz(chip: &mut Chip) -> (r: Result<SystemInit, InitError>)
        ensures
            old(chip).spec_taken() ==> r is Err && *final(chip) == *old(chip),
            !old(chip).spec_taken() ==> ({
                &&& final(chip).spec_taken()
                &&& r matches Ok(s) && s.rcc.clocks.spec_sysclk() == 4_000_000
                    && s.rcc.clocks.spec_pclk() == 4_000_000 && s.gpioa.spec_numbered()
                    && s.gpiob.spec_numbered()
            }),
    {
        Self::init_with_config(
            chip,
            SystemClockConfig { hsi_freq: HSIFreq::Freq4mhz, sysclk_mhz: 4 },
        )
    }

    /// Brings the system up with a caller-chosen clock configuration:
    /// captures the peripheral set once, freezes the clock tree at the
    /// requested frequency and splits both GPIO ports.
    ///
    /// An already-captured peripheral set is reported without touching
    /// anything. A target not exactly reachable from the chosen
    /// oscillator is reported as a clock configuration error; the
    /// peripheral set is consumed, as bring-up is a one-time sequence.
    pub fn init_with_config(chip: &mut Chip, clock_config: SystemClockConfig) -> (r: Result<
        SystemInit,
        InitError,
    >)
        ensures
            old(chip).spec_taken() ==> r == Err::<SystemInit, InitError>(InitError::AlreadyTaken)
                && *final(chip) == *old(chip),
            !old(chip).spec_taken() ==> final(chip).spec_taken() && {
                let osc = clock_config.hsi_freq.spec_hz() as int;
                let target = clock_config.spec_target_hz();
                if sys_reachable(osc, target) {
                    r matches Ok(s) && {
                        &&& s.rcc.clocks.spec_sysclk() as int == target
                        &&& s.rcc.clocks.spec_pclk() as int == target
                        &&& s.rcc.regs.hsi_on
                        &&& s.rcc.regs.hsi_fs == clock_config.hsi_freq.spec_fs()
                        &&& s.gpioa.spec_numbered()
                        &&& s.gpioa.regs == gpio::PortRegs::spec_reset()
                        &&& s.gpiob.spec_numbered()
                        &&& s.gpiob.regs == gpio::PortRegs::spec_reset()
                    }
                } else {
                    r == Err::<SystemInit, InitError>(
                        InitError::Clock(ClockError::UnreachableSysclk),
                    )
                }
            },
    {
        let mut p = match chip.take() {
            Some(p) => p,
            None => {
                return Err(InitError::AlreadyTaken);
            },
        };
        let target = match clock_config.sysclk_mhz.checked_mul(1_000_000) {
            Some(t) => t,
            None => {
                // An overflowing target is far above every oscillator
                // speed, so no divider reaches it.
                return Err(InitError::Clock(ClockError::UnreachableSysclk));
            },
        };
        let request = ClockTreeRequest::new().hsi(clock_config.hsi_freq).sysclk(target);
        let clocks = match request.freeze(&mut p.rcc, &mut p.flash) {
            Ok(c) => c,
            Err(e) => {
                return Err(InitError::Clock(e));
            },
        };
        let rcc = Rcc { regs: p.rcc, clocks };
        let gpioa = p.gpioa.split();
        let gpiob = p.gpiob.split();
        Ok(SystemInit { rcc, gpioa, gpiob })
    }
}

} // verus!
