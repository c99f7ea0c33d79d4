//! Clock controller: oscillator selection, clock-tree validation and the
//! frozen [`Clocks`] record.
//!
//! The internal oscillator runs at one of a few fixed speeds; the system
//! clock is derived from it by a power-of-two divider, and the peripheral
//! bus clock from the system clock by a further power-of-two divider. A
//! [`ClockTreeRequest`] accumulates the wanted frequencies; `freeze`
//! validates them before touching any register, programs the controller,
//! and returns the immutable [`Clocks`] record that every frequency-
//! dependent driver is built from.

use vstd::prelude::*;

verus! {

/// Selectable speeds of the internal oscillator.
#[derive(Clone, Copy, PartialEq, Eq, Structural, Debug)]
pub enum HSIFreq {
    Freq4mhz,
    Freq8mhz,
    Freq16mhz,
    Freq24mhz,
}

impl HSIFreq {
    /// The oscillator frequency in hertz.
    pub open spec fn spec_hz(self) -> u32 {
        match self {
            HSIFreq::Freq4mhz => 4_000_000,
            HSIFreq::Freq8mhz => 8_000_000,
            HSIFreq::Freq16mhz => 16_000_000,
            HSIFreq::Freq24mhz => 24_000_000,
        }
    }

    /// The encoding of this speed in the oscillator calibration field.
    pub open spec fn spec_fs(self) -> u32 {
        match self {
            HSIFreq::Freq4mhz => 0,
            HSIFreq::Freq8mhz => 1,
            HSIFreq::Freq16mhz => 2,
            HSIFreq::Freq24mhz => 3,
        }
    }

    pub fn hz(self) -> (r: u32)
        ensures
            r == self.spec_hz(),
    {
        match self {
            HSIFreq::Freq4mhz => 4_000_000,
            HSIFreq::Freq8mhz => 8_000_000,
            HSIFreq::Freq16mhz => 16_000_000,
            HSIFreq::Freq24mhz => 24_000_000,
        }
    }

    pub fn fs(self) -> (r: u32)
        ensures
            r == self.spec_fs(),
    {
        match self {
            HSIFreq::Freq4mhz => 0,
            HSIFreq::Freq8mhz => 1,
            HSIFreq::Freq16mhz => 2,
            HSIFreq::Freq24mhz => 3,
        }
    }
}

/// The system-clock source selection that routes the divided oscillator to
/// the core.
pub const SW_HSISYS: u32 = 0;

/// The value the source-status field reports while the multiplexer has not
/// settled on any selection; it differs from every valid selection.
pub const SWS_STUCK: u32 = 7;

/// How many polls of a ready/status flag the driver spends before treating
/// the hardware as unresponsive.
pub const READY_BUDGET: u32 = 1000;

/// The clock-controller register block, modeled field-wise: each field holds
/// the decoded value of one register field after the last write has settled.
///
/// The two `*_responsive` fields are the wire side of the model: they say
/// whether the simulated oscillator comes ready when enabled and whether the
/// source multiplexer confirms a switch. Real hardware that is healthy has
/// both true; a test bench may clear one to exercise the fatal paths.
#[derive(Clone, Copy, PartialEq, Eq, Structural, Debug)]
pub struct RccRegs {
    /// Oscillator enable.
    pub hsi_on: bool,
    /// Oscillator speed selection (encoded as in [`HSIFreq::spec_fs`]).
    pub hsi_fs: u32,
    /// Log2 of the oscillator-to-system divider (0..=7).
    pub hsi_div_log: u32,
    /// System-clock source selection.
    pub sw: u32,
    /// Log2 of the system-to-bus divider (0..=4).
    pub ppre_log: u32,
    /// Simulation: the oscillator reaches ready once enabled.
    pub hsi_responsive: bool,
    /// Simulation: the source multiplexer confirms a selection.
    pub switch_responsive: bool,
}

impl RccRegs {
    /// The block's state at hardware reset: oscillator on at its default
    /// speed, no dividers, system clock from the oscillator, healthy wire.
    pub open spec fn spec_reset() -> RccRegs {
        RccRegs {
            hsi_on: true,
            hsi_fs: 1,
            hsi_div_log: 0,
            sw: SW_HSISYS,
            ppre_log: 0,
            hsi_responsive: true,
            switch_responsive: true,
        }
    }

    pub fn reset() -> (r: RccRegs)
        ensures
            r == RccRegs::spec_reset(),
    {
        RccRegs {
            hsi_on: true,
            hsi_fs: 1,
            hsi_div_log: 0,
            sw: SW_HSISYS,
            ppre_log: 0,
            hsi_responsive: true,
            switch_responsive: true,
        }
    }

    /// What the oscillator-ready status flag reads as.
    pub open spec fn spec_hsi_ready(self) -> bool {
        self.hsi_responsive && self.hsi_on
    }

    pub fn hsi_ready(&self) -> (r: bool)
        ensures
            r == self.spec_hsi_ready(),
    {
        self.hsi_responsive && self.hsi_on
    }

    /// What the source-status field reads as: the selected source once the
    /// multiplexer has settled, [`SWS_STUCK`] otherwise.
    pub open spec fn spec_sws(self) -> u32 {
        if self.switch_responsive {
            self.sw
        } else {
            SWS_STUCK
        }
    }

    pub fn sws(&self) -> (r: u32)
        ensures
            r == self.spec_sws(),
    {
        if self.switch_responsive {
            self.sw
        } else {
            SWS_STUCK
        }
    }
}

/// The flash interface register block: only the wait-state count matters to
/// the clock engine, which must program it before raising the core clock.
#[derive(Clone, Copy, PartialEq, Eq, Structural, Debug)]
pub struct FlashRegs {
    /// Number of flash wait states.
    pub latency: u32,
}

impl FlashRegs {
    pub open spec fn spec_reset() -> FlashRegs {
        FlashRegs { latency: 0 }
    }

    pub fn reset() -> (r: FlashRegs)
        ensures
            r == FlashRegs::spec_reset(),
    {
        FlashRegs { latency: 0 }
    }
}

/// The wait-state count the flash needs at a given system-clock frequency.
pub open spec fn spec_flash_latency(sysclk: int) -> u32 {
    if sysclk > 24_000_000 {
        1
    } else {
        0
    }
}

fn flash_latency(sysclk: u32) -> (r: u32)
    ensures
        r == spec_flash_latency(sysclk as int),
{
    if sysclk > 24_000_000 {
        1
    } else {
        0
    }
}

/// Whether `target` is reachable from the oscillator frequency `osc` by one
/// of the supported power-of-two dividers (1 to 128), exactly.
pub open spec fn sys_reachable(osc: int, target: int) -> bool {
    ||| osc == target
    ||| osc == 2 * target
    ||| osc == 4 * target
    ||| osc == 8 * target
    ||| osc == 16 * target
    ||| osc == 32 * target
    ||| osc == 64 * target
    ||| osc == 128 * target
}

/// Whether `pclk` is reachable from `sysclk` by one of the supported bus
/// prescalers (1 to 16), exactly.
pub open spec fn bus_reachable(sysclk: int, pclk: int) -> bool {
    ||| sysclk == pclk
    ||| sysclk == 2 * pclk
    ||| sysclk == 4 * pclk
    ||| sysclk == 8 * pclk
    ||| sysclk == 16 * pclk
}

/// 2 to the power `k`.
pub open spec fn spec_pow2(k: u32) -> int
    decreases k,
{
    if k == 0 {
        1
    } else {
        2 * spec_pow2((k - 1) as u32)
    }
}

/// Finds the log2 of the exact power-of-two divider (up to 128) from `osc`
/// down to `target`, if one exists.
fn sys_divider_log(osc: u32, target: u32) -> (r: Option<u32>)
    ensures
        r is Some <==> sys_reachable(osc as int, target as int),
        r matches Some(k) ==> k <= 7 && osc as int == (target as int) * spec_pow2(k),
{
    proof {
        reveal_with_fuel(spec_pow2, 8);
        assert(spec_pow2(0) == 1);
        assert(spec_pow2(1) == 2);
        assert(spec_pow2(2) == 4);
        assert(spec_pow2(3) == 8);
        assert(spec_pow2(4) == 16);
        assert(spec_pow2(5) == 32);
        assert(spec_pow2(6) == 64);
        assert(spec_pow2(7) == 128);
    }
    let o = osc as u64;
    let t = target as u64;
    if o == t {
        Some(0)
    } else if o == 2 * t {
        Some(1)
    } else if o == 4 * t {
        Some(2)
    } else if o == 8 * t {
        Some(3)
    } else if o == 16 * t {
        Some(4)
    } else if o == 32 * t {
        Some(5)
    } else if o == 64 * t {
        Some(6)
    } else if o == 128 * t {
        Some(7)
    } else {
        None
    }
}

/// Finds the log2 of the exact power-of-two bus prescaler (up to 16) from
/// `sysclk` down to `pclk`, if one exists.
fn bus_divider_log(sysclk: u32, pclk: u32) -> (r: Option<u32>)
    ensures
        r is Some <==> bus_reachable(sysclk as int, pclk as int),
        r matches Some(k) ==> k <= 4 && sysclk as int == (pclk as int) * spec_pow2(k),
{
    proof {
        reveal_with_fuel(spec_pow2, 5);
        assert(spec_pow2(0) == 1);
        assert(spec_pow2(1) == 2);
        assert(spec_pow2(2) == 4);
        assert(spec_pow2(3) == 8);
        assert(spec_pow2(4) == 16);
    }
    let s = sysclk as u64;
    let p = pclk as u64;
    if s == p {
        Some(0)
    } else if s == 2 * p {
        Some(1)
    } else if s == 4 * p {
        Some(2)
    } else if s == 8 * p {
        Some(3)
    } else if s == 16 * p {
        Some(4)
    } else {
        None
    }
}

/// Spin-waits on the oscillator-ready flag with a bounded poll budget.
fn wait_hsi_ready(regs: &RccRegs) -> (r: bool)
    ensures
        r == regs.spec_hsi_ready(),
{
    let mut i: u32 = 0;
    while i < READY_BUDGET
        invariant
            i <= READY_BUDGET,
            i != 0 ==> !regs.spec_hsi_ready(),
        decreases READY_BUDGET - i,
    {
        if regs.hsi_ready() {
            return true;
        }
        i = i + 1;
    }
    false
}

/// Spin-waits until the source-status field confirms the selected source,
/// with a bounded poll budget.
fn wait_switch_confirmed(regs: &RccRegs) -> (r: bool)
    requires
        regs.sw != SWS_STUCK,
    ensures
        r == regs.switch_responsive,
{
    let mut i: u32 = 0;
    while i < READY_BUDGET
        invariant
            i <= READY_BUDGET,
            regs.sw != SWS_STUCK,
            i != 0 ==> !regs.switch_responsive,
        decreases READY_BUDGET - i,
    {
        if regs.sws() == regs.sw {
            return true;
        }
        i = i + 1;
    }
    false
}

/// Why a clock configuration could not be committed.
///
/// The first two are configuration errors, reported before any register is
/// touched; the last two are fatal hardware conditions found while
/// committing, after which the system has no trustworthy clock.
#[derive(Clone, Copy, PartialEq, Eq, Structural, Debug)]
pub enum ClockError {
    /// No supported divider maps the chosen oscillator to the requested
    /// system clock exactly.
    UnreachableSysclk,
    /// No supported prescaler maps the system clock to the requested bus
    /// clock exactly.
    UnreachablePclk,
    /// The oscillator never reported ready after being enabled.
    OscillatorNotReady,
    /// The source multiplexer never confirmed the selected source.
    SwitchNotConfirmed,
}

/// The immutable record of resolved frequencies produced by a successful
/// freeze. Values never change once created; every frequency-dependent
/// divider computation downstream starts from this record.
#[derive(Clone, Copy, Debug)]
pub struct Clocks {
    sysclk: u32,
    pclk: u32,
}

impl Clocks {
    /// The resolved system-clock frequency in hertz.
    pub closed spec fn spec_sysclk(self) -> u32 {
        self.sysclk
    }

    /// The resolved peripheral-bus frequency in hertz.
    pub closed spec fn spec_pclk(self) -> u32 {
        self.pclk
    }

    pub fn sysclk(&self) -> (r: u32)
        ensures
            r == self.spec_sysclk(),
    {
        self.sysclk
    }

    pub fn pclk(&self) -> (r: u32)
        ensures
            r == self.spec_pclk(),
    {
        self.pclk
    }
}

/// A frozen clock controller: the registers it was committed through and
/// the resolved frequency record.
pub struct Rcc {
    pub regs: RccRegs,
    pub clocks: Clocks,
}

/// Builder state for one clock-tree configuration: the chosen oscillator
/// speed, the requested system clock and the optional requested bus clock.
/// It exists only during configuration and is consumed by [`freeze`].
///
/// [`freeze`]: ClockTreeRequest::freeze
#[derive(Clone, Copy, Debug)]
pub struct ClockTreeRequest {
    hsi: HSIFreq,
    sysclk: Option<u32>,
    pclk: Option<u32>,
}

impl ClockTreeRequest {
    /// The chosen oscillator speed.
    pub closed spec fn spec_hsi(self) -> HSIFreq {
        self.hsi
    }

    /// The requested system clock, if one was set.
    pub closed spec fn spec_sysclk_req(self) -> Option<u32> {
        self.sysclk
    }

    /// The requested bus clock, if one was set.
    pub closed spec fn spec_pclk_req(self) -> Option<u32> {
        self.pclk
    }

    /// The system-clock frequency this request resolves to: the requested
    /// value, or the raw oscillator frequency when none was requested.
    pub open spec fn spec_target(self) -> int {
        match self.spec_sysclk_req() {
            Some(t) => t as int,
            None => self.spec_hsi().spec_hz() as int,
        }
    }

    /// The bus frequency this request resolves to: the requested value, or
    /// the system clock undivided when none was requested.
    pub open spec fn spec_pclk_target(self) -> int {
        match self.spec_pclk_req() {
            Some(p) => p as int,
            None => self.spec_target(),
        }
    }

    /// A fresh request: default oscillator speed, no explicit targets.
    pub fn new() -> (r: ClockTreeRequest)
        ensures
            r.spec_hsi() == HSIFreq::Freq8mhz,
            r.spec_sysclk_req() is None,
            r.spec_pclk_req() is None,
    {
        ClockTreeRequest { hsi: HSIFreq::Freq8mhz, sysclk: None, pclk: None }
    }

    /// Chooses the oscillator speed.
    pub fn hsi(self, freq: HSIFreq) -> (r: ClockTreeRequest)
        ensures
            r.spec_hsi() == freq,
            r.spec_sysclk_req() == self.spec_sysclk_req(),
            r.spec_pclk_req() == self.spec_pclk_req(),
    {
        ClockTreeRequest { hsi: freq, ..self }
    }

    /// Requests a system-clock frequency in hertz.
    pub fn sysclk(self, hz: u32) -> (r: ClockTreeRequest)
        ensures
            r.spec_hsi() == self.spec_hsi(),
            r.spec_sysclk_req() == Some(hz),
            r.spec_pclk_req() == self.spec_pclk_req(),
    {
        ClockTreeRequest { sysclk: Some(hz), ..self }
    }

    /// Requests a peripheral-bus frequency in hertz.
    pub fn pclk(self, hz: u32) -> (r: ClockTreeRequest)
        ensures
            r.spec_hsi() == self.spec_hsi(),
            r.spec_sysclk_req() == self.spec_sysclk_req(),
            r.spec_pclk_req() == Some(hz),
    {
        ClockTreeRequest { pclk: Some(hz), ..self }
    }

    /// Validates the request and, only if every requested frequency is
    /// exactly reachable, commits it: enables the oscillator and waits for
    /// ready, programs the flash wait states for the new speed before the
    /// switch, programs the dividers, switches the system-clock source and
    /// waits for confirmation, and returns the resolved [`Clocks`].
    ///
    /// An unreachable frequency is reported before any register is touched,
    /// so the prior clock state stays valid. An oscillator that never comes
    /// ready or a switch that never confirms is reported as fatal.
    pub fn freeze(self, regs: &mut RccRegs, flash: &mut FlashRegs) -> (r: Result<
        Clocks,
        ClockError,
    >)
        ensures
            ({
                let osc = self.spec_hsi().spec_hz() as int;
                let target = self.spec_target();
                let pclk_t = self.spec_pclk_target();
                &&& !sys_reachable(osc, target) ==> r == Err::<Clocks, ClockError>(
                    ClockError::UnreachableSysclk,
                ) && *final(regs) == *old(regs) && *final(flash) == *old(flash)
                &&& sys_reachable(osc, target) && !bus_reachable(target, pclk_t) ==> r
                    == Err::<Clocks, ClockError>(ClockError::UnreachablePclk) && *final(regs)
                    == *old(regs) && *final(flash) == *old(flash)
                &&& sys_reachable(osc, target) && bus_reachable(target, pclk_t) && !old(
                    regs,
                ).hsi_responsive ==> r == Err::<Clocks, ClockError>(ClockError::OscillatorNotReady)
                    && *final(flash) == *old(flash)
                &&& sys_reachable(osc, target) && bus_reachable(target, pclk_t) && old(
                    regs,
                ).hsi_responsive && !old(regs).switch_responsive ==> r == Err::<Clocks, ClockError>(
                    ClockError::SwitchNotConfirmed,
                ) && final(flash).latency == spec_flash_latency(target)
                &&& sys_reachable(osc, target) && bus_reachable(target, pclk_t) && old(
                    regs,
                ).hsi_responsive && old(regs).switch_responsive ==> {
                    &&& r is Ok
                    &&& r matches Ok(c) ==> {
                        &&& c.spec_sysclk() as int == target
                        &&& c.spec_pclk() as int == pclk_t
                        &&& final(regs).hsi_on
                        &&& final(regs).hsi_fs == self.spec_hsi().spec_fs()
                        &&& osc == target * spec_pow2(final(regs).hsi_div_log)
                        &&& final(regs).hsi_div_log <= 7
                        &&& target == pclk_t * spec_pow2(final(regs).ppre_log)
                        &&& final(regs).ppre_log <= 4
                        &&& final(regs).sw == SW_HSISYS
                        &&& final(regs).hsi_responsive == old(regs).hsi_responsive
                        &&& final(regs).switch_responsive == old(regs).switch_responsive
                        &&& final(flash).latency == spec_flash_latency(target)
                    }
                }
            }),
    {
        let osc = self.hsi.hz();
        let target: u32 = match self.sysclk {
            Some(t) => t,
            None => osc,
        };
        let sys_log = match sys_divider_log(osc, target) {
            Some(k) => k,
            None => {
                return Err(ClockError::UnreachableSysclk);
            },
        };
        let pclk: u32 = match self.pclk {
            Some(p) => p,
            None => target,
        };
        let bus_log = match bus_divider_log(target, pclk) {
            Some(k) => k,
            None => {
                return Err(ClockError::UnreachablePclk);
            },
        };
        // Validation is complete: commit, in the documented order.
        regs.hsi_fs = self.hsi.fs();
        regs.hsi_div_log = sys_log;
        regs.hsi_on = true;
        if !wait_hsi_ready(regs) {
            return Err(ClockError::OscillatorNotReady);
        }
        flash.latency = flash_latency(target);
        regs.ppre_log = bus_log;
        regs.sw = SW_HSISYS;
        if !wait_switch_confirmed(regs) {
            return Err(ClockError::SwitchNotConfirmed);
        }
        Ok(Clocks { sysclk: target, pclk })
    }
}

} // verus!
