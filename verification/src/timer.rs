//! Periodic timer driver and the interrupt-shared elapsed-time state.
//!
//! Construction solves a prescaler and reload value jointly from the
//! requested rate and the frozen bus clock, so that the timer divides the
//! bus clock by `(prescaler + 1) * (reload + 1)`. The expiry flag is
//! polled (or, under interrupt mode, handled) and cleared on observation.
//!
//! The elapsed-time record carries milliseconds with carry into seconds.
//! A value shared with an interrupt handler lives in an
//! [`InterruptShared`] cell; in this single-context model, Rust's
//! exclusive borrow of the cell stands for the interrupt-masked critical
//! section that every access must be wrapped in.

use vstd::prelude::*;
use vstd::arithmetic::div_mod::{
    lemma_fundamental_div_mod,
    lemma_fundamental_div_mod_converse,
    lemma_div_is_ordered,
};
use crate::rcc::Clocks;

verus! {

/// The timer register block, modeled field-wise.
#[derive(Clone, Copy, PartialEq, Eq, Structural, Debug)]
pub struct TimRegs {
    /// Prescaler: the counter advances once per `psc + 1` bus-clock
    /// cycles.
    pub psc: u32,
    /// Auto-reload value: the counter expires every `arr + 1` advances.
    pub arr: u32,
    /// Counter enable.
    pub enabled: bool,
    /// Update (expiry) flag.
    pub uif: bool,
    /// Update-interrupt enable.
    pub irq_enabled: bool,
}

impl TimRegs {
    /// The block at hardware reset.
    pub open spec fn spec_reset() -> TimRegs {
        TimRegs { psc: 0, arr: 0, enabled: false, uif: false, irq_enabled: false }
    }

    pub fn reset() -> (r: TimRegs)
        ensures
            r == TimRegs::spec_reset(),
    {
        TimRegs { psc: 0, arr: 0, enabled: false, uif: false, irq_enabled: false }
    }

    /// Wire side of the model: the counter reaches the reload value and
    /// raises the expiry flag.
    pub fn sim_expire(&mut self)
        ensures
            old(self).enabled ==> *final(self) == (TimRegs { uif: true, ..*old(self) }),
            !old(self).enabled ==> *final(self) == *old(self),
    {
        if self.enabled {
            self.uif = true;
        }
    }
}

/// Why a timer configuration was rejected at construction.
#[derive(Clone, Copy, PartialEq, Eq, Structural, Debug)]
pub enum TimerError {
    /// The requested rate is zero or above the bus clock, so no
    /// prescaler/reload pair reaches it.
    UnreachableRate,
}

/// Whether an expiry rate of `hz` can be derived from the bus clock
/// `pclk` at all: at least one whole bus-clock cycle per period.
pub open spec fn rate_reachable(pclk: int, hz: int) -> bool {
    hz >= 1 && pclk / hz >= 1
}

/// A periodic timer. Construction programs the prescaler/reload pair
/// solved from the requested rate and the frozen clock record.
pub struct Timer {
    /// The owned register block; its `sim_expire` method is the wire
    /// side.
    pub regs: TimRegs,
}

impl Timer {
    /// Takes ownership of the timer block and configures it to expire
    /// `hz` times per second of bus-clock time: the prescaler and reload
    /// value divide the bus clock by `(psc + 1) * (arr + 1)`, chosen so
    /// that the product equals `pclk / hz` whenever the chosen
    /// `psc + 1` divides it exactly, and in any case never exceeds it
    /// while reaching at least `pclk / hz - psc`. A rate that no pair
    /// reaches is rejected before any register is touched.
    pub fn periodic(regs: TimRegs, hz: u32, clocks: &Clocks) -> (r: Result<Timer, TimerError>)
        ensures
            ({
                let pclk = clocks.spec_pclk() as int;
                let ticks = pclk / hz as int;
                &&& !rate_reachable(pclk, hz as int) ==> r == Err::<Timer, TimerError>(
                    TimerError::UnreachableRate,
                )
                &&& rate_reachable(pclk, hz as int) ==> {
                    &&& r is Ok
                    &&& r matches Ok(t) ==> {
                        &&& t.regs.psc <= 0xFFFF
                        &&& t.regs.arr <= 0xFFFF
                        &&& t.regs.enabled
                        &&& !t.regs.uif
                        &&& !t.regs.irq_enabled
                        &&& (t.regs.psc + 1) * (t.regs.arr + 1) <= ticks
                        &&& ticks < (t.regs.psc + 1) * (t.regs.arr + 2)
                        &&& ticks % (t.regs.psc as int + 1) == 0 ==> (t.regs.psc + 1) * (t.regs.arr
                            + 1) == ticks
                    }
                }
            }),
    {
        if hz == 0 {
            return Err(TimerError::UnreachableRate);
        }
        let ticks = clocks.pclk() / hz;
        if ticks == 0 {
            return Err(TimerError::UnreachableRate);
        }
        let psc = (ticks - 1) / 0x1_0000;
        proof {
            lemma_fundamental_div_mod_converse(0xFFFF_FFFF, 0x1_0000, 0xFFFF, 0xFFFF);
            lemma_div_is_ordered(ticks - 1, 0xFFFF_FFFF, 0x1_0000);
            lemma_fundamental_div_mod(ticks - 1, 0x1_0000);
        }
        let arr_plus_1 = ticks / (psc + 1);
        proof {
            lemma_fundamental_div_mod(ticks as int, psc as int + 1);
            assert(arr_plus_1 >= 1) by (nonlinear_arith)
                requires
                    arr_plus_1 == ticks as int / (psc as int + 1),
                    psc as int <= ticks as int - 1,
                    psc >= 0,
                    ticks >= 1,
            ;
            assert(arr_plus_1 <= 0x1_0000) by (nonlinear_arith)
                requires
                    arr_plus_1 == ticks as int / (psc as int + 1),
                    ticks as int - 1 < (psc as int + 1) * 0x1_0000,
                    psc >= 0,
                    ticks >= 1,
            ;
        }
        let arr = arr_plus_1 - 1;
        let out = TimRegs { psc, arr, enabled: true, uif: false, irq_enabled: false };
        proof {
            let p1 = psc as int + 1;
            let t = ticks as int;
            assert(p1 * arr_plus_1 <= t && t < p1 * (arr_plus_1 + 1) && (t % p1 == 0 ==> p1
                * arr_plus_1 == t)) by (nonlinear_arith)
                requires
                    arr_plus_1 == t / p1,
                    p1 >= 1,
                    t >= 1,
            ;
        }
        Ok(Timer { regs: out })
    }

    /// One expiry poll: observes and clears the expiry flag, or reports
    /// that the period has not elapsed yet.
    pub fn try_wait(&mut self) -> (expired: bool)
        ensures
            expired == old(self).regs.uif,
            *final(self) == (Timer { regs: (TimRegs { uif: false, ..old(self).regs }) }),
    {
        if self.regs.uif {
            self.regs.uif = false;
            true
        } else {
            false
        }
    }

    /// Spin-polls the expiry flag for at most `attempts` polls; the
    /// bounded budget is the caller's explicit choice.
    pub fn wait_with_budget(&mut self, attempts: u32) -> (expired: bool)
        ensures
            attempts == 0 ==> !expired && *final(self) == *old(self),
            attempts > 0 ==> expired == old(self).regs.uif && *final(self) == (Timer {
                regs: (TimRegs { uif: false, ..old(self).regs }),
            }),
    {
        let mut i: u32 = 0;
        while i < attempts
            invariant
                i <= attempts,
                *self == *old(self),
                i != 0 ==> !self.regs.uif,
            decreases attempts - i,
        {
            if self.try_wait() {
                return true;
            }
            i = i + 1;
        }
        false
    }

    /// Enables the update interrupt, for use under interrupt mode.
    pub fn listen(&mut self)
        ensures
            *final(self) == (Timer { regs: (TimRegs { irq_enabled: true, ..old(self).regs }) }),
    {
        self.regs.irq_enabled = true;
    }

    /// Releases the hardware: hands the register block back.
    pub fn release(self) -> (r: TimRegs)
        ensures
            r == self.regs,
    {
        self.regs
    }
}

/// Elapsed time as milliseconds with carry into seconds. The millisecond
/// field always stays below 1000; at the largest representable time the
/// record saturates instead of wrapping.
#[derive(Clone, Copy, Debug)]
pub struct TickCounter {
    millis: u32,
    seconds: u32,
}

impl TickCounter {
    #[verifier::type_invariant]
    spec fn type_inv(self) -> bool {
        self.millis < 1000
    }

    /// The millisecond field, 0..=999.
    pub closed spec fn spec_millis(self) -> u32 {
        self.millis
    }

    /// The seconds field.
    pub closed spec fn spec_seconds(self) -> u32 {
        self.seconds
    }

    /// The record is well formed: milliseconds carry into seconds below
    /// 1000.
    pub open spec fn wf(self) -> bool {
        self.spec_millis() < 1000
    }

    /// The total elapsed time in milliseconds.
    pub open spec fn spec_total_millis(self) -> int {
        1000 * self.spec_seconds() + self.spec_millis()
    }

    /// The record beyond which the count saturates.
    pub open spec fn spec_saturated(self) -> bool {
        self.spec_seconds() == u32::MAX && self.spec_millis() == 999
    }

    /// The record after one expiry event: one millisecond later, with
    /// carry, saturating at the largest representable time.
    pub closed spec fn spec_tick(self) -> TickCounter {
        if self.millis < 999 {
            TickCounter { millis: (self.millis + 1) as u32, seconds: self.seconds }
        } else if self.seconds < u32::MAX {
            TickCounter { millis: 0, seconds: (self.seconds + 1) as u32 }
        } else {
            self
        }
    }

    pub fn new() -> (r: TickCounter)
        ensures
            r.spec_millis() == 0,
            r.spec_seconds() == 0,
    {
        TickCounter { millis: 0, seconds: 0 }
    }

    pub fn millis(&self) -> (r: u32)
        ensures
            r == self.spec_millis(),
    {
        self.millis
    }

    pub fn seconds(&self) -> (r: u32)
        ensures
            r == self.spec_seconds(),
    {
        self.seconds
    }

    /// Advances the record by one expiry event.
    pub fn tick(&mut self)
        ensures
            *final(self) == old(self).spec_tick(),
    {
        proof {
            use_type_invariant(&*self);
        }
        if self.millis < 999 {
            *self = TickCounter { millis: self.millis + 1, seconds: self.seconds };
        } else if self.seconds < u32::MAX {
            *self = TickCounter { millis: 0, seconds: self.seconds + 1 };
        }
    }
}

/// One expiry event advances a well-formed, unsaturated record by exactly
/// one millisecond of total time, and keeps it well formed.
pub proof fn lemma_tick_advances(s: TickCounter)
    requires
        s.wf(),
    ensures
        s.spec_tick().wf(),
        !s.spec_saturated() ==> s.spec_tick().spec_total_millis() == s.spec_total_millis() + 1,
        s.spec_saturated() ==> s.spec_tick() == s,
{
}

/// The record after `n` expiry events.
pub open spec fn spec_tick_n(s: TickCounter, n: nat) -> TickCounter
    decreases n,
{
    if n == 0 {
        s
    } else {
        spec_tick_n(s, (n - 1) as nat).spec_tick()
    }
}

/// Accumulation law: `n` expiry events advance a well-formed record
/// whose total stays representable by exactly `n` milliseconds of total
/// time, carrying milliseconds into seconds, and keep it well formed.
pub proof fn lemma_ticks_accumulate(s: TickCounter, n: nat)
    requires
        s.wf(),
        s.spec_total_millis() + n <= 1000 * (u32::MAX as int) + 999,
    ensures
        spec_tick_n(s, n).wf(),
        spec_tick_n(s, n).spec_total_millis() == s.spec_total_millis() + n,
    decreases n,
{
    if n == 0 {
    } else {
        lemma_ticks_accumulate(s, (n - 1) as nat);
        let prev = spec_tick_n(s, (n - 1) as nat);
        lemma_tick_advances(prev);
        assert(!prev.spec_saturated());
    }
}

/// Carry law: 1000 expiry events at one event per millisecond advance
/// the record by exactly one second — the millisecond field returns to
/// its starting value and the seconds field grows by one.
pub proof fn lemma_thousand_ticks_one_second(s: TickCounter)
    requires
        s.wf(),
        s.spec_seconds() < u32::MAX,
    ensures
        spec_tick_n(s, 1000).spec_seconds() == s.spec_seconds() + 1,
        spec_tick_n(s, 1000).spec_millis() == s.spec_millis(),
{
    lemma_ticks_accumulate(s, 1000);
    let t = spec_tick_n(s, 1000);
    assert(1000 * t.spec_seconds() + t.spec_millis() == 1000 * (s.spec_seconds() + 1)
        + s.spec_millis()) by (nonlinear_arith)
        requires
            t.spec_total_millis() == s.spec_total_millis() + 1000,
            t.spec_total_millis() == 1000 * t.spec_seconds() + t.spec_millis(),
            s.spec_total_millis() == 1000 * s.spec_seconds() + s.spec_millis(),
    ;
    assert(t.spec_seconds() == s.spec_seconds() + 1 && t.spec_millis() == s.spec_millis())
        by (nonlinear_arith)
        requires
            1000 * t.spec_seconds() + t.spec_millis() == 1000 * (s.spec_seconds() + 1)
                + s.spec_millis(),
            t.spec_millis() < 1000,
            s.spec_millis() < 1000,
    ;
}

/// Why installing into the shared cell failed.
#[derive(Clone, Copy, PartialEq, Eq, Structural, Debug)]
pub enum InstallError {
    /// The cell was already populated by an earlier setup.
    AlreadyInstalled,
}

/// The timer and counter shared between the foreground task and the
/// interrupt handler.
pub struct SharedTick {
    pub timer: Timer,
    pub counter: TickCounter,
}

/// The interrupt-shared cell: absent until the one-time setup installs
/// the timer and counter, then owned jointly by the foreground task and
/// the interrupt handler.
///
/// Every access must be atomic with respect to the handler; in this
/// single-context model the exclusive borrow of the cell plays the role
/// of the interrupt-masked critical section.
pub struct InterruptShared {
    inner: Option<SharedTick>,
}

impl InterruptShared {
    /// Whether the one-time setup has populated the cell.
    pub closed spec fn spec_installed(self) -> bool {
        self.inner is Some
    }

    /// The shared counter; meaningful only while installed.
    pub closed spec fn spec_counter(self) -> TickCounter {
        self.inner->Some_0.counter
    }

    /// The shared timer's registers; meaningful only while installed.
    pub closed spec fn spec_timer_regs(self) -> TimRegs {
        self.inner->Some_0.timer.regs
    }

    /// An empty cell: the shared state does not exist yet.
    pub fn new() -> (r: InterruptShared)
        ensures
            !r.spec_installed(),
    {
        InterruptShared { inner: None }
    }

    /// One-time setup: moves the timer and counter into the cell. A
    /// second installation observes the populated cell and fails without
    /// corrupting it.
    pub fn install(&mut self, timer: Timer, counter: TickCounter) -> (r: Result<(), InstallError>)
        ensures
            old(self).spec_installed() ==> r == Err::<(), InstallError>(
                InstallError::AlreadyInstalled,
            ) && *final(self) == *old(self),
            !old(self).spec_installed() ==> r is Ok && final(self).spec_installed() && final(self).spec_counter() == counter && final(self).spec_timer_regs() == timer.regs,
    {
        match self.inner {
            Some(_) => Err(InstallError::AlreadyInstalled),
            None => {
                self.inner = Some(SharedTick { timer, counter });
                Ok(())
            },
        }
    }

    /// The interrupt handler body: under the critical section, observes
    /// and clears the expiry flag and advances the shared counter by one
    /// millisecond. Without a pending expiry, or before installation,
    /// nothing changes.
    pub fn on_interrupt(&mut self)
        ensures
            !old(self).spec_installed() ==> *final(self) == *old(self),
            old(self).spec_installed() ==> {
                &&& final(self).spec_installed()
                &&& final(self).spec_timer_regs() == (TimRegs {
                    uif: false,
                    ..old(self).spec_timer_regs()
                })
                &&& old(self).spec_timer_regs().uif ==> final(self).spec_counter() == old(self).spec_counter().spec_tick()
                &&& !old(self).spec_timer_regs().uif ==> final(self).spec_counter() == old(self).spec_counter()
            },
    {
        match &mut self.inner {
            None => {
            },
            Some(shared) => {
                if shared.timer.try_wait() {
                    shared.counter.tick();
                }
            },
        }
    }

    /// Foreground read, under the critical section: the shared elapsed
    /// time as `(seconds, milliseconds)`, or zero before installation.
    pub fn read_elapsed(&self) -> (r: (u32, u32))
        ensures
            self.spec_installed() ==> r == (self.spec_counter().spec_seconds(),
            self.spec_counter().spec_millis()),
            !self.spec_installed() ==> r == (0u32, 0u32),
    {
        match &self.inner {
            None => (0, 0),
            Some(shared) => (shared.counter.seconds(), shared.counter.millis()),
        }
    }

    /// Wire side of the model: the running shared timer expires, raising
    /// the flag the next interrupt will observe.
    pub fn sim_expire(&mut self)
        ensures
            !old(self).spec_installed() ==> *final(self) == *old(self),
            old(self).spec_installed() ==> {
                &&& final(self).spec_installed()
                &&& final(self).spec_counter() == old(self).spec_counter()
                &&& old(self).spec_timer_regs().enabled ==> final(self).spec_timer_regs() == (
                TimRegs { uif: true, ..old(self).spec_timer_regs() })
                &&& !old(self).spec_timer_regs().enabled ==> final(self).spec_timer_regs() == old(self).spec_timer_regs()
            },
    {
        match &mut self.inner {
            None => {
            },
            Some(shared) => {
                shared.timer.regs.sim_expire();
            },
        }
    }
}

} // verus!
