use py32_hal::rcc::{ClockTreeRequest, Clocks, FlashRegs, HSIFreq, RccRegs};
use py32_hal::timer::{InstallError, InterruptShared, TickCounter, TimRegs, Timer, TimerError};

fn clocks(hsi: HSIFreq, target: u32) -> Clocks {
    let mut regs = RccRegs::reset();
    let mut flash = FlashRegs::reset();
    ClockTreeRequest::new().hsi(hsi).sysclk(target).freeze(&mut regs, &mut flash).unwrap()
}

#[test]
fn kilohertz_at_8mhz_solves_prescaler_and_reload_exactly() {
    let c = clocks(HSIFreq::Freq8mhz, 8_000_000);
    let timer = Timer::periodic(TimRegs::reset(), 1000, &c).unwrap();
    // 8000 bus cycles per period fit the reload register directly.
    assert_eq!(timer.regs.psc, 0);
    assert_eq!(timer.regs.arr, 7999);
    assert!(timer.regs.enabled);
    assert!(!timer.regs.uif);
}

#[test]
fn one_hertz_at_24mhz_splits_across_prescaler_and_reload() {
    let c = clocks(HSIFreq::Freq24mhz, 24_000_000);
    let timer = Timer::periodic(TimRegs::reset(), 1, &c).unwrap();
    assert_eq!(timer.regs.psc, 366);
    assert_eq!(timer.regs.arr, 65394);
    // The pair divides by at most the requested period.
    let product = (timer.regs.psc as u64 + 1) * (timer.regs.arr as u64 + 1);
    assert!(product <= 24_000_000);
    assert!(24_000_000 < (timer.regs.psc as u64 + 1) * (timer.regs.arr as u64 + 2));
}

#[test]
fn unreachable_rates_are_rejected() {
    let c = clocks(HSIFreq::Freq8mhz, 8_000_000);
    assert!(matches!(
        Timer::periodic(TimRegs::reset(), 0, &c),
        Err(TimerError::UnreachableRate)
    ));
    assert!(matches!(
        Timer::periodic(TimRegs::reset(), 9_000_000, &c),
        Err(TimerError::UnreachableRate)
    ));
}

#[test]
fn expiry_flag_is_observed_and_cleared() {
    let c = clocks(HSIFreq::Freq8mhz, 8_000_000);
    let mut timer = Timer::periodic(TimRegs::reset(), 1000, &c).unwrap();
    assert!(!timer.try_wait());
    timer.regs.sim_expire();
    assert!(timer.try_wait());
    // Observation cleared the flag.
    assert!(!timer.try_wait());
}

#[test]
fn bounded_budget_wait_resolves_or_stays_pending() {
    let c = clocks(HSIFreq::Freq8mhz, 8_000_000);
    let mut timer = Timer::periodic(TimRegs::reset(), 1000, &c).unwrap();
    assert!(!timer.wait_with_budget(16));
    timer.regs.sim_expire();
    assert!(!timer.wait_with_budget(0));
    assert!(timer.wait_with_budget(16));
}

#[test]
fn counter_carries_milliseconds_into_seconds() {
    let mut counter = TickCounter::new();
    for _ in 0..999 {
        counter.tick();
    }
    assert_eq!(counter.seconds(), 0);
    assert_eq!(counter.millis(), 999);
    counter.tick();
    assert_eq!(counter.seconds(), 1);
    assert_eq!(counter.millis(), 0);
}

#[test]
fn thousand_expiries_at_one_kilohertz_advance_exactly_one_second() {
    let c = clocks(HSIFreq::Freq8mhz, 8_000_000);
    let mut timer = Timer::periodic(TimRegs::reset(), 1000, &c).unwrap();
    timer.listen();
    let mut shared = InterruptShared::new();
    shared.install(timer, TickCounter::new()).unwrap();
    for i in 0..1000u32 {
        shared.sim_expire();
        shared.on_interrupt();
        // Concurrent foreground reads under the critical-section
        // discipline observe a well-formed record throughout.
        let (seconds, millis) = shared.read_elapsed();
        assert!(millis < 1000);
        assert_eq!(seconds as u64 * 1000 + millis as u64, i as u64 + 1);
    }
    let (seconds, millis) = shared.read_elapsed();
    assert_eq!(seconds, 1);
    assert_eq!(millis, 0);
}

#[test]
fn interrupt_without_pending_expiry_changes_nothing() {
    let c = clocks(HSIFreq::Freq8mhz, 8_000_000);
    let timer = Timer::periodic(TimRegs::reset(), 1000, &c).unwrap();
    let mut shared = InterruptShared::new();
    shared.install(timer, TickCounter::new()).unwrap();
    shared.on_interrupt();
    assert_eq!(shared.read_elapsed(), (0, 0));
}

#[test]
fn shared_cell_installs_exactly_once() {
    let c = clocks(HSIFreq::Freq8mhz, 8_000_000);
    let first = Timer::periodic(TimRegs::reset(), 1000, &c).unwrap();
    let second = Timer::periodic(TimRegs::reset(), 500, &c).unwrap();
    let mut shared = InterruptShared::new();
    assert_eq!(shared.read_elapsed(), (0, 0));
    assert!(shared.install(first, TickCounter::new()).is_ok());
    assert!(matches!(
        shared.install(second, TickCounter::new()),
        Err(InstallError::AlreadyInstalled)
    ));
}
