use py32_hal::pac::Chip;
use py32_hal::rcc::{ClockError, HSIFreq};
use py32_hal::system_init::{InitError, SystemClockConfig, SystemInit};

#[test]
fn default_init_runs_at_8mhz() {
    let mut chip = Chip::new();
    let sys = SystemInit::init(&mut chip).unwrap();
    assert_eq!(sys.rcc.clocks.sysclk(), 8_000_000);
    assert_eq!(sys.rcc.clocks.pclk(), 8_000_000);
}

#[test]
fn preset_inits_hit_their_profiles() {
    let mut chip = Chip::new();
    let sys = SystemInit::init_24mhz(&mut chip).unwrap();
    assert_eq!(sys.rcc.clocks.sysclk(), 24_000_000);
    let mut chip = Chip::new();
    let sys = SystemInit::init_16mhz(&mut chip).unwrap();
    assert_eq!(sys.rcc.clocks.sysclk(), 16_000_000);
    let mut chip = Chip::new();
    let sys = SystemInit::init_4mhz(&mut chip).unwrap();
    assert_eq!(sys.rcc.clocks.sysclk(), 4_000_000);
}

#[test]
fn custom_config_with_divided_oscillator() {
    let mut chip = Chip::new();
    let sys = SystemInit::init_with_config(
        &mut chip,
        SystemClockConfig { hsi_freq: HSIFreq::Freq24mhz, sysclk_mhz: 12 },
    )
    .unwrap();
    assert_eq!(sys.rcc.clocks.sysclk(), 12_000_000);
    assert!(sys.rcc.regs.hsi_on);
    assert_eq!(sys.rcc.regs.hsi_fs, 3);
}

#[test]
fn unreachable_custom_config_reports_a_clock_error() {
    let mut chip = Chip::new();
    let r = SystemInit::init_with_config(
        &mut chip,
        SystemClockConfig { hsi_freq: HSIFreq::Freq8mhz, sysclk_mhz: 3 },
    );
    assert!(matches!(r, Err(InitError::Clock(ClockError::UnreachableSysclk))));
}

#[test]
fn second_bring_up_observes_the_captured_peripherals() {
    let mut chip = Chip::new();
    let _sys = SystemInit::init(&mut chip).unwrap();
    let again = SystemInit::init(&mut chip);
    assert!(matches!(again, Err(InitError::AlreadyTaken)));
}

#[test]
fn peripheral_capture_succeeds_exactly_once() {
    let mut chip = Chip::new();
    assert!(chip.take().is_some());
    assert!(chip.take().is_none());
    assert!(chip.take().is_none());
}

#[test]
fn default_config_is_the_8mhz_profile() {
    let config = SystemClockConfig::default();
    assert_eq!(config.hsi_freq, HSIFreq::Freq8mhz);
    assert_eq!(config.sysclk_mhz, 8);
}

#[test]
fn bring_up_hands_out_reset_ports() {
    let mut chip = Chip::new();
    let sys = SystemInit::init(&mut chip).unwrap();
    assert_eq!(sys.gpioa.regs.moder, 0);
    assert_eq!(sys.gpiob.regs.moder, 0);
    assert_eq!(sys.gpioa.p5.index(), 5);
    assert_eq!(sys.gpiob.p15.index(), 15);
}
