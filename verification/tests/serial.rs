use py32_hal::gpio::PortRegs;
use py32_hal::rcc::{ClockTreeRequest, Clocks, FlashRegs, HSIFreq, RccRegs};
use py32_hal::serial::{Serial, SerialConfigError, SerialFault, UsartRegs};
use py32_hal::Poll;

fn clocks_8mhz() -> Clocks {
    let mut regs = RccRegs::reset();
    let mut flash = FlashRegs::reset();
    ClockTreeRequest::new().hsi(HSIFreq::Freq8mhz).sysclk(8_000_000).freeze(
        &mut regs,
        &mut flash,
    ).unwrap()
}

fn open_port(baud: u32) -> Serial {
    let mut parts = PortRegs::reset().split();
    let tx = parts.p2.into_alternate(&mut parts.regs, 1);
    let rx = parts.p3.into_alternate(&mut parts.regs, 1);
    Serial::new(UsartRegs::reset(), tx, rx, baud, &clocks_8mhz()).unwrap()
}

#[test]
fn construction_programs_the_baud_divider() {
    let serial = open_port(9600);
    assert_eq!(serial.regs.brr, 833);
    assert!(serial.regs.enabled);
}

#[test]
fn unreachable_baud_rates_are_rejected() {
    let mut parts = PortRegs::reset().split();
    let tx = parts.p2.into_alternate(&mut parts.regs, 1);
    let rx = parts.p3.into_alternate(&mut parts.regs, 1);
    let clocks = clocks_8mhz();
    let r = Serial::new(UsartRegs::reset(), tx, rx, 0, &clocks);
    assert!(matches!(r, Err(SerialConfigError::UnreachableBaud)));
    let mut parts = PortRegs::reset().split();
    let tx = parts.p2.into_alternate(&mut parts.regs, 1);
    let rx = parts.p3.into_alternate(&mut parts.regs, 1);
    // Above the bus clock: the divider would be zero.
    let r = Serial::new(UsartRegs::reset(), tx, rx, 9_000_000, &clocks);
    assert!(matches!(r, Err(SerialConfigError::UnreachableBaud)));
    let mut parts = PortRegs::reset().split();
    let tx = parts.p2.into_alternate(&mut parts.regs, 1);
    let rx = parts.p3.into_alternate(&mut parts.regs, 1);
    // So slow that the divider overflows its 16-bit register.
    let r = Serial::new(UsartRegs::reset(), tx, rx, 100, &clocks);
    assert!(matches!(r, Err(SerialConfigError::UnreachableBaud)));
}

#[test]
fn loopback_round_trip_preserves_the_byte_and_raises_no_fault() {
    let mut serial = open_port(115200);
    assert!(matches!(serial.try_write(b'A'), Poll::Ready(())));
    // Loopback wire: what leaves the transmitter arrives at the receiver.
    let sent = serial.regs.sim_take_transmitted().unwrap();
    assert_eq!(sent, b'A');
    serial.regs.sim_receive(sent);
    assert!(matches!(serial.try_read(), Poll::Ready(b'A')));
    assert!(!serial.regs.ore);
    assert!(!serial.regs.fe);
    assert!(!serial.regs.pe);
    assert!(serial.is_transmission_complete());
}

#[test]
fn overrun_is_reported_distinctly_and_cleared() {
    let mut serial = open_port(115200);
    serial.regs.sim_receive(0x41);
    serial.regs.sim_receive(0x42);
    // The pending first byte is still delivered.
    assert!(matches!(serial.try_read(), Poll::Ready(0x41)));
    // The lost second byte surfaces as an overrun fault, not a byte.
    assert!(matches!(serial.try_read(), Poll::Fault(SerialFault::Overrun)));
    // The fault flag was cleared as part of reporting: reads proceed.
    assert!(matches!(serial.try_read(), Poll::Pending));
    serial.regs.sim_receive(0x43);
    assert!(matches!(serial.try_read(), Poll::Ready(0x43)));
}

#[test]
fn framing_and_parity_faults_are_reported_and_cleared() {
    let mut serial = open_port(115200);
    serial.regs.sim_inject_framing();
    assert!(matches!(serial.try_read(), Poll::Fault(SerialFault::Framing)));
    assert!(matches!(serial.try_read(), Poll::Pending));
    serial.regs.sim_inject_parity();
    assert!(matches!(serial.try_read(), Poll::Fault(SerialFault::Parity)));
    assert!(matches!(serial.try_read(), Poll::Pending));
}

#[test]
fn write_blocks_while_a_byte_is_staged() {
    let mut serial = open_port(115200);
    assert!(matches!(serial.try_write(0x10), Poll::Ready(())));
    assert!(matches!(serial.try_write(0x20), Poll::Pending));
    let sent = serial.regs.sim_take_transmitted().unwrap();
    assert_eq!(sent, 0x10);
    assert!(matches!(serial.try_write(0x20), Poll::Ready(())));
}

#[test]
fn bounded_budget_polls_resolve_or_stay_pending() {
    let mut serial = open_port(115200);
    assert!(matches!(serial.read_with_budget(0), Poll::Pending));
    assert!(matches!(serial.read_with_budget(8), Poll::Pending));
    serial.regs.sim_receive(0x55);
    assert!(matches!(serial.read_with_budget(8), Poll::Ready(0x55)));
    assert!(matches!(serial.write_with_budget(0x66, 4), Poll::Ready(())));
    assert!(matches!(serial.write_with_budget(0x77, 4), Poll::Pending));
}

#[test]
fn release_hands_back_the_usart() {
    let serial = open_port(115200);
    let brr = serial.regs.brr;
    let (regs, tx, rx) = serial.release();
    assert_eq!(regs.brr, brr);
    assert_eq!(tx.index(), 2);
    assert_eq!(rx.index(), 3);
}
