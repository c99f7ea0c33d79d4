use py32_hal::gpio::PortRegs;

fn bits2(reg: u32, n: u32) -> u32 {
    (reg >> (2 * n)) & 3
}

fn bit1(reg: u32, n: u32) -> u32 {
    (reg >> n) & 1
}

fn bits4(reg: u32, n: u32) -> u32 {
    (reg >> (4 * n)) & 15
}

#[test]
fn output_sequence_leaves_sibling_configuration_untouched() {
    let mut parts = PortRegs::reset().split();
    // Give two siblings a distinctive configuration first.
    let _p3 = parts.p3.into_pull_up_input(&mut parts.regs);
    let _p7 = parts.p7.into_open_drain_output(&mut parts.regs);
    let _p12 = parts.p12.into_analog(&mut parts.regs);
    let moder = parts.regs.moder;
    let otyper = parts.regs.otyper;
    let ospeedr = parts.regs.ospeedr;
    let pupdr = parts.regs.pupdr;
    let afrl = parts.regs.afrl;
    let afrh = parts.regs.afrh;
    // The sequence under scrutiny, on pin 5.
    let led = parts.p5.into_push_pull_output(&mut parts.regs);
    led.set_high(&mut parts.regs);
    led.set_low(&mut parts.regs);
    for j in 0..16u32 {
        if j != 5 {
            assert_eq!(bits2(parts.regs.moder, j), bits2(moder, j));
            assert_eq!(bit1(parts.regs.otyper, j), bit1(otyper, j));
            assert_eq!(bits2(parts.regs.ospeedr, j), bits2(ospeedr, j));
            assert_eq!(bits2(parts.regs.pupdr, j), bits2(pupdr, j));
            if j < 8 {
                assert_eq!(bits4(parts.regs.afrl, j), bits4(afrl, j));
            } else {
                assert_eq!(bits4(parts.regs.afrh, j - 8), bits4(afrh, j - 8));
            }
        }
    }
    // And the pin itself ended configured as a low push-pull output.
    assert_eq!(bits2(parts.regs.moder, 5), 1);
    assert_eq!(bit1(parts.regs.otyper, 5), 0);
    assert_eq!(bit1(parts.regs.odr, 5), 0);
}

#[test]
fn transitions_write_the_documented_mode_encodings() {
    let mut parts = PortRegs::reset().split();
    let _in = parts.p0.into_floating_input(&mut parts.regs);
    assert_eq!(bits2(parts.regs.moder, 0), 0);
    assert_eq!(bits2(parts.regs.pupdr, 0), 0);
    let _up = parts.p1.into_pull_up_input(&mut parts.regs);
    assert_eq!(bits2(parts.regs.moder, 1), 0);
    assert_eq!(bits2(parts.regs.pupdr, 1), 1);
    let _down = parts.p2.into_pull_down_input(&mut parts.regs);
    assert_eq!(bits2(parts.regs.moder, 2), 0);
    assert_eq!(bits2(parts.regs.pupdr, 2), 2);
    let _pp = parts.p3.into_push_pull_output(&mut parts.regs);
    assert_eq!(bits2(parts.regs.moder, 3), 1);
    assert_eq!(bit1(parts.regs.otyper, 3), 0);
    let _od = parts.p4.into_open_drain_output(&mut parts.regs);
    assert_eq!(bits2(parts.regs.moder, 4), 1);
    assert_eq!(bit1(parts.regs.otyper, 4), 1);
    let _an = parts.p5.into_analog(&mut parts.regs);
    assert_eq!(bits2(parts.regs.moder, 5), 3);
}

#[test]
fn alternate_function_uses_low_and_high_half_registers() {
    let mut parts = PortRegs::reset().split();
    let _tx = parts.p1.into_alternate(&mut parts.regs, 9);
    assert_eq!(bits2(parts.regs.moder, 1), 2);
    assert_eq!(bits4(parts.regs.afrl, 1), 9);
    assert_eq!(parts.regs.afrh, 0);
    let _rx = parts.p10.into_alternate(&mut parts.regs, 4);
    assert_eq!(bits2(parts.regs.moder, 10), 2);
    assert_eq!(bits4(parts.regs.afrh, 2), 4);
    assert_eq!(bits4(parts.regs.afrl, 1), 9);
}

#[test]
fn set_high_set_low_toggle_drive_only_their_own_bit() {
    let mut parts = PortRegs::reset().split();
    let a = parts.p6.into_push_pull_output(&mut parts.regs);
    let b = parts.p9.into_push_pull_output(&mut parts.regs);
    a.set_high(&mut parts.regs);
    b.set_high(&mut parts.regs);
    assert_eq!(bit1(parts.regs.odr, 6), 1);
    assert_eq!(bit1(parts.regs.odr, 9), 1);
    assert!(a.is_set_high(&parts.regs));
    a.set_low(&mut parts.regs);
    assert_eq!(bit1(parts.regs.odr, 6), 0);
    assert_eq!(bit1(parts.regs.odr, 9), 1);
    b.toggle(&mut parts.regs);
    assert_eq!(bit1(parts.regs.odr, 9), 0);
    b.toggle(&mut parts.regs);
    assert_eq!(bit1(parts.regs.odr, 9), 1);
    assert_eq!(bit1(parts.regs.odr, 6), 0);
}

#[test]
fn input_pins_read_the_simulated_line_level() {
    let mut parts = PortRegs::reset().split();
    let button = parts.p13.into_pull_up_input(&mut parts.regs);
    assert!(button.is_low(&parts.regs));
    parts.regs.sim_drive(13, true);
    assert!(button.is_high(&parts.regs));
    parts.regs.sim_drive(13, false);
    assert!(button.is_low(&parts.regs));
}

#[test]
fn split_numbers_every_pin() {
    let parts = PortRegs::reset().split();
    assert_eq!(parts.p0.index(), 0);
    assert_eq!(parts.p8.index(), 8);
    assert_eq!(parts.p15.index(), 15);
}
