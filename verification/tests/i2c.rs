use py32_hal::i2c::{Follower, I2cRegs};

#[test]
fn one_transaction_carries_exactly_its_bytes_and_rearms_ack() {
    let mut follower = Follower::new(I2cRegs::reset(), 0x2A);
    assert!(follower.regs.sim_address_match());
    assert!(follower.poll().is_none());
    assert!(follower.regs.sim_receive(0x11));
    assert!(follower.poll().is_none());
    assert!(follower.regs.sim_receive(0x22));
    assert!(follower.poll().is_none());
    follower.regs.sim_stop();
    let transaction = follower.poll().expect("stop must complete the transaction");
    assert_eq!(transaction.bytes, vec![0x11, 0x22]);
    // Acknowledgment was re-armed: the next address match is answered.
    assert!(follower.regs.ack);
    assert!(follower.regs.sim_address_match());
}

#[test]
fn back_to_back_pending_events_are_drained_in_one_poll() {
    let mut follower = Follower::new(I2cRegs::reset(), 0x50);
    assert!(follower.regs.sim_address_match());
    assert!(follower.regs.sim_receive(0x7F));
    follower.regs.sim_stop();
    let transaction = follower.poll().expect("all three events resolve at once");
    assert_eq!(transaction.bytes, vec![0x7F]);
    assert!(!follower.regs.addr);
    assert!(!follower.regs.rxne);
    assert!(!follower.regs.stopf);
}

#[test]
fn empty_transaction_yields_no_bytes() {
    let mut follower = Follower::new(I2cRegs::reset(), 0x31);
    assert!(follower.regs.sim_address_match());
    assert!(follower.poll().is_none());
    follower.regs.sim_stop();
    let transaction = follower.poll().expect("an addressed stop completes");
    assert!(transaction.bytes.is_empty());
}

#[test]
fn stray_stop_without_transaction_rearms_and_yields_nothing() {
    let mut follower = Follower::new(I2cRegs::reset(), 0x44);
    follower.regs.sim_stop();
    assert!(follower.poll().is_none());
    assert!(follower.regs.ack);
    assert!(!follower.regs.stopf);
}

#[test]
fn unarmed_follower_does_not_acknowledge() {
    let mut follower = Follower::new(I2cRegs::reset(), 0x44);
    follower.regs.sim_stop();
    // The stop dropped the acknowledge arming; before the driver clears
    // the flag and re-arms, an address match goes unanswered.
    assert!(!follower.regs.sim_address_match());
    assert!(follower.poll().is_none());
    assert!(follower.regs.sim_address_match());
}

#[test]
fn stretched_byte_is_not_lost() {
    let mut follower = Follower::new(I2cRegs::reset(), 0x19);
    assert!(follower.regs.sim_address_match());
    assert!(follower.regs.sim_receive(0x01));
    // A second byte cannot land while the first is unread: the wire
    // stretches and the delivery reports so.
    assert!(!follower.regs.sim_receive(0x02));
    assert!(follower.poll().is_none());
    // After the driver drained the first byte, the retry lands.
    assert!(follower.regs.sim_receive(0x02));
    follower.regs.sim_stop();
    let transaction = follower.poll().expect("transaction completes");
    assert_eq!(transaction.bytes, vec![0x01, 0x02]);
}

#[test]
fn two_transactions_in_sequence_stay_separate() {
    let mut follower = Follower::new(I2cRegs::reset(), 0x2A);
    assert!(follower.regs.sim_address_match());
    assert!(follower.regs.sim_receive(0xAA));
    follower.regs.sim_stop();
    let first = follower.poll().expect("first transaction");
    assert_eq!(first.bytes, vec![0xAA]);
    assert!(follower.regs.sim_address_match());
    assert!(follower.regs.sim_receive(0xBB));
    follower.regs.sim_stop();
    let second = follower.poll().expect("second transaction");
    assert_eq!(second.bytes, vec![0xBB]);
}

#[test]
fn release_hands_back_the_i2c_block() {
    let follower = Follower::new(I2cRegs::reset(), 0x2A);
    let regs = follower.release();
    assert!(regs.enabled);
    assert_eq!(regs.own_address, 0x2A);
    assert!(regs.ack);
}
