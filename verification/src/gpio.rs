//! GPIO port model and the pin capability types.
//!
//! A port packs the configuration of its sixteen pins into shared 32-bit
//! registers: mode (2 bits per pin), output type (1 bit), speed (2 bits),
//! pull-up/down (2 bits) and alternate function (4 bits, split over a low
//! and a high register half). A [`Pin`] carries its electrical mode in its
//! type: only the operations legal in that mode exist on the handle, and a
//! mode transition consumes the old handle and returns one of the new type
//! after rewriting exactly that pin's register slots. Every operation is
//! proved to leave the configuration of every sibling pin on the same port
//! unchanged.

use vstd::prelude::*;
use core::marker::PhantomData;
use crate::bitfield::{field1, field2, field4, set_field1, set_field2, set_field4, get_field1};

verus! {

/// Mode-field encoding: general-purpose input.
pub const MODE_INPUT: u32 = 0;

/// Mode-field encoding: general-purpose output.
pub const MODE_OUTPUT: u32 = 1;

/// Mode-field encoding: alternate function.
pub const MODE_ALTERNATE: u32 = 2;

/// Mode-field encoding: analog.
pub const MODE_ANALOG: u32 = 3;

/// Output-type encoding: push-pull.
pub const OTYPE_PUSH_PULL: u32 = 0;

/// Output-type encoding: open-drain.
pub const OTYPE_OPEN_DRAIN: u32 = 1;

/// Pull-up/down encoding: no pull.
pub const PULL_NONE: u32 = 0;

/// Pull-up/down encoding: pull-up.
pub const PULL_UP: u32 = 1;

/// Pull-up/down encoding: pull-down.
pub const PULL_DOWN: u32 = 2;

/// Speed encoding used for every configuration this model writes.
pub const SPEED_LOW: u32 = 0;

/// One GPIO port's register block. All fields are shared by the port's
/// sixteen pins, one fixed-width slot per pin.
#[derive(Clone, Copy, PartialEq, Eq, Structural, Debug)]
pub struct PortRegs {
    /// Pin mode, 2 bits per pin.
    pub moder: u32,
    /// Output type, 1 bit per pin.
    pub otyper: u32,
    /// Output speed, 2 bits per pin.
    pub ospeedr: u32,
    /// Pull-up/down, 2 bits per pin.
    pub pupdr: u32,
    /// Output data, 1 bit per pin.
    pub odr: u32,
    /// Input data, 1 bit per pin; driven by the wire side.
    pub idr: u32,
    /// Alternate function for pins 0..=7, 4 bits per pin.
    pub afrl: u32,
    /// Alternate function for pins 8..=15, 4 bits per pin.
    pub afrh: u32,
}

impl PortRegs {
    /// The port at hardware reset: every pin a floating input, all outputs
    /// low.
    pub open spec fn spec_reset() -> PortRegs {
        PortRegs { moder: 0, otyper: 0, ospeedr: 0, pupdr: 0, odr: 0, idr: 0, afrl: 0, afrh: 0 }
    }

    pub fn reset() -> (r: PortRegs)
        ensures
            r == PortRegs::spec_reset(),
    {
        PortRegs { moder: 0, otyper: 0, ospeedr: 0, pupdr: 0, odr: 0, idr: 0, afrl: 0, afrh: 0 }
    }

    /// The mode field of pin `n`.
    pub open spec fn mode_bits(self, n: u32) -> u32 {
        field2(self.moder, n)
    }

    /// The output-type bit of pin `n`.
    pub open spec fn otype_bit(self, n: u32) -> u32 {
        field1(self.otyper, n)
    }

    /// The speed field of pin `n`.
    pub open spec fn speed_bits(self, n: u32) -> u32 {
        field2(self.ospeedr, n)
    }

    /// The pull-up/down field of pin `n`.
    pub open spec fn pull_bits(self, n: u32) -> u32 {
        field2(self.pupdr, n)
    }

    /// The output-data bit of pin `n`.
    pub open spec fn out_bit(self, n: u32) -> u32 {
        field1(self.odr, n)
    }

    /// The input-data bit of pin `n`.
    pub open spec fn in_bit(self, n: u32) -> u32 {
        field1(self.idr, n)
    }

    /// The alternate-function field of pin `n`, read from the low or high
    /// half register.
    pub open spec fn af_bits(self, n: u32) -> u32 {
        if n < 8 {
            field4(self.afrl, n)
        } else {
            field4(self.afrh, (n - 8) as u32)
        }
    }

    /// Atomic bit-set write: raises the output-data bit of pin `n` without
    /// a read-modify-write of the shared output register.
    pub fn write_bsrr_set(&mut self, n: u32)
        requires
            n < 16,
        ensures
            final(self).out_bit(n) == 1,
            forall|j: u32| j < 16 && j != n ==> final(self).out_bit(j) == old(self).out_bit(j),
            final(self).moder == old(self).moder,
            final(self).otyper == old(self).otyper,
            final(self).ospeedr == old(self).ospeedr,
            final(self).pupdr == old(self).pupdr,
            final(self).idr == old(self).idr,
            final(self).afrl == old(self).afrl,
            final(self).afrh == old(self).afrh,
    {
        self.odr = set_field1(self.odr, n, 1);
    }

    /// Atomic bit-reset write: clears the output-data bit of pin `n`
    /// without a read-modify-write of the shared output register.
    pub fn write_bsrr_reset(&mut self, n: u32)
        requires
            n < 16,
        ensures
            final(self).out_bit(n) == 0,
            forall|j: u32| j < 16 && j != n ==> final(self).out_bit(j) == old(self).out_bit(j),
            final(self).moder == old(self).moder,
            final(self).otyper == old(self).otyper,
            final(self).ospeedr == old(self).ospeedr,
            final(self).pupdr == old(self).pupdr,
            final(self).idr == old(self).idr,
            final(self).afrl == old(self).afrl,
            final(self).afrh == old(self).afrh,
    {
        self.odr = set_field1(self.odr, n, 0);
    }

    /// Wire side of the model: the outside world drives the input level of
    /// pin `n`.
    pub fn sim_drive(&mut self, n: u32, high: bool)
        requires
            n < 16,
        ensures
            final(self).in_bit(n) == (if high { 1u32 } else { 0u32 }),
            forall|j: u32| j < 16 && j != n ==> final(self).in_bit(j) == old(self).in_bit(j),
            final(self).moder == old(self).moder,
            final(self).otyper == old(self).otyper,
            final(self).ospeedr == old(self).ospeedr,
            final(self).pupdr == old(self).pupdr,
            final(self).odr == old(self).odr,
            final(self).afrl == old(self).afrl,
            final(self).afrh == old(self).afrh,
    {
        self.idr = set_field1(self.idr, n, if high { 1 } else { 0 });
    }
}

/// The mode/type/speed/pull/alternate-function configuration of every pin
/// other than `n` is the same in `b` as in `a`.
pub open spec fn siblings_config_unchanged(a: PortRegs, b: PortRegs, n: u32) -> bool {
    forall|j: u32|
        j < 16 && j != n ==> {
            &&& b.mode_bits(j) == a.mode_bits(j)
            &&& b.otype_bit(j) == a.otype_bit(j)
            &&& b.speed_bits(j) == a.speed_bits(j)
            &&& b.pull_bits(j) == a.pull_bits(j)
            &&& b.af_bits(j) == a.af_bits(j)
        }
}

/// The output-data bit of every pin other than `n` is the same in `b` as
/// in `a`.
pub open spec fn siblings_out_unchanged(a: PortRegs, b: PortRegs, n: u32) -> bool {
    forall|j: u32| j < 16 && j != n ==> b.out_bit(j) == a.out_bit(j)
}

/// Configuring one pin, then driving it, never disturbs its siblings: a
/// chain of three operations on pin `n`, each of which preserves the
/// sibling configuration — such as a mode transition followed by raising
/// and lowering the output — leaves the mode/type/speed/pull/alternate-
/// function bits of every other pin on the port unchanged end to end.
pub proof fn lemma_sibling_config_preserved(
    r0: PortRegs,
    r1: PortRegs,
    r2: PortRegs,
    r3: PortRegs,
    n: u32,
)
    requires
        siblings_config_unchanged(r0, r1, n),
        siblings_config_unchanged(r1, r2, n),
        siblings_config_unchanged(r2, r3, n),
    ensures
        siblings_config_unchanged(r0, r3, n),
{
    assert forall|j: u32| j < 16 && j != n implies {
        &&& r3.mode_bits(j) == r0.mode_bits(j)
        &&& r3.otype_bit(j) == r0.otype_bit(j)
        &&& r3.speed_bits(j) == r0.speed_bits(j)
        &&& r3.pull_bits(j) == r0.pull_bits(j)
        &&& r3.af_bits(j) == r0.af_bits(j)
    } by {
        assert(r1.mode_bits(j) == r0.mode_bits(j));
        assert(r2.mode_bits(j) == r1.mode_bits(j));
        assert(r3.mode_bits(j) == r2.mode_bits(j));
    }
}

/// Marker: floating input, the hardware reset mode.
pub struct FloatingInput;

/// Marker: input with pull-up.
pub struct PullUpInput;

/// Marker: input with pull-down.
pub struct PullDownInput;

/// Marker: push-pull output.
pub struct PushPullOutput;

/// Marker: open-drain output.
pub struct OpenDrainOutput;

/// Marker: analog mode; no pin-side operation exists, the line belongs to
/// an analog converter.
pub struct Analog;

/// Marker: alternate function; no pin-side operation exists, the line
/// belongs to the peripheral that claims it.
pub struct AlternateFunction;

/// Modes whose handles expose the output operations.
pub trait OutputMode {

}

impl OutputMode for PushPullOutput {

}

impl OutputMode for OpenDrainOutput {

}

/// Modes whose handles expose the level-read operations.
pub trait InputMode {

}

impl InputMode for FloatingInput {

}

impl InputMode for PullUpInput {

}

impl InputMode for PullDownInput {

}

/// One GPIO line, with its current electrical mode as part of its type.
/// Mode transitions consume the handle; the old-mode handle cannot be used
/// afterwards.
pub struct Pin<MODE> {
    n: u8,
    _mode: PhantomData<MODE>,
}

impl<MODE> Pin<MODE> {
    #[verifier::type_invariant]
    spec fn type_inv(self) -> bool {
        self.n < 16
    }

    /// The pin's position within its port, 0..=15.
    pub closed spec fn num(self) -> u8 {
        self.n
    }

    /// The pin's position as a register slot index.
    pub fn index(&self) -> (r: u8)
        ensures
            r == self.num(),
            r < 16,
    {
        proof {
            use_type_invariant(&self);
        }
        self.n
    }

    /// Reconfigures the pin as a floating input.
    pub fn into_floating_input(self, regs: &mut PortRegs) -> (r: Pin<FloatingInput>)
        ensures
            r.num() == self.num(),
            final(regs).mode_bits(self.num() as u32) == MODE_INPUT,
            final(regs).otype_bit(self.num() as u32) == OTYPE_PUSH_PULL,
            final(regs).speed_bits(self.num() as u32) == SPEED_LOW,
            final(regs).pull_bits(self.num() as u32) == PULL_NONE,
            siblings_config_unchanged(*old(regs), *final(regs), self.num() as u32),
            final(regs).odr == old(regs).odr,
            final(regs).idr == old(regs).idr,
            final(regs).afrl == old(regs).afrl,
            final(regs).afrh == old(regs).afrh,
    {
        let n = self.configure(regs, MODE_INPUT, OTYPE_PUSH_PULL, PULL_NONE);
        Pin { n, _mode: PhantomData }
    }

    /// Reconfigures the pin as an input with pull-up.
    pub fn into_pull_up_input(self, regs: &mut PortRegs) -> (r: Pin<PullUpInput>)
        ensures
            r.num() == self.num(),
            final(regs).mode_bits(self.num() as u32) == MODE_INPUT,
            final(regs).otype_bit(self.num() as u32) == OTYPE_PUSH_PULL,
            final(regs).speed_bits(self.num() as u32) == SPEED_LOW,
            final(regs).pull_bits(self.num() as u32) == PULL_UP,
            siblings_config_unchanged(*old(regs), *final(regs), self.num() as u32),
            final(regs).odr == old(regs).odr,
            final(regs).idr == old(regs).idr,
            final(regs).afrl == old(regs).afrl,
            final(regs).afrh == old(regs).afrh,
    {
        let n = self.configure(regs, MODE_INPUT, OTYPE_PUSH_PULL, PULL_UP);
        Pin { n, _mode: PhantomData }
    }

    /// Reconfigures the pin as an input with pull-down.
    pub fn into_pull_down_input(self, regs: &mut PortRegs) -> (r: Pin<PullDownInput>)
        ensures
            r.num() == self.num(),
            final(regs).mode_bits(self.num() as u32) == MODE_INPUT,
            final(regs).otype_bit(self.num() as u32) == OTYPE_PUSH_PULL,
            final(regs).speed_bits(self.num() as u32) == SPEED_LOW,
            final(regs).pull_bits(self.num() as u32) == PULL_DOWN,
            siblings_config_unchanged(*old(regs), *final(regs), self.num() as u32),
            final(regs).odr == old(regs).odr,
            final(regs).idr == old(regs).idr,
            final(regs).afrl == old(regs).afrl,
            final(regs).afrh == old(regs).afrh,
    {
        let n = self.configure(regs, MODE_INPUT, OTYPE_PUSH_PULL, PULL_DOWN);
        Pin { n, _mode: PhantomData }
    }

    /// Reconfigures the pin as a push-pull output.
    pub fn into_push_pull_output(self, regs: &mut PortRegs) -> (r: Pin<PushPullOutput>)
        ensures
            r.num() == self.num(),
            final(regs).mode_bits(self.num() as u32) == MODE_OUTPUT,
            final(regs).otype_bit(self.num() as u32) == OTYPE_PUSH_PULL,
            final(regs).speed_bits(self.num() as u32) == SPEED_LOW,
            final(regs).pull_bits(self.num() as u32) == PULL_NONE,
            siblings_config_unchanged(*old(regs), *final(regs), self.num() as u32),
            final(regs).odr == old(regs).odr,
            final(regs).idr == old(regs).idr,
            final(regs).afrl == old(regs).afrl,
            final(regs).afrh == old(regs).afrh,
    {
        let n = self.configure(regs, MODE_OUTPUT, OTYPE_PUSH_PULL, PULL_NONE);
        Pin { n, _mode: PhantomData }
    }

    /// Reconfigures the pin as an open-drain output.
    pub fn into_open_drain_output(self, regs: &mut PortRegs) -> (r: Pin<OpenDrainOutput>)
        ensures
            r.num() == self.num(),
            final(regs).mode_bits(self.num() as u32) == MODE_OUTPUT,
            final(regs).otype_bit(self.num() as u32) == OTYPE_OPEN_DRAIN,
            final(regs).speed_bits(self.num() as u32) == SPEED_LOW,
            final(regs).pull_bits(self.num() as u32) == PULL_NONE,
            siblings_config_unchanged(*old(regs), *final(regs), self.num() as u32),
            final(regs).odr == old(regs).odr,
            final(regs).idr == old(regs).idr,
            final(regs).afrl == old(regs).afrl,
            final(regs).afrh == old(regs).afrh,
    {
        let n = self.configure(regs, MODE_OUTPUT, OTYPE_OPEN_DRAIN, PULL_NONE);
        Pin { n, _mode: PhantomData }
    }

    /// Reconfigures the pin as an analog line. The returned handle exposes
    /// no digital operation.
    pub fn into_analog(self, regs: &mut PortRegs) -> (r: Pin<Analog>)
        ensures
            r.num() == self.num(),
            final(regs).mode_bits(self.num() as u32) == MODE_ANALOG,
            final(regs).otype_bit(self.num() as u32) == OTYPE_PUSH_PULL,
            final(regs).speed_bits(self.num() as u32) == SPEED_LOW,
            final(regs).pull_bits(self.num() as u32) == PULL_NONE,
            siblings_config_unchanged(*old(regs), *final(regs), self.num() as u32),
            final(regs).odr == old(regs).odr,
            final(regs).idr == old(regs).idr,
            final(regs).afrl == old(regs).afrl,
            final(regs).afrh == old(regs).afrh,
    {
        let n = self.configure(regs, MODE_ANALOG, OTYPE_PUSH_PULL, PULL_NONE);
        Pin { n, _mode: PhantomData }
    }

    /// Routes the pin to alternate function `af`. The returned handle
    /// exposes no pin-side operation; the line belongs to the claiming
    /// peripheral.
    pub fn into_alternate(self, regs: &mut PortRegs, af: u8) -> (r: Pin<AlternateFunction>)
        requires
            af < 16,
        ensures
            r.num() == self.num(),
            final(regs).mode_bits(self.num() as u32) == MODE_ALTERNATE,
            final(regs).otype_bit(self.num() as u32) == OTYPE_PUSH_PULL,
            final(regs).speed_bits(self.num() as u32) == SPEED_LOW,
            final(regs).pull_bits(self.num() as u32) == PULL_NONE,
            final(regs).af_bits(self.num() as u32) == af,
            siblings_config_unchanged(*old(regs), *final(regs), self.num() as u32),
            final(regs).odr == old(regs).odr,
            final(regs).idr == old(regs).idr,
    {
        proof {
            use_type_invariant(&self);
        }
        let n = self.configure(regs, MODE_ALTERNATE, OTYPE_PUSH_PULL, PULL_NONE);
        let i = n as u32;
        if i < 8 {
            regs.afrl = set_field4(regs.afrl, i, af as u32);
        } else {
            regs.afrh = set_field4(regs.afrh, i - 8, af as u32);
        }
        proof {
            assert forall|j: u32| j < 16 && j != i implies final(regs).af_bits(j) == old(
                regs,
            ).af_bits(j) by {
            }
        }
        Pin { n, _mode: PhantomData }
    }

    /// Writes the mode, output-type, speed and pull-up/down slots of this
    /// pin, leaving every sibling slot and the data registers unchanged.
    fn configure(&self, regs: &mut PortRegs, mode: u32, otype: u32, pull: u32) -> (n: u8)
        requires
            mode < 4,
            otype < 2,
            pull < 4,
        ensures
            n == self.num(),
            n < 16,
            final(regs).mode_bits(n as u32) == mode,
            final(regs).otype_bit(n as u32) == otype,
            final(regs).speed_bits(n as u32) == SPEED_LOW,
            final(regs).pull_bits(n as u32) == pull,
            siblings_config_unchanged(*old(regs), *final(regs), n as u32),
            final(regs).odr == old(regs).odr,
            final(regs).idr == old(regs).idr,
            final(regs).afrl == old(regs).afrl,
            final(regs).afrh == old(regs).afrh,
    {
        proof {
            use_type_invariant(self);
        }
        let i = self.n as u32;
        regs.moder = set_field2(regs.moder, i, mode);
        regs.otyper = set_field1(regs.otyper, i, otype);
        regs.ospeedr = set_field2(regs.ospeedr, i, SPEED_LOW);
        regs.pupdr = set_field2(regs.pupdr, i, pull);
        self.n
    }
}

impl<MODE: OutputMode> Pin<MODE> {
    /// Drives the line high through the atomic bit-set register.
    pub fn set_high(&self, regs: &mut PortRegs)
        ensures
            final(regs).out_bit(self.num() as u32) == 1,
            siblings_out_unchanged(*old(regs), *final(regs), self.num() as u32),
            siblings_config_unchanged(*old(regs), *final(regs), self.num() as u32),
            final(regs).moder == old(regs).moder,
            final(regs).otyper == old(regs).otyper,
            final(regs).ospeedr == old(regs).ospeedr,
            final(regs).pupdr == old(regs).pupdr,
            final(regs).idr == old(regs).idr,
            final(regs).afrl == old(regs).afrl,
            final(regs).afrh == old(regs).afrh,
    {
        proof {
            use_type_invariant(self);
        }
        regs.write_bsrr_set(self.n as u32);
    }

    /// Drives the line low through the atomic bit-reset register.
    pub fn set_low(&self, regs: &mut PortRegs)
        ensures
            final(regs).out_bit(self.num() as u32) == 0,
            siblings_out_unchanged(*old(regs), *final(regs), self.num() as u32),
            siblings_config_unchanged(*old(regs), *final(regs), self.num() as u32),
            final(regs).moder == old(regs).moder,
            final(regs).otyper == old(regs).otyper,
            final(regs).ospeedr == old(regs).ospeedr,
            final(regs).pupdr == old(regs).pupdr,
            final(regs).idr == old(regs).idr,
            final(regs).afrl == old(regs).afrl,
            final(regs).afrh == old(regs).afrh,
    {
        proof {
            use_type_invariant(self);
        }
        regs.write_bsrr_reset(self.n as u32);
    }

    /// Inverts the line, writing the opposite of the current output bit
    /// through the atomic set/reset register.
    pub fn toggle(&self, regs: &mut PortRegs)
        ensures
            (final(regs).out_bit(self.num() as u32) == 1) <==> (old(regs).out_bit(
                self.num() as u32,
            ) == 0),
            siblings_out_unchanged(*old(regs), *final(regs), self.num() as u32),
            siblings_config_unchanged(*old(regs), *final(regs), self.num() as u32),
            final(regs).moder == old(regs).moder,
            final(regs).otyper == old(regs).otyper,
            final(regs).ospeedr == old(regs).ospeedr,
            final(regs).pupdr == old(regs).pupdr,
            final(regs).idr == old(regs).idr,
            final(regs).afrl == old(regs).afrl,
            final(regs).afrh == old(regs).afrh,
    {
        proof {
            use_type_invariant(self);
            crate::bitfield::lemma_field_bounds(regs.odr, self.n as u32);
        }
        let bit = get_field1(regs.odr, self.n as u32);
        if bit == 0 {
            regs.write_bsrr_set(self.n as u32);
        } else {
            regs.write_bsrr_reset(self.n as u32);
        }
    }

    /// Whether the output-data bit currently drives the line high.
    pub fn is_set_high(&self, regs: &PortRegs) -> (r: bool)
        ensures
            r == (regs.out_bit(self.num() as u32) == 1),
    {
        proof {
            use_type_invariant(self);
        }
        get_field1(regs.odr, self.n as u32) == 1
    }
}

impl<MODE: InputMode> Pin<MODE> {
    /// Whether the line currently reads high.
    pub fn is_high(&self, regs: &PortRegs) -> (r: bool)
        ensures
            r == (regs.in_bit(self.num() as u32) == 1),
    {
        proof {
            use_type_invariant(self);
        }
        get_field1(regs.idr, self.n as u32) == 1
    }

    /// Whether the line currently reads low.
    pub fn is_low(&self, regs: &PortRegs) -> (r: bool)
        ensures
            r == (regs.in_bit(self.num() as u32) == 0),
    {
        proof {
            use_type_invariant(self);
            crate::bitfield::lemma_field_bounds(regs.idr, self.n as u32);
        }
        get_field1(regs.idr, self.n as u32) == 0
    }
}

/// One port split into its register block and sixteen pin handles, each in
/// the hardware reset mode.
pub struct Parts {
    /// The port's shared registers; every pin operation works through them.
    pub regs: PortRegs,
    pub p0: Pin<FloatingInput>,
    pub p1: Pin<FloatingInput>,
    pub p2: Pin<FloatingInput>,
    pub p3: Pin<FloatingInput>,
    pub p4: Pin<FloatingInput>,
    pub p5: Pin<FloatingInput>,
    pub p6: Pin<FloatingInput>,
    pub p7: Pin<FloatingInput>,
    pub p8: Pin<FloatingInput>,
    pub p9: Pin<FloatingInput>,
    pub p10: Pin<FloatingInput>,
    pub p11: Pin<FloatingInput>,
    pub p12: Pin<FloatingInput>,
    pub p13: Pin<FloatingInput>,
    pub p14: Pin<FloatingInput>,
    pub p15: Pin<FloatingInput>,
}

impl Parts {
    /// Each handle carries its own pin position.
    pub open spec fn spec_numbered(self) -> bool {
        &&& self.p0.num() == 0
        &&& self.p1.num() == 1
        &&& self.p2.num() == 2
        &&& self.p3.num() == 3
        &&& self.p4.num() == 4
        &&& self.p5.num() == 5
        &&& self.p6.num() == 6
        &&& self.p7.num() == 7
        &&& self.p8.num() == 8
        &&& self.p9.num() == 9
        &&& self.p10.num() == 10
        &&& self.p11.num() == 11
        &&& self.p12.num() == 12
        &&& self.p13.num() == 13
        &&& self.p14.num() == 14
        &&& self.p15.num() == 15
    }
}

impl PortRegs {
    /// Consumes the port block and hands out one handle per pin, each
    /// typed to the reset mode.
    pub fn split(self) -> (r: Parts)
        ensures
            r.regs == self,
            r.spec_numbered(),
    {
        Parts {
            regs: self,
            p0: Pin { n: 0, _mode: PhantomData },
            p1: Pin { n: 1, _mode: PhantomData },
            p2: Pin { n: 2, _mode: PhantomData },
            p3: Pin { n: 3, _mode: PhantomData },
            p4: Pin { n: 4, _mode: PhantomData },
            p5: Pin { n: 5, _mode: PhantomData },
            p6: Pin { n: 6, _mode: PhantomData },
            p7: Pin { n: 7, _mode: PhantomData },
            p8: Pin { n: 8, _mode: PhantomData },
            p9: Pin { n: 9, _mode: PhantomData },
            p10: Pin { n: 10, _mode: PhantomData },
            p11: Pin { n: 11, _mode: PhantomData },
            p12: Pin { n: 12, _mode: PhantomData },
            p13: Pin { n: 13, _mode: PhantomData },
            p14: Pin { n: 14, _mode: PhantomData },
            p15: Pin { n: 15, _mode: PhantomData },
        }
    }
}

} // verus!
