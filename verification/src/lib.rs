//! Hardware-abstraction core for a small PY32-class microcontroller family.
//!
//! The crate models the memory-mapped peripheral blocks (clock controller,
//! GPIO ports, USART, I2C, timer) as plain register values and builds a safe
//! programming surface on top of them:
//!
//! - a clock-tree configuration engine that validates requested frequencies
//!   and commits them atomically into an immutable [`rcc::Clocks`] record;
//! - a pin capability model that tracks each GPIO line's electrical mode in
//!   its type, so that only the operations legal in the current mode exist;
//! - poll-based peripheral drivers (serial, I2C follower, timer) sharing one
//!   blocking/non-blocking contract, [`Poll`].
//!
//! Register blocks behave as the hardware does after a write has settled;
//! each block also carries a wire-side simulation surface (`sim_*` methods)
//! through which a test bench plays the role of the outside world.

use vstd::prelude::*;

pub mod bitfield;
pub mod gpio;
pub mod i2c;
pub mod pac;
pub mod rcc;
pub mod serial;
pub mod system_init;
pub mod timer;

verus! {

/// Outcome of a single non-blocking poll of a peripheral.
///
/// `Ready` carries the completed value, `Pending` means the hardware cannot
/// complete the operation yet (not an error; the caller retries), and
/// `Fault` carries a peripheral fault, always distinct from `Pending`.
pub enum Poll<T, F> {
    Ready(T),
    Pending,
    Fault(F),
}

} // verus!
