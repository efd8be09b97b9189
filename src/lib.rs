//! Runtime core of a small ARM64 kernel running at EL2: exception dispatch and diagnostics, a
//! GIC v2 interrupt manager with a bounded handler table, the boot-phase state machine and the
//! two locks that depend on it, with the board's UART, GPIO and e-paper panel drivers.
//!
//! Hardware state that the logic reads (registers, the IRQ mask bit, the kernel phase) is held
//! as plain values; the platform reads and writes the devices and hands the values over.
use vstd::prelude::*;

pub mod display;
pub mod epd;
pub mod epdisplay;
pub mod exception;
pub mod gic;
pub mod gpio;
pub mod interupts;
pub mod locks;
pub mod state;
pub mod text;
pub mod uart;

verus! {

} // verus!
