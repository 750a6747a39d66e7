//! Hardware abstraction layer for the HT32F1yyy family of ARM Cortex-M
//! microcontrollers.
//!
//! The centre of the crate is the USB full-speed device controller driver in
//! [`usb`]: endpoint packet-memory allocation, byte/word buffer marshalling,
//! the per-endpoint state machines and the bus-level poll/transfer protocol.
//! Hardware registers are represented by plain register-image structs
//! ([`usb::registers`]); every driver operation states in its contract how it
//! transforms the register image, the packet memory and the endpoint state.
//! The thin layer that mirrors a register image into the memory-mapped
//! peripheral (and that owns clocks, pins and interrupt masking) lives outside
//! the verified core.

use vstd::prelude::*;

pub mod ckcu;
pub mod gpio;
pub mod i2c;
pub mod spi;
pub mod time;
pub mod usb;

verus! {

/// Marker trait used to close extension traits of this crate against
/// downstream implementations.
pub trait Sealed {
}

} // verus!
