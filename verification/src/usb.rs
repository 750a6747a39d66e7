//! USB full-speed device controller driver.
//!
//! The driver is split into:
//!
//! - [`endpoint_memory`]: the packet-SRAM arena, the one-shot buffer
//!   allocator and the word-addressed endpoint buffers;
//! - [`registers`]: plain register images for the controller's global and
//!   per-endpoint registers;
//! - [`endpoints`]: the control, single-buffered and double-buffered
//!   endpoint state machines;
//! - [`bus`]: the top-level allocate/enable/reset/poll/transfer driver that
//!   a generic USB device stack drives.
//!
//! The vocabulary types shared by all of them — endpoint addresses,
//! directions, transfer types, poll results and the error taxonomy — are
//! defined here.

use vstd::prelude::*;

pub mod bus;
pub mod endpoint_memory;
pub mod endpoints;
pub mod registers;

verus! {

/// The direction of a USB endpoint or transfer, seen from the device.
#[derive(Debug, Clone, Copy, PartialEq, Eq, Structural)]
pub enum UsbDirection {
    /// Host to device.
    Out,
    /// Device to host.
    In,
}

/// The transfer type of a USB endpoint.
#[derive(Debug, Clone, Copy, PartialEq, Eq, Structural)]
pub enum EndpointType {
    Control,
    Isochronous,
    Bulk,
    Interrupt,
}

/// A logical endpoint: a 0-15 index combined with a direction.
#[derive(Debug, Clone, Copy, PartialEq, Eq, Structural)]
pub struct EndpointAddress {
    /// The endpoint index.  The hardware provides endpoints 0 through 7.
    pub index: u8,
    /// The endpoint direction.
    pub direction: UsbDirection,
}

impl EndpointAddress {
    /// Combine an index and a direction into an endpoint address.
    pub fn from_parts(index: usize, direction: UsbDirection) -> (r: EndpointAddress)
        requires
            index < 128,
        ensures
            r.index == index,
            r.direction == direction,
    {
        EndpointAddress { index: index as u8, direction }
    }

    /// The endpoint index.
    pub fn index(&self) -> (r: usize)
        ensures
            r == self.index,
    {
        self.index as usize
    }

    /// The endpoint direction.
    pub fn direction(&self) -> (r: UsbDirection)
        ensures
            r == self.direction,
    {
        self.direction
    }

    /// Whether this is an IN (device-to-host) endpoint.
    pub fn is_in(&self) -> (r: bool)
        ensures
            r == (self.direction == UsbDirection::In),
    {
        self.direction == UsbDirection::In
    }

    /// Whether this is an OUT (host-to-device) endpoint.
    pub fn is_out(&self) -> (r: bool)
        ensures
            r == (self.direction == UsbDirection::Out),
    {
        self.direction == UsbDirection::Out
    }
}

/// Errors surfaced to the device stack.  All of them are local, recoverable
/// conditions reported synchronously to the immediate caller.
#[derive(Debug, Clone, Copy, PartialEq, Eq, Structural)]
pub enum UsbError {
    /// The endpoint address is out of range, has the wrong direction for the
    /// operation, or is reserved (a non-zero address requested for Control).
    InvalidEndpoint,
    /// No free endpoint slot matches the requested type/direction
    /// combination.
    EndpointOverflow,
    /// The packet-SRAM arena was exhausted during allocation.
    EndpointMemoryOverflow,
    /// The caller-supplied buffer is too small for the data available.
    BufferOverflow,
    /// Transient condition: a transfer is still in flight, or no data or
    /// event is currently available.  The caller must retry later.
    WouldBlock,
    /// A buffer has not been assigned yet when an operation was attempted.
    InvalidState,
}

/// The event categories a [`bus::UsbBus::poll`] call can report.  `poll`
/// checks the conditions in the strict priority order Resume, then Reset,
/// then Suspend, then per-endpoint data.
#[derive(Debug, Clone, Copy, PartialEq, Eq, Structural)]
pub enum PollResult {
    /// No pending event.
    NoEvent,
    /// The host signalled a bus reset.
    Reset,
    /// Per-endpoint data events, one bit per endpoint index.
    Data {
        /// Endpoints with received OUT data pending.
        ep_out: u16,
        /// Endpoints whose IN transmission completed.
        ep_in_complete: u16,
        /// Endpoints with a received SETUP packet pending.
        ep_setup: u16,
    },
    /// The bus went idle long enough to signal suspend.
    Suspend,
    /// The host signalled resume from suspend.
    Resume,
}

} // verus!
