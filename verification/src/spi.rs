//! Serial Peripheral Interface: configuration and event bookkeeping.
//!
//! The controller state is represented by a register image
//! ([`SpiRegisters`]); enabling and disabling event interrupts are verified
//! updates of that image.  The word-by-word transfer engine polls hardware
//! status flags and lives outside the verified core.

use crate::ckcu::Clocks;
use crate::time::Hertz;
use crate::Sealed;
use vstd::prelude::*;

verus! {

/// Errors reported by the SPI controller.
#[non_exhaustive]
#[derive(Debug, Clone, Copy, PartialEq, Eq, Structural)]
pub enum Error {
    /// Overrun occurred
    Overrun,
    /// Write collision occurred
    WriteCollision,
}

/// Events that can raise an SPI interrupt.
#[derive(Debug, Clone, Copy, PartialEq, Eq, Structural)]
pub enum Event {
    ModeFault,
    ReadOverrun,
    WriteCollision,
    RxBufferNotEmpty,
    TxEmpty,
    TxBufferEmpty,
}

/// Image of the SPI interrupt-enable register.
#[derive(Debug, Clone, Copy, PartialEq, Eq, Structural)]
pub struct SpiIer {
    pub mfien: bool,
    pub roien: bool,
    pub wcien: bool,
    pub rxbneien: bool,
    pub txeien: bool,
    pub txbeien: bool,
}

/// Image of the SPI controller registers the driver manages.
#[derive(Debug, Clone, Copy, PartialEq, Eq, Structural)]
pub struct SpiRegisters {
    pub ier: SpiIer,
}

/// The interrupt-enable image with the bit for `event` set to `value` and
/// all other bits unchanged.
pub open spec fn ier_with(ier: SpiIer, event: Event, value: bool) -> SpiIer {
    match event {
        Event::ModeFault => SpiIer { mfien: value, ..ier },
        Event::ReadOverrun => SpiIer { roien: value, ..ier },
        Event::WriteCollision => SpiIer { wcien: value, ..ier },
        Event::RxBufferNotEmpty => SpiIer { rxbneien: value, ..ier },
        Event::TxEmpty => SpiIer { txeien: value, ..ier },
        Event::TxBufferEmpty => SpiIer { txbeien: value, ..ier },
    }
}

/// Marker trait for pins that can serve as SCK for the SPI peripheral `SPI`.
pub trait PinSck<SPI> {
}

/// Marker trait for pins that can serve as MISO for the SPI peripheral `SPI`.
pub trait PinMiso<SPI> {
}

/// Marker trait for pins that can serve as MOSI for the SPI peripheral `SPI`.
pub trait PinMosi<SPI> {
}

/// An SPI controller.
#[derive(Debug)]
pub struct Spi {
    pub regs: SpiRegisters,
}

/// Extension trait that turns an SPI peripheral into a [`Spi`] driver.
pub trait SpiExt<SPI>: Sealed {
    /// Create a driver, checking the pin assignment at compile time.
    fn spi<SCK: PinSck<SPI>, MISO: PinMiso<SPI>, MOSI: PinMosi<SPI>>(
        self,
        sck: SCK,
        miso: MISO,
        mosi: MOSI,
        freq: Hertz,
        clocks: &Clocks,
    ) -> Spi;

    /// Create a driver without checking the pin assignment.
    fn spi_unchecked(self, freq: Hertz, clocks: &Clocks) -> Spi;
}

impl Spi {
    /// Release the controller, handing back its register image.
    pub fn free(self) -> (r: SpiRegisters)
        ensures
            r == self.regs,
    {
        self.regs
    }

    /// Enable the interrupt for `event`.
    pub fn listen(&mut self, event: Event)
        ensures
            final(self).regs == (SpiRegisters {
                ier: ier_with(old(self).regs.ier, event, true),
            }),
    {
        match event {
            Event::ModeFault => self.regs.ier.mfien = true,
            Event::ReadOverrun => self.regs.ier.roien = true,
            Event::WriteCollision => self.regs.ier.wcien = true,
            Event::RxBufferNotEmpty => self.regs.ier.rxbneien = true,
            Event::TxEmpty => self.regs.ier.txeien = true,
            Event::TxBufferEmpty => self.regs.ier.txbeien = true,
        }
    }

    /// Disable the interrupt for `event`.
    pub fn unlisten(&mut self, event: Event)
        ensures
            final(self).regs == (SpiRegisters {
                ier: ier_with(old(self).regs.ier, event, false),
            }),
    {
        match event {
            Event::ModeFault => self.regs.ier.mfien = false,
            Event::ReadOverrun => self.regs.ier.roien = false,
            Event::WriteCollision => self.regs.ier.wcien = false,
            Event::RxBufferNotEmpty => self.regs.ier.rxbneien = false,
            Event::TxEmpty => self.regs.ier.txeien = false,
            Event::TxBufferEmpty => self.regs.ier.txbeien = false,
        }
    }
}

} // verus!
