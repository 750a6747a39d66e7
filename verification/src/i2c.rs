//! Inter-Integrated Circuit interface: configuration and event bookkeeping.
//!
//! The controller state is represented by a register image
//! ([`I2cRegisters`]); enabling and disabling event interrupts and switching
//! the addressing mode are verified updates of that image.  The blocking
//! transaction engine polls hardware status flags and lives outside the
//! verified core.

use crate::ckcu::Clocks;
use crate::time::Hertz;
use crate::Sealed;
use vstd::prelude::*;

verus! {

/// Errors reported by the I2C controller.
#[non_exhaustive]
#[derive(Debug, Clone, Copy, PartialEq, Eq, Structural)]
pub enum Error {
    /// Arbitration error
    Arbitration,
    /// Bus error
    Bus,
    /// The slave didn't send ACK
    NotAcknowledge,
}

/// Events that can raise an I2C interrupt.
#[derive(Debug, Clone, Copy, PartialEq, Eq, Structural)]
pub enum Event {
    RxBufferFull,
    DataRegisterEmtpyTransmitter,
    DataRegisterEmptyReceiver,
    BusError,
    ReceivedNotAcknowledge,
    ArbitrationLoss,
    StopConditionDetected,
    StartConditionTransmit,
}

/// Seven-bit addressing mode (type state).
pub struct SevenBitAddress;

/// Ten-bit addressing mode (type state).
pub struct TenBitAddress;

/// Image of the I2C interrupt-enable register.
#[derive(Debug, Clone, Copy, PartialEq, Eq, Structural)]
pub struct I2cIer {
    pub rxbfie: bool,
    pub txdeie: bool,
    pub rxdneie: bool,
    pub buserrie: bool,
    pub rxnackie: bool,
    pub arblosie: bool,
    pub stoie: bool,
    pub staie: bool,
}

/// Image of the I2C control register.
#[derive(Debug, Clone, Copy, PartialEq, Eq, Structural)]
pub struct I2cCr {
    /// Addressing mode: ten-bit when set, seven-bit when clear.
    pub adrm: bool,
    /// Controller enable.
    pub i2cen: bool,
}

/// Image of the I2C controller registers the driver manages.
#[derive(Debug, Clone, Copy, PartialEq, Eq, Structural)]
pub struct I2cRegisters {
    pub ier: I2cIer,
    pub cr: I2cCr,
}

/// The interrupt-enable image with the bit for `event` set to `value` and
/// all other bits unchanged.
pub open spec fn ier_with(ier: I2cIer, event: Event, value: bool) -> I2cIer {
    match event {
        Event::RxBufferFull => I2cIer { rxbfie: value, ..ier },
        Event::DataRegisterEmtpyTransmitter => I2cIer { txdeie: value, ..ier },
        Event::DataRegisterEmptyReceiver => I2cIer { rxdneie: value, ..ier },
        Event::BusError => I2cIer { buserrie: value, ..ier },
        Event::ReceivedNotAcknowledge => I2cIer { rxnackie: value, ..ier },
        Event::ArbitrationLoss => I2cIer { arblosie: value, ..ier },
        Event::StopConditionDetected => I2cIer { stoie: value, ..ier },
        Event::StartConditionTransmit => I2cIer { staie: value, ..ier },
    }
}

/// An I2C controller in addressing mode `ADRM`.
#[derive(Debug)]
pub struct I2c<ADRM> {
    pub regs: I2cRegisters,
    pub addressing_mode: core::marker::PhantomData<ADRM>,
}

/// Marker trait for pins that can serve as SCL for the I2C peripheral `I2C`.
pub trait PinScl<I2C> {
}

/// Marker trait for pins that can serve as SDA for the I2C peripheral `I2C`.
pub trait PinSda<I2C> {
}

/// Extension trait that turns an I2C peripheral into an [`I2c`] driver.
pub trait I2cExt<I2C>: Sealed {
    /// Create a driver, checking the pin assignment at compile time.
    fn i2c<SCL: PinScl<I2C>, SDA: PinSda<I2C>>(
        self,
        scl: SCL,
        sda: SDA,
        freq: Hertz,
        clocks: &Clocks,
    ) -> I2c<SevenBitAddress>;

    /// Create a driver without checking the pin assignment.
    fn i2c_unchecked(self, freq: Hertz, clocks: &Clocks) -> I2c<SevenBitAddress>;
}

impl<ADRM> I2c<ADRM> {
    /// Release the controller, handing back its register image.
    pub fn free(self) -> (r: I2cRegisters)
        ensures
            r == self.regs,
    {
        self.regs
    }

    /// Enable the interrupt for `event`.
    pub fn listen(&mut self, event: Event)
        ensures
            final(self).regs == (I2cRegisters {
                ier: ier_with(old(self).regs.ier, event, true),
                ..old(self).regs
            }),
    {
        match event {
            Event::RxBufferFull => self.regs.ier.rxbfie = true,
            Event::DataRegisterEmtpyTransmitter => self.regs.ier.txdeie = true,
            Event::DataRegisterEmptyReceiver => self.regs.ier.rxdneie = true,
            Event::BusError => self.regs.ier.buserrie = true,
            Event::ReceivedNotAcknowledge => self.regs.ier.rxnackie = true,
            Event::ArbitrationLoss => self.regs.ier.arblosie = true,
            Event::StopConditionDetected => self.regs.ier.stoie = true,
            Event::StartConditionTransmit => self.regs.ier.staie = true,
        }
    }

    /// Disable the interrupt for `event`.
    pub fn unlisten(&mut self, event: Event)
        ensures
            final(self).regs == (I2cRegisters {
                ier: ier_with(old(self).regs.ier, event, false),
                ..old(self).regs
            }),
    {
        match event {
            Event::RxBufferFull => self.regs.ier.rxbfie = false,
            Event::DataRegisterEmtpyTransmitter => self.regs.ier.txdeie = false,
            Event::DataRegisterEmptyReceiver => self.regs.ier.rxdneie = false,
            Event::BusError => self.regs.ier.buserrie = false,
            Event::ReceivedNotAcknowledge => self.regs.ier.rxnackie = false,
            Event::ArbitrationLoss => self.regs.ier.arblosie = false,
            Event::StopConditionDetected => self.regs.ier.stoie = false,
            Event::StartConditionTransmit => self.regs.ier.staie = false,
        }
    }
}

impl I2c<SevenBitAddress> {
    /// Change the addressing to 10-bit mode.
    pub fn set_10bit_address(self) -> (r: I2c<TenBitAddress>)
        ensures
            r.regs == (I2cRegisters {
                cr: (I2cCr { adrm: true, ..self.regs.cr }),
                ..self.regs
            }),
    {
        let mut regs = self.regs;
        regs.cr.adrm = true;
        I2c { regs, addressing_mode: core::marker::PhantomData }
    }
}

impl I2c<TenBitAddress> {
    /// Change the addressing to 7-bit mode.
    pub fn set_7bit_address(self) -> (r: I2c<SevenBitAddress>)
        ensures
            r.regs == (I2cRegisters {
                cr: (I2cCr { adrm: false, ..self.regs.cr }),
                ..self.regs
            }),
    {
        let mut regs = self.regs;
        regs.cr.adrm = false;
        I2c { regs, addressing_mode: core::marker::PhantomData }
    }
}

} // verus!
