//! Plain register images for the USB device controller.
//!
//! The driver manipulates these images instead of raw memory-mapped
//! registers, so every update is an ordinary field assignment with a
//! contract.  A thin hardware layer outside the verified core mirrors an
//! image into the peripheral while interrupts are masked; interrupt flags
//! set by the hardware are represented by writing the corresponding fields
//! from outside before handing the image to the driver.
//!
//! Flag-clearing writes of the hardware (write-one-to-clear interrupt
//! registers, toggle-on-write stall bits) appear here as their net effect on
//! the image.

use vstd::prelude::*;

verus! {

/// Image of the global control and status register (USBCSR).
#[derive(Debug, Clone, Copy, PartialEq, Eq, Structural)]
pub struct UsbCsr {
    /// Power-down mode.
    pub pdwn: bool,
    /// Low-power (suspend) mode.
    pub lpmode: bool,
    /// DP pull-up enable (device variants with the hardware pull-up
    /// feature).
    pub dppuen: bool,
    /// DP wake-up enable.
    pub dpwken: bool,
}

/// Image of the global interrupt-enable register (USBIER).
#[derive(Debug, Clone, Copy, PartialEq, Eq, Structural)]
pub struct UsbIer {
    /// Global interrupt enable.
    pub ugie: bool,
    /// Start-of-frame interrupt enable.
    pub sofie: bool,
    /// Bus-reset interrupt enable.
    pub urstie: bool,
    /// Resume interrupt enable.
    pub rsmie: bool,
    /// Suspend interrupt enable.
    pub suspie: bool,
    /// Per-endpoint interrupt enables.
    pub ep0ie: bool,
    pub ep1ie: bool,
    pub ep2ie: bool,
    pub ep3ie: bool,
    pub ep4ie: bool,
    pub ep5ie: bool,
    pub ep6ie: bool,
    pub ep7ie: bool,
}

/// Image of the global interrupt-status register (USBISR).
#[derive(Debug, Clone, Copy, PartialEq, Eq, Structural)]
pub struct UsbIsr {
    /// Expected start-of-frame flag.
    pub esofif: bool,
    /// Bus-reset flag.
    pub urstif: bool,
    /// Resume flag.
    pub rsmif: bool,
    /// Suspend flag.
    pub suspif: bool,
    /// Per-endpoint pending-interrupt flags.
    pub ep0if: bool,
    pub ep1if: bool,
    pub ep2if: bool,
    pub ep3if: bool,
    pub ep4if: bool,
    pub ep5if: bool,
    pub ep6if: bool,
    pub ep7if: bool,
}

impl UsbIsr {
    /// Whether any per-endpoint pending-interrupt flag is set: the
    /// endpoint-flag half of the status register is nonzero.
    pub open spec fn any_ep_flag(self) -> bool {
        self.ep0if || self.ep1if || self.ep2if || self.ep3if || self.ep4if || self.ep5if
            || self.ep6if || self.ep7if
    }
}

/// Image of the control endpoint's configuration register (EP0CFGR).
#[derive(Debug, Clone, Copy, PartialEq, Eq, Structural)]
pub struct Ep0Cfgr {
    /// Buffer address: byte offset of the endpoint buffer in packet SRAM.
    pub epbufa: u16,
    /// Buffer length in bytes.
    pub eplen: u16,
    /// Endpoint enable.
    pub epen: bool,
}

/// Image of the control endpoint's interrupt-enable register (EP0IER).
#[derive(Debug, Clone, Copy, PartialEq, Eq, Structural)]
pub struct Ep0Ier {
    /// SETUP data received interrupt enable.
    pub sdrxie: bool,
    /// OUT data received interrupt enable.
    pub odrxie: bool,
    /// IN data transmitted interrupt enable.
    pub idtxie: bool,
}

/// Image of the control endpoint's interrupt-status register (EP0ISR).
#[derive(Debug, Clone, Copy, PartialEq, Eq, Structural)]
pub struct Ep0Isr {
    /// SETUP data received flag.
    pub sdrxif: bool,
    /// OUT data received flag.
    pub odrxif: bool,
    /// IN data transmitted flag.
    pub idtxif: bool,
}

/// Image of the control endpoint's transfer-count register (EP0TCR).
#[derive(Debug, Clone, Copy, PartialEq, Eq, Structural)]
pub struct Ep0Tcr {
    /// Transmit byte count; nonzero while an IN transfer is in flight.
    pub txcnt: u16,
    /// Receive byte count reported by the hardware for an OUT transfer.
    pub rxcnt: u16,
}

/// Image of an endpoint's control and status register (EPnCSR).
#[derive(Debug, Clone, Copy, PartialEq, Eq, Structural)]
pub struct EpCsr {
    /// NAK-on-transmit condition.
    pub naktx: bool,
    /// NAK-on-receive condition.
    pub nakrx: bool,
    /// Transmit (IN) stall bit.
    pub stltx: bool,
    /// Receive (OUT) stall bit.
    pub stlrx: bool,
}

/// Register image of the control endpoint (endpoint 0).
#[derive(Debug, Clone, Copy, PartialEq, Eq, Structural)]
pub struct Ep0Registers {
    pub cfgr: Ep0Cfgr,
    pub ier: Ep0Ier,
    pub isr: Ep0Isr,
    pub tcr: Ep0Tcr,
    pub csr: EpCsr,
}

/// Image of a single-buffered endpoint's configuration register (EPnCFGR,
/// n in 1-3).
#[derive(Debug, Clone, Copy, PartialEq, Eq, Structural)]
pub struct EpsCfgr {
    /// Buffer address: byte offset of the endpoint buffer in packet SRAM.
    pub epbufa: u16,
    /// Buffer length in bytes.
    pub eplen: u16,
    /// Endpoint address field.
    pub epadr: u8,
    /// Endpoint direction: IN when set.
    pub epdir: bool,
    /// Endpoint enable.
    pub epen: bool,
}

/// Image of a single- or double-buffered endpoint's interrupt-enable
/// register.
#[derive(Debug, Clone, Copy, PartialEq, Eq, Structural)]
pub struct EpIer {
    /// OUT data received interrupt enable.
    pub odrxie: bool,
    /// IN data transmitted interrupt enable.
    pub idtxie: bool,
}

/// Image of a single- or double-buffered endpoint's interrupt-status
/// register.
#[derive(Debug, Clone, Copy, PartialEq, Eq, Structural)]
pub struct EpIsr {
    /// OUT data received flag.
    pub odrxif: bool,
    /// IN data transmitted flag.
    pub idtxif: bool,
}

/// Image of a single-buffered endpoint's transfer-count register.
#[derive(Debug, Clone, Copy, PartialEq, Eq, Structural)]
pub struct EpsTcr {
    /// Transfer byte count: programmed for IN transfers, reported by the
    /// hardware for OUT transfers.
    pub tcnt: u16,
}

/// Register image of a single-buffered endpoint (endpoints 1-3).
#[derive(Debug, Clone, Copy, PartialEq, Eq, Structural)]
pub struct EpsRegisters {
    pub cfgr: EpsCfgr,
    pub ier: EpIer,
    pub isr: EpIsr,
    pub tcr: EpsTcr,
    pub csr: EpCsr,
}

/// Image of a double-buffered endpoint's configuration register (EPnCFGR,
/// n in 4-7).
#[derive(Debug, Clone, Copy, PartialEq, Eq, Structural)]
pub struct EpdCfgr {
    /// Buffer address: byte offset of the endpoint buffer in packet SRAM.
    pub epbufa: u16,
    /// Buffer length in bytes.
    pub eplen: u16,
    /// Endpoint address field.
    pub epadr: u8,
    /// Endpoint direction: IN when set.
    pub epdir: bool,
    /// Endpoint transfer type: Isochronous when set, Bulk/Interrupt when
    /// clear.
    pub eptype: bool,
    /// Single/double buffering selection: double when set.
    pub sdbs: bool,
    /// Endpoint enable.
    pub epen: bool,
}

/// Image of a double-buffered endpoint's transfer-count register.
#[derive(Debug, Clone, Copy, PartialEq, Eq, Structural)]
pub struct EpdTcr {
    /// Transfer byte count for buffer 0.
    pub tcnt0: u16,
    /// Transfer byte count for buffer 1.
    pub tcnt1: u16,
}

/// Register image of a double-buffered endpoint (endpoints 4-7).
#[derive(Debug, Clone, Copy, PartialEq, Eq, Structural)]
pub struct EpdRegisters {
    pub cfgr: EpdCfgr,
    pub ier: EpIer,
    pub isr: EpIsr,
    pub tcr: EpdTcr,
    pub csr: EpCsr,
}

/// The reset value of the control endpoint's register image.
pub open spec fn ep0_reset() -> Ep0Registers {
    Ep0Registers {
        cfgr: Ep0Cfgr { epbufa: 0, eplen: 0, epen: false },
        ier: Ep0Ier { sdrxie: false, odrxie: false, idtxie: false },
        isr: Ep0Isr { sdrxif: false, odrxif: false, idtxif: false },
        tcr: Ep0Tcr { txcnt: 0, rxcnt: 0 },
        csr: EpCsr { naktx: false, nakrx: false, stltx: false, stlrx: false },
    }
}

/// The reset value of a single-buffered endpoint's register image.
pub open spec fn eps_reset() -> EpsRegisters {
    EpsRegisters {
        cfgr: EpsCfgr { epbufa: 0, eplen: 0, epadr: 0, epdir: false, epen: false },
        ier: EpIer { odrxie: false, idtxie: false },
        isr: EpIsr { odrxif: false, idtxif: false },
        tcr: EpsTcr { tcnt: 0 },
        csr: EpCsr { naktx: false, nakrx: false, stltx: false, stlrx: false },
    }
}

/// The reset value of a double-buffered endpoint's register image.
pub open spec fn epd_reset() -> EpdRegisters {
    EpdRegisters {
        cfgr: EpdCfgr {
            epbufa: 0,
            eplen: 0,
            epadr: 0,
            epdir: false,
            eptype: false,
            sdbs: false,
            epen: false,
        },
        ier: EpIer { odrxie: false, idtxie: false },
        isr: EpIsr { odrxif: false, idtxif: false },
        tcr: EpdTcr { tcnt0: 0, tcnt1: 0 },
        csr: EpCsr { naktx: false, nakrx: false, stltx: false, stlrx: false },
    }
}

/// The reset value of the global control and status register image.
pub open spec fn usb_csr_reset() -> UsbCsr {
    UsbCsr { pdwn: false, lpmode: false, dppuen: false, dpwken: false }
}

/// The reset value of the global interrupt-enable register image.
pub open spec fn usb_ier_reset() -> UsbIer {
    UsbIer {
        ugie: false,
        sofie: false,
        urstie: false,
        rsmie: false,
        suspie: false,
        ep0ie: false,
        ep1ie: false,
        ep2ie: false,
        ep3ie: false,
        ep4ie: false,
        ep5ie: false,
        ep6ie: false,
        ep7ie: false,
    }
}

/// The global interrupt-status register image with every flag clear.
pub open spec fn usb_isr_clear() -> UsbIsr {
    UsbIsr {
        esofif: false,
        urstif: false,
        rsmif: false,
        suspif: false,
        ep0if: false,
        ep1if: false,
        ep2if: false,
        ep3if: false,
        ep4if: false,
        ep5if: false,
        ep6if: false,
        ep7if: false,
    }
}

/// The global interrupt-enable image with the pending-interrupt enable for
/// endpoint `ep` set and all other bits unchanged.
pub open spec fn usb_ier_with_ep_enabled(ier: UsbIer, ep: int) -> UsbIer {
    UsbIer {
        ep0ie: ier.ep0ie || ep == 0,
        ep1ie: ier.ep1ie || ep == 1,
        ep2ie: ier.ep2ie || ep == 2,
        ep3ie: ier.ep3ie || ep == 3,
        ep4ie: ier.ep4ie || ep == 4,
        ep5ie: ier.ep5ie || ep == 5,
        ep6ie: ier.ep6ie || ep == 6,
        ep7ie: ier.ep7ie || ep == 7,
        ..ier
    }
}

/// The global interrupt-status image after acknowledging endpoint `ep`:
/// `esofif` and the pending flag of that endpoint are cleared, all other
/// flags unchanged.
pub open spec fn usb_isr_with_ep_acked(isr: UsbIsr, ep: int) -> UsbIsr {
    UsbIsr {
        esofif: false,
        ep0if: isr.ep0if && ep != 0,
        ep1if: isr.ep1if && ep != 1,
        ep2if: isr.ep2if && ep != 2,
        ep3if: isr.ep3if && ep != 3,
        ep4if: isr.ep4if && ep != 4,
        ep5if: isr.ep5if && ep != 5,
        ep6if: isr.ep6if && ep != 6,
        ep7if: isr.ep7if && ep != 7,
        ..isr
    }
}

impl UsbIer {
    /// Set the pending-interrupt enable bit for endpoint `ep`.
    pub fn enable_ep(&mut self, ep: u8)
        requires
            ep < 8,
        ensures
            *final(self) == usb_ier_with_ep_enabled(*old(self), ep as int),
    {
        match ep {
            0 => self.ep0ie = true,
            1 => self.ep1ie = true,
            2 => self.ep2ie = true,
            3 => self.ep3ie = true,
            4 => self.ep4ie = true,
            5 => self.ep5ie = true,
            6 => self.ep6ie = true,
            _ => self.ep7ie = true,
        }
    }
}

impl UsbIsr {
    /// Acknowledge endpoint `ep`: clear `esofif` and the pending flag of
    /// that endpoint.
    pub fn ack_ep(&mut self, ep: u8)
        requires
            ep < 8,
        ensures
            *final(self) == usb_isr_with_ep_acked(*old(self), ep as int),
    {
        self.esofif = false;
        match ep {
            0 => self.ep0if = false,
            1 => self.ep1if = false,
            2 => self.ep2if = false,
            3 => self.ep3if = false,
            4 => self.ep4if = false,
            5 => self.ep5if = false,
            6 => self.ep6if = false,
            _ => self.ep7if = false,
        }
    }
}

/// A unified image of the USB controller's register block: the global
/// registers and one register set per endpoint.
#[derive(Debug, Clone, Copy, PartialEq, Eq)]
pub struct UsbRegisters {
    pub usb_csr: UsbCsr,
    pub usb_ier: UsbIer,
    pub usb_isr: UsbIsr,
    /// Device address register (DEVA field, 7 bits).
    pub usb_devar: u8,
    /// Control endpoint registers (endpoint 0).
    pub ep0: Ep0Registers,
    /// Single-buffered endpoint registers (endpoints 1-3).
    pub eps: [EpsRegisters; 3],
    /// Double-buffered endpoint registers (endpoints 4-7).
    pub epd: [EpdRegisters; 4],
}

impl UsbRegisters {
    /// A register image in the peripheral's reset state: every flag clear,
    /// every count and address zero.
    pub fn new() -> (r: UsbRegisters)
        ensures
            r.usb_csr == usb_csr_reset(),
            r.usb_ier == usb_ier_reset(),
            r.usb_isr == usb_isr_clear(),
            r.usb_devar == 0,
            r.ep0 == ep0_reset(),
            forall|i: int| 0 <= i < 3 ==> r.eps[i] == eps_reset(),
            forall|i: int| 0 <= i < 4 ==> r.epd[i] == epd_reset(),
    {
        let eps_one = EpsRegisters {
            cfgr: EpsCfgr { epbufa: 0, eplen: 0, epadr: 0, epdir: false, epen: false },
            ier: EpIer { odrxie: false, idtxie: false },
            isr: EpIsr { odrxif: false, idtxif: false },
            tcr: EpsTcr { tcnt: 0 },
            csr: EpCsr { naktx: false, nakrx: false, stltx: false, stlrx: false },
        };
        let epd_one = EpdRegisters {
            cfgr: EpdCfgr {
                epbufa: 0,
                eplen: 0,
                epadr: 0,
                epdir: false,
                eptype: false,
                sdbs: false,
                epen: false,
            },
            ier: EpIer { odrxie: false, idtxie: false },
            isr: EpIsr { odrxif: false, idtxif: false },
            tcr: EpdTcr { tcnt0: 0, tcnt1: 0 },
            csr: EpCsr { naktx: false, nakrx: false, stltx: false, stlrx: false },
        };
        UsbRegisters {
            usb_csr: UsbCsr { pdwn: false, lpmode: false, dppuen: false, dpwken: false },
            usb_ier: UsbIer {
                ugie: false,
                sofie: false,
                urstie: false,
                rsmie: false,
                suspie: false,
                ep0ie: false,
                ep1ie: false,
                ep2ie: false,
                ep3ie: false,
                ep4ie: false,
                ep5ie: false,
                ep6ie: false,
                ep7ie: false,
            },
            usb_isr: UsbIsr {
                esofif: false,
                urstif: false,
                rsmif: false,
                suspif: false,
                ep0if: false,
                ep1if: false,
                ep2if: false,
                ep3if: false,
                ep4if: false,
                ep5if: false,
                ep6if: false,
                ep7if: false,
            },
            usb_devar: 0,
            ep0: Ep0Registers {
                cfgr: Ep0Cfgr { epbufa: 0, eplen: 0, epen: false },
                ier: Ep0Ier { sdrxie: false, odrxie: false, idtxie: false },
                isr: Ep0Isr { sdrxif: false, odrxif: false, idtxif: false },
                tcr: Ep0Tcr { txcnt: 0, rxcnt: 0 },
                csr: EpCsr { naktx: false, nakrx: false, stltx: false, stlrx: false },
            },
            eps: [eps_one, eps_one, eps_one],
            epd: [epd_one, epd_one, epd_one, epd_one],
        }
    }
}

} // verus!
