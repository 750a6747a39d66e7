//! The per-endpoint state machines: control (endpoint 0), single-buffered
//! (endpoints 1-3) and double-buffered (endpoints 4-7).
//!
//! Each endpoint owns its configuration (direction, type, buffer, each
//! assigned at most once) and implements the read/write/configure protocol
//! against its register image.  Methods take the shared register image and
//! packet memory explicitly; on the bare-metal target they run with
//! interrupts globally masked.

use crate::usb::endpoint_memory::{
    region_bytes, words_for, EndpointBuffer, EndpointDoubleBuffer, EndpointMemoryAllocator,
    PacketMemory, EP_MEMORY_WORDS, SETUP_BUFFER_SIZE,
};
use crate::usb::registers::{
    usb_ier_with_ep_enabled, usb_isr_with_ep_acked, Ep0Cfgr, Ep0Isr, Ep0Registers, Ep0Tcr, EpCsr,
    EpIer, EpIsr, EpdCfgr, EpdRegisters, EpsCfgr, EpsRegisters, EpsTcr, UsbRegisters,
};
use crate::usb::{EndpointType, UsbDirection, UsbError};
use vstd::prelude::*;

verus! {

/// An endpoint control/status image with the stall bit for direction `dir`
/// toggled.
pub open spec fn csr_stall_toggled(csr: EpCsr, dir: UsbDirection) -> EpCsr {
    if dir == UsbDirection::Out {
        EpCsr { stlrx: !csr.stlrx, ..csr }
    } else {
        EpCsr { stltx: !csr.stltx, ..csr }
    }
}

/// The stall bit for direction `dir` of an endpoint control/status image.
pub open spec fn csr_stalled(csr: EpCsr, dir: UsbDirection) -> bool {
    if dir == UsbDirection::Out {
        csr.stlrx
    } else {
        csr.stltx
    }
}

/// Law: bringing an endpoint's stall bit to a requested state is
/// idempotent.  One set-stall transition (toggle exactly when the queried
/// state differs) leaves the bit in the requested state, and a second
/// transition with the same request changes nothing: the hardware toggle
/// fires at most once.
pub proof fn lemma_set_stalled_idempotent(csr: EpCsr, dir: UsbDirection, stalled: bool)
    ensures
        ({
            let once = if csr_stalled(csr, dir) == stalled {
                csr
            } else {
                csr_stall_toggled(csr, dir)
            };
            let twice = if csr_stalled(once, dir) == stalled {
                once
            } else {
                csr_stall_toggled(once, dir)
            };
            &&& csr_stalled(once, dir) == stalled
            &&& twice == once
        }),
{
}

/// The registers a control-endpoint operation never touches are unchanged
/// between `pre` and `post`.
pub open spec fn ep0_frame(pre: UsbRegisters, post: UsbRegisters) -> bool {
    &&& post.usb_csr == pre.usb_csr
    &&& post.usb_ier == pre.usb_ier
    &&& post.usb_devar == pre.usb_devar
    &&& post.eps@ == pre.eps@
    &&& post.epd@ == pre.epd@
}

/// The registers a single-buffered-endpoint operation never touches are
/// unchanged between `pre` and `post`.
pub open spec fn eps_frame(pre: UsbRegisters, post: UsbRegisters) -> bool {
    &&& post.usb_csr == pre.usb_csr
    &&& post.usb_devar == pre.usb_devar
    &&& post.ep0 == pre.ep0
    &&& post.epd@ == pre.epd@
}

/// The registers a double-buffered-endpoint operation never touches are
/// unchanged between `pre` and `post`.
pub open spec fn epd_frame(pre: UsbRegisters, post: UsbRegisters) -> bool {
    &&& post.usb_csr == pre.usb_csr
    &&& post.usb_isr == pre.usb_isr
    &&& post.usb_devar == pre.usb_devar
    &&& post.ep0 == pre.ep0
    &&& post.eps@ == pre.eps@
}

/// The control endpoint (endpoint 0): always bidirectional, always double
/// buffered (index 0 holds the IN role, index 1 the OUT role), configured
/// once when the bus allocates it.
#[derive(Debug, Clone, Copy, PartialEq, Eq, Structural)]
pub struct ControlEndpoint {
    /// The IN-role/OUT-role buffer pair, once assigned.
    pub buf: Option<EndpointDoubleBuffer>,
}

impl ControlEndpoint {
    /// Well-formedness: an assigned buffer pair consists of two well-formed
    /// adjacent windows of equal size.
    pub open spec fn wf(self) -> bool {
        self.buf matches Some(b) ==> {
            &&& b.0.wf()
            &&& b.1.wf()
            &&& b.1.offset == b.0.offset + b.0.size
            &&& b.1.size == b.0.size
        }
    }

    /// A fresh control endpoint with no buffer assigned.
    pub fn new() -> (r: ControlEndpoint)
        ensures
            r == (ControlEndpoint { buf: None }),
    {
        ControlEndpoint { buf: None }
    }

    /// The transfer type of this endpoint: always Control.
    pub fn ep_type(&self) -> (r: Option<EndpointType>)
        ensures
            r == Some(EndpointType::Control),
    {
        Some(EndpointType::Control)
    }

    /// Whether the buffer pair has been assigned.
    pub fn is_buf_set(&self) -> (r: bool)
        ensures
            r == (self.buf is Some),
    {
        self.buf.is_some()
    }

    /// Assign the IN and OUT buffers and program the buffer address, buffer
    /// length and enable bit of the endpoint configuration register.
    pub fn set_buf(&mut self, buffer: EndpointDoubleBuffer, regs: &mut UsbRegisters)
        requires
            buffer.0.wf(),
            buffer.1.wf(),
            buffer.1.offset == buffer.0.offset + buffer.0.size,
            buffer.1.size == buffer.0.size,
        ensures
            *final(self) == (ControlEndpoint { buf: Some(buffer) }),
            final(self).wf(),
            final(regs).ep0 == (Ep0Registers {
                cfgr: (Ep0Cfgr {
                    epbufa: buffer.0.offset as u16,
                    eplen: buffer.0.size as u16,
                    epen: true,
                }),
                ..old(regs).ep0
            }),
            ep0_frame(*old(regs), *final(regs)),
            final(regs).usb_isr == old(regs).usb_isr,
    {
        let offset = buffer.0.offset();
        let size = buffer.0.capacity();
        self.buf = Some(buffer);
        regs.ep0.cfgr.epbufa = offset;
        regs.ep0.cfgr.eplen = size as u16;
        regs.ep0.cfgr.epen = true;
    }

    /// Enable the SETUP-received, OUT-received and IN-transmitted
    /// interrupts of the control endpoint.
    pub fn configure(&self, regs: &mut UsbRegisters)
        ensures
            final(regs).ep0 == (Ep0Registers {
                ier: (crate::usb::registers::Ep0Ier { sdrxie: true, odrxie: true, idtxie: true }),
                ..old(regs).ep0
            }),
            ep0_frame(*old(regs), *final(regs)),
            final(regs).usb_isr == old(regs).usb_isr,
    {
        regs.ep0.ier.sdrxie = true;
        regs.ep0.ier.odrxie = true;
        regs.ep0.ier.idtxie = true;
    }

    /// Stage an IN transfer: copy `buf` into the IN-role buffer, program
    /// the transmit byte count and clear a pending NAK-on-transmit
    /// condition.
    ///
    /// Fails with `BufferOverflow` if `buf` exceeds the buffer capacity,
    /// and with `WouldBlock`, leaving registers and packet memory
    /// untouched, while a previous IN transfer is still in flight (nonzero
    /// transmit count).
    pub fn write(&self, regs: &mut UsbRegisters, mem: &mut PacketMemory, buf: &Vec<u8>) -> (r:
        Result<usize, UsbError>)
        requires
            self.wf(),
            self.buf is Some,
        ensures
            buf@.len() > (self.buf->0).0.size ==> {
                &&& r == Err::<usize, UsbError>(UsbError::BufferOverflow)
                &&& *final(regs) == *old(regs)
                &&& *final(mem) == *old(mem)
            },
            buf@.len() <= (self.buf->0).0.size && old(regs).ep0.tcr.txcnt != 0 ==> {
                &&& r == Err::<usize, UsbError>(UsbError::WouldBlock)
                &&& *final(regs) == *old(regs)
                &&& *final(mem) == *old(mem)
            },
            buf@.len() <= (self.buf->0).0.size && old(regs).ep0.tcr.txcnt == 0 ==> {
                let b = (self.buf->0).0;
                &&& r == Ok::<usize, UsbError>(buf@.len() as usize)
                &&& region_bytes(final(mem).words@, b.offset as int, buf@.len() as int) == buf@
                &&& forall|w: int|
                    0 <= w < EP_MEMORY_WORDS && !(b.offset / 4 <= w < b.offset / 4 + words_for(
                        buf@.len() as int,
                    )) ==> final(mem).words@[w] == old(mem).words@[w]
                &&& final(regs).ep0 == (Ep0Registers {
                    tcr: (Ep0Tcr { txcnt: buf@.len() as u16, ..old(regs).ep0.tcr }),
                    csr: (EpCsr { naktx: false, ..old(regs).ep0.csr }),
                    ..old(regs).ep0
                })
                &&& ep0_frame(*old(regs), *final(regs))
                &&& final(regs).usb_isr == old(regs).usb_isr
            },
    {
        let in_buf = self.buf.unwrap();
        if buf.len() > in_buf.0.capacity() {
            return Err(UsbError::BufferOverflow);
        }
        if regs.ep0.tcr.txcnt != 0 {
            return Err(UsbError::WouldBlock);
        }
        // Endpoint 0: the first buffer has the IN role.
        in_buf.0.write(mem, buf);
        // Set the number of bytes to be transmitted.
        regs.ep0.tcr.txcnt = buf.len() as u16;
        // Clear a pending NAK-on-transmit condition.
        regs.ep0.csr.naktx = false;
        Ok(buf.len())
    }

    /// Service a pending receive event.
    ///
    /// Distinguishes the SETUP stage from the OUT stage by the interrupt
    /// flags: on SETUP, exactly the 8 bytes of the reserved setup area are
    /// returned; on OUT, exactly the hardware-reported count from the
    /// OUT-role buffer; with neither flag set the call fails with
    /// `WouldBlock`.  In every case the SETUP/OUT interrupt flags, the
    /// NAK-on-receive condition and the peripheral-global pending flag of
    /// endpoint 0 are cleared as a side effect, which makes `read`
    /// non-idempotent: call it at most once per event.
    pub fn read(&self, regs: &mut UsbRegisters, mem: &PacketMemory, max_len: usize) -> (r: Result<
        Vec<u8>,
        UsbError,
    >)
        requires
            self.wf(),
            self.buf is Some,
            old(regs).ep0.tcr.rxcnt <= (self.buf->0).1.size,
        ensures
            final(regs).ep0 == (Ep0Registers {
                isr: (Ep0Isr { sdrxif: false, odrxif: false, ..old(regs).ep0.isr }),
                csr: (EpCsr { nakrx: false, ..old(regs).ep0.csr }),
                ..old(regs).ep0
            }),
            final(regs).usb_isr == usb_isr_with_ep_acked(old(regs).usb_isr, 0),
            final(regs).usb_csr == old(regs).usb_csr,
            final(regs).usb_ier == old(regs).usb_ier,
            final(regs).usb_devar == old(regs).usb_devar,
            final(regs).eps@ == old(regs).eps@,
            final(regs).epd@ == old(regs).epd@,
            old(regs).ep0.isr.sdrxif && max_len < SETUP_BUFFER_SIZE ==> r == Err::<
                Vec<u8>,
                UsbError,
            >(UsbError::BufferOverflow),
            old(regs).ep0.isr.sdrxif && max_len >= SETUP_BUFFER_SIZE ==> {
                &&& r is Ok
                &&& r->Ok_0@ == region_bytes(mem.words@, 0, SETUP_BUFFER_SIZE as int)
            },
            !old(regs).ep0.isr.sdrxif && old(regs).ep0.isr.odrxif && old(regs).ep0.tcr.rxcnt
                > max_len ==> r == Err::<Vec<u8>, UsbError>(UsbError::BufferOverflow),
            !old(regs).ep0.isr.sdrxif && old(regs).ep0.isr.odrxif && old(regs).ep0.tcr.rxcnt
                <= max_len ==> {
                &&& r is Ok
                &&& r->Ok_0@ == region_bytes(
                    mem.words@,
                    (self.buf->0).1.offset as int,
                    old(regs).ep0.tcr.rxcnt as int,
                )
            },
            !old(regs).ep0.isr.sdrxif && !old(regs).ep0.isr.odrxif ==> r == Err::<
                Vec<u8>,
                UsbError,
            >(UsbError::WouldBlock),
    {
        let sdrx = regs.ep0.isr.sdrxif;
        let odrx = regs.ep0.isr.odrxif;
        let result: Result<Vec<u8>, UsbError> = if sdrx {
            // Read the SETUP packet from its dedicated area of the packet
            // SRAM.
            if max_len < SETUP_BUFFER_SIZE {
                Err(UsbError::BufferOverflow)
            } else {
                let setup_buf = EndpointMemoryAllocator::setup_buffer();
                Ok(setup_buf.read(mem, SETUP_BUFFER_SIZE))
            }
        } else if odrx {
            let out_buf = self.buf.unwrap();
            let count = regs.ep0.tcr.rxcnt as usize;
            if count > max_len {
                Err(UsbError::BufferOverflow)
            } else {
                // Endpoint 0: the second buffer has the OUT role.
                Ok(out_buf.1.read(mem, count))
            }
        } else {
            Err(UsbError::WouldBlock)
        };
        // Clear the NAK-on-receive condition, the endpoint's SETUP/OUT
        // flags and the peripheral-global pending flag of endpoint 0.
        regs.ep0.csr.nakrx = false;
        regs.ep0.isr.sdrxif = false;
        regs.ep0.isr.odrxif = false;
        regs.usb_isr.esofif = false;
        regs.usb_isr.ep0if = false;
        result
    }

    /// Toggle the stall bit for direction `dir` of the control endpoint.
    pub fn toggle_stalled(&self, regs: &mut UsbRegisters, dir: UsbDirection)
        ensures
            final(regs).ep0 == (Ep0Registers {
                csr: csr_stall_toggled(old(regs).ep0.csr, dir),
                ..old(regs).ep0
            }),
            ep0_frame(*old(regs), *final(regs)),
            final(regs).usb_isr == old(regs).usb_isr,
    {
        if dir == UsbDirection::Out {
            regs.ep0.csr.stlrx = !regs.ep0.csr.stlrx;
        } else {
            regs.ep0.csr.stltx = !regs.ep0.csr.stltx;
        }
    }

    /// The stall state for direction `dir` of the control endpoint.
    pub fn is_stalled(&self, regs: &UsbRegisters, dir: UsbDirection) -> (r: bool)
        ensures
            r == csr_stalled(regs.ep0.csr, dir),
    {
        if dir == UsbDirection::Out {
            regs.ep0.csr.stlrx
        } else {
            regs.ep0.csr.stltx
        }
    }
}

/// A single-buffered endpoint (endpoints 1-3): configurable direction and
/// type (Bulk or Interrupt), one buffer, each assigned at most once.
#[derive(Debug, Clone, Copy, PartialEq, Eq, Structural)]
pub struct SingleBufferedEndpoint {
    /// The endpoint buffer, once assigned.
    pub buf: Option<EndpointBuffer>,
    /// The endpoint direction, once assigned.
    pub ep_dir: Option<UsbDirection>,
    /// The endpoint transfer type, once assigned.
    pub ep_type: Option<EndpointType>,
    /// Index within the single-buffered block (0-2, for endpoints 1-3).
    pub index: u8,
}

impl SingleBufferedEndpoint {
    /// Well-formedness: the index addresses the single-buffered block and
    /// an assigned buffer is well formed.
    pub open spec fn wf(self) -> bool {
        &&& self.index < 3
        &&& self.buf matches Some(b) ==> b.wf()
    }

    /// A fresh, fully unassigned endpoint at block index `index`.
    pub fn new(index: u8) -> (r: SingleBufferedEndpoint)
        requires
            index < 3,
        ensures
            r == (SingleBufferedEndpoint { buf: None, ep_dir: None, ep_type: None, index }),
            r.wf(),
    {
        SingleBufferedEndpoint { buf: None, ep_dir: None, ep_type: None, index }
    }

    /// The assigned direction, if any.
    pub fn ep_dir(&self) -> (r: Option<UsbDirection>)
        ensures
            r == self.ep_dir,
    {
        self.ep_dir
    }

    /// Assign the direction.
    pub fn set_ep_dir(&mut self, ep_dir: UsbDirection)
        ensures
            *final(self) == (SingleBufferedEndpoint { ep_dir: Some(ep_dir), ..*old(self) }),
    {
        self.ep_dir = Some(ep_dir);
    }

    /// The assigned transfer type, if any.
    pub fn ep_type(&self) -> (r: Option<EndpointType>)
        ensures
            r == self.ep_type,
    {
        self.ep_type
    }

    /// Assign the transfer type.
    pub fn set_ep_type(&mut self, ep_type: EndpointType)
        ensures
            *final(self) == (SingleBufferedEndpoint { ep_type: Some(ep_type), ..*old(self) }),
    {
        self.ep_type = Some(ep_type);
    }

    /// Whether the buffer has been assigned.
    pub fn is_buf_set(&self) -> (r: bool)
        ensures
            r == (self.buf is Some),
    {
        self.buf.is_some()
    }

    /// Assign the buffer and program the buffer address and buffer length
    /// of the endpoint configuration register.
    pub fn set_buf(&mut self, buffer: EndpointBuffer, regs: &mut UsbRegisters)
        requires
            old(self).wf(),
            buffer.wf(),
        ensures
            *final(self) == (SingleBufferedEndpoint { buf: Some(buffer), ..*old(self) }),
            final(self).wf(),
            final(regs).eps@ == old(regs).eps@.update(
                old(self).index as int,
                (EpsRegisters {
                    cfgr: (EpsCfgr {
                        epbufa: buffer.offset as u16,
                        eplen: buffer.size as u16,
                        ..old(regs).eps@[old(self).index as int].cfgr
                    }),
                    ..old(regs).eps@[old(self).index as int]
                }),
            ),
            eps_frame(*old(regs), *final(regs)),
            final(regs).usb_ier == old(regs).usb_ier,
            final(regs).usb_isr == old(regs).usb_isr,
    {
        let offset = buffer.offset();
        let size = buffer.capacity();
        self.buf = Some(buffer);

        let idx = self.index as usize;
        let mut er = regs.eps[idx];
        er.cfgr.epbufa = offset;
        er.cfgr.eplen = size as u16;
        regs.eps[idx] = er;
    }

    /// Arm the endpoint: program the endpoint address field, direction and
    /// enable bit, enable its transfer interrupts and unmask its line in
    /// the peripheral-global interrupt-enable register.
    ///
    /// A no-op unless both direction and type have been assigned: a
    /// candidate that received a buffer but never both direction and type
    /// must not be armed.
    #[verifier::rlimit(50)]
    pub fn configure(&self, regs: &mut UsbRegisters)
        requires
            self.wf(),
        ensures
            self.ep_type is None || self.ep_dir is None ==> *final(regs) == *old(regs),
            self.ep_type is Some && self.ep_dir is Some ==> {
                &&& final(regs).eps@ == old(regs).eps@.update(
                    self.index as int,
                    (EpsRegisters {
                        cfgr: (EpsCfgr {
                            epadr: (self.index + 1) as u8,
                            epdir: self.ep_dir->0 == UsbDirection::In,
                            epen: true,
                            ..old(regs).eps@[self.index as int].cfgr
                        }),
                        ier: (EpIer { odrxie: true, idtxie: true }),
                        ..old(regs).eps@[self.index as int]
                    }),
                )
                &&& final(regs).usb_ier == usb_ier_with_ep_enabled(
                    old(regs).usb_ier,
                    self.index + 1,
                )
                &&& eps_frame(*old(regs), *final(regs))
                &&& final(regs).usb_isr == old(regs).usb_isr
            },
    {
        let ep_dir = match self.ep_dir {
            Some(d) => d,
            None => {
                return;
            },
        };
        if self.ep_type.is_none() {
            return;
        }

        let idx = self.index as usize;
        let mut er = regs.eps[idx];
        er.cfgr.epadr = self.index + 1;
        er.cfgr.epdir = ep_dir == UsbDirection::In;
        er.cfgr.epen = true;
        er.ier.odrxie = true;
        er.ier.idtxie = true;
        regs.eps[idx] = er;

        regs.usb_ier.enable_ep(self.index + 1);
    }

    /// Stage an IN transfer: copy `buf` into the endpoint buffer, program
    /// the transfer byte count and clear a pending NAK-on-transmit
    /// condition.
    ///
    /// Fails with `BufferOverflow` if `buf` exceeds the buffer capacity,
    /// and with `WouldBlock`, leaving registers and packet memory
    /// untouched, while a previous IN transfer is still in flight (nonzero
    /// transfer count).
    pub fn write(&self, regs: &mut UsbRegisters, mem: &mut PacketMemory, buf: &Vec<u8>) -> (r:
        Result<usize, UsbError>)
        requires
            self.wf(),
            self.buf is Some,
            self.ep_dir is Some,
            self.ep_type is Some,
        ensures
            buf@.len() > self.buf->0.size ==> {
                &&& r == Err::<usize, UsbError>(UsbError::BufferOverflow)
                &&& *final(regs) == *old(regs)
                &&& *final(mem) == *old(mem)
            },
            buf@.len() <= self.buf->0.size && old(regs).eps@[self.index as int].tcr.tcnt != 0
                ==> {
                &&& r == Err::<usize, UsbError>(UsbError::WouldBlock)
                &&& *final(regs) == *old(regs)
                &&& *final(mem) == *old(mem)
            },
            buf@.len() <= self.buf->0.size && old(regs).eps@[self.index as int].tcr.tcnt == 0
                ==> {
                let b = self.buf->0;
                &&& r == Ok::<usize, UsbError>(buf@.len() as usize)
                &&& region_bytes(final(mem).words@, b.offset as int, buf@.len() as int) == buf@
                &&& forall|w: int|
                    0 <= w < EP_MEMORY_WORDS && !(b.offset / 4 <= w < b.offset / 4 + words_for(
                        buf@.len() as int,
                    )) ==> final(mem).words@[w] == old(mem).words@[w]
                &&& final(regs).eps@ == old(regs).eps@.update(
                    self.index as int,
                    (EpsRegisters {
                        tcr: (EpsTcr { tcnt: buf@.len() as u16 }),
                        csr: (EpCsr { naktx: false, ..old(regs).eps@[self.index as int].csr }),
                        ..old(regs).eps@[self.index as int]
                    }),
                )
                &&& eps_frame(*old(regs), *final(regs))
                &&& final(regs).usb_ier == old(regs).usb_ier
                &&& final(regs).usb_isr == old(regs).usb_isr
            },
    {
        let in_buf = self.buf.unwrap();
        if buf.len() > in_buf.capacity() {
            return Err(UsbError::BufferOverflow);
        }
        let idx = self.index as usize;
        if regs.eps[idx].tcr.tcnt != 0 {
            return Err(UsbError::WouldBlock);
        }

        in_buf.write(mem, buf);
        let mut er = regs.eps[idx];
        er.tcr.tcnt = buf.len() as u16;
        // Clear a pending NAK-on-transmit condition.
        er.csr.naktx = false;
        regs.eps[idx] = er;
        Ok(buf.len())
    }

    /// Service a pending OUT event: return exactly the hardware-reported
    /// byte count from the endpoint buffer.
    ///
    /// Fails with `WouldBlock` when no OUT event is pending and with
    /// `BufferOverflow` when the reported count exceeds `max_len`; both
    /// failures leave the registers untouched.  On success the OUT flag,
    /// the NAK-on-receive condition and the peripheral-global pending flag
    /// of this endpoint are cleared, so a successful `read` must happen at
    /// most once per event.
    #[verifier::rlimit(50)]
    pub fn read(&self, regs: &mut UsbRegisters, mem: &PacketMemory, max_len: usize) -> (r: Result<
        Vec<u8>,
        UsbError,
    >)
        requires
            self.wf(),
            self.buf is Some,
            self.ep_dir is Some,
            self.ep_type is Some,
            old(regs).eps@[self.index as int].tcr.tcnt <= self.buf->0.size,
        ensures
            !old(regs).eps@[self.index as int].isr.odrxif ==> {
                &&& r == Err::<Vec<u8>, UsbError>(UsbError::WouldBlock)
                &&& *final(regs) == *old(regs)
            },
            old(regs).eps@[self.index as int].isr.odrxif && old(
                regs,
            ).eps@[self.index as int].tcr.tcnt > max_len ==> {
                &&& r == Err::<Vec<u8>, UsbError>(UsbError::BufferOverflow)
                &&& *final(regs) == *old(regs)
            },
            old(regs).eps@[self.index as int].isr.odrxif && old(
                regs,
            ).eps@[self.index as int].tcr.tcnt <= max_len ==> {
                &&& r is Ok
                &&& r->Ok_0@ == region_bytes(
                    mem.words@,
                    self.buf->0.offset as int,
                    old(regs).eps@[self.index as int].tcr.tcnt as int,
                )
                &&& final(regs).eps@ == old(regs).eps@.update(
                    self.index as int,
                    (EpsRegisters {
                        isr: (EpIsr { odrxif: false, ..old(regs).eps@[self.index as int].isr }),
                        csr: (EpCsr { nakrx: false, ..old(regs).eps@[self.index as int].csr }),
                        ..old(regs).eps@[self.index as int]
                    }),
                )
                &&& final(regs).usb_isr == usb_isr_with_ep_acked(
                    old(regs).usb_isr,
                    self.index + 1,
                )
                &&& eps_frame(*old(regs), *final(regs))
                &&& final(regs).usb_ier == old(regs).usb_ier
            },
    {
        let idx = self.index as usize;
        if !regs.eps[idx].isr.odrxif {
            return Err(UsbError::WouldBlock);
        }

        let out_buf = self.buf.unwrap();
        let count = regs.eps[idx].tcr.tcnt as usize;
        if count > max_len {
            return Err(UsbError::BufferOverflow);
        }

        let data = out_buf.read(mem, count);

        let mut er = regs.eps[idx];
        // Clear the NAK-on-receive condition and the endpoint's OUT flag.
        er.csr.nakrx = false;
        er.isr.odrxif = false;
        regs.eps[idx] = er;
        // Clear the peripheral-global pending flag of this endpoint.
        regs.usb_isr.ack_ep(self.index + 1);
        Ok(data)
    }

    /// Toggle the stall bit for direction `dir` of this endpoint.
    pub fn toggle_stalled(&self, regs: &mut UsbRegisters, dir: UsbDirection)
        requires
            self.wf(),
        ensures
            final(regs).eps@ == old(regs).eps@.update(
                self.index as int,
                (EpsRegisters {
                    csr: csr_stall_toggled(old(regs).eps@[self.index as int].csr, dir),
                    ..old(regs).eps@[self.index as int]
                }),
            ),
            eps_frame(*old(regs), *final(regs)),
            final(regs).usb_ier == old(regs).usb_ier,
            final(regs).usb_isr == old(regs).usb_isr,
    {
        let idx = self.index as usize;
        let mut er = regs.eps[idx];
        if dir == UsbDirection::Out {
            er.csr.stlrx = !er.csr.stlrx;
        } else {
            er.csr.stltx = !er.csr.stltx;
        }
        regs.eps[idx] = er;
    }

    /// The stall state for direction `dir` of this endpoint.
    pub fn is_stalled(&self, regs: &UsbRegisters, dir: UsbDirection) -> (r: bool)
        requires
            self.wf(),
        ensures
            r == csr_stalled(regs.eps@[self.index as int].csr, dir),
    {
        let idx = self.index as usize;
        if dir == UsbDirection::Out {
            regs.eps[idx].csr.stlrx
        } else {
            regs.eps[idx].csr.stltx
        }
    }
}

/// The buffer assignment of a double-buffered endpoint: nothing yet, a
/// single buffer, or a genuine ping-pong pair.
#[derive(Debug, Clone, Copy, PartialEq, Eq, Structural)]
pub enum MaybeDoubleBuffer {
    /// No buffer assigned yet.
    Unset,
    /// Backed by a single buffer.
    Single(EndpointBuffer),
    /// Backed by a ping-pong buffer pair.
    Double(EndpointDoubleBuffer),
}

/// A double-buffered-capable endpoint (endpoints 4-7): configurable
/// direction and type (adds Isochronous), backed by either a single buffer
/// or a ping-pong pair.
///
/// Only the single-buffer data path is implemented; the true ping-pong
/// path is a known gap, and `write`/`read` fail fast with `InvalidState`
/// on a ping-pong assignment instead of guessing its protocol.
#[derive(Debug, Clone, Copy, PartialEq, Eq, Structural)]
pub struct DoubleBufferedEndpoint {
    /// The buffer assignment, once made.
    pub buf: MaybeDoubleBuffer,
    /// The endpoint direction, once assigned.
    pub ep_dir: Option<UsbDirection>,
    /// The endpoint transfer type, once assigned.
    pub ep_type: Option<EndpointType>,
    /// Index within the double-buffered block (0-3, for endpoints 4-7).
    pub index: u8,
}

impl DoubleBufferedEndpoint {
    /// Well-formedness: the index addresses the double-buffered block and
    /// assigned buffers are well formed.
    pub open spec fn wf(self) -> bool {
        &&& self.index < 4
        &&& self.buf matches MaybeDoubleBuffer::Single(b) ==> b.wf()
        &&& self.buf matches MaybeDoubleBuffer::Double(d) ==> d.0.wf() && d.1.wf()
    }

    /// A fresh, fully unassigned endpoint at block index `index`.
    pub fn new(index: u8) -> (r: DoubleBufferedEndpoint)
        requires
            index < 4,
        ensures
            r == (DoubleBufferedEndpoint {
                buf: MaybeDoubleBuffer::Unset,
                ep_dir: None,
                ep_type: None,
                index,
            }),
            r.wf(),
    {
        DoubleBufferedEndpoint { buf: MaybeDoubleBuffer::Unset, ep_dir: None, ep_type: None, index }
    }

    /// The assigned direction, if any.
    pub fn ep_dir(&self) -> (r: Option<UsbDirection>)
        ensures
            r == self.ep_dir,
    {
        self.ep_dir
    }

    /// Assign the direction.
    pub fn set_ep_dir(&mut self, ep_dir: UsbDirection)
        ensures
            *final(self) == (DoubleBufferedEndpoint { ep_dir: Some(ep_dir), ..*old(self) }),
    {
        self.ep_dir = Some(ep_dir);
    }

    /// The assigned transfer type, if any.
    pub fn ep_type(&self) -> (r: Option<EndpointType>)
        ensures
            r == self.ep_type,
    {
        self.ep_type
    }

    /// Assign the transfer type.
    pub fn set_ep_type(&mut self, ep_type: EndpointType)
        ensures
            *final(self) == (DoubleBufferedEndpoint { ep_type: Some(ep_type), ..*old(self) }),
    {
        self.ep_type = Some(ep_type);
    }

    /// Whether a buffer assignment has been made.
    pub fn is_buf_set(&self) -> (r: bool)
        ensures
            r == !(self.buf is Unset),
    {
        match self.buf {
            MaybeDoubleBuffer::Unset => false,
            _ => true,
        }
    }

    /// Assign a single buffer and program the buffer address, buffer
    /// length and single-buffer mode of the endpoint configuration
    /// register.
    pub fn set_buf(&mut self, buffer: EndpointBuffer, regs: &mut UsbRegisters)
        requires
            old(self).wf(),
            buffer.wf(),
        ensures
            *final(self) == (DoubleBufferedEndpoint {
                buf: MaybeDoubleBuffer::Single(buffer),
                ..*old(self)
            }),
            final(self).wf(),
            final(regs).epd@ == old(regs).epd@.update(
                old(self).index as int,
                (EpdRegisters {
                    cfgr: (EpdCfgr {
                        epbufa: buffer.offset as u16,
                        eplen: buffer.size as u16,
                        sdbs: false,
                        ..old(regs).epd@[old(self).index as int].cfgr
                    }),
                    ..old(regs).epd@[old(self).index as int]
                }),
            ),
            epd_frame(*old(regs), *final(regs)),
            final(regs).usb_ier == old(regs).usb_ier,
    {
        let offset = buffer.offset();
        let size = buffer.capacity();
        self.buf = MaybeDoubleBuffer::Single(buffer);

        let idx = self.index as usize;
        let mut er = regs.epd[idx];
        er.cfgr.epbufa = offset;
        er.cfgr.eplen = size as u16;
        er.cfgr.sdbs = false;
        regs.epd[idx] = er;
    }

    /// Assign a ping-pong buffer pair and program the buffer address,
    /// buffer length and double-buffer mode of the endpoint configuration
    /// register.  The data path for this mode is not implemented.
    pub fn set_double_buf(&mut self, buffer: EndpointDoubleBuffer, regs: &mut UsbRegisters)
        requires
            old(self).wf(),
            buffer.0.wf(),
            buffer.1.wf(),
        ensures
            *final(self) == (DoubleBufferedEndpoint {
                buf: MaybeDoubleBuffer::Double(buffer),
                ..*old(self)
            }),
            final(self).wf(),
            final(regs).epd@ == old(regs).epd@.update(
                old(self).index as int,
                (EpdRegisters {
                    cfgr: (EpdCfgr {
                        epbufa: buffer.0.offset as u16,
                        eplen: buffer.0.size as u16,
                        sdbs: true,
                        ..old(regs).epd@[old(self).index as int].cfgr
                    }),
                    ..old(regs).epd@[old(self).index as int]
                }),
            ),
            epd_frame(*old(regs), *final(regs)),
            final(regs).usb_ier == old(regs).usb_ier,
    {
        let offset = buffer.0.offset();
        let size = buffer.0.capacity();
        self.buf = MaybeDoubleBuffer::Double(buffer);

        let idx = self.index as usize;
        let mut er = regs.epd[idx];
        er.cfgr.epbufa = offset;
        er.cfgr.eplen = size as u16;
        er.cfgr.sdbs = true;
        regs.epd[idx] = er;
    }

    /// Arm the endpoint: program the endpoint address field (offset past
    /// the single-buffered block), direction, type encoding and enable
    /// bit, enable its transfer interrupts and unmask its line in the
    /// peripheral-global interrupt-enable register.
    ///
    /// A no-op unless both direction and type have been assigned.
    #[verifier::rlimit(50)]
    pub fn configure(&self, regs: &mut UsbRegisters)
        requires
            self.wf(),
        ensures
            self.ep_type is None || self.ep_dir is None ==> *final(regs) == *old(regs),
            self.ep_type is Some && self.ep_dir is Some ==> {
                &&& final(regs).epd@ == old(regs).epd@.update(
                    self.index as int,
                    (EpdRegisters {
                        cfgr: (EpdCfgr {
                            epadr: (self.index + 4) as u8,
                            epdir: self.ep_dir->0 == UsbDirection::In,
                            eptype: self.ep_type->0 == EndpointType::Isochronous,
                            epen: true,
                            ..old(regs).epd@[self.index as int].cfgr
                        }),
                        ier: (EpIer { odrxie: true, idtxie: true }),
                        ..old(regs).epd@[self.index as int]
                    }),
                )
                &&& final(regs).usb_ier == usb_ier_with_ep_enabled(
                    old(regs).usb_ier,
                    self.index + 4,
                )
                &&& epd_frame(*old(regs), *final(regs))
            },
    {
        let ep_type = match self.ep_type {
            Some(t) => t,
            None => {
                return;
            },
        };
        let ep_dir = match self.ep_dir {
            Some(d) => d,
            None => {
                return;
            },
        };

        let idx = self.index as usize;
        let mut er = regs.epd[idx];
        er.cfgr.epadr = self.index + 4;
        er.cfgr.epdir = ep_dir == UsbDirection::In;
        er.cfgr.eptype = ep_type == EndpointType::Isochronous;
        er.cfgr.epen = true;
        er.ier.odrxie = true;
        er.ier.idtxie = true;
        regs.epd[idx] = er;

        regs.usb_ier.enable_ep(self.index + 4);
    }

    /// Stage an IN transfer on the single-buffer data path: copy `buf`
    /// into the buffer, program the buffer-0 transfer count and clear the
    /// NAK-on-transmit condition.
    ///
    /// Fails with `InvalidState` when no buffer is assigned or when the
    /// endpoint carries a ping-pong pair (the unimplemented data path);
    /// with `BufferOverflow` when `buf` exceeds the buffer capacity; and
    /// with `WouldBlock` while a previous IN transfer is still in flight.
    /// Every failure leaves registers and packet memory untouched.
    pub fn write(&self, regs: &mut UsbRegisters, mem: &mut PacketMemory, buf: &Vec<u8>) -> (r:
        Result<usize, UsbError>)
        requires
            self.wf(),
        ensures
            !(self.buf is Single) ==> {
                &&& r == Err::<usize, UsbError>(UsbError::InvalidState)
                &&& *final(regs) == *old(regs)
                &&& *final(mem) == *old(mem)
            },
            self.buf is Single && buf@.len() > (self.buf->Single_0).size ==> {
                &&& r == Err::<usize, UsbError>(UsbError::BufferOverflow)
                &&& *final(regs) == *old(regs)
                &&& *final(mem) == *old(mem)
            },
            self.buf is Single && buf@.len() <= (self.buf->Single_0).size && old(
                regs,
            ).epd@[self.index as int].tcr.tcnt0 != 0 ==> {
                &&& r == Err::<usize, UsbError>(UsbError::WouldBlock)
                &&& *final(regs) == *old(regs)
                &&& *final(mem) == *old(mem)
            },
            self.buf is Single && buf@.len() <= (self.buf->Single_0).size && old(
                regs,
            ).epd@[self.index as int].tcr.tcnt0 == 0 ==> {
                let b = self.buf->Single_0;
                &&& r == Ok::<usize, UsbError>(buf@.len() as usize)
                &&& region_bytes(final(mem).words@, b.offset as int, buf@.len() as int) == buf@
                &&& forall|w: int|
                    0 <= w < EP_MEMORY_WORDS && !(b.offset / 4 <= w < b.offset / 4 + words_for(
                        buf@.len() as int,
                    )) ==> final(mem).words@[w] == old(mem).words@[w]
                &&& final(regs).epd@ == old(regs).epd@.update(
                    self.index as int,
                    (EpdRegisters {
                        tcr: (crate::usb::registers::EpdTcr {
                            tcnt0: buf@.len() as u16,
                            ..old(regs).epd@[self.index as int].tcr
                        }),
                        csr: (EpCsr { naktx: false, ..old(regs).epd@[self.index as int].csr }),
                        ..old(regs).epd@[self.index as int]
                    }),
                )
                &&& epd_frame(*old(regs), *final(regs))
                &&& final(regs).usb_ier == old(regs).usb_ier
            },
    {
        let in_buf = match self.buf {
            MaybeDoubleBuffer::Unset => {
                return Err(UsbError::InvalidState);
            },
            MaybeDoubleBuffer::Single(b) => b,
            MaybeDoubleBuffer::Double(_) => {
                // The ping-pong data path is a known gap; fail fast rather
                // than guess its protocol.
                return Err(UsbError::InvalidState);
            },
        };

        if buf.len() > in_buf.capacity() {
            return Err(UsbError::BufferOverflow);
        }
        let idx = self.index as usize;
        if regs.epd[idx].tcr.tcnt0 != 0 {
            return Err(UsbError::WouldBlock);
        }

        in_buf.write(mem, buf);
        let mut er = regs.epd[idx];
        er.tcr.tcnt0 = buf.len() as u16;
        er.csr.naktx = false;
        regs.epd[idx] = er;
        Ok(buf.len())
    }

    /// Service an OUT transfer on the single-buffer data path: return
    /// exactly the hardware-reported buffer-0 byte count from the buffer.
    ///
    /// Fails with `InvalidState` when no buffer is assigned or when the
    /// endpoint carries a ping-pong pair, and with `BufferOverflow` when
    /// the reported count exceeds `max_len`.  No interrupt flag is
    /// cleared: this endpoint block is not yet wired into `poll`.
    pub fn read(&self, regs: &UsbRegisters, mem: &PacketMemory, max_len: usize) -> (r: Result<
        Vec<u8>,
        UsbError,
    >)
        requires
            self.wf(),
            self.buf matches MaybeDoubleBuffer::Single(b) ==> regs.epd@[self.index as int].tcr.tcnt0
                <= b.size,
        ensures
            !(self.buf is Single) ==> r == Err::<Vec<u8>, UsbError>(UsbError::InvalidState),
            self.buf is Single && regs.epd@[self.index as int].tcr.tcnt0 > max_len ==> r == Err::<
                Vec<u8>,
                UsbError,
            >(UsbError::BufferOverflow),
            self.buf is Single && regs.epd@[self.index as int].tcr.tcnt0 <= max_len ==> {
                let b = self.buf->Single_0;
                &&& r is Ok
                &&& r->Ok_0@ == region_bytes(
                    mem.words@,
                    b.offset as int,
                    regs.epd@[self.index as int].tcr.tcnt0 as int,
                )
            },
    {
        let out_buf = match self.buf {
            MaybeDoubleBuffer::Unset => {
                return Err(UsbError::InvalidState);
            },
            MaybeDoubleBuffer::Single(b) => b,
            MaybeDoubleBuffer::Double(_) => {
                // The ping-pong data path is a known gap; fail fast rather
                // than guess its protocol.
                return Err(UsbError::InvalidState);
            },
        };

        let idx = self.index as usize;
        let count = regs.epd[idx].tcr.tcnt0 as usize;
        if count > max_len {
            return Err(UsbError::BufferOverflow);
        }

        Ok(out_buf.read(mem, count))
    }

    /// Toggle the stall bit for direction `dir` of this endpoint.
    pub fn toggle_stalled(&self, regs: &mut UsbRegisters, dir: UsbDirection)
        requires
            self.wf(),
        ensures
            final(regs).epd@ == old(regs).epd@.update(
                self.index as int,
                (EpdRegisters {
                    csr: csr_stall_toggled(old(regs).epd@[self.index as int].csr, dir),
                    ..old(regs).epd@[self.index as int]
                }),
            ),
            epd_frame(*old(regs), *final(regs)),
            final(regs).usb_ier == old(regs).usb_ier,
    {
        let idx = self.index as usize;
        let mut er = regs.epd[idx];
        if dir == UsbDirection::Out {
            er.csr.stlrx = !er.csr.stlrx;
        } else {
            er.csr.stltx = !er.csr.stltx;
        }
        regs.epd[idx] = er;
    }

    /// The stall state for direction `dir` of this endpoint.
    pub fn is_stalled(&self, regs: &UsbRegisters, dir: UsbDirection) -> (r: bool)
        requires
            self.wf(),
        ensures
            r == csr_stalled(regs.epd@[self.index as int].csr, dir),
    {
        let idx = self.index as usize;
        if dir == UsbDirection::Out {
            regs.epd[idx].csr.stlrx
        } else {
            regs.epd[idx].csr.stltx
        }
    }
}

} // verus!
