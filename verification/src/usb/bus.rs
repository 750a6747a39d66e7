//! The USB bus driver: owns all endpoints, the register image and the
//! packet memory, and implements the allocate/enable/reset/poll/transfer
//! contract that a generic USB device stack drives.

use crate::usb::endpoint_memory::{
    region_bytes, words_for, EndpointBuffer, EndpointDoubleBuffer, EndpointMemoryAllocator,
    PacketMemory, EP_MEMORY_SIZE, EP_MEMORY_WORDS, SETUP_BUFFER_SIZE,
};
use crate::usb::endpoints::{
    csr_stall_toggled, csr_stalled, ep0_frame, eps_frame, ControlEndpoint, DoubleBufferedEndpoint,
    MaybeDoubleBuffer, SingleBufferedEndpoint,
};
use crate::usb::registers::{
    ep0_reset, epd_reset, eps_reset, usb_isr_with_ep_acked, usb_csr_reset,
    usb_isr_clear, Ep0Cfgr, Ep0Isr, Ep0Registers, Ep0Tcr, EpCsr, EpIer, EpIsr, EpdCfgr,
    EpdRegisters, EpdTcr, EpsCfgr, EpsRegisters, EpsTcr, UsbCsr, UsbIer, UsbIsr, UsbRegisters,
};
use crate::usb::{EndpointAddress, EndpointType, PollResult, UsbDirection, UsbError};
use vstd::prelude::*;

verus! {

/// The baseline interrupt-enable configuration installed by `enable` and
/// re-installed on every `reset`: global, start-of-frame, bus-reset,
/// resume, suspend and endpoint-0 interrupts unmasked, all other endpoint
/// lines masked.
pub open spec fn usb_ier_baseline() -> UsbIer {
    UsbIer {
        ugie: true,
        sofie: true,
        urstie: true,
        rsmie: true,
        suspie: true,
        ep0ie: true,
        ep1ie: false,
        ep2ie: false,
        ep3ie: false,
        ep4ie: false,
        ep5ie: false,
        ep6ie: false,
        ep7ie: false,
    }
}

/// Whether an endpoint with type assignment `t` and direction assignment
/// `d` is armed by `configure`: both must have been assigned.
pub open spec fn ep_armed(t: Option<EndpointType>, d: Option<UsbDirection>) -> bool {
    t is Some && d is Some
}

/// The register image of a single-buffered endpoint after `configure` ran
/// for endpoint state `e`: unchanged if `e` is not armed.
pub open spec fn eps_reg_configured(er: EpsRegisters, e: SingleBufferedEndpoint) -> EpsRegisters {
    if ep_armed(e.ep_type, e.ep_dir) {
        EpsRegisters {
            cfgr: EpsCfgr {
                epadr: (e.index + 1) as u8,
                epdir: e.ep_dir->0 == UsbDirection::In,
                epen: true,
                ..er.cfgr
            },
            ier: EpIer { odrxie: true, idtxie: true },
            ..er
        }
    } else {
        er
    }
}

/// The register image of a double-buffered endpoint after `configure` ran
/// for endpoint state `e`: unchanged if `e` is not armed.
pub open spec fn epd_reg_configured(er: EpdRegisters, e: DoubleBufferedEndpoint) -> EpdRegisters {
    if ep_armed(e.ep_type, e.ep_dir) {
        EpdRegisters {
            cfgr: EpdCfgr {
                epadr: (e.index + 4) as u8,
                epdir: e.ep_dir->0 == UsbDirection::In,
                eptype: e.ep_type->0 == EndpointType::Isochronous,
                epen: true,
                ..er.cfgr
            },
            ier: EpIer { odrxie: true, idtxie: true },
            ..er
        }
    } else {
        er
    }
}

/// The global interrupt-enable image after `reset`: the baseline plus one
/// line per armed endpoint.
pub open spec fn usb_ier_after_reset(
    eps: Seq<SingleBufferedEndpoint>,
    epd: Seq<DoubleBufferedEndpoint>,
) -> UsbIer {
    UsbIer {
        ugie: true,
        sofie: true,
        urstie: true,
        rsmie: true,
        suspie: true,
        ep0ie: true,
        ep1ie: ep_armed(eps[0].ep_type, eps[0].ep_dir),
        ep2ie: ep_armed(eps[1].ep_type, eps[1].ep_dir),
        ep3ie: ep_armed(eps[2].ep_type, eps[2].ep_dir),
        ep4ie: ep_armed(epd[0].ep_type, epd[0].ep_dir),
        ep5ie: ep_armed(epd[1].ep_type, epd[1].ep_dir),
        ep6ie: ep_armed(epd[2].ep_type, epd[2].ep_dir),
        ep7ie: ep_armed(epd[3].ep_type, epd[3].ep_dir),
    }
}

/// USB bus driver for the HT32 full-speed device controller.
///
/// The endpoint blocks are statically allocated for the bus's entire
/// lifetime: one control endpoint, three single-buffered endpoints and
/// four double-buffered endpoints.  Only their configuration is assigned,
/// once, during the allocation phase; `reset` replays the same
/// configuration into the register image on every host bus reset.
#[derive(Debug)]
pub struct UsbBus {
    /// Image of the controller's register block.
    pub regs: UsbRegisters,
    /// The endpoint packet memory.
    pub mem: PacketMemory,
    /// The control endpoint (endpoint 0).
    pub epc: ControlEndpoint,
    /// The single-buffered endpoints (endpoints 1-3).
    pub eps: Vec<SingleBufferedEndpoint>,
    /// The double-buffered endpoints (endpoints 4-7).
    pub epd: Vec<DoubleBufferedEndpoint>,
    /// The packet-memory allocator.
    pub ep_allocator: EndpointMemoryAllocator,
    /// Whether the device variant has the hardware DP pull-up feature.
    /// Variants without it assert the D+ pull-up through an externally
    /// driven GPIO pin instead.
    pub dp_pull_up_feature: bool,
}

/// Whether single-buffered endpoint `e` can host a new allocation of type
/// `t` and direction `d`: type and direction are each unset or already
/// matching, and no buffer has been assigned yet.
pub open spec fn candidate_ok(e: SingleBufferedEndpoint, t: EndpointType, d: UsbDirection) -> bool {
    &&& (e.ep_type is None || e.ep_type == Some(t))
    &&& (e.ep_dir is None || e.ep_dir == Some(d))
    &&& e.buf is None
}

/// The state of a candidate that the endpoint search visited and passed
/// over: an unset type is assigned, and an unset direction is assigned
/// when the (possibly just assigned) type matches.
pub open spec fn skipped_update(
    e: SingleBufferedEndpoint,
    t: EndpointType,
    d: UsbDirection,
) -> SingleBufferedEndpoint {
    let e1 = if e.ep_type is None {
        SingleBufferedEndpoint { ep_type: Some(t), ..e }
    } else {
        e
    };
    if e1.ep_type == Some(t) && e1.ep_dir is None {
        SingleBufferedEndpoint { ep_dir: Some(d), ..e1 }
    } else {
        e1
    }
}

/// The index of the first endpoint in `eps[lo..hi]` that can host an
/// allocation of type `t` and direction `d`, or `hi` if there is none.
pub open spec fn first_candidate(
    eps: Seq<SingleBufferedEndpoint>,
    lo: int,
    hi: int,
    t: EndpointType,
    d: UsbDirection,
) -> int
    decreases hi - lo,
{
    if lo >= hi {
        hi
    } else if candidate_ok(eps[lo], t, d) {
        lo
    } else {
        first_candidate(eps, lo + 1, hi, t, d)
    }
}

/// `first_candidate` returns the index of the first hosting-capable
/// endpoint of the range: every endpoint before it is incapable, and the
/// returned index, when it lies in the range, is capable.
pub proof fn lemma_first_candidate(
    eps: Seq<SingleBufferedEndpoint>,
    lo: int,
    hi: int,
    t: EndpointType,
    d: UsbDirection,
)
    requires
        0 <= lo <= hi <= eps.len(),
    ensures
        lo <= first_candidate(eps, lo, hi, t, d) <= hi,
        forall|j: int|
            lo <= j < first_candidate(eps, lo, hi, t, d) ==> !(#[trigger] candidate_ok(
                eps[j],
                t,
                d,
            )),
        first_candidate(eps, lo, hi, t, d) < hi ==> candidate_ok(
            eps[first_candidate(eps, lo, hi, t, d)],
            t,
            d,
        ),
    decreases hi - lo,
{
    if lo < hi {
        if !candidate_ok(eps[lo], t, d) {
            lemma_first_candidate(eps, lo + 1, hi, t, d);
        }
    }
}

/// Law: determinism of the endpoint search.  Starting from
/// single-buffered endpoints with unset type and direction, repeated
/// unconstrained allocations claim endpoints in ascending order: when the
/// first `k` endpoints have been claimed (their buffer is set) and the
/// rest are still untouched, the search picks index `k` — bus endpoint
/// `k + 1` — and once all three are claimed it finds no candidate, which
/// `alloc_ep` reports as `EndpointOverflow`.
pub proof fn lemma_search_ascending(
    eps: Seq<SingleBufferedEndpoint>,
    t: EndpointType,
    d: UsbDirection,
    k: int,
)
    requires
        eps.len() == 3,
        0 <= k <= 3,
        forall|j: int| 0 <= j < k ==> (#[trigger] eps[j]).buf is Some,
        forall|j: int|
            k <= j < 3 ==> (#[trigger] eps[j]).ep_type is None && eps[j].ep_dir is None
                && eps[j].buf is None,
    ensures
        first_candidate(eps, 0, 3, t, d) == k,
{
    lemma_first_candidate(eps, 0, 3, t, d);
    let fc = first_candidate(eps, 0, 3, t, d);
    if fc < k {
        assert(candidate_ok(eps[fc], t, d));
    }
    if fc > k {
        assert(k < 3);
        assert(candidate_ok(eps[k], t, d));
    }
}

/// The parts of the bus state that an operation left untouched are equal
/// between `pre` and `post`.
pub open spec fn bus_preserved(pre: UsbBus, post: UsbBus) -> bool {
    &&& post.regs == pre.regs
    &&& post.mem.words@ == pre.mem.words@
    &&& post.epc == pre.epc
    &&& post.eps@ == pre.eps@
    &&& post.epd@ == pre.epd@
    &&& post.ep_allocator == pre.ep_allocator
    &&& post.dp_pull_up_feature == pre.dp_pull_up_feature
}

impl UsbBus {
    /// Well-formedness of the bus state.
    pub open spec fn wf(self) -> bool {
        &&& self.epc.wf()
        &&& self.eps@.len() == 3
        &&& forall|i: int|
            0 <= i < 3 ==> (#[trigger] self.eps@[i]).wf() && self.eps@[i].index == i
        &&& self.epd@.len() == 4
        &&& forall|i: int|
            0 <= i < 4 ==> (#[trigger] self.epd@[i]).wf() && self.epd@[i].index == i
        &&& self.ep_allocator.wf()
    }

    /// A fresh bus driver: reset register image, zeroed packet memory,
    /// fully unassigned endpoints, and the allocator cursor right after
    /// the reserved SETUP area.
    ///
    /// `dp_pull_up_feature` selects the device variant: with the hardware
    /// DP pull-up feature, or with an externally driven pull-up pin.
    pub fn new(dp_pull_up_feature: bool) -> (r: UsbBus)
        ensures
            r.wf(),
            r.regs.usb_csr == usb_csr_reset(),
            r.regs.usb_ier == crate::usb::registers::usb_ier_reset(),
            r.regs.usb_isr == usb_isr_clear(),
            r.regs.usb_devar == 0,
            r.regs.ep0 == ep0_reset(),
            forall|i: int| 0 <= i < 3 ==> r.regs.eps[i] == eps_reset(),
            forall|i: int| 0 <= i < 4 ==> r.regs.epd[i] == epd_reset(),
            forall|i: int| 0 <= i < EP_MEMORY_WORDS ==> r.mem.words[i] == 0,
            r.epc == (ControlEndpoint { buf: None }),
            forall|i: int|
                0 <= i < 3 ==> r.eps@[i] == (SingleBufferedEndpoint {
                    buf: None,
                    ep_dir: None,
                    ep_type: None,
                    index: i as u8,
                }),
            forall|i: int|
                0 <= i < 4 ==> r.epd@[i] == (DoubleBufferedEndpoint {
                    buf: MaybeDoubleBuffer::Unset,
                    ep_dir: None,
                    ep_type: None,
                    index: i as u8,
                }),
            r.ep_allocator.next_free_offset == crate::usb::endpoint_memory::SETUP_BUFFER_SIZE,
            r.dp_pull_up_feature == dp_pull_up_feature,
    {
        let mut eps: Vec<SingleBufferedEndpoint> = Vec::new();
        let mut i: u8 = 0;
        while i < 3
            invariant
                i <= 3,
                eps@.len() == i,
                forall|j: int|
                    0 <= j < i ==> eps@[j] == (SingleBufferedEndpoint {
                        buf: None,
                        ep_dir: None,
                        ep_type: None,
                        index: j as u8,
                    }),
            decreases 3 - i,
        {
            eps.push(SingleBufferedEndpoint::new(i));
            i = i + 1;
        }

        let mut epd: Vec<DoubleBufferedEndpoint> = Vec::new();
        let mut i: u8 = 0;
        while i < 4
            invariant
                i <= 4,
                epd@.len() == i,
                forall|j: int|
                    0 <= j < i ==> epd@[j] == (DoubleBufferedEndpoint {
                        buf: MaybeDoubleBuffer::Unset,
                        ep_dir: None,
                        ep_type: None,
                        index: j as u8,
                    }),
            decreases 4 - i,
        {
            epd.push(DoubleBufferedEndpoint::new(i));
            i = i + 1;
        }

        UsbBus {
            regs: UsbRegisters::new(),
            mem: PacketMemory::new(),
            epc: ControlEndpoint::new(),
            eps,
            epd,
            ep_allocator: EndpointMemoryAllocator::new(),
            dp_pull_up_feature,
        }
    }

    /// Allocate an endpoint for the device stack.
    ///
    /// For Control, any requested address other than 0 is rejected with
    /// `InvalidEndpoint`; the control endpoint's double buffer is
    /// allocated on the first call and later calls are idempotent no-ops
    /// returning the same address.  For Interrupt and Bulk, the
    /// single-buffered block (endpoints 1-3) is searched in ascending
    /// order — or only the requested slot, if an address was requested —
    /// for the first endpoint whose type and direction are unset or
    /// already matching and whose buffer is not yet set; type and
    /// direction are assigned where unset (also on candidates that are
    /// then passed over), a buffer sized from `max_packet_size` is
    /// allocated, and the endpoint's address is returned.  Exhausting the
    /// candidates fails with `EndpointOverflow` (no address requested) or
    /// `InvalidEndpoint` (requested address rejected).  Isochronous
    /// allocation, and allocation at a requested address in the
    /// double-buffered block, are explicitly unsupported and fail the
    /// same way.
    #[verifier::rlimit(100)]
    pub fn alloc_ep(
        &mut self,
        ep_dir: UsbDirection,
        ep_addr: Option<EndpointAddress>,
        ep_type: EndpointType,
        max_packet_size: u16,
        _interval: u8,
    ) -> (r: Result<EndpointAddress, UsbError>)
        requires
            old(self).wf(),
            ep_type == EndpointType::Control ==> max_packet_size as int % 4 == 0 && 2
                * max_packet_size < EP_MEMORY_SIZE,
            ep_type == EndpointType::Bulk || ep_type == EndpointType::Interrupt
                ==> max_packet_size as int % 4 == 0 && max_packet_size < EP_MEMORY_SIZE,
        ensures
            final(self).wf(),
            final(self).mem.words@ == old(self).mem.words@,
            final(self).epd@ == old(self).epd@,
            final(self).dp_pull_up_feature == old(self).dp_pull_up_feature,
            final(self).regs.usb_csr == old(self).regs.usb_csr,
            final(self).regs.usb_ier == old(self).regs.usb_ier,
            final(self).regs.usb_isr == old(self).regs.usb_isr,
            final(self).regs.usb_devar == old(self).regs.usb_devar,
            final(self).regs.epd@ == old(self).regs.epd@,
            ep_type == EndpointType::Control && (ep_addr matches Some(a) && a.index != 0) ==> {
                &&& r == Err::<EndpointAddress, UsbError>(UsbError::InvalidEndpoint)
                &&& bus_preserved(*old(self), *final(self))
            },
            ep_type == EndpointType::Control && (ep_addr is None || (ep_addr->0).index == 0)
                && old(self).epc.buf is Some ==> {
                &&& r == Ok::<EndpointAddress, UsbError>(
                    EndpointAddress { index: 0, direction: ep_dir },
                )
                &&& bus_preserved(*old(self), *final(self))
            },
            ep_type == EndpointType::Control && (ep_addr is None || (ep_addr->0).index == 0)
                && old(self).epc.buf is None && old(self).ep_allocator.next_free_offset + 2
                * max_packet_size > EP_MEMORY_SIZE ==> {
                &&& r == Err::<EndpointAddress, UsbError>(UsbError::EndpointMemoryOverflow)
                &&& bus_preserved(*old(self), *final(self))
            },
            ep_type == EndpointType::Control && (ep_addr is None || (ep_addr->0).index == 0)
                && old(self).epc.buf is None && old(self).ep_allocator.next_free_offset + 2
                * max_packet_size <= EP_MEMORY_SIZE ==> {
                let cursor = old(self).ep_allocator.next_free_offset;
                &&& r == Ok::<EndpointAddress, UsbError>(
                    EndpointAddress { index: 0, direction: ep_dir },
                )
                &&& final(self).epc == (ControlEndpoint {
                    buf: Some(
                        EndpointDoubleBuffer(
                            EndpointBuffer { offset: cursor, size: max_packet_size as usize },
                            EndpointBuffer {
                                offset: (cursor + max_packet_size) as usize,
                                size: max_packet_size as usize,
                            },
                        ),
                    ),
                })
                &&& final(self).ep_allocator.next_free_offset == cursor + 2 * max_packet_size
                &&& final(self).regs.ep0 == (Ep0Registers {
                    cfgr: (Ep0Cfgr {
                        epbufa: cursor as u16,
                        eplen: max_packet_size,
                        epen: true,
                    }),
                    ..old(self).regs.ep0
                })
                &&& final(self).regs.eps@ == old(self).regs.eps@
                &&& final(self).eps@ == old(self).eps@
            },
            ep_type == EndpointType::Isochronous ==> {
                &&& r == (if ep_addr is Some {
                    Err::<EndpointAddress, UsbError>(UsbError::InvalidEndpoint)
                } else {
                    Err::<EndpointAddress, UsbError>(UsbError::EndpointOverflow)
                })
                &&& bus_preserved(*old(self), *final(self))
            },
            (ep_type == EndpointType::Bulk || ep_type == EndpointType::Interrupt) && (
            ep_addr matches Some(a) && (a.index == 0 || a.index >= 4)) ==> {
                &&& r == Err::<EndpointAddress, UsbError>(UsbError::InvalidEndpoint)
                &&& bus_preserved(*old(self), *final(self))
            },
            (ep_type == EndpointType::Bulk || ep_type == EndpointType::Interrupt) && (ep_addr
                is None || 1 <= (ep_addr->0).index <= 3) ==> {
                let lo = if ep_addr is Some {
                    (ep_addr->0).index - 1
                } else {
                    0int
                };
                let hi = if ep_addr is Some {
                    (ep_addr->0).index as int
                } else {
                    3int
                };
                let k = first_candidate(old(self).eps@, lo, hi, ep_type, ep_dir);
                let cursor = old(self).ep_allocator.next_free_offset;
                &&& final(self).epc == old(self).epc
                &&& final(self).eps@.len() == 3
                &&& forall|j: int| 0 <= j < lo ==> final(self).eps@[j] == old(self).eps@[j]
                &&& forall|j: int|
                    lo <= j < k ==> final(self).eps@[j] == skipped_update(
                        old(self).eps@[j],
                        ep_type,
                        ep_dir,
                    )
                &&& forall|j: int| k < j < 3 ==> final(self).eps@[j] == old(self).eps@[j]
                &&& (k == hi ==> {
                    &&& r == (if ep_addr is Some {
                        Err::<EndpointAddress, UsbError>(UsbError::InvalidEndpoint)
                    } else {
                        Err::<EndpointAddress, UsbError>(UsbError::EndpointOverflow)
                    })
                    &&& (hi < 3 ==> final(self).eps@[hi] == old(self).eps@[hi])
                    &&& final(self).ep_allocator == old(self).ep_allocator
                    &&& final(self).regs.eps@ == old(self).regs.eps@
                    &&& final(self).regs.ep0 == old(self).regs.ep0
                })
                &&& (k < hi && cursor + max_packet_size > EP_MEMORY_SIZE ==> {
                    &&& r == Err::<EndpointAddress, UsbError>(UsbError::EndpointMemoryOverflow)
                    &&& final(self).eps@[k] == (SingleBufferedEndpoint {
                        ep_type: Some(ep_type),
                        ep_dir: Some(ep_dir),
                        ..old(self).eps@[k]
                    })
                    &&& final(self).ep_allocator == old(self).ep_allocator
                    &&& final(self).regs.eps@ == old(self).regs.eps@
                    &&& final(self).regs.ep0 == old(self).regs.ep0
                })
                &&& (k < hi && cursor + max_packet_size <= EP_MEMORY_SIZE ==> {
                    &&& r == Ok::<EndpointAddress, UsbError>(
                        EndpointAddress { index: (k + 1) as u8, direction: ep_dir },
                    )
                    &&& final(self).eps@[k] == (SingleBufferedEndpoint {
                        ep_type: Some(ep_type),
                        ep_dir: Some(ep_dir),
                        buf: Some(
                            EndpointBuffer { offset: cursor, size: max_packet_size as usize },
                        ),
                        ..old(self).eps@[k]
                    })
                    &&& final(self).ep_allocator.next_free_offset == cursor + max_packet_size
                    &&& final(self).regs.eps@ == old(self).regs.eps@.update(
                        k,
                        (EpsRegisters {
                            cfgr: (EpsCfgr {
                                epbufa: cursor as u16,
                                eplen: max_packet_size,
                                ..old(self).regs.eps@[k].cfgr
                            }),
                            ..old(self).regs.eps@[k]
                        }),
                    )
                    &&& final(self).regs.ep0 == old(self).regs.ep0
                })
            },
    {
        match ep_type {
            EndpointType::Control => {
                match ep_addr {
                    Some(a) => {
                        if a.index() != 0 {
                            // Only endpoint 0 can be used as a control
                            // endpoint.
                            return Err(UsbError::InvalidEndpoint);
                        }
                    },
                    None => {},
                }
                if !self.epc.is_buf_set() {
                    let buffer = match self.ep_allocator.allocate_double_buffer(
                        max_packet_size as usize,
                    ) {
                        Ok(b) => b,
                        Err(e) => {
                            return Err(e);
                        },
                    };
                    let mut epc = self.epc;
                    epc.set_buf(buffer, &mut self.regs);
                    self.epc = epc;
                }
                Ok(EndpointAddress::from_parts(0, ep_dir))
            },
            EndpointType::Interrupt | EndpointType::Bulk => {
                let (lo, hi): (usize, usize) = match ep_addr {
                    Some(a) => {
                        if a.index() == 0 {
                            // Endpoint 0 is always the control endpoint.
                            return Err(UsbError::InvalidEndpoint);
                        }
                        if a.index() < 4 {
                            (a.index() - 1, a.index())
                        } else {
                            // Allocation at a requested address in the
                            // double-buffered block is not supported.
                            return Err(UsbError::InvalidEndpoint);
                        }
                    },
                    None => (0, 3),
                };

                let mut idx: usize = lo;
                while idx < hi
                    invariant
                        old(self).wf(),
                        ep_type == EndpointType::Bulk || ep_type == EndpointType::Interrupt,
                        max_packet_size as int % 4 == 0,
                        max_packet_size < EP_MEMORY_SIZE,
                        lo <= idx <= hi,
                        hi <= 3,
                        ep_addr is Some ==> 1 <= (ep_addr->0).index <= 3 && lo == (
                        ep_addr->0).index - 1 && hi == (ep_addr->0).index,
                        ep_addr is None ==> lo == 0 && hi == 3,
                        self.eps@.len() == 3,
                        forall|j: int|
                            0 <= j < 3 ==> (#[trigger] self.eps@[j]).wf() && self.eps@[j].index
                                == j,
                        forall|j: int| 0 <= j < lo ==> self.eps@[j] == old(self).eps@[j],
                        forall|j: int|
                            lo <= j < idx ==> self.eps@[j] == skipped_update(
                                old(self).eps@[j],
                                ep_type,
                                ep_dir,
                            ),
                        forall|j: int| idx <= j < 3 ==> self.eps@[j] == old(self).eps@[j],
                        forall|j: int|
                            lo <= j < idx ==> !(#[trigger] candidate_ok(
                                old(self).eps@[j],
                                ep_type,
                                ep_dir,
                            )),
                        self.regs == old(self).regs,
                        self.mem.words@ == old(self).mem.words@,
                        self.epc == old(self).epc,
                        self.epd@ == old(self).epd@,
                        self.ep_allocator == old(self).ep_allocator,
                        self.dp_pull_up_feature == old(self).dp_pull_up_feature,
                    decreases hi - idx,
                {
                    let mut ep = self.eps[idx];
                    let mut skip = false;

                    match ep.ep_type() {
                        None => {
                            ep.set_ep_type(ep_type);
                        },
                        Some(t) => {
                            if t != ep_type {
                                skip = true;
                            }
                        },
                    }
                    if !skip {
                        match ep.ep_dir() {
                            None => {
                                ep.set_ep_dir(ep_dir);
                            },
                            Some(d) => {
                                if d != ep_dir {
                                    skip = true;
                                }
                            },
                        }
                    }
                    if !skip && ep.is_buf_set() {
                        skip = true;
                    }
                    self.eps[idx] = ep;

                    if !skip {
                        proof {
                            lemma_first_candidate(
                                old(self).eps@,
                                lo as int,
                                hi as int,
                                ep_type,
                                ep_dir,
                            );
                            assert(candidate_ok(old(self).eps@[idx as int], ep_type, ep_dir));
                            assert(first_candidate(
                                old(self).eps@,
                                lo as int,
                                hi as int,
                                ep_type,
                                ep_dir,
                            ) == idx as int);
                        }
                        let buffer = match self.ep_allocator.allocate_buffer(
                            max_packet_size as usize,
                        ) {
                            Ok(b) => b,
                            Err(e) => {
                                return Err(e);
                            },
                        };
                        let mut ep2 = self.eps[idx];
                        ep2.set_buf(buffer, &mut self.regs);
                        self.eps[idx] = ep2;
                        return Ok(EndpointAddress::from_parts(idx + 1, ep_dir));
                    }
                    idx = idx + 1;
                }

                proof {
                    lemma_first_candidate(old(self).eps@, lo as int, hi as int, ep_type, ep_dir);
                }
                Err(
                    match ep_addr {
                        Some(_) => UsbError::InvalidEndpoint,
                        None => UsbError::EndpointOverflow,
                    },
                )
            },
            EndpointType::Isochronous => {
                // Isochronous allocation is explicitly unsupported: fail
                // fast rather than guess a buffer-sizing policy.
                Err(
                    match ep_addr {
                        Some(_) => UsbError::InvalidEndpoint,
                        None => UsbError::EndpointOverflow,
                    },
                )
            },
        }
    }

    /// Simulate a disconnect from the USB bus by pulsing the power-down
    /// bit, causing the host to reset and re-enumerate the device.  The
    /// bit is restored to its previous value, so the net register image is
    /// unchanged.
    pub fn force_reenumeration(&mut self)
        ensures
            bus_preserved(*old(self), *final(self)),
    {
        let pdwn = self.regs.usb_csr.pdwn;
        self.regs.usb_csr.pdwn = true;
        self.regs.usb_csr.pdwn = pdwn;
    }

    /// One-time hardware bring-up: power and low-power bits set, every
    /// interrupt flag cleared, the baseline interrupt set unmasked, and —
    /// on device variants with the hardware feature — the DP pull-up
    /// enabled.
    ///
    /// Returns whether the caller must now assert the D+ pull-up line
    /// through the externally driven GPIO pin: exactly on variants
    /// without the hardware pull-up feature.
    pub fn enable(&mut self) -> (needs_external_pull_up: bool)
        ensures
            needs_external_pull_up == !old(self).dp_pull_up_feature,
            final(self).regs.usb_csr == (UsbCsr {
                pdwn: true,
                lpmode: true,
                dppuen: old(self).dp_pull_up_feature,
                dpwken: false,
            }),
            final(self).regs.usb_isr == usb_isr_clear(),
            final(self).regs.usb_ier == usb_ier_baseline(),
            final(self).regs.usb_devar == old(self).regs.usb_devar,
            final(self).regs.ep0 == old(self).regs.ep0,
            final(self).regs.eps@ == old(self).regs.eps@,
            final(self).regs.epd@ == old(self).regs.epd@,
            final(self).mem.words@ == old(self).mem.words@,
            final(self).epc == old(self).epc,
            final(self).eps@ == old(self).eps@,
            final(self).epd@ == old(self).epd@,
            final(self).ep_allocator == old(self).ep_allocator,
            final(self).dp_pull_up_feature == old(self).dp_pull_up_feature,
    {
        if self.dp_pull_up_feature {
            self.regs.usb_csr = UsbCsr { pdwn: true, lpmode: true, dppuen: true, dpwken: true };
        } else {
            self.regs.usb_csr = UsbCsr { pdwn: true, lpmode: true, dppuen: false, dpwken: false };
        }

        // Clear every pending interrupt flag (write-one-to-clear, all
        // ones).
        self.regs.usb_isr = UsbIsr {
            esofif: false,
            urstif: false,
            rsmif: false,
            suspif: false,
            ep0if: false,
            ep1if: false,
            ep2if: false,
            ep3if: false,
            ep4if: false,
            ep5if: false,
            ep6if: false,
            ep7if: false,
        };

        if self.dp_pull_up_feature {
            self.regs.usb_csr.dpwken = false;
        }

        self.regs.usb_ier = UsbIer {
            ugie: true,
            sofie: true,
            urstie: true,
            rsmie: true,
            suspie: true,
            ep0ie: true,
            ep1ie: false,
            ep2ie: false,
            ep3ie: false,
            ep4ie: false,
            ep5ie: false,
            ep6ie: false,
            ep7ie: false,
        };

        // On variants without the hardware pull-up feature the D+ pull-up
        // is an externally driven pin; the caller asserts it now.
        !self.dp_pull_up_feature
    }

    /// Service a host bus reset: clear the control/status register
    /// (keeping an enabled hardware DP pull-up enabled), re-install the
    /// baseline interrupt set and re-apply every endpoint's configuration
    /// into the register image.  Idempotent and safe to call on every bus
    /// reset event; endpoint state and the allocator are untouched.
    pub fn reset(&mut self)
        requires
            old(self).wf(),
        ensures
            final(self).regs.usb_csr == (UsbCsr {
                pdwn: false,
                lpmode: false,
                dppuen: old(self).dp_pull_up_feature && old(self).regs.usb_csr.dppuen,
                dpwken: false,
            }),
            final(self).regs.usb_ier == usb_ier_after_reset(old(self).eps@, old(self).epd@),
            final(self).regs.usb_isr == old(self).regs.usb_isr,
            final(self).regs.usb_devar == old(self).regs.usb_devar,
            final(self).regs.ep0 == (Ep0Registers {
                ier: (crate::usb::registers::Ep0Ier { sdrxie: true, odrxie: true, idtxie: true }),
                ..old(self).regs.ep0
            }),
            forall|i: int|
                0 <= i < 3 ==> final(self).regs.eps@[i] == eps_reg_configured(
                    old(self).regs.eps@[i],
                    old(self).eps@[i],
                ),
            forall|i: int|
                0 <= i < 4 ==> final(self).regs.epd@[i] == epd_reg_configured(
                    old(self).regs.epd@[i],
                    old(self).epd@[i],
                ),
            final(self).mem.words@ == old(self).mem.words@,
            final(self).epc == old(self).epc,
            final(self).eps@ == old(self).eps@,
            final(self).epd@ == old(self).epd@,
            final(self).ep_allocator == old(self).ep_allocator,
            final(self).dp_pull_up_feature == old(self).dp_pull_up_feature,
            final(self).wf(),
    {
        let dppuen = self.regs.usb_csr.dppuen;
        self.regs.usb_csr = UsbCsr {
            pdwn: false,
            lpmode: false,
            dppuen: self.dp_pull_up_feature && dppuen,
            dpwken: false,
        };

        self.regs.usb_ier = UsbIer {
            ugie: true,
            sofie: true,
            urstie: true,
            rsmie: true,
            suspie: true,
            ep0ie: true,
            ep1ie: false,
            ep2ie: false,
            ep3ie: false,
            ep4ie: false,
            ep5ie: false,
            ep6ie: false,
            ep7ie: false,
        };

        self.epc.configure(&mut self.regs);

        let mut i: usize = 0;
        while i < 3
            invariant
                old(self).wf(),
                i <= 3,
                self.eps@ == old(self).eps@,
                self.epd@ == old(self).epd@,
                self.epc == old(self).epc,
                self.mem.words@ == old(self).mem.words@,
                self.ep_allocator == old(self).ep_allocator,
                self.dp_pull_up_feature == old(self).dp_pull_up_feature,
                self.regs.usb_csr == (UsbCsr {
                    pdwn: false,
                    lpmode: false,
                    dppuen: old(self).dp_pull_up_feature && old(self).regs.usb_csr.dppuen,
                    dpwken: false,
                }),
                self.regs.usb_isr == old(self).regs.usb_isr,
                self.regs.usb_devar == old(self).regs.usb_devar,
                self.regs.ep0 == (Ep0Registers {
                    ier: (crate::usb::registers::Ep0Ier {
                        sdrxie: true,
                        odrxie: true,
                        idtxie: true,
                    }),
                    ..old(self).regs.ep0
                }),
                self.regs.usb_ier == (UsbIer {
                    ep1ie: i > 0 && ep_armed(old(self).eps@[0].ep_type, old(self).eps@[0].ep_dir),
                    ep2ie: i > 1 && ep_armed(old(self).eps@[1].ep_type, old(self).eps@[1].ep_dir),
                    ep3ie: i > 2 && ep_armed(old(self).eps@[2].ep_type, old(self).eps@[2].ep_dir),
                    ..usb_ier_baseline()
                }),
                forall|j: int|
                    0 <= j < i ==> self.regs.eps@[j] == eps_reg_configured(
                        old(self).regs.eps@[j],
                        old(self).eps@[j],
                    ),
                forall|j: int| i <= j < 3 ==> self.regs.eps@[j] == old(self).regs.eps@[j],
                self.regs.epd@ == old(self).regs.epd@,
            decreases 3 - i,
        {
            let ep = self.eps[i];
            ep.configure(&mut self.regs);
            i = i + 1;
        }

        let mut i: usize = 0;
        while i < 4
            invariant
                old(self).wf(),
                i <= 4,
                self.eps@ == old(self).eps@,
                self.epd@ == old(self).epd@,
                self.epc == old(self).epc,
                self.mem.words@ == old(self).mem.words@,
                self.ep_allocator == old(self).ep_allocator,
                self.dp_pull_up_feature == old(self).dp_pull_up_feature,
                self.regs.usb_csr == (UsbCsr {
                    pdwn: false,
                    lpmode: false,
                    dppuen: old(self).dp_pull_up_feature && old(self).regs.usb_csr.dppuen,
                    dpwken: false,
                }),
                self.regs.usb_isr == old(self).regs.usb_isr,
                self.regs.usb_devar == old(self).regs.usb_devar,
                self.regs.ep0 == (Ep0Registers {
                    ier: (crate::usb::registers::Ep0Ier {
                        sdrxie: true,
                        odrxie: true,
                        idtxie: true,
                    }),
                    ..old(self).regs.ep0
                }),
                self.regs.usb_ier == (UsbIer {
                    ep1ie: ep_armed(old(self).eps@[0].ep_type, old(self).eps@[0].ep_dir),
                    ep2ie: ep_armed(old(self).eps@[1].ep_type, old(self).eps@[1].ep_dir),
                    ep3ie: ep_armed(old(self).eps@[2].ep_type, old(self).eps@[2].ep_dir),
                    ep4ie: i > 0 && ep_armed(old(self).epd@[0].ep_type, old(self).epd@[0].ep_dir),
                    ep5ie: i > 1 && ep_armed(old(self).epd@[1].ep_type, old(self).epd@[1].ep_dir),
                    ep6ie: i > 2 && ep_armed(old(self).epd@[2].ep_type, old(self).epd@[2].ep_dir),
                    ep7ie: i > 3 && ep_armed(old(self).epd@[3].ep_type, old(self).epd@[3].ep_dir),
                    ..usb_ier_baseline()
                }),
                forall|j: int|
                    0 <= j < 3 ==> self.regs.eps@[j] == eps_reg_configured(
                        old(self).regs.eps@[j],
                        old(self).eps@[j],
                    ),
                forall|j: int|
                    0 <= j < i ==> self.regs.epd@[j] == epd_reg_configured(
                        old(self).regs.epd@[j],
                        old(self).epd@[j],
                    ),
                forall|j: int| i <= j < 4 ==> self.regs.epd@[j] == old(self).regs.epd@[j],
            decreases 4 - i,
        {
            let ep = self.epd[i];
            ep.configure(&mut self.regs);
            i = i + 1;
        }
    }

    /// Program the device address assigned by the host into the device
    /// address register (a 7-bit field).
    pub fn set_device_address(&mut self, addr: u8)
        ensures
            final(self).regs == (UsbRegisters {
                usb_devar: (addr & 0x7f) as u8,
                ..old(self).regs
            }),
            final(self).mem.words@ == old(self).mem.words@,
            final(self).epc == old(self).epc,
            final(self).eps@ == old(self).eps@,
            final(self).epd@ == old(self).epd@,
            final(self).ep_allocator == old(self).ep_allocator,
            final(self).dp_pull_up_feature == old(self).dp_pull_up_feature,
    {
        self.regs.usb_devar = addr & 0x7f;
    }

    /// The stall state of the endpoint addressed by `ep_addr`, as the
    /// stall bit of the owning register block reads.
    pub open spec fn stall_state(self, ep_addr: EndpointAddress) -> bool
        recommends
            ep_addr.index < 8,
    {
        if ep_addr.index == 0 {
            csr_stalled(self.regs.ep0.csr, ep_addr.direction)
        } else if ep_addr.index <= 3 {
            csr_stalled(self.regs.eps@[ep_addr.index - 1].csr, ep_addr.direction)
        } else {
            csr_stalled(self.regs.epd@[ep_addr.index - 4].csr, ep_addr.direction)
        }
    }

    /// Gather the per-endpoint data events of endpoints 0-3 into the
    /// three event masks, clearing each reported endpoint's
    /// IN-transmitted flag and peripheral-global pending flag.
    /// Endpoints 4-7 are not yet wired in: their flags are neither read
    /// nor cleared.
    #[verifier::rlimit(100)]
    fn poll_data(&mut self) -> (r: PollResult)
        requires
            old(self).wf(),
        ensures
            final(self).wf(),
            final(self).mem.words@ == old(self).mem.words@,
            final(self).epc == old(self).epc,
            final(self).eps@ == old(self).eps@,
            final(self).epd@ == old(self).epd@,
            final(self).ep_allocator == old(self).ep_allocator,
            final(self).dp_pull_up_feature == old(self).dp_pull_up_feature,
            final(self).regs.usb_csr == old(self).regs.usb_csr,
            final(self).regs.usb_ier == old(self).regs.usb_ier,
            final(self).regs.usb_devar == old(self).regs.usb_devar,
            final(self).regs.epd@ == old(self).regs.epd@,
            ({
                let isr = old(self).regs.usb_isr;
                let ep0 = old(self).regs.ep0;
                let eps = old(self).regs.eps@;
                &&& r == (PollResult::Data {
                    ep_out: ((if isr.ep0if && ep0.isr.odrxif {
                        1u16
                    } else {
                        0u16
                    }) + (if isr.ep1if && eps[0].isr.odrxif {
                        2u16
                    } else {
                        0u16
                    }) + (if isr.ep2if && eps[1].isr.odrxif {
                        4u16
                    } else {
                        0u16
                    }) + (if isr.ep3if && eps[2].isr.odrxif {
                        8u16
                    } else {
                        0u16
                    })) as u16,
                    ep_in_complete: ((if isr.ep0if && ep0.isr.idtxif {
                        1u16
                    } else {
                        0u16
                    }) + (if isr.ep1if && eps[0].isr.idtxif {
                        2u16
                    } else {
                        0u16
                    }) + (if isr.ep2if && eps[1].isr.idtxif {
                        4u16
                    } else {
                        0u16
                    }) + (if isr.ep3if && eps[2].isr.idtxif {
                        8u16
                    } else {
                        0u16
                    })) as u16,
                    ep_setup: if isr.ep0if && ep0.isr.sdrxif {
                        1u16
                    } else {
                        0u16
                    },
                })
                &&& final(self).regs.usb_isr == (UsbIsr {
                    esofif: isr.esofif && !(isr.ep0if || isr.ep1if || isr.ep2if || isr.ep3if),
                    ep0if: false,
                    ep1if: false,
                    ep2if: false,
                    ep3if: false,
                    ..isr
                })
                &&& final(self).regs.ep0 == (Ep0Registers {
                    isr: (Ep0Isr { idtxif: ep0.isr.idtxif && !isr.ep0if, ..ep0.isr }),
                    ..ep0
                })
                &&& final(self).regs.eps@.len() == 3
                &&& final(self).regs.eps@[0] == (EpsRegisters {
                    isr: (crate::usb::registers::EpIsr {
                        idtxif: eps[0].isr.idtxif && !isr.ep1if,
                        ..eps[0].isr
                    }),
                    ..eps[0]
                })
                &&& final(self).regs.eps@[1] == (EpsRegisters {
                    isr: (crate::usb::registers::EpIsr {
                        idtxif: eps[1].isr.idtxif && !isr.ep2if,
                        ..eps[1].isr
                    }),
                    ..eps[1]
                })
                &&& final(self).regs.eps@[2] == (EpsRegisters {
                    isr: (crate::usb::registers::EpIsr {
                        idtxif: eps[2].isr.idtxif && !isr.ep3if,
                        ..eps[2].isr
                    }),
                    ..eps[2]
                })
            }),
    {
        let isr = self.regs.usb_isr;
        let ep0isr = self.regs.ep0.isr;
        let er0 = self.regs.eps[0];
        let er1 = self.regs.eps[1];
        let er2 = self.regs.eps[2];

        let ep_setup: u16 = if isr.ep0if && ep0isr.sdrxif {
            1
        } else {
            0
        };
        let ep_out: u16 = (if isr.ep0if && ep0isr.odrxif {
            1u16
        } else {
            0u16
        }) + (if isr.ep1if && er0.isr.odrxif {
            2u16
        } else {
            0u16
        }) + (if isr.ep2if && er1.isr.odrxif {
            4u16
        } else {
            0u16
        }) + (if isr.ep3if && er2.isr.odrxif {
            8u16
        } else {
            0u16
        });
        let ep_in_complete: u16 = (if isr.ep0if && ep0isr.idtxif {
            1u16
        } else {
            0u16
        }) + (if isr.ep1if && er0.isr.idtxif {
            2u16
        } else {
            0u16
        }) + (if isr.ep2if && er1.isr.idtxif {
            4u16
        } else {
            0u16
        }) + (if isr.ep3if && er2.isr.idtxif {
            8u16
        } else {
            0u16
        });

        // Acknowledge each reported endpoint: clear its IN-transmitted
        // flag and its peripheral-global pending flag, and drop `esofif`
        // along with any acknowledgement.
        self.regs.ep0.isr = Ep0Isr { idtxif: ep0isr.idtxif && !isr.ep0if, ..ep0isr };
        self.regs.eps[0] = EpsRegisters {
            isr: EpIsr { idtxif: er0.isr.idtxif && !isr.ep1if, ..er0.isr },
            ..er0
        };
        self.regs.eps[1] = EpsRegisters {
            isr: EpIsr { idtxif: er1.isr.idtxif && !isr.ep2if, ..er1.isr },
            ..er1
        };
        self.regs.eps[2] = EpsRegisters {
            isr: EpIsr { idtxif: er2.isr.idtxif && !isr.ep3if, ..er2.isr },
            ..er2
        };
        self.regs.usb_isr = UsbIsr {
            esofif: isr.esofif && !(isr.ep0if || isr.ep1if || isr.ep2if || isr.ep3if),
            ep0if: false,
            ep1if: false,
            ep2if: false,
            ep3if: false,
            ..isr
        };

        PollResult::Data { ep_out, ep_in_complete, ep_setup }
    }

    /// Poll for the highest-priority pending event and acknowledge it.
    ///
    /// Conditions are checked in strict priority order: Resume, then
    /// Reset, then Suspend, then per-endpoint data (endpoints 0-3; the
    /// double-buffered block is not yet wired into `poll`).  Each
    /// condition, once reported, clears its own interrupt flags and only
    /// those, so a lower-priority condition stays flagged for the next
    /// call.
    #[verifier::rlimit(100)]
    pub fn poll(&mut self) -> (r: PollResult)
        requires
            old(self).wf(),
        ensures
            final(self).wf(),
            final(self).mem.words@ == old(self).mem.words@,
            final(self).epc == old(self).epc,
            final(self).eps@ == old(self).eps@,
            final(self).epd@ == old(self).epd@,
            final(self).ep_allocator == old(self).ep_allocator,
            final(self).dp_pull_up_feature == old(self).dp_pull_up_feature,
            final(self).regs.usb_csr == old(self).regs.usb_csr,
            final(self).regs.usb_ier == old(self).regs.usb_ier,
            final(self).regs.usb_devar == old(self).regs.usb_devar,
            final(self).regs.epd@ == old(self).regs.epd@,
            old(self).regs.usb_isr.rsmif ==> {
                &&& r == PollResult::Resume
                &&& final(self).regs.usb_isr == (UsbIsr {
                    esofif: false,
                    rsmif: false,
                    ..old(self).regs.usb_isr
                })
                &&& final(self).regs.ep0 == old(self).regs.ep0
                &&& final(self).regs.eps@ == old(self).regs.eps@
            },
            !old(self).regs.usb_isr.rsmif && old(self).regs.usb_isr.urstif ==> {
                &&& r == PollResult::Reset
                &&& final(self).regs.usb_isr == (UsbIsr {
                    esofif: false,
                    urstif: false,
                    ..old(self).regs.usb_isr
                })
                &&& final(self).regs.ep0 == old(self).regs.ep0
                &&& final(self).regs.eps@ == old(self).regs.eps@
            },
            !old(self).regs.usb_isr.rsmif && !old(self).regs.usb_isr.urstif && old(
                self,
            ).regs.usb_isr.suspif ==> {
                &&& r == PollResult::Suspend
                &&& final(self).regs.usb_isr == (UsbIsr {
                    esofif: false,
                    suspif: false,
                    ..old(self).regs.usb_isr
                })
                &&& final(self).regs.ep0 == old(self).regs.ep0
                &&& final(self).regs.eps@ == old(self).regs.eps@
            },
            !old(self).regs.usb_isr.rsmif && !old(self).regs.usb_isr.urstif && !old(
                self,
            ).regs.usb_isr.suspif && old(self).regs.usb_isr.any_ep_flag() ==> {
                let isr = old(self).regs.usb_isr;
                let ep0 = old(self).regs.ep0;
                let eps = old(self).regs.eps@;
                &&& r == (PollResult::Data {
                    ep_out: ((if isr.ep0if && ep0.isr.odrxif {
                        1u16
                    } else {
                        0u16
                    }) + (if isr.ep1if && eps[0].isr.odrxif {
                        2u16
                    } else {
                        0u16
                    }) + (if isr.ep2if && eps[1].isr.odrxif {
                        4u16
                    } else {
                        0u16
                    }) + (if isr.ep3if && eps[2].isr.odrxif {
                        8u16
                    } else {
                        0u16
                    })) as u16,
                    ep_in_complete: ((if isr.ep0if && ep0.isr.idtxif {
                        1u16
                    } else {
                        0u16
                    }) + (if isr.ep1if && eps[0].isr.idtxif {
                        2u16
                    } else {
                        0u16
                    }) + (if isr.ep2if && eps[1].isr.idtxif {
                        4u16
                    } else {
                        0u16
                    }) + (if isr.ep3if && eps[2].isr.idtxif {
                        8u16
                    } else {
                        0u16
                    })) as u16,
                    ep_setup: if isr.ep0if && ep0.isr.sdrxif {
                        1u16
                    } else {
                        0u16
                    },
                })
                &&& final(self).regs.usb_isr == (UsbIsr {
                    esofif: isr.esofif && !(isr.ep0if || isr.ep1if || isr.ep2if || isr.ep3if),
                    ep0if: false,
                    ep1if: false,
                    ep2if: false,
                    ep3if: false,
                    ..isr
                })
                &&& final(self).regs.ep0 == (Ep0Registers {
                    isr: (Ep0Isr { idtxif: ep0.isr.idtxif && !isr.ep0if, ..ep0.isr }),
                    ..ep0
                })
                &&& final(self).regs.eps@.len() == 3
                &&& final(self).regs.eps@[0] == (EpsRegisters {
                    isr: (crate::usb::registers::EpIsr {
                        idtxif: eps[0].isr.idtxif && !isr.ep1if,
                        ..eps[0].isr
                    }),
                    ..eps[0]
                })
                &&& final(self).regs.eps@[1] == (EpsRegisters {
                    isr: (crate::usb::registers::EpIsr {
                        idtxif: eps[1].isr.idtxif && !isr.ep2if,
                        ..eps[1].isr
                    }),
                    ..eps[1]
                })
                &&& final(self).regs.eps@[2] == (EpsRegisters {
                    isr: (crate::usb::registers::EpIsr {
                        idtxif: eps[2].isr.idtxif && !isr.ep3if,
                        ..eps[2].isr
                    }),
                    ..eps[2]
                })
            },
            !old(self).regs.usb_isr.rsmif && !old(self).regs.usb_isr.urstif && !old(
                self,
            ).regs.usb_isr.suspif && !old(self).regs.usb_isr.any_ep_flag() ==> {
                &&& r == PollResult::NoEvent
                &&& final(self).regs.usb_isr == old(self).regs.usb_isr
                &&& final(self).regs.ep0 == old(self).regs.ep0
                &&& final(self).regs.eps@ == old(self).regs.eps@
            },
    {
        if self.regs.usb_isr.rsmif {
            self.regs.usb_isr.esofif = false;
            self.regs.usb_isr.rsmif = false;
            PollResult::Resume
        } else if self.regs.usb_isr.urstif {
            self.regs.usb_isr.esofif = false;
            self.regs.usb_isr.urstif = false;
            PollResult::Reset
        } else if self.regs.usb_isr.suspif {
            self.regs.usb_isr.esofif = false;
            self.regs.usb_isr.suspif = false;
            PollResult::Suspend
        } else if self.regs.usb_isr.ep0if || self.regs.usb_isr.ep1if || self.regs.usb_isr.ep2if
            || self.regs.usb_isr.ep3if || self.regs.usb_isr.ep4if || self.regs.usb_isr.ep5if
            || self.regs.usb_isr.ep6if || self.regs.usb_isr.ep7if {
            self.poll_data()
        } else {
            PollResult::NoEvent
        }
    }

    /// Stage an IN transfer on the endpoint addressed by `ep_addr`.
    ///
    /// Fails with `InvalidEndpoint` if the address is not an IN address
    /// or its index is out of the 0-7 range; otherwise dispatches to the
    /// addressed endpoint's state machine, which fails with
    /// `BufferOverflow` when `buf` exceeds the endpoint buffer capacity
    /// and with `WouldBlock`, touching nothing, while a previous IN
    /// transfer is still in flight.
    pub fn write(&mut self, ep_addr: EndpointAddress, buf: &Vec<u8>) -> (r: Result<usize, UsbError>)
        requires
            old(self).wf(),
            ep_addr.direction == UsbDirection::In && ep_addr.index == 0 ==> old(self).epc.buf
                is Some,
            ep_addr.direction == UsbDirection::In && 1 <= ep_addr.index <= 3 ==> {
                let e = old(self).eps@[ep_addr.index - 1];
                &&& e.buf is Some
                &&& e.ep_dir is Some
                &&& e.ep_type is Some
            },
        ensures
            final(self).wf(),
            final(self).epc == old(self).epc,
            final(self).eps@ == old(self).eps@,
            final(self).epd@ == old(self).epd@,
            final(self).ep_allocator == old(self).ep_allocator,
            final(self).dp_pull_up_feature == old(self).dp_pull_up_feature,
            ep_addr.direction == UsbDirection::Out ==> {
                &&& r == Err::<usize, UsbError>(UsbError::InvalidEndpoint)
                &&& bus_preserved(*old(self), *final(self))
            },
            ep_addr.direction == UsbDirection::In && ep_addr.index > 7 ==> {
                &&& r == Err::<usize, UsbError>(UsbError::InvalidEndpoint)
                &&& bus_preserved(*old(self), *final(self))
            },
            ep_addr.direction == UsbDirection::In && ep_addr.index == 0 ==> {
                let b = (old(self).epc.buf->0).0;
                &&& (buf@.len() > b.size ==> r == Err::<usize, UsbError>(UsbError::BufferOverflow)
                    && bus_preserved(*old(self), *final(self)))
                &&& (buf@.len() <= b.size && old(self).regs.ep0.tcr.txcnt != 0 ==> r == Err::<
                    usize,
                    UsbError,
                >(UsbError::WouldBlock) && bus_preserved(*old(self), *final(self)))
                &&& (buf@.len() <= b.size && old(self).regs.ep0.tcr.txcnt == 0 ==> {
                    &&& r == Ok::<usize, UsbError>(buf@.len() as usize)
                    &&& region_bytes(final(self).mem.words@, b.offset as int, buf@.len() as int)
                        == buf@
                    &&& forall|w: int|
                        0 <= w < EP_MEMORY_WORDS && !(b.offset / 4 <= w < b.offset / 4
                            + words_for(buf@.len() as int)) ==> final(self).mem.words@[w] == old(
                            self,
                        ).mem.words@[w]
                    &&& final(self).regs.ep0 == (Ep0Registers {
                        tcr: (Ep0Tcr { txcnt: buf@.len() as u16, ..old(self).regs.ep0.tcr }),
                        csr: (EpCsr { naktx: false, ..old(self).regs.ep0.csr }),
                        ..old(self).regs.ep0
                    })
                    &&& ep0_frame(old(self).regs, final(self).regs)
                    &&& final(self).regs.usb_isr == old(self).regs.usb_isr
                })
            },
            ep_addr.direction == UsbDirection::In && 1 <= ep_addr.index <= 3 ==> {
                let i = ep_addr.index - 1;
                let b = old(self).eps@[i as int].buf->0;
                &&& (buf@.len() > b.size ==> r == Err::<usize, UsbError>(UsbError::BufferOverflow)
                    && bus_preserved(*old(self), *final(self)))
                &&& (buf@.len() <= b.size && old(self).regs.eps@[i as int].tcr.tcnt != 0 ==> r
                    == Err::<usize, UsbError>(UsbError::WouldBlock) && bus_preserved(
                    *old(self),
                    *final(self),
                ))
                &&& (buf@.len() <= b.size && old(self).regs.eps@[i as int].tcr.tcnt == 0 ==> {
                    &&& r == Ok::<usize, UsbError>(buf@.len() as usize)
                    &&& region_bytes(final(self).mem.words@, b.offset as int, buf@.len() as int)
                        == buf@
                    &&& forall|w: int|
                        0 <= w < EP_MEMORY_WORDS && !(b.offset / 4 <= w < b.offset / 4
                            + words_for(buf@.len() as int)) ==> final(self).mem.words@[w] == old(
                            self,
                        ).mem.words@[w]
                    &&& final(self).regs.eps@ == old(self).regs.eps@.update(
                        i as int,
                        (EpsRegisters {
                            tcr: (EpsTcr { tcnt: buf@.len() as u16 }),
                            csr: (EpCsr { naktx: false, ..old(self).regs.eps@[i as int].csr }),
                            ..old(self).regs.eps@[i as int]
                        }),
                    )
                    &&& eps_frame(old(self).regs, final(self).regs)
                    &&& final(self).regs.usb_ier == old(self).regs.usb_ier
                    &&& final(self).regs.usb_isr == old(self).regs.usb_isr
                })
            },
            ep_addr.direction == UsbDirection::In && 4 <= ep_addr.index <= 7 ==> {
                let i = ep_addr.index - 4;
                let e = old(self).epd@[i as int];
                &&& (!(e.buf is Single) ==> r == Err::<usize, UsbError>(UsbError::InvalidState)
                    && bus_preserved(*old(self), *final(self)))
                &&& (e.buf is Single && buf@.len() > (e.buf->Single_0).size ==> r == Err::<
                    usize,
                    UsbError,
                >(UsbError::BufferOverflow) && bus_preserved(*old(self), *final(self)))
                &&& (e.buf is Single && buf@.len() <= (e.buf->Single_0).size && old(
                    self,
                ).regs.epd@[i as int].tcr.tcnt0 != 0 ==> r == Err::<usize, UsbError>(
                    UsbError::WouldBlock,
                ) && bus_preserved(*old(self), *final(self)))
                &&& (e.buf is Single && buf@.len() <= (e.buf->Single_0).size && old(
                    self,
                ).regs.epd@[i as int].tcr.tcnt0 == 0 ==> {
                    let b = e.buf->Single_0;
                    &&& r == Ok::<usize, UsbError>(buf@.len() as usize)
                    &&& region_bytes(final(self).mem.words@, b.offset as int, buf@.len() as int)
                        == buf@
                    &&& forall|w: int|
                        0 <= w < EP_MEMORY_WORDS && !(b.offset / 4 <= w < b.offset / 4
                            + words_for(buf@.len() as int)) ==> final(self).mem.words@[w] == old(
                            self,
                        ).mem.words@[w]
                    &&& final(self).regs.epd@ == old(self).regs.epd@.update(
                        i as int,
                        (EpdRegisters {
                            tcr: (EpdTcr {
                                tcnt0: buf@.len() as u16,
                                ..old(self).regs.epd@[i as int].tcr
                            }),
                            csr: (EpCsr { naktx: false, ..old(self).regs.epd@[i as int].csr }),
                            ..old(self).regs.epd@[i as int]
                        }),
                    )
                    &&& final(self).regs.usb_csr == old(self).regs.usb_csr
                    &&& final(self).regs.usb_ier == old(self).regs.usb_ier
                    &&& final(self).regs.usb_isr == old(self).regs.usb_isr
                    &&& final(self).regs.usb_devar == old(self).regs.usb_devar
                    &&& final(self).regs.ep0 == old(self).regs.ep0
                    &&& final(self).regs.eps@ == old(self).regs.eps@
                })
            },
    {
        if !ep_addr.is_in() {
            return Err(UsbError::InvalidEndpoint);
        }

        let index = ep_addr.index();
        if index == 0 {
            let epc = self.epc;
            epc.write(&mut self.regs, &mut self.mem, buf)
        } else if index <= 3 {
            let ep = self.eps[index - 1];
            ep.write(&mut self.regs, &mut self.mem, buf)
        } else if index <= 7 {
            let ep = self.epd[index - 4];
            ep.write(&mut self.regs, &mut self.mem, buf)
        } else {
            Err(UsbError::InvalidEndpoint)
        }
    }

    /// Service a pending receive event on the endpoint addressed by
    /// `ep_addr`, returning at most `max_len` bytes.
    ///
    /// Fails with `InvalidEndpoint` if the address is not an OUT address
    /// or its index is out of the 0-7 range; otherwise dispatches to the
    /// addressed endpoint's state machine.  For the control endpoint the
    /// SETUP and OUT stages are disambiguated by the interrupt flags and
    /// the corresponding flags are always cleared, making the call
    /// non-idempotent; see [`ControlEndpoint::read`].
    pub fn read(&mut self, ep_addr: EndpointAddress, max_len: usize) -> (r: Result<
        Vec<u8>,
        UsbError,
    >)
        requires
            old(self).wf(),
            ep_addr.direction == UsbDirection::Out && ep_addr.index == 0 ==> old(self).epc.buf
                is Some && old(self).regs.ep0.tcr.rxcnt <= (old(self).epc.buf->0).1.size,
            ep_addr.direction == UsbDirection::Out && 1 <= ep_addr.index <= 3 ==> {
                let e = old(self).eps@[ep_addr.index - 1];
                &&& e.buf is Some
                &&& e.ep_dir is Some
                &&& e.ep_type is Some
                &&& old(self).regs.eps@[ep_addr.index - 1].tcr.tcnt <= e.buf->0.size
            },
            ep_addr.direction == UsbDirection::Out && 4 <= ep_addr.index <= 7 ==> (old(
                self,
            ).epd@[ep_addr.index - 4].buf matches MaybeDoubleBuffer::Single(b) ==> old(
                self,
            ).regs.epd@[ep_addr.index - 4].tcr.tcnt0 <= b.size),
        ensures
            final(self).wf(),
            final(self).mem.words@ == old(self).mem.words@,
            final(self).epc == old(self).epc,
            final(self).eps@ == old(self).eps@,
            final(self).epd@ == old(self).epd@,
            final(self).ep_allocator == old(self).ep_allocator,
            final(self).dp_pull_up_feature == old(self).dp_pull_up_feature,
            ep_addr.direction == UsbDirection::In ==> {
                &&& r == Err::<Vec<u8>, UsbError>(UsbError::InvalidEndpoint)
                &&& bus_preserved(*old(self), *final(self))
            },
            ep_addr.direction == UsbDirection::Out && ep_addr.index > 7 ==> {
                &&& r == Err::<Vec<u8>, UsbError>(UsbError::InvalidEndpoint)
                &&& bus_preserved(*old(self), *final(self))
            },
            ep_addr.direction == UsbDirection::Out && ep_addr.index == 0 ==> {
                let isr0 = old(self).regs.ep0.isr;
                let count = old(self).regs.ep0.tcr.rxcnt;
                &&& final(self).regs.ep0 == (Ep0Registers {
                    isr: (Ep0Isr { sdrxif: false, odrxif: false, ..isr0 }),
                    csr: (EpCsr { nakrx: false, ..old(self).regs.ep0.csr }),
                    ..old(self).regs.ep0
                })
                &&& final(self).regs.usb_isr == usb_isr_with_ep_acked(old(self).regs.usb_isr, 0)
                &&& final(self).regs.usb_csr == old(self).regs.usb_csr
                &&& final(self).regs.usb_ier == old(self).regs.usb_ier
                &&& final(self).regs.usb_devar == old(self).regs.usb_devar
                &&& final(self).regs.eps@ == old(self).regs.eps@
                &&& final(self).regs.epd@ == old(self).regs.epd@
                &&& (isr0.sdrxif && max_len < SETUP_BUFFER_SIZE ==> r == Err::<Vec<u8>, UsbError>(
                    UsbError::BufferOverflow,
                ))
                &&& (isr0.sdrxif && max_len >= SETUP_BUFFER_SIZE ==> r is Ok && r->Ok_0@
                    == region_bytes(old(self).mem.words@, 0, SETUP_BUFFER_SIZE as int))
                &&& (!isr0.sdrxif && isr0.odrxif && count > max_len ==> r == Err::<
                    Vec<u8>,
                    UsbError,
                >(UsbError::BufferOverflow))
                &&& (!isr0.sdrxif && isr0.odrxif && count <= max_len ==> r is Ok && r->Ok_0@
                    == region_bytes(
                    old(self).mem.words@,
                    (old(self).epc.buf->0).1.offset as int,
                    count as int,
                ))
                &&& (!isr0.sdrxif && !isr0.odrxif ==> r == Err::<Vec<u8>, UsbError>(
                    UsbError::WouldBlock,
                ))
            },
            ep_addr.direction == UsbDirection::Out && 1 <= ep_addr.index <= 3 ==> {
                let i = ep_addr.index - 1;
                let er = old(self).regs.eps@[i as int];
                let b = old(self).eps@[i as int].buf->0;
                &&& (!er.isr.odrxif ==> r == Err::<Vec<u8>, UsbError>(UsbError::WouldBlock)
                    && bus_preserved(*old(self), *final(self)))
                &&& (er.isr.odrxif && er.tcr.tcnt > max_len ==> r == Err::<Vec<u8>, UsbError>(
                    UsbError::BufferOverflow,
                ) && bus_preserved(*old(self), *final(self)))
                &&& (er.isr.odrxif && er.tcr.tcnt <= max_len ==> {
                    &&& r is Ok
                    &&& r->Ok_0@ == region_bytes(
                        old(self).mem.words@,
                        b.offset as int,
                        er.tcr.tcnt as int,
                    )
                    &&& final(self).regs.eps@ == old(self).regs.eps@.update(
                        i as int,
                        (EpsRegisters {
                            isr: (EpIsr { odrxif: false, ..er.isr }),
                            csr: (EpCsr { nakrx: false, ..er.csr }),
                            ..er
                        }),
                    )
                    &&& final(self).regs.usb_isr == usb_isr_with_ep_acked(
                        old(self).regs.usb_isr,
                        i + 1,
                    )
                    &&& eps_frame(old(self).regs, final(self).regs)
                    &&& final(self).regs.usb_ier == old(self).regs.usb_ier
                })
            },
            ep_addr.direction == UsbDirection::Out && 4 <= ep_addr.index <= 7 ==> {
                let i = ep_addr.index - 4;
                let e = old(self).epd@[i as int];
                let count = old(self).regs.epd@[i as int].tcr.tcnt0;
                &&& bus_preserved(*old(self), *final(self))
                &&& (!(e.buf is Single) ==> r == Err::<Vec<u8>, UsbError>(UsbError::InvalidState))
                &&& (e.buf is Single && count > max_len ==> r == Err::<Vec<u8>, UsbError>(
                    UsbError::BufferOverflow,
                ))
                &&& (e.buf is Single && count <= max_len ==> r is Ok && r->Ok_0@ == region_bytes(
                    old(self).mem.words@,
                    (e.buf->Single_0).offset as int,
                    count as int,
                ))
            },
    {
        if !ep_addr.is_out() {
            return Err(UsbError::InvalidEndpoint);
        }

        let index = ep_addr.index();
        if index == 0 {
            let epc = self.epc;
            epc.read(&mut self.regs, &self.mem, max_len)
        } else if index <= 3 {
            let ep = self.eps[index - 1];
            ep.read(&mut self.regs, &self.mem, max_len)
        } else if index <= 7 {
            let ep = self.epd[index - 4];
            ep.read(&self.regs, &self.mem, max_len)
        } else {
            Err(UsbError::InvalidEndpoint)
        }
    }

    /// The stall state of the endpoint addressed by `ep_addr`.
    pub fn is_stalled(&self, ep_addr: EndpointAddress) -> (r: bool)
        requires
            self.wf(),
            ep_addr.index < 8,
        ensures
            r == self.stall_state(ep_addr),
    {
        let index = ep_addr.index();
        if index == 0 {
            self.epc.is_stalled(&self.regs, ep_addr.direction())
        } else if index <= 3 {
            let ep = self.eps[index - 1];
            ep.is_stalled(&self.regs, ep_addr.direction())
        } else {
            let ep = self.epd[index - 4];
            ep.is_stalled(&self.regs, ep_addr.direction())
        }
    }

    /// Bring the stall state of the endpoint addressed by `ep_addr` to
    /// `stalled`.
    ///
    /// The hardware only exposes a toggle bit, so the bit is toggled
    /// exactly when the queried state differs from the requested one; a
    /// call whose requested state already matches is a no-op.
    pub fn set_stalled(&mut self, ep_addr: EndpointAddress, stalled: bool)
        requires
            old(self).wf(),
            ep_addr.index < 8,
        ensures
            final(self).wf(),
            final(self).stall_state(ep_addr) == stalled,
            old(self).stall_state(ep_addr) == stalled ==> bus_preserved(*old(self), *final(self)),
            final(self).mem.words@ == old(self).mem.words@,
            final(self).epc == old(self).epc,
            final(self).eps@ == old(self).eps@,
            final(self).epd@ == old(self).epd@,
            final(self).ep_allocator == old(self).ep_allocator,
            final(self).dp_pull_up_feature == old(self).dp_pull_up_feature,
            final(self).regs.usb_csr == old(self).regs.usb_csr,
            final(self).regs.usb_ier == old(self).regs.usb_ier,
            final(self).regs.usb_isr == old(self).regs.usb_isr,
            final(self).regs.usb_devar == old(self).regs.usb_devar,
            ep_addr.index == 0 ==> {
                &&& final(self).regs.ep0 == (Ep0Registers {
                    csr: (if csr_stalled(old(self).regs.ep0.csr, ep_addr.direction) == stalled {
                        old(self).regs.ep0.csr
                    } else {
                        csr_stall_toggled(old(self).regs.ep0.csr, ep_addr.direction)
                    }),
                    ..old(self).regs.ep0
                })
                &&& final(self).regs.eps@ == old(self).regs.eps@
                &&& final(self).regs.epd@ == old(self).regs.epd@
            },
            1 <= ep_addr.index <= 3 ==> {
                let i = ep_addr.index - 1;
                &&& final(self).regs.eps@ == old(self).regs.eps@.update(
                    i as int,
                    (EpsRegisters {
                        csr: (if csr_stalled(old(self).regs.eps@[i as int].csr, ep_addr.direction)
                            == stalled {
                            old(self).regs.eps@[i as int].csr
                        } else {
                            csr_stall_toggled(old(self).regs.eps@[i as int].csr, ep_addr.direction)
                        }),
                        ..old(self).regs.eps@[i as int]
                    }),
                )
                &&& final(self).regs.ep0 == old(self).regs.ep0
                &&& final(self).regs.epd@ == old(self).regs.epd@
            },
            4 <= ep_addr.index <= 7 ==> {
                let i = ep_addr.index - 4;
                &&& final(self).regs.epd@ == old(self).regs.epd@.update(
                    i as int,
                    (EpdRegisters {
                        csr: (if csr_stalled(old(self).regs.epd@[i as int].csr, ep_addr.direction)
                            == stalled {
                            old(self).regs.epd@[i as int].csr
                        } else {
                            csr_stall_toggled(old(self).regs.epd@[i as int].csr, ep_addr.direction)
                        }),
                        ..old(self).regs.epd@[i as int]
                    }),
                )
                &&& final(self).regs.ep0 == old(self).regs.ep0
                &&& final(self).regs.eps@ == old(self).regs.eps@
            },
    {
        if self.is_stalled(ep_addr) == stalled {
            return;
        }

        let index = ep_addr.index();
        if index == 0 {
            self.epc.toggle_stalled(&mut self.regs, ep_addr.direction());
        } else if index <= 3 {
            let ep = self.eps[index - 1];
            ep.toggle_stalled(&mut self.regs, ep_addr.direction());
        } else {
            let ep = self.epd[index - 4];
            ep.toggle_stalled(&mut self.regs, ep_addr.direction());
        }
    }

    /// Enter low-power mode.  Endpoint configuration is untouched; only
    /// the low-power mode bit is set.
    pub fn suspend(&mut self)
        ensures
            final(self).regs == (UsbRegisters {
                usb_csr: (UsbCsr { lpmode: true, ..old(self).regs.usb_csr }),
                ..old(self).regs
            }),
            final(self).mem.words@ == old(self).mem.words@,
            final(self).epc == old(self).epc,
            final(self).eps@ == old(self).eps@,
            final(self).epd@ == old(self).epd@,
            final(self).ep_allocator == old(self).ep_allocator,
            final(self).dp_pull_up_feature == old(self).dp_pull_up_feature,
    {
        self.regs.usb_csr.lpmode = true;
    }

    /// Leave low-power mode.  Endpoint configuration is untouched; only
    /// the low-power mode bit is cleared.
    pub fn resume(&mut self)
        ensures
            final(self).regs == (UsbRegisters {
                usb_csr: (UsbCsr { lpmode: false, ..old(self).regs.usb_csr }),
                ..old(self).regs
            }),
            final(self).mem.words@ == old(self).mem.words@,
            final(self).epc == old(self).epc,
            final(self).eps@ == old(self).eps@,
            final(self).epd@ == old(self).epd@,
            final(self).ep_allocator == old(self).ep_allocator,
            final(self).dp_pull_up_feature == old(self).dp_pull_up_feature,
    {
        self.regs.usb_csr.lpmode = false;
    }
}

} // verus!
