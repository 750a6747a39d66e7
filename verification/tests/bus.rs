//! Tests for the bus driver: allocation, enable/reset, poll priority,
//! transfer dispatch and stall handling.

use ht32f1yyy_hal::usb::bus::UsbBus;
use ht32f1yyy_hal::usb::{EndpointAddress, EndpointType, PollResult, UsbDirection, UsbError};

fn in_addr(index: usize) -> EndpointAddress {
    EndpointAddress::from_parts(index, UsbDirection::In)
}

fn out_addr(index: usize) -> EndpointAddress {
    EndpointAddress::from_parts(index, UsbDirection::Out)
}

#[test]
fn alloc_control_endpoint() {
    let mut bus = UsbBus::new(true);
    let addr = bus
        .alloc_ep(UsbDirection::Out, None, EndpointType::Control, 64, 0)
        .unwrap();
    assert_eq!(addr.index, 0);
    // The double buffer sits right after the reserved SETUP area.
    assert_eq!(bus.regs.ep0.cfgr.epbufa, 8);
    assert_eq!(bus.regs.ep0.cfgr.eplen, 64);
    assert!(bus.regs.ep0.cfgr.epen);
    assert_eq!(bus.ep_allocator.next_free_offset, 8 + 128);
}

#[test]
fn alloc_control_rejects_nonzero_address() {
    let mut bus = UsbBus::new(true);
    let r = bus.alloc_ep(
        UsbDirection::Out,
        Some(out_addr(1)),
        EndpointType::Control,
        64,
        0,
    );
    assert_eq!(r.unwrap_err(), UsbError::InvalidEndpoint);
}

#[test]
fn alloc_control_twice_is_idempotent() {
    let mut bus = UsbBus::new(true);
    bus.alloc_ep(UsbDirection::Out, None, EndpointType::Control, 64, 0)
        .unwrap();
    let cursor = bus.ep_allocator.next_free_offset;
    let addr = bus
        .alloc_ep(UsbDirection::In, None, EndpointType::Control, 64, 0)
        .unwrap();
    assert_eq!(addr.index, 0);
    // No second buffer is allocated.
    assert_eq!(bus.ep_allocator.next_free_offset, cursor);
}

#[test]
fn alloc_interrupt_ascending_then_overflow() {
    let mut bus = UsbBus::new(true);
    let a1 = bus
        .alloc_ep(UsbDirection::In, None, EndpointType::Interrupt, 8, 0)
        .unwrap();
    let a2 = bus
        .alloc_ep(UsbDirection::In, None, EndpointType::Interrupt, 8, 0)
        .unwrap();
    let a3 = bus
        .alloc_ep(UsbDirection::In, None, EndpointType::Interrupt, 8, 0)
        .unwrap();
    assert_eq!(a1.index, 1);
    assert_eq!(a2.index, 2);
    assert_eq!(a3.index, 3);
    let r = bus.alloc_ep(UsbDirection::In, None, EndpointType::Interrupt, 8, 0);
    assert_eq!(r.unwrap_err(), UsbError::EndpointOverflow);
}

#[test]
fn alloc_assigns_type_and_direction_once() {
    let mut bus = UsbBus::new(true);
    let a1 = bus
        .alloc_ep(UsbDirection::In, None, EndpointType::Bulk, 8, 0)
        .unwrap();
    assert_eq!(a1.index, 1);
    assert_eq!(bus.eps[0].ep_type, Some(EndpointType::Bulk));
    assert_eq!(bus.eps[0].ep_dir, Some(UsbDirection::In));
    // An Interrupt request does not match endpoint 1 (type already
    // assigned to Bulk) and falls through to endpoint 2.
    let a2 = bus
        .alloc_ep(UsbDirection::In, None, EndpointType::Interrupt, 8, 0)
        .unwrap();
    assert_eq!(a2.index, 2);
    assert_eq!(bus.eps[0].ep_type, Some(EndpointType::Bulk));
    assert_eq!(bus.eps[1].ep_type, Some(EndpointType::Interrupt));
}

#[test]
fn alloc_with_requested_address() {
    let mut bus = UsbBus::new(true);
    let addr = bus
        .alloc_ep(
            UsbDirection::Out,
            Some(out_addr(2)),
            EndpointType::Bulk,
            16,
            0,
        )
        .unwrap();
    assert_eq!(addr.index, 2);
    assert!(bus.eps[1].buf.is_some());
    assert!(bus.eps[0].buf.is_none());
    // The same slot cannot be claimed twice.
    let r = bus.alloc_ep(
        UsbDirection::Out,
        Some(out_addr(2)),
        EndpointType::Bulk,
        16,
        0,
    );
    assert_eq!(r.unwrap_err(), UsbError::InvalidEndpoint);
}

#[test]
fn alloc_rejects_reserved_and_unsupported_addresses() {
    let mut bus = UsbBus::new(true);
    // Endpoint 0 is always the control endpoint.
    let r = bus.alloc_ep(
        UsbDirection::In,
        Some(in_addr(0)),
        EndpointType::Interrupt,
        8,
        0,
    );
    assert_eq!(r.unwrap_err(), UsbError::InvalidEndpoint);
    // Requested addresses in the double-buffered block are unsupported.
    let r = bus.alloc_ep(
        UsbDirection::In,
        Some(in_addr(4)),
        EndpointType::Bulk,
        8,
        0,
    );
    assert_eq!(r.unwrap_err(), UsbError::InvalidEndpoint);
}

#[test]
fn alloc_isochronous_is_unsupported() {
    let mut bus = UsbBus::new(true);
    let r = bus.alloc_ep(UsbDirection::In, None, EndpointType::Isochronous, 8, 0);
    assert_eq!(r.unwrap_err(), UsbError::EndpointOverflow);
    let r = bus.alloc_ep(
        UsbDirection::In,
        Some(in_addr(4)),
        EndpointType::Isochronous,
        8,
        0,
    );
    assert_eq!(r.unwrap_err(), UsbError::InvalidEndpoint);
}

#[test]
fn alloc_reports_memory_exhaustion() {
    let mut bus = UsbBus::new(true);
    bus.alloc_ep(UsbDirection::In, None, EndpointType::Bulk, 1000, 0)
        .unwrap();
    let r = bus.alloc_ep(UsbDirection::In, None, EndpointType::Bulk, 64, 0);
    assert_eq!(r.unwrap_err(), UsbError::EndpointMemoryOverflow);
}

#[test]
fn enable_with_hardware_pull_up() {
    let mut bus = UsbBus::new(true);
    bus.regs.usb_isr.urstif = true;
    let needs_pin = bus.enable();
    assert!(!needs_pin);
    assert!(bus.regs.usb_csr.pdwn);
    assert!(bus.regs.usb_csr.lpmode);
    assert!(bus.regs.usb_csr.dppuen);
    assert!(!bus.regs.usb_csr.dpwken);
    // Every pending flag was cleared.
    assert!(!bus.regs.usb_isr.urstif);
    // The baseline interrupt set is unmasked.
    assert!(bus.regs.usb_ier.ugie);
    assert!(bus.regs.usb_ier.sofie);
    assert!(bus.regs.usb_ier.urstie);
    assert!(bus.regs.usb_ier.rsmie);
    assert!(bus.regs.usb_ier.suspie);
    assert!(bus.regs.usb_ier.ep0ie);
    assert!(!bus.regs.usb_ier.ep1ie);
}

#[test]
fn enable_without_hardware_pull_up_requests_pin() {
    let mut bus = UsbBus::new(false);
    let needs_pin = bus.enable();
    assert!(needs_pin);
    assert!(!bus.regs.usb_csr.dppuen);
}

#[test]
fn reset_rearms_configured_endpoints() {
    let mut bus = UsbBus::new(true);
    bus.enable();
    bus.alloc_ep(UsbDirection::Out, None, EndpointType::Control, 64, 0)
        .unwrap();
    bus.alloc_ep(UsbDirection::In, None, EndpointType::Interrupt, 8, 0)
        .unwrap();
    bus.reset();
    // Control endpoint interrupts enabled.
    assert!(bus.regs.ep0.ier.sdrxie);
    assert!(bus.regs.ep0.ier.odrxie);
    assert!(bus.regs.ep0.ier.idtxie);
    // Endpoint 1 armed: address field, direction, enable, interrupt line.
    assert_eq!(bus.regs.eps[0].cfgr.epadr, 1);
    assert!(bus.regs.eps[0].cfgr.epdir);
    assert!(bus.regs.eps[0].cfgr.epen);
    assert!(bus.regs.eps[0].ier.odrxie);
    assert!(bus.regs.usb_ier.ep1ie);
    // Endpoints 2-3 never got both type and direction: left disarmed.
    assert!(!bus.regs.eps[1].cfgr.epen);
    assert!(!bus.regs.usb_ier.ep2ie);
    assert!(!bus.regs.usb_ier.ep3ie);
    // Reset is idempotent.
    let snapshot_epadr = bus.regs.eps[0].cfgr.epadr;
    bus.reset();
    assert_eq!(bus.regs.eps[0].cfgr.epadr, snapshot_epadr);
    assert!(bus.regs.usb_ier.ep1ie);
}

#[test]
fn reset_keeps_hardware_pull_up_enabled() {
    let mut bus = UsbBus::new(true);
    bus.enable();
    assert!(bus.regs.usb_csr.dppuen);
    bus.reset();
    assert!(bus.regs.usb_csr.dppuen);
    assert!(!bus.regs.usb_csr.pdwn);
    assert!(!bus.regs.usb_csr.lpmode);
}

#[test]
fn poll_priority_resume_over_reset() {
    let mut bus = UsbBus::new(true);
    // Simultaneous Resume and Reset conditions flagged by the hardware.
    bus.regs.usb_isr.rsmif = true;
    bus.regs.usb_isr.urstif = true;
    bus.regs.usb_isr.esofif = true;
    let first = bus.poll();
    assert_eq!(first, PollResult::Resume);
    // Only the Resume-associated flags were cleared; Reset stays flagged.
    assert!(!bus.regs.usb_isr.rsmif);
    assert!(!bus.regs.usb_isr.esofif);
    assert!(bus.regs.usb_isr.urstif);
    let second = bus.poll();
    assert_eq!(second, PollResult::Reset);
    assert!(!bus.regs.usb_isr.urstif);
    let third = bus.poll();
    assert_eq!(third, PollResult::NoEvent);
}

#[test]
fn poll_priority_reset_over_suspend() {
    let mut bus = UsbBus::new(true);
    bus.regs.usb_isr.urstif = true;
    bus.regs.usb_isr.suspif = true;
    assert_eq!(bus.poll(), PollResult::Reset);
    assert!(bus.regs.usb_isr.suspif);
    assert_eq!(bus.poll(), PollResult::Suspend);
    assert_eq!(bus.poll(), PollResult::NoEvent);
}

#[test]
fn poll_reports_data_masks() {
    let mut bus = UsbBus::new(true);
    // Endpoint 0 has a pending SETUP, endpoint 2 a pending OUT and
    // endpoint 1 a completed IN transmission.
    bus.regs.usb_isr.ep0if = true;
    bus.regs.ep0.isr.sdrxif = true;
    bus.regs.usb_isr.ep2if = true;
    bus.regs.eps[1].isr.odrxif = true;
    bus.regs.usb_isr.ep1if = true;
    bus.regs.eps[0].isr.idtxif = true;
    let r = bus.poll();
    assert_eq!(
        r,
        PollResult::Data {
            ep_out: 0b100,
            ep_in_complete: 0b010,
            ep_setup: 0b001,
        }
    );
    // The global pending flags were cleared, the IN-complete flag
    // acknowledged, and the SETUP/OUT endpoint flags left for `read`.
    assert!(!bus.regs.usb_isr.ep0if);
    assert!(!bus.regs.usb_isr.ep1if);
    assert!(!bus.regs.usb_isr.ep2if);
    assert!(!bus.regs.eps[0].isr.idtxif);
    assert!(bus.regs.ep0.isr.sdrxif);
    assert!(bus.regs.eps[1].isr.odrxif);
    assert_eq!(bus.poll(), PollResult::NoEvent);
}

#[test]
fn poll_ignores_double_buffered_block() {
    let mut bus = UsbBus::new(true);
    // Only a double-buffered endpoint's flag is pending: poll enters the
    // data branch but neither reads nor clears it.
    bus.regs.usb_isr.ep5if = true;
    let r = bus.poll();
    assert_eq!(
        r,
        PollResult::Data {
            ep_out: 0,
            ep_in_complete: 0,
            ep_setup: 0,
        }
    );
    assert!(bus.regs.usb_isr.ep5if);
}

#[test]
fn write_requires_in_address() {
    let mut bus = UsbBus::new(true);
    bus.alloc_ep(UsbDirection::Out, None, EndpointType::Control, 64, 0)
        .unwrap();
    let r = bus.write(out_addr(0), &vec![0x00]);
    assert_eq!(r.unwrap_err(), UsbError::InvalidEndpoint);
}

#[test]
fn write_rejects_out_of_range_index() {
    let mut bus = UsbBus::new(true);
    let r = bus.write(in_addr(9), &vec![0x00]);
    assert_eq!(r.unwrap_err(), UsbError::InvalidEndpoint);
}

#[test]
fn control_write_programs_count_and_clears_nak() {
    let mut bus = UsbBus::new(true);
    bus.alloc_ep(UsbDirection::Out, None, EndpointType::Control, 64, 0)
        .unwrap();
    bus.regs.ep0.csr.naktx = true;
    let n = bus.write(in_addr(0), &vec![1, 2, 3, 4, 5]).unwrap();
    assert_eq!(n, 5);
    assert_eq!(bus.regs.ep0.tcr.txcnt, 5);
    assert!(!bus.regs.ep0.csr.naktx);
    // The bytes landed in the IN-role buffer (first half, at offset 8).
    assert_eq!(bus.mem.read_word(2), 0x0403_0201);
}

#[test]
fn write_backpressure_leaves_everything_untouched() {
    let mut bus = UsbBus::new(true);
    bus.alloc_ep(UsbDirection::Out, None, EndpointType::Control, 64, 0)
        .unwrap();
    bus.write(in_addr(0), &vec![0xAA, 0xBB]).unwrap();
    assert_eq!(bus.regs.ep0.tcr.txcnt, 2);
    let words_before = bus.mem.words;
    // A transfer is still in flight: the next write must back off.
    let r = bus.write(in_addr(0), &vec![0xCC, 0xDD]);
    assert_eq!(r.unwrap_err(), UsbError::WouldBlock);
    assert_eq!(bus.regs.ep0.tcr.txcnt, 2);
    assert!(bus.mem.words.iter().eq(words_before.iter()));
}

#[test]
fn write_rejects_oversized_payload() {
    let mut bus = UsbBus::new(true);
    bus.alloc_ep(UsbDirection::In, None, EndpointType::Bulk, 8, 0)
        .unwrap();
    let r = bus.write(in_addr(1), &vec![0; 9]);
    assert_eq!(r.unwrap_err(), UsbError::BufferOverflow);
}

#[test]
fn single_endpoint_write_and_read() {
    let mut bus = UsbBus::new(true);
    let addr = bus
        .alloc_ep(UsbDirection::Out, None, EndpointType::Bulk, 16, 0)
        .unwrap();
    assert_eq!(addr.index, 1);
    // Write through the IN path of the same endpoint machine.
    let n = bus
        .write(in_addr(1), &vec![0x10, 0x20, 0x30])
        .unwrap();
    assert_eq!(n, 3);
    assert_eq!(bus.regs.eps[0].tcr.tcnt, 3);
    // Simulate the hardware having received 3 bytes on the same buffer.
    bus.regs.eps[0].isr.odrxif = true;
    let data = bus.read(out_addr(1), 64).unwrap();
    assert_eq!(data, vec![0x10, 0x20, 0x30]);
    assert!(!bus.regs.eps[0].isr.odrxif);
}

#[test]
fn single_endpoint_read_without_event_blocks() {
    let mut bus = UsbBus::new(true);
    bus.alloc_ep(UsbDirection::Out, None, EndpointType::Bulk, 16, 0)
        .unwrap();
    let r = bus.read(out_addr(1), 64);
    assert_eq!(r.unwrap_err(), UsbError::WouldBlock);
}

#[test]
fn read_requires_out_address() {
    let mut bus = UsbBus::new(true);
    bus.alloc_ep(UsbDirection::Out, None, EndpointType::Control, 64, 0)
        .unwrap();
    let r = bus.read(in_addr(0), 64);
    assert_eq!(r.unwrap_err(), UsbError::InvalidEndpoint);
}

#[test]
fn stall_toggle_is_idempotent() {
    let mut bus = UsbBus::new(true);
    assert!(!bus.is_stalled(in_addr(1)));
    bus.set_stalled(in_addr(1), true);
    assert!(bus.is_stalled(in_addr(1)));
    assert!(bus.regs.eps[0].csr.stltx);
    // The second request already matches: exactly one hardware toggle.
    bus.set_stalled(in_addr(1), true);
    assert!(bus.is_stalled(in_addr(1)));
    assert!(bus.regs.eps[0].csr.stltx);
    bus.set_stalled(in_addr(1), false);
    assert!(!bus.is_stalled(in_addr(1)));
}

#[test]
fn stall_is_per_direction() {
    let mut bus = UsbBus::new(true);
    bus.set_stalled(out_addr(0), true);
    assert!(bus.is_stalled(out_addr(0)));
    assert!(!bus.is_stalled(in_addr(0)));
    assert!(bus.regs.ep0.csr.stlrx);
    assert!(!bus.regs.ep0.csr.stltx);
}

#[test]
fn suspend_and_resume_toggle_low_power_only() {
    let mut bus = UsbBus::new(true);
    bus.enable();
    bus.reset();
    let ier = bus.regs.usb_ier;
    bus.suspend();
    assert!(bus.regs.usb_csr.lpmode);
    assert_eq!(bus.regs.usb_ier, ier);
    bus.resume();
    assert!(!bus.regs.usb_csr.lpmode);
    assert_eq!(bus.regs.usb_ier, ier);
}

#[test]
fn set_device_address_masks_to_seven_bits() {
    let mut bus = UsbBus::new(true);
    bus.set_device_address(0x2A);
    assert_eq!(bus.regs.usb_devar, 0x2A);
    bus.set_device_address(0xFF);
    assert_eq!(bus.regs.usb_devar, 0x7F);
}

#[test]
fn force_reenumeration_restores_power_bit() {
    let mut bus = UsbBus::new(true);
    bus.force_reenumeration();
    assert!(!bus.regs.usb_csr.pdwn);
    bus.enable();
    bus.force_reenumeration();
    assert!(bus.regs.usb_csr.pdwn);
}
