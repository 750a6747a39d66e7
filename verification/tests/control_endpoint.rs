//! Tests for the control endpoint's SETUP/OUT disambiguation and for the
//! endpoint state machines used directly.

use ht32f1yyy_hal::usb::bus::UsbBus;
use ht32f1yyy_hal::usb::endpoint_memory::{
    EndpointBuffer, EndpointDoubleBuffer, EndpointMemoryAllocator, PacketMemory,
};
use ht32f1yyy_hal::usb::endpoints::{ControlEndpoint, DoubleBufferedEndpoint, MaybeDoubleBuffer};
use ht32f1yyy_hal::usb::registers::UsbRegisters;
use ht32f1yyy_hal::usb::{EndpointAddress, EndpointType, UsbDirection, UsbError};

fn out_addr(index: usize) -> EndpointAddress {
    EndpointAddress::from_parts(index, UsbDirection::Out)
}

fn control_bus() -> UsbBus {
    let mut bus = UsbBus::new(true);
    bus.alloc_ep(UsbDirection::Out, None, EndpointType::Control, 64, 0)
        .unwrap();
    bus
}

#[test]
fn read_setup_returns_exactly_eight_bytes() {
    let mut bus = control_bus();
    let setup: Vec<u8> = vec![0x80, 0x06, 0x00, 0x01, 0x00, 0x00, 0x40, 0x00];
    EndpointMemoryAllocator::setup_buffer().write(&mut bus.mem, &setup);
    bus.regs.ep0.isr.sdrxif = true;
    // The OUT count register is stale nonsense; SETUP wins regardless.
    bus.regs.ep0.tcr.rxcnt = 3;
    let data = bus.read(out_addr(0), 64).unwrap();
    assert_eq!(data, setup);
    assert_eq!(data.len(), 8);
}

#[test]
fn read_setup_needs_room_for_eight_bytes() {
    let mut bus = control_bus();
    bus.regs.ep0.isr.sdrxif = true;
    let r = bus.read(out_addr(0), 7);
    assert_eq!(r.unwrap_err(), UsbError::BufferOverflow);
    // The flags were cleared anyway: the event is consumed.
    assert!(!bus.regs.ep0.isr.sdrxif);
}

#[test]
fn read_out_returns_reported_count() {
    let mut bus = control_bus();
    // The OUT-role buffer is the second half of the double buffer:
    // offset 8 + 64.
    let out_buf = EndpointBuffer::new(72, 64);
    out_buf.write(&mut bus.mem, &vec![0xDE, 0xAD, 0xBE]);
    bus.regs.ep0.isr.odrxif = true;
    bus.regs.ep0.tcr.rxcnt = 3;
    let data = bus.read(out_addr(0), 64).unwrap();
    assert_eq!(data, vec![0xDE, 0xAD, 0xBE]);
}

#[test]
fn read_out_rejects_small_destination() {
    let mut bus = control_bus();
    bus.regs.ep0.isr.odrxif = true;
    bus.regs.ep0.tcr.rxcnt = 10;
    let r = bus.read(out_addr(0), 9);
    assert_eq!(r.unwrap_err(), UsbError::BufferOverflow);
}

#[test]
fn read_with_no_event_would_block() {
    let mut bus = control_bus();
    let r = bus.read(out_addr(0), 64);
    assert_eq!(r.unwrap_err(), UsbError::WouldBlock);
}

#[test]
fn read_consumes_the_event() {
    let mut bus = control_bus();
    let setup: Vec<u8> = vec![1, 2, 3, 4, 5, 6, 7, 8];
    EndpointMemoryAllocator::setup_buffer().write(&mut bus.mem, &setup);
    bus.regs.ep0.isr.sdrxif = true;
    bus.regs.usb_isr.ep0if = true;
    bus.regs.ep0.csr.nakrx = true;
    assert_eq!(bus.read(out_addr(0), 64).unwrap(), setup);
    // All the event state was cleared: SETUP/OUT flags, NAK-on-receive
    // and the peripheral-global pending flag.
    assert!(!bus.regs.ep0.isr.sdrxif);
    assert!(!bus.regs.ep0.isr.odrxif);
    assert!(!bus.regs.ep0.csr.nakrx);
    assert!(!bus.regs.usb_isr.ep0if);
    // A second read therefore blocks: at most one read per event.
    assert_eq!(bus.read(out_addr(0), 64).unwrap_err(), UsbError::WouldBlock);
}

#[test]
fn control_endpoint_reports_its_type() {
    let epc = ControlEndpoint::new();
    assert_eq!(epc.ep_type(), Some(EndpointType::Control));
    assert!(!epc.is_buf_set());
}

#[test]
fn control_set_buf_programs_configuration() {
    let mut epc = ControlEndpoint::new();
    let mut regs = UsbRegisters::new();
    let pair = EndpointDoubleBuffer(EndpointBuffer::new(8, 32), EndpointBuffer::new(40, 32));
    epc.set_buf(pair, &mut regs);
    assert!(epc.is_buf_set());
    assert_eq!(regs.ep0.cfgr.epbufa, 8);
    assert_eq!(regs.ep0.cfgr.eplen, 32);
    assert!(regs.ep0.cfgr.epen);
}

#[test]
fn double_buffered_endpoint_without_buffer_is_invalid_state() {
    let ep = DoubleBufferedEndpoint::new(0);
    let mut regs = UsbRegisters::new();
    let mut mem = PacketMemory::new();
    let w = ep.write(&mut regs, &mut mem, &vec![0x00]);
    assert_eq!(w.unwrap_err(), UsbError::InvalidState);
    let r = ep.read(&regs, &mem, 64);
    assert_eq!(r.unwrap_err(), UsbError::InvalidState);
}

#[test]
fn double_buffered_ping_pong_path_is_a_known_gap() {
    let mut ep = DoubleBufferedEndpoint::new(1);
    let mut regs = UsbRegisters::new();
    let mut mem = PacketMemory::new();
    let pair = EndpointDoubleBuffer(EndpointBuffer::new(8, 32), EndpointBuffer::new(40, 32));
    ep.set_double_buf(pair, &mut regs);
    assert!(matches!(ep.buf, MaybeDoubleBuffer::Double(_)));
    assert!(regs.epd[1].cfgr.sdbs);
    // The ping-pong data path is unimplemented: fail fast.
    let w = ep.write(&mut regs, &mut mem, &vec![0x00]);
    assert_eq!(w.unwrap_err(), UsbError::InvalidState);
}

#[test]
fn double_buffered_single_path_round_trip() {
    let mut ep = DoubleBufferedEndpoint::new(2);
    ep.set_ep_dir(UsbDirection::Out);
    ep.set_ep_type(EndpointType::Bulk);
    let mut regs = UsbRegisters::new();
    let mut mem = PacketMemory::new();
    ep.set_buf(EndpointBuffer::new(16, 16), &mut regs);
    assert!(!regs.epd[2].cfgr.sdbs);
    let n = ep.write(&mut regs, &mut mem, &vec![9, 8, 7]).unwrap();
    assert_eq!(n, 3);
    assert_eq!(regs.epd[2].tcr.tcnt0, 3);
    let data = ep.read(&regs, &mem, 16).unwrap();
    assert_eq!(data, vec![9, 8, 7]);
}

#[test]
fn double_buffered_configure_encodes_type_and_address() {
    let mut ep = DoubleBufferedEndpoint::new(3);
    ep.set_ep_dir(UsbDirection::In);
    ep.set_ep_type(EndpointType::Isochronous);
    let mut regs = UsbRegisters::new();
    ep.configure(&mut regs);
    assert_eq!(regs.epd[3].cfgr.epadr, 7);
    assert!(regs.epd[3].cfgr.epdir);
    assert!(regs.epd[3].cfgr.eptype);
    assert!(regs.epd[3].cfgr.epen);
    assert!(regs.usb_ier.ep7ie);
}

#[test]
fn unassigned_endpoint_is_not_armed_by_configure() {
    let mut ep = DoubleBufferedEndpoint::new(0);
    ep.set_ep_dir(UsbDirection::In);
    // No type assigned: configure must leave everything untouched.
    let mut regs = UsbRegisters::new();
    ep.configure(&mut regs);
    assert!(!regs.epd[0].cfgr.epen);
    assert!(!regs.usb_ier.ep4ie);
}
