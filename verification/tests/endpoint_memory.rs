//! Tests for the packet-memory allocator and the endpoint buffers.

use ht32f1yyy_hal::usb::endpoint_memory::{
    EndpointBuffer, EndpointMemoryAllocator, PacketMemory, EP_MEMORY_SIZE,
};
use ht32f1yyy_hal::usb::UsbError;

#[test]
fn allocator_starts_after_setup_area() {
    let alloc = EndpointMemoryAllocator::new();
    assert_eq!(alloc.next_free_offset, 8);
}

#[test]
fn setup_buffer_is_fixed_and_free() {
    let before = EndpointMemoryAllocator::new();
    let buf = EndpointMemoryAllocator::setup_buffer();
    assert_eq!(buf.offset, 0);
    assert_eq!(buf.size, 8);
    // Taking the setup view consumes no allocator state.
    assert_eq!(before.next_free_offset, 8);
}

#[test]
fn allocations_are_disjoint_and_ascending() {
    let mut alloc = EndpointMemoryAllocator::new();
    let b1 = alloc.allocate_buffer(64).unwrap();
    let b2 = alloc.allocate_buffer(16).unwrap();
    let b3 = alloc.allocate_buffer(32).unwrap();
    assert_eq!(b1.offset, 8);
    assert_eq!(b1.size, 64);
    assert_eq!(b2.offset, 72);
    assert_eq!(b3.offset, 88);
    // Pairwise disjoint, strictly ascending, never in the setup area.
    assert!(b1.offset + b1.size <= b2.offset);
    assert!(b2.offset + b2.size <= b3.offset);
    assert!(b1.offset >= 8);
    assert_eq!(alloc.next_free_offset, 120);
}

#[test]
fn double_buffer_halves_are_adjacent() {
    let mut alloc = EndpointMemoryAllocator::new();
    let d = alloc.allocate_double_buffer(64).unwrap();
    assert_eq!(d.0.offset, 8);
    assert_eq!(d.0.size, 64);
    assert_eq!(d.1.offset, 72);
    assert_eq!(d.1.size, 64);
    assert_eq!(alloc.next_free_offset, 136);
}

#[test]
fn allocation_overflow_leaves_cursor_unchanged() {
    let mut alloc = EndpointMemoryAllocator::new();
    let _ = alloc.allocate_buffer(1000).unwrap();
    assert_eq!(alloc.next_free_offset, 1008);
    let r = alloc.allocate_buffer(20);
    assert_eq!(r.unwrap_err(), UsbError::EndpointMemoryOverflow);
    assert_eq!(alloc.next_free_offset, 1008);
    // The failure is idempotent: a second try fails the same way.
    let r2 = alloc.allocate_buffer(20);
    assert_eq!(r2.unwrap_err(), UsbError::EndpointMemoryOverflow);
    assert_eq!(alloc.next_free_offset, 1008);
    // A request that still fits succeeds at the unchanged cursor.
    let ok = alloc.allocate_buffer(16).unwrap();
    assert_eq!(ok.offset, 1008);
}

#[test]
fn double_buffer_overflow_leaves_cursor_unchanged() {
    let mut alloc = EndpointMemoryAllocator::new();
    let _ = alloc.allocate_buffer(900).unwrap();
    let r = alloc.allocate_double_buffer(64);
    assert_eq!(r.unwrap_err(), UsbError::EndpointMemoryOverflow);
    assert_eq!(alloc.next_free_offset, 908);
}

#[test]
fn buffer_getters() {
    let buf = EndpointBuffer::new(16, 64);
    assert_eq!(buf.offset(), 16);
    assert_eq!(buf.capacity(), 64);
    assert!(16 + 64 <= EP_MEMORY_SIZE);
}

#[test]
fn round_trip_word_aligned() {
    let mut mem = PacketMemory::new();
    let buf = EndpointBuffer::new(8, 16);
    let data: Vec<u8> = vec![0x11, 0x22, 0x33, 0x44, 0x55, 0x66, 0x77, 0x88];
    buf.write(&mut mem, &data);
    assert_eq!(buf.read(&mem, 8), data);
}

#[test]
fn round_trip_every_length_up_to_capacity() {
    // All lengths 0..=capacity, covering every tail alignment (1, 2 and
    // 3 bytes mod 4).
    for len in 0..=16usize {
        let mut mem = PacketMemory::new();
        let buf = EndpointBuffer::new(32, 16);
        let data: Vec<u8> = (0..len).map(|i| (0xA0 + i) as u8).collect();
        buf.write(&mut mem, &data);
        assert_eq!(buf.read(&mem, len), data, "length {}", len);
    }
}

#[test]
fn round_trip_tail_lengths() {
    for len in [1usize, 2, 3, 5, 6, 7] {
        let mut mem = PacketMemory::new();
        let buf = EndpointBuffer::new(0, 8);
        let data: Vec<u8> = (0..len).map(|i| 0xFF - i as u8).collect();
        buf.write(&mut mem, &data);
        assert_eq!(buf.read(&mem, len), data, "length {}", len);
    }
}

#[test]
fn partial_tail_never_corrupts_adjacent_words() {
    let mut mem = PacketMemory::new();
    let low = EndpointBuffer::new(8, 4);
    let high = EndpointBuffer::new(12, 4);
    low.write(&mut mem, &vec![0xDE, 0xAD, 0xBE, 0xEF]);
    high.write(&mut mem, &vec![0x01, 0x02, 0x03, 0x04]);
    // A 1-byte write into the low window must not touch the high window.
    low.write(&mut mem, &vec![0x99]);
    assert_eq!(high.read(&mem, 4), vec![0x01, 0x02, 0x03, 0x04]);
    assert_eq!(low.read(&mem, 1), vec![0x99]);
}

#[test]
fn read_word_and_write_word() {
    let mut mem = PacketMemory::new();
    assert_eq!(mem.read_word(5), 0);
    mem.write_word(5, 0xCAFE_F00D);
    assert_eq!(mem.read_word(5), 0xCAFE_F00D);
    assert_eq!(mem.read_word(4), 0);
    assert_eq!(mem.read_word(6), 0);
}

#[test]
fn little_endian_packing() {
    let mut mem = PacketMemory::new();
    let buf = EndpointBuffer::new(0, 4);
    buf.write(&mut mem, &vec![0x01, 0x02, 0x03, 0x04]);
    // Bytes pack into a word little-endian: byte 0 is least significant.
    assert_eq!(mem.read_word(0), 0x0403_0201);
}
