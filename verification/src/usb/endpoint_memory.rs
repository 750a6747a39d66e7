//! Endpoint packet memory: the dedicated packet-SRAM arena, the one-shot
//! buffer allocator, and word-addressed endpoint buffers.
//!
//! The arena is a flat block of 32-bit words.  Buffers are byte windows into
//! it, always word-aligned; reads and writes marshal bytes into words with
//! little-endian packing, handling a 1-3 byte tail through a single partial
//! word so neighbouring words are never corrupted.

use crate::usb::UsbError;
use vstd::prelude::*;

verus! {

/// Size of the endpoint packet memory in bytes.
pub const EP_MEMORY_SIZE: usize = 1024;

/// Size of the endpoint packet memory in 32-bit words.
pub const EP_MEMORY_WORDS: usize = 256;

/// Size in bytes of the reserved SETUP-packet area at the start of the
/// arena.
pub const SETUP_BUFFER_SIZE: usize = 8;

/// The endpoint packet SRAM, as an array of 32-bit words.
#[derive(Debug, Clone, Copy, PartialEq, Eq)]
pub struct PacketMemory {
    pub words: [u32; EP_MEMORY_WORDS],
}

impl PacketMemory {
    /// A zero-filled packet memory.
    pub fn new() -> (r: PacketMemory)
        ensures
            forall|i: int| 0 <= i < EP_MEMORY_WORDS ==> r.words[i] == 0,
    {
        PacketMemory { words: [0u32; EP_MEMORY_WORDS] }
    }

    /// Read the 32-bit word at word index `index`.
    pub fn read_word(&self, index: usize) -> (r: u32)
        requires
            index < EP_MEMORY_WORDS,
        ensures
            r == self.words[index as int],
    {
        self.words[index]
    }

    /// Overwrite the 32-bit word at word index `index`.
    pub fn write_word(&mut self, index: usize, value: u32)
        requires
            index < EP_MEMORY_WORDS,
        ensures
            final(self).words@ == old(self).words@.update(index as int, value),
    {
        self.words[index] = value;
    }
}

/// Byte `k` (0 = least significant) of the little-endian word `w`.
pub open spec fn word_byte(w: u32, k: int) -> u8 {
    if k == 0 {
        (w & 0xff) as u8
    } else if k == 1 {
        ((w >> 8) & 0xff) as u8
    } else if k == 2 {
        ((w >> 16) & 0xff) as u8
    } else {
        ((w >> 24) & 0xff) as u8
    }
}

/// The `len` bytes stored at byte offset `off` (word-aligned) of the word
/// array `words`, in little-endian order.
pub open spec fn region_bytes(words: Seq<u32>, off: int, len: int) -> Seq<u8>
    recommends
        off % 4 == 0,
        0 <= len,
{
    Seq::new(len as nat, |i: int| word_byte(words[off / 4 + i / 4], i % 4))
}

/// The number of words a region of `len` bytes occupies.
pub open spec fn words_for(len: int) -> int {
    (len + 3) / 4
}

proof fn lemma_pack4(b0: u8, b1: u8, b2: u8, b3: u8)
    by (bit_vector)
    ensures
        ({
            let w = (b0 as u32) | ((b1 as u32) << 8) | ((b2 as u32) << 16) | ((b3 as u32) << 24);
            (w & 0xff) as u8 == b0 && ((w >> 8) & 0xff) as u8 == b1 && ((w >> 16) & 0xff) as u8
                == b2 && ((w >> 24) & 0xff) as u8 == b3
        }),
{
}

proof fn lemma_pack3(b0: u8, b1: u8, b2: u8)
    by (bit_vector)
    ensures
        ({
            let w = (b0 as u32) | ((b1 as u32) << 8) | ((b2 as u32) << 16);
            (w & 0xff) as u8 == b0 && ((w >> 8) & 0xff) as u8 == b1 && ((w >> 16) & 0xff) as u8
                == b2
        }),
{
}

proof fn lemma_pack2(b0: u8, b1: u8)
    by (bit_vector)
    ensures
        ({
            let w = (b0 as u32) | ((b1 as u32) << 8);
            (w & 0xff) as u8 == b0 && ((w >> 8) & 0xff) as u8 == b1
        }),
{
}

proof fn lemma_pack1(b0: u8)
    by (bit_vector)
    ensures
        ((b0 as u32) & 0xff) as u8 == b0,
{
}

/// An ownership-exclusive, word-aligned byte window into the packet SRAM.
/// Offset and length are fixed at construction.
#[derive(Debug, Clone, Copy, PartialEq, Eq, Structural)]
pub struct EndpointBuffer {
    /// Byte offset of the window from the arena base.
    pub offset: usize,
    /// Byte length of the window.
    pub size: usize,
}

impl EndpointBuffer {
    /// Well-formedness: the window is word-aligned, a whole number of
    /// words long, and lies inside the arena.
    pub open spec fn wf(self) -> bool {
        &&& self.offset % 4 == 0
        &&& self.size % 4 == 0
        &&& self.offset + self.size <= EP_MEMORY_SIZE
    }

    /// A window of `size_bytes` bytes starting `offset_bytes` into the
    /// arena.
    pub fn new(offset_bytes: usize, size_bytes: usize) -> (r: EndpointBuffer)
        requires
            offset_bytes % 4 == 0,
            size_bytes % 4 == 0,
            offset_bytes + size_bytes <= EP_MEMORY_SIZE,
        ensures
            r == (EndpointBuffer { offset: offset_bytes, size: size_bytes }),
            r.wf(),
    {
        EndpointBuffer { offset: offset_bytes, size: size_bytes }
    }

    /// Byte offset of the window from the arena base, as programmed into
    /// the hardware's buffer-address field.
    pub fn offset(&self) -> (r: u16)
        requires
            self.wf(),
        ensures
            r == self.offset,
    {
        self.offset as u16
    }

    /// Byte length of the window.
    pub fn capacity(&self) -> (r: usize)
        ensures
            r == self.size,
    {
        self.size
    }

    /// Read the first `len` bytes of the window out of the packet memory.
    pub fn read(&self, mem: &PacketMemory, len: usize) -> (r: Vec<u8>)
        requires
            self.wf(),
            len <= self.size,
        ensures
            r@ == region_bytes(mem.words@, self.offset as int, len as int),
    {
        let base = self.offset / 4;
        let mut out: Vec<u8> = Vec::new();
        let mut index: usize = 0;
        let mut i: usize = 0;
        while i + 4 <= len
            invariant
                self.wf(),
                len <= self.size,
                i == index * 4,
                i <= len,
                base == self.offset / 4,
                out@.len() == i,
                forall|j: int|
                    0 <= j < i ==> out@[j] == word_byte(
                        mem.words@[self.offset / 4 + j / 4],
                        j % 4,
                    ),
            decreases len - i,
        {
            let word = mem.read_word(base + index);
            out.push((word & 0xff) as u8);
            out.push(((word >> 8) & 0xff) as u8);
            out.push(((word >> 16) & 0xff) as u8);
            out.push(((word >> 24) & 0xff) as u8);
            index = index + 1;
            i = i + 4;
        }
        if i < len {
            let word = mem.read_word(base + index);
            out.push((word & 0xff) as u8);
            if i + 1 < len {
                out.push(((word >> 8) & 0xff) as u8);
            }
            if i + 2 < len {
                out.push(((word >> 16) & 0xff) as u8);
            }
        }
        proof {
            assert(out@ =~= region_bytes(mem.words@, self.offset as int, len as int));
        }
        out
    }

    /// Write `buf` into the window.  The bytes land at the start of the
    /// window; words past the written region, and all memory outside the
    /// window, are left untouched.  A partial final word is written with
    /// its unused upper bytes zeroed.
    pub fn write(&self, mem: &mut PacketMemory, buf: &Vec<u8>)
        requires
            self.wf(),
            buf@.len() <= self.size,
        ensures
            region_bytes(final(mem).words@, self.offset as int, buf@.len() as int) == buf@,
            forall|w: int|
                0 <= w < EP_MEMORY_WORDS && !(self.offset / 4 <= w < self.offset / 4 + words_for(
                    buf@.len() as int,
                )) ==> final(mem).words@[w] == old(mem).words@[w],
    {
        let base = self.offset / 4;
        let len = buf.len();
        let mut index: usize = 0;
        let mut i: usize = 0;
        while i + 4 <= len
            invariant
                self.wf(),
                len == buf@.len(),
                len <= self.size,
                i == index * 4,
                i <= len,
                base == self.offset / 4,
                forall|j: int|
                    0 <= j < i ==> word_byte(mem.words@[self.offset / 4 + j / 4], j % 4) == buf@[j],
                forall|w: int|
                    0 <= w < EP_MEMORY_WORDS && !(self.offset / 4 <= w < self.offset / 4
                        + index) ==> mem.words@[w] == old(mem).words@[w],
            decreases len - i,
        {
            let value: u32 = buf[i] as u32 | ((buf[i + 1] as u32) << 8) | ((buf[i + 2] as u32)
                << 16) | ((buf[i + 3] as u32) << 24);
            mem.write_word(base + index, value);
            proof {
                lemma_pack4(buf@[i as int], buf@[i + 1], buf@[i + 2], buf@[i + 3]);
            }
            index = index + 1;
            i = i + 4;
        }
        if i < len {
            let mut value: u32 = buf[i] as u32;
            if i + 1 < len {
                value = value | ((buf[i + 1] as u32) << 8);
            }
            if i + 2 < len {
                value = value | ((buf[i + 2] as u32) << 16);
            }
            mem.write_word(base + index, value);
            proof {
                if i + 2 < len {
                    lemma_pack3(buf@[i as int], buf@[i + 1], buf@[i + 2]);
                } else if i + 1 < len {
                    lemma_pack2(buf@[i as int], buf@[i + 1]);
                } else {
                    lemma_pack1(buf@[i as int]);
                }
            }
        }
        proof {
            assert(region_bytes(mem.words@, self.offset as int, buf@.len() as int) =~= buf@);
        }
    }
}

/// Law: round trip through a buffer window.  After a write of `data` (the
/// write's postcondition says the window's bytes now equal `data`),
/// reading back any length up to `data`'s — the same length included —
/// returns exactly that prefix of `data`, bit for bit, whatever the tail
/// alignment.
pub proof fn lemma_buffer_round_trip(words: Seq<u32>, off: int, data: Seq<u8>, m: int)
    requires
        0 <= m <= data.len(),
        region_bytes(words, off, data.len() as int) == data,
    ensures
        region_bytes(words, off, m) == data.take(m),
{
    assert(region_bytes(words, off, m) =~= data.take(m)) by {
        assert forall|i: int| 0 <= i < m implies region_bytes(words, off, m)[i] == data.take(m)[i]
        by {
            assert(region_bytes(words, off, data.len() as int)[i] == data[i]);
        }
    }
}

/// A pair of adjacent, independently owned endpoint buffers.  For the
/// control endpoint, index 0 is the IN-role buffer and index 1 the OUT-role
/// buffer.
#[derive(Debug, Clone, Copy, PartialEq, Eq, Structural)]
pub struct EndpointDoubleBuffer(pub EndpointBuffer, pub EndpointBuffer);

/// One-shot allocator for the packet-SRAM arena.
///
/// The cursor starts past the reserved SETUP area and only ever grows;
/// there is no deallocation.  Every region handed out starts at the cursor,
/// so regions are pairwise disjoint and never overlap the SETUP area.
#[derive(Debug, Clone, Copy, PartialEq, Eq, Structural)]
pub struct EndpointMemoryAllocator {
    /// Byte offset of the first byte of the arena not yet handed out.
    pub next_free_offset: usize,
}

/// `buf` is a region handed out by one allocation step from cursor state
/// `pre` to cursor state `post`: it starts at the old cursor and ends at or
/// before the new cursor.
pub open spec fn region_from(
    pre: EndpointMemoryAllocator,
    buf: EndpointBuffer,
    post: EndpointMemoryAllocator,
) -> bool {
    &&& buf.offset == pre.next_free_offset
    &&& buf.offset + buf.size <= post.next_free_offset
}

impl EndpointMemoryAllocator {
    /// Well-formedness: the cursor is word-aligned and lies between the end
    /// of the reserved SETUP area and the end of the arena.
    pub open spec fn wf(self) -> bool {
        &&& SETUP_BUFFER_SIZE <= self.next_free_offset <= EP_MEMORY_SIZE
        &&& self.next_free_offset % 4 == 0
    }

    /// A fresh allocator whose cursor sits right after the reserved SETUP
    /// area.
    pub fn new() -> (r: EndpointMemoryAllocator)
        ensures
            r.next_free_offset == SETUP_BUFFER_SIZE,
            r.wf(),
    {
        EndpointMemoryAllocator { next_free_offset: SETUP_BUFFER_SIZE }
    }

    /// The fixed 8-byte view at offset 0 used for delivering SETUP packets
    /// to the control endpoint.  Available at any time; consumes no
    /// allocator state.
    pub fn setup_buffer() -> (r: EndpointBuffer)
        ensures
            r == (EndpointBuffer { offset: 0, size: SETUP_BUFFER_SIZE }),
            r.wf(),
    {
        EndpointBuffer::new(0, SETUP_BUFFER_SIZE)
    }

    /// Allocate a single buffer of `size` bytes at the cursor.
    ///
    /// Fails with [`UsbError::EndpointMemoryOverflow`], leaving the cursor
    /// unchanged, exactly when the region would extend past the arena.
    pub fn allocate_buffer(&mut self, size: usize) -> (r: Result<EndpointBuffer, UsbError>)
        requires
            old(self).wf(),
            size % 4 == 0,
            size < EP_MEMORY_SIZE,
        ensures
            final(self).wf(),
            old(self).next_free_offset + size <= EP_MEMORY_SIZE ==> {
                &&& r == Ok::<EndpointBuffer, UsbError>(
                    EndpointBuffer { offset: old(self).next_free_offset, size: size },
                )
                &&& final(self).next_free_offset == old(self).next_free_offset + size
            },
            old(self).next_free_offset + size > EP_MEMORY_SIZE ==> {
                &&& r == Err::<EndpointBuffer, UsbError>(UsbError::EndpointMemoryOverflow)
                &&& *final(self) == *old(self)
            },
            r matches Ok(b) ==> b.wf() && region_from(*old(self), b, *final(self)),
    {
        let offset = self.next_free_offset;
        if offset + size > EP_MEMORY_SIZE {
            return Err(UsbError::EndpointMemoryOverflow);
        }
        self.next_free_offset = self.next_free_offset + size;
        Ok(EndpointBuffer::new(offset, size))
    }

    /// Allocate two adjacent buffers of `size` bytes each at the cursor.
    ///
    /// Fails with [`UsbError::EndpointMemoryOverflow`], leaving the cursor
    /// unchanged, exactly when the combined region would extend past the
    /// arena.
    pub fn allocate_double_buffer(&mut self, size: usize) -> (r: Result<
        EndpointDoubleBuffer,
        UsbError,
    >)
        requires
            old(self).wf(),
            size % 4 == 0,
            2 * size < EP_MEMORY_SIZE,
        ensures
            final(self).wf(),
            old(self).next_free_offset + 2 * size <= EP_MEMORY_SIZE ==> {
                &&& r == Ok::<EndpointDoubleBuffer, UsbError>(
                    EndpointDoubleBuffer(
                        EndpointBuffer { offset: old(self).next_free_offset, size: size },
                        EndpointBuffer {
                            offset: (old(self).next_free_offset + size) as usize,
                            size: size,
                        },
                    ),
                )
                &&& final(self).next_free_offset == old(self).next_free_offset + 2 * size
            },
            old(self).next_free_offset + 2 * size > EP_MEMORY_SIZE ==> {
                &&& r == Err::<EndpointDoubleBuffer, UsbError>(UsbError::EndpointMemoryOverflow)
                &&& *final(self) == *old(self)
            },
            r matches Ok(b) ==> {
                &&& b.0.wf()
                &&& b.1.wf()
                &&& b.1.offset == b.0.offset + b.0.size
                &&& region_from(*old(self), b.0, *final(self))
                &&& b.1.offset + b.1.size <= final(self).next_free_offset
            },
    {
        let offset = self.next_free_offset;
        if offset + 2 * size > EP_MEMORY_SIZE {
            return Err(UsbError::EndpointMemoryOverflow);
        }
        self.next_free_offset = self.next_free_offset + 2 * size;
        Ok(
            EndpointDoubleBuffer(
                EndpointBuffer::new(offset, size),
                EndpointBuffer::new(offset + size, size),
            ),
        )
    }
}

/// Law: for any two allocations where the cursor has not moved backwards in
/// between (it never does: every operation either keeps it or grows it),
/// the regions handed out are disjoint and strictly increasing in offset,
/// and neither overlaps the reserved SETUP area at the start of the arena.
pub proof fn lemma_allocation_regions_disjoint(
    pre1: EndpointMemoryAllocator,
    b1: EndpointBuffer,
    post1: EndpointMemoryAllocator,
    pre2: EndpointMemoryAllocator,
    b2: EndpointBuffer,
    post2: EndpointMemoryAllocator,
)
    requires
        pre1.wf(),
        region_from(pre1, b1, post1),
        region_from(pre2, b2, post2),
        post1.next_free_offset <= pre2.next_free_offset,
    ensures
        b1.offset + b1.size <= b2.offset,
        SETUP_BUFFER_SIZE <= b1.offset,
        SETUP_BUFFER_SIZE <= b2.offset,
        b1.size > 0 ==> b1.offset < b2.offset,
{
}

} // verus!
