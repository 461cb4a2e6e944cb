//! The memory bus: a flat, linearly addressable array of bytes with byte and
//! word accessors. Words are addressed by word index (word `n` occupies bytes
//! `2n` and `2n + 1`) and stored big-endian.

use vstd::prelude::*;

verus! {

/// Number of bytes the processor can address.
pub const ADDRESS_SPACE_SIZE: usize = 65_536;

/// First byte of cartridge ROM bank 0.
pub const CARTRIDGE_ROM_0_ADDR: usize = 0;

/// First byte of the switchable cartridge ROM bank.
pub const CARTRIDGE_ROM_1_ADDR: usize = 16_384;

/// First byte of graphics RAM.
pub const GRAPHICS_RAM_ADDR: usize = 32_768;

/// First byte of cartridge (external) RAM.
pub const CARTRIDGE_EXTERNAL_RAM_ADDR: usize = 40_960;

/// First byte of working RAM.
pub const WORKING_RAM_ADDR: usize = 49_152;

/// First byte of the echo of working RAM.
pub const WORKING_RAM_SHADOW_ADDR: usize = 57_344;

/// First byte of the sprite attribute table.
pub const GRAPHICS_SPRITE_INFO_ADDR: usize = 65_024;

/// First byte of the memory-mapped I/O registers.
pub const MEMORY_MAPPED_IO_ADDR: usize = 65_280;

/// First byte of zero-page RAM.
pub const ZERO_PAGE_RAM_ADDR: usize = 65_408;

/// A memory of `capacity` bytes, all zero.
pub open spec fn zeroed(capacity: nat) -> Seq<u8> {
    Seq::new(capacity, |i: int| 0u8)
}

/// The word at word index `addr`: the byte at `2 * addr` is the high byte, the
/// byte at `2 * addr + 1` the low byte.
pub open spec fn word_at(mem: Seq<u8>, addr: int) -> int {
    mem[2 * addr] * 256 + mem[2 * addr + 1]
}

/// The memory after storing `val` at word index `addr`, high byte first.
pub open spec fn with_word(mem: Seq<u8>, addr: int, val: u16) -> Seq<u8> {
    mem.update(2 * addr, (val / 256) as u8).update(2 * addr + 1, (val % 256) as u8)
}

/// The memory bus. Its view is the sequence of bytes it holds; the length of
/// that sequence is the capacity the bus was created with and never changes.
pub struct MMU {
    ram: Vec<u8>,
}

impl View for MMU {
    type V = Seq<u8>;

    closed spec fn view(&self) -> Seq<u8> {
        self.ram@
    }
}

impl MMU {
    /// Allocates a bus of exactly `capacity` bytes, all zero.
    pub fn new(capacity: usize) -> (mmu: MMU)
        ensures
            mmu@ == zeroed(capacity as nat),
    {
        let mut mmu = MMU { ram: Vec::new() };
        mmu.ram.reserve(capacity);
        let mut i: usize = 0;
        while i < capacity
            invariant
                i <= capacity,
                mmu.ram@ =~= zeroed(i as nat),
            decreases capacity - i,
        {
            mmu.ram.push(0);
            i += 1;
        }
        mmu
    }

    /// Reads the byte at byte address `addr`.
    pub fn rb(&self, addr: usize) -> (byte: u8)
        requires
            addr < self@.len(),
        ensures
            byte == self@[addr as int],
    {
        self.ram[addr]
    }

    /// Reads the big-endian word at word index `addr`.
    pub fn rw(&self, addr: usize) -> (word: u16)
        requires
            2 * addr + 1 < self@.len(),
        ensures
            word == word_at(self@, addr as int),
    {
        assert(self.ram@.len() == self.ram.len());
        let big: u8 = self.ram[addr * 2];
        let little: u8 = self.ram[addr * 2 + 1];
        let mut result: u16 = (big as u16) << 8;
        result |= little as u16;
        assert(((big as u16) << 8) | (little as u16) == big * 256 + little) by (bit_vector);
        result
    }

    /// Stores `val` at byte address `addr`; every other byte keeps its value.
    pub fn wb(&mut self, addr: usize, val: u8)
        requires
            addr < old(self)@.len(),
        ensures
            final(self)@ == old(self)@.update(addr as int, val),
    {
        self.ram[addr] = val;
    }

    /// Stores `val` at word index `addr`, high byte first; every other byte
    /// keeps its value.
    pub fn ww(&mut self, addr: usize, val: u16)
        requires
            2 * addr + 1 < old(self)@.len(),
        ensures
            final(self)@ == with_word(old(self)@, addr as int, val),
    {
        let big: u16 = val >> 8;
        let little: u16 = val & 255;
        assert(val >> 8 == val / 256 && val >> 8 < 256) by (bit_vector);
        assert(val & 255 == val % 256) by (bit_vector);
        assert(self.ram@.len() == self.ram.len());
        self.ram[addr * 2] = big as u8;
        self.ram[addr * 2 + 1] = little as u8;
    }
}

/// A byte that was written is the byte that is read back, and no other byte
/// changes.
pub proof fn lemma_byte_round_trip(mem: Seq<u8>, addr: int, value: u8)
    requires
        0 <= addr < mem.len(),
    ensures
        mem.update(addr, value)[addr] == value,
        mem.update(addr, value).len() == mem.len(),
        forall|other: int|
            0 <= other < mem.len() && other != addr ==> mem.update(addr, value)[other]
                == mem[other],
{
}

/// A word that was written is the word that is read back, for every word
/// index inside the memory and every 16-bit value, and no byte outside that
/// word changes.
pub proof fn lemma_word_round_trip(mem: Seq<u8>, addr: int, value: u16)
    requires
        0 <= addr,
        2 * addr + 1 < mem.len(),
    ensures
        word_at(with_word(mem, addr, value), addr) == value,
        with_word(mem, addr, value).len() == mem.len(),
        forall|other: int|
            0 <= other < mem.len() && other != 2 * addr && other != 2 * addr + 1 ==> with_word(
                mem,
                addr,
                value,
            )[other] == mem[other],
{
}

} // verus!
