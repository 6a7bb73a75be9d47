//! Main RAM.

use crate::bytes::{le_half, le_word, pack_half, pack_word, put_half, put_word, unpack_byte};
use vstd::prelude::*;

verus! {

/// The size of main RAM in bytes: 2 MiB.
pub const RAM_SIZE: usize = 0x20_0000;

/// Main RAM: `RAM_SIZE` bytes, addressed by offset, multi-byte values
/// little-endian.
pub struct Memory {
    pub data: Vec<u8>,
}

impl View for Memory {
    type V = Seq<u8>;

    open spec fn view(&self) -> Seq<u8> {
        self.data@
    }
}

impl Memory {
    /// The RAM holds exactly `RAM_SIZE` bytes.
    pub open spec fn wf(&self) -> bool {
        self@.len() == RAM_SIZE
    }

    /// RAM with every byte zero.
    pub fn new() -> (m: Memory)
        ensures
            m.wf(),
            forall|i: int| 0 <= i < RAM_SIZE ==> m@[i] == 0,
    {
        Memory { data: vec![0u8; RAM_SIZE] }
    }

    /// The byte at offset `addr`.
    pub fn read_byte(&self, addr: u32) -> (r: u8)
        requires
            self.wf(),
            addr < RAM_SIZE,
        ensures
            r == self@[addr as int],
    {
        self.data[addr as usize]
    }

    /// The halfword whose low byte is at offset `addr`. No alignment is asked.
    pub fn read_half_word(&self, addr: u32) -> (r: u16)
        requires
            self.wf(),
            addr + 1 < RAM_SIZE,
        ensures
            r == le_half(self@, addr as int),
    {
        let a = addr as usize;
        pack_half(self.data[a], self.data[a + 1])
    }

    /// The word whose lowest byte is at offset `addr`. No alignment is asked.
    pub fn read_word(&self, addr: u32) -> (r: u32)
        requires
            self.wf(),
            addr + 3 < RAM_SIZE,
        ensures
            r == le_word(self@, addr as int),
    {
        let a = addr as usize;
        pack_word(self.data[a], self.data[a + 1], self.data[a + 2], self.data[a + 3])
    }

    /// Stores one byte at offset `addr`.
    pub fn write_byte(&mut self, addr: u32, value: u8)
        requires
            old(self).wf(),
            addr < RAM_SIZE,
        ensures
            final(self).wf(),
            final(self)@ == old(self)@.update(addr as int, value),
    {
        self.data[addr as usize] = value;
    }

    /// Stores a halfword, low byte at offset `addr`.
    pub fn write_half_word(&mut self, addr: u32, value: u16)
        requires
            old(self).wf(),
            addr + 1 < RAM_SIZE,
        ensures
            final(self).wf(),
            final(self)@ == put_half(old(self)@, addr as int, value),
    {
        let a = addr as usize;
        self.data[a] = unpack_byte(value as u32, 0);
        self.data[a + 1] = unpack_byte(value as u32, 1);
    }

    /// Stores a word, lowest byte at offset `addr`.
    pub fn write_word(&mut self, addr: u32, value: u32)
        requires
            old(self).wf(),
            addr + 3 < RAM_SIZE,
        ensures
            final(self).wf(),
            final(self)@ == put_word(old(self)@, addr as int, value),
    {
        let a = addr as usize;
        self.data[a] = unpack_byte(value, 0);
        self.data[a + 1] = unpack_byte(value, 1);
        self.data[a + 2] = unpack_byte(value, 2);
        self.data[a + 3] = unpack_byte(value, 3);
    }
}

} // verus!
