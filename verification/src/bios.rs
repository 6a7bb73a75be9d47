//! The BIOS ROM.

use crate::bytes::{le_half, le_word, pack_half, pack_word};
use vstd::prelude::*;

verus! {

/// The size of the BIOS image in bytes: 512 KiB.
pub const BIOS_SIZE: usize = 0x8_0000;

/// The BIOS ROM: a read-only image of `BIOS_SIZE` bytes. There is no way to
/// write to it; the bus turns a store into its window into a fault.
pub struct Bios {
    pub data: Vec<u8>,
}

impl View for Bios {
    type V = Seq<u8>;

    open spec fn view(&self) -> Seq<u8> {
        self.data@
    }
}

impl Bios {
    /// The image holds exactly `BIOS_SIZE` bytes.
    pub open spec fn wf(&self) -> bool {
        self@.len() == BIOS_SIZE
    }

    /// Wraps an image of exactly `BIOS_SIZE` bytes.
    pub fn new(image: Vec<u8>) -> (b: Bios)
        requires
            image@.len() == BIOS_SIZE,
        ensures
            b.wf(),
            b@ == image@,
    {
        Bios { data: image }
    }

    /// The byte at offset `addr`.
    pub fn read_byte(&self, addr: u32) -> (r: u8)
        requires
            self.wf(),
            addr < BIOS_SIZE,
        ensures
            r == self@[addr as int],
    {
        self.data[addr as usize]
    }

    /// The halfword whose low byte is at offset `addr`.
    pub fn read_half_word(&self, addr: u32) -> (r: u16)
        requires
            self.wf(),
            addr + 1 < BIOS_SIZE,
        ensures
            r == le_half(self@, addr as int),
    {
        let a = addr as usize;
        pack_half(self.data[a], self.data[a + 1])
    }

    /// The word whose lowest byte is at offset `addr`.
    pub fn read_word(&self, addr: u32) -> (r: u32)
        requires
            self.wf(),
            addr + 3 < BIOS_SIZE,
        ensures
            r == le_word(self@, addr as int),
    {
        let a = addr as usize;
        pack_word(self.data[a], self.data[a + 1], self.data[a + 2], self.data[a + 3])
    }

    /// The whole image.
    pub fn get_data(&self) -> (r: &Vec<u8>)
        ensures
            r@ == self@,
    {
        &self.data
    }
}

} // verus!
