//! The memory bus: the fixed address map and, for each access width, the
//! decoder that routes a load or a store to RAM, the BIOS ROM, the video
//! chip or one of the windows that answer with zero and drop what is
//! written.
//!
//! I_STAT, I_MASK and the timers belong to the processor, which answers for
//! them before it turns to the bus; here their addresses are part of the
//! I/O window.
//!
//! An access that no device answers, or a store into the ROM, stops the
//! machine. The loads and stores of the bus leave such an access out by
//! their precondition; `is_readable` and `store_fault` tell beforehand
//! whether an access is one.

use crate::bios::{Bios, BIOS_SIZE};
use crate::bytes::{
    byte_of, le_half, le_word, lemma_half_of_bytes, lemma_word_of_bytes, put_half, put_word,
};
use crate::fault::{Fault, Width};
use crate::gpu::{Gpu, GpuState, GpuView};
use crate::memory::{Memory, RAM_SIZE};
use vstd::prelude::*;

verus! {

/// The last address of RAM in the user segment.
pub const RAM_LAST: u32 = 0x001F_FFFF;

/// The first address of the expansion region 1 window.
pub const EXPANSION1_BASE: u32 = 0x1F00_0000;

/// The last address of the expansion region 1 window.
pub const EXPANSION1_LAST: u32 = 0x1F00_FFFF;

/// The first address of the I/O window.
pub const IO_BASE: u32 = 0x1F80_1000;

/// The last address of the I/O window.
pub const IO_LAST: u32 = 0x1F80_2FFF;

/// The address of GP0: command and data words in, GPUREAD out.
pub const GP0: u32 = 0x1F80_1810;

/// The address of GP1: control words in, GPUSTAT out.
pub const GP1: u32 = 0x1F80_1814;

/// The first address of the expansion region 2 window.
pub const EXPANSION2_BASE: u32 = 0x1F80_2000;

/// The last address of the expansion region 2 window.
pub const EXPANSION2_LAST: u32 = 0x1F80_3000;

/// The first address of the cached mirror of RAM.
pub const KSEG0_BASE: u32 = 0x8000_0000;

/// The last address of the cached mirror of RAM.
pub const KSEG0_LAST: u32 = 0x801F_FFFF;

/// The first address of the uncached mirror of RAM.
pub const KSEG1_BASE: u32 = 0xA000_0000;

/// The last address of the uncached mirror of RAM.
pub const KSEG1_LAST: u32 = 0xA01F_FFFF;

/// The first address of the BIOS ROM.
pub const BIOS_BASE: u32 = 0xBFC0_0000;

/// The last address of the BIOS ROM.
pub const BIOS_LAST: u32 = 0xBFC7_FFFF;

/// The first address of the cache control window.
pub const CACHE_CONTROL_BASE: u32 = 0xFFFE_0000;

/// The last address of the cache control window.
pub const CACHE_CONTROL_LAST: u32 = 0xFFFE_0200;

/// What an address selects.
pub enum Window {
    /// RAM through the user segment or its cached mirror, at this offset.
    Ram(int),
    /// RAM through its uncached mirror, at this offset.
    RamUncached(int),
    /// Expansion region 1.
    Expansion1,
    /// The GP0 register of the video chip.
    Gp0,
    /// The GP1 register of the video chip.
    Gp1,
    /// The I/O window apart from the two video registers.
    Io,
    /// Expansion region 2, where the I/O window does not cover it.
    Expansion2,
    /// The BIOS ROM, at this offset.
    Bios(int),
    /// Cache control.
    CacheControl,
    /// Nothing.
    Unmapped,
}

/// The window that `addr` selects. Where two windows overlap, the one named
/// first here wins.
pub open spec fn window(addr: u32) -> Window {
    if addr <= RAM_LAST {
        Window::Ram(addr as int)
    } else if EXPANSION1_BASE <= addr <= EXPANSION1_LAST {
        Window::Expansion1
    } else if addr == GP0 {
        Window::Gp0
    } else if addr == GP1 {
        Window::Gp1
    } else if IO_BASE <= addr <= IO_LAST {
        Window::Io
    } else if EXPANSION2_BASE <= addr <= EXPANSION2_LAST {
        Window::Expansion2
    } else if KSEG0_BASE <= addr <= KSEG0_LAST {
        Window::Ram(addr - KSEG0_BASE)
    } else if KSEG1_BASE <= addr <= KSEG1_LAST {
        Window::RamUncached(addr - KSEG1_BASE)
    } else if BIOS_BASE <= addr <= BIOS_LAST {
        Window::Bios(addr - BIOS_BASE)
    } else if CACHE_CONTROL_BASE <= addr <= CACHE_CONTROL_LAST {
        Window::CacheControl
    } else {
        Window::Unmapped
    }
}

/// Whether a load of `width` at `addr` is answered. RAM answers every width
/// through the user segment and the cached mirror, bytes and words through
/// the uncached mirror; the ROM answers bytes and words; in both the whole
/// access has to lie inside. Expansion region 1 answers bytes, cache control
/// answers words, the I/O window answers every width.
pub open spec fn readable(addr: u32, width: Width) -> bool {
    match window(addr) {
        Window::Ram(offset) => offset + width.bytes() <= RAM_SIZE,
        Window::RamUncached(offset) => width !is Half && offset + width.bytes() <= RAM_SIZE,
        Window::Expansion1 => width is Byte,
        Window::Gp0 => true,
        Window::Gp1 => true,
        Window::Io => true,
        Window::Expansion2 => false,
        Window::Bios(offset) => width !is Half && offset + width.bytes() <= BIOS_SIZE,
        Window::CacheControl => width is Word,
        Window::Unmapped => false,
    }
}

/// Why a store of `width` at `addr` is refused, or `None` where it is
/// accepted. RAM accepts what it answers on a load. The video registers and
/// the I/O window accept every width, expansion region 2 bytes, cache
/// control words. A store into the ROM is a fault of its own.
pub open spec fn write_fault(addr: u32, width: Width) -> Option<Fault> {
    let unmapped = Some(Fault::UnmappedWrite { addr, width });
    match window(addr) {
        Window::Ram(offset) => if offset + width.bytes() <= RAM_SIZE {
            None
        } else {
            unmapped
        },
        Window::RamUncached(offset) => if width !is Half && offset + width.bytes() <= RAM_SIZE {
            None
        } else {
            unmapped
        },
        Window::Expansion1 => unmapped,
        Window::Gp0 => None,
        Window::Gp1 => None,
        Window::Io => None,
        Window::Expansion2 => if width is Byte {
            None
        } else {
            unmapped
        },
        Window::Bios(offset) => Some(Fault::RomWrite { addr }),
        Window::CacheControl => if width is Word {
            None
        } else {
            unmapped
        },
        Window::Unmapped => unmapped,
    }
}

/// The value of `width` stored little-endian at offset `at` of `s`, widened
/// with zeros.
pub open spec fn load(s: Seq<u8>, at: int, width: Width) -> u32 {
    match width {
        Width::Byte => s[at] as u32,
        Width::Half => le_half(s, at) as u32,
        Width::Word => le_word(s, at),
    }
}

/// `s` with the low `width` of `value` stored little-endian at offset `at`.
pub open spec fn store(s: Seq<u8>, at: int, width: Width, value: u32) -> Seq<u8> {
    match width {
        Width::Byte => s.update(at, byte_of(value, 0)),
        Width::Half => put_half(s, at, (value % 0x1_0000) as u16),
        Width::Word => put_word(s, at, value),
    }
}

/// The mathematical view of the bus and what hangs on it.
pub struct BusView {
    pub ram: Seq<u8>,
    pub bios: Seq<u8>,
    pub gpu: GpuView,
}

impl BusView {
    /// What an answered load of `width` at `addr` returns. RAM and ROM give
    /// their contents. A word at GP0 is GPUREAD, a word at GP1 is GPUSTAT.
    /// Every other answered load gives zero.
    pub open spec fn value_at(self, addr: u32, width: Width) -> u32 {
        match window(addr) {
            Window::Ram(offset) => load(self.ram, offset, width),
            Window::RamUncached(offset) => load(self.ram, offset, width),
            Window::Gp0 => if width is Word {
                self.gpu.state.read
            } else {
                0
            },
            Window::Gp1 => if width is Word {
                self.gpu.state.status
            } else {
                0
            },
            Window::Bios(offset) => load(self.bios, offset, width),
            _ => 0,
        }
    }

    /// The bus after an accepted store of the low `width` of `value` at
    /// `addr`. RAM takes the bytes. A word at GP0 or GP1 goes to the video
    /// chip. Every other accepted store is dropped.
    pub open spec fn stored(self, addr: u32, width: Width, value: u32) -> BusView {
        match window(addr) {
            Window::Ram(offset) => BusView { ram: store(self.ram, offset, width, value), ..self },
            Window::RamUncached(offset) => BusView {
                ram: store(self.ram, offset, width, value),
                ..self
            },
            Window::Gp0 => if width is Word {
                BusView {
                    gpu: GpuView { state: GpuState { gp0: value, ..self.gpu.state }, ..self.gpu },
                    ..self
                }
            } else {
                self
            },
            Window::Gp1 => if width is Word {
                BusView {
                    gpu: GpuView { state: GpuState { gp1: value, ..self.gpu.state }, ..self.gpu },
                    ..self
                }
            } else {
                self
            },
            _ => self,
        }
    }
}

/// The bus with its RAM, its ROM and the video chip.
pub struct MainBus {
    pub bios: Bios,
    pub memory: Memory,
    pub gpu: Gpu,
}

impl View for MainBus {
    type V = BusView;

    open spec fn view(&self) -> BusView {
        BusView { ram: self.memory@, bios: self.bios@, gpu: self.gpu@ }
    }
}

impl MainBus {
    /// RAM, ROM and the video chip are each well formed.
    pub open spec fn wf(&self) -> bool {
        self.memory.wf() && self.bios.wf() && self.gpu.wf()
    }

    /// A bus over the given ROM, RAM and video chip.
    pub fn new(bios: Bios, memory: Memory, gpu: Gpu) -> (bus: MainBus)
        requires
            bios.wf(),
            memory.wf(),
            gpu.wf(),
        ensures
            bus.wf(),
            bus.bios == bios,
            bus.memory == memory,
            bus.gpu == gpu,
    {
        MainBus { bios, memory, gpu }
    }

    /// Whether a load of `width` at `addr` is answered.
    pub fn is_readable(addr: u32, width: Width) -> (r: bool)
        ensures
            r == readable(addr, width),
    {
        match width {
            Width::Byte => match addr {
                0x0000_0000..=0x001F_FFFF => true,
                0x1F00_0000..=0x1F00_FFFF => true,
                0x1F80_1000..=0x1F80_2FFF => true,
                0x8000_0000..=0x801F_FFFF => true,
                0xA000_0000..=0xA01F_FFFF => true,
                0xBFC0_0000..=0xBFC7_FFFF => true,
                _ => false,
            },
            Width::Half => match addr {
                0x0000_0000..=0x001F_FFFE => true,
                0x1F80_1000..=0x1F80_2FFF => true,
                0x8000_0000..=0x801F_FFFE => true,
                _ => false,
            },
            Width::Word => match addr {
                0x0000_0000..=0x001F_FFFC => true,
                0x1F80_1000..=0x1F80_2FFF => true,
                0x8000_0000..=0x801F_FFFC => true,
                0xA000_0000..=0xA01F_FFFC => true,
                0xBFC0_0000..=0xBFC7_FFFC => true,
                0xFFFE_0000..=0xFFFE_0200 => true,
                _ => false,
            },
        }
    }

    /// Why a store of `width` at `addr` is refused, or `None` where it is
    /// accepted.
    pub fn store_fault(addr: u32, width: Width) -> (r: Option<Fault>)
        ensures
            r == write_fault(addr, width),
    {
        let unmapped = Some(Fault::UnmappedWrite { addr, width });
        match width {
            Width::Byte => match addr {
                0x0000_0000..=0x001F_FFFF => None,
                0x1F80_1000..=0x1F80_3000 => None,
                0x8000_0000..=0x801F_FFFF => None,
                0xA000_0000..=0xA01F_FFFF => None,
                0xBFC0_0000..=0xBFC7_FFFF => Some(Fault::RomWrite { addr }),
                _ => unmapped,
            },
            Width::Half => match addr {
                0x0000_0000..=0x001F_FFFE => None,
                0x1F80_1000..=0x1F80_2FFF => None,
                0x8000_0000..=0x801F_FFFE => None,
                0xBFC0_0000..=0xBFC7_FFFF => Some(Fault::RomWrite { addr }),
                _ => unmapped,
            },
            Width::Word => match addr {
                0x0000_0000..=0x001F_FFFC => None,
                0x1F80_1000..=0x1F80_2FFF => None,
                0x8000_0000..=0x801F_FFFC => None,
                0xA000_0000..=0xA01F_FFFC => None,
                0xBFC0_0000..=0xBFC7_FFFF => Some(Fault::RomWrite { addr }),
                0xFFFE_0000..=0xFFFE_0200 => None,
                _ => unmapped,
            },
        }
    }

    /// Loads a word from an address that answers word loads. RAM and ROM
    /// give their contents, the video registers GPUREAD and GPUSTAT, the
    /// I/O window and cache control zero.
    pub fn read_word(&self, addr: u32) -> (r: u32)
        requires
            self.wf(),
            readable(addr, Width::Word),
        ensures
            r == self@.value_at(addr, Width::Word),
    {
        match addr {
            0x0000_0000..=0x001F_FFFC => self.memory.read_word(addr),
            0x1F80_1810 => self.gpu.read_word_gp0(),
            0x1F80_1814 => self.gpu.read_status_register(),
            0x8000_0000..=0x801F_FFFC => self.memory.read_word(addr - 0x8000_0000),
            0xA000_0000..=0xA01F_FFFC => self.memory.read_word(addr - 0xA000_0000),
            0xBFC0_0000..=0xBFC7_FFFC => self.bios.read_word(addr - 0xBFC0_0000),
            _ => 0,
        }
    }

    /// Stores a word at an address that accepts word stores. RAM takes the
    /// bytes, the video registers take the word, the I/O window and cache
    /// control drop it.
    pub fn write_word(&mut self, addr: u32, word: u32)
        requires
            old(self).wf(),
            write_fault(addr, Width::Word) is None,
        ensures
            final(self).wf(),
            final(self)@ == old(self)@.stored(addr, Width::Word, word),
    {
        match addr {
            0x0000_0000..=0x001F_FFFC => {
                self.memory.write_word(addr, word);
            },
            0x1F80_1810 => {
                self.gpu.send_gp0_command(word);
            },
            0x1F80_1814 => {
                self.gpu.send_gp1_command(word);
            },
            0x8000_0000..=0x801F_FFFC => {
                self.memory.write_word(addr - 0x8000_0000, word);
            },
            0xA000_0000..=0xA01F_FFFC => {
                self.memory.write_word(addr - 0xA000_0000, word);
            },
            _ => {},
        }
    }

    /// Loads a halfword from an address that answers halfword loads. RAM
    /// gives its contents, the I/O window zero.
    pub fn read_half_word(&self, addr: u32) -> (r: u16)
        requires
            self.wf(),
            readable(addr, Width::Half),
        ensures
            r == self@.value_at(addr, Width::Half),
    {
        match addr {
            0x0000_0000..=0x001F_FFFE => self.memory.read_half_word(addr),
            0x8000_0000..=0x801F_FFFE => self.memory.read_half_word(addr - 0x8000_0000),
            _ => 0,
        }
    }

    /// Stores a halfword at an address that accepts halfword stores. RAM
    /// takes the bytes, the I/O window drops them.
    pub fn write_half_word(&mut self, addr: u32, value: u16)
        requires
            old(self).wf(),
            write_fault(addr, Width::Half) is None,
        ensures
            final(self).wf(),
            final(self)@ == old(self)@.stored(addr, Width::Half, value as u32),
    {
        match addr {
            0x0000_0000..=0x001F_FFFE => {
                self.memory.write_half_word(addr, value);
            },
            0x8000_0000..=0x801F_FFFE => {
                self.memory.write_half_word(addr - 0x8000_0000, value);
            },
            _ => {},
        }
    }

    /// Loads a byte from an address that answers byte loads. RAM and ROM
    /// give their contents, expansion region 1 and the I/O window zero.
    pub fn read_byte(&self, addr: u32) -> (r: u8)
        requires
            self.wf(),
            readable(addr, Width::Byte),
        ensures
            r == self@.value_at(addr, Width::Byte),
    {
        match addr {
            0x0000_0000..=0x001F_FFFF => self.memory.read_byte(addr),
            0x8000_0000..=0x801F_FFFF => self.memory.read_byte(addr - 0x8000_0000),
            0xA000_0000..=0xA01F_FFFF => self.memory.read_byte(addr - 0xA000_0000),
            0xBFC0_0000..=0xBFC7_FFFF => self.bios.read_byte(addr - 0xBFC0_0000),
            _ => 0,
        }
    }

    /// Stores a byte at an address that accepts byte stores. RAM takes it,
    /// the I/O window and expansion region 2 drop it.
    pub fn write_byte(&mut self, addr: u32, value: u8)
        requires
            old(self).wf(),
            write_fault(addr, Width::Byte) is None,
        ensures
            final(self).wf(),
            final(self)@ == old(self)@.stored(addr, Width::Byte, value as u32),
    {
        match addr {
            0x0000_0000..=0x001F_FFFF => {
                self.memory.write_byte(addr, value);
            },
            0x8000_0000..=0x801F_FFFF => {
                self.memory.write_byte(addr - 0x8000_0000, value);
            },
            0xA000_0000..=0xA01F_FFFF => {
                self.memory.write_byte(addr - 0xA000_0000, value);
            },
            _ => {},
        }
    }
}

/// Whether `base` is where one of the three windows onto RAM begins: the
/// user segment, the cached mirror or the uncached mirror.
pub open spec fn is_ram_base(base: u32) -> bool {
    base == 0 || base == KSEG0_BASE || base == KSEG1_BASE
}

/// A byte of RAM reads the same through each of the three windows onto RAM:
/// a byte load at `offset` above any of the three bases is answered with
/// the byte of RAM at `offset`.
pub proof fn lemma_mirrors_agree(bus: BusView, base: u32, offset: u32)
    requires
        is_ram_base(base),
        offset < RAM_SIZE,
    ensures
        readable((base + offset) as u32, Width::Byte),
        bus.value_at((base + offset) as u32, Width::Byte) == bus.ram[offset as int],
{
}

/// A byte stored in RAM through any of the three windows is the byte that
/// a load at the same offset gives back through any of the three.
pub proof fn lemma_byte_round_trip(bus: BusView, store_base: u32, load_base: u32, offset: u32, b: u8)
    requires
        bus.ram.len() == RAM_SIZE,
        is_ram_base(store_base),
        is_ram_base(load_base),
        offset < RAM_SIZE,
    ensures
        write_fault((store_base + offset) as u32, Width::Byte) is None,
        readable((load_base + offset) as u32, Width::Byte),
        bus.stored((store_base + offset) as u32, Width::Byte, b as u32).value_at(
            (load_base + offset) as u32,
            Width::Byte,
        ) == b,
{
}

/// A halfword stored in RAM is the halfword that a load at the same offset
/// gives back; a byte load at the offset gives its low byte and a byte load
/// one above gives its high byte. This holds at every offset, aligned or
/// not.
pub proof fn lemma_half_round_trip(bus: BusView, offset: u32, v: u16)
    requires
        bus.ram.len() == RAM_SIZE,
        offset + 1 < RAM_SIZE,
    ensures
        write_fault(offset, Width::Half) is None,
        readable(offset, Width::Half),
        bus.stored(offset, Width::Half, v as u32).value_at(offset, Width::Half) == v,
        bus.stored(offset, Width::Half, v as u32).value_at(offset, Width::Byte) == v % 0x100,
        bus.stored(offset, Width::Half, v as u32).value_at((offset + 1) as u32, Width::Byte) == v
            / 0x100,
{
    lemma_half_of_bytes(v);
}

/// A word stored in RAM is the word that a load at the same offset gives
/// back.
pub proof fn lemma_word_round_trip(bus: BusView, offset: u32, v: u32)
    requires
        bus.ram.len() == RAM_SIZE,
        offset + 3 < RAM_SIZE,
    ensures
        write_fault(offset, Width::Word) is None,
        readable(offset, Width::Word),
        bus.stored(offset, Width::Word, v).value_at(offset, Width::Word) == v,
{
    lemma_word_of_bytes(v);
}

} // verus!
