//! The system coprocessor.

use crate::bits::{bit_of, get_bit, set_bit, with_bit};
use crate::cpu::Exception;
use vstd::prelude::*;

verus! {

/// The index of the Status register.
pub const STATUS: u8 = 12;

/// The index of the Cause register.
pub const CAUSE: u8 = 13;

/// The index of the exception return address.
pub const EPC: u8 = 14;

/// Status bit 0, IEc: interrupts are enabled.
pub const STATUS_IEC: u32 = 0;

/// Status bit 16, IsC: the data cache is isolated and stores do not reach
/// the bus.
pub const STATUS_ISC: u32 = 16;

/// Status bit 22, BEV: exceptions vector into the ROM.
pub const STATUS_BEV: u32 = 22;

/// Status after an exception is taken: the six low bits, three pairs of
/// interrupt-enable and mode, move up by one pair. The oldest pair is lost
/// and the current pair becomes zero, which disables interrupts.
pub open spec fn status_pushed(status: u32) -> u32 {
    (status & !0x3Fu32) | ((status << 2) & 0x3Fu32)
}

/// Status after a return from exception: the previous and old pairs move
/// down by one; the old pair stays where it is.
pub open spec fn status_popped(status: u32) -> u32 {
    (status & !0xFu32) | ((status & 0x3Cu32) >> 2)
}

/// Cause with `code` in its ExcCode field, bits 2 to 6, and the other bits
/// kept.
pub open spec fn cause_with_code(cause: u32, code: u32) -> u32 {
    (cause & !0x7Cu32) | (code << 2)
}

/// The ExcCode field of a Cause value.
pub open spec fn cause_code(cause: u32) -> u32 {
    (cause & 0x7Cu32) >> 2
}

/// The system coprocessor: thirty-two registers of which Status, Cause and
/// EPC carry meaning; the rest is storage.
pub struct Cop0 {
    pub regs: [u32; 32],
}

impl View for Cop0 {
    type V = Seq<u32>;

    open spec fn view(&self) -> Seq<u32> {
        self.regs@
    }
}

impl Cop0 {
    /// A coprocessor with every register zero.
    pub fn new() -> (c: Cop0)
        ensures
            c@.len() == 32,
            forall|i: int| 0 <= i < 32 ==> c@[i] == 0,
    {
        Cop0 { regs: [0u32; 32] }
    }

    /// The value of register `index`.
    pub fn read_reg(&self, index: u8) -> (r: u32)
        requires
            index < 32,
        ensures
            r == self@[index as int],
    {
        self.regs[index as usize]
    }

    /// Stores `value` in register `index`.
    pub fn write_reg(&mut self, index: u8, value: u32)
        requires
            index < 32,
        ensures
            final(self)@ == old(self)@.update(index as int, value),
    {
        self.regs[index as usize] = value;
    }

    /// Records `exception` in the ExcCode field of Cause.
    pub fn set_cause_execode(&mut self, exception: Exception)
        ensures
            final(self)@ == old(self)@.update(
                CAUSE as int,
                cause_with_code(old(self)@[CAUSE as int], exception.spec_code()),
            ),
    {
        let cause = self.regs[CAUSE as usize];
        self.regs[CAUSE as usize] = (cause & !0x7Cu32) | (exception.code() << 2);
    }

    /// Whether the processor accepts interrupts: IEc is set. Taking an
    /// exception clears IEc, so inside a handler this is false until the
    /// handler returns or sets the bit itself.
    pub fn interrupt_enabled(&self) -> (r: bool)
        ensures
            r == bit_of(self@[STATUS as int], STATUS_IEC),
    {
        get_bit(self.regs[STATUS as usize], STATUS_IEC)
    }

    /// Whether the cache is isolated: IsC is set.
    pub fn cache_isolated(&self) -> (r: bool)
        ensures
            r == bit_of(self@[STATUS as int], STATUS_ISC),
    {
        get_bit(self.regs[STATUS as usize], STATUS_ISC)
    }

    /// Whether exceptions vector into the ROM: BEV is set.
    pub fn boot_vectors(&self) -> (r: bool)
        ensures
            r == bit_of(self@[STATUS as int], STATUS_BEV),
    {
        get_bit(self.regs[STATUS as usize], STATUS_BEV)
    }

    /// Sets or clears BEV.
    pub fn set_boot_vectors(&mut self, on: bool)
        ensures
            final(self)@ == old(self)@.update(
                STATUS as int,
                with_bit(old(self)@[STATUS as int], STATUS_BEV, on),
            ),
    {
        self.regs[STATUS as usize] = set_bit(self.regs[STATUS as usize], STATUS_BEV, on);
    }

    /// Pushes the mode stack of Status, as on exception entry.
    pub fn push_mode(&mut self)
        ensures
            final(self)@ == old(self)@.update(
                STATUS as int,
                status_pushed(old(self)@[STATUS as int]),
            ),
    {
        let status = self.regs[STATUS as usize];
        self.regs[STATUS as usize] = (status & !0x3Fu32) | ((status << 2) & 0x3Fu32);
    }

    /// Pops the mode stack of Status, as on return from exception.
    pub fn pop_mode(&mut self)
        ensures
            final(self)@ == old(self)@.update(
                STATUS as int,
                status_popped(old(self)@[STATUS as int]),
            ),
    {
        let status = self.regs[STATUS as usize];
        self.regs[STATUS as usize] = (status & !0xFu32) | ((status & 0x3Cu32) >> 2);
    }
}

/// Pushing the mode stack moves the current and the previous pair up by
/// one place and leaves zero as the current pair, so that interrupts are
/// disabled; nothing above the six bits changes. Popping after pushing gives
/// the current and the previous pair back.
pub proof fn lemma_mode_stack(status: u32)
    ensures
        status_pushed(status) & 0x3F == (status & 0xF) << 2,
        status_pushed(status) & !0x3Fu32 == status & !0x3Fu32,
        !bit_of(status_pushed(status), STATUS_IEC),
        bit_of(status_pushed(status), STATUS_BEV) == bit_of(status, STATUS_BEV),
        bit_of(status_pushed(status), STATUS_ISC) == bit_of(status, STATUS_ISC),
        status_popped(status_pushed(status)) & 0xF == status & 0xF,
        status_popped(status) & !0xFu32 == status & !0xFu32,
{
    assert(((status & !0x3Fu32) | ((status << 2) & 0x3Fu32)) & 0x3F == (status & 0xF) << 2 && ((
    status & !0x3Fu32) | ((status << 2) & 0x3Fu32)) & !0x3Fu32 == status & !0x3Fu32 && ((status
        & !0x3Fu32) | ((status << 2) & 0x3Fu32)) & (1u32 << 0u32) == 0 && (((status & !0x3Fu32) | ((
    status << 2) & 0x3Fu32)) & (1u32 << 22u32) != 0) == (status & (1u32 << 22u32) != 0) && (((
    status & !0x3Fu32) | ((status << 2) & 0x3Fu32)) & (1u32 << 16u32) != 0) == (status & (1u32
        << 16u32) != 0)) by (bit_vector);
    let pushed = status_pushed(status);
    assert(pushed == (status & !0x3Fu32) | ((status << 2) & 0x3Fu32) ==> ((pushed & !0xFu32) | ((
    pushed & 0x3Cu32) >> 2)) & 0xF == status & 0xF) by (bit_vector);
    assert(((status & !0xFu32) | ((status & 0x3Cu32) >> 2)) & !0xFu32 == status & !0xFu32)
        by (bit_vector);
}

/// Writing a code into Cause puts it in the ExcCode field and changes no
/// other bit.
pub proof fn lemma_cause_code(cause: u32, code: u32)
    requires
        code < 32,
    ensures
        cause_code(cause_with_code(cause, code)) == code,
        cause_with_code(cause, code) & !0x7Cu32 == cause & !0x7Cu32,
{
    assert(code < 32 ==> ((((cause & !0x7Cu32) | (code << 2)) & 0x7Cu32) >> 2) == code && ((cause
        & !0x7Cu32) | (code << 2)) & !0x7Cu32 == cause & !0x7Cu32) by (bit_vector);
}

} // verus!
