//! The fields of an instruction word.

use vstd::prelude::*;

verus! {

/// Bits 31 to 26: the primary opcode.
pub open spec fn opcode_of(instruction: u32) -> u8 {
    (instruction / 0x400_0000) as u8
}

/// Bits 25 to 21: the first source register.
pub open spec fn rs_of(instruction: u32) -> u8 {
    (instruction / 0x20_0000 % 32) as u8
}

/// Bits 20 to 16: the second source register, or the target of an
/// immediate instruction.
pub open spec fn rt_of(instruction: u32) -> u8 {
    (instruction / 0x1_0000 % 32) as u8
}

/// Bits 15 to 11: the destination register.
pub open spec fn rd_of(instruction: u32) -> u8 {
    (instruction / 0x800 % 32) as u8
}

/// Bits 10 to 6: the shift amount.
pub open spec fn shamt_of(instruction: u32) -> u8 {
    (instruction / 0x40 % 32) as u8
}

/// Bits 5 to 0: the secondary opcode.
pub open spec fn funct_of(instruction: u32) -> u8 {
    (instruction % 0x40) as u8
}

/// Bits 15 to 0: the immediate operand.
pub open spec fn immediate_of(instruction: u32) -> u16 {
    (instruction % 0x1_0000) as u16
}

/// Bits 25 to 0: the word index of a jump target.
pub open spec fn address_of(instruction: u32) -> u32 {
    instruction % 0x400_0000
}

/// The 32-bit value with the same two's complement meaning as the 16-bit
/// `value`.
pub open spec fn sign_extend_half(value: u16) -> u32 {
    if value < 0x8000 {
        value as u32
    } else {
        (value + 0xFFFF_0000) as u32
    }
}

/// The 32-bit value with the same two's complement meaning as the 8-bit
/// `value`.
pub open spec fn sign_extend_byte(value: u8) -> u32 {
    if value < 0x80 {
        value as u32
    } else {
        (value + 0xFFFF_FF00) as u32
    }
}

proof fn lemma_fields(i: u32)
    by (bit_vector)
    ensures
        (i >> 26) == i / 0x400_0000,
        ((i >> 21) & 0x1f) == i / 0x20_0000 % 32,
        ((i >> 16) & 0x1f) == i / 0x1_0000 % 32,
        ((i >> 11) & 0x1f) == i / 0x800 % 32,
        ((i >> 6) & 0x1f) == i / 0x40 % 32,
        (i & 0x3f) == i % 0x40,
        (i & 0xffff) == i % 0x1_0000,
        (i & 0x3ff_ffff) == i % 0x400_0000,
{
}

/// The primary opcode of `instruction`.
pub fn opcode(instruction: u32) -> (r: u8)
    ensures
        r == opcode_of(instruction),
        r < 64,
{
    proof {
        lemma_fields(instruction);
    }
    (instruction >> 26) as u8
}

/// The first source register of `instruction`.
pub fn rs(instruction: u32) -> (r: u8)
    ensures
        r == rs_of(instruction),
        r < 32,
{
    proof {
        lemma_fields(instruction);
    }
    ((instruction >> 21) & 0x1f) as u8
}

/// The second source register of `instruction`.
pub fn rt(instruction: u32) -> (r: u8)
    ensures
        r == rt_of(instruction),
        r < 32,
{
    proof {
        lemma_fields(instruction);
    }
    ((instruction >> 16) & 0x1f) as u8
}

/// The destination register of `instruction`.
pub fn rd(instruction: u32) -> (r: u8)
    ensures
        r == rd_of(instruction),
        r < 32,
{
    proof {
        lemma_fields(instruction);
    }
    ((instruction >> 11) & 0x1f) as u8
}

/// The shift amount of `instruction`.
pub fn shamt(instruction: u32) -> (r: u8)
    ensures
        r == shamt_of(instruction),
        r < 32,
{
    proof {
        lemma_fields(instruction);
    }
    ((instruction >> 6) & 0x1f) as u8
}

/// The secondary opcode of `instruction`.
pub fn funct(instruction: u32) -> (r: u8)
    ensures
        r == funct_of(instruction),
        r < 64,
{
    proof {
        lemma_fields(instruction);
    }
    (instruction & 0x3f) as u8
}

/// The immediate operand of `instruction`.
pub fn immediate(instruction: u32) -> (r: u16)
    ensures
        r == immediate_of(instruction),
{
    proof {
        lemma_fields(instruction);
    }
    (instruction & 0xffff) as u16
}

/// The jump target field of `instruction`.
pub fn address(instruction: u32) -> (r: u32)
    ensures
        r == address_of(instruction),
        r < 0x400_0000,
{
    proof {
        lemma_fields(instruction);
    }
    instruction & 0x3ff_ffff
}

/// A halfword widened to 32 bits with its sign.
pub fn sign_extended_half(value: u16) -> (r: u32)
    ensures
        r == sign_extend_half(value),
{
    assert((value as i16) as i32 as u32 == if value < 0x8000u16 {
        value as u32
    } else {
        (value + 0xFFFF_0000) as u32
    }) by (bit_vector);
    (value as i16) as i32 as u32
}

/// A byte widened to 32 bits with its sign.
pub fn sign_extended_byte(value: u8) -> (r: u32)
    ensures
        r == sign_extend_byte(value),
{
    assert((value as i8) as i32 as u32 == if value < 0x80u8 {
        value as u32
    } else {
        (value + 0xFFFF_FF00) as u32
    }) by (bit_vector);
    (value as i8) as i32 as u32
}

/// The immediate operand of `instruction`, widened to 32 bits with its sign.
pub fn immediate_sign_extended(instruction: u32) -> (r: u32)
    ensures
        r == sign_extend_half(immediate_of(instruction)),
{
    sign_extended_half(immediate(instruction))
}

} // verus!
