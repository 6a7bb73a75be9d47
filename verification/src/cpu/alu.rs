//! The arithmetic of the processor on 32-bit words.

use crate::cpu::instruction::{sign_extend_half, sign_extended_half};
use vstd::prelude::*;

verus! {

/// The integer that `x` stands for in two's complement.
pub open spec fn signed(x: u32) -> int {
    if x < 0x8000_0000 {
        x as int
    } else {
        x - 0x1_0000_0000
    }
}

/// The word that stands for `i` modulo 2^32.
pub open spec fn wrap(i: int) -> u32 {
    (i % 0x1_0000_0000) as u32
}

/// Whether the sum of `a` and `b`, read as signed, leaves the signed range.
pub open spec fn sum_overflows(a: u32, b: u32) -> bool {
    signed(a) + signed(b) < -0x8000_0000 || signed(a) + signed(b) > 0x7FFF_FFFF
}

/// `a` shifted right by `s` with copies of its sign bit coming in at the
/// top.
pub open spec fn shifted_right_arithmetic(a: u32, s: u32) -> u32 {
    if a < 0x8000_0000 {
        a >> s
    } else {
        !((!a) >> s)
    }
}

/// The absolute value of `i`.
pub open spec fn magnitude(i: int) -> int {
    if i < 0 {
        -i
    } else {
        i
    }
}

/// The quotient of `x` by a non-zero `y`, rounded towards zero.
pub open spec fn quotient_towards_zero(x: int, y: int) -> int {
    if (x >= 0) == (y > 0) {
        magnitude(x) / magnitude(y)
    } else {
        -(magnitude(x) / magnitude(y))
    }
}

/// The remainder that goes with `quotient_towards_zero`: it has the sign of
/// `x`.
pub open spec fn remainder_towards_zero(x: int, y: int) -> int {
    if x >= 0 {
        magnitude(x) % magnitude(y)
    } else {
        -(magnitude(x) % magnitude(y))
    }
}

/// LO after a signed division of `a` by `b`. By zero it is all ones for a
/// dividend that is not negative and one for a negative dividend.
pub open spec fn quotient_signed(a: u32, b: u32) -> u32 {
    if b == 0 {
        if signed(a) >= 0 {
            0xFFFF_FFFF
        } else {
            1
        }
    } else {
        wrap(quotient_towards_zero(signed(a), signed(b)))
    }
}

/// HI after a signed division of `a` by `b`. By zero it is the dividend.
pub open spec fn remainder_signed(a: u32, b: u32) -> u32 {
    if b == 0 {
        a
    } else {
        wrap(remainder_towards_zero(signed(a), signed(b)))
    }
}

/// LO after an unsigned division of `a` by `b`. By zero it is all ones.
pub open spec fn quotient_unsigned(a: u32, b: u32) -> u32 {
    if b == 0 {
        0xFFFF_FFFF
    } else {
        a / b
    }
}

/// HI after an unsigned division of `a` by `b`. By zero it is the dividend.
pub open spec fn remainder_unsigned(a: u32, b: u32) -> u32 {
    if b == 0 {
        a
    } else {
        a % b
    }
}

/// The target of a jump from the delay slot at `pc`: the top four bits of
/// `pc` above the 26-bit word index `index`.
pub open spec fn jump_target(pc: u32, index: u32) -> u32 {
    (pc / 0x1000_0000 * 0x1000_0000 + index * 4) as u32
}

/// The target of a branch from the delay slot at `pc`: `pc` plus four times
/// the signed 16-bit `offset`.
pub open spec fn branch_target(pc: u32, offset: u16) -> u32 {
    wrap(pc + 4 * signed(sign_extend_half(offset)))
}

/// What LWL leaves in a register that held `reg`, given the aligned word
/// `word` that contains the addressed byte and the byte's `lane`, the address
/// modulo 4: the bytes of `word` from lane 0 up to `lane` become the top
/// bytes of the register, the rest of the register stays.
pub open spec fn lwl_value(reg: u32, word: u32, lane: u32) -> u32 {
    if lane == 0 {
        (reg & 0x00FF_FFFF) | (word << 24)
    } else if lane == 1 {
        (reg & 0x0000_FFFF) | (word << 16)
    } else if lane == 2 {
        (reg & 0x0000_00FF) | (word << 8)
    } else {
        word
    }
}

/// What LWR leaves in a register that held `reg`: the bytes of `word` from
/// `lane` up to lane 3 become the low bytes of the register, the rest of the
/// register stays.
pub open spec fn lwr_value(reg: u32, word: u32, lane: u32) -> u32 {
    if lane == 0 {
        word
    } else if lane == 1 {
        (reg & 0xFF00_0000) | (word >> 8)
    } else if lane == 2 {
        (reg & 0xFFFF_0000) | (word >> 16)
    } else {
        (reg & 0xFFFF_FF00) | (word >> 24)
    }
}

/// What SWL leaves in the aligned word that held `word`: the top bytes of
/// `reg` go to lanes 0 up to `lane`, the rest of the word stays.
pub open spec fn swl_value(word: u32, reg: u32, lane: u32) -> u32 {
    if lane == 0 {
        (word & 0xFFFF_FF00) | (reg >> 24)
    } else if lane == 1 {
        (word & 0xFFFF_0000) | (reg >> 16)
    } else if lane == 2 {
        (word & 0xFF00_0000) | (reg >> 8)
    } else {
        reg
    }
}

/// What SWR leaves in the aligned word that held `word`: the low bytes of
/// `reg` go to lanes `lane` up to 3, the rest of the word stays.
pub open spec fn swr_value(word: u32, reg: u32, lane: u32) -> u32 {
    if lane == 0 {
        reg
    } else if lane == 1 {
        (word & 0x0000_00FF) | (reg << 8)
    } else if lane == 2 {
        (word & 0x0000_FFFF) | (reg << 16)
    } else {
        (word & 0x00FF_FFFF) | (reg << 24)
    }
}

/// A jump target is a multiple of 4.
pub proof fn lemma_jump_target_aligned(pc: u32, index: u32)
    requires
        index < 0x400_0000,
    ensures
        jump_target(pc, index) % 4 == 0,
{
}

/// A branch from an aligned delay slot goes to an aligned target.
pub proof fn lemma_branch_target_aligned(pc: u32, offset: u16)
    requires
        pc % 4 == 0,
    ensures
        branch_target(pc, offset) % 4 == 0,
{
}

/// Moving an aligned address by 4 in either direction, modulo 2^32, keeps
/// it aligned.
pub proof fn lemma_neighbours_aligned(pc: u32)
    requires
        pc % 4 == 0,
    ensures
        wrap(pc + 4) % 4 == 0,
        wrap(pc - 4) % 4 == 0,
{
}

proof fn lemma_signed_cast(x: u32)
    ensures
        (x as i32) as int == signed(x),
{
    assert((x as i32) as int == if x < 0x8000_0000u32 {
        x as int
    } else {
        x as int - 0x1_0000_0000
    }) by (bit_vector);
}

proof fn lemma_unsigned_cast(x: i32)
    ensures
        x as u32 == wrap(x as int),
{
    assert(x as u32 == if x >= 0i32 {
        x as int
    } else {
        x as int + 0x1_0000_0000
    }) by (bit_vector);
}

/// The sum of `a` and `b` modulo 2^32.
pub fn add_wrapping(a: u32, b: u32) -> (r: u32)
    ensures
        r == wrap(a + b),
{
    a.wrapping_add(b)
}

/// The difference of `a` and `b` modulo 2^32.
pub fn sub_wrapping(a: u32, b: u32) -> (r: u32)
    ensures
        r == wrap(a - b),
{
    a.wrapping_sub(b)
}

/// The signed sum of `a` and `b`, or `None` where it overflows.
pub fn add_trapping(a: u32, b: u32) -> (r: Option<u32>)
    ensures
        r is None <==> sum_overflows(a, b),
        r matches Some(v) ==> v == wrap(signed(a) + signed(b)),
{
    proof {
        lemma_signed_cast(a);
        lemma_signed_cast(b);
    }
    match (a as i32).checked_add(b as i32) {
        Some(v) => {
            proof {
                lemma_unsigned_cast(v);
            }
            Some(v as u32)
        },
        None => None,
    }
}

/// Whether `a` is below `b`, both read as signed.
pub fn less_signed(a: u32, b: u32) -> (r: bool)
    ensures
        r == (signed(a) < signed(b)),
{
    proof {
        lemma_signed_cast(a);
        lemma_signed_cast(b);
    }
    (a as i32) < (b as i32)
}

/// The low five bits of `x`: the amount of a shift by register.
pub fn shift_amount(x: u32) -> (r: u32)
    ensures
        r == x % 32,
{
    assert(x & 0x1f == x % 32) by (bit_vector);
    x & 0x1f
}

/// `a` shifted right by `s`, the sign bit copied in.
pub fn shift_right_arithmetic(a: u32, s: u32) -> (r: u32)
    requires
        s < 32,
    ensures
        r == shifted_right_arithmetic(a, s),
{
    assert(s < 32 ==> ((a as i32) >> s) as u32 == if a < 0x8000_0000u32 {
        a >> s
    } else {
        !((!a) >> s)
    }) by (bit_vector);
    ((a as i32) >> s) as u32
}

/// The unsigned 64-bit product of `a` and `b`, high word first.
pub fn multiply_unsigned(a: u32, b: u32) -> (r: (u32, u32))
    ensures
        r.0 == (a * b) / 0x1_0000_0000,
        r.1 == (a * b) % 0x1_0000_0000,
{
    assert(a * b <= 0xFFFF_FFFF * 0xFFFF_FFFF) by (nonlinear_arith);
    let product: u64 = (a as u64) * (b as u64);
    assert((product >> 32) == product / 0x1_0000_0000 && (product & 0xFFFF_FFFF) == product
        % 0x1_0000_0000 && (product >> 32) <= 0xFFFF_FFFF) by (bit_vector);
    ((product >> 32) as u32, (product & 0xFFFF_FFFF) as u32)
}

/// The target of a jump from the delay slot at `pc` to word index `index`.
pub fn jump_address(pc: u32, index: u32) -> (r: u32)
    requires
        index < 0x400_0000,
    ensures
        r == jump_target(pc, index),
        r % 4 == 0,
{
    assert(index < 0x400_0000 ==> ((index << 2) | (pc & 0xF000_0000)) == (pc / 0x1000_0000
        * 0x1000_0000 + index * 4) as u32 && ((index << 2) | (pc & 0xF000_0000)) % 4 == 0)
        by (bit_vector);
    (index << 2) | (pc & 0xF000_0000)
}

/// The target of a branch from the delay slot at `pc` by `offset` words.
pub fn branch_address(pc: u32, offset: u16) -> (r: u32)
    ensures
        r == branch_target(pc, offset),
        pc % 4 == 0 ==> r % 4 == 0,
{
    let extended = sign_extended_half(offset);
    assert((extended << 2) == (extended * 4) % 0x1_0000_0000) by (bit_vector);
    (extended << 2).wrapping_add(pc)
}

/// The register after LWL.
pub fn merge_lwl(reg: u32, word: u32, lane: u32) -> (r: u32)
    ensures
        r == lwl_value(reg, word, lane),
{
    if lane == 0 {
        (reg & 0x00FF_FFFF) | (word << 24)
    } else if lane == 1 {
        (reg & 0x0000_FFFF) | (word << 16)
    } else if lane == 2 {
        (reg & 0x0000_00FF) | (word << 8)
    } else {
        word
    }
}

/// The register after LWR.
pub fn merge_lwr(reg: u32, word: u32, lane: u32) -> (r: u32)
    ensures
        r == lwr_value(reg, word, lane),
{
    if lane == 0 {
        word
    } else if lane == 1 {
        (reg & 0xFF00_0000) | (word >> 8)
    } else if lane == 2 {
        (reg & 0xFFFF_0000) | (word >> 16)
    } else {
        (reg & 0xFFFF_FF00) | (word >> 24)
    }
}

/// The memory word after SWL.
pub fn merge_swl(word: u32, reg: u32, lane: u32) -> (r: u32)
    ensures
        r == swl_value(word, reg, lane),
{
    if lane == 0 {
        (word & 0xFFFF_FF00) | (reg >> 24)
    } else if lane == 1 {
        (word & 0xFFFF_0000) | (reg >> 16)
    } else if lane == 2 {
        (word & 0xFF00_0000) | (reg >> 8)
    } else {
        reg
    }
}

/// The memory word after SWR.
pub fn merge_swr(word: u32, reg: u32, lane: u32) -> (r: u32)
    ensures
        r == swr_value(word, reg, lane),
{
    if lane == 0 {
        reg
    } else if lane == 1 {
        (word & 0x0000_00FF) | (reg << 8)
    } else if lane == 2 {
        (word & 0x0000_FFFF) | (reg << 16)
    } else {
        (word & 0x00FF_FFFF) | (reg << 24)
    }
}

/// Unsigned division: remainder first, then quotient.
pub fn divide_unsigned(a: u32, b: u32) -> (r: (u32, u32))
    ensures
        r.0 == remainder_unsigned(a, b),
        r.1 == quotient_unsigned(a, b),
{
    if b == 0 {
        (a, 0xFFFF_FFFF)
    } else {
        (a % b, a / b)
    }
}

/// Signed division: remainder first, then quotient. The division is done
/// on the magnitudes and the signs are put back.
pub fn divide_signed(a: u32, b: u32) -> (r: (u32, u32))
    ensures
        r.0 == remainder_signed(a, b),
        r.1 == quotient_signed(a, b),
{
    let a_negative = a >= 0x8000_0000;
    let b_negative = b >= 0x8000_0000;
    if b == 0 {
        return (a, if a_negative {
            1
        } else {
            0xFFFF_FFFF
        });
    }
    let a_magnitude = if a_negative {
        0u32.wrapping_sub(a)
    } else {
        a
    };
    let b_magnitude = if b_negative {
        0u32.wrapping_sub(b)
    } else {
        b
    };
    let q = a_magnitude / b_magnitude;
    let m = a_magnitude % b_magnitude;
    let quotient = if a_negative != b_negative {
        0u32.wrapping_sub(q)
    } else {
        q
    };
    let remainder = if a_negative {
        0u32.wrapping_sub(m)
    } else {
        m
    };
    (remainder, quotient)
}

} // verus!
