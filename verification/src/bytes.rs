//! Little-endian packing of bytes into halfwords and words.

use vstd::prelude::*;

verus! {

/// The halfword whose low byte is `b0` and whose high byte is `b1`.
pub open spec fn half_of(b0: u8, b1: u8) -> u16 {
    (b0 + 0x100 * b1) as u16
}

/// The word whose bytes are, from the least significant up, `b0` to `b3`.
pub open spec fn word_of(b0: u8, b1: u8, b2: u8, b3: u8) -> u32 {
    (b0 + 0x100 * b1 + 0x1_0000 * b2 + 0x100_0000 * b3) as u32
}

/// Byte `k` of `v`, counted from the least significant one.
pub open spec fn byte_of(v: u32, k: int) -> u8 {
    if k == 0 {
        (v % 0x100) as u8
    } else if k == 1 {
        (v / 0x100 % 0x100) as u8
    } else if k == 2 {
        (v / 0x1_0000 % 0x100) as u8
    } else {
        (v / 0x100_0000 % 0x100) as u8
    }
}

/// The halfword stored little-endian at offset `at` of `s`.
pub open spec fn le_half(s: Seq<u8>, at: int) -> u16 {
    half_of(s[at], s[at + 1])
}

/// The word stored little-endian at offset `at` of `s`.
pub open spec fn le_word(s: Seq<u8>, at: int) -> u32 {
    word_of(s[at], s[at + 1], s[at + 2], s[at + 3])
}

/// `s` with the halfword `v` stored little-endian at offset `at`.
pub open spec fn put_half(s: Seq<u8>, at: int, v: u16) -> Seq<u8> {
    s.update(at, byte_of(v as u32, 0)).update(at + 1, byte_of(v as u32, 1))
}

/// `s` with the word `v` stored little-endian at offset `at`.
pub open spec fn put_word(s: Seq<u8>, at: int, v: u32) -> Seq<u8> {
    s.update(at, byte_of(v, 0)).update(at + 1, byte_of(v, 1)).update(at + 2, byte_of(v, 2)).update(
        at + 3,
        byte_of(v, 3),
    )
}

/// Packs two bytes into a halfword, low byte first.
pub fn pack_half(b0: u8, b1: u8) -> (r: u16)
    ensures
        r == half_of(b0, b1),
{
    let r = (b0 as u16) | ((b1 as u16) << 8);
    assert(((b0 as u16) | ((b1 as u16) << 8)) == (b0 + 0x100 * b1) as u16) by (bit_vector);
    r
}

/// Packs four bytes into a word, lowest byte first.
pub fn pack_word(b0: u8, b1: u8, b2: u8, b3: u8) -> (r: u32)
    ensures
        r == word_of(b0, b1, b2, b3),
{
    let r = (b0 as u32) | ((b1 as u32) << 8) | ((b2 as u32) << 16) | ((b3 as u32) << 24);
    assert(((b0 as u32) | ((b1 as u32) << 8) | ((b2 as u32) << 16) | ((b3 as u32) << 24)) == (b0
        + 0x100 * b1 + 0x1_0000 * b2 + 0x100_0000 * b3) as u32) by (bit_vector);
    r
}

/// Extracts byte `k` of a word, counted from the least significant one.
pub fn unpack_byte(v: u32, k: u32) -> (r: u8)
    requires
        k < 4,
    ensures
        r == byte_of(v, k as int),
{
    let r = ((v >> (8 * k)) & 0xff) as u8;
    assert(k < 4 ==> ((v >> (8 * k) as u32) & 0xff) as u8 == (if k == 0 {
        (v % 0x100) as u8
    } else if k == 1 {
        (v / 0x100 % 0x100) as u8
    } else if k == 2 {
        (v / 0x1_0000 % 0x100) as u8
    } else {
        (v / 0x100_0000 % 0x100) as u8
    })) by (bit_vector);
    r
}

/// A halfword is the halfword of its two bytes.
pub proof fn lemma_half_of_bytes(v: u16)
    ensures
        half_of(byte_of(v as u32, 0), byte_of(v as u32, 1)) == v,
        byte_of(v as u32, 0) == v % 0x100,
        byte_of(v as u32, 1) == v / 0x100,
{
}

/// A word is the word of its four bytes.
pub proof fn lemma_word_of_bytes(v: u32)
    ensures
        word_of(byte_of(v, 0), byte_of(v, 1), byte_of(v, 2), byte_of(v, 3)) == v,
{
    assert((v % 0x100) + 0x100 * (v / 0x100 % 0x100) + 0x1_0000 * (v / 0x1_0000 % 0x100)
        + 0x100_0000 * (v / 0x100_0000 % 0x100) == v) by (bit_vector);
}

} // verus!
