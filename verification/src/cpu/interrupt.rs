//! The interrupt controller: I_STAT and I_MASK.

use crate::bits::{bit_of, get_bit, set_bit, with_bit};
use crate::cpu::InterruptSource;
use vstd::prelude::*;

verus! {

/// The highest bit of I_STAT and I_MASK that belongs to a source.
pub const LAST_SOURCE_BIT: u32 = 10;

/// The two registers of the interrupt controller. Devices post into `stat`;
/// the guest acknowledges by writing `stat` and enables sources in `mask`.
#[derive(Clone, Copy, Debug, PartialEq, Eq)]
pub struct InterruptController {
    /// I_STAT: one bit per source with an interrupt outstanding.
    pub stat: u32,
    /// I_MASK: one bit per source that may interrupt the processor.
    pub mask: u32,
}

impl InterruptController {
    /// The controller after `source` has posted an interrupt.
    pub open spec fn posted(self, source: InterruptSource) -> InterruptController {
        InterruptController { stat: with_bit(self.stat, source.spec_bit(), true), ..self }
    }

    /// The controller after the guest wrote `value` to I_STAT: a bit stays
    /// set only where it was set and `value` has a one.
    pub open spec fn acknowledged(self, value: u32) -> InterruptController {
        InterruptController { stat: self.stat & value, ..self }
    }

    /// The controller after the guest wrote the halfword `value` to I_STAT:
    /// as `acknowledged`, on the low 16 bits only.
    pub open spec fn acknowledged_half(self, value: u16) -> InterruptController {
        InterruptController { stat: self.stat & (0xFFFF_0000u32 | value as u32), ..self }
    }

    /// The controller after the guest wrote `value` to I_MASK.
    pub open spec fn masked(self, value: u32) -> InterruptController {
        InterruptController { mask: value, ..self }
    }

    /// The controller after the guest wrote the halfword `value` to I_MASK:
    /// the low 16 bits are replaced.
    pub open spec fn masked_half(self, value: u16) -> InterruptController {
        InterruptController { mask: (self.mask & 0xFFFF_0000u32) | value as u32, ..self }
    }

    /// Some source has an interrupt outstanding and is enabled.
    pub open spec fn pending(self) -> bool {
        exists|i: u32| i <= LAST_SOURCE_BIT && bit_of(self.stat, i) && #[trigger] bit_of(self.mask, i)
    }

    /// A controller with nothing outstanding and nothing enabled.
    pub fn new() -> (c: InterruptController)
        ensures
            c.stat == 0,
            c.mask == 0,
    {
        InterruptController { stat: 0, mask: 0 }
    }

    /// Posts an interrupt from `source`: sets its bit in I_STAT.
    pub fn post(&mut self, source: InterruptSource)
        ensures
            *final(self) == old(self).posted(source),
    {
        self.stat = set_bit(self.stat, source.bit(), true);
    }

    /// A word write to I_STAT.
    pub fn acknowledge(&mut self, value: u32)
        ensures
            *final(self) == old(self).acknowledged(value),
    {
        self.stat = self.stat & value;
    }

    /// A halfword write to I_STAT.
    pub fn acknowledge_half(&mut self, value: u16)
        ensures
            *final(self) == old(self).acknowledged_half(value),
    {
        self.stat = self.stat & (0xFFFF_0000u32 | value as u32);
    }

    /// A word write to I_MASK.
    pub fn set_mask(&mut self, value: u32)
        ensures
            *final(self) == old(self).masked(value),
    {
        self.mask = value;
    }

    /// A halfword write to I_MASK.
    pub fn set_mask_half(&mut self, value: u16)
        ensures
            *final(self) == old(self).masked_half(value),
    {
        self.mask = (self.mask & 0xFFFF_0000u32) | value as u32;
    }

    /// Whether some source has an interrupt outstanding and is enabled.
    pub fn is_pending(&self) -> (r: bool)
        ensures
            r == self.pending(),
    {
        let mut i: u32 = 0;
        while i <= LAST_SOURCE_BIT
            invariant
                i <= LAST_SOURCE_BIT + 1,
                forall|j: u32| j < i ==> !(bit_of(self.stat, j) && #[trigger] bit_of(self.mask, j)),
            decreases LAST_SOURCE_BIT + 1 - i,
        {
            if get_bit(self.stat, i) && get_bit(self.mask, i) {
                return true;
            }
            i = i + 1;
        }
        false
    }
}

/// Writing I_STAT never sets a bit: whatever word or halfword is written,
/// every bit that is set afterwards was set before.
pub proof fn lemma_acknowledge_sets_nothing(c: InterruptController, word: u32, half: u16, i: u32)
    requires
        i < 32,
    ensures
        bit_of(c.acknowledged(word).stat, i) ==> bit_of(c.stat, i),
        bit_of(c.acknowledged_half(half).stat, i) ==> bit_of(c.stat, i),
{
    let stat = c.stat;
    let extended = 0xFFFF_0000u32 | half as u32;
    assert(i < 32 ==> (((stat & word) & (1u32 << i) != 0 ==> stat & (1u32 << i) != 0) && ((stat
        & extended) & (1u32 << i) != 0 ==> stat & (1u32 << i) != 0))) by (bit_vector);
}

/// Acknowledging with a one in a bit leaves that bit as it was, and with a
/// zero clears it.
pub proof fn lemma_acknowledge_bit(c: InterruptController, word: u32, i: u32)
    requires
        i < 32,
    ensures
        bit_of(c.acknowledged(word).stat, i) == (bit_of(c.stat, i) && bit_of(word, i)),
{
    let stat = c.stat;
    assert(i < 32 ==> (((stat & word) & (1u32 << i) != 0) == (stat & (1u32 << i) != 0 && word & (
    1u32 << i) != 0))) by (bit_vector);
}

/// Posting sets the bit of the source and no other.
pub proof fn lemma_post_bit(c: InterruptController, source: InterruptSource, i: u32)
    requires
        i < 32,
    ensures
        bit_of(c.posted(source).stat, i) == (bit_of(c.stat, i) || i == source.spec_bit()),
        c.posted(source).mask == c.mask,
{
    let stat = c.stat;
    let b = source.spec_bit();
    assert(i < 32 && b < 32 ==> (((stat | (1u32 << b)) & (1u32 << i) != 0) == (stat & (1u32 << i)
        != 0 || i == b))) by (bit_vector);
}

} // verus!
