//! Conditions that stop the machine for good.

use vstd::prelude::*;

verus! {

/// The width of one bus access.
#[derive(Clone, Copy, Debug, PartialEq, Eq)]
pub enum Width {
    Byte,
    Half,
    Word,
}

impl Width {
    /// The number of bytes that an access of this width covers.
    pub open spec fn bytes(self) -> int {
        match self {
            Width::Byte => 1,
            Width::Half => 2,
            Width::Word => 4,
        }
    }
}

/// A host-visible failure: the guest left the envelope in which the machine
/// is defined. The machine cannot go on after one; the value names the
/// condition and the address for a diagnostic.
#[derive(Clone, Copy, Debug, PartialEq, Eq)]
pub enum Fault {
    /// A load of the given width from an address that no device answers.
    UnmappedRead { addr: u32, width: Width },
    /// A store of the given width to an address that no device answers.
    UnmappedWrite { addr: u32, width: Width },
    /// A store into the BIOS ROM window.
    RomWrite { addr: u32 },
    /// A jump or return to an address that is not a multiple of 4.
    MisalignedPc { target: u32 },
    /// An exception was raised while a branch delay slot was armed; `slot`
    /// is the address of the delay slot.
    ExceptionInDelaySlot { slot: u32 },
}

} // verus!
