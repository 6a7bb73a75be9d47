//! The DMA controller as the rest of the machine sees it: the line on which
//! it asks for an interrupt. The channels behind the line are not done
//! here.

use crate::cpu::interrupt::InterruptController;
use crate::cpu::InterruptSource;
use vstd::prelude::*;

verus! {

/// The DMA controller.
#[derive(Clone, Copy, Debug, PartialEq, Eq)]
pub struct DMAState {
    /// The controller asks for an interrupt; its next cycle delivers it.
    pub interrupt_requested: bool,
}

impl DMAState {
    /// A controller at rest.
    pub fn new() -> (d: DMAState)
        ensures
            !d.interrupt_requested,
    {
        DMAState { interrupt_requested: false }
    }

    /// Asks for the DMA interrupt.
    pub fn request_interrupt(&mut self)
        ensures
            final(self).interrupt_requested,
    {
        self.interrupt_requested = true;
    }
}

/// One cycle of the DMA controller: an interrupt that it asks for is
/// posted, and the request is over.
pub fn execute_dma_cycle(dma: &mut DMAState, irq: &mut InterruptController)
    ensures
        !final(dma).interrupt_requested,
        *final(irq) == (if old(dma).interrupt_requested {
            old(irq).posted(InterruptSource::DMA)
        } else {
            *old(irq)
        }),
{
    if dma.interrupt_requested {
        irq.post(InterruptSource::DMA);
        dma.interrupt_requested = false;
    }
}

} // verus!
