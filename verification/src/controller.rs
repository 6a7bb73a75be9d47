//! The controllers as the rest of the machine sees them: the buttons that
//! the host reports and the line on which the controllers ask for an
//! interrupt. The serial protocol behind the line is not done here.

use crate::cpu::interrupt::InterruptController;
use crate::cpu::InterruptSource;
use vstd::prelude::*;

verus! {

/// The buttons of one controller, one bit each; a set bit is a pressed
/// button.
#[derive(Clone, Copy, Debug, PartialEq, Eq)]
pub struct ButtonState {
    pub bits: u16,
}

/// The controllers.
#[derive(Clone, Copy, Debug, PartialEq, Eq)]
pub struct Controllers {
    pub buttons: ButtonState,
    /// The controllers ask for an interrupt; their next cycle delivers it.
    pub interrupt_requested: bool,
}

impl Controllers {
    /// Controllers with no button pressed and no interrupt asked for.
    pub fn new() -> (c: Controllers)
        ensures
            c == (Controllers { buttons: ButtonState { bits: 0 }, interrupt_requested: false }),
    {
        Controllers { buttons: ButtonState { bits: 0 }, interrupt_requested: false }
    }

    /// Takes the buttons that the host reports.
    pub fn update_button_state(&mut self, state: ButtonState)
        ensures
            *final(self) == (Controllers { buttons: state, ..*old(self) }),
    {
        self.buttons = state;
    }

    /// The buttons that the host reported last.
    pub fn button_state(&self) -> (r: ButtonState)
        ensures
            r == self.buttons,
    {
        self.buttons
    }

    /// Asks for the Controller interrupt.
    pub fn request_interrupt(&mut self)
        ensures
            *final(self) == (Controllers { interrupt_requested: true, ..*old(self) }),
    {
        self.interrupt_requested = true;
    }
}

/// One cycle of the controllers: an interrupt that they ask for is posted,
/// and the request is over.
pub fn controller_execute_cycle(controllers: &mut Controllers, irq: &mut InterruptController)
    ensures
        *final(controllers) == (Controllers { interrupt_requested: false, ..*old(controllers) }),
        *final(irq) == (if old(controllers).interrupt_requested {
            old(irq).posted(InterruptSource::Controller)
        } else {
            *old(irq)
        }),
{
    if controllers.interrupt_requested {
        irq.post(InterruptSource::Controller);
        controllers.interrupt_requested = false;
    }
}

} // verus!
