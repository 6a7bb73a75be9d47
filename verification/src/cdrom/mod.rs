//! The CD-ROM drive as the rest of the machine sees it: the state that the
//! drive reports, the disc in its tray and the line on which the drive asks
//! for an interrupt. Reading a disc and the timing of commands are not done
//! here.

pub mod commands;

use crate::cpu::interrupt::InterruptController;
use crate::cpu::InterruptSource;
use vstd::prelude::*;

verus! {

/// What the drive is doing.
#[derive(Clone, Copy, Debug, PartialEq, Eq)]
pub enum DriveState {
    Play,
    Seek,
    Read,
}

/// Whether the spindle motor runs.
#[derive(Clone, Copy, Debug, PartialEq, Eq)]
pub enum MotorState {
    Off,
    On,
}

/// The interrupt that announces a response of the drive.
#[derive(Clone, Copy, Debug, PartialEq, Eq)]
pub enum IntCause {
    INT1,
    INT2,
    INT3,
    INT4,
    INT5,
}

/// A response that the drive will give: its bytes, the interrupt that
/// announces it, the cycles it takes, and the response that follows it, if
/// any.
pub struct PendingResponse {
    pub cause: IntCause,
    pub response: Vec<u8>,
    pub execution_cycles: u32,
    pub extra_response: Option<Box<PendingResponse>>,
}

/// A disc image.
pub struct Disc {
    pub image: Vec<u8>,
}

/// The drive.
pub struct CDDrive {
    pub drive_state: DriveState,
    pub motor_state: MotorState,
    pub disc: Option<Disc>,
    /// The drive asks for an interrupt; its next cycle delivers it.
    pub interrupt_requested: bool,
}

impl CDDrive {
    /// Whether a disc is in the tray.
    pub open spec fn disk_inserted(&self) -> bool {
        self.disc is Some
    }

    /// A drive that reads, with the motor off, an empty tray and no
    /// interrupt asked for.
    pub fn new() -> (d: CDDrive)
        ensures
            d == (CDDrive {
                drive_state: DriveState::Read,
                motor_state: MotorState::Off,
                disc: None,
                interrupt_requested: false,
            }),
    {
        CDDrive {
            drive_state: DriveState::Read,
            motor_state: MotorState::Off,
            disc: None,
            interrupt_requested: false,
        }
    }

    /// Puts `disc` in the tray, in place of the one that was there.
    pub fn load_disc(&mut self, disc: Disc)
        ensures
            *final(self) == (CDDrive { disc: Some(disc), ..*old(self) }),
    {
        self.disc = Some(disc);
    }

    /// Empties the tray.
    pub fn remove_disc(&mut self)
        ensures
            *final(self) == (CDDrive { disc: None, ..*old(self) }),
    {
        self.disc = None;
    }

    /// The disc in the tray, if any.
    pub fn disc(&self) -> (r: &Option<Disc>)
        ensures
            *r == self.disc,
    {
        &self.disc
    }

    /// Whether a disc is in the tray.
    pub fn has_disc(&self) -> (r: bool)
        ensures
            r == self.disk_inserted(),
    {
        self.disc.is_some()
    }

    /// Asks for the CDROM interrupt.
    pub fn request_interrupt(&mut self)
        ensures
            *final(self) == (CDDrive { interrupt_requested: true, ..*old(self) }),
    {
        self.interrupt_requested = true;
    }

    /// One cycle of the drive: an interrupt that it asks for is posted, and
    /// the request is over.
    pub fn execute_cycle(&mut self, irq: &mut InterruptController)
        ensures
            *final(self) == (CDDrive { interrupt_requested: false, ..*old(self) }),
            *final(irq) == (if old(self).interrupt_requested {
                old(irq).posted(InterruptSource::CDROM)
            } else {
                *old(irq)
            }),
    {
        if self.interrupt_requested {
            irq.post(InterruptSource::CDROM);
            self.interrupt_requested = false;
        }
    }
}

} // verus!
