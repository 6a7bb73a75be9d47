//! The responses of the drive to its commands.

use crate::cdrom::{CDDrive, DriveState, IntCause, MotorState, PendingResponse};
use vstd::prelude::*;

verus! {

/// The cycles that the first response to a command takes on average.
pub const AVG_FIRST_RESPONSE_TIME: u32 = 0xC4E1;

/// The cycles that the second response to a command takes on average.
pub const AVG_SECOND_RESPONSE_TIME: u32 = 0xC4E1;

/// The status byte of the drive: bit 7 while playing, bit 6 while seeking,
/// bit 5 while reading, bit 1 while the motor runs.
pub open spec fn status_byte(drive_state: DriveState, motor_state: MotorState) -> u8 {
    (match drive_state {
        DriveState::Play => 0x80u8,
        DriveState::Seek => 0x40u8,
        DriveState::Read => 0x20u8,
    }) | (match motor_state {
        MotorState::On => 0x02u8,
        MotorState::Off => 0x00u8,
    })
}

/// Whether `r` is a single response: these bytes, announced by `cause`
/// after `cycles`, with `follow_up` telling whether another one follows.
pub open spec fn responds(
    r: PendingResponse,
    cause: IntCause,
    bytes: Seq<u8>,
    cycles: u32,
    follow_up: bool,
) -> bool {
    &&& r.cause == cause
    &&& r.response@ == bytes
    &&& r.execution_cycles == cycles
    &&& r.extra_response is Some == follow_up
}

/// The response to the request for the BIOS date: the date and version of
/// the controller, 94h 09h 19h C0h.
pub fn get_bios_date() -> (r: PendingResponse)
    ensures
        responds(
            r,
            IntCause::INT3,
            seq![0x94u8, 0x09u8, 0x19u8, 0xC0u8],
            AVG_FIRST_RESPONSE_TIME,
            false,
        ),
{
    let r = PendingResponse {
        cause: IntCause::INT3,
        response: vec![0x94, 0x09, 0x19, 0xC0],
        execution_cycles: AVG_FIRST_RESPONSE_TIME,
        extra_response: None,
    };
    r
}

/// The response to the status request: the status byte.
pub fn get_stat(state: &CDDrive) -> (r: PendingResponse)
    ensures
        responds(
            r,
            IntCause::INT3,
            seq![status_byte(state.drive_state, state.motor_state)],
            AVG_FIRST_RESPONSE_TIME,
            false,
        ),
{
    let mut status: u8 = match state.drive_state {
        DriveState::Play => 0x80,
        DriveState::Seek => 0x40,
        DriveState::Read => 0x20,
    };
    status = status | match state.motor_state {
        MotorState::On => 0x02,
        MotorState::Off => 0x00,
    };
    let r = PendingResponse {
        cause: IntCause::INT3,
        response: vec![status],
        execution_cycles: AVG_FIRST_RESPONSE_TIME,
        extra_response: None,
    };
    assert(r.response@ =~= seq![status_byte(state.drive_state, state.motor_state)]);
    r
}

/// The response to the identification request with an empty tray: the
/// status byte first, then, announced as an error, the eight bytes that say
/// that there is no disc.
pub fn get_id(state: &CDDrive) -> (r: PendingResponse)
    requires
        !state.disk_inserted(),
    ensures
        responds(
            r,
            IntCause::INT3,
            seq![status_byte(state.drive_state, state.motor_state)],
            AVG_FIRST_RESPONSE_TIME,
            true,
        ),
        responds(
            *r.extra_response->0,
            IntCause::INT5,
            seq![0x08u8, 0x40u8, 0u8, 0u8, 0u8, 0u8, 0u8, 0u8],
            AVG_SECOND_RESPONSE_TIME,
            false,
        ),
{
    let mut first_response = get_stat(state);
    let second_response = PendingResponse {
        cause: IntCause::INT5,
        response: vec![0x08, 0x40, 0, 0, 0, 0, 0, 0],
        execution_cycles: AVG_SECOND_RESPONSE_TIME,
        extra_response: None,
    };
    first_response.extra_response = Some(Box::new(second_response));
    first_response
}

/// Starts the drive: the motor is switched on, and the drive answers with
/// its status twice.
pub fn init(state: &mut CDDrive) -> (r: PendingResponse)
    ensures
        *final(state) == (CDDrive { motor_state: MotorState::On, ..*old(state) }),
        responds(
            r,
            IntCause::INT3,
            seq![status_byte(old(state).drive_state, MotorState::On)],
            AVG_FIRST_RESPONSE_TIME,
            true,
        ),
        responds(
            *r.extra_response->0,
            IntCause::INT3,
            seq![status_byte(old(state).drive_state, MotorState::On)],
            AVG_FIRST_RESPONSE_TIME,
            false,
        ),
{
    state.motor_state = MotorState::On;
    let mut first_response = get_stat(state);
    let second_response = get_stat(state);
    first_response.extra_response = Some(Box::new(second_response));
    first_response
}

} // verus!
