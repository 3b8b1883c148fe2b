use vstd::prelude::*;

use crate::error::DeskError;

verus! {

/// Characteristic identifier for reading and subscribing to the height.
pub const UUID_HEIGHT: u128 = 0x99fa0021_338a_1024_8a49_009c0215f78a;

/// Characteristic identifier for movement commands.
pub const UUID_COMMAND: u128 = 0x99fa0002_338a_1024_8a49_009c0215f78a;

/// Characteristic identifier for the reference-input channel, used to reset
/// the desk's reference input alongside a stop.
pub const UUID_REFERENCE_INPUT: u128 = 0x99fa0031_338a_1024_8a49_009c0215f78a;

/// Direction in which the desk can travel.
#[derive(Debug, Clone, Copy, PartialEq, Eq, Structural)]
pub enum Direction {
    Up,
    Down,
}

/// The two characteristics the library ever writes to.
#[derive(Debug, Clone, Copy, PartialEq, Eq, Structural)]
pub enum WriteEndpoint {
    /// The movement-command characteristic.
    Command,
    /// The reference-input characteristic.
    ReferenceInput,
}

/// A logical command the motion controller can issue in one control step.
#[derive(Debug, Clone, Copy, PartialEq, Eq, Structural)]
pub enum DeskCommand {
    /// Halt motion (expands to both stop writes).
    Stop,
    /// Start moving in the given direction for one firmware interval.
    Move(Direction),
}

/// One pending transport write: which characteristic, and what bytes.
#[derive(Debug, PartialEq, Eq)]
pub struct CharacteristicWrite {
    pub endpoint: WriteEndpoint,
    pub payload: Vec<u8>,
}

/// Opcode that starts motion in the given direction.
pub open spec fn move_opcode(direction: Direction) -> Seq<u8> {
    match direction {
        Direction::Up => seq![0x47u8, 0x00u8],
        Direction::Down => seq![0x46u8, 0x00u8],
    }
}

/// Opcode that halts motion, written to the command characteristic.
pub open spec fn stop_opcode() -> Seq<u8> {
    seq![0xFFu8, 0x00u8]
}

/// Reference-input reset, written to the reference-input characteristic
/// together with every stop.
pub open spec fn reference_reset_opcode() -> Seq<u8> {
    seq![0x01u8, 0x80u8]
}

/// The bytes to send for a move in the given direction.
pub fn move_command(direction: Direction) -> (r: Vec<u8>)
    ensures
        r@ == move_opcode(direction),
{
    let r: Vec<u8> = match direction {
        Direction::Up => vec![0x47u8, 0x00u8],
        Direction::Down => vec![0x46u8, 0x00u8],
    };
    proof {
        assert(r@ =~= move_opcode(direction));
    }
    r
}

/// Both writes that a stop consists of: the stop opcode on the command
/// characteristic and the reference-input reset on the reference-input
/// characteristic. Some hosts only honor a stop when both are issued, so a
/// caller must attempt both, whatever the first returns.
pub fn stop_writes() -> (r: Vec<CharacteristicWrite>)
    ensures
        r@.len() == 2,
        r@[0].endpoint == WriteEndpoint::Command,
        r@[0].payload@ == stop_opcode(),
        r@[1].endpoint == WriteEndpoint::ReferenceInput,
        r@[1].payload@ == reference_reset_opcode(),
{
    let stop_payload: Vec<u8> = vec![0xFFu8, 0x00u8];
    let reference_payload: Vec<u8> = vec![0x01u8, 0x80u8];
    proof {
        assert(stop_payload@ =~= stop_opcode());
        assert(reference_payload@ =~= reference_reset_opcode());
    }
    let mut r: Vec<CharacteristicWrite> = Vec::new();
    r.push(CharacteristicWrite { endpoint: WriteEndpoint::Command, payload: stop_payload });
    r.push(
        CharacteristicWrite { endpoint: WriteEndpoint::ReferenceInput, payload: reference_payload },
    );
    r
}

/// The ordered transport writes that one controller command expands to.
pub fn command_writes(command: DeskCommand) -> (r: Vec<CharacteristicWrite>)
    ensures
        match command {
            DeskCommand::Stop => {
                &&& r@.len() == 2
                &&& r@[0].endpoint == WriteEndpoint::Command
                &&& r@[0].payload@ == stop_opcode()
                &&& r@[1].endpoint == WriteEndpoint::ReferenceInput
                &&& r@[1].payload@ == reference_reset_opcode()
            },
            DeskCommand::Move(direction) => {
                &&& r@.len() == 1
                &&& r@[0].endpoint == WriteEndpoint::Command
                &&& r@[0].payload@ == move_opcode(direction)
            },
        },
{
    match command {
        DeskCommand::Stop => stop_writes(),
        DeskCommand::Move(direction) => {
            let payload = move_command(direction);
            let mut r: Vec<CharacteristicWrite> = Vec::new();
            r.push(CharacteristicWrite { endpoint: WriteEndpoint::Command, payload });
            r
        },
    }
}

/// The characteristic identifier a write endpoint stands for.
pub fn endpoint_uuid(endpoint: WriteEndpoint) -> (u: u128)
    ensures
        endpoint == WriteEndpoint::Command ==> u == UUID_COMMAND,
        endpoint == WriteEndpoint::ReferenceInput ==> u == UUID_REFERENCE_INPUT,
{
    match endpoint {
        WriteEndpoint::Command => UUID_COMMAND,
        WriteEndpoint::ReferenceInput => UUID_REFERENCE_INPUT,
    }
}

/// Combine the results of the two stop writes. A stop succeeds only when
/// both writes did; a partial success is an overall failure, though the
/// write that did land is not rolled back. Taking both results as arguments
/// means a caller must have attempted both writes before it can report.
pub fn stop_outcome(
    command_result: Result<(), DeskError>,
    reference_result: Result<(), DeskError>,
) -> (r: Result<(), DeskError>)
    ensures
        r is Ok <==> (command_result is Ok && reference_result is Ok),
        command_result matches Err(e) ==> r == Err::<(), DeskError>(e),
        command_result is Ok ==> r == reference_result,
{
    match command_result {
        Err(e) => Err(e),
        Ok(()) => reference_result,
    }
}

} // verus!
