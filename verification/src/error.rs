use vstd::prelude::*;

verus! {

/// Errors surfaced by the desk control library.
///
/// Height payloads are in height units of 0.1 mm (see [`crate::units`]).
#[derive(Debug, Clone, Copy, PartialEq, Eq, Structural)]
pub enum DeskError {
    /// The requested target lies above the highest reachable position.
    TargetHeightTooHigh(u32),
    /// The requested target lies below the lowest reachable position.
    TargetHeightTooLow(u32),
    /// The desk moved opposite to the direction of travel: its obstacle
    /// protection reversed the motion, so the seek was aborted.
    DeskMoveSafetyKickedIn,
    /// The height feed was exhausted before the target was reached.
    SeekTimedOut,
    /// No peripheral with the requested address was discovered.
    DeviceNotFound,
    /// Every connection attempt failed.
    ConnectionExhausted,
    /// The peripheral lacks one of the required characteristics and is
    /// therefore not a supported desk.
    MissingCharacteristic,
    /// Subscribing to height notifications failed; without feedback the
    /// controller cannot safely run.
    CannotSubscribePosition,
    /// An underlying transport read or write failed.
    TransportError,
}

} // verus!
