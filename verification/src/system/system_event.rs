use vstd::prelude::*;
use crate::system::system_state::SystemState;

verus! {

/// Something that happened on the tracker and that its clients hear of.
#[derive(Clone, Copy, Debug, PartialEq, Eq, Structural)]
pub enum SystemEvent {
    CalibrationStarted,
    /// A step was counted while tracking: (turns, steps of the current turn).
    StepComplete(u16, u16),
    /// A full turn was completed: the new number of turns.
    RotationComplete(u16),
    TrackingStart,
    /// A constant movement started: (direction, 1 for up and 0 for down; steps per second).
    MovementStarted(u8, u16),
    MovementStop,
    ImageCaptured,
    AutoCaptureStarted,
    AutoCaptureStopped,
    SystemStateInfo(SystemState),
}

} // verus!
