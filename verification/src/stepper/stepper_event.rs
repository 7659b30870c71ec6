use vstd::prelude::*;

verus! {

/// Something that happened on the stepper motor.
#[derive(Clone, Copy, Debug, PartialEq, Eq, Structural)]
pub enum StepperEvent {
    /// A step was counted: (turns, steps of the current turn).
    StepComplete(u16, u16),
    /// A full turn was completed: the new number of turns.
    RotationComplete(u16),
    TrackingStart,
    MovementStartUp,
    MovementStartDown,
    MovementStop,
}

} // verus!
