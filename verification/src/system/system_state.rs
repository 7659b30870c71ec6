use vstd::prelude::*;
use crate::stepper::StepperDirection;
use crate::web::protocol::Command;

verus! {

/// Operating mode of the tracker.
#[derive(Clone, Copy, Debug, PartialEq, Eq, Structural)]
pub enum SystemState {
    Tracking,
    Calibrating,
    Moving,
    Idle,
}

/// Whether the tracker may go from mode `from` to mode `to`.
///
/// A calibration may be started from any mode, and a finished calibration
/// leaves for idle; tracking can only be left for idle or a calibration; a
/// constant movement may be replaced by another one, stopped, or replaced by
/// a calibration; from idle every busy mode may be entered.
pub open spec fn transition_permitted(from: SystemState, to: SystemState) -> bool {
    match from {
        SystemState::Tracking => to == SystemState::Idle || to == SystemState::Calibrating,
        SystemState::Calibrating => to == SystemState::Idle || to == SystemState::Calibrating,
        SystemState::Moving => {
            ||| to == SystemState::Idle
            ||| to == SystemState::Moving
            ||| to == SystemState::Calibrating
        },
        SystemState::Idle => {
            ||| to == SystemState::Moving
            ||| to == SystemState::Calibrating
            ||| to == SystemState::Tracking
        },
    }
}

/// What a command that reaches the tracker in mode `state` is to run, and
/// the mode after it. A movement or a calibration runs only when the mode
/// may change to it. While calibrating, tracking commands do not run. Enabling tracking runs only when the mode may change to
/// tracking; otherwise, as for disabling it, tracking is turned off when the
/// mode may change to idle. The state request and the camera commands run in
/// any mode; unknown commands do not run.
pub open spec fn gated_command(state: SystemState, command: Command) -> (Option<Command>, SystemState) {
    match command {
        Command::MoveConstant(_, _) => if transition_permitted(state, SystemState::Moving) {
            (Some(command), SystemState::Moving)
        } else {
            (None, state)
        },
        Command::StartCalibration => if transition_permitted(state, SystemState::Calibrating) {
            (Some(command), SystemState::Calibrating)
        } else {
            (None, state)
        },
        Command::SetTracking(enable) => if state == SystemState::Calibrating {
            (None, state)
        } else if enable && transition_permitted(
            state,
            SystemState::Tracking,
        ) {
            (Some(Command::SetTracking(true)), SystemState::Tracking)
        } else if transition_permitted(state, SystemState::Idle) {
            (Some(Command::SetTracking(false)), SystemState::Idle)
        } else {
            (None, state)
        },
        Command::Unknown => (None, state),
        _ => (Some(command), state),
    }
}

/// A calibration can be started at any time, and once it has run the
/// tracker can go idle; a calibration is left only for idle or for a new
/// calibration, and no movement or tracking command interrupts it.
pub proof fn lemma_calibration_any_time(from: SystemState, to: SystemState)
    ensures
        transition_permitted(from, SystemState::Calibrating),
        transition_permitted(SystemState::Calibrating, SystemState::Idle),
        transition_permitted(SystemState::Calibrating, to) ==> (to == SystemState::Idle || to
            == SystemState::Calibrating),
        gated_command(from, Command::StartCalibration) == (
            Some(Command::StartCalibration),
            SystemState::Calibrating,
        ),
        forall|direction: StepperDirection, speed: u16, enable: bool|
            gated_command(SystemState::Calibrating, Command::MoveConstant(direction, speed)) == (
            None::<Command>,
            SystemState::Calibrating,
        ) && gated_command(SystemState::Calibrating, Command::SetTracking(enable)) == (
            None::<Command>,
            SystemState::Calibrating,
        ),
{
}

/// Tracking is only entered from idle, and the tracker can always go idle
/// while it tracks, moves or calibrates.
pub proof fn lemma_tracking_starts_from_idle(from: SystemState)
    ensures
        transition_permitted(from, SystemState::Tracking) ==> from == SystemState::Idle,
        from != SystemState::Idle ==> transition_permitted(from, SystemState::Idle),
{
}

/// The permitted mode changes are exactly these: tracking to idle or
/// calibrating; calibrating to idle or calibrating; moving to idle, moving or
/// calibrating; idle to moving, calibrating or tracking.
pub proof fn lemma_transition_table(from: SystemState, to: SystemState)
    ensures
        transition_permitted(from, to) <==> (
        (from == SystemState::Tracking && to == SystemState::Idle)
            || (from == SystemState::Tracking && to == SystemState::Calibrating)
            || (from == SystemState::Calibrating && to == SystemState::Idle)
            || (from == SystemState::Calibrating && to == SystemState::Calibrating)
            || (from == SystemState::Moving && to == SystemState::Idle)
            || (from == SystemState::Moving && to == SystemState::Moving)
            || (from == SystemState::Moving && to == SystemState::Calibrating)
            || (from == SystemState::Idle && to == SystemState::Moving)
            || (from == SystemState::Idle && to == SystemState::Calibrating)
            || (from == SystemState::Idle && to == SystemState::Tracking)),
{
}

/// A movement runs, and leaves the tracker moving, exactly from idle or
/// from another movement; from tracking or calibrating it is refused and the
/// mode stays. Commands that do not touch the motor run in every mode and
/// keep it; unknown commands never run.
pub proof fn lemma_movement_and_passive_commands(
    state: SystemState,
    direction: StepperDirection,
    speed: u16,
    interval: u32,
)
    ensures
        (state == SystemState::Idle || state == SystemState::Moving) ==> gated_command(
            state,
            Command::MoveConstant(direction, speed),
        ) == (Some(Command::MoveConstant(direction, speed)), SystemState::Moving),
        (state == SystemState::Tracking || state == SystemState::Calibrating) ==> gated_command(
            state,
            Command::MoveConstant(direction, speed),
        ) == (None::<Command>, state),
        gated_command(state, Command::RepeatLastEvent) == (Some(Command::RepeatLastEvent), state),
        gated_command(state, Command::TestCapture) == (Some(Command::TestCapture), state),
        gated_command(state, Command::StartAutoCapture(interval)) == (
            Some(Command::StartAutoCapture(interval)),
            state,
        ),
        gated_command(state, Command::StopAutoCapture) == (Some(Command::StopAutoCapture), state),
        gated_command(state, Command::Unknown) == (None::<Command>, state),
{
}

/// Turning tracking off, or stopping, while the tracker tracks or moves
/// always runs and leaves the tracker idle; enabling tracking from idle
/// always runs and leaves it tracking.
pub proof fn lemma_tracking_off_goes_idle(enable: bool)
    ensures
        gated_command(SystemState::Tracking, Command::SetTracking(false)) == (
            Some(Command::SetTracking(false)),
            SystemState::Idle,
        ),
        gated_command(SystemState::Moving, Command::SetTracking(false)) == (
            Some(Command::SetTracking(false)),
            SystemState::Idle,
        ),
        gated_command(SystemState::Tracking, Command::SetTracking(true)) == (
            Some(Command::SetTracking(false)),
            SystemState::Idle,
        ),
        gated_command(SystemState::Moving, Command::SetTracking(true)) == (
            Some(Command::SetTracking(false)),
            SystemState::Idle,
        ),
        gated_command(SystemState::Idle, Command::SetTracking(true)) == (
            Some(Command::SetTracking(true)),
            SystemState::Tracking,
        ),
        gated_command(SystemState::Idle, Command::SetTracking(false)) == (
            None::<Command>,
            SystemState::Idle,
        ),
{
}

/// A command that runs leaves the tracker in the mode it asks for, and one
/// that is refused leaves the mode unchanged.
pub proof fn lemma_gate_sets_mode(state: SystemState, command: Command)
    ensures
        ({
            let (to_run, next) = gated_command(state, command);
            &&& to_run matches Some(Command::MoveConstant(_, _)) ==> next == SystemState::Moving
            &&& to_run matches Some(Command::StartCalibration) ==> next == SystemState::Calibrating
            &&& to_run == Some(Command::SetTracking(true)) ==> next == SystemState::Tracking
            &&& to_run == Some(Command::SetTracking(false)) ==> next == SystemState::Idle
            &&& to_run is None ==> next == state
        }),
{
}

impl SystemState {
    /// The mode the tracker starts in: idle.
    pub fn new() -> (state: Self)
        ensures
            state == SystemState::Idle,
    {
        SystemState::Idle
    }

    /// Switches to `new_state` when that transition is permitted, and says
    /// whether it switched. A refused transition leaves the mode unchanged.
    pub fn transition(&mut self, new_state: SystemState) -> (changed: bool)
        ensures
            changed == transition_permitted(*old(self), new_state),
            changed ==> *final(self) == new_state,
            !changed ==> *final(self) == *old(self),
    {
        if self.transition_allowed(&new_state) {
            *self = new_state;
            return true;
        }
        false
    }

    /// Checks `command` against the mode and changes the mode as it asks
    /// (see `gated_command`); returns the command to run, if any.
    pub fn gate_command(&mut self, command: Command) -> (to_run: Option<Command>)
        ensures
            (to_run, *final(self)) == gated_command(*old(self), command),
    {
        match command {
            Command::MoveConstant(_, _) => {
                if self.transition(SystemState::Moving) {
                    Some(command)
                } else {
                    None
                }
            },
            Command::StartCalibration => {
                if self.transition(SystemState::Calibrating) {
                    Some(command)
                } else {
                    None
                }
            },
            Command::SetTracking(enable) => {
                if *self == SystemState::Calibrating {
                    None
                } else if enable && self.transition(SystemState::Tracking) {
                    Some(Command::SetTracking(true))
                } else if self.transition(SystemState::Idle) {
                    Some(Command::SetTracking(false))
                } else {
                    None
                }
            },
            Command::Unknown => None,
            _ => Some(command),
        }
    }

    fn transition_allowed(&self, new_state: &SystemState) -> (allowed: bool)
        ensures
            allowed == transition_permitted(*self, *new_state),
    {
        let targets = Self::get_allowed_transitions(self);
        let mut i: usize = 0;
        while i < targets.len()
            invariant
                0 <= i <= targets.len(),
                forall|j: int| 0 <= j < i ==> targets@[j] != *new_state,
                forall|s: SystemState| targets@.contains(s) <==> transition_permitted(*self, s),
            decreases targets.len() - i,
        {
            if targets[i] == *new_state {
                return true;
            }
            i = i + 1;
        }
        assert(!targets@.contains(*new_state));
        false
    }

    fn get_allowed_transitions(state: &SystemState) -> (targets: Vec<SystemState>)
        ensures
            forall|s: SystemState| targets@.contains(s) <==> transition_permitted(*state, s),
    {
        let mut targets: Vec<SystemState> = Vec::new();
        match state {
            SystemState::Tracking => {
                targets.push(SystemState::Idle);
                targets.push(SystemState::Calibrating);
            },
            SystemState::Calibrating => {
                targets.push(SystemState::Idle);
                targets.push(SystemState::Calibrating);
            },
            SystemState::Moving => {
                targets.push(SystemState::Idle);
                targets.push(SystemState::Moving);
                targets.push(SystemState::Calibrating);
            },
            SystemState::Idle => {
                targets.push(SystemState::Moving);
                targets.push(SystemState::Calibrating);
                targets.push(SystemState::Tracking);
            },
        }
        proof {
            assert forall|s: SystemState| targets@.contains(s) <==> transition_permitted(*state, s) by {
                if transition_permitted(*state, s) {
                    match *state {
                        SystemState::Tracking | SystemState::Calibrating => {
                            if s == SystemState::Idle {
                                assert(targets@[0] == s);
                            } else {
                                assert(targets@[1] == s);
                            }
                        },
                        SystemState::Moving => {
                            if s == SystemState::Idle {
                                assert(targets@[0] == s);
                            } else if s == SystemState::Moving {
                                assert(targets@[1] == s);
                            } else {
                                assert(targets@[2] == s);
                            }
                        },
                        SystemState::Idle => {
                            if s == SystemState::Moving {
                                assert(targets@[0] == s);
                            } else if s == SystemState::Calibrating {
                                assert(targets@[1] == s);
                            } else {
                                assert(targets@[2] == s);
                            }
                        },
                    }
                }
            }
        }
        targets
    }
}

} // verus!
