//! The stepper motor that drives the tracker's threaded rod.

pub mod rotation_state;
pub mod stepper_event;

use vstd::prelude::*;
use crate::stepper::rotation_state::{
    RotationConfigData,
    RotationState,
    RotationStateView,
    STEPS_PER_ROTATION,
    initial_rotation_state,
    position_after_decrement,
    position_after_increment,
};
use crate::system::system_event::SystemEvent;

verus! {

/// Direction in which the motor moves the tracker.
#[derive(Clone, Copy, Debug, PartialEq, Eq, Structural)]
pub enum StepperDirection {
    UP,
    DOWN,
}

/// Marker for a stepper whose step timer has not been created yet.
pub struct Off;

/// Marker for a stepper whose step timer exists.
pub struct On;

/// What a step made by the step timer leads to.
#[derive(Clone, Copy, Debug, PartialEq, Eq, Structural)]
pub enum StepOutcome {
    /// Calibration runs: the step is not counted.
    NotCounted,
    /// The step reached the top or the bottom of the travel: the movement
    /// stops, and tracking with it.
    LimitReached,
    /// The step was counted. `rotation_event` reports a new number of turns,
    /// `step_event` the new position while tracking; they are posted in this
    /// order.
    Counted { rotation_event: Option<SystemEvent>, step_event: Option<SystemEvent> },
}

/// The position after one step in `direction` from the position of `state`.
pub open spec fn position_after_step(state: RotationStateView, direction: StepperDirection) -> (
    int,
    int,
) {
    match direction {
        StepperDirection::UP => position_after_increment(
            state.rotations as int,
            state.rotation_offset as int,
        ),
        StepperDirection::DOWN => position_after_decrement(
            state.rotations as int,
            state.rotation_offset as int,
        ),
    }
}

/// Whether a step in `direction` from the position of `state` can be counted
/// in 16 bits: up, not past the last turn a `u16` counts; down, not below
/// the bottom.
pub open spec fn step_countable(state: RotationStateView, direction: StepperDirection) -> bool {
    match direction {
        StepperDirection::UP => state.rotation_offset < rotation_state::STEPS_PER_ROTATION - 1
            || state.rotations < u16::MAX,
        StepperDirection::DOWN => state.rotation_offset > 0 || state.rotations > 0,
    }
}

/// The outcome of a step that the step timer made, and the rotation state
/// after it. While calibrating nothing is counted. Otherwise the position
/// moves one step in `direction`; at the top or the bottom of the travel the
/// movement stops. Else a completed turn is reported, and while tracking the
/// new position is reported and the speed follows the profile.
pub open spec fn counted_step(
    state: RotationStateView,
    direction: StepperDirection,
    calibrating: bool,
    tracking: bool,
) -> (StepOutcome, RotationStateView) {
    let stepped = state.at_position(position_after_step(state, direction));
    if calibrating {
        (StepOutcome::NotCounted, state)
    } else if stepped.at_top() || stepped.at_bottom() {
        (StepOutcome::LimitReached, stepped)
    } else {
        (
            StepOutcome::Counted {
                rotation_event: if stepped.rotations != state.rotations {
                    Some(SystemEvent::RotationComplete(stepped.rotations))
                } else {
                    None
                },
                step_event: if tracking {
                    Some(SystemEvent::StepComplete(stepped.rotations, stepped.rotation_offset))
                } else {
                    None
                },
            },
            if tracking {
                stepped.after_speed_update()
            } else {
                stepped
            },
        )
    }
}

/// A counted step never ends at a limit of the travel: a step that reaches
/// the top or the bottom stops the movement instead. Calibration steps leave
/// the rotation state as it was.
pub proof fn lemma_counted_steps_stay_inside(
    state: RotationStateView,
    direction: StepperDirection,
    calibrating: bool,
    tracking: bool,
)
    ensures
        ({
            let (outcome, next) = counted_step(state, direction, calibrating, tracking);
            &&& outcome is Counted ==> !next.at_top() && !next.at_bottom()
            &&& calibrating ==> outcome == StepOutcome::NotCounted && next == state
        }),
{
    let stepped = state.at_position(position_after_step(state, direction));
    if !calibrating && tracking && !(stepped.at_top() || stepped.at_bottom()) {
        crate::stepper::rotation_state::lemma_speed_update_moves_forward(stepped);
    }
}

/// The speed profile is followed only while tracking: a step counted
/// without tracking moves the motor and changes nothing else, so a constant
/// movement keeps its speed.
pub proof fn lemma_untracked_step_keeps_speed(state: RotationStateView, direction: StepperDirection)
    ensures
        ({
            let next = counted_step(state, direction, false, false).1;
            &&& next.steps_per_second == state.steps_per_second
            &&& next.next_speed_change == state.next_speed_change
            &&& next.speed_config == state.speed_config
        }),
{
}

/// A step that is counted moves the motor by exactly one step of the
/// `STEPS_PER_ROTATION` in a turn, up or down as asked, and stays within a
/// turn; it reports a new number of turns exactly when the turn changed, and
/// the new position exactly while tracking.
pub proof fn lemma_counted_step_moves_one(
    state: RotationStateView,
    direction: StepperDirection,
    tracking: bool,
)
    requires
        state.rotation_offset < STEPS_PER_ROTATION,
    ensures
        ({
            let (outcome, next) = counted_step(state, direction, false, tracking);
            let before = state.rotations * STEPS_PER_ROTATION + state.rotation_offset;
            let after = next.rotations * STEPS_PER_ROTATION + next.rotation_offset;
            &&& outcome != StepOutcome::NotCounted
            &&& (outcome is Counted || outcome is LimitReached)
            &&& step_countable(state, direction) ==> {
                &&& after == if direction == StepperDirection::UP {
                    before + 1
                } else {
                    before - 1
                }
                &&& next.rotation_offset < STEPS_PER_ROTATION
            }
            &&& (outcome matches StepOutcome::Counted { rotation_event, step_event } ==> {
                &&& (rotation_event is Some <==> next.rotations != state.rotations)
                &&& (rotation_event matches Some(e) ==> e == SystemEvent::RotationComplete(
                    next.rotations,
                ))
                &&& (step_event is Some <==> tracking)
                &&& (step_event matches Some(e) ==> e == SystemEvent::StepComplete(
                    next.rotations,
                    next.rotation_offset,
                ))
            })
            &&& (outcome is LimitReached <==> (next.rotations >= rotation_state::MAX_ROTATIONS || (
            next.rotations == 0 && next.rotation_offset == 0)))
        }),
{
    let stepped = state.at_position(position_after_step(state, direction));
    if tracking && !(stepped.at_top() || stepped.at_bottom()) {
        crate::stepper::rotation_state::lemma_speed_update_moves_forward(stepped);
    }
}

/// Within the travel every step can be counted, except a step down at the
/// bottom.
pub proof fn lemma_steps_in_travel_countable(state: RotationStateView, direction: StepperDirection)
    requires
        state.rotations <= rotation_state::MAX_ROTATIONS,
        !(direction == StepperDirection::DOWN && state.at_bottom()),
    ensures
        step_countable(state, direction),
{
}

/// Counts a step that the step timer made (see `counted_step`).
pub fn count_step(
    rotation_state: &mut RotationState,
    direction: StepperDirection,
    calibrating: bool,
    tracking: bool,
) -> (outcome: StepOutcome)
    requires
        !calibrating ==> step_countable(old(rotation_state)@, direction),
    ensures
        (outcome, final(rotation_state)@) == counted_step(
            old(rotation_state)@,
            direction,
            calibrating,
            tracking,
        ),
{
    let (rotations, _offset) = rotation_state.get_rotation();
    if calibrating {
        return StepOutcome::NotCounted;
    }
    let (modified_rotations, modified_offset) = if direction == StepperDirection::UP {
        rotation_state.increment_step()
    } else {
        rotation_state.decrement_step()
    };
    if rotation_state.max_reached() || rotation_state.min_reached() {
        return StepOutcome::LimitReached;
    }
    let rotation_event = if rotations != modified_rotations {
        Some(SystemEvent::RotationComplete(modified_rotations))
    } else {
        None
    };
    let step_event = if tracking {
        rotation_state.update_speed();
        Some(SystemEvent::StepComplete(modified_rotations, modified_offset))
    } else {
        None
    };
    StepOutcome::Counted { rotation_event, step_event }
}

/// Something the stepper's hardware is to do.
#[derive(Clone, Copy, Debug, PartialEq, Eq, Structural)]
pub enum StepperAction {
    /// Post an event on the system event loop.
    Post(SystemEvent),
    /// Set the direction pin: high for up, low for down.
    SetDirectionPin(StepperDirection),
    /// Start the periodic step timer.
    StartTimer,
    /// Cancel the step timer.
    StopTimer,
}

/// The state that the stepper's commands and its step timer share: whether
/// it tracks, whether it calibrates, the direction and the rotation state.
pub struct StepperControl {
    pub tracking: bool,
    pub calibrating: bool,
    pub direction: StepperDirection,
    pub rotation_state: RotationState,
}

/// The number by which a movement event reports a direction.
pub open spec fn direction_code(direction: StepperDirection) -> u8 {
    match direction {
        StepperDirection::UP => 1,
        StepperDirection::DOWN => 0,
    }
}

/// What stopping a movement does: report the stop when asked to, and cancel
/// the step timer when it runs.
pub open spec fn stop_actions(post_event: bool, timer_running: bool) -> Seq<StepperAction> {
    (if post_event {
        seq![StepperAction::Post(SystemEvent::MovementStop)]
    } else {
        seq![]
    }) + (if timer_running {
        seq![StepperAction::StopTimer]
    } else {
        seq![]
    })
}

/// What starting a constant movement does.
pub open spec fn move_actions(
    direction: StepperDirection,
    speed: u16,
    timer_running: bool,
) -> Seq<StepperAction> {
    seq![StepperAction::Post(SystemEvent::MovementStarted(direction_code(direction), speed))]
        + stop_actions(false, timer_running) + seq![
        StepperAction::SetDirectionPin(direction),
        StepperAction::StartTimer,
    ]
}

/// What starting to track does.
pub open spec fn tracking_actions(timer_running: bool) -> Seq<StepperAction> {
    seq![StepperAction::Post(SystemEvent::TrackingStart)] + stop_actions(false, timer_running)
        + seq![StepperAction::SetDirectionPin(StepperDirection::UP), StepperAction::StartTimer]
}

/// What the outcome of a counted step asks of the hardware: at a limit,
/// report the stop and cancel the timer; after a counted step, post its
/// events in order.
pub open spec fn step_actions(outcome: StepOutcome) -> Seq<StepperAction> {
    match outcome {
        StepOutcome::NotCounted => seq![],
        StepOutcome::LimitReached => seq![
            StepperAction::Post(SystemEvent::MovementStop),
            StepperAction::StopTimer,
        ],
        StepOutcome::Counted { rotation_event, step_event } => (match rotation_event {
            Some(event) => seq![StepperAction::Post(event)],
            None => seq![],
        }) + (match step_event {
            Some(event) => seq![StepperAction::Post(event)],
            None => seq![],
        }),
    }
}

fn push_stop_actions(actions: &mut Vec<StepperAction>, post_event: bool, timer_running: bool)
    ensures
        final(actions)@ == old(actions)@ + stop_actions(post_event, timer_running),
{
    let ghost start = actions@;
    if post_event {
        actions.push(StepperAction::Post(SystemEvent::MovementStop));
    }
    if timer_running {
        actions.push(StepperAction::StopTimer);
    }
    assert(actions@ =~= start + stop_actions(post_event, timer_running));
}

impl StepperControl {
    /// A stepper that neither tracks nor calibrates, set to move up, at rest
    /// at position zero with the speed profile `speed_config`.
    pub fn new(speed_config: [RotationConfigData; 9]) -> (control: Self)
        ensures
            !control.tracking,
            !control.calibrating,
            control.direction == StepperDirection::UP,
            control.rotation_state@ == initial_rotation_state(speed_config@),
    {
        StepperControl {
            tracking: false,
            calibrating: false,
            direction: StepperDirection::UP,
            rotation_state: RotationState::new(speed_config),
        }
    }

    /// Stops any movement: reports the stop when `post_event` is set, and,
    /// when the step timer runs, ends tracking and cancels the timer.
    pub fn stop_movement(&mut self, post_event: bool, timer_running: bool) -> (actions: Vec<
        StepperAction,
    >)
        ensures
            actions@ == stop_actions(post_event, timer_running),
            final(self).tracking == (old(self).tracking && !timer_running),
            final(self).calibrating == old(self).calibrating,
            final(self).direction == old(self).direction,
            final(self).rotation_state@ == old(self).rotation_state@,
    {
        let mut actions: Vec<StepperAction> = Vec::new();
        push_stop_actions(&mut actions, post_event, timer_running);
        if timer_running {
            self.tracking = false;
        }
        assert(actions@ =~= stop_actions(post_event, timer_running));
        actions
    }

    /// Moves in `direction` at `speed` steps per second: reports the
    /// movement, stops the previous one, sets the direction and the speed and
    /// starts the step timer. At speed zero the timer makes no steps.
    pub fn move_constant(
        &mut self,
        direction: StepperDirection,
        speed: u16,
        timer_running: bool,
    ) -> (actions: Vec<StepperAction>)
        ensures
            actions@ == move_actions(direction, speed, timer_running),
            final(self).tracking == (old(self).tracking && !timer_running),
            final(self).calibrating == old(self).calibrating,
            final(self).direction == direction,
            final(self).rotation_state@ == (RotationStateView {
                steps_per_second: speed,
                ..old(self).rotation_state@
            }),
    {
        let mut actions: Vec<StepperAction> = Vec::new();
        let code: u8 = if direction == StepperDirection::UP { 1 } else { 0 };
        actions.push(StepperAction::Post(SystemEvent::MovementStarted(code, speed)));
        push_stop_actions(&mut actions, false, timer_running);
        if timer_running {
            self.tracking = false;
        }
        self.direction = direction;
        actions.push(StepperAction::SetDirectionPin(direction));
        self.rotation_state.set_speed(speed);
        actions.push(StepperAction::StartTimer);
        assert(actions@ =~= move_actions(direction, speed, timer_running));
        actions
    }

    /// Starts tracking: reports it, stops the previous movement, moves up,
    /// follows the speed profile and starts the step timer.
    pub fn start_tracking(&mut self, timer_running: bool) -> (actions: Vec<StepperAction>)
        ensures
            actions@ == tracking_actions(timer_running),
            final(self).tracking,
            final(self).calibrating == old(self).calibrating,
            final(self).direction == StepperDirection::UP,
            final(self).rotation_state@ == old(self).rotation_state@.after_speed_update(),
    {
        let mut actions: Vec<StepperAction> = Vec::new();
        actions.push(StepperAction::Post(SystemEvent::TrackingStart));
        push_stop_actions(&mut actions, false, timer_running);
        self.direction = StepperDirection::UP;
        actions.push(StepperAction::SetDirectionPin(StepperDirection::UP));
        self.tracking = true;
        self.rotation_state.update_speed();
        actions.push(StepperAction::StartTimer);
        assert(actions@ =~= tracking_actions(timer_running));
        actions
    }

    /// Starts tracking when `enabled`, else stops the movement and reports
    /// the stop.
    pub fn set_tracking(&mut self, enabled: bool, timer_running: bool) -> (actions: Vec<
        StepperAction,
    >)
        ensures
            enabled ==> {
                &&& actions@ == tracking_actions(timer_running)
                &&& final(self).tracking
                &&& final(self).calibrating == old(self).calibrating
                &&& final(self).direction == StepperDirection::UP
                &&& final(self).rotation_state@ == old(self).rotation_state@.after_speed_update()
            },
            !enabled ==> {
                &&& actions@ == stop_actions(true, timer_running)
                &&& final(self).tracking == (old(self).tracking && !timer_running)
                &&& final(self).calibrating == old(self).calibrating
                &&& final(self).direction == old(self).direction
                &&& final(self).rotation_state@ == old(self).rotation_state@
            },
    {
        if enabled {
            self.start_tracking(timer_running)
        } else {
            self.stop_movement(true, timer_running)
        }
    }

    /// Starts calibrating: reports it and moves down at one turn per second
    /// until the limit switch ends the calibration. Steps made while
    /// calibrating are not counted.
    pub fn start_calibration(&mut self, timer_running: bool) -> (actions: Vec<StepperAction>)
        ensures
            actions@ == seq![StepperAction::Post(SystemEvent::CalibrationStarted)]
                + move_actions(StepperDirection::DOWN, STEPS_PER_ROTATION, timer_running),
            final(self).tracking == (old(self).tracking && !timer_running),
            final(self).calibrating,
            final(self).direction == StepperDirection::DOWN,
            final(self).rotation_state@ == (RotationStateView {
                steps_per_second: STEPS_PER_ROTATION,
                ..old(self).rotation_state@
            }),
    {
        let mut actions: Vec<StepperAction> = Vec::new();
        actions.push(StepperAction::Post(SystemEvent::CalibrationStarted));
        self.calibrating = true;
        let mut rest = self.move_constant(StepperDirection::DOWN, STEPS_PER_ROTATION, timer_running);
        actions.append(&mut rest);
        actions
    }

    /// Ends a calibration at the bottom of the travel: stops the movement
    /// and reports the stop, and counts the position from zero again.
    pub fn end_calibration(&mut self, timer_running: bool) -> (actions: Vec<StepperAction>)
        ensures
            actions@ == stop_actions(true, timer_running),
            final(self).tracking == (old(self).tracking && !timer_running),
            !final(self).calibrating,
            final(self).direction == old(self).direction,
            final(self).rotation_state@ == initial_rotation_state(
                old(self).rotation_state@.speed_config,
            ),
    {
        let actions = self.stop_movement(true, timer_running);
        self.rotation_state.reset();
        self.calibrating = false;
        actions
    }

    /// Whether the next step of the step timer can be counted in 16 bits.
    pub fn step_countable(&self) -> (countable: bool)
        ensures
            countable == (self.calibrating || step_countable(self.rotation_state@, self.direction)),
    {
        if self.calibrating {
            return true;
        }
        let (rotations, offset) = self.rotation_state.get_rotation();
        match self.direction {
            StepperDirection::UP => offset < STEPS_PER_ROTATION - 1 || rotations < u16::MAX,
            StepperDirection::DOWN => offset > 0 || rotations > 0,
        }
    }

    /// Handles a step that the step timer made: counts it (see
    /// `counted_step`), ends tracking at a limit of the travel, and says
    /// what the hardware is to do.
    pub fn step(&mut self) -> (actions: Vec<StepperAction>)
        requires
            !old(self).calibrating ==> step_countable(
                old(self).rotation_state@,
                old(self).direction,
            ),
        ensures
            ({
                let (outcome, state) = counted_step(
                    old(self).rotation_state@,
                    old(self).direction,
                    old(self).calibrating,
                    old(self).tracking,
                );
                &&& actions@ == step_actions(outcome)
                &&& final(self).rotation_state@ == state
                &&& final(self).tracking == (old(self).tracking && outcome
                    != StepOutcome::LimitReached)
            }),
            final(self).calibrating == old(self).calibrating,
            final(self).direction == old(self).direction,
    {
        let outcome = count_step(
            &mut self.rotation_state,
            self.direction,
            self.calibrating,
            self.tracking,
        );
        let mut actions: Vec<StepperAction> = Vec::new();
        match outcome {
            StepOutcome::NotCounted => {},
            StepOutcome::LimitReached => {
                actions.push(StepperAction::Post(SystemEvent::MovementStop));
                actions.push(StepperAction::StopTimer);
                self.tracking = false;
            },
            StepOutcome::Counted { rotation_event, step_event } => {
                if let Some(event) = rotation_event {
                    actions.push(StepperAction::Post(event));
                }
                if let Some(event) = step_event {
                    actions.push(StepperAction::Post(event));
                }
            },
        }
        assert(actions@ =~= step_actions(outcome));
        actions
    }
}

} // verus!
